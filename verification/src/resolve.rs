//! From a file and its language to the command that is run on it.
//!
//! The tool is the first of the language whose configuration is found above
//! the file, the executable is the vendored one, else the one on the search
//! path, else the default of the language, and the command is the expansion
//! of the tool's template.

use vstd::prelude::*;
use vstd::string::*;
use crate::registry::{LanguageConfig, LanguageSpec, ToolConfig};
use crate::search::{answers, is_config, is_vendored, test_config_for_tool, test_vendor};
use crate::template::str_text_of;
use crate::text::text_of;

verus! {

/// `picked` is the tool at position `tool` with the configuration file
/// `config`, as tool selection gives them for the file at `path`, going by
/// what `is_file` said: the first tool for which a configuration file was
/// found, with that file, and the first tool of all, without one, where none
/// was found for any tool.
pub open spec fn is_picked<F: Fn(&str) -> bool>(
    is_file: &F,
    path: Seq<char>,
    tools: Seq<Seq<Seq<char>>>,
    tool: int,
    config: Option<Seq<char>>,
) -> bool {
    &&& 0 <= tool < tools.len()
    &&& match config {
        Some(_) => is_config(is_file, path, tools[tool], config) && forall|u: int|
            0 <= u < tool ==> is_config(is_file, path, #[trigger] tools[u], None),
        None => tool == 0 && forall|u: int|
            0 <= u < tools.len() ==> is_config(is_file, path, #[trigger] tools[u], None),
    }
}

/// The configuration file names of each of `language`'s tools.
pub open spec fn config_names(language: LanguageSpec) -> Seq<Seq<Seq<char>>> {
    Seq::new(language.tools.len(), |t: int| language.tools[t].config_files)
}

/// Selects the tool for the file at `path` among the tools of its language.
/// The tools are tried in the order of their priority, and `is_file` is
/// asked whether a path is a regular file. The first tool with a
/// configuration file above the file is returned with the path of that
/// file; where no tool has one, the first tool is returned without.
pub fn pick_tool_for_file<'a, F: Fn(&str) -> bool>(
    path: &str,
    lang: &'a LanguageConfig,
    is_file: &F,
) -> (picked: (&'a ToolConfig, Option<String>))
    requires
        lang.tools.len() > 0,
        forall|p: &str| call_requires(*is_file, (p,)),
    ensures
        exists|t: int|
            #![trigger lang.tools[t]]
            is_picked(is_file, path@, config_names(lang@), t, text_of(picked.1)) && *picked.0
                == lang.tools[t],
{
    let ghost tools = config_names(lang@);
    let mut t: usize = 0;
    while t < lang.tools.len()
        invariant
            t <= lang.tools.len(),
            tools == config_names(lang@),
            forall|p: &str| call_requires(*is_file, (p,)),
            forall|u: int| 0 <= u < t ==> is_config(is_file, path@, #[trigger] tools[u], None),
        decreases lang.tools.len() - t,
    {
        let tool = &lang.tools[t];
        let names = tool.config_files.as_slice();
        assert(names.deep_view() =~= tools[t as int]);
        match test_config_for_tool(path, names, is_file) {
            Some(config_path) => {
                assert(is_picked(is_file, path@, tools, t as int, Some(config_path@)));
                assert(*tool == lang.tools[t as int]);
                return (tool, Some(config_path));
            },
            None => {},
        }
        t += 1;
    }
    assert(is_picked(is_file, path@, tools, 0, None));
    (&lang.tools[0], None)
}

/// The executable to run: the vendored one where there is one, else the one
/// from the search path where there is one, else the default.
pub open spec fn chosen_executable(
    vendored: Option<Seq<char>>,
    on_path: Option<Seq<char>>,
    default_executable: Seq<char>,
) -> Seq<char> {
    match vendored {
        Some(path) => path,
        None => match on_path {
            Some(path) => path,
            None => default_executable,
        },
    }
}

/// Chooses the executable to run from what the two lookups gave: a
/// project's own binary comes before an installed one, and an installed one
/// before the default name, which is handed on as it is.
pub fn choose_executable(
    vendored: Option<String>,
    on_path: Option<String>,
    default_executable: &str,
) -> (executable: String)
    ensures
        executable@ == chosen_executable(text_of(vendored), text_of(on_path), default_executable@),
{
    match vendored {
        Some(path) => path,
        None => match on_path {
            Some(path) => path,
            None => default_executable.to_owned(),
        },
    }
}

/// `executable` is what resolution gives for a tool named `tool` of the
/// language `lang_name`, going by what `present` said of the vendored
/// binaries above `path` and by what `lookup` gave for the tool's name. The
/// search path is asked only where no vendored binary was found.
pub open spec fn is_resolved<F: Fn(&str) -> bool, G: Fn(&str) -> Option<String>>(
    present: &F,
    lookup: &G,
    path: Seq<char>,
    lang_name: Seq<char>,
    tool: Seq<char>,
    default_executable: Seq<char>,
    executable: Seq<char>,
) -> bool {
    exists|vendored: Option<Seq<char>>, on_path: Option<String>|
        #![trigger is_vendored(present, path, lang_name, tool, vendored), text_of(on_path)]
        is_vendored(present, path, lang_name, tool, vendored) && (vendored is None ==> answers(
            *lookup,
            tool,
            on_path,
        )) && executable == chosen_executable(vendored, text_of(on_path), default_executable)
}

/// Resolves the executable of `tool` for the file at `path`. A binary that
/// the project has vendored above the file comes first; `present` is asked
/// whether a path is there. Next comes what `lookup` finds for the tool's
/// name on the program search path, and last the default executable of the
/// language, as it is.
pub fn resolve_executable<F: Fn(&str) -> bool, G: Fn(&str) -> Option<String>>(
    path: &str,
    lang: &LanguageConfig,
    tool: &ToolConfig,
    present: &F,
    lookup: &G,
) -> (executable: String)
    requires
        forall|p: &str| call_requires(*present, (p,)),
        forall|n: &str| call_requires(*lookup, (n,)),
    ensures
        is_resolved(
            present,
            lookup,
            path@,
            lang.name@,
            tool.executable@,
            lang.default_executable@,
            executable@,
        ),
{
    let vendored = test_vendor(path, lang.name, tool.executable, present);
    let ghost vendored_text = text_of(vendored);
    let on_path = if vendored.is_none() {
        lookup(tool.executable)
    } else {
        None
    };
    let ghost on_path_value = on_path;
    let executable = choose_executable(vendored, on_path, lang.default_executable);
    assert(is_vendored(present, path@, lang.name@, tool.executable@, vendored_text) && (
    vendored_text is None ==> answers(*lookup, tool.executable@, on_path_value)) && executable@
        == chosen_executable(vendored_text, text_of(on_path_value), lang.default_executable@));
    executable
}

/// The command that a tool's template expands to: the first argument of the
/// expansion is the program, the others are its arguments. An expansion
/// without arguments is no command.
pub open spec fn command_of(expansion: Seq<Seq<char>>) -> Option<(Seq<char>, Seq<Seq<char>>)> {
    if expansion.len() == 0 {
        None
    } else {
        Some((expansion[0], expansion.skip(1)))
    }
}

/// The program and the arguments of a command, by their characters.
pub open spec fn command_text(command: Option<(String, Vec<String>)>) -> Option<
    (Seq<char>, Seq<Seq<char>>),
> {
    match command {
        Some((program, args)) => Some((program@, args.deep_view())),
        None => None,
    }
}

/// Builds the command that runs `tool` as `executable`, with the
/// configuration file at `config_path` where one is given: the tool's
/// template is expanded, its first argument becomes the program and the
/// rest the arguments. `None` where the template expands to nothing.
pub fn build_command(
    executable: &str,
    _lang: &LanguageConfig,
    tool: &ToolConfig,
    config_path: Option<&str>,
) -> (command: Option<(String, Vec<String>)>)
    ensures
        command_text(command) == command_of(
            tool@.command_template.expand(executable@, str_text_of(config_path)),
        ),
{
    let mut args = tool.command_template.build(executable, config_path);
    if args.len() == 0 {
        return None;
    }
    let ghost expansion = args.deep_view();
    let program = args.remove(0);
    assert(args.deep_view() =~= expansion.skip(1));
    assert(program@ == expansion[0]);
    Some((program, args))
}

} // verus!

//! The whole way of one file: from its path to its place in a batch.

use vstd::prelude::*;
use vstd::string::*;
use crate::batch::{add_file, add_to_list, BatchSpec, FileBatchList};
use crate::detect::{find_language, is_detected, lemma_detection_is_unique};
use crate::registry::{LanguageConfig, LanguageSpec};
use crate::resolve::{
    build_command,
    command_of,
    command_text,
    config_names,
    is_picked,
    is_resolved,
    pick_tool_for_file,
    resolve_executable,
};
use crate::system::{find_on_path, path_exists, path_is_file};
use crate::text::text_of;

verus! {

/// The tool at position `tool` of `language`, picked with the configuration
/// file `config` and resolved to `executable`, gives `command` for the file
/// at `path`, going by what the probes said: `command` is what the tool's
/// template expands to with the two.
pub open spec fn commands<F: Fn(&str) -> bool, G: Fn(&str) -> bool, H: Fn(&str) -> Option<String>>(
    is_file: &F,
    present: &G,
    lookup: &H,
    path: Seq<char>,
    language: LanguageSpec,
    tool: int,
    config: Option<Seq<char>>,
    executable: Seq<char>,
    command: Option<(Seq<char>, Seq<Seq<char>>)>,
) -> bool {
    &&& is_picked(is_file, path, config_names(language), tool, config)
    &&& is_resolved(
        present,
        lookup,
        path,
        language.name,
        language.tools[tool].executable,
        language.default_executable,
        executable,
    )
    &&& command == command_of(language.tools[tool].command_template.expand(executable, config))
}

/// `command` is the command for the file at `path` in `language`, going by
/// what the probes said: some tool of the language was picked, with or
/// without a configuration file, its executable was resolved, and `command`
/// is what the tool's template expands to with the two.
pub open spec fn is_command_for<
    F: Fn(&str) -> bool,
    G: Fn(&str) -> bool,
    H: Fn(&str) -> Option<String>,
>(
    is_file: &F,
    present: &G,
    lookup: &H,
    path: Seq<char>,
    language: LanguageSpec,
    command: Option<(Seq<char>, Seq<Seq<char>>)>,
) -> bool {
    exists|tool: int, config: Option<Seq<char>>, executable: Seq<char>| #[trigger]
        commands(is_file, present, lookup, path, language, tool, config, executable, command)
}

/// Resolves the command for the file at `path`, which is of the language
/// `lang`: picks the tool, resolves its executable and expands its
/// template. `is_file` is asked whether a path is a regular file, `present`
/// whether a path is there, and `lookup` for a program on the search path.
/// `None` where the template of the tool expands to nothing.
pub fn resolve_command<F: Fn(&str) -> bool, G: Fn(&str) -> bool, H: Fn(&str) -> Option<String>>(
    path: &str,
    lang: &LanguageConfig,
    is_file: &F,
    present: &G,
    lookup: &H,
) -> (command: Option<(String, Vec<String>)>)
    requires
        lang.tools.len() > 0,
        forall|p: &str| call_requires(*is_file, (p,)),
        forall|p: &str| call_requires(*present, (p,)),
        forall|n: &str| call_requires(*lookup, (n,)),
    ensures
        is_command_for(is_file, present, lookup, path@, lang@, command_text(command)),
{
    let (tool, config_path) = pick_tool_for_file(path, lang, is_file);
    let executable = resolve_executable(path, lang, tool, present, lookup);
    let command = match &config_path {
        Some(config) => build_command(executable.as_str(), lang, tool, Some(config.as_str())),
        None => build_command(executable.as_str(), lang, tool, None),
    };
    proof {
        let t = choose|t: int|
            #![trigger lang.tools[t]]
            is_picked(is_file, path@, config_names(lang@), t, text_of(config_path))
                && *tool == lang.tools[t];
        assert(lang@.tools[t] == tool@);
        assert(commands(
            is_file,
            present,
            lookup,
            path@,
            lang@,
            t,
            text_of(config_path),
            executable@,
            command_text(command),
        ));
    }
    command
}

/// What became of a file.
#[derive(Clone, Copy, Debug, PartialEq, Eq)]
pub enum FileOutcome {
    /// No language recognises the file: it is passed over.
    Skipped,
    /// The tool's template expanded to nothing: the file is dropped.
    Unbuildable,
    /// The file was added to the batch of its command.
    Batched,
}

/// `outcome` and `after` are what becomes of the batches `before` when the
/// file at `path`, which is of `language`, has the command `command`: a
/// file without a command is dropped and leaves the batches as they were,
/// any other file is added under its command.
pub open spec fn is_batched_as(
    path: Seq<char>,
    command: Option<(Seq<char>, Seq<Seq<char>>)>,
    before: Seq<BatchSpec>,
    outcome: FileOutcome,
    after: Seq<BatchSpec>,
) -> bool {
    match command {
        None => outcome is Unbuildable && after == before,
        Some((program, args)) => outcome is Batched && after == add_file(
            before,
            path,
            program,
            args,
        ),
    }
}

/// `outcome` and `after` are what processing the file at `path` makes of
/// the batches `before` where detection gave `found`, going by what the
/// probes said. A file of no language is skipped and leaves the batches as
/// they were; a file of a language is batched as its command says.
pub open spec fn is_processed_as<
    F: Fn(&str) -> bool,
    G: Fn(&str) -> bool,
    H: Fn(&str) -> Option<String>,
>(
    is_file: &F,
    present: &G,
    lookup: &H,
    languages: Seq<LanguageSpec>,
    path: Seq<char>,
    before: Seq<BatchSpec>,
    outcome: FileOutcome,
    after: Seq<BatchSpec>,
    found: Option<usize>,
) -> bool {
    is_detected(languages, path, found) && match found {
        None => outcome is Skipped && after == before,
        Some(l) => exists|command: Option<(Seq<char>, Seq<Seq<char>>)>|
            #![trigger is_batched_as(path, command, before, outcome, after)]
            is_command_for(is_file, present, lookup, path, languages[l as int], command)
                && is_batched_as(path, command, before, outcome, after),
    }
}

/// `outcome` and `after` are what processing the file at `path` makes of
/// the batches `before`, going by what the probes said. A file of no
/// language is skipped and a file without a command is dropped, both
/// leaving the batches as they were; any other file is added under its
/// command.
pub open spec fn is_processed<
    F: Fn(&str) -> bool,
    G: Fn(&str) -> bool,
    H: Fn(&str) -> Option<String>,
>(
    is_file: &F,
    present: &G,
    lookup: &H,
    languages: Seq<LanguageSpec>,
    path: Seq<char>,
    before: Seq<BatchSpec>,
    outcome: FileOutcome,
    after: Seq<BatchSpec>,
) -> bool {
    exists|found: Option<usize>| #[trigger]
        is_processed_as(
            is_file,
            present,
            lookup,
            languages,
            path,
            before,
            outcome,
            after,
            found,
        )
}

/// Every language has at least one tool.
pub open spec fn all_have_tools(languages: Seq<LanguageSpec>) -> bool {
    forall|l: int| 0 <= l < languages.len() ==> (#[trigger] languages[l]).tools.len() > 0
}

/// Processes the file at `path`, asking the given probes for what is on
/// disk and on the search path: detects its language among `languages`,
/// resolves its command and adds the file to the batch of that command.
pub fn process_file_with<
    F: Fn(&str) -> bool,
    G: Fn(&str) -> bool,
    H: Fn(&str) -> Option<String>,
>(
    languages: &Vec<LanguageConfig>,
    path: &str,
    list: &mut FileBatchList,
    is_file: &F,
    present: &G,
    lookup: &H,
) -> (outcome: FileOutcome)
    requires
        old(list).well_formed(),
        all_have_tools(languages.deep_view()),
        forall|p: &str| call_requires(*is_file, (p,)),
        forall|p: &str| call_requires(*present, (p,)),
        forall|n: &str| call_requires(*lookup, (n,)),
    ensures
        final(list).well_formed(),
        is_processed(
            is_file,
            present,
            lookup,
            languages.deep_view(),
            path@,
            old(list)@,
            outcome,
            final(list)@,
        ),
{
    let ghost before = list@;
    let found = find_language(languages, path);
    let l = match found {
        Some(l) => l,
        None => {
            assert(is_processed_as(
                is_file,
                present,
                lookup,
                languages.deep_view(),
                path@,
                before,
                FileOutcome::Skipped,
                list@,
                found,
            ));
            return FileOutcome::Skipped;
        },
    };
    assert(languages.deep_view()[l as int] == languages[l as int]@);
    let command = resolve_command(path, &languages[l], is_file, present, lookup);
    let ghost command_seen = command_text(command);
    let outcome = match command {
        Some((program, args)) => {
            add_to_list(list, path.to_owned(), program, args);
            FileOutcome::Batched
        },
        None => FileOutcome::Unbuildable,
    };
    assert(is_batched_as(path@, command_seen, before, outcome, list@));
    assert(is_processed_as(
        is_file,
        present,
        lookup,
        languages.deep_view(),
        path@,
        before,
        outcome,
        list@,
        found,
    ));
    outcome
}

/// Every tool of `language` has at least one argument in each of its two
/// patterns, so that its template expands to a command whatever is found.
pub open spec fn patterns_are_not_empty(language: LanguageSpec) -> bool {
    forall|t: int|
        0 <= t < language.tools.len() ==> (#[trigger] language.tools[t]).command_template.with_config.len()
            > 0 && language.tools[t].command_template.without_config.len() > 0
}

/// `after` is `before` with the file at `path` added under the command of
/// the tool at position `tool` of the language at position `language`,
/// which is the language detected for the file: the tool's template,
/// expanded with `executable` and `config`, gives the program and its
/// arguments.
pub open spec fn is_batched_under(
    languages: Seq<LanguageSpec>,
    path: Seq<char>,
    before: Seq<BatchSpec>,
    after: Seq<BatchSpec>,
    language: usize,
    tool: int,
    config: Option<Seq<char>>,
    executable: Seq<char>,
) -> bool {
    let expansion = languages[language as int].tools[tool].command_template.expand(
        executable,
        config,
    );
    &&& is_detected(languages, path, Some(language))
    &&& 0 <= tool < languages[language as int].tools.len()
    &&& expansion.len() > 0
    &&& after == add_file(before, path, expansion[0], expansion.skip(1))
}

/// Processes the file at `path` against the disk and the program search
/// path of this machine. `path` is the file's absolute path. A file that no
/// language recognises is skipped. A file of a language whose tools all have
/// patterns that are not empty is batched, under the command of one of the
/// tools of that language; which tool, which executable and which
/// configuration file is decided by what is found on disk and on the search
/// path at the moment of the call. A file is dropped only where a pattern of
/// a tool of its language is empty.
pub fn process_file(languages: &Vec<LanguageConfig>, path: &str, list: &mut FileBatchList) -> (outcome:
    FileOutcome)
    requires
        old(list).well_formed(),
        all_have_tools(languages.deep_view()),
    ensures
        final(list).well_formed(),
        outcome is Skipped <==> is_detected(languages.deep_view(), path@, None),
        forall|l: usize|
            #[trigger] is_detected(languages.deep_view(), path@, Some(l))
                && patterns_are_not_empty(languages.deep_view()[l as int]) ==> outcome is Batched,
        outcome is Batched ==> exists|
            l: usize,
            t: int,
            config: Option<Seq<char>>,
            executable: Seq<char>,
        | #[trigger]
            is_batched_under(
                languages.deep_view(),
                path@,
                old(list)@,
                final(list)@,
                l,
                t,
                config,
                executable,
            ),
        outcome is Unbuildable ==> exists|l: usize|
            #[trigger] is_detected(languages.deep_view(), path@, Some(l))
                && !patterns_are_not_empty(languages.deep_view()[l as int]),
        !(outcome is Batched) ==> final(list)@ == old(list)@,
{
    let is_file = &path_is_file;
    let present = &path_exists;
    let lookup = &find_on_path;
    let ghost before = list@;
    let outcome = process_file_with(languages, path, list, is_file, present, lookup);
    proof {
        let all = languages.deep_view();
        let after = list@;
        let found = choose|found: Option<usize>| #[trigger]
            is_processed_as(is_file, present, lookup, all, path@, before, outcome, after, found);
        assert forall|l: usize| #[trigger]
            is_detected(all, path@, Some(l)) implies found == Some(l) by {
            lemma_detection_is_unique(all, path@, found, Some(l));
        }
        if is_detected(all, path@, None) {
            lemma_detection_is_unique(all, path@, found, None);
        }
        if found is Some {
            let l = found->0;
            let language = all[l as int];
            let command = choose|command: Option<(Seq<char>, Seq<Seq<char>>)>|
                #![trigger is_batched_as(path@, command, before, outcome, after)]
                is_command_for(is_file, present, lookup, path@, language, command)
                    && is_batched_as(path@, command, before, outcome, after);
            let (t, config, executable) = choose|
                t: int,
                config: Option<Seq<char>>,
                executable: Seq<char>,
            | #[trigger]
                commands(is_file, present, lookup, path@, language, t, config, executable, command);
            let expansion = language.tools[t].command_template.expand(executable, config);
            assert(0 <= t < config_names(language).len());
            assert(expansion.len() == language.tools[t].command_template.pattern(
                config is Some,
            ).len());
            if command is Some {
                assert(is_batched_under(all, path@, before, after, l, t, config, executable));
            } else {
                assert(!patterns_are_not_empty(language));
            }
        }
    }
    outcome
}

} // verus!

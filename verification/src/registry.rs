//! Tools and languages.
//!
//! A tool has an executable, the names of the configuration files it
//! recognises and a command template. A language has the file extensions or
//! file names it is recognised by, its tools in the order of their priority,
//! and the executable to fall back on.

use vstd::prelude::*;
use crate::template::{CommandTemplate, TemplateSpec};

verus! {

/// A tool as contracts see it.
#[verifier::ext_equal]
pub struct ToolSpec {
    /// The name of the executable.
    pub executable: Seq<char>,
    /// The recognised configuration file names, first wins.
    pub config_files: Seq<Seq<char>>,
    /// The patterns of the command.
    pub command_template: TemplateSpec,
}

/// A formatter or linter.
pub struct ToolConfig {
    /// The name of the executable.
    pub executable: &'static str,
    /// The recognised configuration file names, first wins.
    pub config_files: Vec<&'static str>,
    /// The patterns of the command.
    pub command_template: CommandTemplate,
}

impl View for ToolConfig {
    type V = ToolSpec;

    open spec fn view(&self) -> ToolSpec {
        ToolSpec {
            executable: self.executable@,
            config_files: self.config_files.deep_view(),
            command_template: self.command_template@,
        }
    }
}

impl DeepView for ToolConfig {
    type V = ToolSpec;

    open spec fn deep_view(&self) -> ToolSpec {
        self@
    }
}

impl ToolConfig {
    /// A tool of the given executable, configuration file names and
    /// template.
    pub fn new(
        executable: &'static str,
        config_files: Vec<&'static str>,
        command_template: CommandTemplate,
    ) -> (tool: Self)
        ensures
            tool.executable == executable,
            tool.config_files == config_files,
            tool.command_template == command_template,
    {
        Self { executable, config_files, command_template }
    }
}

/// A language as contracts see it.
#[verifier::ext_equal]
pub struct LanguageSpec {
    /// The name of the language.
    pub name: Seq<char>,
    /// The extensions and file names that the language is recognised by.
    pub extensions: Seq<Seq<char>>,
    /// The tools of the language, first has priority.
    pub tools: Seq<ToolSpec>,
    /// The executable to run where none is found.
    pub default_executable: Seq<char>,
}

impl LanguageSpec {
    /// A language is well formed when it has at least one tool and the
    /// templates of all its tools are well formed.
    pub open spec fn well_formed(self) -> bool {
        &&& self.tools.len() > 0
        &&& forall|t: int|
            0 <= t < self.tools.len() ==> (#[trigger] self.tools[t]).command_template.well_formed()
    }
}

/// A language and the tools that format or lint its files.
pub struct LanguageConfig {
    /// The name of the language.
    pub name: &'static str,
    /// The extensions and file names that the language is recognised by.
    pub extensions: Vec<&'static str>,
    /// The tools of the language, first has priority.
    pub tools: Vec<ToolConfig>,
    /// The executable to run where none is found.
    pub default_executable: &'static str,
}

impl View for LanguageConfig {
    type V = LanguageSpec;

    open spec fn view(&self) -> LanguageSpec {
        LanguageSpec {
            name: self.name@,
            extensions: self.extensions.deep_view(),
            tools: self.tools.deep_view(),
            default_executable: self.default_executable@,
        }
    }
}

impl DeepView for LanguageConfig {
    type V = LanguageSpec;

    open spec fn deep_view(&self) -> LanguageSpec {
        self@
    }
}

impl LanguageConfig {
    /// A language of the given name, recognised names, tools and default
    /// executable.
    pub fn new(
        name: &'static str,
        extensions: Vec<&'static str>,
        tools: Vec<ToolConfig>,
        default_executable: &'static str,
    ) -> (language: Self)
        ensures
            language.name == name,
            language.extensions == extensions,
            language.tools == tools,
            language.default_executable == default_executable,
    {
        Self { name, extensions, tools, default_executable }
    }
}

} // verus!

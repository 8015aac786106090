//! The built-in catalogue: the templates, the tools and the languages that
//! the dispatcher ships with.
//!
//! Every entry stands here twice. The `*_entry` functions are the catalogue
//! as contracts see it; the functions beside them build the same values, and
//! each is proved to build exactly its entry.

use vstd::prelude::*;
use vstd::string::*;
use crate::registry::{LanguageConfig, LanguageSpec, ToolConfig, ToolSpec};
use crate::dispatch::{all_have_tools, patterns_are_not_empty};
use crate::template::{config_token, exec_token, holds_one, stands_at, CommandTemplate, TemplateSpec};

verus! {

/// The template of `prettier`: writes the file in place.
pub open spec fn prettier_template_entry() -> TemplateSpec {
    TemplateSpec {
        with_config: seq!["{exec}"@, "--write"@, "--config"@, "{config}"@],
        without_config: seq!["{exec}"@, "--write"@],
    }
}

fn prettier_template() -> (template: CommandTemplate)
    ensures
        template@ == prettier_template_entry(),
{
    let template = CommandTemplate::new(
        vec!["{exec}", "--write", "--config", "{config}"],
        vec!["{exec}", "--write"],
    );
    assert(template@ =~~= prettier_template_entry());
    template
}

/// The template of `eslint` and of tools that take its flags: fixes in place.
pub open spec fn eslint_template_entry() -> TemplateSpec {
    TemplateSpec {
        with_config: seq!["{exec}"@, "--fix"@, "--config"@, "{config}"@],
        without_config: seq!["{exec}"@, "--fix"@],
    }
}

fn eslint_template() -> (template: CommandTemplate)
    ensures
        template@ == eslint_template_entry(),
{
    let template = CommandTemplate::new(
        vec!["{exec}", "--fix", "--config", "{config}"],
        vec!["{exec}", "--fix"],
    );
    assert(template@ =~~= eslint_template_entry());
    template
}

/// The template of a tool that takes its configuration after `--config`.
pub open spec fn simple_config_template_entry() -> TemplateSpec {
    TemplateSpec {
        with_config: seq!["{exec}"@, "--config"@, "{config}"@],
        without_config: seq!["{exec}"@],
    }
}

fn simple_config_template() -> (template: CommandTemplate)
    ensures
        template@ == simple_config_template_entry(),
{
    let template = CommandTemplate::new(
        vec!["{exec}", "--config", "{config}"],
        vec!["{exec}"],
    );
    assert(template@ =~~= simple_config_template_entry());
    template
}

/// The template of a tool that takes its configuration after `--rcfile`.
pub open spec fn rcfile_template_entry() -> TemplateSpec {
    TemplateSpec {
        with_config: seq!["{exec}"@, "--rcfile"@, "{config}"@],
        without_config: seq!["{exec}"@],
    }
}

fn rcfile_template() -> (template: CommandTemplate)
    ensures
        template@ == rcfile_template_entry(),
{
    let template = CommandTemplate::new(
        vec!["{exec}", "--rcfile", "{config}"],
        vec!["{exec}"],
    );
    assert(template@ =~~= rcfile_template_entry());
    template
}

/// The template of `gofmt`: writes the file in place.
pub open spec fn gofmt_template_entry() -> TemplateSpec {
    TemplateSpec {
        with_config: seq!["{exec}"@, "-w"@, "-config"@, "{config}"@],
        without_config: seq!["{exec}"@, "-s"@, "-w"@],
    }
}

fn gofmt_template() -> (template: CommandTemplate)
    ensures
        template@ == gofmt_template_entry(),
{
    let template = CommandTemplate::new(
        vec!["{exec}", "-w", "-config", "{config}"],
        vec!["{exec}", "-s", "-w"],
    );
    assert(template@ =~~= gofmt_template_entry());
    template
}

/// The template of `rustfmt`.
pub open spec fn rustfmt_template_entry() -> TemplateSpec {
    TemplateSpec {
        with_config: seq!["{exec}"@, "--config-path"@, "{config}"@],
        without_config: seq!["{exec}"@],
    }
}

fn rustfmt_template() -> (template: CommandTemplate)
    ensures
        template@ == rustfmt_template_entry(),
{
    let template = CommandTemplate::new(
        vec!["{exec}", "--config-path", "{config}"],
        vec!["{exec}"],
    );
    assert(template@ =~~= rustfmt_template_entry());
    template
}

/// The template of `clang-format` and of tools that take its flags.
pub open spec fn clang_format_template_entry() -> TemplateSpec {
    TemplateSpec {
        with_config: seq!["{exec}"@, "-style=file:{config}"@],
        without_config: seq!["{exec}"@],
    }
}

fn clang_format_template() -> (template: CommandTemplate)
    ensures
        template@ == clang_format_template_entry(),
{
    let template = CommandTemplate::new(
        vec!["{exec}", "-style=file:{config}"],
        vec!["{exec}"],
    );
    assert(template@ =~~= clang_format_template_entry());
    template
}

/// The template of `phpcbf`, which runs under `php`.
pub open spec fn phpcbf_template_entry() -> TemplateSpec {
    TemplateSpec {
        with_config: seq!["php"@, "-dmemory_limit=-1"@, "{exec}"@, "--standard={config}"@],
        without_config: seq!["php"@, "-dmemory_limit=-1"@, "{exec}"@, "--standard=PSR12"@],
    }
}

fn phpcbf_template() -> (template: CommandTemplate)
    ensures
        template@ == phpcbf_template_entry(),
{
    let template = CommandTemplate::new(
        vec!["php", "-dmemory_limit=-1", "{exec}", "--standard={config}"],
        vec!["php", "-dmemory_limit=-1", "{exec}", "--standard=PSR12"],
    );
    assert(template@ =~~= phpcbf_template_entry());
    template
}

/// The template of `sqlfluff`.
pub open spec fn sqlfluff_template_entry() -> TemplateSpec {
    TemplateSpec {
        with_config: seq!["{exec}"@, "format"@, "--dialect"@, "ansi"@, "--config"@, "{config}"@],
        without_config: seq!["{exec}"@, "format"@, "--dialect"@, "ansi"@],
    }
}

fn sqlfluff_template() -> (template: CommandTemplate)
    ensures
        template@ == sqlfluff_template_entry(),
{
    let template = CommandTemplate::new(
        vec!["{exec}", "format", "--dialect", "ansi", "--config", "{config}"],
        vec!["{exec}", "format", "--dialect", "ansi"],
    );
    assert(template@ =~~= sqlfluff_template_entry());
    template
}

/// The tool `eslint`, with the configuration files it recognises in the
/// order of their priority.
pub open spec fn eslint_entry() -> ToolSpec {
    ToolSpec {
        executable: "eslint"@,
        config_files: seq![
            ".eslintrc.js"@,
            ".eslintrc.cjs"@,
            ".eslintrc.json"@,
            ".eslintrc.yml"@,
            ".eslintrc.yaml"@,
            "eslint.config.js"@,
        ],
        command_template: eslint_template_entry(),
    }
}

fn eslint() -> (tool: ToolConfig)
    ensures
        tool@ == eslint_entry(),
{
    let tool = ToolConfig::new(
        "eslint",
        vec![
            ".eslintrc.js",
            ".eslintrc.cjs",
            ".eslintrc.json",
            ".eslintrc.yml",
            ".eslintrc.yaml",
            "eslint.config.js",
        ],
        eslint_template(),
    );
    assert(tool@ =~~= eslint_entry());
    tool
}

/// The tool `prettier`, with the configuration files it recognises in the
/// order of their priority.
pub open spec fn prettier_entry() -> ToolSpec {
    ToolSpec {
        executable: "prettier"@,
        config_files: seq![
            ".prettierrc"@,
            ".prettierrc.json"@,
            ".prettierrc.yml"@,
            ".prettierrc.yaml"@,
            "prettier.config.js"@,
        ],
        command_template: prettier_template_entry(),
    }
}

fn prettier() -> (tool: ToolConfig)
    ensures
        tool@ == prettier_entry(),
{
    let tool = ToolConfig::new(
        "prettier",
        vec![
            ".prettierrc",
            ".prettierrc.json",
            ".prettierrc.yml",
            ".prettierrc.yaml",
            "prettier.config.js",
        ],
        prettier_template(),
    );
    assert(tool@ =~~= prettier_entry());
    tool
}

/// The tool `stylelint`, with the configuration files it recognises in the
/// order of their priority.
pub open spec fn stylelint_entry() -> ToolSpec {
    ToolSpec {
        executable: "stylelint"@,
        config_files: seq![
            ".stylelintrc"@,
            ".stylelintrc.js"@,
            ".stylelintrc.json"@,
            ".stylelintrc.yaml"@,
            ".stylelintrc.yml"@,
            "stylelint.config.js"@,
        ],
        command_template: eslint_template_entry(),
    }
}

fn stylelint() -> (tool: ToolConfig)
    ensures
        tool@ == stylelint_entry(),
{
    let tool = ToolConfig::new(
        "stylelint",
        vec![
            ".stylelintrc",
            ".stylelintrc.js",
            ".stylelintrc.json",
            ".stylelintrc.yaml",
            ".stylelintrc.yml",
            "stylelint.config.js",
        ],
        eslint_template(),
    );
    assert(tool@ =~~= stylelint_entry());
    tool
}

/// The tool `black`, with the configuration files it recognises in the
/// order of their priority.
pub open spec fn black_entry() -> ToolSpec {
    ToolSpec {
        executable: "black"@,
        config_files: seq!["pyproject.toml"@, "setup.cfg"@, ".flake8"@, "tox.ini"@],
        command_template: simple_config_template_entry(),
    }
}

fn black() -> (tool: ToolConfig)
    ensures
        tool@ == black_entry(),
{
    let tool = ToolConfig::new(
        "black",
        vec!["pyproject.toml", "setup.cfg", ".flake8", "tox.ini"],
        simple_config_template(),
    );
    assert(tool@ =~~= black_entry());
    tool
}

/// The tool `flake8`, with the configuration files it recognises in the
/// order of their priority.
pub open spec fn flake8_entry() -> ToolSpec {
    ToolSpec {
        executable: "flake8"@,
        config_files: seq![".flake8"@, "setup.cfg"@, "tox.ini"@],
        command_template: simple_config_template_entry(),
    }
}

fn flake8() -> (tool: ToolConfig)
    ensures
        tool@ == flake8_entry(),
{
    let tool = ToolConfig::new(
        "flake8",
        vec![".flake8", "setup.cfg", "tox.ini"],
        simple_config_template(),
    );
    assert(tool@ =~~= flake8_entry());
    tool
}

/// The tool `pylint`, with the configuration files it recognises in the
/// order of their priority.
pub open spec fn pylint_entry() -> ToolSpec {
    ToolSpec {
        executable: "pylint"@,
        config_files: seq![".pylintrc"@, "pylintrc"@, "pyproject.toml"@],
        command_template: simple_config_template_entry(),
    }
}

fn pylint() -> (tool: ToolConfig)
    ensures
        tool@ == pylint_entry(),
{
    let tool = ToolConfig::new(
        "pylint",
        vec![".pylintrc", "pylintrc", "pyproject.toml"],
        simple_config_template(),
    );
    assert(tool@ =~~= pylint_entry());
    tool
}

/// The tool `gofmt`, with the configuration files it recognises in the
/// order of their priority.
pub open spec fn gofmt_entry() -> ToolSpec {
    ToolSpec {
        executable: "gofmt"@,
        config_files: seq![".gofmt.toml"@, ".gofmt.json"@],
        command_template: gofmt_template_entry(),
    }
}

fn gofmt() -> (tool: ToolConfig)
    ensures
        tool@ == gofmt_entry(),
{
    let tool = ToolConfig::new(
        "gofmt",
        vec![".gofmt.toml", ".gofmt.json"],
        gofmt_template(),
    );
    assert(tool@ =~~= gofmt_entry());
    tool
}

/// The tool `golangci-lint`, with the configuration files it recognises in the
/// order of their priority.
pub open spec fn golangci_lint_entry() -> ToolSpec {
    ToolSpec {
        executable: "golangci-lint"@,
        config_files: seq![".golangci.yml"@, ".golangci.yaml"@, ".golangci.json"@],
        command_template: simple_config_template_entry(),
    }
}

fn golangci_lint() -> (tool: ToolConfig)
    ensures
        tool@ == golangci_lint_entry(),
{
    let tool = ToolConfig::new(
        "golangci-lint",
        vec![".golangci.yml", ".golangci.yaml", ".golangci.json"],
        simple_config_template(),
    );
    assert(tool@ =~~= golangci_lint_entry());
    tool
}

/// The tool `rustfmt`, with the configuration files it recognises in the
/// order of their priority.
pub open spec fn rustfmt_entry() -> ToolSpec {
    ToolSpec {
        executable: "rustfmt"@,
        config_files: seq![".rustfmt.toml"@, "rustfmt.toml"@],
        command_template: rustfmt_template_entry(),
    }
}

fn rustfmt() -> (tool: ToolConfig)
    ensures
        tool@ == rustfmt_entry(),
{
    let tool = ToolConfig::new(
        "rustfmt",
        vec![".rustfmt.toml", "rustfmt.toml"],
        rustfmt_template(),
    );
    assert(tool@ =~~= rustfmt_entry());
    tool
}

/// The tool `clang-format`, with the configuration files it recognises in the
/// order of their priority.
pub open spec fn clang_format_entry() -> ToolSpec {
    ToolSpec {
        executable: "clang-format"@,
        config_files: seq![".clang-format"@, "clang-format.yaml"@, "clang-format.json"@],
        command_template: clang_format_template_entry(),
    }
}

fn clang_format() -> (tool: ToolConfig)
    ensures
        tool@ == clang_format_entry(),
{
    let tool = ToolConfig::new(
        "clang-format",
        vec![".clang-format", "clang-format.yaml", "clang-format.json"],
        clang_format_template(),
    );
    assert(tool@ =~~= clang_format_entry());
    tool
}

/// The tool `google-java-format`, with the configuration files it recognises in the
/// order of their priority.
pub open spec fn google_java_format_entry() -> ToolSpec {
    ToolSpec {
        executable: "google-java-format"@,
        config_files: seq!["google-java-format.xml"@],
        command_template: clang_format_template_entry(),
    }
}

fn google_java_format() -> (tool: ToolConfig)
    ensures
        tool@ == google_java_format_entry(),
{
    let tool = ToolConfig::new(
        "google-java-format",
        vec!["google-java-format.xml"],
        clang_format_template(),
    );
    assert(tool@ =~~= google_java_format_entry());
    tool
}

/// The tool `phpcbf`, with the configuration files it recognises in the
/// order of their priority.
pub open spec fn phpcbf_entry() -> ToolSpec {
    ToolSpec {
        executable: "phpcbf"@,
        config_files: seq!["phpcs.xml"@, "phpcs.xml.dist"@],
        command_template: phpcbf_template_entry(),
    }
}

fn phpcbf() -> (tool: ToolConfig)
    ensures
        tool@ == phpcbf_entry(),
{
    let tool = ToolConfig::new(
        "phpcbf",
        vec!["phpcs.xml", "phpcs.xml.dist"],
        phpcbf_template(),
    );
    assert(tool@ =~~= phpcbf_entry());
    tool
}

/// The tool `php-cs-fixer`, with the configuration files it recognises in the
/// order of their priority.
pub open spec fn php_cs_fixer_entry() -> ToolSpec {
    ToolSpec {
        executable: "php-cs-fixer"@,
        config_files: seq![
            ".php-cs-fixer"@,
            ".php-cs-fixer.php"@,
            ".php-cs-fixer.dist"@,
            ".php-cs-fixer.dist.php"@,
        ],
        command_template: simple_config_template_entry(),
    }
}

fn php_cs_fixer() -> (tool: ToolConfig)
    ensures
        tool@ == php_cs_fixer_entry(),
{
    let tool = ToolConfig::new(
        "php-cs-fixer",
        vec![
            ".php-cs-fixer",
            ".php-cs-fixer.php",
            ".php-cs-fixer.dist",
            ".php-cs-fixer.dist.php",
        ],
        simple_config_template(),
    );
    assert(tool@ =~~= php_cs_fixer_entry());
    tool
}

/// The tool `shellcheck`, with the configuration files it recognises in the
/// order of their priority.
pub open spec fn shellcheck_entry() -> ToolSpec {
    ToolSpec {
        executable: "shellcheck"@,
        config_files: seq![".shellcheckrc"@],
        command_template: rcfile_template_entry(),
    }
}

fn shellcheck() -> (tool: ToolConfig)
    ensures
        tool@ == shellcheck_entry(),
{
    let tool = ToolConfig::new(
        "shellcheck",
        vec![".shellcheckrc"],
        rcfile_template(),
    );
    assert(tool@ =~~= shellcheck_entry());
    tool
}

/// The tool `sqlfluff`, with the configuration files it recognises in the
/// order of their priority.
pub open spec fn sqlfluff_entry() -> ToolSpec {
    ToolSpec {
        executable: "sqlfluff"@,
        config_files: seq![".sqlfluff"@, ".sqlfluff.ini"@, ".sqlfluff.cfg"@, "pyproject.toml"@],
        command_template: sqlfluff_template_entry(),
    }
}

fn sqlfluff() -> (tool: ToolConfig)
    ensures
        tool@ == sqlfluff_entry(),
{
    let tool = ToolConfig::new(
        "sqlfluff",
        vec![".sqlfluff", ".sqlfluff.ini", ".sqlfluff.cfg", "pyproject.toml"],
        sqlfluff_template(),
    );
    assert(tool@ =~~= sqlfluff_entry());
    tool
}

/// The tool `hadolint`, with the configuration files it recognises in the
/// order of their priority.
pub open spec fn hadolint_entry() -> ToolSpec {
    ToolSpec {
        executable: "hadolint"@,
        config_files: seq![".hadolint.yaml"@, ".hadolint.yml"@],
        command_template: simple_config_template_entry(),
    }
}

fn hadolint() -> (tool: ToolConfig)
    ensures
        tool@ == hadolint_entry(),
{
    let tool = ToolConfig::new(
        "hadolint",
        vec![".hadolint.yaml", ".hadolint.yml"],
        simple_config_template(),
    );
    assert(tool@ =~~= hadolint_entry());
    tool
}

/// The language `python`, with its tools in the order of their priority.
pub open spec fn python_entry() -> LanguageSpec {
    LanguageSpec {
        name: "python"@,
        extensions: seq![".py"@, ".pyw"@],
        tools: seq![black_entry(), flake8_entry(), pylint_entry()],
        default_executable: "black"@,
    }
}

fn python() -> (language: LanguageConfig)
    ensures
        language@ == python_entry(),
{
    let language = LanguageConfig::new(
        "python",
        vec![".py", ".pyw"],
        vec![black(), flake8(), pylint()],
        "black",
    );
    assert(language@ =~~= python_entry());
    language
}

/// The language `javascript`, with its tools in the order of their priority.
pub open spec fn javascript_entry() -> LanguageSpec {
    LanguageSpec {
        name: "javascript"@,
        extensions: seq![".js"@, ".mjs"@, ".cjs"@, ".jsx"@],
        tools: seq![eslint_entry(), prettier_entry()],
        default_executable: "eslint"@,
    }
}

fn javascript() -> (language: LanguageConfig)
    ensures
        language@ == javascript_entry(),
{
    let language = LanguageConfig::new(
        "javascript",
        vec![".js", ".mjs", ".cjs", ".jsx"],
        vec![eslint(), prettier()],
        "eslint",
    );
    assert(language@ =~~= javascript_entry());
    language
}

/// The language `typescript`, with its tools in the order of their priority.
pub open spec fn typescript_entry() -> LanguageSpec {
    LanguageSpec {
        name: "typescript"@,
        extensions: seq![".ts"@, ".tsx"@],
        tools: seq![eslint_entry(), prettier_entry()],
        default_executable: "eslint"@,
    }
}

fn typescript() -> (language: LanguageConfig)
    ensures
        language@ == typescript_entry(),
{
    let language = LanguageConfig::new(
        "typescript",
        vec![".ts", ".tsx"],
        vec![eslint(), prettier()],
        "eslint",
    );
    assert(language@ =~~= typescript_entry());
    language
}

/// The language `go`, with its tools in the order of their priority.
pub open spec fn go_entry() -> LanguageSpec {
    LanguageSpec {
        name: "go"@,
        extensions: seq![".go"@],
        tools: seq![gofmt_entry(), golangci_lint_entry()],
        default_executable: "gofmt"@,
    }
}

fn go() -> (language: LanguageConfig)
    ensures
        language@ == go_entry(),
{
    let language = LanguageConfig::new(
        "go",
        vec![".go"],
        vec![gofmt(), golangci_lint()],
        "gofmt",
    );
    assert(language@ =~~= go_entry());
    language
}

/// The language `rust`, with its tools in the order of their priority.
pub open spec fn rust_entry() -> LanguageSpec {
    LanguageSpec {
        name: "rust"@,
        extensions: seq![".rs"@],
        tools: seq![rustfmt_entry()],
        default_executable: "rustfmt"@,
    }
}

fn rust() -> (language: LanguageConfig)
    ensures
        language@ == rust_entry(),
{
    let language = LanguageConfig::new(
        "rust",
        vec![".rs"],
        vec![rustfmt()],
        "rustfmt",
    );
    assert(language@ =~~= rust_entry());
    language
}

/// The language `java`, with its tools in the order of their priority.
pub open spec fn java_entry() -> LanguageSpec {
    LanguageSpec {
        name: "java"@,
        extensions: seq![".java"@],
        tools: seq![clang_format_entry(), google_java_format_entry()],
        default_executable: "clang-format"@,
    }
}

fn java() -> (language: LanguageConfig)
    ensures
        language@ == java_entry(),
{
    let language = LanguageConfig::new(
        "java",
        vec![".java"],
        vec![clang_format(), google_java_format()],
        "clang-format",
    );
    assert(language@ =~~= java_entry());
    language
}

/// The language `php`, with its tools in the order of their priority.
pub open spec fn php_entry() -> LanguageSpec {
    LanguageSpec {
        name: "php"@,
        extensions: seq![".php"@],
        tools: seq![phpcbf_entry(), php_cs_fixer_entry()],
        default_executable: "phpcbf"@,
    }
}

fn php() -> (language: LanguageConfig)
    ensures
        language@ == php_entry(),
{
    let language = LanguageConfig::new(
        "php",
        vec![".php"],
        vec![phpcbf(), php_cs_fixer()],
        "phpcbf",
    );
    assert(language@ =~~= php_entry());
    language
}

/// The language `css`, with its tools in the order of their priority.
pub open spec fn css_entry() -> LanguageSpec {
    LanguageSpec {
        name: "css"@,
        extensions: seq![".css"@, ".scss"@, ".sass"@, ".less"@],
        tools: seq![prettier_entry(), stylelint_entry()],
        default_executable: "prettier"@,
    }
}

fn css() -> (language: LanguageConfig)
    ensures
        language@ == css_entry(),
{
    let language = LanguageConfig::new(
        "css",
        vec![".css", ".scss", ".sass", ".less"],
        vec![prettier(), stylelint()],
        "prettier",
    );
    assert(language@ =~~= css_entry());
    language
}

/// The language `html`, with its tools in the order of their priority.
pub open spec fn html_entry() -> LanguageSpec {
    LanguageSpec {
        name: "html"@,
        extensions: seq![".html"@, ".htm"@],
        tools: seq![prettier_entry()],
        default_executable: "prettier"@,
    }
}

fn html() -> (language: LanguageConfig)
    ensures
        language@ == html_entry(),
{
    let language = LanguageConfig::new(
        "html",
        vec![".html", ".htm"],
        vec![prettier()],
        "prettier",
    );
    assert(language@ =~~= html_entry());
    language
}

/// The language `json`, with its tools in the order of their priority.
pub open spec fn json_entry() -> LanguageSpec {
    LanguageSpec {
        name: "json"@,
        extensions: seq![".json"@, ".jsonc"@],
        tools: seq![prettier_entry()],
        default_executable: "prettier"@,
    }
}

fn json() -> (language: LanguageConfig)
    ensures
        language@ == json_entry(),
{
    let language = LanguageConfig::new(
        "json",
        vec![".json", ".jsonc"],
        vec![prettier()],
        "prettier",
    );
    assert(language@ =~~= json_entry());
    language
}

/// The language `yaml`, with its tools in the order of their priority.
pub open spec fn yaml_entry() -> LanguageSpec {
    LanguageSpec {
        name: "yaml"@,
        extensions: seq![".yaml"@, ".yml"@],
        tools: seq![prettier_entry()],
        default_executable: "prettier"@,
    }
}

fn yaml() -> (language: LanguageConfig)
    ensures
        language@ == yaml_entry(),
{
    let language = LanguageConfig::new(
        "yaml",
        vec![".yaml", ".yml"],
        vec![prettier()],
        "prettier",
    );
    assert(language@ =~~= yaml_entry());
    language
}

/// The language `markdown`, with its tools in the order of their priority.
pub open spec fn markdown_entry() -> LanguageSpec {
    LanguageSpec {
        name: "markdown"@,
        extensions: seq![".md"@, ".markdown"@],
        tools: seq![prettier_entry()],
        default_executable: "prettier"@,
    }
}

fn markdown() -> (language: LanguageConfig)
    ensures
        language@ == markdown_entry(),
{
    let language = LanguageConfig::new(
        "markdown",
        vec![".md", ".markdown"],
        vec![prettier()],
        "prettier",
    );
    assert(language@ =~~= markdown_entry());
    language
}

/// The language `shell`, with its tools in the order of their priority.
pub open spec fn shell_entry() -> LanguageSpec {
    LanguageSpec {
        name: "shell"@,
        extensions: seq![".sh"@, ".bash"@, ".zsh"@, ".fish"@],
        tools: seq![shellcheck_entry()],
        default_executable: "shellcheck"@,
    }
}

fn shell() -> (language: LanguageConfig)
    ensures
        language@ == shell_entry(),
{
    let language = LanguageConfig::new(
        "shell",
        vec![".sh", ".bash", ".zsh", ".fish"],
        vec![shellcheck()],
        "shellcheck",
    );
    assert(language@ =~~= shell_entry());
    language
}

/// The language `sql`, with its tools in the order of their priority.
pub open spec fn sql_entry() -> LanguageSpec {
    LanguageSpec {
        name: "sql"@,
        extensions: seq![".sql"@],
        tools: seq![sqlfluff_entry()],
        default_executable: "sqlfluff"@,
    }
}

fn sql() -> (language: LanguageConfig)
    ensures
        language@ == sql_entry(),
{
    let language = LanguageConfig::new(
        "sql",
        vec![".sql"],
        vec![sqlfluff()],
        "sqlfluff",
    );
    assert(language@ =~~= sql_entry());
    language
}

/// The language `dockerfile`, with its tools in the order of their priority.
pub open spec fn dockerfile_entry() -> LanguageSpec {
    LanguageSpec {
        name: "dockerfile"@,
        extensions: seq!["Dockerfile"@],
        tools: seq![hadolint_entry()],
        default_executable: "hadolint"@,
    }
}

fn dockerfile() -> (language: LanguageConfig)
    ensures
        language@ == dockerfile_entry(),
{
    let language = LanguageConfig::new(
        "dockerfile",
        vec!["Dockerfile"],
        vec![hadolint()],
        "hadolint",
    );
    assert(language@ =~~= dockerfile_entry());
    language
}

/// The languages of the catalogue, in the order in which they are
/// registered. Detection takes the first that recognises a file.
pub open spec fn catalog() -> Seq<LanguageSpec> {
    seq![
        python_entry(),
        javascript_entry(),
        typescript_entry(),
        go_entry(),
        rust_entry(),
        java_entry(),
        php_entry(),
        css_entry(),
        html_entry(),
        json_entry(),
        yaml_entry(),
        markdown_entry(),
        shell_entry(),
        sql_entry(),
        dockerfile_entry(),
    ]
}

/// Builds the languages of the catalogue, in their registered order.
pub fn languages() -> (languages: Vec<LanguageConfig>)
    ensures
        languages.deep_view() == catalog(),
{
    let languages = vec![
        python(),
        javascript(),
        typescript(),
        go(),
        rust(),
        java(),
        php(),
        css(),
        html(),
        json(),
        yaml(),
        markdown(),
        shell(),
        sql(),
        dockerfile(),
    ];
    assert(languages.deep_view() =~= catalog());
    languages
}

proof fn lemma_templates_are_well_formed()
    ensures
        prettier_template_entry().well_formed(),
        eslint_template_entry().well_formed(),
        simple_config_template_entry().well_formed(),
        rcfile_template_entry().well_formed(),
        gofmt_template_entry().well_formed(),
        rustfmt_template_entry().well_formed(),
        clang_format_template_entry().well_formed(),
        phpcbf_template_entry().well_formed(),
        sqlfluff_template_entry().well_formed(),
{
    reveal_strlit("{exec}");
    reveal_strlit("--write");
    reveal_strlit("--config");
    reveal_strlit("{config}");
    reveal_strlit("--fix");
    reveal_strlit("--rcfile");
    reveal_strlit("-w");
    reveal_strlit("-config");
    reveal_strlit("-s");
    reveal_strlit("--config-path");
    reveal_strlit("-style=file:{config}");
    reveal_strlit("php");
    reveal_strlit("-dmemory_limit=-1");
    reveal_strlit("--standard={config}");
    reveal_strlit("--standard=PSR12");
    reveal_strlit("format");
    reveal_strlit("--dialect");
    reveal_strlit("ansi");
    assert("{exec}"@.subrange(0, 6) =~= "{exec}"@);
    assert("{config}"@.subrange(0, 8) =~= "{config}"@);
    assert("-style=file:{config}"@.subrange(12, 20) =~= "{config}"@);
    assert("--standard={config}"@.subrange(11, 19) =~= "{config}"@);
    assert(stands_at("{exec}"@, 0, exec_token()));
    assert(stands_at("{config}"@, 0, config_token()));
    assert(stands_at("-style=file:{config}"@, 12, config_token()));
    assert(stands_at("--standard={config}"@, 11, config_token()));
    assert(holds_one("{exec}"@, exec_token()));
    assert(holds_one("{config}"@, config_token()));
    assert(holds_one("-style=file:{config}"@, config_token()));
    assert(holds_one("--standard={config}"@, config_token()));
}

/// Every language of the catalogue is well formed: it has a tool, the
/// templates of its tools are well formed, no pattern of a tool is empty,
/// and its default executable is the executable of its first tool.
pub proof fn lemma_catalog_is_well_formed()
    ensures
        catalog().len() == 15,
        all_have_tools(catalog()),
        forall|i: int| 0 <= i < catalog().len() ==> (#[trigger] catalog()[i]).well_formed(),
        forall|i: int| 0 <= i < catalog().len() ==> patterns_are_not_empty(#[trigger] catalog()[i]),
        forall|i: int|
            0 <= i < catalog().len() ==> (#[trigger] catalog()[i]).default_executable
                == catalog()[i].tools[0].executable,
{
    lemma_templates_are_well_formed();
}

} // verus!

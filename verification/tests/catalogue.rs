use lint_dispatch::catalog::languages;

#[test]
fn the_languages_come_in_their_registered_order() {
    let names: Vec<&str> = languages().iter().map(|language| language.name).collect();
    assert_eq!(
        names,
        vec![
            "python", "javascript", "typescript", "go", "rust", "java", "php", "css", "html",
            "json", "yaml", "markdown", "shell", "sql", "dockerfile",
        ]
    );
}

#[test]
fn every_language_has_a_tool_and_defaults_to_its_first() {
    for language in languages() {
        assert!(!language.tools.is_empty(), "{}", language.name);
        assert!(!language.extensions.is_empty(), "{}", language.name);
        assert_eq!(language.default_executable, language.tools[0].executable);
    }
}

#[test]
fn the_tools_of_each_language_come_in_their_priority() {
    let expected: Vec<(&str, Vec<&str>)> = vec![
        ("python", vec!["black", "flake8", "pylint"]),
        ("javascript", vec!["eslint", "prettier"]),
        ("typescript", vec!["eslint", "prettier"]),
        ("go", vec!["gofmt", "golangci-lint"]),
        ("rust", vec!["rustfmt"]),
        ("java", vec!["clang-format", "google-java-format"]),
        ("php", vec!["phpcbf", "php-cs-fixer"]),
        ("css", vec!["prettier", "stylelint"]),
        ("html", vec!["prettier"]),
        ("json", vec!["prettier"]),
        ("yaml", vec!["prettier"]),
        ("markdown", vec!["prettier"]),
        ("shell", vec!["shellcheck"]),
        ("sql", vec!["sqlfluff"]),
        ("dockerfile", vec!["hadolint"]),
    ];
    let all = languages();
    assert_eq!(all.len(), expected.len());
    for (language, (name, tools)) in all.iter().zip(expected) {
        assert_eq!(language.name, name);
        let found: Vec<&str> = language.tools.iter().map(|tool| tool.executable).collect();
        assert_eq!(found, tools);
    }
}

#[test]
fn the_catalogue_holds_the_known_extensions() {
    let all = languages();
    assert_eq!(all[0].extensions, vec![".py", ".pyw"]);
    assert_eq!(all[1].extensions, vec![".js", ".mjs", ".cjs", ".jsx"]);
    assert_eq!(all[7].extensions, vec![".css", ".scss", ".sass", ".less"]);
    assert_eq!(all[12].extensions, vec![".sh", ".bash", ".zsh", ".fish"]);
    assert_eq!(all[14].extensions, vec!["Dockerfile"]);
}

#[test]
fn the_catalogue_holds_the_known_configuration_files_and_templates() {
    let all = languages();
    let eslint = &all[1].tools[0];
    assert_eq!(
        eslint.config_files,
        vec![
            ".eslintrc.js", ".eslintrc.cjs", ".eslintrc.json", ".eslintrc.yml", ".eslintrc.yaml",
            "eslint.config.js",
        ]
    );
    assert_eq!(eslint.command_template.with_config, vec!["{exec}", "--fix", "--config", "{config}"]);
    assert_eq!(eslint.command_template.without_config, vec!["{exec}", "--fix"]);
    let black = &all[0].tools[0];
    assert_eq!(black.config_files, vec!["pyproject.toml", "setup.cfg", ".flake8", "tox.ini"]);
    let gofmt = &all[3].tools[0];
    assert_eq!(gofmt.command_template.with_config, vec!["{exec}", "-w", "-config", "{config}"]);
    assert_eq!(gofmt.command_template.without_config, vec!["{exec}", "-s", "-w"]);
    let sqlfluff = &all[13].tools[0];
    assert_eq!(
        sqlfluff.command_template.with_config,
        vec!["{exec}", "format", "--dialect", "ansi", "--config", "{config}"]
    );
    let shellcheck = &all[12].tools[0];
    assert_eq!(shellcheck.config_files, vec![".shellcheckrc"]);
    assert_eq!(shellcheck.command_template.with_config, vec!["{exec}", "--rcfile", "{config}"]);
    let stylelint = &all[7].tools[1];
    assert_eq!(stylelint.command_template.without_config, vec!["{exec}", "--fix"]);
}

#[test]
fn every_template_is_well_formed() {
    for language in languages() {
        for tool in &language.tools {
            assert!(!tool.command_template.with_config.is_empty());
            assert!(!tool.command_template.without_config.is_empty());
            for slot in &tool.command_template.without_config {
                let braces = slot.matches('{').count() + slot.matches('}').count();
                assert!(!slot.contains("{config}"));
                assert!(braces == 0 || (braces == 2 && slot.matches("{exec}").count() == 1));
            }
            for slot in &tool.command_template.with_config {
                let braces = slot.matches('{').count() + slot.matches('}').count();
                let placeholders =
                    slot.matches("{exec}").count() + slot.matches("{config}").count();
                assert!(braces == 0 || (braces == 2 && placeholders == 1));
            }
        }
    }
}

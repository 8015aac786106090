use std::cell::RefCell;

use lint_dispatch::search::{find_in_parent_dirs, test_config_for_tool, test_vendor};

fn disk(paths: &[&str]) -> impl Fn(&str) -> bool {
    let held: Vec<String> = paths.iter().map(|path| path.to_string()).collect();
    move |path: &str| held.iter().any(|one| one == path)
}

fn visited(start: &str) -> Vec<String> {
    let seen = RefCell::new(Vec::new());
    let found = find_in_parent_dirs(start, |dir: &str| {
        seen.borrow_mut().push(dir.to_string());
        None
    });
    assert_eq!(found, None);
    seen.into_inner()
}

#[test]
fn the_search_climbs_from_the_nearest_directory_to_below_the_root() {
    assert_eq!(visited("/a/b/c/file.rs"), vec!["/a/b/c", "/a/b", "/a"]);
    assert_eq!(visited("/a/file.rs"), vec!["/a"]);
}

#[test]
fn the_root_is_not_tested() {
    assert!(visited("/file.rs").is_empty());
    assert!(visited("/").is_empty());
    assert!(visited("").is_empty());
}

#[test]
fn the_current_directory_is_tested_and_then_the_empty_path() {
    assert_eq!(visited("./file.rs"), vec![".", ""]);
    assert_eq!(visited("./a/file.rs"), vec!["./a", ".", ""]);
    assert_eq!(visited("."), vec![""]);
}

#[test]
fn an_answer_on_the_current_directory_is_the_result() {
    let found = find_in_parent_dirs("./a.rs", |_: &str| Some("x".to_string()));
    assert_eq!(found, Some("x".to_string()));
    let on_disk = disk(&["./rustfmt.toml"]);
    assert_eq!(
        test_config_for_tool("./a.rs", &["rustfmt.toml"], &on_disk),
        Some("./rustfmt.toml".to_string())
    );
}

#[test]
fn a_relative_path_is_searched_up_to_the_empty_path() {
    assert_eq!(visited("a/b/file.rs"), vec!["a/b", "a", ""]);
    assert_eq!(visited("file.rs"), vec![""]);
}

#[test]
fn no_directory_is_tested_twice_and_the_steps_are_bounded() {
    for start in ["/a/b/c/d/e/f.rs", "a/./b/../c/x.rs", "//a//b//c.rs", "/a/b/", "a"] {
        let dirs = visited(start);
        assert!(dirs.len() <= start.chars().count());
        for (i, dir) in dirs.iter().enumerate() {
            assert!(!dirs[i + 1..].contains(dir));
            if i > 0 {
                assert!(dir.chars().count() < dirs[i - 1].chars().count());
            }
        }
    }
}

#[test]
fn the_search_stops_at_the_first_answer() {
    let seen = RefCell::new(Vec::new());
    let found = find_in_parent_dirs("/a/b/c/file.rs", |dir: &str| {
        seen.borrow_mut().push(dir.to_string());
        if dir == "/a/b" {
            Some("hit".to_string())
        } else {
            None
        }
    });
    assert_eq!(found, Some("hit".to_string()));
    assert_eq!(seen.into_inner(), vec!["/a/b/c", "/a/b"]);
}

#[test]
fn finds_the_configuration_beside_the_file() {
    let on_disk = disk(&["/p/src/rustfmt.toml", "/p/src/a.rs"]);
    assert_eq!(
        test_config_for_tool("/p/src/a.rs", &[".rustfmt.toml", "rustfmt.toml"], &on_disk),
        Some("/p/src/rustfmt.toml".to_string())
    );
}

#[test]
fn the_nearest_directory_with_a_configuration_wins() {
    let on_disk = disk(&["/p/.eslintrc.js", "/p/web/eslint.config.js"]);
    let names = [".eslintrc.js", ".eslintrc.json", "eslint.config.js"];
    assert_eq!(
        test_config_for_tool("/p/web/src/a.js", &names, &on_disk),
        Some("/p/web/eslint.config.js".to_string())
    );
    assert_eq!(
        test_config_for_tool("/p/lib/a.js", &names, &on_disk),
        Some("/p/.eslintrc.js".to_string())
    );
}

#[test]
fn in_one_directory_the_name_listed_first_wins() {
    let on_disk = disk(&["/p/setup.cfg", "/p/tox.ini", "/p/pyproject.toml"]);
    assert_eq!(
        test_config_for_tool("/p/a.py", &["pyproject.toml", "setup.cfg", "tox.ini"], &on_disk),
        Some("/p/pyproject.toml".to_string())
    );
    assert_eq!(
        test_config_for_tool("/p/a.py", &[".flake8", "setup.cfg", "tox.ini"], &on_disk),
        Some("/p/setup.cfg".to_string())
    );
}

#[test]
fn no_configuration_is_found_where_there_is_none() {
    let on_disk = disk(&["/q/rustfmt.toml", "/rustfmt.toml"]);
    assert_eq!(test_config_for_tool("/p/src/a.rs", &["rustfmt.toml"], &on_disk), None);
    assert_eq!(test_config_for_tool("/p/src/a.rs", &[], &disk(&["/p/src/a.rs"])), None);
    assert_eq!(test_config_for_tool("/", &["rustfmt.toml"], &|_: &str| true), None);
}

#[test]
fn finds_the_vendored_binary_of_a_node_project() {
    let on_disk = disk(&["/p/node_modules/.bin/eslint", "/p/web/node_modules/.bin/prettier"]);
    for language in ["javascript", "typescript", "css", "html", "json", "yaml", "markdown"] {
        assert_eq!(
            test_vendor("/p/web/src/a.x", language, "eslint", &on_disk),
            Some("/p/node_modules/.bin/eslint".to_string())
        );
        assert_eq!(
            test_vendor("/p/web/src/a.x", language, "prettier", &on_disk),
            Some("/p/web/node_modules/.bin/prettier".to_string())
        );
        assert_eq!(test_vendor("/p/web/src/a.x", language, "stylelint", &on_disk), None);
    }
}

#[test]
fn finds_the_vendored_binary_of_a_php_project() {
    let on_disk = disk(&["/p/vendor/bin/phpcbf", "/p/node_modules/.bin/phpcbf"]);
    assert_eq!(
        test_vendor("/p/src/a.php", "php", "phpcbf", &on_disk),
        Some("/p/vendor/bin/phpcbf".to_string())
    );
    assert_eq!(test_vendor("/p/src/a.php", "php", "php-cs-fixer", &on_disk), None);
}

#[test]
fn other_languages_have_no_vendored_binaries() {
    let everything = |_: &str| true;
    for language in ["python", "go", "rust", "java", "shell", "sql", "dockerfile", "", "PHP"] {
        assert_eq!(test_vendor("/p/src/a.x", language, "tool", &everything), None);
    }
}

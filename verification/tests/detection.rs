use lint_dispatch::catalog::languages;
use lint_dispatch::detect::{find_language, first_holding, get_language_for_file, normalize};
use lint_dispatch::registry::LanguageConfig;

fn name_of(path: &str) -> Option<&'static str> {
    get_language_for_file(path).map(|language| language.name)
}

#[test]
fn detects_dockerfile_by_file_name() {
    let dockerfile = "Dockerfile";
    let lang = get_language_for_file(dockerfile).expect("dockerfile language");

    assert_eq!(lang.name, "dockerfile");
}

#[test]
fn detects_the_dockerfile_in_a_directory() {
    assert_eq!(name_of("/srv/app/Dockerfile"), Some("dockerfile"));
    assert_eq!(name_of("docker/dockerfile"), Some("dockerfile"));
    assert_eq!(name_of("/srv/app/DOCKERFILE"), Some("dockerfile"));
}

#[test]
fn detects_a_language_by_extension() {
    assert_eq!(name_of("a.rs"), Some("rust"));
    assert_eq!(name_of("/p/src/main.py"), Some("python"));
    assert_eq!(name_of("/p/src/app.pyw"), Some("python"));
    assert_eq!(name_of("/p/index.js"), Some("javascript"));
    assert_eq!(name_of("/p/index.mjs"), Some("javascript"));
    assert_eq!(name_of("/p/index.ts"), Some("typescript"));
    assert_eq!(name_of("/p/view.tsx"), Some("typescript"));
    assert_eq!(name_of("/p/main.go"), Some("go"));
    assert_eq!(name_of("/p/Main.java"), Some("java"));
    assert_eq!(name_of("/p/index.php"), Some("php"));
    assert_eq!(name_of("/p/site.scss"), Some("css"));
    assert_eq!(name_of("/p/index.htm"), Some("html"));
    assert_eq!(name_of("/p/data.jsonc"), Some("json"));
    assert_eq!(name_of("/p/ci.yml"), Some("yaml"));
    assert_eq!(name_of("/p/README.md"), Some("markdown"));
    assert_eq!(name_of("/p/run.fish"), Some("shell"));
    assert_eq!(name_of("/p/schema.sql"), Some("sql"));
}

#[test]
fn the_last_extension_decides() {
    assert_eq!(name_of("/p/archive.rs.md"), Some("markdown"));
    assert_eq!(name_of("/p/types.d.ts"), Some("typescript"));
    assert_eq!(name_of("/p/build.dockerfile"), Some("dockerfile"));
}

#[test]
fn extensions_are_compared_without_regard_to_case() {
    assert_eq!(name_of("/p/MAIN.RS"), Some("rust"));
    assert_eq!(name_of("/p/Index.Html"), Some("html"));
    assert_eq!(name_of("/p/a.Py"), Some("python"));
}

#[test]
fn a_file_without_extension_is_looked_up_by_its_name() {
    assert_eq!(name_of("/p/rs"), Some("rust"));
    assert_eq!(name_of(".py"), Some("python"));
    assert_eq!(name_of("/p/..json"), Some("json"));
}

#[test]
fn an_unknown_file_has_no_language() {
    assert!(get_language_for_file("/p/notes.txt").is_none());
    assert!(get_language_for_file("/p/Makefile").is_none());
    assert!(get_language_for_file("/p/.gitignore").is_none());
    assert!(get_language_for_file("/p/archive.rs.bak").is_none());
}

#[test]
fn a_path_without_a_file_name_has_no_language() {
    assert!(get_language_for_file("").is_none());
    assert!(get_language_for_file("/").is_none());
    assert!(get_language_for_file("/p/..").is_none());
}

#[test]
fn find_language_gives_the_position_in_the_list() {
    let all = languages();
    assert_eq!(find_language(&all, "x.py"), Some(0));
    assert_eq!(find_language(&all, "x.jsx"), Some(1));
    assert_eq!(find_language(&all, "x.ts"), Some(2));
    assert_eq!(find_language(&all, "x.rs"), Some(4));
    assert_eq!(find_language(&all, "Dockerfile"), Some(14));
    assert_eq!(find_language(&all, "x.unknown"), None);
    assert_eq!(find_language(&Vec::new(), "x.rs"), None);
}

#[test]
fn the_first_language_that_recognises_a_name_wins() {
    let custom = vec![
        LanguageConfig::new("first", vec![".x", "Shared"], vec![], "one"),
        LanguageConfig::new("second", vec!["..SHARED", ".y"], vec![], "two"),
    ];
    assert_eq!(find_language(&custom, "a.shared"), Some(0));
    assert_eq!(find_language(&custom, "a.y"), Some(1));
    assert_eq!(find_language(&custom, "a.X"), Some(0));
    assert_eq!(find_language(&custom, "shared"), Some(0));
    assert_eq!(find_language(&custom, "a.z"), None);
}

#[test]
fn normalize_strips_leading_dots_and_lowers_the_case() {
    assert_eq!(normalize(".RS"), "rs");
    assert_eq!(normalize("...Tar.GZ"), "tar.gz");
    assert_eq!(normalize("Dockerfile"), "dockerfile");
    assert_eq!(normalize("."), "");
    assert_eq!(normalize(""), "");
    assert_eq!(normalize("a."), "a.");
    assert_eq!(normalize(".\u{c9}T\u{c9}"), "\u{e9}t\u{e9}");
}

#[test]
fn first_holding_finds_the_first_set_with_the_name() {
    let sets = vec![
        vec!["a".to_string(), "b".to_string()],
        vec![],
        vec!["c".to_string(), "b".to_string()],
    ];
    assert_eq!(first_holding(&sets, "a"), Some(0));
    assert_eq!(first_holding(&sets, "b"), Some(0));
    assert_eq!(first_holding(&sets, "c"), Some(2));
    assert_eq!(first_holding(&sets, "d"), None);
    assert_eq!(first_holding(&sets, "B"), None);
    assert_eq!(first_holding(&Vec::new(), "a"), None);
}

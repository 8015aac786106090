use lint_dispatch::catalog::languages;
use lint_dispatch::template::{replace, CommandTemplate};

fn strings(items: &[&str]) -> Vec<String> {
    items.iter().map(|item| item.to_string()).collect()
}

#[test]
fn expands_the_pattern_with_configuration() {
    let template = CommandTemplate::new(
        vec!["{exec}", "--fix", "--config", "{config}"],
        vec!["{exec}", "--fix"],
    );
    let args = template.build("/p/node_modules/.bin/eslint", Some("/p/.eslintrc.json"));
    assert_eq!(
        args,
        strings(&["/p/node_modules/.bin/eslint", "--fix", "--config", "/p/.eslintrc.json"])
    );
}

#[test]
fn expands_the_pattern_without_configuration() {
    let template = CommandTemplate::new(
        vec!["{exec}", "-w", "-config", "{config}"],
        vec!["{exec}", "-s", "-w"],
    );
    assert_eq!(template.build("gofmt", None), strings(&["gofmt", "-s", "-w"]));
}

#[test]
fn replaces_a_placeholder_inside_a_slot() {
    let template = CommandTemplate::new(vec!["{exec}", "-style=file:{config}"], vec!["{exec}"]);
    assert_eq!(
        template.build("clang-format", Some("/src/.clang-format")),
        strings(&["clang-format", "-style=file:/src/.clang-format"])
    );
}

#[test]
fn keeps_the_slot_order_and_repeated_arguments() {
    let template = CommandTemplate::new(
        vec!["{exec}", "{config}", "{exec}", "{config}"],
        vec!["-v", "-v", "{exec}"],
    );
    assert_eq!(template.build("e", Some("c")), strings(&["e", "c", "e", "c"]));
    assert_eq!(template.build("e", None), strings(&["-v", "-v", "e"]));
}

#[test]
fn replaces_every_occurrence_in_one_slot() {
    let template = CommandTemplate::new(vec!["{exec}:{exec}={config}{config}"], vec!["{exec}{exec}"]);
    assert_eq!(template.build("x", Some("y")), strings(&["x:x=yy"]));
    assert_eq!(template.build("x", None), strings(&["xx"]));
}

#[test]
fn leaves_the_configuration_placeholder_alone_without_a_path() {
    let template = CommandTemplate::new(vec!["{exec}"], vec!["{exec}", "--config={config}"]);
    assert_eq!(template.build("tool", None), strings(&["tool", "--config={config}"]));
}

#[test]
fn an_empty_pattern_expands_to_nothing() {
    let template = CommandTemplate::new(vec![], vec![]);
    assert!(template.build("tool", None).is_empty());
    assert!(template.build("tool", Some("c")).is_empty());
}

#[test]
fn paths_are_substituted_as_they_are() {
    let template = CommandTemplate::new(vec!["{exec}", "{config}"], vec!["{exec}"]);
    assert_eq!(
        template.build("/my tools/fmt $1", Some("/etc/a b;c")),
        strings(&["/my tools/fmt $1", "/etc/a b;c"])
    );
    assert_eq!(template.build("", None), strings(&[""]));
}

#[test]
fn a_path_that_holds_a_placeholder_is_expanded_in_turn() {
    let template = CommandTemplate::new(vec!["{exec}"], vec!["{exec}"]);
    assert_eq!(template.build("{config}", Some("c")), strings(&["c"]));
    assert_eq!(template.build("{exec}", None), strings(&["{exec}"]));
}

#[test]
fn no_placeholder_is_left_in_any_shipped_command() {
    for language in languages() {
        for tool in &language.tools {
            let with = tool.command_template.build("/usr/bin/tool", Some("/project/config"));
            let without = tool.command_template.build("/usr/bin/tool", None);
            assert_eq!(with.len(), tool.command_template.with_config.len());
            assert_eq!(without.len(), tool.command_template.without_config.len());
            for arg in with.iter().chain(without.iter()) {
                assert!(!arg.contains('{'), "{} in {}", arg, tool.executable);
                assert!(!arg.contains("{exec}"));
                assert!(!arg.contains("{config}"));
            }
        }
    }
}

#[test]
fn replace_agrees_with_the_standard_library() {
    let cases = [
        ("{exec} --fix", "{exec}", "eslint"),
        ("aaaa", "aa", "b"),
        ("aaa", "aa", "b"),
        ("abcabc", "bc", ""),
        ("", "x", "y"),
        ("x", "xyz", "y"),
        ("{{exec}}", "{exec}", "{exec}"),
        ("{ex{exec}ec}", "{exec}", ""),
        ("h\u{e9}llo w\u{f6}rld", "\u{f6}", "oe"),
        ("\u{1f600}a\u{1f600}", "\u{1f600}", "--"),
        ("no match here", "zzz", "y"),
        ("tail{config}", "{config}", "/a/b"),
    ];
    for (text, from, to) in cases {
        assert_eq!(replace(text, from, to), text.replace(from, to), "{:?}", (text, from, to));
    }
}

#[test]
fn replace_with_an_empty_pattern_changes_nothing() {
    assert_eq!(replace("abc", "", "x"), "abc");
    assert_eq!(replace("", "", "x"), "");
}

fn is_simple(slot: &str, with_config: bool) -> bool {
    let braces = slot.matches('{').count() + slot.matches('}').count();
    let exec = slot.matches("{exec}").count();
    let config = slot.matches("{config}").count();
    braces == 0 || (braces == 2 && exec == 1) || (with_config && braces == 2 && config == 1)
}

#[test]
fn a_path_with_braces_but_no_placeholder_leaks_nothing() {
    let paths = ["/opt/{v}/eslint", "{", "}", "{exec", "config}", "{{}}", "{ex{con"];
    for language in languages() {
        for tool in &language.tools {
            let template = &tool.command_template;
            assert!(template.with_config.iter().all(|slot| is_simple(slot, true)));
            assert!(template.without_config.iter().all(|slot| is_simple(slot, false)));
            for exec_path in paths {
                for config_path in paths {
                    let with = template.build(exec_path, Some(config_path));
                    let without = template.build(exec_path, None);
                    for arg in with.iter().chain(without.iter()) {
                        assert!(!arg.contains("{exec}"), "{} from {}", arg, exec_path);
                        assert!(!arg.contains("{config}"), "{} from {}", arg, config_path);
                    }
                }
            }
        }
    }
}

#[test]
fn a_slot_with_a_brace_beside_its_placeholder_may_leak() {
    let template = CommandTemplate::new(vec!["{e{exec}xec}"], vec!["{e{exec}xec}"]);
    assert!(!is_simple("{e{exec}xec}", true));
    assert_eq!(template.build("", None), strings(&["{exec}"]));
}

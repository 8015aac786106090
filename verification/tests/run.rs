use std::cell::Cell;

use lint_dispatch::run::{
    batch_status, command_line, exit_byte, is_executable_available,
    is_executable_available_with, names_a_path, overall_status, run_step, FAILURE_STATUS,
};

fn strings(items: &[&str]) -> Vec<String> {
    items.iter().map(|item| item.to_string()).collect()
}

#[test]
fn a_program_with_a_separator_names_a_path() {
    assert!(names_a_path("/usr/bin/rustfmt"));
    assert!(names_a_path("./rustfmt"));
    assert!(names_a_path("node_modules/.bin/eslint"));
    assert!(names_a_path("tools\\fmt.exe"));
    assert!(names_a_path("/"));
}

#[test]
fn a_bare_name_names_no_path() {
    assert!(!names_a_path("rustfmt"));
    assert!(!names_a_path("clang-format"));
    assert!(!names_a_path(""));
    assert!(!names_a_path("a.b:c"));
}

#[test]
fn the_command_line_is_the_arguments_and_then_the_files() {
    assert_eq!(
        command_line(&strings(&["--fix", "--config", "/p/c"]), &strings(&["/p/a.js", "/p/b.js"])),
        strings(&["--fix", "--config", "/p/c", "/p/a.js", "/p/b.js"])
    );
    assert_eq!(command_line(&vec![], &strings(&["f"])), strings(&["f"]));
    assert_eq!(command_line(&strings(&["a"]), &vec![]), strings(&["a"]));
    assert!(command_line(&vec![], &vec![]).is_empty());
}

#[test]
fn the_status_of_a_batch_is_its_exit_code_or_the_failure_status() {
    assert_eq!(FAILURE_STATUS, 1);
    assert_eq!(batch_status(Some(0)), 0);
    assert_eq!(batch_status(Some(2)), 2);
    assert_eq!(batch_status(Some(-1)), -1);
    assert_eq!(batch_status(None), 1);
}

#[test]
fn the_run_reports_the_first_status_that_is_not_zero() {
    assert_eq!(overall_status(&vec![]), 0);
    assert_eq!(overall_status(&vec![0, 0, 0]), 0);
    assert_eq!(overall_status(&vec![0, 3, 0, 5]), 3);
    assert_eq!(overall_status(&vec![7]), 7);
    assert_eq!(overall_status(&vec![0, 0, -2, 1]), -2);
}

#[test]
fn the_exit_code_is_the_status_in_one_byte() {
    assert_eq!(exit_byte(0), 0);
    assert_eq!(exit_byte(1), 1);
    assert_eq!(exit_byte(2), 2);
    assert_eq!(exit_byte(255), 255);
    assert_eq!(exit_byte(257), 1);
    assert_eq!(exit_byte(-1), 255);
}

#[test]
fn a_failed_run_never_exits_with_zero() {
    assert_eq!(exit_byte(256), 1);
    assert_eq!(exit_byte(512), 1);
    assert_eq!(exit_byte(i32::MIN), 1);
    for status in [1, 255, 256, 1024, -256, i32::MAX, i32::MIN] {
        assert_ne!(exit_byte(status), 0);
    }
}

#[test]
fn a_program_given_as_a_path_is_available_when_it_is_there() {
    assert!(is_executable_available("/"));
    assert!(!is_executable_available("/no/such/directory/anywhere/tool"));
    assert!(!is_executable_available("./no-such-tool-in-this-directory"));
}

#[test]
fn a_bare_name_that_is_nowhere_is_not_available() {
    assert!(!is_executable_available("no-such-formatter-on-any-search-path"));
}

#[test]
fn a_path_is_asked_of_the_disk_and_a_name_of_the_search_path() {
    let disk_asked = Cell::new(0);
    let path_asked = Cell::new(0);
    let present = |path: &str| {
        disk_asked.set(disk_asked.get() + 1);
        path == "/opt/tools/fmt"
    };
    let lookup = |name: &str| {
        path_asked.set(path_asked.get() + 1);
        if name == "rustfmt" {
            Some("/usr/bin/rustfmt".to_string())
        } else {
            None
        }
    };

    assert!(is_executable_available_with("/opt/tools/fmt", &present, &lookup));
    assert!(!is_executable_available_with("./rustfmt", &present, &lookup));
    assert_eq!((disk_asked.get(), path_asked.get()), (2, 0));
    assert!(is_executable_available_with("rustfmt", &present, &lookup));
    assert!(!is_executable_available_with("eslint", &present, &lookup));
    assert_eq!((disk_asked.get(), path_asked.get()), (2, 2));
}

#[test]
fn an_unavailable_program_is_reported_and_not_started() {
    assert_eq!(run_step(false), Some(1));
    assert_eq!(run_step(false), Some(FAILURE_STATUS));
    assert_eq!(run_step(true), None);
}

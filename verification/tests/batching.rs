use lint_dispatch::batch::{add_to_list, FileBatchList};

fn strings(items: &[&str]) -> Vec<String> {
    items.iter().map(|item| item.to_string()).collect()
}

fn add(list: &mut FileBatchList, file: &str, program: &str, args: &[&str]) {
    add_to_list(list, file.to_string(), program.to_string(), strings(args));
}

#[test]
fn keeps_batches_separate_for_different_commands() {
    let mut list = FileBatchList::new();
    add_to_list(
        &mut list,
        "one.rs".to_string(),
        "rustfmt".to_string(),
        vec![],
    );
    add_to_list(
        &mut list,
        "two.ts".to_string(),
        "eslint".to_string(),
        vec!["--fix".to_string()],
    );

    assert_eq!(list.len(), 2);
}

#[test]
fn a_new_list_is_empty() {
    let list = FileBatchList::new();
    assert_eq!(list.len(), 0);
    assert!(list.batches().is_empty());
}

#[test]
fn files_of_one_command_share_a_batch_in_the_order_they_came() {
    let mut list = FileBatchList::new();
    add(&mut list, "/p/b.rs", "rustfmt", &[]);
    add(&mut list, "/p/x.ts", "eslint", &["--fix"]);
    add(&mut list, "/p/a.rs", "rustfmt", &[]);
    add(&mut list, "/p/c.rs", "rustfmt", &[]);
    add(&mut list, "/p/y.ts", "eslint", &["--fix"]);

    assert_eq!(list.len(), 2);
    let batches = list.batches();
    assert_eq!(batches[0].program, "rustfmt");
    assert!(batches[0].args.is_empty());
    assert_eq!(batches[0].files, strings(&["/p/b.rs", "/p/a.rs", "/p/c.rs"]));
    assert_eq!(batches[1].program, "eslint");
    assert_eq!(batches[1].args, strings(&["--fix"]));
    assert_eq!(batches[1].files, strings(&["/p/x.ts", "/p/y.ts"]));
}

#[test]
fn one_executable_with_and_without_configuration_makes_two_batches() {
    let mut list = FileBatchList::new();
    add(&mut list, "/p/a.rs", "rustfmt", &["--config-path", "/p/rustfmt.toml"]);
    add(&mut list, "/q/b.rs", "rustfmt", &[]);
    add(&mut list, "/p/c.rs", "rustfmt", &["--config-path", "/p/rustfmt.toml"]);

    assert_eq!(list.len(), 2);
    let batches = list.batches();
    assert_eq!(batches[0].args, strings(&["--config-path", "/p/rustfmt.toml"]));
    assert_eq!(batches[0].files, strings(&["/p/a.rs", "/p/c.rs"]));
    assert!(batches[1].args.is_empty());
    assert_eq!(batches[1].files, strings(&["/q/b.rs"]));
}

#[test]
fn files_of_different_languages_merge_under_one_command() {
    let mut list = FileBatchList::new();
    add(&mut list, "/p/a.html", "prettier", &["--write"]);
    add(&mut list, "/p/b.json", "prettier", &["--write"]);
    add(&mut list, "/p/c.md", "prettier", &["--write"]);

    assert_eq!(list.len(), 1);
    assert_eq!(list.batches()[0].files, strings(&["/p/a.html", "/p/b.json", "/p/c.md"]));
}

#[test]
fn commands_are_compared_argument_by_argument() {
    let mut list = FileBatchList::new();
    add(&mut list, "1", "a", &[]);
    add(&mut list, "2", "a", &[""]);
    add(&mut list, "3", "a", &["", ""]);
    add(&mut list, "4", "a", &["b", "c"]);
    add(&mut list, "5", "a", &["c", "b"]);
    add(&mut list, "6", "a", &["b c"]);
    add(&mut list, "7", "a", &["b\0c"]);
    add(&mut list, "8", "a\0b", &["c"]);
    add(&mut list, "9", "a", &["b", "c"]);

    assert_eq!(list.len(), 8);
    let batches = list.batches();
    assert_eq!(batches[3].files, strings(&["4", "9"]));
    for (i, batch) in batches.iter().enumerate() {
        if i != 3 {
            assert_eq!(batch.files.len(), 1);
        }
    }
}

#[test]
fn a_file_added_twice_stands_twice() {
    let mut list = FileBatchList::new();
    add(&mut list, "/p/a.rs", "rustfmt", &[]);
    add(&mut list, "/p/a.rs", "rustfmt", &[]);

    assert_eq!(list.len(), 1);
    assert_eq!(list.batches()[0].files, strings(&["/p/a.rs", "/p/a.rs"]));
}

#[test]
fn every_file_ends_up_in_exactly_one_batch() {
    let additions = [
        ("f0", "p", vec!["x"]),
        ("f1", "q", vec![]),
        ("f2", "p", vec!["x"]),
        ("f3", "p", vec!["y"]),
        ("f4", "q", vec![]),
        ("f5", "p", vec!["x", "y"]),
        ("f6", "p", vec!["x"]),
    ];
    let mut list = FileBatchList::new();
    for (file, program, args) in &additions {
        add(&mut list, file, program, args);
    }

    let batches = list.batches();
    for (i, a) in batches.iter().enumerate() {
        for b in &batches[i + 1..] {
            assert!(a.program != b.program || a.args != b.args);
        }
    }
    for (file, program, args) in &additions {
        let holders: Vec<_> = batches
            .iter()
            .filter(|batch| batch.files.iter().any(|held| held == file))
            .collect();
        assert_eq!(holders.len(), 1);
        assert_eq!(holders[0].program, *program);
        assert_eq!(holders[0].args, strings(args));
        assert_eq!(holders[0].files.iter().filter(|held| held == file).count(), 1);
    }
    for batch in batches {
        let expected: Vec<String> = additions
            .iter()
            .filter(|(_, program, args)| batch.program == *program && batch.args == strings(args))
            .map(|(file, _, _)| file.to_string())
            .collect();
        assert_eq!(batch.files, expected);
    }
}

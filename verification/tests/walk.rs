use lint_dispatch::walk::{root_action, should_skip_dir, should_walk_entry, EntryKind, RootAction};

#[test]
fn pruned_directory_names_are_skipped() {
    for name in [".git", "node_modules", "target", "vendor", ".venv", "venv"] {
        assert!(should_skip_dir(name), "{}", name);
    }
}

#[test]
fn other_directory_names_are_not_skipped() {
    for name in ["src", "", ".", "..", "git", ".GIT", "Target", "vendors", ".venv2", "node_modules ", ".github"] {
        assert!(!should_skip_dir(name), "{}", name);
    }
}

#[test]
fn a_symbolic_link_is_never_walked() {
    for name in [None, Some("link"), Some("src"), Some("a.rs"), Some("target")] {
        assert!(!should_walk_entry(EntryKind::Symlink, name));
    }
}

#[test]
fn a_pruned_directory_is_never_entered() {
    for name in [".git", "node_modules", "target", "vendor", ".venv", "venv"] {
        assert!(!should_walk_entry(EntryKind::Directory, Some(name)));
    }
}

#[test]
fn other_entries_are_walked() {
    assert!(should_walk_entry(EntryKind::Directory, Some("src")));
    assert!(should_walk_entry(EntryKind::Directory, None));
    assert!(should_walk_entry(EntryKind::File, Some("a.rs")));
    assert!(should_walk_entry(EntryKind::File, Some("target")));
    assert!(should_walk_entry(EntryKind::File, Some("vendor")));
    assert!(should_walk_entry(EntryKind::File, None));
    assert!(should_walk_entry(EntryKind::Other, Some("node_modules")));
    assert!(should_walk_entry(EntryKind::Other, None));
}

#[test]
fn a_file_is_processed_and_a_directory_is_walked() {
    assert_eq!(root_action(EntryKind::File), RootAction::Process);
    assert_eq!(root_action(EntryKind::Directory), RootAction::Walk);
}

#[test]
fn a_link_or_anything_else_is_passed_over() {
    assert_eq!(root_action(EntryKind::Symlink), RootAction::Skip);
    assert_eq!(root_action(EntryKind::Other), RootAction::Skip);
}

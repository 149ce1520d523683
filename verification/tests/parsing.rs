use multitree::multitree::{
    choose_shell, display_branch, is_affirmative, local_branch_of, root_from_output, MultiTree, MultiTreeError,
};
use multitree::config::config::{Config, Missing};
use multitree::config::config_file::{default_base_branch, CleanConfig, ConfigFile, PathConfig, UiConfig};
use multitree::text::trimmed;
use multitree::worktree::{parse_worktree_list, WorktreeEntry};

fn manager() -> MultiTree {
    let file = ConfigFile::new(default_base_branch(), PathConfig::default(), CleanConfig::default(), UiConfig::default());
    let config = Config::<Missing>::default().with_saved_file("/cfg/Config.toml".to_string(), file.mark_saved());
    MultiTree::new(config)
}

const LISTING: &str = "worktree /home/u/repo\nHEAD 1111\nbranch refs/heads/main\n\nworktree /home/u/feature-x\nHEAD 2222\nbranch refs/heads/feature-x\n\nworktree /home/u/loose\nHEAD 3333\ndetached\n\n";

fn entry(e: &WorktreeEntry) -> (&str, Option<&str>) {
    (e.path.as_str(), e.branch.as_deref())
}

#[test]
fn parse_reads_each_stanza() {
    let entries = parse_worktree_list(LISTING);
    let got: Vec<_> = entries.iter().map(entry).collect();
    assert_eq!(
        got,
        vec![
            ("/home/u/repo", Some("refs/heads/main")),
            ("/home/u/feature-x", Some("refs/heads/feature-x")),
            ("/home/u/loose", None),
        ]
    );
}

#[test]
fn parse_without_final_blank_line_keeps_last_entry() {
    let entries = parse_worktree_list("worktree /a\nbranch refs/heads/a\n\nworktree /b\nbranch refs/heads/b");
    let got: Vec<_> = entries.iter().map(entry).collect();
    assert_eq!(got, vec![("/a", Some("refs/heads/a")), ("/b", Some("refs/heads/b"))]);
}

#[test]
fn parse_trims_paths_and_refs_and_carriage_returns() {
    let entries = parse_worktree_list("worktree   /a b  \r\nbranch  refs/heads/x \r\n\r\n");
    let got: Vec<_> = entries.iter().map(entry).collect();
    assert_eq!(got, vec![("/a b", Some("refs/heads/x"))]);
}

#[test]
fn parse_new_worktree_line_closes_previous_stanza() {
    let entries = parse_worktree_list("worktree /a\nbranch refs/heads/a\nworktree /b\n");
    let got: Vec<_> = entries.iter().map(entry).collect();
    assert_eq!(got, vec![("/a", Some("refs/heads/a")), ("/b", None)]);
}

#[test]
fn parse_ignores_branch_outside_stanza_and_empty_text() {
    assert!(parse_worktree_list("").is_empty());
    assert!(parse_worktree_list("\n\n  \n").is_empty());
    let entries = parse_worktree_list("branch refs/heads/stray\n\nworktree /a\n");
    let got: Vec<_> = entries.iter().map(entry).collect();
    assert_eq!(got, vec![("/a", None)]);
}

#[test]
fn parse_last_branch_line_of_stanza_wins() {
    let entries = parse_worktree_list("worktree /a\nbranch refs/heads/one\nbranch refs/heads/two\n");
    let got: Vec<_> = entries.iter().map(entry).collect();
    assert_eq!(got, vec![("/a", Some("refs/heads/two"))]);
}

#[test]
fn parse_counts_one_entry_per_worktree_line() {
    let text = "worktree /a\n\n\nworktree /b\nHEAD x\nworktree /c\nbare\n";
    assert_eq!(parse_worktree_list(text).len(), 3);
}

#[test]
fn find_worktree_by_branch_finds_first_match() {
    let mt = manager();
    let text = "worktree /a\nbranch refs/heads/x\n\nworktree /b\nbranch refs/heads/x\n";
    let e = mt.find_worktree_by_branch(text, "x").unwrap();
    assert_eq!(e.path, "/a");
    let e = mt.find_worktree_by_branch(LISTING, "feature-x").unwrap();
    assert_eq!(e.path, "/home/u/feature-x");
    assert_eq!(e.branch.as_deref(), Some("refs/heads/feature-x"));
}

#[test]
fn find_worktree_by_branch_reports_missing_branch() {
    let mt = manager();
    match mt.find_worktree_by_branch(LISTING, "nope") {
        Err(MultiTreeError::WorktreeNotFound(n)) => assert_eq!(n, "nope"),
        _ => panic!("expected WorktreeNotFound"),
    }
    // A full ref name is not a branch name.
    assert!(mt.find_worktree_by_branch(LISTING, "refs/heads/main").is_err());
}

#[test]
fn confirmation_accepts_only_yes_words() {
    for yes in ["y", "Y", "yes", "YES", "Yes", "y\n", "  yes \r\n"] {
        assert!(is_affirmative(yes), "{yes:?}");
    }
    for no in ["", "n", "N", "no", "yEs", "ye", "yes please", "\n"] {
        assert!(!is_affirmative(no), "{no:?}");
    }
}

#[test]
fn shell_choice_prefers_settings_then_environment() {
    assert_eq!(choose_shell("  zsh ", Some("/bin/sh".into()), false), "zsh");
    assert_eq!(choose_shell("   ", Some("/bin/sh".into()), false), "/bin/sh");
    assert_eq!(choose_shell("", None, false), "/bin/bash");
    assert_eq!(choose_shell("", None, true), "cmd");
}

#[test]
fn branch_labels_and_local_branches() {
    let e = WorktreeEntry { path: "/a".into(), branch: Some("refs/heads/feat/x".into()) };
    assert_eq!(display_branch(&e), "feat/x");
    let e = WorktreeEntry { path: "/a".into(), branch: Some("refs/remotes/origin/x".into()) };
    assert_eq!(display_branch(&e), "(detached)");
    let e = WorktreeEntry { path: "/a".into(), branch: None };
    assert_eq!(display_branch(&e), "(detached)");
    assert_eq!(local_branch_of(&"refs/heads/".to_string()), Some(String::new()));
    assert_eq!(local_branch_of(&"refs/head".to_string()), None);
}

#[test]
fn root_and_trim() {
    assert_eq!(root_from_output("/home/u/repo\n"), "/home/u/repo");
    assert_eq!(trimmed("\u{3000} a b\u{85}"), "a b");
    assert_eq!(trimmed("   "), "");
}

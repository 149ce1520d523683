use multitree::config::config_file::{PathConfig, PathResolution};
use multitree::multitree::MultiTreeError;
use multitree::paths::{
    default_worktree_path, plan_base_dir, resolve_add_path, resolve_existing_path, worktree_path, BaseDir, ResolveError,
};

fn paths(resolution: PathResolution, custom: &str) -> PathConfig {
    PathConfig { resolution, custom_base: custom.to_string() }
}

#[test]
fn new_worktree_goes_beside_the_repository_by_default() {
    let p = worktree_path("/home/u/repo", &None, &PathConfig::default(), "feature-x").unwrap();
    assert_eq!(p, "/home/u/feature-x");
}

#[test]
fn new_worktree_inside_repository_root() {
    let p = worktree_path("/home/u/repo", &None, &paths(PathResolution::RepoRoot, ""), "feature-x").unwrap();
    assert_eq!(p, "/home/u/repo/feature-x");
}

#[test]
fn custom_base_absolute_relative_and_empty() {
    let root = "/home/u/repo";
    let abs = worktree_path(root, &None, &paths(PathResolution::Custom, "/srv/trees"), "x").unwrap();
    assert_eq!(abs, "/srv/trees/x");
    let rel = worktree_path(root, &None, &paths(PathResolution::Custom, "trees"), "x").unwrap();
    assert_eq!(rel, "/home/u/trees/x");
    let empty = worktree_path(root, &None, &paths(PathResolution::Custom, ""), "x").unwrap();
    assert_eq!(empty, "/home/u/x");
}

#[test]
fn given_path_overrides_settings() {
    let root = "/home/u/repo";
    let cfg = paths(PathResolution::RepoRoot, "");
    assert_eq!(worktree_path(root, &Some("/tmp/wt".into()), &cfg, "x").unwrap(), "/tmp/wt/x");
    assert_eq!(worktree_path(root, &Some("../worktrees".into()), &cfg, "x").unwrap(), "/home/u/../worktrees/x");
}

#[test]
fn repository_at_filesystem_root_has_no_parent() {
    match worktree_path("/", &None, &PathConfig::default(), "x") {
        Err(MultiTreeError::MissingRepoParent) => {}
        _ => panic!("expected MissingRepoParent"),
    }
}

#[test]
fn base_dir_plan_follows_the_settings() {
    let cfg = paths(PathResolution::Custom, "trees");
    assert!(matches!(plan_base_dir(&None, false, &cfg, false), BaseDir::UnderParent(ref p) if p == "trees"));
    assert!(matches!(plan_base_dir(&None, false, &cfg, true), BaseDir::Exactly(ref p) if p == "trees"));
    assert!(matches!(plan_base_dir(&Some("/x".into()), true, &cfg, false), BaseDir::Exactly(ref p) if p == "/x"));
    assert!(matches!(plan_base_dir(&None, false, &paths(PathResolution::Custom, ""), true), BaseDir::RepoParent));
    assert!(matches!(plan_base_dir(&None, false, &paths(PathResolution::RepoRoot, "z"), true), BaseDir::RepoRoot));
}

#[test]
fn default_worktree_path_is_sibling_worktrees_dir() {
    assert_eq!(default_worktree_path("/home/user/Code/monoxide", "feat"), "/home/user/Code/worktrees/feat");
    assert_eq!(default_worktree_path("/", "feat"), "./worktrees/feat");
}

#[test]
fn add_path_prefers_given_path() {
    assert_eq!(resolve_add_path("feat", &Some("/custom/feat".into()), "/r/repo"), "/custom/feat");
    assert_eq!(resolve_add_path("feat", &None, "/r/repo"), "/r/worktrees/feat");
}

#[test]
fn existing_path_falls_back_to_default() {
    let given = Some("/custom/feat".to_string());
    assert_eq!(resolve_existing_path("feat", &given, "/r/repo", true, false).unwrap(), "/custom/feat");
    assert_eq!(resolve_existing_path("feat", &given, "/r/repo", false, true).unwrap(), "/r/worktrees/feat");
    assert_eq!(resolve_existing_path("feat", &None, "/r/repo", true, true).unwrap(), "/r/worktrees/feat");
    match resolve_existing_path("feat", &given, "/r/repo", false, false) {
        Err(ResolveError::NotFound(m)) => {
            assert_eq!(m, "could not find worktree path; tried explicit path and \"/r/worktrees/feat\"");
            assert_eq!(m, format!("could not find worktree path; tried explicit path and {:?}", std::path::PathBuf::from("/r/worktrees/feat")));
        }
        Ok(_) => panic!("expected NotFound"),
    }
}

use multitree::config::config::{Config, Missing};
use multitree::config::config_file::{
    default_base_branch, default_true, CleanConfig, ConfigFile, PathConfig, PathResolution, UiConfig, Unsaved,
};

fn defaults() -> ConfigFile<Unsaved> {
    ConfigFile::new(default_base_branch(), PathConfig::default(), CleanConfig::default(), UiConfig::default())
}

#[test]
fn defaults_match_the_documented_file() {
    assert_eq!(default_base_branch(), "main");
    assert!(default_true());
    let f = defaults();
    assert_eq!(f.default_base_branch, "main");
    assert!(matches!(f.path.resolution, PathResolution::RepoParent));
    assert!(matches!(PathResolution::default(), PathResolution::RepoParent));
    assert_eq!(f.path.custom_base, "");
    assert!(f.clean.auto_fetch);
    assert!(f.clean.require_merged);
    assert!(!f.clean.delete_local_branch);
    assert_eq!(f.ui.preferred_shell, "");
    assert!(f.ui.confirm_before_remove);
}

#[test]
fn saving_and_reopening_keep_settings() {
    let mut f = defaults();
    f.default_base_branch = "trunk".into();
    let saved = f.mark_saved();
    assert_eq!(saved.default_base_branch, "trunk");
    let reopened = saved.write();
    assert_eq!(reopened.default_base_branch, "trunk");
    assert!(reopened.ui.confirm_before_remove);
}

#[test]
fn config_gives_what_its_file_holds() {
    let c = Config::<Missing>::default().with_saved_file("/cfg/Config.toml".into(), defaults().mark_saved());
    assert_eq!(c.config_path(), "/cfg/Config.toml");
    assert_eq!(c.default_base_branch(), "main");
    assert!(matches!(c.path_config().resolution, PathResolution::RepoParent));
    assert!(c.clean_config().auto_fetch);
    assert!(c.ui_config().confirm_before_remove);
    assert_eq!(c.file().default_base_branch, "main");
}

#[test]
fn each_setter_changes_its_setting_only() {
    let mut c = Config::<Missing>::default().with_saved_file("/cfg/Config.toml".into(), defaults().mark_saved());
    c.set_default_base_branch("develop".into());
    assert_eq!(c.default_base_branch(), "develop");
    assert!(matches!(c.path_config().resolution, PathResolution::RepoParent));

    c.set_path_resolution(PathResolution::Custom);
    c.set_custom_base("../trees".into());
    assert!(matches!(c.path_config().resolution, PathResolution::Custom));
    assert_eq!(c.path_config().custom_base, "../trees");
    assert_eq!(c.default_base_branch(), "develop");

    c.set_clean_auto_fetch(false);
    c.set_clean_require_merged(false);
    c.set_clean_delete_local_branch(true);
    assert!(!c.clean_config().auto_fetch);
    assert!(!c.clean_config().require_merged);
    assert!(c.clean_config().delete_local_branch);

    c.set_preferred_shell("fish".into());
    c.set_confirm_before_remove(false);
    assert_eq!(c.ui_config().preferred_shell, "fish");
    assert!(!c.ui_config().confirm_before_remove);

    assert_eq!(c.config_path(), "/cfg/Config.toml");
    assert_eq!(c.default_base_branch(), "develop");
    assert_eq!(c.path_config().custom_base, "../trees");
}

#[test]
fn no_setter_moves_the_settings_file() {
    let mut c = Config::<Missing>::default().with_saved_file("/home/u/.config/multitree/Config.toml".into(), defaults().mark_saved());
    c.set_default_base_branch("a".into());
    c.set_custom_base("b".into());
    c.set_preferred_shell("c".into());
    c.set_confirm_before_remove(false);
    c.set_default_base_branch("d".into());
    assert_eq!(c.config_path(), "/home/u/.config/multitree/Config.toml");
    assert_eq!(c.default_base_branch(), "d");
}

//! The settings of the tool, tied to the place of their file.

use vstd::prelude::*;

use super::config_file::{CleanConfig, ConfigFile, PathConfig, PathResolution, Saved, Settings, UiConfig};

verus! {

/// Marks settings whose file has no place yet.
pub struct Missing;

/// Marks settings whose file lies at the path it holds.
pub struct Created(String);

impl Default for Missing {
    fn default() -> (r: Self) {
        Missing
    }
}

/// The settings of the tool; `T` says whether their file has a place.
pub struct Config<T> {
    self_file_path: T,
    file: Option<ConfigFile<Saved>>,
}

impl Default for Config<Missing> {
    fn default() -> (r: Self)
        ensures
            r.is_empty(),
    {
        Config { self_file_path: Missing, file: None }
    }
}

impl Config<Missing> {
    /// Whether no settings are held yet.
    pub closed spec fn is_empty(&self) -> bool {
        self.file is None
    }

    /// The settings `file`, saved at `path`.
    pub fn with_saved_file(self, path: String, file: ConfigFile<Saved>) -> (r: Config<Created>)
        ensures
            r.wf(),
            r.path_view() == path@,
            r.settings() == file.settings(),
    {
        Config { self_file_path: Created(path), file: Some(file) }
    }
}

impl Config<Created> {
    /// Settings are held.
    pub closed spec fn wf(&self) -> bool {
        self.file is Some
    }

    /// Where the settings file lies.
    pub closed spec fn path_view(&self) -> Seq<char> {
        self.self_file_path.0@
    }

    /// The settings held.
    pub closed spec fn settings(&self) -> Settings {
        self.file->0.settings()
    }

    /// Where the settings file lies.
    pub fn config_path(&self) -> (r: &String)
        ensures
            r@ == self.path_view(),
    {
        &self.self_file_path.0
    }

    /// The branch that new branches start from.
    pub fn default_base_branch(&self) -> (r: &str)
        requires
            self.wf(),
        ensures
            r@ == self.settings().default_base_branch,
    {
        self.file.as_ref().unwrap().default_base_branch.as_str()
    }

    /// Where new worktrees go.
    pub fn path_config(&self) -> (r: &PathConfig)
        requires
            self.wf(),
        ensures
            r.resolution == self.settings().resolution,
            r.custom_base@ == self.settings().custom_base,
    {
        &self.file.as_ref().unwrap().path
    }

    /// How `clean` works.
    pub fn clean_config(&self) -> (r: &CleanConfig)
        requires
            self.wf(),
        ensures
            r.auto_fetch == self.settings().auto_fetch,
            r.require_merged == self.settings().require_merged,
            r.delete_local_branch == self.settings().delete_local_branch,
    {
        &self.file.as_ref().unwrap().clean
    }

    /// How the tool talks to the user.
    pub fn ui_config(&self) -> (r: &UiConfig)
        requires
            self.wf(),
        ensures
            r.preferred_shell@ == self.settings().preferred_shell,
            r.confirm_before_remove == self.settings().confirm_before_remove,
    {
        &self.file.as_ref().unwrap().ui
    }

    /// The saved settings, as they are to be written to the file.
    pub fn file(&self) -> (r: &ConfigFile<Saved>)
        requires
            self.wf(),
        ensures
            r.settings() == self.settings(),
    {
        self.file.as_ref().unwrap()
    }

    /// Sets the branch that new branches start from. The caller writes `file()` to
    /// `config_path()` to keep the change.
    pub fn set_default_base_branch(&mut self, branch: String)
        requires
            old(self).wf(),
        ensures
            (final(self).path_view(), final(self).settings()) == after_change(
                old(self).path_view(),
                old(self).settings(),
                SettingChange::BaseBranch(branch@),
            ),
            final(self).wf(),
            final(self).path_view() == old(self).path_view(),
            final(self).settings() == (Settings { default_base_branch: branch@, ..old(self).settings() }),
    {
        let mut config_file = self.file.take().unwrap();
        config_file.default_base_branch = branch;
        let config_file = config_file.write().mark_saved();
        self.file = Some(config_file);
    }

    /// Sets where new worktrees go when no path is given. The caller writes `file()` to `config_path()` to keep the change.
    pub fn set_path_resolution(&mut self, resolution: PathResolution)
        requires
            old(self).wf(),
        ensures
            (final(self).path_view(), final(self).settings()) == after_change(
                old(self).path_view(),
                old(self).settings(),
                SettingChange::Resolution(resolution),
            ),
            final(self).wf(),
            final(self).path_view() == old(self).path_view(),
            final(self).settings() == (Settings { resolution: resolution, ..old(self).settings() }),
    {
        let mut config_file = self.file.take().unwrap();
        config_file.path.resolution = resolution;
        let config_file = config_file.write().mark_saved();
        self.file = Some(config_file);
    }

    /// Sets the directory that `Custom` resolution puts worktrees under. The caller writes `file()` to `config_path()` to keep the change.
    pub fn set_custom_base(&mut self, custom_base: String)
        requires
            old(self).wf(),
        ensures
            (final(self).path_view(), final(self).settings()) == after_change(
                old(self).path_view(),
                old(self).settings(),
                SettingChange::CustomBase(custom_base@),
            ),
            final(self).wf(),
            final(self).path_view() == old(self).path_view(),
            final(self).settings() == (Settings { custom_base: custom_base@, ..old(self).settings() }),
    {
        let mut config_file = self.file.take().unwrap();
        config_file.path.custom_base = custom_base;
        let config_file = config_file.write().mark_saved();
        self.file = Some(config_file);
    }

    /// Sets whether `clean` fetches and prunes first. The caller writes `file()` to `config_path()` to keep the change.
    pub fn set_clean_auto_fetch(&mut self, auto_fetch: bool)
        requires
            old(self).wf(),
        ensures
            (final(self).path_view(), final(self).settings()) == after_change(
                old(self).path_view(),
                old(self).settings(),
                SettingChange::AutoFetch(auto_fetch),
            ),
            final(self).wf(),
            final(self).path_view() == old(self).path_view(),
            final(self).settings() == (Settings { auto_fetch: auto_fetch, ..old(self).settings() }),
    {
        let mut config_file = self.file.take().unwrap();
        config_file.clean.auto_fetch = auto_fetch;
        let config_file = config_file.write().mark_saved();
        self.file = Some(config_file);
    }

    /// Sets whether `clean` keeps branches not merged into the base branch. The caller writes `file()` to `config_path()` to keep the change.
    pub fn set_clean_require_merged(&mut self, require_merged: bool)
        requires
            old(self).wf(),
        ensures
            (final(self).path_view(), final(self).settings()) == after_change(
                old(self).path_view(),
                old(self).settings(),
                SettingChange::RequireMerged(require_merged),
            ),
            final(self).wf(),
            final(self).path_view() == old(self).path_view(),
            final(self).settings() == (Settings { require_merged: require_merged, ..old(self).settings() }),
    {
        let mut config_file = self.file.take().unwrap();
        config_file.clean.require_merged = require_merged;
        let config_file = config_file.write().mark_saved();
        self.file = Some(config_file);
    }

    /// Sets whether `clean` deletes the local branch of a removed worktree. The caller writes `file()` to `config_path()` to keep the change.
    pub fn set_clean_delete_local_branch(&mut self, delete_local_branch: bool)
        requires
            old(self).wf(),
        ensures
            (final(self).path_view(), final(self).settings()) == after_change(
                old(self).path_view(),
                old(self).settings(),
                SettingChange::DeleteLocalBranch(delete_local_branch),
            ),
            final(self).wf(),
            final(self).path_view() == old(self).path_view(),
            final(self).settings() == (Settings { delete_local_branch: delete_local_branch, ..old(self).settings() }),
    {
        let mut config_file = self.file.take().unwrap();
        config_file.clean.delete_local_branch = delete_local_branch;
        let config_file = config_file.write().mark_saved();
        self.file = Some(config_file);
    }

    /// Sets the shell that `track` starts. The caller writes `file()` to `config_path()` to keep the change.
    pub fn set_preferred_shell(&mut self, preferred_shell: String)
        requires
            old(self).wf(),
        ensures
            (final(self).path_view(), final(self).settings()) == after_change(
                old(self).path_view(),
                old(self).settings(),
                SettingChange::PreferredShell(preferred_shell@),
            ),
            final(self).wf(),
            final(self).path_view() == old(self).path_view(),
            final(self).settings() == (Settings { preferred_shell: preferred_shell@, ..old(self).settings() }),
    {
        let mut config_file = self.file.take().unwrap();
        config_file.ui.preferred_shell = preferred_shell;
        let config_file = config_file.write().mark_saved();
        self.file = Some(config_file);
    }

    /// Sets whether `remove` asks before removing. The caller writes `file()` to `config_path()` to keep the change.
    pub fn set_confirm_before_remove(&mut self, confirm_before_remove: bool)
        requires
            old(self).wf(),
        ensures
            (final(self).path_view(), final(self).settings()) == after_change(
                old(self).path_view(),
                old(self).settings(),
                SettingChange::ConfirmBeforeRemove(confirm_before_remove),
            ),
            final(self).wf(),
            final(self).path_view() == old(self).path_view(),
            final(self).settings() == (Settings { confirm_before_remove: confirm_before_remove, ..old(self).settings() }),
    {
        let mut config_file = self.file.take().unwrap();
        config_file.ui.confirm_before_remove = confirm_before_remove;
        let config_file = config_file.write().mark_saved();
        self.file = Some(config_file);
    }
}

/// A change that one setter of `Config` makes.
pub enum SettingChange {
    BaseBranch(Seq<char>),
    Resolution(PathResolution),
    CustomBase(Seq<char>),
    AutoFetch(bool),
    RequireMerged(bool),
    DeleteLocalBranch(bool),
    PreferredShell(Seq<char>),
    ConfirmBeforeRemove(bool),
}

/// `s` with the setting that `c` names replaced.
pub open spec fn change_settings(s: Settings, c: SettingChange) -> Settings {
    match c {
        SettingChange::BaseBranch(v) => Settings { default_base_branch: v, ..s },
        SettingChange::Resolution(v) => Settings { resolution: v, ..s },
        SettingChange::CustomBase(v) => Settings { custom_base: v, ..s },
        SettingChange::AutoFetch(v) => Settings { auto_fetch: v, ..s },
        SettingChange::RequireMerged(v) => Settings { require_merged: v, ..s },
        SettingChange::DeleteLocalBranch(v) => Settings { delete_local_branch: v, ..s },
        SettingChange::PreferredShell(v) => Settings { preferred_shell: v, ..s },
        SettingChange::ConfirmBeforeRemove(v) => Settings { confirm_before_remove: v, ..s },
    }
}

/// The place of the settings file and the settings after the change `c`, starting from
/// `path` and `s`: the place stays, the setting changes.
pub open spec fn after_change(path: Seq<char>, s: Settings, c: SettingChange) -> (Seq<char>, Settings) {
    (path, change_settings(s, c))
}

/// The place of the settings file and the settings after the changes `cs`, in order.
pub open spec fn after_changes(path: Seq<char>, s: Settings, cs: Seq<SettingChange>) -> (Seq<char>, Settings)
    decreases cs.len(),
{
    if cs.len() == 0 {
        (path, s)
    } else {
        let before = after_changes(path, s, cs.drop_last());
        after_change(before.0, before.1, cs.last())
    }
}

/// No sequence of setter calls moves the settings file: after any changes, `config_path`
/// gives the path it gave before them.
pub proof fn law_setters_keep_config_path(path: Seq<char>, s: Settings, cs: Seq<SettingChange>)
    ensures
        after_changes(path, s, cs).0 == path,
    decreases cs.len(),
{
    if cs.len() > 0 {
        law_setters_keep_config_path(path, s, cs.drop_last());
    }
}

} // verus!

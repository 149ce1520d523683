//! The contents of `Config.toml`, with the defaults that stand in for missing keys.

use vstd::prelude::*;

verus! {

/// Marks a settings file whose contents are not yet on disk.
pub struct Unsaved;

/// Marks a settings file whose contents were handed to their file: they are on disk, or, for
/// the settings that a setter of `Config` has just changed, are to be written by its caller.
pub struct Saved;

impl Default for Unsaved {
    fn default() -> (r: Self) {
        Unsaved
    }
}

/// The text `main`.
pub open spec fn main_branch_name() -> Seq<char> {
    seq!['m', 'a', 'i', 'n']
}

/// The branch that new worktree branches start from when the file names none: `main`.
pub fn default_base_branch() -> (r: String)
    ensures
        r@ == main_branch_name(),
{
    let mut r = String::new();
    r.append("main");
    proof {
        reveal_strlit("main");
    }
    assert(r@ == main_branch_name());
    r
}

/// The value of a flag that the file leaves out and that is on by default.
pub fn default_true() -> (r: bool)
    ensures
        r,
{
    true
}

/// Where a new worktree goes when no path is given.
#[derive(Debug, Clone, Copy)]
pub enum PathResolution {
    /// Beside the repository, in its parent directory.
    RepoParent,
    /// Inside the repository's root directory.
    RepoRoot,
    /// Under the directory `custom_base`.
    Custom,
}

impl Default for PathResolution {
    fn default() -> (r: Self)
        ensures
            r == PathResolution::RepoParent,
    {
        PathResolution::RepoParent
    }
}

/// Where new worktrees go.
#[derive(Debug)]
pub struct PathConfig {
    pub resolution: PathResolution,
    pub custom_base: String,
}

impl Default for PathConfig {
    fn default() -> (r: Self)
        ensures
            r.resolution == PathResolution::RepoParent,
            r.custom_base@ == Seq::<char>::empty(),
    {
        PathConfig { resolution: PathResolution::RepoParent, custom_base: String::new() }
    }
}

/// How `clean` chooses and removes worktrees.
#[derive(Debug)]
pub struct CleanConfig {
    pub auto_fetch: bool,
    pub require_merged: bool,
    pub delete_local_branch: bool,
}

impl Default for CleanConfig {
    fn default() -> (r: Self)
        ensures
            r.auto_fetch,
            r.require_merged,
            !r.delete_local_branch,
    {
        CleanConfig { auto_fetch: true, require_merged: true, delete_local_branch: false }
    }
}

/// How the tool talks to the user.
#[derive(Debug)]
pub struct UiConfig {
    pub preferred_shell: String,
    pub confirm_before_remove: bool,
}

impl Default for UiConfig {
    fn default() -> (r: Self)
        ensures
            r.preferred_shell@ == Seq::<char>::empty(),
            r.confirm_before_remove,
    {
        UiConfig { preferred_shell: String::new(), confirm_before_remove: true }
    }
}

/// Every setting of the file, as plain values.
pub struct Settings {
    pub default_base_branch: Seq<char>,
    pub resolution: PathResolution,
    pub custom_base: Seq<char>,
    pub auto_fetch: bool,
    pub require_merged: bool,
    pub delete_local_branch: bool,
    pub preferred_shell: Seq<char>,
    pub confirm_before_remove: bool,
}

/// The contents of the settings file; `T` says whether they are on disk.
#[derive(Debug)]
pub struct ConfigFile<T> {
    pub default_base_branch: String,
    pub path: PathConfig,
    pub clean: CleanConfig,
    pub ui: UiConfig,
    pub _status: T,
}

impl<T> ConfigFile<T> {
    /// The settings that the file holds.
    pub open spec fn settings(&self) -> Settings {
        Settings {
            default_base_branch: self.default_base_branch@,
            resolution: self.path.resolution,
            custom_base: self.path.custom_base@,
            auto_fetch: self.clean.auto_fetch,
            require_merged: self.clean.require_merged,
            delete_local_branch: self.clean.delete_local_branch,
            preferred_shell: self.ui.preferred_shell@,
            confirm_before_remove: self.ui.confirm_before_remove,
        }
    }
}

impl ConfigFile<Unsaved> {
    /// Settings read from a file or built in memory, not yet written.
    pub fn new(default_base_branch: String, path: PathConfig, clean: CleanConfig, ui: UiConfig) -> (r: Self)
        ensures
            r.default_base_branch == default_base_branch,
            r.path == path,
            r.clean == clean,
            r.ui == ui,
    {
        ConfigFile { default_base_branch, path, clean, ui, _status: Unsaved }
    }

    /// Records that these settings were handed to their file, to be written or already
    /// written; the settings stay as they are.
    pub fn mark_saved(self) -> (r: ConfigFile<Saved>)
        ensures
            r.settings() == self.settings(),
    {
        let ConfigFile { default_base_branch, path, clean, ui, .. } = self;
        ConfigFile { default_base_branch, path, clean, ui, _status: Saved }
    }
}

impl ConfigFile<Saved> {
    /// Opens the saved settings for change; the settings stay as they are.
    pub fn write(self) -> (r: ConfigFile<Unsaved>)
        ensures
            r.settings() == self.settings(),
    {
        let ConfigFile { default_base_branch, path, clean, ui, .. } = self;
        ConfigFile { default_base_branch, path, clean, ui, _status: Unsaved }
    }
}

} // verus!

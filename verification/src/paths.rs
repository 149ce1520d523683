//! Where worktrees go: paths of the file system, as text.

use vstd::prelude::*;

use crate::config::config_file::{PathConfig, PathResolution};
use crate::multitree::{owned, MultiTreeError};

verus! {

/// Whether `std::path::Path` holds the path `p` to be absolute, on the platform the tool is
/// built for.
pub uninterp spec fn path_is_absolute(p: Seq<char>) -> bool;

/// The path that `std::path::Path::join` makes of `base` and `tail`, on the platform the tool
/// is built for.
pub uninterp spec fn path_join(base: Seq<char>, tail: Seq<char>) -> Seq<char>;

/// The path that `std::path::Path::parent` gives for `p`, if any, on the platform the tool is
/// built for.
pub uninterp spec fn path_parent(p: Seq<char>) -> Option<Seq<char>>;

/// Asks `std::path::Path::is_absolute` whether `p` is absolute.
/// Claims only that the answer is `path_is_absolute(p)`.
#[verifier::external_body]
pub(crate) fn is_absolute(p: &str) -> (r: bool)
    ensures
        r == path_is_absolute(p@),
{
    std::path::Path::new(p).is_absolute()
}

/// Joins `tail` to `base` by `std::path::Path::join`.
/// Claims that the result is `path_join(base, tail)`, and, as the documentation of
/// `PathBuf::push` says, that an absolute `tail` replaces `base`.
#[verifier::external_body]
pub(crate) fn join(base: &str, tail: &str) -> (r: String)
    ensures
        r@ == path_join(base@, tail@),
        path_is_absolute(tail@) ==> r@ == tail@,
{
    std::path::Path::new(base).join(tail).to_string_lossy().into_owned()
}

/// The parent of `p` by `std::path::Path::parent`.
/// Claims that the result is `path_parent(p)`, and, as its documentation says, that the empty
/// path has none.
#[verifier::external_body]
pub(crate) fn parent(p: &str) -> (r: Option<String>)
    ensures
        r.deep_view() == path_parent(p@),
        p@.len() == 0 ==> r is None,
{
    match std::path::Path::new(p).parent() {
        Some(q) => Some(q.to_string_lossy().into_owned()),
        None => None,
    }
}

/// Where the directory that holds a new worktree is, relative to the repository.
pub enum BaseDir {
    /// Exactly this path.
    Exactly(String),
    /// This relative path, under the repository's parent directory.
    UnderParent(String),
    /// The repository's parent directory.
    RepoParent,
    /// The repository's root directory.
    RepoRoot,
}

/// A `BaseDir` as plain text.
pub enum BasePlan {
    Exactly(Seq<char>),
    UnderParent(Seq<char>),
    RepoParent,
    RepoRoot,
}

impl BaseDir {
    pub open spec fn view(&self) -> BasePlan {
        match self {
            BaseDir::Exactly(s) => BasePlan::Exactly(s@),
            BaseDir::UnderParent(s) => BasePlan::UnderParent(s@),
            BaseDir::RepoParent => BasePlan::RepoParent,
            BaseDir::RepoRoot => BasePlan::RepoRoot,
        }
    }
}

/// Where new worktrees go. A given path is taken as it is when absolute and under the
/// repository's parent otherwise. Without one, the resolution of the settings decides: beside
/// the repository, inside it, or under the custom base, which is read as a given path, and
/// which means beside the repository when it is empty.
pub open spec fn base_plan(
    path: Option<Seq<char>>,
    path_absolute: bool,
    resolution: PathResolution,
    custom_base: Seq<char>,
    custom_absolute: bool,
) -> BasePlan {
    match path {
        Some(p) => if path_absolute { BasePlan::Exactly(p) } else { BasePlan::UnderParent(p) },
        None => match resolution {
            PathResolution::RepoParent => BasePlan::RepoParent,
            PathResolution::RepoRoot => BasePlan::RepoRoot,
            PathResolution::Custom => if custom_base.len() == 0 {
                BasePlan::RepoParent
            } else if custom_absolute {
                BasePlan::Exactly(custom_base)
            } else {
                BasePlan::UnderParent(custom_base)
            },
        },
    }
}

/// Decides where new worktrees go; see `base_plan`. `path_absolute` says whether `path` is
/// absolute, `custom_absolute` whether the custom base of `config` is.
pub fn plan_base_dir(path: &Option<String>, path_absolute: bool, config: &PathConfig, custom_absolute: bool) -> (r: BaseDir)
    ensures
        r.view() == base_plan(path.deep_view(), path_absolute, config.resolution, config.custom_base@, custom_absolute),
{
    match path {
        Some(p) => if path_absolute { BaseDir::Exactly(p.clone()) } else { BaseDir::UnderParent(p.clone()) },
        None => match config.resolution {
            PathResolution::RepoParent => BaseDir::RepoParent,
            PathResolution::RepoRoot => BaseDir::RepoRoot,
            PathResolution::Custom => if config.custom_base.as_str().is_empty() {
                BaseDir::RepoParent
            } else if custom_absolute {
                BaseDir::Exactly(config.custom_base.clone())
            } else {
                BaseDir::UnderParent(config.custom_base.clone())
            },
        },
    }
}

/// The directory that `plan` names, for a repository at `root` whose parent is `parent`.
pub open spec fn base_dir_path(plan: BasePlan, root: Seq<char>, parent: Seq<char>) -> Seq<char> {
    match plan {
        BasePlan::Exactly(p) => p,
        BasePlan::UnderParent(p) => path_join(parent, p),
        BasePlan::RepoParent => parent,
        BasePlan::RepoRoot => root,
    }
}

/// Where `add` puts the worktree `name` of the repository at `root`, given the optional
/// `path` and the settings; none when the root has no parent.
pub open spec fn worktree_location(
    root: Seq<char>,
    path: Option<Seq<char>>,
    resolution: PathResolution,
    custom_base: Seq<char>,
    name: Seq<char>,
) -> Option<Seq<char>> {
    match path_parent(root) {
        None => None,
        Some(parent) => {
            let path_absolute = path is Some && path_is_absolute(path->0);
            let plan = base_plan(path, path_absolute, resolution, custom_base, path_is_absolute(custom_base));
            Some(path_join(base_dir_path(plan, root, parent), name))
        },
    }
}

/// The path of the new worktree `name` in the repository at `root`; see `worktree_location`.
pub fn worktree_path(root: &str, path: &Option<String>, config: &PathConfig, name: &str) -> (r: Result<String, MultiTreeError>)
    ensures
        match r {
            Ok(p) => worktree_location(root@, path.deep_view(), config.resolution, config.custom_base@, name@) == Some(p@),
            Err(e) => worktree_location(root@, path.deep_view(), config.resolution, config.custom_base@, name@) is None
                && e is MissingRepoParent,
        },
{
    let repo_parent = match parent(root) {
        Some(p) => p,
        None => return Err(MultiTreeError::MissingRepoParent),
    };
    let path_absolute = match path {
        Some(p) => is_absolute(p.as_str()),
        None => false,
    };
    let custom_absolute = is_absolute(config.custom_base.as_str());
    let plan = plan_base_dir(path, path_absolute, config, custom_absolute);
    let base = match plan {
        BaseDir::Exactly(p) => p,
        BaseDir::UnderParent(p) => join(repo_parent.as_str(), p.as_str()),
        BaseDir::RepoParent => repo_parent,
        BaseDir::RepoRoot => owned(root),
    };
    Ok(join(base.as_str(), name))
}

/// The parent of `root`, or `.` when it has none.
pub open spec fn parent_or_dot(root: Seq<char>) -> Seq<char> {
    match path_parent(root) {
        Some(p) => p,
        None => "."@,
    }
}

/// The default place of the worktree `name` of the repository at `root`: `worktrees/<name>`
/// beside the repository.
pub open spec fn default_location(root: Seq<char>, name: Seq<char>) -> Seq<char> {
    path_join(path_join(parent_or_dot(root), "worktrees"@), name)
}

/// The default place of the worktree `name`; see `default_location`.
pub fn default_worktree_path(root: &str, name: &str) -> (r: String)
    ensures
        r@ == default_location(root@, name@),
{
    let base = match parent(root) {
        Some(p) => p,
        None => owned("."),
    };
    let dir = join(base.as_str(), "worktrees");
    join(dir.as_str(), name)
}

/// Where `add` of the older command line puts the worktree `name`: the given path, or the
/// default place.
pub fn resolve_add_path(name: &str, path: &Option<String>, root: &str) -> (r: String)
    ensures
        r@ == match path.deep_view() {
            Some(p) => p,
            None => default_location(root@, name@),
        },
{
    match path {
        Some(p) => p.clone(),
        None => default_worktree_path(root, name),
    }
}

/// How `std::path::Path` prints the path `p` with `{:?}`, on the platform the tool is built
/// for.
pub uninterp spec fn path_debug(p: Seq<char>) -> Seq<char>;

/// The `{:?}` form of the path `p`, by the `Debug` impl of `std::path::Path`.
/// Claims only that the result is `path_debug(p)`.
#[verifier::external_body]
pub(crate) fn debug_path(p: &str) -> (r: String)
    ensures
        r@ == path_debug(p@),
{
    format!("{:?}", std::path::Path::new(p))
}

/// Why an existing worktree could not be found.
#[derive(Debug)]
pub enum ResolveError {
    /// Nothing is at the paths that were tried; the text says which.
    NotFound(String),
}

/// The message of a failed search whose last try was the path `tried`.
pub open spec fn not_found_message(tried: Seq<char>) -> Seq<char> {
    "could not find worktree path; tried explicit path and "@ + path_debug(tried)
}

/// Where the older command line finds the existing worktree `name`: the given path when it
/// exists, else the default place when that exists. `explicit_exists` says whether the given
/// path exists, `default_exists` whether the default place does. When neither does, the error
/// is `NotFound` with a message that names the default place as `{:?}` prints it.
pub fn resolve_existing_path(
    name: &str,
    path: &Option<String>,
    root: &str,
    explicit_exists: bool,
    default_exists: bool,
) -> (r: Result<String, ResolveError>)
    ensures
        match path.deep_view() {
            Some(p) if explicit_exists => r matches Ok(q) && q@ == p,
            _ => if default_exists {
                r matches Ok(q) && q@ == default_location(root@, name@)
            } else {
                r matches Err(ResolveError::NotFound(m)) && m@ == not_found_message(default_location(root@, name@))
            },
        },
{
    if let Some(p) = path {
        if explicit_exists {
            return Ok(p.clone());
        }
    }
    let default = default_worktree_path(root, name);
    if default_exists {
        Ok(default)
    } else {
        let mut message = owned("could not find worktree path; tried explicit path and ");
        let shown = debug_path(default.as_str());
        message.append(shown.as_str());
        Err(ResolveError::NotFound(message))
    }
}

/// Where `add` puts a worktree, setting by setting: a given path is used as it is when absolute
/// and under the repository's parent otherwise; without one, `repo_parent` puts it beside the
/// repository, `repo_root` inside the repository root, and `custom` under the custom base (read
/// like a given path), or beside the repository when the custom base is empty. A root without
/// a parent has no place.
pub proof fn law_worktree_location_by_setting(
    root: Seq<char>,
    path: Option<Seq<char>>,
    resolution: PathResolution,
    custom_base: Seq<char>,
    name: Seq<char>,
)
    ensures
        ({
            let loc = worktree_location(root, path, resolution, custom_base, name);
            match path_parent(root) {
                None => loc is None,
                Some(parent) => loc == Some(
                    match path {
                        Some(p) => if path_is_absolute(p) {
                            path_join(p, name)
                        } else {
                            path_join(path_join(parent, p), name)
                        },
                        None => match resolution {
                            PathResolution::RepoParent => path_join(parent, name),
                            PathResolution::RepoRoot => path_join(root, name),
                            PathResolution::Custom => if custom_base.len() == 0 {
                                path_join(parent, name)
                            } else if path_is_absolute(custom_base) {
                                path_join(custom_base, name)
                            } else {
                                path_join(path_join(parent, custom_base), name)
                            },
                        },
                    },
                ),
            }
        }),
{
}

} // verus!

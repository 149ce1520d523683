//! Verified core of `multitree`, a tool that manages git worktrees.

pub mod config;
pub mod flows;
pub mod multitree;
pub mod paths;
pub mod text;
pub mod worktree;

//! Worktree browsing for a terminal git client: the list of worktrees that a
//! repository has registered, how each one is shown, and the state of the tab
//! that lists them (selection, scrolling, opening), together with the
//! decisions of the client's main event loop.

pub mod commit;
pub mod paths;
pub mod worktrees;
pub mod keys;
pub mod tab;
pub mod main_loop;
pub mod laws;
pub mod behaviour;

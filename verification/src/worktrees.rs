use vstd::prelude::*;

use crate::commit::CommitId;
use crate::paths::{paths_equal, resolved, same_location, ObservedPath, ObservedPathView};

verus! {

/// Information about a registered Git worktree.
#[derive(Clone, Debug, PartialEq, Eq)]
pub struct WorktreeInfo {
    /// Absolute path to the worktree.
    pub path: String,
    /// Checked-out branch, or `None` for a detached/unborn HEAD.
    pub branch: Option<String>,
    /// Commit currently checked out in the worktree.
    pub head: Option<CommitId>,
    /// Whether this is the worktree that is currently open.
    pub is_current: bool,
    /// Whether the worktree is locked against pruning.
    pub is_locked: bool,
    /// Whether the worktree metadata and path are valid.
    pub is_valid: bool,
}

pub struct WorktreeInfoView {
    pub path: Seq<char>,
    pub branch: Option<Seq<char>>,
    pub head: Option<Seq<u8>>,
    pub is_current: bool,
    pub is_locked: bool,
    pub is_valid: bool,
}

pub open spec fn string_opt_view(s: Option<String>) -> Option<Seq<char>> {
    match s {
        Some(s) => Some(s@),
        None => None,
    }
}

pub open spec fn commit_opt_view(c: Option<CommitId>) -> Option<Seq<u8>> {
    match c {
        Some(c) => Some(c@),
        None => None,
    }
}

impl View for WorktreeInfo {
    type V = WorktreeInfoView;

    open spec fn view(&self) -> WorktreeInfoView {
        WorktreeInfoView {
            path: self.path@,
            branch: string_opt_view(self.branch),
            head: commit_opt_view(self.head),
            is_current: self.is_current,
            is_locked: self.is_locked,
            is_valid: self.is_valid,
        }
    }
}

/// What the HEAD of a worktree's repository showed when it could be read.
#[derive(Clone, Debug, PartialEq, Eq)]
pub struct HeadInfo {
    /// Whether HEAD refers to a branch.
    pub is_branch: bool,
    /// The short name of the reference HEAD points at, where it has one.
    pub shorthand: Option<String>,
    /// The commit HEAD resolves to, where it resolves to one.
    pub commit: Option<CommitId>,
}

pub struct HeadInfoView {
    pub is_branch: bool,
    pub shorthand: Option<Seq<char>>,
    pub commit: Option<Seq<u8>>,
}

impl View for HeadInfo {
    type V = HeadInfoView;

    open spec fn view(&self) -> HeadInfoView {
        HeadInfoView {
            is_branch: self.is_branch,
            shorthand: string_opt_view(self.shorthand),
            commit: commit_opt_view(self.commit),
        }
    }
}

pub open spec fn head_opt_view(h: Option<HeadInfo>) -> Option<HeadInfoView> {
    match h {
        Some(h) => Some(h@),
        None => None,
    }
}

pub open spec fn main_opt_view(m: Option<MainCheckout>) -> Option<MainCheckoutView> {
    match m {
        Some(m) => Some(m@),
        None => None,
    }
}

pub open spec fn path_opt_view(p: Option<ObservedPath>) -> Option<ObservedPathView> {
    match p {
        Some(p) => Some(p@),
        None => None,
    }
}

/// A linked worktree as read from the repository's worktree registry.
#[derive(Clone, Debug, PartialEq, Eq)]
pub struct LinkedWorktree {
    pub path: ObservedPath,
    pub is_locked: bool,
    pub is_valid: bool,
    /// HEAD of the worktree's repository, or `None` where the repository
    /// could not be opened or its HEAD not read.
    pub head: Option<HeadInfo>,
}

pub struct LinkedWorktreeView {
    pub path: ObservedPathView,
    pub is_locked: bool,
    pub is_valid: bool,
    pub head: Option<HeadInfoView>,
}

impl View for LinkedWorktree {
    type V = LinkedWorktreeView;

    open spec fn view(&self) -> LinkedWorktreeView {
        LinkedWorktreeView {
            path: self.path@,
            is_locked: self.is_locked,
            is_valid: self.is_valid,
            head: head_opt_view(self.head),
        }
    }
}

/// The main checkout of a repository: its working directory and HEAD.
#[derive(Clone, Debug, PartialEq, Eq)]
pub struct MainCheckout {
    pub path: ObservedPath,
    pub head: Option<HeadInfo>,
}

pub struct MainCheckoutView {
    pub path: ObservedPathView,
    pub head: Option<HeadInfoView>,
}

impl View for MainCheckout {
    type V = MainCheckoutView;

    open spec fn view(&self) -> MainCheckoutView {
        MainCheckoutView { path: self.path@, head: head_opt_view(self.head) }
    }
}

/// The branch shown for a worktree: the short name of HEAD's reference when
/// HEAD is a branch, nothing otherwise (detached or unreadable HEAD).
pub open spec fn branch_of(head: Option<HeadInfoView>) -> Option<Seq<char>> {
    match head {
        Some(h) => if h.is_branch {
            h.shorthand
        } else {
            None
        },
        None => None,
    }
}

/// The commit shown for a worktree.
pub open spec fn commit_of(head: Option<HeadInfoView>) -> Option<Seq<u8>> {
    match head {
        Some(h) => h.commit,
        None => None,
    }
}

/// Whether a worktree at `path` is the one currently open at `current`.
pub open spec fn is_current_at(path: ObservedPathView, current: Option<ObservedPathView>) -> bool {
    match current {
        Some(c) => same_location(c, path),
        None => false,
    }
}

/// The information listed for one worktree.
pub open spec fn info_of(
    path: ObservedPathView,
    is_locked: bool,
    is_valid: bool,
    head: Option<HeadInfoView>,
    current: Option<ObservedPathView>,
) -> WorktreeInfoView {
    WorktreeInfoView {
        path: path.path,
        branch: branch_of(head),
        head: commit_of(head),
        is_current: is_current_at(path, current),
        is_locked,
        is_valid,
    }
}

/// The main worktree is never locked and always valid.
pub open spec fn main_info(main: MainCheckoutView, current: Option<ObservedPathView>) -> WorktreeInfoView {
    info_of(main.path, false, true, main.head, current)
}

pub open spec fn linked_info(w: LinkedWorktreeView, current: Option<ObservedPathView>) -> WorktreeInfoView {
    info_of(w.path, w.is_locked, w.is_valid, w.head, current)
}

/// The list of worktrees: the main worktree (where the repository has a
/// working directory) followed by every linked worktree, in registry order.
pub open spec fn worktree_list(
    main: Option<MainCheckoutView>,
    linked: Seq<LinkedWorktreeView>,
    current: Option<ObservedPathView>,
) -> Seq<WorktreeInfoView> {
    let rest = linked.map_values(|w: LinkedWorktreeView| linked_info(w, current));
    match main {
        Some(m) => seq![main_info(m, current)] + rest,
        None => rest,
    }
}

/// Every entry whose path resolves to the same form as the open checkout's
/// is marked current. `paths` are the paths the entries were read from.
pub open spec fn marks_current(
    infos: Seq<WorktreeInfoView>,
    paths: Seq<ObservedPathView>,
    current: Option<ObservedPathView>,
) -> bool {
    forall|j: int|
        0 <= j < infos.len() && j < paths.len() ==> (current matches Some(c) && resolved(c)
            == resolved(#[trigger] paths[j]) ==> infos[j].is_current)
}

/// The paths the entries of the list are read from, in list order.
pub open spec fn listed_paths(
    main: Option<MainCheckoutView>,
    linked: Seq<LinkedWorktreeView>,
) -> Seq<ObservedPathView> {
    let rest = linked.map_values(|w: LinkedWorktreeView| w.path);
    match main {
        Some(m) => seq![m.path] + rest,
        None => rest,
    }
}

pub open spec fn infos_view(v: Seq<WorktreeInfo>) -> Seq<WorktreeInfoView> {
    v.map_values(|w: WorktreeInfo| w@)
}

pub open spec fn linked_view(v: Seq<LinkedWorktree>) -> Seq<LinkedWorktreeView> {
    v.map_values(|w: LinkedWorktree| w@)
}

/// Builds the information listed for one worktree from what was read of it.
pub fn worktree_info(
    path: ObservedPath,
    is_locked: bool,
    is_valid: bool,
    head: Option<HeadInfo>,
    current_path: Option<&ObservedPath>,
) -> (r: WorktreeInfo)
    ensures
        r@ == info_of(
            path@,
            is_locked,
            is_valid,
            head_opt_view(head),
            match current_path {
                Some(c) => Some(c@),
                None => None,
            },
        ),
        current_path matches Some(c) && resolved(c@) == resolved(path@) ==> r.is_current,
{
    let is_current = match current_path {
        Some(current) => paths_equal(current, &path),
        None => false,
    };
    let (branch, commit) = match head {
        Some(h) => {
            let branch = if h.is_branch {
                h.shorthand
            } else {
                None
            };
            (branch, h.commit)
        },
        None => (None, None),
    };
    WorktreeInfo { is_current, path: path.path, branch, head: commit, is_locked, is_valid }
}

/// Returns the main worktree followed by every registered linked worktree,
/// each marked current when its path is the one of `current_path`.
pub fn list_worktrees(
    main: Option<MainCheckout>,
    linked: Vec<LinkedWorktree>,
    current_path: Option<ObservedPath>,
) -> (r: Vec<WorktreeInfo>)
    ensures
        infos_view(r@) == worktree_list(
            main_opt_view(main),
            linked_view(linked@),
            path_opt_view(current_path),
        ),
        marks_current(
            infos_view(r@),
            listed_paths(main_opt_view(main), linked_view(linked@)),
            path_opt_view(current_path),
        ),
{
    let ghost current = path_opt_view(current_path);
    let ghost linked0 = linked_view(linked@);
    let ghost paths = listed_paths(main_opt_view(main), linked0);
    let mut result: Vec<WorktreeInfo> = Vec::new();
    let ghost main_part: Seq<WorktreeInfoView> = match main_opt_view(main) {
        Some(m) => seq![main_info(m, current)],
        None => seq![],
    };
    match main {
        Some(m) => {
            let info = worktree_info(m.path, false, true, m.head, current_path.as_ref());
            result.push(info);
        },
        None => {},
    }
    assert(infos_view(result@) =~= main_part);
    assert(marks_current(infos_view(result@), paths, current));
    let mut linked = linked;
    let mut i: usize = 0;
    let n = linked.len();
    while i < n
        invariant
            linked@.len() == n - i,
            i <= n,
            n == linked0.len(),
            current == path_opt_view(current_path),
            forall|j: int| 0 <= j < n - i ==> #[trigger] linked@[j]@ == linked0[j + i],
            infos_view(result@) =~= main_part + linked0.take(i as int).map_values(
                |w: LinkedWorktreeView| linked_info(w, current),
            ),
            paths == listed_paths(main_opt_view(main), linked0),
            result@.len() == main_part.len() + i,
            main_part.len() + n == paths.len(),
            forall|j: int| 0 <= j < n ==> #[trigger] paths[j + main_part.len()] == linked0[j].path,
            marks_current(infos_view(result@), paths, current),
        decreases n - i,
    {
        let w = linked.remove(0);
        assert(w@ == linked0[i as int]);
        let info = worktree_info(w.path, w.is_locked, w.is_valid, w.head, current_path.as_ref());
        let ghost prev = result@;
        assert(paths[i + main_part.len()] == linked0[i as int].path);
        result.push(info);
        assert(infos_view(result@) =~= infos_view(prev).push(info@));
        assert(linked0.take(i + 1) =~= linked0.take(i as int).push(linked0[i as int]));
        assert(linked0.take(i + 1).map_values(|w: LinkedWorktreeView| linked_info(w, current))
            =~= linked0.take(i as int).map_values(|w: LinkedWorktreeView| linked_info(w, current)).push(
            linked_info(linked0[i as int], current),
        ));
        i = i + 1;
    }
    assert(linked0.take(n as int) =~= linked0);
    result
}

} // verus!

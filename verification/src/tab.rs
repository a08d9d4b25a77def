use vstd::prelude::*;

use crate::commit::short_hex;
use crate::worktrees::{infos_view, WorktreeInfo, WorktreeInfoView};

verus! {

/// A movement of the selection in a list.
#[derive(Clone, Copy, Debug, PartialEq, Eq)]
pub enum ScrollType {
    Up,
    Down,
    PageUp,
    PageDown,
    Home,
    End,
}

/// A key as the worktree tab understands it, after matching against the
/// configured key bindings.
#[derive(Clone, Copy, Debug, PartialEq, Eq)]
pub enum TabKey {
    MoveUp,
    MoveDown,
    PageUp,
    PageDown,
    Home,
    End,
    Enter,
    /// Any other key, or an event that is not a key press.
    Other,
}

/// Whether a component took an event for itself.
#[derive(Clone, Copy, Debug, PartialEq, Eq)]
pub enum EventState {
    Consumed,
    NotConsumed,
}

/// Whether a component keeps the commands of the components behind it from
/// being shown.
#[derive(Clone, Copy, Debug, PartialEq, Eq)]
pub enum CommandBlocking {
    Blocking,
    PassingOn,
}

/// The commands the worktree tab offers.
#[derive(Clone, Copy, Debug, PartialEq, Eq)]
pub enum TabCommand {
    Scroll,
    OpenWorktree,
}

/// A command as shown in the command bar.
#[derive(Clone, Copy, Debug, PartialEq, Eq)]
pub struct CommandState {
    pub command: TabCommand,
    pub enabled: bool,
    pub available: bool,
}

/// What handling an event produced: whether it was consumed, and the
/// repository to open in its place where the event asks for one.
#[derive(Clone, Debug, PartialEq, Eq)]
pub struct EventOutcome {
    pub state: EventState,
    pub open_repo: Option<String>,
}

/// The text of the columns of one row of the worktree table.
#[derive(Clone, Debug, PartialEq, Eq)]
pub struct WorktreeRow {
    pub marker: String,
    pub path: String,
    pub branch: String,
    pub head: String,
    pub state: String,
}

pub struct WorktreeRowView {
    pub marker: Seq<char>,
    pub path: Seq<char>,
    pub branch: Seq<char>,
    pub head: Seq<char>,
    pub state: Seq<char>,
}

impl View for WorktreeRow {
    type V = WorktreeRowView;

    open spec fn view(&self) -> WorktreeRowView {
        WorktreeRowView {
            marker: self.marker@,
            path: self.path@,
            branch: self.branch@,
            head: self.head@,
            state: self.state@,
        }
    }
}

/// The row shown for a worktree: a `*` marks the current one; a detached HEAD
/// shows as `(detached)`, a missing commit as dashes; the state column says
/// `missing`, `locked` or `current`, in that order of precedence.
pub open spec fn row_of(w: WorktreeInfoView) -> WorktreeRowView {
    WorktreeRowView {
        marker: if w.is_current {
            "*"@
        } else {
            " "@
        },
        path: w.path,
        branch: match w.branch {
            Some(b) => b,
            None => "(detached)"@,
        },
        head: match w.head {
            Some(c) => short_hex(c),
            None => "-------"@,
        },
        state: if !w.is_valid {
            "missing"@
        } else if w.is_locked {
            "locked"@
        } else if w.is_current {
            "current"@
        } else {
            ""@
        },
    }
}

/// Twice a margin, as a terminal rectangle doubles it: saturating at the
/// largest `u16`.
pub open spec fn doubled_margin(margin: u16) -> int {
    if 2 * margin <= u16::MAX {
        2 * margin
    } else {
        u16::MAX as int
    }
}

/// Height of the area inside a rectangle of the given size with the given
/// margins on each side: none when the rectangle is narrower or lower than
/// twice the margins, else the height less twice the vertical margin.
pub open spec fn rect_inner_height_of(width: u16, height: u16, vertical: u16, horizontal: u16) -> int {
    if width < doubled_margin(horizontal) || height < doubled_margin(vertical) {
        0
    } else {
        height - doubled_margin(vertical)
    }
}

/// `ratatui::layout::Rect::inner` on the rectangle at (`x`, `y`) of the given
/// size, with the given margins; returns the inner rectangle's height. Its
/// source doubles each margin (saturating), gives an empty rectangle when the
/// width or the height is below the doubled margin, and otherwise takes the
/// doubled vertical margin off the height.
#[verifier::external_body]
fn rect_inner_height(x: u16, y: u16, width: u16, height: u16, vertical: u16, horizontal: u16) -> (r: u16)
    ensures
        r == rect_inner_height_of(width, height, vertical, horizontal),
{
    let area = ratatui::layout::Rect { x, y, width, height };
    area.inner(ratatui::layout::Margin { vertical, horizontal }).height
}

/// The list rows of the table lie inside its area with one row of margin at
/// the top and at the bottom, none at the sides.
pub const LIST_MARGIN_VERTICAL: u16 = 1;

pub const LIST_MARGIN_HORIZONTAL: u16 = 0;

/// Height of the list rows in a table area of the given height: the height
/// less the two margin rows, none when it is lower than both.
pub open spec fn inner_height(height: u16) -> int {
    if height >= 2 {
        height - 2
    } else {
        0
    }
}

/// A worktree can be opened when it is valid and not the one already open.
pub open spec fn openable(w: WorktreeInfo) -> bool {
    w.is_valid && !w.is_current
}

/// The selection after the list was replaced by one of `len` entries: kept
/// where it still points into the list, moved to the last entry where it
/// points past it, the first entry where there was none, and no selection for
/// an empty list.
pub open spec fn clamped_selection(selection: Option<usize>, len: nat) -> Option<usize> {
    if len == 0 {
        None
    } else {
        let s = match selection {
            Some(s) => s as int,
            None => 0,
        };
        Some(
            (if s < len - 1 {
                s
            } else {
                len - 1
            }) as usize,
        )
    }
}

/// Rows moved by a page: the visible height less the two border rows, at
/// least one.
pub open spec fn page_size(height: usize) -> int {
    if height >= 3 {
        height - 2
    } else {
        1
    }
}

/// Where a movement takes the selection from `old` in a list whose last
/// index is `max`.
pub open spec fn scroll_target(old: int, max: int, page: int, scroll: ScrollType) -> int {
    match scroll {
        ScrollType::Up => if old >= 1 {
            old - 1
        } else {
            0
        },
        ScrollType::Down => if old + 1 <= max {
            old + 1
        } else {
            max
        },
        ScrollType::PageUp => if old >= page {
            old - page
        } else {
            0
        },
        ScrollType::PageDown => if old + page <= max {
            old + page
        } else {
            max
        },
        ScrollType::Home => 0,
        ScrollType::End => max,
    }
}

/// The movement a key asks for.
pub open spec fn key_scroll(key: TabKey) -> Option<ScrollType> {
    match key {
        TabKey::MoveUp => Some(ScrollType::Up),
        TabKey::MoveDown => Some(ScrollType::Down),
        TabKey::PageUp => Some(ScrollType::PageUp),
        TabKey::PageDown => Some(ScrollType::PageDown),
        TabKey::Home => Some(ScrollType::Home),
        TabKey::End => Some(ScrollType::End),
        _ => None,
    }
}

/// State of the tab that browses the worktrees registered for the current
/// repository.
pub struct Worktrees {
    /// The worktrees listed, in the order the repository reported them.
    pub entries: Vec<WorktreeInfo>,
    /// Whether the tab is shown.
    pub visible: bool,
    /// Index of the selected row, if any; it may point past the list.
    pub selection: Option<usize>,
    /// Height of the list area at the last draw.
    pub current_height: usize,
}

impl Worktrees {
    /// The selected entry, where the selection points into the list.
    pub open spec fn selected_entry(&self) -> Option<WorktreeInfo> {
        match self.selection {
            Some(i) => if i < self.entries@.len() {
                Some(self.entries@[i as int])
            } else {
                None
            },
            None => None,
        }
    }

    /// Whether the selected entry can be opened.
    pub open spec fn can_open(&self) -> bool {
        match self.selected_entry() {
            Some(w) => openable(w),
            None => false,
        }
    }

    /// The path of the repository that opening the selection asks for.
    pub open spec fn open_target(&self) -> Option<Seq<char>> {
        match self.selected_entry() {
            Some(w) => if openable(w) {
                Some(w.path@)
            } else {
                None
            },
            None => None,
        }
    }

    /// The selected index, counting no selection as the first row.
    pub open spec fn selection_index(&self) -> int {
        match self.selection {
            Some(i) => i as int,
            None => 0,
        }
    }

    /// Where a movement takes the selection in a non-empty list.
    pub open spec fn scrolled_to(&self, scroll: ScrollType) -> int {
        scroll_target(
            self.selection_index(),
            self.entries@.len() - 1,
            page_size(self.current_height),
            scroll,
        )
    }

    /// The selection after a movement: unchanged in an empty list.
    pub open spec fn moved_selection(&self, scroll: ScrollType) -> Option<usize> {
        if self.entries@.len() == 0 {
            self.selection
        } else {
            Some(self.scrolled_to(scroll) as usize)
        }
    }

    /// A hidden tab with no entries and no selection.
    pub fn new() -> (r: Self)
        ensures
            r.entries@.len() == 0,
            !r.visible,
            r.selection is None,
            r.current_height == 0,
    {
        Worktrees { entries: Vec::new(), visible: false, selection: None, current_height: 0 }
    }

    /// Takes a fresh list of worktrees while the tab is shown, keeping the
    /// selection within it. A hidden tab does not refresh, and a failed read
    /// leaves the tab as it was and passes the error on.
    pub fn update<E>(&mut self, fetched: Result<Vec<WorktreeInfo>, E>) -> (r: Result<(), E>)
        ensures
            !old(self).visible ==> r is Ok && *final(self) == *old(self),
            old(self).visible ==> match fetched {
                Err(e) => r == Err::<(), E>(e) && *final(self) == *old(self),
                Ok(v) => {
                    &&& r is Ok
                    &&& final(self).entries@ == v@
                    &&& final(self).selection == clamped_selection(old(self).selection, v@.len())
                    &&& final(self).visible == old(self).visible
                    &&& final(self).current_height == old(self).current_height
                },
            },
    {
        if self.visible {
            match fetched {
                Err(e) => {
                    return Err(e);
                },
                Ok(entries) => {
                    self.entries = entries;
                    let selection = match self.selection {
                        Some(s) => s,
                        None => 0,
                    };
                    let len = self.entries.len();
                    if len == 0 {
                        self.selection = None;
                    } else {
                        let max = len - 1;
                        self.selection = Some(
                            if selection < max {
                                selection
                            } else {
                                max
                            },
                        );
                    }
                },
            }
        }
        Ok(())
    }

    /// The selected index, as the table shows it.
    pub fn selected_index(&self) -> (r: Option<usize>)
        ensures
            r == self.selection,
    {
        self.selection
    }

    /// The selected entry, where the selection points into the list.
    pub fn selected(&self) -> (r: Option<&WorktreeInfo>)
        ensures
            match r {
                Some(w) => self.selected_entry() == Some(*w),
                None => self.selected_entry() is None,
            },
    {
        match self.selection {
            Some(i) => if i < self.entries.len() {
                Some(&self.entries[i])
            } else {
                None
            },
            None => None,
        }
    }

    /// Whether the selected worktree can be opened: it is valid and not the
    /// one already open.
    pub fn can_open_selected(&self) -> (r: bool)
        ensures
            r == self.can_open(),
    {
        match self.selected() {
            Some(w) => w.is_valid && !w.is_current,
            None => false,
        }
    }

    /// The path of the repository to open for the selected worktree, where it
    /// can be opened.
    pub fn open_selected(&self) -> (r: Option<String>)
        ensures
            match r {
                Some(p) => self.open_target() == Some(p@),
                None => self.open_target() is None,
            },
    {
        match self.selected() {
            Some(w) => if w.is_valid && !w.is_current {
                Some(w.path.clone())
            } else {
                None
            },
            None => None,
        }
    }

    /// Moves the selection; in an empty list nothing happens. Returns whether
    /// the selected index changed (no selection counts as the first row).
    pub fn move_selection(&mut self, scroll_type: ScrollType) -> (r: bool)
        ensures
            final(self).entries == old(self).entries,
            final(self).visible == old(self).visible,
            final(self).current_height == old(self).current_height,
            final(self).selection == old(self).moved_selection(scroll_type),
            old(self).entries@.len() == 0 ==> !r,
            old(self).entries@.len() > 0 ==> r == (old(self).scrolled_to(scroll_type)
                != old(self).selection_index()),
    {
        if self.entries.len() == 0 {
            return false;
        }
        let old = match self.selection {
            Some(s) => s,
            None => 0,
        };
        let max = self.entries.len() - 1;
        let height = self.current_height;
        let page = if height >= 3 {
            height - 2
        } else {
            1
        };
        let new = match scroll_type {
            ScrollType::Up => if old >= 1 {
                old - 1
            } else {
                0
            },
            ScrollType::Down => if old < max {
                old + 1
            } else {
                max
            },
            ScrollType::PageUp => if old >= page {
                old - page
            } else {
                0
            },
            ScrollType::PageDown => if old <= max && page <= max - old {
                old + page
            } else {
                max
            },
            ScrollType::Home => 0,
            ScrollType::End => max,
        };
        self.selection = Some(new);
        new != old
    }

    /// The rows of the worktree table, one per entry, in list order.
    pub fn rows(&self) -> (r: Vec<WorktreeRow>)
        ensures
            r@.len() == self.entries@.len(),
            forall|i: int| 0 <= i < r@.len() ==> #[trigger] r@[i]@ == row_of(self.entries@[i]@),
    {
        let mut rows: Vec<WorktreeRow> = Vec::new();
        let mut i: usize = 0;
        while i < self.entries.len()
            invariant
                i <= self.entries@.len(),
                rows@.len() == i,
                forall|j: int| 0 <= j < i ==> #[trigger] rows@[j]@ == row_of(self.entries@[j]@),
            decreases self.entries@.len() - i,
        {
            rows.push(worktree_row(&self.entries[i]));
            i = i + 1;
        }
        rows
    }

    /// Records the area (position and size) the table was last drawn in:
    /// the list rows are that area less one row of margin at the top and at
    /// the bottom.
    pub fn record_draw_area(&mut self, x: u16, y: u16, width: u16, height: u16)
        ensures
            final(self).current_height == rect_inner_height_of(
                width,
                height,
                LIST_MARGIN_VERTICAL,
                LIST_MARGIN_HORIZONTAL,
            ),
            final(self).current_height == inner_height(height),
            final(self).entries == old(self).entries,
            final(self).visible == old(self).visible,
            final(self).selection == old(self).selection,
    {
        let inner = rect_inner_height(
            x,
            y,
            width,
            height,
            LIST_MARGIN_VERTICAL,
            LIST_MARGIN_HORIZONTAL,
        );
        self.current_height = inner as usize;
    }

    /// Adds the tab's commands to `out` while it is shown (or when all
    /// commands are asked for): scrolling, always enabled, and opening the
    /// selected worktree, enabled when it can be opened. A shown tab blocks
    /// the commands of what lies behind it.
    pub fn commands(&self, out: &mut Vec<CommandState>, force_all: bool) -> (r: CommandBlocking)
        ensures
            (self.visible || force_all) ==> final(out)@ == old(out)@ + seq![
                CommandState { command: TabCommand::Scroll, enabled: true, available: true },
                CommandState {
                    command: TabCommand::OpenWorktree,
                    enabled: self.can_open(),
                    available: true,
                },
            ],
            !(self.visible || force_all) ==> final(out)@ == old(out)@,
            r == (if self.visible {
                CommandBlocking::Blocking
            } else {
                CommandBlocking::PassingOn
            }),
    {
        if self.visible || force_all {
            out.push(CommandState { command: TabCommand::Scroll, enabled: true, available: true });
            let enabled = self.can_open_selected();
            out.push(CommandState { command: TabCommand::OpenWorktree, enabled, available: true });
        }
        if self.visible {
            CommandBlocking::Blocking
        } else {
            CommandBlocking::PassingOn
        }
    }

    /// Handles a key while the tab is shown: movement keys move the
    /// selection, Enter asks to open the selected worktree where it can be
    /// opened; these are consumed, anything else is not. A hidden tab takes
    /// no event.
    pub fn event(&mut self, key: TabKey) -> (r: EventOutcome)
        ensures
            !old(self).visible ==> {
                &&& *final(self) == *old(self)
                &&& r.state == EventState::NotConsumed
                &&& r.open_repo is None
            },
            old(self).visible ==> match key_scroll(key) {
                Some(s) => {
                    &&& r.state == EventState::Consumed
                    &&& r.open_repo is None
                    &&& final(self).entries == old(self).entries
                    &&& final(self).visible == old(self).visible
                    &&& final(self).current_height == old(self).current_height
                    &&& final(self).selection == old(self).moved_selection(s)
                },
                None => {
                    &&& *final(self) == *old(self)
                    &&& key == TabKey::Enter ==> r.state == EventState::Consumed && match r.open_repo {
                        Some(p) => old(self).open_target() == Some(p@),
                        None => old(self).open_target() is None,
                    }
                    &&& key != TabKey::Enter ==> r.state == EventState::NotConsumed
                        && r.open_repo is None
                },
            },
    {
        if !self.visible {
            return EventOutcome { state: EventState::NotConsumed, open_repo: None };
        }
        let scroll = match key {
            TabKey::MoveUp => Some(ScrollType::Up),
            TabKey::MoveDown => Some(ScrollType::Down),
            TabKey::PageUp => Some(ScrollType::PageUp),
            TabKey::PageDown => Some(ScrollType::PageDown),
            TabKey::Home => Some(ScrollType::Home),
            TabKey::End => Some(ScrollType::End),
            _ => None,
        };
        match scroll {
            Some(s) => {
                self.move_selection(s);
                EventOutcome { state: EventState::Consumed, open_repo: None }
            },
            None => match key {
                TabKey::Enter => EventOutcome {
                    state: EventState::Consumed,
                    open_repo: self.open_selected(),
                },
                _ => EventOutcome { state: EventState::NotConsumed, open_repo: None },
            },
        }
    }

    /// Whether the tab is shown.
    pub fn is_visible(&self) -> (r: bool)
        ensures
            r == self.visible,
    {
        self.visible
    }

    /// Hides the tab.
    pub fn hide_tab(&mut self)
        ensures
            !final(self).visible,
            final(self).entries == old(self).entries,
            final(self).selection == old(self).selection,
            final(self).current_height == old(self).current_height,
    {
        self.visible = false;
    }

    /// Shows the tab and refreshes its list with `fetched`.
    pub fn show<E>(&mut self, fetched: Result<Vec<WorktreeInfo>, E>) -> (r: Result<(), E>)
        ensures
            final(self).visible,
            final(self).current_height == old(self).current_height,
            match fetched {
                Err(e) => {
                    &&& r == Err::<(), E>(e)
                    &&& final(self).entries == old(self).entries
                    &&& final(self).selection == old(self).selection
                },
                Ok(v) => {
                    &&& r is Ok
                    &&& final(self).entries@ == v@
                    &&& final(self).selection == clamped_selection(old(self).selection, v@.len())
                },
            },
    {
        self.visible = true;
        self.update(fetched)
    }
}

/// The table row for one worktree.
pub fn worktree_row(w: &WorktreeInfo) -> (r: WorktreeRow)
    ensures
        r@ == row_of(w@),
{
    let marker = if w.is_current {
        "*".to_owned()
    } else {
        " ".to_owned()
    };
    let branch = match &w.branch {
        Some(b) => b.clone(),
        None => "(detached)".to_owned(),
    };
    let head = match &w.head {
        Some(c) => c.get_short_string(),
        None => "-------".to_owned(),
    };
    let state = if !w.is_valid {
        "missing".to_owned()
    } else if w.is_locked {
        "locked".to_owned()
    } else if w.is_current {
        "current".to_owned()
    } else {
        "".to_owned()
    };
    WorktreeRow { marker, path: w.path.clone(), branch, head, state }
}

} // verus!

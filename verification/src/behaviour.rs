use vstd::prelude::*;

use crate::commit::{hex_digit, hex_string, short_hex};
use crate::keys::{tab_key_for, KeyStroke, TabBindings};
use crate::main_loop::{step_for, Dispatch, LoopStep, QueueEvent};
use crate::paths::{resolved, same_location, same_path, ObservedPathView};
use crate::tab::{
    clamped_selection, inner_height, key_scroll, rect_inner_height_of, row_of, ScrollType, TabKey,
    Worktrees,
};
use crate::worktrees::{
    linked_info, worktree_list, LinkedWorktreeView, MainCheckoutView, WorktreeInfoView,
};

verus! {

/// Each listed entry carries what was read of its worktree: its path, the
/// short name of HEAD's reference when HEAD is a branch (nothing otherwise),
/// HEAD's commit, and its lock and validity flags (the main checkout is never
/// locked and always valid). An entry is current exactly when its path and
/// the open checkout's path, each taken in canonical form where it has one,
/// are the same path.
pub proof fn listed_entries_carry_what_was_read(
    main: Option<MainCheckoutView>,
    linked: Seq<LinkedWorktreeView>,
    current: Option<ObservedPathView>,
)
    ensures
        ({
            let list = worktree_list(main, linked, current);
            let off: int = if main is Some {
                1
            } else {
                0
            };
            &&& list.len() == linked.len() + off
            &&& main matches Some(m) ==> {
                &&& list[0].path == m.path.path
                &&& list[0].branch == match m.head {
                    Some(h) => if h.is_branch {
                        h.shorthand
                    } else {
                        None
                    },
                    None => None,
                }
                &&& list[0].head == match m.head {
                    Some(h) => h.commit,
                    None => None,
                }
                &&& !list[0].is_locked
                &&& list[0].is_valid
                &&& list[0].is_current == match current {
                    Some(c) => same_path(
                        match c.canonical {
                            Some(x) => x,
                            None => c.path,
                        },
                        match m.path.canonical {
                            Some(x) => x,
                            None => m.path.path,
                        },
                    ),
                    None => false,
                }
            }
            &&& forall|k: int|
                0 <= k < linked.len() ==> {
                    let e = list[k + off];
                    let w = #[trigger] linked[k];
                    &&& e.path == w.path.path
                    &&& e.branch == match w.head {
                        Some(h) => if h.is_branch {
                            h.shorthand
                        } else {
                            None
                        },
                        None => None,
                    }
                    &&& e.head == match w.head {
                        Some(h) => h.commit,
                        None => None,
                    }
                    &&& e.is_locked == w.is_locked
                    &&& e.is_valid == w.is_valid
                    &&& e.is_current == match current {
                        Some(c) => same_path(
                            match c.canonical {
                                Some(x) => x,
                                None => c.path,
                            },
                            match w.path.canonical {
                                Some(x) => x,
                                None => w.path.path,
                            },
                        ),
                        None => false,
                    }
                }
        }),
{
    let list = worktree_list(main, linked, current);
    let rest = linked.map_values(|w: LinkedWorktreeView| linked_info(w, current));
    let off: int = if main is Some {
        1
    } else {
        0
    };
    assert forall|k: int| 0 <= k < linked.len() implies list[k + off] == linked_info(
        #[trigger] linked[k],
        current,
    ) by {
        assert(rest[k] == linked_info(linked[k], current));
    }
}

/// Paths are compared in canonical form where they have one, as found
/// otherwise.
pub proof fn paths_compare_in_canonical_form(left: ObservedPathView, right: ObservedPathView)
    ensures
        resolved(left) == match left.canonical {
            Some(c) => c,
            None => left.path,
        },
        same_location(left, right) == same_path(resolved(left), resolved(right)),
{
}

/// The row of a worktree: `*` for the current one and a blank otherwise; its
/// path; its branch, `(detached)` without one; its abbreviated HEAD commit,
/// seven dashes without one; and a state column that says `missing` for an
/// invalid worktree whatever else holds, else `locked` for a locked one, else
/// `current` for the open one, and is empty for any other.
pub proof fn rows_show_what_the_entry_says(w: WorktreeInfoView)
    ensures
        w.is_current ==> row_of(w).marker == "*"@,
        !w.is_current ==> row_of(w).marker == " "@,
        row_of(w).path == w.path,
        w.branch matches Some(b) ==> row_of(w).branch == b,
        w.branch is None ==> row_of(w).branch == "(detached)"@,
        w.head matches Some(c) ==> row_of(w).head == short_hex(c),
        w.head is None ==> row_of(w).head == "-------"@,
        !w.is_valid ==> row_of(w).state == "missing"@,
        w.is_valid && w.is_locked ==> row_of(w).state == "locked"@,
        w.is_valid && !w.is_locked && w.is_current ==> row_of(w).state == "current"@,
        w.is_valid && !w.is_locked && !w.is_current ==> row_of(w).state == ""@,
{
}

/// The selected worktree can be opened, and opening asks for its path,
/// exactly when it is valid and not the one already open, whatever its
/// branch, HEAD or lock; with no selected entry nothing can be opened.
pub proof fn opening_needs_only_valid_and_not_current(tab: Worktrees)
    ensures
        forall|i: usize|
            tab.selection == Some(i) && i < tab.entries@.len() ==> {
                let w = #[trigger] tab.entries@[i as int];
                &&& tab.can_open() == (w.is_valid && !w.is_current)
                &&& tab.open_target() == if w.is_valid && !w.is_current {
                    Some(w.path@)
                } else {
                    None
                }
            },
        tab.selection is None ==> !tab.can_open() && tab.open_target() is None,
        (match tab.selection {
            Some(i) => i >= tab.entries@.len(),
            None => false,
        }) ==> !tab.can_open() && tab.open_target() is None,
{
}

/// Each movement key moves the selection as the movement of the same name.
pub proof fn keys_move_as_named()
    ensures
        key_scroll(TabKey::MoveUp) == Some(ScrollType::Up),
        key_scroll(TabKey::MoveDown) == Some(ScrollType::Down),
        key_scroll(TabKey::PageUp) == Some(ScrollType::PageUp),
        key_scroll(TabKey::PageDown) == Some(ScrollType::PageDown),
        key_scroll(TabKey::Home) == Some(ScrollType::Home),
        key_scroll(TabKey::End) == Some(ScrollType::End),
        key_scroll(TabKey::Enter) is None,
        key_scroll(TabKey::Other) is None,
{
}

/// In a non-empty list, starting from the selected row (the first where
/// nothing is selected), with a page of the recorded height less two rows
/// (at least one row): Up goes one row up and stops at the first row; Down
/// goes one row down and stops at the last; PageUp and PageDown go a page
/// and stop at the first and last rows; Home goes to the first row and End
/// to the last. In an empty list the selection stays as it was.
pub proof fn movements_go_where_named(tab: Worktrees, scroll: ScrollType)
    ensures
        tab.entries@.len() == 0 ==> tab.moved_selection(scroll) == tab.selection,
        tab.entries@.len() > 0 ==> ({
            let old: int = match tab.selection {
                Some(i) => i as int,
                None => 0,
            };
            let last: int = tab.entries@.len() - 1;
            let page: int = if tab.current_height <= 3 {
                1
            } else {
                tab.current_height - 2
            };
            &&& scroll == ScrollType::Up ==> tab.moved_selection(scroll) == Some(
                (if old == 0 {
                    0
                } else {
                    old - 1
                }) as usize,
            )
            &&& scroll == ScrollType::Down ==> tab.moved_selection(scroll) == Some(
                (if old >= last {
                    last
                } else {
                    old + 1
                }) as usize,
            )
            &&& scroll == ScrollType::PageUp ==> tab.moved_selection(scroll) == Some(
                (if old < page {
                    0
                } else {
                    old - page
                }) as usize,
            )
            &&& scroll == ScrollType::PageDown ==> tab.moved_selection(scroll) == Some(
                (if old + page > last {
                    last
                } else {
                    old + page
                }) as usize,
            )
            &&& scroll == ScrollType::Home ==> tab.moved_selection(scroll) == Some(0usize)
            &&& scroll == ScrollType::End ==> tab.moved_selection(scroll) == Some(last as usize)
        }),
{
}

/// After a refresh to a list of `len` entries: an empty list has no
/// selection; otherwise a selection inside the list is kept, one at or past
/// its end moves to the last entry, and no selection becomes the first entry.
pub proof fn refresh_pulls_the_selection_back(selection: Option<usize>, len: nat)
    requires
        len <= usize::MAX,
    ensures
        len == 0 ==> clamped_selection(selection, len) is None,
        len > 0 && selection is None ==> clamped_selection(selection, len) == Some(0usize),
        forall|s: usize|
            #![trigger clamped_selection(Some(s), len)]
            len > 0 && selection == Some(s) ==> clamped_selection(selection, len) == Some(
                if s < len {
                    s
                } else {
                    (len - 1) as usize
                },
            ),
{
}

/// Digits of a commit id are the lowercase hexadecimal digits, two per byte,
/// the high half first; the abbreviated id is the first seven of them (all
/// of them for an id of fewer than four bytes).
pub proof fn commit_ids_are_lowercase_hex(bytes: Seq<u8>)
    ensures
        forall|n: int| 0 <= n < 16 ==> #[trigger] hex_digit(n) == "0123456789abcdef"@[n],
        hex_string(bytes).len() == 2 * bytes.len(),
        forall|i: int|
            0 <= i < bytes.len() ==> hex_string(bytes)[2 * i] == "0123456789abcdef"@[(#[trigger] bytes[i]) as int
                / 16] && hex_string(bytes)[2 * i + 1] == "0123456789abcdef"@[bytes[i] as int % 16],
        bytes.len() >= 4 ==> short_hex(bytes).len() == 7,
        bytes.len() < 4 ==> short_hex(bytes).len() == 2 * bytes.len(),
        forall|k: int| 0 <= k < short_hex(bytes).len() ==> #[trigger] short_hex(bytes)[k]
            == hex_string(bytes)[k],
{
    reveal_strlit("0123456789abcdef");
    assert forall|i: int| 0 <= i < bytes.len() implies hex_string(bytes)[2 * i]
        == "0123456789abcdef"@[(#[trigger] bytes[i]) as int / 16] && hex_string(bytes)[2 * i + 1]
        == "0123456789abcdef"@[bytes[i] as int % 16] by {
        assert((2 * i) / 2 == i);
        assert((2 * i + 1) / 2 == i);
        assert((2 * i) % 2 == 0);
        assert((2 * i + 1) % 2 == 1);
    }
}

/// The tab key of a key stroke is the first binding it equals, in the order
/// move up, move down, page up, page down, home, end, enter; a stroke equal
/// to none is no tab key.
pub proof fn first_matching_binding_wins(key: KeyStroke, b: TabBindings)
    ensures
        key == b.move_up ==> tab_key_for(key, b) == TabKey::MoveUp,
        key != b.move_up && key == b.move_down ==> tab_key_for(key, b) == TabKey::MoveDown,
        key != b.move_up && key != b.move_down && key == b.page_up ==> tab_key_for(key, b)
            == TabKey::PageUp,
        key != b.move_up && key != b.move_down && key != b.page_up && key == b.page_down
            ==> tab_key_for(key, b) == TabKey::PageDown,
        key != b.move_up && key != b.move_down && key != b.page_up && key != b.page_down && key
            == b.home ==> tab_key_for(key, b) == TabKey::Home,
        key != b.move_up && key != b.move_down && key != b.page_up && key != b.page_down && key
            != b.home && key == b.end ==> tab_key_for(key, b) == TabKey::End,
        key != b.move_up && key != b.move_down && key != b.page_up && key != b.page_down && key
            != b.home && key != b.end && key == b.enter ==> tab_key_for(key, b) == TabKey::Enter,
        key != b.move_up && key != b.move_down && key != b.page_up && key != b.page_down && key
            != b.home && key != b.end && key != b.enter ==> tab_key_for(key, b) == TabKey::Other,
{
}

/// The list rows of a drawn table are its area less one row at the top and
/// one at the bottom, and none in an area lower than two rows.
pub proof fn list_rows_are_the_area_less_two(width: u16, height: u16)
    ensures
        height >= 2 ==> inner_height(height) + 2 == height,
        height < 2 ==> inner_height(height) == 0,
        rect_inner_height_of(width, height, 1, 0) == inner_height(height),
{
}

/// What each event does in a turn of the main loop: a spinner tick only
/// redraws the spinner; input goes to the application, hiding the cursor
/// first when polling resumes; ticks and notifications refresh the
/// application; background work is passed on unless it finished unchanged.
pub proof fn each_event_goes_where_it_belongs(polling: bool, finish_unchanged: bool)
    ensures
        step_for(QueueEvent::SpinnerUpdate) == LoopStep::SpinnerOnly,
        step_for(QueueEvent::Input { polling }) == (LoopStep::Handle {
            hide_cursor: polling,
            dispatch: Dispatch::Input,
        }),
        step_for(QueueEvent::Tick) == (LoopStep::Handle {
            hide_cursor: false,
            dispatch: Dispatch::Update,
        }),
        step_for(QueueEvent::Notify) == (LoopStep::Handle {
            hide_cursor: false,
            dispatch: Dispatch::Update,
        }),
        finish_unchanged ==> step_for(QueueEvent::Async { finish_unchanged }) == (LoopStep::Handle {
            hide_cursor: false,
            dispatch: Dispatch::Skip,
        }),
        !finish_unchanged ==> step_for(QueueEvent::Async { finish_unchanged }) == (
        LoopStep::Handle { hide_cursor: false, dispatch: Dispatch::AsyncUpdate }),
{
}

} // verus!

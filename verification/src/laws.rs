use vstd::prelude::*;

use crate::commit::{hex_string, short_hex, SHORT_ID_LEN};
use crate::main_loop::{step_for, Dispatch, LoopStep, QueueEvent};
use crate::paths::ObservedPathView;
use crate::tab::{clamped_selection, inner_height, scroll_target, ScrollType, Worktrees};
use crate::worktrees::{
    linked_info, main_info, worktree_list, LinkedWorktreeView, MainCheckoutView,
};

verus! {

/// Every movement from a row of a list lands on a row of that list.
pub proof fn scroll_stays_in_list(old: int, max: int, page: int, scroll: ScrollType)
    requires
        0 <= old <= max,
        page >= 1,
    ensures
        0 <= scroll_target(old, max, page, scroll) <= max,
{
}

/// Moving down and then up returns to the starting row, unless the start was
/// the last row.
pub proof fn down_then_up_returns(old: int, max: int, page: int)
    requires
        0 <= old < max,
    ensures
        scroll_target(scroll_target(old, max, page, ScrollType::Down), max, page, ScrollType::Up)
            == old,
{
}

/// Moving up and then down returns to the starting row, unless the start was
/// the first row.
pub proof fn up_then_down_returns(old: int, max: int, page: int)
    requires
        0 < old <= max,
    ensures
        scroll_target(scroll_target(old, max, page, ScrollType::Up), max, page, ScrollType::Down)
            == old,
{
}

/// A page down followed by a page up returns to the start when the page down
/// was not cut short by the end of the list; a page up followed by a page
/// down likewise when the page up was not cut short by its start.
pub proof fn page_moves_undo_each_other(old: int, max: int, page: int)
    requires
        0 <= old <= max,
        page >= 1,
    ensures
        old + page <= max ==> scroll_target(
            scroll_target(old, max, page, ScrollType::PageDown),
            max,
            page,
            ScrollType::PageUp,
        ) == old,
        old >= page ==> scroll_target(
            scroll_target(old, max, page, ScrollType::PageUp),
            max,
            page,
            ScrollType::PageDown,
        ) == old,
{
}

/// Home and End go to the first and last rows, and repeating them changes
/// nothing.
pub proof fn home_and_end_are_fixed(old: int, max: int, page: int)
    ensures
        scroll_target(old, max, page, ScrollType::Home) == 0,
        scroll_target(old, max, page, ScrollType::End) == max,
        scroll_target(scroll_target(old, max, page, ScrollType::Home), max, page, ScrollType::Home)
            == 0,
        scroll_target(scroll_target(old, max, page, ScrollType::End), max, page, ScrollType::End)
            == max,
{
}

/// After the list is replaced, there is a selection exactly when the list is
/// not empty, it points into the list, and a selection that still pointed
/// into the list is kept.
pub proof fn refreshed_selection_points_into_list(selection: Option<usize>, len: nat)
    requires
        len <= usize::MAX,
    ensures
        clamped_selection(selection, len) is None <==> len == 0,
        clamped_selection(selection, len) matches Some(i) ==> i < len,
        (selection matches Some(s) && s < len) ==> clamped_selection(selection, len) == selection,
{
}

/// A movement keeps a selection that points into a non-empty list inside it.
pub proof fn movement_keeps_selection_in_list(tab: Worktrees, scroll: ScrollType)
    requires
        tab.entries@.len() > 0,
        tab.selection matches Some(i) ==> i < tab.entries@.len(),
    ensures
        tab.moved_selection(scroll) matches Some(i) && i < tab.entries@.len(),
{
    scroll_stays_in_list(
        tab.selection_index(),
        tab.entries@.len() - 1,
        crate::tab::page_size(tab.current_height),
        scroll,
    );
}

/// Rows moved by a page after the table was drawn in an area `area_height`
/// rows high: that height less the block's two borders and the list area's
/// two margin rows, at least one row.
pub open spec fn page_after_draw(area_height: u16) -> int {
    if area_height >= 5 {
        area_height - 4
    } else {
        1
    }
}

/// After a draw in an area `area_height` rows high, a page down from a row of
/// a non-empty list moves by one page of visible rows, stopping at the last
/// row, and a page up moves back by one page, stopping at the first.
pub proof fn page_moves_by_the_drawn_rows(tab: Worktrees, area_height: u16, old: usize)
    requires
        tab.current_height == inner_height(area_height),
        tab.entries@.len() > 0,
        tab.selection == Some(old),
        old < tab.entries@.len(),
    ensures
        tab.moved_selection(ScrollType::PageDown) == Some(
            (if old + page_after_draw(area_height) <= tab.entries@.len() - 1 {
                old + page_after_draw(area_height)
            } else {
                tab.entries@.len() - 1
            }) as usize,
        ),
        tab.moved_selection(ScrollType::PageUp) == Some(
            (if old >= page_after_draw(area_height) {
                old - page_after_draw(area_height)
            } else {
                0
            }) as usize,
        ),
{
}

/// Opening asks for a repository exactly when the open command is enabled,
/// and what it asks for is the path of the selected worktree, which is valid
/// and not the one already open.
pub proof fn open_exactly_when_openable(tab: Worktrees)
    ensures
        tab.open_target() is Some <==> tab.can_open(),
        tab.open_target() matches Some(p) ==> (tab.selected_entry() matches Some(w) && p
            == w.path@ && w.is_valid && !w.is_current),
{
}

/// The list holds the main worktree (where there is one) first, never locked
/// and always valid, then every linked worktree in registry order.
pub proof fn main_worktree_first(
    main: Option<MainCheckoutView>,
    linked: Seq<LinkedWorktreeView>,
    current: Option<ObservedPathView>,
)
    ensures
        ({
            let list = worktree_list(main, linked, current);
            let offset: int = if main is Some {
                1
            } else {
                0
            };
            &&& list.len() == linked.len() + offset
            &&& main matches Some(m) ==> list[0] == main_info(m, current) && !list[0].is_locked
                && list[0].is_valid
            &&& forall|k: int|
                0 <= k < linked.len() ==> #[trigger] list[k + offset] == linked_info(
                    linked[k],
                    current,
                )
        }),
{
    let list = worktree_list(main, linked, current);
    let rest = linked.map_values(|w: LinkedWorktreeView| linked_info(w, current));
    let offset: int = if main is Some {
        1
    } else {
        0
    };
    assert forall|k: int| 0 <= k < linked.len() implies #[trigger] list[k + offset] == linked_info(
        linked[k],
        current,
    ) by {
        assert(rest[k] == linked_info(linked[k], current));
    }
}

/// The abbreviated id is the first seven digits of the full hexadecimal
/// form (all of them for an id shorter than four bytes).
pub proof fn short_id_is_prefix(bytes: Seq<u8>)
    ensures
        short_hex(bytes).len() == if 2 * bytes.len() < SHORT_ID_LEN {
            2 * bytes.len() as int
        } else {
            SHORT_ID_LEN as int
        },
        short_hex(bytes) =~= hex_string(bytes).take(short_hex(bytes).len() as int),
{
}

/// Spinner ticks never reach the application, and background work that
/// finished without a change is not passed on.
pub proof fn spinner_and_unchanged_work_stay_out(event: QueueEvent)
    ensures
        event == QueueEvent::SpinnerUpdate <==> step_for(event) == LoopStep::SpinnerOnly,
        event == (QueueEvent::Async { finish_unchanged: true }) ==> step_for(event) == (
        LoopStep::Handle { hide_cursor: false, dispatch: Dispatch::Skip }),
        (step_for(event) matches LoopStep::Handle { hide_cursor, .. } && hide_cursor) ==> event
            == (QueueEvent::Input { polling: true }),
{
}

} // verus!

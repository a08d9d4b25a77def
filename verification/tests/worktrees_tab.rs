use gitui::commit::CommitId;
use gitui::tab::{
    CommandBlocking, CommandState, EventState, ScrollType, TabCommand, TabKey, Worktrees,
};
use gitui::worktrees::WorktreeInfo;

fn info(path: &str, is_current: bool, is_locked: bool, is_valid: bool) -> WorktreeInfo {
    WorktreeInfo {
        path: path.to_string(),
        branch: Some(format!("{}-branch", path.trim_start_matches('/'))),
        head: None,
        is_current,
        is_locked,
        is_valid,
    }
}

fn tab_with(n: usize, selection: Option<usize>, height: usize) -> Worktrees {
    let mut tab = Worktrees::new();
    for i in 0..n {
        tab.entries.push(info(&format!("/w{}", i), i == 0, false, true));
    }
    tab.selection = selection;
    tab.current_height = height;
    tab
}

#[test]
fn opening_a_linked_worktree_queues_its_repository_path() {
    let mut tab = Worktrees::new();
    let linked_path = String::from("/tmp/gitui-linked-worktree");
    tab.entries.push(WorktreeInfo {
        path: linked_path.clone(),
        branch: Some("feature".to_string()),
        head: None,
        is_current: false,
        is_locked: false,
        is_valid: true,
    });
    tab.selection = Some(0);

    let Some(path) = tab.open_selected() else {
        panic!("expected selected worktree to be queued");
    };
    assert_eq!(path, linked_path);
}

#[test]
fn new_tab_is_hidden_and_empty() {
    let tab = Worktrees::new();
    assert!(!tab.is_visible());
    assert!(tab.entries.is_empty());
    assert_eq!(tab.selected_index(), None);
    assert_eq!(tab.current_height, 0);
}

#[test]
fn current_or_invalid_worktrees_are_not_opened() {
    let mut tab = Worktrees::new();
    tab.entries.push(info("/main", true, false, true));
    tab.entries.push(info("/gone", false, false, false));
    tab.entries.push(info("/locked", false, true, true));
    tab.selection = Some(0);
    assert!(!tab.can_open_selected());
    assert_eq!(tab.open_selected(), None);
    tab.selection = Some(1);
    assert!(!tab.can_open_selected());
    assert_eq!(tab.open_selected(), None);
    tab.selection = Some(2);
    assert!(tab.can_open_selected());
    assert_eq!(tab.open_selected(), Some("/locked".to_string()));
    tab.selection = Some(3);
    assert!(tab.selected().is_none());
    assert!(!tab.can_open_selected());
    assert_eq!(tab.open_selected(), None);
    tab.selection = None;
    assert_eq!(tab.open_selected(), None);
}

#[test]
fn selected_follows_the_selection() {
    let tab = tab_with(3, Some(2), 0);
    assert_eq!(tab.selected().map(|w| w.path.clone()), Some("/w2".to_string()));
    let tab = tab_with(3, Some(5), 0);
    assert!(tab.selected().is_none());
}

#[test]
fn moving_in_an_empty_list_does_nothing() {
    let mut tab = tab_with(0, None, 10);
    assert!(!tab.move_selection(ScrollType::Down));
    assert_eq!(tab.selection, None);
    assert!(!tab.move_selection(ScrollType::End));
    assert_eq!(tab.selection, None);
}

#[test]
fn up_and_down_stop_at_the_ends() {
    let mut tab = tab_with(3, Some(0), 10);
    assert!(!tab.move_selection(ScrollType::Up));
    assert_eq!(tab.selection, Some(0));
    assert!(tab.move_selection(ScrollType::Down));
    assert_eq!(tab.selection, Some(1));
    assert!(tab.move_selection(ScrollType::Down));
    assert_eq!(tab.selection, Some(2));
    assert!(!tab.move_selection(ScrollType::Down));
    assert_eq!(tab.selection, Some(2));
    assert!(tab.move_selection(ScrollType::Up));
    assert_eq!(tab.selection, Some(1));
}

#[test]
fn no_selection_counts_as_the_first_row() {
    let mut tab = tab_with(3, None, 10);
    assert!(!tab.move_selection(ScrollType::Home));
    assert_eq!(tab.selection, Some(0));
    let mut tab = tab_with(3, None, 10);
    assert!(tab.move_selection(ScrollType::Down));
    assert_eq!(tab.selection, Some(1));
}

#[test]
fn pages_are_the_height_less_the_borders() {
    // height 6: pages of 4 rows
    let mut tab = tab_with(20, Some(1), 6);
    assert!(tab.move_selection(ScrollType::PageDown));
    assert_eq!(tab.selection, Some(5));
    assert!(tab.move_selection(ScrollType::PageDown));
    assert_eq!(tab.selection, Some(9));
    assert!(tab.move_selection(ScrollType::PageUp));
    assert_eq!(tab.selection, Some(5));
    assert!(tab.move_selection(ScrollType::PageUp));
    assert_eq!(tab.selection, Some(1));
    assert!(tab.move_selection(ScrollType::PageUp));
    assert_eq!(tab.selection, Some(0));
    assert!(tab.move_selection(ScrollType::End));
    assert_eq!(tab.selection, Some(19));
    assert!(!tab.move_selection(ScrollType::PageDown));
    assert_eq!(tab.selection, Some(19));
}

#[test]
fn pages_are_at_least_one_row() {
    for height in [0usize, 1, 2, 3] {
        let mut tab = tab_with(10, Some(4), height);
        assert!(tab.move_selection(ScrollType::PageDown));
        assert_eq!(tab.selection, Some(5));
        assert!(tab.move_selection(ScrollType::PageUp));
        assert_eq!(tab.selection, Some(4));
    }
}

#[test]
fn a_selection_past_the_list_is_pulled_back() {
    let mut tab = tab_with(3, Some(7), 10);
    assert!(tab.move_selection(ScrollType::Down));
    assert_eq!(tab.selection, Some(2));
    let mut tab = tab_with(3, Some(7), 10);
    assert!(tab.move_selection(ScrollType::Up));
    assert_eq!(tab.selection, Some(6));
}

#[test]
fn refresh_keeps_the_selection_within_the_list() {
    let mut tab = tab_with(5, Some(4), 10);
    tab.visible = true;
    let fresh = vec![info("/a", true, false, true), info("/b", false, false, true)];
    assert_eq!(tab.update::<String>(Ok(fresh.clone())), Ok(()));
    assert_eq!(tab.entries, fresh);
    assert_eq!(tab.selection, Some(1));
    assert_eq!(tab.update::<String>(Ok(Vec::new())), Ok(()));
    assert_eq!(tab.selection, None);
    assert_eq!(tab.update::<String>(Ok(fresh.clone())), Ok(()));
    assert_eq!(tab.selection, Some(0));
}

#[test]
fn a_hidden_tab_does_not_refresh() {
    let mut tab = tab_with(2, Some(1), 10);
    assert_eq!(tab.update::<String>(Ok(Vec::new())), Ok(()));
    assert_eq!(tab.entries.len(), 2);
    assert_eq!(tab.selection, Some(1));
}

#[test]
fn a_failed_refresh_leaves_the_tab_as_it_was() {
    let mut tab = tab_with(2, Some(1), 10);
    tab.visible = true;
    assert_eq!(tab.update(Err("no repository".to_string())), Err("no repository".to_string()));
    assert_eq!(tab.entries.len(), 2);
    assert_eq!(tab.selection, Some(1));
}

#[test]
fn showing_refreshes_and_hiding_hides() {
    let mut tab = Worktrees::new();
    assert_eq!(tab.show::<String>(Ok(vec![info("/a", true, false, true)])), Ok(()));
    assert!(tab.is_visible());
    assert_eq!(tab.selected_index(), Some(0));
    tab.hide_tab();
    assert!(!tab.is_visible());
    assert_eq!(tab.entries.len(), 1);
}

#[test]
fn a_hidden_tab_takes_no_event() {
    let mut tab = tab_with(3, Some(1), 10);
    for key in [TabKey::MoveUp, TabKey::MoveDown, TabKey::Enter, TabKey::End, TabKey::Other] {
        let out = tab.event(key);
        assert_eq!(out.state, EventState::NotConsumed);
        assert_eq!(out.open_repo, None);
        assert_eq!(tab.selection, Some(1));
    }
}

#[test]
fn keys_move_and_open_while_shown() {
    let mut tab = tab_with(3, Some(0), 10);
    tab.visible = true;
    let out = tab.event(TabKey::MoveDown);
    assert_eq!(out.state, EventState::Consumed);
    assert_eq!(tab.selection, Some(1));
    let out = tab.event(TabKey::Enter);
    assert_eq!(out.state, EventState::Consumed);
    assert_eq!(out.open_repo, Some("/w1".to_string()));
    let out = tab.event(TabKey::Home);
    assert_eq!(out.state, EventState::Consumed);
    let out = tab.event(TabKey::Enter);
    assert_eq!(out.state, EventState::Consumed);
    assert_eq!(out.open_repo, None);
    let out = tab.event(TabKey::Other);
    assert_eq!(out.state, EventState::NotConsumed);
    assert_eq!(tab.event(TabKey::End).state, EventState::Consumed);
    assert_eq!(tab.selection, Some(2));
    assert_eq!(tab.event(TabKey::PageUp).state, EventState::Consumed);
    assert_eq!(tab.selection, Some(0));
    assert_eq!(tab.event(TabKey::PageDown).state, EventState::Consumed);
    assert_eq!(tab.selection, Some(2));
    assert_eq!(tab.event(TabKey::MoveUp).state, EventState::Consumed);
    assert_eq!(tab.selection, Some(1));
}

#[test]
fn commands_follow_visibility_and_selection() {
    let mut tab = tab_with(2, Some(0), 10);
    let mut out = Vec::new();
    assert_eq!(tab.commands(&mut out, false), CommandBlocking::PassingOn);
    assert!(out.is_empty());
    assert_eq!(tab.commands(&mut out, true), CommandBlocking::PassingOn);
    assert_eq!(
        out,
        vec![
            CommandState { command: TabCommand::Scroll, enabled: true, available: true },
            CommandState { command: TabCommand::OpenWorktree, enabled: false, available: true },
        ]
    );
    tab.visible = true;
    tab.selection = Some(1);
    let mut out = Vec::new();
    assert_eq!(tab.commands(&mut out, false), CommandBlocking::Blocking);
    assert_eq!(out.len(), 2);
    assert!(out[1].enabled);
}

#[test]
fn rows_show_marker_branch_head_and_state() {
    let mut tab = Worktrees::new();
    tab.entries.push(WorktreeInfo {
        path: "/repo".to_string(),
        branch: Some("master".to_string()),
        head: Some(CommitId::new(vec![0xde, 0xad, 0xbe, 0xef, 0x01])),
        is_current: true,
        is_locked: false,
        is_valid: true,
    });
    tab.entries.push(WorktreeInfo {
        path: "/repo-linked".to_string(),
        branch: None,
        head: None,
        is_current: false,
        is_locked: true,
        is_valid: true,
    });
    tab.entries.push(WorktreeInfo {
        path: "/gone".to_string(),
        branch: None,
        head: None,
        is_current: false,
        is_locked: true,
        is_valid: false,
    });
    tab.entries.push(info("/plain", false, false, true));
    let rows = tab.rows();
    assert_eq!(rows.len(), 4);
    assert_eq!(rows[0].marker, "*");
    assert_eq!(rows[0].path, "/repo");
    assert_eq!(rows[0].branch, "master");
    assert_eq!(rows[0].head, "deadbee");
    assert_eq!(rows[0].state, "current");
    assert_eq!(rows[1].marker, " ");
    assert_eq!(rows[1].branch, "(detached)");
    assert_eq!(rows[1].head, "-------");
    assert_eq!(rows[1].state, "locked");
    assert_eq!(rows[2].state, "missing");
    assert_eq!(rows[3].state, "");
}

#[test]
fn recorded_height_sets_the_page() {
    let mut tab = tab_with(30, Some(0), 0);
    tab.record_draw_area(0, 0, 80, 14);
    assert_eq!(tab.current_height, 12);
    assert!(tab.move_selection(ScrollType::PageDown));
    assert_eq!(tab.selection, Some(10));
    assert!(tab.move_selection(ScrollType::PageUp));
    assert_eq!(tab.selection, Some(0));
}

#[test]
fn low_draw_areas_leave_pages_of_one_row() {
    for area in [0u16, 1, 2, 3, 4, 5] {
        let mut tab = tab_with(10, Some(3), 99);
        tab.record_draw_area(3, 4, 40, area);
        assert_eq!(tab.current_height, area.saturating_sub(2) as usize);
        assert!(tab.move_selection(ScrollType::PageDown));
        assert_eq!(tab.selection, Some(4));
    }
    let mut tab = tab_with(10, Some(3), 0);
    tab.record_draw_area(0, 0, 0, 6);
    assert!(tab.move_selection(ScrollType::PageDown));
    assert_eq!(tab.selection, Some(5));
}

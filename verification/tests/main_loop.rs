use gitui::main_loop::{ends_loop, event_sources, Dispatch, LoopStep, MainLoop, QueueEvent, Updater};

#[test]
fn the_first_turn_refreshes_without_waiting() {
    let mut main_loop = MainLoop::new();
    assert_eq!(main_loop.next_event(), Some(QueueEvent::Notify));
    assert_eq!(main_loop.next_event(), None);
    assert_eq!(main_loop.next_event(), None);
}

#[test]
fn each_event_takes_its_turn() {
    let main_loop = MainLoop::new();
    assert_eq!(main_loop.step(QueueEvent::SpinnerUpdate), LoopStep::SpinnerOnly);
    assert_eq!(
        main_loop.step(QueueEvent::Input { polling: true }),
        LoopStep::Handle { hide_cursor: true, dispatch: Dispatch::Input }
    );
    assert_eq!(
        main_loop.step(QueueEvent::Input { polling: false }),
        LoopStep::Handle { hide_cursor: false, dispatch: Dispatch::Input }
    );
    assert_eq!(
        main_loop.step(QueueEvent::Tick),
        LoopStep::Handle { hide_cursor: false, dispatch: Dispatch::Update }
    );
    assert_eq!(
        main_loop.step(QueueEvent::Notify),
        LoopStep::Handle { hide_cursor: false, dispatch: Dispatch::Update }
    );
    assert_eq!(
        main_loop.step(QueueEvent::Async { finish_unchanged: true }),
        LoopStep::Handle { hide_cursor: false, dispatch: Dispatch::Skip }
    );
    assert_eq!(
        main_loop.step(QueueEvent::Async { finish_unchanged: false }),
        LoopStep::Handle { hide_cursor: false, dispatch: Dispatch::AsyncUpdate }
    );
}

#[test]
fn one_update_source_is_live() {
    let s = event_sources(Updater::Ticker);
    assert!(s.ticker && !s.watcher);
    let s = event_sources(Updater::NotifyWatcher);
    assert!(!s.ticker && s.watcher);
}

#[test]
fn only_a_handled_turn_ends_the_loop() {
    let handled = LoopStep::Handle { hide_cursor: false, dispatch: Dispatch::Update };
    assert!(ends_loop(handled, true));
    assert!(!ends_loop(handled, false));
    assert!(!ends_loop(LoopStep::SpinnerOnly, true));
    assert!(!ends_loop(LoopStep::SpinnerOnly, false));
}

use vstd::prelude::*;

verus! {

/// How the client learns that the repository changed.
#[derive(Clone, Copy, Debug, PartialEq, Eq)]
pub enum Updater {
    /// A file-system watcher on the working directory.
    NotifyWatcher,
    /// A periodic tick.
    Ticker,
}

/// The event sources the main loop listens to besides input and git/app
/// notifications: exactly one of the tick and the watcher is live.
#[derive(Clone, Copy, Debug, PartialEq, Eq)]
pub struct EventSources {
    pub ticker: bool,
    pub watcher: bool,
}

/// The source that an updater asks for; the other one never fires.
pub fn event_sources(updater: Updater) -> (r: EventSources)
    ensures
        r.ticker <==> updater == Updater::Ticker,
        r.watcher <==> updater == Updater::NotifyWatcher,
{
    match updater {
        Updater::NotifyWatcher => EventSources { ticker: false, watcher: true },
        Updater::Ticker => EventSources { ticker: true, watcher: false },
    }
}

/// An event of the main loop, by kind.
#[derive(Clone, Copy, Debug, PartialEq, Eq)]
pub enum QueueEvent {
    /// An input event; `polling` when input polling resumes (an external
    /// editor closed).
    Input { polling: bool },
    Tick,
    Notify,
    /// A notification of background work; `finish_unchanged` when it
    /// finished without changing anything.
    Async { finish_unchanged: bool },
    SpinnerUpdate,
}

/// What the application is asked to do with an event.
#[derive(Clone, Copy, Debug, PartialEq, Eq)]
pub enum Dispatch {
    /// Pass the input event to the application.
    Input,
    /// Let the application refresh.
    Update,
    /// Pass the notification to the application.
    AsyncUpdate,
    /// Nothing for the application.
    Skip,
}

/// What one turn of the main loop does with an event.
#[derive(Clone, Copy, Debug, PartialEq, Eq)]
pub enum LoopStep {
    /// Advance and redraw the spinner only, then wait for the next event.
    SpinnerOnly,
    /// Handle the event, then redraw, update the spinner and check for quit;
    /// `hide_cursor` asks for the terminal cursor to be hidden first.
    Handle { hide_cursor: bool, dispatch: Dispatch },
}

/// The turn that the loop takes for an event.
pub open spec fn step_for(event: QueueEvent) -> LoopStep {
    match event {
        QueueEvent::SpinnerUpdate => LoopStep::SpinnerOnly,
        QueueEvent::Input { polling } => LoopStep::Handle { hide_cursor: polling, dispatch: Dispatch::Input },
        QueueEvent::Tick => LoopStep::Handle { hide_cursor: false, dispatch: Dispatch::Update },
        QueueEvent::Notify => LoopStep::Handle { hide_cursor: false, dispatch: Dispatch::Update },
        QueueEvent::Async { finish_unchanged } => LoopStep::Handle {
            hide_cursor: false,
            dispatch: if finish_unchanged {
                Dispatch::Skip
            } else {
                Dispatch::AsyncUpdate
            },
        },
    }
}

/// Whether the loop stops after a turn: only after a turn that handled an
/// event and left the application asking to quit; a spinner tick never ends
/// it.
pub fn ends_loop(step: LoopStep, quit_requested: bool) -> (r: bool)
    ensures
        r == (step is Handle && quit_requested),
{
    match step {
        LoopStep::SpinnerOnly => false,
        LoopStep::Handle { .. } => quit_requested,
    }
}

/// Decisions of the client's main loop.
pub struct MainLoop {
    /// Whether the first turn is still to come.
    pub first_update: bool,
}

impl MainLoop {
    pub fn new() -> (r: Self)
        ensures
            r.first_update,
    {
        MainLoop { first_update: true }
    }

    /// The event that the next turn handles without waiting: a `Notify` on
    /// the first turn, nothing after it (the loop then waits for an event).
    pub fn next_event(&mut self) -> (r: Option<QueueEvent>)
        ensures
            !final(self).first_update,
            old(self).first_update ==> r == Some(QueueEvent::Notify),
            !old(self).first_update ==> r is None,
    {
        if self.first_update {
            self.first_update = false;
            Some(QueueEvent::Notify)
        } else {
            None
        }
    }

    /// The turn that the loop takes for `event`.
    pub fn step(&self, event: QueueEvent) -> (r: LoopStep)
        ensures
            r == step_for(event),
    {
        match event {
            QueueEvent::SpinnerUpdate => LoopStep::SpinnerOnly,
            QueueEvent::Input { polling } => LoopStep::Handle {
                hide_cursor: polling,
                dispatch: Dispatch::Input,
            },
            QueueEvent::Tick | QueueEvent::Notify => LoopStep::Handle {
                hide_cursor: false,
                dispatch: Dispatch::Update,
            },
            QueueEvent::Async { finish_unchanged } => LoopStep::Handle {
                hide_cursor: false,
                dispatch: if finish_unchanged {
                    Dispatch::Skip
                } else {
                    Dispatch::AsyncUpdate
                },
            },
        }
    }
}

} // verus!

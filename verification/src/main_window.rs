//! The decisions of the main window: what each message does to its state
//! and what outside work it asks for.

use vstd::prelude::*;

use crate::monitor::Monitor;
use crate::state::AdjustSession;

verus! {

/// The messages the main window reacts to.
#[derive(Clone, Copy, Debug, PartialEq, Eq, Structural)]
pub enum Message {
    ToggleAdjusting,
    ShowAbout(bool),
    Poll,
    Close,
}

/// The outside work a message asks for.
#[derive(Clone, Copy, Debug, PartialEq, Eq, Structural)]
pub enum Command {
    /// Create a session over the discovered monitors, open the overlays and
    /// schedule the first poll.
    StartAdjusting,
    /// Close the overlays of the session and read the monitor positions anew.
    StopAdjusting,
    /// Look at the session, then call `poll`.
    PollSession,
    /// Ask the window to close.
    RequestClose,
    /// Nothing.
    Nothing,
}

/// What a poll of the session found.
pub enum PollOutcome {
    /// No session runs: nothing to do, no further poll.
    Idle,
    /// The session asked to stop: close its overlays and read the monitor
    /// positions anew.
    Stop,
    /// The working positions changed: the overview now shows these
    /// monitors; schedule the next poll.
    Refresh(Vec<Monitor>),
    /// Nothing changed; schedule the next poll.
    Unchanged,
}

/// The state of the main window.
pub struct MainWindow {
    /// The monitor list as discovered at startup.
    pub monitors: Vec<Monitor>,
    /// What the UI draws: `monitors`, or the working positions of the running session.
    pub display_monitors: Vec<Monitor>,
    /// While a session runs: the session version the overview was last built from.
    pub adjusting: Option<u64>,
    pub show_about: bool,
}

/// The main window after `msg`, and the work it asks for.
pub open spec fn updated(old: MainWindow, msg: Message, new: MainWindow, cmd: Command) -> bool {
    &&& new.monitors@ == old.monitors@
    &&& new.display_monitors@ == old.display_monitors@
    &&& match msg {
        Message::ToggleAdjusting => if old.adjusting is Some {
            &&& new.adjusting is None
            &&& new.show_about == old.show_about
            &&& cmd == Command::StopAdjusting
        } else {
            &&& new.adjusting == Some(0u64)
            &&& new.show_about == old.show_about
            &&& cmd == Command::StartAdjusting
        },
        Message::ShowAbout(show) => {
            &&& new.adjusting == old.adjusting
            &&& new.show_about == show
            &&& cmd == Command::Nothing
        },
        Message::Poll => {
            &&& new.adjusting == old.adjusting
            &&& new.show_about == old.show_about
            &&& cmd == Command::PollSession
        },
        Message::Close => {
            &&& new.adjusting == old.adjusting
            &&& new.show_about == old.show_about
            &&& cmd == Command::RequestClose
        },
    }
}

/// The main window after polling `session`, and what the poll found.
pub open spec fn polled(old: MainWindow, session: AdjustSession, new: MainWindow, r: PollOutcome) -> bool {
    &&& new.monitors@ == old.monitors@
    &&& new.show_about == old.show_about
    &&& old.adjusting is None ==> {
        &&& r is Idle
        &&& new.adjusting is None
        &&& new.display_monitors@ == old.display_monitors@
    }
    &&& old.adjusting is Some && session.stop_requested ==> {
        &&& r is Stop
        &&& new.adjusting is None
        &&& new.display_monitors@ == old.display_monitors@
    }
    &&& old.adjusting is Some && !session.stop_requested && old.adjusting != Some(session.version)
        ==> {
        &&& r matches PollOutcome::Refresh(ms) && ms@ == session.working_layout()
        &&& new.adjusting == Some(session.version)
        &&& new.display_monitors@ == session.working_layout()
    }
    &&& old.adjusting is Some && !session.stop_requested && old.adjusting == Some(session.version)
        ==> {
        &&& r is Unchanged
        &&& new.adjusting == old.adjusting
        &&& new.display_monitors@ == old.display_monitors@
    }
}

impl MainWindow {
    /// The window as it opens: showing the discovered monitors, no session.
    pub fn create(monitors: Vec<Monitor>) -> (r: Self)
        ensures
            r.monitors@ == monitors@,
            r.display_monitors@ == monitors@,
            r.adjusting is None,
            !r.show_about,
    {
        let display_monitors = monitors.clone();
        MainWindow { monitors, display_monitors, adjusting: None, show_about: false }
    }

    /// React to a message; the work it asks for is returned.
    pub fn update(&mut self, message: Message) -> (cmd: Command)
        ensures
            updated(*old(self), message, *final(self), cmd),
    {
        match message {
            Message::ToggleAdjusting => {
                if self.adjusting.is_some() {
                    self.adjusting = None;
                    Command::StopAdjusting
                } else {
                    self.adjusting = Some(0);
                    Command::StartAdjusting
                }
            },
            Message::ShowAbout(show) => {
                self.show_about = show;
                Command::Nothing
            },
            Message::Poll => Command::PollSession,
            Message::Close => Command::RequestClose,
        }
    }

    /// Look at the running session: stop when it asked to, rebuild the
    /// overview when its version moved on.
    pub fn poll(&mut self, session: &AdjustSession) -> (r: PollOutcome)
        ensures
            polled(*old(self), *session, *final(self), r),
    {
        let last_version = match self.adjusting {
            Some(v) => v,
            None => {
                return PollOutcome::Idle;
            },
        };
        if session.stop_requested {
            self.adjusting = None;
            return PollOutcome::Stop;
        }
        if session.version != last_version {
            self.adjusting = Some(session.version);
            let shown = session.monitors_with_working_y();
            self.display_monitors = shown.clone();
            return PollOutcome::Refresh(shown);
        }
        PollOutcome::Unchanged
    }

    /// Show the monitor positions read anew after a session stopped.
    pub fn show_monitors(&mut self, monitors: Vec<Monitor>)
        ensures
            final(self).display_monitors@ == monitors@,
            final(self).monitors@ == old(self).monitors@,
            final(self).adjusting == old(self).adjusting,
            final(self).show_about == old(self).show_about,
    {
        self.display_monitors = monitors;
    }

    /// The caption of the button that starts or stops a session.
    pub fn toggle_caption(&self) -> (r: &'static str)
        ensures
            r@ == (if self.adjusting is Some { "Stop"@ } else { "Adjust"@ }),
    {
        if self.adjusting.is_some() {
            "Stop"
        } else {
            "Adjust"
        }
    }
}

/// Pressing the Adjust/Stop button twice leaves the window as it was, with
/// no session running.
pub proof fn law_toggle_twice(w0: MainWindow, w1: MainWindow, w2: MainWindow, c1: Command, c2: Command)
    requires
        w0.adjusting is None,
        updated(w0, Message::ToggleAdjusting, w1, c1),
        updated(w1, Message::ToggleAdjusting, w2, c2),
    ensures
        c1 == Command::StartAdjusting,
        c2 == Command::StopAdjusting,
        w2.adjusting is None,
        w2.show_about == w0.show_about,
        w2.monitors@ == w0.monitors@,
{
}


/// The overview is rebuilt only when the session changed: a poll that
/// rebuilt it, followed by a poll of the same session, finds nothing new.
pub proof fn law_poll_settles(
    w0: MainWindow,
    w1: MainWindow,
    w2: MainWindow,
    session: AdjustSession,
    r1: PollOutcome,
    r2: PollOutcome,
)
    requires
        w0.adjusting is Some,
        polled(w0, session, w1, r1),
        r1 is Refresh,
        polled(w1, session, w2, r2),
    ensures
        r2 is Unchanged,
        w2.display_monitors@ == session.working_layout(),
        w2.adjusting == Some(session.version),
{
}

/// Once the session asked to stop (Esc on an overlay), the next poll of a
/// running session stops it.
pub proof fn law_stop_request_ends_session(
    w0: MainWindow,
    w1: MainWindow,
    session: AdjustSession,
    r: PollOutcome,
)
    requires
        w0.adjusting is Some,
        session.stop_requested,
        polled(w0, session, w1, r),
    ensures
        r is Stop,
        w1.adjusting is None,
{
}

} // verus!

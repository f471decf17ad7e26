//! What passes between the editor's loop and whoever drives the terminal for
//! it: the loop asks, the driver does the work and answers.

use vstd::prelude::*;

use super::event::Event;
use super::terminal::{views, Command, CommandView, Size};

verus! {

/// Where a session stands: what was last asked of the driver.
#[derive(Clone, Copy, Debug, PartialEq, Eq, Structural)]
pub enum Phase {
    /// Nothing has been asked yet. The terminal is in its normal mode.
    Idle,
    /// Raw mode has been asked for.
    Enabling,
    /// The size has been asked for, to draw the first screen.
    Preparing,
    /// The size has been asked for, to render.
    Measuring,
    /// An input event has been asked for.
    Reading,
    /// What an event queued has been handed out to be flushed.
    Flushing,
    /// The farewell screen has been handed out to be flushed.
    Leaving,
    /// The normal mode has been asked for. `failed` says whether the loop
    /// ended on a failure.
    Closing { failed: bool },
    /// The session ended well.
    Exited,
    /// The session ended on a failure.
    Failed,
}

impl Phase {
    /// Whether the loop is running: raw mode is on, the first screen is
    /// drawn, and the loop has not ended.
    pub open spec fn in_loop(self) -> bool {
        self == Phase::Measuring || self == Phase::Reading || self == Phase::Flushing
    }

    /// Whether the session is over.
    pub open spec fn over(self) -> bool {
        self == Phase::Exited || self == Phase::Failed
    }

    /// Whether the session has put the terminal in raw mode and has not yet
    /// been told that the normal mode is back.
    pub open spec fn holds_terminal(self) -> bool {
        self == Phase::Preparing || self.in_loop() || self == Phase::Leaving
            || self is Closing
    }
}

/// What the driver is to do next.
#[derive(Debug, PartialEq, Eq)]
pub enum Request {
    /// Put the terminal in raw mode.
    EnableRawMode,
    /// Report the terminal's size.
    QuerySize,
    /// Wait for one input event and report it.
    ReadEvent,
    /// Perform these commands in order, then flush the output.
    Flush(Vec<Command>),
    /// Put the terminal back in its normal mode.
    DisableRawMode,
    /// Stop: the session ended well.
    Exit,
    /// Stop, and surface the last failure met.
    Fail,
}

/// A [`Request`] as contracts see it.
pub ghost enum RequestView {
    EnableRawMode,
    QuerySize,
    ReadEvent,
    Flush(Seq<CommandView>),
    DisableRawMode,
    Exit,
    Fail,
}

impl View for Request {
    type V = RequestView;

    open spec fn view(&self) -> RequestView {
        match *self {
            Request::EnableRawMode => RequestView::EnableRawMode,
            Request::QuerySize => RequestView::QuerySize,
            Request::ReadEvent => RequestView::ReadEvent,
            Request::Flush(commands) => RequestView::Flush(views(commands@)),
            Request::DisableRawMode => RequestView::DisableRawMode,
            Request::Exit => RequestView::Exit,
            Request::Fail => RequestView::Fail,
        }
    }
}

/// What the driver answers to a request.
#[derive(Clone, Copy, Debug, PartialEq, Eq, Structural)]
pub enum Reply {
    /// The request was carried out, and there is nothing to report.
    Done,
    /// The terminal's size.
    Size(Size),
    /// The input event that arrived.
    Event(Event),
    /// The request could not be carried out.
    Failed,
}

/// How one pass through the loop ends.
#[derive(Debug, PartialEq, Eq)]
pub enum Turn {
    /// The loop goes on, and needs this of the driver.
    Ask(Request),
    /// The loop ended because the editor was told to quit. The farewell
    /// screen is queued.
    Quit,
    /// The loop ended on a failure.
    Abort,
}

/// A [`Turn`] as contracts see it.
pub ghost enum TurnView {
    Ask(RequestView),
    Quit,
    Abort,
}

impl View for Turn {
    type V = TurnView;

    open spec fn view(&self) -> TurnView {
        match *self {
            Turn::Ask(request) => TurnView::Ask(request@),
            Turn::Quit => TurnView::Quit,
            Turn::Abort => TurnView::Abort,
        }
    }
}

} // verus!

//! The window state tracker: the single owner of what is believed about the
//! window's visibility.
//!
//! The tracker never touches the window itself. An operation is a short
//! exchange: the tracker hands out one request at a time, the host carries it
//! out on the window and hands back the reply, until the tracker has nothing
//! more to ask. Every operation begins by asking the operating system whether
//! the window is visible, because the window can be shown or hidden behind the
//! tracker's back; what the tracker remembers is never the basis of a decision.

use vstd::prelude::*;

verus! {

/// What is believed about the window's visibility. `Unknown` is what remains
/// when the operating system could not be asked; it is a state, not an error.
#[derive(Clone, Copy, Debug, PartialEq, Eq, Structural)]
pub enum WindowVisibilityState {
    Visible,
    Hidden,
    Unknown,
}

/// Something the host is asked to do with the window.
#[derive(Clone, Copy, Debug, PartialEq, Eq, Structural)]
pub enum WindowRequest {
    /// Ask the operating system whether the window is visible.
    QueryVisibility,
    /// Make the window visible.
    Show,
    /// Raise the window and give it the focus.
    Focus,
    /// Make the window invisible.
    Hide,
}

/// How a request ended.
#[derive(Clone, Copy, Debug, PartialEq, Eq, Structural)]
pub enum Reply {
    /// The answer to a visibility query.
    Visibility { visible: bool },
    /// The request was carried out.
    Done,
    /// The request could not be carried out.
    Failed,
}

/// The operations of the tracker.
#[derive(Clone, Copy, Debug, PartialEq, Eq, Structural)]
pub enum WindowOperation {
    /// Find out whether the window is visible.
    Query,
    /// Make the window visible and focused.
    ShowAndFocus,
    /// Make the window invisible.
    Hide,
    /// Hide a visible window, show and focus any other.
    Toggle,
}

/// How far the operation in progress has come.
#[derive(Clone, Copy, Debug, PartialEq, Eq, Structural)]
pub enum Stage {
    /// No operation is in progress.
    Idle,
    /// The visibility query of `operation` is outstanding.
    Reading { operation: WindowOperation },
    /// A `Show` request is outstanding.
    Showing,
    /// A `Focus` request is outstanding.
    Focusing,
    /// A `Hide` request is outstanding.
    Hiding,
}

/// The value of a tracker: what it believes and what it waits for.
#[derive(Clone, Copy, Debug, PartialEq, Eq, Structural)]
pub struct TrackerState {
    pub visibility: WindowVisibilityState,
    pub stage: Stage,
}

/// What a reply to a visibility query tells. A reply that is no answer to the
/// question tells nothing.
pub open spec fn reading(reply: Reply) -> WindowVisibilityState {
    match reply {
        Reply::Visibility { visible } => if visible {
            WindowVisibilityState::Visible
        } else {
            WindowVisibilityState::Hidden
        },
        _ => WindowVisibilityState::Unknown,
    }
}

/// The first request of `operation` once the window has been seen as `seen`.
/// A window that is not known to be visible is shown; a window that is not
/// known to be hidden is hidden.
pub open spec fn request_after_reading(
    operation: WindowOperation,
    seen: WindowVisibilityState,
) -> Option<WindowRequest> {
    match operation {
        WindowOperation::Query => None,
        WindowOperation::ShowAndFocus => if seen == WindowVisibilityState::Visible {
            Some(WindowRequest::Focus)
        } else {
            Some(WindowRequest::Show)
        },
        WindowOperation::Hide => if seen == WindowVisibilityState::Hidden {
            None
        } else {
            Some(WindowRequest::Hide)
        },
        WindowOperation::Toggle => if seen == WindowVisibilityState::Visible {
            Some(WindowRequest::Hide)
        } else {
            Some(WindowRequest::Show)
        },
    }
}

/// The stage in which the tracker waits for the reply to `request`.
pub open spec fn stage_awaiting(request: Option<WindowRequest>) -> Stage {
    match request {
        Some(WindowRequest::QueryVisibility) => Stage::Reading {
            operation: WindowOperation::Query,
        },
        Some(WindowRequest::Show) => Stage::Showing,
        Some(WindowRequest::Focus) => Stage::Focusing,
        Some(WindowRequest::Hide) => Stage::Hiding,
        None => Stage::Idle,
    }
}

/// Beginning `operation`: an idle tracker asks for the window's visibility; a
/// tracker in the middle of an operation refuses and stays as it is.
pub open spec fn begin_step(state: TrackerState, operation: WindowOperation) -> (
    TrackerState,
    Option<WindowRequest>,
) {
    if state.stage is Idle {
        (
            TrackerState { visibility: state.visibility, stage: Stage::Reading { operation } },
            Some(WindowRequest::QueryVisibility),
        )
    } else {
        (state, None)
    }
}

/// Taking the reply to the outstanding request: the next state and the next
/// request, if the operation is not over.
///
/// The belief follows the operating system's answers only: a query sets it to
/// what was read, a `Show` or `Hide` that was carried out sets it to `Visible`
/// or `Hidden`, and a request that failed leaves it as it was.
pub open spec fn resume_step(state: TrackerState, reply: Reply) -> (
    TrackerState,
    Option<WindowRequest>,
) {
    match state.stage {
        Stage::Idle => (state, None),
        Stage::Reading { operation } => {
            let seen = reading(reply);
            let next = request_after_reading(operation, seen);
            (TrackerState { visibility: seen, stage: stage_awaiting(next) }, next)
        },
        Stage::Showing => (
            TrackerState {
                visibility: if reply is Done {
                    WindowVisibilityState::Visible
                } else {
                    state.visibility
                },
                stage: Stage::Focusing,
            },
            Some(WindowRequest::Focus),
        ),
        Stage::Focusing => (
            TrackerState { visibility: state.visibility, stage: Stage::Idle },
            None,
        ),
        Stage::Hiding => (
            TrackerState {
                visibility: if reply is Done {
                    WindowVisibilityState::Hidden
                } else {
                    state.visibility
                },
                stage: Stage::Idle,
            },
            None,
        ),
    }
}

/// The single owner of the belief about the window's visibility.
pub struct WindowStateTracker {
    state: TrackerState,
}

impl View for WindowStateTracker {
    type V = TrackerState;

    closed spec fn view(&self) -> TrackerState {
        self.state
    }
}

impl WindowStateTracker {
    /// A tracker at startup: nothing is known, nothing is in progress.
    pub fn new() -> (r: WindowStateTracker)
        ensures
            r@ == (TrackerState { visibility: WindowVisibilityState::Unknown, stage: Stage::Idle }),
    {
        WindowStateTracker {
            state: TrackerState { visibility: WindowVisibilityState::Unknown, stage: Stage::Idle },
        }
    }

    /// What is believed about the window's visibility. For diagnostics: no
    /// operation decides by it.
    pub fn state(&self) -> (r: WindowVisibilityState)
        ensures
            r == self@.visibility,
    {
        self.state.visibility
    }

    /// Whether no operation is in progress.
    pub fn is_idle(&self) -> (r: bool)
        ensures
            r == (self@.stage is Idle),
    {
        match self.state.stage {
            Stage::Idle => true,
            _ => false,
        }
    }

    /// Begins `operation` and returns its first request, or `None` when another
    /// operation is still in progress.
    pub fn begin(&mut self, operation: WindowOperation) -> (r: Option<WindowRequest>)
        ensures
            (final(self)@, r) == begin_step(old(self)@, operation),
    {
        match self.state.stage {
            Stage::Idle => {
                self.state.stage = Stage::Reading { operation };
                Some(WindowRequest::QueryVisibility)
            },
            _ => None,
        }
    }

    /// Begins finding out whether the window is visible.
    pub fn query(&mut self) -> (r: Option<WindowRequest>)
        ensures
            (final(self)@, r) == begin_step(old(self)@, WindowOperation::Query),
    {
        self.begin(WindowOperation::Query)
    }

    /// Begins making the window visible and focused.
    pub fn show_and_focus(&mut self) -> (r: Option<WindowRequest>)
        ensures
            (final(self)@, r) == begin_step(old(self)@, WindowOperation::ShowAndFocus),
    {
        self.begin(WindowOperation::ShowAndFocus)
    }

    /// Begins making the window invisible.
    pub fn hide_window(&mut self) -> (r: Option<WindowRequest>)
        ensures
            (final(self)@, r) == begin_step(old(self)@, WindowOperation::Hide),
    {
        self.begin(WindowOperation::Hide)
    }

    /// Begins hiding the window if it is visible, showing it otherwise.
    pub fn toggle(&mut self) -> (r: Option<WindowRequest>)
        ensures
            (final(self)@, r) == begin_step(old(self)@, WindowOperation::Toggle),
    {
        self.begin(WindowOperation::Toggle)
    }

    /// Takes the reply to the outstanding request and returns the next
    /// request, or `None` when the operation is over. A reply that nothing
    /// waits for is ignored.
    pub fn resume(&mut self, reply: Reply) -> (r: Option<WindowRequest>)
        ensures
            (final(self)@, r) == resume_step(old(self)@, reply),
    {
        match self.state.stage {
            Stage::Idle => None,
            Stage::Reading { operation } => {
                let seen = match reply {
                    Reply::Visibility { visible: true } => WindowVisibilityState::Visible,
                    Reply::Visibility { visible: false } => WindowVisibilityState::Hidden,
                    _ => WindowVisibilityState::Unknown,
                };
                let visible = match seen {
                    WindowVisibilityState::Visible => true,
                    _ => false,
                };
                let hidden = match seen {
                    WindowVisibilityState::Hidden => true,
                    _ => false,
                };
                let next = match operation {
                    WindowOperation::Query => None,
                    WindowOperation::ShowAndFocus => if visible {
                        Some(WindowRequest::Focus)
                    } else {
                        Some(WindowRequest::Show)
                    },
                    WindowOperation::Hide => if hidden {
                        None
                    } else {
                        Some(WindowRequest::Hide)
                    },
                    WindowOperation::Toggle => if visible {
                        Some(WindowRequest::Hide)
                    } else {
                        Some(WindowRequest::Show)
                    },
                };
                let stage = match next {
                    Some(WindowRequest::Show) => Stage::Showing,
                    Some(WindowRequest::Focus) => Stage::Focusing,
                    Some(WindowRequest::Hide) => Stage::Hiding,
                    _ => Stage::Idle,
                };
                self.state = TrackerState { visibility: seen, stage };
                next
            },
            Stage::Showing => {
                if let Reply::Done = reply {
                    self.state.visibility = WindowVisibilityState::Visible;
                }
                self.state.stage = Stage::Focusing;
                Some(WindowRequest::Focus)
            },
            Stage::Focusing => {
                self.state.stage = Stage::Idle;
                None
            },
            Stage::Hiding => {
                if let Reply::Done = reply {
                    self.state.visibility = WindowVisibilityState::Hidden;
                }
                self.state.stage = Stage::Idle;
                None
            },
        }
    }
}

} // verus!

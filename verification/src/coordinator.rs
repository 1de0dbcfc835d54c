//! The shell event coordinator: the central dispatcher that turns an action
//! into the commands the host has to carry out.
//!
//! `dispatch` accepts an action and answers with the first command; the host
//! carries each command out and hands the reply to `resume`, which answers
//! with the next command until the action is done. Only the window is waited
//! for: while a window operation is in progress every other action is refused,
//! so that the query and the change of one operation are never interleaved
//! with those of another. Events, reloads and URLs are fire-and-forget.

use vstd::prelude::*;
use crate::action::{Action, ActionView};
use crate::window::{
    begin_step, resume_step, Reply, TrackerState, WindowOperation, WindowRequest,
    WindowStateTracker, WindowVisibilityState,
};

verus! {

/// Something the host is asked to do.
#[derive(Debug, PartialEq, Eq)]
pub enum Command {
    /// Carry out a request on the main window.
    Window { request: WindowRequest },
    /// Emit the named event to the UI layer, with its payload if it has one.
    /// Nothing is owed if no UI layer is attached.
    Emit { event: String, payload: Option<String> },
    /// Tell the UI layer to reload its content.
    Reload,
    /// Open the URL with the operating system's handler, in the background.
    OpenUrl { url: String },
    /// End the process with the given status.
    Exit { code: i32 },
}

/// The mathematical value of a [`Command`].
pub enum CommandView {
    Window { request: WindowRequest },
    Emit { event: Seq<char>, payload: Option<Seq<char>> },
    Reload,
    OpenUrl { url: Seq<char> },
    Exit { code: i32 },
}

impl View for Command {
    type V = CommandView;

    open spec fn view(&self) -> CommandView {
        match self {
            Command::Window { request } => CommandView::Window { request: *request },
            Command::Emit { event, payload } => CommandView::Emit {
                event: event@,
                payload: match payload {
                    Some(text) => Some(text@),
                    None => None,
                },
            },
            Command::Reload => CommandView::Reload,
            Command::OpenUrl { url } => CommandView::OpenUrl { url: url@ },
            Command::Exit { code } => CommandView::Exit { code: *code },
        }
    }
}

/// The value of a command that may be absent.
pub open spec fn optional_command(command: Option<Command>) -> Option<CommandView> {
    match command {
        Some(c) => Some(c@),
        None => None,
    }
}

/// The value of a coordinator.
pub struct CoordinatorState {
    /// The window state tracker.
    pub tracker: TrackerState,
    /// What is to be done once the window operation in progress is over.
    pub follow_up: Option<CommandView>,
    /// Whether the process has been told to exit.
    pub terminated: bool,
}

/// Whether a window operation is in progress.
pub open spec fn busy(state: CoordinatorState) -> bool {
    !(state.tracker.stage is Idle)
}

/// Whether the coordinator can take an action: it has not terminated, no
/// window operation is in progress and nothing is left over from an earlier
/// one.
pub open spec fn ready(state: CoordinatorState) -> bool {
    !state.terminated && !busy(state) && state.follow_up is None
}

/// The window operation that handling `action` begins with, if any. Actions
/// whose result the user has to see bring the window up first.
pub open spec fn window_part(action: ActionView) -> Option<WindowOperation> {
    match action {
        ActionView::ToggleWindow => Some(WindowOperation::Toggle),
        ActionView::ShowAndFocus => Some(WindowOperation::ShowAndFocus),
        ActionView::Navigate { .. } => Some(WindowOperation::ShowAndFocus),
        ActionView::QuickAddTask => Some(WindowOperation::ShowAndFocus),
        _ => None,
    }
}

/// The command that handling `action` ends with, if any.
pub open spec fn closing_command(action: ActionView) -> Option<CommandView> {
    match action {
        ActionView::Navigate { route } => Some(
            CommandView::Emit { event: "navigate"@, payload: Some(route) },
        ),
        ActionView::QuickAddTask => Some(
            CommandView::Emit { event: "quick-add-task"@, payload: None },
        ),
        ActionView::StartFocusMode => Some(
            CommandView::Emit { event: "start-focus-mode"@, payload: None },
        ),
        ActionView::ReloadContent => Some(CommandView::Reload),
        ActionView::OpenExternal { url } => Some(CommandView::OpenUrl { url }),
        ActionView::Quit => Some(CommandView::Exit { code: 0 }),
        ActionView::ToggleWindow => None,
        ActionView::ShowAndFocus => None,
    }
}

/// Taking an action: the next state and the first command.
///
/// A coordinator that has terminated or is in the middle of a window operation
/// refuses: it stays as it is and answers with no command. An action without a
/// window part is done with its one command, and changes nothing but, for
/// `Quit`, that the coordinator has terminated.
pub open spec fn dispatch_step(state: CoordinatorState, action: ActionView) -> (
    CoordinatorState,
    Option<CommandView>,
) {
    if state.terminated || busy(state) {
        (state, None)
    } else {
        match window_part(action) {
            Some(operation) => (
                CoordinatorState {
                    tracker: begin_step(state.tracker, operation).0,
                    follow_up: closing_command(action),
                    terminated: false,
                },
                Some(CommandView::Window { request: WindowRequest::QueryVisibility }),
            ),
            None => (
                CoordinatorState {
                    tracker: state.tracker,
                    follow_up: state.follow_up,
                    terminated: action is Quit,
                },
                closing_command(action),
            ),
        }
    }
}

/// Taking the reply to the last command: the next state and the next command,
/// if the action is not over.
///
/// Replies to window requests go to the tracker; when its operation is over,
/// the closing command of the action is given, once. Nothing waits for the
/// reply to a closing command: emitting, reloading and opening a URL are
/// fire-and-forget, and their failure is nobody's error.
pub open spec fn reply_step(state: CoordinatorState, reply: Reply) -> (
    CoordinatorState,
    Option<CommandView>,
) {
    if state.terminated || !busy(state) {
        (state, None)
    } else {
        let (tracker, request) = resume_step(state.tracker, reply);
        match request {
            Some(request) => (
                CoordinatorState { tracker, follow_up: state.follow_up, terminated: false },
                Some(CommandView::Window { request }),
            ),
            None => (
                CoordinatorState { tracker, follow_up: None, terminated: false },
                state.follow_up,
            ),
        }
    }
}

/// The central dispatcher. It owns the window state tracker.
pub struct Coordinator {
    tracker: WindowStateTracker,
    follow_up: Option<Command>,
    terminated: bool,
}

impl View for Coordinator {
    type V = CoordinatorState;

    closed spec fn view(&self) -> CoordinatorState {
        CoordinatorState {
            tracker: self.tracker@,
            follow_up: optional_command(self.follow_up),
            terminated: self.terminated,
        }
    }
}

impl Coordinator {
    /// A coordinator at startup: ready, and knowing nothing of the window.
    pub fn new() -> (r: Coordinator)
        ensures
            ready(r@),
            r@.tracker.visibility == WindowVisibilityState::Unknown,
    {
        Coordinator { tracker: WindowStateTracker::new(), follow_up: None, terminated: false }
    }

    /// What the tracker believes about the window's visibility.
    pub fn window_state(&self) -> (r: WindowVisibilityState)
        ensures
            r == self@.tracker.visibility,
    {
        self.tracker.state()
    }

    /// Whether a window operation is in progress.
    pub fn is_busy(&self) -> (r: bool)
        ensures
            r == busy(self@),
    {
        !self.tracker.is_idle()
    }

    /// Whether the process has been told to exit.
    pub fn is_terminated(&self) -> (r: bool)
        ensures
            r == self@.terminated,
    {
        self.terminated
    }

    /// Takes `action` and returns the first command of its handling, or `None`
    /// when the action is refused.
    pub fn dispatch(&mut self, action: Action) -> (r: Option<Command>)
        ensures
            (final(self)@, optional_command(r)) == dispatch_step(old(self)@, action@),
    {
        if self.terminated || !self.tracker.is_idle() {
            return None;
        }
        match action {
            Action::Quit => {
                self.terminated = true;
                Some(Command::Exit { code: 0 })
            },
            Action::ToggleWindow => self.begin_window(WindowOperation::Toggle, None),
            Action::ShowAndFocus => self.begin_window(WindowOperation::ShowAndFocus, None),
            Action::Navigate { route } => self.begin_window(
                WindowOperation::ShowAndFocus,
                Some(Command::Emit { event: "navigate".to_owned(), payload: Some(route) }),
            ),
            Action::QuickAddTask => self.begin_window(
                WindowOperation::ShowAndFocus,
                Some(Command::Emit { event: "quick-add-task".to_owned(), payload: None }),
            ),
            Action::StartFocusMode => Some(
                Command::Emit { event: "start-focus-mode".to_owned(), payload: None },
            ),
            Action::ReloadContent => Some(Command::Reload),
            Action::OpenExternal { url } => Some(Command::OpenUrl { url }),
        }
    }

    /// Begins an action with a window operation; `follow_up` is what remains to
    /// be done when the operation is over.
    fn begin_window(
        &mut self,
        operation: WindowOperation,
        follow_up: Option<Command>,
    ) -> (r: Option<Command>)
        requires
            !old(self)@.terminated,
            !busy(old(self)@),
        ensures
            final(self)@ == (CoordinatorState {
                tracker: begin_step(old(self)@.tracker, operation).0,
                follow_up: optional_command(follow_up),
                terminated: false,
            }),
            optional_command(r) == Some(
                CommandView::Window { request: WindowRequest::QueryVisibility },
            ),
    {
        let first = self.tracker.begin(operation);
        self.follow_up = follow_up;
        match first {
            Some(request) => Some(Command::Window { request }),
            None => None,
        }
    }

    /// Takes the reply to the last command and returns the next command, or
    /// `None` when the action is over. A reply that nothing waits for is
    /// ignored.
    pub fn resume(&mut self, reply: Reply) -> (r: Option<Command>)
        ensures
            (final(self)@, optional_command(r)) == reply_step(old(self)@, reply),
    {
        if self.terminated || self.tracker.is_idle() {
            return None;
        }
        match self.tracker.resume(reply) {
            Some(request) => Some(Command::Window { request }),
            None => self.follow_up.take(),
        }
    }
}

} // verus!

//! The catalog of semantic actions that the shell can trigger.

use vstd::prelude::*;

verus! {

/// A platform-independent instruction, produced by an adapter and consumed by
/// the coordinator.
#[derive(Debug, PartialEq, Eq)]
pub enum Action {
    /// Bring the UI to the given route.
    Navigate { route: String },
    /// Open the quick-add form for a new task.
    QuickAddTask,
    /// Start focus mode; works with the window in the background.
    StartFocusMode,
    /// Hide the window if it is visible, show and focus it otherwise.
    ToggleWindow,
    /// Make the window visible and give it the focus.
    ShowAndFocus,
    /// Ask the UI layer to reload its content.
    ReloadContent,
    /// Terminate the process.
    Quit,
    /// Hand a URL to the operating system's default handler.
    OpenExternal { url: String },
}

/// The mathematical value of an [`Action`].
pub enum ActionView {
    Navigate { route: Seq<char> },
    QuickAddTask,
    StartFocusMode,
    ToggleWindow,
    ShowAndFocus,
    ReloadContent,
    Quit,
    OpenExternal { url: Seq<char> },
}

impl View for Action {
    type V = ActionView;

    open spec fn view(&self) -> ActionView {
        match self {
            Action::Navigate { route } => ActionView::Navigate { route: route@ },
            Action::QuickAddTask => ActionView::QuickAddTask,
            Action::StartFocusMode => ActionView::StartFocusMode,
            Action::ToggleWindow => ActionView::ToggleWindow,
            Action::ShowAndFocus => ActionView::ShowAndFocus,
            Action::ReloadContent => ActionView::ReloadContent,
            Action::Quit => ActionView::Quit,
            Action::OpenExternal { url } => ActionView::OpenExternal { url: url@ },
        }
    }
}

/// The value of an action that may be absent.
pub open spec fn optional_view(action: Option<Action>) -> Option<ActionView> {
    match action {
        Some(a) => Some(a@),
        None => None,
    }
}

impl Clone for Action {
    fn clone(&self) -> (r: Self)
        ensures
            r@ == self@,
    {
        match self {
            Action::Navigate { route } => Action::Navigate { route: route.clone() },
            Action::QuickAddTask => Action::QuickAddTask,
            Action::StartFocusMode => Action::StartFocusMode,
            Action::ToggleWindow => Action::ToggleWindow,
            Action::ShowAndFocus => Action::ShowAndFocus,
            Action::ReloadContent => Action::ReloadContent,
            Action::Quit => Action::Quit,
            Action::OpenExternal { url } => Action::OpenExternal { url: url.clone() },
        }
    }
}

impl Action {
    /// The action that navigates to `route`.
    pub fn navigate(route: &str) -> (r: Action)
        ensures
            r@ == (ActionView::Navigate { route: route@ }),
    {
        Action::Navigate { route: route.to_owned() }
    }

    /// The action that opens `url` outside the application.
    pub fn open_external(url: &str) -> (r: Action)
        ensures
            r@ == (ActionView::OpenExternal { url: url@ }),
    {
        Action::OpenExternal { url: url.to_owned() }
    }
}

} // verus!

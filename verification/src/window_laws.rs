//! What the tracker's operations achieve, stated against a model of the
//! window and of an operating system that may fail.

use vstd::prelude::*;
use crate::window::{
    begin_step, resume_step, Reply, Stage, TrackerState, WindowOperation, WindowRequest,
    WindowVisibilityState,
};

verus! {

/// The window as the operating system has it. It serves to state what the
/// tracker's operations achieve; nothing at run time holds one.
pub struct Window {
    pub visible: bool,
    pub focused: bool,
}

/// Which kinds of request the operating system carries out while an operation
/// runs. A kind that does not work is answered with `Failed` and changes
/// nothing.
pub struct Conditions {
    pub query_works: bool,
    pub show_works: bool,
    pub focus_works: bool,
    pub hide_works: bool,
}

/// What a request does to the window, and the reply it is answered with.
pub open spec fn perform(window: Window, conditions: Conditions, request: WindowRequest) -> (
    Window,
    Reply,
) {
    match request {
        WindowRequest::QueryVisibility => if conditions.query_works {
            (window, Reply::Visibility { visible: window.visible })
        } else {
            (window, Reply::Failed)
        },
        WindowRequest::Show => if conditions.show_works {
            (Window { visible: true, focused: window.focused }, Reply::Done)
        } else {
            (window, Reply::Failed)
        },
        WindowRequest::Focus => if conditions.focus_works {
            (Window { visible: window.visible, focused: window.visible }, Reply::Done)
        } else {
            (window, Reply::Failed)
        },
        WindowRequest::Hide => if conditions.hide_works {
            (Window { visible: false, focused: false }, Reply::Done)
        } else {
            (window, Reply::Failed)
        },
    }
}

/// How an operation went: the tracker and the window at its end, and the
/// requests that were made, in order.
pub struct Run {
    pub tracker: TrackerState,
    pub window: Window,
    pub requests: Seq<WindowRequest>,
}

/// Carries out `pending` and every request that follows from the replies, at
/// most `limit` requests in all.
pub open spec fn carry_out(
    state: TrackerState,
    pending: Option<WindowRequest>,
    window: Window,
    conditions: Conditions,
    limit: nat,
) -> Run
    decreases limit,
{
    match pending {
        Some(request) if limit > 0 => {
            let (changed, reply) = perform(window, conditions, request);
            let (next_state, next) = resume_step(state, reply);
            let rest = carry_out(next_state, next, changed, conditions, (limit - 1) as nat);
            Run {
                tracker: rest.tracker,
                window: rest.window,
                requests: seq![request] + rest.requests,
            }
        },
        _ => Run { tracker: state, window, requests: Seq::empty() },
    }
}

/// Runs `operation` from beginning to end against the window. No operation
/// makes more than three requests.
pub open spec fn run_operation(
    state: TrackerState,
    window: Window,
    conditions: Conditions,
    operation: WindowOperation,
) -> Run {
    let (started, first) = begin_step(state, operation);
    carry_out(started, first, window, conditions, 3)
}

/// The belief that matches the window.
pub open spec fn belief_of(window: Window) -> WindowVisibilityState {
    if window.visible {
        WindowVisibilityState::Visible
    } else {
        WindowVisibilityState::Hidden
    }
}

/// Every operation comes to an end within its three requests, and begins by
/// asking the operating system.
pub proof fn lemma_operation_completes(
    state: TrackerState,
    window: Window,
    conditions: Conditions,
    operation: WindowOperation,
)
    requires
        state.stage is Idle,
    ensures
        run_operation(state, window, conditions, operation).tracker.stage is Idle,
        1 <= run_operation(state, window, conditions, operation).requests.len() <= 3,
        run_operation(state, window, conditions, operation).requests[0]
            == WindowRequest::QueryVisibility,
{
    reveal_with_fuel(carry_out, 4);
}

/// Showing is idempotent: after `show_and_focus` the window is visible and
/// believed to be, and a second `show_and_focus` asks for the visibility and
/// asserts the focus, and makes no other request.
///
/// This needs the window to be shown the first time (`Show` works, or the
/// window was visible and could be seen to be), and seen the second time.
pub proof fn lemma_show_and_focus_idempotent(
    state: TrackerState,
    window: Window,
    first: Conditions,
    second: Conditions,
)
    requires
        state.stage is Idle,
        first.show_works || (first.query_works && window.visible),
        second.query_works,
    ensures
        ({
            let once = run_operation(state, window, first, WindowOperation::ShowAndFocus);
            let twice = run_operation(
                once.tracker,
                once.window,
                second,
                WindowOperation::ShowAndFocus,
            );
            &&& once.window.visible
            &&& once.tracker == (TrackerState {
                visibility: WindowVisibilityState::Visible,
                stage: Stage::Idle,
            })
            &&& twice.window.visible
            &&& twice.tracker == once.tracker
            &&& twice.requests == seq![WindowRequest::QueryVisibility, WindowRequest::Focus]
        }),
{
    reveal_with_fuel(carry_out, 4);
    let once = run_operation(state, window, first, WindowOperation::ShowAndFocus);
    let twice = run_operation(once.tracker, once.window, second, WindowOperation::ShowAndFocus);
    assert(twice.requests =~= seq![WindowRequest::QueryVisibility, WindowRequest::Focus]);
}

/// A toggle does not go by what the tracker remembers: two trackers that
/// believe different things make the same requests on the same window and end
/// in the same state.
pub proof fn lemma_toggle_ignores_belief(
    state: TrackerState,
    other: TrackerState,
    window: Window,
    conditions: Conditions,
)
    requires
        state.stage is Idle,
        other.stage is Idle,
    ensures
        run_operation(state, window, conditions, WindowOperation::Toggle) == run_operation(
            other,
            window,
            conditions,
            WindowOperation::Toggle,
        ),
{
    reveal_with_fuel(carry_out, 4);
}

/// A toggle on a window that is in fact hidden shows it, whatever the tracker
/// believed and whether or not the query succeeds.
pub proof fn lemma_toggle_shows_hidden_window(
    state: TrackerState,
    window: Window,
    conditions: Conditions,
)
    requires
        state.stage is Idle,
        !window.visible,
    ensures
        run_operation(state, window, conditions, WindowOperation::Toggle).requests == seq![
            WindowRequest::QueryVisibility,
            WindowRequest::Show,
            WindowRequest::Focus,
        ],
        conditions.show_works ==> run_operation(
            state,
            window,
            conditions,
            WindowOperation::Toggle,
        ).window.visible,
{
    reveal_with_fuel(carry_out, 4);
    assert(run_operation(state, window, conditions, WindowOperation::Toggle).requests =~= seq![
        WindowRequest::QueryVisibility,
        WindowRequest::Show,
        WindowRequest::Focus,
    ]);
}

/// A toggle on a window that is seen to be visible hides it, and does nothing
/// else.
pub proof fn lemma_toggle_hides_visible_window(
    state: TrackerState,
    window: Window,
    conditions: Conditions,
)
    requires
        state.stage is Idle,
        window.visible,
        conditions.query_works,
    ensures
        run_operation(state, window, conditions, WindowOperation::Toggle).requests == seq![
            WindowRequest::QueryVisibility,
            WindowRequest::Hide,
        ],
        conditions.hide_works ==> !run_operation(
            state,
            window,
            conditions,
            WindowOperation::Toggle,
        ).window.visible,
{
    reveal_with_fuel(carry_out, 4);
    assert(run_operation(state, window, conditions, WindowOperation::Toggle).requests =~= seq![
        WindowRequest::QueryVisibility,
        WindowRequest::Hide,
    ]);
}

/// A request that fails leaves the belief at what the query read: nothing is
/// believed of a window because it was asked to change.
pub proof fn lemma_failure_keeps_belief(
    state: TrackerState,
    window: Window,
    conditions: Conditions,
    operation: WindowOperation,
)
    requires
        state.stage is Idle,
        conditions.query_works,
        !conditions.show_works,
        !conditions.hide_works,
    ensures
        run_operation(state, window, conditions, operation).window.visible == window.visible,
        run_operation(state, window, conditions, operation).tracker.visibility == belief_of(window),
{
    reveal_with_fuel(carry_out, 4);
}

/// Something that happens to the window: a toggle through the tracker, under
/// the conditions of that moment, or a change behind the tracker's back.
pub enum Happening {
    Toggle { conditions: Conditions },
    ExternalChange { visible: bool },
}

/// The tracker and the window after `history`.
pub open spec fn after_history(state: TrackerState, window: Window, history: Seq<Happening>) -> (
    TrackerState,
    Window,
)
    decreases history.len(),
{
    if history.len() == 0 {
        (state, window)
    } else {
        let (tracker, seen) = after_history(state, window, history.drop_last());
        match history.last() {
            Happening::Toggle { conditions } => {
                let run = run_operation(tracker, seen, conditions, WindowOperation::Toggle);
                (run.tracker, run.window)
            },
            Happening::ExternalChange { visible } => (
                tracker,
                Window { visible, focused: seen.focused && visible },
            ),
        }
    }
}

/// Whether a toggle can invert the window under `conditions`: a visible window
/// has to be seen and hidden, a hidden one has to be shown.
pub open spec fn can_invert(conditions: Conditions, window: Window) -> bool {
    if window.visible {
        conditions.query_works && conditions.hide_works
    } else {
        conditions.show_works
    }
}

/// The tracker is idle after every history.
pub proof fn lemma_idle_after_history(state: TrackerState, window: Window, history: Seq<Happening>)
    requires
        state.stage is Idle,
    ensures
        after_history(state, window, history).0.stage is Idle,
    decreases history.len(),
{
    if history.len() > 0 {
        lemma_idle_after_history(state, window, history.drop_last());
        let (tracker, seen) = after_history(state, window, history.drop_last());
        match history.last() {
            Happening::Toggle { conditions } => {
                lemma_operation_completes(tracker, seen, conditions, WindowOperation::Toggle);
            },
            Happening::ExternalChange { .. } => {},
        }
    }
}

/// Toggle correctness: however toggles and changes behind the tracker's back
/// are interleaved, and whatever failed before, a toggle that can invert the
/// window inverts the visibility that the window has at that moment, not the
/// one that the tracker remembers, and leaves the tracker believing what is
/// the case.
pub proof fn lemma_toggle_follows_the_window(
    state: TrackerState,
    window: Window,
    history: Seq<Happening>,
    n: int,
)
    requires
        state.stage is Idle,
        0 <= n < history.len(),
        history[n] matches Happening::Toggle { conditions } && can_invert(
            conditions,
            after_history(state, window, history.take(n)).1,
        ),
    ensures
        ({
            let before = after_history(state, window, history.take(n));
            let after = after_history(state, window, history.take(n + 1));
            &&& after.1.visible == !before.1.visible
            &&& after.0.visibility == belief_of(after.1)
            &&& after.0.stage is Idle
        }),
{
    reveal_with_fuel(carry_out, 4);
    let upto = history.take(n + 1);
    assert(upto.drop_last() =~= history.take(n));
    assert(upto.last() == history[n]);
    lemma_idle_after_history(state, window, history.take(n));
}

} // verus!

//! What handling an action comes to, stated against a model of the window
//! and of an operating system that may fail.

use vstd::prelude::*;
use crate::action::ActionView;
use crate::coordinator::{
    closing_command, dispatch_step, ready, reply_step, window_part, busy, CommandView,
    CoordinatorState,
};
use crate::window::{Reply, WindowRequest, WindowVisibilityState};
use crate::window_laws::{carry_out, perform, run_operation, Conditions, Window};

verus! {

/// How the handling of an action went: the coordinator and the window at its
/// end, and the commands that were given, in order.
pub struct Handling {
    pub coordinator: CoordinatorState,
    pub window: Window,
    pub commands: Seq<CommandView>,
}

/// What a command does to the window, and the reply it is answered with. Only
/// window requests touch the window.
pub open spec fn execute(window: Window, conditions: Conditions, command: CommandView) -> (
    Window,
    Reply,
) {
    match command {
        CommandView::Window { request } => perform(window, conditions, request),
        _ => (window, Reply::Done),
    }
}

/// Carries out `pending` and every command that follows from the replies, at
/// most `limit` commands in all.
pub open spec fn carry_through(
    state: CoordinatorState,
    pending: Option<CommandView>,
    window: Window,
    conditions: Conditions,
    limit: nat,
) -> Handling
    decreases limit,
{
    match pending {
        Some(command) if limit > 0 => {
            let (changed, reply) = execute(window, conditions, command);
            let (next_state, next) = reply_step(state, reply);
            let rest = carry_through(next_state, next, changed, conditions, (limit - 1) as nat);
            Handling {
                coordinator: rest.coordinator,
                window: rest.window,
                commands: seq![command] + rest.commands,
            }
        },
        _ => Handling { coordinator: state, window, commands: Seq::empty() },
    }
}

/// Handles `action` from beginning to end against the window. No action takes
/// more than four commands.
pub open spec fn handle(
    state: CoordinatorState,
    window: Window,
    conditions: Conditions,
    action: ActionView,
) -> Handling {
    let (started, first) = dispatch_step(state, action);
    carry_through(started, first, window, conditions, 4)
}

/// The commands that stand for `requests`.
pub open spec fn window_commands(requests: Seq<WindowRequest>) -> Seq<CommandView> {
    Seq::new(requests.len(), |i: int| CommandView::Window { request: requests[i] })
}

/// The commands of an action: those of its window operation, then its closing
/// command.
pub open spec fn commands_of(requests: Seq<WindowRequest>, closing: Option<CommandView>) -> Seq<
    CommandView,
> {
    match closing {
        Some(command) => window_commands(requests).push(command),
        None => window_commands(requests),
    }
}

/// What handling an action comes to.
///
/// An action with a window part runs that operation of the tracker, exactly as
/// the tracker would run it alone, and gives its closing command afterwards,
/// once. An action without one gives its closing command and leaves the window
/// and the coordinator alone. The coordinator is ready again at the end,
/// unless the action was `Quit`, after which it has terminated.
pub proof fn lemma_handle(
    state: CoordinatorState,
    window: Window,
    conditions: Conditions,
    action: ActionView,
)
    requires
        ready(state),
    ensures
        ({
            let handling = handle(state, window, conditions, action);
            match window_part(action) {
                Some(operation) => {
                    let run = run_operation(state.tracker, window, conditions, operation);
                    &&& handling.window == run.window
                    &&& handling.coordinator.tracker == run.tracker
                    &&& handling.commands == commands_of(run.requests, closing_command(action))
                    &&& ready(handling.coordinator)
                },
                None => {
                    &&& handling.window == window
                    &&& handling.commands == commands_of(Seq::empty(), closing_command(action))
                    &&& handling.commands.len() == 1
                    &&& handling.coordinator == (CoordinatorState {
                        terminated: action is Quit,
                        ..state
                    })
                },
            }
        }),
{
    reveal_with_fuel(carry_through, 5);
    reveal_with_fuel(carry_out, 4);
    let handling = handle(state, window, conditions, action);
    match window_part(action) {
        Some(operation) => {
            let run = run_operation(state.tracker, window, conditions, operation);
            assert(handling.commands =~= commands_of(run.requests, closing_command(action)));
        },
        None => {
            assert(handling.commands =~= commands_of(Seq::empty(), closing_command(action)));
        },
    }
}

/// Once the process has been told to exit, nothing is handled any more.
pub proof fn lemma_terminated_is_final(state: CoordinatorState, action: ActionView, reply: Reply)
    requires
        state.terminated,
    ensures
        dispatch_step(state, action) == (state, None::<CommandView>),
        reply_step(state, reply) == (state, None::<CommandView>),
{
}

/// An action that arrives while a window operation is in progress is refused
/// and changes nothing, so the query and the change of one operation are never
/// separated by those of another.
pub proof fn lemma_busy_refuses(state: CoordinatorState, action: ActionView)
    requires
        busy(state),
    ensures
        dispatch_step(state, action) == (state, None::<CommandView>),
{
}

/// Reloading gives the UI layer its reload directive and leaves the window and
/// what is believed of it as they were, whatever they were.
pub proof fn lemma_reload_leaves_window(
    state: CoordinatorState,
    window: Window,
    conditions: Conditions,
)
    requires
        ready(state),
    ensures
        ({
            let handling = handle(state, window, conditions, ActionView::ReloadContent);
            &&& handling.commands == seq![CommandView::Reload]
            &&& handling.window == window
            &&& handling.coordinator == state
        }),
{
    reveal_with_fuel(carry_through, 5);
    let handling = handle(state, window, conditions, ActionView::ReloadContent);
    assert(handling.commands =~= seq![CommandView::Reload]);
}

/// Focus mode starts in the background: its event is emitted and the window is
/// not touched.
pub proof fn lemma_focus_mode_leaves_window(
    state: CoordinatorState,
    window: Window,
    conditions: Conditions,
)
    requires
        ready(state),
    ensures
        ({
            let handling = handle(state, window, conditions, ActionView::StartFocusMode);
            &&& handling.commands == seq![
                CommandView::Emit { event: "start-focus-mode"@, payload: None },
            ]
            &&& handling.window == window
            &&& handling.coordinator == state
        }),
{
    reveal_with_fuel(carry_through, 5);
    let handling = handle(state, window, conditions, ActionView::StartFocusMode);
    assert(handling.commands =~= seq![
        CommandView::Emit { event: "start-focus-mode"@, payload: None },
    ]);
}

/// Where the window can be shown, quick-add and navigation bring it up
/// before the UI layer hears of them: the window is visible when the event is
/// emitted, and the event is the last command and is emitted once.
pub proof fn lemma_event_follows_window(
    state: CoordinatorState,
    window: Window,
    conditions: Conditions,
    action: ActionView,
)
    requires
        ready(state),
        action is QuickAddTask || action is Navigate,
        conditions.show_works || (conditions.query_works && window.visible),
    ensures
        ({
            let handling = handle(state, window, conditions, action);
            let n = handling.commands.len();
            &&& handling.window.visible
            &&& handling.coordinator.tracker.visibility == WindowVisibilityState::Visible
            &&& 3 <= n <= 4
            &&& handling.commands[n - 1] == closing_command(action).unwrap()
            &&& forall|i: int| 0 <= i < n - 1 ==> #[trigger] handling.commands[i] is Window
            &&& conditions.focus_works ==> handling.window.focused
        }),
{
    reveal_with_fuel(carry_through, 5);
    reveal_with_fuel(carry_out, 4);
}

} // verus!

//! The entry points for the callbacks of the platform: each maps the raw event
//! through its adapter and hands the action, if there is one, to the
//! coordinator.

use vstd::prelude::*;
use crate::action::ActionView;
use crate::coordinator::{
    dispatch_step, optional_command, Command, CommandView, Coordinator, CoordinatorState,
};
use crate::menu::{menu_binding, MenuAdapter};
use crate::shortcut::{shortcut_event_binding, KeyCombination, ShortcutAdapter, ShortcutState};
use crate::tray::{tray_binding, tray_icon_binding, TrayAdapter, TrayIconEvent};

verus! {

/// Offering the coordinator what an adapter made of an event: an action is
/// dispatched, an event that stands for nothing changes nothing.
pub open spec fn offer(state: CoordinatorState, action: Option<ActionView>) -> (
    CoordinatorState,
    Option<CommandView>,
) {
    match action {
        Some(action) => dispatch_step(state, action),
        None => (state, None),
    }
}

/// Handles a global shortcut event. Only a press of a registered combination
/// triggers anything.
pub fn handle_global_shortcut(
    coordinator: &mut Coordinator,
    adapter: &ShortcutAdapter,
    shortcut: &KeyCombination,
    state: ShortcutState,
) -> (r: Option<Command>)
    ensures
        (final(coordinator)@, optional_command(r)) == offer(
            old(coordinator)@,
            shortcut_event_binding(shortcut@, state),
        ),
{
    match adapter.resolve(shortcut, state) {
        Some(action) => coordinator.dispatch(action),
        None => None,
    }
}

/// Handles the selection of the item `id` of the application menu.
pub fn handle_menu_event(
    coordinator: &mut Coordinator,
    adapter: &MenuAdapter,
    id: &str,
) -> (r: Option<Command>)
    ensures
        (final(coordinator)@, optional_command(r)) == offer(old(coordinator)@, menu_binding(id@)),
{
    match adapter.resolve(id) {
        Some(action) => coordinator.dispatch(action),
        None => None,
    }
}

/// Handles the selection of the item `id` of the tray menu.
pub fn handle_tray_menu_event(
    coordinator: &mut Coordinator,
    adapter: &TrayAdapter,
    id: &str,
) -> (r: Option<Command>)
    ensures
        (final(coordinator)@, optional_command(r)) == offer(old(coordinator)@, tray_binding(id@)),
{
    match adapter.resolve(id) {
        Some(action) => coordinator.dispatch(action),
        None => None,
    }
}

/// Handles an event on the tray icon.
pub fn handle_tray_icon_event(
    coordinator: &mut Coordinator,
    adapter: &TrayAdapter,
    event: TrayIconEvent,
) -> (r: Option<Command>)
    ensures
        (final(coordinator)@, optional_command(r)) == offer(
            old(coordinator)@,
            tray_icon_binding(event),
        ),
{
    match adapter.resolve_icon_event(event) {
        Some(action) => coordinator.dispatch(action),
        None => None,
    }
}

} // verus!

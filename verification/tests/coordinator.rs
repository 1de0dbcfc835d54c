use sunsama_shell::action::Action;
use sunsama_shell::coordinator::{Command, Coordinator};
use sunsama_shell::events::{
    handle_global_shortcut, handle_menu_event, handle_tray_icon_event, handle_tray_menu_event,
};
use sunsama_shell::menu::MenuAdapter;
use sunsama_shell::shortcut::{KeyCombination, Modifiers, ShortcutAdapter, ShortcutState};
use sunsama_shell::tray::{MouseButton, MouseButtonState, TrayAdapter, TrayIconEvent};
use sunsama_shell::window::{Reply, WindowRequest, WindowVisibilityState};

/// A host that carries out what it is told and remembers it.
struct FakeHost {
    visible: bool,
    focused: bool,
    window_fails: bool,
    ui_attached: bool,
    emitted: Vec<(String, Option<String>)>,
    reloads: usize,
    opened: Vec<String>,
    exit: Option<i32>,
    commands: Vec<Command>,
}

impl FakeHost {
    fn new(visible: bool) -> FakeHost {
        FakeHost {
            visible,
            focused: false,
            window_fails: false,
            ui_attached: true,
            emitted: Vec::new(),
            reloads: 0,
            opened: Vec::new(),
            exit: None,
            commands: Vec::new(),
        }
    }

    fn perform(&mut self, command: Command) -> Reply {
        let reply = match &command {
            Command::Window { .. } if self.window_fails => Reply::Failed,
            Command::Window { request: WindowRequest::QueryVisibility } => {
                Reply::Visibility { visible: self.visible }
            }
            Command::Window { request: WindowRequest::Show } => {
                self.visible = true;
                Reply::Done
            }
            Command::Window { request: WindowRequest::Focus } => {
                self.focused = self.visible;
                Reply::Done
            }
            Command::Window { request: WindowRequest::Hide } => {
                self.visible = false;
                self.focused = false;
                Reply::Done
            }
            Command::Emit { event, payload } => {
                if self.ui_attached {
                    self.emitted.push((event.clone(), payload.clone()));
                    Reply::Done
                } else {
                    Reply::Failed
                }
            }
            Command::Reload => {
                self.reloads += 1;
                Reply::Done
            }
            Command::OpenUrl { url } => {
                self.opened.push(url.clone());
                Reply::Failed
            }
            Command::Exit { code } => {
                self.exit = Some(*code);
                Reply::Done
            }
        };
        self.commands.push(command);
        reply
    }

    /// Carries out `first` and whatever follows from it.
    fn run(&mut self, coordinator: &mut Coordinator, first: Option<Command>) {
        let mut next = first;
        while let Some(command) = next {
            let reply = self.perform(command);
            next = coordinator.resume(reply);
        }
    }

    fn handle(&mut self, coordinator: &mut Coordinator, action: Action) {
        let first = coordinator.dispatch(action);
        self.run(coordinator, first);
    }
}

fn window(request: WindowRequest) -> Command {
    Command::Window { request }
}

fn emit(event: &str, payload: Option<&str>) -> Command {
    Command::Emit { event: event.to_string(), payload: payload.map(|p| p.to_string()) }
}

fn super_shift(key: &str) -> KeyCombination {
    KeyCombination::new(
        Modifiers { alt: false, control: false, shift: true, super_key: true },
        key,
    )
}

#[test]
fn coordinator_starts_ready() {
    let coordinator = Coordinator::new();
    assert!(!coordinator.is_busy());
    assert!(!coordinator.is_terminated());
    assert_eq!(coordinator.window_state(), WindowVisibilityState::Unknown);
}

#[test]
fn tray_show_hide_toggles_the_window() {
    let tray = TrayAdapter::new();
    let mut coordinator = Coordinator::new();
    let mut host = FakeHost::new(false);

    let first = handle_tray_menu_event(&mut coordinator, &tray, "show_hide");
    host.run(&mut coordinator, first);
    assert!(host.visible);
    assert!(host.focused);
    assert_eq!(coordinator.window_state(), WindowVisibilityState::Visible);
    assert!(!coordinator.is_busy());

    let first = handle_tray_menu_event(&mut coordinator, &tray, "show_hide");
    host.run(&mut coordinator, first);
    assert!(!host.visible);
    assert_eq!(coordinator.window_state(), WindowVisibilityState::Hidden);
    assert!(host.emitted.is_empty());
}

#[test]
fn quick_add_shortcut_shows_the_window_and_emits_once() {
    let shortcuts = ShortcutAdapter::new();
    let mut coordinator = Coordinator::new();
    let mut host = FakeHost::new(false);

    let first = handle_global_shortcut(
        &mut coordinator,
        &shortcuts,
        &super_shift("KeyT"),
        ShortcutState::Pressed,
    );
    host.run(&mut coordinator, first);
    assert!(host.visible);
    assert!(host.focused);
    assert_eq!(coordinator.window_state(), WindowVisibilityState::Visible);
    assert_eq!(host.emitted, vec![("quick-add-task".to_string(), None)]);
    assert_eq!(
        host.commands,
        vec![
            window(WindowRequest::QueryVisibility),
            window(WindowRequest::Show),
            window(WindowRequest::Focus),
            emit("quick-add-task", None),
        ]
    );

    // The release of the same keys triggers nothing.
    let first = handle_global_shortcut(
        &mut coordinator,
        &shortcuts,
        &super_shift("KeyT"),
        ShortcutState::Released,
    );
    assert_eq!(first, None);
    assert_eq!(host.emitted.len(), 1);
}

#[test]
fn menu_reload_leaves_the_window_alone() {
    let menu = MenuAdapter::new();
    for visible in [false, true] {
        let mut coordinator = Coordinator::new();
        let mut host = FakeHost::new(visible);
        let first = handle_menu_event(&mut coordinator, &menu, "reload");
        host.run(&mut coordinator, first);
        assert_eq!(host.reloads, 1);
        assert_eq!(host.commands, vec![Command::Reload]);
        assert_eq!(host.visible, visible);
        assert!(!host.focused);
        assert_eq!(coordinator.window_state(), WindowVisibilityState::Unknown);
        assert!(!coordinator.is_busy());
    }
}

#[test]
fn reload_leaves_what_is_believed_of_the_window() {
    let mut coordinator = Coordinator::new();
    let mut host = FakeHost::new(false);
    host.handle(&mut coordinator, Action::ShowAndFocus);
    assert_eq!(coordinator.window_state(), WindowVisibilityState::Visible);
    host.handle(&mut coordinator, Action::ReloadContent);
    assert_eq!(coordinator.window_state(), WindowVisibilityState::Visible);
    assert!(host.visible);
    assert_eq!(host.reloads, 1);
}

#[test]
fn shortcut_toggle_follows_the_window() {
    let shortcuts = ShortcutAdapter::new();
    let mut coordinator = Coordinator::new();
    let mut host = FakeHost::new(true);
    let first = handle_global_shortcut(
        &mut coordinator,
        &shortcuts,
        &super_shift("KeyO"),
        ShortcutState::Pressed,
    );
    host.run(&mut coordinator, first);
    assert!(!host.visible);
    assert_eq!(
        host.commands,
        vec![window(WindowRequest::QueryVisibility), window(WindowRequest::Hide)]
    );
}

#[test]
fn focus_mode_starts_in_the_background() {
    let shortcuts = ShortcutAdapter::new();
    let mut coordinator = Coordinator::new();
    let mut host = FakeHost::new(false);
    let first = handle_global_shortcut(
        &mut coordinator,
        &shortcuts,
        &super_shift("KeyF"),
        ShortcutState::Pressed,
    );
    host.run(&mut coordinator, first);
    assert!(!host.visible);
    assert_eq!(host.commands, vec![emit("start-focus-mode", None)]);
    assert_eq!(coordinator.window_state(), WindowVisibilityState::Unknown);
}

#[test]
fn navigate_shows_the_window_and_then_emits_the_route() {
    let menu = MenuAdapter::new();
    let mut coordinator = Coordinator::new();
    let mut host = FakeHost::new(false);
    let first = handle_menu_event(&mut coordinator, &menu, "calendar_view");
    host.run(&mut coordinator, first);
    assert!(host.visible && host.focused);
    assert_eq!(
        host.commands,
        vec![
            window(WindowRequest::QueryVisibility),
            window(WindowRequest::Show),
            window(WindowRequest::Focus),
            emit("navigate", Some("/app/calendar")),
        ]
    );
}

#[test]
fn navigate_on_a_visible_window_only_raises_it() {
    let tray = TrayAdapter::new();
    let mut coordinator = Coordinator::new();
    let mut host = FakeHost::new(true);
    let first = handle_tray_menu_event(&mut coordinator, &tray, "settings");
    host.run(&mut coordinator, first);
    assert_eq!(
        host.commands,
        vec![
            window(WindowRequest::QueryVisibility),
            window(WindowRequest::Focus),
            emit("navigate", Some("/app/settings")),
        ]
    );
    assert!(host.focused);
}

#[test]
fn event_is_emitted_even_if_the_window_cannot_be_shown() {
    let mut coordinator = Coordinator::new();
    let mut host = FakeHost::new(false);
    host.window_fails = true;
    host.handle(&mut coordinator, Action::QuickAddTask);
    assert!(!host.visible);
    assert_eq!(host.emitted, vec![("quick-add-task".to_string(), None)]);
    assert_eq!(coordinator.window_state(), WindowVisibilityState::Unknown);
    assert!(!coordinator.is_busy());
}

#[test]
fn emission_without_a_ui_layer_is_a_silent_no_op() {
    let mut coordinator = Coordinator::new();
    let mut host = FakeHost::new(false);
    host.ui_attached = false;
    host.handle(&mut coordinator, Action::Navigate { route: "/app".to_string() });
    assert!(host.emitted.is_empty());
    assert!(host.visible);
    assert!(!coordinator.is_busy());
    assert!(!coordinator.is_terminated());
    // The next action is handled as usual.
    host.ui_attached = true;
    host.handle(&mut coordinator, Action::StartFocusMode);
    assert_eq!(host.emitted, vec![("start-focus-mode".to_string(), None)]);
}

#[test]
fn open_external_hands_the_url_over_and_ignores_failure() {
    let menu = MenuAdapter::new();
    let mut coordinator = Coordinator::new();
    let mut host = FakeHost::new(false);
    let first = handle_menu_event(&mut coordinator, &menu, "documentation");
    host.run(&mut coordinator, first);
    assert_eq!(host.opened, vec!["https://github.com/your-org/open-sunsama".to_string()]);
    assert_eq!(
        host.commands,
        vec![Command::OpenUrl { url: "https://github.com/your-org/open-sunsama".to_string() }]
    );
    assert!(!host.visible);
    assert!(!coordinator.is_busy());
    assert!(!coordinator.is_terminated());
}

#[test]
fn quit_exits_with_status_zero() {
    let tray = TrayAdapter::new();
    let mut coordinator = Coordinator::new();
    let first = handle_tray_menu_event(&mut coordinator, &tray, "quit");
    assert_eq!(first, Some(Command::Exit { code: 0 }));
    assert!(coordinator.is_terminated());
}

#[test]
fn nothing_is_handled_after_quit() {
    let mut coordinator = Coordinator::new();
    assert_eq!(coordinator.dispatch(Action::Quit), Some(Command::Exit { code: 0 }));
    assert_eq!(coordinator.resume(Reply::Done), None);
    assert_eq!(coordinator.dispatch(Action::ToggleWindow), None);
    assert_eq!(coordinator.dispatch(Action::ReloadContent), None);
    assert_eq!(coordinator.dispatch(Action::Quit), None);
    assert_eq!(coordinator.resume(Reply::Visibility { visible: true }), None);
    assert!(coordinator.is_terminated());
    assert!(!coordinator.is_busy());
}

#[test]
fn action_during_a_window_operation_is_refused() {
    let mut coordinator = Coordinator::new();
    let mut host = FakeHost::new(false);
    let first = coordinator.dispatch(Action::ToggleWindow);
    assert_eq!(first, Some(window(WindowRequest::QueryVisibility)));
    assert!(coordinator.is_busy());

    // A second toggle arrives before the first has read the window.
    assert_eq!(coordinator.dispatch(Action::ToggleWindow), None);
    assert_eq!(coordinator.dispatch(Action::ReloadContent), None);
    assert_eq!(coordinator.dispatch(Action::Quit), None);
    assert!(!coordinator.is_terminated());

    host.run(&mut coordinator, first);
    assert!(host.visible);
    assert_eq!(
        host.commands,
        vec![
            window(WindowRequest::QueryVisibility),
            window(WindowRequest::Show),
            window(WindowRequest::Focus),
        ]
    );
    assert!(!coordinator.is_busy());
}

#[test]
fn unknown_events_change_nothing() {
    let menu = MenuAdapter::new();
    let tray = TrayAdapter::new();
    let shortcuts = ShortcutAdapter::new();
    let mut coordinator = Coordinator::new();
    assert_eq!(handle_menu_event(&mut coordinator, &menu, "no_such_item"), None);
    assert_eq!(handle_tray_menu_event(&mut coordinator, &tray, "no_such_item"), None);
    assert_eq!(
        handle_global_shortcut(
            &mut coordinator,
            &shortcuts,
            &super_shift("KeyZ"),
            ShortcutState::Pressed
        ),
        None
    );
    assert_eq!(handle_tray_icon_event(&mut coordinator, &tray, TrayIconEvent::Enter), None);
    assert!(!coordinator.is_busy());
    assert!(!coordinator.is_terminated());
    assert_eq!(coordinator.window_state(), WindowVisibilityState::Unknown);
}

#[test]
fn tray_icon_click_toggles_the_window() {
    let tray = TrayAdapter::new();
    let mut coordinator = Coordinator::new();
    let mut host = FakeHost::new(false);
    let click = TrayIconEvent::Click {
        button: MouseButton::Left,
        button_state: MouseButtonState::Up,
    };
    let first = handle_tray_icon_event(&mut coordinator, &tray, click);
    host.run(&mut coordinator, first);
    assert!(host.visible);
    let first = handle_tray_icon_event(&mut coordinator, &tray, click);
    host.run(&mut coordinator, first);
    assert!(!host.visible);
}

#[test]
fn idle_coordinator_ignores_replies() {
    let mut coordinator = Coordinator::new();
    assert_eq!(coordinator.resume(Reply::Done), None);
    assert_eq!(coordinator.resume(Reply::Failed), None);
    assert_eq!(coordinator.resume(Reply::Visibility { visible: true }), None);
    assert_eq!(coordinator.window_state(), WindowVisibilityState::Unknown);
}

#[test]
fn show_and_focus_action_is_idempotent() {
    let mut coordinator = Coordinator::new();
    let mut host = FakeHost::new(false);
    host.handle(&mut coordinator, Action::ShowAndFocus);
    assert!(host.visible && host.focused);
    host.commands.clear();
    host.handle(&mut coordinator, Action::ShowAndFocus);
    assert_eq!(
        host.commands,
        vec![window(WindowRequest::QueryVisibility), window(WindowRequest::Focus)]
    );
    assert!(host.visible && host.focused);
    assert_eq!(coordinator.window_state(), WindowVisibilityState::Visible);
}

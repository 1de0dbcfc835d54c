//! The tray's adapter: from an item of the tray menu, or a click on the tray
//! icon, to the action it stands for.

use vstd::prelude::*;
use vstd::pervasive::unreached;
use crate::action::{optional_view, Action, ActionView};
use crate::binding::{bound_action, keys_distinct, rows_of, Binding, BindingTable};

verus! {

/// A mouse button, as the tray reports it.
#[derive(Clone, Copy, Debug, PartialEq, Eq, Structural)]
pub enum MouseButton {
    Left,
    Right,
    Middle,
}

/// Whether the button went down or came up.
#[derive(Clone, Copy, Debug, PartialEq, Eq, Structural)]
pub enum MouseButtonState {
    Up,
    Down,
}

/// What happened to the tray icon.
#[derive(Clone, Copy, Debug, PartialEq, Eq, Structural)]
pub enum TrayIconEvent {
    Click { button: MouseButton, button_state: MouseButtonState },
    DoubleClick { button: MouseButton },
    Enter,
    Move,
    Leave,
}

/// A row of the tray table: the identifier of an item of the tray menu and its
/// action.
pub type TrayItemBinding = Binding<String>;

/// The tray table as a function: what each item of the tray menu triggers.
/// Identifiers that are not listed trigger nothing.
pub open spec fn tray_binding(id: Seq<char>) -> Option<ActionView> {
    if id == "new_task"@ {
        Some(ActionView::QuickAddTask)
    } else if id == "today"@ {
        Some(ActionView::Navigate { route: "/app"@ })
    } else if id == "calendar"@ {
        Some(ActionView::Navigate { route: "/app/calendar"@ })
    } else if id == "show_hide"@ {
        Some(ActionView::ToggleWindow)
    } else if id == "settings"@ {
        Some(ActionView::Navigate { route: "/app/settings"@ })
    } else if id == "quit"@ {
        Some(ActionView::Quit)
    } else {
        None
    }
}

/// What an event on the tray icon triggers: releasing the left button toggles
/// the window, everything else is ignored.
pub open spec fn tray_icon_binding(event: TrayIconEvent) -> Option<ActionView> {
    if event == (TrayIconEvent::Click {
        button: MouseButton::Left,
        button_state: MouseButtonState::Up,
    }) {
        Some(ActionView::ToggleWindow)
    } else {
        None
    }
}

/// The rows of the tray table.
pub open spec fn tray_rows() -> Seq<(Seq<char>, ActionView)> {
    seq![
        ("new_task"@, ActionView::QuickAddTask),
        ("today"@, ActionView::Navigate { route: "/app"@ }),
        ("calendar"@, ActionView::Navigate { route: "/app/calendar"@ }),
        ("show_hide"@, ActionView::ToggleWindow),
        ("settings"@, ActionView::Navigate { route: "/app/settings"@ }),
        ("quit"@, ActionView::Quit),
    ]
}

/// The tray's identifiers are pairwise distinct.
pub proof fn lemma_tray_rows_distinct()
    ensures
        keys_distinct(tray_rows()),
{
    reveal_strlit("new_task");
    reveal_strlit("today");
    reveal_strlit("calendar");
    reveal_strlit("show_hide");
    reveal_strlit("settings");
    reveal_strlit("quit");
    let rows = tray_rows();
    assert(rows[0].0.len() == 8 && rows[0].0[0] == 'n');
    assert(rows[1].0.len() == 5);
    assert(rows[2].0.len() == 8 && rows[2].0[0] == 'c');
    assert(rows[3].0.len() == 9);
    assert(rows[4].0.len() == 8 && rows[4].0[0] == 's');
    assert(rows[5].0.len() == 4);
}

/// Looking an identifier up in the rows gives what the table says.
pub proof fn lemma_tray_rows_bind(id: Seq<char>)
    ensures
        bound_action(tray_rows(), id) == tray_binding(id),
{
    reveal_with_fuel(bound_action, 7);
    let r0 = tray_rows();
    let r1 = r0.drop_first();
    let r2 = r1.drop_first();
    let r3 = r2.drop_first();
    let r4 = r3.drop_first();
    let r5 = r4.drop_first();
    let r6 = r5.drop_first();
    assert(r6.len() == 0);
}

/// The rows of the tray table, in the order of the tray menu.
pub fn tray_bindings() -> (r: Vec<TrayItemBinding>)
    ensures
        rows_of(r@) == tray_rows(),
{
    let mut rows: Vec<TrayItemBinding> = Vec::new();
    rows.push(Binding { key: "new_task".to_owned(), action: Action::QuickAddTask });
    rows.push(Binding { key: "today".to_owned(), action: Action::navigate("/app") });
    rows.push(Binding { key: "calendar".to_owned(), action: Action::navigate("/app/calendar") });
    rows.push(Binding { key: "show_hide".to_owned(), action: Action::ToggleWindow });
    rows.push(Binding { key: "settings".to_owned(), action: Action::navigate("/app/settings") });
    rows.push(Binding { key: "quit".to_owned(), action: Action::Quit });
    assert(rows_of(rows@) =~= tray_rows());
    rows
}

/// Maps what happens on the tray to actions.
pub struct TrayAdapter {
    table: BindingTable<String>,
}

impl View for TrayAdapter {
    type V = Seq<(Seq<char>, ActionView)>;

    closed spec fn view(&self) -> Seq<(Seq<char>, ActionView)> {
        self.table@
    }
}

impl TrayAdapter {
    #[verifier::type_invariant]
    spec fn holds_tray_table(&self) -> bool {
        self.table@ == tray_rows()
    }

    /// The adapter for the system tray.
    pub fn new() -> (r: TrayAdapter)
        ensures
            r@ == tray_rows(),
    {
        let bindings = tray_bindings();
        proof {
            lemma_tray_rows_distinct();
        }
        match BindingTable::new(bindings) {
            Ok(table) => TrayAdapter { table },
            Err(_) => unreached(),
        }
    }

    /// The action that the tray menu item `id` stands for; `None` for an
    /// identifier outside the table.
    pub fn resolve(&self, id: &str) -> (r: Option<Action>)
        ensures
            optional_view(r) == tray_binding(id@),
    {
        proof {
            use_type_invariant(self);
            lemma_tray_rows_bind(id@);
        }
        let key = id.to_owned();
        self.table.lookup(&key)
    }

    /// The action that an event on the tray icon stands for.
    pub fn resolve_icon_event(&self, event: TrayIconEvent) -> (r: Option<Action>)
        ensures
            optional_view(r) == tray_icon_binding(event),
    {
        match event {
            TrayIconEvent::Click {
                button: MouseButton::Left,
                button_state: MouseButtonState::Up,
            } => Some(Action::ToggleWindow),
            _ => None,
        }
    }
}

} // verus!

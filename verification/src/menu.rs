//! The application menu's adapter: from the identifier of a selected menu item
//! to the action it stands for.

use vstd::prelude::*;
use vstd::pervasive::unreached;
use crate::action::{optional_view, Action, ActionView};
use crate::binding::{bound_action, keys_distinct, rows_of, Binding, BindingTable};

verus! {

/// A row of the menu table: the identifier of a menu item and its action.
pub type MenuItemBinding = Binding<String>;

/// The menu table as a function: what each menu item triggers. Identifiers that
/// are not listed trigger nothing.
pub open spec fn menu_binding(id: Seq<char>) -> Option<ActionView> {
    if id == "settings"@ {
        Some(ActionView::Navigate { route: "/app/settings"@ })
    } else if id == "new_task"@ {
        Some(ActionView::QuickAddTask)
    } else if id == "today_view"@ {
        Some(ActionView::Navigate { route: "/app"@ })
    } else if id == "calendar_view"@ {
        Some(ActionView::Navigate { route: "/app/calendar"@ })
    } else if id == "reload"@ {
        Some(ActionView::ReloadContent)
    } else if id == "documentation"@ {
        Some(ActionView::OpenExternal { url: "https://github.com/your-org/open-sunsama"@ })
    } else if id == "report_issue"@ {
        Some(ActionView::OpenExternal { url: "https://github.com/your-org/open-sunsama/issues"@ })
    } else {
        None
    }
}

/// The rows of the menu table.
pub open spec fn menu_rows() -> Seq<(Seq<char>, ActionView)> {
    seq![
        ("settings"@, ActionView::Navigate { route: "/app/settings"@ }),
        ("new_task"@, ActionView::QuickAddTask),
        ("today_view"@, ActionView::Navigate { route: "/app"@ }),
        ("calendar_view"@, ActionView::Navigate { route: "/app/calendar"@ }),
        ("reload"@, ActionView::ReloadContent),
        (
            "documentation"@,
            ActionView::OpenExternal { url: "https://github.com/your-org/open-sunsama"@ },
        ),
        (
            "report_issue"@,
            ActionView::OpenExternal { url: "https://github.com/your-org/open-sunsama/issues"@ },
        ),
    ]
}

/// The menu's identifiers are pairwise distinct.
pub proof fn lemma_menu_rows_distinct()
    ensures
        keys_distinct(menu_rows()),
{
    reveal_strlit("settings");
    reveal_strlit("new_task");
    reveal_strlit("today_view");
    reveal_strlit("calendar_view");
    reveal_strlit("reload");
    reveal_strlit("documentation");
    reveal_strlit("report_issue");
    let rows = menu_rows();
    assert(rows[0].0.len() == 8 && rows[0].0[0] == 's');
    assert(rows[1].0.len() == 8 && rows[1].0[0] == 'n');
    assert(rows[2].0.len() == 10);
    assert(rows[3].0.len() == 13 && rows[3].0[0] == 'c');
    assert(rows[4].0.len() == 6);
    assert(rows[5].0.len() == 13 && rows[5].0[0] == 'd');
    assert(rows[6].0.len() == 12);
}

/// Looking an identifier up in the rows gives what the table says.
pub proof fn lemma_menu_rows_bind(id: Seq<char>)
    ensures
        bound_action(menu_rows(), id) == menu_binding(id),
{
    reveal_with_fuel(bound_action, 8);
    let r0 = menu_rows();
    let r1 = r0.drop_first();
    let r2 = r1.drop_first();
    let r3 = r2.drop_first();
    let r4 = r3.drop_first();
    let r5 = r4.drop_first();
    let r6 = r5.drop_first();
    let r7 = r6.drop_first();
    assert(r7.len() == 0);
}

/// The rows of the menu table, in the order of the menu.
pub fn menu_bindings() -> (r: Vec<MenuItemBinding>)
    ensures
        rows_of(r@) == menu_rows(),
{
    let mut rows: Vec<MenuItemBinding> = Vec::new();
    rows.push(Binding { key: "settings".to_owned(), action: Action::navigate("/app/settings") });
    rows.push(Binding { key: "new_task".to_owned(), action: Action::QuickAddTask });
    rows.push(Binding { key: "today_view".to_owned(), action: Action::navigate("/app") });
    rows.push(
        Binding { key: "calendar_view".to_owned(), action: Action::navigate("/app/calendar") },
    );
    rows.push(Binding { key: "reload".to_owned(), action: Action::ReloadContent });
    rows.push(
        Binding {
            key: "documentation".to_owned(),
            action: Action::open_external("https://github.com/your-org/open-sunsama"),
        },
    );
    rows.push(
        Binding {
            key: "report_issue".to_owned(),
            action: Action::open_external("https://github.com/your-org/open-sunsama/issues"),
        },
    );
    assert(rows_of(rows@) =~= menu_rows());
    rows
}

/// Maps a selected menu item to its action.
pub struct MenuAdapter {
    table: BindingTable<String>,
}

impl View for MenuAdapter {
    type V = Seq<(Seq<char>, ActionView)>;

    closed spec fn view(&self) -> Seq<(Seq<char>, ActionView)> {
        self.table@
    }
}

impl MenuAdapter {
    #[verifier::type_invariant]
    spec fn holds_menu_table(&self) -> bool {
        self.table@ == menu_rows()
    }

    /// The adapter for the application menu.
    pub fn new() -> (r: MenuAdapter)
        ensures
            r@ == menu_rows(),
    {
        let bindings = menu_bindings();
        proof {
            lemma_menu_rows_distinct();
        }
        match BindingTable::new(bindings) {
            Ok(table) => MenuAdapter { table },
            Err(_) => unreached(),
        }
    }

    /// The action that the menu item `id` stands for; `None` for an identifier
    /// outside the table.
    pub fn resolve(&self, id: &str) -> (r: Option<Action>)
        ensures
            optional_view(r) == menu_binding(id@),
    {
        proof {
            use_type_invariant(self);
            lemma_menu_rows_bind(id@);
        }
        let key = id.to_owned();
        self.table.lookup(&key)
    }
}

} // verus!

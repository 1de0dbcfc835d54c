//! The global shortcuts' adapter: from a key combination that the operating
//! system reports to the action it stands for.

use vstd::prelude::*;
use vstd::pervasive::unreached;
use crate::action::{optional_view, Action, ActionView};
use crate::binding::{bound_action, keys_distinct, rows_of, Binding, BindingKey, BindingTable};

verus! {

/// The modifier keys that are held in a combination.
#[derive(Clone, Copy, Debug, PartialEq, Eq, Structural)]
pub struct Modifiers {
    pub alt: bool,
    pub control: bool,
    pub shift: bool,
    pub super_key: bool,
}

/// A physical key combination: a set of modifiers and the code of a key, by
/// its standard name (`KeyO` for the key labelled O on a US keyboard).
#[derive(Debug, PartialEq, Eq)]
pub struct KeyCombination {
    pub modifiers: Modifiers,
    pub key: String,
}

/// The mathematical value of a [`KeyCombination`].
pub struct KeyCombinationView {
    pub modifiers: Modifiers,
    pub key: Seq<char>,
}

impl View for KeyCombination {
    type V = KeyCombinationView;

    open spec fn view(&self) -> KeyCombinationView {
        KeyCombinationView { modifiers: self.modifiers, key: self.key@ }
    }
}

impl Clone for KeyCombination {
    fn clone(&self) -> (r: Self)
        ensures
            r@ == self@,
    {
        KeyCombination { modifiers: self.modifiers, key: self.key.clone() }
    }
}

impl BindingKey for KeyCombination {
    fn same_key(&self, other: &Self) -> (r: bool) {
        self.modifiers == other.modifiers && self.key == other.key
    }
}

impl KeyCombination {
    /// The combination of `modifiers` and the key with the code `key`.
    pub fn new(modifiers: Modifiers, key: &str) -> (r: KeyCombination)
        ensures
            r@ == (KeyCombinationView { modifiers, key: key@ }),
    {
        KeyCombination { modifiers, key: key.to_owned() }
    }
}

/// A row of the shortcut table: a key combination and its action.
pub type ShortcutBinding = Binding<KeyCombination>;

/// Whether a shortcut's keys went down or came up.
#[derive(Clone, Copy, Debug, PartialEq, Eq, Structural)]
pub enum ShortcutState {
    Pressed,
    Released,
}

/// Super and Shift, the modifiers of every shortcut of the application.
pub open spec fn super_shift() -> Modifiers {
    Modifiers { alt: false, control: false, shift: true, super_key: true }
}

/// The shortcut table as a function. Combinations that are not listed trigger
/// nothing.
pub open spec fn shortcut_binding(combination: KeyCombinationView) -> Option<ActionView> {
    if combination.modifiers != super_shift() {
        None
    } else if combination.key == "KeyO"@ {
        Some(ActionView::ToggleWindow)
    } else if combination.key == "KeyT"@ {
        Some(ActionView::QuickAddTask)
    } else if combination.key == "KeyF"@ {
        Some(ActionView::StartFocusMode)
    } else {
        None
    }
}

/// What a shortcut event triggers: a press triggers what the table says, a
/// release triggers nothing.
pub open spec fn shortcut_event_binding(
    combination: KeyCombinationView,
    state: ShortcutState,
) -> Option<ActionView> {
    match state {
        ShortcutState::Pressed => shortcut_binding(combination),
        ShortcutState::Released => None,
    }
}

/// The rows of the shortcut table.
pub open spec fn shortcut_rows() -> Seq<(KeyCombinationView, ActionView)> {
    seq![
        (KeyCombinationView { modifiers: super_shift(), key: "KeyO"@ }, ActionView::ToggleWindow),
        (KeyCombinationView { modifiers: super_shift(), key: "KeyT"@ }, ActionView::QuickAddTask),
        (KeyCombinationView { modifiers: super_shift(), key: "KeyF"@ }, ActionView::StartFocusMode),
    ]
}

/// No two shortcuts of the fixed set share a modifier set and a key code.
pub proof fn lemma_shortcut_rows_distinct()
    ensures
        keys_distinct(shortcut_rows()),
{
    reveal_strlit("KeyO");
    reveal_strlit("KeyT");
    reveal_strlit("KeyF");
    let rows = shortcut_rows();
    assert(rows[0].0.key[3] == 'O');
    assert(rows[1].0.key[3] == 'T');
    assert(rows[2].0.key[3] == 'F');
}

/// Looking a combination up in the rows gives what the table says.
pub proof fn lemma_shortcut_rows_bind(combination: KeyCombinationView)
    ensures
        bound_action(shortcut_rows(), combination) == shortcut_binding(combination),
{
    reveal_with_fuel(bound_action, 4);
    let r0 = shortcut_rows();
    let r1 = r0.drop_first();
    let r2 = r1.drop_first();
    let r3 = r2.drop_first();
    assert(r3.len() == 0);
}

/// The fixed set of global shortcuts.
pub fn shortcut_bindings() -> (r: Vec<ShortcutBinding>)
    ensures
        rows_of(r@) == shortcut_rows(),
{
    let held = Modifiers { alt: false, control: false, shift: true, super_key: true };
    let mut rows: Vec<ShortcutBinding> = Vec::new();
    rows.push(Binding { key: KeyCombination::new(held, "KeyO"), action: Action::ToggleWindow });
    rows.push(Binding { key: KeyCombination::new(held, "KeyT"), action: Action::QuickAddTask });
    rows.push(Binding { key: KeyCombination::new(held, "KeyF"), action: Action::StartFocusMode });
    assert(rows_of(rows@) =~= shortcut_rows());
    rows
}

/// Maps global shortcut events to actions.
pub struct ShortcutAdapter {
    table: BindingTable<KeyCombination>,
}

impl View for ShortcutAdapter {
    type V = Seq<(KeyCombinationView, ActionView)>;

    closed spec fn view(&self) -> Seq<(KeyCombinationView, ActionView)> {
        self.table@
    }
}

impl ShortcutAdapter {
    #[verifier::type_invariant]
    spec fn holds_shortcut_table(&self) -> bool {
        self.table@ == shortcut_rows()
    }

    /// The adapter for the fixed set of global shortcuts. The set is checked
    /// for collisions here, before anything is registered.
    pub fn new() -> (r: ShortcutAdapter)
        ensures
            r@ == shortcut_rows(),
    {
        let bindings = shortcut_bindings();
        proof {
            lemma_shortcut_rows_distinct();
        }
        match BindingTable::new(bindings) {
            Ok(table) => ShortcutAdapter { table },
            Err(_) => unreached(),
        }
    }

    /// The combinations to register with the operating system, in the order of
    /// the table.
    pub fn combinations(&self) -> (r: Vec<KeyCombination>)
        ensures
            combination_views(r@) == shortcut_rows().map_values(
                |row: (KeyCombinationView, ActionView)| row.0,
            ),
    {
        proof {
            use_type_invariant(self);
        }
        let mut found: Vec<KeyCombination> = Vec::new();
        let mut i: usize = 0;
        while i < self.table.len()
            invariant
                i <= self.table@.len(),
                self.table@ == shortcut_rows(),
                found@.len() == i,
                forall|j: int| 0 <= j < i ==> found@[j]@ == shortcut_rows()[j].0,
            decreases self.table@.len() - i,
        {
            found.push(self.table.key_at(i).clone());
            i += 1;
        }
        assert(combination_views(found@) =~= shortcut_rows().map_values(
            |row: (KeyCombinationView, ActionView)| row.0,
        ));
        found
    }

    /// The action that a shortcut event stands for: that of the table for a
    /// press of a known combination, `None` for a release and for a
    /// combination outside the table.
    pub fn resolve(&self, combination: &KeyCombination, state: ShortcutState) -> (r: Option<Action>)
        ensures
            optional_view(r) == shortcut_event_binding(combination@, state),
    {
        proof {
            use_type_invariant(self);
            lemma_shortcut_rows_bind(combination@);
        }
        match state {
            ShortcutState::Pressed => self.table.lookup(combination),
            ShortcutState::Released => None,
        }
    }
}

/// The values of a list of combinations.
pub open spec fn combination_views(combinations: Seq<KeyCombination>) -> Seq<KeyCombinationView> {
    combinations.map_values(|c: KeyCombination| c@)
}

/// The combinations that could not be registered, in order. `outcomes` holds,
/// for each combination, whether its registration succeeded; a combination
/// without an outcome counts as not registered.
pub open spec fn failed_registrations(
    combinations: Seq<KeyCombinationView>,
    outcomes: Seq<bool>,
) -> Seq<KeyCombinationView>
    decreases combinations.len(),
{
    if combinations.len() == 0 {
        Seq::empty()
    } else {
        let earlier = failed_registrations(combinations.drop_last(), outcomes);
        let last = combinations.len() - 1;
        if last < outcomes.len() && outcomes[last] {
            earlier
        } else {
            earlier.push(combinations.last())
        }
    }
}

/// What is to be reported after the shortcuts were registered: those that
/// failed. Registration goes through the whole set whatever fails, and a
/// failure stops nothing.
pub fn registration_failures(combinations: &Vec<KeyCombination>, outcomes: &Vec<bool>) -> (failed:
    Vec<KeyCombination>)
    ensures
        combination_views(failed@) == failed_registrations(
            combination_views(combinations@),
            outcomes@,
        ),
{
    let ghost all = combination_views(combinations@);
    let mut failed: Vec<KeyCombination> = Vec::new();
    let mut i: usize = 0;
    assert(combination_views(failed@) =~= Seq::<KeyCombinationView>::empty());
    while i < combinations.len()
        invariant
            i <= combinations.len(),
            all == combination_views(combinations@),
            combination_views(failed@) == failed_registrations(all.take(i as int), outcomes@),
        decreases combinations.len() - i,
    {
        let ghost before = combination_views(failed@);
        let registered = i < outcomes.len() && outcomes[i];
        if !registered {
            failed.push(combinations[i].clone());
            assert(combination_views(failed@) =~= before.push(all[i as int]));
        }
        proof {
            let grown = all.take(i + 1);
            assert(grown.drop_last() =~= all.take(i as int));
            assert(grown.last() == all[i as int]);
        }
        i += 1;
    }
    assert(all.take(i as int) =~= all);
    failed
}


} // verus!

//! Binding tables: the static mapping from an event's key to an action.
//!
//! A table is checked for collisions once, when it is built; afterwards it can
//! only be read.

use vstd::prelude::*;
use crate::action::{optional_view, Action, ActionView};

verus! {

/// What a binding is keyed by: a menu or tray identifier, or a key combination.
pub trait BindingKey: View + Sized {
    /// Whether two keys denote the same event.
    fn same_key(&self, other: &Self) -> (r: bool)
        ensures
            r == (self@ == other@),
    ;
}

impl BindingKey for String {
    fn same_key(&self, other: &Self) -> (r: bool) {
        *self == *other
    }
}

/// One row of a table: the event `key` triggers `action`.
#[derive(Debug)]
pub struct Binding<K> {
    pub key: K,
    pub action: Action,
}

impl<K: View> View for Binding<K> {
    type V = (K::V, ActionView);

    open spec fn view(&self) -> (K::V, ActionView) {
        (self.key@, self.action@)
    }
}

/// The rows that `bindings` stand for, in order.
pub open spec fn rows_of<K: View>(bindings: Seq<Binding<K>>) -> Seq<(K::V, ActionView)> {
    bindings.map_values(|b: Binding<K>| b@)
}

/// A startup-time defect in the configuration.
#[derive(Debug, PartialEq, Eq)]
pub enum ConfigError {
    /// The rows at `first` and `second` have the same key.
    DuplicateBinding { first: usize, second: usize },
}

/// No two rows have the same key.
pub open spec fn keys_distinct<KV>(rows: Seq<(KV, ActionView)>) -> bool {
    forall|i: int, j: int| 0 <= i < j < rows.len() ==> rows[i].0 != rows[j].0
}

/// Some row at an index below `n` has the key `key`.
pub open spec fn key_among<KV>(rows: Seq<(KV, ActionView)>, n: int, key: KV) -> bool {
    exists|i: int| 0 <= i < n && i < rows.len() && #[trigger] rows[i].0 == key
}

/// The action of the first row with the key `key`, if there is one.
pub open spec fn bound_action<KV>(rows: Seq<(KV, ActionView)>, key: KV) -> Option<ActionView>
    decreases rows.len(),
{
    if rows.len() == 0 {
        None
    } else if rows[0].0 == key {
        Some(rows[0].1)
    } else {
        bound_action(rows.drop_first(), key)
    }
}

/// Rows that do not have the key can be skipped.
pub proof fn lemma_bound_action_skip<KV>(rows: Seq<(KV, ActionView)>, key: KV, n: int)
    requires
        0 <= n <= rows.len(),
        forall|i: int| 0 <= i < n ==> rows[i].0 != key,
    ensures
        bound_action(rows, key) == bound_action(rows.skip(n), key),
    decreases n,
{
    if n == 0 {
        assert(rows.skip(0) =~= rows);
    } else {
        lemma_bound_action_skip(rows.drop_first(), key, n - 1);
        assert(rows.drop_first().skip(n - 1) =~= rows.skip(n));
    }
}

/// A table of bindings whose keys are pairwise distinct.
#[derive(Debug)]
pub struct BindingTable<K: BindingKey> {
    rows: Vec<Binding<K>>,
}

impl<K: BindingKey> View for BindingTable<K> {
    type V = Seq<(K::V, ActionView)>;

    closed spec fn view(&self) -> Seq<(K::V, ActionView)> {
        rows_of(self.rows@)
    }
}

impl<K: BindingKey> BindingTable<K> {
    #[verifier::type_invariant]
    spec fn well_formed(&self) -> bool {
        keys_distinct(self@)
    }

    /// Builds a table from `bindings` after checking them for collisions.
    ///
    /// Fails exactly when two rows have the same key, and then names the
    /// earliest such pair: `second` is the first row that repeats an earlier
    /// key, `first` the first row with that key.
    pub fn new(bindings: Vec<Binding<K>>) -> (r: Result<BindingTable<K>, ConfigError>)
        ensures
            r is Ok <==> keys_distinct(rows_of(bindings@)),
            r matches Ok(table) ==> table@ == rows_of(bindings@),
            r matches Err(ConfigError::DuplicateBinding { first, second }) ==> {
                let rows = rows_of(bindings@);
                &&& first < second < rows.len()
                &&& rows[first as int].0 == rows[second as int].0
                &&& keys_distinct(rows.take(second as int))
                &&& !key_among(rows, first as int, rows[second as int].0)
            },
    {
        let ghost rows = rows_of(bindings@);
        let mut second: usize = 0;
        while second < bindings.len()
            invariant
                second <= bindings.len(),
                rows == rows_of(bindings@),
                keys_distinct(rows.take(second as int)),
            decreases bindings.len() - second,
        {
            let mut first: usize = 0;
            while first < second
                invariant
                    first <= second < bindings.len(),
                    rows == rows_of(bindings@),
                    keys_distinct(rows.take(second as int)),
                    !key_among(rows, first as int, rows[second as int].0),
                decreases second - first,
            {
                if bindings[first].key.same_key(&bindings[second].key) {
                    assert(rows[first as int].0 == rows[second as int].0);
                    assert(!keys_distinct(rows)) by {
                        if keys_distinct(rows) {
                            assert(rows[first as int].0 != rows[second as int].0);
                        }
                    }
                    return Err(ConfigError::DuplicateBinding { first, second });
                }
                first += 1;
            }
            assert(keys_distinct(rows.take(second + 1))) by {
                let grown = rows.take(second + 1);
                assert forall|i: int, j: int| 0 <= i < j < grown.len() implies grown[i].0
                    != grown[j].0 by {
                    if j < second {
                        assert(rows.take(second as int)[i] == grown[i]);
                        assert(rows.take(second as int)[j] == grown[j]);
                    } else {
                        assert(rows[i].0 != rows[second as int].0);
                    }
                }
            }
            second += 1;
        }
        assert(rows.take(bindings.len() as int) =~= rows);
        Ok(BindingTable { rows: bindings })
    }

    /// The number of rows.
    pub fn len(&self) -> (n: usize)
        ensures
            n == self@.len(),
    {
        self.rows.len()
    }

    /// The key of the row at `index`.
    pub fn key_at(&self, index: usize) -> (r: &K)
        requires
            index < self@.len(),
        ensures
            r@ == self@[index as int].0,
    {
        &self.rows[index].key
    }

    /// The action bound to `key`, or `None` for a key that the table does not
    /// recognise.
    pub fn lookup(&self, key: &K) -> (r: Option<Action>)
        ensures
            keys_distinct(self@),
            optional_view(r) == bound_action(self@, key@),
    {
        proof {
            use_type_invariant(self);
        }
        let mut i: usize = 0;
        while i < self.rows.len()
            invariant
                i <= self.rows.len(),
                keys_distinct(self@),
                forall|j: int| 0 <= j < i ==> self@[j].0 != key@,
            decreases self.rows.len() - i,
        {
            if self.rows[i].key.same_key(key) {
                proof {
                    lemma_bound_action_skip(self@, key@, i as int);
                    assert(self@.skip(i as int)[0] == self@[i as int]);
                }
                let found = self.rows[i].action.clone();
                return Some(found);
            }
            i += 1;
        }
        proof {
            lemma_bound_action_skip(self@, key@, i as int);
            assert(self@.skip(i as int).len() == 0);
        }
        None
    }
}

} // verus!

//! A table of append-only histories, one for each proposal that has one.

use vstd::prelude::*;
use calimero_sdk::env::ext::ProposalId;
use crate::types::{given, models, same_proposal};

verus! {

/// The history of `id` in `entries`: what was appended, in order, and
/// nothing where the proposal has no history yet.
pub open spec fn history<V>(entries: Map<ProposalId, Seq<V>>, id: ProposalId) -> Seq<V> {
    if entries.contains_key(id) {
        entries[id]
    } else {
        Seq::empty()
    }
}

/// The table that holds the history `items` of `id` and no other; the empty
/// table where there is no such history.
pub open spec fn restored<V>(id: ProposalId, items: Option<Seq<V>>) -> Map<ProposalId, Seq<V>> {
    match items {
        Some(history) => Map::<ProposalId, Seq<V>>::empty().insert(id, history),
        None => Map::empty(),
    }
}

/// One proposal's history.
pub struct Row<T> {
    id: ProposalId,
    items: Vec<T>,
}

/// The histories of all proposals. No proposal has two.
pub struct Table<T> {
    rows: Vec<Row<T>>,
}

/// No identifier heads two rows.
spec fn distinct<T>(rows: Seq<Row<T>>) -> bool {
    forall|i: int, j: int| 0 <= i < j < rows.len() ==> rows[i].id != rows[j].id
}

/// Whether row `at` is the history of `id`.
spec fn heads<T>(rows: Seq<Row<T>>, at: int, id: ProposalId) -> bool {
    0 <= at < rows.len() && rows[at].id == id
}

/// The rows as a map from each proposal to the models of its history.
spec fn entries_of<T: View>(rows: Seq<Row<T>>) -> Map<ProposalId, Seq<T::V>> {
    Map::new(
        |id: ProposalId| exists|at: int| heads(rows, at, id),
        |id: ProposalId| models(rows[choose|at: int| heads(rows, at, id)].items@),
    )
}

/// Among distinct rows, a row holds what the map gives for its head.
proof fn lemma_row<T: View>(rows: Seq<Row<T>>, at: int)
    requires
        distinct(rows),
        0 <= at < rows.len(),
    ensures
        entries_of(rows).contains_key(rows[at].id),
        entries_of(rows)[rows[at].id] == models(rows[at].items@),
{
    let id = rows[at].id;
    assert(heads(rows, at, id));
    let chosen = choose|k: int| heads(rows, k, id);
    assert(heads(rows, chosen, id));
    assert(chosen == at);
}

/// No rows, no entries.
proof fn lemma_empty<T: View>(rows: Seq<Row<T>>)
    requires
        rows.len() == 0,
    ensures
        distinct(rows),
        entries_of(rows) == Map::<ProposalId, Seq<T::V>>::empty(),
{
    assert forall|id: ProposalId| !entries_of(rows).contains_key(id) by {
        if entries_of(rows).contains_key(id) {
            let at = choose|at: int| heads(rows, at, id);
            assert(heads(rows, at, id));
        }
    }
    assert(entries_of(rows) =~= Map::<ProposalId, Seq<T::V>>::empty());
}

/// A new row for a proposal without a history adds that one entry.
proof fn lemma_extended<T: View>(
    rows: Seq<Row<T>>,
    after: Seq<Row<T>>,
    id: ProposalId,
    added: Seq<T::V>,
)
    requires
        distinct(rows),
        !entries_of(rows).contains_key(id),
        after.len() == rows.len() + 1,
        forall|k: int| 0 <= k < rows.len() ==> after[k] == rows[k],
        after[rows.len() as int].id == id,
        models(after[rows.len() as int].items@) == added,
    ensures
        distinct(after),
        entries_of(after) == entries_of(rows).insert(id, added),
{
    let n = rows.len() as int;
    assert forall|i: int, j: int| 0 <= i < j < after.len() implies after[i].id != after[j].id by {
        if j == n {
            if after[i].id == id {
                assert(heads(rows, i, id));
            }
        }
    }
    let target = entries_of(rows).insert(id, added);
    assert forall|key: ProposalId| entries_of(after).contains_key(key) <==> target.contains_key(
        key,
    ) by {
        if entries_of(after).contains_key(key) {
            let k = choose|k: int| heads(after, k, key);
            assert(heads(after, k, key));
            if k < n {
                assert(heads(rows, k, key));
            }
        }
        if target.contains_key(key) {
            if key == id {
                assert(heads(after, n, key));
            } else {
                let k = choose|k: int| heads(rows, k, key);
                assert(heads(rows, k, key));
                assert(heads(after, k, key));
            }
        }
    }
    assert forall|key: ProposalId| entries_of(after).contains_key(key) implies entries_of(
        after,
    )[key] == target[key] by {
        let k = choose|k: int| heads(after, k, key);
        assert(heads(after, k, key));
        lemma_row(after, k);
        if k < n {
            lemma_row(rows, k);
        }
    }
    assert(entries_of(after) =~= target);
}

/// A row with one more item changes the entry of its head, and no other.
proof fn lemma_replaced<T: View>(rows: Seq<Row<T>>, after: Seq<Row<T>>, at: int, item: T::V)
    requires
        distinct(rows),
        0 <= at < rows.len(),
        after.len() == rows.len(),
        forall|k: int| 0 <= k < rows.len() && k != at ==> after[k] == rows[k],
        after[at].id == rows[at].id,
        models(after[at].items@) == models(rows[at].items@).push(item),
    ensures
        distinct(after),
        entries_of(after) == entries_of(rows).insert(
            rows[at].id,
            history(entries_of(rows), rows[at].id).push(item),
        ),
{
    let id = rows[at].id;
    lemma_row(rows, at);
    assert forall|k: int| 0 <= k < rows.len() implies after[k].id == rows[k].id by {}
    assert(distinct(after));
    let target = entries_of(rows).insert(id, history(entries_of(rows), id).push(item));
    assert forall|key: ProposalId| entries_of(after).contains_key(key) <==> target.contains_key(
        key,
    ) by {
        if entries_of(after).contains_key(key) {
            let k = choose|k: int| heads(after, k, key);
            assert(heads(after, k, key));
            assert(heads(rows, k, key));
        }
        if target.contains_key(key) {
            if key == id {
                assert(heads(after, at, key));
            } else {
                let k = choose|k: int| heads(rows, k, key);
                assert(heads(rows, k, key));
                assert(heads(after, k, key));
            }
        }
    }
    assert forall|key: ProposalId| entries_of(after).contains_key(key) implies entries_of(
        after,
    )[key] == target[key] by {
        let k = choose|k: int| heads(after, k, key);
        assert(heads(after, k, key));
        lemma_row(after, k);
        lemma_row(rows, k);
    }
    assert(entries_of(after) =~= target);
}

/// The row among `rows` that holds the history of `id`, if there is one.
fn position<T: View>(rows: &Vec<Row<T>>, id: &ProposalId) -> (found: Option<usize>)
    ensures
        match found {
            Some(at) => heads(rows@, at as int, *id),
            None => !entries_of(rows@).contains_key(*id),
        },
{
    let mut at: usize = 0;
    while at < rows.len()
        invariant
            at <= rows@.len(),
            forall|k: int| 0 <= k < at ==> !heads(rows@, k, *id),
        decreases rows@.len() - at,
    {
        if same_proposal(&rows[at].id, id) {
            return Some(at);
        }
        at += 1;
    }
    proof {
        if entries_of(rows@).contains_key(*id) {
            let k = choose|k: int| heads(rows@, k, *id);
            assert(heads(rows@, k, *id));
        }
    }
    None
}

impl<T> Table<T> {
    /// What every table keeps: its rows are distinct.
    #[verifier::type_invariant]
    spec fn wf(&self) -> bool {
        distinct(self.rows@)
    }
}

impl<T: View> Table<T> {
    /// The table as a map from each proposal to the models of its history.
    pub closed spec fn entries(&self) -> Map<ProposalId, Seq<T::V>> {
        entries_of(self.rows@)
    }

    /// A table without histories.
    pub fn new() -> (table: Self)
        ensures
            table.entries() == Map::<ProposalId, Seq<T::V>>::empty(),
    {
        let rows: Vec<Row<T>> = Vec::new();
        proof {
            lemma_empty(rows@);
        }
        Table { rows }
    }

    /// The table that holds `items` as the history of `id`, and nothing
    /// else; without `items` the empty table.
    pub fn restore(id: ProposalId, items: Option<Vec<T>>) -> (table: Self)
        ensures
            table.entries() == restored(id, given(items)),
    {
        let mut rows: Vec<Row<T>> = Vec::new();
        proof {
            lemma_empty(rows@);
        }
        match items {
            Some(history) => {
                let ghost before = rows@;
                let ghost held = models(history@);
                rows.push(Row { id, items: history });
                proof {
                    lemma_extended(before, rows@, id, held);
                }
            },
            None => {},
        }
        Table { rows }
    }

    /// Whether `id` has a history.
    pub fn contains(&self, id: &ProposalId) -> (present: bool)
        ensures
            present == self.entries().contains_key(*id),
    {
        match position(&self.rows, id) {
            Some(at) => {
                assert(heads(self.rows@, at as int, *id));
                true
            },
            None => false,
        }
    }

    /// The history of `id`, if it has one.
    pub fn get(&self, id: &ProposalId) -> (found: Option<&Vec<T>>)
        ensures
            match found {
                Some(items) => self.entries().contains_key(*id) && models(items@)
                    == self.entries()[*id],
                None => !self.entries().contains_key(*id),
            },
    {
        proof {
            use_type_invariant(self);
        }
        match position(&self.rows, id) {
            Some(at) => {
                proof {
                    lemma_row(self.rows@, at as int);
                }
                Some(&self.rows[at].items)
            },
            None => None,
        }
    }

    /// Gives `id` an empty history, unless it has a history already: then
    /// the table stays as it is.
    pub fn create(&mut self, id: ProposalId) -> (created: bool)
        ensures
            created == !old(self).entries().contains_key(id),
            final(self).entries() == if created {
                old(self).entries().insert(id, Seq::empty())
            } else {
                old(self).entries()
            },
    {
        proof {
            use_type_invariant(&*self);
        }
        match position(&self.rows, &id) {
            Some(at) => {
                assert(heads(self.rows@, at as int, id));
                false
            },
            None => {
                let ghost before = self.rows@;
                let mut rows: Vec<Row<T>> = Vec::new();
                proof {
                    lemma_empty(rows@);
                }
                std::mem::swap(&mut rows, &mut self.rows);
                rows.push(Row { id, items: Vec::new() });
                proof {
                    assert(models(Seq::<T>::empty()) =~= Seq::<T::V>::empty());
                    lemma_extended(before, rows@, id, Seq::empty());
                }
                self.rows = rows;
                true
            },
        }
    }

    /// Appends `item` to the history of `id`, which starts empty where the
    /// proposal had none.
    pub fn append(&mut self, id: ProposalId, item: T)
        ensures
            final(self).entries() == old(self).entries().insert(
                id,
                history(old(self).entries(), id).push(item@),
            ),
    {
        proof {
            use_type_invariant(&*self);
        }
        let ghost before = self.rows@;
        let found = position(&self.rows, &id);
        let mut rows: Vec<Row<T>> = Vec::new();
        proof {
            lemma_empty(rows@);
        }
        std::mem::swap(&mut rows, &mut self.rows);
        match found {
            Some(at) => {
                let mut row = rows.remove(at);
                row.items.push(item);
                rows.insert(at, row);
                proof {
                    assert(models(before[at as int].items@.push(item)) =~= models(
                        before[at as int].items@,
                    ).push(item@));
                    lemma_replaced(before, rows@, at as int, item@);
                }
            },
            None => {
                let mut items: Vec<T> = Vec::new();
                items.push(item);
                rows.push(Row { id, items });
                proof {
                    assert(models(Seq::<T>::empty().push(item)) =~= Seq::<T::V>::empty().push(
                        item@,
                    ));
                    lemma_extended(before, rows@, id, Seq::<T::V>::empty().push(item@));
                }
            },
        }
        self.rows = rows;
    }
}

} // verus!

//! The two histories of each proposal: its seeds and its processed values.

use vstd::prelude::*;
use calimero_sdk::env::ext::ProposalId;
use crate::table::{history, restored, Table};
use crate::types::{given, models, ProcessedValue, ProxyError, QuantumSeed, SeedModel, ValueModel};

verus! {

/// What a store holds: for each proposal that has one, its history of
/// seeds, and likewise its history of processed values.
pub struct StoreModel {
    pub seeds: Map<ProposalId, Seq<SeedModel>>,
    pub values: Map<ProposalId, Seq<ValueModel>>,
}

impl StoreModel {
    /// The store that holds nothing.
    pub open spec fn empty() -> StoreModel {
        StoreModel { seeds: Map::empty(), values: Map::empty() }
    }

    /// Whether `id` has a history of either kind.
    pub open spec fn knows(self, id: ProposalId) -> bool {
        self.seeds.contains_key(id) || self.values.contains_key(id)
    }

    /// Whether `id` has both histories.
    pub open spec fn holds(self, id: ProposalId) -> bool {
        self.seeds.contains_key(id) && self.values.contains_key(id)
    }

    /// The part of the store that concerns `id`: its histories as they are,
    /// and nothing of any other proposal.
    pub open spec fn only(self, id: ProposalId) -> StoreModel {
        StoreModel {
            seeds: restored(
                id,
                if self.seeds.contains_key(id) {
                    Some(self.seeds[id])
                } else {
                    None
                },
            ),
            values: restored(
                id,
                if self.values.contains_key(id) {
                    Some(self.values[id])
                } else {
                    None
                },
            ),
        }
    }

    /// The store after `id` was given two empty histories.
    pub open spec fn created(self, id: ProposalId) -> StoreModel {
        StoreModel {
            seeds: self.seeds.insert(id, Seq::empty()),
            values: self.values.insert(id, Seq::empty()),
        }
    }

    /// Initialising `id`: refused, with the store unchanged, where `id` has
    /// a history already; else both histories start empty.
    pub open spec fn init_proposal(self, id: ProposalId) -> (StoreModel, Result<(), ProxyError>) {
        if self.knows(id) {
            (self, Err(ProxyError::ProposalAlreadyExists))
        } else {
            (self.created(id), Ok(()))
        }
    }

    /// The seeds of `id` in the order of their arrival; none where `id` is
    /// unknown.
    pub open spec fn list_seeds(self, id: ProposalId) -> Seq<SeedModel> {
        history(self.seeds, id)
    }

    /// The processed values of `id` in the order of their arrival; none
    /// where `id` is unknown.
    pub open spec fn list_values(self, id: ProposalId) -> Seq<ValueModel> {
        history(self.values, id)
    }

    /// The store after `seed` was appended to the seeds of `id`.
    pub open spec fn append_seed(self, id: ProposalId, seed: SeedModel) -> StoreModel {
        StoreModel { seeds: self.seeds.insert(id, self.list_seeds(id).push(seed)), values: self.values }
    }

    /// The store after `value` was appended to the processed values of `id`.
    pub open spec fn append_value(self, id: ProposalId, value: ValueModel) -> StoreModel {
        StoreModel {
            seeds: self.seeds,
            values: self.values.insert(id, self.list_values(id).push(value)),
        }
    }
}

/// The histories of all proposals.
pub struct ProposalStore {
    seeds: Table<QuantumSeed>,
    values: Table<ProcessedValue>,
}

impl View for ProposalStore {
    type V = StoreModel;

    closed spec fn view(&self) -> StoreModel {
        StoreModel { seeds: self.seeds.entries(), values: self.values.entries() }
    }
}

impl ProposalStore {
    /// A store without proposals.
    pub fn new() -> (store: Self)
        ensures
            store@ == StoreModel::empty(),
    {
        ProposalStore { seeds: Table::new(), values: Table::new() }
    }

    /// The store that holds the given histories of `id` and nothing else.
    /// A history that is not given is absent, which is not the same as
    /// empty: a proposal with an empty history is known.
    pub fn restore(
        id: ProposalId,
        seeds: Option<Vec<QuantumSeed>>,
        values: Option<Vec<ProcessedValue>>,
    ) -> (store: Self)
        ensures
            store@ == (StoreModel {
                seeds: restored(id, given(seeds)),
                values: restored(id, given(values)),
            }),
    {
        ProposalStore { seeds: Table::restore(id, seeds), values: Table::restore(id, values) }
    }

    /// Whether `id` has a history of either kind.
    pub fn knows(&self, id: &ProposalId) -> (known: bool)
        ensures
            known == self@.knows(*id),
    {
        self.seeds.contains(id) || self.values.contains(id)
    }

    /// Gives `id` its two empty histories. A proposal that has a history
    /// already is refused, and the store stays as it was.
    pub fn init_proposal(&mut self, id: ProposalId) -> (outcome: Result<(), ProxyError>)
        ensures
            final(self)@ == old(self)@.init_proposal(id).0,
            outcome == old(self)@.init_proposal(id).1,
    {
        if self.knows(&id) {
            Err(ProxyError::ProposalAlreadyExists)
        } else {
            let _ = self.seeds.create(id);
            let _ = self.values.create(id);
            Ok(())
        }
    }

    /// Appends `seed` to the seeds of `id`. A proposal without seeds gets
    /// this one as its first; the processed values are not touched.
    pub fn append_seed(&mut self, id: ProposalId, seed: QuantumSeed) -> (outcome: Result<
        (),
        ProxyError,
    >)
        ensures
            outcome is Ok,
            final(self)@ == old(self)@.append_seed(id, seed@),
    {
        self.seeds.append(id, seed);
        Ok(())
    }

    /// Appends `value` to the processed values of `id`. A proposal without
    /// processed values gets this one as its first; the seeds are not
    /// touched.
    pub fn append_value(&mut self, id: ProposalId, value: ProcessedValue) -> (outcome: Result<
        (),
        ProxyError,
    >)
        ensures
            outcome is Ok,
            final(self)@ == old(self)@.append_value(id, value@),
    {
        self.values.append(id, value);
        Ok(())
    }

    /// The seeds of `id`, oldest first; none for a proposal without seeds.
    pub fn list_seeds(&self, id: &ProposalId) -> (seeds: Vec<QuantumSeed>)
        ensures
            models(seeds@) == self@.list_seeds(*id),
    {
        match self.seeds.get(id) {
            Some(items) => copy_seeds(items),
            None => {
                let seeds: Vec<QuantumSeed> = Vec::new();
                assert(models(seeds@) =~= Seq::<SeedModel>::empty());
                seeds
            },
        }
    }

    /// The processed values of `id`, oldest first; none for a proposal
    /// without processed values.
    pub fn list_values(&self, id: &ProposalId) -> (values: Vec<ProcessedValue>)
        ensures
            models(values@) == self@.list_values(*id),
    {
        match self.values.get(id) {
            Some(items) => copy_values(items),
            None => {
                let values: Vec<ProcessedValue> = Vec::new();
                assert(models(values@) =~= Seq::<ValueModel>::empty());
                values
            },
        }
    }
}

/// A copy of each seed, in the same order.
fn copy_seeds(items: &Vec<QuantumSeed>) -> (copies: Vec<QuantumSeed>)
    ensures
        models(copies@) == models(items@),
{
    let mut copies: Vec<QuantumSeed> = Vec::new();
    let mut at: usize = 0;
    while at < items.len()
        invariant
            at <= items@.len(),
            copies@.len() == at,
            forall|k: int| 0 <= k < at ==> copies@[k]@ == items@[k]@,
        decreases items@.len() - at,
    {
        copies.push(items[at].clone());
        at += 1;
    }
    assert(models(copies@) =~= models(items@));
    copies
}

/// A copy of each processed value, in the same order.
fn copy_values(items: &Vec<ProcessedValue>) -> (copies: Vec<ProcessedValue>)
    ensures
        models(copies@) == models(items@),
{
    let mut copies: Vec<ProcessedValue> = Vec::new();
    let mut at: usize = 0;
    while at < items.len()
        invariant
            at <= items@.len(),
            copies@.len() == at,
            forall|k: int| 0 <= k < at ==> copies@[k]@ == items@[k]@,
        decreases items@.len() - at,
    {
        copies.push(items[at].clone());
        at += 1;
    }
    assert(models(copies@) =~= models(items@));
    copies
}

} // verus!

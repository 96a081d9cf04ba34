//! The life of a proposal: described, registered, approved, and fed with
//! seeds and processed values.
//!
//! The governance service and the observers of events are reached by the
//! caller. Each operation here takes what the service answered and returns
//! the event that the caller has to emit.

use vstd::prelude::*;
use calimero_sdk::env::ext::ProposalId;
use crate::dispatch::{describes, dispatch, spec_dispatch, string_members, ProposalCall};
use crate::store::{ProposalStore, StoreModel};
use crate::table::restored;
use crate::types::{
    given, models, CreateRandomRequest, Event, EventModel, ProcessedValue, ProxyError, QuantumSeed,
};

verus! {

/// The state of the application: the histories of all proposals.
pub struct RandomProxyState {
    store: ProposalStore,
}

impl View for RandomProxyState {
    type V = StoreModel;

    closed spec fn view(&self) -> StoreModel {
        self.store@
    }
}

/// What registering `id` returns on a store that holds `before`: the
/// identifier itself, or the refusal of a proposal that exists already.
pub open spec fn spec_registered(before: StoreModel, id: ProposalId) -> Result<
    ProposalId,
    ProxyError,
> {
    match before.init_proposal(id).1 {
        Ok(_) => Ok(id),
        Err(error) => Err(error),
    }
}

impl RandomProxyState {
    /// The state without proposals.
    pub fn init() -> (state: RandomProxyState)
        ensures
            state@ == StoreModel::empty(),
    {
        RandomProxyState { store: ProposalStore::new() }
    }

    /// The state that holds the given histories of `id` and nothing else:
    /// what a caller that keeps the histories elsewhere hands in before an
    /// operation on `id`.
    pub fn restore(
        id: ProposalId,
        seeds: Option<Vec<QuantumSeed>>,
        values: Option<Vec<ProcessedValue>>,
    ) -> (state: RandomProxyState)
        ensures
            state@ == (StoreModel {
                seeds: restored(id, given(seeds)),
                values: restored(id, given(values)),
            }),
    {
        RandomProxyState { store: ProposalStore::restore(id, seeds, values) }
    }

    /// The first step of creating a proposal: validates `request` and
    /// returns the call that the caller is to propose to the governance
    /// service. The state is only read.
    pub fn create_new_proposal(&self, request: CreateRandomRequest) -> (outcome: Result<
        ProposalCall,
        ProxyError,
    >)
        ensures
            match spec_dispatch(request.action_type@, string_members(request.params)) {
                Some(expected) => describes(outcome, expected),
                None => outcome == Err::<ProposalCall, ProxyError>(
                    ProxyError::UnsupportedActionType,
                ),
            },
    {
        dispatch(&request)
    }

    /// The second step of creating a proposal, once the governance service
    /// has assigned `id`: returns the event that announces the proposal,
    /// which is due whatever follows, and gives the proposal its two empty
    /// histories. Where `id` has a history already the state stays as it was
    /// and the outcome is the refusal.
    pub fn proposal_created(&mut self, id: ProposalId) -> (report: (
        Event,
        Result<ProposalId, ProxyError>,
    ))
        ensures
            report.0@ == (EventModel::ProposalCreated { id }),
            report.1 == spec_registered(old(self)@, id),
            final(self)@ == old(self)@.init_proposal(id).0,
    {
        let event = Event::ProposalCreated { id };
        match self.store.init_proposal(id) {
            Ok(_) => (event, Ok(id)),
            Err(error) => (event, Err(error)),
        }
    }

    /// Called once the governance service has taken the approval of `id`:
    /// returns the event that announces it. The state is only read, and
    /// `id` need not be known here.
    pub fn approve_proposal(&self, id: ProposalId) -> (outcome: Result<Event, ProxyError>)
        ensures
            outcome matches Ok(event) && event@ == (EventModel::ApprovedProposal { id }),
    {
        Ok(Event::ApprovedProposal { id })
    }

    /// The seeds of `id`, oldest first; none for an unknown proposal, which
    /// is no error.
    pub fn get_quantum_seeds(&self, id: ProposalId) -> (outcome: Result<
        Vec<QuantumSeed>,
        ProxyError,
    >)
        ensures
            outcome matches Ok(seeds) && models(seeds@) == self@.list_seeds(id),
    {
        Ok(self.store.list_seeds(&id))
    }

    /// The processed values of `id`, oldest first; none for an unknown
    /// proposal, which is no error.
    pub fn get_processed_values(&self, id: ProposalId) -> (outcome: Result<
        Vec<ProcessedValue>,
        ProxyError,
    >)
        ensures
            outcome matches Ok(values) && models(values@) == self@.list_values(id),
    {
        Ok(self.store.list_values(&id))
    }

    /// Records `seed` as the newest seed of `id`. No event is due.
    pub fn store_quantum_seed(&mut self, id: ProposalId, seed: QuantumSeed) -> (outcome: Result<
        (),
        ProxyError,
    >)
        ensures
            outcome is Ok,
            final(self)@ == old(self)@.append_seed(id, seed@),
    {
        self.store.append_seed(id, seed)
    }

    /// Records `value` as the newest processed value of `id` and returns the
    /// one event that is due for it, which names the proposal and the
    /// value's node.
    pub fn store_processed_value(&mut self, id: ProposalId, value: ProcessedValue) -> (outcome:
        Result<Event, ProxyError>)
        ensures
            final(self)@ == old(self)@.append_value(id, value@),
            outcome matches Ok(event) && event@ == (EventModel::SeedProcessed {
                id,
                node: value.node@,
            }),
    {
        let node = value.node.clone();
        match self.store.append_value(id, value) {
            Ok(_) => Ok(Event::SeedProcessed { id, node }),
            Err(error) => Err(error),
        }
    }
}

} // verus!

//! The records, requests, events and errors that the library speaks of.

use vstd::prelude::*;

verus! {

/// `calimero_sdk::env::ext::ProposalId`, the identifier that the governance
/// service assigns to a proposal. It is carried through as it is; two
/// identifiers are compared by `same_proposal` alone.
#[verifier::external_type_specification]
#[verifier::external_body]
pub struct ExProposalId(calimero_sdk::env::ext::ProposalId);

/// `serde_json::Value`, the payload of a request. What it holds is read
/// through `string_members` alone.
#[verifier::external_type_specification]
#[verifier::external_body]
pub struct ExJsonValue(serde_json::Value);

/// One random-seed contribution to a proposal.
#[derive(Debug, PartialEq, Eq)]
pub struct QuantumSeed {
    pub id: String,
    pub proposal_id: String,
    pub seed_value: Vec<u8>,
    pub created_at: String,
}

/// What a `QuantumSeed` holds, as mathematical values.
pub struct SeedModel {
    pub id: Seq<char>,
    pub proposal_id: Seq<char>,
    pub seed_value: Seq<u8>,
    pub created_at: Seq<char>,
}

impl View for QuantumSeed {
    type V = SeedModel;

    open spec fn view(&self) -> SeedModel {
        SeedModel {
            id: self.id@,
            proposal_id: self.proposal_id@,
            seed_value: self.seed_value@,
            created_at: self.created_at@,
        }
    }
}

impl Clone for QuantumSeed {
    fn clone(&self) -> (copy: Self)
        ensures
            copy@ == self@,
    {
        QuantumSeed {
            id: self.id.clone(),
            proposal_id: self.proposal_id.clone(),
            seed_value: self.seed_value.clone(),
            created_at: self.created_at.clone(),
        }
    }
}

/// The output that one node computed for a proposal.
#[derive(Debug, PartialEq, Eq)]
pub struct ProcessedValue {
    pub node: String,
    pub value: Vec<u8>,
    pub sequence: u64,
}

/// What a `ProcessedValue` holds, as mathematical values.
pub struct ValueModel {
    pub node: Seq<char>,
    pub value: Seq<u8>,
    pub sequence: u64,
}

impl View for ProcessedValue {
    type V = ValueModel;

    open spec fn view(&self) -> ValueModel {
        ValueModel { node: self.node@, value: self.value@, sequence: self.sequence }
    }
}

impl Clone for ProcessedValue {
    fn clone(&self) -> (copy: Self)
        ensures
            copy@ == self@,
    {
        ProcessedValue {
            node: self.node.clone(),
            value: self.value.clone(),
            sequence: self.sequence,
        }
    }
}

/// A notification of one step in a proposal's life.
#[derive(Debug, PartialEq, Eq)]
pub enum Event {
    ProposalCreated { id: calimero_sdk::env::ext::ProposalId },
    SeedProcessed { id: calimero_sdk::env::ext::ProposalId, node: String },
    ApprovedProposal { id: calimero_sdk::env::ext::ProposalId },
}

/// What an `Event` holds, as mathematical values.
pub enum EventModel {
    ProposalCreated { id: calimero_sdk::env::ext::ProposalId },
    SeedProcessed { id: calimero_sdk::env::ext::ProposalId, node: Seq<char> },
    ApprovedProposal { id: calimero_sdk::env::ext::ProposalId },
}

impl View for Event {
    type V = EventModel;

    open spec fn view(&self) -> EventModel {
        match *self {
            Event::ProposalCreated { id } => EventModel::ProposalCreated { id },
            Event::SeedProcessed { id, node } => EventModel::SeedProcessed { id, node: node@ },
            Event::ApprovedProposal { id } => EventModel::ApprovedProposal { id },
        }
    }
}

/// A request to propose an action: the action's name and its parameters.
#[derive(Debug)]
pub struct CreateRandomRequest {
    pub action_type: String,
    pub params: serde_json::Value,
}

/// Why an operation was refused.
#[derive(Clone, Copy, Debug, PartialEq, Eq)]
pub enum ProxyError {
    /// The request lacks the named parameter, or holds it as something other
    /// than a string.
    MissingParameter(&'static str),
    /// The request names an action that the library does not know.
    UnsupportedActionType,
    /// The proposal already has its histories.
    ProposalAlreadyExists,
}

/// The items of `items`, each as its model.
pub open spec fn models<T: View>(items: Seq<T>) -> Seq<T::V> {
    items.map_values(|item: T| item@)
}

/// The models of a history that may be absent.
pub open spec fn given<T: View>(items: Option<Vec<T>>) -> Option<Seq<T::V>> {
    match items {
        Some(history) => Some(models(history@)),
        None => None,
    }
}

/// Whether two identifiers are the same, by `ProposalId`'s own `==`, which
/// compares the 32 bytes that an identifier is made of. Identifiers of the
/// same bytes are one identifier.
#[verifier::external_body]
pub(crate) fn same_proposal(
    left: &calimero_sdk::env::ext::ProposalId,
    right: &calimero_sdk::env::ext::ProposalId,
) -> (same: bool)
    ensures
        same == (*left == *right),
{
    left == right
}

} // verus!

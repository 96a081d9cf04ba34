use calimero_sdk::env::ext::ProposalId;
use random_proxy::dispatch::ProposalCall;
use random_proxy::state::RandomProxyState;
use random_proxy::store::ProposalStore;
use random_proxy::types::{CreateRandomRequest, Event, ProcessedValue, ProxyError, QuantumSeed};
use serde_json::Value;

fn pid(byte: u8) -> ProposalId {
    ProposalId([byte; 32])
}

fn seed(id: &str, proposal: &str, bytes: &[u8], at: &str) -> QuantumSeed {
    QuantumSeed {
        id: id.to_string(),
        proposal_id: proposal.to_string(),
        seed_value: bytes.to_vec(),
        created_at: at.to_string(),
    }
}

fn value(node: &str, bytes: &[u8], sequence: u64) -> ProcessedValue {
    ProcessedValue { node: node.to_string(), value: bytes.to_vec(), sequence }
}

#[test]
fn new_store_lists_nothing() {
    let store = ProposalStore::new();
    assert!(!store.knows(&pid(1)));
    assert_eq!(store.list_seeds(&pid(1)), vec![]);
    assert_eq!(store.list_values(&pid(1)), vec![]);
}

#[test]
fn init_proposal_succeeds_once() {
    let mut store = ProposalStore::new();
    assert_eq!(store.init_proposal(pid(1)), Ok(()));
    assert!(store.knows(&pid(1)));
    assert_eq!(store.init_proposal(pid(1)), Err(ProxyError::ProposalAlreadyExists));
    assert!(store.knows(&pid(1)));
    assert_eq!(store.list_seeds(&pid(1)), vec![]);
    assert_eq!(store.list_values(&pid(1)), vec![]);
}

#[test]
fn refused_init_keeps_histories() {
    let mut store = ProposalStore::new();
    assert_eq!(store.init_proposal(pid(1)), Ok(()));
    assert_eq!(store.append_seed(pid(1), seed("s1", "p", &[1], "T0")), Ok(()));
    assert_eq!(store.append_value(pid(1), value("n1", &[2], 5)), Ok(()));
    assert_eq!(store.init_proposal(pid(1)), Err(ProxyError::ProposalAlreadyExists));
    assert_eq!(store.list_seeds(&pid(1)), vec![seed("s1", "p", &[1], "T0")]);
    assert_eq!(store.list_values(&pid(1)), vec![value("n1", &[2], 5)]);
}

#[test]
fn identifiers_are_told_apart_by_their_bytes() {
    let mut store = ProposalStore::new();
    let mut almost = [1u8; 32];
    almost[31] = 2;
    assert_eq!(store.init_proposal(pid(1)), Ok(()));
    assert_eq!(store.init_proposal(ProposalId(almost)), Ok(()));
    assert_eq!(store.init_proposal(ProposalId([1u8; 32])), Err(ProxyError::ProposalAlreadyExists));
    assert_eq!(store.append_seed(ProposalId(almost), seed("a", "p", &[], "T")), Ok(()));
    assert_eq!(store.list_seeds(&pid(1)), vec![]);
    assert_eq!(store.list_seeds(&ProposalId(almost)), vec![seed("a", "p", &[], "T")]);
}

#[test]
fn created_proposal_has_both_histories_empty() {
    let mut store = ProposalStore::new();
    assert_eq!(store.init_proposal(pid(9)), Ok(()));
    assert_eq!(store.list_seeds(&pid(9)), vec![]);
    assert_eq!(store.list_values(&pid(9)), vec![]);
}

#[test]
fn seeds_are_listed_in_append_order() {
    let mut store = ProposalStore::new();
    assert_eq!(store.init_proposal(pid(3)), Ok(()));
    let s1 = seed("s1", "third", &[3, 1], "T1");
    let s2 = seed("s2", "third", &[3, 2], "T2");
    let s3 = seed("s3", "third", &[3, 3], "T3");
    assert_eq!(store.append_seed(pid(3), s1.clone()), Ok(()));
    assert_eq!(store.append_seed(pid(3), s2.clone()), Ok(()));
    assert_eq!(store.append_seed(pid(3), s3.clone()), Ok(()));
    assert_eq!(store.list_seeds(&pid(3)), vec![s1, s2, s3]);
    assert_eq!(store.list_values(&pid(3)), vec![]);
}

#[test]
fn values_are_listed_in_append_order() {
    let mut store = ProposalStore::new();
    assert_eq!(store.init_proposal(pid(3)), Ok(()));
    let v1 = value("n1", &[1], 9);
    let v2 = value("n2", &[2], 9);
    let v3 = value("n1", &[3], 1);
    assert_eq!(store.append_value(pid(3), v1.clone()), Ok(()));
    assert_eq!(store.append_value(pid(3), v2.clone()), Ok(()));
    assert_eq!(store.append_value(pid(3), v3.clone()), Ok(()));
    assert_eq!(store.list_values(&pid(3)), vec![v1, v2, v3]);
    assert_eq!(store.list_seeds(&pid(3)), vec![]);
}

#[test]
fn appends_to_different_proposals_do_not_mix() {
    let mut store = ProposalStore::new();
    assert_eq!(store.init_proposal(pid(1)), Ok(()));
    assert_eq!(store.init_proposal(pid(2)), Ok(()));
    assert_eq!(store.append_seed(pid(1), seed("a", "1", &[1], "T")), Ok(()));
    assert_eq!(store.append_seed(pid(2), seed("b", "2", &[2], "T")), Ok(()));
    assert_eq!(store.append_seed(pid(1), seed("c", "1", &[3], "T")), Ok(()));
    assert_eq!(
        store.list_seeds(&pid(1)),
        vec![seed("a", "1", &[1], "T"), seed("c", "1", &[3], "T")]
    );
    assert_eq!(store.list_seeds(&pid(2)), vec![seed("b", "2", &[2], "T")]);
}

#[test]
fn unknown_proposal_lists_empty() {
    let mut store = ProposalStore::new();
    assert_eq!(store.init_proposal(pid(1)), Ok(()));
    assert_eq!(store.append_seed(pid(1), seed("a", "1", &[1], "T")), Ok(()));
    assert_eq!(store.list_seeds(&pid(200)), vec![]);
    assert_eq!(store.list_values(&pid(200)), vec![]);
    let state = RandomProxyState::init();
    assert_eq!(state.get_quantum_seeds(pid(200)), Ok(vec![]));
    assert_eq!(state.get_processed_values(pid(200)), Ok(vec![]));
}

#[test]
fn first_append_starts_a_history() {
    let mut store = ProposalStore::new();
    assert_eq!(store.append_seed(pid(5), seed("a", "5", &[1], "T")), Ok(()));
    assert_eq!(store.list_seeds(&pid(5)), vec![seed("a", "5", &[1], "T")]);
    assert_eq!(store.list_values(&pid(5)), vec![]);
    assert!(store.knows(&pid(5)));
    assert_eq!(store.init_proposal(pid(5)), Err(ProxyError::ProposalAlreadyExists));
    assert_eq!(store.append_value(pid(6), value("n", &[], 0)), Ok(()));
    assert_eq!(store.list_values(&pid(6)), vec![value("n", &[], 0)]);
    assert_eq!(store.init_proposal(pid(6)), Err(ProxyError::ProposalAlreadyExists));
}

#[test]
fn sequence_numbers_are_not_checked() {
    let mut state = RandomProxyState::init();
    assert!(state.store_processed_value(pid(1), value("n", &[1], 7)).is_ok());
    assert!(state.store_processed_value(pid(1), value("n", &[2], 7)).is_ok());
    assert!(state.store_processed_value(pid(1), value("n", &[3], 0)).is_ok());
    assert_eq!(
        state.get_processed_values(pid(1)),
        Ok(vec![value("n", &[1], 7), value("n", &[2], 7), value("n", &[3], 0)])
    );
}

#[test]
fn seed_record_need_not_name_its_proposal() {
    let mut state = RandomProxyState::init();
    assert_eq!(state.store_quantum_seed(pid(1), seed("s", "another", &[1], "T")), Ok(()));
    assert_eq!(state.get_quantum_seeds(pid(1)), Ok(vec![seed("s", "another", &[1], "T")]));
}

#[test]
fn stored_value_gives_one_event_with_its_node() {
    let mut state = RandomProxyState::init();
    let (_, created) = state.proposal_created(pid(4));
    assert_eq!(created, Ok(pid(4)));
    let outcome = state.store_processed_value(pid(4), value("node-a", &[9, 9], 1));
    assert_eq!(outcome, Ok(Event::SeedProcessed { id: pid(4), node: "node-a".to_string() }));
    assert_eq!(state.get_processed_values(pid(4)), Ok(vec![value("node-a", &[9, 9], 1)]));
    assert_eq!(state.get_quantum_seeds(pid(4)), Ok(vec![]));
}

#[test]
fn refused_request_changes_nothing() {
    let state = RandomProxyState::init();
    let request = CreateRandomRequest {
        action_type: "SetQuantumSeed".to_string(),
        params: Value::Object(serde_json::Map::new()),
    };
    assert_eq!(
        state.create_new_proposal(request),
        Err(ProxyError::MissingParameter("seed_value"))
    );
    assert_eq!(state.get_quantum_seeds(pid(1)), Ok(vec![]));
}

#[test]
fn colliding_identifier_is_announced_and_refused() {
    let mut state = RandomProxyState::init();
    assert_eq!(
        state.proposal_created(pid(8)),
        (Event::ProposalCreated { id: pid(8) }, Ok(pid(8)))
    );
    assert_eq!(state.store_quantum_seed(pid(8), seed("s", "8", &[8], "T")), Ok(()));
    assert_eq!(
        state.proposal_created(pid(8)),
        (Event::ProposalCreated { id: pid(8) }, Err(ProxyError::ProposalAlreadyExists))
    );
    assert_eq!(state.get_quantum_seeds(pid(8)), Ok(vec![seed("s", "8", &[8], "T")]));
}

#[test]
fn approval_of_unknown_proposal_is_announced() {
    let state = RandomProxyState::init();
    assert_eq!(state.approve_proposal(pid(77)), Ok(Event::ApprovedProposal { id: pid(77) }));
    assert_eq!(state.get_quantum_seeds(pid(77)), Ok(vec![]));
    assert_eq!(state.get_processed_values(pid(77)), Ok(vec![]));
}

#[test]
fn proposal_from_request_to_approval() {
    let mut state = RandomProxyState::init();
    let mut params = serde_json::Map::new();
    params.insert("seed_value".to_string(), Value::String("abc123".to_string()));
    let request = CreateRandomRequest {
        action_type: "SetQuantumSeed".to_string(),
        params: Value::Object(params),
    };
    let call = state.create_new_proposal(request);
    assert_eq!(
        call,
        Ok(ProposalCall {
            receiver: "random_chain".to_string(),
            method: "set_seed".to_string(),
            args: "abc123".to_string(),
            deposit: 0,
        })
    );

    let id = pid(42);
    let (event, outcome) = state.proposal_created(id);
    assert_eq!(event, Event::ProposalCreated { id });
    assert_eq!(outcome, Ok(id));
    assert_eq!(state.get_quantum_seeds(id), Ok(vec![]));
    assert_eq!(state.get_processed_values(id), Ok(vec![]));

    let recorded = seed("s1", "42", &[0x61, 0x62, 0x63], "T0");
    assert_eq!(state.store_quantum_seed(id, recorded.clone()), Ok(()));
    assert_eq!(state.get_quantum_seeds(id), Ok(vec![recorded.clone()]));

    assert_eq!(state.approve_proposal(id), Ok(Event::ApprovedProposal { id }));
    assert_eq!(state.get_quantum_seeds(id), Ok(vec![recorded]));
    assert_eq!(state.get_processed_values(id), Ok(vec![]));
}

#[test]
fn copies_are_equal_to_their_source() {
    let s = seed("s1", "p", &[1, 2, 3], "T0");
    assert_eq!(s.clone(), s);
    let v = value("n", &[4, 5], u64::MAX);
    assert_eq!(v.clone(), v);
}

#[test]
fn restored_state_holds_the_given_histories() {
    let seeds = vec![seed("a", "1", &[1], "T"), seed("b", "1", &[2], "U")];
    let mut state = RandomProxyState::restore(pid(1), Some(seeds.clone()), None);
    assert_eq!(state.get_quantum_seeds(pid(1)), Ok(seeds.clone()));
    assert_eq!(state.get_processed_values(pid(1)), Ok(vec![]));
    assert_eq!(state.get_quantum_seeds(pid(2)), Ok(vec![]));
    assert_eq!(
        state.proposal_created(pid(1)),
        (Event::ProposalCreated { id: pid(1) }, Err(ProxyError::ProposalAlreadyExists))
    );
    assert_eq!(state.store_quantum_seed(pid(1), seed("c", "1", &[3], "V")), Ok(()));
    assert_eq!(
        state.get_quantum_seeds(pid(1)),
        Ok(vec![seed("a", "1", &[1], "T"), seed("b", "1", &[2], "U"), seed("c", "1", &[3], "V")])
    );
}

#[test]
fn restored_empty_history_is_known_and_absent_history_is_not() {
    let mut known = ProposalStore::restore(pid(1), None, Some(vec![]));
    assert!(known.knows(&pid(1)));
    assert_eq!(known.init_proposal(pid(1)), Err(ProxyError::ProposalAlreadyExists));
    let mut unknown = ProposalStore::restore(pid(1), None, None);
    assert!(!unknown.knows(&pid(1)));
    assert_eq!(unknown.init_proposal(pid(1)), Ok(()));
    let values = vec![value("n", &[1], 3)];
    let held = ProposalStore::restore(pid(2), None, Some(values.clone()));
    assert_eq!(held.list_values(&pid(2)), values);
    assert_eq!(held.list_seeds(&pid(2)), vec![]);
}

#[test]
fn operation_on_one_proposals_part_matches_the_whole() {
    let mut whole = ProposalStore::new();
    assert_eq!(whole.init_proposal(pid(1)), Ok(()));
    assert_eq!(whole.init_proposal(pid(2)), Ok(()));
    assert_eq!(whole.append_seed(pid(1), seed("a", "1", &[1], "T")), Ok(()));
    assert_eq!(whole.append_value(pid(2), value("n", &[7], 1)), Ok(()));

    let mut part = ProposalStore::restore(
        pid(1),
        Some(whole.list_seeds(&pid(1))),
        Some(whole.list_values(&pid(1))),
    );
    assert_eq!(part.knows(&pid(1)), whole.knows(&pid(1)));
    assert_eq!(part.append_seed(pid(1), seed("b", "1", &[2], "U")), Ok(()));
    assert_eq!(whole.append_seed(pid(1), seed("b", "1", &[2], "U")), Ok(()));
    assert_eq!(part.list_seeds(&pid(1)), whole.list_seeds(&pid(1)));
    assert_eq!(part.list_values(&pid(1)), whole.list_values(&pid(1)));
    assert_eq!(part.init_proposal(pid(1)), whole.init_proposal(pid(1)));
    assert_eq!(part.list_values(&pid(2)), vec![]);
}

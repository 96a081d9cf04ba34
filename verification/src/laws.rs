//! What holds of the store over several operations.

use vstd::prelude::*;
use calimero_sdk::env::ext::ProposalId;
use crate::dispatch::{spec_dispatch, CallModel};
use crate::store::StoreModel;
use crate::types::{ProxyError, SeedModel, ValueModel};

verus! {

/// A proposal is initialised at most once: the first attempt succeeds
/// exactly where the proposal was unknown, and a second attempt is always
/// refused as a proposal that exists already and leaves the store as the
/// first attempt left it.
pub proof fn law_init_once(store: StoreModel, id: ProposalId)
    ensures
        store.init_proposal(id).1 is Ok <==> !store.knows(id),
        store.init_proposal(id).0.init_proposal(id) == (
            store.init_proposal(id).0,
            Err::<(), ProxyError>(ProxyError::ProposalAlreadyExists),
        ),
{
    let after = store.init_proposal(id).0;
    if !store.knows(id) {
        assert(after.seeds.contains_key(id));
    }
    assert(after.knows(id));
}

/// A refused initialisation changes nothing.
pub proof fn law_refusal_keeps_store(store: StoreModel, id: ProposalId)
    requires
        store.init_proposal(id).1 is Err,
    ensures
        store.init_proposal(id).0 == store,
{
}

/// Right after a proposal was initialised it has both histories, and both
/// are empty.
pub proof fn law_joint_creation(store: StoreModel, id: ProposalId)
    requires
        store.init_proposal(id).1 is Ok,
    ensures
        store.init_proposal(id).0.holds(id),
        store.init_proposal(id).0.list_seeds(id) == Seq::<SeedModel>::empty(),
        store.init_proposal(id).0.list_values(id) == Seq::<ValueModel>::empty(),
{
}

/// Initialising one proposal leaves the histories of every other proposal
/// as they were.
pub proof fn law_init_is_local(store: StoreModel, id: ProposalId, other: ProposalId)
    requires
        other != id,
    ensures
        store.init_proposal(id).0.list_seeds(other) == store.list_seeds(other),
        store.init_proposal(id).0.list_values(other) == store.list_values(other),
        store.init_proposal(id).0.knows(other) == store.knows(other),
{
}

/// Seeds appended to one proposal are listed after those that it had, in
/// the order in which they were appended.
pub proof fn law_seed_order(
    store: StoreModel,
    id: ProposalId,
    first: SeedModel,
    second: SeedModel,
    third: SeedModel,
)
    ensures
        store.append_seed(id, first).append_seed(id, second).append_seed(id, third).list_seeds(id)
            == store.list_seeds(id).push(first).push(second).push(third),
{
}

/// Processed values appended to one proposal are listed after those that it
/// had, in the order in which they were appended.
pub proof fn law_value_order(
    store: StoreModel,
    id: ProposalId,
    first: ValueModel,
    second: ValueModel,
    third: ValueModel,
)
    ensures
        store.append_value(id, first).append_value(id, second).append_value(id, third).list_values(
            id,
        ) == store.list_values(id).push(first).push(second).push(third),
{
}

/// Three seeds appended to a proposal that was just initialised are exactly
/// its seeds, in their order.
pub proof fn law_seed_order_from_creation(
    store: StoreModel,
    id: ProposalId,
    first: SeedModel,
    second: SeedModel,
    third: SeedModel,
)
    requires
        store.init_proposal(id).1 is Ok,
    ensures
        store.init_proposal(id).0.append_seed(id, first).append_seed(id, second).append_seed(
            id,
            third,
        ).list_seeds(id) == seq![first, second, third],
{
    let listed = store.init_proposal(id).0.append_seed(id, first).append_seed(
        id,
        second,
    ).append_seed(id, third).list_seeds(id);
    assert(listed =~= seq![first, second, third]);
}

/// Histories only grow: after an append the earlier seeds of every proposal
/// are still listed, in their places.
pub proof fn law_seeds_are_kept(
    store: StoreModel,
    id: ProposalId,
    seed: SeedModel,
    other: ProposalId,
)
    ensures
        store.list_seeds(other).is_prefix_of(store.append_seed(id, seed).list_seeds(other)),
        store.append_seed(id, seed).list_values(other) == store.list_values(other),
        other != id ==> store.append_seed(id, seed).list_seeds(other) == store.list_seeds(other),
{
}

/// Histories only grow: after an append the earlier processed values of
/// every proposal are still listed, in their places.
pub proof fn law_values_are_kept(
    store: StoreModel,
    id: ProposalId,
    value: ValueModel,
    other: ProposalId,
)
    ensures
        store.list_values(other).is_prefix_of(store.append_value(id, value).list_values(other)),
        store.append_value(id, value).list_seeds(other) == store.list_seeds(other),
        other != id ==> store.append_value(id, value).list_values(other) == store.list_values(
            other,
        ),
{
}

/// A proposal without a history is listed as empty.
pub proof fn law_absence_is_empty(store: StoreModel, id: ProposalId)
    requires
        !store.knows(id),
    ensures
        store.list_seeds(id) == Seq::<SeedModel>::empty(),
        store.list_values(id) == Seq::<ValueModel>::empty(),
        StoreModel::empty().list_seeds(id) == Seq::<SeedModel>::empty(),
        StoreModel::empty().list_values(id) == Seq::<ValueModel>::empty(),
{
}

/// An operation on one proposal reads and changes the histories of that
/// proposal alone: made on the part of the store that concerns the
/// proposal, it answers the same and leaves that part as it would be after
/// the operation on the whole store.
pub proof fn law_one_proposal_suffices(
    store: StoreModel,
    id: ProposalId,
    seed: SeedModel,
    value: ValueModel,
)
    ensures
        store.only(id).knows(id) == store.knows(id),
        store.only(id).list_seeds(id) == store.list_seeds(id),
        store.only(id).list_values(id) == store.list_values(id),
        store.only(id).init_proposal(id).1 == store.init_proposal(id).1,
        store.only(id).init_proposal(id).0 == store.init_proposal(id).0.only(id),
        store.only(id).append_seed(id, seed) == store.append_seed(id, seed).only(id),
        store.only(id).append_value(id, value) == store.append_value(id, value).only(id),
{
    let part = store.only(id);
    assert(part.init_proposal(id).0.seeds =~= store.init_proposal(id).0.only(id).seeds);
    assert(part.init_proposal(id).0.values =~= store.init_proposal(id).0.only(id).values);
    assert(part.append_seed(id, seed).seeds =~= store.append_seed(id, seed).only(id).seeds);
    assert(part.append_seed(id, seed).values =~= store.append_seed(id, seed).only(id).values);
    assert(part.append_value(id, value).seeds =~= store.append_value(id, value).only(id).seeds);
    assert(part.append_value(id, value).values =~= store.append_value(id, value).only(id).values);
}

/// A request is validated before anything else happens: a known action
/// whose parameter is not among the string members of the payload is
/// refused with that parameter's name, and an action of another name is
/// refused whatever the payload holds.
pub proof fn law_dispatch_validates(members: Map<Seq<char>, Seq<char>>)
    ensures
        !members.contains_key("seed_value"@) ==> spec_dispatch("SetQuantumSeed"@, members) == Some(
            Err::<CallModel, Seq<char>>("seed_value"@),
        ),
        !members.contains_key("node"@) ==> spec_dispatch("ProcessValue"@, members) == Some(
            Err::<CallModel, Seq<char>>("node"@),
        ),
        spec_dispatch("Bogus"@, members) is None,
        spec_dispatch(Seq::empty(), members) is None,
{
    reveal_strlit("SetQuantumSeed");
    reveal_strlit("ProcessValue");
    reveal_strlit("Bogus");
    assert("ProcessValue"@.len() != "SetQuantumSeed"@.len());
    assert("Bogus"@.len() != "SetQuantumSeed"@.len());
    assert("Bogus"@.len() != "ProcessValue"@.len());
}

} // verus!

//! Laws that relate creating and listing through a model of the store as a
//! map from keys to values.

use vstd::prelude::*;
use crate::create::{store_after_set, CreatePlan};
use crate::list::{listing, within_limit};

verus! {

/// The store after the writes of a run of creations, in order.
pub open spec fn store_after_creates(store: Map<Seq<char>, Seq<char>>, plans: Seq<CreatePlan>) -> Map<
    Seq<char>,
    Seq<char>,
>
    decreases plans.len(),
{
    if plans.len() == 0 {
        store
    } else {
        store_after_set(store_after_creates(store, plans.drop_last()), plans.last().set)
    }
}

/// After a run of creations, each given a username and each under an
/// identifier that no other creation of the run drew, the key of every
/// created user holds exactly the username its creation was given.
pub proof fn lemma_created_users_read_back(
    store: Map<Seq<char>, Seq<char>>,
    usernames: Seq<Seq<char>>,
    plans: Seq<CreatePlan>,
)
    requires
        plans.len() == usernames.len(),
        forall|i: int| 0 <= i < plans.len() ==> #[trigger] plans[i].wf() && plans[i].user.username@ == usernames[i],
        forall|i: int, j: int|
            0 <= i < plans.len() && 0 <= j < plans.len() && i != j ==> plans[i].user.id@ != plans[j].user.id@,
    ensures
        forall|i: int|
            0 <= i < plans.len() ==> store_after_creates(store, plans).contains_key(#[trigger] plans[i].user.id@)
                && store_after_creates(store, plans)[plans[i].user.id@] == usernames[i],
    decreases plans.len(),
{
    if plans.len() > 0 {
        let n = plans.len() - 1;
        let front = plans.drop_last();
        lemma_created_users_read_back(store, usernames.drop_last(), front);
        assert forall|i: int| 0 <= i < plans.len() implies store_after_creates(store, plans).contains_key(
            #[trigger] plans[i].user.id@,
        ) && store_after_creates(store, plans)[plans[i].user.id@] == usernames[i] by {
            assert(plans[n].wf());
            if i < n {
                assert(front[i] == plans[i]);
                assert(plans[i].user.id@ != plans[n].user.id@);
            }
        }
    }
}

/// A user that was created and whose key is among the keys a listing
/// covers, in a listing whose fetches the store answered after the write,
/// comes back from the listing with the username it was created with.
pub proof fn lemma_created_user_listed(
    store: Map<Seq<char>, Seq<char>>,
    plan: CreatePlan,
    enumerated: Seq<Seq<char>>,
    limit: nat,
    values: Seq<Seq<char>>,
)
    requires
        plan.wf(),
        within_limit(enumerated, limit).contains(plan.user.id@),
        values.len() == within_limit(enumerated, limit).len(),
        forall|i: int|
            0 <= i < values.len() ==> #[trigger] values[i] == store_after_set(store, plan.set)[within_limit(
                enumerated,
                limit,
            )[i]],
    ensures
        listing(within_limit(enumerated, limit), values).contains(plan.user@),
{
    let keys = within_limit(enumerated, limit);
    let i = choose|i: int| 0 <= i < keys.len() && keys[i] == plan.user.id@;
    assert(values[i] == store_after_set(store, plan.set)[keys[i]]);
    assert(listing(keys, values)[i] == plan.user@);
}

/// A listing never holds more users than its limit, however many keys the
/// store enumerated.
pub proof fn lemma_listing_within_limit(enumerated: Seq<Seq<char>>, limit: nat, values: Seq<Seq<char>>)
    ensures
        listing(within_limit(enumerated, limit), values).len() <= limit,
{
}

} // verus!

//! Creating a user: pick an identifier, write one key-value pair, report the
//! user or the write error.

use vstd::prelude::*;
use crate::ident::{is_v4_text, new_user_id};
use crate::user::{StoreFault, User, UserError};

verus! {

/// The single write that stores a user: `SET key value`.
pub struct StoreSet {
    pub key: String,
    pub value: String,
}

/// The store, as a map from keys to values, after the write `set`.
pub open spec fn store_after_set(store: Map<Seq<char>, Seq<char>>, set: StoreSet) -> Map<Seq<char>, Seq<char>> {
    store.insert(set.key@, set.value@)
}

/// A user that is about to be created, with the write that creates it.
pub struct CreatePlan {
    pub user: User,
    pub set: StoreSet,
}

impl CreatePlan {
    /// The write stores the username under the identifier.
    pub open spec fn wf(&self) -> bool {
        &&& self.set.key@ == self.user.id@
        &&& self.set.value@ == self.user.username@
    }

    /// Turns the outcome of the write into the result of the request: the
    /// user when the write went through, the write error otherwise.
    pub fn finish(self, outcome: Result<(), StoreFault>) -> (r: Result<User, UserError>)
        ensures
            outcome is Ok ==> r is Ok && r->Ok_0@ == self.user@,
            outcome is Err ==> r == Err::<User, UserError>(outcome->Err_0.spec_write_error()),
    {
        match outcome {
            Ok(()) => Ok(self.user),
            Err(fault) => Err(fault.write_error()),
        }
    }
}

/// Plans the creation of a user under the given identifier. A request whose
/// body has no username is refused as client input, before any store call.
pub fn plan_create_with_id(username: Option<String>, id: String) -> (r: Result<CreatePlan, UserError>)
    ensures
        username is None <==> r is Err,
        username is None ==> r == Err::<CreatePlan, UserError>(UserError::ClientInput),
        username is Some ==> ({
            let plan = r->Ok_0;
            &&& plan.wf()
            &&& plan.user.id@ == id@
            &&& plan.user.username@ == username->Some_0@
        }),
{
    match username {
        None => Err(UserError::ClientInput),
        Some(name) => {
            let key = id.clone();
            let value = name.clone();
            Ok(CreatePlan { user: User { id, username: name }, set: StoreSet { key, value } })
        },
    }
}

/// Plans the creation of a user under a freshly generated identifier. The
/// identifier is drawn only when the request carries a username.
pub fn create_user(username: Option<String>) -> (r: Result<CreatePlan, UserError>)
    ensures
        username is None <==> r is Err,
        username is None ==> r == Err::<CreatePlan, UserError>(UserError::ClientInput),
        username is Some ==> ({
            let plan = r->Ok_0;
            &&& plan.wf()
            &&& is_v4_text(plan.user.id@)
            &&& plan.user.username@ == username->Some_0@
        }),
{
    match username {
        None => Err(UserError::ClientInput),
        Some(name) => {
            let id = new_user_id();
            plan_create_with_id(Some(name), id)
        },
    }
}

} // verus!

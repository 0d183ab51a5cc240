//! Listing users: enumerate at most `limit` keys, then fetch each value in
//! turn. The two phases are separate store calls, so the listing is not a
//! snapshot; a failed fetch fails the whole listing.
//!
//! The listing runs as a session. The caller performs the store call that
//! each step asks for and feeds the reply back with `on_keys` or `on_value`.

use vstd::prelude::*;
use crate::user::{records_of, StoreFault, User, UserError, UserRecord};

verus! {

#[derive(PartialEq, Eq, Structural, Clone, Copy, Debug)]
pub enum ListStage {
    /// The key enumeration has been asked for.
    AwaitingKeys,
    /// A value has been asked for and more may follow.
    Fetching,
    /// The listing has ended.
    Finished,
}

/// What the caller does next.
#[derive(Debug)]
pub enum ListStep {
    /// Enumerate at most this many keys.
    EnumerateKeys(usize),
    /// Fetch the value stored under this key.
    Fetch(String),
    /// The listing has ended with this result.
    Done(Result<Vec<User>, UserError>),
}

/// The mathematical content of a listing session: the limit, the keys the
/// listing covers, the values fetched so far (one per key, in order), and
/// the stage.
pub struct ListModel {
    pub limit: nat,
    pub keys: Seq<Seq<char>>,
    pub values: Seq<Seq<char>>,
    pub stage: ListStage,
}

pub open spec fn text_of(ks: Seq<String>) -> Seq<Seq<char>> {
    ks.map_values(|k: String| k@)
}

/// The first `limit` keys of an enumeration, or all of them if there are
/// fewer.
pub open spec fn within_limit(keys: Seq<Seq<char>>, limit: nat) -> Seq<Seq<char>> {
    if keys.len() <= limit {
        keys
    } else {
        keys.take(limit as int)
    }
}

/// The records made of keys and the values fetched for them, pairwise.
pub open spec fn listing(keys: Seq<Seq<char>>, values: Seq<Seq<char>>) -> Seq<UserRecord> {
    Seq::new(keys.len(), |i: int| UserRecord { id: keys[i], username: values[i] })
}

impl ListModel {
    pub open spec fn wf(self) -> bool {
        &&& self.values.len() <= self.keys.len() <= self.limit
        &&& self.stage == ListStage::AwaitingKeys ==> self.keys.len() == 0 && self.values.len() == 0
        &&& self.stage == ListStage::Fetching ==> self.values.len() < self.keys.len()
    }
}

/// How many users `GET /users` lists at most.
pub const LIST_LIMIT: usize = 10;

/// Opens the listing behind `GET /users`, bounded by `LIST_LIMIT`.
pub fn get_users() -> (r: (ListSession, ListStep))
    ensures
        r.0.inv(),
        r.0@ == (ListModel {
            limit: LIST_LIMIT as nat,
            keys: Seq::empty(),
            values: Seq::empty(),
            stage: ListStage::AwaitingKeys,
        }),
        r.1 is EnumerateKeys && r.1->EnumerateKeys_0 == LIST_LIMIT,
{
    ListSession::start(LIST_LIMIT)
}

pub struct ListSession {
    limit: usize,
    keys: Vec<String>,
    users: Vec<User>,
    stage: ListStage,
}

impl View for ListSession {
    type V = ListModel;

    closed spec fn view(&self) -> ListModel {
        ListModel {
            limit: self.limit as nat,
            keys: text_of(self.keys@),
            values: self.users@.map_values(|u: User| u.username@),
            stage: self.stage,
        }
    }
}

impl ListSession {
    /// The model is well formed and the users gathered so far carry the keys
    /// they were fetched for.
    pub closed spec fn inv(&self) -> bool {
        &&& self@.wf()
        &&& forall|i: int| 0 <= i < self.users@.len() ==> self.users@[i].id@ == self.keys@[i]@
    }

    /// Opens a listing of at most `limit` users; the first step enumerates
    /// keys.
    pub fn start(limit: usize) -> (r: (ListSession, ListStep))
        ensures
            r.0.inv(),
            r.0@ == (ListModel {
                limit: limit as nat,
                keys: Seq::empty(),
                values: Seq::empty(),
                stage: ListStage::AwaitingKeys,
            }),
            r.1 is EnumerateKeys && r.1->EnumerateKeys_0 == limit,
    {
        let s = ListSession { limit, keys: Vec::new(), users: Vec::new(), stage: ListStage::AwaitingKeys };
        proof {
            assert(s@.keys =~= Seq::empty());
            assert(s@.values =~= Seq::empty());
        }
        (s, ListStep::EnumerateKeys(limit))
    }

    /// The limit the listing was opened with.
    pub fn limit(&self) -> (r: usize)
        ensures
            r == self@.limit,
    {
        self.limit
    }

    /// The stage the listing is in.
    pub fn stage(&self) -> (r: ListStage)
        ensures
            r == self@.stage,
    {
        self.stage
    }

    /// Takes the reply to the key enumeration. A failed enumeration ends the
    /// listing with a read error. Otherwise the listing covers the first
    /// `limit` keys, in the order the store gave them, even where the store
    /// handed back more: it ends at once when there are none, and else asks
    /// for the value of the first.
    pub fn on_keys(&mut self, reply: Result<Vec<String>, StoreFault>) -> (step: ListStep)
        requires
            old(self).inv(),
            old(self)@.stage == ListStage::AwaitingKeys,
        ensures
            final(self).inv(),
            final(self)@.limit == old(self)@.limit,
            reply is Err ==> final(self)@.stage == ListStage::Finished
                && step == ListStep::Done(Err(reply->Err_0.spec_read_error())),
            reply is Ok ==> final(self)@.keys == within_limit(text_of(reply->Ok_0@), old(self)@.limit)
                && final(self)@.values.len() == 0,
            reply is Ok && final(self)@.keys.len() == 0 ==> final(self)@.stage == ListStage::Finished
                && step is Done && step->Done_0 is Ok && step->Done_0->Ok_0@.len() == 0,
            reply is Ok && final(self)@.keys.len() > 0 ==> final(self)@.stage == ListStage::Fetching
                && step is Fetch && step->Fetch_0@ == final(self)@.keys[0],
            step is Done && step->Done_0 is Ok ==> step->Done_0->Ok_0@.len() <= final(self)@.limit,
    {
        match reply {
            Err(fault) => self.finish_err(fault.read_error()),
            Ok(keys) => {
                let mut keys = keys;
                keys.truncate(self.limit);
                self.keys = keys;
                proof {
                    assert(self@.keys =~= within_limit(text_of(reply->Ok_0@), old(self)@.limit));
                }
                if self.keys.len() == 0 {
                    let step = self.finish_ok();
                    proof {
                        assert(listing(old(self)@.keys, old(self)@.values).len() == 0);
                    }
                    step
                } else {
                    self.stage = ListStage::Fetching;
                    ListStep::Fetch(self.keys[0].clone())
                }
            },
        }
    }

    /// Takes the reply to the fetch of the next key. A failed fetch ends the
    /// whole listing with a read error: no partial listing is returned. A
    /// fetched value is kept with its key; when every key has its value the
    /// listing ends with one user per key, in key order, and else it asks for
    /// the value of the next key.
    pub fn on_value(&mut self, reply: Result<String, StoreFault>) -> (step: ListStep)
        requires
            old(self).inv(),
            old(self)@.stage == ListStage::Fetching,
        ensures
            final(self).inv(),
            final(self)@.limit == old(self)@.limit,
            final(self)@.keys == old(self)@.keys,
            reply is Err ==> final(self)@.stage == ListStage::Finished
                && step == ListStep::Done(Err(reply->Err_0.spec_read_error())),
            reply is Ok && old(self)@.values.len() + 1 == old(self)@.keys.len() ==>
                final(self)@.stage == ListStage::Finished && step is Done && step->Done_0 is Ok
                && step->Done_0->Ok_0@.len() == old(self)@.keys.len()
                && records_of(step->Done_0->Ok_0@) == listing(old(self)@.keys, old(self)@.values.push(reply->Ok_0@)),
            reply is Ok && old(self)@.values.len() + 1 < old(self)@.keys.len() ==>
                final(self)@.stage == ListStage::Fetching
                && final(self)@.values == old(self)@.values.push(reply->Ok_0@)
                && step is Fetch && step->Fetch_0@ == old(self)@.keys[old(self)@.values.len() + 1int],
            step is Done && step->Done_0 is Ok ==> step->Done_0->Ok_0@.len() <= final(self)@.limit,
    {
        match reply {
            Err(fault) => self.finish_err(fault.read_error()),
            Ok(value) => {
                let n = self.users.len();
                let id = self.keys[n].clone();
                self.users.push(User { id, username: value });
                proof {
                    assert(self@.values =~= old(self)@.values.push(reply->Ok_0@));
                    assert forall|i: int| 0 <= i < self.users@.len() implies self.users@[i].id@
                        == self.keys@[i]@ by {
                        if i < n {
                            assert(self.users@[i] == old(self).users@[i]);
                        }
                    }
                }
                if self.users.len() == self.keys.len() {
                    self.stage = ListStage::Finished;
                    self.finish_ok()
                } else {
                    ListStep::Fetch(self.keys[n + 1].clone())
                }
            },
        }
    }

    /// Ends the listing with the users gathered so far.
    fn finish_ok(&mut self) -> (step: ListStep)
        requires
            old(self).inv(),
            old(self).users@.len() == old(self).keys@.len(),
        ensures
            final(self).inv(),
            final(self)@.limit == old(self)@.limit,
            final(self)@.keys == old(self)@.keys,
            final(self)@.stage == ListStage::Finished,
            step is Done && step->Done_0 is Ok,
            records_of(step->Done_0->Ok_0@) == listing(old(self)@.keys, old(self)@.values),
            step->Done_0->Ok_0@.len() == old(self)@.keys.len(),
    {
        let mut users: Vec<User> = Vec::new();
        std::mem::swap(&mut users, &mut self.users);
        self.stage = ListStage::Finished;
        proof {
            assert(self@.values =~= Seq::empty());
            assert(records_of(users@) =~= listing(old(self)@.keys, old(self)@.values));
        }
        ListStep::Done(Ok(users))
    }

    /// Ends the listing with an error.
    fn finish_err(&mut self, e: UserError) -> (step: ListStep)
        requires
            old(self).inv(),
        ensures
            final(self).inv(),
            final(self)@.limit == old(self)@.limit,
            final(self)@.keys == old(self)@.keys,
            final(self)@.stage == ListStage::Finished,
            step == ListStep::Done(Err(e)),
    {
        self.stage = ListStage::Finished;
        ListStep::Done(Err(e))
    }
}

} // verus!

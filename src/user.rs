//! The user record and the error taxonomy of the service.

use vstd::prelude::*;

verus! {

/// A user as the service hands it out: the key under which it is stored and
/// the stored username.
#[derive(Debug)]
pub struct User {
    pub id: String,
    pub username: String,
}

/// The mathematical content of a `User`.
pub struct UserRecord {
    pub id: Seq<char>,
    pub username: Seq<char>,
}

impl View for User {
    type V = UserRecord;

    open spec fn view(&self) -> UserRecord {
        UserRecord { id: self.id@, username: self.username@ }
    }
}

/// The records of a sequence of users, in order.
pub open spec fn records_of(users: Seq<User>) -> Seq<UserRecord> {
    users.map_values(|u: User| u@)
}

impl User {
    pub fn new(id: String, username: String) -> (r: User)
        ensures
            r.id@ == id@,
            r.username@ == username@,
    {
        User { id, username }
    }
}

/// Why a request failed.
#[derive(PartialEq, Eq, Structural, Clone, Copy, Debug)]
pub enum UserError {
    /// The request body was missing or malformed; no store call was made.
    ClientInput,
    /// No connection to the store could be had.
    StoreUnavailable,
    /// The store did not accept a write.
    StoreWrite,
    /// The store failed a key enumeration or a read.
    StoreRead,
}

/// How a single store call failed, as reported by whoever performed it.
#[derive(PartialEq, Eq, Structural, Clone, Copy, Debug)]
pub enum StoreFault {
    /// The connection could not be established.
    NoConnection,
    /// The connection was there but the call itself failed.
    CallFailed,
}

impl StoreFault {
    pub open spec fn spec_write_error(self) -> UserError {
        match self {
            StoreFault::NoConnection => UserError::StoreUnavailable,
            StoreFault::CallFailed => UserError::StoreWrite,
        }
    }

    pub open spec fn spec_read_error(self) -> UserError {
        match self {
            StoreFault::NoConnection => UserError::StoreUnavailable,
            StoreFault::CallFailed => UserError::StoreRead,
        }
    }

    /// The error that a failed write turns into.
    pub fn write_error(self) -> (e: UserError)
        ensures
            e == self.spec_write_error(),
    {
        match self {
            StoreFault::NoConnection => UserError::StoreUnavailable,
            StoreFault::CallFailed => UserError::StoreWrite,
        }
    }

    /// The error that a failed enumeration or read turns into.
    pub fn read_error(self) -> (e: UserError)
        ensures
            e == self.spec_read_error(),
    {
        match self {
            StoreFault::NoConnection => UserError::StoreUnavailable,
            StoreFault::CallFailed => UserError::StoreRead,
        }
    }
}

} // verus!

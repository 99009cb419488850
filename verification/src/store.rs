//! The answers of a node's durable key/value store, as its callers see them.
//!
//! The store itself lives outside this library: it keeps byte strings under
//! integer keys on disk. What is decided here is how its raw answers are
//! read: which of them count as a value, which as a failure, and under which
//! message a failure is reported.

use vstd::prelude::*;

verus! {

/// Why a request to the store did not give what was asked for.
#[derive(Clone, Copy, Debug, PartialEq, Eq, Structural)]
pub enum StoreError {
    /// Nothing is stored under the key.
    NotFound,
    /// The store could not be read.
    ReadFailed,
    /// The store did not take the value.
    WriteFailed,
    /// The store did not remove the key.
    DeleteFailed,
    /// The store as a whole could not be removed.
    DestroyFailed,
}

impl StoreError {
    /// The message under which this failure is reported.
    pub open spec fn text(self) -> Seq<char> {
        match self {
            StoreError::NotFound => "objectnotfound"@,
            StoreError::ReadFailed => "fail to read database"@,
            StoreError::WriteFailed => "Error puting object"@,
            StoreError::DeleteFailed => "fail"@,
            StoreError::DestroyFailed => "Error deleting database"@,
        }
    }

    /// The message under which this failure is reported.
    pub fn message(self) -> (message: &'static str)
        ensures
            message@ == self.text(),
    {
        match self {
            StoreError::NotFound => "objectnotfound",
            StoreError::ReadFailed => "fail to read database",
            StoreError::WriteFailed => "Error puting object",
            StoreError::DeleteFailed => "fail",
            StoreError::DestroyFailed => "Error deleting database",
        }
    }
}

/// A request that changes the store and hands nothing back.
#[derive(Clone, Copy, Debug, PartialEq, Eq, Structural)]
pub enum Update {
    /// Store a value under a key.
    Put,
    /// Remove a key.
    Delete,
    /// Remove the store as a whole.
    Destroy,
}

impl Update {
    /// The failure that is reported where the store refuses this request.
    pub open spec fn failure(self) -> StoreError {
        match self {
            Update::Put => StoreError::WriteFailed,
            Update::Delete => StoreError::DeleteFailed,
            Update::Destroy => StoreError::DestroyFailed,
        }
    }
}

/// Reads the store's answer to `update`. `answer` is what the store handed
/// back: nothing where it did as asked, or its own error. The store's error
/// is not passed on: the caller learns which request was refused.
pub fn applied<E>(update: Update, answer: Result<(), E>) -> (done: Result<(), StoreError>)
    ensures
        answer is Ok ==> done == Ok::<(), StoreError>(()),
        answer is Err ==> done == Err::<(), StoreError>(update.failure()),
{
    match answer {
        Ok(()) => Ok(()),
        Err(_) => match update {
            Update::Put => Err(StoreError::WriteFailed),
            Update::Delete => Err(StoreError::DeleteFailed),
            Update::Destroy => Err(StoreError::DestroyFailed),
        },
    }
}

/// Reads the store's answer to a lookup. `read` is what the store handed
/// back: the value under the key, nothing where the key is unknown, or its
/// own error where the read failed. A value is passed on as it is; an unknown
/// key and a failed read are told apart in the error.
pub fn lookup<E>(read: Result<Option<Vec<u8>>, E>) -> (found: Result<Vec<u8>, StoreError>)
    ensures
        match read {
            Ok(Some(value)) => found == Ok::<Vec<u8>, StoreError>(value),
            Ok(None) => found == Err::<Vec<u8>, StoreError>(StoreError::NotFound),
            Err(_) => found == Err::<Vec<u8>, StoreError>(StoreError::ReadFailed),
        },
{
    match read {
        Ok(Some(value)) => Ok(value),
        Ok(None) => Err(StoreError::NotFound),
        Err(_) => Err(StoreError::ReadFailed),
    }
}

} // verus!

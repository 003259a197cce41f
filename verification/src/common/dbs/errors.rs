//! What each kind of store operation can fail with.

use crate::common::DatabaseError;
use vstd::prelude::*;

verus! {

/// Why a read failed.
#[derive(Debug, Clone, Copy, PartialEq, Eq, Structural)]
pub enum GetError {
    /// The key has no entry.
    NotFound,
    /// Stored bytes do not decode to a value, or a key is not UTF-8.
    Deserialize,
    /// The engine failed.
    Database,
}

/// Why a write failed.
#[derive(Debug, Clone, Copy, PartialEq, Eq, Structural)]
pub enum SetError {
    /// The value has no encoding.
    Serialize,
    /// The engine failed.
    Database,
}

/// Why a removal failed.
#[derive(Debug, Clone, Copy, PartialEq, Eq, Structural)]
pub enum DeleteError {
    /// The key had no entry.
    NotFound,
    /// The engine failed.
    NoDelete,
}

impl GetError {
    /// The read error that a store error amounts to: a miss and a corrupt
    /// entry stay what they are, everything else is the engine's failure.
    pub open spec fn of(e: DatabaseError) -> GetError {
        match e {
            DatabaseError::NotFound => GetError::NotFound,
            DatabaseError::Deserialize => GetError::Deserialize,
            _ => GetError::Database,
        }
    }

    /// Narrows a store error to a read error.
    pub fn from_database(e: DatabaseError) -> (out: GetError)
        ensures
            out == GetError::of(e),
    {
        match e {
            DatabaseError::NotFound => GetError::NotFound,
            DatabaseError::Deserialize => GetError::Deserialize,
            _ => GetError::Database,
        }
    }
}

impl SetError {
    /// The write error that a store error amounts to: a value without an
    /// encoding stays that, everything else is the engine's failure.
    pub open spec fn of(e: DatabaseError) -> SetError {
        match e {
            DatabaseError::Serialize => SetError::Serialize,
            _ => SetError::Database,
        }
    }

    /// Narrows a store error to a write error.
    pub fn from_database(e: DatabaseError) -> (out: SetError)
        ensures
            out == SetError::of(e),
    {
        match e {
            DatabaseError::Serialize => SetError::Serialize,
            _ => SetError::Database,
        }
    }
}

impl DeleteError {
    /// The removal error that a store error amounts to: a miss stays a miss,
    /// everything else is the engine's failure.
    pub open spec fn of(e: DatabaseError) -> DeleteError {
        match e {
            DatabaseError::NotFound => DeleteError::NotFound,
            _ => DeleteError::NoDelete,
        }
    }

    /// Narrows a store error to a removal error.
    pub fn from_database(e: DatabaseError) -> (out: DeleteError)
        ensures
            out == DeleteError::of(e),
    {
        match e {
            DatabaseError::NotFound => DeleteError::NotFound,
            _ => DeleteError::NoDelete,
        }
    }
}

} // verus!

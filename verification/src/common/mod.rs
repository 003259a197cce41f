//! Items shared by the store and the reconciliation loop.

pub mod dbs;

use vstd::prelude::*;

verus! {

/// What the system clock showed: the whole seconds since the Unix epoch and
/// the nanoseconds beyond them.
#[derive(Debug, Clone, Copy, PartialEq, Eq, Structural)]
pub struct ClockReading {
    pub seconds: u64,
    pub nanoseconds: u32,
}

/// The Unix time in whole milliseconds for a reading of the clock; 0 where
/// the clock gave none because it stands before the epoch.
pub fn unix_time_millis(reading: Option<ClockReading>) -> (out: u128)
    ensures
        out == match reading {
            Some(at) => at.seconds * 1000 + at.nanoseconds / 1_000_000,
            None => 0,
        },
{
    match reading {
        Some(at) => (at.seconds as u128) * 1000 + (at.nanoseconds / 1_000_000) as u128,
        None => 0,
    }
}

/// The Unix time in whole seconds for a reading of the clock; 0 where the
/// clock gave none because it stands before the epoch.
pub fn unix_time_seconds(reading: Option<ClockReading>) -> (out: u64)
    ensures
        out == match reading {
            Some(at) => at.seconds,
            None => 0,
        },
{
    match reading {
        Some(at) => at.seconds,
        None => 0,
    }
}

/// What can go wrong between the typed store and its engine.
#[derive(Debug, Clone, Copy, PartialEq, Eq, Structural)]
pub enum DatabaseError {
    /// The key has no entry.
    NotFound,
    /// The engine failed while reading.
    Get,
    /// The engine failed while writing.
    NoSet,
    /// The engine could not be reached for a write.
    Communicate,
    /// Stored bytes do not decode to a value, or a key is not UTF-8.
    Deserialize,
    /// The value has no encoding.
    Serialize,
    /// The engine failed while removing.
    NoDelete,
}

impl DatabaseError {
    /// The text of the message that belongs to each error.
    pub open spec fn message_text(self) -> Seq<char> {
        match self {
            DatabaseError::NotFound => "No matches found"@,
            DatabaseError::Get => "Could not get from database"@,
            DatabaseError::NoSet => "Could not set to database"@,
            DatabaseError::Communicate => "Could not communicate with database"@,
            DatabaseError::Deserialize => "Could not deserialize binary data"@,
            DatabaseError::Serialize => "Could not serialize binary data"@,
            DatabaseError::NoDelete => "Could not delete from database"@,
        }
    }

    /// The message for this error, as an owned string.
    pub fn message(&self) -> (text: String)
        ensures
            text@ == self.message_text(),
    {
        let text: &str = match self {
            DatabaseError::NotFound => "No matches found",
            DatabaseError::Get => "Could not get from database",
            DatabaseError::NoSet => "Could not set to database",
            DatabaseError::Communicate => "Could not communicate with database",
            DatabaseError::Deserialize => "Could not deserialize binary data",
            DatabaseError::Serialize => "Could not serialize binary data",
            DatabaseError::NoDelete => "Could not delete from database",
        };
        text.to_owned()
    }
}

} // verus!

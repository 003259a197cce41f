//! What holds of the typed store over an engine that keeps what it is given.
//!
//! The engine is shared, so no function of this crate can say what a tree
//! holds. The laws here are stated over a map that stands for the entries of
//! an engine while nobody else writes to it, and over any answer of the
//! engine that is faithful to that map.

use super::typed_read;
use crate::common::DatabaseError;
use crate::engine::{value_read, value_removed, KeyAnswer};
use crate::types::Serializable;
use vstd::prelude::*;
use vstd::utf8::*;

verus! {

/// The entries of an engine: the bytes of each value under the bytes of its
/// key.
pub type Entries = Map<Seq<u8>, Seq<u8>>;

/// The bytes that `entries` hold under `key`, if any.
pub open spec fn held(entries: Entries, key: Seq<char>) -> Option<Seq<u8>> {
    if entries.contains_key(encode_utf8(key)) {
        Some(entries[encode_utf8(key)])
    } else {
        None
    }
}

/// The entries after `set` has written `value` under `key`; unchanged where
/// the value has no encoding, which `set` refuses.
pub open spec fn stored<T: Serializable>(entries: Entries, key: Seq<char>, value: T::V) -> Entries {
    match T::encoding(value) {
        Some(bytes) => entries.insert(encode_utf8(key), bytes),
        None => entries,
    }
}

/// The entries after `delete` has removed the entry under `key`.
pub open spec fn dropped(entries: Entries, key: Seq<char>) -> Entries {
    entries.remove(encode_utf8(key))
}

/// Whether the engine answered a request on `key` without failing and with
/// what `entries` hold under that key.
pub open spec fn faithful(entries: Entries, key: Seq<char>, answer: KeyAnswer) -> bool {
    match answer {
        Ok(Some(value)) => held(entries, key) == Some(value@),
        Ok(None) => held(entries, key) is None,
        Err(_) => false,
    }
}

/// Writing the same value under the same key twice leaves the entries as
/// writing it once does, and a read of that key then gives the value back.
pub proof fn lemma_set_twice_then_get<T: Serializable>(
    entries: Entries,
    key: Seq<char>,
    value: T::V,
    answer: KeyAnswer,
)
    requires
        T::encoding(value) is Some,
        faithful(stored::<T>(stored::<T>(entries, key, value), key, value), key, answer),
    ensures
        stored::<T>(stored::<T>(entries, key, value), key, value) == stored::<T>(
            entries,
            key,
            value,
        ),
        typed_read::<T>(value_read(answer)) == Ok::<T::V, DatabaseError>(value),
{
    T::lemma_round_trip(value);
    let once = stored::<T>(entries, key, value);
    assert(stored::<T>(once, key, value) =~= once);
}

/// A write under a key replaces what the key had: a read of that key gives
/// the value written last.
pub proof fn lemma_set_overwrites<T: Serializable>(
    entries: Entries,
    key: Seq<char>,
    first: T::V,
    second: T::V,
    answer: KeyAnswer,
)
    requires
        T::encoding(second) is Some,
        faithful(stored::<T>(stored::<T>(entries, key, first), key, second), key, answer),
    ensures
        typed_read::<T>(value_read(answer)) == Ok::<T::V, DatabaseError>(second),
{
    T::lemma_round_trip(second);
}

/// A key without an entry reads as `NotFound`, never as a value, and its
/// removal fails with `NotFound` too.
pub proof fn lemma_missing_key<T: Serializable>(
    entries: Entries,
    key: Seq<char>,
    answer: KeyAnswer,
)
    requires
        held(entries, key) is None,
        faithful(entries, key, answer),
    ensures
        typed_read::<T>(value_read(answer)) == Err::<T::V, DatabaseError>(
            DatabaseError::NotFound,
        ),
        value_removed(answer) == Err::<(), DatabaseError>(DatabaseError::NotFound),
{
}

/// An entry stays until it is removed: a write or a removal under another
/// key leaves it as it is, and after its own removal its key has no entry.
pub proof fn lemma_entry_stays_until_removed<T: Serializable>(
    entries: Entries,
    key: Seq<char>,
    other: Seq<char>,
    value: T::V,
)
    requires
        key != other,
    ensures
        held(stored::<T>(entries, other, value), key) == held(entries, key),
        held(dropped(entries, other), key) == held(entries, key),
        held(dropped(entries, key), key) is None,
{
    encode_utf8_decode_utf8(key);
    encode_utf8_decode_utf8(other);
}

} // verus!

//! The typed store: values of one type under string keys, over the engine.

pub mod laws;

use crate::common::DatabaseError;
use crate::engine::{
    entries_read, entries_view, entry_read, read_entries, read_entry, read_value, removed,
    tree_get, tree_insert, tree_last, tree_remove, tree_scan, value_read,
    value_removed, value_written, written, EntryAnswer, KeyAnswer, ScanAnswer,
};
use crate::text::text_of_bytes;
use crate::types::Serializable;
use vstd::prelude::*;
use vstd::utf8::*;

verus! {

/// The typed entry that a raw entry stands for: its key read as UTF-8 and its
/// value decoded; `None` where either fails.
pub open spec fn entry_decoded<T: Serializable>(raw: (Seq<u8>, Seq<u8>)) -> Option<
    (Seq<char>, T::V),
> {
    if valid_utf8(raw.0) {
        match T::decoding(raw.1) {
            Some(value) => Some((decode_utf8(raw.0), value)),
            None => None,
        }
    } else {
        None
    }
}

/// The typed entries of a scan, each string and value taken by its view.
pub open spec fn typed_view<T: View>(all: Vec<(String, T)>) -> Seq<(Seq<char>, T::V)> {
    Seq::new(all.len() as nat, |i: int| (all[i].0@, all[i].1@))
}

/// The typed entries that raw entries stand for, in the same order; `None`
/// where one of them does not decode.
pub open spec fn entries_decoded<T: Serializable>(raw: Seq<(Seq<u8>, Seq<u8>)>) -> Option<
    Seq<(Seq<char>, T::V)>,
> {
    if forall|i: int| 0 <= i < raw.len() ==> (#[trigger] entry_decoded::<T>(raw[i])) is Some {
        Some(Seq::new(raw.len(), |i: int| entry_decoded::<T>(raw[i])->0))
    } else {
        None
    }
}

/// Decodes one raw entry.
pub fn decode_entry<T: Serializable>(key: Vec<u8>, value: Vec<u8>) -> (out: Result<
    (String, T),
    DatabaseError,
>)
    ensures
        match out {
            Ok(entry) => entry_decoded::<T>((key@, value@)) == Some((entry.0@, entry.1@)),
            Err(e) => entry_decoded::<T>((key@, value@)) is None && e == DatabaseError::Deserialize,
        },
{
    let text = match text_of_bytes(key) {
        Some(text) => text,
        None => { return Err(DatabaseError::Deserialize); },
    };
    match T::from_bin(value) {
        Ok(decoded) => Ok((text, decoded)),
        Err(_) => Err(DatabaseError::Deserialize),
    }
}

/// Decodes every raw entry, in order; fails as a whole on the first that
/// does not decode.
pub fn decode_entries<T: Serializable>(raw: Vec<(Vec<u8>, Vec<u8>)>) -> (out: Result<
    Vec<(String, T)>,
    DatabaseError,
>)
    ensures
        match out {
            Ok(all) => entries_decoded::<T>(entries_view(raw)) == Some(typed_view(all)),
            Err(e) => entries_decoded::<T>(entries_view(raw)) is None && e
                == DatabaseError::Deserialize,
        },
{
    let mut all: Vec<(String, T)> = Vec::new();
    let ghost raws = entries_view(raw);
    for entry in it: raw
        invariant
            raws == entries_view(raw),
            all.len() == it.index(),
            it.seq().len() == raws.len(),
            forall|i: int| 0 <= i < raws.len() ==> raws[i] == (it.seq()[i].0@, it.seq()[i].1@),
            forall|i: int|
                0 <= i < all.len() ==> #[trigger] entry_decoded::<T>(raws[i]) == Some(
                    (all[i].0@, all[i].1@),
                ),
    {
        let ghost at = all.len() as int;
        let (binary_key, binary_value) = entry;
        assert(raws[at] == (binary_key@, binary_value@));
        match decode_entry::<T>(binary_key, binary_value) {
            Ok(decoded) => {
                all.push(decoded);
            },
            Err(e) => {
                assert(entry_decoded::<T>(raws[at]) is None);
                return Err(e);
            },
        }
    }
    assert(typed_view(all) =~= Seq::new(raws.len(), |i: int| entry_decoded::<T>(raws[i])->0));
    Ok(all)
}

/// What `get` hands back for stored bytes: the value that they decode to,
/// `Deserialize` where they decode to none; a failed read stays as it is.
pub open spec fn typed_read<T: Serializable>(raw: Result<Seq<u8>, DatabaseError>) -> Result<
    T::V,
    DatabaseError,
> {
    match raw {
        Ok(bytes) => match T::decoding(bytes) {
            Some(value) => Ok(value),
            None => Err(DatabaseError::Deserialize),
        },
        Err(e) => Err(e),
    }
}

/// What `get_last` hands back for a stored entry.
pub open spec fn typed_entry_read<T: Serializable>(
    raw: Result<(Seq<u8>, Seq<u8>), DatabaseError>,
) -> Result<(Seq<char>, T::V), DatabaseError> {
    match raw {
        Ok(entry) => match entry_decoded::<T>(entry) {
            Some(typed) => Ok(typed),
            None => Err(DatabaseError::Deserialize),
        },
        Err(e) => Err(e),
    }
}

/// What `get_all` hands back for the stored entries.
pub open spec fn typed_entries_read<T: Serializable>(
    raw: Result<Seq<(Seq<u8>, Seq<u8>)>, DatabaseError>,
) -> Result<Seq<(Seq<char>, T::V)>, DatabaseError> {
    match raw {
        Ok(entries) => match entries_decoded::<T>(entries) {
            Some(typed) => Ok(typed),
            None => Err(DatabaseError::Deserialize),
        },
        Err(e) => Err(e),
    }
}

/// The bytes that `set` hands to the engine for `data`; `Serialize` where
/// the value has no encoding.
pub fn encode_value<T: Serializable>(data: &T) -> (out: Result<Vec<u8>, DatabaseError>)
    ensures
        match out {
            Ok(bytes) => T::encoding(data@) == Some(bytes@),
            Err(e) => T::encoding(data@) is None && e == DatabaseError::Serialize,
        },
{
    match data.to_bin() {
        Ok(bytes) => Ok(bytes),
        Err(_) => Err(DatabaseError::Serialize),
    }
}

/// The value that stored bytes stand for.
pub fn decode_value<T: Serializable>(bytes: Vec<u8>) -> (out: Result<T, DatabaseError>)
    ensures
        match out {
            Ok(value) => T::decoding(bytes@) == Some(value@),
            Err(e) => T::decoding(bytes@) is None && e == DatabaseError::Deserialize,
        },
{
    match T::from_bin(bytes) {
        Ok(value) => Ok(value),
        Err(_) => Err(DatabaseError::Deserialize),
    }
}

/// What `get` returns once the engine has answered.
pub fn complete_get<T: Serializable>(answer: KeyAnswer) -> (out: Result<T, DatabaseError>)
    ensures
        match out {
            Ok(value) => typed_read::<T>(value_read(answer)) == Ok::<T::V, DatabaseError>(value@),
            Err(e) => typed_read::<T>(value_read(answer)) == Err::<T::V, DatabaseError>(e),
        },
{
    match read_value(answer) {
        Ok(bytes) => decode_value::<T>(bytes),
        Err(e) => Err(e),
    }
}

/// What `get_last` returns once the engine has answered.
pub fn complete_get_last<T: Serializable>(answer: EntryAnswer) -> (out: Result<
    (String, T),
    DatabaseError,
>)
    ensures
        match out {
            Ok(entry) => typed_entry_read::<T>(entry_read(answer)) == Ok::<
                (Seq<char>, T::V),
                DatabaseError,
            >((entry.0@, entry.1@)),
            Err(e) => typed_entry_read::<T>(entry_read(answer)) == Err::<
                (Seq<char>, T::V),
                DatabaseError,
            >(e),
        },
{
    match read_entry(answer) {
        Ok(binary_data) => decode_entry::<T>(binary_data.0, binary_data.1),
        Err(e) => Err(e),
    }
}

/// What `get_all` returns once the engine has answered.
pub fn complete_get_all<T: Serializable>(answer: ScanAnswer) -> (out: Result<
    Vec<(String, T)>,
    DatabaseError,
>)
    ensures
        match out {
            Ok(all) => typed_entries_read::<T>(entries_read(answer)) == Ok::<
                Seq<(Seq<char>, T::V)>,
                DatabaseError,
            >(typed_view(all)),
            Err(e) => typed_entries_read::<T>(entries_read(answer)) == Err::<
                Seq<(Seq<char>, T::V)>,
                DatabaseError,
            >(e),
        },
{
    match read_entries(answer) {
        Ok(binary_data) => decode_entries::<T>(binary_data),
        Err(e) => Err(e),
    }
}

/// What `set` returns for a value that has an encoding, once the engine has
/// answered the write.
pub fn complete_set(answer: KeyAnswer) -> (out: Result<(), DatabaseError>)
    ensures
        out == (if value_written(answer) is Ok {
            Ok::<(), DatabaseError>(())
        } else {
            Err::<(), DatabaseError>(DatabaseError::Communicate)
        }),
{
    match written(answer) {
        Ok(()) => Ok(()),
        Err(_) => Err(DatabaseError::Communicate),
    }
}

/// What `delete` returns once the engine has answered.
pub fn complete_delete(answer: KeyAnswer) -> (out: Result<(), DatabaseError>)
    ensures
        out == value_removed(answer),
{
    removed(answer)
}

/// Reads the entry with the greatest key in the engine's order.
///
/// The engine decides which entry that is and whether the read succeeds;
/// `complete_get_last` says what is returned for each answer.
pub fn get_last<T: Serializable>(tree: &sled::Tree) -> (out: Result<(String, T), DatabaseError>)
    ensures
        match out {
            Ok(entry) => exists|raw: (Seq<u8>, Seq<u8>)| #[trigger]
                entry_decoded::<T>(raw) == Some((entry.0@, entry.1@)),
            Err(e) => e == DatabaseError::NotFound || e == DatabaseError::Get || e
                == DatabaseError::Deserialize,
        },
{
    complete_get_last::<T>(tree_last(tree))
}

/// Reads every entry, in the engine's order, which need not be the order in
/// which the entries were written.
///
/// One entry that does not decode fails the whole call: no entry is skipped
/// and none is returned. The engine decides what the entries are;
/// `complete_get_all` says what is returned for each answer.
pub fn get_all<T: Serializable>(tree: &sled::Tree) -> (out: Result<Vec<(String, T)>, DatabaseError>)
    ensures
        match out {
            Ok(all) => exists|raw: Seq<(Seq<u8>, Seq<u8>)>| #[trigger]
                entries_decoded::<T>(raw) == Some(typed_view(all)),
            Err(e) => e == DatabaseError::Get || e == DatabaseError::Deserialize,
        },
{
    complete_get_all::<T>(tree_scan(tree))
}

/// Reads the value under `key`.
///
/// The engine decides whether the key has an entry; `complete_get` says what
/// is returned for each answer.
pub fn get<T: Serializable>(tree: &sled::Tree, key: &str) -> (out: Result<T, DatabaseError>)
    ensures
        match out {
            Ok(value) => exists|bytes: Seq<u8>| #[trigger] T::decoding(bytes) == Some(value@),
            Err(e) => e == DatabaseError::NotFound || e == DatabaseError::Get || e
                == DatabaseError::Deserialize,
        },
{
    complete_get::<T>(tree_get(tree, key))
}

/// Writes `data` under `key`, over any value that the key had.
///
/// A value without an encoding is refused before the engine is asked; for
/// the others the engine decides, and `complete_set` says what is returned
/// for each answer.
pub fn set<T: Serializable>(tree: &sled::Tree, key: &str, data: T) -> (out: Result<
    (),
    DatabaseError,
>)
    ensures
        T::encoding(data@) is None <==> out == Err::<(), DatabaseError>(DatabaseError::Serialize),
        out is Ok || out == Err::<(), DatabaseError>(DatabaseError::Serialize) || out == Err::<
            (),
            DatabaseError,
        >(DatabaseError::Communicate),
{
    let binary_data = match encode_value::<T>(&data) {
        Ok(binary_data) => binary_data,
        Err(e) => { return Err(e); },
    };
    complete_set(tree_insert(tree, key, binary_data))
}

/// Removes the entry under `key`.
///
/// The engine decides whether there was one; `complete_delete` says what is
/// returned for each answer.
pub fn delete(tree: &sled::Tree, key: &str) -> (out: Result<(), DatabaseError>)
    ensures
        out matches Err(e) ==> e == DatabaseError::NotFound || e == DatabaseError::NoDelete,
{
    complete_delete(tree_remove(tree, key))
}

} // verus!

//! The store operations, each failing with the error type of its own kind.
//!
//! Every operation here is the operation of the same name in `crate::db`
//! with its error narrowed by `GetError::of`, `SetError::of` or
//! `DeleteError::of`.

use super::errors::{DeleteError, GetError, SetError};
use crate::db::{entries_decoded, typed_entries_read, typed_read, typed_view};
use crate::engine::{
    entries_read, tree_get, tree_insert, tree_remove, tree_scan, value_read, value_removed,
    value_written, KeyAnswer, ScanAnswer,
};
use crate::types::Serializable;
use vstd::prelude::*;

verus! {

/// What `get_all` returns once the engine has answered.
pub fn complete_get_all<T: Serializable>(answer: ScanAnswer) -> (out: Result<
    Vec<(String, T)>,
    GetError,
>)
    ensures
        match out {
            Ok(all) => typed_entries_read::<T>(entries_read(answer)) == Ok::<
                Seq<(Seq<char>, T::V)>,
                crate::common::DatabaseError,
            >(typed_view(all)),
            Err(e) => typed_entries_read::<T>(entries_read(answer)) matches Err(d) && e
                == GetError::of(d),
        },
{
    match crate::db::complete_get_all::<T>(answer) {
        Ok(all) => Ok(all),
        Err(error) => Err(GetError::from_database(error)),
    }
}

/// What `get` returns once the engine has answered.
pub fn complete_get<T: Serializable>(answer: KeyAnswer) -> (out: Result<T, GetError>)
    ensures
        match out {
            Ok(value) => typed_read::<T>(value_read(answer)) == Ok::<
                T::V,
                crate::common::DatabaseError,
            >(value@),
            Err(e) => typed_read::<T>(value_read(answer)) matches Err(d) && e == GetError::of(d),
        },
{
    match crate::db::complete_get::<T>(answer) {
        Ok(value) => Ok(value),
        Err(error) => Err(GetError::from_database(error)),
    }
}

/// What `set` returns for a value that has an encoding, once the engine has
/// answered the write.
pub fn complete_set(answer: KeyAnswer) -> (out: Result<(), SetError>)
    ensures
        out == (if value_written(answer) is Ok {
            Ok::<(), SetError>(())
        } else {
            Err::<(), SetError>(SetError::Database)
        }),
{
    match crate::db::complete_set(answer) {
        Ok(()) => Ok(()),
        Err(error) => Err(SetError::from_database(error)),
    }
}

/// What `delete` returns once the engine has answered.
pub fn complete_delete(answer: KeyAnswer) -> (out: Result<(), DeleteError>)
    ensures
        match out {
            Ok(()) => value_removed(answer) is Ok,
            Err(e) => value_removed(answer) matches Err(d) && e == DeleteError::of(d),
        },
{
    match crate::db::complete_delete(answer) {
        Ok(()) => Ok(()),
        Err(error) => Err(DeleteError::from_database(error)),
    }
}

/// Reads every entry, in the engine's order. One entry that does not decode
/// fails the whole call.
///
/// The engine decides what the entries are; `complete_get_all` says what is
/// returned for each answer.
pub fn get_all<T: Serializable>(tree: &sled::Tree) -> (out: Result<Vec<(String, T)>, GetError>)
    ensures
        match out {
            Ok(all) => exists|raw: Seq<(Seq<u8>, Seq<u8>)>| #[trigger]
                entries_decoded::<T>(raw) == Some(typed_view(all)),
            Err(e) => e == GetError::Database || e == GetError::Deserialize,
        },
{
    complete_get_all::<T>(tree_scan(tree))
}

/// Reads the value under `key`.
///
/// The engine decides whether the key has an entry, so each error can come
/// back; `complete_get` says what is returned for each answer.
pub fn get<T: Serializable>(tree: &sled::Tree, key: &str) -> (out: Result<T, GetError>)
    ensures
        out matches Ok(value) ==> exists|bytes: Seq<u8>| #[trigger]
            T::decoding(bytes) == Some(value@),
{
    complete_get::<T>(tree_get(tree, key))
}

/// Writes `data` under `key`, over any value that the key had.
///
/// A value without an encoding is refused before the engine is asked; for
/// the others the engine decides, and `complete_set` says what is returned
/// for each answer.
pub fn set<T: Serializable>(tree: &sled::Tree, key: &str, data: T) -> (out: Result<(), SetError>)
    ensures
        T::encoding(data@) is None <==> out == Err::<(), SetError>(SetError::Serialize),
{
    let binary_data = match data.to_bin() {
        Ok(binary_data) => binary_data,
        Err(_) => { return Err(SetError::Serialize); },
    };
    complete_set(tree_insert(tree, key, binary_data))
}

/// Removes the entry under `key`.
///
/// The engine decides whether there was one, so success and each error can
/// come back; `complete_delete` says what is returned for each answer.
pub fn delete(tree: &sled::Tree, key: &str) -> (out: Result<(), DeleteError>) {
    complete_delete(tree_remove(tree, key))
}

} // verus!

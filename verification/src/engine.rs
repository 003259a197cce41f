//! The key-value engine, as the typed store sees it.
//!
//! A tree is a handle on entries that other handles, other threads and the
//! disk share. Nothing in this module says what a tree holds: each call
//! reports what the engine answered at that moment, and the functions that
//! interpret an answer are stated for every answer there can be.
//!
//! The calls into the engine are believed, not proved, to return. The
//! engine's iterator gives up with a panic when a walk has not ended after a
//! million steps; no argument of a call selects that.

use crate::common::DatabaseError;
use vstd::prelude::*;

verus! {

/// `sled::Tree`, a shared handle on one named collection of the engine.
#[verifier::external_type_specification]
#[verifier::external_body]
pub struct ExTree(sled::Tree);

/// `sled::Error`, the engine's own failure report.
#[verifier::external_type_specification]
#[verifier::external_body]
pub struct ExEngineError(sled::Error);

/// What the engine answers to a read, a write or a removal of one key: the
/// value that the key had, if it had one.
pub type KeyAnswer = Result<Option<Vec<u8>>, sled::Error>;

/// What the engine answers to a request for one entry.
pub type EntryAnswer = Result<Option<(Vec<u8>, Vec<u8>)>, sled::Error>;

/// What the engine answers to a full scan.
pub type ScanAnswer = Result<Vec<(Vec<u8>, Vec<u8>)>, sled::Error>;

/// Calls `sled::Tree::get` with the UTF-8 bytes of `key` and copies the value
/// found into a vector. Nothing is claimed of the answer.
#[verifier::external_body]
pub(crate) fn tree_get(tree: &sled::Tree, key: &str) -> (answer: KeyAnswer) {
    tree.get(key).map(|found| found.map(|value| value.to_vec()))
}

/// Calls `sled::Tree::insert` with the UTF-8 bytes of `key` and with `value`,
/// and copies the value that was replaced into a vector. Nothing is claimed
/// of the answer.
#[verifier::external_body]
pub(crate) fn tree_insert(tree: &sled::Tree, key: &str, value: Vec<u8>) -> (answer: KeyAnswer) {
    tree.insert(key, value).map(|replaced| replaced.map(|old| old.to_vec()))
}

/// Calls `sled::Tree::remove` with the UTF-8 bytes of `key` and copies the
/// value that was removed into a vector. Nothing is claimed of the answer.
#[verifier::external_body]
pub(crate) fn tree_remove(tree: &sled::Tree, key: &str) -> (answer: KeyAnswer) {
    tree.remove(key).map(|removed| removed.map(|old| old.to_vec()))
}

/// Calls `sled::Tree::last` and copies the entry found into two vectors.
/// Nothing is claimed of the answer.
#[verifier::external_body]
pub(crate) fn tree_last(tree: &sled::Tree) -> (answer: EntryAnswer) {
    tree.last().map(|found| found.map(|(key, value)| (key.to_vec(), value.to_vec())))
}

/// Walks `sled::Tree::iter` from its start and copies each entry into two
/// vectors, up to the end or to the first failure that the iterator reports.
/// The engine walks its keys in the order of their bytes, which need not be
/// the order in which they were written. Nothing is claimed of the answer.
#[verifier::external_body]
pub(crate) fn tree_scan(tree: &sled::Tree) -> (answer: ScanAnswer) {
    tree.iter().map(|item| item.map(|(key, value)| (key.to_vec(), value.to_vec()))).collect()
}

/// What a read of one key comes to: the value's bytes, `NotFound` where the
/// key has no entry, `Get` where the engine failed.
pub open spec fn value_read(answer: KeyAnswer) -> Result<Seq<u8>, DatabaseError> {
    match answer {
        Ok(Some(value)) => Ok(value@),
        Ok(None) => Err(DatabaseError::NotFound),
        Err(_) => Err(DatabaseError::Get),
    }
}

/// What a request for the last entry comes to: the entry's key and value,
/// `NotFound` where the tree is empty, `Get` where the engine failed.
pub open spec fn entry_read(answer: EntryAnswer) -> Result<(Seq<u8>, Seq<u8>), DatabaseError> {
    match answer {
        Ok(Some(entry)) => Ok((entry.0@, entry.1@)),
        Ok(None) => Err(DatabaseError::NotFound),
        Err(_) => Err(DatabaseError::Get),
    }
}

/// The entries of a scan, each vector taken by its view.
pub open spec fn entries_view(entries: Vec<(Vec<u8>, Vec<u8>)>) -> Seq<(Seq<u8>, Seq<u8>)> {
    Seq::new(entries.len() as nat, |i: int| (entries[i].0@, entries[i].1@))
}

/// What a full scan comes to: every entry in the engine's order, or `Get`
/// where the engine failed on the way.
pub open spec fn entries_read(answer: ScanAnswer) -> Result<Seq<(Seq<u8>, Seq<u8>)>, DatabaseError> {
    match answer {
        Ok(entries) => Ok(entries_view(entries)),
        Err(_) => Err(DatabaseError::Get),
    }
}

/// What a write comes to: done, whatever value was replaced, or `NoSet`
/// where the engine failed.
pub open spec fn value_written(answer: KeyAnswer) -> Result<(), DatabaseError> {
    match answer {
        Ok(_) => Ok(()),
        Err(_) => Err(DatabaseError::NoSet),
    }
}

/// What a removal comes to: done where the key had an entry, `NotFound`
/// where it had none, `NoDelete` where the engine failed.
pub open spec fn value_removed(answer: KeyAnswer) -> Result<(), DatabaseError> {
    match answer {
        Ok(Some(_)) => Ok(()),
        Ok(None) => Err(DatabaseError::NotFound),
        Err(_) => Err(DatabaseError::NoDelete),
    }
}

/// Interprets the engine's answer to a read of one key.
pub fn read_value(answer: KeyAnswer) -> (out: Result<Vec<u8>, DatabaseError>)
    ensures
        match out {
            Ok(bytes) => value_read(answer) == Ok::<Seq<u8>, DatabaseError>(bytes@),
            Err(e) => value_read(answer) == Err::<Seq<u8>, DatabaseError>(e),
        },
{
    match answer {
        Ok(Some(value)) => Ok(value),
        Ok(None) => Err(DatabaseError::NotFound),
        Err(_) => Err(DatabaseError::Get),
    }
}

/// Interprets the engine's answer to a request for its last entry.
pub fn read_entry(answer: EntryAnswer) -> (out: Result<(Vec<u8>, Vec<u8>), DatabaseError>)
    ensures
        match out {
            Ok(entry) => entry_read(answer) == Ok::<(Seq<u8>, Seq<u8>), DatabaseError>(
                (entry.0@, entry.1@),
            ),
            Err(e) => entry_read(answer) == Err::<(Seq<u8>, Seq<u8>), DatabaseError>(e),
        },
{
    match answer {
        Ok(Some(entry)) => Ok(entry),
        Ok(None) => Err(DatabaseError::NotFound),
        Err(_) => Err(DatabaseError::Get),
    }
}

/// Interprets the engine's answer to a full scan.
pub fn read_entries(answer: ScanAnswer) -> (out: Result<Vec<(Vec<u8>, Vec<u8>)>, DatabaseError>)
    ensures
        match out {
            Ok(entries) => entries_read(answer) == Ok::<Seq<(Seq<u8>, Seq<u8>)>, DatabaseError>(
                entries_view(entries),
            ),
            Err(e) => entries_read(answer) == Err::<Seq<(Seq<u8>, Seq<u8>)>, DatabaseError>(e),
        },
{
    match answer {
        Ok(entries) => Ok(entries),
        Err(_) => Err(DatabaseError::Get),
    }
}

/// Interprets the engine's answer to a write.
pub fn written(answer: KeyAnswer) -> (out: Result<(), DatabaseError>)
    ensures
        out == value_written(answer),
{
    match answer {
        Ok(_) => Ok(()),
        Err(_) => Err(DatabaseError::NoSet),
    }
}

/// Interprets the engine's answer to a removal.
pub fn removed(answer: KeyAnswer) -> (out: Result<(), DatabaseError>)
    ensures
        out == value_removed(answer),
{
    match answer {
        Ok(Some(_)) => Ok(()),
        Ok(None) => Err(DatabaseError::NotFound),
        Err(_) => Err(DatabaseError::NoDelete),
    }
}

} // verus!

//! Stored keys and the rows they are kept in.
//!
//! A key is written by inserting one row, unless the key is marked as living
//! in memory only, in which case nothing is written. The insert itself is the
//! caller's to perform: [`write_storedkey_to_db`] says what to insert, and
//! [`conclude_write`] turns what the storage answered into the result of the
//! write.

use vstd::prelude::*;
use vstd::slice::slice_to_vec;
use uuid::Uuid;
use crate::codec::{Algorithm, EncodeError, HashingAlgorithm, StoredKeyType, StoredKeyVersion};
use crate::ident::{
    hyphenated, hyphenated_text, is_hyphenated, law_hyphenated_reads_back, unhyphenated,
    uuid_from_text, uuid_octets,
};

verus! {

/// The length of a content salt.
pub const SALT_LEN: usize = 16;

/// A cryptographic key as it is held in memory.
#[derive(Debug, PartialEq, Eq)]
pub struct StoredKey {
    /// The identifier of the key, and the key of its row.
    pub uuid: Uuid,
    /// The layout the key is stored in.
    pub version: StoredKeyVersion,
    /// What the key is for.
    pub key_type: StoredKeyType,
    /// The cipher that protects the master key.
    pub algorithm: Algorithm,
    /// The hash function that the key was derived with.
    pub hashing_algorithm: HashingAlgorithm,
    /// The salt of the content the key protects.
    pub content_salt: [u8; SALT_LEN],
    /// The master key, encrypted.
    pub master_key: Vec<u8>,
    /// The nonce the master key was encrypted with.
    pub master_key_nonce: Vec<u8>,
    /// The nonce the key was encrypted with.
    pub key_nonce: Vec<u8>,
    /// The key, encrypted.
    pub key: Vec<u8>,
    /// The salt the key was derived with.
    pub salt: Vec<u8>,
    /// A key marked so is never written to durable storage.
    pub memory_only: bool,
}

/// A key as contracts see it: the identifier by its octets, the material by
/// its bytes.
pub struct StoredKeyView {
    pub uuid: Seq<u8>,
    pub version: StoredKeyVersion,
    pub key_type: StoredKeyType,
    pub algorithm: Algorithm,
    pub hashing_algorithm: HashingAlgorithm,
    pub content_salt: Seq<u8>,
    pub master_key: Seq<u8>,
    pub master_key_nonce: Seq<u8>,
    pub key_nonce: Seq<u8>,
    pub key: Seq<u8>,
    pub salt: Seq<u8>,
    pub memory_only: bool,
}

impl StoredKeyView {
    /// The identifier has sixteen octets and the content salt its fixed length.
    pub open spec fn wf(self) -> bool {
        self.uuid.len() == 16 && self.content_salt.len() == SALT_LEN
    }
}

impl View for StoredKey {
    type V = StoredKeyView;

    open spec fn view(&self) -> StoredKeyView {
        StoredKeyView {
            uuid: uuid_octets(self.uuid),
            version: self.version,
            key_type: self.key_type,
            algorithm: self.algorithm,
            hashing_algorithm: self.hashing_algorithm,
            content_salt: self.content_salt@,
            master_key: self.master_key@,
            master_key_nonce: self.master_key_nonce@,
            key_nonce: self.key_nonce@,
            key: self.key@,
            salt: self.salt@,
            memory_only: self.memory_only,
        }
    }
}

/// One row of the key table: the identifier and the enums as text, the key
/// material as blobs, and a list of tags.
#[derive(Debug, PartialEq, Eq)]
pub struct KeyRow {
    pub uuid: String,
    pub version: String,
    pub key_type: String,
    pub algorithm: String,
    pub hashing_algorithm: String,
    pub content_salt: Vec<u8>,
    pub master_key: Vec<u8>,
    pub master_key_nonce: Vec<u8>,
    pub key_nonce: Vec<u8>,
    pub key: Vec<u8>,
    pub salt: Vec<u8>,
    pub tags: Vec<String>,
}

/// A row as contracts see it.
pub struct KeyRowView {
    pub uuid: Seq<char>,
    pub version: Seq<char>,
    pub key_type: Seq<char>,
    pub algorithm: Seq<char>,
    pub hashing_algorithm: Seq<char>,
    pub content_salt: Seq<u8>,
    pub master_key: Seq<u8>,
    pub master_key_nonce: Seq<u8>,
    pub key_nonce: Seq<u8>,
    pub key: Seq<u8>,
    pub salt: Seq<u8>,
    pub tags: Seq<Seq<char>>,
}

impl View for KeyRow {
    type V = KeyRowView;

    open spec fn view(&self) -> KeyRowView {
        KeyRowView {
            uuid: self.uuid@,
            version: self.version@,
            key_type: self.key_type@,
            algorithm: self.algorithm@,
            hashing_algorithm: self.hashing_algorithm@,
            content_salt: self.content_salt@,
            master_key: self.master_key@,
            master_key_nonce: self.master_key_nonce@,
            key_nonce: self.key_nonce@,
            key: self.key@,
            salt: self.salt@,
            tags: Seq::new(self.tags@.len(), |i: int| self.tags@[i]@),
        }
    }
}

/// The row that a key is stored as: the identifier in its hyphenated form,
/// each enum as its canonical text, the key material byte for byte, and no
/// tags.
pub open spec fn row_of(key: StoredKeyView) -> KeyRowView {
    KeyRowView {
        uuid: hyphenated(key.uuid),
        version: key.version.canonical(),
        key_type: key.key_type.canonical(),
        algorithm: key.algorithm.canonical(),
        hashing_algorithm: key.hashing_algorithm.canonical(),
        content_salt: key.content_salt,
        master_key: key.master_key,
        master_key_nonce: key.master_key_nonce,
        key_nonce: key.key_nonce,
        key: key.key,
        salt: key.salt,
        tags: Seq::empty(),
    }
}

/// Why a key could not be written.
#[derive(Debug, PartialEq, Eq)]
pub enum KeyWriteError {
    /// An enum of the key could not be put into its canonical text. The text
    /// is the encoder's message, unchanged.
    Serialization(String),
    /// The storage refused the insert, be it because a row with the same
    /// identifier exists or for any other reason. The text is the storage's
    /// message, unchanged.
    Persistence(String),
}

/// An error as contracts see it.
pub enum KeyWriteErrorView {
    Serialization(Seq<char>),
    Persistence(Seq<char>),
}

impl View for KeyWriteError {
    type V = KeyWriteErrorView;

    open spec fn view(&self) -> KeyWriteErrorView {
        match self {
            KeyWriteError::Serialization(message) => KeyWriteErrorView::Serialization(message@),
            KeyWriteError::Persistence(message) => KeyWriteErrorView::Persistence(message@),
        }
    }
}

/// What a write asks of the storage.
#[derive(Debug, PartialEq, Eq)]
pub enum WriteAction {
    /// Nothing: the storage is not to be touched.
    Skip,
    /// Insert this row, and fail if a row with its `uuid` exists.
    Insert(KeyRow),
}

/// A write action as contracts see it.
pub enum WriteActionView {
    Skip,
    Insert(KeyRowView),
}

impl View for WriteAction {
    type V = WriteActionView;

    open spec fn view(&self) -> WriteActionView {
        match self {
            WriteAction::Skip => WriteActionView::Skip,
            WriteAction::Insert(row) => WriteActionView::Insert(row@),
        }
    }
}

/// What writing a key asks of the storage: nothing for a key that lives in
/// memory only, and else the insert of the key's row.
pub open spec fn planned_write(key: StoredKeyView) -> WriteActionView {
    if key.memory_only {
        WriteActionView::Skip
    } else {
        WriteActionView::Insert(row_of(key))
    }
}

/// The error that a failed encoding becomes.
pub fn serialization_error(error: EncodeError) -> (wrapped: KeyWriteError)
    ensures
        wrapped@ == KeyWriteErrorView::Serialization(error.message@),
{
    KeyWriteError::Serialization(error.message)
}

/// Begins the write of `key`: says what the storage is to be asked for.
///
/// A key that lives in memory only is skipped: no row is made and the write
/// has succeeded. Any other key gives exactly one insert, of the row that
/// [`row_of`] describes. The caller performs it and hands the storage's
/// answer to [`conclude_write`].
pub fn write_storedkey_to_db(key: &StoredKey) -> (plan: Result<WriteAction, KeyWriteError>)
    ensures
        plan matches Ok(action) && action@ == planned_write(key@),
{
    if key.memory_only {
        return Ok(WriteAction::Skip);
    }
    let version = match key.version.encode() {
        Ok(text) => text,
        Err(error) => { return Err(serialization_error(error)); },
    };
    let key_type = match key.key_type.encode() {
        Ok(text) => text,
        Err(error) => { return Err(serialization_error(error)); },
    };
    let algorithm = match key.algorithm.encode() {
        Ok(text) => text,
        Err(error) => { return Err(serialization_error(error)); },
    };
    let hashing_algorithm = match key.hashing_algorithm.encode() {
        Ok(text) => text,
        Err(error) => { return Err(serialization_error(error)); },
    };
    let row = KeyRow {
        uuid: hyphenated_text(&key.uuid),
        version,
        key_type,
        algorithm,
        hashing_algorithm,
        content_salt: slice_to_vec(key.content_salt.as_slice()),
        master_key: key.master_key.clone(),
        master_key_nonce: key.master_key_nonce.clone(),
        key_nonce: key.key_nonce.clone(),
        key: key.key.clone(),
        salt: key.salt.clone(),
        tags: Vec::new(),
    };
    proof {
        assert(row@.tags =~= Seq::empty());
    }
    Ok(WriteAction::Insert(row))
}

/// Ends a write: turns what the storage answered to the insert into the
/// result of the write. Every failure of the insert, a clash of identifiers
/// like any other, becomes `Persistence` with the storage's message.
pub fn conclude_write(answer: Result<(), String>) -> (written: Result<(), KeyWriteError>)
    ensures
        answer is Ok ==> written is Ok,
        answer matches Err(message) ==> written matches Err(error) && error@
            == KeyWriteErrorView::Persistence(message@),
{
    match answer {
        Ok(()) => Ok(()),
        Err(message) => Err(KeyWriteError::Persistence(message)),
    }
}

/// The key that a row holds, if every text column of the row is the stored
/// form of a value and the content salt has its length. A key read from a row
/// is a durable one: it is not marked as living in memory only. The tags of
/// the row are no part of the key.
pub open spec fn key_of(row: KeyRowView) -> Option<StoredKeyView> {
    if is_hyphenated(row.uuid) && StoredKeyVersion::parsed(row.version) is Some
        && StoredKeyType::parsed(row.key_type) is Some && Algorithm::parsed(row.algorithm) is Some
        && HashingAlgorithm::parsed(row.hashing_algorithm) is Some && row.content_salt.len()
        == SALT_LEN {
        Some(
            StoredKeyView {
                uuid: unhyphenated(row.uuid),
                version: StoredKeyVersion::parsed(row.version)->0,
                key_type: StoredKeyType::parsed(row.key_type)->0,
                algorithm: Algorithm::parsed(row.algorithm)->0,
                hashing_algorithm: HashingAlgorithm::parsed(row.hashing_algorithm)->0,
                content_salt: row.content_salt,
                master_key: row.master_key,
                master_key_nonce: row.master_key_nonce,
                key_nonce: row.key_nonce,
                key: row.key,
                salt: row.salt,
                memory_only: false,
            },
        )
    } else {
        None
    }
}

/// The content salt held in a blob, if the blob has the length of one.
fn content_salt_of(blob: &Vec<u8>) -> (salt: Option<[u8; SALT_LEN]>)
    ensures
        salt is Some <==> blob@.len() == SALT_LEN,
        salt matches Some(held) ==> held@ == blob@,
{
    if blob.len() != SALT_LEN {
        return None;
    }
    let mut held = [0u8; SALT_LEN];
    let mut at: usize = 0;
    while at < SALT_LEN
        invariant
            at <= SALT_LEN,
            blob@.len() == SALT_LEN,
            forall|i: int| 0 <= i < at ==> held@[i] == blob@[i],
        decreases SALT_LEN - at,
    {
        held[at] = blob[at];
        at += 1;
    }
    proof {
        assert(held@ =~= blob@);
    }
    Some(held)
}

/// Reads the key that a row holds. The result is `None` where a text column
/// is not the stored form of a value, or the content salt has another length
/// than [`SALT_LEN`].
pub fn read_storedkey_from_row(row: &KeyRow) -> (key: Option<StoredKey>)
    ensures
        key is Some <==> key_of(row@) is Some,
        key matches Some(found) ==> key_of(row@) == Some(found@),
{
    let uuid = match uuid_from_text(row.uuid.as_str()) {
        Some(found) => found,
        None => { return None; },
    };
    let version = match StoredKeyVersion::decode(row.version.as_str()) {
        Some(found) => found,
        None => { return None; },
    };
    let key_type = match StoredKeyType::decode(row.key_type.as_str()) {
        Some(found) => found,
        None => { return None; },
    };
    let algorithm = match Algorithm::decode(row.algorithm.as_str()) {
        Some(found) => found,
        None => { return None; },
    };
    let hashing_algorithm = match HashingAlgorithm::decode(row.hashing_algorithm.as_str()) {
        Some(found) => found,
        None => { return None; },
    };
    let content_salt = match content_salt_of(&row.content_salt) {
        Some(found) => found,
        None => { return None; },
    };
    Some(
        StoredKey {
            uuid,
            version,
            key_type,
            algorithm,
            hashing_algorithm,
            content_salt,
            master_key: row.master_key.clone(),
            master_key_nonce: row.master_key_nonce.clone(),
            key_nonce: row.key_nonce.clone(),
            key: row.key.clone(),
            salt: row.salt.clone(),
            memory_only: false,
        },
    )
}

/// Writing a key and reading its row back gives the key again, field for
/// field: the identifier, each enum, and every byte of the key material.
pub proof fn law_write_then_read(key: StoredKeyView)
    requires
        key.wf(),
        !key.memory_only,
    ensures
        planned_write(key) == WriteActionView::Insert(row_of(key)),
        key_of(row_of(key)) == Some(key),
{
    law_hyphenated_reads_back(key.uuid);
    key.version.law_round_trip();
    key.key_type.law_round_trip();
    key.algorithm.law_round_trip();
    key.hashing_algorithm.law_round_trip();
}

/// Two keys are stored under the same row key exactly if they have the same
/// identifier.
pub proof fn law_row_key_is_the_identifier(first: StoredKeyView, second: StoredKeyView)
    requires
        first.wf(),
        second.wf(),
    ensures
        row_of(first).uuid == row_of(second).uuid <==> first.uuid == second.uuid,
{
    if row_of(first).uuid == row_of(second).uuid {
        law_hyphenated_reads_back(first.uuid);
        law_hyphenated_reads_back(second.uuid);
    }
}

/// A key that lives in memory only is never written: its write asks nothing
/// of the storage.
pub proof fn law_memory_only_is_skipped(key: StoredKeyView)
    requires
        key.memory_only,
    ensures
        planned_write(key) == WriteActionView::Skip,
{
}

} // verus!

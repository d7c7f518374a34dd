//! The item store: serialized records in a `sled` database, keyed by the
//! UTF-8 bytes of the item's identifier.
//!
//! The store owns its database handle. What it holds is modelled as a map
//! from key bytes to value bytes, and each operation says what it does to
//! that map. The contracts of the four functions that call `sled` are not
//! proved here: they say what `sled` documents of `get`, `insert`, `remove`
//! and `iter`, for a database that is reached through this one handle only.

use vstd::prelude::*;
use vstd::utf8::encode_utf8;

verus! {

/// `sled::Db`, the handle to an open database.
#[verifier::external_type_specification]
#[verifier::external_body]
pub struct ExDb(sled::Db);

/// `sled::Error`: why an operation failed. Only its presence is used.
#[verifier::external_type_specification]
#[verifier::external_body]
pub struct ExSledError(sled::Error);

/// The records that a database holds: its values by their keys.
pub uninterp spec fn db_entries(db: sled::Db) -> Map<Seq<u8>, Seq<u8>>;

/// The store could not read or write: a failure of the storage underneath.
#[derive(Debug, Clone, Copy, PartialEq, Eq, Structural)]
pub struct StorageError;

/// The key that an item with this identifier is stored under.
pub open spec fn key_of(id: Seq<char>) -> Seq<u8> {
    encode_utf8(id)
}

/// The views of the rows of a scan: key and value of each.
pub open spec fn pairs_of(rows: Vec<(Vec<u8>, Vec<u8>)>) -> Seq<(Seq<u8>, Seq<u8>)> {
    rows@.map_values(|row: (Vec<u8>, Vec<u8>)| (row.0@, row.1@))
}

/// Whether the rows list the records: every row is a record, no key comes
/// twice, and every record has its row.
pub open spec fn is_listing(rows: Seq<(Seq<u8>, Seq<u8>)>, records: Map<Seq<u8>, Seq<u8>>) -> bool {
    &&& forall|i: int|
        0 <= i < rows.len() ==> records.contains_key((#[trigger] rows[i]).0) && records[rows[i].0]
            == rows[i].1
    &&& forall|i: int, j: int|
        0 <= i < j < rows.len() ==> (#[trigger] rows[i]).0 != (#[trigger] rows[j]).0
    &&& forall|key: Seq<u8>| #[trigger]
        records.contains_key(key) ==> exists|i: int|
            0 <= i < rows.len() && (#[trigger] rows[i]).0 == key
}

/// What the store answers for an answer of the database: the value, where
/// the database gave one, and `StorageError` for every failure.
pub fn storage_outcome<T>(answer: Result<T, sled::Error>) -> (r: Result<T, StorageError>)
    ensures
        r == (match answer {
            Ok(value) => Ok::<T, StorageError>(value),
            Err(_) => Err(StorageError),
        }),
{
    match answer {
        Ok(value) => Ok(value),
        Err(_) => Err(StorageError),
    }
}

/// What a delete answers for an answer of the database to the removal:
/// whether a value was removed, and `StorageError` for every failure.
pub fn removal_outcome(answer: Result<Option<Vec<u8>>, sled::Error>) -> (r: Result<bool, StorageError>)
    ensures
        r == (match answer {
            Ok(removed) => Ok::<bool, StorageError>(removed is Some),
            Err(_) => Err(StorageError),
        }),
{
    match answer {
        Ok(removed) => Ok(removed.is_some()),
        Err(_) => Err(StorageError),
    }
}

/// `sled::Tree::get` on the database's default tree: the value under the
/// key, if there is one.
#[verifier::external_body]
fn db_get(db: &sled::Db, key: &[u8]) -> (r: Result<Option<Vec<u8>>, sled::Error>)
    ensures
        match r {
            Ok(Some(value)) => db_entries(*db).contains_key(key@) && db_entries(*db)[key@]
                == value@,
            Ok(None) => !db_entries(*db).contains_key(key@),
            Err(_) => true,
        },
{
    db.get(key).map(|found| found.map(|value| value.to_vec()))
}

/// `sled::Tree::insert`: sets the key to the value, replacing a value that
/// was there. Nothing is claimed of the database after a failure.
#[verifier::external_body]
fn db_insert(db: &mut sled::Db, key: &[u8], value: Vec<u8>) -> (r: Result<(), sled::Error>)
    ensures
        r is Ok ==> db_entries(*final(db)) == db_entries(*old(db)).insert(key@, value@),
{
    db.insert(key, value).map(|_| ())
}

/// `sled::Tree::remove`: deletes the value under the key and returns it, if
/// there was one. Nothing is claimed of the database after a failure.
#[verifier::external_body]
fn db_remove(db: &mut sled::Db, key: &[u8]) -> (r: Result<Option<Vec<u8>>, sled::Error>)
    ensures
        match r {
            Ok(Some(value)) => db_entries(*old(db)).contains_key(key@) && db_entries(*old(db))[key@]
                == value@ && db_entries(*final(db)) == db_entries(*old(db)).remove(key@),
            Ok(None) => !db_entries(*old(db)).contains_key(key@) && db_entries(*final(db))
                == db_entries(*old(db)),
            Err(_) => true,
        },
{
    db.remove(key).map(|found| found.map(|value| value.to_vec()))
}

/// `sled::Tree::iter`, collected up to its first failure: all records, each
/// once.
#[verifier::external_body]
fn db_scan(db: &sled::Db) -> (r: Result<Vec<(Vec<u8>, Vec<u8>)>, sled::Error>)
    ensures
        r matches Ok(rows) ==> is_listing(pairs_of(rows), db_entries(*db)),
{
    db.iter().map(|row| row.map(|(key, value)| (key.to_vec(), value.to_vec()))).collect()
}

/// The store of serialized items.
pub struct ItemStore {
    db: sled::Db,
}

impl ItemStore {
    /// The records in the store: the stored bytes by their keys.
    pub closed spec fn records(&self) -> Map<Seq<u8>, Seq<u8>> {
        db_entries(self.db)
    }

    /// A store over the database. The store takes the handle for itself: no
    /// clone of it may be used beside the store.
    pub fn new(db: sled::Db) -> (store: ItemStore)
        ensures
            store.records() == db_entries(db),
    {
        ItemStore { db }
    }

    /// The bytes stored under the identifier, if there are any.
    pub fn get(&self, id: &str) -> (r: Result<Option<Vec<u8>>, StorageError>)
        ensures
            match r {
                Ok(Some(bytes)) => self.records().contains_key(key_of(id@)) && self.records()[key_of(
                    id@,
                )] == bytes@,
                Ok(None) => !self.records().contains_key(key_of(id@)),
                Err(_) => true,
            },
    {
        storage_outcome(db_get(&self.db, id.as_bytes()))
    }

    /// Stores the bytes under the identifier, in place of what was there.
    pub fn put(&mut self, id: &str, bytes: Vec<u8>) -> (r: Result<(), StorageError>)
        ensures
            r is Ok ==> final(self).records() == old(self).records().insert(key_of(id@), bytes@),
    {
        storage_outcome(db_insert(&mut self.db, id.as_bytes(), bytes))
    }

    /// Removes the record under the identifier; returns whether there was
    /// one.
    pub fn delete(&mut self, id: &str) -> (r: Result<bool, StorageError>)
        ensures
            r matches Ok(existed) ==> existed == old(self).records().contains_key(key_of(id@))
                && final(self).records() == old(self).records().remove(key_of(id@)),
    {
        removal_outcome(db_remove(&mut self.db, id.as_bytes()))
    }

    /// All records, as pairs of key and value, each once, in the store's own
    /// order.
    pub fn iterate_all(&self) -> (r: Result<Vec<(Vec<u8>, Vec<u8>)>, StorageError>)
        ensures
            r matches Ok(rows) ==> is_listing(pairs_of(rows), self.records()),
    {
        storage_outcome(db_scan(&self.db))
    }
}

} // verus!

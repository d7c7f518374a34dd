//! The item service: create, fetch, list, filter, patch, delete and capture,
//! over the store.
//!
//! Each operation is stated over the records in the store. Where the storage
//! underneath fails, the operation returns `StorageError` and nothing more is
//! said; in every other case its result and the records afterwards are fixed
//! by the records before.

use vstd::prelude::*;
use crate::capture::{captured, parse_capture};
use crate::codec::{decode, decoded, encode, encoded, DecodeError};
use crate::filter::{
    lemma_empty_filter_selects_all, lemma_selected_exactly, passes, select, selected, ItemFilter,
    ItemFilterView,
};
use crate::model::{
    created, merged, CreateItemPayload, Item, ItemView, UpdateItemPayload, UpdateItemPayloadView,
};
use crate::stamp::{fresh_identifier, is_identifier, now_millis};
use crate::gate::lemma_same_bytes_same_text;
use crate::store::{is_listing, key_of, pairs_of, ItemStore, StorageError};

verus! {

/// Why an operation gave no result.
#[derive(Debug, Clone, Copy, PartialEq, Eq, Structural)]
pub enum ServiceError {
    /// No item has the identifier, or the record under it cannot be patched
    /// because it cannot be read.
    NotFound,
    /// The record under the identifier is there and cannot be read as an
    /// item.
    CorruptRecord,
    /// The payload was refused. No operation refuses one at present.
    ValidationError,
    /// The storage underneath failed.
    StorageError,
    /// The request did not pass the access gate.
    Unauthorized,
}

/// The status that a caller sees for each kind of error.
pub open spec fn status_of(error: ServiceError) -> u16 {
    match error {
        ServiceError::NotFound => 404,
        ServiceError::CorruptRecord => 500,
        ServiceError::ValidationError => 400,
        ServiceError::StorageError => 503,
        ServiceError::Unauthorized => 401,
    }
}

impl ServiceError {
    /// The status that a caller sees for this kind of error.
    pub fn status_code(&self) -> (status: u16)
        ensures
            status == status_of(*self),
    {
        match self {
            ServiceError::NotFound => 404,
            ServiceError::CorruptRecord => 500,
            ServiceError::ValidationError => 400,
            ServiceError::StorageError => 503,
            ServiceError::Unauthorized => 401,
        }
    }
}

/// Two kinds of error never share a status.
pub proof fn lemma_statuses_distinct(a: ServiceError, b: ServiceError)
    requires
        a != b,
    ensures
        status_of(a) != status_of(b),
{
}

/// A result with the item taken by its view.
pub open spec fn viewed(r: Result<Item, ServiceError>) -> Result<ItemView, ServiceError> {
    match r {
        Ok(item) => Ok(item@),
        Err(error) => Err(error),
    }
}

/// What fetching an identifier gives, by the records.
pub open spec fn fetched(records: Map<Seq<u8>, Seq<u8>>, id: Seq<char>) -> Result<
    ItemView,
    ServiceError,
> {
    if !records.contains_key(key_of(id)) {
        Err(ServiceError::NotFound)
    } else {
        match decoded(records[key_of(id)]) {
            Ok(item) => Ok(item),
            Err(_) => Err(ServiceError::CorruptRecord),
        }
    }
}

/// What patching the item under an identifier gives, by the records. A
/// record that cannot be read counts as not found: no blank item is made up
/// to patch.
pub open spec fn patched_item(
    records: Map<Seq<u8>, Seq<u8>>,
    id: Seq<char>,
    patch: UpdateItemPayloadView,
) -> Result<ItemView, ServiceError> {
    match fetched(records, id) {
        Ok(item) => Ok(merged(item, patch)),
        Err(_) => Err(ServiceError::NotFound),
    }
}

/// The records after patching the item under an identifier.
pub open spec fn records_after_patch(
    records: Map<Seq<u8>, Seq<u8>>,
    id: Seq<char>,
    patch: UpdateItemPayloadView,
) -> Map<Seq<u8>, Seq<u8>> {
    match patched_item(records, id, patch) {
        Ok(item) => records.insert(key_of(id), encoded(item)),
        Err(_) => records,
    }
}

/// What deleting an identifier gives, by the records.
pub open spec fn deleted(records: Map<Seq<u8>, Seq<u8>>, id: Seq<char>) -> Result<(), ServiceError> {
    if records.contains_key(key_of(id)) {
        Ok(())
    } else {
        Err(ServiceError::NotFound)
    }
}

/// The records after deleting an identifier.
pub open spec fn records_after_delete(records: Map<Seq<u8>, Seq<u8>>, id: Seq<char>) -> Map<
    Seq<u8>,
    Seq<u8>,
> {
    records.remove(key_of(id))
}

/// The items of the rows that can be read, in the rows' order. A row that
/// cannot be read is passed over.
pub open spec fn readable(rows: Seq<(Seq<u8>, Seq<u8>)>) -> Seq<ItemView>
    decreases rows.len(),
{
    if rows.len() == 0 {
        Seq::empty()
    } else {
        match decoded(rows.last().1) {
            Ok(item) => readable(rows.drop_last()).push(item),
            Err(_) => readable(rows.drop_last()),
        }
    }
}

/// Whether the items are the readable items of the records, each record
/// taken once, in some order, and then those that pass the filter.
pub open spec fn lists(items: Seq<ItemView>, records: Map<Seq<u8>, Seq<u8>>, filter: ItemFilterView)
    -> bool {
    exists|rows: Seq<(Seq<u8>, Seq<u8>)>| #[trigger]
        is_listing(rows, records) && items == selected(readable(rows), filter)
}

/// The filter that asks for nothing.
pub open spec fn no_filter() -> ItemFilterView {
    ItemFilterView { item_type: None, tags: None }
}

/// What a fetch gives for each answer of the store.
pub fn fetch_outcome(found: Result<Option<Vec<u8>>, StorageError>) -> (r: Result<Item, ServiceError>)
    ensures
        viewed(r) == (match found {
            Err(_) => Err(ServiceError::StorageError),
            Ok(None) => Err(ServiceError::NotFound),
            Ok(Some(bytes)) => match decoded(bytes@) {
                Ok(item) => Ok(item),
                Err(_) => Err(ServiceError::CorruptRecord),
            },
        }),
{
    match found {
        Err(_) => Err(ServiceError::StorageError),
        Ok(None) => Err(ServiceError::NotFound),
        Ok(Some(bytes)) => match decode(bytes.as_slice()) {
            Ok(item) => Ok(item),
            Err(_) => Err(ServiceError::CorruptRecord),
        },
    }
}

/// What a patch gives for each answer of the store to the fetch before it:
/// the merged item, or `NotFound` where there is no record or none that can
/// be read.
pub fn patch_outcome(found: Result<Option<Vec<u8>>, StorageError>, patch: UpdateItemPayload) -> (r:
    Result<Item, ServiceError>)
    ensures
        viewed(r) == (match found {
            Err(_) => Err(ServiceError::StorageError),
            Ok(None) => Err(ServiceError::NotFound),
            Ok(Some(bytes)) => match decoded(bytes@) {
                Ok(item) => Ok(merged(item, patch@)),
                Err(_) => Err(ServiceError::NotFound),
            },
        }),
{
    match found {
        Err(_) => Err(ServiceError::StorageError),
        Ok(None) => Err(ServiceError::NotFound),
        Ok(Some(bytes)) => match decode(bytes.as_slice()) {
            Ok(item) => Ok(item.apply_patch(patch)),
            Err(_) => Err(ServiceError::NotFound),
        },
    }
}

/// What a delete gives for each answer of the store.
pub fn delete_outcome(removed: Result<bool, StorageError>) -> (r: Result<(), ServiceError>)
    ensures
        r == (match removed {
            Err(_) => Err::<(), ServiceError>(ServiceError::StorageError),
            Ok(true) => Ok(()),
            Ok(false) => Err(ServiceError::NotFound),
        }),
{
    match removed {
        Err(_) => Err(ServiceError::StorageError),
        Ok(true) => Ok(()),
        Ok(false) => Err(ServiceError::NotFound),
    }
}

/// The items of the rows that can be read, in the rows' order.
pub fn decode_rows(rows: &Vec<(Vec<u8>, Vec<u8>)>) -> (items: Vec<Item>)
    ensures
        items.deep_view() == readable(pairs_of(*rows)),
{
    let ghost all = pairs_of(*rows);
    let mut items: Vec<Item> = Vec::new();
    let mut i: usize = 0;
    while i < rows.len()
        invariant
            i <= rows.len(),
            all == pairs_of(*rows),
            items.deep_view() == readable(all.take(i as int)),
        decreases rows.len() - i,
    {
        assert(all.take(i + 1).drop_last() =~= all.take(i as int));
        match decode(rows[i].1.as_slice()) {
            Ok(item) => {
                items.push(item);
            },
            Err(_) => {},
        }
        i += 1;
    }
    assert(all.take(rows.len() as int) =~= all);
    items
}

/// The item service over a store.
pub struct ItemService {
    store: ItemStore,
}

impl ItemService {
    /// The records in the service's store: the stored bytes by their keys.
    pub closed spec fn records(&self) -> Map<Seq<u8>, Seq<u8>> {
        self.store.records()
    }

    /// A service over the store.
    pub fn new(store: ItemStore) -> (service: ItemService)
        ensures
            service.records() == store.records(),
    {
        ItemService { store }
    }

    /// All items that can be read, each once, in the store's order.
    pub fn list_items(&self) -> (r: Result<Vec<Item>, ServiceError>)
        ensures
            match r {
                Ok(items) => lists(items.deep_view(), self.records(), no_filter()),
                Err(error) => error == ServiceError::StorageError,
            },
    {
        match self.store.iterate_all() {
            Err(_) => Err(ServiceError::StorageError),
            Ok(rows) => {
                let items = decode_rows(&rows);
                proof {
                    lemma_empty_filter_selects_all(readable(pairs_of(rows)));
                }
                Ok(items)
            },
        }
    }

    /// The items that can be read and pass the filter.
    pub fn get_filtered_items(&self, filter: &ItemFilter) -> (r: Result<Vec<Item>, ServiceError>)
        ensures
            match r {
                Ok(items) => lists(items.deep_view(), self.records(), filter@),
                Err(error) => error == ServiceError::StorageError,
            },
    {
        match self.store.iterate_all() {
            Err(_) => Err(ServiceError::StorageError),
            Ok(rows) => {
                let items = decode_rows(&rows);
                let chosen = select(&items, filter);
                Ok(chosen)
            },
        }
    }

    /// The item under the identifier.
    pub fn get_item(&self, id: &str) -> (r: Result<Item, ServiceError>)
        ensures
            r matches Err(ServiceError::StorageError) || viewed(r) == fetched(self.records(), id@),
    {
        fetch_outcome(self.store.get(id))
    }

    /// Creates an item from the payload, under a fresh identifier and with
    /// the present time as its creation time, and stores it.
    pub fn create_item(&mut self, payload: CreateItemPayload) -> (r: Result<Item, ServiceError>)
        ensures
            match r {
                Ok(item) => {
                    &&& is_identifier(item@.id)
                    &&& item@ == created(payload@, item@.id, item@.created_at)
                    &&& final(self).records() == old(self).records().insert(
                        key_of(item@.id),
                        encoded(item@),
                    )
                },
                Err(error) => error == ServiceError::StorageError,
            },
    {
        let id = fresh_identifier();
        let created_at = now_millis();
        let item = Item::from_payload(payload, id, created_at);
        let bytes = encode(&item);
        match self.store.put(item.id.as_str(), bytes) {
            Ok(()) => Ok(item),
            Err(_) => Err(ServiceError::StorageError),
        }
    }

    /// Creates and stores the item that a captured text describes.
    pub fn capture_item(&mut self, text: &str) -> (r: Result<Item, ServiceError>)
        ensures
            match r {
                Ok(item) => {
                    &&& is_identifier(item@.id)
                    &&& item@ == created(captured(text@), item@.id, item@.created_at)
                    &&& final(self).records() == old(self).records().insert(
                        key_of(item@.id),
                        encoded(item@),
                    )
                },
                Err(error) => error == ServiceError::StorageError,
            },
    {
        let payload = parse_capture(text);
        self.create_item(payload)
    }

    /// Patches the item under the identifier and stores the result under
    /// the same identifier.
    pub fn update_item(&mut self, id: &str, patch: UpdateItemPayload) -> (r: Result<
        Item,
        ServiceError,
    >)
        ensures
            r matches Err(ServiceError::StorageError) || {
                &&& viewed(r) == patched_item(old(self).records(), id@, patch@)
                &&& final(self).records() == records_after_patch(old(self).records(), id@, patch@)
            },
    {
        let found = self.store.get(id);
        match patch_outcome(found, patch) {
            Err(error) => Err(error),
            Ok(item) => {
                let bytes = encode(&item);
                match self.store.put(id, bytes) {
                    Ok(()) => Ok(item),
                    Err(_) => Err(ServiceError::StorageError),
                }
            },
        }
    }

    /// Deletes the item under the identifier.
    pub fn delete_item(&mut self, id: &str) -> (r: Result<(), ServiceError>)
        ensures
            r matches Err(ServiceError::StorageError) || {
                &&& r == deleted(old(self).records(), id@)
                &&& final(self).records() == records_after_delete(old(self).records(), id@)
            },
    {
        delete_outcome(self.store.delete(id))
    }
}

/// Delete, then fetch: whatever the records held, after deleting an
/// identifier a fetch of it gives `NotFound`.
pub proof fn lemma_fetch_after_delete(records: Map<Seq<u8>, Seq<u8>>, id: Seq<char>)
    ensures
        fetched(records_after_delete(records, id), id) == Err::<ItemView, ServiceError>(
            ServiceError::NotFound,
        ),
{
}

/// Deleting an identifier that has no record gives `NotFound`, and leaves
/// the records as they were.
pub proof fn lemma_delete_absent(records: Map<Seq<u8>, Seq<u8>>, id: Seq<char>)
    requires
        !records.contains_key(key_of(id)),
    ensures
        deleted(records, id) == Err::<(), ServiceError>(ServiceError::NotFound),
        records_after_delete(records, id) == records,
{
}

/// A second delete of the same identifier always gives `NotFound`.
pub proof fn lemma_second_delete(records: Map<Seq<u8>, Seq<u8>>, id: Seq<char>)
    ensures
        deleted(records_after_delete(records, id), id) == Err::<(), ServiceError>(
            ServiceError::NotFound,
        ),
{
}

/// Store, then fetch: where the bytes that an item is stored as read back as
/// the item, a fetch of its identifier gives the item, whatever the records
/// held before.
pub proof fn lemma_fetch_after_store(records: Map<Seq<u8>, Seq<u8>>, item: ItemView)
    ensures
        decoded(encoded(item)) == Ok::<ItemView, DecodeError>(item) ==> fetched(
            records.insert(key_of(item.id), encoded(item)),
            item.id,
        ) == Ok::<ItemView, ServiceError>(item),
{
}

/// Operations touch one item only: patching or deleting one identifier
/// changes nothing of what a fetch of another identifier gives.
pub proof fn lemma_other_items_untouched(
    records: Map<Seq<u8>, Seq<u8>>,
    id: Seq<char>,
    other: Seq<char>,
    patch: UpdateItemPayloadView,
)
    requires
        id != other,
    ensures
        fetched(records_after_patch(records, id, patch), other) == fetched(records, other),
        fetched(records_after_delete(records, id), other) == fetched(records, other),
{
    if key_of(id) == key_of(other) {
        lemma_same_bytes_same_text(id, other);
    }
}

/// No payload is refused: neither a fetch, nor a patch, nor a delete ever
/// gives `ValidationError`, and none gives `Unauthorized`.
pub proof fn lemma_payloads_are_accepted(
    records: Map<Seq<u8>, Seq<u8>>,
    id: Seq<char>,
    patch: UpdateItemPayloadView,
)
    ensures
        fetched(records, id) matches Err(error) ==> error == ServiceError::NotFound || error
            == ServiceError::CorruptRecord,
        patched_item(records, id, patch) matches Err(error) ==> error == ServiceError::NotFound,
        deleted(records, id) matches Err(error) ==> error == ServiceError::NotFound,
{
}

/// A patch through the service keeps the identifier and the creation time of
/// the stored item, and changes no other record.
pub proof fn lemma_update_keeps_identity(
    records: Map<Seq<u8>, Seq<u8>>,
    id: Seq<char>,
    patch: UpdateItemPayloadView,
)
    ensures
        patched_item(records, id, patch) matches Ok(item) ==> fetched(records, id) matches Ok(
            stored,
        ) && item.id == stored.id && item.created_at == stored.created_at,
        forall|key: Seq<u8>|
            key != key_of(id) ==> (#[trigger] records_after_patch(records, id, patch).contains_key(
                key,
            ) <==> records.contains_key(key)),
        forall|key: Seq<u8>|
            key != key_of(id) && records.contains_key(key) ==> #[trigger] records_after_patch(
                records,
                id,
                patch,
            )[key] == records[key],
{
}

/// An item is among the readable items of some rows exactly when one of the
/// rows holds bytes that read as that item.
pub proof fn lemma_readable_exactly(rows: Seq<(Seq<u8>, Seq<u8>)>, item: ItemView)
    ensures
        readable(rows).contains(item) <==> exists|i: int|
            0 <= i < rows.len() && decoded((#[trigger] rows[i]).1) == Ok::<ItemView, DecodeError>(
                item,
            ),
    decreases rows.len(),
{
    if rows.len() > 0 {
        let rest = rows.drop_last();
        let last = rows.last();
        lemma_readable_exactly(rest, item);
        let read = readable(rest);
        let all = readable(rows);
        let reads = |i: int|
            0 <= i < rows.len() && decoded(rows[i].1) == Ok::<ItemView, DecodeError>(item);
        if all.contains(item) {
            let k = choose|k: int| 0 <= k < all.len() && all[k] == item;
            if k < read.len() && all[k] == read[k] {
                assert(read.contains(item));
                let i = choose|i: int|
                    0 <= i < rest.len() && decoded((#[trigger] rest[i]).1) == Ok::<
                        ItemView,
                        DecodeError,
                    >(item);
                assert(rows[i] == rest[i]);
                assert(reads(i));
            } else {
                assert(decoded(last.1) == Ok::<ItemView, DecodeError>(item));
                assert(rows[rows.len() - 1] == last);
                assert(reads(rows.len() - 1));
            }
        }
        if exists|i: int|
            0 <= i < rows.len() && decoded((#[trigger] rows[i]).1) == Ok::<ItemView, DecodeError>(
                item,
            ) {
            let i = choose|i: int|
                0 <= i < rows.len() && decoded((#[trigger] rows[i]).1) == Ok::<
                    ItemView,
                    DecodeError,
                >(item);
            if i < rest.len() {
                assert(rest[i] == rows[i]);
                assert(read.contains(item));
                let k = choose|k: int| 0 <= k < read.len() && read[k] == item;
                assert(all[k] == item);
            } else {
                assert(rows[i] == last);
                assert(all == read.push(item));
                assert(all[read.len() as int] == item);
            }
        }
    }
}

/// What a listing holds: an item is in a listing of the records exactly when
/// it passes the filter and some record reads as that item. A record that
/// cannot be read contributes nothing, and fails nothing.
pub proof fn lemma_listing_exact(
    items: Seq<ItemView>,
    records: Map<Seq<u8>, Seq<u8>>,
    filter: ItemFilterView,
    item: ItemView,
)
    requires
        lists(items, records, filter),
    ensures
        items.contains(item) <==> passes(item, filter) && exists|key: Seq<u8>| #[trigger]
            records.contains_key(key) && decoded(records[key]) == Ok::<ItemView, DecodeError>(item),
{
    let rows = choose|rows: Seq<(Seq<u8>, Seq<u8>)>| #[trigger]
        is_listing(rows, records) && items == selected(readable(rows), filter);
    lemma_selected_exactly(readable(rows), filter, item);
    lemma_readable_exactly(rows, item);
    if readable(rows).contains(item) {
        let i = choose|i: int|
            0 <= i < rows.len() && decoded((#[trigger] rows[i]).1) == Ok::<ItemView, DecodeError>(
                item,
            );
        assert(records.contains_key(rows[i].0) && records[rows[i].0] == rows[i].1);
    }
    if exists|key: Seq<u8>| #[trigger]
        records.contains_key(key) && decoded(records[key]) == Ok::<ItemView, DecodeError>(item) {
        let key = choose|key: Seq<u8>| #[trigger]
            records.contains_key(key) && decoded(records[key]) == Ok::<ItemView, DecodeError>(item);
        let i = choose|i: int| 0 <= i < rows.len() && (#[trigger] rows[i]).0 == key;
        assert(records[rows[i].0] == rows[i].1);
        assert(decoded(rows[i].1) == Ok::<ItemView, DecodeError>(item));
    }
}

} // verus!

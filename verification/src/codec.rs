//! The stored form of an item: a JSON object, one member per field.
//!
//! The members are `id`, `type`, `title`, `tags` and `created_at`, and, for
//! each optional field that the item has, `content`, `code_location`,
//! `completed`, `due_date`, `start_time` and `end_time`. A field that the item
//! lacks has no member. Reading accepts a missing member and `null` alike as
//! the absent state, never as an empty text or a zero.

use vstd::prelude::*;
use vstd::utf8::encode_utf8;
use crate::json::{
    array_value, as_elements, as_flag, as_integer, as_text, flag_value, integer_value, is_null,
    json_of, json_parse, json_text, jsons_of, member, member_of, new_members, no_members,
    object_value, parse_document, print_document, set_member, text_value, Json,
};
use crate::model::{CodeLocation, CodeLocationView, Item, ItemView};

verus! {

/// Why bytes could not be read as an item.
#[derive(Debug, Clone, Copy, PartialEq, Eq, Structural)]
pub enum DecodeError {
    /// The bytes are no JSON document.
    Syntax,
    /// The document is JSON, but not an item: a member that an item needs
    /// is missing, or a member holds a value of the wrong kind.
    Schema,
}

/// The member under a key, where the document has one that is not `null`.
pub open spec fn present(doc: Json, key: Seq<char>) -> Option<Json> {
    match member_of(doc, key) {
        Some(Json::Null) => None,
        found => found,
    }
}

/// The text under a key that must be there.
pub open spec fn required_text(doc: Json, key: Seq<char>) -> Option<Seq<char>> {
    match member_of(doc, key) {
        Some(Json::Text(text)) => Some(text),
        _ => None,
    }
}

/// The integer under a key that must be there.
pub open spec fn required_integer(doc: Json, key: Seq<char>) -> Option<i64> {
    match member_of(doc, key) {
        Some(Json::Integer(n)) => if i64::MIN <= n <= i64::MAX {
            Some(n as i64)
        } else {
            None
        },
        _ => None,
    }
}

/// The text under a key that may be absent. The outer `None` stands for a
/// member of the wrong kind.
pub open spec fn optional_text(doc: Json, key: Seq<char>) -> Option<Option<Seq<char>>> {
    match present(doc, key) {
        None => Some(None),
        Some(Json::Text(text)) => Some(Some(text)),
        Some(_) => None,
    }
}

/// The integer under a key that may be absent.
pub open spec fn optional_integer(doc: Json, key: Seq<char>) -> Option<Option<i64>> {
    match present(doc, key) {
        None => Some(None),
        Some(Json::Integer(n)) => if i64::MIN <= n <= i64::MAX {
            Some(Some(n as i64))
        } else {
            None
        },
        Some(_) => None,
    }
}

/// The truth value under a key that may be absent.
pub open spec fn optional_flag(doc: Json, key: Seq<char>) -> Option<Option<bool>> {
    match present(doc, key) {
        None => Some(None),
        Some(Json::Bool(flag)) => Some(Some(flag)),
        Some(_) => None,
    }
}

/// Whether every element is a text.
pub open spec fn all_texts(elements: Seq<Json>) -> bool {
    forall|i: int| 0 <= i < elements.len() ==> #[trigger] elements[i] is Text
}

/// The texts of an array of texts.
pub open spec fn text_list(doc: Json) -> Option<Seq<Seq<char>>> {
    match doc {
        Json::Array(elements) => if all_texts(elements) {
            Some(Seq::new(elements.len(), |i: int| elements[i]->Text_0))
        } else {
            None
        },
        _ => None,
    }
}

/// The tags of a stored item; none where the member is absent.
pub open spec fn stored_tags(doc: Json) -> Option<Seq<Seq<char>>> {
    match present(doc, "tags"@) {
        None => Some(Seq::empty()),
        Some(list) => text_list(list),
    }
}

/// The code location that a document stands for.
pub open spec fn location_of_json(doc: Json) -> Option<CodeLocationView> {
    match (required_text(doc, "file_path"@), required_integer(doc, "line_number"@)) {
        (Some(file_path), Some(line)) => if 0 <= line <= u32::MAX {
            Some(CodeLocationView { file_path, line_number: line as u32 })
        } else {
            None
        },
        _ => None,
    }
}

/// The code location of a stored item.
pub open spec fn stored_location(doc: Json) -> Option<Option<CodeLocationView>> {
    match present(doc, "code_location"@) {
        None => Some(None),
        Some(location) => match location_of_json(location) {
            Some(found) => Some(Some(found)),
            None => None,
        },
    }
}

/// The item that a document stands for; `None` where it stands for none.
pub open spec fn item_of_json(doc: Json) -> Option<ItemView> {
    let id = required_text(doc, "id"@);
    let item_type = required_text(doc, "type"@);
    let title = required_text(doc, "title"@);
    let content = optional_text(doc, "content"@);
    let tags = stored_tags(doc);
    let code_location = stored_location(doc);
    let created_at = required_integer(doc, "created_at"@);
    let completed = optional_flag(doc, "completed"@);
    let due_date = optional_integer(doc, "due_date"@);
    let start_time = optional_integer(doc, "start_time"@);
    let end_time = optional_integer(doc, "end_time"@);
    if id is Some && item_type is Some && title is Some && content is Some && tags is Some
        && code_location is Some && created_at is Some && completed is Some && due_date is Some
        && start_time is Some && end_time is Some {
        Some(
            ItemView {
                id: id->0,
                item_type: item_type->0,
                title: title->0,
                content: content->0,
                tags: tags->0,
                code_location: code_location->0,
                created_at: created_at->0,
                completed: completed->0,
                due_date: due_date->0,
                start_time: start_time->0,
                end_time: end_time->0,
            },
        )
    } else {
        None
    }
}

/// What reading the bytes as an item gives.
pub open spec fn decoded(bytes: Seq<u8>) -> Result<ItemView, DecodeError> {
    match json_parse(bytes) {
        None => Err(DecodeError::Syntax),
        Some(doc) => match item_of_json(doc) {
            Some(item) => Ok(item),
            None => Err(DecodeError::Schema),
        },
    }
}

/// The members with one more, where there is a value for it.
pub open spec fn with_optional(members: Map<Seq<char>, Json>, key: Seq<char>, value: Option<Json>)
    -> Map<Seq<char>, Json> {
    match value {
        Some(json) => members.insert(key, json),
        None => members,
    }
}

/// The array of the texts.
pub open spec fn json_of_texts(texts: Seq<Seq<char>>) -> Json {
    Json::Array(texts.map_values(|text: Seq<char>| Json::Text(text)))
}

/// The document of a code location.
pub open spec fn json_of_location(location: CodeLocationView) -> Json {
    Json::Object(
        no_members().insert("file_path"@, Json::Text(location.file_path)).insert(
            "line_number"@,
            Json::Integer(location.line_number as int),
        ),
    )
}

/// The document of a text, where there is one.
pub open spec fn json_of_optional_text(text: Option<Seq<char>>) -> Option<Json> {
    match text {
        Some(t) => Some(Json::Text(t)),
        None => None,
    }
}

/// The document of an integer, where there is one.
pub open spec fn json_of_optional_integer(n: Option<i64>) -> Option<Json> {
    match n {
        Some(n) => Some(Json::Integer(n as int)),
        None => None,
    }
}

/// The document of a truth value, where there is one.
pub open spec fn json_of_optional_flag(flag: Option<bool>) -> Option<Json> {
    match flag {
        Some(flag) => Some(Json::Bool(flag)),
        None => None,
    }
}

/// The document of a code location, where there is one.
pub open spec fn json_of_optional_location(location: Option<CodeLocationView>) -> Option<Json> {
    match location {
        Some(location) => Some(json_of_location(location)),
        None => None,
    }
}

/// The members that every stored item has.
pub open spec fn required_members(item: ItemView) -> Map<Seq<char>, Json> {
    no_members().insert("id"@, Json::Text(item.id)).insert("type"@, Json::Text(item.item_type))
        .insert("title"@, Json::Text(item.title)).insert("tags"@, json_of_texts(item.tags)).insert(
        "created_at"@,
        Json::Integer(item.created_at as int),
    )
}

/// The members of a stored item.
pub open spec fn members_of_item(item: ItemView) -> Map<Seq<char>, Json> {
    let m0 = required_members(item);
    let m1 = with_optional(m0, "content"@, json_of_optional_text(item.content));
    let m2 = with_optional(m1, "code_location"@, json_of_optional_location(item.code_location));
    let m3 = with_optional(m2, "completed"@, json_of_optional_flag(item.completed));
    let m4 = with_optional(m3, "due_date"@, json_of_optional_integer(item.due_date));
    let m5 = with_optional(m4, "start_time"@, json_of_optional_integer(item.start_time));
    with_optional(m5, "end_time"@, json_of_optional_integer(item.end_time))
}

/// The document that an item is stored as.
pub open spec fn json_of_item(item: ItemView) -> Json {
    Json::Object(members_of_item(item))
}

/// The bytes that an item is stored as: the UTF-8 form of the compact text
/// of its document.
pub open spec fn encoded(item: ItemView) -> Seq<u8> {
    encode_utf8(json_text(json_of_item(item)))
}

/// The member under a key that is there and not `null`.
fn read_present<'a>(doc: &'a serde_json::Value, key: &str) -> (r: Option<&'a serde_json::Value>)
    ensures
        match r {
            Some(found) => present(json_of(*doc), key@) == Some(json_of(*found)),
            None => present(json_of(*doc), key@) is None,
        },
{
    match member(doc, key) {
        Some(found) => if is_null(found) {
            None
        } else {
            Some(found)
        },
        None => None,
    }
}

/// Reads the text under a key that must be there.
fn read_required_text(doc: &serde_json::Value, key: &str) -> (r: Option<String>)
    ensures
        r.deep_view() == required_text(json_of(*doc), key@),
{
    match member(doc, key) {
        Some(found) => match as_text(found) {
            Some(text) => Some(text.to_owned()),
            None => None,
        },
        None => None,
    }
}

/// Reads the integer under a key that must be there.
fn read_required_integer(doc: &serde_json::Value, key: &str) -> (r: Option<i64>)
    ensures
        r == required_integer(json_of(*doc), key@),
{
    match member(doc, key) {
        Some(found) => as_integer(found),
        None => None,
    }
}

/// Reads the text under a key that may be absent.
fn read_optional_text(doc: &serde_json::Value, key: &str) -> (r: Option<Option<String>>)
    ensures
        r.deep_view() == optional_text(json_of(*doc), key@),
{
    match read_present(doc, key) {
        None => Some(None),
        Some(found) => match as_text(found) {
            Some(text) => Some(Some(text.to_owned())),
            None => None,
        },
    }
}

/// Reads the integer under a key that may be absent.
fn read_optional_integer(doc: &serde_json::Value, key: &str) -> (r: Option<Option<i64>>)
    ensures
        r == optional_integer(json_of(*doc), key@),
{
    match read_present(doc, key) {
        None => Some(None),
        Some(found) => match as_integer(found) {
            Some(n) => Some(Some(n)),
            None => None,
        },
    }
}

/// Reads the truth value under a key that may be absent.
fn read_optional_flag(doc: &serde_json::Value, key: &str) -> (r: Option<Option<bool>>)
    ensures
        r == optional_flag(json_of(*doc), key@),
{
    match read_present(doc, key) {
        None => Some(None),
        Some(found) => match as_flag(found) {
            Some(flag) => Some(Some(flag)),
            None => None,
        },
    }
}

/// Reads an array of texts.
fn read_texts(list: &serde_json::Value) -> (r: Option<Vec<String>>)
    ensures
        r.deep_view() == text_list(json_of(*list)),
{
    match as_elements(list) {
        None => None,
        Some(elements) => {
            let ghost docs = jsons_of(elements@);
            let mut texts: Vec<String> = Vec::new();
            let mut i: usize = 0;
            while i < elements.len()
                invariant
                    i <= elements.len(),
                    docs == jsons_of(elements@),
                    json_of(*list) == Json::Array(docs),
                    texts.len() == i,
                    forall|j: int| 0 <= j < i ==> #[trigger] docs[j] == Json::Text(texts[j]@),
                decreases elements.len() - i,
            {
                match as_text(&elements[i]) {
                    Some(text) => {
                        texts.push(text.to_owned());
                    },
                    None => {
                        assert(!(docs[i as int] is Text));
                        return None;
                    },
                }
                i += 1;
            }
            Some(texts)
        },
    }
}

/// Reads the tags of a stored item.
fn read_tags(doc: &serde_json::Value) -> (r: Option<Vec<String>>)
    ensures
        r.deep_view() == stored_tags(json_of(*doc)),
{
    match read_present(doc, "tags") {
        None => {
            let tags: Vec<String> = Vec::new();
            Some(tags)
        },
        Some(list) => read_texts(list),
    }
}

/// Reads the code location of a stored item.
fn read_location(doc: &serde_json::Value) -> (r: Option<Option<CodeLocation>>)
    ensures
        r.deep_view() == stored_location(json_of(*doc)),
{
    match read_present(doc, "code_location") {
        None => Some(None),
        Some(location) => {
            let file_path = read_required_text(location, "file_path");
            let line = read_required_integer(location, "line_number");
            match (file_path, line) {
                (Some(file_path), Some(line)) => if 0 <= line && line <= 0xFFFF_FFFF {
                    Some(Some(CodeLocation { file_path, line_number: line as u32 }))
                } else {
                    None
                },
                _ => None,
            }
        },
    }
}

/// Reads a document as an item.
fn read_item(doc: &serde_json::Value) -> (r: Option<Item>)
    ensures
        r.deep_view() == item_of_json(json_of(*doc)),
{
    let id = read_required_text(doc, "id");
    let item_type = read_required_text(doc, "type");
    let title = read_required_text(doc, "title");
    let content = read_optional_text(doc, "content");
    let tags = read_tags(doc);
    let code_location = read_location(doc);
    let created_at = read_required_integer(doc, "created_at");
    let completed = read_optional_flag(doc, "completed");
    let due_date = read_optional_integer(doc, "due_date");
    let start_time = read_optional_integer(doc, "start_time");
    let end_time = read_optional_integer(doc, "end_time");
    match (id, item_type, title, content, tags, code_location) {
        (Some(id), Some(item_type), Some(title), Some(content), Some(tags), Some(code_location)) => {
            match (created_at, completed, due_date, start_time, end_time) {
                (
                    Some(created_at),
                    Some(completed),
                    Some(due_date),
                    Some(start_time),
                    Some(end_time),
                ) => Some(
                    Item {
                        id,
                        item_type,
                        title,
                        content,
                        tags,
                        code_location,
                        created_at,
                        completed,
                        due_date,
                        start_time,
                        end_time,
                    },
                ),
                _ => None,
            }
        },
        _ => None,
    }
}

/// Reads stored bytes as an item.
///
/// Succeeds exactly on the bytes that are a JSON document that stands for an
/// item; fails with `Syntax` on bytes that are no JSON, and with `Schema` on
/// every other document.
pub fn decode(bytes: &[u8]) -> (r: Result<Item, DecodeError>)
    ensures
        match r {
            Ok(item) => decoded(bytes@) == Ok::<ItemView, DecodeError>(item@),
            Err(error) => decoded(bytes@) == Err::<ItemView, DecodeError>(error),
        },
{
    match parse_document(bytes) {
        Err(_) => Err(DecodeError::Syntax),
        Ok(doc) => match read_item(&doc) {
            Some(item) => Ok(item),
            None => Err(DecodeError::Schema),
        },
    }
}

/// Writes texts as an array.
fn write_texts(texts: &Vec<String>) -> (list: serde_json::Value)
    ensures
        json_of(list) == json_of_texts(texts.deep_view()),
{
    let mut elements: Vec<serde_json::Value> = Vec::new();
    let mut i: usize = 0;
    while i < texts.len()
        invariant
            i <= texts.len(),
            elements.len() == i,
            forall|j: int| 0 <= j < i ==> json_of(#[trigger] elements[j]) == Json::Text(texts[j]@),
        decreases texts.len() - i,
    {
        elements.push(text_value(texts[i].clone()));
        i += 1;
    }
    assert(jsons_of(elements@) =~= texts.deep_view().map_values(
        |text: Seq<char>| Json::Text(text),
    ));
    array_value(elements)
}

/// Writes a code location as an object.
fn write_location(location: &CodeLocation) -> (doc: serde_json::Value)
    ensures
        json_of(doc) == json_of_location(location@),
{
    let mut members = new_members();
    set_member(&mut members, "file_path".to_owned(), text_value(location.file_path.clone()));
    set_member(&mut members, "line_number".to_owned(), integer_value(location.line_number as i64));
    object_value(members)
}

/// Sets the member to the integer, where there is one.
fn write_optional_integer(members: &mut serde_json::Map<String, serde_json::Value>, key: &str, n: Option<i64>)
    ensures
        crate::json::members_of(*final(members)) == with_optional(
            crate::json::members_of(*old(members)),
            key@,
            json_of_optional_integer(n),
        ),
{
    match n {
        Some(n) => set_member(members, key.to_owned(), integer_value(n)),
        None => {},
    }
}

/// Writes an item as the bytes it is stored as.
pub fn encode(item: &Item) -> (bytes: Vec<u8>)
    ensures
        bytes@ == encoded(item@),
{
    let mut members = new_members();
    set_member(&mut members, "id".to_owned(), text_value(item.id.clone()));
    set_member(&mut members, "type".to_owned(), text_value(item.item_type.clone()));
    set_member(&mut members, "title".to_owned(), text_value(item.title.clone()));
    set_member(&mut members, "tags".to_owned(), write_texts(&item.tags));
    set_member(&mut members, "created_at".to_owned(), integer_value(item.created_at));
    match &item.content {
        Some(text) => set_member(&mut members, "content".to_owned(), text_value(text.clone())),
        None => {},
    }
    match &item.code_location {
        Some(location) => set_member(
            &mut members,
            "code_location".to_owned(),
            write_location(location),
        ),
        None => {},
    }
    match item.completed {
        Some(flag) => set_member(&mut members, "completed".to_owned(), flag_value(flag)),
        None => {},
    }
    write_optional_integer(&mut members, "due_date", item.due_date);
    write_optional_integer(&mut members, "start_time", item.start_time);
    write_optional_integer(&mut members, "end_time", item.end_time);
    let doc = object_value(members);
    let text = print_document(&doc);
    text.as_str().as_bytes_vec()
}

/// The names of the members are what their literals spell, so that no two
/// of them are equal.
proof fn lemma_member_names()
    ensures
        "id"@ =~= seq!['i', 'd'],
        "type"@ =~= seq!['t', 'y', 'p', 'e'],
        "title"@ =~= seq!['t', 'i', 't', 'l', 'e'],
        "tags"@ =~= seq!['t', 'a', 'g', 's'],
        "created_at"@ =~= seq!['c', 'r', 'e', 'a', 't', 'e', 'd', '_', 'a', 't'],
        "content"@ =~= seq!['c', 'o', 'n', 't', 'e', 'n', 't'],
        "code_location"@ =~= seq!['c', 'o', 'd', 'e', '_', 'l', 'o', 'c', 'a', 't', 'i', 'o', 'n'],
        "completed"@ =~= seq!['c', 'o', 'm', 'p', 'l', 'e', 't', 'e', 'd'],
        "due_date"@ =~= seq!['d', 'u', 'e', '_', 'd', 'a', 't', 'e'],
        "start_time"@ =~= seq!['s', 't', 'a', 'r', 't', '_', 't', 'i', 'm', 'e'],
        "end_time"@ =~= seq!['e', 'n', 'd', '_', 't', 'i', 'm', 'e'],
        "file_path"@ =~= seq!['f', 'i', 'l', 'e', '_', 'p', 'a', 't', 'h'],
        "line_number"@ =~= seq!['l', 'i', 'n', 'e', '_', 'n', 'u', 'm', 'b', 'e', 'r'],
{
    reveal_strlit("id");
    reveal_strlit("type");
    reveal_strlit("title");
    reveal_strlit("tags");
    reveal_strlit("created_at");
    reveal_strlit("content");
    reveal_strlit("code_location");
    reveal_strlit("completed");
    reveal_strlit("due_date");
    reveal_strlit("start_time");
    reveal_strlit("end_time");
    reveal_strlit("file_path");
    reveal_strlit("line_number");
}

/// Reading the document of a code location gives the location back.
pub proof fn lemma_location_round_trip(location: CodeLocationView)
    ensures
        location_of_json(json_of_location(location)) == Some(location),
{
    lemma_member_names();
}

/// Reading the array of some texts gives the texts back.
pub proof fn lemma_texts_round_trip(texts: Seq<Seq<char>>)
    ensures
        text_list(json_of_texts(texts)) == Some(texts),
{
    let elements = texts.map_values(|text: Seq<char>| Json::Text(text));
    assert(all_texts(elements));
    assert(Seq::new(elements.len(), |i: int| elements[i]->Text_0) =~= texts);
}

/// Round trip: the item read from the document that an item is stored as is
/// that item, with each optional field absent or present as it was.
pub proof fn lemma_document_round_trip(item: ItemView)
    ensures
        item_of_json(json_of_item(item)) == Some(item),
{
    lemma_member_names();
    lemma_texts_round_trip(item.tags);
    if item.code_location is Some {
        lemma_location_round_trip(item.code_location->0);
    }
}

/// Round trip through the stored bytes, as far as it is this crate's: where
/// `serde_json` reads the text that it printed for an item's document back
/// as that document, decoding the encoding of the item gives the item.
pub proof fn lemma_round_trip_through_bytes(item: ItemView)
    ensures
        json_parse(encoded(item)) == Some(json_of_item(item)) ==> decoded(encoded(item)) == Ok::<
            ItemView,
            DecodeError,
        >(item),
{
    lemma_document_round_trip(item);
}

/// An optional field is stored only where the item has it: the document of
/// an item without a content has no member `content`, and an empty content
/// is stored as the empty text.
pub proof fn lemma_absent_is_not_empty(item: ItemView)
    ensures
        item.content is None ==> member_of(json_of_item(item), "content"@) is None,
        item.content == Some(Seq::<char>::empty()) ==> member_of(json_of_item(item), "content"@)
            == Some(Json::Text(Seq::empty())),
{
    lemma_member_names();
}

} // verus!

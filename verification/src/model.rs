//! The item record, the payloads that create and patch it, and their
//! mathematical views.

use vstd::prelude::*;

verus! {

/// A reference into source code.
#[derive(Debug, PartialEq, Eq)]
pub struct CodeLocation {
    pub file_path: String,
    pub line_number: u32,
}

/// What a [`CodeLocation`] is, as plain mathematical values.
pub struct CodeLocationView {
    pub file_path: Seq<char>,
    pub line_number: u32,
}

impl View for CodeLocation {
    type V = CodeLocationView;

    open spec fn view(&self) -> CodeLocationView {
        CodeLocationView { file_path: self.file_path@, line_number: self.line_number }
    }
}

impl DeepView for CodeLocation {
    type V = CodeLocationView;

    open spec fn deep_view(&self) -> CodeLocationView {
        self@
    }
}

impl Clone for CodeLocation {
    fn clone(&self) -> (r: Self)
        ensures
            r@ == self@,
    {
        CodeLocation { file_path: self.file_path.clone(), line_number: self.line_number }
    }
}

/// The one persisted entity: a note, a task, an event or any other kind.
///
/// `id` and `created_at` are assigned once, when the item is made, and no
/// operation of this crate changes them afterwards.
#[derive(Debug, PartialEq, Eq)]
pub struct Item {
    pub id: String,
    pub item_type: String,
    pub title: String,
    pub content: Option<String>,
    pub tags: Vec<String>,
    pub code_location: Option<CodeLocation>,
    pub created_at: i64,
    pub completed: Option<bool>,
    pub due_date: Option<i64>,
    pub start_time: Option<i64>,
    pub end_time: Option<i64>,
}

/// What an [`Item`] is, as plain mathematical values. An optional field is
/// `None` when absent; an absent text is not an empty text.
pub struct ItemView {
    pub id: Seq<char>,
    pub item_type: Seq<char>,
    pub title: Seq<char>,
    pub content: Option<Seq<char>>,
    pub tags: Seq<Seq<char>>,
    pub code_location: Option<CodeLocationView>,
    pub created_at: i64,
    pub completed: Option<bool>,
    pub due_date: Option<i64>,
    pub start_time: Option<i64>,
    pub end_time: Option<i64>,
}

impl View for Item {
    type V = ItemView;

    open spec fn view(&self) -> ItemView {
        ItemView {
            id: self.id@,
            item_type: self.item_type@,
            title: self.title@,
            content: self.content.deep_view(),
            tags: self.tags.deep_view(),
            code_location: self.code_location.deep_view(),
            created_at: self.created_at,
            completed: self.completed,
            due_date: self.due_date,
            start_time: self.start_time,
            end_time: self.end_time,
        }
    }
}

impl DeepView for Item {
    type V = ItemView;

    open spec fn deep_view(&self) -> ItemView {
        self@
    }
}

/// What a create request supplies. The identifier and the creation time are
/// not among its fields: a request cannot choose them.
#[derive(Debug, PartialEq, Eq)]
pub struct CreateItemPayload {
    pub item_type: String,
    pub title: String,
    pub content: Option<String>,
    pub tags: Option<Vec<String>>,
    pub code_location: Option<CodeLocation>,
    pub completed: Option<bool>,
    pub due_date: Option<i64>,
    pub start_time: Option<i64>,
    pub end_time: Option<i64>,
}

/// What a [`CreateItemPayload`] is, as plain mathematical values.
pub struct CreateItemPayloadView {
    pub item_type: Seq<char>,
    pub title: Seq<char>,
    pub content: Option<Seq<char>>,
    pub tags: Option<Seq<Seq<char>>>,
    pub code_location: Option<CodeLocationView>,
    pub completed: Option<bool>,
    pub due_date: Option<i64>,
    pub start_time: Option<i64>,
    pub end_time: Option<i64>,
}

impl View for CreateItemPayload {
    type V = CreateItemPayloadView;

    open spec fn view(&self) -> CreateItemPayloadView {
        CreateItemPayloadView {
            item_type: self.item_type@,
            title: self.title@,
            content: self.content.deep_view(),
            tags: self.tags.deep_view(),
            code_location: self.code_location.deep_view(),
            completed: self.completed,
            due_date: self.due_date,
            start_time: self.start_time,
            end_time: self.end_time,
        }
    }
}

/// A partial update: each field that is `Some` replaces the item's field,
/// each that is `None` leaves it as it was. It has no field for the
/// identifier or the creation time.
#[derive(Debug, PartialEq, Eq)]
pub struct UpdateItemPayload {
    pub item_type: Option<String>,
    pub title: Option<String>,
    pub content: Option<String>,
    pub tags: Option<Vec<String>>,
    pub code_location: Option<CodeLocation>,
    pub completed: Option<bool>,
    pub due_date: Option<i64>,
    pub start_time: Option<i64>,
    pub end_time: Option<i64>,
}

/// What an [`UpdateItemPayload`] is, as plain mathematical values.
pub struct UpdateItemPayloadView {
    pub item_type: Option<Seq<char>>,
    pub title: Option<Seq<char>>,
    pub content: Option<Seq<char>>,
    pub tags: Option<Seq<Seq<char>>>,
    pub code_location: Option<CodeLocationView>,
    pub completed: Option<bool>,
    pub due_date: Option<i64>,
    pub start_time: Option<i64>,
    pub end_time: Option<i64>,
}

impl View for UpdateItemPayload {
    type V = UpdateItemPayloadView;

    open spec fn view(&self) -> UpdateItemPayloadView {
        UpdateItemPayloadView {
            item_type: self.item_type.deep_view(),
            title: self.title.deep_view(),
            content: self.content.deep_view(),
            tags: self.tags.deep_view(),
            code_location: self.code_location.deep_view(),
            completed: self.completed,
            due_date: self.due_date,
            start_time: self.start_time,
            end_time: self.end_time,
        }
    }
}

/// The patch that changes nothing.
pub open spec fn empty_patch() -> UpdateItemPayloadView {
    UpdateItemPayloadView {
        item_type: None,
        title: None,
        content: None,
        tags: None,
        code_location: None,
        completed: None,
        due_date: None,
        start_time: None,
        end_time: None,
    }
}

/// The item that a create request yields under a given identifier and
/// creation time. Missing tags become the empty sequence.
pub open spec fn created(payload: CreateItemPayloadView, id: Seq<char>, created_at: i64)
    -> ItemView {
    ItemView {
        id,
        item_type: payload.item_type,
        title: payload.title,
        content: payload.content,
        tags: match payload.tags {
            Some(tags) => tags,
            None => Seq::empty(),
        },
        code_location: payload.code_location,
        created_at,
        completed: payload.completed,
        due_date: payload.due_date,
        start_time: payload.start_time,
        end_time: payload.end_time,
    }
}

/// The patched value of one field.
pub open spec fn patched<T>(current: T, update: Option<T>) -> T {
    match update {
        Some(value) => value,
        None => current,
    }
}

/// The patched value of one optional field: a patch can set it, not clear it.
pub open spec fn patched_optional<T>(current: Option<T>, update: Option<T>) -> Option<T> {
    match update {
        Some(value) => Some(value),
        None => current,
    }
}

/// The field-level merge of a patch into an item.
pub open spec fn merged(item: ItemView, patch: UpdateItemPayloadView) -> ItemView {
    ItemView {
        id: item.id,
        item_type: patched(item.item_type, patch.item_type),
        title: patched(item.title, patch.title),
        content: patched_optional(item.content, patch.content),
        tags: patched(item.tags, patch.tags),
        code_location: patched_optional(item.code_location, patch.code_location),
        created_at: item.created_at,
        completed: patched_optional(item.completed, patch.completed),
        due_date: patched_optional(item.due_date, patch.due_date),
        start_time: patched_optional(item.start_time, patch.start_time),
        end_time: patched_optional(item.end_time, patch.end_time),
    }
}

/// A copy of a list of texts.
pub fn clone_texts(texts: &Vec<String>) -> (r: Vec<String>)
    ensures
        r.deep_view() == texts.deep_view(),
{
    let mut out: Vec<String> = Vec::new();
    let mut i: usize = 0;
    while i < texts.len()
        invariant
            i <= texts.len(),
            out.len() == i,
            forall|j: int| 0 <= j < i ==> out[j]@ == texts[j]@,
        decreases texts.len() - i,
    {
        out.push(texts[i].clone());
        i += 1;
    }
    out
}

impl Clone for Item {
    fn clone(&self) -> (r: Self)
        ensures
            r@ == self@,
    {
        Item {
            id: self.id.clone(),
            item_type: self.item_type.clone(),
            title: self.title.clone(),
            content: match &self.content {
                Some(text) => Some(text.clone()),
                None => None,
            },
            tags: clone_texts(&self.tags),
            code_location: match &self.code_location {
                Some(location) => Some(location.clone()),
                None => None,
            },
            created_at: self.created_at,
            completed: self.completed,
            due_date: self.due_date,
            start_time: self.start_time,
            end_time: self.end_time,
        }
    }
}

impl Item {
    /// Builds the item of a create request under the identifier and the
    /// creation time that the caller assigned.
    pub fn from_payload(payload: CreateItemPayload, id: String, created_at: i64) -> (item: Item)
        ensures
            item@ == created(payload@, id@, created_at),
    {
        let tags: Vec<String> = match payload.tags {
            Some(tags) => tags,
            None => Vec::new(),
        };
        assert(payload.tags is None ==> tags.deep_view() =~= Seq::<Seq<char>>::empty());
        Item {
            id,
            item_type: payload.item_type,
            title: payload.title,
            content: payload.content,
            tags,
            code_location: payload.code_location,
            created_at,
            completed: payload.completed,
            due_date: payload.due_date,
            start_time: payload.start_time,
            end_time: payload.end_time,
        }
    }

    /// Merges a patch into the item: every field that the patch holds
    /// replaces the item's, every other field stays. The identifier and the
    /// creation time always stay.
    pub fn apply_patch(self, patch: UpdateItemPayload) -> (item: Item)
        ensures
            item@ == merged(self@, patch@),
            item@.id == self@.id,
            item@.created_at == self@.created_at,
    {
        Item {
            id: self.id,
            item_type: match patch.item_type {
                Some(value) => value,
                None => self.item_type,
            },
            title: match patch.title {
                Some(value) => value,
                None => self.title,
            },
            content: match patch.content {
                Some(value) => Some(value),
                None => self.content,
            },
            tags: match patch.tags {
                Some(value) => value,
                None => self.tags,
            },
            code_location: match patch.code_location {
                Some(value) => Some(value),
                None => self.code_location,
            },
            created_at: self.created_at,
            completed: match patch.completed {
                Some(value) => Some(value),
                None => self.completed,
            },
            due_date: match patch.due_date {
                Some(value) => Some(value),
                None => self.due_date,
            },
            start_time: match patch.start_time {
                Some(value) => Some(value),
                None => self.start_time,
            },
            end_time: match patch.end_time {
                Some(value) => Some(value),
                None => self.end_time,
            },
        }
    }
}

/// A patch never changes the identifier or the creation time of an item,
/// whatever it holds.
pub proof fn lemma_patch_keeps_identity(item: ItemView, patch: UpdateItemPayloadView)
    ensures
        merged(item, patch).id == item.id,
        merged(item, patch).created_at == item.created_at,
{
}

/// A patch that holds only a title changes the title and nothing else.
pub proof fn lemma_title_patch_changes_title_only(item: ItemView, title: Seq<char>)
    ensures
        merged(item, UpdateItemPayloadView { title: Some(title), ..empty_patch() })
            == (ItemView { title, ..item }),
{
}

/// A field that a patch does not hold keeps its value, whatever else the
/// patch holds.
pub proof fn lemma_absent_fields_stay(item: ItemView, patch: UpdateItemPayloadView)
    ensures
        patch.item_type is None ==> merged(item, patch).item_type == item.item_type,
        patch.title is None ==> merged(item, patch).title == item.title,
        patch.content is None ==> merged(item, patch).content == item.content,
        patch.tags is None ==> merged(item, patch).tags == item.tags,
        patch.code_location is None ==> merged(item, patch).code_location == item.code_location,
        patch.completed is None ==> merged(item, patch).completed == item.completed,
        patch.due_date is None ==> merged(item, patch).due_date == item.due_date,
        patch.start_time is None ==> merged(item, patch).start_time == item.start_time,
        patch.end_time is None ==> merged(item, patch).end_time == item.end_time,
{
}

/// The empty patch changes nothing.
pub proof fn lemma_empty_patch_is_identity(item: ItemView)
    ensures
        merged(item, empty_patch()) == item,
{
}

} // verus!

use item_tracker::codec::{decode, encode};
use item_tracker::filter::ItemFilter;
use item_tracker::model::{CodeLocation, CreateItemPayload, Item, UpdateItemPayload};
use item_tracker::service::{
    decode_rows, delete_outcome, fetch_outcome, patch_outcome, ItemService, ServiceError,
};
use item_tracker::store::{ItemStore, StorageError};

fn temporary_store() -> ItemStore {
    ItemStore::new(sled::Config::new().temporary(true).open().unwrap())
}

fn service() -> ItemService {
    ItemService::new(temporary_store())
}

fn payload(item_type: &str, title: &str, tags: Option<&[&str]>) -> CreateItemPayload {
    CreateItemPayload {
        item_type: item_type.to_string(),
        title: title.to_string(),
        content: None,
        tags: tags.map(|list| list.iter().map(|t| t.to_string()).collect()),
        code_location: None,
        completed: None,
        due_date: None,
        start_time: None,
        end_time: None,
    }
}

fn empty_patch() -> UpdateItemPayload {
    UpdateItemPayload {
        item_type: None,
        title: None,
        content: None,
        tags: None,
        code_location: None,
        completed: None,
        due_date: None,
        start_time: None,
        end_time: None,
    }
}

fn stored(id: &str) -> Item {
    Item {
        id: id.to_string(),
        item_type: "task".to_string(),
        title: "Old".to_string(),
        content: Some("body".to_string()),
        tags: vec!["a".to_string()],
        code_location: None,
        created_at: 77,
        completed: Some(false),
        due_date: None,
        start_time: None,
        end_time: None,
    }
}

fn sorted_ids(items: &[Item]) -> Vec<String> {
    let mut ids: Vec<String> = items.iter().map(|i| i.id.clone()).collect();
    ids.sort();
    ids
}

#[test]
fn store_get_put_delete() {
    let mut store = temporary_store();
    assert_eq!(store.get("k"), Ok(None));
    assert_eq!(store.put("k", vec![1, 2, 3]), Ok(()));
    assert_eq!(store.get("k"), Ok(Some(vec![1, 2, 3])));
    assert_eq!(store.put("k", vec![]), Ok(()));
    assert_eq!(store.get("k"), Ok(Some(vec![])));
    assert_eq!(store.get("K"), Ok(None));
    assert_eq!(store.delete("k"), Ok(true));
    assert_eq!(store.delete("k"), Ok(false));
    assert_eq!(store.get("k"), Ok(None));
}

#[test]
fn store_lists_every_record_once() {
    let mut store = temporary_store();
    assert_eq!(store.iterate_all(), Ok(vec![]));
    store.put("b", vec![2]).unwrap();
    store.put("a", vec![1]).unwrap();
    store.put("clé", vec![3]).unwrap();
    store.put("a", vec![9]).unwrap();
    store.delete("b").unwrap();
    let mut rows = store.iterate_all().unwrap();
    rows.sort();
    assert_eq!(rows, vec![(b"a".to_vec(), vec![9]), ("clé".as_bytes().to_vec(), vec![3])]);
}

#[test]
fn create_assigns_identifier_and_time() {
    let mut service = service();
    let item = service.create_item(payload("task", "Write", Some(&["x", "y"]))).unwrap();
    assert_eq!(item.item_type, "task");
    assert_eq!(item.title, "Write");
    assert_eq!(item.tags, vec!["x", "y"]);
    assert_eq!(item.content, None);
    assert_eq!(item.id.len(), 36);
    for (i, c) in item.id.chars().enumerate() {
        if i == 8 || i == 13 || i == 18 || i == 23 {
            assert_eq!(c, '-');
        } else {
            assert!(c.is_ascii_digit() || ('a'..='f').contains(&c));
        }
    }
    assert!(item.created_at > 1_600_000_000_000);
    assert_eq!(service.get_item(&item.id), Ok(item));
}

#[test]
fn create_defaults_missing_tags_to_empty() {
    let mut service = service();
    let item = service.create_item(payload("note", "", None)).unwrap();
    assert_eq!(item.tags, Vec::<String>::new());
    assert_eq!(service.get_item(&item.id).unwrap().tags, Vec::<String>::new());
}

#[test]
fn create_gives_fresh_identifiers() {
    let mut service = service();
    let a = service.create_item(payload("note", "same", None)).unwrap();
    let b = service.create_item(payload("note", "same", None)).unwrap();
    assert_ne!(a.id, b.id);
    assert_eq!(service.list_items().unwrap().len(), 2);
}

#[test]
fn create_stores_the_encoded_item_under_its_identifier() {
    let mut store = temporary_store();
    let probe = stored("p");
    store.put("p", encode(&probe)).unwrap();
    let mut service = ItemService::new(store);
    let item = service
        .create_item(CreateItemPayload {
            content: Some(String::new()),
            code_location: Some(CodeLocation { file_path: "f".to_string(), line_number: 1 }),
            completed: Some(true),
            due_date: Some(1),
            start_time: Some(2),
            end_time: Some(3),
            ..payload("event", "E", Some(&[]))
        })
        .unwrap();
    let fetched = service.get_item(&item.id).unwrap();
    assert_eq!(fetched, item);
    assert_eq!(fetched.content, Some(String::new()));
    assert_eq!(fetched.completed, Some(true));
    assert_eq!(service.get_item("p"), Ok(probe));
}

#[test]
fn get_of_an_unknown_identifier_is_not_found() {
    let service = service();
    assert_eq!(service.get_item("nope"), Err(ServiceError::NotFound));
    assert_eq!(service.get_item(""), Err(ServiceError::NotFound));
}

#[test]
fn get_of_a_corrupt_record_is_corrupt_record() {
    let mut store = temporary_store();
    store.put("bad", b"{not json".to_vec()).unwrap();
    store.put("odd", b"{\"id\":\"odd\"}".to_vec()).unwrap();
    let service = ItemService::new(store);
    assert_eq!(service.get_item("bad"), Err(ServiceError::CorruptRecord));
    assert_eq!(service.get_item("odd"), Err(ServiceError::CorruptRecord));
}

#[test]
fn update_merges_the_patch() {
    let mut store = temporary_store();
    store.put("u", encode(&stored("u"))).unwrap();
    let mut service = ItemService::new(store);
    let patch = UpdateItemPayload { title: Some("X".to_string()), ..empty_patch() };
    let updated = service.update_item("u", patch).unwrap();
    assert_eq!(updated, Item { title: "X".to_string(), ..stored("u") });
    assert_eq!(service.get_item("u"), Ok(updated));
    let patch = UpdateItemPayload {
        item_type: Some("note".to_string()),
        tags: Some(vec![]),
        completed: Some(true),
        end_time: Some(5),
        ..empty_patch()
    };
    let updated = service.update_item("u", patch).unwrap();
    assert_eq!(
        updated,
        Item {
            item_type: "note".to_string(),
            title: "X".to_string(),
            tags: vec![],
            completed: Some(true),
            end_time: Some(5),
            ..stored("u")
        }
    );
    assert_eq!(service.get_item("u"), Ok(updated));
}

#[test]
fn update_keeps_id_and_created_at() {
    let mut service = service();
    let made = service.create_item(payload("task", "T", None)).unwrap();
    let patch = UpdateItemPayload {
        item_type: Some("note".to_string()),
        title: Some("N".to_string()),
        content: Some("c".to_string()),
        tags: Some(vec!["t".to_string()]),
        code_location: Some(CodeLocation { file_path: "f".to_string(), line_number: 2 }),
        completed: Some(true),
        due_date: Some(1),
        start_time: Some(2),
        end_time: Some(3),
    };
    let updated = service.update_item(&made.id, patch).unwrap();
    assert_eq!(updated.id, made.id);
    assert_eq!(updated.created_at, made.created_at);
    let fetched = service.get_item(&made.id).unwrap();
    assert_eq!(fetched.id, made.id);
    assert_eq!(fetched.created_at, made.created_at);
    assert_eq!(service.list_items().unwrap().len(), 1);
}

#[test]
fn update_with_an_empty_patch_changes_nothing() {
    let mut store = temporary_store();
    store.put("u", encode(&stored("u"))).unwrap();
    let mut service = ItemService::new(store);
    assert_eq!(service.update_item("u", empty_patch()), Ok(stored("u")));
    assert_eq!(service.get_item("u"), Ok(stored("u")));
}

#[test]
fn update_of_an_unknown_identifier_is_not_found() {
    let mut service = service();
    let patch = UpdateItemPayload { title: Some("X".to_string()), ..empty_patch() };
    assert_eq!(service.update_item("nope", patch), Err(ServiceError::NotFound));
    assert_eq!(service.list_items(), Ok(vec![]));
}

#[test]
fn update_of_a_corrupt_record_is_not_found_and_leaves_it() {
    let mut store = temporary_store();
    store.put("bad", b"garbage".to_vec()).unwrap();
    let mut service = ItemService::new(store);
    let patch = UpdateItemPayload { title: Some("X".to_string()), ..empty_patch() };
    assert_eq!(service.update_item("bad", patch), Err(ServiceError::NotFound));
    assert_eq!(service.get_item("bad"), Err(ServiceError::CorruptRecord));
}

#[test]
fn delete_then_get_is_not_found() {
    let mut service = service();
    let made = service.create_item(payload("task", "T", None)).unwrap();
    assert_eq!(service.delete_item(&made.id), Ok(()));
    assert_eq!(service.get_item(&made.id), Err(ServiceError::NotFound));
    assert_eq!(service.list_items(), Ok(vec![]));
}

#[test]
fn delete_of_an_unknown_identifier_is_not_found() {
    let mut service = service();
    assert_eq!(service.delete_item("nope"), Err(ServiceError::NotFound));
}

#[test]
fn second_delete_is_not_found() {
    let mut service = service();
    let made = service.create_item(payload("task", "T", None)).unwrap();
    let kept = service.create_item(payload("task", "K", None)).unwrap();
    assert_eq!(service.delete_item(&made.id), Ok(()));
    assert_eq!(service.delete_item(&made.id), Err(ServiceError::NotFound));
    assert_eq!(service.delete_item(&made.id), Err(ServiceError::NotFound));
    assert_eq!(service.get_item(&kept.id), Ok(kept));
}

#[test]
fn delete_removes_a_corrupt_record_too() {
    let mut store = temporary_store();
    store.put("bad", b"garbage".to_vec()).unwrap();
    let mut service = ItemService::new(store);
    assert_eq!(service.delete_item("bad"), Ok(()));
    assert_eq!(service.get_item("bad"), Err(ServiceError::NotFound));
}

#[test]
fn list_skips_records_that_cannot_be_read() {
    let mut store = temporary_store();
    store.put("a", encode(&stored("a"))).unwrap();
    store.put("bad", b"garbage".to_vec()).unwrap();
    store.put("c", encode(&stored("c"))).unwrap();
    store.put("odd", b"[1,2]".to_vec()).unwrap();
    let service = ItemService::new(store);
    let items = service.list_items().unwrap();
    assert_eq!(sorted_ids(&items), vec!["a", "c"]);
    let all = service.get_filtered_items(&ItemFilter { item_type: None, tags: None }).unwrap();
    assert_eq!(sorted_ids(&all), vec!["a", "c"]);
}

#[test]
fn list_of_an_empty_store_is_empty() {
    assert_eq!(service().list_items(), Ok(vec![]));
    assert_eq!(
        service().get_filtered_items(&ItemFilter::from_query(Some("task"), Some("a"))),
        Ok(vec![])
    );
}

#[test]
fn filtered_listing_is_a_conjunction() {
    let mut service = service();
    let a = service.create_item(payload("task", "A", Some(&["urgent", "home"]))).unwrap();
    let b = service.create_item(payload("task", "B", Some(&["home"]))).unwrap();
    let c = service.create_item(payload("note", "C", Some(&["urgent"]))).unwrap();
    let both = ItemFilter::from_query(Some("task"), Some("urgent"));
    assert_eq!(service.get_filtered_items(&both), Ok(vec![a.clone()]));
    let shouting = ItemFilter::from_query(Some("TASK"), Some(" urgent "));
    assert_eq!(service.get_filtered_items(&shouting), Ok(vec![a.clone()]));
    let by_type = service.get_filtered_items(&ItemFilter::from_query(Some("task"), None)).unwrap();
    let mut expected = vec![a.id.clone(), b.id.clone()];
    expected.sort();
    assert_eq!(sorted_ids(&by_type), expected);
    let by_tag = service.get_filtered_items(&ItemFilter::from_query(None, Some("urgent"))).unwrap();
    let mut expected = vec![a.id.clone(), c.id.clone()];
    expected.sort();
    assert_eq!(sorted_ids(&by_tag), expected);
    let none = service.get_filtered_items(&ItemFilter::from_query(None, Some("Urgent"))).unwrap();
    assert_eq!(none, vec![]);
}

#[test]
fn capture_creates_and_stores_the_item() {
    let mut service = service();
    let item = service.capture_item("Buy milk #todo #shopping\nDon't forget eggs").unwrap();
    assert_eq!(item.item_type, "task");
    assert_eq!(item.title, "Buy milk");
    assert_eq!(item.tags, vec!["todo", "shopping"]);
    assert_eq!(item.content, Some("Don't forget eggs".to_string()));
    assert_eq!(item.code_location, None);
    assert_eq!(item.completed, None);
    assert_eq!(item.due_date, None);
    assert_eq!(item.start_time, None);
    assert_eq!(item.end_time, None);
    assert_eq!(item.id.len(), 36);
    assert_eq!(service.get_item(&item.id), Ok(item));
}

#[test]
fn capture_of_plain_text_is_a_note_with_empty_content() {
    let mut service = service();
    let item = service.capture_item("Just thinking").unwrap();
    assert_eq!(item.item_type, "note");
    assert_eq!(item.title, "Just thinking");
    assert_eq!(item.tags, Vec::<String>::new());
    assert_eq!(item.content, Some(String::new()));
    assert_eq!(service.get_item(&item.id).unwrap().content, Some(String::new()));
}

#[test]
fn outcomes_for_each_answer_of_the_store() {
    assert_eq!(fetch_outcome(Err(StorageError)), Err(ServiceError::StorageError));
    assert_eq!(fetch_outcome(Ok(None)), Err(ServiceError::NotFound));
    assert_eq!(fetch_outcome(Ok(Some(b"junk".to_vec()))), Err(ServiceError::CorruptRecord));
    assert_eq!(fetch_outcome(Ok(Some(encode(&stored("s"))))), Ok(stored("s")));

    let patch = || UpdateItemPayload { title: Some("X".to_string()), ..empty_patch() };
    assert_eq!(patch_outcome(Err(StorageError), patch()), Err(ServiceError::StorageError));
    assert_eq!(patch_outcome(Ok(None), patch()), Err(ServiceError::NotFound));
    assert_eq!(patch_outcome(Ok(Some(b"junk".to_vec())), patch()), Err(ServiceError::NotFound));
    assert_eq!(
        patch_outcome(Ok(Some(encode(&stored("s")))), patch()),
        Ok(Item { title: "X".to_string(), ..stored("s") })
    );

    assert_eq!(delete_outcome(Err(StorageError)), Err(ServiceError::StorageError));
    assert_eq!(delete_outcome(Ok(true)), Ok(()));
    assert_eq!(delete_outcome(Ok(false)), Err(ServiceError::NotFound));
}

#[test]
fn rows_are_decoded_in_order_and_bad_rows_skipped() {
    let rows = vec![
        (b"b".to_vec(), encode(&stored("b"))),
        (b"x".to_vec(), b"junk".to_vec()),
        (b"a".to_vec(), encode(&stored("a"))),
    ];
    assert_eq!(decode_rows(&rows), vec![stored("b"), stored("a")]);
    assert_eq!(decode_rows(&vec![]), vec![]);
    assert_eq!(decode(&rows[0].1), Ok(stored("b")));
}

#[test]
fn each_error_has_its_own_status() {
    let all = [
        ServiceError::NotFound,
        ServiceError::CorruptRecord,
        ServiceError::ValidationError,
        ServiceError::StorageError,
        ServiceError::Unauthorized,
    ];
    assert_eq!(ServiceError::NotFound.status_code(), 404);
    assert_eq!(ServiceError::CorruptRecord.status_code(), 500);
    assert_eq!(ServiceError::ValidationError.status_code(), 400);
    assert_eq!(ServiceError::StorageError.status_code(), 503);
    assert_eq!(ServiceError::Unauthorized.status_code(), 401);
    for (i, a) in all.iter().enumerate() {
        for (j, b) in all.iter().enumerate() {
            assert_eq!(i == j, a.status_code() == b.status_code());
        }
    }
}

use item_tracker::codec::{decode, encode, DecodeError};
use item_tracker::model::{CodeLocation, Item};

fn minimal() -> Item {
    Item {
        id: "x".to_string(),
        item_type: "note".to_string(),
        title: "t".to_string(),
        content: None,
        tags: vec![],
        code_location: None,
        created_at: 5,
        completed: None,
        due_date: None,
        start_time: None,
        end_time: None,
    }
}

fn full() -> Item {
    Item {
        id: "6f9619ff-8b86-4011-b42d-00c04fc964ff".to_string(),
        item_type: "task".to_string(),
        title: "Say \"hi\"\n\tto \\ Zoë ✓".to_string(),
        content: Some("line one\nline two\u{0007}".to_string()),
        tags: vec!["urgent".to_string(), "home".to_string(), "urgent".to_string(), String::new()],
        code_location: Some(CodeLocation {
            file_path: "src/main.rs".to_string(),
            line_number: u32::MAX,
        }),
        created_at: i64::MAX,
        completed: Some(false),
        due_date: Some(i64::MIN),
        start_time: Some(0),
        end_time: Some(-1),
    }
}

#[test]
fn round_trip_of_a_full_item() {
    assert_eq!(decode(&encode(&full())), Ok(full()));
}

#[test]
fn round_trip_of_a_minimal_item() {
    assert_eq!(decode(&encode(&minimal())), Ok(minimal()));
}

#[test]
fn round_trip_keeps_absent_apart_from_empty() {
    let absent = minimal();
    let empty = Item { content: Some(String::new()), ..minimal() };
    assert_ne!(encode(&absent), encode(&empty));
    assert_eq!(decode(&encode(&absent)).unwrap().content, None);
    assert_eq!(decode(&encode(&empty)).unwrap().content, Some(String::new()));
    let unset = Item { completed: None, due_date: None, ..minimal() };
    let set = Item { completed: Some(false), due_date: Some(0), ..minimal() };
    assert_eq!(decode(&encode(&unset)), Ok(unset));
    assert_eq!(decode(&encode(&set)), Ok(set));
}

#[test]
fn round_trip_of_each_optional_field_alone() {
    let items = vec![
        Item { content: Some("c".to_string()), ..minimal() },
        Item {
            code_location: Some(CodeLocation { file_path: String::new(), line_number: 0 }),
            ..minimal()
        },
        Item { completed: Some(true), ..minimal() },
        Item { due_date: Some(1), ..minimal() },
        Item { start_time: Some(2), ..minimal() },
        Item { end_time: Some(3), ..minimal() },
        Item { tags: vec!["a".to_string()], ..minimal() },
        Item { created_at: -7, ..minimal() },
    ];
    for item in items {
        assert_eq!(decode(&encode(&item)), Ok(item));
    }
}

#[test]
fn encode_writes_a_compact_object() {
    assert_eq!(
        String::from_utf8(encode(&minimal())).unwrap(),
        r#"{"created_at":5,"id":"x","tags":[],"title":"t","type":"note"}"#
    );
    let item = Item {
        content: Some("a\"b".to_string()),
        tags: vec!["p".to_string(), "q".to_string()],
        code_location: Some(CodeLocation { file_path: "f.rs".to_string(), line_number: 12 }),
        completed: Some(true),
        due_date: Some(-3),
        start_time: Some(4),
        end_time: Some(6),
        ..minimal()
    };
    assert_eq!(
        String::from_utf8(encode(&item)).unwrap(),
        concat_all(&[
            r#"{"code_location":{"file_path":"f.rs","line_number":12},"completed":true,"#,
            r#""content":"a\"b","created_at":5,"due_date":-3,"end_time":6,"id":"x","#,
            r#""start_time":4,"tags":["p","q"],"title":"t","type":"note"}"#,
        ])
    );
}

fn concat_all(parts: &[&str]) -> String {
    parts.concat()
}

#[test]
fn decode_reads_records_with_null_members() {
    let bytes = concat_all(&[
        r#"{"id":"x","type":"note","title":"t","content":null,"tags":[],"#,
        r#""code_location":null,"created_at":5,"completed":null,"due_date":null,"#,
        r#""start_time":null,"end_time":null}"#,
    ]);
    assert_eq!(decode(bytes.as_bytes()), Ok(minimal()));
}

#[test]
fn decode_defaults_missing_members_to_absent() {
    let bytes = r#" { "title" : "t", "id" : "x", "created_at" : 5, "type" : "note" } "#;
    assert_eq!(decode(bytes.as_bytes()), Ok(minimal()));
    let bytes = r#"{"id":"x","type":"note","title":"t","created_at":5,"tags":null}"#;
    assert_eq!(decode(bytes.as_bytes()), Ok(minimal()));
}

#[test]
fn decode_passes_over_unknown_members() {
    let bytes = r#"{"id":"x","type":"note","title":"t","created_at":5,"extra":[1.5,{"a":null}]}"#;
    assert_eq!(decode(bytes.as_bytes()), Ok(minimal()));
}

#[test]
fn decode_reads_every_member() {
    let bytes = concat_all(&[
        r#"{"id":"i","type":"task","title":"T","content":"","tags":["a","b"],"#,
        r#""code_location":{"file_path":"p","line_number":3},"created_at":-9,"#,
        r#""completed":false,"due_date":1,"start_time":2,"end_time":3}"#,
    ]);
    assert_eq!(
        decode(bytes.as_bytes()),
        Ok(Item {
            id: "i".to_string(),
            item_type: "task".to_string(),
            title: "T".to_string(),
            content: Some(String::new()),
            tags: vec!["a".to_string(), "b".to_string()],
            code_location: Some(CodeLocation { file_path: "p".to_string(), line_number: 3 }),
            created_at: -9,
            completed: Some(false),
            due_date: Some(1),
            start_time: Some(2),
            end_time: Some(3),
        })
    );
}

#[test]
fn decode_rejects_what_is_no_json() {
    assert_eq!(decode(b""), Err(DecodeError::Syntax));
    assert_eq!(decode(b"{"), Err(DecodeError::Syntax));
    assert_eq!(decode(b"not json"), Err(DecodeError::Syntax));
    assert_eq!(decode(b"{\"id\":\"x\"} trailing"), Err(DecodeError::Syntax));
    assert_eq!(decode(&[0xFF, 0xFE]), Err(DecodeError::Syntax));
    assert_eq!(decode(b"{\"id\":\"\xFF\"}"), Err(DecodeError::Syntax));
}

#[test]
fn decode_rejects_documents_that_are_no_item() {
    let cases = [
        r#"null"#,
        r#"[]"#,
        r#""text""#,
        r#"7"#,
        r#"{}"#,
        r#"{"type":"note","title":"t","created_at":5}"#,
        r#"{"id":"x","title":"t","created_at":5}"#,
        r#"{"id":"x","type":"note","created_at":5}"#,
        r#"{"id":"x","type":"note","title":"t"}"#,
        r#"{"id":null,"type":"note","title":"t","created_at":5}"#,
        r#"{"id":7,"type":"note","title":"t","created_at":5}"#,
        r#"{"id":"x","type":"note","title":"t","created_at":"5"}"#,
        r#"{"id":"x","type":"note","title":"t","created_at":5.0}"#,
        r#"{"id":"x","type":"note","title":"t","created_at":9223372036854775808}"#,
        r#"{"id":"x","type":"note","title":"t","created_at":null}"#,
        r#"{"id":"x","type":"note","title":"t","created_at":5,"content":7}"#,
        r#"{"id":"x","type":"note","title":"t","created_at":5,"tags":"a"}"#,
        r#"{"id":"x","type":"note","title":"t","created_at":5,"tags":["a",1]}"#,
        r#"{"id":"x","type":"note","title":"t","created_at":5,"tags":{}}"#,
        r#"{"id":"x","type":"note","title":"t","created_at":5,"completed":"yes"}"#,
        r#"{"id":"x","type":"note","title":"t","created_at":5,"completed":0}"#,
        r#"{"id":"x","type":"note","title":"t","created_at":5,"due_date":"1"}"#,
        r#"{"id":"x","type":"note","title":"t","created_at":5,"start_time":1.5}"#,
        r#"{"id":"x","type":"note","title":"t","created_at":5,"end_time":[]}"#,
        r#"{"id":"x","type":"note","title":"t","created_at":5,"code_location":"p"}"#,
        r#"{"id":"x","type":"note","title":"t","created_at":5,"code_location":{}}"#,
        r#"{"id":"x","type":"note","title":"t","created_at":5,"code_location":{"file_path":"p"}}"#,
        r#"{"id":"x","type":"note","title":"t","created_at":5,"code_location":{"line_number":1}}"#,
        r#"{"id":"x","type":"note","title":"t","created_at":5,"code_location":{"file_path":"p","line_number":-1}}"#,
        r#"{"id":"x","type":"note","title":"t","created_at":5,"code_location":{"file_path":"p","line_number":4294967296}}"#,
        r#"{"id":"x","type":"note","title":"t","created_at":5,"code_location":{"file_path":null,"line_number":1}}"#,
    ];
    for case in cases {
        assert_eq!(decode(case.as_bytes()), Err(DecodeError::Schema), "{}", case);
    }
}

#[test]
fn decode_accepts_the_widest_line_number() {
    let bytes = r#"{"id":"x","type":"note","title":"t","created_at":5,"code_location":{"file_path":"p","line_number":4294967295}}"#;
    assert_eq!(
        decode(bytes.as_bytes()).unwrap().code_location,
        Some(CodeLocation { file_path: "p".to_string(), line_number: 4294967295 })
    );
}

#[test]
fn decode_reads_escapes() {
    let bytes = r#"{"id":"x","type":"note","title":"aé\n\"b\"","created_at":5}"#;
    assert_eq!(decode(bytes.as_bytes()).unwrap().title, "a\u{e9}\n\"b\"");
}

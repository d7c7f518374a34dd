use item_tracker::filter::{item_matches, parse_tag_list, select, ItemFilter};
use item_tracker::model::Item;

fn item(id: &str, item_type: &str, tags: &[&str]) -> Item {
    Item {
        id: id.to_string(),
        item_type: item_type.to_string(),
        title: String::new(),
        content: None,
        tags: tags.iter().map(|t| t.to_string()).collect(),
        code_location: None,
        created_at: 0,
        completed: None,
        due_date: None,
        start_time: None,
        end_time: None,
    }
}

fn filter(item_type: Option<&str>, tags: Option<&[&str]>) -> ItemFilter {
    ItemFilter {
        item_type: item_type.map(|t| t.to_string()),
        tags: tags.map(|list| list.iter().map(|t| t.to_string()).collect()),
    }
}

fn ids(items: &[Item]) -> Vec<String> {
    items.iter().map(|i| i.id.clone()).collect()
}

#[test]
fn filter_is_a_conjunction() {
    let items = vec![
        item("A", "task", &["urgent", "home"]),
        item("B", "task", &["home"]),
        item("C", "note", &["urgent"]),
    ];
    let chosen = select(&items, &filter(Some("task"), Some(&["urgent"])));
    assert_eq!(chosen, vec![item("A", "task", &["urgent", "home"])]);
}

#[test]
fn filter_by_type_alone_and_by_tags_alone() {
    let items = vec![
        item("A", "task", &["urgent", "home"]),
        item("B", "task", &["home"]),
        item("C", "note", &["urgent"]),
    ];
    assert_eq!(ids(&select(&items, &filter(Some("task"), None))), vec!["A", "B"]);
    assert_eq!(ids(&select(&items, &filter(None, Some(&["urgent"])))), vec!["A", "C"]);
    assert_eq!(ids(&select(&items, &filter(None, Some(&["home", "urgent"])))), vec!["A"]);
    assert_eq!(ids(&select(&items, &filter(None, None))), vec!["A", "B", "C"]);
    assert_eq!(ids(&select(&items, &filter(Some("event"), None))), Vec::<String>::new());
    assert_eq!(ids(&select(&Vec::new(), &filter(None, None))), Vec::<String>::new());
}

#[test]
fn filter_type_ignores_case_on_both_sides() {
    assert!(item_matches(&item("A", "task", &[]), &filter(Some("TASK"), None)));
    assert!(item_matches(&item("A", "Task", &[]), &filter(Some("task"), None)));
    assert!(item_matches(&item("A", "ÉCOLE", &[]), &filter(Some("école"), None)));
    assert!(!item_matches(&item("A", "task", &[]), &filter(Some("tasks"), None)));
    assert!(!item_matches(&item("A", "task", &[]), &filter(Some(""), None)));
}

#[test]
fn filter_tags_are_compared_exactly() {
    assert!(item_matches(&item("A", "x", &["Urgent"]), &filter(None, Some(&["Urgent"]))));
    assert!(!item_matches(&item("A", "x", &["Urgent"]), &filter(None, Some(&["urgent"]))));
    assert!(!item_matches(&item("A", "x", &["urgent "]), &filter(None, Some(&["urgent"]))));
    assert!(!item_matches(&item("A", "x", &[]), &filter(None, Some(&["urgent"]))));
    assert!(item_matches(&item("A", "x", &["a", "a"]), &filter(None, Some(&["a", "a", "a"]))));
}

#[test]
fn filter_with_an_empty_tag_list_matches_everything() {
    assert!(item_matches(&item("A", "x", &[]), &filter(None, Some(&[]))));
    assert!(item_matches(&item("A", "x", &["t"]), &filter(None, Some(&[]))));
    assert!(!item_matches(&item("A", "x", &["t"]), &filter(Some("y"), Some(&[]))));
}

#[test]
fn tag_list_is_split_at_commas_and_trimmed() {
    assert_eq!(parse_tag_list("urgent"), vec!["urgent"]);
    assert_eq!(parse_tag_list("urgent,home"), vec!["urgent", "home"]);
    assert_eq!(parse_tag_list(" urgent , home\t"), vec!["urgent", "home"]);
    assert_eq!(parse_tag_list("two words, x"), vec!["two words", "x"]);
    assert_eq!(parse_tag_list(""), vec![""]);
    assert_eq!(parse_tag_list(","), vec!["", ""]);
    assert_eq!(parse_tag_list("a,,b,"), vec!["a", "", "b", ""]);
    assert_eq!(parse_tag_list("  "), vec![""]);
}

#[test]
fn tag_list_agrees_with_std_on_samples() {
    for raw in ["", ",", "a", " a , b ", ",,x,,", "a,b,c", "\u{3000}a\u{00A0},\tb\r\n", "é , ü"] {
        let expected: Vec<String> = raw.split(',').map(|tag| tag.trim().to_string()).collect();
        assert_eq!(parse_tag_list(raw), expected);
    }
}

#[test]
fn filter_from_a_query() {
    assert_eq!(ItemFilter::from_query(None, None), filter(None, None));
    assert_eq!(
        ItemFilter::from_query(Some("Task"), Some("urgent, home")),
        filter(Some("Task"), Some(&["urgent", "home"]))
    );
    assert_eq!(ItemFilter::from_query(None, Some("")), filter(None, Some(&[""])));
}

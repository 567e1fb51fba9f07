use toodle::timespec::to_micros;
use toodle::values::rows_are_labels;
use toodle::ids::{Entity, Uuid};
use toodle::items::{item_new, Item};
use toodle::labels::Label;
use toodle::timespec::Timespec;
use toodle::values::{
    all_labels_from_result, date_from_result, item_from_row, item_row_from_result,
    item_uuids_from_result, label_from_result, label_from_row, labels_from_result, present_items,
    QueryResults, Value,
};

fn text(s: &str) -> Value {
    Value::Text(s.to_string())
}

fn label_row(e: i64, name: &str, color: &str) -> Vec<Value> {
    vec![Value::Ref(e), text(name), text(color)]
}

fn label(id: i64, name: &str, color: &str) -> Label {
    Label { id: Some(Entity { id }), name: name.to_string(), color: color.to_string() }
}

#[test]
fn label_rows_decode() {
    assert!(label_from_row(&label_row(5, "test", "#000000")) == Some(label(5, "test", "#000000")));
    assert!(label_from_row(&vec![Value::Long(5), text("a"), text("b")]).is_none());
    assert!(label_from_row(&vec![Value::Ref(5), text("a")]).is_none());
    assert!(label_from_row(&vec![Value::Ref(5), Value::Other, text("b")]).is_none());
}

#[test]
fn fetched_label_is_the_first_row() {
    let result = QueryResults::Rel(vec![label_row(1, "a", "x"), label_row(2, "b", "y")]);
    assert!(label_from_result(&result) == Some(label(1, "a", "x")));
    assert!(label_from_result(&QueryResults::Rel(vec![])).is_none());
    assert!(label_from_result(&QueryResults::Scalar(None)).is_none());
}

#[test]
fn label_lists_skip_rows_that_are_not_labels() {
    let result = QueryResults::Rel(vec![label_row(1, "a", "x"), vec![Value::Other], label_row(3, "c", "z")]);
    let labels = labels_from_result(&result);
    assert_eq!(labels.len(), 2);
    assert!(labels[0] == label(1, "a", "x"));
    assert!(labels[1] == label(3, "c", "z"));
    assert!(labels_from_result(&QueryResults::Coll(vec![Value::Ref(1)])).is_empty());
}

#[test]
fn all_labels_keep_row_order() {
    let result = QueryResults::Rel(vec![label_row(1, "label1", "#000000"), label_row(2, "label2", "#000000"), label_row(3, "label3", "#000000")]);
    let labels = all_labels_from_result(&result);
    assert_eq!(labels.len(), 3);
    assert!(labels[2] == label(3, "label3", "#000000"));
}

#[test]
fn fetched_item_is_assembled() {
    let u = Uuid { bits: 99 };
    let result = QueryResults::Rel(vec![vec![Value::Ref(12), Value::Uuid(u), text("test item")]]);
    let row = item_row_from_result(&result).expect("a row");
    let labels = vec![label(1, "label1", "#000000")];
    let item = item_from_row(&row, Some(Timespec { sec: 3, nsec: 0 }), None, labels).expect("an item");
    assert_eq!(item.id, Some(Entity { id: 12 }));
    assert_eq!(item.uuid, u);
    assert_eq!(item.name, "test item");
    assert_eq!(item.due_date, Some(Timespec { sec: 3, nsec: 0 }));
    assert_eq!(item.completion_date, None);
    assert_eq!(item.labels.len(), 1);
    assert!(item_row_from_result(&QueryResults::Rel(vec![])).is_none());
    assert!(item_from_row(&vec![Value::Ref(1), text("no uuid"), text("x")], None, None, vec![]).is_none());
}

#[test]
fn dates_decode_from_instants() {
    let result = QueryResults::Rel(vec![vec![Value::Instant(1_500_000_250)]]);
    assert_eq!(date_from_result(&result), Some(Timespec { sec: 1500, nsec: 250_000 }));
    assert_eq!(date_from_result(&QueryResults::Rel(vec![vec![Value::Long(1)]])), None);
    assert_eq!(date_from_result(&QueryResults::Rel(vec![])), None);
    assert_eq!(date_from_result(&QueryResults::Tuple(None)), None);
}

#[test]
fn uuids_of_items_with_a_label() {
    let result = QueryResults::Rel(vec![
        vec![Value::Uuid(Uuid { bits: 1 })],
        vec![Value::Other],
        vec![],
        vec![Value::Uuid(Uuid { bits: 2 })],
    ]);
    assert_eq!(item_uuids_from_result(&result), vec![Uuid { bits: 1 }, Uuid { bits: 2 }]);
}

#[test]
fn only_found_items_are_kept() {
    let mut a = item_new();
    a.name = "a".to_string();
    let mut b = item_new();
    b.name = "b".to_string();
    let found: Vec<Option<Item>> = vec![Some(a.clone()), None, Some(b.clone())];
    let items = present_items(&found);
    assert_eq!(items.len(), 2);
    assert!(items[0] == a);
    assert!(items[1] == b);
}

#[test]
fn stored_item_reads_back_with_date_seconds() {
    let due = Timespec { sec: 1_600_000_000, nsec: 777 };
    let answer = QueryResults::Rel(vec![vec![Value::Instant(to_micros(due))]]);
    let read_due = date_from_result(&answer);
    let row = vec![Value::Ref(4), Value::Uuid(Uuid { bits: 5 }), text("test item")];
    let item = item_from_row(&row, read_due, None, vec![]).expect("an item");
    assert_eq!(item.due_date, Some(Timespec { sec: 1_600_000_000, nsec: 0 }));
    assert_eq!(item.name, "test item");
}

#[test]
fn label_rows_are_checked() {
    assert!(rows_are_labels(&QueryResults::Rel(vec![label_row(1, "a", "b")])));
    assert!(!rows_are_labels(&QueryResults::Rel(vec![label_row(1, "a", "b"), vec![Value::Other]])));
    assert!(rows_are_labels(&QueryResults::Scalar(None)));
}

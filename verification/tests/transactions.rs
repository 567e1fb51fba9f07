use toodle::timespec::fits_in_micros;
use toodle::transactions::{can_update_item, is_date_writable, missing_are_stored};
use toodle::ids::{Entity, Uuid};
use toodle::items::{item_new, Item};
use toodle::labels::Label;
use toodle::timespec::Timespec;
use toodle::transactions::{
    create_item, create_item_transaction, create_label_transaction, ids_missing_from,
    labels_contain, stored_ids, update_item_transaction,
};

fn label(id: Option<i64>, name: &str) -> Label {
    Label { id: id.map(|id| Entity { id }), name: name.to_string(), color: "#000000".to_string() }
}

fn stored_item(id: i64, name: &str) -> Item {
    let mut item = item_new();
    item.id = Some(Entity { id });
    item.name = name.to_string();
    item
}

#[test]
fn create_label_text() {
    let tx = create_label_transaction(&"test".to_string(), &"#000000".to_string());
    assert_eq!(tx, "[{ :label/name \"test\" :label/color \"#000000\" }]");
}

#[test]
fn create_item_text_with_due_date_and_labels() {
    let mut item = item_new();
    item.name = "test item".to_string();
    item.due_date = Some(Timespec { sec: 10, nsec: 5 });
    item.labels = vec![label(Some(7), "label1"), label(None, "unsaved"), label(Some(9), "label2")];
    let tx = create_item_transaction(&item, Uuid { bits: 0x67e5504410b1426f9247bb680e5fe0c8 });
    assert_eq!(
        tx,
        "[{\n            :item/uuid #uuid \"67e55044-10b1-426f-9247-bb680e5fe0c8\"\n            :item/name \"test item\"\n            :item/due_date #instmicros 10000000\n                :item/label [7, 9]\n                }]"
    );
}

#[test]
fn create_item_text_without_dates_or_stored_labels() {
    let mut item = item_new();
    item.name = "n".to_string();
    item.completion_date = Some(Timespec { sec: -2, nsec: 0 });
    item.labels = vec![label(None, "unsaved")];
    let tx = create_item_transaction(&item, Uuid { bits: 1 });
    assert_eq!(
        tx,
        "[{\n            :item/uuid #uuid \"00000000-0000-0000-0000-000000000001\"\n            :item/name \"n\"\n            :item/completion_date #instmicros -2000000\n                }]"
    );
}

#[test]
fn create_item_draws_a_fresh_uuid() {
    let mut item = item_new();
    item.name = "x".to_string();
    let (uuid, tx) = create_item(&item);
    assert!(!uuid.is_nil());
    assert!(tx.contains(&uuid.hyphenated()));
    let (other, _) = create_item(&item);
    assert_ne!(uuid, other);
}

#[test]
fn stored_ids_skip_unsaved_labels() {
    let labels = vec![label(None, "a"), label(Some(4), "b"), label(Some(-1), "c")];
    assert_eq!(stored_ids(&labels), vec![4, -1]);
}

#[test]
fn label_differences() {
    let l1 = label(Some(1), "label1");
    let l2 = label(Some(2), "label2");
    let l3 = label(Some(3), "label3");
    let existing = vec![l1.clone(), l2.clone()];
    let new = vec![l1.clone(), l3.clone()];
    assert!(labels_contain(&existing, &l2));
    assert!(!labels_contain(&existing, &l3));
    assert_eq!(ids_missing_from(&new, &existing), vec![3]);
    assert_eq!(ids_missing_from(&existing, &new), vec![2]);
    assert_eq!(ids_missing_from(&existing, &existing), Vec::<i64>::new());
}

#[test]
fn update_item_all_steps() {
    let mut item = stored_item(42, "a");
    item.due_date = Some(Timespec { sec: 5, nsec: 0 });
    let existing = vec![label(Some(1), "l1"), label(Some(8), "l2")];
    let new = vec![label(Some(1), "l1"), label(Some(9), "l3")];
    let tx = update_item_transaction(
        &item,
        Some("b".to_string()),
        None,
        Some(Timespec { sec: 7, nsec: 0 }),
        Some(&new),
        &existing,
    );
    assert_eq!(
        tx,
        "[[:db/add 42 :item/name \"b\"][:db/retract 42 :item/due_date #instmicros 5000000][:db/add 42 :item/completion_date #instmicros 7000000][:db/add 42 :item/label [9]][:db/retract 42 :item/label [8]]]"
    );
}

#[test]
fn update_item_add_labels() {
    let item = stored_item(5, "test item 1");
    let existing = vec![label(Some(1), "label1"), label(Some(2), "label2")];
    let mut new = existing.clone();
    new.push(label(Some(3), "label3"));
    new.push(label(Some(4), "label4"));
    let tx = update_item_transaction(&item, None, None, None, Some(&new), &existing);
    assert_eq!(tx, "[[:db/add 5 :item/label [3, 4]]]");
}

#[test]
fn update_item_remove_label() {
    let item = stored_item(5, "test item 1");
    let existing = vec![label(Some(1), "label1"), label(Some(2), "label2"), label(Some(3), "label3")];
    let mut new = existing.clone();
    new.remove(2);
    let tx = update_item_transaction(&item, None, None, None, Some(&new), &existing);
    assert_eq!(tx, "[[:db/retract 5 :item/label [3]]]");
}

#[test]
fn update_item_add_due_date_and_complete() {
    let item = stored_item(11, "test item 1");
    let tx = update_item_transaction(
        &item,
        None,
        Some(Timespec { sec: 100, nsec: 9 }),
        Some(Timespec { sec: 200, nsec: 0 }),
        None,
        &vec![],
    );
    assert_eq!(
        tx,
        "[[:db/add 11 :item/due_date #instmicros 100000000][:db/add 11 :item/completion_date #instmicros 200000000]]"
    );
}

#[test]
fn update_item_change_name_only_when_different() {
    let item = stored_item(3, "test item 1");
    let tx = update_item_transaction(&item, Some("new name".to_string()), None, None, None, &vec![]);
    assert_eq!(tx, "[[:db/add 3 :item/name \"new name\"]]");
    let same = update_item_transaction(&item, Some("test item 1".to_string()), None, None, None, &vec![]);
    assert_eq!(same, "[]");
}

#[test]
fn unchanged_update_is_empty() {
    let mut item = stored_item(3, "x");
    item.due_date = Some(Timespec { sec: 1, nsec: 2 });
    let labels = vec![label(Some(1), "a"), label(Some(2), "b")];
    let reordered = vec![label(Some(2), "b"), label(Some(1), "a")];
    let tx = update_item_transaction(
        &item,
        None,
        item.due_date,
        item.completion_date,
        Some(&reordered),
        &labels,
    );
    assert_eq!(tx, "[]");
}

#[test]
fn date_with_other_nanoseconds_is_rewritten() {
    let mut item = stored_item(3, "x");
    item.due_date = Some(Timespec { sec: 1, nsec: 2 });
    let tx = update_item_transaction(&item, None, Some(Timespec { sec: 1, nsec: 0 }), None, None, &vec![]);
    assert_eq!(tx, "[[:db/add 3 :item/due_date #instmicros 1000000]]");
}

#[test]
fn update_preconditions_are_checked() {
    assert!(fits_in_micros(9_223_372_036_854));
    assert!(!fits_in_micros(9_223_372_036_855));
    assert!(fits_in_micros(-9_223_372_036_854));
    assert!(!fits_in_micros(-9_223_372_036_855));
    assert!(is_date_writable(None));
    assert!(!is_date_writable(Some(Timespec { sec: i64::MAX, nsec: 0 })));

    let unsaved = label(None, "unsaved");
    let saved = label(Some(1), "saved");
    assert!(missing_are_stored(&vec![unsaved.clone()], &vec![unsaved.clone()]));
    assert!(!missing_are_stored(&vec![unsaved.clone()], &vec![saved.clone()]));

    let item = stored_item(1, "x");
    assert!(can_update_item(&item, None, None, Some(&vec![saved.clone()]), &vec![]));
    assert!(!can_update_item(&item, None, None, Some(&vec![unsaved.clone()]), &vec![]));
    assert!(!can_update_item(&item_new(), None, None, None, &vec![]));
    assert!(!can_update_item(&item, Some(Timespec { sec: i64::MIN, nsec: 0 }), None, None, &vec![]));
}

#[test]
fn repeated_update_only_readds_instants_with_nanoseconds() {
    let labels = vec![label(Some(1), "label1"), label(Some(2), "label2")];
    let due = Timespec { sec: 100, nsec: 5 };
    let completion = Timespec { sec: 200, nsec: 0 };
    let mut refetched = stored_item(8, "new name");
    refetched.due_date = Some(Timespec { sec: 100, nsec: 0 });
    refetched.completion_date = Some(completion);
    refetched.labels = labels.clone();
    let again = update_item_transaction(
        &refetched,
        Some("new name".to_string()),
        Some(due),
        Some(completion),
        Some(&labels),
        &labels,
    );
    assert_eq!(again, "[[:db/add 8 :item/due_date #instmicros 100000000]]");
    let whole = update_item_transaction(
        &refetched,
        Some("new name".to_string()),
        Some(Timespec { sec: 100, nsec: 0 }),
        Some(completion),
        Some(&labels),
        &labels,
    );
    assert_eq!(whole, "[]");
}

#[test]
fn created_uuid_is_version_four() {
    let (uuid, _) = create_item(&item_new());
    assert_eq!((uuid.bits >> 76) & 0xf, 4);
    assert_eq!((uuid.bits >> 62) & 0x3, 2);
}

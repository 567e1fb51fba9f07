use toodle::categories::{
    add_category, category_add_item, category_get_id, category_get_items, category_get_name,
    category_item_at, category_items_count, category_list_count, category_list_item_at, Category,
};
use toodle::ids::{Entity, Uuid};
use toodle::items::{
    item_get_completion_date, item_get_due_date, item_get_labels, item_get_name, item_label_at,
    item_labels_count, item_new, item_set_completion_date, item_set_due_date, item_set_name,
    same_labels, timespec_from_raw, Item,
};
use toodle::labels::{label_get_color, label_get_name, label_set_color, Label};
use toodle::timespec::{from_micros, same_date, to_micros, Timespec};

fn label(id: Option<i64>, name: &str) -> Label {
    Label { id: id.map(|id| Entity { id }), name: name.to_string(), color: "#000000".to_string() }
}

#[test]
fn label_accessors_read_and_write() {
    let mut l = label(Some(3), "label1");
    assert_eq!(label_get_name(&l), "label1");
    assert_eq!(label_get_color(&l), "#000000");
    label_set_color(&mut l, "#ffffff".to_string());
    assert_eq!(label_get_color(&l), "#ffffff");
    assert_eq!(l.name, "label1");
    assert_eq!(l.id, Some(Entity { id: 3 }));
}

#[test]
fn labels_compare_by_id_name_and_colour() {
    assert!(label(Some(1), "a") == label(Some(1), "a"));
    assert!(label(Some(1), "a") != label(Some(2), "a"));
    assert!(label(None, "a") != label(Some(1), "a"));
    assert!(label(Some(1), "a") != label(Some(1), "b"));
    let mut c = label(Some(1), "a");
    c.color = "#111111".to_string();
    assert!(c != label(Some(1), "a"));
    assert!(c.clone() == c);
}

#[test]
fn new_item_is_empty() {
    let item = item_new();
    assert_eq!(item.id, None);
    assert!(item.uuid.is_nil());
    assert_eq!(item.name, "");
    assert_eq!(item.due_date, None);
    assert_eq!(item.completion_date, None);
    assert!(item.labels.is_empty());
}

#[test]
fn item_name_reads_back() {
    let mut item = item_new();
    item_set_name(&mut item, "test item".to_string());
    assert_eq!(item_get_name(&item), "test item");
}

#[test]
fn item_dates_read_back_as_seconds() {
    let mut item = item_new();
    assert_eq!(item_get_due_date(&item), None);
    item_set_due_date(&mut item, Some(1500));
    assert_eq!(item_get_due_date(&item), Some(1500));
    assert_eq!(item.due_date, Some(Timespec { sec: 1500, nsec: 0 }));
    item_set_completion_date(&mut item, Some(1600));
    assert_eq!(item_get_completion_date(&item), Some(1600));
    item_set_due_date(&mut item, None);
    assert_eq!(item_get_due_date(&item), None);
    assert_eq!(item_get_completion_date(&item), Some(1600));
    item_set_completion_date(&mut item, None);
    assert_eq!(item_get_completion_date(&item), None);
}

#[test]
fn raw_dates_wrap_to_i64() {
    assert_eq!(timespec_from_raw(None), None);
    assert_eq!(timespec_from_raw(Some(usize::MAX)), Some(Timespec { sec: -1, nsec: 0 }));
}

#[test]
fn item_labels_are_copied_and_counted() {
    let mut item = item_new();
    item.labels = vec![label(Some(1), "a"), label(Some(2), "b")];
    let copy = item_get_labels(&item);
    assert!(same_labels(&copy, &item.labels));
    assert_eq!(item_labels_count(&item), 2);
    assert!(item_label_at(&copy, 1) == label(Some(2), "b"));
    assert!(!same_labels(&copy, &vec![label(Some(1), "a")]));
}

#[test]
fn items_compare_all_fields() {
    let mut a = item_new();
    a.name = "x".to_string();
    let b = a.clone();
    assert!(a == b);
    let mut c = a.clone();
    c.labels.push(label(None, "l"));
    assert!(a != c);
    let mut d = a.clone();
    d.uuid = Uuid { bits: 1 };
    assert!(a != d);
}

#[test]
fn categories_hold_items() {
    let mut category = Category { id: 7, name: "home".to_string(), items: vec![] };
    let mut item = item_new();
    item.name = "first".to_string();
    category_add_item(&mut category, &item);
    item.name = "second".to_string();
    category_add_item(&mut category, &item);
    assert_eq!(category_get_id(&category), 7);
    assert_eq!(category_get_name(&category), "home");
    assert_eq!(category_items_count(&category), 2);
    let items = category_get_items(&category);
    assert_eq!(category_item_at(&items, 0).name, "first");
    assert_eq!(category_item_at(&items, 1).name, "second");

    let mut list: Vec<Category> = vec![];
    add_category(&mut list, &category);
    assert_eq!(category_list_count(&list), 1);
    assert_eq!(category_list_item_at(&list, 0).name, "home");
    assert_eq!(category_list_item_at(&list, 0).items.len(), 2);
}

#[test]
fn category_id_wraps_to_c_int() {
    let category = Category { id: (1isize << 32) + 5, name: String::new(), items: vec![] };
    assert_eq!(category_get_id(&category), 5);
}

#[test]
fn micros_conversions() {
    assert_eq!(to_micros(Timespec { sec: 12, nsec: 500 }), 12_000_000);
    assert_eq!(to_micros(Timespec { sec: -3, nsec: 0 }), -3_000_000);
    assert_eq!(from_micros(12_000_001), Timespec { sec: 12, nsec: 1000 });
    assert_eq!(from_micros(-1), Timespec { sec: -1, nsec: 999_999_000 });
    assert_eq!(from_micros(-2_000_000), Timespec { sec: -2, nsec: 0 });
    assert_eq!(from_micros(0), Timespec { sec: 0, nsec: 0 });
}

#[test]
fn written_dates_read_back_with_their_seconds() {
    let t = Timespec { sec: 1_523_000_000, nsec: 123 };
    assert_eq!(from_micros(to_micros(t)), Timespec { sec: 1_523_000_000, nsec: 0 });
    let u = Timespec { sec: -77, nsec: 5 };
    assert_eq!(from_micros(to_micros(u)), Timespec { sec: -77, nsec: 0 });
}

#[test]
fn dates_compare_with_nanoseconds() {
    let a = Some(Timespec { sec: 1, nsec: 0 });
    let b = Some(Timespec { sec: 1, nsec: 1 });
    assert!(same_date(&a, &a));
    assert!(!same_date(&a, &b));
    assert!(!same_date(&a, &None));
    assert!(same_date(&None, &None));
    let _ = Timespec::new(4, 999_999_999);
    let _: Item = item_new();
}

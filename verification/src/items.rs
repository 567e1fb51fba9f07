use vstd::prelude::*;
use crate::ids::{Entity, Uuid};
use crate::labels::{Label, LabelView};
use crate::timespec::Timespec;

verus! {

/// A to-do item: its store identifier once stored, its uuid, its name, an optional due
/// date and completion date, and the labels it carries.
#[derive(Debug)]
pub struct Item {
    pub id: Option<Entity>,
    pub uuid: Uuid,
    pub name: String,
    pub due_date: Option<Timespec>,
    pub completion_date: Option<Timespec>,
    pub labels: Vec<Label>,
}

/// What an item is, as plain values.
pub struct ItemView {
    pub id: Option<Entity>,
    pub uuid: Uuid,
    pub name: Seq<char>,
    pub due_date: Option<Timespec>,
    pub completion_date: Option<Timespec>,
    pub labels: Seq<LabelView>,
}

/// The views of a sequence of labels.
pub open spec fn label_views(labels: Seq<Label>) -> Seq<LabelView> {
    labels.map_values(|l: Label| l@)
}

impl View for Item {
    type V = ItemView;

    open spec fn view(&self) -> ItemView {
        ItemView {
            id: self.id,
            uuid: self.uuid,
            name: self.name@,
            due_date: self.due_date,
            completion_date: self.completion_date,
            labels: label_views(self.labels@),
        }
    }
}

/// A copy of a list of labels.
pub fn clone_labels(labels: &Vec<Label>) -> (r: Vec<Label>)
    ensures
        label_views(r@) == label_views(labels@),
{
    let r = labels.clone();
    assert(label_views(r@) =~= label_views(labels@));
    r
}

impl Clone for Item {
    fn clone(&self) -> (r: Item)
        ensures
            r@ == self@,
    {
        Item {
            id: self.id,
            uuid: self.uuid,
            name: self.name.clone(),
            due_date: self.due_date,
            completion_date: self.completion_date,
            labels: clone_labels(&self.labels),
        }
    }
}

/// Whether two lists hold equal labels in the same order.
pub fn same_labels(a: &Vec<Label>, b: &Vec<Label>) -> (r: bool)
    ensures
        r == (label_views(a@) == label_views(b@)),
{
    if a.len() != b.len() {
        proof {
            assert(label_views(a@).len() != label_views(b@).len());
        }
        return false;
    }
    let mut i: usize = 0;
    while i < a.len()
        invariant
            i <= a.len(),
            a.len() == b.len(),
            forall|j: int| 0 <= j < i ==> a@[j]@ == b@[j]@,
        decreases a.len() - i,
    {
        if a[i] != b[i] {
            proof {
                assert(label_views(a@)[i as int] != label_views(b@)[i as int]);
            }
            return false;
        }
        i = i + 1;
    }
    proof {
        assert(label_views(a@) =~= label_views(b@));
    }
    true
}

impl PartialEq for Item {
    fn eq(&self, other: &Item) -> (r: bool) {
        crate::labels::same_entity(&self.id, &other.id) && self.uuid.bits == other.uuid.bits
            && self.name == other.name && crate::timespec::same_date(&self.due_date, &other.due_date)
            && crate::timespec::same_date(&self.completion_date, &other.completion_date)
            && same_labels(&self.labels, &other.labels)
    }
}

impl vstd::std_specs::cmp::PartialEqSpecImpl for Item {
    open spec fn obeys_eq_spec() -> bool {
        true
    }

    open spec fn eq_spec(&self, other: &Item) -> bool {
        self@ == other@
    }
}

/// The date that a caller hands over as a raw number of seconds, or none.
pub open spec fn date_from_raw(raw: Option<usize>) -> Option<Timespec> {
    match raw {
        Some(v) => Some(Timespec { sec: v as i64, nsec: 0 }),
        None => None,
    }
}

/// Turns a raw number of seconds, where there is one, into a date with no nanoseconds.
pub fn timespec_from_raw(raw: Option<usize>) -> (t: Option<Timespec>)
    ensures
        t == date_from_raw(raw),
{
    match raw {
        Some(v) => Some(Timespec::new(v as i64, 0)),
        None => None,
    }
}

/// The seconds of a date, where there is one.
pub open spec fn seconds_of(date: Option<Timespec>) -> Option<i64> {
    match date {
        Some(t) => Some(t.sec),
        None => None,
    }
}

/// A fresh item: no identifier, the nil uuid, an empty name, no dates and no labels.
pub fn item_new() -> (item: Item)
    ensures
        item@ == (ItemView {
            id: None,
            uuid: Uuid { bits: 0 },
            name: Seq::empty(),
            due_date: None,
            completion_date: None,
            labels: Seq::empty(),
        }),
{
    let item = Item {
        id: None,
        uuid: Uuid::nil(),
        name: String::new(),
        due_date: None,
        completion_date: None,
        labels: Vec::new(),
    };
    assert(label_views(item.labels@) =~= Seq::empty());
    item
}

/// The name of an item.
pub fn item_get_name(item: &Item) -> (name: String)
    ensures
        name@ == item.name@,
{
    item.name.clone()
}

/// Gives an item a new name; all else stays.
pub fn item_set_name(item: &mut Item, name: String)
    ensures
        final(item)@ == (ItemView { name: name@, ..old(item)@ }),
{
    item.name = name;
}

/// The seconds of the item's due date, if it has one.
pub fn item_get_due_date(item: &Item) -> (sec: Option<i64>)
    ensures
        sec == seconds_of(item.due_date),
{
    match item.due_date {
        Some(date) => Some(date.sec),
        None => None,
    }
}

/// Sets the due date from a raw number of seconds, or clears it; all else stays.
pub fn item_set_due_date(item: &mut Item, due_date: Option<usize>)
    ensures
        final(item)@ == (ItemView { due_date: date_from_raw(due_date), ..old(item)@ }),
{
    item.due_date = timespec_from_raw(due_date);
}

/// The seconds of the item's completion date, if it has one.
pub fn item_get_completion_date(item: &Item) -> (sec: Option<i64>)
    ensures
        sec == seconds_of(item.completion_date),
{
    match item.completion_date {
        Some(date) => Some(date.sec),
        None => None,
    }
}

/// Sets the completion date from a raw number of seconds, or clears it; all else stays.
pub fn item_set_completion_date(item: &mut Item, completion_date: Option<usize>)
    ensures
        final(item)@ == (ItemView { completion_date: date_from_raw(completion_date), ..old(item)@ }),
{
    item.completion_date = timespec_from_raw(completion_date);
}

/// A copy of the item's labels.
pub fn item_get_labels(item: &Item) -> (labels: Vec<Label>)
    ensures
        label_views(labels@) == item@.labels,
{
    clone_labels(&item.labels)
}

/// How many labels the item carries, as a C `int` (the count wraps to 32 bits).
pub fn item_labels_count(item: &Item) -> (count: i32)
    ensures
        count == item.labels.len() as i32,
{
    item.labels.len() as i32
}

/// A copy of the label at `index` of a list.
pub fn item_label_at(label_list: &Vec<Label>, index: usize) -> (label: Label)
    requires
        index < label_list.len(),
    ensures
        label@ == label_list[index as int]@,
{
    label_list[index].clone()
}

} // verus!

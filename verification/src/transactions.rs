use vstd::prelude::*;
use crate::ids::{hyphenated, is_random_uuid, Uuid};
use crate::items::{label_views, Item, ItemView};
use crate::labels::{Label, LabelView};
use crate::text::{decimal, join_decimals, push_decimal, push_joined_decimals};
use crate::timespec::{fits_in_micros, micros_fit, micros_of, same_date, Timespec};

verus! {

// ---------------------------------------------------------------- labels

/// The transaction that stores a new label with a name and a colour.
pub open spec fn create_label_text(name: Seq<char>, color: Seq<char>) -> Seq<char> {
    "[{ :label/name \""@ + name + "\" :label/color \""@ + color + "\" }]"@
}

/// Builds the transaction that stores a new label.
pub fn create_label_transaction(name: &String, color: &String) -> (tx: String)
    ensures
        tx@ == create_label_text(name@, color@),
{
    let mut tx = String::new();
    tx.append("[{ :label/name \"");
    tx.append(name.as_str());
    tx.append("\" :label/color \"");
    tx.append(color.as_str());
    tx.append("\" }]");
    tx
}

// ---------------------------------------------------------------- creating items

/// The store identifiers of those labels that have one, in order.
pub open spec fn stored_label_ids(labels: Seq<LabelView>) -> Seq<i64>
    decreases labels.len(),
{
    if labels.len() == 0 {
        Seq::empty()
    } else {
        let rest = stored_label_ids(labels.drop_last());
        match labels.last().id {
            Some(e) => rest.push(e.id),
            None => rest,
        }
    }
}

/// The clause that writes a date attribute of a new item, if the item has the date.
pub open spec fn new_date_clause(attr: Seq<char>, date: Option<Timespec>) -> Seq<char> {
    match date {
        Some(d) => ":item/"@ + attr + " #instmicros "@ + decimal(micros_of(d))
            + "\n                "@,
        None => Seq::empty(),
    }
}

/// The clause that attaches the stored labels to a new item, if there are any.
pub open spec fn new_labels_clause(labels: Seq<LabelView>) -> Seq<char> {
    let ids = stored_label_ids(labels);
    if ids.len() == 0 {
        Seq::empty()
    } else {
        ":item/label ["@ + join_decimals(ids) + "]\n                "@
    }
}

/// Whether a date, if present, can be written in microseconds.
pub open spec fn date_writable(date: Option<Timespec>) -> bool {
    match date {
        Some(d) => micros_fit(d.sec),
        None => true,
    }
}

/// The transaction that stores a new item under a given uuid: its uuid and name, its
/// due and completion dates where it has them, and the labels that have store
/// identifiers. The item's own identifier and uuid are not written.
pub open spec fn create_item_text(item: ItemView, uuid: Uuid) -> Seq<char> {
    "[{\n            :item/uuid #uuid \""@ + hyphenated(uuid.bits)
        + "\"\n            :item/name \""@ + item.name + "\"\n            "@
        + new_date_clause("due_date"@, item.due_date)
        + new_date_clause("completion_date"@, item.completion_date)
        + new_labels_clause(item.labels) + "}]"@
}

/// The store identifiers of those labels in a list that have one.
pub fn stored_ids(labels: &Vec<Label>) -> (ids: Vec<i64>)
    ensures
        ids@ == stored_label_ids(label_views(labels@)),
{
    let ghost views = label_views(labels@);
    let mut ids: Vec<i64> = Vec::new();
    let mut i: usize = 0;
    while i < labels.len()
        invariant
            i <= labels.len(),
            views == label_views(labels@),
            ids@ == stored_label_ids(views.take(i as int)),
        decreases labels.len() - i,
    {
        proof {
            assert(views.take(i + 1).drop_last() =~= views.take(i as int));
        }
        match labels[i].id {
            Some(e) => ids.push(e.id),
            None => {},
        }
        i = i + 1;
    }
    proof {
        assert(views.take(labels.len() as int) =~= views);
    }
    ids
}

/// Whether a date, if present, can be written in microseconds.
pub fn is_date_writable(date: Option<Timespec>) -> (r: bool)
    ensures
        r == date_writable(date),
{
    match date {
        Some(d) => fits_in_micros(d.sec),
        None => true,
    }
}

fn push_new_date_clause(tx: &mut String, attr: &str, date: Option<Timespec>)
    requires
        date_writable(date),
    ensures
        final(tx)@ == old(tx)@ + new_date_clause(attr@, date),
{
    match date {
        Some(d) => {
            tx.append(":item/");
            tx.append(attr);
            tx.append(" #instmicros ");
            push_decimal(tx, d.sec * 1000000);
            tx.append("\n                ");
        },
        None => {},
    }
}

/// Builds the transaction that stores a new item under the given uuid.
pub fn create_item_transaction(item: &Item, uuid: Uuid) -> (tx: String)
    requires
        date_writable(item.due_date),
        date_writable(item.completion_date),
    ensures
        tx@ == create_item_text(item@, uuid),
{
    let ids = stored_ids(&item.labels);
    let mut tx = String::new();
    tx.append("[{\n            :item/uuid #uuid \"");
    let text = uuid.hyphenated();
    tx.append(text.as_str());
    tx.append("\"\n            :item/name \"");
    tx.append(item.name.as_str());
    tx.append("\"\n            ");
    push_new_date_clause(&mut tx, "due_date", item.due_date);
    push_new_date_clause(&mut tx, "completion_date", item.completion_date);
    if ids.len() > 0 {
        tx.append(":item/label [");
        push_joined_decimals(&mut tx, &ids);
        tx.append("]\n                ");
    }
    tx.append("}]");
    tx
}

/// Draws a fresh random uuid for a new item and builds the transaction that stores
/// the item under it. Whatever uuid comes, it is a version 4 uuid, not nil, and the
/// transaction is the one for that uuid.
pub fn create_item(item: &Item) -> (created: (Uuid, String))
    requires
        date_writable(item.due_date),
        date_writable(item.completion_date),
    ensures
        is_random_uuid(created.0.bits),
        created.0.bits != 0,
        created.1@ == create_item_text(item@, created.0),
{
    let uuid = Uuid::new_v4();
    let tx = create_item_transaction(item, uuid);
    (uuid, tx)
}

// ---------------------------------------------------------------- updating items

/// The labels of `labels` that are not in `others`, in order.
pub open spec fn missing_from(labels: Seq<LabelView>, others: Seq<LabelView>) -> Seq<LabelView>
    decreases labels.len(),
{
    if labels.len() == 0 {
        Seq::empty()
    } else {
        let rest = missing_from(labels.drop_last(), others);
        if others.contains(labels.last()) {
            rest
        } else {
            rest.push(labels.last())
        }
    }
}

/// Whether every label of a sequence has a store identifier.
pub open spec fn all_stored(labels: Seq<LabelView>) -> bool {
    forall|i: int| 0 <= i < labels.len() ==> (#[trigger] labels[i]).id is Some
}

/// The store identifiers of labels that all have one.
pub open spec fn entity_ids(labels: Seq<LabelView>) -> Seq<i64> {
    labels.map_values(|l: LabelView| l.id.unwrap().id)
}

/// The step that renames an item, when a new name is given and differs from its name.
pub open spec fn name_change(id: i64, current: Seq<char>, name: Option<Seq<char>>) -> Seq<char> {
    match name {
        Some(n) => if n != current {
            "[:db/add "@ + decimal(id as int) + " :item/name \""@ + n + "\"]"@
        } else {
            Seq::empty()
        },
        None => Seq::empty(),
    }
}

/// The step that moves a date attribute of an item from `current` to `next`: nothing
/// when they are the same, an addition of the new instant when there is one, and
/// otherwise a retraction of the current instant.
pub open spec fn date_change(
    id: i64,
    attr: Seq<char>,
    current: Option<Timespec>,
    next: Option<Timespec>,
) -> Seq<char> {
    if current == next {
        Seq::empty()
    } else {
        match next {
            Some(d) => "[:db/add "@ + decimal(id as int) + " :item/"@ + attr + " #instmicros "@
                + decimal(micros_of(d)) + "]"@,
            None => "[:db/retract "@ + decimal(id as int) + " :item/"@ + attr
                + " #instmicros "@ + decimal(micros_of(current.unwrap())) + "]"@,
        }
    }
}

/// Whether the date step can write its instant in microseconds.
pub open spec fn date_change_writable(current: Option<Timespec>, next: Option<Timespec>) -> bool {
    current != next ==> match next {
        Some(d) => micros_fit(d.sec),
        None => micros_fit(current.unwrap().sec),
    }
}

/// The step that adds or retracts labels of an item, given as store identifiers.
pub open spec fn label_step(op: Seq<char>, id: i64, label_ids: Seq<i64>) -> Seq<char> {
    if label_ids.len() == 0 {
        Seq::empty()
    } else {
        "[:db/"@ + op + " "@ + decimal(id as int) + " :item/label ["@ + join_decimals(label_ids)
            + "]]"@
    }
}

/// The labels to attach when an item's labels go from `existing` to `new_labels`.
pub open spec fn labels_to_add(new_labels: Seq<LabelView>, existing: Seq<LabelView>) -> Seq<LabelView> {
    missing_from(new_labels, existing)
}

/// The labels to detach when an item's labels go from `existing` to `new_labels`.
pub open spec fn labels_to_remove(new_labels: Seq<LabelView>, existing: Seq<LabelView>) -> Seq<LabelView> {
    missing_from(existing, new_labels)
}

/// The steps that bring an item's labels from `existing` to the new labels, when new
/// labels are given.
pub open spec fn label_changes(id: i64, labels: Option<Seq<LabelView>>, existing: Seq<LabelView>) -> Seq<char> {
    match labels {
        Some(new_labels) => label_step("add"@, id, entity_ids(labels_to_add(new_labels, existing)))
            + label_step("retract"@, id, entity_ids(labels_to_remove(new_labels, existing))),
        None => Seq::empty(),
    }
}

/// Whether the labels that the update attaches or detaches all have store identifiers.
pub open spec fn label_changes_stored(labels: Option<Seq<LabelView>>, existing: Seq<LabelView>) -> bool {
    match labels {
        Some(new_labels) => all_stored(labels_to_add(new_labels, existing)) && all_stored(
            labels_to_remove(new_labels, existing),
        ),
        None => true,
    }
}

/// What an update needs of its inputs: the item has a store identifier, each date
/// written can be written in microseconds, and each label attached or detached has a
/// store identifier.
pub open spec fn update_item_allowed(
    item: ItemView,
    due_date: Option<Timespec>,
    completion_date: Option<Timespec>,
    labels: Option<Seq<LabelView>>,
    existing: Seq<LabelView>,
) -> bool {
    &&& item.id is Some
    &&& date_change_writable(item.due_date, due_date)
    &&& date_change_writable(item.completion_date, completion_date)
    &&& label_changes_stored(labels, existing)
}

/// The transaction that updates a stored item: a rename, the due date step, the
/// completion date step and the label steps, in that order, inside one vector.
pub open spec fn update_item_text(
    item: ItemView,
    name: Option<Seq<char>>,
    due_date: Option<Timespec>,
    completion_date: Option<Timespec>,
    labels: Option<Seq<LabelView>>,
    existing: Seq<LabelView>,
) -> Seq<char> {
    let id = item.id.unwrap().id;
    "["@ + name_change(id, item.name, name) + date_change(id, "due_date"@, item.due_date, due_date)
        + date_change(id, "completion_date"@, item.completion_date, completion_date)
        + label_changes(id, labels, existing) + "]"@
}

/// The optional text as plain values.
pub open spec fn text_view(s: Option<String>) -> Option<Seq<char>> {
    match s {
        Some(t) => Some(t@),
        None => None,
    }
}

/// The optional list of labels as plain values.
pub open spec fn labels_view(labels: Option<&Vec<Label>>) -> Option<Seq<LabelView>> {
    match labels {
        Some(l) => Some(label_views(l@)),
        None => None,
    }
}

/// Whether a list holds a label equal to `label`.
pub fn labels_contain(labels: &Vec<Label>, label: &Label) -> (found: bool)
    ensures
        found == label_views(labels@).contains(label@),
{
    let ghost views = label_views(labels@);
    let mut i: usize = 0;
    while i < labels.len()
        invariant
            i <= labels.len(),
            views == label_views(labels@),
            forall|j: int| 0 <= j < i ==> views[j] != label@,
        decreases labels.len() - i,
    {
        if labels[i] == *label {
            assert(views[i as int] == label@);
            return true;
        }
        i = i + 1;
    }
    false
}

/// The store identifiers of the labels of `labels` that are not in `others`.
pub fn ids_missing_from(labels: &Vec<Label>, others: &Vec<Label>) -> (ids: Vec<i64>)
    requires
        all_stored(missing_from(label_views(labels@), label_views(others@))),
    ensures
        ids@ == entity_ids(missing_from(label_views(labels@), label_views(others@))),
{
    let ghost views = label_views(labels@);
    let ghost other_views = label_views(others@);
    let mut ids: Vec<i64> = Vec::new();
    let mut i: usize = 0;
    while i < labels.len()
        invariant
            i <= labels.len(),
            views == label_views(labels@),
            other_views == label_views(others@),
            all_stored(missing_from(views, other_views)),
            ids@ == entity_ids(missing_from(views.take(i as int), other_views)),
        decreases labels.len() - i,
    {
        proof {
            assert(views.take(i + 1).drop_last() =~= views.take(i as int));
            lemma_missing_from_prefix(views, other_views, i + 1);
        }
        if !labels_contain(others, &labels[i]) {
            proof {
                let whole = missing_from(views, other_views);
                let m = missing_from(views.take(i + 1), other_views);
                assert(views.take(i + 1).last() == views[i as int]);
                assert(m == missing_from(views.take(i as int), other_views).push(views[i as int]));
                assert(m[m.len() - 1] == whole[m.len() - 1]);
                assert(whole[m.len() - 1].id is Some);
            }
            let e = labels[i].id.unwrap();
            ids.push(e.id);
            proof {
                let m = missing_from(views.take(i as int), other_views);
                assert(entity_ids(m.push(views[i as int])) =~= entity_ids(m).push(e.id));
            }
        }
        i = i + 1;
    }
    proof {
        assert(views.take(labels.len() as int) =~= views);
    }
    ids
}

/// The labels missing from a prefix are a prefix of those missing from the whole.
proof fn lemma_missing_from_prefix(labels: Seq<LabelView>, others: Seq<LabelView>, n: int)
    requires
        0 <= n <= labels.len(),
    ensures
        missing_from(labels.take(n), others).len() <= missing_from(labels, others).len(),
        missing_from(labels.take(n), others) =~= missing_from(labels, others).take(
            missing_from(labels.take(n), others).len() as int,
        ),
    decreases labels.len() - n,
{
    if n < labels.len() {
        lemma_missing_from_prefix(labels, others, n + 1);
        assert(labels.take(n + 1).drop_last() =~= labels.take(n));
    } else {
        assert(labels.take(n) =~= labels);
    }
}

/// Whether every label of `labels` that is not in `others` has a store identifier.
pub fn missing_are_stored(labels: &Vec<Label>, others: &Vec<Label>) -> (r: bool)
    ensures
        r == all_stored(missing_from(label_views(labels@), label_views(others@))),
{
    let ghost views = label_views(labels@);
    let ghost other_views = label_views(others@);
    let mut i: usize = 0;
    while i < labels.len()
        invariant
            i <= labels.len(),
            views == label_views(labels@),
            other_views == label_views(others@),
            all_stored(missing_from(views.take(i as int), other_views)),
        decreases labels.len() - i,
    {
        proof {
            assert(views.take(i + 1).drop_last() =~= views.take(i as int));
            assert(views.take(i + 1).last() == views[i as int]);
        }
        if !labels_contain(others, &labels[i]) && labels[i].id.is_none() {
            proof {
                let m = missing_from(views.take(i + 1), other_views);
                assert(m.last() == views[i as int]);
                lemma_missing_from_prefix(views, other_views, i + 1);
                let whole = missing_from(views, other_views);
                assert(whole[m.len() - 1] == m[m.len() - 1]);
            }
            return false;
        }
        i = i + 1;
    }
    proof {
        assert(views.take(labels.len() as int) =~= views);
    }
    true
}

/// Whether a date step can write its instant in microseconds.
pub fn is_date_change_writable(current: Option<Timespec>, next: Option<Timespec>) -> (r: bool)
    ensures
        r == date_change_writable(current, next),
{
    if same_date(&current, &next) {
        true
    } else {
        match next {
            Some(d) => fits_in_micros(d.sec),
            None => match current {
                Some(c) => fits_in_micros(c.sec),
                None => true,
            },
        }
    }
}

/// Whether an update can be built from these inputs: the item has a store identifier,
/// the dates it writes fit in microseconds, and the labels it attaches or detaches all
/// have store identifiers.
pub fn can_update_item(
    item: &Item,
    due_date: Option<Timespec>,
    completion_date: Option<Timespec>,
    labels: Option<&Vec<Label>>,
    existing_labels: &Vec<Label>,
) -> (r: bool)
    ensures
        r == update_item_allowed(item@, due_date, completion_date, labels_view(labels), label_views(existing_labels@)),
{
    if item.id.is_none() || !is_date_change_writable(item.due_date, due_date)
        || !is_date_change_writable(item.completion_date, completion_date) {
        return false;
    }
    match labels {
        Some(new_labels) => missing_are_stored(new_labels, existing_labels) && missing_are_stored(
            existing_labels,
            new_labels,
        ),
        None => true,
    }
}

fn push_date_change(
    tx: &mut String,
    id: i64,
    attr: &str,
    current: Option<Timespec>,
    next: Option<Timespec>,
)
    requires
        date_change_writable(current, next),
    ensures
        final(tx)@ == old(tx)@ + date_change(id, attr@, current, next),
{
    if !same_date(&current, &next) {
        match next {
            Some(d) => {
                tx.append("[:db/add ");
                push_decimal(tx, id);
                tx.append(" :item/");
                tx.append(attr);
                tx.append(" #instmicros ");
                push_decimal(tx, d.sec * 1000000);
                tx.append("]");
            },
            None => {
                let d = current.unwrap();
                tx.append("[:db/retract ");
                push_decimal(tx, id);
                tx.append(" :item/");
                tx.append(attr);
                tx.append(" #instmicros ");
                push_decimal(tx, d.sec * 1000000);
                tx.append("]");
            },
        }
    }
}

fn push_label_step(tx: &mut String, op: &str, id: i64, label_ids: &Vec<i64>)
    ensures
        final(tx)@ == old(tx)@ + label_step(op@, id, label_ids@),
{
    if label_ids.len() > 0 {
        tx.append("[:db/");
        tx.append(op);
        tx.append(" ");
        push_decimal(tx, id);
        tx.append(" :item/label [");
        push_joined_decimals(tx, label_ids);
        tx.append("]]");
    }
}

fn push_name_change(tx: &mut String, id: i64, current: &String, name: Option<String>)
    ensures
        final(tx)@ == old(tx)@ + name_change(id, current@, text_view(name)),
{
    match name {
        Some(n) => {
            if *current != n {
                tx.append("[:db/add ");
                push_decimal(tx, id);
                tx.append(" :item/name \"");
                tx.append(n.as_str());
                tx.append("\"]");
            }
        },
        None => {},
    }
}

fn push_label_changes(tx: &mut String, id: i64, labels: Option<&Vec<Label>>, existing_labels: &Vec<Label>)
    requires
        label_changes_stored(labels_view(labels), label_views(existing_labels@)),
    ensures
        final(tx)@ == old(tx)@ + label_changes(id, labels_view(labels), label_views(existing_labels@)),
{
    match labels {
        Some(new_labels) => {
            let to_add = ids_missing_from(new_labels, existing_labels);
            push_label_step(tx, "add", id, &to_add);
            let to_remove = ids_missing_from(existing_labels, new_labels);
            push_label_step(tx, "retract", id, &to_remove);
        },
        None => {},
    }
}

/// Builds the transaction that updates a stored item. A new name is written when it is
/// given and differs; each date is added or retracted when it differs from the item's;
/// when new labels are given, `existing_labels` are the labels the store holds for the
/// item, and the labels that are new are attached and those that are gone detached.
pub fn update_item_transaction(
    item: &Item,
    name: Option<String>,
    due_date: Option<Timespec>,
    completion_date: Option<Timespec>,
    labels: Option<&Vec<Label>>,
    existing_labels: &Vec<Label>,
) -> (tx: String)
    requires
        update_item_allowed(item@, due_date, completion_date, labels_view(labels), label_views(existing_labels@)),
    ensures
        tx@ == update_item_text(
            item@,
            text_view(name),
            due_date,
            completion_date,
            labels_view(labels),
            label_views(existing_labels@),
        ),
{
    let id = item.id.unwrap().id;
    let mut tx = String::new();
    tx.append("[");
    push_name_change(&mut tx, id, &item.name, name);
    push_date_change(&mut tx, id, "due_date", item.due_date, due_date);
    push_date_change(&mut tx, id, "completion_date", item.completion_date, completion_date);
    push_label_changes(&mut tx, id, labels, existing_labels);
    tx.append("]");
    tx
}

} // verus!

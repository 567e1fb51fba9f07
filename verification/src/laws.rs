use vstd::prelude::*;
use crate::ids::{hyphenated, Entity, Uuid};
use crate::items::{date_from_raw, seconds_of, ItemView};
use crate::values::{
    first_row, present,
    first_label, item_of_row, label_of_row, labels_of_result, relation_rows, uuids_of_result, uuids_of_rows,
    QueryResults, ValueView, labels_of_rows, date_of_result,
};
use crate::labels::LabelView;
use crate::queries::date_query_text;
use crate::text::{decimal, digit_char, digits, join, join_decimals};
use crate::timespec::{from_micros_spec, micros_fit, micros_of, Timespec};
use crate::transactions::{
    date_change, entity_ids, label_changes, stored_label_ids, labels_to_add, labels_to_remove, missing_from, name_change,
    update_item_text, create_item_text, create_label_text,
};

verus! {

/// A label is missing from `others` in `labels` exactly when `labels` holds it and
/// `others` does not.
pub proof fn lemma_missing_from_contains(labels: Seq<LabelView>, others: Seq<LabelView>, x: LabelView)
    ensures
        missing_from(labels, others).contains(x) <==> (labels.contains(x) && !others.contains(x)),
    decreases labels.len(),
{
    if labels.len() > 0 {
        let init = labels.drop_last();
        lemma_missing_from_contains(init, others, x);
        assert(labels =~= init.push(labels.last()));
        if labels.contains(x) && x != labels.last() {
            let k = choose|k: int| 0 <= k < labels.len() && labels[k] == x;
            assert(init[k] == x);
        }
        if init.contains(x) {
            let k = choose|k: int| 0 <= k < init.len() && init[k] == x;
            assert(labels[k] == x);
        }
        let rest = missing_from(init, others);
        if rest.contains(x) {
            let k = choose|k: int| 0 <= k < rest.len() && rest[k] == x;
            assert(rest.push(labels.last())[k] == x);
        }
        if !others.contains(labels.last()) {
            assert(rest.push(labels.last())[rest.len() as int] == labels.last());
            if rest.push(labels.last()).contains(x) && x != labels.last() {
                let k = choose|k: int| 0 <= k < rest.len() + 1 && rest.push(labels.last())[k] == x;
                assert(rest[k] == x);
            }
        }
    }
}

/// The labels an update attaches are those of the new labels that the item does not
/// carry yet, and those it detaches are those it carries that are not among the new
/// labels; so once both are applied, the item carries exactly the new labels.
pub proof fn law_label_diff(new_labels: Seq<LabelView>, existing: Seq<LabelView>)
    ensures
        labels_to_add(new_labels, existing).to_set() == new_labels.to_set().difference(existing.to_set()),
        labels_to_remove(new_labels, existing).to_set() == existing.to_set().difference(new_labels.to_set()),
        existing.to_set().difference(labels_to_remove(new_labels, existing).to_set()).union(
            labels_to_add(new_labels, existing).to_set(),
        ) == new_labels.to_set(),
        labels_to_add(new_labels, existing).to_set().disjoint(labels_to_remove(new_labels, existing).to_set()),
{
    let add = labels_to_add(new_labels, existing);
    let remove = labels_to_remove(new_labels, existing);
    assert forall|x: LabelView| add.to_set().contains(x) <==> new_labels.to_set().difference(existing.to_set()).contains(x) by {
        lemma_missing_from_contains(new_labels, existing, x);
    }
    assert forall|x: LabelView| remove.to_set().contains(x) <==> existing.to_set().difference(new_labels.to_set()).contains(x) by {
        lemma_missing_from_contains(existing, new_labels, x);
    }
    assert(add.to_set() =~= new_labels.to_set().difference(existing.to_set()));
    assert(remove.to_set() =~= existing.to_set().difference(new_labels.to_set()));
    assert(existing.to_set().difference(remove.to_set()).union(add.to_set()) =~= new_labels.to_set());
    assert(add.to_set().disjoint(remove.to_set()));
}

/// When the new labels and the labels the item carries are the same set, the update
/// attaches and detaches nothing.
pub proof fn law_same_labels_no_change(id: i64, new_labels: Seq<LabelView>, existing: Seq<LabelView>)
    requires
        new_labels.to_set() == existing.to_set(),
    ensures
        labels_to_add(new_labels, existing).len() == 0,
        labels_to_remove(new_labels, existing).len() == 0,
        label_changes(id, Some(new_labels), existing) == Seq::<char>::empty(),
{
    let add = labels_to_add(new_labels, existing);
    let remove = labels_to_remove(new_labels, existing);
    if add.len() > 0 {
        lemma_missing_from_contains(new_labels, existing, add[0]);
        assert(add.contains(add[0]));
        assert(new_labels.to_set().contains(add[0]));
    }
    if remove.len() > 0 {
        lemma_missing_from_contains(existing, new_labels, remove[0]);
        assert(remove.contains(remove[0]));
        assert(existing.to_set().contains(remove[0]));
    }
    assert(entity_ids(add).len() == 0);
    assert(entity_ids(remove).len() == 0);
    assert(label_changes(id, Some(new_labels), existing) =~= Seq::<char>::empty());
}

/// An update that gives no new name (or the same name), the item's own dates, and no
/// labels (or the same set of labels the item carries) is the empty transaction `[]`.
pub proof fn law_unchanged_update_is_empty(
    item: ItemView,
    name: Option<Seq<char>>,
    labels: Option<Seq<LabelView>>,
    existing: Seq<LabelView>,
)
    requires
        item.id is Some,
        name matches Some(n) ==> n == item.name,
        labels matches Some(l) ==> l.to_set() == existing.to_set(),
    ensures
        update_item_text(item, name, item.due_date, item.completion_date, labels, existing) == "[]"@,
{
    let id = item.id.unwrap().id;
    if let Some(l) = labels {
        law_same_labels_no_change(id, l, existing);
    }
    assert(name_change(id, item.name, name) == Seq::<char>::empty());
    assert(label_changes(id, labels, existing) == Seq::<char>::empty());
    reveal_strlit("[]");
    reveal_strlit("[");
    reveal_strlit("]");
    assert(update_item_text(item, name, item.due_date, item.completion_date, labels, existing) =~= "[]"@);
}

/// A date written to the store in microseconds and read back keeps its seconds and
/// loses its nanoseconds.
pub proof fn law_micros_round_trip(t: Timespec)
    requires
        micros_fit(t.sec),
    ensures
        from_micros_spec(micros_of(t) as i64) == (Timespec { sec: t.sec, nsec: 0 }),
{
    let m = micros_of(t);
    assert(m as i64 as int == m);
    assert((t.sec * 1000000) / 1000000 == t.sec) by (nonlinear_arith);
    assert((t.sec * 1000000) % 1000000 == 0) by (nonlinear_arith);
}

/// A date set from a raw number of seconds reads back as that number taken as an `i64`,
/// and a cleared date reads back as none.
pub proof fn law_raw_date_read_back(raw: Option<usize>)
    ensures
        seconds_of(date_from_raw(raw)) == (match raw {
            Some(v) => Some(v as i64),
            None => None,
        }),
{
}

/// The decimal text of a natural number is never empty.
pub proof fn lemma_digits_nonempty(n: nat)
    ensures
        digits(n).len() > 0,
    decreases n,
{
    if n >= 10 {
        lemma_digits_nonempty(n / 10);
    }
}

/// The decimal texts of integers joined by `", "` are empty exactly when there are no
/// integers: a clause that lists label identifiers is written exactly when there is one.
pub proof fn law_joined_decimals_empty(ns: Seq<i64>)
    ensures
        (join_decimals(ns).len() == 0) <==> (ns.len() == 0),
{
    let texts = ns.map_values(|n: i64| decimal(n as int));
    if ns.len() == 0 {
        assert(texts.len() == 0);
    } else {
        let last = ns[ns.len() - 1];
        if last < 0 {
            lemma_digits_nonempty((-last) as nat);
        } else {
            lemma_digits_nonempty(last as nat);
        }
        assert(texts.last() == decimal(last as int));
        if ns.len() == 1 {
            assert(join(texts, ", "@) == texts[0]);
        } else {
            assert(join(texts, ", "@) == join(texts.drop_last(), ", "@) + ", "@ + texts.last());
        }
    }
}

/// A label that the store hands back as the row `[entity, name, colour]` is the label
/// with that identifier, name and colour: what was stored under a name and a colour is
/// read back with the same name and colour.
pub proof fn law_label_row_read_back(e: i64, name: Seq<char>, color: Seq<char>)
    ensures
        label_of_row(seq![ValueView::Ref(e), ValueView::Text(name), ValueView::Text(color)])
            == Some(LabelView { id: Some(Entity { id: e }), name, color }),
{
}

/// An item that the store hands back as the row `[entity, uuid, name]`, with the dates
/// it wrote in microseconds, is read back with its uuid, its name, and the seconds of
/// its dates.
pub proof fn law_item_row_read_back(
    e: i64,
    uuid: Uuid,
    item: ItemView,
    due: Timespec,
    completion: Timespec,
)
    requires
        micros_fit(due.sec),
        micros_fit(completion.sec),
    ensures
        item_of_row(
            seq![ValueView::Ref(e), ValueView::Uuid(uuid), ValueView::Text(item.name)],
            Some(from_micros_spec(micros_of(due) as i64)),
            Some(from_micros_spec(micros_of(completion) as i64)),
            item.labels,
        ) == Some(ItemView {
            id: Some(Entity { id: e }),
            uuid,
            name: item.name,
            due_date: Some(Timespec { sec: due.sec, nsec: 0 }),
            completion_date: Some(Timespec { sec: completion.sec, nsec: 0 }),
            labels: item.labels,
        }),
{
    law_micros_round_trip(due);
    law_micros_round_trip(completion);
}

/// The labels that have a store identifier.
pub open spec fn stored_labels(labels: Seq<LabelView>) -> Seq<LabelView> {
    labels.filter(|l: LabelView| l.id is Some)
}

/// The label clause of a new item lists exactly the identifiers of the labels that have
/// one, in order; labels without an identifier are left out, with no error.
pub proof fn law_create_lists_stored_labels(labels: Seq<LabelView>)
    ensures
        stored_label_ids(labels) == entity_ids(stored_labels(labels)),
        forall|x: i64|
            stored_label_ids(labels).contains(x) <==> exists|i: int|
                0 <= i < labels.len() && (#[trigger] labels[i]).id == Some(Entity { id: x }),
    decreases labels.len(),
{
    reveal_with_fuel(Seq::<_>::filter, 1);
    if labels.len() > 0 {
        let init = labels.drop_last();
        law_create_lists_stored_labels(init);
        let rest = stored_label_ids(init);
        assert(stored_labels(labels) == (if labels.last().id is Some {
            stored_labels(init).push(labels.last())
        } else {
            stored_labels(init)
        }));
        match labels.last().id {
            Some(e) => {
                assert(entity_ids(stored_labels(init).push(labels.last())) =~= entity_ids(
                    stored_labels(init),
                ).push(e.id));
            },
            None => {},
        }
        assert forall|x: i64|
            stored_label_ids(labels).contains(x) <==> exists|i: int|
                0 <= i < labels.len() && (#[trigger] labels[i]).id == Some(Entity { id: x }) by {
            if stored_label_ids(labels).contains(x) {
                let k = choose|k: int| 0 <= k < stored_label_ids(labels).len() && stored_label_ids(labels)[k] == x;
                if k < rest.len() {
                    assert(rest[k] == x);
                    assert(rest.contains(x));
                    let i = choose|i: int| 0 <= i < init.len() && (#[trigger] init[i]).id == Some(Entity { id: x });
                    assert(labels[i] == init[i]);
                } else {
                    assert(labels[labels.len() - 1].id == Some(Entity { id: x }));
                }
            }
            if exists|i: int| 0 <= i < labels.len() && (#[trigger] labels[i]).id == Some(Entity { id: x }) {
                let i = choose|i: int| 0 <= i < labels.len() && (#[trigger] labels[i]).id == Some(Entity { id: x });
                if i < init.len() {
                    assert(init[i] == labels[i]);
                    assert(rest.contains(x));
                    let k = choose|k: int| 0 <= k < rest.len() && rest[k] == x;
                    assert(stored_label_ids(labels)[k] == x);
                } else {
                    assert(stored_label_ids(labels) == rest.push(x));
                    assert(stored_label_ids(labels)[rest.len() as int] == x);
                }
            }
        }
    }
}

/// A date as the store reads it back after writing it in microseconds.
pub open spec fn stored_date(date: Option<Timespec>) -> Option<Timespec> {
    match date {
        Some(t) => Some(from_micros_spec(micros_of(t) as i64)),
        None => None,
    }
}

/// The step that a repeated update writes for a date: nothing when the date has no
/// nanoseconds, and otherwise the addition of the same instant once more.
pub open spec fn date_readded(id: i64, attr: Seq<char>, date: Option<Timespec>) -> Seq<char> {
    match date {
        Some(t) => if t.nsec == 0 {
            Seq::empty()
        } else {
            "[:db/add "@ + decimal(id as int) + " :item/"@ + attr + " #instmicros "@ + decimal(micros_of(t))
                + "]"@
        },
        None => Seq::empty(),
    }
}

/// Repeating an update on the item as the store reads it back after the first one (its
/// name the new name, its dates the written dates read back, its labels the same set as
/// the new labels) writes no rename and no label step; it only adds once more the
/// instants of dates that had nanoseconds. With whole-second dates it is `[]`.
pub proof fn law_repeated_update(
    refetched: ItemView,
    name: Option<Seq<char>>,
    due_date: Option<Timespec>,
    completion_date: Option<Timespec>,
    labels: Option<Seq<LabelView>>,
    existing: Seq<LabelView>,
)
    requires
        refetched.id is Some,
        name matches Some(n) ==> n == refetched.name,
        due_date matches Some(t) ==> micros_fit(t.sec),
        completion_date matches Some(t) ==> micros_fit(t.sec),
        refetched.due_date == stored_date(due_date),
        refetched.completion_date == stored_date(completion_date),
        labels matches Some(l) ==> l.to_set() == existing.to_set(),
    ensures
        update_item_text(refetched, name, due_date, completion_date, labels, existing) == "["@
            + date_readded(refetched.id.unwrap().id, "due_date"@, due_date) + date_readded(
            refetched.id.unwrap().id,
            "completion_date"@,
            completion_date,
        ) + "]"@,
        (due_date matches Some(t) ==> t.nsec == 0) && (completion_date matches Some(t) ==> t.nsec == 0)
            ==> update_item_text(refetched, name, due_date, completion_date, labels, existing) == "[]"@,
{
    let id = refetched.id.unwrap().id;
    if let Some(l) = labels {
        law_same_labels_no_change(id, l, existing);
    }
    if let Some(t) = due_date {
        law_micros_round_trip(t);
    }
    if let Some(t) = completion_date {
        law_micros_round_trip(t);
    }
    assert(name_change(id, refetched.name, name) == Seq::<char>::empty());
    assert(label_changes(id, labels, existing) == Seq::<char>::empty());
    assert(date_change(id, "due_date"@, refetched.due_date, due_date) == date_readded(id, "due_date"@, due_date));
    assert(date_change(id, "completion_date"@, refetched.completion_date, completion_date) == date_readded(
        id,
        "completion_date"@,
        completion_date,
    ));
    assert(update_item_text(refetched, name, due_date, completion_date, labels, existing) =~= "["@
        + date_readded(id, "due_date"@, due_date) + date_readded(id, "completion_date"@, completion_date)
        + "]"@);
    reveal_strlit("[]");
    reveal_strlit("[");
    reveal_strlit("]");
}

/// Moving a date to another date writes the new instant, whether it is earlier or later
/// than the current one; clearing a date retracts the current instant. Nothing else is
/// written when only that date changes.
pub proof fn law_update_moves_date(item: ItemView, next: Timespec, existing: Seq<LabelView>)
    requires
        item.id is Some,
    ensures
        item.due_date != Some(next) ==> update_item_text(item, None, Some(next), item.completion_date, None, existing) == "["@
            + ("[:db/add "@ + decimal(item.id.unwrap().id as int) + " :item/due_date #instmicros "@
            + decimal(next.sec * 1000000) + "]"@) + "]"@,
        item.completion_date != Some(next) ==> update_item_text(item, None, item.due_date, Some(next), None, existing) == "["@
            + ("[:db/add "@ + decimal(item.id.unwrap().id as int) + " :item/completion_date #instmicros "@
            + decimal(next.sec * 1000000) + "]"@) + "]"@,
        item.due_date matches Some(c) ==> update_item_text(item, None, None, item.completion_date, None, existing)
            == "["@ + ("[:db/retract "@ + decimal(item.id.unwrap().id as int) + " :item/due_date #instmicros "@
            + decimal(c.sec * 1000000) + "]"@) + "]"@,
        item.completion_date matches Some(c) ==> update_item_text(item, None, item.due_date, None, None, existing)
            == "["@ + ("[:db/retract "@ + decimal(item.id.unwrap().id as int)
            + " :item/completion_date #instmicros "@ + decimal(c.sec * 1000000) + "]"@) + "]"@,
{
    let id = item.id.unwrap().id;
    reveal_strlit(" :item/");
    reveal_strlit("due_date");
    reveal_strlit("completion_date");
    reveal_strlit(" :item/due_date #instmicros ");
    reveal_strlit(" :item/completion_date #instmicros ");
    reveal_strlit(" #instmicros ");
    assert(" :item/"@ + "due_date"@ + " #instmicros "@ =~= " :item/due_date #instmicros "@);
    assert(" :item/"@ + "completion_date"@ + " #instmicros "@ =~= " :item/completion_date #instmicros "@);
    if item.due_date != Some(next) {
        assert(date_change(id, "due_date"@, item.due_date, Some(next)) =~= "[:db/add "@ + decimal(id as int)
            + " :item/due_date #instmicros "@ + decimal(next.sec * 1000000) + "]"@);
        assert(update_item_text(item, None, Some(next), item.completion_date, None, existing) =~= "["@
            + ("[:db/add "@ + decimal(id as int) + " :item/due_date #instmicros "@ + decimal(
            next.sec * 1000000) + "]"@) + "]"@);
    }
    if item.completion_date != Some(next) {
        assert(date_change(id, "completion_date"@, item.completion_date, Some(next)) =~= "[:db/add "@
            + decimal(id as int) + " :item/completion_date #instmicros "@ + decimal(next.sec * 1000000)
            + "]"@);
        assert(update_item_text(item, None, item.due_date, Some(next), None, existing) =~= "["@
            + ("[:db/add "@ + decimal(id as int) + " :item/completion_date #instmicros "@ + decimal(
            next.sec * 1000000) + "]"@) + "]"@);
    }
    if let Some(c) = item.due_date {
        assert(date_change(id, "due_date"@, item.due_date, None) =~= "[:db/retract "@ + decimal(id as int)
            + " :item/due_date #instmicros "@ + decimal(c.sec * 1000000) + "]"@);
        assert(update_item_text(item, None, None, item.completion_date, None, existing) =~= "["@
            + ("[:db/retract "@ + decimal(id as int) + " :item/due_date #instmicros "@ + decimal(
            c.sec * 1000000) + "]"@) + "]"@);
    }
    if let Some(c) = item.completion_date {
        assert(date_change(id, "completion_date"@, item.completion_date, None) =~= "[:db/retract "@
            + decimal(id as int) + " :item/completion_date #instmicros "@ + decimal(c.sec * 1000000) + "]"@);
        assert(update_item_text(item, None, item.due_date, None, None, existing) =~= "["@
            + ("[:db/retract "@ + decimal(id as int) + " :item/completion_date #instmicros "@ + decimal(
            c.sec * 1000000) + "]"@) + "]"@);
    }
}

/// Whether some label of a sequence has a store identifier.
pub open spec fn some_label_stored(labels: Seq<LabelView>) -> bool {
    exists|i: int| 0 <= i < labels.len() && (#[trigger] labels[i]).id is Some
}

/// The transaction that creates an item writes its uuid and name, then its due date and
/// completion date in microseconds where it has them, then, whenever at least one of its
/// labels has a store identifier (one or more), the identifiers of those labels; the
/// label clause is absent only when no label has an identifier.
pub proof fn law_create_item_writes(item: ItemView, uuid: Uuid)
    ensures
        create_item_text(item, uuid) == "[{\n            :item/uuid #uuid \""@ + hyphenated(uuid.bits)
            + "\"\n            :item/name \""@ + item.name + "\"\n            "@ + (match item.due_date {
            Some(d) => ":item/due_date #instmicros "@ + decimal(d.sec * 1000000) + "\n                "@,
            None => Seq::empty(),
        }) + (match item.completion_date {
            Some(d) => ":item/completion_date #instmicros "@ + decimal(d.sec * 1000000) + "\n                "@,
            None => Seq::empty(),
        }) + (if some_label_stored(item.labels) {
            ":item/label ["@ + join_decimals(stored_label_ids(item.labels)) + "]\n                "@
        } else {
            Seq::empty()
        }) + "}]"@,
{
    law_create_lists_stored_labels(item.labels);
    let ids = stored_label_ids(item.labels);
    if some_label_stored(item.labels) {
        let i = choose|i: int| 0 <= i < item.labels.len() && (#[trigger] item.labels[i]).id is Some;
        let x = item.labels[i].id.unwrap().id;
        assert(item.labels[i].id == Some(Entity { id: x }));
        assert(ids.contains(x));
        assert(ids.len() > 0);
    } else if ids.len() > 0 {
        assert(ids.contains(ids[0]));
        let i = choose|i: int| 0 <= i < item.labels.len() && (#[trigger] item.labels[i]).id == Some(Entity { id: ids[0] });
        assert(item.labels[i].id is Some);
    }
    reveal_strlit(":item/");
    reveal_strlit("due_date");
    reveal_strlit("completion_date");
    reveal_strlit(" #instmicros ");
    reveal_strlit(":item/due_date #instmicros ");
    reveal_strlit(":item/completion_date #instmicros ");
    assert(":item/"@ + "due_date"@ + " #instmicros "@ =~= ":item/due_date #instmicros "@);
    assert(":item/"@ + "completion_date"@ + " #instmicros "@ =~= ":item/completion_date #instmicros "@);
    assert(create_item_text(item, uuid) =~= "[{\n            :item/uuid #uuid \""@ + hyphenated(uuid.bits)
        + "\"\n            :item/name \""@ + item.name + "\"\n            "@ + (match item.due_date {
        Some(d) => ":item/due_date #instmicros "@ + decimal(d.sec * 1000000) + "\n                "@,
        None => Seq::empty(),
    }) + (match item.completion_date {
        Some(d) => ":item/completion_date #instmicros "@ + decimal(d.sec * 1000000) + "\n                "@,
        None => Seq::empty(),
    }) + (if some_label_stored(item.labels) {
        ":item/label ["@ + join_decimals(stored_label_ids(item.labels)) + "]\n                "@
    } else {
        Seq::empty()
    }) + "}]"@);
}

/// A row `[entity, uuid, name]` is read as the item with that identifier, uuid and name,
/// and with exactly the due date, completion date and labels fetched for it, each of
/// them present or not independently of the others.
pub proof fn law_item_row_keeps_parts(
    e: i64,
    uuid: Uuid,
    name: Seq<char>,
    due_date: Option<Timespec>,
    completion_date: Option<Timespec>,
    labels: Seq<LabelView>,
)
    ensures
        item_of_row(seq![ValueView::Ref(e), ValueView::Uuid(uuid), ValueView::Text(name)], due_date, completion_date, labels)
            == Some(ItemView { id: Some(Entity { id: e }), uuid, name, due_date, completion_date, labels }),
{
}

/// When the store answers a query for a label with at least one row, the label read is
/// the one its first row describes; one row `[entity, name, colour]` gives that label.
pub proof fn law_label_answer_first_row(result: QueryResults, e: i64, name: Seq<char>, color: Seq<char>)
    requires
        relation_rows(result) matches Some(rows) && rows.len() >= 1 && rows[0] == seq![
            ValueView::Ref(e),
            ValueView::Text(name),
            ValueView::Text(color),
        ],
    ensures
        first_label(result) == Some(LabelView { id: Some(Entity { id: e }), name, color }),
{
}

/// Whether every row holds a uuid in its first column.
pub open spec fn rows_hold_uuids(rows: Seq<Seq<ValueView>>) -> bool {
    forall|i: int| 0 <= i < rows.len() ==> (#[trigger] rows[i]).len() > 0 && rows[i][0] is Uuid
}

/// The uuids read from rows that each hold one in their first column: one per row, in
/// row order.
pub proof fn lemma_uuids_one_per_row(rows: Seq<Seq<ValueView>>)
    requires
        rows_hold_uuids(rows),
    ensures
        uuids_of_rows(rows).len() == rows.len(),
        forall|i: int| 0 <= i < rows.len() ==> ValueView::Uuid(#[trigger] uuids_of_rows(rows)[i]) == rows[i][0],
    decreases rows.len(),
{
    if rows.len() > 0 {
        let init = rows.drop_last();
        assert forall|i: int| 0 <= i < init.len() implies (#[trigger] init[i]).len() > 0 && init[i][0] is Uuid by {
            assert(init[i] == rows[i]);
        }
        lemma_uuids_one_per_row(init);
        assert(rows[rows.len() - 1].len() > 0);
        assert forall|i: int| 0 <= i < rows.len() implies ValueView::Uuid(#[trigger] uuids_of_rows(rows)[i]) == rows[i][0] by {
            if i < init.len() {
                assert(init[i] == rows[i]);
            }
        }
    }
}

/// The uuids of the items that carry a label are read one per row of the answer, in row
/// order, however many rows there are, one included.
pub proof fn law_uuids_one_per_row(result: QueryResults)
    requires
        relation_rows(result) matches Some(rows) && rows_hold_uuids(rows),
    ensures
        uuids_of_result(result).len() == relation_rows(result).unwrap().len(),
        forall|i: int|
            0 <= i < uuids_of_result(result).len() ==> ValueView::Uuid(#[trigger] uuids_of_result(result)[i])
                == relation_rows(result).unwrap()[i][0],
{
    lemma_uuids_one_per_row(relation_rows(result).unwrap());
}

/// Whether every row describes a label, as `[entity, name, colour]`.
pub open spec fn rows_hold_labels(rows: Seq<Seq<ValueView>>) -> bool {
    forall|i: int| 0 <= i < rows.len() ==> (#[trigger] rows[i]).len() >= 3 && rows[i][0] is Ref
        && rows[i][1] is Text && rows[i][2] is Text
}

/// Labels read from rows that each describe one: one per row, in row order, each with
/// the row's identifier, name and colour.
pub proof fn lemma_labels_one_per_row(rows: Seq<Seq<ValueView>>)
    requires
        rows_hold_labels(rows),
    ensures
        labels_of_rows(rows).len() == rows.len(),
        forall|i: int|
            0 <= i < rows.len() ==> #[trigger] labels_of_rows(rows)[i] == (LabelView {
                id: Some(Entity { id: rows[i][0]->Ref_0 }),
                name: rows[i][1]->Text_0,
                color: rows[i][2]->Text_0,
            }),
    decreases rows.len(),
{
    if rows.len() > 0 {
        let init = rows.drop_last();
        assert forall|i: int| 0 <= i < init.len() implies (#[trigger] init[i]).len() >= 3 && init[i][0] is Ref
            && init[i][1] is Text && init[i][2] is Text by {
            assert(init[i] == rows[i]);
        }
        lemma_labels_one_per_row(init);
        let last = rows[rows.len() - 1];
        assert(last.len() >= 3 && last[0] is Ref && last[1] is Text && last[2] is Text);
        assert forall|i: int|
            0 <= i < rows.len() implies #[trigger] labels_of_rows(rows)[i] == (LabelView {
                id: Some(Entity { id: rows[i][0]->Ref_0 }),
                name: rows[i][1]->Text_0,
                color: rows[i][2]->Text_0,
            }) by {
            if i < init.len() {
                assert(init[i] == rows[i]);
            }
        }
    }
}

/// The labels of an answer whose rows all describe labels are read one per row, in row
/// order, however many rows there are.
pub proof fn law_labels_one_per_row(result: QueryResults)
    requires
        relation_rows(result) matches Some(rows) && rows_hold_labels(rows),
    ensures
        labels_of_result(result).len() == relation_rows(result).unwrap().len(),
        forall|i: int|
            0 <= i < labels_of_result(result).len() ==> #[trigger] labels_of_result(result)[i] == (LabelView {
                id: Some(Entity { id: relation_rows(result).unwrap()[i][0]->Ref_0 }),
                name: relation_rows(result).unwrap()[i][1]->Text_0,
                color: relation_rows(result).unwrap()[i][2]->Text_0,
            }),
{
    lemma_labels_one_per_row(relation_rows(result).unwrap());
}

/// The date of an item is read from the instant in the first row's first column, in
/// microseconds: its seconds rounded down and the rest in nanoseconds.
pub proof fn law_date_answer(result: QueryResults, micros: i64)
    requires
        relation_rows(result) matches Some(rows) && rows.len() >= 1 && rows[0].len() >= 1 && rows[0][0]
            == ValueView::Instant(micros),
    ensures
        date_of_result(result) matches Some(t) && t.sec * 1000000 + t.nsec / 1000 == micros && 0 <= t.nsec
            < 1000000000 && t.nsec % 1000 == 0,
{
    let t = from_micros_spec(micros);
    assert(micros as int == (micros as int / 1000000) * 1000000 + micros as int % 1000000);
    assert(t.nsec == (micros as int % 1000000) * 1000);
    assert(t.nsec / 1000 == micros as int % 1000000);
}

/// The transaction that creates a label writes the name after `:label/name` and the
/// colour after `:label/color`, each between quotes, and nothing else of its own.
pub proof fn law_create_label_writes(name: Seq<char>, color: Seq<char>)
    ensures
        create_label_text(name, color).len() == 36 + name.len() as int + color.len() as int,
        create_label_text(name, color).subrange(0, 16) == "[{ :label/name \""@,
        create_label_text(name, color).subrange(16, 16 + name.len() as int) == name,
        create_label_text(name, color).subrange(16 + name.len() as int, 32 + name.len() as int)
            == "\" :label/color \""@,
        create_label_text(name, color).subrange(32 + name.len() as int, 32 + name.len() as int + color.len() as int) == color,
        create_label_text(name, color).subrange(32 + name.len() as int + color.len() as int, 36 + name.len() as int + color.len() as int)
            == "\" }]"@,
{
    reveal_strlit("[{ :label/name \"");
    reveal_strlit("\" :label/color \"");
    reveal_strlit("\" }]");
    let t = create_label_text(name, color);
    assert(t.subrange(0, 16) =~= "[{ :label/name \""@);
    assert(t.subrange(16, 16 + name.len() as int) =~= name);
    assert(t.subrange(16 + name.len() as int, 32 + name.len() as int) =~= "\" :label/color \""@);
    assert(t.subrange(32 + name.len() as int, 32 + name.len() as int + color.len() as int) =~= color);
    assert(t.subrange(32 + name.len() as int + color.len() as int, 36 + name.len() as int + color.len() as int) =~= "\" }]"@);
}

/// Renaming an item to a name other than its own writes exactly that new name; giving it
/// its own name writes nothing.
pub proof fn law_update_renames(item: ItemView, name: Seq<char>, existing: Seq<LabelView>)
    requires
        item.id is Some,
    ensures
        name != item.name ==> update_item_text(item, Some(name), item.due_date, item.completion_date, None, existing)
            == "["@ + ("[:db/add "@ + decimal(item.id.unwrap().id as int) + " :item/name \""@ + name
            + "\"]"@) + "]"@,
        name == item.name ==> update_item_text(item, Some(name), item.due_date, item.completion_date, None, existing)
            == "[]"@,
{
    let id = item.id.unwrap().id;
    reveal_strlit("[]");
    reveal_strlit("[");
    reveal_strlit("]");
    assert(label_changes(id, None, existing) == Seq::<char>::empty());
    assert(update_item_text(item, Some(name), item.due_date, item.completion_date, None, existing) =~= "["@
        + name_change(id, item.name, Some(name)) + "]"@);
}

/// Giving an item new labels attaches, in one step, the identifiers of the new labels it
/// does not carry, and detaches, in a second step, those of the labels it carries that
/// are not among the new ones; a step with no identifiers is not written.
pub proof fn law_update_relabels(item: ItemView, new_labels: Seq<LabelView>, existing: Seq<LabelView>)
    requires
        item.id is Some,
    ensures
        update_item_text(item, None, item.due_date, item.completion_date, Some(new_labels), existing) == "["@
            + (if labels_to_add(new_labels, existing).len() == 0 {
            Seq::empty()
        } else {
            "[:db/add "@ + decimal(item.id.unwrap().id as int) + " :item/label ["@ + join_decimals(
                entity_ids(labels_to_add(new_labels, existing)),
            ) + "]]"@
        }) + (if labels_to_remove(new_labels, existing).len() == 0 {
            Seq::empty()
        } else {
            "[:db/retract "@ + decimal(item.id.unwrap().id as int) + " :item/label ["@ + join_decimals(
                entity_ids(labels_to_remove(new_labels, existing)),
            ) + "]]"@
        }) + "]"@,
{
    let id = item.id.unwrap().id;
    reveal_strlit("[:db/");
    reveal_strlit("add");
    reveal_strlit("retract");
    reveal_strlit(" ");
    reveal_strlit("[:db/add ");
    reveal_strlit("[:db/retract ");
    assert("[:db/"@ + "add"@ + " "@ =~= "[:db/add "@);
    assert("[:db/"@ + "retract"@ + " "@ =~= "[:db/retract "@);
    assert(update_item_text(item, None, item.due_date, item.completion_date, Some(new_labels), existing)
        =~= "["@ + label_changes(id, Some(new_labels), existing) + "]"@);
    let add = labels_to_add(new_labels, existing);
    let remove = labels_to_remove(new_labels, existing);
    assert(entity_ids(add).len() == add.len());
    assert(entity_ids(remove).len() == remove.len());
    assert(update_item_text(item, None, item.due_date, item.completion_date, Some(new_labels), existing) =~= "["@
        + (if add.len() == 0 {
        Seq::empty()
    } else {
        "[:db/add "@ + decimal(id as int) + " :item/label ["@ + join_decimals(entity_ids(add)) + "]]"@
    }) + (if remove.len() == 0 {
        Seq::empty()
    } else {
        "[:db/retract "@ + decimal(id as int) + " :item/label ["@ + join_decimals(entity_ids(remove)) + "]]"@
    }) + "]"@);
}

/// The item row read from an answer with rows is its first row.
pub proof fn law_item_answer_first_row(result: QueryResults)
    requires
        relation_rows(result) matches Some(rows) && rows.len() >= 1,
    ensures
        first_row(result) == Some(relation_rows(result).unwrap()[0]),
{
}

/// The items kept from a series of lookups are those that were found, in order.
pub proof fn law_present_keeps_found(items: Seq<Option<ItemView>>)
    ensures
        present(items) == items.filter(|o: Option<ItemView>| o is Some).map_values(|o: Option<ItemView>| o.unwrap()),
    decreases items.len(),
{
    reveal_with_fuel(Seq::<_>::filter, 1);
    if items.len() > 0 {
        law_present_keeps_found(items.drop_last());
        let f = items.drop_last().filter(|o: Option<ItemView>| o is Some);
        if items.last() is Some {
            assert(f.push(items.last()).map_values(|o: Option<ItemView>| o.unwrap()) =~= f.map_values(
                |o: Option<ItemView>| o.unwrap(),
            ).push(items.last().unwrap()));
        }
    }
}

/// The number a text of decimal digits stands for.
pub open spec fn digits_value(s: Seq<char>) -> int
    decreases s.len(),
{
    if s.len() == 0 {
        0
    } else {
        digits_value(s.drop_last()) * 10 + (s.last() as int - '0' as int)
    }
}

/// Whether a text is made of decimal digits only.
pub open spec fn all_digits(s: Seq<char>) -> bool {
    forall|i: int| 0 <= i < s.len() ==> 48 <= (#[trigger] s[i]) as int <= 57
}

/// The decimal digits of a number are digits, stand for that number, and have no
/// leading zero.
pub proof fn law_digits_value(n: nat)
    ensures
        all_digits(digits(n)),
        digits_value(digits(n)) == n,
        digits(n).len() > 0,
        digits(n).len() > 1 ==> digits(n)[0] != '0',
    decreases n,
{
    let d = (n % 10) as int;
    assert(digit_char(d) as int - '0' as int == d) by {
        assert(0 <= d < 10);
        if d == 0 {} else if d == 1 {} else if d == 2 {} else if d == 3 {} else if d == 4 {}
        else if d == 5 {} else if d == 6 {} else if d == 7 {} else if d == 8 {} else {}
    }
    assert(digits_value(Seq::<char>::empty()) == 0);
    if n >= 10 {
        law_digits_value(n / 10);
        let prefix = digits(n / 10);
        assert(digits(n) == prefix.push(digit_char(d)));
        assert(digits(n).drop_last() =~= prefix);
        assert(digits(n).last() == digit_char(d));
        assert(digits_value(digits(n)) == digits_value(prefix) * 10 + d);
        assert(all_digits(digits(n))) by {
            assert forall|i: int| 0 <= i < digits(n).len() implies 48 <= (#[trigger] digits(n)[i]) as int <= 57 by {
                if i < prefix.len() {
                    assert(digits(n)[i] == prefix[i]);
                } else {
                    assert(digits(n)[i] == digit_char(d));
                }
            }
        }
        if prefix.len() == 1 {
            assert(digits_value(prefix) == prefix[0] as int - '0' as int) by {
                assert(prefix.drop_last() =~= Seq::<char>::empty());
            }
            assert(prefix[0] != '0');
        }
        assert(digits(n)[0] == prefix[0]);
    } else {
        assert(digits(n).drop_last() =~= Seq::<char>::empty());
        assert(digits(n).last() == digit_char(d));
        assert(48 <= digit_char(d) as int <= 57);
    }
}

/// The decimal text of an integer is its digits, behind a minus sign when it is
/// negative.
pub proof fn law_decimal_sign(n: int)
    ensures
        n >= 0 ==> all_digits(decimal(n)) && digits_value(decimal(n)) == n,
        n < 0 ==> decimal(n)[0] == '-' && all_digits(decimal(n).drop_first()) && digits_value(
            decimal(n).drop_first(),
        ) == -n,
{
    if n >= 0 {
        law_digits_value(n as nat);
    } else {
        law_digits_value((-n) as nat);
        assert(decimal(n).drop_first() =~= digits((-n) as nat));
    }
}

/// Identifiers are listed one after the other, each in decimal, with `", "` between two
/// neighbours: a single one is its decimal text, and one more is appended after a comma
/// and a space.
pub proof fn law_join_decimals(ns: Seq<i64>, x: i64)
    ensures
        join_decimals(seq![x]) == decimal(x as int),
        ns.len() > 0 ==> join_decimals(ns.push(x)) == join_decimals(ns) + ", "@ + decimal(x as int),
{
    let f = |n: i64| decimal(n as int);
    assert(seq![x].map_values(f) =~= seq![decimal(x as int)]);
    if ns.len() > 0 {
        assert(ns.push(x).map_values(f) =~= ns.map_values(f).push(decimal(x as int)));
        assert(ns.push(x).map_values(f).drop_last() =~= ns.map_values(f));
    }
}

/// The query for a date attribute names the attribute as the variable it finds and as
/// the attribute it reads, and asks by the item's uuid.
pub proof fn law_date_query_names_attr(attr: Seq<char>)
    ensures
        date_query_text(attr).subrange(0, 8) == "[:find ?"@,
        date_query_text(attr).subrange(8, 8 + attr.len() as int) == attr,
        date_query_text(attr).subrange(8 + attr.len() as int, 74 + attr.len() as int)
            == "\n            :in ?uuid\n            :where\n            [?eid :item/"@,
        date_query_text(attr).subrange(74 + attr.len() as int, 74 + 2 * attr.len() as int) == attr,
        date_query_text(attr).subrange(74 + 2 * attr.len() as int, 76 + 2 * attr.len() as int) == " ?"@,
        date_query_text(attr).subrange(76 + 2 * attr.len() as int, 76 + 3 * attr.len() as int) == attr,
{
    reveal_strlit("[:find ?");
    reveal_strlit("\n            :in ?uuid\n            :where\n            [?eid :item/");
    reveal_strlit(" ?");
    let t = date_query_text(attr);
    let n = attr.len() as int;
    assert(t.subrange(0, 8) =~= "[:find ?"@);
    assert(t.subrange(8, 8 + n) =~= attr);
    assert(t.subrange(8 + n, 74 + n) =~= "\n            :in ?uuid\n            :where\n            [?eid :item/"@);
    assert(t.subrange(74 + n, 74 + 2 * n) =~= attr);
    assert(t.subrange(74 + 2 * n, 76 + 2 * n) =~= " ?"@);
    assert(t.subrange(76 + 2 * n, 76 + 3 * n) =~= attr);
}

} // verus!

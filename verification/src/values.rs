use vstd::prelude::*;
use crate::ids::{Entity, Uuid};
use crate::items::{label_views, Item, ItemView};
use crate::labels::{Label, LabelView};
use crate::timespec::{from_micros, from_micros_spec, Timespec};

verus! {

/// A value that the store hands back in a query result. Instants come in
/// microseconds since the epoch; kinds the list never reads come as `Other`.
#[derive(Debug)]
pub enum Value {
    Ref(i64),
    Boolean(bool),
    Long(i64),
    Instant(i64),
    Text(String),
    Keyword(String),
    Uuid(Uuid),
    Other,
}

/// A query result value as plain values.
pub enum ValueView {
    Ref(i64),
    Boolean(bool),
    Long(i64),
    Instant(i64),
    Text(Seq<char>),
    Keyword(Seq<char>),
    Uuid(Uuid),
    Other,
}

impl View for Value {
    type V = ValueView;

    open spec fn view(&self) -> ValueView {
        match self {
            Value::Ref(e) => ValueView::Ref(*e),
            Value::Boolean(b) => ValueView::Boolean(*b),
            Value::Long(n) => ValueView::Long(*n),
            Value::Instant(m) => ValueView::Instant(*m),
            Value::Text(s) => ValueView::Text(s@),
            Value::Keyword(s) => ValueView::Keyword(s@),
            Value::Uuid(u) => ValueView::Uuid(*u),
            Value::Other => ValueView::Other,
        }
    }
}

/// The shapes of query result: one value, one tuple, one column, or a relation of rows.
#[derive(Debug)]
pub enum QueryResults {
    Scalar(Option<Value>),
    Tuple(Option<Vec<Value>>),
    Coll(Vec<Value>),
    Rel(Vec<Vec<Value>>),
}

/// A row as plain values.
pub open spec fn row_view(row: Seq<Value>) -> Seq<ValueView> {
    row.map_values(|v: Value| v@)
}

/// The rows of a relation as plain values.
pub open spec fn rows_view(rows: Seq<Vec<Value>>) -> Seq<Seq<ValueView>> {
    rows.map_values(|r: Vec<Value>| row_view(r@))
}

/// The rows of a result, when it is a relation.
pub open spec fn relation_rows(result: QueryResults) -> Option<Seq<Seq<ValueView>>> {
    match result {
        QueryResults::Rel(rows) => Some(rows_view(rows@)),
        _ => None,
    }
}

/// The label that a row `[entity, name, colour]` describes: the first value a
/// reference, the next two texts. Any other row describes no label.
pub open spec fn label_of_row(row: Seq<ValueView>) -> Option<LabelView> {
    if row.len() >= 3 {
        match (row[0], row[1], row[2]) {
            (ValueView::Ref(e), ValueView::Text(name), ValueView::Text(color)) => Some(
                LabelView { id: Some(Entity { id: e }), name, color },
            ),
            _ => None,
        }
    } else {
        None
    }
}

/// The view of an optional label.
pub open spec fn opt_label_view(label: Option<Label>) -> Option<LabelView> {
    match label {
        Some(l) => Some(l@),
        None => None,
    }
}

/// A copy of a text value's string.
fn text_of(v: &Value) -> (s: Option<String>)
    ensures
        match v@ {
            ValueView::Text(t) => s matches Some(x) && x@ == t,
            _ => s is None,
        },
{
    match v {
        Value::Text(t) => Some(t.clone()),
        _ => None,
    }
}

/// The label that a query row describes.
pub fn label_from_row(row: &Vec<Value>) -> (label: Option<Label>)
    ensures
        opt_label_view(label) == label_of_row(row_view(row@)),
{
    if row.len() < 3 {
        return None;
    }
    let id = match &row[0] {
        Value::Ref(e) => *e,
        _ => return None,
    };
    let name = match text_of(&row[1]) {
        Some(n) => n,
        None => return None,
    };
    let color = match text_of(&row[2]) {
        Some(c) => c,
        None => return None,
    };
    Some(Label { id: Some(Entity { id }), name, color })
}

/// The label of the first row of a relation, if there is one.
pub open spec fn first_label(result: QueryResults) -> Option<LabelView> {
    match relation_rows(result) {
        Some(rows) => if rows.len() > 0 {
            label_of_row(rows[0])
        } else {
            None
        },
        None => None,
    }
}

/// Interprets the answer to the query for one label by name: the label of the first
/// row, when the answer is a relation with rows.
pub fn label_from_result(result: &QueryResults) -> (label: Option<Label>)
    ensures
        opt_label_view(label) == first_label(*result),
{
    match result {
        QueryResults::Rel(rows) => {
            if rows.len() > 0 {
                label_from_row(&rows[0])
            } else {
                None
            }
        },
        _ => None,
    }
}

/// The labels of those rows that describe one, in row order.
pub open spec fn labels_of_rows(rows: Seq<Seq<ValueView>>) -> Seq<LabelView>
    decreases rows.len(),
{
    if rows.len() == 0 {
        Seq::empty()
    } else {
        let rest = labels_of_rows(rows.drop_last());
        match label_of_row(rows.last()) {
            Some(l) => rest.push(l),
            None => rest,
        }
    }
}

/// The labels of a result's rows, when it is a relation; none otherwise.
pub open spec fn labels_of_result(result: QueryResults) -> Seq<LabelView> {
    match relation_rows(result) {
        Some(rows) => labels_of_rows(rows),
        None => Seq::empty(),
    }
}

/// Whether every row of a relation describes a label.
pub open spec fn all_rows_are_labels(result: QueryResults) -> bool {
    match relation_rows(result) {
        Some(rows) => forall|i: int| 0 <= i < rows.len() ==> (#[trigger] label_of_row(rows[i])) is Some,
        None => true,
    }
}

/// Interprets the answer to a query for labels: the labels of the rows that describe
/// one, in row order (none when the answer is not a relation).
pub fn labels_from_result(result: &QueryResults) -> (labels: Vec<Label>)
    ensures
        label_views(labels@) == labels_of_result(*result),
{
    let mut labels: Vec<Label> = Vec::new();
    match result {
        QueryResults::Rel(rows) => {
            let ghost views = rows_view(rows@);
            let mut i: usize = 0;
            while i < rows.len()
                invariant
                    i <= rows.len(),
                    views == rows_view(rows@),
                    label_views(labels@) == labels_of_rows(views.take(i as int)),
                decreases rows.len() - i,
            {
                proof {
                    assert(views.take(i + 1).drop_last() =~= views.take(i as int));
                }
                let found = label_from_row(&rows[i]);
                match found {
                    Some(l) => {
                        let ghost before = labels@;
                        labels.push(l);
                        proof {
                            assert(label_views(labels@) =~= label_views(before).push(l@));
                        }
                    },
                    None => {},
                }
                i = i + 1;
            }
            proof {
                assert(views.take(rows.len() as int) =~= views);
            }
        },
        _ => {},
    }
    labels
}

/// Whether every row of a relation describes a label.
pub fn rows_are_labels(result: &QueryResults) -> (r: bool)
    ensures
        r == all_rows_are_labels(*result),
{
    match result {
        QueryResults::Rel(rows) => {
            let ghost views = rows_view(rows@);
            let mut i: usize = 0;
            while i < rows.len()
                invariant
                    i <= rows.len(),
                    views == rows_view(rows@),
                    relation_rows(*result) == Some(views),
                    forall|j: int| 0 <= j < i ==> (#[trigger] label_of_row(views[j])) is Some,
                decreases rows.len() - i,
            {
                assert(views[i as int] == row_view(rows@[i as int]@));
                if label_from_row(&rows[i]).is_none() {
                    assert(label_of_row(views[i as int]) is None);
                    return false;
                }
                i = i + 1;
            }
            true
        },
        _ => true,
    }
}

/// Interprets the answer to the query for all labels. Every row of a relation must
/// describe a label; the labels come in row order.
pub fn all_labels_from_result(result: &QueryResults) -> (labels: Vec<Label>)
    requires
        all_rows_are_labels(*result),
    ensures
        label_views(labels@) == labels_of_result(*result),
        relation_rows(*result) matches Some(rows) ==> labels@.len() == rows.len(),
{
    proof {
        if let Some(rows) = relation_rows(*result) {
            lemma_all_labels_len(rows);
        }
    }
    labels_from_result(result)
}

/// When every row describes a label, there is one label per row.
proof fn lemma_all_labels_len(rows: Seq<Seq<ValueView>>)
    requires
        forall|i: int| 0 <= i < rows.len() ==> (#[trigger] label_of_row(rows[i])) is Some,
    ensures
        labels_of_rows(rows).len() == rows.len(),
    decreases rows.len(),
{
    if rows.len() > 0 {
        let init = rows.drop_last();
        assert forall|i: int| 0 <= i < init.len() implies (#[trigger] label_of_row(init[i])) is Some by {
            assert(init[i] == rows[i]);
        }
        lemma_all_labels_len(init);
        assert(label_of_row(rows[rows.len() - 1]) is Some);
    }
}

/// The first row of a result, when it is a relation with rows.
pub open spec fn first_row(result: QueryResults) -> Option<Seq<ValueView>> {
    match relation_rows(result) {
        Some(rows) => if rows.len() > 0 {
            Some(rows[0])
        } else {
            None
        },
        None => None,
    }
}

/// The view of an optional row.
pub open spec fn opt_row_view(row: Option<Vec<Value>>) -> Option<Seq<ValueView>> {
    match row {
        Some(r) => Some(row_view(r@)),
        None => None,
    }
}

/// A copy of a query value.
pub fn clone_value(v: &Value) -> (c: Value)
    ensures
        c@ == v@,
{
    match v {
        Value::Ref(e) => Value::Ref(*e),
        Value::Boolean(b) => Value::Boolean(*b),
        Value::Long(n) => Value::Long(*n),
        Value::Instant(m) => Value::Instant(*m),
        Value::Text(t) => Value::Text(t.clone()),
        Value::Keyword(k) => Value::Keyword(k.clone()),
        Value::Uuid(u) => Value::Uuid(*u),
        Value::Other => Value::Other,
    }
}

/// A copy of a query row.
pub fn clone_row(row: &Vec<Value>) -> (c: Vec<Value>)
    ensures
        row_view(c@) == row_view(row@),
{
    let mut c: Vec<Value> = Vec::new();
    let mut i: usize = 0;
    while i < row.len()
        invariant
            i <= row.len(),
            row_view(c@) == row_view(row@).take(i as int),
        decreases row.len() - i,
    {
        let v = clone_value(&row[i]);
        let ghost before = c@;
        c.push(v);
        proof {
            assert(row_view(c@) =~= row_view(before).push(row[i as int]@));
            assert(row_view(row@).take(i + 1) =~= row_view(row@).take(i as int).push(row[i as int]@));
        }
        i = i + 1;
    }
    proof {
        assert(row_view(row@).take(row.len() as int) =~= row_view(row@));
    }
    c
}

/// Interprets the answer to the query for one item by uuid: its first row, when the
/// answer is a relation with rows.
pub fn item_row_from_result(result: &QueryResults) -> (row: Option<Vec<Value>>)
    ensures
        opt_row_view(row) == first_row(*result),
{
    match result {
        QueryResults::Rel(rows) => {
            if rows.len() > 0 {
                Some(clone_row(&rows[0]))
            } else {
                None
            }
        },
        _ => None,
    }
}

/// The item that a row `[entity, uuid, name]` describes, with the dates and labels
/// fetched for it. Any other row describes no item.
pub open spec fn item_of_row(
    row: Seq<ValueView>,
    due_date: Option<Timespec>,
    completion_date: Option<Timespec>,
    labels: Seq<LabelView>,
) -> Option<ItemView> {
    if row.len() >= 3 {
        match (row[0], row[1], row[2]) {
            (ValueView::Ref(e), ValueView::Uuid(u), ValueView::Text(name)) => Some(
                ItemView {
                    id: Some(Entity { id: e }),
                    uuid: u,
                    name,
                    due_date,
                    completion_date,
                    labels,
                },
            ),
            _ => None,
        }
    } else {
        None
    }
}

/// The view of an optional item.
pub open spec fn opt_item_view(item: Option<Item>) -> Option<ItemView> {
    match item {
        Some(i) => Some(i@),
        None => None,
    }
}

/// Assembles the item that a query row describes from the row and the dates and labels
/// fetched for it.
pub fn item_from_row(
    row: &Vec<Value>,
    due_date: Option<Timespec>,
    completion_date: Option<Timespec>,
    labels: Vec<Label>,
) -> (item: Option<Item>)
    ensures
        opt_item_view(item) == item_of_row(row_view(row@), due_date, completion_date, label_views(labels@)),
{
    if row.len() < 3 {
        return None;
    }
    let id = match &row[0] {
        Value::Ref(e) => *e,
        _ => return None,
    };
    let uuid = match &row[1] {
        Value::Uuid(u) => *u,
        _ => return None,
    };
    let name = match text_of(&row[2]) {
        Some(n) => n,
        None => return None,
    };
    Some(Item { id: Some(Entity { id }), uuid, name, due_date, completion_date, labels })
}

/// The date in the first column of the first row of a result, when it is an instant.
pub open spec fn date_of_result(result: QueryResults) -> Option<Timespec> {
    match first_row(result) {
        Some(row) => if row.len() > 0 {
            match row[0] {
                ValueView::Instant(m) => Some(from_micros_spec(m)),
                _ => None,
            }
        } else {
            None
        },
        None => None,
    }
}

/// Interprets the answer to the query for one date attribute of an item.
pub fn date_from_result(result: &QueryResults) -> (date: Option<Timespec>)
    ensures
        date == date_of_result(*result),
{
    match result {
        QueryResults::Rel(rows) => {
            if rows.len() > 0 && rows[0].len() > 0 {
                match &rows[0][0] {
                    Value::Instant(m) => Some(from_micros(*m)),
                    _ => None,
                }
            } else {
                None
            }
        },
        _ => None,
    }
}

/// The uuids in the first column of the rows, skipping rows that hold none there.
pub open spec fn uuids_of_rows(rows: Seq<Seq<ValueView>>) -> Seq<Uuid>
    decreases rows.len(),
{
    if rows.len() == 0 {
        Seq::empty()
    } else {
        let rest = uuids_of_rows(rows.drop_last());
        let row = rows.last();
        if row.len() > 0 {
            match row[0] {
                ValueView::Uuid(u) => rest.push(u),
                _ => rest,
            }
        } else {
            rest
        }
    }
}

/// The uuids of a result's rows, when it is a relation; none otherwise.
pub open spec fn uuids_of_result(result: QueryResults) -> Seq<Uuid> {
    match relation_rows(result) {
        Some(rows) => uuids_of_rows(rows),
        None => Seq::empty(),
    }
}

/// Interprets the answer to the query for the uuids of the items with a label.
pub fn item_uuids_from_result(result: &QueryResults) -> (uuids: Vec<Uuid>)
    ensures
        uuids@ == uuids_of_result(*result),
{
    let mut uuids: Vec<Uuid> = Vec::new();
    match result {
        QueryResults::Rel(rows) => {
            let ghost views = rows_view(rows@);
            let mut i: usize = 0;
            while i < rows.len()
                invariant
                    i <= rows.len(),
                    views == rows_view(rows@),
                    uuids@ == uuids_of_rows(views.take(i as int)),
                decreases rows.len() - i,
            {
                proof {
                    assert(views.take(i + 1).drop_last() =~= views.take(i as int));
                    assert(views.take(i + 1).last() == views[i as int]);
                }
                if rows[i].len() > 0 {
                    match &rows[i][0] {
                        Value::Uuid(u) => uuids.push(*u),
                        _ => {},
                    }
                }
                i = i + 1;
            }
            proof {
                assert(views.take(rows.len() as int) =~= views);
            }
        },
        _ => {},
    }
    uuids
}

/// The items that were found, in order.
pub open spec fn present(items: Seq<Option<ItemView>>) -> Seq<ItemView>
    decreases items.len(),
{
    if items.len() == 0 {
        Seq::empty()
    } else {
        let rest = present(items.drop_last());
        match items.last() {
            Some(i) => rest.push(i),
            None => rest,
        }
    }
}

/// Keeps the items that were found, in order, and drops the lookups that found none.
pub fn present_items(found: &Vec<Option<Item>>) -> (items: Vec<Item>)
    ensures
        items@.map_values(|it: Item| it@) == present(found@.map_values(|o: Option<Item>| opt_item_view(o))),
{
    let ghost views = found@.map_values(|o: Option<Item>| opt_item_view(o));
    let mut items: Vec<Item> = Vec::new();
    let mut i: usize = 0;
    while i < found.len()
        invariant
            i <= found.len(),
            views == found@.map_values(|o: Option<Item>| opt_item_view(o)),
            items@.map_values(|it: Item| it@) == present(views.take(i as int)),
        decreases found.len() - i,
    {
        proof {
            assert(views.take(i + 1).drop_last() =~= views.take(i as int));
            assert(views.take(i + 1).last() == views[i as int]);
        }
        match &found[i] {
            Some(it) => {
                let ghost before = items@;
                items.push(it.clone());
                proof {
                    assert(items@.map_values(|x: Item| x@) =~= before.map_values(|x: Item| x@).push(it@));
                }
            },
            None => {},
        }
        i = i + 1;
    }
    proof {
        assert(views.take(found.len() as int) =~= views);
    }
    items
}

} // verus!

use vstd::prelude::*;

verus! {

/// The schema of labels: a unique, full-text name and a colour.
pub const LABELS_SCHEMA: &'static str = "[{  :db/ident     :label/name\n    :db/valueType :db.type/string\n    :db/cardinality :db.cardinality/one\n    :db/unique :db.unique/identity\n    :db/fulltext true },\n {  :db/ident     :label/color\n    :db/valueType :db.type/string\n    :db/cardinality :db.cardinality/one }]";

/// The schema of items: a unique uuid, a full-text name, a due date, a completion date and any number of labels.
pub const ITEMS_SCHEMA: &'static str = "[\n        {   :db/ident       :item/uuid\n            :db/valueType   :db.type/uuid\n            :db/cardinality :db.cardinality/one\n            :db/unique      :db.unique/value\n            :db/index true },\n        {   :db/ident       :item/name\n            :db/valueType   :db.type/string\n            :db/cardinality :db.cardinality/one\n            :db/fulltext    true  },\n        {   :db/ident       :item/due_date\n            :db/valueType   :db.type/instant\n            :db/cardinality :db.cardinality/one  },\n        {   :db/ident       :item/completion_date\n            :db/valueType   :db.type/instant\n            :db/cardinality :db.cardinality/one  },\n        {   :db/ident       :item/label\n            :db/valueType   :db.type/ref\n            :db/cardinality :db.cardinality/many }]";

/// The query for the label with a given name (bound to `?name`): rows `[entity, name, colour]`.
pub const FETCH_LABEL_QUERY: &'static str = "[:find ?eid, ?name, ?color\n            :in ?name\n            :where\n            [?eid :label/name ?name]\n            [?eid :label/color ?color]\n        ]";

/// The query for all labels: rows `[entity, name, colour]`.
pub const FETCH_LABELS_QUERY: &'static str = "[:find ?eid, ?name, ?color\n            :where\n            [?eid :label/name ?name]\n            [?eid :label/color ?color]\n        ]";

/// The query for the labels of the item with a given uuid (bound to `?item_uuid`): rows `[entity, name, colour]`.
pub const FETCH_LABELS_FOR_ITEM_QUERY: &'static str = "[:find ?l, ?name, ?color\n            :in ?item_uuid\n            :where\n            [?l :label/name ?name]\n            [?l :label/color ?color]\n            [?i :item/label ?l]\n            [?i :item/uuid ?item_uuid]\n        ]";

/// The query for the uuids of the items that carry the label with a given name (bound to `?label`): rows `[uuid]`.
pub const FETCH_ITEMS_WITH_LABEL_QUERY: &'static str = "[:find ?uuid\n            :in ?label\n            :where\n            [?eid :item/uuid ?uuid]\n            [?eid :item/label ?l]\n            [?l :label/name ?label]\n        ]";

/// The query for the item with a given uuid (bound to `?uuid`): rows `[entity, uuid, name]`.
pub const FETCH_ITEM_QUERY: &'static str = "[:find ?eid, ?uuid, ?name\n            :in ?uuid\n            :where\n            [?eid :item/uuid ?uuid]\n            [?eid :item/name ?name]\n        ]";

/// The query variable bound to a label's name.
pub const NAME_VAR: &'static str = "?name";

/// The query variable bound to the uuid of an item whose labels are asked for.
pub const ITEM_UUID_VAR: &'static str = "?item_uuid";

/// The query variable bound to the name of a label whose items are asked for.
pub const LABEL_VAR: &'static str = "?label";

/// The query variable bound to the uuid of an item.
pub const UUID_VAR: &'static str = "?uuid";

/// The attribute of an item's due date.
pub const DUE_DATE_ATTR: &'static str = "due_date";

/// The attribute of an item's completion date.
pub const COMPLETION_DATE_ATTR: &'static str = "completion_date";

/// The query for one date attribute of the item with a given uuid (bound to `?uuid`):
/// rows `[instant]`.
pub open spec fn date_query_text(attr: Seq<char>) -> Seq<char> {
    "[:find ?"@ + attr + "\n            :in ?uuid\n            :where\n            [?eid :item/"@ + attr
        + " ?"@ + attr + "]\n            [?eid :item/uuid ?uuid]\n        ]"@
}

/// Builds the query for one date attribute of an item.
pub fn date_query(attr: &str) -> (query: String)
    ensures
        query@ == date_query_text(attr@),
{
    let mut query = String::new();
    query.append("[:find ?");
    query.append(attr);
    query.append("\n            :in ?uuid\n            :where\n            [?eid :item/");
    query.append(attr);
    query.append(" ?");
    query.append(attr);
    query.append("]\n            [?eid :item/uuid ?uuid]\n        ]");
    query
}

} // verus!

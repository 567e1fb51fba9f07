use toodle::ids::Uuid;
use toodle::queries::{date_query, COMPLETION_DATE_ATTR, DUE_DATE_ATTR, FETCH_ITEM_QUERY};
use toodle::text::{push_decimal, push_joined_decimals};

fn decimal(n: i64) -> String {
    let mut s = String::new();
    push_decimal(&mut s, n);
    s
}

#[test]
fn decimals_match_display() {
    for n in [0i64, 7, 10, 99, 100, -1, -120, 1_000_000, i64::MAX, i64::MIN] {
        assert_eq!(decimal(n), format!("{}", n));
    }
}

#[test]
fn joined_decimals_use_comma_space() {
    let mut s = "x".to_string();
    push_joined_decimals(&mut s, &vec![]);
    assert_eq!(s, "x");
    push_joined_decimals(&mut s, &vec![3, -4, 55]);
    assert_eq!(s, "x3, -4, 55");
}

#[test]
fn uuid_hyphenated_form() {
    let u = Uuid { bits: 0x67e5504410b1426f9247bb680e5fe0c8 };
    assert_eq!(u.hyphenated(), "67e55044-10b1-426f-9247-bb680e5fe0c8");
    assert_eq!(Uuid::nil().hyphenated(), "00000000-0000-0000-0000-000000000000");
}

#[test]
fn random_uuids_are_version_four_and_not_nil() {
    let a = Uuid::new_v4();
    let b = Uuid::new_v4();
    assert!(!a.is_nil());
    assert_eq!((a.bits >> 76) & 0xf, 4);
    assert_eq!((a.bits >> 62) & 0x3, 2);
    assert_ne!(a, b);
    assert_eq!(&a.hyphenated()[14..15], "4");
}

#[test]
fn date_queries_name_the_attribute() {
    let expected = "[:find ?due_date\n            :in ?uuid\n            :where\n            [?eid :item/due_date ?due_date]\n            [?eid :item/uuid ?uuid]\n        ]";
    assert_eq!(date_query(DUE_DATE_ATTR), expected);
    assert!(date_query(COMPLETION_DATE_ATTR).starts_with("[:find ?completion_date\n"));
    assert!(FETCH_ITEM_QUERY.starts_with("[:find ?eid, ?uuid, ?name"));
}

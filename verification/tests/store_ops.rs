use kvredis::store::Store;
use kvredis::error::KvError;
use kvredis::num::{format_i64, parse_i64};

#[test]
fn get_unset_returns_empty_no_error() {
    let st = Store::new();
    let g = st.get("missing").unwrap();
    assert_eq!(g.value, "");
    assert!(!g.exists);
}

#[test]
fn set_then_get_round_trips() {
    let mut st = Store::new();
    st.set("x", "v".to_string());
    let g = st.get("x").unwrap();
    assert_eq!(g.value, "v");
    assert!(g.exists);
}

#[test]
fn del_twice_is_noop_and_never_errors() {
    let mut st = Store::new();
    st.set("x", "v".to_string());
    st.del("x");
    assert!(!st.key_exists("x"));
    st.del("x");
    assert!(!st.key_exists("x"));
    let g = st.get("x").unwrap();
    assert!(!g.exists);
}

#[test]
fn add_twice_equals_single_add() {
    let mut a = Store::new();
    a.set("x", "10".to_string());
    assert_eq!(a.incr("x", 2).unwrap(), 12);
    assert_eq!(a.incr("x", 3).unwrap(), 15);

    let mut b = Store::new();
    b.set("x", "10".to_string());
    assert_eq!(b.incr("x", 5).unwrap(), 15);

    assert_eq!(a.get("x").unwrap(), b.get("x").unwrap());
    assert_eq!(a.get("x").unwrap().value, "15");
}

#[test]
fn add_on_padded_number_fails_like_the_store_parser() {
    let mut st = Store::new();
    st.set("x", "007".to_string());
    assert!(matches!(st.incr("x", 1), Err(KvError::StoreOperation(_))));
    st.set("y", "-0".to_string());
    assert!(matches!(st.incr("y", 1), Err(KvError::StoreOperation(_))));
}

#[test]
fn add_on_non_numeric_fails_with_store_error() {
    let mut st = Store::new();
    st.set("x", "abc".to_string());
    let r = st.incr("x", 5);
    assert!(matches!(r, Err(KvError::StoreOperation(_))));
    // the store is untouched
    assert_eq!(st.get("x").unwrap().value, "abc");
}

#[test]
fn add_on_numeric_string_succeeds() {
    let mut st = Store::new();
    st.set("x", "1".to_string());
    assert_eq!(st.incr("x", 5).unwrap(), 6);
    assert_eq!(st.get("x").unwrap().value, "6");
}

#[test]
fn add_on_absent_key_counts_from_zero() {
    let mut st = Store::new();
    assert_eq!(st.incr("n", 7).unwrap(), 7);
    assert_eq!(st.get("n").unwrap().value, "7");
}

#[test]
fn add_overflow_fails_and_leaves_store() {
    let mut st = Store::new();
    st.set("x", "9223372036854775807".to_string());
    let r = st.incr("x", 1);
    assert!(matches!(r, Err(KvError::StoreOperation(_))));
    assert_eq!(st.get("x").unwrap().value, "9223372036854775807");
}

#[test]
fn add_sum_beyond_reply_range_is_stored_but_reported() {
    let mut st = Store::new();
    st.set("x", "3000000000".to_string());
    let r = st.incr("x", 0);
    assert!(matches!(r, Err(KvError::StoreOperation(_))));
    assert_eq!(st.get("x").unwrap().value, "3000000000");
}

#[test]
fn set_add_idempotent_member_count() {
    let mut st = Store::new();
    assert_eq!(st.set_add("s", "v".to_string()).unwrap(), 1);
    assert_eq!(st.set_add("s", "v".to_string()).unwrap(), 1);
    let members = st.set_query("s").unwrap();
    assert_eq!(members.len(), 1);
    assert_eq!(members[0], "v");
}

#[test]
fn set_union_reports_each_member_once() {
    let mut st = Store::new();
    st.set_add("s1", "a".to_string()).unwrap();
    st.set_add("s1", "b".to_string()).unwrap();
    st.set_add("s2", "b".to_string()).unwrap();
    st.set_add("s2", "c".to_string()).unwrap();
    let mut u = st.set_union(&vec!["s1".to_string(), "s2".to_string()]).unwrap();
    u.sort();
    assert_eq!(u, vec!["a".to_string(), "b".to_string(), "c".to_string()]);
}

#[test]
fn set_intersect_keeps_common_members() {
    let mut st = Store::new();
    st.set_add("s1", "a".to_string()).unwrap();
    st.set_add("s1", "b".to_string()).unwrap();
    st.set_add("s2", "b".to_string()).unwrap();
    st.set_add("s2", "c".to_string()).unwrap();
    let i = st.set_intersect(&vec!["s1".to_string(), "s2".to_string()]).unwrap();
    assert_eq!(i, vec!["b".to_string()]);
    let r = st.set_intersect(&Vec::new());
    assert!(matches!(r, Err(KvError::StoreOperation(_))));
}

#[test]
fn set_remove_counts_and_clears_key() {
    let mut st = Store::new();
    st.set_add("s", "a".to_string()).unwrap();
    st.set_add("s", "b".to_string()).unwrap();
    assert_eq!(st.set_remove("s", "a").unwrap(), 1);
    assert_eq!(st.set_remove("s", "b").unwrap(), 0);
    assert!(!st.key_exists("s"));
    assert_eq!(st.set_remove("s", "b").unwrap(), 0);
}

#[test]
fn push_push_range_is_most_recent_first() {
    let mut st = Store::new();
    assert_eq!(st.list_push("L", "a".to_string()).unwrap(), 1);
    assert_eq!(st.list_push("L", "b".to_string()).unwrap(), 2);
    let r = st.list_range("L", 0, -1).unwrap();
    assert_eq!(r, vec!["b".to_string(), "a".to_string()]);
}

#[test]
fn list_range_clamps_and_counts_from_end() {
    let mut st = Store::new();
    st.list_push("L", "a".to_string()).unwrap();
    st.list_push("L", "b".to_string()).unwrap();
    st.list_push("L", "c".to_string()).unwrap();
    // the list is [c, b, a]
    assert_eq!(st.list_range("L", 1, -1).unwrap(), vec!["b".to_string(), "a".to_string()]);
    assert_eq!(st.list_range("L", -2, -1).unwrap(), vec!["b".to_string(), "a".to_string()]);
    assert_eq!(st.list_range("L", 5, 9).unwrap(), Vec::<String>::new());
    assert_eq!(st.list_range("L", 2, 1).unwrap(), Vec::<String>::new());
    assert_eq!(st.list_range("missing", 0, -1).unwrap(), Vec::<String>::new());
}

#[test]
fn list_del_item_removes_all_occurrences() {
    let mut st = Store::new();
    st.list_push("L", "a".to_string()).unwrap();
    st.list_push("L", "b".to_string()).unwrap();
    st.list_push("L", "a".to_string()).unwrap();
    assert_eq!(st.list_del_item("L", "a").unwrap(), 2);
    assert_eq!(st.list_range("L", 0, -1).unwrap(), vec!["b".to_string()]);
    assert_eq!(st.list_del_item("L", "b").unwrap(), 1);
    assert!(!st.key_exists("L"));
    assert_eq!(st.list_del_item("L", "b").unwrap(), 0);
}

#[test]
fn wrong_type_is_a_store_error() {
    let mut st = Store::new();
    st.list_push("L", "a".to_string()).unwrap();
    assert!(matches!(st.get("L"), Err(KvError::StoreOperation(_))));
    assert!(matches!(st.incr("L", 1), Err(KvError::StoreOperation(_))));
    st.set("x", "v".to_string());
    assert!(matches!(st.list_push("x", "a".to_string()), Err(KvError::StoreOperation(_))));
    assert!(matches!(st.set_add("x", "a".to_string()), Err(KvError::StoreOperation(_))));
    assert!(matches!(
        st.set_union(&vec!["x".to_string()]),
        Err(KvError::StoreOperation(_))
    ));
}

#[test]
fn set_overwrites_any_previous_value() {
    let mut st = Store::new();
    st.list_push("k", "a".to_string()).unwrap();
    st.set("k", "plain".to_string());
    let g = st.get("k").unwrap();
    assert_eq!(g.value, "plain");
    assert!(g.exists);
}

#[test]
fn decimal_format_and_parse_agree() {
    assert_eq!(format_i64(0), "0");
    assert_eq!(format_i64(-42), "-42");
    assert_eq!(format_i64(i64::MIN), "-9223372036854775808");
    assert_eq!(format_i64(i64::MAX), "9223372036854775807");
    assert_eq!(parse_i64("0"), Some(0));
    assert_eq!(parse_i64("10"), Some(10));
    assert_eq!(parse_i64("007"), None);
    assert_eq!(parse_i64("-0"), None);
    assert_eq!(parse_i64("abc"), None);
    assert_eq!(parse_i64(""), None);
    assert_eq!(parse_i64("-"), None);
    assert_eq!(parse_i64("12a"), None);
    assert_eq!(parse_i64("-9223372036854775808"), Some(i64::MIN));
    assert_eq!(parse_i64("9223372036854775808"), None);
}

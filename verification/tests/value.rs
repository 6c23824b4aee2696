use hoj::sql::json_to_sql;
use hoj::value::{Record, Value};

#[test]
fn values_are_written_as_sql_literals() {
    assert_eq!(json_to_sql(&Value::Null), "'null'");
    assert_eq!(json_to_sql(&Value::Bool(true)), "'true'");
    assert_eq!(json_to_sql(&Value::Bool(false)), "'false'");
    assert_eq!(json_to_sql(&Value::Int(-12)), "'-12'");
    assert_eq!(json_to_sql(&Value::text("O'Neil")), "'O''Neil'");
    assert_eq!(json_to_sql(&Value::json("[1,\"a'b\"]")), "'[1,\"a'b\"]'");
    assert_eq!(Value::Int(3).to_sql(), "'3'");
}

#[test]
fn values_tell_what_they_hold() {
    assert!(Value::Null.is_null());
    assert!(!Value::Int(0).is_null());
    assert_eq!(Value::Int(4).as_i64(), Some(4));
    assert_eq!(Value::text("4").as_i64(), None);
    assert_eq!(Value::Bool(true).as_bool(), Some(true));
    assert_eq!(Value::text("x").as_str(), Some("x"));
    assert_eq!(Value::json("x").as_str(), None);
}

#[test]
fn a_record_keeps_one_value_for_each_name_in_the_order_of_insertion() {
    let mut r = Record::new();
    assert!(r.is_empty());
    r.insert("b", Value::Int(1));
    r.insert("a", Value::Int(2));
    r.insert("b", Value::Int(3));
    assert_eq!(r.len(), 2);
    assert_eq!(r.name_at(0), "b");
    assert_eq!(r.value_at(0), &Value::Int(3));
    assert_eq!(r.name_at(1), "a");
    assert_eq!(r.get("a"), Some(&Value::Int(2)));
    assert_eq!(r.get("c"), None);
    assert!(r.contains_key("b") && !r.contains_key("c"));
    let copy = r.duplicate();
    assert_eq!(copy, r);
    assert_eq!(r.remove("b"), Some(Value::Int(3)));
    assert_eq!(r.remove("b"), None);
    assert_eq!(r.len(), 1);
    assert_eq!(copy.len(), 2);
    assert_eq!(r.clone().get("a"), Some(&Value::Int(2)));
}

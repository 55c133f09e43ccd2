use hotpot_db::{get_ms_time, Decimal, Error, QueryBuilder, QueryKind, Value};

#[test]
fn finish_on_complete_builder_yields_query() {
    let q = QueryBuilder::new()
        .kind(QueryKind::Contains)
        .collection("dvds")
        .comparison(">=")
        .string("cheese")
        .finish()
        .unwrap();
    assert_eq!(q.collection, "dvds");
    assert_eq!(q.comparison, ">=");
    assert!(q.key.is_none());
    assert!(matches!(q.query_type, QueryKind::Contains));
    assert!(matches!(q.value, Value::String(ref s) if s == "cheese"));
}

#[test]
fn finish_defaults_comparison_to_equality() {
    let q = QueryBuilder::new()
        .kind(QueryKind::Contains)
        .collection("dvds")
        .bool(true)
        .finish()
        .unwrap();
    assert_eq!(q.comparison, "=");
}

#[test]
fn finish_without_collection_is_incomplete() {
    let r = QueryBuilder::new().kind(QueryKind::Contains).string("cheese").finish();
    assert!(matches!(r, Err(Error::IncompleteQuery)));
}

#[test]
fn finish_without_value_is_incomplete() {
    let r = QueryBuilder::new().kind(QueryKind::Contains).collection("dvds").finish();
    assert!(matches!(r, Err(Error::IncompleteQuery)));
}

#[test]
fn finish_without_kind_is_incomplete() {
    let r = QueryBuilder::new().collection("dvds").integer(3).finish();
    assert!(matches!(r, Err(Error::IncompleteQuery)));
}

#[test]
fn finish_object_without_key_is_incomplete() {
    let r = QueryBuilder::new().kind(QueryKind::Object).collection("dvds").integer(3).finish();
    assert!(matches!(r, Err(Error::IncompleteQuery)));
}

#[test]
fn finish_with_unrecognized_comparison_is_incomplete() {
    let r = QueryBuilder::new()
        .kind(QueryKind::Contains)
        .collection("dvds")
        .comparison("=>")
        .integer(3)
        .finish();
    assert!(matches!(r, Err(Error::IncompleteQuery)));
}

#[test]
fn builder_keeps_the_last_value_set() {
    let q = QueryBuilder::new()
        .kind(QueryKind::Object)
        .collection("hw")
        .key("score")
        .integer(7)
        .float(Decimal::new(9025, 2))
        .finish()
        .unwrap();
    assert!(matches!(q.value, Value::Float(d) if d.mantissa() == 9025 && d.scale() == 2));
    assert_eq!(q.key.as_deref(), Some("score"));
}

#[test]
fn type_of_names_each_variant() {
    assert_eq!(hotpot_db::type_of(&Value::Boolean(false)), "boolean");
    assert_eq!(hotpot_db::type_of(&Value::Float(Decimal::new(1, 0))), "float");
    assert_eq!(hotpot_db::type_of(&Value::Integer(-3)), "integer");
    assert_eq!(hotpot_db::type_of(&Value::String(String::from("x"))), "string");
}

#[test]
fn clock_reading_is_nonnegative() {
    assert!(get_ms_time() >= 0);
}

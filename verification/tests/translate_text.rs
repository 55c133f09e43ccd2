use hotpot_db::ident::{is_safe_identifier, is_safe_key_path, str_eq};
use hotpot_db::lit::{pow10_u64, push_dec, push_dec_pad, push_decimal, push_int};
use hotpot_db::translate::{
    build_contains, build_create_index, build_create_table, build_insert, build_list_tables,
    build_object, build_upsert, is_comparison_operator,
};
use hotpot_db::{Decimal, Value};

#[test]
fn decimal_digits_render_exactly() {
    let mut s = String::new();
    push_dec(&mut s, 0);
    assert_eq!(s, "0");
    let mut s = String::new();
    push_dec(&mut s, 9025);
    assert_eq!(s, "9025");
    let mut s = String::new();
    push_dec_pad(&mut s, 5, 3);
    assert_eq!(s, "005");
    let mut s = String::new();
    push_int(&mut s, -90);
    assert_eq!(s, "-90");
    let mut s = String::new();
    push_int(&mut s, i64::MIN);
    assert_eq!(s, "-9223372036854775808");
    assert_eq!(pow10_u64(18), 1_000_000_000_000_000_000);
}

#[test]
fn fixed_point_literals_render_exactly() {
    let mut s = String::new();
    push_decimal(&mut s, 9025, 2);
    assert_eq!(s, "90.25");
    let mut s = String::new();
    push_decimal(&mut s, -105, 2);
    assert_eq!(s, "-1.05");
    let mut s = String::new();
    push_decimal(&mut s, 5, 3);
    assert_eq!(s, "0.005");
    let mut s = String::new();
    push_decimal(&mut s, 42, 0);
    assert_eq!(s, "42");
}

#[test]
fn safe_identifiers_are_recognized() {
    assert!(is_safe_identifier("address_book"));
    assert!(is_safe_identifier("_x9"));
    assert!(!is_safe_identifier(""));
    assert!(!is_safe_identifier("9lives"));
    assert!(!is_safe_identifier("a b"));
    assert!(!is_safe_identifier("a'b"));
    assert!(!is_safe_identifier("a.b"));
}

#[test]
fn safe_key_paths_are_recognized() {
    assert!(is_safe_key_path("person"));
    assert!(is_safe_key_path("person.age"));
    assert!(is_safe_key_path("a.b.c9"));
    assert!(!is_safe_key_path(""));
    assert!(!is_safe_key_path(".age"));
    assert!(!is_safe_key_path("age."));
    assert!(!is_safe_key_path("a..b"));
    assert!(!is_safe_key_path("a'b"));
}

#[test]
fn comparison_operators_are_exactly_five() {
    assert!(is_comparison_operator("="));
    assert!(is_comparison_operator(">"));
    assert!(is_comparison_operator("<"));
    assert!(is_comparison_operator(">="));
    assert!(is_comparison_operator("<="));
    assert!(!is_comparison_operator("=="));
    assert!(!is_comparison_operator("=>"));
    assert!(!is_comparison_operator(""));
    assert!(!is_comparison_operator("<>"));
}

#[test]
fn string_equality_compares_characters() {
    assert!(str_eq("dvds", "dvds"));
    assert!(!str_eq("dvds", "dvd"));
    assert!(!str_eq("dvds", "dvdz"));
    assert!(str_eq("", ""));
}

#[test]
fn ddl_and_dml_statements_render_exactly() {
    assert_eq!(
        build_create_table("dvds"),
        "CREATE TABLE dvds (id INTEGER PRIMARY KEY, time_created INTEGER NOT NULL, data BLOB)"
    );
    assert_eq!(build_insert("dvds"), "INSERT INTO dvds (time_created, data) VALUES (?1, ?2)");
    assert_eq!(
        build_upsert("dvds", 7),
        "INSERT OR REPLACE INTO dvds (id, time_created, data) VALUES (7, ?1, ?2)"
    );
    assert_eq!(
        build_create_index("ix_age", "people", "person.age"),
        "CREATE INDEX ix_age ON people (json_extract(data, '$.person.age'))"
    );
    assert_eq!(
        build_list_tables(),
        "SELECT name FROM sqlite_master WHERE type = 'table' AND name NOT LIKE 'sqlite_%'"
    );
}

#[test]
fn containment_query_renders_exactly_and_escapes_quotes() {
    let v = Value::String(String::from("che'ese"));
    assert_eq!(
        build_contains("dvds", "=", &v),
        "SELECT dvds.id, time_created, data FROM dvds, json_each(data) \
         WHERE json_each.value = 'che''ese' ORDER BY dvds.id"
    );
}

#[test]
fn object_query_renders_each_value_kind_exactly() {
    assert_eq!(
        build_object("hw", "person.age", ">=", &Value::Integer(-5)),
        "SELECT hw.id, time_created, data FROM hw, json_tree(data, '$.person.age') \
         WHERE json_tree.value >= -5 ORDER BY hw.id"
    );
    assert_eq!(
        build_object("hw", "score", ">", &Value::Float(Decimal::new(9025, 2))),
        "SELECT hw.id, time_created, data FROM hw, json_tree(data, '$.score') \
         WHERE json_tree.value > 90.25 ORDER BY hw.id"
    );
    assert_eq!(
        build_object("hw", "done", "=", &Value::Boolean(true)),
        "SELECT hw.id, time_created, data FROM hw, json_tree(data, '$.done') \
         WHERE json_tree.value = true ORDER BY hw.id"
    );
    assert_eq!(
        build_object("hw", "name", "=", &Value::String(String::from("drbh"))),
        "SELECT hw.id, time_created, data FROM hw, json_tree(data, '$.name') \
         WHERE json_tree.value = 'drbh' ORDER BY hw.id"
    );
}

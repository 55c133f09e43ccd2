//! Translation of typed queries and mutations into the backing engine's
//! statement text.
//!
//! Every statement the store hands to the engine is built here, and each
//! builder's contract pins the produced character sequence exactly.  Names
//! and keys are only ever spliced after the validation in `ident`, and
//! comparison values only through the literal rendering in `value`.
use vstd::prelude::*;
use vstd::string::*;

use crate::lit::dec_str;
use crate::value::{push_value_literal, value_literal_str, Value};

verus! {

/// The five comparison operator symbols a query may carry.
pub open spec fn is_comparison_op(s: Seq<char>) -> bool {
    s == "="@ || s == ">="@ || s == "<="@ || s == ">"@ || s == "<"@
}

/// Decides whether `s` is one of the five comparison operator symbols.
pub fn is_comparison_operator(s: &str) -> (b: bool)
    ensures
        b == is_comparison_op(s@),
{
    proof {
        reveal_strlit("=");
        reveal_strlit(">=");
        reveal_strlit("<=");
        reveal_strlit(">");
        reveal_strlit("<");
    }
    let n = s.unicode_len();
    if n == 1 {
        let c = s.get_char(0);
        let r = c == '=' || c == '>' || c == '<';
        proof {
            if c == '=' {
                assert(s@ =~= "="@);
            } else if c == '>' {
                assert(s@ =~= ">"@);
            } else if c == '<' {
                assert(s@ =~= "<"@);
            }
        }
        r
    } else if n == 2 {
        let c0 = s.get_char(0);
        let c1 = s.get_char(1);
        let r = (c0 == '>' || c0 == '<') && c1 == '=';
        proof {
            if c0 == '>' && c1 == '=' {
                assert(s@ =~= ">="@);
            } else if c0 == '<' && c1 == '=' {
                assert(s@ =~= "<="@);
            }
        }
        r
    } else {
        false
    }
}

/// The table-creation statement for a collection: an auto-assigned integer
/// primary key, an integer creation timestamp, and an opaque payload column.
pub open spec fn create_table_sql(c: Seq<char>) -> Seq<char> {
    "CREATE TABLE "@ + c
        + " (id INTEGER PRIMARY KEY, time_created INTEGER NOT NULL, data BLOB)"@
}

/// Builds the table-creation statement for collection `c`.
pub fn build_create_table(c: &str) -> (r: String)
    ensures
        r@ == create_table_sql(c@),
{
    let mut out = String::new();
    out.append("CREATE TABLE ");
    out.append(c);
    out.append(" (id INTEGER PRIMARY KEY, time_created INTEGER NOT NULL, data BLOB)");
    assert(out@ =~= create_table_sql(c@));
    out
}

/// The insert statement for a collection; timestamp and payload are bound
/// as statement parameters, never spliced.
pub open spec fn insert_sql(c: Seq<char>) -> Seq<char> {
    "INSERT INTO "@ + c + " (time_created, data) VALUES (?1, ?2)"@
}

/// Builds the insert statement for collection `c`.
pub fn build_insert(c: &str) -> (r: String)
    ensures
        r@ == insert_sql(c@),
{
    let mut out = String::new();
    out.append("INSERT INTO ");
    out.append(c);
    out.append(" (time_created, data) VALUES (?1, ?2)");
    assert(out@ =~= insert_sql(c@));
    out
}

/// The upsert statement: replaces the row at an explicit id if it exists,
/// else inserts a new row carrying that id.
pub open spec fn upsert_sql(c: Seq<char>, id: nat) -> Seq<char> {
    "INSERT OR REPLACE INTO "@ + c + " (id, time_created, data) VALUES ("@ + dec_str(id)
        + ", ?1, ?2)"@
}

/// Builds the upsert statement for collection `c` at row `id`.
pub fn build_upsert(c: &str, id: u64) -> (r: String)
    ensures
        r@ == upsert_sql(c@, id as nat),
{
    let mut out = String::new();
    out.append("INSERT OR REPLACE INTO ");
    out.append(c);
    out.append(" (id, time_created, data) VALUES (");
    crate::lit::push_dec(&mut out, id);
    out.append(", ?1, ?2)");
    assert(out@ =~= upsert_sql(c@, id as nat));
    out
}

/// The statement creating a named acceleration structure over a dotted path.
pub open spec fn create_index_sql(index: Seq<char>, c: Seq<char>, key: Seq<char>) -> Seq<char> {
    "CREATE INDEX "@ + index + " ON "@ + c + " (json_extract(data, '$."@ + key + "'))"@
}

/// Builds the index-creation statement.
pub fn build_create_index(index: &str, c: &str, key: &str) -> (r: String)
    ensures
        r@ == create_index_sql(index@, c@, key@),
{
    let mut out = String::new();
    out.append("CREATE INDEX ");
    out.append(index);
    out.append(" ON ");
    out.append(c);
    out.append(" (json_extract(data, '$.");
    out.append(key);
    out.append("'))");
    assert(out@ =~= create_index_sql(index@, c@, key@));
    out
}

/// The statement enumerating collection tables, excluding the engine's
/// internal tables.
pub open spec fn list_tables_sql() -> Seq<char> {
    "SELECT name FROM sqlite_master WHERE type = 'table' AND name NOT LIKE 'sqlite_%'"@
}

/// Builds the table-enumeration statement.
pub fn build_list_tables() -> (r: &'static str)
    ensures
        r@ == list_tables_sql(),
{
    "SELECT name FROM sqlite_master WHERE type = 'table' AND name NOT LIKE 'sqlite_%'"
}

/// The containment predicate: walk the elements of a top-level array-shaped
/// payload and compare each against the rendered literal; matching rows come
/// back in ascending id order.
pub open spec fn contains_sql(c: Seq<char>, cmp: Seq<char>, v: Value) -> Seq<char> {
    "SELECT "@ + c + ".id, time_created, data FROM "@ + c
        + ", json_each(data) WHERE json_each.value "@ + cmp + " "@ + value_literal_str(v)
        + " ORDER BY "@ + c + ".id"@
}

/// Builds the containment query against collection `c`.
pub fn build_contains(c: &str, cmp: &str, v: &Value) -> (r: String)
    ensures
        r@ == contains_sql(c@, cmp@, *v),
{
    let mut out = String::new();
    out.append("SELECT ");
    out.append(c);
    out.append(".id, time_created, data FROM ");
    out.append(c);
    out.append(", json_each(data) WHERE json_each.value ");
    out.append(cmp);
    out.append(" ");
    push_value_literal(&mut out, v);
    out.append(" ORDER BY ");
    out.append(c);
    out.append(".id");
    assert(out@ =~= contains_sql(c@, cmp@, *v));
    out
}

/// The nested-object predicate: recursively walk the payload tree under the
/// dotted path `key` and compare reachable values against the rendered
/// literal; matching rows come back in ascending id order.
pub open spec fn object_sql(c: Seq<char>, key: Seq<char>, cmp: Seq<char>, v: Value) -> Seq<char> {
    "SELECT "@ + c + ".id, time_created, data FROM "@ + c + ", json_tree(data, '$."@ + key
        + "') WHERE json_tree.value "@ + cmp + " "@ + value_literal_str(v) + " ORDER BY "@ + c
        + ".id"@
}

/// Builds the nested-object query against collection `c`.
pub fn build_object(c: &str, key: &str, cmp: &str, v: &Value) -> (r: String)
    ensures
        r@ == object_sql(c@, key@, cmp@, *v),
{
    let mut out = String::new();
    out.append("SELECT ");
    out.append(c);
    out.append(".id, time_created, data FROM ");
    out.append(c);
    out.append(", json_tree(data, '$.");
    out.append(key);
    out.append("') WHERE json_tree.value ");
    out.append(cmp);
    out.append(" ");
    push_value_literal(&mut out, v);
    out.append(" ORDER BY ");
    out.append(c);
    out.append(".id");
    assert(out@ =~= object_sql(c@, key@, cmp@, *v));
    out
}

} // verus!

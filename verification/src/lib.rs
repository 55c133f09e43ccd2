//! An embedded document store: named collections of schema-less JSON-like
//! documents kept in a relational backing engine, queryable by typed
//! predicates (value containment in top-level arrays, key/value matching
//! inside nested objects).
//!
//! The verified core is the typed query model and its translation into
//! path-based predicate text for the backing engine: literal rendering,
//! identifier and dotted-path validation, statement construction, and the
//! store's registry and dispatch logic.  The engine itself and the
//! serialization layer stand behind the trusted boundary in `backend`.
mod backend;
mod error;
pub mod ident;
pub mod lit;
mod query;
mod store;
pub mod translate;
mod value;

pub use backend::get_ms_time;
pub use error::Error;
pub use ident::{is_safe_ident, is_safe_identifier, is_safe_key_path, is_safe_path};
pub use query::{
    builder_complete, lemma_missing_fields_incomplete, query_wf, Query, QueryBuilder, QueryKind,
};
pub use store::{names_of, registry_from, Collection, Entry, HotPot, Index, IndexBuilder, NewEntry};
pub use translate::{
    contains_sql, create_index_sql, create_table_sql, insert_sql, is_comparison_op,
    is_comparison_operator, list_tables_sql, object_sql, upsert_sql,
};
pub use value::{type_label, type_of, value_literal_str, Decimal, Value};

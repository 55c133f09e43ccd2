//! The trusted boundary to the backing relational engine and to the
//! serialization layer.
//!
//! Everything here is believed, not proved: each item carries a doc comment
//! naming the outside function it relies on.  Nothing is promised of the
//! rows an engine call produces — they depend on the state of the database —
//! so the verified callers state what holds of their results whatever comes
//! back.  Engine failures come out as their rendered diagnostic text.
use vstd::prelude::*;

use crate::store::Entry;

verus! {

#[verifier::external_type_specification]
#[verifier::external_body]
pub struct ExConnection(rusqlite::Connection);

/// Relies on rusqlite's `Connection::open`: opens (or creates) the database
/// at `path`; `:memory:` opens a transient in-memory database.
#[verifier::external_body]
pub(crate) fn open_database(path: &str) -> Result<rusqlite::Connection, String> {
    rusqlite::Connection::open(path).map_err(|e| e.to_string())
}

/// Relies on rusqlite's `Connection::close`.  The shutdown diagnostic is
/// dropped: the handle is gone either way and the store has no further use
/// for it.
#[verifier::external_body]
pub(crate) fn close_connection(conn: rusqlite::Connection) {
    let _ = conn.close();
}

/// Relies on rusqlite's `Connection::execute`: runs one statement that
/// binds no parameters and reports how many rows changed.
#[verifier::external_body]
pub(crate) fn run_statement(conn: &rusqlite::Connection, sql: &str) -> Result<usize, String> {
    conn.execute(sql, ()).map_err(|e| e.to_string())
}

/// Relies on rusqlite's `Connection::execute`: runs one insert statement,
/// binding the creation timestamp as `?1` and the payload text as `?2`.
#[verifier::external_body]
pub(crate) fn run_insert(
    conn: &rusqlite::Connection,
    sql: &str,
    time_created: i64,
    data: &str,
) -> Result<usize, String> {
    conn.execute(sql, (time_created, data)).map_err(|e| e.to_string())
}

/// Relies on rusqlite's `Connection::prepare` and `Statement::query_map`:
/// runs a query whose rows carry an id, a timestamp and a payload, and
/// converts each row into an `Entry`.
#[verifier::external_body]
pub(crate) fn run_entry_query(conn: &rusqlite::Connection, sql: &str) -> Result<
    Vec<Entry>,
    String,
> {
    let inner = |conn: &rusqlite::Connection| -> rusqlite::Result<Vec<Entry>> {
        let mut stmt = conn.prepare(sql)?;
        let rows = stmt.query_map(
            (),
            |row| Ok(Entry { id: row.get(0)?, time_created: row.get(1)?, data: row.get(2)? }),
        )?;
        rows.collect()
    };
    inner(conn).map_err(|e| e.to_string())
}

/// Relies on rusqlite's `Connection::prepare` and `Statement::query_map`:
/// runs a query whose rows carry one text column and collects the strings.
#[verifier::external_body]
pub(crate) fn run_name_query(conn: &rusqlite::Connection, sql: &str) -> Result<
    Vec<String>,
    String,
> {
    let inner = |conn: &rusqlite::Connection| -> rusqlite::Result<Vec<String>> {
        let mut stmt = conn.prepare(sql)?;
        let rows = stmt.query_map((), |row| row.get(0))?;
        rows.collect()
    };
    inner(conn).map_err(|e| e.to_string())
}

/// Relies on serde_json's `to_string`: serializes a typed value to its
/// document text.
#[verifier::external_body]
pub(crate) fn to_json_text<T: serde::Serialize>(value: &T) -> Result<String, String> {
    serde_json::to_string(value).map_err(|e| e.to_string())
}

/// Relies on std's `SystemTime::now`, `duration_since` and `as_millis`:
/// reads the clock as milliseconds since the Unix epoch.  The reading is
/// nonnegative in every outcome; a clock before the epoch reads as zero.
#[verifier::external_body]
pub fn get_ms_time() -> (r: i64)
    ensures
        r >= 0,
{
    match std::time::SystemTime::now().duration_since(std::time::UNIX_EPOCH) {
        Ok(d) => i64::try_from(d.as_millis()).unwrap_or(i64::MAX),
        Err(_) => 0,
    }
}

} // verus!

//! The document store: a registry of named collections over one backing
//! engine connection, plus the collection-level delegation methods.
//!
//! The registry keeps only safe, pairwise-distinct collection names, so a
//! registered name can always be spliced into statement text.  Mutation
//! failures are propagated; query execution downgrades engine rejections to
//! an empty result (the documented fail-soft contract).
use vstd::prelude::*;
use vstd::string::*;

use crate::backend::{
    close_connection, get_ms_time, open_database, run_entry_query, run_insert, run_name_query,
    run_statement, to_json_text,
};
use crate::error::Error;
use crate::ident::{
    is_safe_ident, is_safe_identifier, is_safe_key_path, is_safe_path, str_eq,
};
use crate::query::{Query, QueryKind};
use crate::translate::{
    build_contains, build_create_index, build_create_table, build_insert, build_list_tables,
    build_object, build_upsert, is_comparison_op, is_comparison_operator,
};
use crate::value::Value;

verus! {

/// A named collection of documents; its identity is the backing table name.
/// It owns no state beyond that name: every operation delegates to the
/// backing engine through the connection it is handed.
#[derive(Debug, Clone)]
pub struct Collection {
    pub name: String,
}

/// A row as it is created: the creation timestamp and the payload text.
/// The unique id is assigned by the backing engine on insert.
#[derive(Debug)]
pub struct NewEntry {
    time_created: i64,
    data: String,
}

/// A stored row: unique id, creation timestamp in milliseconds since the
/// epoch, and the opaque document payload.
#[derive(Debug, Clone)]
pub struct Entry {
    pub id: i64,
    pub time_created: i64,
    pub data: String,
}

/// A named acceleration structure over a dotted path within a collection's
/// stored documents; purely a performance hint.  `value` carries the index
/// name.
#[derive(Debug)]
pub struct Index {
    pub collection: String,
    pub key: String,
    pub value: String,
}

/// A partially specified `Index`, fields filled one at a time.
#[derive(Debug)]
pub struct IndexBuilder {
    pub collection: Option<String>,
    pub key: Option<String>,
    pub value: Option<String>,
}

/// The names of a sequence of collections, in registry order.
pub open spec fn names_of(cols: Seq<Collection>) -> Seq<Seq<char>> {
    cols.map_values(|c: Collection| c.name@)
}

/// Finds the position of `name` in a collection registry.
fn find_in(cols: &Vec<Collection>, name: &str) -> (r: Option<usize>)
    ensures
        r matches Some(i) ==> i < cols@.len() && cols@[i as int].name@ == name@,
        r is Some <==> names_of(cols@).contains(name@),
{
    let n = cols.len();
    let mut i: usize = 0;
    while i < n
        invariant
            n == cols@.len(),
            i <= n,
            forall|j: int| 0 <= j < i ==> cols@[j].name@ != name@,
        decreases n - i,
    {
        if str_eq(cols[i].name.as_str(), name) {
            proof {
                assert(names_of(cols@)[i as int] == name@);
                assert(names_of(cols@).contains(name@));
            }
            return Some(i);
        }
        i = i + 1;
    }
    proof {
        assert forall|j: int| 0 <= j < names_of(cols@).len() implies names_of(cols@)[j]
            != name@ by {
            assert(cols@[j].name@ != name@);
        }
        assert(!names_of(cols@).contains(name@));
    }
    None
}

/// Builds a registry from the collection names the backing resource
/// listed: every safe identifier among them ends up registered exactly
/// once, names that are not safe identifiers are left unregistered, and no
/// name that was not listed is registered.
pub fn registry_from(listed: &Vec<String>) -> (cols: Vec<Collection>)
    ensures
        forall|a: int|
            0 <= a < names_of(cols@).len() ==> is_safe_ident(#[trigger] names_of(cols@)[a]),
        forall|a: int, b: int|
            0 <= a < b < names_of(cols@).len() ==> names_of(cols@)[a] != names_of(cols@)[b],
        forall|j: int|
            0 <= j < listed@.len() && is_safe_ident(#[trigger] listed@[j]@) ==> names_of(
                cols@,
            ).contains(listed@[j]@),
        forall|nm: Seq<char>| #[trigger]
            names_of(cols@).contains(nm) ==> exists|j: int|
                0 <= j < listed@.len() && listed@[j]@ == nm,
{
    let mut cols: Vec<Collection> = Vec::new();
    let n = listed.len();
    let mut i: usize = 0;
    while i < n
        invariant
            n == listed@.len(),
            i <= n,
            forall|a: int|
                0 <= a < names_of(cols@).len() ==> is_safe_ident(#[trigger] names_of(cols@)[a]),
            forall|a: int, b: int|
                0 <= a < b < names_of(cols@).len() ==> names_of(cols@)[a] != names_of(cols@)[b],
            forall|j: int|
                0 <= j < i && is_safe_ident(#[trigger] listed@[j]@) ==> names_of(cols@).contains(
                    listed@[j]@,
                ),
            forall|nm: Seq<char>| #[trigger]
                names_of(cols@).contains(nm) ==> exists|j: int| 0 <= j < i && listed@[j]@ == nm,
        decreases n - i,
    {
        let name = &listed[i];
        if is_safe_identifier(name.as_str()) {
            match find_in(&cols, name.as_str()) {
                None => {
                    let ghost before = cols@;
                    cols.push(Collection { name: name.clone() });
                    proof {
                        assert(names_of(cols@) =~= names_of(before).push(name@));
                        assert(names_of(cols@)[names_of(before).len() as int] == name@);
                        assert(names_of(cols@).contains(name@));
                        assert forall|nm: Seq<char>|
                            names_of(before).contains(nm) implies #[trigger] names_of(
                            cols@,
                        ).contains(nm) by {
                            let k = choose|k: int|
                                0 <= k < names_of(before).len() && names_of(before)[k] == nm;
                            assert(names_of(cols@)[k] == nm);
                        }
                        assert forall|nm: Seq<char>| #[trigger]
                            names_of(cols@).contains(nm) implies exists|j: int|
                            0 <= j < i + 1 && listed@[j]@ == nm by {
                            let k = choose|k: int|
                                0 <= k < names_of(cols@).len() && names_of(cols@)[k] == nm;
                            if k < names_of(before).len() {
                                assert(names_of(before).contains(nm));
                            } else {
                                assert(listed@[i as int]@ == nm);
                            }
                        }
                    }
                },
                Some(_) => {},
            }
        }
        i = i + 1;
    }
    cols
}

impl Collection {
    /// Inserts a document: the engine assigns the id, the store stamps the
    /// creation time.  The collection name is validated before it is
    /// spliced into statement text; engine failures surface as
    /// `BackendFailure`.
    pub fn add_object(&self, conn: &rusqlite::Connection, cname: &str, value: String) -> (r:
        Result<(), Error>)
        ensures
            !is_safe_ident(cname@) <==> r == Err::<(), Error>(Error::InvalidName),
            r matches Err(e) ==> e is InvalidName || e is BackendFailure,
    {
        if !is_safe_identifier(cname) {
            return Err(Error::InvalidName);
        }
        let sql = build_insert(cname);
        let me = NewEntry { time_created: get_ms_time(), data: value };
        match run_insert(conn, sql.as_str(), me.time_created, me.data.as_str()) {
            Ok(_) => Ok(()),
            Err(e) => Err(Error::BackendFailure(e)),
        }
    }

    /// Upserts a document at an explicit id: replaces the row if the id
    /// exists, else inserts a new row carrying it.
    pub fn add_object_at_index(
        &self,
        conn: &rusqlite::Connection,
        cname: &str,
        hotpot_id_for_entry: usize,
        value: String,
    ) -> (r: Result<(), Error>)
        ensures
            !is_safe_ident(cname@) <==> r == Err::<(), Error>(Error::InvalidName),
            r matches Err(e) ==> e is InvalidName || e is BackendFailure,
    {
        if !is_safe_identifier(cname) {
            return Err(Error::InvalidName);
        }
        let sql = build_upsert(cname, hotpot_id_for_entry as u64);
        let me = NewEntry { time_created: get_ms_time(), data: value };
        match run_insert(conn, sql.as_str(), me.time_created, me.data.as_str()) {
            Ok(_) => Ok(()),
            Err(e) => Err(Error::BackendFailure(e)),
        }
    }

    /// Creates a named acceleration structure over a dotted path; purely a
    /// performance hint, never required for correctness.
    pub fn add_index(
        &self,
        conn: &rusqlite::Connection,
        collection_name: &str,
        key: &str,
        index_name: &str,
    ) -> (r: Result<(), Error>)
        ensures
            !(is_safe_ident(collection_name@) && is_safe_ident(index_name@) && is_safe_path(key@))
                <==> r == Err::<(), Error>(Error::InvalidName),
            r matches Err(e) ==> e is InvalidName || e is BackendFailure,
    {
        if !(is_safe_identifier(collection_name) && is_safe_identifier(index_name)
            && is_safe_key_path(key)) {
            return Err(Error::InvalidName);
        }
        let sql = build_create_index(index_name, collection_name, key);
        match run_statement(conn, sql.as_str()) {
            Ok(_) => Ok(()),
            Err(e) => Err(Error::BackendFailure(e)),
        }
    }

    /// Runs the containment predicate: matches documents whose top-level
    /// array holds an element standing in the given comparison to `value`.
    pub fn query_arrays_contains(
        &self,
        conn: &rusqlite::Connection,
        cname: &str,
        comparison: &str,
        value: &Value,
    ) -> (r: Result<Vec<Entry>, Error>)
        ensures
            !(is_safe_ident(cname@) && is_comparison_op(comparison@)) <==> r == Err::<
                Vec<Entry>,
                Error,
            >(Error::InvalidName),
            r matches Err(e) ==> e is InvalidName || e is BackendFailure,
    {
        if !(is_safe_identifier(cname) && is_comparison_operator(comparison)) {
            return Err(Error::InvalidName);
        }
        let sql = build_contains(cname, comparison, value);
        match run_entry_query(conn, sql.as_str()) {
            Ok(v) => Ok(v),
            Err(e) => Err(Error::BackendFailure(e)),
        }
    }

    /// Runs the nested-object predicate: matches documents holding a value
    /// reachable under the dotted key that stands in the given comparison
    /// to `value`.
    pub fn query_object_with_key_value(
        &self,
        conn: &rusqlite::Connection,
        cname: &str,
        comparison: &str,
        key: &str,
        value: &Value,
    ) -> (r: Result<Vec<Entry>, Error>)
        ensures
            !(is_safe_ident(cname@) && is_comparison_op(comparison@) && is_safe_path(key@)) <==> r
                == Err::<Vec<Entry>, Error>(Error::InvalidName),
            r matches Err(e) ==> e is InvalidName || e is BackendFailure,
    {
        if !(is_safe_identifier(cname) && is_comparison_operator(comparison)
            && is_safe_key_path(key)) {
            return Err(Error::InvalidName);
        }
        let sql = build_object(cname, key, comparison, value);
        match run_entry_query(conn, sql.as_str()) {
            Ok(v) => Ok(v),
            Err(e) => Err(Error::BackendFailure(e)),
        }
    }
}

/// The document store: the composition root.  It exclusively owns one
/// backing engine connection and the registry of collections.
#[derive(Debug)]
pub struct HotPot {
    conn: rusqlite::Connection,
    collections: Vec<Collection>,
}

impl HotPot {
    /// The registered collection names, in registration order.
    pub closed spec fn names(&self) -> Seq<Seq<char>> {
        names_of(self.collections@)
    }

    /// Whether a collection named `name` is registered.
    pub open spec fn has_collection(&self, name: Seq<char>) -> bool {
        self.names().contains(name)
    }

    /// Well-formedness: every registered name is a safe identifier, and no
    /// name is registered twice.
    pub closed spec fn wf(&self) -> bool {
        &&& forall|i: int|
            0 <= i < self.names().len() ==> is_safe_ident(#[trigger] self.names()[i])
        &&& forall|i: int, j: int|
            0 <= i < j < self.names().len() ==> self.names()[i] != self.names()[j]
    }

    /// A registered name is always a safe identifier: a caller holding a
    /// well-formed store may rely on any name the registry reports without
    /// validating it again.
    pub proof fn lemma_registered_names_are_safe(&self, n: Seq<char>)
        requires
            self.wf(),
            self.has_collection(n),
        ensures
            is_safe_ident(n),
    {
        let i = choose|i: int| 0 <= i < self.names().len() && self.names()[i] == n;
        assert(is_safe_ident(self.names()[i]));
    }

    /// Opens (or creates) the backing database at `path` and repopulates
    /// the registry from the collections the backing resource already
    /// holds, so a store is resumable across restarts.  The registry is
    /// exactly `registry_from` of the engine's table listing — see that
    /// function's contract; listed names that are not safe identifiers are
    /// left unregistered, and an unreadable listing leaves the registry
    /// empty, as an empty listing would.
    pub fn new(path: &str) -> (r: Result<HotPot, Error>)
        ensures
            r matches Ok(hp) ==> hp.wf(),
            r matches Err(e) ==> e is BackendFailure,
    {
        let conn = match open_database(path) {
            Ok(c) => c,
            Err(e) => {
                return Err(Error::BackendFailure(e));
            },
        };
        let listed = match run_name_query(&conn, build_list_tables()) {
            Ok(v) => v,
            Err(_) => Vec::new(),
        };
        let collections = registry_from(&listed);
        Ok(HotPot { conn, collections })
    }

    /// Releases the backing engine connection.
    pub fn close(self) {
        let HotPot { conn, collections: _ } = self;
        close_connection(conn);
    }

    /// Enumerates the backing engine's collection tables, excluding its
    /// internal ones.
    pub fn list_collections(&mut self) -> (r: Result<Vec<String>, Error>)
        ensures
            *final(self) == *old(self),
            r matches Err(e) ==> e is BackendFailure,
    {
        match run_name_query(&self.conn, build_list_tables()) {
            Ok(v) => Ok(v),
            Err(e) => Err(Error::BackendFailure(e)),
        }
    }

    /// Creates the backing table for a new collection and registers it.
    /// Fails loudly: `AlreadyExists` if the name is taken, `InvalidName` if
    /// it is not a safe identifier, `BackendFailure` (without registering)
    /// if the engine rejects the table creation.
    pub fn create_collection(&mut self, name: &str) -> (r: Result<bool, Error>)
        requires
            old(self).wf(),
        ensures
            final(self).wf(),
            !is_safe_ident(name@) ==> r == Err::<bool, Error>(Error::InvalidName)
                && final(self).names() == old(self).names(),
            is_safe_ident(name@) && old(self).has_collection(name@) ==> r == Err::<bool, Error>(
                Error::AlreadyExists,
            ) && final(self).names() == old(self).names(),
            is_safe_ident(name@) && !old(self).has_collection(name@) ==> {
                &&& (r matches Ok(b) ==> b && final(self).names() == old(self).names().push(name@))
                &&& (r matches Err(e) ==> e is BackendFailure
                    && final(self).names() == old(self).names())
            },
            r is Ok ==> is_safe_ident(name@) && !old(self).has_collection(name@),
    {
        if !is_safe_identifier(name) {
            return Err(Error::InvalidName);
        }
        match find_in(&self.collections, name) {
            Some(_) => {
                return Err(Error::AlreadyExists);
            },
            None => {},
        }
        let sql = build_create_table(name);
        match run_statement(&self.conn, sql.as_str()) {
            Err(e) => Err(Error::BackendFailure(e)),
            Ok(_) => {
                let ghost before = self.collections@;
                self.collections.push(Collection { name: String::from_str(name) });
                proof {
                    let ns = names_of(before);
                    let ms = names_of(self.collections@);
                    assert(old(self).names() == ns);
                    assert(ms =~= ns.push(name@));
                    assert forall|a: int| 0 <= a < ms.len() implies is_safe_ident(
                        #[trigger] ms[a],
                    ) by {
                        if a < ns.len() {
                            assert(ms[a] == ns[a]);
                        } else {
                            assert(ms[a] == name@);
                        }
                    }
                    assert forall|a: int, b: int| 0 <= a < b < ms.len() implies ms[a] != ms[b] by {
                        if b < ns.len() {
                            assert(ms[a] == ns[a] && ms[b] == ns[b]);
                        } else {
                            assert(ms[a] == ns[a] && ms[b] == name@);
                            if ns[a] == name@ {
                                assert(ns.contains(name@));
                            }
                        }
                    }
                    assert(self.wf());
                }
                Ok(true)
            },
        }
    }

    /// Dispatches a query against the registered collection at `idx`,
    /// delegating the predicate to the backing engine.  An unusable
    /// comparison symbol, an unusable or missing key path, and an engine
    /// rejection all come back as errors here; the public entry points
    /// choose between the fail-soft and the strict reading of them.
    fn query_outcome(&self, query: &Query, idx: usize) -> (r: Result<Vec<Entry>, Error>)
        requires
            self.wf(),
            idx < self.collections@.len(),
            self.collections@[idx as int].name@ == query.collection@,
        ensures
            r matches Err(e) ==> e is InvalidName || e is BackendFailure,
            !is_comparison_op(query.comparison@) ==> r is Err,
            query.query_type is Object && (match query.key {
                Some(k) => !is_safe_path(k@),
                None => true,
            }) ==> r is Err,
    {
        let c = &self.collections[idx];
        proof {
            assert(self.names()[idx as int] == query.collection@);
            assert(is_safe_ident(query.collection@));
        }
        match query.query_type {
            QueryKind::Contains => c.query_arrays_contains(
                &self.conn,
                query.collection.as_str(),
                query.comparison.as_str(),
                &query.value,
            ),
            QueryKind::Object => {
                match &query.key {
                    None => Err(Error::InvalidName),
                    Some(k) => c.query_object_with_key_value(
                        &self.conn,
                        query.collection.as_str(),
                        query.comparison.as_str(),
                        k.as_str(),
                        &query.value,
                    ),
                }
            },
        }
    }

    /// Resolves the query's collection and dispatches on its kind,
    /// delegating the predicate to the backing engine.  An unregistered
    /// collection yields `NotFound` — for every store and query value, so
    /// a missing collection can never abort the caller; everything else is
    /// fail-soft: an unusable comparison symbol or key path, or an engine
    /// rejection, yields the empty result rather than an error.
    pub fn execute(&self, query: Query) -> (r: Result<Vec<Entry>, Error>)
        requires
            self.wf(),
        ensures
            r is Err <==> !self.has_collection(query.collection@),
            !self.has_collection(query.collection@) ==> r == Err::<Vec<Entry>, Error>(
                Error::NotFound,
            ),
            self.has_collection(query.collection@) && !is_comparison_op(query.comparison@) ==> (
            r matches Ok(v) && v@ == Seq::<Entry>::empty()),
            self.has_collection(query.collection@) && query.query_type is Object && (match query
                .key {
                Some(k) => !is_safe_path(k@),
                None => true,
            }) ==> (r matches Ok(v) && v@ == Seq::<Entry>::empty()),
    {
        let idx = match find_in(&self.collections, query.collection.as_str()) {
            None => {
                return Err(Error::NotFound);
            },
            Some(i) => i,
        };
        match self.query_outcome(&query, idx) {
            Ok(v) => Ok(v),
            Err(_) => Ok(Vec::new()),
        }
    }

    /// The strict reading of query execution: instead of downgrading to an
    /// empty result, an untranslatable query or an engine rejection
    /// surfaces as `QueryFailed` with its diagnostic.  An unregistered
    /// collection still yields `NotFound`, exactly as under `execute`.
    pub fn execute_strict(&self, query: Query) -> (r: Result<Vec<Entry>, Error>)
        requires
            self.wf(),
        ensures
            !self.has_collection(query.collection@) <==> r == Err::<Vec<Entry>, Error>(
                Error::NotFound,
            ),
            r matches Err(e) ==> e is NotFound || e is QueryFailed,
            self.has_collection(query.collection@) && !is_comparison_op(query.comparison@) ==> (
            r matches Err(e) && e is QueryFailed),
            self.has_collection(query.collection@) && query.query_type is Object && (match query
                .key {
                Some(k) => !is_safe_path(k@),
                None => true,
            }) ==> (r matches Err(e) && e is QueryFailed),
    {
        let idx = match find_in(&self.collections, query.collection.as_str()) {
            None => {
                return Err(Error::NotFound);
            },
            Some(i) => i,
        };
        match self.query_outcome(&query, idx) {
            Ok(v) => Ok(v),
            Err(Error::BackendFailure(diag)) => Err(Error::QueryFailed(diag)),
            Err(_) => Err(
                Error::QueryFailed(
                    String::from_str("the comparison operator or key path is not usable"),
                ),
            ),
        }
    }

    /// Forwards a document to a registered collection; `NotFound` exactly
    /// when the collection is not registered.
    pub fn add_object_to_collection(&mut self, cname: &str, val: String) -> (r: Result<
        bool,
        Error,
    >)
        requires
            old(self).wf(),
        ensures
            final(self).wf(),
            final(self).names() == old(self).names(),
            !old(self).has_collection(cname@) <==> r == Err::<bool, Error>(Error::NotFound),
            r matches Err(e) ==> e is NotFound || e is BackendFailure,
            r matches Ok(b) ==> b,
    {
        let idx = match find_in(&self.collections, cname) {
            None => {
                return Err(Error::NotFound);
            },
            Some(i) => i,
        };
        proof {
            assert(self.names()[idx as int] == cname@);
            assert(is_safe_ident(cname@));
        }
        let c = &self.collections[idx];
        match c.add_object(&self.conn, cname, val) {
            Ok(_) => Ok(true),
            Err(e) => Err(e),
        }
    }

    /// Creates an acceleration structure over a dotted path within a
    /// registered collection.
    pub fn add_index_to_collection(
        &mut self,
        collection_name: &str,
        key: &str,
        index_name: &str,
    ) -> (r: Result<bool, Error>)
        requires
            old(self).wf(),
        ensures
            final(self).wf(),
            final(self).names() == old(self).names(),
            !old(self).has_collection(collection_name@) <==> r == Err::<bool, Error>(
                Error::NotFound,
            ),
            old(self).has_collection(collection_name@) && !(is_safe_path(key@) && is_safe_ident(
                index_name@,
            )) <==> r == Err::<bool, Error>(Error::InvalidName),
            r matches Err(e) ==> e is NotFound || e is InvalidName || e is BackendFailure,
            r matches Ok(b) ==> b,
    {
        let idx = match find_in(&self.collections, collection_name) {
            None => {
                return Err(Error::NotFound);
            },
            Some(i) => i,
        };
        proof {
            assert(self.names()[idx as int] == collection_name@);
            assert(is_safe_ident(collection_name@));
        }
        let c = &self.collections[idx];
        match c.add_index(&self.conn, collection_name, key, index_name) {
            Ok(_) => Ok(true),
            Err(e) => Err(e),
        }
    }

    /// Serializes a typed value to document text and stores it in a
    /// registered collection.  `NotFound` exactly when the collection is
    /// not registered; a serialization failure is a caller-visible error.
    pub fn insert<T: serde::Serialize>(&mut self, cname: &str, svalue: &T) -> (r: Result<
        bool,
        Error,
    >)
        requires
            old(self).wf(),
        ensures
            final(self).wf(),
            final(self).names() == old(self).names(),
            !old(self).has_collection(cname@) <==> r == Err::<bool, Error>(Error::NotFound),
            r matches Err(e) ==> e is NotFound || e is SerializationFailure
                || e is BackendFailure,
            r matches Ok(b) ==> b,
    {
        let idx = match find_in(&self.collections, cname) {
            None => {
                return Err(Error::NotFound);
            },
            Some(i) => i,
        };
        proof {
            assert(self.names()[idx as int] == cname@);
            assert(is_safe_ident(cname@));
        }
        let val = match to_json_text(svalue) {
            Ok(v) => v,
            Err(_) => {
                return Err(Error::SerializationFailure);
            },
        };
        let c = &self.collections[idx];
        match c.add_object(&self.conn, cname, val) {
            Ok(_) => Ok(true),
            Err(e) => Err(e),
        }
    }

    /// Serializes a typed value and upserts it at an explicit id in a
    /// registered collection.
    pub fn upsert_at_index<T: serde::Serialize>(
        &mut self,
        cname: &str,
        index: usize,
        svalue: &T,
    ) -> (r: Result<bool, Error>)
        requires
            old(self).wf(),
        ensures
            final(self).wf(),
            final(self).names() == old(self).names(),
            !old(self).has_collection(cname@) <==> r == Err::<bool, Error>(Error::NotFound),
            r matches Err(e) ==> e is NotFound || e is SerializationFailure
                || e is BackendFailure,
            r matches Ok(b) ==> b,
    {
        let idx = match find_in(&self.collections, cname) {
            None => {
                return Err(Error::NotFound);
            },
            Some(i) => i,
        };
        proof {
            assert(self.names()[idx as int] == cname@);
            assert(is_safe_ident(cname@));
        }
        let val = match to_json_text(svalue) {
            Ok(v) => v,
            Err(_) => {
                return Err(Error::SerializationFailure);
            },
        };
        let c = &self.collections[idx];
        match c.add_object_at_index(&self.conn, cname, index, val) {
            Ok(_) => Ok(true),
            Err(e) => Err(e),
        }
    }
}

} // verus!

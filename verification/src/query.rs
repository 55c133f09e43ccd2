//! The immutable query descriptor and its fluent builder.
//!
//! A query names a collection, a predicate kind, a comparison operator, an
//! optional dotted key (mandatory for nested-object queries), and a typed
//! comparison value.  The builder validates the mandatory fields when it is
//! finished, so a built query never aborts downstream.
use vstd::prelude::*;
use vstd::string::*;

use crate::error::Error;
use crate::translate::{is_comparison_op, is_comparison_operator};
use crate::value::Value;

verus! {

/// The two predicate kinds: containment in a top-level array, or key/value
/// matching inside nested objects.
#[derive(Debug, Clone)]
pub enum QueryKind {
    Contains,
    Object,
}

/// An immutable query descriptor, produced by `QueryBuilder::finish`.
#[derive(Debug, Clone)]
pub struct Query {
    pub query_type: QueryKind,
    pub collection: String,
    pub comparison: String,
    pub key: Option<String>,
    pub value: Value,
}

/// The invariant `finish` establishes: the comparison symbol is one of the
/// five operators, and a nested-object query carries its dotted key.
pub open spec fn query_wf(q: Query) -> bool {
    &&& is_comparison_op(q.comparison@)
    &&& q.query_type is Object ==> q.key is Some
}

/// A single-use fluent constructor for `Query`.
#[derive(Debug)]
pub struct QueryBuilder {
    pub query_type: Option<QueryKind>,
    pub collection: Option<String>,
    pub comparison: Option<String>,
    pub key: Option<String>,
    pub value: Option<Value>,
}

/// Everything `finish` demands of a builder: the mandatory fields are
/// present, a nested-object query has its key, and a comparison symbol, if
/// one was set, is a recognized operator.
pub open spec fn builder_complete(b: QueryBuilder) -> bool {
    &&& b.query_type is Some
    &&& b.collection is Some
    &&& b.value is Some
    &&& (b.query_type matches Some(QueryKind::Object) ==> b.key is Some)
    &&& (b.comparison matches Some(c) ==> is_comparison_op(c@))
}

/// A builder finished without its collection or without its value is never
/// complete, so `finish` yields `IncompleteQuery` on it rather than
/// aborting.
pub proof fn lemma_missing_fields_incomplete(b: QueryBuilder)
    requires
        b.collection is None || b.value is None,
    ensures
        !builder_complete(b),
{
}

impl QueryBuilder {
    /// Opens a builder with every field unset.
    pub fn new() -> (r: QueryBuilder)
        ensures
            r.query_type is None,
            r.collection is None,
            r.comparison is None,
            r.key is None,
            r.value is None,
    {
        QueryBuilder {
            query_type: None,
            collection: None,
            comparison: None,
            key: None,
            value: None,
        }
    }

    /// Sets the predicate kind.
    pub fn kind(self, typ: QueryKind) -> (r: QueryBuilder)
        ensures
            r.query_type == Some(typ),
            r.collection == self.collection,
            r.comparison == self.comparison,
            r.key == self.key,
            r.value == self.value,
    {
        QueryBuilder { query_type: Some(typ), ..self }
    }

    /// Sets the target collection name.
    pub fn collection(self, collection: &str) -> (r: QueryBuilder)
        ensures
            r.query_type == self.query_type,
            r.collection matches Some(c) && c@ == collection@,
            r.comparison == self.comparison,
            r.key == self.key,
            r.value == self.value,
    {
        QueryBuilder { collection: Some(String::from_str(collection)), ..self }
    }

    /// Sets the comparison operator symbol; `=` is used when unset.
    pub fn comparison(self, comparison: &str) -> (r: QueryBuilder)
        ensures
            r.query_type == self.query_type,
            r.collection == self.collection,
            r.comparison matches Some(c) && c@ == comparison@,
            r.key == self.key,
            r.value == self.value,
    {
        QueryBuilder { comparison: Some(String::from_str(comparison)), ..self }
    }

    /// Sets a string comparison value.
    pub fn string(self, value: &str) -> (r: QueryBuilder)
        ensures
            r.query_type == self.query_type,
            r.collection == self.collection,
            r.comparison == self.comparison,
            r.key == self.key,
            r.value matches Some(v) && v matches Value::String(s) && s@ == value@,
    {
        QueryBuilder { value: Some(Value::String(String::from_str(value))), ..self }
    }

    /// Sets a boolean comparison value.
    pub fn bool(self, value: bool) -> (r: QueryBuilder)
        ensures
            r.query_type == self.query_type,
            r.collection == self.collection,
            r.comparison == self.comparison,
            r.key == self.key,
            r.value == Some(Value::Boolean(value)),
    {
        QueryBuilder { value: Some(Value::Boolean(value)), ..self }
    }

    /// Sets a fixed-point decimal comparison value.
    pub fn float(self, value: crate::value::Decimal) -> (r: QueryBuilder)
        ensures
            r.query_type == self.query_type,
            r.collection == self.collection,
            r.comparison == self.comparison,
            r.key == self.key,
            r.value == Some(Value::Float(value)),
    {
        QueryBuilder { value: Some(Value::Float(value)), ..self }
    }

    /// Sets an integer comparison value.
    pub fn integer(self, value: i32) -> (r: QueryBuilder)
        ensures
            r.query_type == self.query_type,
            r.collection == self.collection,
            r.comparison == self.comparison,
            r.key == self.key,
            r.value == Some(Value::Integer(value)),
    {
        QueryBuilder { value: Some(Value::Integer(value)), ..self }
    }

    /// Sets the dotted key path for nested-object queries.
    pub fn key(self, key: &str) -> (r: QueryBuilder)
        ensures
            r.query_type == self.query_type,
            r.collection == self.collection,
            r.comparison == self.comparison,
            r.key matches Some(k) && k@ == key@,
            r.value == self.value,
    {
        QueryBuilder { key: Some(String::from_str(key)), ..self }
    }

    /// Closes the builder.  Yields the immutable query when every mandatory
    /// field is present, and `IncompleteQuery` otherwise.  The contract
    /// holds of every builder value, whatever combination of setters was
    /// called — including none — so finishing can never abort.
    pub fn finish(self) -> (r: Result<Query, Error>)
        ensures
            r is Ok <==> builder_complete(self),
            !builder_complete(self) ==> r == Err::<Query, Error>(Error::IncompleteQuery),
            r matches Ok(q) ==> {
                &&& Some(q.query_type) == self.query_type
                &&& Some(q.collection) == self.collection
                &&& (match self.comparison {
                    Some(c) => q.comparison == c,
                    None => q.comparison@ == "="@,
                })
                &&& q.key == self.key
                &&& Some(q.value) == self.value
                &&& query_wf(q)
            },
    {
        let QueryBuilder { query_type, collection, comparison, key, value } = self;
        match (query_type, collection, value) {
            (Some(query_type), Some(collection), Some(value)) => {
                if matches!(query_type, QueryKind::Object) && matches!(key, None) {
                    return Err(Error::IncompleteQuery);
                }
                let comparison = match comparison {
                    Some(c) => {
                        if !is_comparison_operator(c.as_str()) {
                            return Err(Error::IncompleteQuery);
                        }
                        c
                    },
                    None => {
                        let eq = String::from_str("=");
                        proof {
                            reveal_strlit("=");
                        }
                        eq
                    },
                };
                Ok(Query { query_type, collection, comparison, key, value })
            },
            _ => Err(Error::IncompleteQuery),
        }
    }
}

} // verus!

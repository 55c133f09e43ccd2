use vstd::prelude::*;

verus! {

/// The kinds of failure the store surfaces to its callers.
///
/// Mutation failures are always propagated; only query execution downgrades
/// engine rejections to an empty result (the documented fail-soft contract).
#[derive(Debug)]
pub enum Error {
    /// The referenced collection is not registered with the store.
    NotFound,
    /// Collection creation collided with an existing name.
    AlreadyExists,
    /// A typed value could not be converted to document text.
    SerializationFailure,
    /// The backing engine rejected an operation; carries its diagnostic.
    BackendFailure(String),
    /// The query builder was finished without its mandatory fields.
    IncompleteQuery,
    /// Strict-mode query execution could not produce a result: the query
    /// was untranslatable or the engine rejected the predicate; carries the
    /// diagnostic.  The fail-soft path downgrades these to an empty result.
    QueryFailed(String),
    /// A collection name, index name, dotted key, or comparison operator
    /// fell outside the safe character set accepted for splicing into
    /// statement text.
    InvalidName,
}

} // verus!

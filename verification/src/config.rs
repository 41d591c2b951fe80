//! Configuration-declared specifications.
//!
//! A configuration source supplies an ordered list of transformation specs
//! and an ordered list of query specs; loading and parsing the file is an
//! external concern, and the surrounding driver hands the engines these
//! plain values.

use vstd::prelude::*;

verus! {

/// A named transformation: the rule token selects the behaviour the
/// transformation engine applies.
pub struct Transformation {
    /// The spec's configured name.
    pub name: String,
    /// A human-readable description; the engines never read it.
    pub description: String,
    /// The rule token.
    pub rule: String,
}

/// A named read query for the export engine. The statement is static,
/// trusted configuration text.
pub struct Query {
    /// The spec's configured name.
    pub name: String,
    /// A human-readable description; the engines never read it.
    pub description: String,
    /// The SQL text to prepare and run.
    pub sql: String,
}

/// A whole configuration: the transformation specs and the query specs, in
/// their configured order.
pub struct Config {
    /// The transformation specs.
    pub transformations: Vec<Transformation>,
    /// The query specs.
    pub queries: Vec<Query>,
}

} // verus!

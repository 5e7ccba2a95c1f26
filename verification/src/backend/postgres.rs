//! The PostgreSQL dialect.

use vstd::prelude::*;

pub mod alter;
pub mod column_type;
pub mod foreign_key;
pub mod query;
pub mod table;

verus! {

/// Renders statements in the words of PostgreSQL.
#[derive(Clone, Copy, Debug)]
pub struct PostgresQueryBuilder;

/// The character that encloses identifiers.
pub open spec fn quote_char() -> char {
    '"'
}

impl PostgresQueryBuilder {
    /// The character that encloses identifiers.
    pub fn quote(&self) -> (q: char)
        ensures
            q == quote_char(),
    {
        '"'
    }
}

} // verus!

//! Renders table definitions and alterations as PostgreSQL text.
//!
//! A statement is described by plain data: column types ([`types`]), column
//! definitions and table alterations ([`table`]), foreign keys
//! ([`foreign_key`]) and default values ([`expr`]). The renderer in
//! [`backend::postgres`] appends the text of such a description to a sink
//! ([`writer`]). What it writes is fixed by ghost functions that map each
//! description to its text, or to the reason why it has none; every
//! rendering function is proved to append exactly that text, and to leave
//! the sink untouched where it refuses.

pub mod backend;
pub mod error;
pub mod expr;
pub mod foreign_key;
pub mod ident;
pub mod list;
pub mod numeral;
pub mod table;
pub mod types;
pub mod writer;

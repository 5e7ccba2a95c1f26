//! The dialects that statements can be rendered in.

pub mod postgres;

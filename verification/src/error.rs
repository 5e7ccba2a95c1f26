//! The reasons why a statement is refused.

use vstd::prelude::*;
use vstd::string::StringExecFns;
use crate::types::TypeName;

verus! {

/// Why a statement could not be rendered.
///
/// Every failure aborts the render at once: nothing reaches the sink.
#[derive(Clone, Copy, Debug, PartialEq, Eq, Structural)]
pub enum RenderError {
    /// The named column type has no counterpart in the dialect.
    UnsupportedType(TypeName),
    /// The named column type cannot be an auto-increment column.
    UnsupportedAutoIncrement(TypeName),
    /// A table alteration that asks for no change at all.
    NoAlterOption,
}

impl RenderError {
    /// The diagnostic text of the error.
    pub open spec fn message_text(self) -> Seq<char> {
        match self {
            RenderError::UnsupportedType(name) => name.text() + " is not available in Postgres."@,
            RenderError::UnsupportedAutoIncrement(name) => name.text()
                + " doesn't support auto increment"@,
            RenderError::NoAlterOption => "No alter option found"@,
        }
    }

    /// Names the offending type and says why rendering stopped.
    pub fn message(&self) -> (msg: String)
        ensures
            msg@ == self.message_text(),
    {
        match self {
            RenderError::UnsupportedType(name) => {
                String::from_str(name.as_str()).concat(" is not available in Postgres.")
            },
            RenderError::UnsupportedAutoIncrement(name) => {
                String::from_str(name.as_str()).concat(" doesn't support auto increment")
            },
            RenderError::NoAlterOption => String::from_str("No alter option found"),
        }
    }
}

} // verus!

//! Foreign key constraints.

use vstd::prelude::*;
use crate::types::TableRef;

verus! {

/// What happens to a referencing row when the row it refers to changes.
#[derive(Clone, Copy, Debug, PartialEq, Eq, Structural)]
pub enum ForeignKeyAction {
    Restrict,
    Cascade,
    SetNull,
    NoAction,
    SetDefault,
}

/// A foreign key constraint.
#[derive(Clone, Debug, PartialEq, Eq)]
pub struct TableForeignKey {
    /// The name of the constraint.
    pub name: Option<String>,
    /// The table that holds the referencing columns.
    pub table: Option<TableRef>,
    /// The table that is referred to.
    pub ref_table: Option<TableRef>,
    /// The referencing columns.
    pub columns: Vec<String>,
    /// The columns referred to, in the order of `columns`.
    pub ref_columns: Vec<String>,
    /// The action on deletion of the row referred to.
    pub on_delete: Option<ForeignKeyAction>,
    /// The action on update of the row referred to.
    pub on_update: Option<ForeignKeyAction>,
}

impl TableForeignKey {
    /// A foreign key without name, tables, columns or actions.
    pub fn new() -> (foreign_key: TableForeignKey)
        ensures
            foreign_key.name is None,
            foreign_key.table is None,
            foreign_key.ref_table is None,
            foreign_key.columns@.len() == 0,
            foreign_key.ref_columns@.len() == 0,
            foreign_key.on_delete is None,
            foreign_key.on_update is None,
    {
        TableForeignKey {
            name: None,
            table: None,
            ref_table: None,
            columns: Vec::new(),
            ref_columns: Vec::new(),
            on_delete: None,
            on_update: None,
        }
    }
}

/// Where a foreign key clause stands.
#[derive(Clone, Copy, Debug, PartialEq, Eq, Structural)]
pub enum Mode {
    /// Inside the definition of a new table.
    Creation,
    /// A statement of its own, which alters the table.
    Alter,
    /// One of the options of a table alteration.
    TableAlter,
}

} // verus!

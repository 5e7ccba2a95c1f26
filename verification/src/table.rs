//! Column definitions and statements on tables.

use vstd::prelude::*;
use crate::expr::Expr;
use crate::foreign_key::TableForeignKey;
use crate::types::{ColumnType, TableRef};

verus! {

/// One constraint or attribute of a column.
#[derive(Clone, Debug, PartialEq, Eq)]
pub enum ColumnSpec {
    /// The column may hold the absent value.
    Null,
    /// The column never holds the absent value.
    NotNull,
    /// The value of the column where a row gives none.
    Default(Expr),
    /// The column draws its values from a generator.
    AutoIncrement,
    /// No two rows agree on the column.
    UniqueKey,
    /// The column identifies the row.
    PrimaryKey,
    /// Text handed to the database as it is.
    Extra(String),
}

/// The definition of a column: its name, its type and its specifications in order.
#[derive(Clone, Debug, PartialEq, Eq)]
pub struct ColumnDef {
    pub name: String,
    pub types: Option<ColumnType>,
    pub spec: Vec<ColumnSpec>,
}

/// A column to add to a table.
#[derive(Clone, Debug, PartialEq, Eq)]
pub struct AddColumnOption {
    pub column: ColumnDef,
    pub if_not_exists: bool,
}

/// One change to a table.
#[derive(Clone, Debug, PartialEq, Eq)]
pub enum TableAlterOption {
    AddColumn(AddColumnOption),
    ModifyColumn(ColumnDef),
    /// Renames the first column to the second name.
    RenameColumn(String, String),
    DropColumn(String),
    AddForeignKey(TableForeignKey),
    /// Drops the foreign key constraint of the given name.
    DropForeignKey(String),
}

/// Changes to one table, applied in order.
#[derive(Clone, Debug, PartialEq, Eq)]
pub struct TableAlterStatement {
    pub table: Option<TableRef>,
    pub options: Vec<TableAlterOption>,
}

/// A new name for a table.
#[derive(Clone, Debug, PartialEq, Eq)]
pub struct TableRenameStatement {
    pub from_name: Option<TableRef>,
    pub to_name: Option<TableRef>,
}

impl ColumnDef {
    /// Whether the specifications hold an auto-increment marker.
    pub open spec fn spec_is_auto_increment(&self) -> bool {
        exists|i: int| 0 <= i < self.spec@.len() && #[trigger] self.spec@[i] is AutoIncrement
    }

    /// Whether the specifications hold an auto-increment marker.
    #[verifier::when_used_as_spec(spec_is_auto_increment)]
    pub fn is_auto_increment(&self) -> (found: bool)
        ensures
            found == self.spec_is_auto_increment(),
    {
        let n: usize = self.spec.len();
        for i in 0..n
            invariant
                n == self.spec@.len(),
                forall|j: int| 0 <= j < i ==> !(#[trigger] self.spec@[j] is AutoIncrement),
        {
            if let ColumnSpec::AutoIncrement = &self.spec[i] {
                return true;
            }
        }
        false
    }
}

} // verus!

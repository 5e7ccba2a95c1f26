//! Identifiers, table references and default-value expressions.

use vstd::prelude::*;
use crate::backend::postgres::{quote_char, PostgresQueryBuilder};
use crate::expr::Expr;
use crate::ident::{quoted, write_quoted};
use crate::numeral::{signed_decimal, write_signed_decimal};
use crate::types::TableRef;
use crate::writer::SqlWriter;

verus! {

/// The text of a default-value expression.
pub open spec fn expr_text(expr: Expr) -> Seq<char> {
    match expr {
        Expr::Null => "NULL"@,
        Expr::Bool(b) => if b {
            "TRUE"@
        } else {
            "FALSE"@
        },
        Expr::Int(i) => signed_decimal(i as int),
        Expr::Custom(text) => text@,
    }
}

/// The text of an identifier: the name in quotes.
pub open spec fn iden_text(name: Seq<char>) -> Seq<char> {
    quoted(name, quote_char())
}

/// The text of a table reference: its quoted parts, joined by dots.
pub open spec fn table_ref_text(table: TableRef) -> Seq<char> {
    match table {
        TableRef::Table(name) => iden_text(name@),
        TableRef::SchemaTable(schema, name) => iden_text(schema@) + "."@ + iden_text(name@),
        TableRef::DatabaseSchemaTable(database, schema, name) => iden_text(database@) + "."@
            + iden_text(schema@) + "."@ + iden_text(name@),
    }
}

impl PostgresQueryBuilder {
    /// Writes `name` as a quoted identifier.
    pub fn prepare_iden<W: SqlWriter>(&self, name: &str, sql: &mut W)
        ensures
            final(sql).text() == old(sql).text() + iden_text(name@),
    {
        write_quoted(sql, name, self.quote());
    }

    /// Writes a default-value expression.
    pub fn prepare_simple_expr<W: SqlWriter>(&self, expr: &Expr, sql: &mut W)
        ensures
            final(sql).text() == old(sql).text() + expr_text(*expr),
    {
        match expr {
            Expr::Null => sql.write_str("NULL"),
            Expr::Bool(b) => if *b {
                sql.write_str("TRUE")
            } else {
                sql.write_str("FALSE")
            },
            Expr::Int(i) => write_signed_decimal(sql, *i),
            Expr::Custom(text) => sql.write_str(text.as_str()),
        }
    }

    /// Writes a table reference in a statement on tables.
    pub fn prepare_table_ref_table_stmt<W: SqlWriter>(&self, table_ref: &TableRef, sql: &mut W)
        ensures
            final(sql).text() == old(sql).text() + table_ref_text(*table_ref),
    {
        match table_ref {
            TableRef::Table(name) => self.prepare_iden(name.as_str(), sql),
            TableRef::SchemaTable(schema, name) => {
                self.prepare_iden(schema.as_str(), sql);
                sql.write_str(".");
                self.prepare_iden(name.as_str(), sql);
            },
            TableRef::DatabaseSchemaTable(database, schema, name) => {
                self.prepare_iden(database.as_str(), sql);
                sql.write_str(".");
                self.prepare_iden(schema.as_str(), sql);
                sql.write_str(".");
                self.prepare_iden(name.as_str(), sql);
            },
        }
    }
}

} // verus!

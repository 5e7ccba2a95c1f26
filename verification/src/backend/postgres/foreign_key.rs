//! Foreign key clauses.

use vstd::prelude::*;
use crate::backend::postgres::query::{iden_text, table_ref_text};
use crate::backend::postgres::PostgresQueryBuilder;
use crate::foreign_key::{ForeignKeyAction, Mode, TableForeignKey};
use crate::list::{joined, lemma_joined_push, CommaList};
use crate::types::TableRef;
use crate::writer::SqlWriter;

verus! {

/// The words of a foreign key action.
pub open spec fn foreign_key_action_text(action: ForeignKeyAction) -> Seq<char> {
    match action {
        ForeignKeyAction::Restrict => "RESTRICT"@,
        ForeignKeyAction::Cascade => "CASCADE"@,
        ForeignKeyAction::SetNull => "SET NULL"@,
        ForeignKeyAction::NoAction => "NO ACTION"@,
        ForeignKeyAction::SetDefault => "SET DEFAULT"@,
    }
}

/// Each of `names` as a quoted identifier.
pub open spec fn iden_texts(names: Seq<String>) -> Seq<Seq<char>> {
    Seq::new(names.len(), |i: int| iden_text(names[i]@))
}

/// The quoted `names`, separated by commas.
pub open spec fn iden_list_text(names: Seq<String>) -> Seq<char> {
    joined(iden_texts(names), ", "@)
}

/// A table reference where there is one, else nothing.
pub open spec fn optional_table_text(table: Option<TableRef>) -> Seq<char> {
    match table {
        Some(t) => table_ref_text(t),
        None => Seq::empty(),
    }
}

/// What leads a foreign key clause that is a statement of its own:
/// `ALTER TABLE`, the table and a space. Elsewhere nothing leads it.
pub open spec fn alter_table_lead(table: Option<TableRef>, mode: Mode) -> Seq<char> {
    if mode is Alter {
        "ALTER TABLE "@ + optional_table_text(table) + " "@
    } else {
        Seq::empty()
    }
}

/// The constraint's name in a clause that adds it; nothing for a nameless one.
pub open spec fn constraint_name_text(name: Option<String>) -> Seq<char> {
    match name {
        Some(n) => "CONSTRAINT "@ + iden_text(n@) + " "@,
        None => Seq::empty(),
    }
}

/// The action clauses of a foreign key: on deletion first, then on update.
pub open spec fn foreign_key_actions_text(
    on_delete: Option<ForeignKeyAction>,
    on_update: Option<ForeignKeyAction>,
) -> Seq<char> {
    (match on_delete {
        Some(action) => " ON DELETE "@ + foreign_key_action_text(action),
        None => Seq::empty(),
    }) + (match on_update {
        Some(action) => " ON UPDATE "@ + foreign_key_action_text(action),
        None => Seq::empty(),
    })
}

/// How a clause that adds a foreign key begins in `mode`: what leads it,
/// `ADD` unless a new table is being defined, and the constraint's name.
pub open spec fn foreign_key_opening_text(foreign_key: TableForeignKey, mode: Mode) -> Seq<char> {
    alter_table_lead(foreign_key.table, mode) + (if mode is Creation {
        Seq::empty()
    } else {
        "ADD "@
    }) + constraint_name_text(foreign_key.name)
}

/// The referencing columns of a foreign key, in parentheses.
pub open spec fn foreign_key_columns_text(columns: Seq<String>) -> Seq<char> {
    "FOREIGN KEY ("@ + iden_list_text(columns) + ")"@
}

/// The table and the columns that a foreign key refers to.
pub open spec fn foreign_key_references_text(
    ref_table: Option<TableRef>,
    ref_columns: Seq<String>,
) -> Seq<char> {
    " REFERENCES "@ + optional_table_text(ref_table) + " ("@ + iden_list_text(ref_columns) + ")"@
}

/// The clause that adds the foreign key `foreign_key`, as it stands in `mode`.
pub open spec fn foreign_key_create_text(foreign_key: TableForeignKey, mode: Mode) -> Seq<char> {
    foreign_key_opening_text(foreign_key, mode) + foreign_key_columns_text(foreign_key.columns@)
        + foreign_key_references_text(foreign_key.ref_table, foreign_key.ref_columns@)
        + foreign_key_actions_text(foreign_key.on_delete, foreign_key.on_update)
}

/// The clause that drops the foreign key called `name` from `table`, as it
/// stands in `mode`.
pub open spec fn foreign_key_drop_text(
    name: Option<String>,
    table: Option<TableRef>,
    mode: Mode,
) -> Seq<char> {
    alter_table_lead(table, mode) + "DROP CONSTRAINT "@ + (match name {
        Some(n) => iden_text(n@),
        None => Seq::empty(),
    })
}

impl PostgresQueryBuilder {
    /// Writes the words of a foreign key action.
    pub fn prepare_foreign_key_action<W: SqlWriter>(&self, action: &ForeignKeyAction, sql: &mut W)
        ensures
            final(sql).text() == old(sql).text() + foreign_key_action_text(*action),
    {
        sql.write_str(
            match action {
                ForeignKeyAction::Restrict => "RESTRICT",
                ForeignKeyAction::Cascade => "CASCADE",
                ForeignKeyAction::SetNull => "SET NULL",
                ForeignKeyAction::NoAction => "NO ACTION",
                ForeignKeyAction::SetDefault => "SET DEFAULT",
            },
        );
    }

    /// Writes `names` as quoted identifiers, separated by commas.
    pub fn prepare_iden_list<W: SqlWriter>(&self, names: &Vec<String>, sql: &mut W)
        ensures
            final(sql).text() == old(sql).text() + iden_list_text(names@),
    {
        let ghost head = sql.text();
        let mut list = CommaList::new();
        let n: usize = names.len();
        for i in 0..n
            invariant
                n == names@.len(),
                list.started() == (i > 0),
                sql.text() == head + joined(iden_texts(names@.take(i as int)), ", "@),
        {
            proof {
                lemma_joined_push(
                    iden_texts(names@.take(i as int)),
                    iden_text(names@[i as int]@),
                    ", "@,
                );
                assert(iden_texts(names@.take(i + 1)) == iden_texts(names@.take(i as int)).push(
                    iden_text(names@[i as int]@),
                ));
            }
            list.next_clause(sql);
            self.prepare_iden(names[i].as_str(), sql);
        }
        proof {
            assert(names@.take(n as int) == names@);
        }
    }

    /// Writes what leads a foreign key clause in `mode`.
    fn prepare_alter_table_lead<W: SqlWriter>(
        &self,
        table: &Option<TableRef>,
        sql: &mut W,
        mode: Mode,
    )
        ensures
            final(sql).text() == old(sql).text() + alter_table_lead(*table, mode),
    {
        if let Mode::Alter = mode {
            sql.write_str("ALTER TABLE ");
            if let Some(table) = table {
                self.prepare_table_ref_table_stmt(table, sql);
            }
            sql.write_str(" ");
        }
    }

    /// Writes how a clause that adds a foreign key begins in `mode`.
    fn prepare_foreign_key_opening<W: SqlWriter>(
        &self,
        foreign_key: &TableForeignKey,
        sql: &mut W,
        mode: Mode,
    )
        ensures
            final(sql).text() == old(sql).text() + foreign_key_opening_text(*foreign_key, mode),
    {
        self.prepare_alter_table_lead(&foreign_key.table, sql, mode);
        if let Mode::Creation = mode {
        } else {
            sql.write_str("ADD ");
        }
        if let Some(name) = &foreign_key.name {
            sql.write_str("CONSTRAINT ");
            self.prepare_iden(name.as_str(), sql);
            sql.write_str(" ");
        }
    }

    /// Writes the referencing columns of a foreign key.
    fn prepare_foreign_key_columns<W: SqlWriter>(&self, columns: &Vec<String>, sql: &mut W)
        ensures
            final(sql).text() == old(sql).text() + foreign_key_columns_text(columns@),
    {
        sql.write_str("FOREIGN KEY (");
        self.prepare_iden_list(columns, sql);
        sql.write_str(")");
    }

    /// Writes the table and the columns that a foreign key refers to.
    fn prepare_foreign_key_references<W: SqlWriter>(
        &self,
        ref_table: &Option<TableRef>,
        ref_columns: &Vec<String>,
        sql: &mut W,
    )
        ensures
            final(sql).text() == old(sql).text() + foreign_key_references_text(
                *ref_table,
                ref_columns@,
            ),
    {
        sql.write_str(" REFERENCES ");
        if let Some(ref_table) = ref_table {
            self.prepare_table_ref_table_stmt(ref_table, sql);
        }
        sql.write_str(" (");
        self.prepare_iden_list(ref_columns, sql);
        sql.write_str(")");
    }

    /// Writes the action clauses of a foreign key.
    fn prepare_foreign_key_actions<W: SqlWriter>(
        &self,
        on_delete: &Option<ForeignKeyAction>,
        on_update: &Option<ForeignKeyAction>,
        sql: &mut W,
    )
        ensures
            final(sql).text() == old(sql).text() + foreign_key_actions_text(*on_delete, *on_update),
    {
        if let Some(action) = on_delete {
            sql.write_str(" ON DELETE ");
            self.prepare_foreign_key_action(action, sql);
        }
        if let Some(action) = on_update {
            sql.write_str(" ON UPDATE ");
            self.prepare_foreign_key_action(action, sql);
        }
    }

    /// Writes the clause that adds a foreign key, as it stands in `mode`.
    pub fn prepare_foreign_key_create_statement_internal<W: SqlWriter>(
        &self,
        foreign_key: &TableForeignKey,
        sql: &mut W,
        mode: Mode,
    )
        ensures
            final(sql).text() == old(sql).text() + foreign_key_create_text(*foreign_key, mode),
    {
        self.prepare_foreign_key_opening(foreign_key, sql, mode);
        self.prepare_foreign_key_columns(&foreign_key.columns, sql);
        self.prepare_foreign_key_references(&foreign_key.ref_table, &foreign_key.ref_columns, sql);
        self.prepare_foreign_key_actions(&foreign_key.on_delete, &foreign_key.on_update, sql);
    }

    /// Writes the clause that drops a foreign key, as it stands in `mode`.
    pub fn prepare_foreign_key_drop_statement_internal<W: SqlWriter>(
        &self,
        foreign_key: &TableForeignKey,
        sql: &mut W,
        mode: Mode,
    )
        ensures
            final(sql).text() == old(sql).text() + foreign_key_drop_text(
                foreign_key.name,
                foreign_key.table,
                mode,
            ),
    {
        self.prepare_alter_table_lead(&foreign_key.table, sql, mode);
        sql.write_str("DROP CONSTRAINT ");
        if let Some(name) = &foreign_key.name {
            self.prepare_iden(name.as_str(), sql);
        }
    }
}

} // verus!

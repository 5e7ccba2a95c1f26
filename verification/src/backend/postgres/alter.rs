//! Table alterations and renamings.

use vstd::prelude::*;
use crate::backend::postgres::column_type::lemma_refused_only_for_year;
use crate::backend::postgres::foreign_key::{
    foreign_key_create_text,
    foreign_key_drop_text,
    optional_table_text,
};
use crate::backend::postgres::query::{expr_text, iden_text, table_ref_text};
use crate::backend::postgres::table::{
    column_def_text,
    type_clause_text,
    without_auto_increment,
};
use crate::backend::postgres::PostgresQueryBuilder;
use crate::error::RenderError;
use crate::expr::Expr;
use crate::foreign_key::{Mode, TableForeignKey};
use crate::list::{joined, lemma_joined_push, CommaList};
use crate::table::{
    AddColumnOption,
    ColumnDef,
    ColumnSpec,
    TableAlterOption,
    TableAlterStatement,
    TableRenameStatement,
};
use crate::writer::SqlWriter;

verus! {

/// The clause that brings one specification to the existing column `name`.
/// An auto-increment marker brings nothing.
pub open spec fn modify_spec_clause(name: Seq<char>, column_spec: ColumnSpec) -> Seq<char> {
    match column_spec {
        ColumnSpec::AutoIncrement => Seq::empty(),
        ColumnSpec::Null => "ALTER COLUMN "@ + iden_text(name) + " DROP NOT NULL"@,
        ColumnSpec::NotNull => "ALTER COLUMN "@ + iden_text(name) + " SET NOT NULL"@,
        ColumnSpec::Default(value) => "ALTER COLUMN "@ + iden_text(name) + " SET DEFAULT "@
            + expr_text(value),
        ColumnSpec::UniqueKey => "ADD UNIQUE ("@ + iden_text(name) + ")"@,
        ColumnSpec::PrimaryKey => "ADD PRIMARY KEY ("@ + iden_text(name) + ")"@,
        ColumnSpec::Extra(text) => text@,
    }
}

/// The clauses for the specifications of a modified column, one for each
/// in their order. Auto-increment markers are passed over.
pub open spec fn modify_spec_clauses(name: Seq<char>, specs: Seq<ColumnSpec>) -> Seq<Seq<char>>
    decreases specs.len(),
{
    if specs.len() == 0 {
        Seq::empty()
    } else if specs.last() is AutoIncrement {
        modify_spec_clauses(name, specs.drop_last())
    } else {
        modify_spec_clauses(name, specs.drop_last()).push(modify_spec_clause(name, specs.last()))
    }
}

/// The clause that gives a modified column its new type.
pub open spec fn modify_type_clause(column_def: ColumnDef) -> Result<Seq<char>, RenderError> {
    match type_clause_text(column_def) {
        Ok(clause) => Ok("ALTER COLUMN "@ + iden_text(column_def.name@) + " TYPE"@ + clause),
        Err(e) => Err(e),
    }
}

/// The clauses of a column modification: the type clause where a type is
/// declared, then the clauses for the specifications.
pub open spec fn modify_column_clauses(column_def: ColumnDef) -> Result<
    Seq<Seq<char>>,
    RenderError,
> {
    if column_def.types is Some {
        match modify_type_clause(column_def) {
            Ok(clause) => Ok(
                seq![clause] + modify_spec_clauses(column_def.name@, column_def.spec@),
            ),
            Err(e) => Err(e),
        }
    } else {
        Ok(modify_spec_clauses(column_def.name@, column_def.spec@))
    }
}

/// The text of a column modification: its clauses, separated by commas.
pub open spec fn modify_column_text(column_def: ColumnDef) -> Result<Seq<char>, RenderError> {
    match modify_column_clauses(column_def) {
        Ok(clauses) => Ok(joined(clauses, ", "@)),
        Err(e) => Err(e),
    }
}

/// The text of a column addition.
pub open spec fn add_column_text(option: AddColumnOption) -> Result<Seq<char>, RenderError> {
    match column_def_text(option.column) {
        Ok(text) => Ok(
            "ADD COLUMN "@ + (if option.if_not_exists {
                "IF NOT EXISTS "@
            } else {
                Seq::empty()
            }) + text,
        ),
        Err(e) => Err(e),
    }
}

/// The text of one option of a table alteration.
pub open spec fn alter_option_text(option: TableAlterOption) -> Result<Seq<char>, RenderError> {
    match option {
        TableAlterOption::AddColumn(add) => add_column_text(add),
        TableAlterOption::ModifyColumn(column_def) => modify_column_text(column_def),
        TableAlterOption::RenameColumn(from_name, to_name) => Ok(
            "RENAME COLUMN "@ + iden_text(from_name@) + " TO "@ + iden_text(to_name@),
        ),
        TableAlterOption::DropColumn(name) => Ok("DROP COLUMN "@ + iden_text(name@)),
        TableAlterOption::DropForeignKey(name) => Ok(
            foreign_key_drop_text(Some(name), None, Mode::TableAlter),
        ),
        TableAlterOption::AddForeignKey(foreign_key) => Ok(
            foreign_key_create_text(foreign_key, Mode::TableAlter),
        ),
    }
}

/// The texts of the options of a table alteration in their order, or the
/// error of the first option that has no text.
#[verifier::opaque]
pub open spec fn alter_option_texts(options: Seq<TableAlterOption>) -> Result<
    Seq<Seq<char>>,
    RenderError,
>
    decreases options.len(),
{
    if options.len() == 0 {
        Ok(Seq::empty())
    } else {
        match alter_option_texts(options.drop_last()) {
            Ok(texts) => match alter_option_text(options.last()) {
                Ok(text) => Ok(texts.push(text)),
                Err(e) => Err(e),
            },
            Err(e) => Err(e),
        }
    }
}

/// How a table alteration begins: `ALTER TABLE`, then the table and a space
/// where a table is named.
pub open spec fn alter_table_opening(alter: TableAlterStatement) -> Seq<char> {
    "ALTER TABLE "@ + (match alter.table {
        Some(table) => table_ref_text(table) + " "@,
        None => Seq::empty(),
    })
}

/// The text of a table alteration: the opening, then the options separated
/// by commas. An alteration without options has no text.
pub open spec fn table_alter_text(alter: TableAlterStatement) -> Result<Seq<char>, RenderError> {
    if alter.options@.len() == 0 {
        Err(RenderError::NoAlterOption)
    } else {
        match alter_option_texts(alter.options@) {
            Ok(texts) => Ok(alter_table_opening(alter) + joined(texts, ", "@)),
            Err(e) => Err(e),
        }
    }
}

/// The text of a table renaming. A name that the statement lacks leaves
/// its place empty.
pub open spec fn table_rename_text(rename: TableRenameStatement) -> Seq<char> {
    "ALTER TABLE "@ + optional_table_text(rename.from_name) + " RENAME TO "@ + optional_table_text(
        rename.to_name,
    )
}

/// What one more option adds to the options before it: its text, behind a
/// comma unless it is the first; or its error, which is then the error of
/// the whole run.
proof fn lemma_alter_options_step(options: Seq<TableAlterOption>, i: int)
    requires
        0 <= i < options.len(),
        alter_option_texts(options.take(i)) is Ok,
    ensures
        alter_option_texts(options.take(i))->Ok_0.len() == i,
        match alter_option_text(options[i]) {
            Ok(text) => {
                &&& alter_option_texts(options.take(i + 1)) is Ok
                &&& joined(alter_option_texts(options.take(i + 1))->Ok_0, ", "@) == if i == 0 {
                    text
                } else {
                    joined(alter_option_texts(options.take(i))->Ok_0, ", "@) + ", "@ + text
                }
            },
            Err(e) => alter_option_texts(options) == Err::<Seq<Seq<char>>, RenderError>(e),
        },
{
    reveal(alter_option_texts);
    lemma_alter_option_texts_len(options.take(i));
    assert(options.take(i + 1).drop_last() == options.take(i));
    match alter_option_text(options[i]) {
        Ok(text) => {
            lemma_joined_push(alter_option_texts(options.take(i))->Ok_0, text, ", "@);
        },
        Err(e) => {
            lemma_first_error_stays(options, i, options.len() as int);
            assert(options.take(options.len() as int) == options);
        },
    }
}

/// Options that all have a text have one text each.
proof fn lemma_alter_option_texts_len(options: Seq<TableAlterOption>)
    requires
        alter_option_texts(options) is Ok,
    ensures
        alter_option_texts(options)->Ok_0.len() == options.len(),
    decreases options.len(),
{
    reveal(alter_option_texts);
    if options.len() > 0 {
        lemma_alter_option_texts_len(options.drop_last());
    }
}

/// Once an option has no text, no longer run of options has one: the error
/// of the first such option is the error of every run that holds it.
proof fn lemma_first_error_stays(options: Seq<TableAlterOption>, i: int, k: int)
    requires
        0 <= i < k <= options.len(),
        alter_option_texts(options.take(i)) is Ok,
        alter_option_text(options[i]) is Err,
    ensures
        alter_option_texts(options.take(k)) == Err::<Seq<Seq<char>>, RenderError>(
            alter_option_text(options[i])->Err_0,
        ),
    decreases k,
{
    reveal(alter_option_texts);
    assert(options.take(k).drop_last() == options.take(k - 1));
    if k > i + 1 {
        lemma_first_error_stays(options, i, k - 1);
    }
}

impl PostgresQueryBuilder {
    /// Writes the clause that brings one specification to the existing
    /// column `name`; nothing for an auto-increment marker.
    fn prepare_modify_spec_clause<W: SqlWriter>(
        &self,
        name: &str,
        column_spec: &ColumnSpec,
        sql: &mut W,
    )
        ensures
            final(sql).text() == old(sql).text() + modify_spec_clause(name@, *column_spec),
    {
        match column_spec {
            ColumnSpec::AutoIncrement => {},
            ColumnSpec::Null => {
                sql.write_str("ALTER COLUMN ");
                self.prepare_iden(name, sql);
                sql.write_str(" DROP NOT NULL");
            },
            ColumnSpec::NotNull => {
                sql.write_str("ALTER COLUMN ");
                self.prepare_iden(name, sql);
                sql.write_str(" SET NOT NULL");
            },
            ColumnSpec::Default(value) => {
                sql.write_str("ALTER COLUMN ");
                self.prepare_iden(name, sql);
                sql.write_str(" SET DEFAULT ");
                self.prepare_simple_expr(value, sql);
            },
            ColumnSpec::UniqueKey => {
                sql.write_str("ADD UNIQUE (");
                self.prepare_iden(name, sql);
                sql.write_str(")");
            },
            ColumnSpec::PrimaryKey => {
                sql.write_str("ADD PRIMARY KEY (");
                self.prepare_iden(name, sql);
                sql.write_str(")");
            },
            ColumnSpec::Extra(text) => sql.write_str(text.as_str()),
        }
    }

    /// Writes a column modification: one clause for the new type where one
    /// is declared, then one for each specification but the auto-increment
    /// marker. The first clause written has no comma before it, every later
    /// one has.
    ///
    /// A modification whose type cannot be shown is refused, and the sink is
    /// left as it was.
    pub fn prepare_modify_column<W: SqlWriter>(&self, column_def: &ColumnDef, sql: &mut W) -> (r:
        Result<(), RenderError>)
        ensures
            match modify_column_text(*column_def) {
                Ok(text) => r is Ok && final(sql).text() == old(sql).text() + text,
                Err(e) => r == Err::<(), RenderError>(e) && final(sql).text() == old(sql).text(),
            },
    {
        let ghost head = sql.text();
        let ghost mut lead: Seq<Seq<char>> = Seq::empty();
        let mut list = CommaList::new();
        if column_def.types.is_some() {
            let mut type_clause = String::new();
            match self.prepare_column_type_check_auto_increment(column_def, &mut type_clause) {
                Ok(()) => {},
                Err(e) => {
                    return Err(e);
                },
            }
            list.next_clause(sql);
            sql.write_str("ALTER COLUMN ");
            self.prepare_iden(column_def.name.as_str(), sql);
            sql.write_str(" TYPE");
            sql.write_str(type_clause.as_str());
            proof {
                lead = seq![modify_type_clause(*column_def)->Ok_0];
                assert(joined(lead, ", "@) == lead[0]);
            }
        }
        let n: usize = column_def.spec.len();
        for i in 0..n
            invariant
                n == column_def.spec@.len(),
                list.started() == (lead.len() + modify_spec_clauses(
                    column_def.name@,
                    column_def.spec@.take(i as int),
                ).len() > 0),
                sql.text() == head + joined(
                    lead + modify_spec_clauses(column_def.name@, column_def.spec@.take(i as int)),
                    ", "@,
                ),
        {
            let column_spec = &column_def.spec[i];
            proof {
                let done = modify_spec_clauses(column_def.name@, column_def.spec@.take(i as int));
                let clause = modify_spec_clause(column_def.name@, *column_spec);
                assert(column_def.spec@.take(i + 1).drop_last() == column_def.spec@.take(
                    i as int,
                ));
                assert((lead + done).push(clause) == lead + done.push(clause));
                lemma_joined_push(lead + done, clause, ", "@);
            }
            if let ColumnSpec::AutoIncrement = column_spec {
            } else {
                list.next_clause(sql);
                self.prepare_modify_spec_clause(column_def.name.as_str(), column_spec, sql);
            }
        }
        proof {
            assert(column_def.spec@.take(n as int) == column_def.spec@);
        }
        Ok(())
    }

    /// Writes one option of a table alteration.
    ///
    /// An option that holds a type that cannot be shown is refused, and the
    /// sink is left as it was.
    pub fn prepare_table_alter_option<W: SqlWriter>(
        &self,
        option: &TableAlterOption,
        sql: &mut W,
    ) -> (r: Result<(), RenderError>)
        ensures
            match alter_option_text(*option) {
                Ok(text) => r is Ok && final(sql).text() == old(sql).text() + text,
                Err(e) => r == Err::<(), RenderError>(e) && final(sql).text() == old(sql).text(),
            },
    {
        match option {
            TableAlterOption::AddColumn(add) => {
                let mut column = String::new();
                match self.prepare_column_def(&add.column, &mut column) {
                    Ok(()) => {},
                    Err(e) => {
                        return Err(e);
                    },
                }
                sql.write_str("ADD COLUMN ");
                if add.if_not_exists {
                    sql.write_str("IF NOT EXISTS ");
                }
                sql.write_str(column.as_str());
                Ok(())
            },
            TableAlterOption::ModifyColumn(column_def) => self.prepare_modify_column(
                column_def,
                sql,
            ),
            TableAlterOption::RenameColumn(from_name, to_name) => {
                sql.write_str("RENAME COLUMN ");
                self.prepare_iden(from_name.as_str(), sql);
                sql.write_str(" TO ");
                self.prepare_iden(to_name.as_str(), sql);
                Ok(())
            },
            TableAlterOption::DropColumn(name) => {
                sql.write_str("DROP COLUMN ");
                self.prepare_iden(name.as_str(), sql);
                Ok(())
            },
            TableAlterOption::DropForeignKey(name) => {
                let mut foreign_key = TableForeignKey::new();
                foreign_key.name = Some(name.clone());
                self.prepare_foreign_key_drop_statement_internal(
                    &foreign_key,
                    sql,
                    Mode::TableAlter,
                );
                Ok(())
            },
            TableAlterOption::AddForeignKey(foreign_key) => {
                self.prepare_foreign_key_create_statement_internal(
                    foreign_key,
                    sql,
                    Mode::TableAlter,
                );
                Ok(())
            },
        }
    }

    /// Writes a table alteration: `ALTER TABLE`, the table, then the options
    /// separated by commas.
    ///
    /// An alteration without options is refused, and so is one with an
    /// option that holds a type that cannot be shown: the error is that of
    /// the first such option. The sink is then left as it was.
    pub fn prepare_table_alter_statement<W: SqlWriter>(
        &self,
        alter: &TableAlterStatement,
        sql: &mut W,
    ) -> (r: Result<(), RenderError>)
        ensures
            match table_alter_text(*alter) {
                Ok(text) => r is Ok && final(sql).text() == old(sql).text() + text,
                Err(e) => r == Err::<(), RenderError>(e) && final(sql).text() == old(sql).text(),
            },
    {
        let n: usize = alter.options.len();
        if n == 0 {
            return Err(RenderError::NoAlterOption);
        }
        let mut statement = String::new();
        statement.write_str("ALTER TABLE ");
        if let Some(table) = &alter.table {
            self.prepare_table_ref_table_stmt(table, &mut statement);
            statement.write_str(" ");
        }
        let mut list = CommaList::new();
        proof {
            reveal(alter_option_texts);
            assert(alter_option_texts(alter.options@.take(0)) == Ok::<
                Seq<Seq<char>>,
                RenderError,
            >(Seq::empty()));
        }
        for i in 0..n
            invariant
                n == alter.options@.len(),
                list.started() == (i > 0),
                alter_option_texts(alter.options@.take(i as int)) is Ok,
                statement@ == alter_table_opening(*alter) + joined(
                    alter_option_texts(alter.options@.take(i as int))->Ok_0,
                    ", "@,
                ),
        {
            let ghost before = statement@;
            proof {
                lemma_alter_options_step(alter.options@, i as int);
            }
            list.next_clause(&mut statement);
            match self.prepare_table_alter_option(&alter.options[i], &mut statement) {
                Ok(()) => {
                    proof {
                        let done = joined(
                            alter_option_texts(alter.options@.take(i as int))->Ok_0,
                            ", "@,
                        );
                        let text = alter_option_text(alter.options@[i as int])->Ok_0;
                        if i == 0 {
                            assert(done + text == text);
                            assert(statement@ == alter_table_opening(*alter) + text);
                        } else {
                            assert(statement@ == alter_table_opening(*alter) + (done + ", "@
                                + text));
                        }
                    }
                },
                Err(e) => {
                    return Err(e);
                },
            }
        }
        proof {
            assert(alter.options@.take(n as int) == alter.options@);
        }
        sql.write_str(statement.as_str());
        Ok(())
    }

    /// Writes a table renaming. A name that the statement lacks leaves its
    /// place empty.
    pub fn prepare_table_rename_statement<W: SqlWriter>(
        &self,
        rename: &TableRenameStatement,
        sql: &mut W,
    )
        ensures
            final(sql).text() == old(sql).text() + table_rename_text(*rename),
    {
        sql.write_str("ALTER TABLE ");
        if let Some(from_name) = &rename.from_name {
            self.prepare_table_ref_table_stmt(from_name, sql);
        }
        sql.write_str(" RENAME TO ");
        if let Some(to_name) = &rename.to_name {
            self.prepare_table_ref_table_stmt(to_name, sql);
        }
    }
}

/// Options that have a text each have their texts in their order.
pub proof fn lemma_alter_option_texts_in_order(options: Seq<TableAlterOption>)
    requires
        forall|j: int| 0 <= j < options.len() ==> (#[trigger] alter_option_text(options[j])) is Ok,
    ensures
        alter_option_texts(options) is Ok,
        alter_option_texts(options)->Ok_0.len() == options.len(),
        forall|j: int|
            0 <= j < options.len() ==> #[trigger] alter_option_texts(options)->Ok_0[j]
                == alter_option_text(options[j])->Ok_0,
    decreases options.len(),
{
    reveal(alter_option_texts);
    if options.len() > 0 {
        assert forall|j: int| 0 <= j < options.drop_last().len() implies (
        #[trigger] alter_option_text(options.drop_last()[j])) is Ok by {
            assert(options.drop_last()[j] == options[j]);
        }
        lemma_alter_option_texts_in_order(options.drop_last());
        assert(alter_option_text(options[options.len() - 1]) is Ok);
        assert forall|j: int| 0 <= j < options.len() implies #[trigger] alter_option_texts(
            options,
        )->Ok_0[j] == alter_option_text(options[j])->Ok_0 by {
            if j < options.len() - 1 {
                assert(options.drop_last()[j] == options[j]);
            }
        }
    }
}

/// A table alteration whose options each have a text is written as its
/// opening and these texts, in their order and separated by commas.
pub proof fn lemma_alter_accepted(alter: TableAlterStatement)
    requires
        alter.options@.len() > 0,
        forall|j: int|
            0 <= j < alter.options@.len() ==> (#[trigger] alter_option_text(
                alter.options@[j],
            )) is Ok,
    ensures
        table_alter_text(alter) == Ok::<Seq<char>, RenderError>(
            alter_table_opening(alter) + joined(
                Seq::new(
                    alter.options@.len(),
                    |j: int| alter_option_text(alter.options@[j])->Ok_0,
                ),
                ", "@,
            ),
        ),
{
    lemma_alter_option_texts_in_order(alter.options@);
    assert(alter_option_texts(alter.options@)->Ok_0 == Seq::new(
        alter.options@.len(),
        |j: int| alter_option_text(alter.options@[j])->Ok_0,
    ));
}

/// A table alteration is refused with the error of the first of its options
/// that has no text.
pub proof fn lemma_first_failing_option_decides(alter: TableAlterStatement, i: int)
    requires
        0 <= i < alter.options@.len(),
        alter_option_text(alter.options@[i]) is Err,
        forall|j: int| 0 <= j < i ==> (#[trigger] alter_option_text(alter.options@[j])) is Ok,
    ensures
        table_alter_text(alter) == Err::<Seq<char>, RenderError>(
            alter_option_text(alter.options@[i])->Err_0,
        ),
{
    let options = alter.options@;
    assert forall|j: int| 0 <= j < options.take(i).len() implies (#[trigger] alter_option_text(
        options.take(i)[j],
    )) is Ok by {
        assert(options.take(i)[j] == options[j]);
    }
    lemma_alter_option_texts_in_order(options.take(i));
    lemma_first_error_stays(options, i, options.len() as int);
    assert(options.take(options.len() as int) == options);
}

/// No option is refused for want of options: an option is refused only for
/// a type that cannot be shown.
proof fn lemma_option_errors(options: Seq<TableAlterOption>)
    ensures
        alter_option_texts(options) is Err ==> alter_option_texts(options)->Err_0
            != RenderError::NoAlterOption,
    decreases options.len(),
{
    reveal(alter_option_texts);
    if options.len() > 0 {
        lemma_option_errors(options.drop_last());
        match options.last() {
            TableAlterOption::AddColumn(add) => {
                lemma_refused_only_for_year(add.column.types->0);
            },
            TableAlterOption::ModifyColumn(column_def) => {
                lemma_refused_only_for_year(column_def.types->0);
            },
            _ => {},
        }
    }
}

/// A table alteration is refused for want of options exactly where it has
/// none, whatever table it names.
pub proof fn lemma_empty_alter_refused(alter: TableAlterStatement)
    ensures
        table_alter_text(alter) == Err::<Seq<char>, RenderError>(RenderError::NoAlterOption)
            <==> alter.options@.len() == 0,
{
    lemma_option_errors(alter.options@);
}

/// Auto-increment markers take no place among the clauses of a column
/// modification: the clauses are those of the other specifications, one for
/// each.
pub proof fn lemma_modify_skips_auto_increment(name: Seq<char>, specs: Seq<ColumnSpec>)
    ensures
        modify_spec_clauses(name, specs) == modify_spec_clauses(
            name,
            without_auto_increment(specs),
        ),
        modify_spec_clauses(name, specs).len() == without_auto_increment(specs).len(),
    decreases specs.len(),
{
    reveal(Seq::filter);
    if specs.len() > 0 {
        lemma_modify_skips_auto_increment(name, specs.drop_last());
        if !(specs.last() is AutoIncrement) {
            let rest = without_auto_increment(specs.drop_last());
            assert(rest.push(specs.last()).drop_last() == rest);
            lemma_modify_clause_count(name, rest.push(specs.last()));
            lemma_modify_clause_count(name, rest);
        }
    }
}

/// A run of specifications without auto-increment markers gives one clause
/// for each.
proof fn lemma_modify_clause_count(name: Seq<char>, specs: Seq<ColumnSpec>)
    requires
        forall|i: int| 0 <= i < specs.len() ==> !(#[trigger] specs[i] is AutoIncrement),
    ensures
        modify_spec_clauses(name, specs).len() == specs.len(),
    decreases specs.len(),
{
    if specs.len() > 0 {
        lemma_modify_clause_count(name, specs.drop_last());
    }
}

/// A column modification that declares a type and holds the two
/// specifications not-null and default, in this order, is written as three
/// clauses separated by commas: the type, then not-null, then the default.
pub proof fn lemma_modify_type_not_null_default(column_def: ColumnDef, value: Expr)
    requires
        column_def.types is Some,
        type_clause_text(column_def) is Ok,
        column_def.spec@ == seq![ColumnSpec::NotNull, ColumnSpec::Default(value)],
    ensures
        modify_column_clauses(column_def) == Ok::<Seq<Seq<char>>, RenderError>(
            seq![
                "ALTER COLUMN "@ + iden_text(column_def.name@) + " TYPE"@ + type_clause_text(
                    column_def,
                )->Ok_0,
                "ALTER COLUMN "@ + iden_text(column_def.name@) + " SET NOT NULL"@,
                "ALTER COLUMN "@ + iden_text(column_def.name@) + " SET DEFAULT "@ + expr_text(
                    value,
                ),
            ],
        ),
        modify_column_text(column_def) == Ok::<Seq<char>, RenderError>(
            "ALTER COLUMN "@ + iden_text(column_def.name@) + " TYPE"@ + type_clause_text(
                column_def,
            )->Ok_0 + ", "@ + ("ALTER COLUMN "@ + iden_text(column_def.name@) + " SET NOT NULL"@)
                + ", "@ + ("ALTER COLUMN "@ + iden_text(column_def.name@) + " SET DEFAULT "@
                + expr_text(value)),
        ),
{
    let name = column_def.name@;
    let specs = column_def.spec@;
    let type_clause = modify_type_clause(column_def)->Ok_0;
    let not_null = modify_spec_clause(name, ColumnSpec::NotNull);
    let default = modify_spec_clause(name, ColumnSpec::Default(value));
    assert(specs.drop_last() == seq![ColumnSpec::NotNull]);
    assert(specs.drop_last().drop_last() == Seq::<ColumnSpec>::empty());
    reveal_with_fuel(modify_spec_clauses, 3);
    assert(modify_spec_clauses(name, specs) == seq![not_null, default]);
    let clauses = seq![type_clause, not_null, default];
    assert(seq![type_clause] + seq![not_null, default] == clauses);
    assert(clauses.drop_last() == seq![type_clause, not_null]);
    assert(clauses.drop_last().drop_last() == seq![type_clause]);
    reveal_with_fuel(joined, 3);
}

} // verus!

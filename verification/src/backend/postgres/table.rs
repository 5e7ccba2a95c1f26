//! Column definitions.

use vstd::prelude::*;
use crate::backend::postgres::column_type::column_type_text;
use crate::backend::postgres::query::{expr_text, iden_text};
use crate::backend::postgres::PostgresQueryBuilder;
use crate::error::RenderError;
use crate::table::{ColumnDef, ColumnSpec};
use crate::types::ColumnType;
use crate::writer::SqlWriter;

verus! {

/// The keyword that stands for an auto-increment marker after a column's
/// type: none, since the dialect says it through the type.
pub open spec fn auto_increment_keyword() -> Seq<char> {
    Seq::empty()
}

/// The text of one column specification.
pub open spec fn column_spec_text(column_spec: ColumnSpec) -> Seq<char> {
    match column_spec {
        ColumnSpec::Null => "NULL"@,
        ColumnSpec::NotNull => "NOT NULL"@,
        ColumnSpec::Default(value) => "DEFAULT "@ + expr_text(value),
        ColumnSpec::AutoIncrement => auto_increment_keyword(),
        ColumnSpec::UniqueKey => "UNIQUE"@,
        ColumnSpec::PrimaryKey => "PRIMARY KEY"@,
        ColumnSpec::Extra(text) => text@,
    }
}

/// The self-incrementing type that takes the place of `column_type`, or the
/// reason why there is none: only the small, standard and large signed
/// integers have one.
pub open spec fn auto_increment_text(column_type: ColumnType) -> Result<Seq<char>, RenderError> {
    match column_type {
        ColumnType::SmallInteger(_) => Ok("smallserial"@),
        ColumnType::Integer(_) => Ok("serial"@),
        ColumnType::BigInteger(_) => Ok("bigserial"@),
        _ => Err(RenderError::UnsupportedAutoIncrement(column_type.spec_name())),
    }
}

/// The type of a column as its definition shows it: the self-incrementing
/// type where the column is marked auto-increment, else the declared type.
pub open spec fn shown_type_text(column_def: ColumnDef) -> Result<Seq<char>, RenderError>
    recommends
        column_def.types is Some,
{
    if column_def.is_auto_increment() {
        auto_increment_text(column_def.types->0)
    } else {
        column_type_text(column_def.types->0)
    }
}

/// The type clause of a column definition: a space and the shown type;
/// nothing where the definition declares no type.
pub open spec fn type_clause_text(column_def: ColumnDef) -> Result<Seq<char>, RenderError> {
    if column_def.types is Some {
        match shown_type_text(column_def) {
            Ok(text) => Ok(" "@ + text),
            Err(e) => Err(e),
        }
    } else {
        Ok(Seq::empty())
    }
}

/// The specifications that follow a column's type, each led by a space, in
/// their order. Auto-increment markers are passed over.
pub open spec fn trailing_specs_text(specs: Seq<ColumnSpec>) -> Seq<char>
    decreases specs.len(),
{
    if specs.len() == 0 {
        Seq::empty()
    } else if specs.last() is AutoIncrement {
        trailing_specs_text(specs.drop_last())
    } else {
        trailing_specs_text(specs.drop_last()) + " "@ + column_spec_text(specs.last())
    }
}

/// The text of a column definition: the quoted name, the type clause, then
/// the remaining specifications.
pub open spec fn column_def_text(column_def: ColumnDef) -> Result<Seq<char>, RenderError> {
    match type_clause_text(column_def) {
        Ok(clause) => Ok(
            iden_text(column_def.name@) + clause + trailing_specs_text(column_def.spec@),
        ),
        Err(e) => Err(e),
    }
}

impl PostgresQueryBuilder {
    /// The keyword written for an auto-increment marker after a column's
    /// type: the empty text.
    pub fn column_spec_auto_increment_keyword(&self) -> (keyword: &'static str)
        ensures
            keyword@ == auto_increment_keyword(),
    {
        proof {
            reveal_strlit("");
        }
        ""
    }

    /// Writes one column specification.
    pub fn prepare_column_spec<W: SqlWriter>(&self, column_spec: &ColumnSpec, sql: &mut W)
        ensures
            final(sql).text() == old(sql).text() + column_spec_text(*column_spec),
    {
        match column_spec {
            ColumnSpec::Null => sql.write_str("NULL"),
            ColumnSpec::NotNull => sql.write_str("NOT NULL"),
            ColumnSpec::Default(value) => {
                sql.write_str("DEFAULT ");
                self.prepare_simple_expr(value, sql);
            },
            ColumnSpec::AutoIncrement => sql.write_str(self.column_spec_auto_increment_keyword()),
            ColumnSpec::UniqueKey => sql.write_str("UNIQUE"),
            ColumnSpec::PrimaryKey => sql.write_str("PRIMARY KEY"),
            ColumnSpec::Extra(text) => sql.write_str(text.as_str()),
        }
    }

    /// Writes the self-incrementing type that takes the place of
    /// `column_type`.
    ///
    /// A type that has none is refused, and the sink is left as it was.
    pub fn prepare_column_auto_increment<W: SqlWriter>(
        &self,
        column_type: &ColumnType,
        sql: &mut W,
    ) -> (r: Result<(), RenderError>)
        ensures
            match auto_increment_text(*column_type) {
                Ok(text) => r is Ok && final(sql).text() == old(sql).text() + text,
                Err(e) => r == Err::<(), RenderError>(e) && final(sql).text() == old(sql).text(),
            },
    {
        match column_type {
            ColumnType::SmallInteger(_) => sql.write_str("smallserial"),
            ColumnType::Integer(_) => sql.write_str("serial"),
            ColumnType::BigInteger(_) => sql.write_str("bigserial"),
            _ => {
                return Err(RenderError::UnsupportedAutoIncrement(column_type.name()));
            },
        }
        Ok(())
    }

    /// Writes the type clause of a column definition: a space, then the
    /// self-incrementing type where the column is marked auto-increment, else
    /// the declared type. Nothing is written where no type is declared.
    ///
    /// A type that cannot be shown is refused, and the sink is left as it was.
    pub fn prepare_column_type_check_auto_increment<W: SqlWriter>(
        &self,
        column_def: &ColumnDef,
        sql: &mut W,
    ) -> (r: Result<(), RenderError>)
        ensures
            match type_clause_text(*column_def) {
                Ok(text) => r is Ok && final(sql).text() == old(sql).text() + text,
                Err(e) => r == Err::<(), RenderError>(e) && final(sql).text() == old(sql).text(),
            },
    {
        if let Some(column_type) = &column_def.types {
            let mut shown = String::new();
            let rendered = if column_def.is_auto_increment() {
                self.prepare_column_auto_increment(column_type, &mut shown)
            } else {
                self.prepare_column_type(column_type, &mut shown)
            };
            match rendered {
                Ok(()) => {
                    sql.write_str(" ");
                    sql.write_str(shown.as_str());
                },
                Err(e) => {
                    return Err(e);
                },
            }
        }
        Ok(())
    }

    /// Writes a column definition: the quoted name, the type clause, then
    /// every specification but the auto-increment marker, each after one
    /// space and in the order given.
    ///
    /// A definition whose type cannot be shown is refused, and the sink is
    /// left as it was.
    pub fn prepare_column_def<W: SqlWriter>(&self, column_def: &ColumnDef, sql: &mut W) -> (r:
        Result<(), RenderError>)
        ensures
            match column_def_text(*column_def) {
                Ok(text) => r is Ok && final(sql).text() == old(sql).text() + text,
                Err(e) => r == Err::<(), RenderError>(e) && final(sql).text() == old(sql).text(),
            },
    {
        let mut type_clause = String::new();
        match self.prepare_column_type_check_auto_increment(column_def, &mut type_clause) {
            Ok(()) => {},
            Err(e) => {
                return Err(e);
            },
        }
        self.prepare_iden(column_def.name.as_str(), sql);
        sql.write_str(type_clause.as_str());
        let ghost head = sql.text();
        let n: usize = column_def.spec.len();
        for i in 0..n
            invariant
                n == column_def.spec@.len(),
                sql.text() == head + trailing_specs_text(column_def.spec@.take(i as int)),
        {
            let column_spec = &column_def.spec[i];
            proof {
                assert(column_def.spec@.take(i + 1).drop_last() == column_def.spec@.take(
                    i as int,
                ));
            }
            if let ColumnSpec::AutoIncrement = column_spec {
            } else {
                sql.write_str(" ");
                self.prepare_column_spec(column_spec, sql);
            }
        }
        proof {
            assert(column_def.spec@.take(n as int) == column_def.spec@);
        }
        Ok(())
    }
}

/// `specs` without the auto-increment markers.
pub open spec fn without_auto_increment(specs: Seq<ColumnSpec>) -> Seq<ColumnSpec> {
    specs.filter(|column_spec: ColumnSpec| !(column_spec is AutoIncrement))
}

/// Whether `column_type` is one of the integers that can increment by
/// themselves.
pub open spec fn can_auto_increment(column_type: ColumnType) -> bool {
    column_type is SmallInteger || column_type is Integer || column_type is BigInteger
}

/// Auto-increment markers leave no trace among the specifications that
/// follow a column's type: the text is that of the other specifications.
pub proof fn lemma_trailing_specs_skip_auto_increment(specs: Seq<ColumnSpec>)
    ensures
        trailing_specs_text(specs) == trailing_specs_text(without_auto_increment(specs)),
    decreases specs.len(),
{
    reveal(Seq::filter);
    if specs.len() > 0 {
        lemma_trailing_specs_skip_auto_increment(specs.drop_last());
        if !(specs.last() is AutoIncrement) {
            let rest = without_auto_increment(specs.drop_last());
            assert(rest.push(specs.last()).drop_last() == rest);
        }
    }
}

/// An integer column marked auto-increment is defined by its quoted name, a
/// space and the self-incrementing type of its width, then the
/// specifications other than the marker. The keyword of the declared
/// integer type is not what stands for the type, however often the marker
/// occurs.
pub proof fn lemma_auto_increment_column(column_def: ColumnDef)
    requires
        column_def.is_auto_increment(),
        column_def.types is Some,
        can_auto_increment(column_def.types->0),
    ensures
        shown_type_text(column_def) == Ok::<Seq<char>, RenderError>(
            match column_def.types->0 {
                ColumnType::SmallInteger(_) => "smallserial"@,
                ColumnType::Integer(_) => "serial"@,
                _ => "bigserial"@,
            },
        ),
        shown_type_text(column_def) != column_type_text(column_def.types->0),
        column_def_text(column_def) == Ok::<Seq<char>, RenderError>(
            iden_text(column_def.name@) + " "@ + shown_type_text(column_def)->Ok_0
                + trailing_specs_text(without_auto_increment(column_def.spec@)),
        ),
{
    lemma_trailing_specs_skip_auto_increment(column_def.spec@);
    let declared = column_type_text(column_def.types->0)->Ok_0;
    let shown = shown_type_text(column_def)->Ok_0;
    let rest = trailing_specs_text(without_auto_increment(column_def.spec@));
    assert(iden_text(column_def.name@) + (" "@ + shown) + rest == iden_text(column_def.name@)
        + " "@ + shown + rest);
    match column_def.types->0 {
        ColumnType::SmallInteger(_) => {
            reveal_strlit("smallserial");
            reveal_strlit("smallint");
            assert("smallserial"@[5] != declared[5]);
        },
        ColumnType::Integer(_) => {
            reveal_strlit("serial");
            reveal_strlit("integer");
            assert("serial"@[0] != declared[0]);
        },
        _ => {
            reveal_strlit("bigserial");
            reveal_strlit("bigint");
            assert("bigserial"@[3] != declared[3]);
        },
    }
}

/// A column marked auto-increment whose type is none of the integers that
/// can increment by themselves is refused, with the name of its type.
pub proof fn lemma_auto_increment_refused(column_def: ColumnDef)
    requires
        column_def.is_auto_increment(),
        column_def.types is Some,
        !can_auto_increment(column_def.types->0),
    ensures
        column_def_text(column_def) == Err::<Seq<char>, RenderError>(
            RenderError::UnsupportedAutoIncrement(column_def.types->0.spec_name()),
        ),
        type_clause_text(column_def) == Err::<Seq<char>, RenderError>(
            RenderError::UnsupportedAutoIncrement(column_def.types->0.spec_name()),
        ),
{
}

} // verus!

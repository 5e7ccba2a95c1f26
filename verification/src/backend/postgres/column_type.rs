//! The text of column types.

use vstd::prelude::*;
use crate::backend::postgres::PostgresQueryBuilder;
use crate::error::RenderError;
use crate::numeral::{decimal, lemma_decimal_digits, write_decimal};
use crate::types::{ColumnType, PgInterval, TypeName};
use crate::writer::SqlWriter;

verus! {

/// A length or precision in parentheses; nothing where there is none.
pub open spec fn parameter(length: Option<u32>) -> Seq<char> {
    match length {
        Some(n) => "("@ + decimal(n as nat) + ")"@,
        None => Seq::empty(),
    }
}

/// Precision and scale in parentheses; nothing where there are none.
pub open spec fn parameter_pair(precision: Option<(u32, u32)>) -> Seq<char> {
    match precision {
        Some((p, s)) => "("@ + decimal(p as nat) + ", "@ + decimal(s as nat) + ")"@,
        None => Seq::empty(),
    }
}

/// The words that restrict an interval to some of its fields.
pub open spec fn interval_fields_text(fields: PgInterval) -> Seq<char> {
    match fields {
        PgInterval::Year => "YEAR"@,
        PgInterval::Month => "MONTH"@,
        PgInterval::Day => "DAY"@,
        PgInterval::Hour => "HOUR"@,
        PgInterval::Minute => "MINUTE"@,
        PgInterval::Second => "SECOND"@,
        PgInterval::YearToMonth => "YEAR TO MONTH"@,
        PgInterval::DayToHour => "DAY TO HOUR"@,
        PgInterval::DayToMinute => "DAY TO MINUTE"@,
        PgInterval::DayToSecond => "DAY TO SECOND"@,
        PgInterval::HourToMinute => "HOUR TO MINUTE"@,
        PgInterval::HourToSecond => "HOUR TO SECOND"@,
        PgInterval::MinuteToSecond => "MINUTE TO SECOND"@,
    }
}

/// The field restriction of an interval, led by a space; nothing where there is none.
pub open spec fn interval_fields(fields: Option<PgInterval>) -> Seq<char> {
    match fields {
        Some(f) => " "@ + interval_fields_text(f),
        None => Seq::empty(),
    }
}

/// The text of a column type, or the reason why the dialect has none for it.
///
/// Tiny and small integers share one keyword, and so do the signed and the
/// unsigned integers of one width: the dialect has neither a tiny nor an
/// unsigned integer.
pub open spec fn column_type_text(column_type: ColumnType) -> Result<Seq<char>, RenderError>
    decreases column_type,
{
    match column_type {
        ColumnType::Char(length) => Ok("char"@ + parameter(length)),
        ColumnType::String(length) => Ok("varchar"@ + parameter(length)),
        ColumnType::Text => Ok("text"@),
        ColumnType::TinyInteger(length) | ColumnType::TinyUnsigned(length) => Ok(
            "smallint"@ + parameter(length),
        ),
        ColumnType::SmallInteger(length) | ColumnType::SmallUnsigned(length) => Ok(
            "smallint"@ + parameter(length),
        ),
        ColumnType::Integer(length) | ColumnType::Unsigned(length) => Ok(
            "integer"@ + parameter(length),
        ),
        ColumnType::BigInteger(length) | ColumnType::BigUnsigned(length) => Ok(
            "bigint"@ + parameter(length),
        ),
        ColumnType::Float(precision) => Ok("real"@ + parameter(precision)),
        ColumnType::Double(precision) => Ok("double precision"@ + parameter(precision)),
        ColumnType::Decimal(precision) => Ok("decimal"@ + parameter_pair(precision)),
        ColumnType::DateTime(precision) => Ok(
            "timestamp"@ + parameter(precision) + " without time zone"@,
        ),
        ColumnType::Timestamp(precision) => Ok("timestamp"@ + parameter(precision)),
        ColumnType::TimestampWithTimeZone(precision) => Ok(
            "timestamp"@ + parameter(precision) + " with time zone"@,
        ),
        ColumnType::Time(precision) => Ok("time"@ + parameter(precision)),
        ColumnType::Date => Ok("date"@),
        ColumnType::Year(_) => Err(RenderError::UnsupportedType(TypeName::Year)),
        ColumnType::Interval(fields, precision) => Ok(
            "interval"@ + interval_fields(fields) + parameter(precision),
        ),
        ColumnType::Binary(_) => Ok("bytea"@),
        ColumnType::VarBinary(length) => Ok("bit varying"@ + parameter(Some(length))),
        ColumnType::Bit(length) => match length {
            Some(_) => Ok("varbit"@ + parameter(length)),
            None => Ok("bit"@),
        },
        ColumnType::VarBit(length) => Ok("varbit"@ + parameter(Some(length))),
        ColumnType::Boolean => Ok("bool"@),
        ColumnType::Money(precision) => Ok("money"@ + parameter_pair(precision)),
        ColumnType::Json => Ok("json"@),
        ColumnType::JsonBinary => Ok("jsonb"@),
        ColumnType::Uuid => Ok("uuid"@),
        ColumnType::Custom(name) => Ok(name@),
        ColumnType::Enum { name, .. } => Ok(name@),
        ColumnType::Array(element) => match column_type_text(*element) {
            Ok(text) => Ok(text + "[]"@),
            Err(e) => Err(e),
        },
        ColumnType::Cidr => Ok("cidr"@),
        ColumnType::Inet => Ok("inet"@),
        ColumnType::MacAddr => Ok("macaddr"@),
    }
}

fn write_parameter<W: SqlWriter>(sql: &mut W, length: &Option<u32>)
    ensures
        final(sql).text() == old(sql).text() + parameter(*length),
{
    if let Some(n) = length {
        sql.write_str("(");
        write_decimal(sql, *n as u64);
        sql.write_str(")");
    }
}

fn write_parameter_pair<W: SqlWriter>(sql: &mut W, precision: &Option<(u32, u32)>)
    ensures
        final(sql).text() == old(sql).text() + parameter_pair(*precision),
{
    if let Some((p, s)) = precision {
        sql.write_str("(");
        write_decimal(sql, *p as u64);
        sql.write_str(", ");
        write_decimal(sql, *s as u64);
        sql.write_str(")");
    }
}

fn write_interval_fields<W: SqlWriter>(sql: &mut W, fields: &Option<PgInterval>)
    ensures
        final(sql).text() == old(sql).text() + interval_fields(*fields),
{
    if let Some(f) = fields {
        sql.write_str(" ");
        sql.write_str(
            match f {
                PgInterval::Year => "YEAR",
                PgInterval::Month => "MONTH",
                PgInterval::Day => "DAY",
                PgInterval::Hour => "HOUR",
                PgInterval::Minute => "MINUTE",
                PgInterval::Second => "SECOND",
                PgInterval::YearToMonth => "YEAR TO MONTH",
                PgInterval::DayToHour => "DAY TO HOUR",
                PgInterval::DayToMinute => "DAY TO MINUTE",
                PgInterval::DayToSecond => "DAY TO SECOND",
                PgInterval::HourToMinute => "HOUR TO MINUTE",
                PgInterval::HourToSecond => "HOUR TO SECOND",
                PgInterval::MinuteToSecond => "MINUTE TO SECOND",
            },
        );
    }
}

fn write_sized<W: SqlWriter>(sql: &mut W, keyword: &str, length: &Option<u32>)
    ensures
        final(sql).text() == old(sql).text() + (keyword@ + parameter(*length)),
{
    sql.write_str(keyword);
    write_parameter(sql, length);
}

impl PostgresQueryBuilder {
    /// Writes the dialect's text for `column_type`.
    ///
    /// A type without a counterpart in the dialect is refused, and the sink
    /// is left as it was.
    pub fn prepare_column_type<W: SqlWriter>(&self, column_type: &ColumnType, sql: &mut W) -> (r:
        Result<(), RenderError>)
        ensures
            match column_type_text(*column_type) {
                Ok(text) => r is Ok && final(sql).text() == old(sql).text() + text,
                Err(e) => r == Err::<(), RenderError>(e) && final(sql).text() == old(sql).text(),
            },
        decreases column_type,
    {
        match column_type {
            ColumnType::Char(length) => write_sized(sql, "char", length),
            ColumnType::String(length) => write_sized(sql, "varchar", length),
            ColumnType::Text => sql.write_str("text"),
            ColumnType::TinyInteger(length) | ColumnType::TinyUnsigned(length) => write_sized(
                sql,
                "smallint",
                length,
            ),
            ColumnType::SmallInteger(length) | ColumnType::SmallUnsigned(length) => write_sized(
                sql,
                "smallint",
                length,
            ),
            ColumnType::Integer(length) | ColumnType::Unsigned(length) => write_sized(
                sql,
                "integer",
                length,
            ),
            ColumnType::BigInteger(length) | ColumnType::BigUnsigned(length) => write_sized(
                sql,
                "bigint",
                length,
            ),
            ColumnType::Float(precision) => write_sized(sql, "real", precision),
            ColumnType::Double(precision) => write_sized(sql, "double precision", precision),
            ColumnType::Decimal(precision) => {
                sql.write_str("decimal");
                write_parameter_pair(sql, precision);
            },
            ColumnType::DateTime(precision) => {
                write_sized(sql, "timestamp", precision);
                sql.write_str(" without time zone");
            },
            ColumnType::Timestamp(precision) => write_sized(sql, "timestamp", precision),
            ColumnType::TimestampWithTimeZone(precision) => {
                write_sized(sql, "timestamp", precision);
                sql.write_str(" with time zone");
            },
            ColumnType::Time(precision) => write_sized(sql, "time", precision),
            ColumnType::Date => sql.write_str("date"),
            ColumnType::Year(_) => {
                return Err(RenderError::UnsupportedType(TypeName::Year));
            },
            ColumnType::Interval(fields, precision) => {
                sql.write_str("interval");
                write_interval_fields(sql, fields);
                write_parameter(sql, precision);
            },
            ColumnType::Binary(_) => sql.write_str("bytea"),
            ColumnType::VarBinary(length) => write_sized(sql, "bit varying", &Some(*length)),
            ColumnType::Bit(length) => match length {
                Some(_) => write_sized(sql, "varbit", length),
                None => sql.write_str("bit"),
            },
            ColumnType::VarBit(length) => write_sized(sql, "varbit", &Some(*length)),
            ColumnType::Boolean => sql.write_str("bool"),
            ColumnType::Money(precision) => {
                sql.write_str("money");
                write_parameter_pair(sql, precision);
            },
            ColumnType::Json => sql.write_str("json"),
            ColumnType::JsonBinary => sql.write_str("jsonb"),
            ColumnType::Uuid => sql.write_str("uuid"),
            ColumnType::Custom(name) => sql.write_str(name.as_str()),
            ColumnType::Enum { name, .. } => sql.write_str(name.as_str()),
            ColumnType::Array(element) => {
                let mut text = String::new();
                match self.prepare_column_type(element, &mut text) {
                    Ok(()) => {
                        sql.write_str(text.as_str());
                        sql.write_str("[]");
                    },
                    Err(e) => {
                        return Err(e);
                    },
                }
            },
            ColumnType::Cidr => sql.write_str("cidr"),
            ColumnType::Inet => sql.write_str("inet"),
            ColumnType::MacAddr => sql.write_str("macaddr"),
        }
        Ok(())
    }
}

/// Whether `text` holds no parenthesis.
pub open spec fn paren_free(text: Seq<char>) -> bool {
    forall|i: int| 0 <= i < text.len() ==> #[trigger] text[i] != '(' && text[i] != ')'
}

/// `inner` in parentheses, between `head` and `tail`.
pub open spec fn framed(head: Seq<char>, inner: Seq<char>, tail: Seq<char>) -> Seq<char> {
    head + "("@ + inner + ")"@ + tail
}

/// The numeral of a length or precision, where there is one.
pub open spec fn length_numeral(length: Option<u32>) -> Option<Seq<char>> {
    match length {
        Some(n) => Some(decimal(n as nat)),
        None => None,
    }
}

/// The numerals of precision and scale, where there are any.
pub open spec fn pair_numerals(precision: Option<(u32, u32)>) -> Option<Seq<char>> {
    match precision {
        Some((p, s)) => Some(decimal(p as nat) + ", "@ + decimal(s as nat)),
        None => None,
    }
}

/// The parameter that the text of a type shows, where the type carries one
/// and the dialect shows it. The length of a binary string is never shown;
/// an array shows what its element shows.
pub open spec fn shown_parameter(column_type: ColumnType) -> Option<Seq<char>>
    decreases column_type,
{
    match column_type {
        ColumnType::Char(length)
        | ColumnType::String(length)
        | ColumnType::TinyInteger(length)
        | ColumnType::SmallInteger(length)
        | ColumnType::Integer(length)
        | ColumnType::BigInteger(length)
        | ColumnType::TinyUnsigned(length)
        | ColumnType::SmallUnsigned(length)
        | ColumnType::Unsigned(length)
        | ColumnType::BigUnsigned(length)
        | ColumnType::Float(length)
        | ColumnType::Double(length)
        | ColumnType::DateTime(length)
        | ColumnType::Timestamp(length)
        | ColumnType::TimestampWithTimeZone(length)
        | ColumnType::Time(length)
        | ColumnType::Bit(length) => length_numeral(length),
        ColumnType::Interval(_, precision) => length_numeral(precision),
        ColumnType::VarBinary(length) | ColumnType::VarBit(length) => length_numeral(Some(length)),
        ColumnType::Decimal(precision) | ColumnType::Money(precision) => pair_numerals(precision),
        ColumnType::Array(element) => shown_parameter(*element),
        _ => None,
    }
}

/// Whether the text of a type is made of the dialect's own words alone:
/// custom types and enumerations are written as the caller names them.
pub open spec fn in_dialect_words(column_type: ColumnType) -> bool
    decreases column_type,
{
    match column_type {
        ColumnType::Custom(_) => false,
        ColumnType::Enum { .. } => false,
        ColumnType::Array(element) => in_dialect_words(*element),
        _ => true,
    }
}

/// Whether `text` holds `inner` in parentheses and no parenthesis besides.
pub open spec fn shows_in_parentheses(text: Seq<char>, inner: Seq<char>) -> bool {
    exists|head: Seq<char>, tail: Seq<char>|
        paren_free(head) && paren_free(tail) && text == #[trigger] framed(head, inner, tail)
}

/// The numeral of a length holds no parenthesis.
proof fn lemma_length_numeral_paren_free(n: u32)
    ensures
        paren_free(decimal(n as nat)),
{
    lemma_decimal_digits(n as nat);
}

/// The numerals of precision and scale hold no parenthesis.
proof fn lemma_pair_numerals_paren_free(p: u32, s: u32)
    ensures
        paren_free(decimal(p as nat) + ", "@ + decimal(s as nat)),
{
    lemma_decimal_digits(p as nat);
    lemma_decimal_digits(s as nat);
    reveal_strlit(", ");
}

/// Two texts without parentheses make one without.
proof fn lemma_paren_free_concat(a: Seq<char>, b: Seq<char>)
    requires
        paren_free(a),
        paren_free(b),
    ensures
        paren_free(a + b),
{
}

/// A keyword, a parameter and what follows: the parameter stands in
/// parentheses where there is one, and no parenthesis stands elsewhere.
proof fn lemma_sized_keyword(keyword: Seq<char>, length: Option<u32>, tail: Seq<char>)
    requires
        paren_free(keyword),
        paren_free(tail),
    ensures
        match length_numeral(length) {
            Some(p) => paren_free(p) && shows_in_parentheses(keyword + parameter(length) + tail, p),
            None => paren_free(keyword + parameter(length) + tail),
        },
{
    match length {
        Some(n) => {
            lemma_length_numeral_paren_free(n);
            assert(keyword + parameter(length) + tail == framed(keyword, decimal(n as nat), tail));
        },
        None => {
            assert(keyword + parameter(length) + tail == keyword + tail);
        },
    }
}

/// A keyword with precision and scale: the two stand in parentheses where
/// there are any, and no parenthesis stands elsewhere.
proof fn lemma_scaled_keyword(keyword: Seq<char>, precision: Option<(u32, u32)>)
    requires
        paren_free(keyword),
    ensures
        match pair_numerals(precision) {
            Some(p) => paren_free(p) && shows_in_parentheses(
                keyword + parameter_pair(precision),
                p,
            ),
            None => paren_free(keyword + parameter_pair(precision)),
        },
{
    match precision {
        Some((p, s)) => {
            lemma_pair_numerals_paren_free(p, s);
            let inner = decimal(p as nat) + ", "@ + decimal(s as nat);
            assert(keyword + parameter_pair(precision) == framed(keyword, inner, Seq::empty()));
        },
        None => {
            assert(keyword + parameter_pair(precision) == keyword);
        },
    }
}

/// The words for the fields of an interval hold no parenthesis.
proof fn lemma_interval_fields_paren_free(fields: Option<PgInterval>)
    ensures
        paren_free(interval_fields(fields)),
{
    reveal_strlit(" ");
    reveal_strlit("YEAR");
    reveal_strlit("MONTH");
    reveal_strlit("DAY");
    reveal_strlit("HOUR");
    reveal_strlit("MINUTE");
    reveal_strlit("SECOND");
    reveal_strlit("YEAR TO MONTH");
    reveal_strlit("DAY TO HOUR");
    reveal_strlit("DAY TO MINUTE");
    reveal_strlit("DAY TO SECOND");
    reveal_strlit("HOUR TO MINUTE");
    reveal_strlit("HOUR TO SECOND");
    reveal_strlit("MINUTE TO SECOND");
}

/// The text of a type holds a parameter in parentheses exactly where the
/// type shows one: then the parameter stands there once, as decimal
/// numerals, and no parenthesis stands elsewhere; a type that shows none has
/// a text without parentheses. This holds of every type that the dialect
/// has words for.
pub proof fn lemma_parameter_shown(column_type: ColumnType)
    requires
        column_type_text(column_type) is Ok,
        in_dialect_words(column_type),
    ensures
        match shown_parameter(column_type) {
            Some(p) => paren_free(p) && shows_in_parentheses(
                column_type_text(column_type)->Ok_0,
                p,
            ),
            None => paren_free(column_type_text(column_type)->Ok_0),
        },
    decreases column_type,
{
    let none: Seq<char> = Seq::empty();
    match column_type {
        ColumnType::Char(length) => {
            reveal_strlit("char");
            lemma_sized_keyword("char"@, length, none);
        },
        ColumnType::String(length) => {
            reveal_strlit("varchar");
            lemma_sized_keyword("varchar"@, length, none);
        },
        ColumnType::TinyInteger(length)
        | ColumnType::TinyUnsigned(length)
        | ColumnType::SmallInteger(length)
        | ColumnType::SmallUnsigned(length) => {
            reveal_strlit("smallint");
            lemma_sized_keyword("smallint"@, length, none);
        },
        ColumnType::Integer(length) | ColumnType::Unsigned(length) => {
            reveal_strlit("integer");
            lemma_sized_keyword("integer"@, length, none);
        },
        ColumnType::BigInteger(length) | ColumnType::BigUnsigned(length) => {
            reveal_strlit("bigint");
            lemma_sized_keyword("bigint"@, length, none);
        },
        ColumnType::Float(length) => {
            reveal_strlit("real");
            lemma_sized_keyword("real"@, length, none);
        },
        ColumnType::Double(length) => {
            reveal_strlit("double precision");
            lemma_sized_keyword("double precision"@, length, none);
        },
        ColumnType::Decimal(precision) => {
            reveal_strlit("decimal");
            lemma_scaled_keyword("decimal"@, precision);
        },
        ColumnType::Money(precision) => {
            reveal_strlit("money");
            lemma_scaled_keyword("money"@, precision);
        },
        ColumnType::DateTime(length) => {
            reveal_strlit("timestamp");
            reveal_strlit(" without time zone");
            lemma_sized_keyword("timestamp"@, length, " without time zone"@);
        },
        ColumnType::Timestamp(length) => {
            reveal_strlit("timestamp");
            lemma_sized_keyword("timestamp"@, length, none);
        },
        ColumnType::TimestampWithTimeZone(length) => {
            reveal_strlit("timestamp");
            reveal_strlit(" with time zone");
            lemma_sized_keyword("timestamp"@, length, " with time zone"@);
        },
        ColumnType::Time(length) => {
            reveal_strlit("time");
            lemma_sized_keyword("time"@, length, none);
        },
        ColumnType::Interval(fields, precision) => {
            reveal_strlit("interval");
            lemma_interval_fields_paren_free(fields);
            lemma_paren_free_concat("interval"@, interval_fields(fields));
            lemma_sized_keyword("interval"@ + interval_fields(fields), precision, none);
        },
        ColumnType::VarBinary(length) => {
            reveal_strlit("bit varying");
            lemma_sized_keyword("bit varying"@, Some(length), none);
        },
        ColumnType::Bit(length) => {
            reveal_strlit("varbit");
            reveal_strlit("bit");
            lemma_sized_keyword("varbit"@, length, none);
        },
        ColumnType::VarBit(length) => {
            reveal_strlit("varbit");
            lemma_sized_keyword("varbit"@, Some(length), none);
        },
        ColumnType::Array(element) => {
            reveal_strlit("[]");
            lemma_parameter_shown(*element);
            let text = column_type_text(*element)->Ok_0;
            match shown_parameter(*element) {
                Some(p) => {
                    let (head, tail) = choose|head: Seq<char>, tail: Seq<char>|
                        paren_free(head) && paren_free(tail) && text == #[trigger] framed(
                            head,
                            p,
                            tail,
                        );
                    assert(text + "[]"@ == framed(head, p, tail + "[]"@));
                },
                None => {},
            }
        },
        ColumnType::Text => {
            reveal_strlit("text");
        },
        ColumnType::Date => {
            reveal_strlit("date");
        },
        ColumnType::Binary(_) => {
            reveal_strlit("bytea");
        },
        ColumnType::Boolean => {
            reveal_strlit("bool");
        },
        ColumnType::Json => {
            reveal_strlit("json");
        },
        ColumnType::JsonBinary => {
            reveal_strlit("jsonb");
        },
        ColumnType::Uuid => {
            reveal_strlit("uuid");
        },
        ColumnType::Cidr => {
            reveal_strlit("cidr");
        },
        ColumnType::Inet => {
            reveal_strlit("inet");
        },
        ColumnType::MacAddr => {
            reveal_strlit("macaddr");
        },
        _ => {},
    }
}

/// `element` wrapped in `depth` arrays.
pub open spec fn array_of(element: ColumnType, depth: nat) -> ColumnType
    decreases depth,
{
    if depth == 0 {
        element
    } else {
        ColumnType::Array(Box::new(array_of(element, (depth - 1) as nat)))
    }
}

/// `depth` pairs of brackets.
pub open spec fn brackets(depth: nat) -> Seq<char>
    decreases depth,
{
    if depth == 0 {
        Seq::empty()
    } else {
        brackets((depth - 1) as nat) + "[]"@
    }
}

/// An array nested `depth` deep is written as its innermost element with
/// `depth` pairs of brackets behind it, and is refused where the element is.
pub proof fn lemma_array_nesting(element: ColumnType, depth: nat)
    ensures
        column_type_text(array_of(element, depth)) == match column_type_text(element) {
            Ok(text) => Ok::<Seq<char>, RenderError>(text + brackets(depth)),
            Err(e) => Err(e),
        },
    decreases depth,
{
    if depth > 0 {
        lemma_array_nesting(element, (depth - 1) as nat);
        if let Ok(text) = column_type_text(element) {
            assert(text + brackets((depth - 1) as nat) + "[]"@ == text + brackets(depth));
        }
    } else {
        if let Ok(text) = column_type_text(element) {
            assert(text + brackets(0) == text);
        }
    }
}

/// An array of arrays is written with two pairs of brackets behind the text
/// of its element.
pub proof fn lemma_array_of_array(element: ColumnType)
    requires
        column_type_text(element) is Ok,
    ensures
        column_type_text(ColumnType::Array(Box::new(ColumnType::Array(Box::new(element)))))
            == Ok::<Seq<char>, RenderError>(column_type_text(element)->Ok_0 + "[]"@ + "[]"@),
{
    reveal_with_fuel(column_type_text, 3);
}

/// Whether the dialect has words for `column_type`: it has none for a year,
/// nor for an array that holds years.
pub open spec fn is_supported(column_type: ColumnType) -> bool
    decreases column_type,
{
    match column_type {
        ColumnType::Year(_) => false,
        ColumnType::Array(element) => is_supported(*element),
        _ => true,
    }
}

/// A type has a text exactly where the dialect has words for it; where it
/// has none, the type is refused as a year.
pub proof fn lemma_refused_only_for_year(column_type: ColumnType)
    ensures
        column_type_text(column_type) is Ok <==> is_supported(column_type),
        column_type_text(column_type) is Err ==> column_type_text(column_type)->Err_0
            == RenderError::UnsupportedType(TypeName::Year),
    decreases column_type,
{
    match column_type {
        ColumnType::Array(element) => {
            lemma_refused_only_for_year(*element);
        },
        _ => {},
    }
}

/// Types that agree are written alike, and refused alike.
pub proof fn lemma_agreeing_types_same_text(a: ColumnType, b: ColumnType)
    requires
        a.agrees_with(&b),
    ensures
        column_type_text(a) == column_type_text(b),
    decreases a,
{
    match (a, b) {
        (ColumnType::Array(element), ColumnType::Array(other_element)) => {
            lemma_agreeing_types_same_text(*element, *other_element);
        },
        _ => {},
    }
}

} // verus!

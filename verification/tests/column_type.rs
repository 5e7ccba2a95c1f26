use pg_table::backend::postgres::PostgresQueryBuilder;
use pg_table::error::RenderError;
use pg_table::types::{ColumnType, MySqlYear, PgInterval, TypeName};

fn render(column_type: &ColumnType) -> Result<String, RenderError> {
    let mut sql = String::new();
    PostgresQueryBuilder.prepare_column_type(column_type, &mut sql)?;
    Ok(sql)
}

fn text(column_type: ColumnType) -> String {
    render(&column_type).unwrap()
}

#[test]
fn character_types_with_and_without_length() {
    assert_eq!(text(ColumnType::Char(None)), "char");
    assert_eq!(text(ColumnType::Char(Some(8))), "char(8)");
    assert_eq!(text(ColumnType::String(None)), "varchar");
    assert_eq!(text(ColumnType::String(Some(255))), "varchar(255)");
    assert_eq!(text(ColumnType::Text), "text");
}

#[test]
fn tiny_and_small_integers_share_a_keyword() {
    assert_eq!(text(ColumnType::TinyInteger(None)), "smallint");
    assert_eq!(text(ColumnType::SmallInteger(None)), "smallint");
    assert_eq!(text(ColumnType::TinyInteger(Some(3))), "smallint(3)");
    assert_eq!(text(ColumnType::SmallInteger(Some(3))), "smallint(3)");
}

#[test]
fn unsigned_integers_are_written_as_signed() {
    assert_eq!(text(ColumnType::TinyUnsigned(None)), "smallint");
    assert_eq!(text(ColumnType::SmallUnsigned(Some(5))), "smallint(5)");
    assert_eq!(text(ColumnType::Unsigned(None)), "integer");
    assert_eq!(text(ColumnType::Unsigned(Some(11))), "integer(11)");
    assert_eq!(text(ColumnType::BigUnsigned(None)), "bigint");
    assert_eq!(text(ColumnType::BigUnsigned(Some(20))), "bigint(20)");
}

#[test]
fn signed_integers() {
    assert_eq!(text(ColumnType::Integer(None)), "integer");
    assert_eq!(text(ColumnType::Integer(Some(11))), "integer(11)");
    assert_eq!(text(ColumnType::BigInteger(None)), "bigint");
    assert_eq!(text(ColumnType::BigInteger(Some(20))), "bigint(20)");
}

#[test]
fn floating_point_types() {
    assert_eq!(text(ColumnType::Float(None)), "real");
    assert_eq!(text(ColumnType::Float(Some(24))), "real(24)");
    assert_eq!(text(ColumnType::Double(None)), "double precision");
    assert_eq!(text(ColumnType::Double(Some(53))), "double precision(53)");
}

#[test]
fn fixed_point_types_show_precision_and_scale() {
    assert_eq!(text(ColumnType::Decimal(None)), "decimal");
    assert_eq!(text(ColumnType::Decimal(Some((10, 2)))), "decimal(10, 2)");
    assert_eq!(text(ColumnType::Money(None)), "money");
    assert_eq!(text(ColumnType::Money(Some((19, 4)))), "money(19, 4)");
}

#[test]
fn temporal_types_put_precision_before_the_zone() {
    assert_eq!(text(ColumnType::DateTime(None)), "timestamp without time zone");
    assert_eq!(text(ColumnType::DateTime(Some(6))), "timestamp(6) without time zone");
    assert_eq!(text(ColumnType::Timestamp(None)), "timestamp");
    assert_eq!(text(ColumnType::Timestamp(Some(3))), "timestamp(3)");
    assert_eq!(text(ColumnType::TimestampWithTimeZone(None)), "timestamp with time zone");
    assert_eq!(text(ColumnType::TimestampWithTimeZone(Some(0))), "timestamp(0) with time zone");
    assert_eq!(text(ColumnType::Time(None)), "time");
    assert_eq!(text(ColumnType::Time(Some(2))), "time(2)");
    assert_eq!(text(ColumnType::Date), "date");
}

#[test]
fn interval_parts_are_independent() {
    assert_eq!(text(ColumnType::Interval(None, None)), "interval");
    assert_eq!(text(ColumnType::Interval(Some(PgInterval::YearToMonth), None)), "interval YEAR TO MONTH");
    assert_eq!(text(ColumnType::Interval(None, Some(4))), "interval(4)");
    assert_eq!(
        text(ColumnType::Interval(Some(PgInterval::DayToSecond), Some(6))),
        "interval DAY TO SECOND(6)"
    );
}

#[test]
fn every_interval_field_has_its_words() {
    let cases = [
        (PgInterval::Year, "interval YEAR"),
        (PgInterval::Month, "interval MONTH"),
        (PgInterval::Day, "interval DAY"),
        (PgInterval::Hour, "interval HOUR"),
        (PgInterval::Minute, "interval MINUTE"),
        (PgInterval::Second, "interval SECOND"),
        (PgInterval::YearToMonth, "interval YEAR TO MONTH"),
        (PgInterval::DayToHour, "interval DAY TO HOUR"),
        (PgInterval::DayToMinute, "interval DAY TO MINUTE"),
        (PgInterval::DayToSecond, "interval DAY TO SECOND"),
        (PgInterval::HourToMinute, "interval HOUR TO MINUTE"),
        (PgInterval::HourToSecond, "interval HOUR TO SECOND"),
        (PgInterval::MinuteToSecond, "interval MINUTE TO SECOND"),
    ];
    for (fields, expected) in cases {
        assert_eq!(text(ColumnType::Interval(Some(fields), None)), expected);
    }
}

#[test]
fn binary_types_map_crosswise() {
    assert_eq!(text(ColumnType::Binary(None)), "bytea");
    assert_eq!(text(ColumnType::Binary(Some(16))), "bytea");
    assert_eq!(text(ColumnType::VarBinary(16)), "bit varying(16)");
}

#[test]
fn bit_types_converge_on_varbit() {
    assert_eq!(text(ColumnType::Bit(None)), "bit");
    assert_eq!(text(ColumnType::Bit(Some(8))), "varbit(8)");
    assert_eq!(text(ColumnType::VarBit(8)), "varbit(8)");
}

#[test]
fn types_without_parameters() {
    assert_eq!(text(ColumnType::Boolean), "bool");
    assert_eq!(text(ColumnType::Json), "json");
    assert_eq!(text(ColumnType::JsonBinary), "jsonb");
    assert_eq!(text(ColumnType::Uuid), "uuid");
    assert_eq!(text(ColumnType::Cidr), "cidr");
    assert_eq!(text(ColumnType::Inet), "inet");
    assert_eq!(text(ColumnType::MacAddr), "macaddr");
}

#[test]
fn custom_and_enum_are_written_verbatim() {
    assert_eq!(text(ColumnType::Custom("citext".to_string())), "citext");
    assert_eq!(text(ColumnType::Custom("\"My Type\"".to_string())), "\"My Type\"");
    let mood = ColumnType::Enum {
        name: "mood".to_string(),
        variants: vec!["sad".to_string(), "happy".to_string()],
    };
    assert_eq!(text(mood), "mood");
}

#[test]
fn array_appends_brackets() {
    let array = ColumnType::Array(Box::new(ColumnType::String(Some(5))));
    assert_eq!(text(array), "varchar(5)[]");
}

#[test]
fn array_of_array_has_two_bracket_pairs() {
    let nested = ColumnType::Array(Box::new(ColumnType::Array(Box::new(ColumnType::Integer(None)))));
    assert_eq!(text(nested), "integer[][]");
}

#[test]
fn three_level_array_keeps_depth() {
    let nested = ColumnType::Array(Box::new(ColumnType::Array(Box::new(ColumnType::Array(
        Box::new(ColumnType::Text),
    )))));
    assert_eq!(text(nested), "text[][][]");
}

#[test]
fn year_is_refused() {
    let refused = render(&ColumnType::Year(None));
    assert_eq!(refused, Err(RenderError::UnsupportedType(TypeName::Year)));
    assert!(refused.unwrap_err().message().contains("Year"));
    assert_eq!(
        render(&ColumnType::Year(Some(MySqlYear::Four))),
        Err(RenderError::UnsupportedType(TypeName::Year))
    );
}

#[test]
fn array_of_year_is_refused() {
    let array = ColumnType::Array(Box::new(ColumnType::Year(Some(MySqlYear::Two))));
    assert_eq!(render(&array), Err(RenderError::UnsupportedType(TypeName::Year)));
}

#[test]
fn refused_type_leaves_the_sink_unchanged() {
    let mut sql = String::from("CREATE ");
    let array = ColumnType::Array(Box::new(ColumnType::Year(None)));
    assert!(PostgresQueryBuilder.prepare_column_type(&array, &mut sql).is_err());
    assert_eq!(sql, "CREATE ");
}

#[test]
fn type_text_is_appended_to_the_sink() {
    let mut sql = String::from("x ");
    PostgresQueryBuilder.prepare_column_type(&ColumnType::Uuid, &mut sql).unwrap();
    assert_eq!(sql, "x uuid");
}

#[test]
fn largest_length_is_written_in_full() {
    assert_eq!(text(ColumnType::String(Some(u32::MAX))), "varchar(4294967295)");
    assert_eq!(text(ColumnType::Char(Some(0))), "char(0)");
}

#[test]
fn parameter_appears_in_parentheses_only_when_present() {
    let with = text(ColumnType::String(Some(255)));
    let without = text(ColumnType::String(None));
    assert!(with.contains("(255)"));
    assert!(!without.contains('(') && !without.contains(')'));
}

#[test]
fn clone_agrees_with_its_model() {
    let model = ColumnType::Array(Box::new(ColumnType::Enum {
        name: "mood".to_string(),
        variants: vec!["sad".to_string()],
    }));
    let copy = model.clone();
    assert_eq!(copy, model);
    assert_eq!(text(copy), "mood[]");
}

#[test]
fn type_names() {
    assert_eq!(ColumnType::Year(None).name(), TypeName::Year);
    assert_eq!(ColumnType::String(Some(1)).name(), TypeName::String);
    assert_eq!(ColumnType::Array(Box::new(ColumnType::Text)).name(), TypeName::Array);
    assert_eq!(TypeName::TimestampWithTimeZone.as_str(), "TimestampWithTimeZone");
}

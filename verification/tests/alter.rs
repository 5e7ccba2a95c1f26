use pg_table::backend::postgres::PostgresQueryBuilder;
use pg_table::error::RenderError;
use pg_table::expr::Expr;
use pg_table::foreign_key::{ForeignKeyAction, TableForeignKey};
use pg_table::table::{
    AddColumnOption, ColumnDef, ColumnSpec, TableAlterOption, TableAlterStatement,
    TableRenameStatement,
};
use pg_table::types::{ColumnType, TableRef, TypeName};

fn table(name: &str) -> Option<TableRef> {
    Some(TableRef::Table(name.to_string()))
}

fn column(name: &str, types: Option<ColumnType>, spec: Vec<ColumnSpec>) -> ColumnDef {
    ColumnDef { name: name.to_string(), types, spec }
}

fn alter(table: Option<TableRef>, options: Vec<TableAlterOption>) -> Result<String, RenderError> {
    let statement = TableAlterStatement { table, options };
    let mut sql = String::new();
    PostgresQueryBuilder.prepare_table_alter_statement(&statement, &mut sql)?;
    Ok(sql)
}

fn modify(column_def: ColumnDef) -> Result<String, RenderError> {
    let mut sql = String::new();
    PostgresQueryBuilder.prepare_modify_column(&column_def, &mut sql)?;
    Ok(sql)
}

#[test]
fn rename_column() {
    let sql = alter(
        table("t"),
        vec![TableAlterOption::RenameColumn("a".to_string(), "b".to_string())],
    );
    assert_eq!(sql.unwrap(), "ALTER TABLE \"t\" RENAME COLUMN \"a\" TO \"b\"");
}

#[test]
fn alter_without_options_is_refused() {
    assert_eq!(alter(table("t"), vec![]), Err(RenderError::NoAlterOption));
    assert_eq!(alter(None, vec![]), Err(RenderError::NoAlterOption));
    assert_eq!(
        alter(Some(TableRef::SchemaTable("s".to_string(), "t".to_string())), vec![]),
        Err(RenderError::NoAlterOption)
    );
}

#[test]
fn alter_without_options_writes_nothing() {
    let statement = TableAlterStatement { table: table("t"), options: vec![] };
    let mut sql = String::from("-- ");
    assert!(PostgresQueryBuilder.prepare_table_alter_statement(&statement, &mut sql).is_err());
    assert_eq!(sql, "-- ");
}

#[test]
fn modify_with_type_and_two_specs_gives_three_clauses() {
    let def = column(
        "age",
        Some(ColumnType::Integer(None)),
        vec![ColumnSpec::NotNull, ColumnSpec::Default(Expr::Int(18))],
    );
    let sql = modify(def).unwrap();
    assert_eq!(
        sql,
        "ALTER COLUMN \"age\" TYPE integer, ALTER COLUMN \"age\" SET NOT NULL, \
         ALTER COLUMN \"age\" SET DEFAULT 18"
    );
    assert_eq!(sql.split(", ").count(), 3);
}

#[test]
fn modify_inside_alter() {
    let def = column(
        "age",
        Some(ColumnType::Integer(None)),
        vec![ColumnSpec::NotNull, ColumnSpec::Default(Expr::Int(18))],
    );
    let sql = alter(table("person"), vec![TableAlterOption::ModifyColumn(def)]).unwrap();
    assert_eq!(
        sql,
        "ALTER TABLE \"person\" ALTER COLUMN \"age\" TYPE integer, \
         ALTER COLUMN \"age\" SET NOT NULL, ALTER COLUMN \"age\" SET DEFAULT 18"
    );
}

#[test]
fn modify_each_spec_has_its_clause() {
    let def = column(
        "c",
        None,
        vec![
            ColumnSpec::Null,
            ColumnSpec::NotNull,
            ColumnSpec::Default(Expr::Bool(true)),
            ColumnSpec::UniqueKey,
            ColumnSpec::PrimaryKey,
            ColumnSpec::Extra("SET STATISTICS 100".to_string()),
        ],
    );
    assert_eq!(
        modify(def).unwrap(),
        "ALTER COLUMN \"c\" DROP NOT NULL, ALTER COLUMN \"c\" SET NOT NULL, \
         ALTER COLUMN \"c\" SET DEFAULT TRUE, ADD UNIQUE (\"c\"), ADD PRIMARY KEY (\"c\"), \
         SET STATISTICS 100"
    );
}

#[test]
fn modify_auto_increment_takes_no_comma_slot() {
    let leading = column("c", None, vec![ColumnSpec::AutoIncrement, ColumnSpec::NotNull]);
    assert_eq!(modify(leading).unwrap(), "ALTER COLUMN \"c\" SET NOT NULL");

    let middle = column(
        "c",
        None,
        vec![ColumnSpec::Null, ColumnSpec::AutoIncrement, ColumnSpec::UniqueKey],
    );
    assert_eq!(modify(middle).unwrap(), "ALTER COLUMN \"c\" DROP NOT NULL, ADD UNIQUE (\"c\")");

    let trailing = column("c", None, vec![ColumnSpec::NotNull, ColumnSpec::AutoIncrement]);
    assert_eq!(modify(trailing).unwrap(), "ALTER COLUMN \"c\" SET NOT NULL");
}

#[test]
fn modify_type_with_auto_increment_uses_serial() {
    let def = column(
        "id",
        Some(ColumnType::BigInteger(None)),
        vec![ColumnSpec::AutoIncrement, ColumnSpec::NotNull],
    );
    assert_eq!(
        modify(def).unwrap(),
        "ALTER COLUMN \"id\" TYPE bigserial, ALTER COLUMN \"id\" SET NOT NULL"
    );
}

#[test]
fn modify_type_only() {
    let def = column("c", Some(ColumnType::Text), vec![]);
    assert_eq!(modify(def).unwrap(), "ALTER COLUMN \"c\" TYPE text");
}

#[test]
fn modify_with_nothing_to_do_writes_nothing() {
    assert_eq!(modify(column("c", None, vec![])).unwrap(), "");
    assert_eq!(modify(column("c", None, vec![ColumnSpec::AutoIncrement])).unwrap(), "");
}

#[test]
fn modify_refuses_unsupported_types() {
    let year = column("c", Some(ColumnType::Year(None)), vec![ColumnSpec::NotNull]);
    assert_eq!(modify(year), Err(RenderError::UnsupportedType(TypeName::Year)));
    let text = column("c", Some(ColumnType::Text), vec![ColumnSpec::AutoIncrement]);
    assert_eq!(modify(text), Err(RenderError::UnsupportedAutoIncrement(TypeName::Text)));
}

#[test]
fn modify_refusal_leaves_the_sink_unchanged() {
    let year = column("c", Some(ColumnType::Year(None)), vec![ColumnSpec::NotNull]);
    let mut sql = String::from("x");
    assert!(PostgresQueryBuilder.prepare_modify_column(&year, &mut sql).is_err());
    assert_eq!(sql, "x");
}

#[test]
fn add_column() {
    let add = AddColumnOption {
        column: column("note", Some(ColumnType::Text), vec![ColumnSpec::Null]),
        if_not_exists: false,
    };
    assert_eq!(
        alter(table("t"), vec![TableAlterOption::AddColumn(add)]).unwrap(),
        "ALTER TABLE \"t\" ADD COLUMN \"note\" text NULL"
    );
}

#[test]
fn add_column_if_not_exists() {
    let add = AddColumnOption {
        column: column("id", Some(ColumnType::Integer(None)), vec![ColumnSpec::AutoIncrement]),
        if_not_exists: true,
    };
    assert_eq!(
        alter(table("t"), vec![TableAlterOption::AddColumn(add)]).unwrap(),
        "ALTER TABLE \"t\" ADD COLUMN IF NOT EXISTS \"id\" serial"
    );
}

#[test]
fn drop_column() {
    assert_eq!(
        alter(table("t"), vec![TableAlterOption::DropColumn("old".to_string())]).unwrap(),
        "ALTER TABLE \"t\" DROP COLUMN \"old\""
    );
}

#[test]
fn drop_foreign_key() {
    assert_eq!(
        alter(table("t"), vec![TableAlterOption::DropForeignKey("fk_owner".to_string())]).unwrap(),
        "ALTER TABLE \"t\" DROP CONSTRAINT \"fk_owner\""
    );
}

#[test]
fn add_foreign_key() {
    let foreign_key = TableForeignKey {
        name: Some("fk_owner".to_string()),
        table: table("pet"),
        ref_table: table("person"),
        columns: vec!["owner_id".to_string()],
        ref_columns: vec!["id".to_string()],
        on_delete: Some(ForeignKeyAction::Cascade),
        on_update: None,
    };
    assert_eq!(
        alter(table("pet"), vec![TableAlterOption::AddForeignKey(foreign_key)]).unwrap(),
        "ALTER TABLE \"pet\" ADD CONSTRAINT \"fk_owner\" FOREIGN KEY (\"owner_id\") \
         REFERENCES \"person\" (\"id\") ON DELETE CASCADE"
    );
}

#[test]
fn options_are_joined_by_commas_in_order() {
    let options = vec![
        TableAlterOption::DropColumn("a".to_string()),
        TableAlterOption::RenameColumn("b".to_string(), "c".to_string()),
        TableAlterOption::AddColumn(AddColumnOption {
            column: column("d", Some(ColumnType::Boolean), vec![]),
            if_not_exists: false,
        }),
    ];
    assert_eq!(
        alter(table("t"), options).unwrap(),
        "ALTER TABLE \"t\" DROP COLUMN \"a\", RENAME COLUMN \"b\" TO \"c\", ADD COLUMN \"d\" bool"
    );
}

#[test]
fn alter_without_table_keeps_one_space() {
    assert_eq!(
        alter(None, vec![TableAlterOption::DropColumn("a".to_string())]).unwrap(),
        "ALTER TABLE DROP COLUMN \"a\""
    );
}

#[test]
fn alter_on_qualified_tables() {
    let schema = Some(TableRef::SchemaTable("public".to_string(), "t".to_string()));
    assert_eq!(
        alter(schema, vec![TableAlterOption::DropColumn("a".to_string())]).unwrap(),
        "ALTER TABLE \"public\".\"t\" DROP COLUMN \"a\""
    );
    let database = Some(TableRef::DatabaseSchemaTable(
        "db".to_string(),
        "public".to_string(),
        "t".to_string(),
    ));
    assert_eq!(
        alter(database, vec![TableAlterOption::DropColumn("a".to_string())]).unwrap(),
        "ALTER TABLE \"db\".\"public\".\"t\" DROP COLUMN \"a\""
    );
}

#[test]
fn first_failing_option_decides_the_error() {
    let options = vec![
        TableAlterOption::DropColumn("a".to_string()),
        TableAlterOption::AddColumn(AddColumnOption {
            column: column("b", Some(ColumnType::Text), vec![ColumnSpec::AutoIncrement]),
            if_not_exists: false,
        }),
        TableAlterOption::ModifyColumn(column("c", Some(ColumnType::Year(None)), vec![])),
    ];
    assert_eq!(
        alter(table("t"), options),
        Err(RenderError::UnsupportedAutoIncrement(TypeName::Text))
    );
}

#[test]
fn failing_alter_leaves_the_sink_unchanged() {
    let statement = TableAlterStatement {
        table: table("t"),
        options: vec![
            TableAlterOption::DropColumn("a".to_string()),
            TableAlterOption::ModifyColumn(column("c", Some(ColumnType::Year(None)), vec![])),
        ],
    };
    let mut sql = String::from("BEGIN; ");
    assert_eq!(
        PostgresQueryBuilder.prepare_table_alter_statement(&statement, &mut sql),
        Err(RenderError::UnsupportedType(TypeName::Year))
    );
    assert_eq!(sql, "BEGIN; ");
}

#[test]
fn alter_appends_to_the_sink() {
    let statement = TableAlterStatement {
        table: table("t"),
        options: vec![TableAlterOption::DropColumn("a".to_string())],
    };
    let mut sql = String::from("BEGIN; ");
    PostgresQueryBuilder.prepare_table_alter_statement(&statement, &mut sql).unwrap();
    assert_eq!(sql, "BEGIN; ALTER TABLE \"t\" DROP COLUMN \"a\"");
}

#[test]
fn empty_modify_still_takes_its_place_among_options() {
    let options = vec![
        TableAlterOption::ModifyColumn(column("c", None, vec![])),
        TableAlterOption::DropColumn("a".to_string()),
    ];
    assert_eq!(alter(table("t"), options).unwrap(), "ALTER TABLE \"t\" , DROP COLUMN \"a\"");
}

#[test]
fn rename_table() {
    let rename = TableRenameStatement { from_name: table("old"), to_name: table("new") };
    let mut sql = String::new();
    PostgresQueryBuilder.prepare_table_rename_statement(&rename, &mut sql);
    assert_eq!(sql, "ALTER TABLE \"old\" RENAME TO \"new\"");
}

#[test]
fn rename_table_with_missing_names() {
    let builder = PostgresQueryBuilder;
    let mut sql = String::new();
    builder.prepare_table_rename_statement(
        &TableRenameStatement { from_name: None, to_name: table("new") },
        &mut sql,
    );
    assert_eq!(sql, "ALTER TABLE  RENAME TO \"new\"");

    let mut sql = String::new();
    builder.prepare_table_rename_statement(
        &TableRenameStatement { from_name: table("old"), to_name: None },
        &mut sql,
    );
    assert_eq!(sql, "ALTER TABLE \"old\" RENAME TO ");

    let mut sql = String::new();
    builder.prepare_table_rename_statement(
        &TableRenameStatement { from_name: None, to_name: None },
        &mut sql,
    );
    assert_eq!(sql, "ALTER TABLE  RENAME TO ");
}

#[test]
fn rename_table_across_schemas() {
    let rename = TableRenameStatement {
        from_name: Some(TableRef::SchemaTable("a".to_string(), "t".to_string())),
        to_name: Some(TableRef::SchemaTable("a".to_string(), "u".to_string())),
    };
    let mut sql = String::new();
    PostgresQueryBuilder.prepare_table_rename_statement(&rename, &mut sql);
    assert_eq!(sql, "ALTER TABLE \"a\".\"t\" RENAME TO \"a\".\"u\"");
}

#[test]
fn single_option_is_refused_without_a_trace() {
    let option = TableAlterOption::AddColumn(AddColumnOption {
        column: column("y", Some(ColumnType::Year(None)), vec![]),
        if_not_exists: true,
    });
    let mut sql = String::from("x");
    assert_eq!(
        PostgresQueryBuilder.prepare_table_alter_option(&option, &mut sql),
        Err(RenderError::UnsupportedType(TypeName::Year))
    );
    assert_eq!(sql, "x");
    let option = TableAlterOption::DropColumn("y".to_string());
    PostgresQueryBuilder.prepare_table_alter_option(&option, &mut sql).unwrap();
    assert_eq!(sql, "xDROP COLUMN \"y\"");
}

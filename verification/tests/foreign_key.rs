use pg_table::backend::postgres::PostgresQueryBuilder;
use pg_table::foreign_key::{ForeignKeyAction, Mode, TableForeignKey};
use pg_table::types::TableRef;

fn sample() -> TableForeignKey {
    TableForeignKey {
        name: Some("fk_line_order".to_string()),
        table: Some(TableRef::Table("line".to_string())),
        ref_table: Some(TableRef::SchemaTable("shop".to_string(), "order".to_string())),
        columns: vec!["order_id".to_string(), "order_rev".to_string()],
        ref_columns: vec!["id".to_string(), "rev".to_string()],
        on_delete: Some(ForeignKeyAction::SetNull),
        on_update: Some(ForeignKeyAction::NoAction),
    }
}

fn create(foreign_key: &TableForeignKey, mode: Mode) -> String {
    let mut sql = String::new();
    PostgresQueryBuilder.prepare_foreign_key_create_statement_internal(foreign_key, &mut sql, mode);
    sql
}

fn drop_key(foreign_key: &TableForeignKey, mode: Mode) -> String {
    let mut sql = String::new();
    PostgresQueryBuilder.prepare_foreign_key_drop_statement_internal(foreign_key, &mut sql, mode);
    sql
}

#[test]
fn create_as_table_alter_option() {
    assert_eq!(
        create(&sample(), Mode::TableAlter),
        "ADD CONSTRAINT \"fk_line_order\" FOREIGN KEY (\"order_id\", \"order_rev\") \
         REFERENCES \"shop\".\"order\" (\"id\", \"rev\") ON DELETE SET NULL ON UPDATE NO ACTION"
    );
}

#[test]
fn create_as_statement() {
    assert_eq!(
        create(&sample(), Mode::Alter),
        "ALTER TABLE \"line\" ADD CONSTRAINT \"fk_line_order\" \
         FOREIGN KEY (\"order_id\", \"order_rev\") \
         REFERENCES \"shop\".\"order\" (\"id\", \"rev\") ON DELETE SET NULL ON UPDATE NO ACTION"
    );
}

#[test]
fn create_inside_table_definition() {
    assert_eq!(
        create(&sample(), Mode::Creation),
        "CONSTRAINT \"fk_line_order\" FOREIGN KEY (\"order_id\", \"order_rev\") \
         REFERENCES \"shop\".\"order\" (\"id\", \"rev\") ON DELETE SET NULL ON UPDATE NO ACTION"
    );
}

#[test]
fn create_without_name_or_actions() {
    let mut foreign_key = TableForeignKey::new();
    foreign_key.ref_table = Some(TableRef::Table("person".to_string()));
    foreign_key.columns = vec!["owner".to_string()];
    foreign_key.ref_columns = vec!["id".to_string()];
    assert_eq!(
        create(&foreign_key, Mode::TableAlter),
        "ADD FOREIGN KEY (\"owner\") REFERENCES \"person\" (\"id\")"
    );
}

#[test]
fn create_from_an_empty_key() {
    assert_eq!(create(&TableForeignKey::new(), Mode::TableAlter), "ADD FOREIGN KEY () REFERENCES  ()");
    assert_eq!(
        create(&TableForeignKey::new(), Mode::Alter),
        "ALTER TABLE  ADD FOREIGN KEY () REFERENCES  ()"
    );
}

#[test]
fn new_key_is_empty() {
    let foreign_key = TableForeignKey::new();
    assert_eq!(foreign_key.name, None);
    assert_eq!(foreign_key.table, None);
    assert_eq!(foreign_key.ref_table, None);
    assert!(foreign_key.columns.is_empty());
    assert!(foreign_key.ref_columns.is_empty());
    assert_eq!(foreign_key.on_delete, None);
    assert_eq!(foreign_key.on_update, None);
}

#[test]
fn every_action_has_its_words() {
    let cases = [
        (ForeignKeyAction::Restrict, "RESTRICT"),
        (ForeignKeyAction::Cascade, "CASCADE"),
        (ForeignKeyAction::SetNull, "SET NULL"),
        (ForeignKeyAction::NoAction, "NO ACTION"),
        (ForeignKeyAction::SetDefault, "SET DEFAULT"),
    ];
    for (action, expected) in cases {
        let mut sql = String::new();
        PostgresQueryBuilder.prepare_foreign_key_action(&action, &mut sql);
        assert_eq!(sql, expected);
    }
}

#[test]
fn update_action_without_delete_action() {
    let mut foreign_key = sample();
    foreign_key.on_delete = None;
    foreign_key.on_update = Some(ForeignKeyAction::Restrict);
    assert!(create(&foreign_key, Mode::TableAlter).ends_with("(\"id\", \"rev\") ON UPDATE RESTRICT"));
}

#[test]
fn drop_in_each_mode() {
    assert_eq!(drop_key(&sample(), Mode::TableAlter), "DROP CONSTRAINT \"fk_line_order\"");
    assert_eq!(drop_key(&sample(), Mode::Creation), "DROP CONSTRAINT \"fk_line_order\"");
    assert_eq!(
        drop_key(&sample(), Mode::Alter),
        "ALTER TABLE \"line\" DROP CONSTRAINT \"fk_line_order\""
    );
}

#[test]
fn drop_without_name() {
    assert_eq!(drop_key(&TableForeignKey::new(), Mode::TableAlter), "DROP CONSTRAINT ");
}

#[test]
fn identifier_list() {
    let builder = PostgresQueryBuilder;
    let mut sql = String::new();
    builder.prepare_iden_list(&vec![], &mut sql);
    assert_eq!(sql, "");
    builder.prepare_iden_list(&vec!["a".to_string()], &mut sql);
    assert_eq!(sql, "\"a\"");
    let mut sql = String::new();
    builder.prepare_iden_list(&vec!["a".to_string(), "b\"c".to_string(), "d".to_string()], &mut sql);
    assert_eq!(sql, "\"a\", \"b\"\"c\", \"d\"");
}

use hrana_client_proto::Value;
use libsql_hrana::statement::{build_batch, build_stmt, Statement};

fn integer(v: i64) -> Value {
    Value::Integer { value: v }
}

#[test]
fn wire_statement_keeps_text_and_binds_in_order() {
    let stmt = Statement::with_args(
        "INSERT INTO t VALUES (?, ?, ?)".to_string(),
        vec![integer(1), Value::Text { value: "two".to_string() }, Value::Null],
    );
    let wire = build_stmt(stmt);
    assert_eq!(wire.sql, "INSERT INTO t VALUES (?, ?, ?)");
    assert_eq!(wire.args.len(), 3);
    assert!(matches!(wire.args[0], Value::Integer { value: 1 }));
    assert!(matches!(&wire.args[1], Value::Text { value } if value == "two"));
    assert!(matches!(wire.args[2], Value::Null));
    assert!(wire.named_args.is_empty());
    assert!(wire.want_rows);
}

#[test]
fn wire_statement_without_parameters_asks_for_columns() {
    let wire = build_stmt(Statement::from_sql("SELECT 1".to_string()));
    assert_eq!(wire.sql, "SELECT 1");
    assert!(wire.args.is_empty());
    assert!(wire.want_rows);
}

#[test]
fn placeholder_count_is_not_checked_when_building() {
    let stmt = Statement::with_args("SELECT ?, ?".to_string(), vec![integer(7)]);
    let wire = build_stmt(stmt);
    assert_eq!(wire.args.len(), 1);
}

#[test]
fn batch_has_one_unconditional_step_per_statement_in_order() {
    let batch = build_batch(vec![
        Statement::with_args("INSERT INTO t VALUES (?)".to_string(), vec![integer(5)]),
        Statement::from_sql("SELEC oops".to_string()),
        Statement::from_sql("SELECT * FROM t".to_string()),
    ]);
    let text = format!("{:?}", batch);
    assert_eq!(text.matches("BatchStep").count(), 3);
    assert_eq!(text.matches("condition: None").count(), 3);
    let first = text.find("INSERT INTO t VALUES (?)").unwrap();
    let second = text.find("SELEC oops").unwrap();
    let third = text.find("SELECT * FROM t").unwrap();
    assert!(first < second && second < third);
    assert_eq!(text.matches("want_rows: true").count(), 3);
}

#[test]
fn empty_batch_has_no_steps() {
    let batch = build_batch(Vec::new());
    let text = format!("{:?}", batch);
    assert_eq!(text.matches("BatchStep").count(), 0);
}

use bmbp_orm::materialize::{rows_from_native, NativeCell, NativeColumn};
use bmbp_orm::orm::extract_count;
use bmbp_orm::row::RdbcOrmRow;
use bmbp_orm::value::RdbcValue;

fn count_row(value: RdbcValue) -> RdbcOrmRow {
    let mut row = RdbcOrmRow::new();
    row.push_column("count".to_string(), value);
    row
}

#[test]
fn extract_count_reads_the_count_column() {
    assert_eq!(extract_count(Some(count_row(RdbcValue::BigInt(42)))).unwrap(), 42);
    assert_eq!(extract_count(Some(count_row(RdbcValue::Int(7)))).unwrap(), 7);
    assert_eq!(extract_count(Some(count_row(RdbcValue::SmallInt(3)))).unwrap(), 3);
}

#[test]
fn extract_count_without_a_row_fails() {
    let err = extract_count(None).err().unwrap();
    assert!(matches!(err.kind, bmbp_orm::error::OrmErrorKind::SqlError));
    assert_eq!(err.msg, "查询总数失败: 未查询到统计记录");
}

#[test]
fn extract_count_without_the_count_column_fails() {
    let mut row = RdbcOrmRow::new();
    row.push_column("total".to_string(), RdbcValue::BigInt(5));
    let err = extract_count(Some(row)).err().unwrap();
    assert!(matches!(err.kind, bmbp_orm::error::OrmErrorKind::SqlError));
    assert_eq!(err.msg, "查询总数失败: 未获取到记录数");
}

#[test]
fn extract_count_with_a_non_numeric_count_fails() {
    let err = extract_count(Some(count_row(RdbcValue::Varchar("9".to_string()))))
        .err()
        .unwrap();
    assert!(matches!(err.kind, bmbp_orm::error::OrmErrorKind::SqlError));
    assert_eq!(err.msg, "查询总数失败: 记录数值解析异常");

    let err = extract_count(Some(count_row(RdbcValue::BigInt(-1)))).err().unwrap();
    assert_eq!(err.msg, "查询总数失败: 记录数值解析异常");
}

#[test]
fn lookup_takes_the_last_entry_for_a_name() {
    let mut row = RdbcOrmRow::new();
    row.push_column("a".to_string(), RdbcValue::BigInt(1));
    row.push_column("a".to_string(), RdbcValue::BigInt(2));
    match row.get("a") {
        Some(RdbcValue::BigInt(v)) => assert_eq!(*v, 2),
        other => panic!("wrong lookup result: {:?}", other),
    }
    assert!(row.get("b").is_none());
}

#[test]
fn as_number_widens_integer_tags_only() {
    assert_eq!(RdbcValue::SmallInt(-3).as_number(), Some(-3));
    assert_eq!(RdbcValue::Int(12).as_number(), Some(12));
    assert_eq!(RdbcValue::BigInt(1 << 40).as_number(), Some(1 << 40));
    assert_eq!(RdbcValue::Varchar("12".to_string()).as_number(), None);
    assert_eq!(RdbcValue::Boolean(true).as_number(), None);
    assert_eq!(RdbcValue::Null.as_number(), None);
    assert!(RdbcValue::Null.is_null());
}

fn native(name: &str, col_type: &str, cell: NativeCell) -> NativeColumn {
    NativeColumn {
        name: name.to_string(),
        col_type: col_type.to_string(),
        cell,
    }
}

/// A row's values come back coerced per the fixed column-type table.
#[test]
fn materializer_applies_the_type_table() {
    let cols = vec![
        native("name", "varchar", NativeCell::Text("li".to_string())),
        native("note", "text", NativeCell::Text("x".to_string())),
        native("small", "int2", NativeCell::I16(5)),
        native("mid", "int4", NativeCell::I32(70000)),
        native("big", "int8", NativeCell::I64(1 << 40)),
        native("ratio", "float4", NativeCell::F32Bits(2.5f32.to_bits())),
        native("seen", "timestamp", NativeCell::TimestampMicros(1_700_000_000_000_000)),
        native("ok", "bool", NativeCell::Bool(true)),
    ];
    let row = RdbcOrmRow::from_native(cols);
    assert_eq!(row.get_columns().len(), 8);
    assert!(matches!(row.get("name"), Some(RdbcValue::Varchar(s)) if s == "li"));
    assert!(matches!(row.get("note"), Some(RdbcValue::Varchar(s)) if s == "x"));
    assert!(matches!(row.get("small"), Some(RdbcValue::Int(5))));
    assert!(matches!(row.get("mid"), Some(RdbcValue::BigInt(70000))));
    assert!(matches!(row.get("big"), Some(RdbcValue::BigInt(v)) if *v == 1 << 40));
    match row.get("ratio") {
        Some(RdbcValue::Double(bits)) => assert_eq!(f32::from_bits(*bits), 2.5),
        other => panic!("wrong value: {:?}", other),
    }
    assert!(matches!(
        row.get("seen"),
        Some(RdbcValue::DateTime(1_700_000_000_000_000))
    ));
    assert!(matches!(row.get("ok"), Some(RdbcValue::Boolean(true))));
}

#[test]
fn materializer_keeps_lockstep_with_nulls_and_unknown_types() {
    let cols = vec![
        native("a", "varchar", NativeCell::Absent),
        native("b", "uuid", NativeCell::Text("x".to_string())),
        native("c", "int2", NativeCell::Text("mismatch".to_string())),
    ];
    let row = RdbcOrmRow::from_native(cols);
    assert_eq!(row.get_columns().len(), 3);
    assert_eq!(row.get_data().len(), 3);
    assert!(matches!(row.get("a"), Some(RdbcValue::Null)));
    assert!(matches!(row.get("b"), Some(RdbcValue::Null)));
    assert!(matches!(row.get("c"), Some(RdbcValue::Null)));
}

#[test]
fn rows_from_native_keeps_order_and_length() {
    let batch = vec![
        vec![native("n", "int8", NativeCell::I64(1))],
        vec![native("n", "int8", NativeCell::I64(2))],
        vec![],
    ];
    let rows = rows_from_native(batch);
    assert_eq!(rows.len(), 3);
    assert!(matches!(rows[0].get("n"), Some(RdbcValue::BigInt(1))));
    assert!(matches!(rows[1].get("n"), Some(RdbcValue::BigInt(2))));
    assert!(rows[2].get_columns().is_empty());
}

#[test]
fn empty_and_default_rows_are_empty() {
    let row = RdbcOrmRow::new();
    assert!(row.get_columns().is_empty());
    assert!(row.get_data().is_empty());
    let row: RdbcOrmRow = Default::default();
    assert!(row.get_columns().is_empty());
    assert!(row.get("anything").is_none());
}

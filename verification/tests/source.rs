use std::sync::Arc;

use connectorx::decode::{Column, ColumnType, Row};
use connectorx::errors::{ConnectorXError, DataOrder, SnowflakeSourceError};
use connectorx::conn::parse_connection;
use connectorx::source::{row_count, CXQuery, Client, SnowflakeSource, SnowflakeSourcePartition};
use connectorx::sql::{count_query, limit1_query};
use connectorx::typesystem::SnowflakeTypeSystem;

fn runtime() -> Arc<tokio::runtime::Runtime> {
    Arc::new(tokio::runtime::Builder::new_current_thread().build().unwrap())
}

fn source() -> SnowflakeSource {
    SnowflakeSource::new(runtime(), "snowflake://u:pw@h/?account=a").unwrap()
}

fn column(name: &str, ty: &str) -> Column {
    Column {
        name: name.to_string(),
        column_type: ColumnType { snowflake_type: ty.to_string(), nullable: true, length: None, precision: None, scale: None },
    }
}

fn row(columns: Vec<Column>, values: Vec<Option<&str>>) -> Row {
    Row { columns, values: values.into_iter().map(|v| v.map(|s| s.to_string())).collect() }
}

fn other_message<T>(r: Result<T, SnowflakeSourceError>) -> String {
    match r {
        Err(SnowflakeSourceError::Other(m)) => m,
        Err(e) => panic!("unexpected error {:?}", e),
        Ok(_) => panic!("unexpected success"),
    }
}

#[test]
fn new_source_is_empty() {
    let rt = runtime();
    let s = SnowflakeSource::new(rt.clone(), "snowflake://u:pw@h/?account=a&timeout=5").unwrap();
    assert!(s.names().is_empty());
    assert!(s.schema().is_empty());
    assert!(s.queries().is_empty());
    assert_eq!(s.origin_query(), None);
    assert!(Arc::ptr_eq(s.runtime(), &rt));
}

#[test]
fn new_source_refuses_bad_settings() {
    let r = SnowflakeSource::new(runtime(), "snowflake://u:pw@h/?warehouse=w");
    assert_eq!(other_message(r), "account is not found in connection string");
    match SnowflakeSource::new(runtime(), "nonsense") {
        Err(SnowflakeSourceError::SnowflakeUrlError(_)) => {}
        _ => panic!("expected a URL error"),
    }
}

#[test]
fn data_order() {
    let mut s = source();
    assert!(s.set_data_order(DataOrder::RowMajor).is_ok());
    match s.set_data_order(DataOrder::ColumnMajor) {
        Err(SnowflakeSourceError::ConnectorXError(ConnectorXError::UnsupportedDataOrder(DataOrder::ColumnMajor))) => {}
        other => panic!("unexpected {:?}", other),
    }
}

#[test]
fn queries_and_origin() {
    let mut s = source();
    s.set_queries(&[CXQuery::Naked("select 1".to_string()), CXQuery::Wrapped("select 2".to_string())]);
    assert_eq!(s.queries().len(), 2);
    assert_eq!(s.queries()[0].as_str(), "select 1");
    assert_eq!(s.queries()[1].as_str(), "select 2");
    s.set_origin_query(Some("select *".to_string()));
    assert_eq!(s.origin_query(), Some("select *".to_string()));
}

#[test]
fn metadata_from_first_row() {
    let mut s = source();
    let r = row(vec![column("ID", "fixed"), column("NAME", "text"), column("N", "int")], vec![Some("1"), None, Some("3")]);
    s.record_metadata(Some(&r)).unwrap();
    assert_eq!(s.names(), vec!["ID".to_string(), "NAME".to_string(), "N".to_string()]);
    assert_eq!(
        s.schema(),
        vec![SnowflakeTypeSystem::Float(true), SnowflakeTypeSystem::Varchar(true), SnowflakeTypeSystem::Number(true)]
    );
}

#[test]
fn metadata_of_empty_result() {
    let mut s = source();
    let r = row(vec![column("A", "date")], vec![Some("1")]);
    s.record_metadata(Some(&r)).unwrap();
    let e = s.record_metadata(None);
    assert_eq!(other_message(e), "cannot get columns data due to empty query result");
    assert_eq!(s.names(), vec!["A".to_string()]);
    assert_eq!(s.schema(), vec![SnowflakeTypeSystem::Date(true)]);
}

#[test]
fn metadata_with_unknown_type() {
    let mut s = source();
    let r = row(vec![column("A", "variant")], vec![Some("{}")]);
    assert!(s.try_record_metadata(Some(&r)).is_none());
    assert!(s.names().is_empty());
    let r = row(vec![column("A", "boolean")], vec![Some("true")]);
    assert!(matches!(s.try_record_metadata(Some(&r)), Some(Ok(()))));
    assert_eq!(s.schema(), vec![SnowflakeTypeSystem::Boolean(true)]);
}

#[test]
fn counts() {
    let c = vec![column("COUNT(*)", "fixed")];
    assert_eq!(row_count(Some(&row(c, vec![Some("42")]))).unwrap(), 42);
    let c = vec![column("COUNT(*)", "fixed")];
    assert_eq!(other_message(row_count(Some(&row(c, vec![Some("4x")])))), "decode error: '4x' is not u64");
    let c = vec![column("COUNT(*)", "fixed")];
    assert_eq!(other_message(row_count(Some(&row(c, vec![None])))), "decode error: value is null");
    assert_eq!(other_message(row_count(None)), "cannot get count result");
}

#[test]
fn origin_row_count() {
    let mut s = source();
    let c = vec![column("COUNT(*)", "fixed")];
    assert_eq!(s.origin_row_count(Some(&row(c, vec![Some("7")]))).unwrap(), None);
    s.set_origin_query(Some("select 1".to_string()));
    let c = vec![column("COUNT(*)", "fixed")];
    assert_eq!(s.origin_row_count(Some(&row(c, vec![Some("7")]))).unwrap(), Some(7));
    assert_eq!(other_message(s.origin_row_count(None)), "cannot get count result");
}

#[test]
fn partitions_follow_queries() {
    let mut s = source();
    s.set_queries(&[CXQuery::Naked("q1".to_string()), CXQuery::Naked("q2".to_string()), CXQuery::Naked("q3".to_string())]);
    let r = row(vec![column("A", "int"), column("B", "text")], vec![Some("1"), Some("x")]);
    s.record_metadata(Some(&r)).unwrap();
    let rt = s.runtime().clone();
    let parts = s.partition().unwrap();
    assert_eq!(parts.len(), 3);
    for (i, p) in parts.iter().enumerate() {
        assert_eq!(p.query().as_str(), format!("q{}", i + 1));
        assert_eq!(p.nrows(), 0);
        assert_eq!(p.ncols(), 2);
        assert!(Arc::ptr_eq(p.runtime(), &rt));
    }
}

#[test]
fn partition_row_count() {
    let client = Client::connect(parse_connection("snowflake://u:pw@h/?account=a").unwrap()).unwrap();
    let mut p = SnowflakeSourcePartition::new(
        runtime(),
        Arc::new(client),
        &CXQuery::Naked("select 1".to_string()),
        &[SnowflakeTypeSystem::Number(true)],
    );
    assert_eq!(p.ncols(), 1);
    let c = vec![column("COUNT(*)", "fixed")];
    p.record_row_count(Some(&row(c, vec![Some("12")]))).unwrap();
    assert_eq!(p.nrows(), 12);
    assert!(p.record_row_count(None).is_err());
    assert_eq!(p.nrows(), 12);
}

#[test]
fn count_and_first_row_queries() {
    let q = CXQuery::Naked("select a from t".to_string());
    let c = count_query(&q).unwrap();
    assert!(matches!(c, CXQuery::Wrapped(_)));
    assert_eq!(c.as_str(), "SELECT COUNT(*) FROM (select a from t) AS CXTMPTAB_COUNT");
    assert_eq!(limit1_query(&q).unwrap().as_str(), "SELECT * FROM (select a from t) AS CXTMPTAB_LIMIT1 LIMIT 1");
}

#[test]
fn queries_that_are_not_sql() {
    let q = CXQuery::Naked("select from where".to_string());
    match count_query(&q) {
        Err(SnowflakeSourceError::ConnectorXError(ConnectorXError::SqlParserError(_))) => {}
        other => panic!("unexpected {:?}", other.map(|_| ())),
    }
    assert!(limit1_query(&q).is_err());
}

#[test]
fn client_of_connection_settings() {
    let settings = parse_connection("snowflake://u:pw@h/?account=a&role=r").unwrap();
    assert!(Client::connect(settings).is_ok());
}

#[test]
fn row_count_is_the_latest_successful_count() {
    let client = Client::connect(parse_connection("snowflake://u:pw@h/?account=a").unwrap()).unwrap();
    let mut p = SnowflakeSourcePartition::new(
        runtime(),
        Arc::new(client),
        &CXQuery::Naked("select 1".to_string()),
        &[SnowflakeTypeSystem::Number(true), SnowflakeTypeSystem::Varchar(true)],
    );
    assert_eq!(p.nrows(), 0);
    assert!(p.record_row_count(None).is_err());
    assert_eq!(p.nrows(), 0);
    let c = || vec![column("COUNT(*)", "fixed")];
    p.record_row_count(Some(&row(c(), vec![Some("7")]))).unwrap();
    p.record_row_count(Some(&row(c(), vec![Some("3")]))).unwrap();
    assert!(p.record_row_count(Some(&row(c(), vec![Some("x")]))).is_err());
    assert_eq!(p.nrows(), 3);
    assert_eq!(p.ncols(), 2);
    let parser = p.parser_over(vec![]);
    assert_eq!(parser.location(), (0, 0));
    assert_eq!(p.ncols(), 2);
}

#[test]
fn names_and_schema_keep_equal_lengths() {
    let mut s = source();
    assert_eq!(s.names().len(), s.schema().len());
    s.set_queries(&[CXQuery::Naked("q".to_string())]);
    let r = row(vec![column("A", "int"), column("B", "date"), column("C", "boolean")], vec![None, None, None]);
    s.record_metadata(Some(&r)).unwrap();
    assert_eq!(s.names(), vec!["A", "B", "C"]);
    assert_eq!(s.schema().len(), 3);
    assert!(s.record_metadata(None).is_err());
    assert_eq!(s.names().len(), 3);
    assert!(s.try_record_metadata(Some(&row(vec![column("D", "geography")], vec![None]))).is_none());
    assert_eq!(s.names().len(), s.schema().len());
    s.set_origin_query(Some("q".to_string()));
    assert_eq!(s.names().len(), s.schema().len());
}

#[test]
fn the_last_queries_set_decide_the_partitions() {
    let mut s = source();
    s.set_queries(&[CXQuery::Naked("a".to_string()), CXQuery::Naked("b".to_string())]);
    s.set_queries(&[CXQuery::Naked("c".to_string())]);
    s.set_origin_query(Some("o".to_string()));
    s.record_metadata(Some(&row(vec![column("A", "int")], vec![Some("1")]))).unwrap();
    s.set_data_order(DataOrder::RowMajor).unwrap();
    let parts = s.partition().unwrap();
    assert_eq!(parts.len(), 1);
    assert_eq!(parts[0].query().as_str(), "c");
    assert!(source().partition().unwrap().is_empty());
}

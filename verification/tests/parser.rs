use std::sync::Arc;

use connectorx::conn::parse_connection;
use connectorx::decode::{Column, ColumnType, DateTimeValue, DateValue, Row, TimeValue};
use connectorx::errors::SnowflakeSourceError;
use connectorx::parser::SnowflakeSourceParser;
use connectorx::source::{CXQuery, Client, SnowflakeSourcePartition};
use connectorx::typesystem::SnowflakeTypeSystem;

fn column(name: &str, ty: &str, scale: Option<i64>) -> Column {
    Column {
        name: name.to_string(),
        column_type: ColumnType { snowflake_type: ty.to_string(), nullable: true, length: None, precision: None, scale },
    }
}

fn row(columns: Vec<Column>, values: Vec<Option<&str>>) -> Row {
    Row { columns, values: values.into_iter().map(|v| v.map(|s| s.to_string())).collect() }
}

fn parser(schema: &[SnowflakeTypeSystem], rows: Vec<Row>) -> SnowflakeSourceParser {
    let rt = Arc::new(tokio::runtime::Builder::new_current_thread().build().unwrap());
    let client = Client::connect(parse_connection("snowflake://u:pw@h/?account=a").unwrap()).unwrap();
    let p = SnowflakeSourcePartition::new(rt, Arc::new(client), &CXQuery::Naked("q".to_string()), schema);
    p.parser_over(rows)
}

fn other_message<T>(r: Result<T, SnowflakeSourceError>) -> String {
    match r {
        Err(SnowflakeSourceError::Other(m)) => m,
        Err(e) => panic!("unexpected error {:?}", e),
        Ok(_) => panic!("unexpected success"),
    }
}

fn two_by_two() -> SnowflakeSourceParser {
    let cols = || vec![column("A", "fixed", None), column("B", "text", None)];
    parser(
        &[SnowflakeTypeSystem::Number(true), SnowflakeTypeSystem::Varchar(true)],
        vec![row(cols(), vec![Some("1"), Some("one")]), row(cols(), vec![None, Some("two")])],
    )
}

#[test]
fn locations_go_row_by_row() {
    let mut p = two_by_two();
    let mut seen = vec![];
    for _ in 0..5 {
        seen.push(p.next_loc().unwrap());
    }
    assert_eq!(seen, vec![(0, 0), (0, 1), (1, 0), (1, 1), (2, 0)]);
}

#[test]
fn locations_of_a_three_column_parser() {
    let cols = || vec![column("A", "text", None), column("B", "text", None), column("C", "text", None)];
    let mut p = parser(
        &[SnowflakeTypeSystem::Varchar(true); 3],
        vec![row(cols(), vec![Some("a"), Some("b"), Some("c")])],
    );
    for k in 0..10usize {
        assert_eq!(p.next_loc().unwrap(), (k / 3, k % 3));
    }
}

#[test]
fn fetch_next_gives_all_rows() {
    let mut p = two_by_two();
    assert_eq!(p.fetch_next().unwrap(), (2, true));
}

#[test]
fn produce_cells() {
    let mut p = two_by_two();
    assert_eq!(p.produce_i64().unwrap(), 1);
    assert_eq!(p.produce_string().unwrap(), "one");
    assert_eq!(p.produce_opt_i64().unwrap(), None);
    assert_eq!(p.produce_opt_string().unwrap(), Some("two".to_string()));
    assert_eq!(other_message(p.produce_i64()), "row is none");
}

#[test]
fn null_cell_is_an_error_when_not_optional() {
    let mut p = two_by_two();
    p.next_loc().unwrap();
    p.next_loc().unwrap();
    assert_eq!(other_message(p.produce_i64()), "decode error: value is null");
}

#[test]
fn integers_and_their_ranges() {
    let cols = || vec![column("A", "fixed", None)];
    let mut p = parser(
        &[SnowflakeTypeSystem::Number(true)],
        vec![
            row(cols(), vec![Some("-128")]),
            row(cols(), vec![Some("128")]),
            row(cols(), vec![Some("+2147483647")]),
            row(cols(), vec![Some("12a")]),
            row(cols(), vec![Some("-9223372036854775808")]),
        ],
    );
    assert_eq!(p.produce_i8().unwrap(), -128);
    assert_eq!(other_message(p.produce_i8()), "decode error: '128' is not i8");
    assert_eq!(p.produce_opt_i32().unwrap(), Some(2147483647));
    assert_eq!(other_message(p.produce_i32()), "decode error: '12a' is not i32");
    assert_eq!(p.produce_i64().unwrap(), i64::MIN);
}

#[test]
fn booleans() {
    let cols = || vec![column("A", "boolean", None)];
    let mut p = parser(
        &[SnowflakeTypeSystem::Boolean(true)],
        vec![
            row(cols(), vec![Some("true")]),
            row(cols(), vec![Some("0")]),
            row(cols(), vec![Some("False")]),
            row(cols(), vec![Some("yes")]),
            row(cols(), vec![None]),
        ],
    );
    assert!(p.produce_bool().unwrap());
    assert!(!p.produce_bool().unwrap());
    assert_eq!(p.produce_opt_bool().unwrap(), Some(false));
    assert_eq!(other_message(p.produce_bool()), "decode error: 'yes' is not bool");
    assert_eq!(p.produce_opt_bool().unwrap(), None);
}

#[test]
fn bytes_are_the_utf8_of_the_text() {
    let cols = || vec![column("A", "binary", None)];
    let mut p = parser(
        &[SnowflakeTypeSystem::Binary(true)],
        vec![row(cols(), vec![Some("hé")]), row(cols(), vec![None]), row(cols(), vec![Some("x")])],
    );
    assert_eq!(p.produce_bytes().unwrap(), vec![0x68, 0xc3, 0xa9]);
    assert_eq!(p.produce_opt_bytes().unwrap(), None);
    assert_eq!(p.produce_opt_bytes().unwrap(), Some(vec![0x78]));
}

#[test]
fn dates_times_and_timestamps() {
    let cols = || vec![column("D", "date", None), column("T", "time", Some(3)), column("TS", "timestamp_ntz", Some(9))];
    let mut p = parser(
        &[SnowflakeTypeSystem::Date(true), SnowflakeTypeSystem::Time(true), SnowflakeTypeSystem::DateTime(true)],
        vec![
            row(cols(), vec![Some("1"), Some("3661.5"), Some("86400.000000001")]),
            row(cols(), vec![None, None, None]),
            row(cols(), vec![Some("x"), Some("y"), Some("z")]),
        ],
    );
    assert_eq!(p.produce_date().unwrap(), DateValue { days_from_ce: 719_164 });
    assert_eq!(p.produce_time().unwrap(), TimeValue { secs: 3661, nanos: 500_000_000 });
    let expected = DateTimeValue { date: DateValue { days_from_ce: 719_164 }, time: TimeValue { secs: 0, nanos: 1 } };
    assert!(p.timestamp_ready());
    assert_eq!(p.produce_datetime().unwrap(), expected);
    assert_eq!(p.produce_opt_date().unwrap(), None);
    assert_eq!(p.produce_opt_time().unwrap(), None);
    assert_eq!(other_message(p.produce_datetime()), "decode error: value is null");
    assert_eq!(other_message(p.produce_date()), "decode error: 'x' is not Date type");
    assert!(p.produce_opt_time().is_err());
    assert!(p.produce_opt_datetime().is_err());
}

#[test]
fn json_cells() {
    let cols = || vec![column("J", "variant", None)];
    let mut p = parser(
        &[SnowflakeTypeSystem::Varchar(true)],
        vec![row(cols(), vec![Some("{\"a\": [1, 2]}")]), row(cols(), vec![None]), row(cols(), vec![Some("{")])],
    );
    let mut object = serde_json::Map::new();
    object.insert("a".to_string(), serde_json::Value::Array(vec![serde_json::Value::from(1), serde_json::Value::from(2)]));
    assert_eq!(p.produce_json().unwrap(), serde_json::Value::Object(object));
    assert_eq!(p.produce_opt_json().unwrap(), None);
    assert!(p.produce_json().is_err());
}

#[test]
fn cells_by_location() {
    let p = two_by_two();
    assert_eq!(p.value_at(0, 1), &Some("one".to_string()));
    assert_eq!(p.value_at(1, 0), &None);
    assert_eq!(p.type_at(1, 1).snowflake_type, "text");
}

#[test]
fn timestamps_only_from_timestamp_columns() {
    let cols = || vec![column("TS", "Date", None), column("TZ", "timestamp_ltz", Some(0))];
    let mut p = parser(
        &[SnowflakeTypeSystem::DateTime(true), SnowflakeTypeSystem::DateTime(true)],
        vec![row(cols(), vec![Some("0"), Some("0")])],
    );
    assert_eq!(
        other_message(p.produce_opt_datetime()),
        "decode error: Could not decode '0' as timestamp, found type Date"
    );
    assert_eq!(
        p.produce_datetime().unwrap(),
        DateTimeValue { date: DateValue { days_from_ce: 719_163 }, time: TimeValue { secs: 0, nanos: 0 } }
    );
}

#[test]
fn dates_before_the_epoch_and_out_of_range() {
    let cols = || vec![column("D", "date", None)];
    let mut p = parser(
        &[SnowflakeTypeSystem::Date(true)],
        vec![row(cols(), vec![Some("-719162")]), row(cols(), vec![Some("9223372036854775807")])],
    );
    assert_eq!(p.produce_opt_date().unwrap(), Some(DateValue { days_from_ce: 1 }));
    assert_eq!(other_message(p.produce_date()), "decode error: '9223372036854775807' is not a valid date");
}

#[test]
fn times_with_bad_scale_or_range() {
    let cols = |scale| vec![column("T", "time", scale)];
    let mut p = parser(
        &[SnowflakeTypeSystem::Time(true)],
        vec![row(cols(Some(10)), vec![Some("1")]), row(cols(Some(0)), vec![Some("86400")]), row(cols(None), vec![Some(" 59.9 ")])],
    );
    assert!(p.produce_time().is_err());
    assert!(p.produce_time().is_err());
    assert_eq!(p.produce_opt_time().unwrap(), Some(TimeValue { secs: 59, nanos: 0 }));
}

#[test]
fn timestamp_cells_that_would_overflow_are_flagged() {
    let row_of = |ty: &str, scale, text: &str| row(vec![column("TS", ty, scale)], vec![Some(text)]);
    let schema = [SnowflakeTypeSystem::DateTime(true)];
    let ready = |r: Row| parser(&schema, vec![r]).timestamp_ready();
    assert!(!ready(row_of("timestamp_tz", Some(32), "1.0")));
    assert!(!ready(row_of("timestamp_ntz", Some(-1), "1.5")));
    assert!(!ready(row_of("timestamp_ltz", None, " -9223372036854775808.5")));
    assert!(ready(row_of("timestamp_ltz", None, "-9223372036854775808.0")));
    assert!(ready(row_of("timestamp_ltz", Some(0), "-9223372036854775808.5")));
    assert!(ready(row_of("timestamp_ltz", None, "-9223372036854775807.5")));
    assert!(ready(row_of("date", Some(32), "1.0")));
    assert!(ready(row_of("timestamp_tz", Some(9), "1.0 1440")));
}

#[test]
fn timestamps_with_time_zones_and_before_the_epoch() {
    let cols = || vec![column("TS", "timestamp_tz", Some(9)), column("L", "timestamp_ltz", Some(9))];
    let mut p = parser(
        &[SnowflakeTypeSystem::DateTime(true), SnowflakeTypeSystem::DateTime(true)],
        vec![row(cols(), vec![Some("0 1500"), Some("-1.5")])],
    );
    assert_eq!(
        p.produce_datetime().unwrap(),
        DateTimeValue { date: DateValue { days_from_ce: 719_162 }, time: TimeValue { secs: 86_400 - 3600, nanos: 0 } }
    );
    assert_eq!(
        p.produce_opt_datetime().unwrap(),
        Some(DateTimeValue { date: DateValue { days_from_ce: 719_162 }, time: TimeValue { secs: 86_398, nanos: 500_000_000 } })
    );
}

#[test]
fn time_and_timestamp_errors_carry_the_decoder_message() {
    let mut p = parser(
        &[SnowflakeTypeSystem::Time(true)],
        vec![
            row(vec![column("T", "time", Some(10))], vec![Some("1")]),
            row(vec![column("T", "time", None)], vec![Some("abc")]),
            row(vec![column("T", "time", Some(3))], vec![Some("12.x")]),
            row(vec![column("TS", "timestamp_ntz", Some(3))], vec![Some("abc")]),
        ],
    );
    assert_eq!(other_message(p.produce_time()), "decode error: invalid time scale: 10");
    assert_eq!(other_message(p.produce_opt_time()), "decode error: 'abc' is not Time type");
    assert_eq!(other_message(p.produce_time()), "decode error: invalid time: 12.x");
    assert_eq!(other_message(p.produce_opt_datetime()), "decode error: Could not decode timestamp: abc");
}

#[test]
fn every_cell_is_read_once_in_row_major_order() {
    let cols = || vec![column("A", "text", None), column("B", "text", None), column("C", "text", None)];
    let mut p = parser(
        &[SnowflakeTypeSystem::Varchar(true); 3],
        vec![
            row(cols(), vec![Some("a0"), Some("b0"), Some("c0")]),
            row(cols(), vec![Some("a1"), Some("b1"), Some("c1")]),
        ],
    );
    let (m, _) = p.fetch_next().unwrap();
    assert_eq!(m, 2);
    let mut read = vec![];
    for _ in 0..m * 3 {
        read.push(p.produce_string().unwrap());
    }
    assert_eq!(read, vec!["a0", "b0", "c0", "a1", "b1", "c1"]);
    assert_eq!(other_message(p.produce_string()), "row is none");
}

use connectorx::transport::{ArrowTypeSystem, SnowflakeArrowTransport};
use connectorx::typesystem::SnowflakeTypeSystem;

#[test]
fn integer_names_are_numbers() {
    for name in ["INT", "integer", "BigInt", "smallint", "TINYINT", "byteint"] {
        assert_eq!(SnowflakeTypeSystem::parse_type_name(name), Some(SnowflakeTypeSystem::Number(true)));
    }
}

#[test]
fn scaled_number_names_are_floats() {
    for name in ["NUMBER", "decimal", "Numeric", "fixed", "FLOAT", "float4", "FLOAT8", "double", "DOUBLE PRECISION", "real"] {
        assert_eq!(SnowflakeTypeSystem::parse_type_name(name), Some(SnowflakeTypeSystem::Float(true)));
    }
}

#[test]
fn other_names() {
    let cases = [
        ("varchar", SnowflakeTypeSystem::Varchar(true)),
        ("CHAR", SnowflakeTypeSystem::Varchar(true)),
        ("character", SnowflakeTypeSystem::Varchar(true)),
        ("String", SnowflakeTypeSystem::Varchar(true)),
        ("text", SnowflakeTypeSystem::Varchar(true)),
        ("binary", SnowflakeTypeSystem::Binary(true)),
        ("VARBINARY", SnowflakeTypeSystem::Binary(true)),
        ("boolean", SnowflakeTypeSystem::Boolean(true)),
        ("date", SnowflakeTypeSystem::Date(true)),
        ("datetime", SnowflakeTypeSystem::DateTime(true)),
        ("time", SnowflakeTypeSystem::Time(true)),
        ("timestamp", SnowflakeTypeSystem::DateTime(true)),
        ("timestamp_ntz", SnowflakeTypeSystem::DateTime(true)),
        ("TIMESTAMP_TZ", SnowflakeTypeSystem::DateTime(true)),
        ("timestamp_ltz", SnowflakeTypeSystem::DateTime(true)),
    ];
    for (name, ty) in cases {
        assert_eq!(SnowflakeTypeSystem::parse_type_name(name), Some(ty));
        assert_eq!(SnowflakeTypeSystem::from_type_name(name), ty);
    }
}

#[test]
fn unknown_names_are_refused() {
    for name in ["", "VARIANT", "ARRAY", "int ", " INT", "TIMESTAMP-NTZ", "OBJECT"] {
        assert_eq!(SnowflakeTypeSystem::parse_type_name(name), None);
    }
}

#[test]
fn names_are_uppercased_the_unicode_way() {
    // U+0131, the dotless i, uppercases to an ASCII `I`; U+017F, the long s, to `S`.
    assert_eq!(SnowflakeTypeSystem::parse_type_name("\u{131}nt"), Some(SnowflakeTypeSystem::Number(true)));
    assert_eq!(SnowflakeTypeSystem::parse_type_name("\u{17f}tring"), Some(SnowflakeTypeSystem::Varchar(true)));
}

#[test]
fn upper_names_are_not_uppercased_again() {
    assert_eq!(SnowflakeTypeSystem::from_upper_name("INT"), Some(SnowflakeTypeSystem::Number(true)));
    assert_eq!(SnowflakeTypeSystem::from_upper_name("int"), None);
}

#[test]
fn written_names() {
    let cases = [
        (SnowflakeTypeSystem::Number(false), "NUMBER"),
        (SnowflakeTypeSystem::Float(true), "FLOAT"),
        (SnowflakeTypeSystem::Varchar(true), "VARCHAR"),
        (SnowflakeTypeSystem::Binary(false), "BINARY"),
        (SnowflakeTypeSystem::Boolean(true), "BOOLEAN"),
        (SnowflakeTypeSystem::Date(true), "DATE"),
        (SnowflakeTypeSystem::Time(true), "TIME"),
        (SnowflakeTypeSystem::DateTime(true), "TIMESTAMP_NTZ"),
    ];
    for (ty, name) in cases {
        assert_eq!(ty.snowflake_name(), name);
        let via_from: &str = ty.into();
        assert_eq!(via_from, name);
    }
}

#[test]
fn written_names_are_read_back() {
    let all = [
        SnowflakeTypeSystem::Boolean(true),
        SnowflakeTypeSystem::Float(true),
        SnowflakeTypeSystem::Varchar(true),
        SnowflakeTypeSystem::Binary(true),
        SnowflakeTypeSystem::Date(true),
        SnowflakeTypeSystem::Time(true),
        SnowflakeTypeSystem::DateTime(true),
    ];
    for ty in all {
        assert_eq!(SnowflakeTypeSystem::from_upper_name(ty.snowflake_name()), Some(ty));
    }
    // NUMBER is read as a float.
    assert_eq!(
        SnowflakeTypeSystem::from_upper_name(SnowflakeTypeSystem::Number(true).snowflake_name()),
        Some(SnowflakeTypeSystem::Float(true))
    );
}

#[test]
fn read_types_are_nullable() {
    for name in ["int", "number", "text", "binary", "boolean", "date", "time", "timestamp"] {
        assert!(SnowflakeTypeSystem::parse_type_name(name).unwrap().nullable());
    }
    assert!(!SnowflakeTypeSystem::Date(false).nullable());
}

#[test]
fn arrow_conversion() {
    let cases = [
        (SnowflakeTypeSystem::Boolean(true), ArrowTypeSystem::Boolean(true)),
        (SnowflakeTypeSystem::Number(false), ArrowTypeSystem::Int64(false)),
        (SnowflakeTypeSystem::Float(true), ArrowTypeSystem::Float64(true)),
        (SnowflakeTypeSystem::Varchar(false), ArrowTypeSystem::LargeUtf8(false)),
        (SnowflakeTypeSystem::Date(true), ArrowTypeSystem::Date32(true)),
        (SnowflakeTypeSystem::Time(true), ArrowTypeSystem::Time64(true)),
        (SnowflakeTypeSystem::DateTime(false), ArrowTypeSystem::Date64(false)),
        (SnowflakeTypeSystem::Binary(true), ArrowTypeSystem::LargeBinary(true)),
    ];
    for (from, to) in cases {
        assert_eq!(SnowflakeArrowTransport::convert_typesystem(from), to);
    }
}

#[test]
fn ascii_names_are_read_in_any_letter_case() {
    for name in ["timestamp_ltz", "Double Precision", "VarChar", "geography"] {
        let a = SnowflakeTypeSystem::parse_type_name(name);
        let b = SnowflakeTypeSystem::parse_type_name(&name.to_ascii_uppercase());
        let c = SnowflakeTypeSystem::parse_type_name(&name.to_ascii_lowercase());
        assert_eq!(a, b);
        assert_eq!(a, c);
    }
    assert_eq!(SnowflakeTypeSystem::parse_type_name("Double Precision"), Some(SnowflakeTypeSystem::Float(true)));
}

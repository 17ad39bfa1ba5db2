use sqlite_ddl::render::SqliteQueryBuilder;
use sqlite_ddl::text::{quote_iden, u32_to_dec};
use sqlite_ddl::types::{
    BlobSize, ColumnDef, ColumnSpec, ColumnType, RenderError, UnsupportedColumnType,
};

fn type_sql(t: ColumnType) -> String {
    SqliteQueryBuilder.prepare_column_type(&t).unwrap()
}

fn type_err(t: ColumnType) -> RenderError {
    SqliteQueryBuilder.prepare_column_type(&t).unwrap_err()
}

#[test]
fn character_types_collapse_to_text() {
    assert_eq!(type_sql(ColumnType::Char(None)), "text");
    assert_eq!(type_sql(ColumnType::Char(Some(3))), "text(3)");
    assert_eq!(type_sql(ColumnType::Varchar(None)), "text");
    assert_eq!(type_sql(ColumnType::Varchar(Some(255))), "text(255)");
    assert_eq!(type_sql(ColumnType::Text), "text");
}

#[test]
fn integer_widths_collapse_to_integer() {
    assert_eq!(type_sql(ColumnType::TinyInteger(None)), "integer");
    assert_eq!(type_sql(ColumnType::TinyInteger(Some(1))), "integer(1)");
    assert_eq!(type_sql(ColumnType::SmallInteger(Some(2))), "integer(2)");
    assert_eq!(type_sql(ColumnType::Integer(None)), "integer");
    assert_eq!(type_sql(ColumnType::Integer(Some(11))), "integer(11)");
    assert_eq!(type_sql(ColumnType::BigInteger(Some(20))), "integer(20)");
    assert_eq!(type_sql(ColumnType::TinyUnsigned(Some(1))), "integer(1)");
    assert_eq!(type_sql(ColumnType::SmallUnsigned(None)), "integer");
    assert_eq!(type_sql(ColumnType::Unsigned(Some(10))), "integer(10)");
    assert_eq!(type_sql(ColumnType::BigUnsigned(None)), "integer");
}

#[test]
fn floating_and_fixed_point_collapse_to_real() {
    assert_eq!(type_sql(ColumnType::Float(None)), "real");
    assert_eq!(type_sql(ColumnType::Float(Some(24))), "real(24)");
    assert_eq!(type_sql(ColumnType::Double(None)), "real");
    assert_eq!(type_sql(ColumnType::Double(Some(53))), "real(53)");
    assert_eq!(type_sql(ColumnType::Decimal(None)), "real");
}

#[test]
fn decimal_with_precision_and_scale() {
    assert_eq!(type_sql(ColumnType::Decimal(Some((10, 2)))), "real(10, 2)");
}

#[test]
fn temporal_types_collapse_to_text() {
    assert_eq!(type_sql(ColumnType::DateTime(None)), "text");
    assert_eq!(type_sql(ColumnType::DateTime(Some(6))), "text(6)");
    assert_eq!(type_sql(ColumnType::Timestamp(None)), "text");
    assert_eq!(type_sql(ColumnType::Timestamp(Some(3))), "text(3)");
    assert_eq!(type_sql(ColumnType::TimestampWithTimeZone(Some(6))), "text(6)");
    assert_eq!(type_sql(ColumnType::Time(None)), "text");
    assert_eq!(type_sql(ColumnType::Time(Some(2))), "text(2)");
    assert_eq!(type_sql(ColumnType::Date), "text");
}

#[test]
fn binary_types() {
    assert_eq!(type_sql(ColumnType::Binary(BlobSize::Blob(Some(16)))), "binary(16)");
    assert_eq!(type_sql(ColumnType::Binary(BlobSize::Blob(None))), "blob");
    assert_eq!(type_sql(ColumnType::Binary(BlobSize::Tiny)), "blob");
    assert_eq!(type_sql(ColumnType::Binary(BlobSize::Medium)), "blob");
    assert_eq!(type_sql(ColumnType::Binary(BlobSize::Long)), "blob");
    assert_eq!(type_sql(ColumnType::VarBinary(32)), "binary(32)");
}

#[test]
fn remaining_supported_types() {
    assert_eq!(type_sql(ColumnType::Boolean), "boolean");
    assert_eq!(type_sql(ColumnType::Money(None)), "integer");
    assert_eq!(type_sql(ColumnType::Money(Some((19, 4)))), "integer(19, 4)");
    assert_eq!(type_sql(ColumnType::Json), "text");
    assert_eq!(type_sql(ColumnType::JsonBinary), "text");
    assert_eq!(type_sql(ColumnType::Uuid), "text(36)");
    assert_eq!(type_sql(ColumnType::Custom(String::from("GEOMETRY"))), "GEOMETRY");
    assert_eq!(type_sql(ColumnType::Enumeration(String::from("mood"))), "text");
    assert_eq!(type_sql(ColumnType::Interval), "unsupported");
}

#[test]
fn type_rendering_is_deterministic() {
    let one = type_sql(ColumnType::Decimal(Some((10, 2))));
    let two = type_sql(ColumnType::Decimal(Some((10, 2))));
    assert_eq!(one, two);
    let three = type_sql(ColumnType::Custom(String::from("GEOMETRY")));
    let four = type_sql(ColumnType::Custom(String::from("GEOMETRY")));
    assert_eq!(three, four);
}

#[test]
fn unsupported_types_fail_and_name_the_type() {
    assert_eq!(
        type_err(ColumnType::Array),
        RenderError::UnsupportedType(UnsupportedColumnType::Array)
    );
    assert_eq!(
        type_err(ColumnType::Cidr),
        RenderError::UnsupportedType(UnsupportedColumnType::Cidr)
    );
    assert_eq!(
        type_err(ColumnType::Inet),
        RenderError::UnsupportedType(UnsupportedColumnType::Inet)
    );
    assert_eq!(
        type_err(ColumnType::MacAddr),
        RenderError::UnsupportedType(UnsupportedColumnType::MacAddr)
    );
    assert_eq!(
        type_err(ColumnType::Year),
        RenderError::UnsupportedType(UnsupportedColumnType::Year)
    );
    assert_eq!(
        type_err(ColumnType::Bit(None)),
        RenderError::UnsupportedType(UnsupportedColumnType::Bit)
    );
    assert_eq!(
        type_err(ColumnType::Bit(Some(8))),
        RenderError::UnsupportedType(UnsupportedColumnType::Bit)
    );
    assert_eq!(
        type_err(ColumnType::VarBit(8)),
        RenderError::UnsupportedType(UnsupportedColumnType::VarBit)
    );
}

#[test]
fn auto_increment_keyword() {
    assert_eq!(SqliteQueryBuilder.column_spec_auto_increment_keyword(), "AUTOINCREMENT");
}

#[test]
fn column_specs_render() {
    let b = SqliteQueryBuilder;
    assert_eq!(b.prepare_column_spec(&ColumnSpec::Null), "NULL");
    assert_eq!(b.prepare_column_spec(&ColumnSpec::NotNull), "NOT NULL");
    assert_eq!(b.prepare_column_spec(&ColumnSpec::Default(String::from("0"))), "DEFAULT 0");
    assert_eq!(b.prepare_column_spec(&ColumnSpec::AutoIncrement), "AUTOINCREMENT");
    assert_eq!(b.prepare_column_spec(&ColumnSpec::UniqueKey), "UNIQUE");
    assert_eq!(b.prepare_column_spec(&ColumnSpec::PrimaryKey), "PRIMARY KEY");
    assert_eq!(
        b.prepare_column_spec(&ColumnSpec::Check(String::from("size > 0"))),
        "CHECK (size > 0)"
    );
    assert_eq!(b.prepare_column_spec(&ColumnSpec::Extra(String::from("COLLATE NOCASE"))),
        "COLLATE NOCASE");
}

#[test]
fn column_def_id_integer_primary_key_auto_increment() {
    let def = ColumnDef {
        name: String::from("id"),
        types: Some(ColumnType::Integer(None)),
        spec: vec![ColumnSpec::PrimaryKey, ColumnSpec::AutoIncrement, ColumnSpec::NotNull],
    };
    assert_eq!(
        SqliteQueryBuilder.prepare_column_def(&def).unwrap(),
        "\"id\" integer NOT NULL PRIMARY KEY AUTOINCREMENT"
    );
}

#[test]
fn deferred_clauses_come_last_in_any_attachment_order() {
    let orders: Vec<Vec<ColumnSpec>> = vec![
        vec![ColumnSpec::PrimaryKey, ColumnSpec::AutoIncrement, ColumnSpec::NotNull],
        vec![ColumnSpec::NotNull, ColumnSpec::PrimaryKey, ColumnSpec::AutoIncrement],
        vec![ColumnSpec::AutoIncrement, ColumnSpec::NotNull, ColumnSpec::PrimaryKey],
        vec![ColumnSpec::AutoIncrement, ColumnSpec::PrimaryKey, ColumnSpec::NotNull],
    ];
    for spec in orders {
        let def = ColumnDef {
            name: String::from("id"),
            types: Some(ColumnType::Integer(None)),
            spec,
        };
        assert_eq!(
            SqliteQueryBuilder.prepare_column_def(&def).unwrap(),
            "\"id\" integer NOT NULL PRIMARY KEY AUTOINCREMENT"
        );
    }
}

#[test]
fn column_def_without_type_or_specs() {
    let def = ColumnDef { name: String::from("bare"), types: None, spec: vec![] };
    assert_eq!(SqliteQueryBuilder.prepare_column_def(&def).unwrap(), "\"bare\"");
}

#[test]
fn column_def_keeps_nondeferred_spec_order() {
    let def = ColumnDef {
        name: String::from("size"),
        types: Some(ColumnType::Integer(None)),
        spec: vec![
            ColumnSpec::NotNull,
            ColumnSpec::Default(String::from("10")),
            ColumnSpec::UniqueKey,
            ColumnSpec::Check(String::from("size > 5")),
        ],
    };
    assert_eq!(
        SqliteQueryBuilder.prepare_column_def(&def).unwrap(),
        "\"size\" integer NOT NULL DEFAULT 10 UNIQUE CHECK (size > 5)"
    );
}

#[test]
fn column_def_with_unsupported_type_fails() {
    let def = ColumnDef {
        name: String::from("addr"),
        types: Some(ColumnType::Inet),
        spec: vec![ColumnSpec::NotNull],
    };
    assert_eq!(
        SqliteQueryBuilder.prepare_column_def(&def).unwrap_err(),
        RenderError::UnsupportedType(UnsupportedColumnType::Inet)
    );
}

#[test]
fn quoting_wraps_in_double_quotes() {
    assert_eq!(quote_iden("a"), "\"a\"");
    assert_eq!(quote_iden(""), "\"\"");
}

#[test]
fn quoting_doubles_embedded_quotes() {
    assert_eq!(quote_iden("a\"b"), "\"a\"\"b\"");
    assert_eq!(quote_iden("\""), "\"\"\"\"");
}

#[test]
fn decimal_rendering() {
    assert_eq!(u32_to_dec(0), "0");
    assert_eq!(u32_to_dec(7), "7");
    assert_eq!(u32_to_dec(10), "10");
    assert_eq!(u32_to_dec(36), "36");
    assert_eq!(u32_to_dec(12345), "12345");
    assert_eq!(u32_to_dec(4294967295), "4294967295");
}

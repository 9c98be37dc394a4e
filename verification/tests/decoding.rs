use trino_codegen::decode::{
    decode_default, decode_field, decode_row, decode_with, fits_width, DecodeError, Decoded,
    ExpectedFormat,
};
use trino_codegen::explain::Output;
use trino_codegen::json::{parse_json, Json};
use trino_codegen::record::{emit_field, generate_record, DecodeStrategy, FieldSpec, RecordSpec};
use trino_codegen::types::{IntWidth, TypeDescriptor};
use trino_codegen::utils::array::Element;
use trino_codegen::utils::dates::{CalendarDate, TimeOfDay, Timestamp};
use trino_codegen::utils::scalar::Decimal;

fn column(symbol: &str, raw_type: &str) -> Output {
    Output { symbol: symbol.to_string(), raw_type: raw_type.to_string() }
}

fn field(raw_type: &str) -> FieldSpec {
    emit_field(&column("f", raw_type))
}

fn json(text: &str) -> Json {
    parse_json(text).unwrap()
}

fn decode(raw_type: &str, value: &str) -> Result<Decoded, ExpectedFormat> {
    decode_field(&field(raw_type), &json(value)).map_err(|e| {
        assert_eq!(e.field, Some("f".to_string()));
        assert_eq!(e.raw, json(value));
        e.expected
    })
}

fn text(s: &str) -> Decoded {
    Decoded::Text(s.to_string())
}

fn plan_record() -> RecordSpec {
    let columns = vec![
        column("expr", "integer"),
        column("expr_0", "smallint"),
        column("expr_1", "tinyint"),
        column("expr_2", "decimal(11,0)"),
        column("expr_3", "real"),
        column("expr_4", "double"),
        column("expr_5", "boolean"),
        column("expr_6", "date"),
        column("expr_7", "timestamp(3)"),
        column("expr_8", "timestamp(3) with time zone"),
        column("expr_9", "time(3)"),
        column("expr_10", "char(1)"),
        column("expr_11", "varchar(24)"),
        column("expr_12", "varbinary"),
        column("expr_13", "json"),
        column("expr_14", "array(integer)"),
        column("map", "map(varchar(4), integer)"),
        column("expr_15", "uuid"),
    ];
    generate_record("generated_struct", &columns).unwrap()
}

#[test]
fn test_generated_struct() {
    let json_string = r#"
        [
            1,
            1,
            1,
            "12345678901",
            1.2345,
            1.2345678901234567,
            true,
            "2023-01-01",
            "2023-01-01 01:02:03.456",
            "2023-01-01 01:02:03.456 UTC",
            "01:02:03.456",
            "a",
            "a variable-length string",
            "REVBREJFRUY=",
            "{ \"key\": \"value\" }",
            [1, 2, 3],
            {
                "key1": 1,
                "key2": 2
            },
            "123e4567-e89b-12d3-a456-426614174000"
        ]
        "#;
    let res = decode_row(&plan_record(), &parse_json(json_string).unwrap()).unwrap();
    assert_eq!(res.len(), 18);
    assert_eq!(res[0], Decoded::Integer(1));
    assert_eq!(res[1], Decoded::Integer(1));
    assert_eq!(res[2], Decoded::Integer(1));
    assert_eq!(
        res[3],
        Decoded::Decimal(Decimal { unscaled: "12345678901".to_string(), scale: 0 })
    );
    assert_eq!(res[4], Decoded::Number("1.2345".to_string()));
    match &res[5] {
        Decoded::Number(number) => {
            assert_eq!(number.parse::<f64>().unwrap(), 1.2345678901234567)
        }
        other => panic!("{other:?}"),
    }
    assert_eq!(res[6], Decoded::Boolean(true));
    assert_eq!(res[7], Decoded::Date(CalendarDate { year: 2023, month: 1, day: 1 }));
    let at = Timestamp {
        date: CalendarDate { year: 2023, month: 1, day: 1 },
        time: TimeOfDay { hour: 1, minute: 2, second: 3, nanosecond: 456_000_000 },
    };
    assert_eq!(res[8], Decoded::Timestamp(at));
    assert_eq!(res[9], text("2023-01-01 01:02:03.456 UTC"));
    assert_eq!(res[10], Decoded::Time(at.time));
    assert_eq!(res[11], text("a"));
    assert_eq!(res[12], text("a variable-length string"));
    assert_eq!(res[13], Decoded::Binary(b"DEADBEEF".to_vec()));
    assert_eq!(res[14], Decoded::Json(Json::String("{ \"key\": \"value\" }".to_string())));
    assert_eq!(
        res[15],
        Decoded::Array(vec![Element::Int(1), Element::Int(2), Element::Int(3)])
    );
    assert_eq!(
        res[16],
        Decoded::Mapping(vec![
            ("key1".to_string(), Json::Number("1".to_string())),
            ("key2".to_string(), Json::Number("2".to_string())),
        ])
    );
    assert_eq!(res[17], Decoded::Uuid(0x123e4567_e89b_12d3_a456_426614174000));
}

#[test]
fn a_row_of_two_columns() {
    let record =
        generate_record("r", &[column("a", "integer"), column("b", "varchar(100)")]).unwrap();
    let decoded = decode_row(&record, &json(r#"[1, "x"]"#)).unwrap();
    assert_eq!(decoded, vec![Decoded::Integer(1), text("x")]);
}

#[test]
fn the_empty_row_of_the_empty_record() {
    let record = generate_record("r", &[]).unwrap();
    assert_eq!(decode_row(&record, &json("[]")), Ok(vec![]));
    assert_eq!(decode_row(&record, &json("{}")), Ok(vec![]));
    assert_eq!(decode_row(&record, &json(r#"{"other": 1}"#)), Ok(vec![]));
}

#[test]
fn rows_as_objects() {
    let record =
        generate_record("r", &[column("a", "integer"), column("b", "varchar(100)")]).unwrap();
    assert_eq!(
        decode_row(&record, &json(r#"{"b": "x", "a": 1, "c": true}"#)),
        Ok(vec![Decoded::Integer(1), text("x")])
    );
    assert_eq!(
        decode_row(&record, &json(r#"{"b": "x"}"#)),
        Ok(vec![Decoded::Absent, text("x")])
    );
    assert_eq!(
        decode_row(&record, &json(r#"{}"#)),
        Ok(vec![Decoded::Absent, Decoded::Absent])
    );
}

#[test]
fn rows_of_the_wrong_shape() {
    let record =
        generate_record("r", &[column("a", "integer"), column("b", "varchar(100)")]).unwrap();
    for row in ["[1]", "[1, \"x\", 2]", "[]", "null", "1", "\"row\"", "true"] {
        assert_eq!(
            decode_row(&record, &json(row)),
            Err(DecodeError { field: None, raw: json(row), expected: ExpectedFormat::Row })
        );
    }
    assert_eq!(
        decode_row(&generate_record("r", &[]).unwrap(), &json("[1]")),
        Err(DecodeError { field: None, raw: json("[1]"), expected: ExpectedFormat::Row })
    );
}

#[test]
fn the_first_failing_field_is_reported() {
    let record = generate_record(
        "r",
        &[column("a", "integer"), column("b", "date"), column("c", "boolean")],
    )
    .unwrap();
    assert_eq!(
        decode_row(&record, &json(r#"[1, "2023-13-40", "no"]"#)),
        Err(DecodeError {
            field: Some("b".to_string()),
            raw: Json::String("2023-13-40".to_string()),
            expected: ExpectedFormat::Date,
        })
    );
    assert_eq!(
        decode_row(&record, &json(r#"{"c": 1, "a": "x"}"#)),
        Err(DecodeError {
            field: Some("a".to_string()),
            raw: Json::String("x".to_string()),
            expected: ExpectedFormat::Integer(IntWidth::W32),
        })
    );
}

#[test]
fn null_is_absent_for_every_type() {
    for raw_type in [
        "integer",
        "double",
        "decimal(3,1)",
        "varchar(3)",
        "boolean",
        "date",
        "time(3)",
        "timestamp(3)",
        "timestamp with time zone",
        "varbinary",
        "json",
        "uuid",
        "array(integer)",
        "map(varchar,integer)",
        "ipaddress",
    ] {
        assert_eq!(decode(raw_type, "null"), Ok(Decoded::Absent));
    }
    for strategy in [
        DecodeStrategy::Date,
        DecodeStrategy::DateTime,
        DecodeStrategy::Time,
        DecodeStrategy::TimestampTz,
        DecodeStrategy::Binary,
        DecodeStrategy::HomogeneousArray,
        DecodeStrategy::MapPassthrough,
        DecodeStrategy::NanAsMissing,
    ] {
        assert_eq!(decode_with(strategy, &Json::Null), Ok(Decoded::Absent));
    }
}

#[test]
fn integers_by_width() {
    assert_eq!(decode("tinyint", "127"), Ok(Decoded::Integer(127)));
    assert_eq!(decode("tinyint", "-128"), Ok(Decoded::Integer(-128)));
    assert_eq!(decode("tinyint", "128"), Err(ExpectedFormat::Integer(IntWidth::W8)));
    assert_eq!(decode("tinyint", "-129"), Err(ExpectedFormat::Integer(IntWidth::W8)));
    assert_eq!(decode("smallint", "32767"), Ok(Decoded::Integer(32767)));
    assert_eq!(decode("smallint", "32768"), Err(ExpectedFormat::Integer(IntWidth::W16)));
    assert_eq!(decode("integer", "2147483647"), Ok(Decoded::Integer(2147483647)));
    assert_eq!(decode("integer", "-2147483648"), Ok(Decoded::Integer(-2147483648)));
    assert_eq!(decode("integer", "2147483648"), Err(ExpectedFormat::Integer(IntWidth::W32)));
    assert_eq!(decode("bigint", "9223372036854775807"), Ok(Decoded::Integer(i64::MAX)));
    assert_eq!(decode("bigint", "-9223372036854775808"), Ok(Decoded::Integer(i64::MIN)));
    assert_eq!(
        decode("bigint", "9223372036854775808"),
        Err(ExpectedFormat::Integer(IntWidth::W64))
    );
    assert_eq!(decode("integer", "1.0"), Err(ExpectedFormat::Integer(IntWidth::W32)));
    assert_eq!(decode("integer", "1e2"), Err(ExpectedFormat::Integer(IntWidth::W32)));
    assert_eq!(decode("integer", "\"1\""), Err(ExpectedFormat::Integer(IntWidth::W32)));
    assert_eq!(decode("integer", "true"), Err(ExpectedFormat::Integer(IntWidth::W32)));
    assert!(fits_width(IntWidth::W8, -128));
    assert!(!fits_width(IntWidth::W8, 128));
    assert!(fits_width(IntWidth::W64, i64::MIN));
}

#[test]
fn numbers_and_decimals() {
    assert_eq!(decode("double", "3.14"), Ok(Decoded::Number("3.14".to_string())));
    assert_eq!(decode("real", "7"), Ok(Decoded::Number("7".to_string())));
    assert_eq!(decode("double", "\"3.14\""), Err(ExpectedFormat::Number));
    assert_eq!(
        decode("decimal(5,2)", "\"123.45\""),
        Ok(Decoded::Decimal(Decimal { unscaled: "12345".to_string(), scale: 2 }))
    );
    assert_eq!(
        decode("decimal(5,2)", "-7"),
        Ok(Decoded::Decimal(Decimal { unscaled: "-7".to_string(), scale: 0 }))
    );
    assert_eq!(
        decode("decimal(5,2)", "1.5"),
        Ok(Decoded::Decimal(Decimal { unscaled: "15".to_string(), scale: 1 }))
    );
    assert_eq!(decode("decimal(5,2)", "\"abc\""), Err(ExpectedFormat::Decimal));
    assert_eq!(decode("decimal(5,2)", "\"\""), Err(ExpectedFormat::Decimal));
    assert_eq!(decode("decimal(5,2)", "true"), Err(ExpectedFormat::Decimal));
}

#[test]
fn strings_booleans_and_documents() {
    assert_eq!(decode("varchar(3)", "\"abc\""), Ok(text("abc")));
    assert_eq!(decode("varchar(3)", "1"), Err(ExpectedFormat::Text));
    assert_eq!(decode("boolean", "false"), Ok(Decoded::Boolean(false)));
    assert_eq!(decode("boolean", "0"), Err(ExpectedFormat::Boolean));
    assert_eq!(decode("json", "[1, {\"a\": null}]"), Ok(Decoded::Json(json("[1, {\"a\": null}]"))));
    assert_eq!(decode("json", "7"), Ok(Decoded::Json(Json::Number("7".to_string()))));
}

#[test]
fn unknown_types_take_any_scalar_as_a_string() {
    assert_eq!(decode("ipaddress", "\"10.0.0.1\""), Ok(text("10.0.0.1")));
    assert_eq!(decode("ipaddress", "42"), Ok(text("42")));
    assert_eq!(decode("ipaddress", "-1.5"), Ok(text("-1.5")));
    assert_eq!(decode("ipaddress", "true"), Ok(text("true")));
    assert_eq!(decode("ipaddress", "false"), Ok(text("false")));
    assert_eq!(decode("ipaddress", "null"), Ok(Decoded::Absent));
    assert_eq!(decode("ipaddress", "[1]"), Err(ExpectedFormat::Scalar));
    assert_eq!(decode("ipaddress", "{}"), Err(ExpectedFormat::Scalar));
}

#[test]
fn uuids() {
    assert_eq!(
        decode("uuid", "\"123e4567-e89b-12d3-a456-426614174000\""),
        Ok(Decoded::Uuid(0x123e4567_e89b_12d3_a456_426614174000))
    );
    assert_eq!(decode("uuid", "\"not a uuid\""), Err(ExpectedFormat::Uuid));
    assert_eq!(decode("uuid", "5"), Err(ExpectedFormat::Uuid));
}

#[test]
fn dates_and_times() {
    assert_eq!(
        decode("date", "\"2023-01-01\""),
        Ok(Decoded::Date(CalendarDate { year: 2023, month: 1, day: 1 }))
    );
    assert_eq!(decode("date", "\"2023-13-40\""), Err(ExpectedFormat::Date));
    assert_eq!(decode("date", "\"2023-02-30\""), Err(ExpectedFormat::Date));
    assert_eq!(decode("date", "20230101"), Err(ExpectedFormat::Date));
    assert_eq!(
        decode("time(3)", "\"23:59:59\""),
        Ok(Decoded::Time(TimeOfDay { hour: 23, minute: 59, second: 59, nanosecond: 0 }))
    );
    assert_eq!(decode("time(3)", "\"24:00:00\""), Err(ExpectedFormat::Time));
    assert_eq!(decode("time(3)", "1"), Err(ExpectedFormat::Time));
    assert_eq!(
        decode("timestamp(3)", "\"2024-02-29 12:00:00.5\""),
        Ok(Decoded::Timestamp(Timestamp {
            date: CalendarDate { year: 2024, month: 2, day: 29 },
            time: TimeOfDay { hour: 12, minute: 0, second: 0, nanosecond: 500_000_000 },
        }))
    );
    assert_eq!(decode("timestamp(3)", "\"2024-02-29T12:00:00\""), Err(ExpectedFormat::DateTime));
    assert_eq!(decode("timestamp(3)", "[]"), Err(ExpectedFormat::DateTime));
    assert_eq!(
        decode("timestamp with time zone", "\"2023-01-01T01:02:03+02:00\""),
        Ok(Decoded::TimestampTz(Timestamp {
            date: CalendarDate { year: 2022, month: 12, day: 31 },
            time: TimeOfDay { hour: 23, minute: 2, second: 3, nanosecond: 0 },
        }))
    );
    assert_eq!(
        decode("timestamp with time zone", "\"2023-01-01 01:02:03\""),
        Err(ExpectedFormat::TimestampTz)
    );
    assert_eq!(decode("timestamp with time zone", "{}"), Err(ExpectedFormat::TimestampTz));
}

#[test]
fn binary_values() {
    assert_eq!(decode("varbinary", "\"REVBREJFRUY=\""), Ok(Decoded::Binary(b"DEADBEEF".to_vec())));
    assert_eq!(decode("binary", "\"\""), Ok(Decoded::Binary(vec![])));
    assert_eq!(decode("varbinary", "\"not-base64!!\""), Err(ExpectedFormat::Base64));
    assert_eq!(decode("varbinary", "1"), Err(ExpectedFormat::Base64));
}

#[test]
fn arrays() {
    assert_eq!(
        decode("array(integer)", "[1, 2, 3]"),
        Ok(Decoded::Array(vec![Element::Int(1), Element::Int(2), Element::Int(3)]))
    );
    assert_eq!(
        decode("array(integer)", "[1, \"x\", null]"),
        Ok(Decoded::Array(vec![
            Element::Int(1),
            Element::String("x".to_string()),
            Element::Null,
        ]))
    );
    assert_eq!(decode("array(varchar(1))", "[]"), Ok(Decoded::Array(vec![])));
    assert_eq!(decode("array(integer)", "[true]"), Err(ExpectedFormat::ScalarArray));
    assert_eq!(decode("array(integer)", "[[1]]"), Err(ExpectedFormat::ScalarArray));
    assert_eq!(decode("array(integer)", "{}"), Err(ExpectedFormat::ScalarArray));
}

#[test]
fn maps() {
    assert_eq!(
        decode("map(varchar,integer)", r#"{"key1": 1, "key2": 2}"#),
        Ok(Decoded::Mapping(vec![
            ("key1".to_string(), Json::Number("1".to_string())),
            ("key2".to_string(), Json::Number("2".to_string())),
        ]))
    );
    assert_eq!(
        decode("map(varchar,json)", r#"{"k": {"nested": [1, null]}}"#),
        Ok(Decoded::Mapping(vec![("k".to_string(), json(r#"{"nested": [1, null]}"#))]))
    );
    assert_eq!(decode("map(varchar,integer)", "[]"), Err(ExpectedFormat::Object));
    assert_eq!(decode("map(varchar,integer)", "\"x\""), Err(ExpectedFormat::Object));
}

#[test]
fn a_strategy_set_by_hand_decides() {
    let estimate = FieldSpec {
        identifier: "cpuCost".to_string(),
        native_type: TypeDescriptor::Float(trino_codegen::types::FloatWidth::W64),
        decode_strategy: Some(DecodeStrategy::NanAsMissing),
    };
    assert_eq!(decode_field(&estimate, &json("\"NaN\"")), Ok(Decoded::Absent));
    assert_eq!(decode_field(&estimate, &json("\"nan\"")), Ok(Decoded::Absent));
    assert_eq!(decode_field(&estimate, &json("3.14")), Ok(Decoded::Number("3.14".to_string())));
    let passthrough = FieldSpec {
        identifier: "m".to_string(),
        native_type: TypeDescriptor::Varchar,
        decode_strategy: Some(DecodeStrategy::MapPassthrough),
    };
    assert_eq!(decode_field(&passthrough, &json("{}")), Ok(Decoded::Mapping(vec![])));
    assert_eq!(
        decode_field(&passthrough, &json("\"x\"")),
        Err(DecodeError {
            field: Some("m".to_string()),
            raw: Json::String("x".to_string()),
            expected: ExpectedFormat::Object,
        })
    );
}

#[test]
fn a_field_without_strategy_is_decoded_by_its_type() {
    let bare = FieldSpec {
        identifier: "d".to_string(),
        native_type: TypeDescriptor::Date,
        decode_strategy: None,
    };
    let date = Decoded::Date(CalendarDate { year: 2023, month: 1, day: 1 });
    assert_eq!(decode_field(&bare, &json("\"2023-01-01\"")), Ok(date));
    assert_eq!(
        decode_default(&TypeDescriptor::Date, &json("\"2023-01-01\"")),
        decode_with(DecodeStrategy::Date, &json("\"2023-01-01\""))
    );
    assert_eq!(decode_default(&TypeDescriptor::Date, &json("[]")), Err(ExpectedFormat::Date));
    assert_eq!(decode_default(&TypeDescriptor::Boolean, &json("true")), Ok(Decoded::Boolean(true)));
}

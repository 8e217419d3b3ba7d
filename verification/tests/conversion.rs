use result_materializer::convert::{
    convert, convert_cell, row_to_values, text_value,
};
use result_materializer::driver::{
    classify, decoder_for, same_text, Cell, DecodeKind, DriverValue, TypeTag,
};
use result_materializer::value::{float_is_finite, number_from_float, GenericValue};

fn cell(name: &str, data_type: &str, value: Option<DriverValue>) -> Cell {
    Cell { name: name.to_string(), data_type: data_type.to_string(), value }
}

fn text(s: &str) -> GenericValue {
    GenericValue::Text(s.to_string())
}

#[test]
fn every_tag_of_the_table_is_recognized() {
    assert_eq!(classify("INT2"), TypeTag::Int2);
    assert_eq!(classify("INT4"), TypeTag::Int4);
    assert_eq!(classify("INT8"), TypeTag::Int8);
    assert_eq!(classify("FLOAT4"), TypeTag::Float4);
    assert_eq!(classify("FLOAT8"), TypeTag::Float8);
    assert_eq!(classify("NUMERIC"), TypeTag::Numeric);
    assert_eq!(classify("BOOL"), TypeTag::Bool);
    assert_eq!(classify("TEXT"), TypeTag::Text);
    assert_eq!(classify("VARCHAR"), TypeTag::Varchar);
    assert_eq!(classify("CHAR"), TypeTag::Char);
    assert_eq!(classify("NAME"), TypeTag::Name);
    assert_eq!(classify("TIMESTAMPTZ"), TypeTag::TimestampTz);
    assert_eq!(classify("TIMESTAMP"), TypeTag::Timestamp);
    assert_eq!(classify("DATE"), TypeTag::Date);
    assert_eq!(classify("TIME"), TypeTag::Time);
    assert_eq!(classify("UUID"), TypeTag::Uuid);
    assert_eq!(classify("JSON"), TypeTag::Json);
    assert_eq!(classify("JSONB"), TypeTag::Jsonb);
}

#[test]
fn tag_match_is_exact_and_case_sensitive() {
    assert_eq!(classify("int4"), TypeTag::Other);
    assert_eq!(classify("Int4"), TypeTag::Other);
    assert_eq!(classify("INT4 "), TypeTag::Other);
    assert_eq!(classify("INT"), TypeTag::Other);
    assert_eq!(classify(""), TypeTag::Other);
    assert_eq!(classify("BYTEA"), TypeTag::Other);
    assert_eq!(classify("TIMETZ"), TypeTag::Other);
    assert_eq!(classify("INT4[]"), TypeTag::Other);
    assert_eq!(classify("JSONB\u{e9}"), TypeTag::Other);
}

#[test]
fn same_text_compares_whole_strings() {
    assert!(same_text("", ""));
    assert!(same_text("DATE", "DATE"));
    assert!(!same_text("DATE", "DATA"));
    assert!(!same_text("DATE", "DATES"));
    assert!(!same_text("DATES", "DATE"));
    assert!(same_text("caf\u{e9}", "caf\u{e9}"));
    assert!(!same_text("caf\u{e9}", "cafe"));
}

#[test]
fn each_tag_has_its_decoder() {
    assert_eq!(decoder_for("INT2"), DecodeKind::SmallInt);
    assert_eq!(decoder_for("INT4"), DecodeKind::Int);
    assert_eq!(decoder_for("INT8"), DecodeKind::BigInt);
    assert_eq!(decoder_for("FLOAT4"), DecodeKind::Real);
    assert_eq!(decoder_for("FLOAT8"), DecodeKind::Double);
    assert_eq!(decoder_for("NUMERIC"), DecodeKind::Double);
    assert_eq!(decoder_for("BOOL"), DecodeKind::Boolean);
    assert_eq!(decoder_for("TEXT"), DecodeKind::Text);
    assert_eq!(decoder_for("VARCHAR"), DecodeKind::Text);
    assert_eq!(decoder_for("CHAR"), DecodeKind::Text);
    assert_eq!(decoder_for("NAME"), DecodeKind::Text);
    assert_eq!(decoder_for("TIMESTAMPTZ"), DecodeKind::TimestampTz);
    assert_eq!(decoder_for("TIMESTAMP"), DecodeKind::Timestamp);
    assert_eq!(decoder_for("DATE"), DecodeKind::Date);
    assert_eq!(decoder_for("TIME"), DecodeKind::Time);
    assert_eq!(decoder_for("UUID"), DecodeKind::Uuid);
    assert_eq!(decoder_for("JSON"), DecodeKind::Json);
    assert_eq!(decoder_for("JSONB"), DecodeKind::Json);
    assert_eq!(decoder_for("INET"), DecodeKind::Text);
    assert_eq!(TypeTag::Other.decoder(), DecodeKind::Text);
}

#[test]
fn each_decoder_yields_its_own_values_only() {
    let kinds = [
        DecodeKind::SmallInt,
        DecodeKind::Int,
        DecodeKind::BigInt,
        DecodeKind::Real,
        DecodeKind::Double,
        DecodeKind::Boolean,
        DecodeKind::Text,
        DecodeKind::TimestampTz,
        DecodeKind::Timestamp,
        DecodeKind::Date,
        DecodeKind::Time,
        DecodeKind::Uuid,
        DecodeKind::Json,
    ];
    let values = [
        (DriverValue::Integer(1), vec![0, 1, 2]),
        (DriverValue::Float(0), vec![3, 4]),
        (DriverValue::Boolean(true), vec![5]),
        (DriverValue::Text(String::new()), vec![6]),
        (DriverValue::TimestampTz { secs: 0, nanos: 0 }, vec![7]),
        (DriverValue::Timestamp { secs: 0, nanos: 0 }, vec![8]),
        (DriverValue::Date { days: 1 }, vec![9]),
        (DriverValue::Time { second_of_day: 0, nanos: 0 }, vec![10]),
        (DriverValue::Uuid(0), vec![11]),
        (DriverValue::Json(serde_json::Value::Null), vec![12]),
    ];
    for (value, fitting) in &values {
        for (k, kind) in kinds.iter().enumerate() {
            assert_eq!(kind.yields(value), fitting.contains(&k));
        }
    }
}

#[test]
fn null_cell_is_null_for_every_tag() {
    let tags = [
        "INT2", "INT4", "INT8", "FLOAT4", "FLOAT8", "NUMERIC", "BOOL", "TEXT", "VARCHAR", "CHAR",
        "NAME", "TIMESTAMPTZ", "TIMESTAMP", "DATE", "TIME", "UUID", "JSON", "JSONB", "BYTEA", "",
    ];
    for tag in tags {
        assert_eq!(convert_cell(&cell("c", tag, None)), GenericValue::Null);
    }
}

#[test]
fn integers_convert_to_integers() {
    for tag in ["INT2", "INT4", "INT8"] {
        assert_eq!(
            convert_cell(&cell("n", tag, Some(DriverValue::Integer(-42)))),
            GenericValue::Integer(-42)
        );
    }
    assert_eq!(
        convert_cell(&cell("n", "INT8", Some(DriverValue::Integer(i64::MAX)))),
        GenericValue::Integer(i64::MAX)
    );
    assert_eq!(
        convert_cell(&cell("n", "INT8", Some(DriverValue::Integer(i64::MIN)))),
        GenericValue::Integer(i64::MIN)
    );
}

#[test]
fn finite_floats_convert_to_numbers() {
    let bits = 1.5f64.to_bits();
    for tag in ["FLOAT4", "FLOAT8", "NUMERIC"] {
        assert_eq!(
            convert_cell(&cell("x", tag, Some(DriverValue::Float(bits)))),
            GenericValue::Float(bits)
        );
    }
    assert_eq!(number_from_float(0), GenericValue::Float(0));
    assert_eq!(number_from_float((-0.0f64).to_bits()), GenericValue::Float(1u64 << 63));
    assert_eq!(number_from_float(f64::MAX.to_bits()), GenericValue::Float(0x7fef_ffff_ffff_ffff));
    assert_eq!(number_from_float(f64::MIN_POSITIVE.to_bits()), GenericValue::Float(1u64 << 52));
}

#[test]
fn non_finite_floats_convert_to_null() {
    assert_eq!(number_from_float(f64::NAN.to_bits()), GenericValue::Null);
    assert_eq!(number_from_float(f64::INFINITY.to_bits()), GenericValue::Null);
    assert_eq!(number_from_float(f64::NEG_INFINITY.to_bits()), GenericValue::Null);
    assert_eq!(number_from_float(0x7ff0_0000_0000_0001), GenericValue::Null);
    assert_eq!(
        convert_cell(&cell("x", "FLOAT8", Some(DriverValue::Float(f64::NAN.to_bits())))),
        GenericValue::Null
    );
}

#[test]
fn finiteness_agrees_with_the_float_type() {
    let samples = [
        0.0f64,
        -0.0,
        1.0,
        -1.0,
        f64::MAX,
        f64::MIN,
        f64::MIN_POSITIVE,
        f64::EPSILON,
        f64::NAN,
        f64::INFINITY,
        f64::NEG_INFINITY,
        5e-324,
    ];
    for x in samples {
        assert_eq!(float_is_finite(x.to_bits()), x.is_finite());
    }
    assert!(float_is_finite(0x7fef_ffff_ffff_ffff));
    assert!(!float_is_finite(0x7ff0_0000_0000_0000));
    assert!(!float_is_finite(0xfff8_0000_0000_0000));
}

#[test]
fn booleans_convert_to_booleans() {
    assert_eq!(
        convert_cell(&cell("b", "BOOL", Some(DriverValue::Boolean(true)))),
        GenericValue::Bool(true)
    );
    assert_eq!(
        convert_cell(&cell("b", "BOOL", Some(DriverValue::Boolean(false)))),
        GenericValue::Bool(false)
    );
}

#[test]
fn text_converts_to_the_same_text() {
    for tag in ["TEXT", "VARCHAR", "CHAR", "NAME"] {
        assert_eq!(
            convert_cell(&cell("t", tag, Some(DriverValue::Text("h\u{e9}llo".to_string())))),
            text("h\u{e9}llo")
        );
    }
    assert_eq!(convert_cell(&cell("t", "TEXT", Some(DriverValue::Text(String::new())))), text(""));
}

#[test]
fn timestamptz_converts_to_rfc3339() {
    let instant = chrono::DateTime::parse_from_rfc3339("2024-01-15T10:30:00+00:00").unwrap();
    assert_eq!(instant.timestamp(), 1_705_314_600);
    let value = DriverValue::TimestampTz {
        secs: instant.timestamp(),
        nanos: instant.timestamp_subsec_nanos(),
    };
    assert_eq!(
        convert_cell(&cell("at", "TIMESTAMPTZ", Some(value))),
        text("2024-01-15T10:30:00+00:00")
    );
}

#[test]
fn timestamptz_keeps_fractions_of_a_second() {
    let value = DriverValue::TimestampTz { secs: 0, nanos: 500_000_000 };
    assert_eq!(
        convert_cell(&cell("at", "TIMESTAMPTZ", Some(value))),
        text("1970-01-01T00:00:00.500+00:00")
    );
    let value = DriverValue::TimestampTz { secs: -1, nanos: 123_456_789 };
    assert_eq!(
        convert_cell(&cell("at", "TIMESTAMPTZ", Some(value))),
        text("1969-12-31T23:59:59.123456789+00:00")
    );
}

#[test]
fn timestamp_converts_to_the_naive_form() {
    let value = DriverValue::Timestamp { secs: 1_705_314_600, nanos: 0 };
    assert_eq!(convert_cell(&cell("at", "TIMESTAMP", Some(value))), text("2024-01-15 10:30:00"));
    let value = DriverValue::Timestamp { secs: 1_705_314_600, nanos: 250_000_000 };
    assert_eq!(
        convert_cell(&cell("at", "TIMESTAMP", Some(value))),
        text("2024-01-15 10:30:00.250")
    );
}

#[test]
fn date_converts_to_the_date_form() {
    let date = chrono::NaiveDate::from_ymd_opt(2024, 1, 15).unwrap();
    let days = chrono::Datelike::num_days_from_ce(&date);
    assert_eq!(days, 738_900);
    assert_eq!(
        convert_cell(&cell("d", "DATE", Some(DriverValue::Date { days }))),
        text("2024-01-15")
    );
    assert_eq!(
        convert_cell(&cell("d", "DATE", Some(DriverValue::Date { days: 1 }))),
        text("0001-01-01")
    );
}

#[test]
fn time_converts_to_the_time_form() {
    let value = DriverValue::Time { second_of_day: 37_800, nanos: 0 };
    assert_eq!(convert_cell(&cell("t", "TIME", Some(value))), text("10:30:00"));
    let value = DriverValue::Time { second_of_day: 86_399, nanos: 500_000_000 };
    assert_eq!(convert_cell(&cell("t", "TIME", Some(value))), text("23:59:59.500"));
}

#[test]
fn uuid_converts_to_the_hyphenated_form() {
    let id = uuid::Uuid::parse_str("550e8400-e29b-41d4-a716-446655440000").unwrap();
    assert_eq!(id.as_u128(), 0x550e8400_e29b_41d4_a716_446655440000);
    assert_eq!(
        convert_cell(&cell("id", "UUID", Some(DriverValue::Uuid(id.as_u128())))),
        text("550e8400-e29b-41d4-a716-446655440000")
    );
}

#[test]
fn uuid_digits_are_lowercase_and_most_significant_first() {
    assert_eq!(
        convert_cell(&cell("id", "UUID", Some(DriverValue::Uuid(0)))),
        text("00000000-0000-0000-0000-000000000000")
    );
    assert_eq!(
        convert_cell(&cell("id", "UUID", Some(DriverValue::Uuid(u128::MAX)))),
        text("ffffffff-ffff-ffff-ffff-ffffffffffff")
    );
    assert_eq!(
        convert_cell(&cell(
            "id",
            "UUID",
            Some(DriverValue::Uuid(0x0123_4567_89ab_cdef_fedc_ba98_7654_3210))
        )),
        text("01234567-89ab-cdef-fedc-ba9876543210")
    );
    assert_eq!(
        convert_cell(&cell("id", "UUID", Some(DriverValue::Uuid(0xa)))),
        text("00000000-0000-0000-0000-00000000000a")
    );
}

#[test]
fn json_passes_through_unchanged() {
    let mut object = serde_json::Map::new();
    object.insert("a".to_string(), serde_json::Value::from(1));
    object.insert(
        "b".to_string(),
        serde_json::Value::Array(vec![serde_json::Value::Bool(true), serde_json::Value::Null]),
    );
    let doc = serde_json::Value::Object(object);
    for tag in ["JSON", "JSONB"] {
        assert_eq!(
            convert_cell(&cell("doc", tag, Some(DriverValue::Json(doc.clone())))),
            GenericValue::Structured(doc.clone())
        );
    }
}

#[test]
fn unrecognized_tag_with_text_gives_the_text() {
    assert_eq!(
        convert_cell(&cell("addr", "INET", Some(DriverValue::Text("10.0.0.1".to_string())))),
        text("10.0.0.1")
    );
}

#[test]
fn unrecognized_tag_without_text_gives_null() {
    assert_eq!(convert_cell(&cell("blob", "BYTEA", None)), GenericValue::Null);
    let row = vec![
        cell("id", "INT8", Some(DriverValue::Integer(1))),
        cell("blob", "BYTEA", None),
        cell("label", "TEXT", Some(DriverValue::Text("x".to_string()))),
    ];
    assert_eq!(
        row_to_values(&row),
        vec![GenericValue::Integer(1), GenericValue::Null, text("x")]
    );
}

#[test]
fn value_of_another_kind_gives_null() {
    assert_eq!(
        convert_cell(&cell("n", "INT4", Some(DriverValue::Text("7".to_string())))),
        GenericValue::Null
    );
    assert_eq!(
        convert_cell(&cell("t", "TEXT", Some(DriverValue::Integer(7)))),
        GenericValue::Null
    );
    assert_eq!(
        convert_cell(&cell("at", "TIMESTAMP", Some(DriverValue::TimestampTz { secs: 0, nanos: 0 }))),
        GenericValue::Null
    );
    assert_eq!(convert(DecodeKind::Uuid, &Some(DriverValue::Boolean(true))), GenericValue::Null);
    assert_eq!(convert(DecodeKind::Json, &None), GenericValue::Null);
}

#[test]
fn temporal_value_out_of_range_gives_null() {
    assert_eq!(
        convert_cell(&cell(
            "at",
            "TIMESTAMPTZ",
            Some(DriverValue::TimestampTz { secs: i64::MAX, nanos: 0 })
        )),
        GenericValue::Null
    );
    assert_eq!(
        convert_cell(&cell(
            "at",
            "TIMESTAMPTZ",
            Some(DriverValue::TimestampTz { secs: 0, nanos: 2_000_000_000 })
        )),
        GenericValue::Null
    );
    assert_eq!(
        convert_cell(&cell(
            "at",
            "TIMESTAMP",
            Some(DriverValue::Timestamp { secs: i64::MIN, nanos: 0 })
        )),
        GenericValue::Null
    );
    assert_eq!(
        convert_cell(&cell("d", "DATE", Some(DriverValue::Date { days: i32::MAX }))),
        GenericValue::Null
    );
    assert_eq!(
        convert_cell(&cell("t", "TIME", Some(DriverValue::Time { second_of_day: 86_400, nanos: 0 }))),
        GenericValue::Null
    );
}

#[test]
fn row_keeps_length_and_order() {
    let row = vec![
        cell("a", "INT4", Some(DriverValue::Integer(1))),
        cell("b", "BOOL", Some(DriverValue::Boolean(false))),
        cell("a", "TEXT", Some(DriverValue::Text("again".to_string()))),
        cell("d", "UUID", None),
    ];
    let values = row_to_values(&row);
    assert_eq!(values.len(), row.len());
    assert_eq!(
        values,
        vec![
            GenericValue::Integer(1),
            GenericValue::Bool(false),
            text("again"),
            GenericValue::Null
        ]
    );
    assert_eq!(row_to_values(&Vec::new()), Vec::<GenericValue>::new());
}

#[test]
fn leap_second_is_a_time_of_day_only_at_the_end_of_a_minute() {
    let value = DriverValue::Time { second_of_day: 86_399, nanos: 1_999_999_999 };
    assert_eq!(convert_cell(&cell("t", "TIME", Some(value))), text("23:59:60.999999999"));
    let value = DriverValue::Time { second_of_day: 59, nanos: 1_000_000_000 };
    assert_eq!(convert_cell(&cell("t", "TIME", Some(value))), text("00:00:60"));
    let value = DriverValue::Time { second_of_day: 86_398, nanos: 1_000_000_000 };
    assert_eq!(convert_cell(&cell("t", "TIME", Some(value))), GenericValue::Null);
    let value = DriverValue::Time { second_of_day: 59, nanos: 2_000_000_000 };
    assert_eq!(convert_cell(&cell("t", "TIME", Some(value))), GenericValue::Null);
    let value = DriverValue::Time { second_of_day: 0, nanos: 999_999_999 };
    assert_eq!(convert_cell(&cell("t", "TIME", Some(value))), text("00:00:00.999999999"));
    let value = DriverValue::Time { second_of_day: 0, nanos: 1_000 };
    assert_eq!(convert_cell(&cell("t", "TIME", Some(value))), text("00:00:00.000001"));
}

#[test]
fn formatted_text_becomes_text_and_none_becomes_null() {
    assert_eq!(text_value(Some("10:30:00".to_string())), text("10:30:00"));
    assert_eq!(text_value(Some(String::new())), text(""));
    assert_eq!(text_value(None), GenericValue::Null);
}

#[test]
fn dates_at_the_ends_of_the_range() {
    assert_eq!(
        convert_cell(&cell("d", "DATE", Some(DriverValue::Date { days: 0 }))),
        text("0000-12-31")
    );
    assert_eq!(
        convert_cell(&cell("d", "DATE", Some(DriverValue::Date { days: 3_652_059 }))),
        text("9999-12-31")
    );
    assert_eq!(
        convert_cell(&cell("d", "DATE", Some(DriverValue::Date { days: 3_652_060 }))),
        text("+10000-01-01")
    );
    assert_eq!(
        convert_cell(&cell("d", "DATE", Some(DriverValue::Date { days: i32::MIN }))),
        GenericValue::Null
    );
}

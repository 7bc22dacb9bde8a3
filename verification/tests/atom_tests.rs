use odata_atom::types::{CellValue, FieldType, TimeUnit};
use odata_atom::value::encode_primitive_dyn;

#[test]
fn test_encode_date() {
    // Date32: days since the epoch for 2024-09-11 (midnight is 1726012800000 ms).
    let days: i32 = (1726012800000i64 / 86_400_000) as i32;
    let result = encode_primitive_dyn(FieldType::Date32, &CellValue::Int32(days)).unwrap();
    assert_eq!(result, "2024-09-11T00:00");

    // Date64: the same date stored as milliseconds.
    let result = encode_primitive_dyn(FieldType::Date64, &CellValue::Int64(1726012800000)).unwrap();
    assert_eq!(result, "2024-09-11T00:00");
}

#[test]
fn test_encode_timestamp() {
    let assert_serializes_as = |ft: FieldType, values: &[i64], expected: &[&str]| {
        let actual: Vec<String> = values
            .iter()
            .map(|v| encode_primitive_dyn(ft, &CellValue::Int64(*v)).unwrap())
            .collect();
        assert_eq!(actual, expected);
    };

    // Millis, with a zone attached ("UTC").
    assert_serializes_as(
        FieldType::Timestamp(TimeUnit::Millisecond, true),
        &[1_577_880_000_001, 1_577_880_060_001],
        &["2020-01-01T12:00:00.001Z", "2020-01-01T12:01:00.001Z"],
    );

    // Micros, with a zone attached.
    assert_serializes_as(
        FieldType::Timestamp(TimeUnit::Microsecond, true),
        &[1_577_880_000_000_001, 1_577_880_060_000_001],
        &["2020-01-01T12:00:00.000Z", "2020-01-01T12:01:00.000Z"],
    );

    // Seconds, with a zone attached.
    assert_serializes_as(
        FieldType::Timestamp(TimeUnit::Second, true),
        &[1_577_880_001, 1_577_880_061],
        &["2020-01-01T12:00:01.000Z", "2020-01-01T12:01:01.000Z"],
    );

    // No timezone.
    assert_serializes_as(
        FieldType::Timestamp(TimeUnit::Microsecond, false),
        &[1_577_880_000_000_000, 1_577_880_060_001_000],
        &["2020-01-01T12:00:00", "2020-01-01T12:01:00.001"],
    );
}

#[test]
fn test_encode_primitive_dyn() {
    let result = encode_primitive_dyn(FieldType::Int64, &CellValue::Int64(1)).unwrap();
    assert_eq!(result, "1");
}

#[test]
fn encode_booleans_and_integers() {
    assert_eq!(
        encode_primitive_dyn(FieldType::Boolean, &CellValue::Bool(true)).unwrap(),
        "true"
    );
    assert_eq!(
        encode_primitive_dyn(FieldType::Boolean, &CellValue::Bool(false)).unwrap(),
        "false"
    );
    assert_eq!(
        encode_primitive_dyn(FieldType::Int8, &CellValue::Int8(-128)).unwrap(),
        "-128"
    );
    assert_eq!(
        encode_primitive_dyn(FieldType::Int16, &CellValue::Int16(-1)).unwrap(),
        "-1"
    );
    assert_eq!(
        encode_primitive_dyn(FieldType::Int32, &CellValue::Int32(0)).unwrap(),
        "0"
    );
    assert_eq!(
        encode_primitive_dyn(FieldType::Int64, &CellValue::Int64(i64::MIN)).unwrap(),
        "-9223372036854775808"
    );
    assert_eq!(
        encode_primitive_dyn(FieldType::UInt8, &CellValue::UInt8(255)).unwrap(),
        "255"
    );
    assert_eq!(
        encode_primitive_dyn(FieldType::UInt16, &CellValue::UInt16(65535)).unwrap(),
        "65535"
    );
    assert_eq!(
        encode_primitive_dyn(FieldType::UInt32, &CellValue::UInt32(7)).unwrap(),
        "7"
    );
    assert_eq!(
        encode_primitive_dyn(FieldType::UInt64, &CellValue::UInt64(u64::MAX)).unwrap(),
        "18446744073709551615"
    );
}

#[test]
fn encode_floats_keep_round_trip_text() {
    let v = (135.5625f64).to_string();
    assert_eq!(
        encode_primitive_dyn(FieldType::Float64, &CellValue::Float(v)).unwrap(),
        "135.5625"
    );
    let v32 = (1.5f32).to_string();
    assert_eq!(
        encode_primitive_dyn(FieldType::Float32, &CellValue::Float(v32)).unwrap(),
        "1.5"
    );
}

#[test]
fn encode_text_escapes_markup() {
    assert_eq!(
        encode_primitive_dyn(
            FieldType::Utf8,
            &CellValue::Text("a<b>&'\"c".to_string())
        )
        .unwrap(),
        "a&lt;b&gt;&amp;&apos;&quot;c"
    );
    assert_eq!(
        encode_primitive_dyn(FieldType::LargeUtf8, &CellValue::Text("plain".to_string())).unwrap(),
        "plain"
    );
}

#[test]
fn encode_negative_date_before_epoch() {
    assert_eq!(
        encode_primitive_dyn(FieldType::Date32, &CellValue::Int32(-1)).unwrap(),
        "1969-12-31T00:00"
    );
}

#[test]
fn encode_out_of_range_timestamp_is_error() {
    let err = encode_primitive_dyn(
        FieldType::Timestamp(TimeUnit::Second, true),
        &CellValue::Int64(i64::MAX),
    )
    .unwrap_err();
    assert_eq!(
        err.data_type,
        FieldType::Timestamp(TimeUnit::Second, true)
    );
}

#[test]
fn encode_unsupported_type_is_error() {
    let err = encode_primitive_dyn(FieldType::List, &CellValue::Null).unwrap_err();
    assert_eq!(err.data_type, FieldType::List);
}

#[test]
fn encode_negative_naive_timestamp() {
    // One millisecond before the epoch, no zone: variable-precision fraction.
    assert_eq!(
        encode_primitive_dyn(
            FieldType::Timestamp(TimeUnit::Millisecond, false),
            &CellValue::Int64(-1)
        )
        .unwrap(),
        "1969-12-31T23:59:59.999"
    );
}

use logical_types::canonical::{UnknownExtensionType, UuidType};
use logical_types::datatype::{DataType, Field, UnionMode};
use logical_types::error::ErrorKind;
use logical_types::extensions::{
    default_pretty_print, format_bytes, format_uuid, DefaultValuePrettyPrinter, UuidPrettyPrinter,
    ValuePrettyPrinter,
};
use logical_types::native::{LogicalType, NativeType};
use logical_types::scalar::{
    IntervalDayTime, IntervalMonthDayNano, ListValue, MapEntry, MapValue, ScalarValue, StructValue,
};
use logical_types::text::format_int;

fn uuid_bytes() -> Vec<u8> {
    vec![
        0x00, 0x11, 0x22, 0x33, 0x44, 0x55, 0x66, 0x77, 0x88, 0x99, 0xaa, 0xbb, 0xcc, 0xdd, 0xee,
        0xff,
    ]
}

#[test]
fn uuid_renders_as_canonical_hyphenated_hex() {
    let value = ScalarValue::FixedSizeBinary(16, Some(uuid_bytes()));
    assert_eq!(
        UuidPrettyPrinter.pretty_print_scalar(&value).unwrap(),
        "00112233-4455-6677-8899-aabbccddeeff"
    );
    assert_eq!(format_uuid(&vec![0x0f; 16]).unwrap(), "0f0f0f0f-0f0f-0f0f-0f0f-0f0f0f0f0f0f");
    assert_eq!(format_uuid(&vec![0x0f; 3]).unwrap_err().kind, ErrorKind::TypeMismatch);
    assert_eq!(
        UuidType::new().pretty_printer().pretty_print_scalar(&value).unwrap(),
        "00112233-4455-6677-8899-aabbccddeeff"
    );
}

#[test]
fn uuid_of_another_length_fails() {
    let short = ScalarValue::FixedSizeBinary(15, Some(vec![0; 15]));
    assert_eq!(
        UuidPrettyPrinter.pretty_print_scalar(&short).unwrap_err().kind,
        ErrorKind::TypeMismatch
    );
    let long = ScalarValue::FixedSizeBinary(16, Some(vec![0; 17]));
    assert_eq!(
        UuidPrettyPrinter.pretty_print_scalar(&long).unwrap_err().kind,
        ErrorKind::TypeMismatch
    );
    let other = ScalarValue::Binary(Some(uuid_bytes()));
    assert_eq!(
        UuidPrettyPrinter.pretty_print_scalar(&other).unwrap_err().kind,
        ErrorKind::TypeMismatch
    );
    let missing = ScalarValue::FixedSizeBinary(16, None);
    assert_eq!(UuidPrettyPrinter.pretty_print_scalar(&missing).unwrap(), "NULL");
}

#[test]
fn printing_a_row_prints_the_scalar_at_that_row() {
    let array = vec![
        ScalarValue::FixedSizeBinary(16, Some(vec![0xab; 16])),
        ScalarValue::FixedSizeBinary(16, Some(uuid_bytes())),
    ];
    assert_eq!(
        UuidPrettyPrinter.pretty_print_array(&array, 1).unwrap(),
        "00112233-4455-6677-8899-aabbccddeeff"
    );
    assert_eq!(
        UuidPrettyPrinter.pretty_print_array(&array, 2).unwrap_err().kind,
        ErrorKind::NotFound
    );
    let printer = UuidType::new().pretty_printer();
    assert_eq!(
        printer.pretty_print_array(&array, 0).unwrap(),
        "abababab-abab-abab-abab-abababababab"
    );
    assert_eq!(printer.pretty_print_array(&array, 9).unwrap_err().kind, ErrorKind::NotFound);
}

#[test]
fn default_printer_gives_the_standard_text() {
    let p = DefaultValuePrettyPrinter;
    assert_eq!(p.pretty_print_scalar(&ScalarValue::Null).unwrap(), "NULL");
    assert_eq!(p.pretty_print_scalar(&ScalarValue::Int32(None)).unwrap(), "NULL");
    assert_eq!(p.pretty_print_scalar(&ScalarValue::Boolean(Some(true))).unwrap(), "true");
    assert_eq!(p.pretty_print_scalar(&ScalarValue::Boolean(Some(false))).unwrap(), "false");
    assert_eq!(p.pretty_print_scalar(&ScalarValue::Int8(Some(-128))).unwrap(), "-128");
    assert_eq!(p.pretty_print_scalar(&ScalarValue::Int64(Some(i64::MIN))).unwrap(), i64::MIN.to_string());
    assert_eq!(p.pretty_print_scalar(&ScalarValue::UInt64(Some(u64::MAX))).unwrap(), u64::MAX.to_string());
    assert_eq!(p.pretty_print_scalar(&ScalarValue::Utf8(Some("a b".to_string()))).unwrap(), "a b");
    assert_eq!(p.pretty_print_scalar(&ScalarValue::Binary(Some(vec![1, 20, 255]))).unwrap(), "1,20,255");
    assert_eq!(p.pretty_print_scalar(&ScalarValue::Decimal128(Some(12345), 10, 2)).unwrap(), "123.45");
    assert_eq!(p.pretty_print_scalar(&ScalarValue::Date32(Some(7))).unwrap(), "7");
    assert_eq!(p.pretty_print_scalar(&ScalarValue::TimestampSecond(Some(-7), None)).unwrap(), "-7");
    let dictionary = ScalarValue::Dictionary(
        Box::new(DataType::Int8),
        Box::new(ScalarValue::UInt16(Some(9))),
    );
    assert_eq!(p.pretty_print_scalar(&dictionary).unwrap(), "9");
    assert_eq!(
        p.pretty_print_scalar(&ScalarValue::Float64(Some(1.5f64.to_bits()))).unwrap_err().kind,
        ErrorKind::Unimplemented
    );
    assert_eq!(default_pretty_print(&ScalarValue::Int16(Some(0))).unwrap(), "0");
}

#[test]
fn types_without_a_printer_of_their_own_use_the_default() {
    let unknown = UnknownExtensionType::new("x".to_string(), NativeType::Int32);
    assert_eq!(unknown.pretty_printer().pretty_print_scalar(&ScalarValue::Int32(Some(4))).unwrap(), "4");
    assert_eq!(NativeType::Int32.pretty_printer().pretty_print_scalar(&ScalarValue::Null).unwrap(), "NULL");
}

#[test]
fn integers_format_as_decimal_text() {
    for v in [0i128, 7, 10, -1, 99, 100, -1000, i128::MAX, i128::MIN] {
        assert_eq!(format_int(v), v.to_string());
    }
}

#[test]
fn bytes_format_with_commas() {
    assert_eq!(format_bytes(&vec![]), "");
    assert_eq!(format_bytes(&vec![0]), "0");
    assert_eq!(format_bytes(&vec![10, 0, 200]), "10,0,200");
}

fn text_of(value: &ScalarValue) -> String {
    DefaultValuePrettyPrinter.pretty_print_scalar(value).unwrap()
}

#[test]
fn nested_values_have_a_standard_text() {
    let item = Field::new("item".to_string(), DataType::Int32, true);
    let list = ScalarValue::List(ListValue {
        field: item.clone(),
        values: vec![ScalarValue::Int32(Some(1)), ScalarValue::Int32(None), ScalarValue::Int32(Some(3))],
    });
    assert_eq!(text_of(&list), "[1, NULL, 3]");
    let empty = ScalarValue::LargeList(ListValue { field: item.clone(), values: vec![] });
    assert_eq!(text_of(&empty), "[]");
    let record = ScalarValue::Struct(StructValue {
        fields: vec![
            Field::new("b".to_string(), DataType::Utf8, true),
            Field::new("a".to_string(), DataType::Int64, false),
        ],
        values: vec![ScalarValue::Utf8(Some("x".to_string())), ScalarValue::Int64(Some(7))],
    });
    assert_eq!(text_of(&record), "{b: x, a: 7}");
    let map = ScalarValue::Mapping(MapValue {
        entries_field: item.clone(),
        sorted: false,
        entries: vec![
            MapEntry { key: ScalarValue::Utf8(Some("b".to_string())), value: ScalarValue::Int32(Some(1)) },
            MapEntry { key: ScalarValue::Utf8(Some("a".to_string())), value: ScalarValue::Int32(None) },
        ],
    });
    assert_eq!(text_of(&map), "{b: 1, a: NULL}");
    let union = ScalarValue::Union(
        Some((5, Box::new(ScalarValue::Utf8(Some("x".to_string()))))),
        vec![],
        UnionMode::Dense,
    );
    assert_eq!(text_of(&union), "5:x");
    let nested = ScalarValue::List(ListValue { field: item, values: vec![list, empty] });
    assert_eq!(text_of(&nested), "[[1, NULL, 3], []]");
}

#[test]
fn intervals_have_a_standard_text() {
    let day_time = ScalarValue::IntervalDayTime(Some(IntervalDayTime { days: 3, milliseconds: -5 }));
    assert_eq!(text_of(&day_time), "3d -5ms");
    let mdn = ScalarValue::IntervalMonthDayNano(Some(IntervalMonthDayNano {
        months: 1,
        days: -2,
        nanoseconds: 3,
    }));
    assert_eq!(text_of(&mdn), "1mo -2d 3ns");
}

#[test]
fn a_value_that_holds_a_float_has_no_standard_text() {
    let list = ScalarValue::List(ListValue {
        field: Field::new("item".to_string(), DataType::Float64, true),
        values: vec![ScalarValue::Float64(None), ScalarValue::Float64(Some(0))],
    });
    let err = DefaultValuePrettyPrinter.pretty_print_scalar(&list).unwrap_err();
    assert_eq!(err.kind, ErrorKind::Unimplemented);
    assert_eq!(err.entity, "standard text");
    let uneven = ScalarValue::Struct(StructValue { fields: vec![], values: vec![ScalarValue::Null] });
    let err = DefaultValuePrettyPrinter.pretty_print_scalar(&uneven).unwrap_err();
    assert_eq!(err.kind, ErrorKind::InternalInvariantViolation);
}

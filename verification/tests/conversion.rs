use logical_types::datatype::{DataType, Field, TimeUnit, UnionField, UnionMode};
use logical_types::decimal::{i128_to_le_bytes, LogicalDecimal};
use logical_types::error::ErrorKind;
use logical_types::from_scalar_value::{
    fixed_size_list_to_logical_scalar, list_to_logical_scalar, to_logical,
};
use logical_types::logical::{
    LogicalDuration, LogicalInterval, LogicalScalar, LogicalTime, LogicalTimestamp,
};
use logical_types::native::{NativeType, TypeSignature};
use logical_types::scalar::{
    FixedSizeListValue, IntervalDayTime, IntervalMonthDayNano, ListValue, MapEntry, MapValue,
    ScalarValue, StructValue,
};

fn field(name: &str, data_type: DataType, nullable: bool) -> Field {
    Field::new(name.to_string(), data_type, nullable)
}

fn plain_text(value: &ScalarValue) -> String {
    match to_logical(value).unwrap() {
        LogicalScalar::Decimal(d) => d.to_plain_string(),
        other => panic!("expected a decimal, got {:?}", other),
    }
}

fn le_bytes_of(value: i128) -> [u8; 32] {
    let fill = if value < 0 { 0xff } else { 0x00 };
    let mut bytes = [fill; 32];
    bytes[..16].copy_from_slice(&value.to_le_bytes());
    bytes
}

#[test]
fn every_null_variant_converts_to_null() {
    let nulls = vec![
        ScalarValue::Null,
        ScalarValue::Boolean(None),
        ScalarValue::Float16(None),
        ScalarValue::Float32(None),
        ScalarValue::Float64(None),
        ScalarValue::Decimal128(None, 10, 2),
        ScalarValue::Decimal256(None, 40, 3),
        ScalarValue::Int8(None),
        ScalarValue::Int16(None),
        ScalarValue::Int32(None),
        ScalarValue::Int64(None),
        ScalarValue::UInt8(None),
        ScalarValue::UInt16(None),
        ScalarValue::UInt32(None),
        ScalarValue::UInt64(None),
        ScalarValue::Utf8(None),
        ScalarValue::Utf8View(None),
        ScalarValue::LargeUtf8(None),
        ScalarValue::Binary(None),
        ScalarValue::BinaryView(None),
        ScalarValue::FixedSizeBinary(4, None),
        ScalarValue::LargeBinary(None),
        ScalarValue::Date32(None),
        ScalarValue::Date64(None),
        ScalarValue::Time32Second(None),
        ScalarValue::Time32Millisecond(None),
        ScalarValue::Time64Microsecond(None),
        ScalarValue::Time64Nanosecond(None),
        ScalarValue::TimestampSecond(None, None),
        ScalarValue::TimestampMillisecond(None, Some("UTC".to_string())),
        ScalarValue::TimestampMicrosecond(None, None),
        ScalarValue::TimestampNanosecond(None, None),
        ScalarValue::IntervalYearMonth(None),
        ScalarValue::IntervalDayTime(None),
        ScalarValue::IntervalMonthDayNano(None),
        ScalarValue::DurationSecond(None),
        ScalarValue::DurationMillisecond(None),
        ScalarValue::DurationMicrosecond(None),
        ScalarValue::DurationNanosecond(None),
        ScalarValue::Union(None, vec![], UnionMode::Sparse),
        ScalarValue::Dictionary(Box::new(DataType::Int32), Box::new(ScalarValue::Utf8(None))),
    ];
    for value in &nulls {
        assert!(value.is_null());
        assert_eq!(to_logical(value), Ok(LogicalScalar::Null));
    }
}

#[test]
fn numbers_and_booleans_are_copied_verbatim() {
    assert_eq!(to_logical(&ScalarValue::Boolean(Some(true))), Ok(LogicalScalar::Boolean(true)));
    assert_eq!(to_logical(&ScalarValue::Int8(Some(-8))), Ok(LogicalScalar::Int8(-8)));
    assert_eq!(to_logical(&ScalarValue::Int16(Some(-16))), Ok(LogicalScalar::Int16(-16)));
    assert_eq!(to_logical(&ScalarValue::Int32(Some(i32::MIN))), Ok(LogicalScalar::Int32(i32::MIN)));
    assert_eq!(to_logical(&ScalarValue::Int64(Some(i64::MAX))), Ok(LogicalScalar::Int64(i64::MAX)));
    assert_eq!(to_logical(&ScalarValue::UInt8(Some(255))), Ok(LogicalScalar::UInt8(255)));
    assert_eq!(to_logical(&ScalarValue::UInt16(Some(16))), Ok(LogicalScalar::UInt16(16)));
    assert_eq!(to_logical(&ScalarValue::UInt32(Some(32))), Ok(LogicalScalar::UInt32(32)));
    assert_eq!(to_logical(&ScalarValue::UInt64(Some(u64::MAX))), Ok(LogicalScalar::UInt64(u64::MAX)));
    assert_eq!(to_logical(&ScalarValue::Date32(Some(19000))), Ok(LogicalScalar::Date(19000)));
}

#[test]
fn floats_keep_their_bit_pattern() {
    let bits64 = (-1.5f64).to_bits();
    let bits32 = f32::NAN.to_bits();
    assert_eq!(to_logical(&ScalarValue::Float64(Some(bits64))), Ok(LogicalScalar::Float64(bits64)));
    assert_eq!(to_logical(&ScalarValue::Float32(Some(bits32))), Ok(LogicalScalar::Float32(bits32)));
    assert_eq!(to_logical(&ScalarValue::Float16(Some(0x3c00))), Ok(LogicalScalar::Float16(0x3c00)));
    match to_logical(&ScalarValue::Float64(Some(bits64))).unwrap() {
        LogicalScalar::Float64(bits) => assert_eq!(f64::from_bits(bits), -1.5),
        _ => panic!("expected a float"),
    }
}

#[test]
fn string_encodings_collapse_to_string() {
    let expected = Ok(LogicalScalar::String("héllo".to_string()));
    assert_eq!(to_logical(&ScalarValue::Utf8(Some("héllo".to_string()))), expected);
    assert_eq!(to_logical(&ScalarValue::Utf8View(Some("héllo".to_string()))), expected);
    assert_eq!(to_logical(&ScalarValue::LargeUtf8(Some("héllo".to_string()))), expected);
}

#[test]
fn binary_encodings_collapse_to_binary() {
    let expected = Ok(LogicalScalar::Binary(vec![1, 2, 3]));
    assert_eq!(to_logical(&ScalarValue::Binary(Some(vec![1, 2, 3]))), expected);
    assert_eq!(to_logical(&ScalarValue::BinaryView(Some(vec![1, 2, 3]))), expected);
    assert_eq!(to_logical(&ScalarValue::LargeBinary(Some(vec![1, 2, 3]))), expected);
}

#[test]
fn fixed_size_binary_keeps_its_bytes() {
    match to_logical(&ScalarValue::FixedSizeBinary(3, Some(vec![7, 8, 9]))).unwrap() {
        LogicalScalar::FixedSizeBinary(b) => assert_eq!(b.bytes(), &vec![7, 8, 9]),
        other => panic!("expected a fixed-size binary, got {:?}", other),
    }
}

#[test]
fn decimal128_renders_value_times_ten_to_minus_scale() {
    assert_eq!(plain_text(&ScalarValue::Decimal128(Some(12345), 10, 2)), "123.45");
    assert_eq!(plain_text(&ScalarValue::Decimal128(Some(-12345), 10, 2)), "-123.45");
    assert_eq!(plain_text(&ScalarValue::Decimal128(Some(12345), 10, 0)), "12345");
    assert_eq!(plain_text(&ScalarValue::Decimal128(Some(5), 10, 3)), "0.005");
    assert_eq!(plain_text(&ScalarValue::Decimal128(Some(5), 10, -2)), "500");
    assert_eq!(plain_text(&ScalarValue::Decimal128(Some(0), 10, 0)), "0");
    assert_eq!(
        plain_text(&ScalarValue::Decimal128(Some(i128::MAX), 38, 0)),
        "170141183460469231731687303715884105727"
    );
    assert_eq!(
        plain_text(&ScalarValue::Decimal128(Some(i128::MIN), 38, 38)),
        "-1.70141183460469231731687303715884105728"
    );
}

#[test]
fn decimal128_keeps_scale() {
    match to_logical(&ScalarValue::Decimal128(Some(12345), 10, 2)).unwrap() {
        LogicalScalar::Decimal(d) => {
            assert_eq!(d.scale(), 2);
            assert_eq!(d.unscaled_le_bytes(), &le_bytes_of(12345).to_vec());
        }
        other => panic!("expected a decimal, got {:?}", other),
    }
}

#[test]
fn decimal256_reads_its_bytes_in_little_endian_order() {
    let mut bytes = [0u8; 32];
    bytes[0] = 0x02;
    bytes[1] = 0x01;
    assert_eq!(plain_text(&ScalarValue::Decimal256(Some(bytes), 76, 0)), "258");
    assert_eq!(plain_text(&ScalarValue::Decimal256(Some(bytes), 76, 2)), "2.58");

    let mut big = [0u8; 32];
    big[25] = 1;
    assert_eq!(
        plain_text(&ScalarValue::Decimal256(Some(big), 76, 0)),
        "1606938044258990275541962092341162602522202993782792835301376"
    );

    assert_eq!(plain_text(&ScalarValue::Decimal256(Some([0xff; 32]), 76, 0)), "-1");
    assert_eq!(plain_text(&ScalarValue::Decimal256(Some(le_bytes_of(-12345)), 76, 2)), "-123.45");
    assert_eq!(
        plain_text(&ScalarValue::Decimal256(Some(le_bytes_of(12345)), 76, 2)),
        plain_text(&ScalarValue::Decimal128(Some(12345), 38, 2))
    );
}

#[test]
fn i128_bytes_are_little_endian_twos_complement() {
    for value in [0i128, 1, -1, 255, 256, -256, 12345, -12345, i128::MAX, i128::MIN, 1 << 100] {
        assert_eq!(i128_to_le_bytes(value), value.to_le_bytes().to_vec());
    }
}

#[test]
fn decimal_out_of_bounds_is_too_large() {
    assert_eq!(LogicalDecimal::try_new(vec![0; 33], 0).unwrap_err().kind, ErrorKind::ValueTooLarge);
    assert_eq!(LogicalDecimal::try_new(vec![1], 128).unwrap_err().kind, ErrorKind::ValueTooLarge);
    assert_eq!(LogicalDecimal::try_new(vec![1], -129).unwrap_err().kind, ErrorKind::ValueTooLarge);
    let d = LogicalDecimal::try_new(vec![0x39, 0x30], 2).unwrap();
    assert_eq!(d.to_plain_string(), "123.45");
    assert_eq!(LogicalDecimal::try_new(vec![], 0).unwrap().to_plain_string(), "0");
    assert_eq!(LogicalDecimal::try_new(vec![7], -128).unwrap().scale(), -128);
    assert_eq!(LogicalDecimal::try_new(vec![0xff], 127).unwrap().scale(), 127);
}

#[test]
fn date64_is_a_timestamp_in_milliseconds() {
    assert_eq!(
        to_logical(&ScalarValue::Date64(Some(86_400_000))),
        Ok(LogicalScalar::Timestamp(LogicalTimestamp::new(TimeUnit::Millisecond, None, 86_400_000)))
    );
}

#[test]
fn times_are_tagged_by_unit() {
    assert_eq!(
        to_logical(&ScalarValue::Time32Second(Some(1))),
        Ok(LogicalScalar::Time(LogicalTime::Second(1)))
    );
    assert_eq!(
        to_logical(&ScalarValue::Time32Millisecond(Some(2))),
        Ok(LogicalScalar::Time(LogicalTime::Millisecond(2)))
    );
    assert_eq!(
        to_logical(&ScalarValue::Time64Microsecond(Some(3))),
        Ok(LogicalScalar::Time(LogicalTime::Microsecond(3)))
    );
    assert_eq!(
        to_logical(&ScalarValue::Time64Nanosecond(Some(4))),
        Ok(LogicalScalar::Time(LogicalTime::Nanosecond(4)))
    );
}

#[test]
fn timestamps_keep_unit_and_timezone() {
    let tz = Some("Europe/Vienna".to_string());
    assert_eq!(
        to_logical(&ScalarValue::TimestampSecond(Some(1), tz.clone())),
        Ok(LogicalScalar::Timestamp(LogicalTimestamp::new(TimeUnit::Second, tz.clone(), 1)))
    );
    assert_eq!(
        to_logical(&ScalarValue::TimestampMillisecond(Some(2), None)),
        Ok(LogicalScalar::Timestamp(LogicalTimestamp::new(TimeUnit::Millisecond, None, 2)))
    );
    assert_eq!(
        to_logical(&ScalarValue::TimestampMicrosecond(Some(3), tz.clone())),
        Ok(LogicalScalar::Timestamp(LogicalTimestamp::new(TimeUnit::Microsecond, tz.clone(), 3)))
    );
    assert_eq!(
        to_logical(&ScalarValue::TimestampNanosecond(Some(4), tz.clone())),
        Ok(LogicalScalar::Timestamp(LogicalTimestamp::new(TimeUnit::Nanosecond, tz, 4)))
    );
}

#[test]
fn intervals_and_durations_keep_their_parts() {
    assert_eq!(
        to_logical(&ScalarValue::IntervalYearMonth(Some(14))),
        Ok(LogicalScalar::Interval(LogicalInterval::YearMonth(14)))
    );
    let day_time = IntervalDayTime { days: 3, milliseconds: -5 };
    assert_eq!(
        to_logical(&ScalarValue::IntervalDayTime(Some(day_time))),
        Ok(LogicalScalar::Interval(LogicalInterval::DayTime(day_time)))
    );
    let mdn = IntervalMonthDayNano { months: 1, days: 2, nanoseconds: 3 };
    assert_eq!(
        to_logical(&ScalarValue::IntervalMonthDayNano(Some(mdn))),
        Ok(LogicalScalar::Interval(LogicalInterval::MonthDayNano(mdn)))
    );
    assert_eq!(
        to_logical(&ScalarValue::DurationSecond(Some(9))),
        Ok(LogicalScalar::Duration(LogicalDuration::new(TimeUnit::Second, 9)))
    );
    assert_eq!(
        to_logical(&ScalarValue::DurationMillisecond(Some(9))),
        Ok(LogicalScalar::Duration(LogicalDuration::new(TimeUnit::Millisecond, 9)))
    );
    assert_eq!(
        to_logical(&ScalarValue::DurationMicrosecond(Some(9))),
        Ok(LogicalScalar::Duration(LogicalDuration::new(TimeUnit::Microsecond, 9)))
    );
    assert_eq!(
        to_logical(&ScalarValue::DurationNanosecond(Some(9))),
        Ok(LogicalScalar::Duration(LogicalDuration::new(TimeUnit::Nanosecond, 9)))
    );
}

fn int32_list() -> ListValue {
    ListValue {
        field: field("item", DataType::Int32, true),
        values: vec![
            ScalarValue::Int32(Some(1)),
            ScalarValue::Int32(None),
            ScalarValue::Int32(Some(3)),
        ],
    }
}

#[test]
fn list_of_int32_with_a_null_keeps_its_shape() {
    for value in [ScalarValue::List(int32_list()), ScalarValue::LargeList(int32_list())] {
        match to_logical(&value).unwrap() {
            LogicalScalar::List(list) => {
                assert_eq!(list.field.name, "values");
                assert!(list.field.nullable);
                assert_eq!(list.field.logical_type, TypeSignature::Native(NativeType::Int32));
                assert_eq!(
                    list.values,
                    vec![LogicalScalar::Int32(1), LogicalScalar::Null, LogicalScalar::Int32(3)]
                );
            }
            other => panic!("expected a list, got {:?}", other),
        }
    }
}

#[test]
fn list_helper_converts_elements_in_order() {
    let list = int32_list();
    let converted = list_to_logical_scalar(&list.field, &list.values).unwrap();
    assert_eq!(converted.values.len(), 3);
    assert_eq!(converted.values[2], LogicalScalar::Int32(3));
}

#[test]
fn empty_list_converts_to_empty_list() {
    let value = ScalarValue::List(ListValue {
        field: field("item", DataType::Utf8, false),
        values: vec![],
    });
    match to_logical(&value).unwrap() {
        LogicalScalar::List(list) => {
            assert!(list.values.is_empty());
            assert!(!list.field.nullable);
            assert_eq!(list.field.logical_type, TypeSignature::Native(NativeType::String));
        }
        other => panic!("expected a list, got {:?}", other),
    }
}

#[test]
fn list_element_of_another_type_is_an_invariant_violation() {
    let value = ScalarValue::List(ListValue {
        field: field("item", DataType::Int32, true),
        values: vec![ScalarValue::Int32(Some(1)), ScalarValue::Int64(Some(2))],
    });
    assert_eq!(to_logical(&value).unwrap_err().kind, ErrorKind::InternalInvariantViolation);
}

#[test]
fn nested_failure_is_propagated() {
    let inner = ScalarValue::List(ListValue {
        field: field("item", DataType::Int32, true),
        values: vec![ScalarValue::Utf8(None)],
    });
    let outer = ScalarValue::List(ListValue {
        field: field("item", DataType::List(Box::new(field("item", DataType::Int32, true))), true),
        values: vec![inner],
    });
    assert_eq!(to_logical(&outer).unwrap_err().kind, ErrorKind::InternalInvariantViolation);
}

#[test]
fn fixed_size_list_is_rewrapped() {
    let list = FixedSizeListValue {
        field: field("item", DataType::Int32, true),
        size: 2,
        values: vec![ScalarValue::Int32(Some(1)), ScalarValue::Int32(Some(2))],
    };
    let direct = fixed_size_list_to_logical_scalar(&list).unwrap();
    match to_logical(&ScalarValue::FixedSizeList(list)).unwrap() {
        LogicalScalar::FixedSizeList(fixed) => {
            assert_eq!(fixed.list().values, vec![LogicalScalar::Int32(1), LogicalScalar::Int32(2)]);
            assert_eq!(fixed.list().field.name, "values");
            assert_eq!(LogicalScalar::FixedSizeList(fixed), direct);
        }
        other => panic!("expected a fixed-size list, got {:?}", other),
    }
}

#[test]
fn struct_keeps_declared_field_order() {
    let value = ScalarValue::Struct(StructValue {
        fields: vec![field("b", DataType::Utf8, true), field("a", DataType::Int64, false)],
        values: vec![ScalarValue::Utf8(Some("x".to_string())), ScalarValue::Int64(Some(7))],
    });
    match to_logical(&value).unwrap() {
        LogicalScalar::Struct(s) => {
            assert_eq!(s.entries.len(), 2);
            assert_eq!(s.entries[0].field.name, "b");
            assert!(s.entries[0].field.nullable);
            assert_eq!(s.entries[0].field.logical_type, TypeSignature::Native(NativeType::String));
            assert_eq!(s.entries[0].value, LogicalScalar::String("x".to_string()));
            assert_eq!(s.entries[1].field.name, "a");
            assert!(!s.entries[1].field.nullable);
            assert_eq!(s.entries[1].value, LogicalScalar::Int64(7));
        }
        other => panic!("expected a struct, got {:?}", other),
    }
}

#[test]
fn struct_with_a_missing_child_is_an_invariant_violation() {
    let value = ScalarValue::Struct(StructValue {
        fields: vec![field("a", DataType::Int64, false), field("b", DataType::Utf8, true)],
        values: vec![ScalarValue::Int64(Some(7))],
    });
    assert_eq!(to_logical(&value).unwrap_err().kind, ErrorKind::InternalInvariantViolation);
    let wrong = ScalarValue::Struct(StructValue {
        fields: vec![field("a", DataType::Int64, false)],
        values: vec![ScalarValue::Int32(Some(7))],
    });
    assert_eq!(to_logical(&wrong).unwrap_err().kind, ErrorKind::InternalInvariantViolation);
}

fn entries_field() -> Field {
    field(
        "entries",
        DataType::Struct(vec![
            field("key", DataType::Utf8, false),
            field("value", DataType::Int32, true),
        ]),
        false,
    )
}

#[test]
fn map_keeps_entry_order_and_duplicate_keys() {
    let entry = |k: &str, v: Option<i32>| MapEntry {
        key: ScalarValue::Utf8(Some(k.to_string())),
        value: ScalarValue::Int32(v),
    };
    let value = ScalarValue::Mapping(MapValue {
        entries_field: entries_field(),
        sorted: false,
        entries: vec![entry("b", Some(1)), entry("a", None), entry("b", Some(3))],
    });
    match to_logical(&value).unwrap() {
        LogicalScalar::Mapping(m) => {
            assert_eq!(m.entries.len(), 3);
            assert_eq!(m.entries[0].key, LogicalScalar::String("b".to_string()));
            assert_eq!(m.entries[0].value, LogicalScalar::Int32(1));
            assert_eq!(m.entries[1].key, LogicalScalar::String("a".to_string()));
            assert_eq!(m.entries[1].value, LogicalScalar::Null);
            assert_eq!(m.entries[2].key, LogicalScalar::String("b".to_string()));
            assert_eq!(m.entries[2].value, LogicalScalar::Int32(3));
        }
        other => panic!("expected a map, got {:?}", other),
    }
}

#[test]
fn map_without_key_and_value_fields_is_an_invariant_violation() {
    let value = ScalarValue::Mapping(MapValue {
        entries_field: field("entries", DataType::Int32, false),
        sorted: false,
        entries: vec![],
    });
    assert_eq!(to_logical(&value).unwrap_err().kind, ErrorKind::InternalInvariantViolation);
    let wrong_key = ScalarValue::Mapping(MapValue {
        entries_field: entries_field(),
        sorted: false,
        entries: vec![MapEntry { key: ScalarValue::Int32(Some(1)), value: ScalarValue::Int32(None) }],
    });
    assert_eq!(to_logical(&wrong_key).unwrap_err().kind, ErrorKind::InternalInvariantViolation);
}

fn int_or_text() -> Vec<UnionField> {
    vec![
        UnionField { type_id: 0, field: field("int", DataType::Int64, false) },
        UnionField { type_id: 5, field: field("text", DataType::Utf8, false) },
    ]
}

#[test]
fn union_wraps_the_active_variant_under_its_tag() {
    let value = ScalarValue::Union(
        Some((5, Box::new(ScalarValue::Utf8(Some("x".to_string()))))),
        int_or_text(),
        UnionMode::Dense,
    );
    match to_logical(&value).unwrap() {
        LogicalScalar::Union(u) => {
            assert_eq!(u.type_id, 5);
            assert_eq!(*u.value, LogicalScalar::String("x".to_string()));
        }
        other => panic!("expected a union, got {:?}", other),
    }
    let absent = ScalarValue::Union(None, int_or_text(), UnionMode::Dense);
    assert_eq!(to_logical(&absent), Ok(LogicalScalar::Null));
}

#[test]
fn union_with_an_undeclared_variant_is_an_invariant_violation() {
    let unknown_tag = ScalarValue::Union(
        Some((1, Box::new(ScalarValue::Int64(Some(1))))),
        int_or_text(),
        UnionMode::Dense,
    );
    assert_eq!(to_logical(&unknown_tag).unwrap_err().kind, ErrorKind::InternalInvariantViolation);
    let wrong_type = ScalarValue::Union(
        Some((0, Box::new(ScalarValue::Utf8(Some("x".to_string()))))),
        int_or_text(),
        UnionMode::Dense,
    );
    assert_eq!(to_logical(&wrong_type).unwrap_err().kind, ErrorKind::InternalInvariantViolation);
}

#[test]
fn dictionary_converts_its_decoded_value() {
    let value = ScalarValue::Dictionary(
        Box::new(DataType::Int8),
        Box::new(ScalarValue::Utf8(Some("x".to_string()))),
    );
    assert_eq!(to_logical(&value), Ok(LogicalScalar::String("x".to_string())));
}

#[test]
fn data_type_of_scalars() {
    assert_eq!(ScalarValue::Null.data_type(), DataType::Null);
    assert_eq!(ScalarValue::Decimal128(None, 10, 2).data_type(), DataType::Decimal128(10, 2));
    assert_eq!(
        ScalarValue::TimestampMillisecond(Some(1), Some("UTC".to_string())).data_type(),
        DataType::Timestamp(TimeUnit::Millisecond, Some("UTC".to_string()))
    );
    assert_eq!(ScalarValue::FixedSizeBinary(16, None).data_type(), DataType::FixedSizeBinary(16));
    assert_eq!(
        ScalarValue::List(int32_list()).data_type(),
        DataType::List(Box::new(field("item", DataType::Int32, true)))
    );
    assert_eq!(
        ScalarValue::Dictionary(Box::new(DataType::Int8), Box::new(ScalarValue::Utf8(None)))
            .data_type(),
        DataType::Dictionary(Box::new(DataType::Int8), Box::new(DataType::Utf8))
    );
    assert_eq!(
        ScalarValue::Union(None, int_or_text(), UnionMode::Sparse).data_type(),
        DataType::Union(int_or_text(), UnionMode::Sparse)
    );
}

#[test]
fn decimals_of_one_value_are_equal_whatever_their_source() {
    let narrow = to_logical(&ScalarValue::Decimal128(Some(-12345), 38, 2)).unwrap();
    let wide = to_logical(&ScalarValue::Decimal256(Some(le_bytes_of(-12345)), 76, 2)).unwrap();
    assert_eq!(narrow, wide);
    let short = LogicalDecimal::try_new(vec![0x39, 0x30], 2).unwrap();
    let long = LogicalDecimal::from_i128(12345, 2);
    assert!(short.equals(&long));
    assert_eq!(short, long);
    assert_eq!(short.unscaled_le_bytes().len(), 32);
    let negative = LogicalDecimal::try_new(vec![0xff], 0).unwrap();
    assert!(negative.equals(&LogicalDecimal::from_i128(-1, 0)));
    assert!(!negative.equals(&LogicalDecimal::from_i128(255, 0)));
    assert!(!negative.equals(&LogicalDecimal::from_i128(-1, 1)));
    assert_eq!(negative.to_plain_string(), "-1");
}

use logical_types::canonical::{UnknownExtensionType, UuidType};
use logical_types::datatype::{DataType, Field, IntervalUnit, TimeUnit, UnionField, UnionMode};
use logical_types::dftype::{DFType, DFTypedScalarValue, Metadata};
use logical_types::error::ErrorKind;
use logical_types::native::{LogicalField, LogicalType, LogicalTypeRef, NativeType, TypeSignature};
use logical_types::native::PrettyPrinterRef;
use logical_types::ordering::{Comparator, Comparison, SortOrdering};
use logical_types::registry::MemoryLogicalTypeRegistry;
use logical_types::int_or_float::IntOrFloatType;
use logical_types::scalar::{ListValue, MapEntry, MapValue, ScalarValue, StructValue};
use logical_types::scalar_order::{compare_bytes, compare_scalars};

fn field(name: &str, data_type: DataType, nullable: bool) -> Field {
    Field::new(name.to_string(), data_type, nullable)
}

fn native_field(name: &str, native: NativeType, nullable: bool) -> LogicalField {
    LogicalField::new(name.to_string(), TypeSignature::Native(native), nullable)
}

#[test]
fn encodings_that_mean_the_same_collapse() {
    for dt in [DataType::Utf8, DataType::LargeUtf8, DataType::Utf8View] {
        assert_eq!(NativeType::from_data_type(&dt), NativeType::String);
    }
    for dt in [DataType::Binary, DataType::LargeBinary, DataType::BinaryView] {
        assert_eq!(NativeType::from_data_type(&dt), NativeType::Binary);
    }
    for dt in [
        DataType::Decimal32(5, 1),
        DataType::Decimal64(5, 1),
        DataType::Decimal128(5, 1),
        DataType::Decimal256(5, 1),
    ] {
        assert_eq!(NativeType::from_data_type(&dt), NativeType::Decimal(5, 1));
    }
    assert_eq!(NativeType::from_data_type(&DataType::Date32), NativeType::Date);
    assert_eq!(
        NativeType::from_data_type(&DataType::Date64),
        NativeType::Timestamp(TimeUnit::Millisecond, None)
    );
    assert_eq!(
        NativeType::from_data_type(&DataType::Time32(TimeUnit::Second)),
        NativeType::Time(TimeUnit::Second)
    );
    assert_eq!(
        NativeType::from_data_type(&DataType::Time64(TimeUnit::Nanosecond)),
        NativeType::Time(TimeUnit::Nanosecond)
    );
    assert_eq!(
        NativeType::from_data_type(&DataType::Interval(IntervalUnit::DayTime)),
        NativeType::Interval(IntervalUnit::DayTime)
    );
    assert_eq!(
        NativeType::from_data_type(&DataType::FixedSizeBinary(16)),
        NativeType::FixedSizeBinary(16)
    );
}

#[test]
fn nested_types_keep_their_fields() {
    let item = field("item", DataType::LargeUtf8, true);
    let expected = NativeType::List(Box::new(native_field("item", NativeType::String, true)));
    for dt in [
        DataType::List(Box::new(item.clone())),
        DataType::ListView(Box::new(item.clone())),
        DataType::LargeList(Box::new(item.clone())),
        DataType::LargeListView(Box::new(item.clone())),
    ] {
        assert_eq!(NativeType::from_data_type(&dt), expected);
    }
    assert_eq!(
        NativeType::from_data_type(&DataType::FixedSizeList(Box::new(item.clone()), 3)),
        NativeType::FixedSizeList(Box::new(native_field("item", NativeType::String, true)), 3)
    );
    let record = DataType::Struct(vec![field("a", DataType::Int8, false), item.clone()]);
    assert_eq!(
        NativeType::from_data_type(&record),
        NativeType::Struct(vec![
            native_field("a", NativeType::Int8, false),
            native_field("item", NativeType::String, true),
        ])
    );
    let union = DataType::Union(
        vec![UnionField { type_id: 3, field: field("a", DataType::BinaryView, false) }],
        UnionMode::Sparse,
    );
    match NativeType::from_data_type(&union) {
        NativeType::Union(fields) => {
            assert_eq!(fields.len(), 1);
            assert_eq!(fields[0].type_id, 3);
            assert_eq!(fields[0].field, native_field("a", NativeType::Binary, false));
        }
        other => panic!("expected a union, got {:?}", other),
    }
    assert_eq!(
        NativeType::from_data_type(&DataType::Mapping(Box::new(item.clone()), true)),
        NativeType::Mapping(Box::new(native_field("item", NativeType::String, true)))
    );
}

#[test]
fn dictionaries_and_run_ends_have_the_type_of_their_values() {
    let dictionary = DataType::Dictionary(Box::new(DataType::Int8), Box::new(DataType::Utf8View));
    assert_eq!(NativeType::from_data_type(&dictionary), NativeType::String);
    let run_ends = DataType::RunEndEncoded(
        Box::new(field("run_ends", DataType::Int32, false)),
        Box::new(field("values", DataType::Date32, true)),
    );
    assert_eq!(NativeType::from_data_type(&run_ends), NativeType::Date);
}

#[test]
fn types_compare_by_structure() {
    let a = DataType::Struct(vec![field("a", DataType::Int8, false)]);
    let b = DataType::Struct(vec![field("a", DataType::Int8, true)]);
    assert!(a.equals(&a.clone()));
    assert!(!a.equals(&b));
    assert!(!DataType::Utf8.equals(&DataType::LargeUtf8));
    assert!(DataType::Timestamp(TimeUnit::Second, Some("UTC".to_string()))
        .equals(&DataType::Timestamp(TimeUnit::Second, Some("UTC".to_string()))));
    assert!(!DataType::Timestamp(TimeUnit::Second, Some("UTC".to_string()))
        .equals(&DataType::Timestamp(TimeUnit::Second, None)));
    let n = NativeType::from_data_type(&a);
    assert!(n.equals(&n.clone()));
    assert!(!n.equals(&NativeType::from_data_type(&b)));
    assert_eq!(a.clone(), a);
}

#[test]
fn canonical_types_have_their_signatures() {
    let uuid = UuidType::new();
    assert_eq!(uuid.native(), &NativeType::FixedSizeBinary(16));
    assert_eq!(
        uuid.signature(),
        TypeSignature::Extension { name: "arrow.uuid".to_string(), parameters: vec![] }
    );
    assert_eq!(UuidType::default().signature(), uuid.signature());
    let unknown = UnknownExtensionType::new("geo.point".to_string(), NativeType::Binary);
    assert_eq!(unknown.native(), &NativeType::Binary);
    assert_eq!(
        unknown.signature(),
        TypeSignature::Extension { name: "geo.point".to_string(), parameters: vec![] }
    );
    assert_eq!(NativeType::Int8.signature(), TypeSignature::Native(NativeType::Int8));
    assert_eq!(NativeType::Int8.native(), &NativeType::Int8);
}

#[test]
fn optional_capabilities_have_defaults() {
    let uuid = UuidType::new();
    assert_eq!(uuid.default_cast_for(&DataType::Utf8).unwrap_err().kind, ErrorKind::Unimplemented);
    assert!(matches!(uuid.planning_information().ordering, SortOrdering::Default));
    assert!(matches!(NativeType::Int8.planning_information().ordering, SortOrdering::Default));
}

#[test]
fn df_type_requires_a_storage_type_of_the_logical_shape() {
    let uuid = || LogicalTypeRef::new(Box::new(UuidType::new()));
    let ok = DFType::try_new(DataType::FixedSizeBinary(16), uuid()).ok().unwrap();
    assert_eq!(ok.storage_type(), &DataType::FixedSizeBinary(16));
    assert_eq!(ok.logical_type().native(), &NativeType::FixedSizeBinary(16));
    let err = DFType::try_new(DataType::FixedSizeBinary(8), uuid()).err().unwrap();
    assert_eq!(err.kind, ErrorKind::TypeMismatch);
    let err = DFType::try_new(DataType::Utf8, uuid()).err().unwrap();
    assert_eq!(err.kind, ErrorKind::TypeMismatch);
    assert!(DFType::try_new(DataType::LargeUtf8, LogicalTypeRef::from_native(NativeType::String)).is_ok());
}

#[test]
fn fallback_uses_the_named_extension_or_the_native_type() {
    let mut metadata = Metadata::new();
    let plain = DFType::new_with_fallback(&DataType::Utf8View, &metadata);
    assert_eq!(plain.storage_type(), &DataType::Utf8View);
    assert_eq!(plain.logical_type().signature(), TypeSignature::Native(NativeType::String));

    metadata.insert("other".to_string(), "ignored".to_string());
    metadata.insert("ARROW:extension:name".to_string(), "geo.point".to_string());
    let extended = DFType::new_with_fallback(&DataType::Binary, &metadata);
    assert_eq!(extended.storage_type(), &DataType::Binary);
    assert_eq!(extended.logical_type().native(), &NativeType::Binary);
    assert_eq!(
        extended.logical_type().signature(),
        TypeSignature::Extension { name: "geo.point".to_string(), parameters: vec![] }
    );

    let direct = DFType::new_from_storage_type(DataType::Date64);
    assert_eq!(
        direct.logical_type().signature(),
        TypeSignature::Native(NativeType::Timestamp(TimeUnit::Millisecond, None))
    );
    assert!(direct.equals(&direct.clone()));
    assert!(!direct.equals(&plain));
}

fn typed(value: ScalarValue, df_type: DFType) -> DFTypedScalarValue {
    DFTypedScalarValue::try_new(value, df_type).ok().unwrap()
}

#[test]
fn typed_scalar_requires_the_storage_type_of_its_type() {
    let int32 = || DFType::new_from_storage_type(DataType::Int32);
    assert!(DFTypedScalarValue::try_new(ScalarValue::Int32(Some(1)), int32()).is_ok());
    assert!(DFTypedScalarValue::try_new(ScalarValue::Int32(None), int32()).is_ok());
    let err = DFTypedScalarValue::try_new(ScalarValue::Int64(Some(1)), int32()).err().unwrap();
    assert_eq!(err.kind, ErrorKind::TypeMismatch);
    let ok = typed(ScalarValue::Int32(Some(1)), int32());
    assert_eq!(ok.value(), &ScalarValue::Int32(Some(1)));
    assert!(ok.df_type().equals(&int32()));
}

#[test]
fn typed_scalars_of_different_types_are_incomparable() {
    let a = typed(ScalarValue::Int32(Some(1)), DFType::new_from_storage_type(DataType::Int32));
    let b = typed(ScalarValue::Int64(Some(1)), DFType::new_from_storage_type(DataType::Int64));
    assert_eq!(a.partial_cmp(&b), None);
    assert_eq!(b.partial_cmp(&a), None);

    let mut metadata = Metadata::new();
    metadata.insert("ARROW:extension:name".to_string(), "celsius".to_string());
    let c = typed(ScalarValue::Int32(Some(1)), DFType::new_with_fallback(&DataType::Int32, &metadata));
    assert_eq!(a.partial_cmp(&c), None);
    assert_eq!(c.partial_cmp(&c), Some(Comparison::Equal));
}

#[test]
fn typed_scalars_of_one_type_compare_by_value() {
    let int32 = |v| typed(ScalarValue::Int32(v), DFType::new_from_storage_type(DataType::Int32));
    assert_eq!(int32(Some(1)).partial_cmp(&int32(Some(2))), Some(Comparison::Less));
    assert_eq!(int32(Some(2)).partial_cmp(&int32(Some(2))), Some(Comparison::Equal));
    assert_eq!(int32(Some(3)).partial_cmp(&int32(Some(2))), Some(Comparison::Greater));
    assert_eq!(int32(None).partial_cmp(&int32(Some(i32::MIN))), Some(Comparison::Less));
    assert_eq!(int32(None).partial_cmp(&int32(None)), Some(Comparison::Equal));
    let text = |v: &str| {
        typed(ScalarValue::Utf8(Some(v.to_string())), DFType::new_from_storage_type(DataType::Utf8))
    };
    assert_eq!(text("abc").partial_cmp(&text("abd")), Some(Comparison::Less));
    assert_eq!(text("abc").partial_cmp(&text("ab")), Some(Comparison::Greater));
    assert_eq!(text("é").partial_cmp(&text("z")), Some(Comparison::Greater));
}

#[test]
fn scalars_compare_in_their_natural_order() {
    let f = |v: f64| ScalarValue::Float64(Some(v.to_bits()));
    assert_eq!(compare_scalars(&f(-1.0), &f(1.0)), Some(Comparison::Less));
    assert_eq!(compare_scalars(&f(f64::NAN), &f(f64::INFINITY)), Some(Comparison::Greater));
    assert_eq!(compare_scalars(&f(-0.0), &f(0.0)), Some(Comparison::Less));
    let f32v = |v: f32| ScalarValue::Float32(Some(v.to_bits()));
    assert_eq!(compare_scalars(&f32v(-2.0), &f32v(-1.0)), Some(Comparison::Less));
    assert_eq!(
        compare_scalars(&ScalarValue::Boolean(Some(false)), &ScalarValue::Boolean(Some(true))),
        Some(Comparison::Less)
    );
    assert_eq!(
        compare_scalars(
            &ScalarValue::Binary(Some(vec![1, 2])),
            &ScalarValue::Binary(Some(vec![1, 2, 0]))
        ),
        Some(Comparison::Less)
    );
    assert_eq!(
        compare_scalars(&ScalarValue::Int32(Some(1)), &ScalarValue::Utf8(Some("1".to_string()))),
        None
    );
    let wide = |v: i128| {
        let fill = if v < 0 { 0xff } else { 0x00 };
        let mut bytes = [fill; 32];
        bytes[..16].copy_from_slice(&v.to_le_bytes());
        ScalarValue::Decimal256(Some(bytes), 40, 0)
    };
    for a in [i128::MIN, -256, -1, 0, 1, 255, 256, i128::MAX] {
        for b in [i128::MIN, -256, -1, 0, 1, 255, 256, i128::MAX] {
            let expected = match a.cmp(&b) {
                std::cmp::Ordering::Less => Comparison::Less,
                std::cmp::Ordering::Equal => Comparison::Equal,
                std::cmp::Ordering::Greater => Comparison::Greater,
            };
            assert_eq!(compare_scalars(&wide(a), &wide(b)), Some(expected), "{} against {}", a, b);
        }
    }
    let mut top = [0u8; 32];
    top[31] = 0x7f;
    assert_eq!(
        compare_scalars(&ScalarValue::Decimal256(Some(top), 40, 0), &wide(i128::MAX)),
        Some(Comparison::Greater)
    );
    assert_eq!(
        compare_scalars(&ScalarValue::Decimal256(None, 40, 0), &wide(i128::MIN)),
        Some(Comparison::Less)
    );
    assert_eq!(
        compare_scalars(&wide(1), &ScalarValue::Decimal128(Some(1), 38, 0)),
        None
    );
    let list = ScalarValue::List(logical_types::scalar::ListValue {
        field: field("item", DataType::Int8, true),
        values: vec![],
    });
    assert_eq!(compare_scalars(&list, &list), Some(Comparison::Equal));
    assert_eq!(compare_bytes(&vec![], &vec![]), Comparison::Equal);
    assert_eq!(compare_bytes(&vec![2], &vec![1, 9]), Comparison::Greater);
}

fn shared_across_threads<T: Send + Sync>() {}

#[test]
fn published_types_and_comparators_can_cross_threads() {
    shared_across_threads::<LogicalTypeRef>();
    shared_across_threads::<DFType>();
    shared_across_threads::<DFTypedScalarValue>();
    shared_across_threads::<Comparator>();
    shared_across_threads::<SortOrdering>();
    shared_across_threads::<PrettyPrinterRef>();
    shared_across_threads::<MemoryLogicalTypeRegistry>();
}

#[test]
fn errors_name_the_entity() {
    let uuid = LogicalTypeRef::new(Box::new(UuidType::new()));
    let err = DFType::try_new(DataType::Utf8, uuid).err().unwrap();
    assert_eq!(err.entity, "storage type");
    let int32 = DFType::new_from_storage_type(DataType::Int32);
    let err = DFTypedScalarValue::try_new(ScalarValue::Null, int32).err().unwrap();
    assert_eq!(err.entity, "scalar value");
}

fn int_or_float_fields() -> Vec<UnionField> {
    vec![
        UnionField { type_id: 0, field: field("integer", DataType::Int64, false) },
        UnionField { type_id: 1, field: field("float", DataType::Float64, false) },
    ]
}

fn int_or_float_type() -> DFType {
    DFType::try_new(
        DataType::Union(int_or_float_fields(), UnionMode::Dense),
        LogicalTypeRef::new(Box::new(IntOrFloatType::new())),
    )
    .ok()
    .unwrap()
}

fn union_of(tag: i8, inner: ScalarValue) -> DFTypedScalarValue {
    typed(
        ScalarValue::Union(Some((tag, Box::new(inner))), int_or_float_fields(), UnionMode::Dense),
        int_or_float_type(),
    )
}

fn int_row(v: i64) -> DFTypedScalarValue {
    union_of(0, ScalarValue::Int64(Some(v)))
}

fn float_row(v: f64) -> DFTypedScalarValue {
    union_of(1, ScalarValue::Float64(Some(v.to_bits())))
}

fn to_ordering(c: Comparison) -> std::cmp::Ordering {
    match c {
        Comparison::Less => std::cmp::Ordering::Less,
        Comparison::Equal => std::cmp::Ordering::Equal,
        Comparison::Greater => std::cmp::Ordering::Greater,
    }
}

#[test]
fn union_values_of_one_type_compare_by_tag_first() {
    assert_eq!(int_row(5).partial_cmp(&float_row(1.5)), Some(Comparison::Less));
    assert_eq!(float_row(1.5).partial_cmp(&int_row(5)), Some(Comparison::Greater));
    assert_eq!(int_row(3).partial_cmp(&int_row(5)), Some(Comparison::Less));
    assert_eq!(float_row(2.5).partial_cmp(&float_row(1.5)), Some(Comparison::Greater));
    assert_eq!(float_row(f64::NAN).partial_cmp(&float_row(f64::INFINITY)), Some(Comparison::Greater));
    assert_eq!(float_row(f64::NAN).partial_cmp(&float_row(f64::NAN)), Some(Comparison::Equal));
    let absent = typed(
        ScalarValue::Union(None, int_or_float_fields(), UnionMode::Dense),
        int_or_float_type(),
    );
    assert_eq!(absent.partial_cmp(&int_row(i64::MIN)), Some(Comparison::Less));
    assert_eq!(int_row(i64::MIN).partial_cmp(&absent), Some(Comparison::Greater));
    assert_eq!(absent.partial_cmp(&absent), Some(Comparison::Equal));
}

#[test]
fn union_values_sort_grouped_by_tag() {
    let rows = vec![int_row(5), float_row(1.5), int_row(3), float_row(2.5)];
    for a in &rows {
        for b in &rows {
            assert!(a.partial_cmp(b).is_some());
            assert_eq!(b.partial_cmp(a), a.partial_cmp(b).map(|c| c.reverse()));
        }
    }
    let mut ascending: Vec<usize> = (0..rows.len()).collect();
    ascending.sort_by(|a, b| to_ordering(rows[*a].partial_cmp(&rows[*b]).unwrap()));
    assert_eq!(ascending, vec![2, 0, 1, 3]);
    let mut descending: Vec<usize> = (0..rows.len()).collect();
    descending.sort_by(|a, b| to_ordering(rows[*b].partial_cmp(&rows[*a]).unwrap()));
    assert_eq!(descending, vec![3, 1, 0, 2]);
}

#[test]
fn nested_values_compare_element_by_element() {
    let list = |values: Vec<Option<i32>>| {
        ScalarValue::List(ListValue {
            field: field("item", DataType::Int32, true),
            values: values.into_iter().map(ScalarValue::Int32).collect(),
        })
    };
    assert_eq!(compare_scalars(&list(vec![]), &list(vec![])), Some(Comparison::Equal));
    assert_eq!(
        compare_scalars(&list(vec![Some(1), Some(2)]), &list(vec![Some(1), Some(3)])),
        Some(Comparison::Less)
    );
    assert_eq!(
        compare_scalars(&list(vec![Some(1), Some(2)]), &list(vec![Some(1)])),
        Some(Comparison::Greater)
    );
    assert_eq!(
        compare_scalars(&list(vec![None, Some(9)]), &list(vec![Some(0)])),
        Some(Comparison::Less)
    );
    let other_field = ScalarValue::List(ListValue {
        field: field("item", DataType::Int32, false),
        values: vec![],
    });
    assert_eq!(compare_scalars(&list(vec![]), &other_field), None);

    let record = |a: i64, b: &str| {
        ScalarValue::Struct(StructValue {
            fields: vec![field("a", DataType::Int64, false), field("b", DataType::Utf8, true)],
            values: vec![ScalarValue::Int64(Some(a)), ScalarValue::Utf8(Some(b.to_string()))],
        })
    };
    assert_eq!(compare_scalars(&record(1, "x"), &record(1, "y")), Some(Comparison::Less));
    assert_eq!(compare_scalars(&record(2, "a"), &record(1, "z")), Some(Comparison::Greater));
    assert_eq!(compare_scalars(&record(1, "x"), &record(1, "x")), Some(Comparison::Equal));

    let map = |entries: Vec<(&str, i32)>| {
        ScalarValue::Mapping(MapValue {
            entries_field: field(
                "entries",
                DataType::Struct(vec![
                    field("key", DataType::Utf8, false),
                    field("value", DataType::Int32, true),
                ]),
                false,
            ),
            sorted: false,
            entries: entries
                .into_iter()
                .map(|(k, v)| MapEntry {
                    key: ScalarValue::Utf8(Some(k.to_string())),
                    value: ScalarValue::Int32(Some(v)),
                })
                .collect(),
        })
    };
    assert_eq!(compare_scalars(&map(vec![("a", 1)]), &map(vec![("a", 2)])), Some(Comparison::Less));
    assert_eq!(compare_scalars(&map(vec![("b", 1)]), &map(vec![("a", 2)])), Some(Comparison::Greater));
    assert_eq!(compare_scalars(&map(vec![("a", 1)]), &map(vec![("a", 1), ("b", 0)])), Some(Comparison::Less));

    let dictionary = |v: &str| {
        ScalarValue::Dictionary(Box::new(DataType::Int8), Box::new(ScalarValue::Utf8(Some(v.to_string()))))
    };
    assert_eq!(compare_scalars(&dictionary("a"), &dictionary("b")), Some(Comparison::Less));
    assert_eq!(compare_scalars(&dictionary("a"), &ScalarValue::Utf8(Some("a".to_string()))), None);
}

#[test]
fn scalars_of_different_storage_types_cannot_be_compared() {
    assert_eq!(compare_scalars(&ScalarValue::Int32(Some(1)), &ScalarValue::Int64(Some(1))), None);
    assert_eq!(
        compare_scalars(&ScalarValue::Decimal128(Some(1), 10, 2), &ScalarValue::Decimal128(Some(1), 10, 3)),
        None
    );
    assert_eq!(
        compare_scalars(
            &ScalarValue::TimestampSecond(Some(1), None),
            &ScalarValue::TimestampSecond(Some(1), Some("UTC".to_string()))
        ),
        None
    );
}

#[test]
fn types_and_typed_scalars_can_be_tested_for_equality() {
    let int32 = || DFType::new_from_storage_type(DataType::Int32);
    assert!(int32() == int32());
    assert!(int32() != DFType::new_from_storage_type(DataType::Int64));
    assert!(int_or_float_type() == int_or_float_type());
    assert!(int_or_float_type() != DFType::new_from_storage_type(DataType::Union(int_or_float_fields(), UnionMode::Dense)));

    let one = || typed(ScalarValue::Int32(Some(1)), int32());
    assert!(one() == one());
    assert!(one().equals(&one()));
    assert!(one() != typed(ScalarValue::Int32(Some(2)), int32()));
    assert!(one() != typed(ScalarValue::Int32(None), int32()));
    assert!(one() != typed(ScalarValue::Int64(Some(1)), DFType::new_from_storage_type(DataType::Int64)));
    assert!(int_row(5) == int_row(5));
    assert!(int_row(5) != float_row(5.0));
    assert!(float_row(0.0) != float_row(-0.0));
}

#[test]
fn a_df_type_gives_the_capabilities_of_its_logical_type() {
    let t = int_or_float_type();
    match t.logical_type().planning_information().ordering {
        SortOrdering::Custom(ordering) => assert_eq!(ordering.ordering_id(), "order_int_or_float"),
        SortOrdering::Default => panic!("expected a custom ordering"),
    }
    let plain = DFType::new_from_storage_type(DataType::Int32);
    assert!(matches!(plain.logical_type().planning_information().ordering, SortOrdering::Default));
    assert_eq!(
        plain.logical_type().pretty_printer().pretty_print_scalar(&ScalarValue::Int32(Some(4))).unwrap(),
        "4"
    );
    assert_eq!(
        plain.logical_type().default_cast_for(&DataType::Int8).unwrap_err().kind,
        ErrorKind::Unimplemented
    );
}

use logical_types::datatype::{DataType, Field, UnionField, UnionMode};
use logical_types::error::ErrorKind;
use logical_types::int_or_float::IntOrFloatType;
use logical_types::native::{LogicalType, NativeType, TypeSignature};
use logical_types::ordering::{
    compare_keys, float64_key, Comparator, Comparison, CustomOrdering, IntOrFloatOrdering,
    SortKey, SortOptions, SortOrdering,
};
use logical_types::scalar::ScalarValue;
use std::cmp::Ordering;

fn fields() -> Vec<UnionField> {
    vec![
        UnionField { type_id: 0, field: Field::new("integer".to_string(), DataType::Int64, false) },
        UnionField { type_id: 1, field: Field::new("float".to_string(), DataType::Float64, false) },
    ]
}

fn int_row(v: i64) -> ScalarValue {
    ScalarValue::Union(Some((0, Box::new(ScalarValue::Int64(Some(v))))), fields(), UnionMode::Dense)
}

fn float_row(v: f64) -> ScalarValue {
    ScalarValue::Union(
        Some((1, Box::new(ScalarValue::Float64(Some(v.to_bits()))))),
        fields(),
        UnionMode::Dense,
    )
}

fn to_ordering(c: Comparison) -> Ordering {
    match c {
        Comparison::Less => Ordering::Less,
        Comparison::Equal => Ordering::Equal,
        Comparison::Greater => Ordering::Greater,
    }
}

fn sorted_rows(rows: &Vec<ScalarValue>, descending: bool) -> Vec<usize> {
    let options = SortOptions { descending, nulls_first: false };
    let comparator = IntOrFloatOrdering.dyn_comparator(rows, options).unwrap();
    let mut indices: Vec<usize> = (0..rows.len()).collect();
    indices.sort_by(|a, b| to_ordering(comparator.compare(*a, *b)));
    indices
}

#[test]
fn integers_sort_before_floats_and_each_group_by_value() {
    let rows = vec![int_row(5), float_row(1.5), int_row(3), float_row(2.5)];
    assert_eq!(sorted_rows(&rows, false), vec![2, 0, 1, 3]);
}

#[test]
fn descending_reverses_the_whole_sequence() {
    let rows = vec![int_row(5), float_row(1.5), int_row(3), float_row(2.5)];
    assert_eq!(sorted_rows(&rows, true), vec![3, 1, 0, 2]);
}

#[test]
fn ordering_has_a_stable_identifier() {
    assert_eq!(IntOrFloatOrdering.ordering_id(), "order_int_or_float");
}

#[test]
fn a_row_of_another_shape_is_a_type_mismatch() {
    let options = SortOptions { descending: false, nulls_first: false };
    let rows = vec![int_row(1), ScalarValue::Int64(Some(2))];
    assert_eq!(
        IntOrFloatOrdering.dyn_comparator(&rows, options).unwrap_err().kind,
        ErrorKind::TypeMismatch
    );
    let wrong_tag = vec![ScalarValue::Union(
        Some((1, Box::new(ScalarValue::Int64(Some(2))))),
        fields(),
        UnionMode::Dense,
    )];
    assert_eq!(
        IntOrFloatOrdering.dyn_comparator(&wrong_tag, options).unwrap_err().kind,
        ErrorKind::TypeMismatch
    );
    let absent = vec![ScalarValue::Union(None, fields(), UnionMode::Dense)];
    assert!(IntOrFloatOrdering.dyn_comparator(&absent, options).is_err());
}

#[test]
fn float_keys_follow_the_total_order() {
    let values = [
        f64::NEG_INFINITY,
        -1.5,
        -0.0,
        0.0,
        f64::MIN_POSITIVE,
        1.5,
        2.5,
        f64::MAX,
        f64::INFINITY,
        f64::NAN,
        -f64::NAN,
    ];
    for a in values {
        for b in values {
            let expected = a.total_cmp(&b);
            let actual = float64_key(a.to_bits()).cmp(&float64_key(b.to_bits()));
            assert_eq!(actual, expected, "{} against {}", a, b);
        }
    }
    assert_eq!(float64_key(0), 0);
    assert_eq!(float64_key(1u64 << 63), -1);
    assert_eq!(float64_key(u64::MAX), i64::MIN);
    assert_eq!(float64_key((1u64 << 63) - 1), i64::MAX);
}

#[test]
fn nan_never_compares_as_unordered() {
    let rows = vec![float_row(f64::NAN), float_row(1.0), float_row(-f64::NAN), float_row(f64::INFINITY)];
    assert_eq!(sorted_rows(&rows, false), vec![2, 1, 3, 0]);
}

#[test]
fn keys_compare_by_major_then_minor() {
    let key = |major, minor| SortKey { major, minor };
    assert_eq!(compare_keys(&key(0, 9), &key(1, -9)), Comparison::Less);
    assert_eq!(compare_keys(&key(1, -9), &key(0, 9)), Comparison::Greater);
    assert_eq!(compare_keys(&key(1, 2), &key(1, 3)), Comparison::Less);
    assert_eq!(compare_keys(&key(1, 3), &key(1, 3)), Comparison::Equal);
    assert_eq!(Comparison::Less.reverse(), Comparison::Greater);
    assert_eq!(Comparison::Equal.reverse(), Comparison::Equal);
}

#[test]
fn comparator_refuses_rows_that_do_not_exist() {
    let comparator = Comparator::new(vec![SortKey { major: 0, minor: 1 }], true);
    assert_eq!(comparator.len(), 1);
    assert_eq!(comparator.try_compare(0, 0), Some(Comparison::Equal));
    assert_eq!(comparator.try_compare(0, 1), None);
    assert_eq!(comparator.try_compare(2, 0), None);
}

#[test]
fn int_or_float_type_plans_its_own_ordering() {
    let logical_type = IntOrFloatType::new();
    assert_eq!(
        logical_type.signature(),
        TypeSignature::Extension { name: "int_or_float".to_string(), parameters: vec![] }
    );
    match logical_type.native() {
        NativeType::Union(fields) => {
            assert_eq!(fields.len(), 2);
            assert_eq!((fields[0].type_id, fields[0].field.name.as_str()), (0, "integer"));
            assert_eq!((fields[1].type_id, fields[1].field.name.as_str()), (1, "float"));
        }
        other => panic!("expected a union, got {:?}", other),
    }
    let rows = vec![int_row(5), float_row(1.5), int_row(3), float_row(2.5)];
    let options = SortOptions { descending: false, nulls_first: false };
    match logical_type.planning_information().ordering {
        SortOrdering::Custom(ordering) => {
            assert_eq!(ordering.ordering_id(), "order_int_or_float");
            let comparator = ordering.dyn_comparator(&rows, options).unwrap();
            assert_eq!(comparator.compare(0, 1), Comparison::Less);
            assert_eq!(comparator.compare(0, 2), Comparison::Greater);
            assert_eq!(comparator.compare(3, 1), Comparison::Greater);
            assert_eq!(comparator.compare(2, 2), Comparison::Equal);
        }
        SortOrdering::Default => panic!("expected a custom ordering"),
    }
}

//! The conversion of a physical scalar into a logical scalar.

use crate::datatype::{
    DataType, Field, SpecDataType, SpecField, TimeUnit, UnionField, data_type_view, field_view,
    opt_string_clone, opt_string_view,
};
use crate::decimal::{LogicalDecimal, bytes_clone, le_signed};
use crate::error::{ErrorKind, SpecError, TypeError, failure};
use crate::logical::{
    LogicalDuration, LogicalFixedSizeBinary, LogicalFixedSizeList, LogicalInterval, LogicalList,
    LogicalMap, LogicalMapEntry, LogicalScalar, LogicalStruct, LogicalStructEntry, LogicalTime,
    LogicalTimestamp, LogicalUnion, MAX_FIXED_SIZE, SpecLogicalScalar, SpecMapEntry,
    SpecStructEntry, logical_scalars_view, map_entries_view,
    struct_entries_view,
};
use crate::native::{
    LogicalField, NativeType, SpecLogicalField, SpecTypeSignature, TypeSignature,
    logical_field_of, native_of,
};
use crate::scalar::{
    FixedSizeListValue, MapEntry, MapValue, ScalarValue, StructValue, data_type_of,
    is_null_value,
};
use vstd::prelude::*;

verus! {

/// The element field of a logical list: it is named `values`, its logical
/// type is the native type of the elements' storage type, and it is nullable
/// where the list's element field is.
pub open spec fn list_field_of(f: SpecField) -> SpecLogicalField {
    SpecLogicalField {
        name: "values"@,
        logical_type: SpecTypeSignature::Native(Box::new(native_of(f.data_type))),
        nullable: f.nullable,
    }
}

/// Whether a union declares a variant with this tag and this storage type.
pub open spec fn union_declares(fields: Seq<UnionField>, type_id: i8, dt: SpecDataType) -> bool {
    exists|i: int|
        0 <= i < fields.len() && (#[trigger] fields[i]).type_id == type_id && data_type_view(
            fields[i].field.data_type,
        ) == dt
}

/// The storage types of a map's keys and values: those of the two fields of
/// the struct that its entries field declares.
pub open spec fn map_entry_types(f: Field) -> Option<(SpecDataType, SpecDataType)> {
    match f.data_type {
        DataType::Struct(fs) => if fs@.len() == 2 {
            Some((data_type_view(fs@[0].data_type), data_type_view(fs@[1].data_type)))
        } else {
            None
        },
        _ => None,
    }
}

/// The logical values of the first `n` elements of a list whose elements are
/// declared to have the storage type `declared`. The first element that has
/// another storage type, or that cannot be converted, decides the error.
pub open spec fn logical_prefix_of(declared: SpecDataType, values: Seq<ScalarValue>, n: nat) -> Result<Seq<SpecLogicalScalar>, SpecError>
    decreases values, n,
{
    if n == 0 || n > values.len() {
        Ok(Seq::empty())
    } else {
        match logical_prefix_of(declared, values, (n - 1) as nat) {
            Err(e) => Err(e),
            Ok(prefix) => if data_type_of(values[n - 1]) != declared {
                Err(failure(ErrorKind::InternalInvariantViolation, "list element"))
            } else {
                match logical_of(values[n - 1]) {
                    Err(e) => Err(e),
                    Ok(x) => Ok(prefix.push(x)),
                }
            },
        }
    }
}

/// The logical entries of the first `n` fields of a struct.
pub open spec fn struct_prefix_of(fields: Seq<Field>, values: Seq<ScalarValue>, n: nat) -> Result<Seq<SpecStructEntry>, SpecError>
    decreases values, n,
{
    if n == 0 || n > values.len() || n > fields.len() {
        Ok(Seq::empty())
    } else {
        match struct_prefix_of(fields, values, (n - 1) as nat) {
            Err(e) => Err(e),
            Ok(prefix) => if data_type_of(values[n - 1]) != data_type_view(
                fields[n - 1].data_type,
            ) {
                Err(failure(ErrorKind::InternalInvariantViolation, "struct field"))
            } else {
                match logical_of(values[n - 1]) {
                    Err(e) => Err(e),
                    Ok(x) => Ok(
                        prefix.push(
                            SpecStructEntry {
                                field: logical_field_of(field_view(fields[n - 1])),
                                value: x,
                            },
                        ),
                    ),
                }
            },
        }
    }
}

/// The logical entries of the first `n` entries of a map.
pub open spec fn map_prefix_of(
    key_type: SpecDataType,
    value_type: SpecDataType,
    entries: Seq<MapEntry>,
    n: nat,
) -> Result<Seq<SpecMapEntry>, SpecError>
    decreases entries, n,
{
    if n == 0 || n > entries.len() {
        Ok(Seq::empty())
    } else {
        match map_prefix_of(key_type, value_type, entries, (n - 1) as nat) {
            Err(e) => Err(e),
            Ok(prefix) => if data_type_of(entries[n - 1].key) != key_type || data_type_of(
                entries[n - 1].value,
            ) != value_type {
                Err(failure(ErrorKind::InternalInvariantViolation, "map entry"))
            } else {
                match logical_of(entries[n - 1].key) {
                    Err(e) => Err(e),
                    Ok(k) => match logical_of(entries[n - 1].value) {
                        Err(e) => Err(e),
                        Ok(x) => Ok(prefix.push(SpecMapEntry { key: k, value: x })),
                    },
                }
            },
        }
    }
}

/// The logical value of a physical scalar, or the error that its conversion
/// ends in.
///
/// A missing value of any type is `Null`. Numbers, booleans and dates are
/// kept as they are; the three string encodings give `String`, the three
/// binary encodings `Binary`. A decimal keeps its unscaled integer and its
/// scale: the 32 bytes of a 256-bit decimal are read in little-endian
/// order. `Date64` is a timestamp in milliseconds without a time zone. A
/// dictionary value is its decoded value. Lists, structs, maps and unions
/// convert their children in order; a child whose storage type is not the
/// declared one is an `InternalInvariantViolation`, and a fixed-size binary
/// or list that is too long is a `ValueTooLarge`.
pub open spec fn logical_of(v: ScalarValue) -> Result<SpecLogicalScalar, SpecError>
    decreases v,
{
    match v {
        ScalarValue::Null => Ok(SpecLogicalScalar::Null),
        ScalarValue::Boolean(None) => Ok(SpecLogicalScalar::Null),
        ScalarValue::Boolean(Some(x)) => Ok(SpecLogicalScalar::Boolean(x)),
        ScalarValue::Float16(None) => Ok(SpecLogicalScalar::Null),
        ScalarValue::Float16(Some(x)) => Ok(SpecLogicalScalar::Float16(x)),
        ScalarValue::Float32(None) => Ok(SpecLogicalScalar::Null),
        ScalarValue::Float32(Some(x)) => Ok(SpecLogicalScalar::Float32(x)),
        ScalarValue::Float64(None) => Ok(SpecLogicalScalar::Null),
        ScalarValue::Float64(Some(x)) => Ok(SpecLogicalScalar::Float64(x)),
        ScalarValue::Decimal128(None, _, _) => Ok(SpecLogicalScalar::Null),
        ScalarValue::Decimal128(Some(x), _, s) => Ok(
            SpecLogicalScalar::Decimal { unscaled: x as int, scale: s as int },
        ),
        ScalarValue::Decimal256(None, _, _) => Ok(SpecLogicalScalar::Null),
        ScalarValue::Decimal256(Some(bytes), _, s) => Ok(
            SpecLogicalScalar::Decimal { unscaled: le_signed(bytes@), scale: s as int },
        ),
        ScalarValue::Int8(None) => Ok(SpecLogicalScalar::Null),
        ScalarValue::Int8(Some(x)) => Ok(SpecLogicalScalar::Int8(x)),
        ScalarValue::Int16(None) => Ok(SpecLogicalScalar::Null),
        ScalarValue::Int16(Some(x)) => Ok(SpecLogicalScalar::Int16(x)),
        ScalarValue::Int32(None) => Ok(SpecLogicalScalar::Null),
        ScalarValue::Int32(Some(x)) => Ok(SpecLogicalScalar::Int32(x)),
        ScalarValue::Int64(None) => Ok(SpecLogicalScalar::Null),
        ScalarValue::Int64(Some(x)) => Ok(SpecLogicalScalar::Int64(x)),
        ScalarValue::UInt8(None) => Ok(SpecLogicalScalar::Null),
        ScalarValue::UInt8(Some(x)) => Ok(SpecLogicalScalar::UInt8(x)),
        ScalarValue::UInt16(None) => Ok(SpecLogicalScalar::Null),
        ScalarValue::UInt16(Some(x)) => Ok(SpecLogicalScalar::UInt16(x)),
        ScalarValue::UInt32(None) => Ok(SpecLogicalScalar::Null),
        ScalarValue::UInt32(Some(x)) => Ok(SpecLogicalScalar::UInt32(x)),
        ScalarValue::UInt64(None) => Ok(SpecLogicalScalar::Null),
        ScalarValue::UInt64(Some(x)) => Ok(SpecLogicalScalar::UInt64(x)),
        ScalarValue::Utf8(None) => Ok(SpecLogicalScalar::Null),
        ScalarValue::Utf8(Some(s)) => Ok(SpecLogicalScalar::String(s@)),
        ScalarValue::Utf8View(None) => Ok(SpecLogicalScalar::Null),
        ScalarValue::Utf8View(Some(s)) => Ok(SpecLogicalScalar::String(s@)),
        ScalarValue::LargeUtf8(None) => Ok(SpecLogicalScalar::Null),
        ScalarValue::LargeUtf8(Some(s)) => Ok(SpecLogicalScalar::String(s@)),
        ScalarValue::Binary(None) => Ok(SpecLogicalScalar::Null),
        ScalarValue::Binary(Some(b)) => Ok(SpecLogicalScalar::Binary(b@)),
        ScalarValue::BinaryView(None) => Ok(SpecLogicalScalar::Null),
        ScalarValue::BinaryView(Some(b)) => Ok(SpecLogicalScalar::Binary(b@)),
        ScalarValue::FixedSizeBinary(_, None) => Ok(SpecLogicalScalar::Null),
        ScalarValue::FixedSizeBinary(_, Some(b)) => if b@.len() <= MAX_FIXED_SIZE {
            Ok(SpecLogicalScalar::FixedSizeBinary(b@))
        } else {
            Err(failure(ErrorKind::ValueTooLarge, "fixed-size binary"))
        },
        ScalarValue::LargeBinary(None) => Ok(SpecLogicalScalar::Null),
        ScalarValue::LargeBinary(Some(b)) => Ok(SpecLogicalScalar::Binary(b@)),
        ScalarValue::FixedSizeList(l) => match logical_prefix_of(
            data_type_view(l.field.data_type),
            l.values@,
            l.values@.len(),
        ) {
            Err(e) => Err(e),
            Ok(values) => if l.values@.len() <= MAX_FIXED_SIZE {
                Ok(
                    SpecLogicalScalar::FixedSizeList {
                        field: list_field_of(field_view(l.field)),
                        values,
                    },
                )
            } else {
                Err(failure(ErrorKind::ValueTooLarge, "fixed-size list"))
            },
        },
        ScalarValue::List(l) => match logical_prefix_of(
            data_type_view(l.field.data_type),
            l.values@,
            l.values@.len(),
        ) {
            Err(e) => Err(e),
            Ok(values) => Ok(
                SpecLogicalScalar::List { field: list_field_of(field_view(l.field)), values },
            ),
        },
        ScalarValue::LargeList(l) => match logical_prefix_of(
            data_type_view(l.field.data_type),
            l.values@,
            l.values@.len(),
        ) {
            Err(e) => Err(e),
            Ok(values) => Ok(
                SpecLogicalScalar::List { field: list_field_of(field_view(l.field)), values },
            ),
        },
        ScalarValue::Struct(s) => if s.fields@.len() != s.values@.len() {
            Err(failure(ErrorKind::InternalInvariantViolation, "struct"))
        } else {
            match struct_prefix_of(s.fields@, s.values@, s.values@.len()) {
                Err(e) => Err(e),
                Ok(entries) => Ok(SpecLogicalScalar::Struct(entries)),
            }
        },
        ScalarValue::Mapping(m) => match map_entry_types(m.entries_field) {
            None => Err(failure(ErrorKind::InternalInvariantViolation, "map entries")),
            Some((key_type, value_type)) => match map_prefix_of(
                key_type,
                value_type,
                m.entries@,
                m.entries@.len(),
            ) {
                Err(e) => Err(e),
                Ok(entries) => Ok(SpecLogicalScalar::Mapping(entries)),
            },
        },
        ScalarValue::Date32(None) => Ok(SpecLogicalScalar::Null),
        ScalarValue::Date32(Some(x)) => Ok(SpecLogicalScalar::Date(x)),
        ScalarValue::Date64(None) => Ok(SpecLogicalScalar::Null),
        ScalarValue::Date64(Some(x)) => Ok(
            SpecLogicalScalar::Timestamp {
                unit: TimeUnit::Millisecond,
                timezone: None,
                value: x,
            },
        ),
        ScalarValue::Time32Second(None) => Ok(SpecLogicalScalar::Null),
        ScalarValue::Time32Second(Some(x)) => Ok(SpecLogicalScalar::Time(LogicalTime::Second(x))),
        ScalarValue::Time32Millisecond(None) => Ok(SpecLogicalScalar::Null),
        ScalarValue::Time32Millisecond(Some(x)) => Ok(
            SpecLogicalScalar::Time(LogicalTime::Millisecond(x)),
        ),
        ScalarValue::Time64Microsecond(None) => Ok(SpecLogicalScalar::Null),
        ScalarValue::Time64Microsecond(Some(x)) => Ok(
            SpecLogicalScalar::Time(LogicalTime::Microsecond(x)),
        ),
        ScalarValue::Time64Nanosecond(None) => Ok(SpecLogicalScalar::Null),
        ScalarValue::Time64Nanosecond(Some(x)) => Ok(
            SpecLogicalScalar::Time(LogicalTime::Nanosecond(x)),
        ),
        ScalarValue::TimestampSecond(None, _) => Ok(SpecLogicalScalar::Null),
        ScalarValue::TimestampSecond(Some(x), tz) => Ok(
            SpecLogicalScalar::Timestamp {
                unit: TimeUnit::Second,
                timezone: opt_string_view(tz),
                value: x,
            },
        ),
        ScalarValue::TimestampMillisecond(None, _) => Ok(SpecLogicalScalar::Null),
        ScalarValue::TimestampMillisecond(Some(x), tz) => Ok(
            SpecLogicalScalar::Timestamp {
                unit: TimeUnit::Millisecond,
                timezone: opt_string_view(tz),
                value: x,
            },
        ),
        ScalarValue::TimestampMicrosecond(None, _) => Ok(SpecLogicalScalar::Null),
        ScalarValue::TimestampMicrosecond(Some(x), tz) => Ok(
            SpecLogicalScalar::Timestamp {
                unit: TimeUnit::Microsecond,
                timezone: opt_string_view(tz),
                value: x,
            },
        ),
        ScalarValue::TimestampNanosecond(None, _) => Ok(SpecLogicalScalar::Null),
        ScalarValue::TimestampNanosecond(Some(x), tz) => Ok(
            SpecLogicalScalar::Timestamp {
                unit: TimeUnit::Nanosecond,
                timezone: opt_string_view(tz),
                value: x,
            },
        ),
        ScalarValue::IntervalYearMonth(None) => Ok(SpecLogicalScalar::Null),
        ScalarValue::IntervalYearMonth(Some(x)) => Ok(
            SpecLogicalScalar::Interval(LogicalInterval::YearMonth(x)),
        ),
        ScalarValue::IntervalDayTime(None) => Ok(SpecLogicalScalar::Null),
        ScalarValue::IntervalDayTime(Some(x)) => Ok(
            SpecLogicalScalar::Interval(LogicalInterval::DayTime(x)),
        ),
        ScalarValue::IntervalMonthDayNano(None) => Ok(SpecLogicalScalar::Null),
        ScalarValue::IntervalMonthDayNano(Some(x)) => Ok(
            SpecLogicalScalar::Interval(LogicalInterval::MonthDayNano(x)),
        ),
        ScalarValue::DurationSecond(None) => Ok(SpecLogicalScalar::Null),
        ScalarValue::DurationSecond(Some(x)) => Ok(
            SpecLogicalScalar::Duration(LogicalDuration { unit: TimeUnit::Second, value: x }),
        ),
        ScalarValue::DurationMillisecond(None) => Ok(SpecLogicalScalar::Null),
        ScalarValue::DurationMillisecond(Some(x)) => Ok(
            SpecLogicalScalar::Duration(LogicalDuration { unit: TimeUnit::Millisecond, value: x }),
        ),
        ScalarValue::DurationMicrosecond(None) => Ok(SpecLogicalScalar::Null),
        ScalarValue::DurationMicrosecond(Some(x)) => Ok(
            SpecLogicalScalar::Duration(LogicalDuration { unit: TimeUnit::Microsecond, value: x }),
        ),
        ScalarValue::DurationNanosecond(None) => Ok(SpecLogicalScalar::Null),
        ScalarValue::DurationNanosecond(Some(x)) => Ok(
            SpecLogicalScalar::Duration(LogicalDuration { unit: TimeUnit::Nanosecond, value: x }),
        ),
        ScalarValue::Union(None, _, _) => Ok(SpecLogicalScalar::Null),
        ScalarValue::Union(Some((type_id, value)), fields, _) => if !union_declares(
            fields@,
            type_id,
            data_type_of(*value),
        ) {
            Err(failure(ErrorKind::InternalInvariantViolation, "union"))
        } else {
            match logical_of(*value) {
                Err(e) => Err(e),
                Ok(x) => Ok(SpecLogicalScalar::Union { type_id, value: Box::new(x) }),
            }
        },
        ScalarValue::Dictionary(_, value) => logical_of(*value),
    }
}

/// Whether a physical scalar is well formed: every fixed-size binary and
/// fixed-size list in it has a length that a 32-bit size can count, and every
/// nested value has the storage type that its parent declares for it.
pub open spec fn well_formed(v: ScalarValue) -> bool
    decreases v,
{
    match v {
        ScalarValue::FixedSizeBinary(_, Some(b)) => b@.len() <= MAX_FIXED_SIZE,
        ScalarValue::FixedSizeList(l) => l.values@.len() <= MAX_FIXED_SIZE && forall|i: int|
            0 <= i < l.values@.len() ==> data_type_of(#[trigger] l.values@[i]) == data_type_view(
                l.field.data_type,
            ) && well_formed(l.values@[i]),
        ScalarValue::List(l) => forall|i: int|
            0 <= i < l.values@.len() ==> data_type_of(#[trigger] l.values@[i]) == data_type_view(
                l.field.data_type,
            ) && well_formed(l.values@[i]),
        ScalarValue::LargeList(l) => forall|i: int|
            0 <= i < l.values@.len() ==> data_type_of(#[trigger] l.values@[i]) == data_type_view(
                l.field.data_type,
            ) && well_formed(l.values@[i]),
        ScalarValue::Struct(s) => s.fields@.len() == s.values@.len() && forall|i: int|
            0 <= i < s.values@.len() ==> data_type_of(#[trigger] s.values@[i]) == data_type_view(
                s.fields@[i].data_type,
            ) && well_formed(s.values@[i]),
        ScalarValue::Mapping(m) => match map_entry_types(m.entries_field) {
            None => false,
            Some((key_type, value_type)) => forall|i: int|
                0 <= i < m.entries@.len() ==> data_type_of((#[trigger] m.entries@[i]).key)
                    == key_type && data_type_of(m.entries@[i].value) == value_type && well_formed(
                    m.entries@[i].key,
                ) && well_formed(m.entries@[i].value),
        },
        ScalarValue::Union(Some((type_id, value)), fields, _) => union_declares(
            fields@,
            type_id,
            data_type_of(*value),
        ) && well_formed(*value),
        ScalarValue::Dictionary(_, value) => well_formed(*value),
        _ => true,
    }
}

proof fn lemma_logical_prefix_ok(declared: SpecDataType, values: Seq<ScalarValue>, n: nat)
    requires
        n <= values.len(),
    ensures
        logical_prefix_of(declared, values, n) is Ok <==> forall|i: int|
            0 <= i < n ==> data_type_of(#[trigger] values[i]) == declared && well_formed(
                values[i],
            ),
    decreases values, n,
{
    if n > 0 {
        lemma_logical_prefix_ok(declared, values, (n - 1) as nat);
        lemma_total_on_well_formed(values[n - 1]);
    }
}

proof fn lemma_struct_prefix_ok(fields: Seq<Field>, values: Seq<ScalarValue>, n: nat)
    requires
        n <= values.len(),
        n <= fields.len(),
    ensures
        struct_prefix_of(fields, values, n) is Ok <==> forall|i: int|
            0 <= i < n ==> data_type_of(#[trigger] values[i]) == data_type_view(
                fields[i].data_type,
            ) && well_formed(values[i]),
    decreases values, n,
{
    if n > 0 {
        lemma_struct_prefix_ok(fields, values, (n - 1) as nat);
        lemma_total_on_well_formed(values[n - 1]);
    }
}

proof fn lemma_map_prefix_ok(
    key_type: SpecDataType,
    value_type: SpecDataType,
    entries: Seq<MapEntry>,
    n: nat,
)
    requires
        n <= entries.len(),
    ensures
        map_prefix_of(key_type, value_type, entries, n) is Ok <==> forall|i: int|
            0 <= i < n ==> data_type_of((#[trigger] entries[i]).key) == key_type && data_type_of(
                entries[i].value,
            ) == value_type && well_formed(entries[i].key) && well_formed(entries[i].value),
    decreases entries, n,
{
    if n > 0 {
        lemma_map_prefix_ok(key_type, value_type, entries, (n - 1) as nat);
        lemma_total_on_well_formed(entries[n - 1].key);
        lemma_total_on_well_formed(entries[n - 1].value);
    }
}

/// The conversion is total on well-formed values, and fails on no others:
/// a physical scalar has a logical value exactly when it is well formed.
pub proof fn lemma_total_on_well_formed(v: ScalarValue)
    ensures
        logical_of(v) is Ok <==> well_formed(v),
    decreases v,
{
    match v {
        ScalarValue::FixedSizeList(l) => {
            lemma_logical_prefix_ok(data_type_view(l.field.data_type), l.values@, l.values@.len());
        },
        ScalarValue::List(l) => {
            lemma_logical_prefix_ok(data_type_view(l.field.data_type), l.values@, l.values@.len());
        },
        ScalarValue::LargeList(l) => {
            lemma_logical_prefix_ok(data_type_view(l.field.data_type), l.values@, l.values@.len());
        },
        ScalarValue::Struct(s) => {
            if s.fields@.len() == s.values@.len() {
                lemma_struct_prefix_ok(s.fields@, s.values@, s.values@.len());
            }
        },
        ScalarValue::Mapping(m) => {
            match map_entry_types(m.entries_field) {
                None => {},
                Some((key_type, value_type)) => {
                    lemma_map_prefix_ok(key_type, value_type, m.entries@, m.entries@.len());
                },
            }
        },
        ScalarValue::Union(Some((type_id, value)), fields, _) => {
            lemma_total_on_well_formed(*value);
        },
        ScalarValue::Dictionary(_, value) => {
            lemma_total_on_well_formed(*value);
        },
        _ => {},
    }
}

/// A missing value of any type has the logical value `Null`.
pub proof fn lemma_null_converts_to_null(v: ScalarValue)
    requires
        is_null_value(v),
    ensures
        logical_of(v) == Ok::<SpecLogicalScalar, SpecError>(SpecLogicalScalar::Null),
    decreases v,
{
    match v {
        ScalarValue::Dictionary(_, value) => {
            lemma_null_converts_to_null(*value);
        },
        _ => {},
    }
}

/// A decimal keeps its value: the logical value of a 128-bit decimal has
/// the same unscaled integer and the same scale, and that of a 256-bit
/// decimal has the integer that its bytes spell in little-endian order.
pub proof fn lemma_decimal_fidelity(v: ScalarValue)
    ensures
        v matches ScalarValue::Decimal128(Some(x), _, s) ==> logical_of(v) == Ok::<SpecLogicalScalar, SpecError>(SpecLogicalScalar::Decimal { unscaled: x as int, scale: s as int }),
        v matches ScalarValue::Decimal256(Some(bytes), _, s) ==> logical_of(v) == Ok::<SpecLogicalScalar, SpecError>(SpecLogicalScalar::Decimal { unscaled: le_signed(bytes@), scale: s as int }),
{
}

/// Once the conversion of a list's elements has failed, it stays failed.
proof fn lemma_logical_prefix_error(
    declared: SpecDataType,
    values: Seq<ScalarValue>,
    n: nat,
    m: nat,
)
    requires
        n <= m <= values.len(),
        logical_prefix_of(declared, values, n) is Err,
    ensures
        logical_prefix_of(declared, values, m) == logical_prefix_of(declared, values, n),
    decreases m - n,
{
    if n < m {
        lemma_logical_prefix_error(declared, values, n, (m - 1) as nat);
    }
}

proof fn lemma_struct_prefix_error(fields: Seq<Field>, values: Seq<ScalarValue>, n: nat, m: nat)
    requires
        n <= m <= values.len(),
        m <= fields.len(),
        struct_prefix_of(fields, values, n) is Err,
    ensures
        struct_prefix_of(fields, values, m) == struct_prefix_of(fields, values, n),
    decreases m - n,
{
    if n < m {
        lemma_struct_prefix_error(fields, values, n, (m - 1) as nat);
    }
}

proof fn lemma_map_prefix_error(
    key_type: SpecDataType,
    value_type: SpecDataType,
    entries: Seq<MapEntry>,
    n: nat,
    m: nat,
)
    requires
        n <= m <= entries.len(),
        map_prefix_of(key_type, value_type, entries, n) is Err,
    ensures
        map_prefix_of(key_type, value_type, entries, m) == map_prefix_of(
            key_type,
            value_type,
            entries,
            n,
        ),
    decreases m - n,
{
    if n < m {
        lemma_map_prefix_error(key_type, value_type, entries, n, (m - 1) as nat);
    }
}

/// The conversion of the first `n` elements gives `n` values.
proof fn lemma_logical_prefix_len(declared: SpecDataType, values: Seq<ScalarValue>, n: nat)
    requires
        n <= values.len(),
    ensures
        logical_prefix_of(declared, values, n) matches Ok(prefix) ==> prefix.len() == n,
    decreases n,
{
    if n > 0 {
        lemma_logical_prefix_len(declared, values, (n - 1) as nat);
    }
}

/// Whether a value has the given storage type.
fn value_has_type(value: &ScalarValue, dt: &DataType) -> (r: bool)
    ensures
        r == (data_type_of(*value) == dt@),
{
    value.data_type().equals(dt)
}

/// Whether a union declares a variant with this tag and this storage type.
fn union_has_variant(fields: &Vec<UnionField>, type_id: i8, dt: &DataType) -> (r: bool)
    ensures
        r == union_declares(fields@, type_id, dt@),
{
    let mut i: usize = 0;
    while i < fields.len()
        invariant
            i <= fields.len(),
            forall|j: int|
                0 <= j < i ==> !((#[trigger] fields@[j]).type_id == type_id && data_type_view(
                    fields@[j].field.data_type,
                ) == dt@),
        decreases fields.len() - i,
    {
        if fields[i].type_id == type_id && fields[i].field.data_type.equals(dt) {
            return true;
        }
        i += 1;
    }
    false
}

/// The element field of a logical list.
fn list_field(field: &Field) -> (r: LogicalField)
    ensures
        r@ == list_field_of(field@),
{
    LogicalField {
        name: "values".to_owned(),
        logical_type: TypeSignature::Native(NativeType::from_data_type(&field.data_type)),
        nullable: field.nullable,
    }
}

/// Converts the single row of a list column: every element in order, under
/// an element field named `values`.
pub fn list_to_logical_scalar(field: &Field, values: &Vec<ScalarValue>) -> (r: Result<
    LogicalList,
    TypeError,
>)
    ensures
        match r {
            Ok(l) => l.field@ == list_field_of(field@) && logical_prefix_of(
                field.data_type@,
                values@,
                values@.len(),
            ) == Ok::<Seq<SpecLogicalScalar>, SpecError>(logical_scalars_view(l.values@)),
            Err(e) => logical_prefix_of(field.data_type@, values@, values@.len()) == Err::<Seq<SpecLogicalScalar>, SpecError>(e@),
        },
    decreases values,
{
    let mut out: Vec<LogicalScalar> = Vec::new();
    let mut i: usize = 0;
    assert(logical_scalars_view(out@) =~= Seq::empty());
    while i < values.len()
        invariant
            i <= values.len(),
            out@.len() == i,
            logical_prefix_of(field.data_type@, values@, i as nat) == Ok::<Seq<SpecLogicalScalar>, SpecError>(logical_scalars_view(out@)),
        decreases values.len() - i,
    {
        let element = &values[i];
        let ghost before = logical_scalars_view(out@);
        if !value_has_type(element, &field.data_type) {
            proof {
                lemma_logical_prefix_error(
                    field.data_type@,
                    values@,
                    (i + 1) as nat,
                    values@.len(),
                );
            }
            return Err(TypeError::new(ErrorKind::InternalInvariantViolation, "list element"));
        }
        match to_logical(element) {
            Err(e) => {
                proof {
                    lemma_logical_prefix_error(
                        field.data_type@,
                        values@,
                        (i + 1) as nat,
                        values@.len(),
                    );
                }
                return Err(e);
            },
            Ok(x) => {
                out.push(x);
                assert(logical_scalars_view(out@) =~= before.push(x@));
            },
        }
        i += 1;
    }
    Ok(LogicalList::new(list_field(field), out))
}

/// Converts the single row of a fixed-size list column: as a list, and then
/// held to the length that a fixed-size list can have.
pub fn fixed_size_list_to_logical_scalar(list: &FixedSizeListValue) -> (r: Result<
    LogicalScalar,
    TypeError,
>)
    ensures
        match r {
            Ok(x) => logical_of(ScalarValue::FixedSizeList(*list)) == Ok::<SpecLogicalScalar, SpecError>(x@),
            Err(e) => logical_of(ScalarValue::FixedSizeList(*list)) == Err::<SpecLogicalScalar, SpecError>(e@),
        },
    decreases list,
{
    let converted = list_to_logical_scalar(&list.field, &list.values)?;
    proof {
        lemma_logical_prefix_len(list.field.data_type@, list.values@, list.values@.len());
    }
    let fixed = LogicalFixedSizeList::try_from_list(converted)?;
    Ok(LogicalScalar::FixedSizeList(fixed))
}

/// Converts the single row of a struct column: one entry for each declared
/// field, in declared order, with the field's name and nullability.
pub fn struct_to_logical_scalar(value: &StructValue) -> (r: Result<LogicalScalar, TypeError>)
    ensures
        match r {
            Ok(x) => logical_of(ScalarValue::Struct(*value)) == Ok::<SpecLogicalScalar, SpecError>(
                x@,
            ),
            Err(e) => logical_of(ScalarValue::Struct(*value)) == Err::<SpecLogicalScalar, SpecError>(e@),
        },
    decreases value,
{
    if value.fields.len() != value.values.len() {
        return Err(TypeError::new(ErrorKind::InternalInvariantViolation, "struct"));
    }
    let mut out: Vec<LogicalStructEntry> = Vec::new();
    let mut i: usize = 0;
    assert(struct_entries_view(out@) =~= Seq::empty());
    while i < value.values.len()
        invariant
            i <= value.values.len(),
            value.fields.len() == value.values.len(),
            out@.len() == i,
            struct_prefix_of(value.fields@, value.values@, i as nat) == Ok::<Seq<SpecStructEntry>, SpecError>(struct_entries_view(out@)),
        decreases value.values.len() - i,
    {
        let element = &value.values[i];
        let field = &value.fields[i];
        let ghost before = struct_entries_view(out@);
        if !value_has_type(element, &field.data_type) {
            proof {
                lemma_struct_prefix_error(
                    value.fields@,
                    value.values@,
                    (i + 1) as nat,
                    value.values@.len(),
                );
            }
            return Err(TypeError::new(ErrorKind::InternalInvariantViolation, "struct field"));
        }
        match to_logical(element) {
            Err(e) => {
                proof {
                    lemma_struct_prefix_error(
                        value.fields@,
                        value.values@,
                        (i + 1) as nat,
                        value.values@.len(),
                    );
                }
                return Err(e);
            },
            Ok(x) => {
                let entry = LogicalStructEntry { field: LogicalField::from_field(field), value: x };
                out.push(entry);
                assert(struct_entries_view(out@) =~= before.push(
                    SpecStructEntry { field: logical_field_of(field@), value: x@ },
                ));
            },
        }
        i += 1;
    }
    Ok(LogicalScalar::Struct(LogicalStruct { entries: out }))
}

/// Converts the single row of a map column: every entry in the column's
/// order, keys that occur twice included.
pub fn map_to_logical_scalar(value: &MapValue) -> (r: Result<LogicalScalar, TypeError>)
    ensures
        match r {
            Ok(x) => logical_of(ScalarValue::Mapping(*value)) == Ok::<SpecLogicalScalar, SpecError>(
                x@,
            ),
            Err(e) => logical_of(ScalarValue::Mapping(*value)) == Err::<SpecLogicalScalar, SpecError>(e@),
        },
    decreases value,
{
    let fields = match &value.entries_field.data_type {
        DataType::Struct(fields) => fields,
        _ => {
            return Err(TypeError::new(ErrorKind::InternalInvariantViolation, "map entries"));
        },
    };
    if fields.len() != 2 {
        return Err(TypeError::new(ErrorKind::InternalInvariantViolation, "map entries"));
    }
    let key_type = &fields[0].data_type;
    let value_type = &fields[1].data_type;
    let mut out: Vec<LogicalMapEntry> = Vec::new();
    let mut i: usize = 0;
    assert(map_entries_view(out@) =~= Seq::empty());
    while i < value.entries.len()
        invariant
            i <= value.entries.len(),
            out@.len() == i,
            map_entry_types(value.entries_field) == Some((key_type@, value_type@)),
            map_prefix_of(key_type@, value_type@, value.entries@, i as nat) == Ok::<Seq<SpecMapEntry>, SpecError>(map_entries_view(out@)),
        decreases value.entries.len() - i,
    {
        let entry = &value.entries[i];
        let ghost before = map_entries_view(out@);
        if !value_has_type(&entry.key, key_type) || !value_has_type(&entry.value, value_type) {
            proof {
                lemma_map_prefix_error(
                    key_type@,
                    value_type@,
                    value.entries@,
                    (i + 1) as nat,
                    value.entries@.len(),
                );
            }
            return Err(TypeError::new(ErrorKind::InternalInvariantViolation, "map entry"));
        }
        let key = match to_logical(&entry.key) {
            Err(e) => {
                proof {
                    lemma_map_prefix_error(
                        key_type@,
                        value_type@,
                        value.entries@,
                        (i + 1) as nat,
                        value.entries@.len(),
                    );
                }
                return Err(e);
            },
            Ok(k) => k,
        };
        let item = match to_logical(&entry.value) {
            Err(e) => {
                proof {
                    lemma_map_prefix_error(
                        key_type@,
                        value_type@,
                        value.entries@,
                        (i + 1) as nat,
                        value.entries@.len(),
                    );
                }
                return Err(e);
            },
            Ok(x) => x,
        };
        let ghost pushed = SpecMapEntry { key: key@, value: item@ };
        out.push(LogicalMapEntry { key, value: item });
        assert(map_entries_view(out@) =~= before.push(pushed));
        i += 1;
    }
    Ok(LogicalScalar::Mapping(LogicalMap { entries: out }))
}

/// Converts a union value: the active variant's value under its tag, or
/// `Null` where no variant is active.
pub fn union_to_logical_scalar(
    value: &Option<(i8, Box<ScalarValue>)>,
    fields: &Vec<UnionField>,
) -> (r: Result<LogicalScalar, TypeError>)
    ensures
        match r {
            Ok(x) => union_logical_of(*value, fields@) == Ok::<SpecLogicalScalar, SpecError>(x@),
            Err(e) => union_logical_of(*value, fields@) == Err::<SpecLogicalScalar, SpecError>(e@),
        },
    decreases value,
{
    match value {
        None => Ok(LogicalScalar::Null),
        Some((type_id, inner)) => {
            let dt = inner.data_type();
            if !union_has_variant(fields, *type_id, &dt) {
                return Err(TypeError::new(ErrorKind::InternalInvariantViolation, "union"));
            }
            let converted = to_logical(inner)?;
            Ok(LogicalScalar::Union(LogicalUnion { type_id: *type_id, value: Box::new(converted) }))
        },
    }
}

/// The logical value of a union value.
pub open spec fn union_logical_of(
    value: Option<(i8, Box<ScalarValue>)>,
    fields: Seq<UnionField>,
) -> Result<SpecLogicalScalar, SpecError> {
    match value {
        None => Ok(SpecLogicalScalar::Null),
        Some((type_id, inner)) => if !union_declares(fields, type_id, data_type_of(*inner)) {
            Err(failure(ErrorKind::InternalInvariantViolation, "union"))
        } else {
            match logical_of(*inner) {
                Err(e) => Err(e),
                Ok(x) => Ok(SpecLogicalScalar::Union { type_id, value: Box::new(x) }),
            }
        },
    }
}

/// Converts a physical scalar into its logical value.
///
/// Succeeds unless a fixed-size binary or list is longer than a 32-bit size
/// can count, or a nested value does not have the storage type that its
/// parent declares for it.
pub fn to_logical(value: &ScalarValue) -> (r: Result<LogicalScalar, TypeError>)
    ensures
        match r {
            Ok(x) => logical_of(*value) == Ok::<SpecLogicalScalar, SpecError>(x@),
            Err(e) => logical_of(*value) == Err::<SpecLogicalScalar, SpecError>(e@),
        },
        r is Ok <==> well_formed(*value),
        is_null_value(*value) ==> (r matches Ok(x) && x@ == SpecLogicalScalar::Null),
    decreases value,
{
    proof {
        lemma_total_on_well_formed(*value);
        if is_null_value(*value) {
            lemma_null_converts_to_null(*value);
        }
    }
    match value {
        ScalarValue::Null => Ok(LogicalScalar::Null),
        ScalarValue::Boolean(None) => Ok(LogicalScalar::Null),
        ScalarValue::Boolean(Some(x)) => Ok(LogicalScalar::Boolean(*x)),
        ScalarValue::Float16(None) => Ok(LogicalScalar::Null),
        ScalarValue::Float16(Some(x)) => Ok(LogicalScalar::Float16(*x)),
        ScalarValue::Float32(None) => Ok(LogicalScalar::Null),
        ScalarValue::Float32(Some(x)) => Ok(LogicalScalar::Float32(*x)),
        ScalarValue::Float64(None) => Ok(LogicalScalar::Null),
        ScalarValue::Float64(Some(x)) => Ok(LogicalScalar::Float64(*x)),
        ScalarValue::Decimal128(None, _, _) => Ok(LogicalScalar::Null),
        ScalarValue::Decimal128(Some(x), _, s) => Ok(
            LogicalScalar::Decimal(LogicalDecimal::from_i128(*x, *s)),
        ),
        ScalarValue::Decimal256(None, _, _) => Ok(LogicalScalar::Null),
        ScalarValue::Decimal256(Some(bytes), _, s) => Ok(
            LogicalScalar::Decimal(LogicalDecimal::from_le_bytes(bytes, *s)),
        ),
        ScalarValue::Int8(None) => Ok(LogicalScalar::Null),
        ScalarValue::Int8(Some(x)) => Ok(LogicalScalar::Int8(*x)),
        ScalarValue::Int16(None) => Ok(LogicalScalar::Null),
        ScalarValue::Int16(Some(x)) => Ok(LogicalScalar::Int16(*x)),
        ScalarValue::Int32(None) => Ok(LogicalScalar::Null),
        ScalarValue::Int32(Some(x)) => Ok(LogicalScalar::Int32(*x)),
        ScalarValue::Int64(None) => Ok(LogicalScalar::Null),
        ScalarValue::Int64(Some(x)) => Ok(LogicalScalar::Int64(*x)),
        ScalarValue::UInt8(None) => Ok(LogicalScalar::Null),
        ScalarValue::UInt8(Some(x)) => Ok(LogicalScalar::UInt8(*x)),
        ScalarValue::UInt16(None) => Ok(LogicalScalar::Null),
        ScalarValue::UInt16(Some(x)) => Ok(LogicalScalar::UInt16(*x)),
        ScalarValue::UInt32(None) => Ok(LogicalScalar::Null),
        ScalarValue::UInt32(Some(x)) => Ok(LogicalScalar::UInt32(*x)),
        ScalarValue::UInt64(None) => Ok(LogicalScalar::Null),
        ScalarValue::UInt64(Some(x)) => Ok(LogicalScalar::UInt64(*x)),
        ScalarValue::Utf8(None) => Ok(LogicalScalar::Null),
        ScalarValue::Utf8(Some(s)) => Ok(LogicalScalar::String(s.clone())),
        ScalarValue::Utf8View(None) => Ok(LogicalScalar::Null),
        ScalarValue::Utf8View(Some(s)) => Ok(LogicalScalar::String(s.clone())),
        ScalarValue::LargeUtf8(None) => Ok(LogicalScalar::Null),
        ScalarValue::LargeUtf8(Some(s)) => Ok(LogicalScalar::String(s.clone())),
        ScalarValue::Binary(None) => Ok(LogicalScalar::Null),
        ScalarValue::Binary(Some(b)) => Ok(LogicalScalar::Binary(bytes_clone(b))),
        ScalarValue::BinaryView(None) => Ok(LogicalScalar::Null),
        ScalarValue::BinaryView(Some(b)) => Ok(LogicalScalar::Binary(bytes_clone(b))),
        ScalarValue::FixedSizeBinary(_, None) => Ok(LogicalScalar::Null),
        ScalarValue::FixedSizeBinary(_, Some(b)) => {
            let fixed = LogicalFixedSizeBinary::try_new(bytes_clone(b))?;
            Ok(LogicalScalar::FixedSizeBinary(fixed))
        },
        ScalarValue::LargeBinary(None) => Ok(LogicalScalar::Null),
        ScalarValue::LargeBinary(Some(b)) => Ok(LogicalScalar::Binary(bytes_clone(b))),
        ScalarValue::FixedSizeList(l) => fixed_size_list_to_logical_scalar(l),
        ScalarValue::List(l) => {
            let converted = list_to_logical_scalar(&l.field, &l.values)?;
            Ok(LogicalScalar::List(converted))
        },
        ScalarValue::LargeList(l) => {
            let converted = list_to_logical_scalar(&l.field, &l.values)?;
            Ok(LogicalScalar::List(converted))
        },
        ScalarValue::Struct(s) => struct_to_logical_scalar(s),
        ScalarValue::Mapping(m) => map_to_logical_scalar(m),
        ScalarValue::Date32(None) => Ok(LogicalScalar::Null),
        ScalarValue::Date32(Some(x)) => Ok(LogicalScalar::Date(*x)),
        ScalarValue::Date64(None) => Ok(LogicalScalar::Null),
        ScalarValue::Date64(Some(x)) => Ok(
            LogicalScalar::Timestamp(LogicalTimestamp::new(TimeUnit::Millisecond, None, *x)),
        ),
        ScalarValue::Time32Second(None) => Ok(LogicalScalar::Null),
        ScalarValue::Time32Second(Some(x)) => Ok(LogicalScalar::Time(LogicalTime::Second(*x))),
        ScalarValue::Time32Millisecond(None) => Ok(LogicalScalar::Null),
        ScalarValue::Time32Millisecond(Some(x)) => Ok(
            LogicalScalar::Time(LogicalTime::Millisecond(*x)),
        ),
        ScalarValue::Time64Microsecond(None) => Ok(LogicalScalar::Null),
        ScalarValue::Time64Microsecond(Some(x)) => Ok(
            LogicalScalar::Time(LogicalTime::Microsecond(*x)),
        ),
        ScalarValue::Time64Nanosecond(None) => Ok(LogicalScalar::Null),
        ScalarValue::Time64Nanosecond(Some(x)) => Ok(
            LogicalScalar::Time(LogicalTime::Nanosecond(*x)),
        ),
        ScalarValue::TimestampSecond(None, _) => Ok(LogicalScalar::Null),
        ScalarValue::TimestampSecond(Some(x), tz) => Ok(
            LogicalScalar::Timestamp(
                LogicalTimestamp::new(TimeUnit::Second, opt_string_clone(tz), *x),
            ),
        ),
        ScalarValue::TimestampMillisecond(None, _) => Ok(LogicalScalar::Null),
        ScalarValue::TimestampMillisecond(Some(x), tz) => Ok(
            LogicalScalar::Timestamp(
                LogicalTimestamp::new(TimeUnit::Millisecond, opt_string_clone(tz), *x),
            ),
        ),
        ScalarValue::TimestampMicrosecond(None, _) => Ok(LogicalScalar::Null),
        ScalarValue::TimestampMicrosecond(Some(x), tz) => Ok(
            LogicalScalar::Timestamp(
                LogicalTimestamp::new(TimeUnit::Microsecond, opt_string_clone(tz), *x),
            ),
        ),
        ScalarValue::TimestampNanosecond(None, _) => Ok(LogicalScalar::Null),
        ScalarValue::TimestampNanosecond(Some(x), tz) => Ok(
            LogicalScalar::Timestamp(
                LogicalTimestamp::new(TimeUnit::Nanosecond, opt_string_clone(tz), *x),
            ),
        ),
        ScalarValue::IntervalYearMonth(None) => Ok(LogicalScalar::Null),
        ScalarValue::IntervalYearMonth(Some(x)) => Ok(
            LogicalScalar::Interval(LogicalInterval::YearMonth(*x)),
        ),
        ScalarValue::IntervalDayTime(None) => Ok(LogicalScalar::Null),
        ScalarValue::IntervalDayTime(Some(x)) => Ok(
            LogicalScalar::Interval(LogicalInterval::DayTime(*x)),
        ),
        ScalarValue::IntervalMonthDayNano(None) => Ok(LogicalScalar::Null),
        ScalarValue::IntervalMonthDayNano(Some(x)) => Ok(
            LogicalScalar::Interval(LogicalInterval::MonthDayNano(*x)),
        ),
        ScalarValue::DurationSecond(None) => Ok(LogicalScalar::Null),
        ScalarValue::DurationSecond(Some(x)) => Ok(
            LogicalScalar::Duration(LogicalDuration::new(TimeUnit::Second, *x)),
        ),
        ScalarValue::DurationMillisecond(None) => Ok(LogicalScalar::Null),
        ScalarValue::DurationMillisecond(Some(x)) => Ok(
            LogicalScalar::Duration(LogicalDuration::new(TimeUnit::Millisecond, *x)),
        ),
        ScalarValue::DurationMicrosecond(None) => Ok(LogicalScalar::Null),
        ScalarValue::DurationMicrosecond(Some(x)) => Ok(
            LogicalScalar::Duration(LogicalDuration::new(TimeUnit::Microsecond, *x)),
        ),
        ScalarValue::DurationNanosecond(None) => Ok(LogicalScalar::Null),
        ScalarValue::DurationNanosecond(Some(x)) => Ok(
            LogicalScalar::Duration(LogicalDuration::new(TimeUnit::Nanosecond, *x)),
        ),
        ScalarValue::Union(v, fields, _) => union_to_logical_scalar(v, fields),
        ScalarValue::Dictionary(_, inner) => to_logical(inner),
    }
}

} // verus!

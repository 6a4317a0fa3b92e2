//! Physical scalar values: one value in one of the storage encodings.

use crate::datatype::{
    DataType, Field, IntervalUnit, SpecDataType, TimeUnit, UnionField, UnionMode,
    field_view, opt_string_clone, opt_string_view, union_fields_clone, union_fields_view,
};
use vstd::prelude::*;

verus! {

/// An interval of days and milliseconds.
#[derive(Clone, Copy, Debug, PartialEq, Eq, Structural, Hash)]
pub struct IntervalDayTime {
    pub days: i32,
    pub milliseconds: i32,
}

/// An interval of months, days and nanoseconds.
#[derive(Clone, Copy, Debug, PartialEq, Eq, Structural, Hash)]
pub struct IntervalMonthDayNano {
    pub months: i32,
    pub days: i32,
    pub nanoseconds: i64,
}

/// The single row of a list column: the element field and the elements.
#[derive(Debug, PartialEq, Eq, Hash)]
pub struct ListValue {
    pub field: Field,
    pub values: Vec<ScalarValue>,
}

/// The single row of a fixed-size list column.
#[derive(Debug, PartialEq, Eq, Hash)]
pub struct FixedSizeListValue {
    pub field: Field,
    pub size: i32,
    pub values: Vec<ScalarValue>,
}

/// The single row of a struct column: one value for each declared field.
#[derive(Debug, PartialEq, Eq, Hash)]
pub struct StructValue {
    pub fields: Vec<Field>,
    pub values: Vec<ScalarValue>,
}

/// One entry of a map.
#[derive(Debug, PartialEq, Eq, Hash)]
pub struct MapEntry {
    pub key: ScalarValue,
    pub value: ScalarValue,
}

/// The single row of a map column: the entries field and the entries, in
/// the column's order.
#[derive(Debug, PartialEq, Eq, Hash)]
pub struct MapValue {
    pub entries_field: Field,
    pub sorted: bool,
    pub entries: Vec<MapEntry>,
}

/// A value in its storage encoding. A float is held by its IEEE 754 bit
/// pattern, a 256-bit decimal by its 32 bytes in little-endian two's
/// complement.
#[derive(Debug, PartialEq, Eq, Hash)]
pub enum ScalarValue {
    Null,
    Boolean(Option<bool>),
    Float16(Option<u16>),
    Float32(Option<u32>),
    Float64(Option<u64>),
    Decimal128(Option<i128>, u8, i8),
    Decimal256(Option<[u8; 32]>, u8, i8),
    Int8(Option<i8>),
    Int16(Option<i16>),
    Int32(Option<i32>),
    Int64(Option<i64>),
    UInt8(Option<u8>),
    UInt16(Option<u16>),
    UInt32(Option<u32>),
    UInt64(Option<u64>),
    Utf8(Option<String>),
    Utf8View(Option<String>),
    LargeUtf8(Option<String>),
    Binary(Option<Vec<u8>>),
    BinaryView(Option<Vec<u8>>),
    FixedSizeBinary(i32, Option<Vec<u8>>),
    LargeBinary(Option<Vec<u8>>),
    FixedSizeList(FixedSizeListValue),
    List(ListValue),
    LargeList(ListValue),
    Struct(StructValue),
    Mapping(MapValue),
    Date32(Option<i32>),
    Date64(Option<i64>),
    Time32Second(Option<i32>),
    Time32Millisecond(Option<i32>),
    Time64Microsecond(Option<i64>),
    Time64Nanosecond(Option<i64>),
    TimestampSecond(Option<i64>, Option<String>),
    TimestampMillisecond(Option<i64>, Option<String>),
    TimestampMicrosecond(Option<i64>, Option<String>),
    TimestampNanosecond(Option<i64>, Option<String>),
    IntervalYearMonth(Option<i32>),
    IntervalDayTime(Option<IntervalDayTime>),
    IntervalMonthDayNano(Option<IntervalMonthDayNano>),
    DurationSecond(Option<i64>),
    DurationMillisecond(Option<i64>),
    DurationMicrosecond(Option<i64>),
    DurationNanosecond(Option<i64>),
    Union(Option<(i8, Box<ScalarValue>)>, Vec<UnionField>, UnionMode),
    Dictionary(Box<DataType>, Box<ScalarValue>),
}

/// The storage type of a physical scalar.
pub open spec fn data_type_of(v: ScalarValue) -> SpecDataType
    decreases v,
{
    match v {
        ScalarValue::Null => SpecDataType::Null,
        ScalarValue::Boolean(_) => SpecDataType::Boolean,
        ScalarValue::Float16(_) => SpecDataType::Float16,
        ScalarValue::Float32(_) => SpecDataType::Float32,
        ScalarValue::Float64(_) => SpecDataType::Float64,
        ScalarValue::Decimal128(_, p, s) => SpecDataType::Decimal128(p, s),
        ScalarValue::Decimal256(_, p, s) => SpecDataType::Decimal256(p, s),
        ScalarValue::Int8(_) => SpecDataType::Int8,
        ScalarValue::Int16(_) => SpecDataType::Int16,
        ScalarValue::Int32(_) => SpecDataType::Int32,
        ScalarValue::Int64(_) => SpecDataType::Int64,
        ScalarValue::UInt8(_) => SpecDataType::UInt8,
        ScalarValue::UInt16(_) => SpecDataType::UInt16,
        ScalarValue::UInt32(_) => SpecDataType::UInt32,
        ScalarValue::UInt64(_) => SpecDataType::UInt64,
        ScalarValue::Utf8(_) => SpecDataType::Utf8,
        ScalarValue::Utf8View(_) => SpecDataType::Utf8View,
        ScalarValue::LargeUtf8(_) => SpecDataType::LargeUtf8,
        ScalarValue::Binary(_) => SpecDataType::Binary,
        ScalarValue::BinaryView(_) => SpecDataType::BinaryView,
        ScalarValue::FixedSizeBinary(n, _) => SpecDataType::FixedSizeBinary(n),
        ScalarValue::LargeBinary(_) => SpecDataType::LargeBinary,
        ScalarValue::FixedSizeList(l) => SpecDataType::FixedSizeList(
            Box::new(field_view(l.field)),
            l.size,
        ),
        ScalarValue::List(l) => SpecDataType::List(Box::new(field_view(l.field))),
        ScalarValue::LargeList(l) => SpecDataType::LargeList(Box::new(field_view(l.field))),
        ScalarValue::Struct(s) => SpecDataType::Struct(crate::datatype::fields_view(s.fields@)),
        ScalarValue::Mapping(m) => SpecDataType::Mapping(
            Box::new(field_view(m.entries_field)),
            m.sorted,
        ),
        ScalarValue::Date32(_) => SpecDataType::Date32,
        ScalarValue::Date64(_) => SpecDataType::Date64,
        ScalarValue::Time32Second(_) => SpecDataType::Time32(TimeUnit::Second),
        ScalarValue::Time32Millisecond(_) => SpecDataType::Time32(TimeUnit::Millisecond),
        ScalarValue::Time64Microsecond(_) => SpecDataType::Time64(TimeUnit::Microsecond),
        ScalarValue::Time64Nanosecond(_) => SpecDataType::Time64(TimeUnit::Nanosecond),
        ScalarValue::TimestampSecond(_, tz) => SpecDataType::Timestamp(
            TimeUnit::Second,
            opt_string_view(tz),
        ),
        ScalarValue::TimestampMillisecond(_, tz) => SpecDataType::Timestamp(
            TimeUnit::Millisecond,
            opt_string_view(tz),
        ),
        ScalarValue::TimestampMicrosecond(_, tz) => SpecDataType::Timestamp(
            TimeUnit::Microsecond,
            opt_string_view(tz),
        ),
        ScalarValue::TimestampNanosecond(_, tz) => SpecDataType::Timestamp(
            TimeUnit::Nanosecond,
            opt_string_view(tz),
        ),
        ScalarValue::IntervalYearMonth(_) => SpecDataType::Interval(IntervalUnit::YearMonth),
        ScalarValue::IntervalDayTime(_) => SpecDataType::Interval(IntervalUnit::DayTime),
        ScalarValue::IntervalMonthDayNano(_) => SpecDataType::Interval(
            IntervalUnit::MonthDayNano,
        ),
        ScalarValue::DurationSecond(_) => SpecDataType::Duration(TimeUnit::Second),
        ScalarValue::DurationMillisecond(_) => SpecDataType::Duration(TimeUnit::Millisecond),
        ScalarValue::DurationMicrosecond(_) => SpecDataType::Duration(TimeUnit::Microsecond),
        ScalarValue::DurationNanosecond(_) => SpecDataType::Duration(TimeUnit::Nanosecond),
        ScalarValue::Union(_, fields, mode) => SpecDataType::Union(
            union_fields_view(fields@),
            mode,
        ),
        ScalarValue::Dictionary(k, v) => SpecDataType::Dictionary(
            Box::new(k@),
            Box::new(data_type_of(*v)),
        ),
    }
}

/// Whether a physical scalar stands for a missing value.
pub open spec fn is_null_value(v: ScalarValue) -> bool
    decreases v,
{
    match v {
        ScalarValue::Null => true,
        ScalarValue::Boolean(x) => x is None,
        ScalarValue::Float16(x) => x is None,
        ScalarValue::Float32(x) => x is None,
        ScalarValue::Float64(x) => x is None,
        ScalarValue::Decimal128(x, _, _) => x is None,
        ScalarValue::Decimal256(x, _, _) => x is None,
        ScalarValue::Int8(x) => x is None,
        ScalarValue::Int16(x) => x is None,
        ScalarValue::Int32(x) => x is None,
        ScalarValue::Int64(x) => x is None,
        ScalarValue::UInt8(x) => x is None,
        ScalarValue::UInt16(x) => x is None,
        ScalarValue::UInt32(x) => x is None,
        ScalarValue::UInt64(x) => x is None,
        ScalarValue::Utf8(x) => x is None,
        ScalarValue::Utf8View(x) => x is None,
        ScalarValue::LargeUtf8(x) => x is None,
        ScalarValue::Binary(x) => x is None,
        ScalarValue::BinaryView(x) => x is None,
        ScalarValue::FixedSizeBinary(_, x) => x is None,
        ScalarValue::LargeBinary(x) => x is None,
        ScalarValue::FixedSizeList(_) => false,
        ScalarValue::List(_) => false,
        ScalarValue::LargeList(_) => false,
        ScalarValue::Struct(_) => false,
        ScalarValue::Mapping(_) => false,
        ScalarValue::Date32(x) => x is None,
        ScalarValue::Date64(x) => x is None,
        ScalarValue::Time32Second(x) => x is None,
        ScalarValue::Time32Millisecond(x) => x is None,
        ScalarValue::Time64Microsecond(x) => x is None,
        ScalarValue::Time64Nanosecond(x) => x is None,
        ScalarValue::TimestampSecond(x, _) => x is None,
        ScalarValue::TimestampMillisecond(x, _) => x is None,
        ScalarValue::TimestampMicrosecond(x, _) => x is None,
        ScalarValue::TimestampNanosecond(x, _) => x is None,
        ScalarValue::IntervalYearMonth(x) => x is None,
        ScalarValue::IntervalDayTime(x) => x is None,
        ScalarValue::IntervalMonthDayNano(x) => x is None,
        ScalarValue::DurationSecond(x) => x is None,
        ScalarValue::DurationMillisecond(x) => x is None,
        ScalarValue::DurationMicrosecond(x) => x is None,
        ScalarValue::DurationNanosecond(x) => x is None,
        ScalarValue::Union(x, _, _) => x is None,
        ScalarValue::Dictionary(_, v) => is_null_value(*v),
    }
}

impl ScalarValue {
    /// The storage type of this value.
    pub fn data_type(&self) -> (r: DataType)
        ensures
            r@ == data_type_of(*self),
        decreases self,
    {
        match self {
            ScalarValue::Null => DataType::Null,
            ScalarValue::Boolean(_) => DataType::Boolean,
            ScalarValue::Float16(_) => DataType::Float16,
            ScalarValue::Float32(_) => DataType::Float32,
            ScalarValue::Float64(_) => DataType::Float64,
            ScalarValue::Decimal128(_, p, s) => DataType::Decimal128(*p, *s),
            ScalarValue::Decimal256(_, p, s) => DataType::Decimal256(*p, *s),
            ScalarValue::Int8(_) => DataType::Int8,
            ScalarValue::Int16(_) => DataType::Int16,
            ScalarValue::Int32(_) => DataType::Int32,
            ScalarValue::Int64(_) => DataType::Int64,
            ScalarValue::UInt8(_) => DataType::UInt8,
            ScalarValue::UInt16(_) => DataType::UInt16,
            ScalarValue::UInt32(_) => DataType::UInt32,
            ScalarValue::UInt64(_) => DataType::UInt64,
            ScalarValue::Utf8(_) => DataType::Utf8,
            ScalarValue::Utf8View(_) => DataType::Utf8View,
            ScalarValue::LargeUtf8(_) => DataType::LargeUtf8,
            ScalarValue::Binary(_) => DataType::Binary,
            ScalarValue::BinaryView(_) => DataType::BinaryView,
            ScalarValue::FixedSizeBinary(n, _) => DataType::FixedSizeBinary(*n),
            ScalarValue::LargeBinary(_) => DataType::LargeBinary,
            ScalarValue::FixedSizeList(l) => DataType::FixedSizeList(
                Box::new(l.field.clone()),
                l.size,
            ),
            ScalarValue::List(l) => DataType::List(Box::new(l.field.clone())),
            ScalarValue::LargeList(l) => DataType::LargeList(Box::new(l.field.clone())),
            ScalarValue::Struct(s) => DataType::Struct(crate::datatype::fields_clone(&s.fields)),
            ScalarValue::Mapping(m) => DataType::Mapping(
                Box::new(m.entries_field.clone()),
                m.sorted,
            ),
            ScalarValue::Date32(_) => DataType::Date32,
            ScalarValue::Date64(_) => DataType::Date64,
            ScalarValue::Time32Second(_) => DataType::Time32(TimeUnit::Second),
            ScalarValue::Time32Millisecond(_) => DataType::Time32(TimeUnit::Millisecond),
            ScalarValue::Time64Microsecond(_) => DataType::Time64(TimeUnit::Microsecond),
            ScalarValue::Time64Nanosecond(_) => DataType::Time64(TimeUnit::Nanosecond),
            ScalarValue::TimestampSecond(_, tz) => DataType::Timestamp(
                TimeUnit::Second,
                opt_string_clone(tz),
            ),
            ScalarValue::TimestampMillisecond(_, tz) => DataType::Timestamp(
                TimeUnit::Millisecond,
                opt_string_clone(tz),
            ),
            ScalarValue::TimestampMicrosecond(_, tz) => DataType::Timestamp(
                TimeUnit::Microsecond,
                opt_string_clone(tz),
            ),
            ScalarValue::TimestampNanosecond(_, tz) => DataType::Timestamp(
                TimeUnit::Nanosecond,
                opt_string_clone(tz),
            ),
            ScalarValue::IntervalYearMonth(_) => DataType::Interval(IntervalUnit::YearMonth),
            ScalarValue::IntervalDayTime(_) => DataType::Interval(IntervalUnit::DayTime),
            ScalarValue::IntervalMonthDayNano(_) => DataType::Interval(IntervalUnit::MonthDayNano),
            ScalarValue::DurationSecond(_) => DataType::Duration(TimeUnit::Second),
            ScalarValue::DurationMillisecond(_) => DataType::Duration(TimeUnit::Millisecond),
            ScalarValue::DurationMicrosecond(_) => DataType::Duration(TimeUnit::Microsecond),
            ScalarValue::DurationNanosecond(_) => DataType::Duration(TimeUnit::Nanosecond),
            ScalarValue::Union(_, fields, mode) => DataType::Union(
                union_fields_clone(fields),
                *mode,
            ),
            ScalarValue::Dictionary(k, v) => DataType::Dictionary(
                Box::new((**k).clone()),
                Box::new(v.data_type()),
            ),
        }
    }

    /// Whether this value stands for a missing value.
    pub fn is_null(&self) -> (r: bool)
        ensures
            r == is_null_value(*self),
        decreases self,
    {
        match self {
            ScalarValue::Null => true,
            ScalarValue::Boolean(x) => x.is_none(),
            ScalarValue::Float16(x) => x.is_none(),
            ScalarValue::Float32(x) => x.is_none(),
            ScalarValue::Float64(x) => x.is_none(),
            ScalarValue::Decimal128(x, _, _) => x.is_none(),
            ScalarValue::Decimal256(x, _, _) => x.is_none(),
            ScalarValue::Int8(x) => x.is_none(),
            ScalarValue::Int16(x) => x.is_none(),
            ScalarValue::Int32(x) => x.is_none(),
            ScalarValue::Int64(x) => x.is_none(),
            ScalarValue::UInt8(x) => x.is_none(),
            ScalarValue::UInt16(x) => x.is_none(),
            ScalarValue::UInt32(x) => x.is_none(),
            ScalarValue::UInt64(x) => x.is_none(),
            ScalarValue::Utf8(x) => x.is_none(),
            ScalarValue::Utf8View(x) => x.is_none(),
            ScalarValue::LargeUtf8(x) => x.is_none(),
            ScalarValue::Binary(x) => x.is_none(),
            ScalarValue::BinaryView(x) => x.is_none(),
            ScalarValue::FixedSizeBinary(_, x) => x.is_none(),
            ScalarValue::LargeBinary(x) => x.is_none(),
            ScalarValue::FixedSizeList(_) => false,
            ScalarValue::List(_) => false,
            ScalarValue::LargeList(_) => false,
            ScalarValue::Struct(_) => false,
            ScalarValue::Mapping(_) => false,
            ScalarValue::Date32(x) => x.is_none(),
            ScalarValue::Date64(x) => x.is_none(),
            ScalarValue::Time32Second(x) => x.is_none(),
            ScalarValue::Time32Millisecond(x) => x.is_none(),
            ScalarValue::Time64Microsecond(x) => x.is_none(),
            ScalarValue::Time64Nanosecond(x) => x.is_none(),
            ScalarValue::TimestampSecond(x, _) => x.is_none(),
            ScalarValue::TimestampMillisecond(x, _) => x.is_none(),
            ScalarValue::TimestampMicrosecond(x, _) => x.is_none(),
            ScalarValue::TimestampNanosecond(x, _) => x.is_none(),
            ScalarValue::IntervalYearMonth(x) => x.is_none(),
            ScalarValue::IntervalDayTime(x) => x.is_none(),
            ScalarValue::IntervalMonthDayNano(x) => x.is_none(),
            ScalarValue::DurationSecond(x) => x.is_none(),
            ScalarValue::DurationMillisecond(x) => x.is_none(),
            ScalarValue::DurationMicrosecond(x) => x.is_none(),
            ScalarValue::DurationNanosecond(x) => x.is_none(),
            ScalarValue::Union(x, _, _) => x.is_none(),
            ScalarValue::Dictionary(_, v) => v.is_null(),
        }
    }
}

} // verus!

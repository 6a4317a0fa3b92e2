//! Logical scalar values: the canonical in-memory form of a value, whatever
//! its storage encoding was.

use crate::datatype::{TimeUnit, opt_string_view};
use crate::decimal::LogicalDecimal;
use crate::error::{ErrorKind, TypeError, failure};
use crate::native::{LogicalField, SpecLogicalField, logical_field_view};
use crate::scalar::{IntervalDayTime, IntervalMonthDayNano};
use vstd::prelude::*;

verus! {

/// A time of day.
#[derive(Clone, Copy, Debug, PartialEq, Eq, Structural, Hash)]
pub enum LogicalTime {
    Second(i32),
    Millisecond(i32),
    Microsecond(i64),
    Nanosecond(i64),
}

/// A calendar interval.
#[derive(Clone, Copy, Debug, PartialEq, Eq, Structural, Hash)]
pub enum LogicalInterval {
    YearMonth(i32),
    DayTime(IntervalDayTime),
    MonthDayNano(IntervalMonthDayNano),
}

/// An elapsed time.
#[derive(Clone, Copy, Debug, PartialEq, Eq, Structural, Hash)]
pub struct LogicalDuration {
    pub unit: TimeUnit,
    pub value: i64,
}

/// A point in time, counted in `unit` since the epoch.
#[derive(Debug, PartialEq, Eq, Hash)]
pub struct LogicalTimestamp {
    pub unit: TimeUnit,
    pub timezone: Option<String>,
    pub value: i64,
}

/// A byte string whose length fits the size of a fixed-size binary type.
#[derive(Debug, PartialEq, Eq, Hash)]
pub struct LogicalFixedSizeBinary {
    bytes: Vec<u8>,
}

/// A list: the element field and the elements in order.
#[derive(Debug, PartialEq, Eq, Hash)]
pub struct LogicalList {
    pub field: LogicalField,
    pub values: Vec<LogicalScalar>,
}

/// A list whose length fits the size of a fixed-size list type.
#[derive(Debug, PartialEq, Eq, Hash)]
pub struct LogicalFixedSizeList {
    list: LogicalList,
}

/// One field of a struct value.
#[derive(Debug, PartialEq, Eq, Hash)]
pub struct LogicalStructEntry {
    pub field: LogicalField,
    pub value: LogicalScalar,
}

/// A struct value: its fields with their values, in declared order.
#[derive(Debug, PartialEq, Eq, Hash)]
pub struct LogicalStruct {
    pub entries: Vec<LogicalStructEntry>,
}

/// One entry of a map value.
#[derive(Debug, PartialEq, Eq, Hash)]
pub struct LogicalMapEntry {
    pub key: LogicalScalar,
    pub value: LogicalScalar,
}

/// A map value: its entries in order. A key may occur more than once.
#[derive(Debug, PartialEq, Eq, Hash)]
pub struct LogicalMap {
    pub entries: Vec<LogicalMapEntry>,
}

/// A union value: the tag of the active variant and its value.
#[derive(Debug, PartialEq, Eq, Hash)]
pub struct LogicalUnion {
    pub type_id: i8,
    pub value: Box<LogicalScalar>,
}

/// A value in canonical form. A float is held by its IEEE 754 bit pattern.
#[derive(Debug, PartialEq, Eq, Hash)]
pub enum LogicalScalar {
    Null,
    Boolean(bool),
    Int8(i8),
    Int16(i16),
    Int32(i32),
    Int64(i64),
    UInt8(u8),
    UInt16(u16),
    UInt32(u32),
    UInt64(u64),
    Float16(u16),
    Float32(u32),
    Float64(u64),
    String(String),
    Binary(Vec<u8>),
    FixedSizeBinary(LogicalFixedSizeBinary),
    Decimal(LogicalDecimal),
    Date(i32),
    Time(LogicalTime),
    Timestamp(LogicalTimestamp),
    Interval(LogicalInterval),
    Duration(LogicalDuration),
    List(LogicalList),
    FixedSizeList(LogicalFixedSizeList),
    Struct(LogicalStruct),
    Mapping(LogicalMap),
    Union(LogicalUnion),
}

/// The mathematical value of a struct's entry.
pub struct SpecStructEntry {
    pub field: SpecLogicalField,
    pub value: SpecLogicalScalar,
}

/// The mathematical value of a map's entry.
pub struct SpecMapEntry {
    pub key: SpecLogicalScalar,
    pub value: SpecLogicalScalar,
}

/// The mathematical value of a [`LogicalScalar`].
#[allow(inconsistent_fields)]
pub enum SpecLogicalScalar {
    Null,
    Boolean(bool),
    Int8(i8),
    Int16(i16),
    Int32(i32),
    Int64(i64),
    UInt8(u8),
    UInt16(u16),
    UInt32(u32),
    UInt64(u64),
    Float16(u16),
    Float32(u32),
    Float64(u64),
    String(Seq<char>),
    Binary(Seq<u8>),
    FixedSizeBinary(Seq<u8>),
    /// The number `unscaled * 10^(-scale)`.
    Decimal { unscaled: int, scale: int },
    Date(i32),
    Time(LogicalTime),
    Timestamp { unit: TimeUnit, timezone: Option<Seq<char>>, value: i64 },
    Interval(LogicalInterval),
    Duration(LogicalDuration),
    List { field: SpecLogicalField, values: Seq<SpecLogicalScalar> },
    FixedSizeList { field: SpecLogicalField, values: Seq<SpecLogicalScalar> },
    Struct(Seq<SpecStructEntry>),
    Mapping(Seq<SpecMapEntry>),
    Union { type_id: i8, value: Box<SpecLogicalScalar> },
}

/// The largest length that a fixed-size type can declare.
pub const MAX_FIXED_SIZE: usize = 0x7fff_ffff;

/// The values of a sequence of logical scalars, in order.
pub open spec fn logical_scalars_view(values: Seq<LogicalScalar>) -> Seq<SpecLogicalScalar>
    decreases values,
{
    Seq::new(
        values.len(),
        |i: int|
            if 0 <= i < values.len() {
                logical_scalar_view(values[i])
            } else {
                arbitrary()
            },
    )
}

/// The values of a struct's entries, in order.
pub open spec fn struct_entries_view(entries: Seq<LogicalStructEntry>) -> Seq<SpecStructEntry>
    decreases entries,
{
    Seq::new(
        entries.len(),
        |i: int|
            if 0 <= i < entries.len() {
                SpecStructEntry {
                    field: logical_field_view(entries[i].field),
                    value: logical_scalar_view(entries[i].value),
                }
            } else {
                arbitrary()
            },
    )
}

/// The values of a map's entries, in order.
pub open spec fn map_entries_view(entries: Seq<LogicalMapEntry>) -> Seq<SpecMapEntry>
    decreases entries,
{
    Seq::new(
        entries.len(),
        |i: int|
            if 0 <= i < entries.len() {
                SpecMapEntry {
                    key: logical_scalar_view(entries[i].key),
                    value: logical_scalar_view(entries[i].value),
                }
            } else {
                arbitrary()
            },
    )
}

/// The value of a logical scalar.
pub open spec fn logical_scalar_view(v: LogicalScalar) -> SpecLogicalScalar
    decreases v,
{
    match v {
        LogicalScalar::Null => SpecLogicalScalar::Null,
        LogicalScalar::Boolean(x) => SpecLogicalScalar::Boolean(x),
        LogicalScalar::Int8(x) => SpecLogicalScalar::Int8(x),
        LogicalScalar::Int16(x) => SpecLogicalScalar::Int16(x),
        LogicalScalar::Int32(x) => SpecLogicalScalar::Int32(x),
        LogicalScalar::Int64(x) => SpecLogicalScalar::Int64(x),
        LogicalScalar::UInt8(x) => SpecLogicalScalar::UInt8(x),
        LogicalScalar::UInt16(x) => SpecLogicalScalar::UInt16(x),
        LogicalScalar::UInt32(x) => SpecLogicalScalar::UInt32(x),
        LogicalScalar::UInt64(x) => SpecLogicalScalar::UInt64(x),
        LogicalScalar::Float16(x) => SpecLogicalScalar::Float16(x),
        LogicalScalar::Float32(x) => SpecLogicalScalar::Float32(x),
        LogicalScalar::Float64(x) => SpecLogicalScalar::Float64(x),
        LogicalScalar::String(s) => SpecLogicalScalar::String(s@),
        LogicalScalar::Binary(b) => SpecLogicalScalar::Binary(b@),
        LogicalScalar::FixedSizeBinary(b) => SpecLogicalScalar::FixedSizeBinary(b.bytes_spec()),
        LogicalScalar::Decimal(d) => SpecLogicalScalar::Decimal {
            unscaled: d.unscaled_spec(),
            scale: d.scale_spec(),
        },
        LogicalScalar::Date(x) => SpecLogicalScalar::Date(x),
        LogicalScalar::Time(t) => SpecLogicalScalar::Time(t),
        LogicalScalar::Timestamp(t) => SpecLogicalScalar::Timestamp {
            unit: t.unit,
            timezone: opt_string_view(t.timezone),
            value: t.value,
        },
        LogicalScalar::Interval(i) => SpecLogicalScalar::Interval(i),
        LogicalScalar::Duration(d) => SpecLogicalScalar::Duration(d),
        LogicalScalar::List(l) => SpecLogicalScalar::List {
            field: logical_field_view(l.field),
            values: logical_scalars_view(l.values@),
        },
        LogicalScalar::FixedSizeList(l) => SpecLogicalScalar::FixedSizeList {
            field: logical_field_view(l.list_spec().field),
            values: logical_scalars_view(l.list_spec().values@),
        },
        LogicalScalar::Struct(s) => SpecLogicalScalar::Struct(struct_entries_view(s.entries@)),
        LogicalScalar::Mapping(m) => SpecLogicalScalar::Mapping(map_entries_view(m.entries@)),
        LogicalScalar::Union(u) => SpecLogicalScalar::Union {
            type_id: u.type_id,
            value: Box::new(logical_scalar_view(*u.value)),
        },
    }
}

impl View for LogicalScalar {
    type V = SpecLogicalScalar;

    open spec fn view(&self) -> SpecLogicalScalar {
        logical_scalar_view(*self)
    }
}

impl LogicalTimestamp {
    /// A timestamp.
    pub fn new(unit: TimeUnit, timezone: Option<String>, value: i64) -> (r: LogicalTimestamp)
        ensures
            r.unit == unit,
            r.timezone == timezone,
            r.value == value,
    {
        LogicalTimestamp { unit, timezone, value }
    }
}

impl LogicalDuration {
    /// A duration.
    pub fn new(unit: TimeUnit, value: i64) -> (r: LogicalDuration)
        ensures
            r.unit == unit,
            r.value == value,
    {
        LogicalDuration { unit, value }
    }
}

impl LogicalFixedSizeBinary {
    #[verifier::type_invariant]
    spec fn well_formed(self) -> bool {
        self.bytes@.len() <= MAX_FIXED_SIZE
    }

    /// The bytes.
    pub closed spec fn bytes_spec(&self) -> Seq<u8> {
        self.bytes@
    }

    /// A fixed-size binary value. Fails with `ValueTooLarge` where there are
    /// more bytes than a 32-bit size can count.
    pub fn try_new(bytes: Vec<u8>) -> (r: Result<LogicalFixedSizeBinary, TypeError>)
        ensures
            r is Ok <==> bytes@.len() <= MAX_FIXED_SIZE,
            r matches Ok(b) ==> b.bytes_spec() == bytes@,
            r matches Err(e) ==> e@ == failure(ErrorKind::ValueTooLarge, "fixed-size binary"),
    {
        if bytes.len() > MAX_FIXED_SIZE {
            return Err(TypeError::new(ErrorKind::ValueTooLarge, "fixed-size binary"));
        }
        Ok(LogicalFixedSizeBinary { bytes })
    }

    /// The bytes.
    pub fn bytes(&self) -> (r: &Vec<u8>)
        ensures
            r@ == self.bytes_spec(),
            r@.len() <= MAX_FIXED_SIZE,
    {
        proof {
            use_type_invariant(self);
        }
        &self.bytes
    }
}

impl LogicalList {
    /// A list of the given elements.
    pub fn new(field: LogicalField, values: Vec<LogicalScalar>) -> (r: LogicalList)
        ensures
            r.field == field,
            r.values == values,
    {
        LogicalList { field, values }
    }
}

impl LogicalFixedSizeList {
    #[verifier::type_invariant]
    spec fn well_formed(self) -> bool {
        self.list.values@.len() <= MAX_FIXED_SIZE
    }

    /// The list.
    pub closed spec fn list_spec(&self) -> LogicalList {
        self.list
    }

    /// A fixed-size list of the elements of `list`. Fails with
    /// `ValueTooLarge` where there are more elements than a 32-bit size can
    /// count.
    pub fn try_from_list(list: LogicalList) -> (r: Result<LogicalFixedSizeList, TypeError>)
        ensures
            r is Ok <==> list.values@.len() <= MAX_FIXED_SIZE,
            r matches Ok(l) ==> l.list_spec() == list,
            r matches Err(e) ==> e@ == failure(ErrorKind::ValueTooLarge, "fixed-size list"),
    {
        if list.values.len() > MAX_FIXED_SIZE {
            return Err(TypeError::new(ErrorKind::ValueTooLarge, "fixed-size list"));
        }
        Ok(LogicalFixedSizeList { list })
    }

    /// The list.
    pub fn list(&self) -> (r: &LogicalList)
        ensures
            *r == self.list_spec(),
            r.values@.len() <= MAX_FIXED_SIZE,
    {
        proof {
            use_type_invariant(self);
        }
        &self.list
    }
}

} // verus!

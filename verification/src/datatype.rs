//! The physical (storage) type taxonomy.
//!
//! A [`DataType`] says how a column is laid out: which of several string,
//! binary, list or timestamp encodings is in use. Every type here has a
//! mathematical view (`SpecDataType`, `SpecField`, ...) over which the
//! contracts of the crate are stated.

use vstd::prelude::*;

verus! {

/// The resolution of a time-like value.
#[derive(Clone, Copy, Debug, PartialEq, Eq, Structural, Hash)]
pub enum TimeUnit {
    Second,
    Millisecond,
    Microsecond,
    Nanosecond,
}

/// The layout of a calendar interval.
#[derive(Clone, Copy, Debug, PartialEq, Eq, Structural, Hash)]
pub enum IntervalUnit {
    YearMonth,
    DayTime,
    MonthDayNano,
}

/// How the children of a union column are laid out.
#[derive(Clone, Copy, Debug, PartialEq, Eq, Structural, Hash)]
pub enum UnionMode {
    Sparse,
    Dense,
}

/// A named, typed child of a nested physical type.
#[derive(Debug, PartialEq, Eq, Hash)]
pub struct Field {
    pub name: String,
    pub data_type: DataType,
    pub nullable: bool,
}

/// One variant of a physical union: its tag and its field.
#[derive(Debug, PartialEq, Eq, Hash)]
pub struct UnionField {
    pub type_id: i8,
    pub field: Field,
}

/// The storage type of a column or of a single physical value.
#[derive(Debug, PartialEq, Eq, Hash)]
pub enum DataType {
    Null,
    Boolean,
    Int8,
    Int16,
    Int32,
    Int64,
    UInt8,
    UInt16,
    UInt32,
    UInt64,
    Float16,
    Float32,
    Float64,
    Timestamp(TimeUnit, Option<String>),
    Date32,
    Date64,
    Time32(TimeUnit),
    Time64(TimeUnit),
    Duration(TimeUnit),
    Interval(IntervalUnit),
    Binary,
    FixedSizeBinary(i32),
    LargeBinary,
    BinaryView,
    Utf8,
    LargeUtf8,
    Utf8View,
    List(Box<Field>),
    ListView(Box<Field>),
    FixedSizeList(Box<Field>, i32),
    LargeList(Box<Field>),
    LargeListView(Box<Field>),
    Struct(Vec<Field>),
    Union(Vec<UnionField>, UnionMode),
    Dictionary(Box<DataType>, Box<DataType>),
    Decimal32(u8, i8),
    Decimal64(u8, i8),
    Decimal128(u8, i8),
    Decimal256(u8, i8),
    Mapping(Box<Field>, bool),
    RunEndEncoded(Box<Field>, Box<Field>),
}

/// The mathematical value of a [`Field`].
pub struct SpecField {
    pub name: Seq<char>,
    pub data_type: SpecDataType,
    pub nullable: bool,
}

/// The mathematical value of a [`UnionField`].
pub struct SpecUnionField {
    pub type_id: i8,
    pub field: SpecField,
}

/// The mathematical value of a [`DataType`].
pub enum SpecDataType {
    Null,
    Boolean,
    Int8,
    Int16,
    Int32,
    Int64,
    UInt8,
    UInt16,
    UInt32,
    UInt64,
    Float16,
    Float32,
    Float64,
    Timestamp(TimeUnit, Option<Seq<char>>),
    Date32,
    Date64,
    Time32(TimeUnit),
    Time64(TimeUnit),
    Duration(TimeUnit),
    Interval(IntervalUnit),
    Binary,
    FixedSizeBinary(i32),
    LargeBinary,
    BinaryView,
    Utf8,
    LargeUtf8,
    Utf8View,
    List(Box<SpecField>),
    ListView(Box<SpecField>),
    FixedSizeList(Box<SpecField>, i32),
    LargeList(Box<SpecField>),
    LargeListView(Box<SpecField>),
    Struct(Seq<SpecField>),
    Union(Seq<SpecUnionField>, UnionMode),
    Dictionary(Box<SpecDataType>, Box<SpecDataType>),
    Decimal32(u8, i8),
    Decimal64(u8, i8),
    Decimal128(u8, i8),
    Decimal256(u8, i8),
    Mapping(Box<SpecField>, bool),
    RunEndEncoded(Box<SpecField>, Box<SpecField>),
}

/// The view of an optional string: the characters, where there are any.
pub open spec fn opt_string_view(s: Option<String>) -> Option<Seq<char>> {
    match s {
        Some(t) => Some(t@),
        None => None,
    }
}

/// The value of a field.
pub open spec fn field_view(f: Field) -> SpecField
    decreases f,
{
    SpecField { name: f.name@, data_type: data_type_view(f.data_type), nullable: f.nullable }
}

/// The value of a union's variant.
pub open spec fn union_field_view(f: UnionField) -> SpecUnionField
    decreases f,
{
    SpecUnionField { type_id: f.type_id, field: field_view(f.field) }
}

/// The values of a struct's fields, in their declared order.
pub open spec fn fields_view(fields: Seq<Field>) -> Seq<SpecField>
    decreases fields,
{
    Seq::new(
        fields.len(),
        |i: int|
            if 0 <= i < fields.len() {
                field_view(fields[i])
            } else {
                arbitrary()
            },
    )
}

/// The values of a union's variants, in their declared order.
pub open spec fn union_fields_view(fields: Seq<UnionField>) -> Seq<SpecUnionField>
    decreases fields,
{
    Seq::new(
        fields.len(),
        |i: int|
            if 0 <= i < fields.len() {
                union_field_view(fields[i])
            } else {
                arbitrary()
            },
    )
}

/// The value of a storage type.
pub open spec fn data_type_view(dt: DataType) -> SpecDataType
    decreases dt,
{
    match dt {
        DataType::Null => SpecDataType::Null,
        DataType::Boolean => SpecDataType::Boolean,
        DataType::Int8 => SpecDataType::Int8,
        DataType::Int16 => SpecDataType::Int16,
        DataType::Int32 => SpecDataType::Int32,
        DataType::Int64 => SpecDataType::Int64,
        DataType::UInt8 => SpecDataType::UInt8,
        DataType::UInt16 => SpecDataType::UInt16,
        DataType::UInt32 => SpecDataType::UInt32,
        DataType::UInt64 => SpecDataType::UInt64,
        DataType::Float16 => SpecDataType::Float16,
        DataType::Float32 => SpecDataType::Float32,
        DataType::Float64 => SpecDataType::Float64,
        DataType::Timestamp(unit, tz) => SpecDataType::Timestamp(unit, opt_string_view(tz)),
        DataType::Date32 => SpecDataType::Date32,
        DataType::Date64 => SpecDataType::Date64,
        DataType::Time32(unit) => SpecDataType::Time32(unit),
        DataType::Time64(unit) => SpecDataType::Time64(unit),
        DataType::Duration(unit) => SpecDataType::Duration(unit),
        DataType::Interval(unit) => SpecDataType::Interval(unit),
        DataType::Binary => SpecDataType::Binary,
        DataType::FixedSizeBinary(n) => SpecDataType::FixedSizeBinary(n),
        DataType::LargeBinary => SpecDataType::LargeBinary,
        DataType::BinaryView => SpecDataType::BinaryView,
        DataType::Utf8 => SpecDataType::Utf8,
        DataType::LargeUtf8 => SpecDataType::LargeUtf8,
        DataType::Utf8View => SpecDataType::Utf8View,
        DataType::List(f) => SpecDataType::List(Box::new(field_view(*f))),
        DataType::ListView(f) => SpecDataType::ListView(Box::new(field_view(*f))),
        DataType::FixedSizeList(f, n) => SpecDataType::FixedSizeList(Box::new(field_view(*f)), n),
        DataType::LargeList(f) => SpecDataType::LargeList(Box::new(field_view(*f))),
        DataType::LargeListView(f) => SpecDataType::LargeListView(Box::new(field_view(*f))),
        DataType::Struct(fields) => SpecDataType::Struct(fields_view(fields@)),
        DataType::Union(fields, mode) => SpecDataType::Union(union_fields_view(fields@), mode),
        DataType::Dictionary(k, v) => SpecDataType::Dictionary(
            Box::new(data_type_view(*k)),
            Box::new(data_type_view(*v)),
        ),
        DataType::Decimal32(p, s) => SpecDataType::Decimal32(p, s),
        DataType::Decimal64(p, s) => SpecDataType::Decimal64(p, s),
        DataType::Decimal128(p, s) => SpecDataType::Decimal128(p, s),
        DataType::Decimal256(p, s) => SpecDataType::Decimal256(p, s),
        DataType::Mapping(f, sorted) => SpecDataType::Mapping(Box::new(field_view(*f)), sorted),
        DataType::RunEndEncoded(r, v) => SpecDataType::RunEndEncoded(
            Box::new(field_view(*r)),
            Box::new(field_view(*v)),
        ),
    }
}

impl View for Field {
    type V = SpecField;

    open spec fn view(&self) -> SpecField {
        field_view(*self)
    }
}

impl View for UnionField {
    type V = SpecUnionField;

    open spec fn view(&self) -> SpecUnionField {
        union_field_view(*self)
    }
}

impl View for DataType {
    type V = SpecDataType;

    open spec fn view(&self) -> SpecDataType {
        data_type_view(*self)
    }
}

/// Whether two optional strings hold the same text.
pub fn opt_string_equals(a: &Option<String>, b: &Option<String>) -> (r: bool)
    ensures
        r == (opt_string_view(*a) == opt_string_view(*b)),
{
    match (a, b) {
        (Some(x), Some(y)) => *x == *y,
        (None, None) => true,
        _ => false,
    }
}

/// A copy of an optional string.
pub fn opt_string_clone(a: &Option<String>) -> (r: Option<String>)
    ensures
        opt_string_view(r) == opt_string_view(*a),
{
    match a {
        Some(x) => Some(x.clone()),
        None => None,
    }
}

impl Field {
    /// Creates a field.
    pub fn new(name: String, data_type: DataType, nullable: bool) -> (r: Field)
        ensures
            r.name == name,
            r.data_type == data_type,
            r.nullable == nullable,
    {
        Field { name, data_type, nullable }
    }

    /// Whether two fields have the same name, type and nullability.
    pub fn equals(&self, other: &Field) -> (r: bool)
        ensures
            r == (self@ == other@),
        decreases self,
    {
        self.name == other.name && self.nullable == other.nullable && self.data_type.equals(
            &other.data_type,
        )
    }
}

impl Clone for Field {
    fn clone(&self) -> (r: Field)
        ensures
            r@ == self@,
        decreases self,
    {
        Field {
            name: self.name.clone(),
            data_type: self.data_type.clone(),
            nullable: self.nullable,
        }
    }
}

impl UnionField {
    /// Whether two variants have the same tag and the same field.
    pub fn equals(&self, other: &UnionField) -> (r: bool)
        ensures
            r == (self@ == other@),
        decreases self,
    {
        self.type_id == other.type_id && self.field.equals(&other.field)
    }
}

impl Clone for UnionField {
    fn clone(&self) -> (r: UnionField)
        ensures
            r@ == self@,
        decreases self,
    {
        UnionField { type_id: self.type_id, field: self.field.clone() }
    }
}

/// Whether two field lists are equal, field by field.
pub fn fields_equal(a: &Vec<Field>, b: &Vec<Field>) -> (r: bool)
    ensures
        r == (fields_view(a@) == fields_view(b@)),
    decreases a,
{
    if a.len() != b.len() {
        assert(fields_view(a@).len() != fields_view(b@).len());
        return false;
    }
    let mut i: usize = 0;
    while i < a.len()
        invariant
            i <= a.len(),
            a.len() == b.len(),
            forall|j: int| 0 <= j < i ==> field_view(a@[j]) == field_view(b@[j]),
        decreases a.len() - i,
    {
        if !a[i].equals(&b[i]) {
            assert(fields_view(a@)[i as int] != fields_view(b@)[i as int]);
            return false;
        }
        i += 1;
    }
    assert(fields_view(a@) =~= fields_view(b@));
    true
}

/// Whether two variant lists are equal, variant by variant.
pub fn union_fields_equal(a: &Vec<UnionField>, b: &Vec<UnionField>) -> (r: bool)
    ensures
        r == (union_fields_view(a@) == union_fields_view(b@)),
    decreases a,
{
    if a.len() != b.len() {
        assert(union_fields_view(a@).len() != union_fields_view(b@).len());
        return false;
    }
    let mut i: usize = 0;
    while i < a.len()
        invariant
            i <= a.len(),
            a.len() == b.len(),
            forall|j: int| 0 <= j < i ==> union_field_view(a@[j]) == union_field_view(b@[j]),
        decreases a.len() - i,
    {
        if !a[i].equals(&b[i]) {
            assert(union_fields_view(a@)[i as int] != union_fields_view(b@)[i as int]);
            return false;
        }
        i += 1;
    }
    assert(union_fields_view(a@) =~= union_fields_view(b@));
    true
}

/// A copy of a field list.
pub fn fields_clone(a: &Vec<Field>) -> (r: Vec<Field>)
    ensures
        fields_view(r@) == fields_view(a@),
    decreases a,
{
    let mut out: Vec<Field> = Vec::new();
    let mut i: usize = 0;
    while i < a.len()
        invariant
            i <= a.len(),
            out.len() == i,
            forall|j: int| 0 <= j < i ==> field_view(out@[j]) == field_view(a@[j]),
        decreases a.len() - i,
    {
        out.push(a[i].clone());
        i += 1;
    }
    assert(fields_view(out@) =~= fields_view(a@));
    out
}

/// A copy of a variant list.
pub fn union_fields_clone(a: &Vec<UnionField>) -> (r: Vec<UnionField>)
    ensures
        union_fields_view(r@) == union_fields_view(a@),
    decreases a,
{
    let mut out: Vec<UnionField> = Vec::new();
    let mut i: usize = 0;
    while i < a.len()
        invariant
            i <= a.len(),
            out.len() == i,
            forall|j: int| 0 <= j < i ==> union_field_view(out@[j]) == union_field_view(a@[j]),
        decreases a.len() - i,
    {
        out.push(a[i].clone());
        i += 1;
    }
    assert(union_fields_view(out@) =~= union_fields_view(a@));
    out
}

impl DataType {
    /// Whether two storage types are the same, nested fields included.
    pub fn equals(&self, other: &DataType) -> (r: bool)
        ensures
            r == (self@ == other@),
        decreases self,
    {
        match (self, other) {
            (DataType::Null, DataType::Null) => true,
            (DataType::Boolean, DataType::Boolean) => true,
            (DataType::Int8, DataType::Int8) => true,
            (DataType::Int16, DataType::Int16) => true,
            (DataType::Int32, DataType::Int32) => true,
            (DataType::Int64, DataType::Int64) => true,
            (DataType::UInt8, DataType::UInt8) => true,
            (DataType::UInt16, DataType::UInt16) => true,
            (DataType::UInt32, DataType::UInt32) => true,
            (DataType::UInt64, DataType::UInt64) => true,
            (DataType::Float16, DataType::Float16) => true,
            (DataType::Float32, DataType::Float32) => true,
            (DataType::Float64, DataType::Float64) => true,
            (DataType::Timestamp(u1, tz1), DataType::Timestamp(u2, tz2)) => *u1 == *u2
                && opt_string_equals(tz1, tz2),
            (DataType::Date32, DataType::Date32) => true,
            (DataType::Date64, DataType::Date64) => true,
            (DataType::Time32(u1), DataType::Time32(u2)) => *u1 == *u2,
            (DataType::Time64(u1), DataType::Time64(u2)) => *u1 == *u2,
            (DataType::Duration(u1), DataType::Duration(u2)) => *u1 == *u2,
            (DataType::Interval(u1), DataType::Interval(u2)) => *u1 == *u2,
            (DataType::Binary, DataType::Binary) => true,
            (DataType::FixedSizeBinary(n1), DataType::FixedSizeBinary(n2)) => *n1 == *n2,
            (DataType::LargeBinary, DataType::LargeBinary) => true,
            (DataType::BinaryView, DataType::BinaryView) => true,
            (DataType::Utf8, DataType::Utf8) => true,
            (DataType::LargeUtf8, DataType::LargeUtf8) => true,
            (DataType::Utf8View, DataType::Utf8View) => true,
            (DataType::List(f1), DataType::List(f2)) => f1.equals(f2),
            (DataType::ListView(f1), DataType::ListView(f2)) => f1.equals(f2),
            (DataType::FixedSizeList(f1, n1), DataType::FixedSizeList(f2, n2)) => *n1 == *n2
                && f1.equals(f2),
            (DataType::LargeList(f1), DataType::LargeList(f2)) => f1.equals(f2),
            (DataType::LargeListView(f1), DataType::LargeListView(f2)) => f1.equals(f2),
            (DataType::Struct(a), DataType::Struct(b)) => fields_equal(a, b),
            (DataType::Union(a, m1), DataType::Union(b, m2)) => *m1 == *m2 && union_fields_equal(
                a,
                b,
            ),
            (DataType::Dictionary(k1, v1), DataType::Dictionary(k2, v2)) => k1.equals(k2)
                && v1.equals(v2),
            (DataType::Decimal32(pa, s1), DataType::Decimal32(pb, s2)) => *pa == *pb && *s1 == *s2,
            (DataType::Decimal64(pa, s1), DataType::Decimal64(pb, s2)) => *pa == *pb && *s1 == *s2,
            (DataType::Decimal128(pa, s1), DataType::Decimal128(pb, s2)) => *pa == *pb && *s1
                == *s2,
            (DataType::Decimal256(pa, s1), DataType::Decimal256(pb, s2)) => *pa == *pb && *s1
                == *s2,
            (DataType::Mapping(f1, s1), DataType::Mapping(f2, s2)) => *s1 == *s2 && f1.equals(f2),
            (DataType::RunEndEncoded(r1, v1), DataType::RunEndEncoded(r2, v2)) => r1.equals(r2)
                && v1.equals(v2),
            _ => false,
        }
    }
}

impl Clone for DataType {
    fn clone(&self) -> (r: DataType)
        ensures
            r@ == self@,
        decreases self,
    {
        match self {
            DataType::Null => DataType::Null,
            DataType::Boolean => DataType::Boolean,
            DataType::Int8 => DataType::Int8,
            DataType::Int16 => DataType::Int16,
            DataType::Int32 => DataType::Int32,
            DataType::Int64 => DataType::Int64,
            DataType::UInt8 => DataType::UInt8,
            DataType::UInt16 => DataType::UInt16,
            DataType::UInt32 => DataType::UInt32,
            DataType::UInt64 => DataType::UInt64,
            DataType::Float16 => DataType::Float16,
            DataType::Float32 => DataType::Float32,
            DataType::Float64 => DataType::Float64,
            DataType::Timestamp(unit, tz) => DataType::Timestamp(*unit, opt_string_clone(tz)),
            DataType::Date32 => DataType::Date32,
            DataType::Date64 => DataType::Date64,
            DataType::Time32(unit) => DataType::Time32(*unit),
            DataType::Time64(unit) => DataType::Time64(*unit),
            DataType::Duration(unit) => DataType::Duration(*unit),
            DataType::Interval(unit) => DataType::Interval(*unit),
            DataType::Binary => DataType::Binary,
            DataType::FixedSizeBinary(n) => DataType::FixedSizeBinary(*n),
            DataType::LargeBinary => DataType::LargeBinary,
            DataType::BinaryView => DataType::BinaryView,
            DataType::Utf8 => DataType::Utf8,
            DataType::LargeUtf8 => DataType::LargeUtf8,
            DataType::Utf8View => DataType::Utf8View,
            DataType::List(f) => DataType::List(Box::new((**f).clone())),
            DataType::ListView(f) => DataType::ListView(Box::new((**f).clone())),
            DataType::FixedSizeList(f, n) => DataType::FixedSizeList(Box::new((**f).clone()), *n),
            DataType::LargeList(f) => DataType::LargeList(Box::new((**f).clone())),
            DataType::LargeListView(f) => DataType::LargeListView(Box::new((**f).clone())),
            DataType::Struct(fields) => DataType::Struct(fields_clone(fields)),
            DataType::Union(fields, mode) => DataType::Union(union_fields_clone(fields), *mode),
            DataType::Dictionary(k, v) => DataType::Dictionary(
                Box::new((**k).clone()),
                Box::new((**v).clone()),
            ),
            DataType::Decimal32(p, s) => DataType::Decimal32(*p, *s),
            DataType::Decimal64(p, s) => DataType::Decimal64(*p, *s),
            DataType::Decimal128(p, s) => DataType::Decimal128(*p, *s),
            DataType::Decimal256(p, s) => DataType::Decimal256(*p, *s),
            DataType::Mapping(f, sorted) => DataType::Mapping(Box::new((**f).clone()), *sorted),
            DataType::RunEndEncoded(r, v) => DataType::RunEndEncoded(
                Box::new((**r).clone()),
                Box::new((**v).clone()),
            ),
        }
    }
}

} // verus!

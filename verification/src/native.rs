//! Native types, type signatures and the `LogicalType` capability.

use crate::datatype::{
    DataType, Field, IntervalUnit, SpecDataType, SpecField, SpecUnionField, TimeUnit, UnionField,
    field_view, fields_view, opt_string_clone, opt_string_equals, opt_string_view,
    union_fields_view,
};
use crate::error::{ErrorKind, SpecError, TypeError, failure};
use crate::extensions::{DefaultValuePrettyPrinter, ValuePrettyPrinter, default_text};
use crate::ordering::{LogicalTypePlanningInformation, SortKey, SortOrdering};
use crate::scalar::ScalarValue;
use std::sync::Arc;
use vstd::prelude::*;

verus! {

/// A named, typed child of a nested logical type. The child's logical type
/// is held by its signature, which is its identity.
#[derive(Debug, PartialEq, Eq, Hash)]
pub struct LogicalField {
    pub name: String,
    pub logical_type: TypeSignature,
    pub nullable: bool,
}

/// One variant of a logical union: its tag and its field.
#[derive(Debug, PartialEq, Eq, Hash)]
pub struct LogicalUnionField {
    pub type_id: i8,
    pub field: LogicalField,
}

/// The canonical kinds of value, independent of their storage encoding.
#[derive(Debug, PartialEq, Eq, Hash)]
pub enum NativeType {
    Null,
    Boolean,
    Int8,
    Int16,
    Int32,
    Int64,
    UInt8,
    UInt16,
    UInt32,
    UInt64,
    Float16,
    Float32,
    Float64,
    Timestamp(TimeUnit, Option<String>),
    Date,
    Time(TimeUnit),
    Duration(TimeUnit),
    Interval(IntervalUnit),
    Binary,
    FixedSizeBinary(i32),
    String,
    List(Box<LogicalField>),
    FixedSizeList(Box<LogicalField>, i32),
    Struct(Vec<LogicalField>),
    Union(Vec<LogicalUnionField>),
    Decimal(u8, i8),
    Mapping(Box<LogicalField>),
}

/// The identity of a logical type.
#[derive(Debug, PartialEq, Eq, Hash)]
pub enum TypeSignature {
    Native(NativeType),
    Extension { name: String, parameters: Vec<TypeSignature> },
}

/// What every logical type provides.
pub trait LogicalType: Send + Sync {
    /// The signature that `signature` returns. A type that is written
    /// without proofs leaves it open.
    open spec fn signature_spec(&self) -> SpecTypeSignature {
        arbitrary()
    }

    /// The native type that `native` returns. A type that is written
    /// without proofs leaves it open.
    open spec fn native_spec(&self) -> SpecNativeType {
        arbitrary()
    }

    /// The native type whose shape values of this type have.
    fn native(&self) -> (r: &NativeType)
        ensures
            native_type_view(*r) == self.native_spec(),
    ;

    /// The identity of this type.
    fn signature(&self) -> (r: TypeSignature)
        ensures
            signature_view(r) == self.signature_spec(),
    ;

    /// What `default_cast_for` gives for the storage type `origin`. A type
    /// that defines no casts leaves it at the failure `Unimplemented`.
    open spec fn cast_spec(&self, origin: SpecDataType) -> Result<SpecDataType, SpecError> {
        Err(failure(ErrorKind::Unimplemented, "default cast"))
    }

    /// Whether the values of this type sort in an order of the type's own.
    open spec fn has_custom_ordering(&self) -> bool {
        false
    }

    /// The identifier of the type's own order, where it has one.
    open spec fn custom_ordering_id(&self) -> Seq<char> {
        Seq::empty()
    }

    /// The key by which the type's own order places a value, where the type
    /// has such an order and the value has a place in it.
    open spec fn custom_key(&self, value: ScalarValue) -> Option<SortKey> {
        None
    }

    /// The text that the type's printer gives for a value, or the error that
    /// it ends in. A type without a printer of its own shows the standard
    /// text.
    open spec fn printed(&self, value: ScalarValue) -> Result<Seq<char>, SpecError> {
        default_text(value)
    }

    /// The storage type into which values of the storage type `origin` are
    /// cast where this type is asked for.
    fn default_cast_for(&self, origin: &DataType) -> (r: Result<DataType, TypeError>)
        ensures
            match r {
                Ok(t) => self.cast_spec(origin@) == Ok::<SpecDataType, SpecError>(t@),
                Err(e) => self.cast_spec(origin@) == Err::<SpecDataType, SpecError>(e@),
            },
    ;

    /// What the planner needs to know of this type: the order in which its
    /// values sort.
    fn planning_information(&self) -> (r: LogicalTypePlanningInformation)
        ensures
            r.ordering is Custom <==> self.has_custom_ordering(),
            r.ordering.ordering_id_spec() == self.custom_ordering_id(),
            forall|value: ScalarValue| #[trigger] r.ordering.key_of(value) == self.custom_key(value),
    ;

    /// The printer for values of this type.
    fn pretty_printer(&self) -> (r: PrettyPrinterRef)
        ensures
            forall|value: ScalarValue| #[trigger] r.printed(value) == self.printed(value),
    ;
}

/// The answer of a type that defines no casts: the failure `Unimplemented`.
pub fn no_default_cast() -> (r: Result<DataType, TypeError>)
    ensures
        r matches Err(e) && e@ == failure(ErrorKind::Unimplemented, "default cast"),
{
    Err(TypeError::new(ErrorKind::Unimplemented, "default cast"))
}

/// The planning information of a type without an order of its own: its
/// values sort in the natural order of their storage type.
pub fn default_planning_information() -> (r: LogicalTypePlanningInformation)
    ensures
        r.ordering is Default,
{
    LogicalTypePlanningInformation { ordering: SortOrdering::Default }
}

/// The printer of a type without a printer of its own: it shows the
/// standard text.
pub fn default_pretty_printer() -> (r: PrettyPrinterRef)
    ensures
        forall|value: ScalarValue| #[trigger] r.printed(value) == default_text(value),
{
    let r = PrettyPrinterRef::new(Box::new(DefaultValuePrettyPrinter));
    assert forall|value: ScalarValue| #[trigger] r.printed(value) == default_text(value) by {
        assert(DefaultValuePrettyPrinter.printed(value) == default_text(value));
    }
    r
}

/// A pretty printer of some type.
pub struct PrettyPrinterRef {
    object: Arc<Box<dyn ValuePrettyPrinter>>,
}

impl PrettyPrinterRef {
    /// The text that the printer gives for a value, or the error that it
    /// ends in.
    pub closed spec fn printed(&self, value: ScalarValue) -> Result<Seq<char>, SpecError> {
        self.object.printed(value)
    }

    /// A handle to a printer.
    pub fn new(printer: Box<dyn ValuePrettyPrinter>) -> (r: PrettyPrinterRef)
        ensures
            forall|value: ScalarValue| #[trigger] r.printed(value) == printer.printed(value),
    {
        let object = Arc::new(printer);
        PrettyPrinterRef { object }
    }

    /// The text of a scalar value.
    pub fn pretty_print_scalar(&self, value: &ScalarValue) -> (r: Result<String, TypeError>)
        ensures
            match r {
                Ok(s) => self.printed(*value) == Ok::<Seq<char>, SpecError>(s@),
                Err(e) => self.printed(*value) == Err::<Seq<char>, SpecError>(e@),
            },
    {
        self.object.pretty_print_scalar(value)
    }

    /// The text of the value in row `index` of a column.
    pub fn pretty_print_array(&self, array: &Vec<ScalarValue>, index: usize) -> (r: Result<
        String,
        TypeError,
    >)
        ensures
            index < array@.len() ==> match r {
                Ok(s) => self.printed(array@[index as int]) == Ok::<Seq<char>, SpecError>(s@),
                Err(e) => self.printed(array@[index as int]) == Err::<Seq<char>, SpecError>(e@),
            },
            index >= array@.len() ==> (r matches Err(e) && e@ == failure(
                ErrorKind::NotFound,
                "row",
            )),
    {
        self.object.pretty_print_array(array, index)
    }
}

/// A shared, immutable handle to a logical type.
pub struct LogicalTypeRef {
    object: Arc<Box<dyn LogicalType>>,
}

/// The mathematical value of a [`LogicalField`].
pub struct SpecLogicalField {
    pub name: Seq<char>,
    pub logical_type: SpecTypeSignature,
    pub nullable: bool,
}

/// The mathematical value of a [`LogicalUnionField`].
pub struct SpecLogicalUnionField {
    pub type_id: i8,
    pub field: SpecLogicalField,
}

/// The mathematical value of a [`NativeType`].
pub enum SpecNativeType {
    Null,
    Boolean,
    Int8,
    Int16,
    Int32,
    Int64,
    UInt8,
    UInt16,
    UInt32,
    UInt64,
    Float16,
    Float32,
    Float64,
    Timestamp(TimeUnit, Option<Seq<char>>),
    Date,
    Time(TimeUnit),
    Duration(TimeUnit),
    Interval(IntervalUnit),
    Binary,
    FixedSizeBinary(i32),
    String,
    List(Box<SpecLogicalField>),
    FixedSizeList(Box<SpecLogicalField>, i32),
    Struct(Seq<SpecLogicalField>),
    Union(Seq<SpecLogicalUnionField>),
    Decimal(u8, i8),
    Mapping(Box<SpecLogicalField>),
}

/// The mathematical value of a [`TypeSignature`].
pub enum SpecTypeSignature {
    Native(Box<SpecNativeType>),
    Extension { name: Seq<char>, parameters: Seq<SpecTypeSignature> },
}

/// The value of a logical field.
pub open spec fn logical_field_view(f: LogicalField) -> SpecLogicalField
    decreases f,
{
    SpecLogicalField {
        name: f.name@,
        logical_type: signature_view(f.logical_type),
        nullable: f.nullable,
    }
}

/// The values of logical fields, in order.
pub open spec fn logical_fields_view(fields: Seq<LogicalField>) -> Seq<SpecLogicalField>
    decreases fields,
{
    Seq::new(
        fields.len(),
        |i: int|
            if 0 <= i < fields.len() {
                logical_field_view(fields[i])
            } else {
                arbitrary()
            },
    )
}

/// The values of the variants of a logical union, in order.
pub open spec fn logical_union_fields_view(fields: Seq<LogicalUnionField>) -> Seq<
    SpecLogicalUnionField,
>
    decreases fields,
{
    Seq::new(
        fields.len(),
        |i: int|
            if 0 <= i < fields.len() {
                SpecLogicalUnionField {
                    type_id: fields[i].type_id,
                    field: logical_field_view(fields[i].field),
                }
            } else {
                arbitrary()
            },
    )
}

/// The values of signatures, in order.
pub open spec fn signatures_view(sigs: Seq<TypeSignature>) -> Seq<SpecTypeSignature>
    decreases sigs,
{
    Seq::new(
        sigs.len(),
        |i: int|
            if 0 <= i < sigs.len() {
                signature_view(sigs[i])
            } else {
                arbitrary()
            },
    )
}

/// The value of a signature.
pub open spec fn signature_view(s: TypeSignature) -> SpecTypeSignature
    decreases s,
{
    match s {
        TypeSignature::Native(n) => SpecTypeSignature::Native(Box::new(native_type_view(n))),
        TypeSignature::Extension { name, parameters } => SpecTypeSignature::Extension {
            name: name@,
            parameters: signatures_view(parameters@),
        },
    }
}

/// The value of a native type.
pub open spec fn native_type_view(n: NativeType) -> SpecNativeType
    decreases n,
{
    match n {
        NativeType::Null => SpecNativeType::Null,
        NativeType::Boolean => SpecNativeType::Boolean,
        NativeType::Int8 => SpecNativeType::Int8,
        NativeType::Int16 => SpecNativeType::Int16,
        NativeType::Int32 => SpecNativeType::Int32,
        NativeType::Int64 => SpecNativeType::Int64,
        NativeType::UInt8 => SpecNativeType::UInt8,
        NativeType::UInt16 => SpecNativeType::UInt16,
        NativeType::UInt32 => SpecNativeType::UInt32,
        NativeType::UInt64 => SpecNativeType::UInt64,
        NativeType::Float16 => SpecNativeType::Float16,
        NativeType::Float32 => SpecNativeType::Float32,
        NativeType::Float64 => SpecNativeType::Float64,
        NativeType::Timestamp(unit, tz) => SpecNativeType::Timestamp(unit, opt_string_view(tz)),
        NativeType::Date => SpecNativeType::Date,
        NativeType::Time(unit) => SpecNativeType::Time(unit),
        NativeType::Duration(unit) => SpecNativeType::Duration(unit),
        NativeType::Interval(unit) => SpecNativeType::Interval(unit),
        NativeType::Binary => SpecNativeType::Binary,
        NativeType::FixedSizeBinary(n) => SpecNativeType::FixedSizeBinary(n),
        NativeType::String => SpecNativeType::String,
        NativeType::List(f) => SpecNativeType::List(Box::new(logical_field_view(*f))),
        NativeType::FixedSizeList(f, n) => SpecNativeType::FixedSizeList(
            Box::new(logical_field_view(*f)),
            n,
        ),
        NativeType::Struct(fields) => SpecNativeType::Struct(logical_fields_view(fields@)),
        NativeType::Union(fields) => SpecNativeType::Union(logical_union_fields_view(fields@)),
        NativeType::Decimal(p, s) => SpecNativeType::Decimal(p, s),
        NativeType::Mapping(f) => SpecNativeType::Mapping(Box::new(logical_field_view(*f))),
    }
}

/// The native type of a storage type: encodings that mean the same collapse
/// into one kind. The three string encodings become `String`, the three
/// binary encodings `Binary`, the list encodings `List`; a dictionary or a
/// run-end encoding has the native type of its values; every decimal width
/// becomes `Decimal`; `Date64`, which counts milliseconds, is a timestamp.
pub open spec fn native_of(dt: SpecDataType) -> SpecNativeType
    decreases dt,
{
    match dt {
        SpecDataType::Null => SpecNativeType::Null,
        SpecDataType::Boolean => SpecNativeType::Boolean,
        SpecDataType::Int8 => SpecNativeType::Int8,
        SpecDataType::Int16 => SpecNativeType::Int16,
        SpecDataType::Int32 => SpecNativeType::Int32,
        SpecDataType::Int64 => SpecNativeType::Int64,
        SpecDataType::UInt8 => SpecNativeType::UInt8,
        SpecDataType::UInt16 => SpecNativeType::UInt16,
        SpecDataType::UInt32 => SpecNativeType::UInt32,
        SpecDataType::UInt64 => SpecNativeType::UInt64,
        SpecDataType::Float16 => SpecNativeType::Float16,
        SpecDataType::Float32 => SpecNativeType::Float32,
        SpecDataType::Float64 => SpecNativeType::Float64,
        SpecDataType::Timestamp(unit, tz) => SpecNativeType::Timestamp(unit, tz),
        SpecDataType::Date32 => SpecNativeType::Date,
        SpecDataType::Date64 => SpecNativeType::Timestamp(TimeUnit::Millisecond, None),
        SpecDataType::Time32(unit) => SpecNativeType::Time(unit),
        SpecDataType::Time64(unit) => SpecNativeType::Time(unit),
        SpecDataType::Duration(unit) => SpecNativeType::Duration(unit),
        SpecDataType::Interval(unit) => SpecNativeType::Interval(unit),
        SpecDataType::Binary => SpecNativeType::Binary,
        SpecDataType::FixedSizeBinary(n) => SpecNativeType::FixedSizeBinary(n),
        SpecDataType::LargeBinary => SpecNativeType::Binary,
        SpecDataType::BinaryView => SpecNativeType::Binary,
        SpecDataType::Utf8 => SpecNativeType::String,
        SpecDataType::LargeUtf8 => SpecNativeType::String,
        SpecDataType::Utf8View => SpecNativeType::String,
        SpecDataType::List(f) => SpecNativeType::List(Box::new(logical_field_of(*f))),
        SpecDataType::ListView(f) => SpecNativeType::List(Box::new(logical_field_of(*f))),
        SpecDataType::FixedSizeList(f, n) => SpecNativeType::FixedSizeList(
            Box::new(logical_field_of(*f)),
            n,
        ),
        SpecDataType::LargeList(f) => SpecNativeType::List(Box::new(logical_field_of(*f))),
        SpecDataType::LargeListView(f) => SpecNativeType::List(Box::new(logical_field_of(*f))),
        SpecDataType::Struct(fields) => SpecNativeType::Struct(logical_fields_of(fields)),
        SpecDataType::Union(fields, _) => SpecNativeType::Union(logical_union_fields_of(fields)),
        SpecDataType::Dictionary(_, v) => native_of(*v),
        SpecDataType::Decimal32(p, s) => SpecNativeType::Decimal(p, s),
        SpecDataType::Decimal64(p, s) => SpecNativeType::Decimal(p, s),
        SpecDataType::Decimal128(p, s) => SpecNativeType::Decimal(p, s),
        SpecDataType::Decimal256(p, s) => SpecNativeType::Decimal(p, s),
        SpecDataType::Mapping(f, _) => SpecNativeType::Mapping(Box::new(logical_field_of(*f))),
        SpecDataType::RunEndEncoded(_, v) => native_of(v.data_type),
    }
}

/// The logical field of a physical field: same name and nullability, and the
/// native type of its storage type as logical type.
pub open spec fn logical_field_of(f: SpecField) -> SpecLogicalField
    decreases f,
{
    SpecLogicalField {
        name: f.name,
        logical_type: SpecTypeSignature::Native(Box::new(native_of(f.data_type))),
        nullable: f.nullable,
    }
}

/// The logical fields of a struct's fields, in their declared order.
pub open spec fn logical_fields_of(fields: Seq<SpecField>) -> Seq<SpecLogicalField>
    decreases fields,
{
    Seq::new(
        fields.len(),
        |i: int|
            if 0 <= i < fields.len() {
                logical_field_of(fields[i])
            } else {
                arbitrary()
            },
    )
}

/// The logical variants of a union's variants, tags kept, in their declared
/// order.
pub open spec fn logical_union_fields_of(fields: Seq<SpecUnionField>) -> Seq<
    SpecLogicalUnionField,
>
    decreases fields,
{
    Seq::new(
        fields.len(),
        |i: int|
            if 0 <= i < fields.len() {
                SpecLogicalUnionField {
                    type_id: fields[i].type_id,
                    field: logical_field_of(fields[i].field),
                }
            } else {
                arbitrary()
            },
    )
}

impl LogicalField {
    /// Creates a logical field.
    pub fn new(name: String, logical_type: TypeSignature, nullable: bool) -> (r: LogicalField)
        ensures
            r.name == name,
            r.logical_type == logical_type,
            r.nullable == nullable,
    {
        LogicalField { name, logical_type, nullable }
    }

    /// The logical field of a physical field.
    pub fn from_field(f: &Field) -> (r: LogicalField)
        ensures
            r@ == logical_field_of(f@),
        decreases f,
    {
        LogicalField {
            name: f.name.clone(),
            logical_type: TypeSignature::Native(NativeType::from_data_type(&f.data_type)),
            nullable: f.nullable,
        }
    }

    /// Whether two fields have the same name, logical type and nullability.
    pub fn equals(&self, other: &LogicalField) -> (r: bool)
        ensures
            r == (self@ == other@),
        decreases self,
    {
        self.name == other.name && self.nullable == other.nullable && self.logical_type.equals(
            &other.logical_type,
        )
    }
}

impl Clone for LogicalField {
    fn clone(&self) -> (r: LogicalField)
        ensures
            r@ == self@,
        decreases self,
    {
        LogicalField {
            name: self.name.clone(),
            logical_type: self.logical_type.clone(),
            nullable: self.nullable,
        }
    }
}

fn logical_fields_from(fields: &Vec<Field>) -> (r: Vec<LogicalField>)
    ensures
        logical_fields_view(r@) == logical_fields_of(fields_view(fields@)),
    decreases fields,
{
    let mut out: Vec<LogicalField> = Vec::new();
    let mut i: usize = 0;
    while i < fields.len()
        invariant
            i <= fields.len(),
            out.len() == i,
            forall|j: int|
                0 <= j < i ==> logical_field_view(out@[j]) == logical_field_of(
                    field_view(fields@[j]),
                ),
        decreases fields.len() - i,
    {
        out.push(LogicalField::from_field(&fields[i]));
        i += 1;
    }
    assert(logical_fields_view(out@) =~= logical_fields_of(fields_view(fields@)));
    out
}

fn logical_union_fields_from(fields: &Vec<UnionField>) -> (r: Vec<LogicalUnionField>)
    ensures
        logical_union_fields_view(r@) == logical_union_fields_of(union_fields_view(fields@)),
    decreases fields,
{
    let mut out: Vec<LogicalUnionField> = Vec::new();
    let mut i: usize = 0;
    while i < fields.len()
        invariant
            i <= fields.len(),
            out.len() == i,
            forall|j: int|
                0 <= j < i ==> out@[j].type_id == fields@[j].type_id && logical_field_view(
                    out@[j].field,
                ) == logical_field_of(field_view(fields@[j].field)),
        decreases fields.len() - i,
    {
        out.push(
            LogicalUnionField {
                type_id: fields[i].type_id,
                field: LogicalField::from_field(&fields[i].field),
            },
        );
        i += 1;
    }
    assert(logical_union_fields_view(out@) =~= logical_union_fields_of(
        union_fields_view(fields@),
    ));
    out
}

fn logical_fields_equal(a: &Vec<LogicalField>, b: &Vec<LogicalField>) -> (r: bool)
    ensures
        r == (logical_fields_view(a@) == logical_fields_view(b@)),
    decreases a,
{
    if a.len() != b.len() {
        assert(logical_fields_view(a@).len() != logical_fields_view(b@).len());
        return false;
    }
    let mut i: usize = 0;
    while i < a.len()
        invariant
            i <= a.len(),
            a.len() == b.len(),
            forall|j: int| 0 <= j < i ==> logical_field_view(a@[j]) == logical_field_view(b@[j]),
        decreases a.len() - i,
    {
        if !a[i].equals(&b[i]) {
            assert(logical_fields_view(a@)[i as int] != logical_fields_view(b@)[i as int]);
            return false;
        }
        i += 1;
    }
    assert(logical_fields_view(a@) =~= logical_fields_view(b@));
    true
}

fn logical_union_fields_equal(a: &Vec<LogicalUnionField>, b: &Vec<LogicalUnionField>) -> (r: bool)
    ensures
        r == (logical_union_fields_view(a@) == logical_union_fields_view(b@)),
    decreases a,
{
    if a.len() != b.len() {
        assert(logical_union_fields_view(a@).len() != logical_union_fields_view(b@).len());
        return false;
    }
    let mut i: usize = 0;
    while i < a.len()
        invariant
            i <= a.len(),
            a.len() == b.len(),
            forall|j: int|
                0 <= j < i ==> a@[j].type_id == b@[j].type_id && logical_field_view(a@[j].field)
                    == logical_field_view(b@[j].field),
        decreases a.len() - i,
    {
        if a[i].type_id != b[i].type_id || !a[i].field.equals(&b[i].field) {
            assert(logical_union_fields_view(a@)[i as int] != logical_union_fields_view(
                b@,
            )[i as int]);
            return false;
        }
        i += 1;
    }
    assert(logical_union_fields_view(a@) =~= logical_union_fields_view(b@));
    true
}

fn signatures_equal(a: &Vec<TypeSignature>, b: &Vec<TypeSignature>) -> (r: bool)
    ensures
        r == (signatures_view(a@) == signatures_view(b@)),
    decreases a,
{
    if a.len() != b.len() {
        assert(signatures_view(a@).len() != signatures_view(b@).len());
        return false;
    }
    let mut i: usize = 0;
    while i < a.len()
        invariant
            i <= a.len(),
            a.len() == b.len(),
            forall|j: int| 0 <= j < i ==> signature_view(a@[j]) == signature_view(b@[j]),
        decreases a.len() - i,
    {
        if !a[i].equals(&b[i]) {
            assert(signatures_view(a@)[i as int] != signatures_view(b@)[i as int]);
            return false;
        }
        i += 1;
    }
    assert(signatures_view(a@) =~= signatures_view(b@));
    true
}

fn logical_fields_clone(a: &Vec<LogicalField>) -> (r: Vec<LogicalField>)
    ensures
        logical_fields_view(r@) == logical_fields_view(a@),
    decreases a,
{
    let mut out: Vec<LogicalField> = Vec::new();
    let mut i: usize = 0;
    while i < a.len()
        invariant
            i <= a.len(),
            out.len() == i,
            forall|j: int| 0 <= j < i ==> logical_field_view(out@[j]) == logical_field_view(a@[j]),
        decreases a.len() - i,
    {
        out.push(a[i].clone());
        i += 1;
    }
    assert(logical_fields_view(out@) =~= logical_fields_view(a@));
    out
}

fn logical_union_fields_clone(a: &Vec<LogicalUnionField>) -> (r: Vec<LogicalUnionField>)
    ensures
        logical_union_fields_view(r@) == logical_union_fields_view(a@),
    decreases a,
{
    let mut out: Vec<LogicalUnionField> = Vec::new();
    let mut i: usize = 0;
    while i < a.len()
        invariant
            i <= a.len(),
            out.len() == i,
            forall|j: int|
                0 <= j < i ==> out@[j].type_id == a@[j].type_id && logical_field_view(
                    out@[j].field,
                ) == logical_field_view(a@[j].field),
        decreases a.len() - i,
    {
        out.push(LogicalUnionField { type_id: a[i].type_id, field: a[i].field.clone() });
        i += 1;
    }
    assert(logical_union_fields_view(out@) =~= logical_union_fields_view(a@));
    out
}

fn signatures_clone(a: &Vec<TypeSignature>) -> (r: Vec<TypeSignature>)
    ensures
        signatures_view(r@) == signatures_view(a@),
    decreases a,
{
    let mut out: Vec<TypeSignature> = Vec::new();
    let mut i: usize = 0;
    while i < a.len()
        invariant
            i <= a.len(),
            out.len() == i,
            forall|j: int| 0 <= j < i ==> signature_view(out@[j]) == signature_view(a@[j]),
        decreases a.len() - i,
    {
        out.push(a[i].clone());
        i += 1;
    }
    assert(signatures_view(out@) =~= signatures_view(a@));
    out
}

impl TypeSignature {
    /// Whether two signatures name the same logical type.
    pub fn equals(&self, other: &TypeSignature) -> (r: bool)
        ensures
            r == (self@ == other@),
        decreases self,
    {
        match (self, other) {
            (TypeSignature::Native(a), TypeSignature::Native(b)) => a.equals(b),
            (
                TypeSignature::Extension { name: n1, parameters: pa },
                TypeSignature::Extension { name: n2, parameters: pb },
            ) => *n1 == *n2 && signatures_equal(pa, pb),
            _ => false,
        }
    }
}

impl Clone for TypeSignature {
    fn clone(&self) -> (r: TypeSignature)
        ensures
            r@ == self@,
        decreases self,
    {
        match self {
            TypeSignature::Native(n) => TypeSignature::Native(n.clone()),
            TypeSignature::Extension { name, parameters } => TypeSignature::Extension {
                name: name.clone(),
                parameters: signatures_clone(parameters),
            },
        }
    }
}

impl NativeType {
    /// The native type of a storage type.
    pub fn from_data_type(dt: &DataType) -> (r: NativeType)
        ensures
            r@ == native_of(dt@),
        decreases dt,
    {
        match dt {
            DataType::Null => NativeType::Null,
            DataType::Boolean => NativeType::Boolean,
            DataType::Int8 => NativeType::Int8,
            DataType::Int16 => NativeType::Int16,
            DataType::Int32 => NativeType::Int32,
            DataType::Int64 => NativeType::Int64,
            DataType::UInt8 => NativeType::UInt8,
            DataType::UInt16 => NativeType::UInt16,
            DataType::UInt32 => NativeType::UInt32,
            DataType::UInt64 => NativeType::UInt64,
            DataType::Float16 => NativeType::Float16,
            DataType::Float32 => NativeType::Float32,
            DataType::Float64 => NativeType::Float64,
            DataType::Timestamp(unit, tz) => NativeType::Timestamp(*unit, opt_string_clone(tz)),
            DataType::Date32 => NativeType::Date,
            DataType::Date64 => NativeType::Timestamp(TimeUnit::Millisecond, None),
            DataType::Time32(unit) => NativeType::Time(*unit),
            DataType::Time64(unit) => NativeType::Time(*unit),
            DataType::Duration(unit) => NativeType::Duration(*unit),
            DataType::Interval(unit) => NativeType::Interval(*unit),
            DataType::Binary => NativeType::Binary,
            DataType::FixedSizeBinary(n) => NativeType::FixedSizeBinary(*n),
            DataType::LargeBinary => NativeType::Binary,
            DataType::BinaryView => NativeType::Binary,
            DataType::Utf8 => NativeType::String,
            DataType::LargeUtf8 => NativeType::String,
            DataType::Utf8View => NativeType::String,
            DataType::List(f) => NativeType::List(Box::new(LogicalField::from_field(f))),
            DataType::ListView(f) => NativeType::List(Box::new(LogicalField::from_field(f))),
            DataType::FixedSizeList(f, n) => NativeType::FixedSizeList(
                Box::new(LogicalField::from_field(f)),
                *n,
            ),
            DataType::LargeList(f) => NativeType::List(Box::new(LogicalField::from_field(f))),
            DataType::LargeListView(f) => NativeType::List(Box::new(LogicalField::from_field(f))),
            DataType::Struct(fields) => NativeType::Struct(logical_fields_from(fields)),
            DataType::Union(fields, _) => NativeType::Union(logical_union_fields_from(fields)),
            DataType::Dictionary(_, v) => NativeType::from_data_type(v),
            DataType::Decimal32(p, s) => NativeType::Decimal(*p, *s),
            DataType::Decimal64(p, s) => NativeType::Decimal(*p, *s),
            DataType::Decimal128(p, s) => NativeType::Decimal(*p, *s),
            DataType::Decimal256(p, s) => NativeType::Decimal(*p, *s),
            DataType::Mapping(f, _) => NativeType::Mapping(Box::new(LogicalField::from_field(f))),
            DataType::RunEndEncoded(_, v) => {
                assert(field_view(**v).data_type == v.data_type@);
                NativeType::from_data_type(&v.data_type)
            },
        }
    }

    /// Whether two native types are the same, nested fields included.
    pub fn equals(&self, other: &NativeType) -> (r: bool)
        ensures
            r == (self@ == other@),
        decreases self,
    {
        match (self, other) {
            (NativeType::Null, NativeType::Null) => true,
            (NativeType::Boolean, NativeType::Boolean) => true,
            (NativeType::Int8, NativeType::Int8) => true,
            (NativeType::Int16, NativeType::Int16) => true,
            (NativeType::Int32, NativeType::Int32) => true,
            (NativeType::Int64, NativeType::Int64) => true,
            (NativeType::UInt8, NativeType::UInt8) => true,
            (NativeType::UInt16, NativeType::UInt16) => true,
            (NativeType::UInt32, NativeType::UInt32) => true,
            (NativeType::UInt64, NativeType::UInt64) => true,
            (NativeType::Float16, NativeType::Float16) => true,
            (NativeType::Float32, NativeType::Float32) => true,
            (NativeType::Float64, NativeType::Float64) => true,
            (NativeType::Timestamp(u1, tz1), NativeType::Timestamp(u2, tz2)) => *u1 == *u2
                && opt_string_equals(tz1, tz2),
            (NativeType::Date, NativeType::Date) => true,
            (NativeType::Time(u1), NativeType::Time(u2)) => *u1 == *u2,
            (NativeType::Duration(u1), NativeType::Duration(u2)) => *u1 == *u2,
            (NativeType::Interval(u1), NativeType::Interval(u2)) => *u1 == *u2,
            (NativeType::Binary, NativeType::Binary) => true,
            (NativeType::FixedSizeBinary(n1), NativeType::FixedSizeBinary(n2)) => *n1 == *n2,
            (NativeType::String, NativeType::String) => true,
            (NativeType::List(f1), NativeType::List(f2)) => f1.equals(f2),
            (NativeType::FixedSizeList(f1, n1), NativeType::FixedSizeList(f2, n2)) => *n1 == *n2
                && f1.equals(f2),
            (NativeType::Struct(a), NativeType::Struct(b)) => logical_fields_equal(a, b),
            (NativeType::Union(a), NativeType::Union(b)) => logical_union_fields_equal(a, b),
            (NativeType::Decimal(pa, s1), NativeType::Decimal(pb, s2)) => *pa == *pb && *s1
                == *s2,
            (NativeType::Mapping(f1), NativeType::Mapping(f2)) => f1.equals(f2),
            _ => false,
        }
    }
}

impl Clone for NativeType {
    fn clone(&self) -> (r: NativeType)
        ensures
            r@ == self@,
        decreases self,
    {
        match self {
            NativeType::Null => NativeType::Null,
            NativeType::Boolean => NativeType::Boolean,
            NativeType::Int8 => NativeType::Int8,
            NativeType::Int16 => NativeType::Int16,
            NativeType::Int32 => NativeType::Int32,
            NativeType::Int64 => NativeType::Int64,
            NativeType::UInt8 => NativeType::UInt8,
            NativeType::UInt16 => NativeType::UInt16,
            NativeType::UInt32 => NativeType::UInt32,
            NativeType::UInt64 => NativeType::UInt64,
            NativeType::Float16 => NativeType::Float16,
            NativeType::Float32 => NativeType::Float32,
            NativeType::Float64 => NativeType::Float64,
            NativeType::Timestamp(unit, tz) => NativeType::Timestamp(*unit, opt_string_clone(tz)),
            NativeType::Date => NativeType::Date,
            NativeType::Time(unit) => NativeType::Time(*unit),
            NativeType::Duration(unit) => NativeType::Duration(*unit),
            NativeType::Interval(unit) => NativeType::Interval(*unit),
            NativeType::Binary => NativeType::Binary,
            NativeType::FixedSizeBinary(n) => NativeType::FixedSizeBinary(*n),
            NativeType::String => NativeType::String,
            NativeType::List(f) => NativeType::List(Box::new((**f).clone())),
            NativeType::FixedSizeList(f, n) => NativeType::FixedSizeList(
                Box::new((**f).clone()),
                *n,
            ),
            NativeType::Struct(fields) => NativeType::Struct(logical_fields_clone(fields)),
            NativeType::Union(fields) => NativeType::Union(logical_union_fields_clone(fields)),
            NativeType::Decimal(p, s) => NativeType::Decimal(*p, *s),
            NativeType::Mapping(f) => NativeType::Mapping(Box::new((**f).clone())),
        }
    }
}

impl LogicalType for NativeType {
    open spec fn signature_spec(&self) -> SpecTypeSignature {
        SpecTypeSignature::Native(Box::new(self@))
    }

    open spec fn native_spec(&self) -> SpecNativeType {
        self@
    }

    fn native(&self) -> (r: &NativeType) {
        self
    }

    fn signature(&self) -> (r: TypeSignature) {
        TypeSignature::Native(self.clone())
    }

    fn default_cast_for(&self, origin: &DataType) -> (r: Result<DataType, TypeError>) {
        no_default_cast()
    }

    fn planning_information(&self) -> (r: LogicalTypePlanningInformation) {
        default_planning_information()
    }

    fn pretty_printer(&self) -> (r: PrettyPrinterRef) {
        default_pretty_printer()
    }
}

/// Another handle to the value that `a` points to.
///
/// Wraps `Arc::clone`, which the standard library documents as making
/// another pointer to the same allocation: the value pointed to is the same.
#[verifier::external_body]
fn share<T>(a: &Arc<T>) -> (r: Arc<T>)
    ensures
        r == *a,
{
    Arc::clone(a)
}

impl View for LogicalField {
    type V = SpecLogicalField;

    open spec fn view(&self) -> SpecLogicalField {
        logical_field_view(*self)
    }
}

impl LogicalTypeRef {
    /// The signature of the type that this handle refers to.
    pub closed spec fn signature_spec(&self) -> SpecTypeSignature {
        self.object.signature_spec()
    }

    /// The native type of the type that this handle refers to.
    pub closed spec fn native_spec(&self) -> SpecNativeType {
        self.object.native_spec()
    }

    /// What `default_cast_for` gives for the storage type `origin`.
    pub closed spec fn cast_spec(&self, origin: SpecDataType) -> Result<SpecDataType, SpecError> {
        self.object.cast_spec(origin)
    }

    /// Whether the values of the type sort in an order of the type's own.
    pub closed spec fn has_custom_ordering(&self) -> bool {
        self.object.has_custom_ordering()
    }

    /// The identifier of the type's own order, where it has one.
    pub closed spec fn custom_ordering_id(&self) -> Seq<char> {
        self.object.custom_ordering_id()
    }

    /// The key by which the type's own order places a value.
    pub closed spec fn custom_key(&self, value: ScalarValue) -> Option<SortKey> {
        self.object.custom_key(value)
    }

    /// The text that the type's printer gives for a value, or the error that
    /// it ends in.
    pub closed spec fn printed(&self, value: ScalarValue) -> Result<Seq<char>, SpecError> {
        self.object.printed(value)
    }

    /// Whether a handle refers to a type that behaves as `logical_type`
    /// does: the same signature and native type, the same casts, the same
    /// order and the same printed text.
    pub open spec fn stands_for<T: LogicalType + ?Sized>(&self, logical_type: &T) -> bool {
        &&& self.signature_spec() == logical_type.signature_spec()
        &&& self.native_spec() == logical_type.native_spec()
        &&& self.has_custom_ordering() == logical_type.has_custom_ordering()
        &&& self.custom_ordering_id() == logical_type.custom_ordering_id()
        &&& forall|origin: SpecDataType| #[trigger]
            self.cast_spec(origin) == logical_type.cast_spec(origin)
        &&& forall|value: ScalarValue| #[trigger]
            self.custom_key(value) == logical_type.custom_key(value)
        &&& forall|value: ScalarValue| #[trigger]
            self.printed(value) == logical_type.printed(value)
    }

    /// Whether the type has no casts, no order and no printer of its own:
    /// a cast fails with `Unimplemented`, its values sort in the natural
    /// order of their storage type and are shown in their standard text.
    pub open spec fn has_default_capabilities(&self) -> bool {
        &&& !self.has_custom_ordering()
        &&& forall|origin: SpecDataType| #[trigger]
            self.cast_spec(origin) == Err::<SpecDataType, SpecError>(
                failure(ErrorKind::Unimplemented, "default cast"),
            )
        &&& forall|value: ScalarValue| #[trigger] self.printed(value) == default_text(value)
    }

    /// Publishes a logical type for shared use.
    pub fn new(logical_type: Box<dyn LogicalType>) -> (r: LogicalTypeRef)
        ensures
            r.signature_spec() == logical_type.signature_spec(),
            r.native_spec() == logical_type.native_spec(),
            r.stands_for(&*logical_type),
    {
        let object = Arc::new(logical_type);
        LogicalTypeRef { object }
    }

    /// The storage type into which values of the storage type `origin` are
    /// cast where the type is asked for.
    pub fn default_cast_for(&self, origin: &DataType) -> (r: Result<DataType, TypeError>)
        ensures
            match r {
                Ok(t) => self.cast_spec(origin@) == Ok::<SpecDataType, SpecError>(t@),
                Err(e) => self.cast_spec(origin@) == Err::<SpecDataType, SpecError>(e@),
            },
    {
        self.object.default_cast_for(origin)
    }

    /// What the planner needs to know of the type: the order in which its
    /// values sort.
    pub fn planning_information(&self) -> (r: LogicalTypePlanningInformation)
        ensures
            r.ordering is Custom <==> self.has_custom_ordering(),
            r.ordering.ordering_id_spec() == self.custom_ordering_id(),
            forall|value: ScalarValue| #[trigger] r.ordering.key_of(value) == self.custom_key(value),
    {
        self.object.planning_information()
    }

    /// The printer for values of the type.
    pub fn pretty_printer(&self) -> (r: PrettyPrinterRef)
        ensures
            forall|value: ScalarValue| #[trigger] r.printed(value) == self.printed(value),
    {
        self.object.pretty_printer()
    }

    /// The native type of the type that this handle refers to.
    pub fn native(&self) -> (r: &NativeType)
        ensures
            r@ == self.native_spec(),
    {
        self.object.native()
    }

    /// The signature of the type that this handle refers to.
    pub fn signature(&self) -> (r: TypeSignature)
        ensures
            r@ == self.signature_spec(),
    {
        self.object.signature()
    }

    /// A handle to a native type.
    pub fn from_native(native: NativeType) -> (r: LogicalTypeRef)
        ensures
            r.signature_spec() == SpecTypeSignature::Native(Box::new(native@)),
            r.native_spec() == native@,
            r.stands_for(&native),
            r.has_default_capabilities(),
    {
        LogicalTypeRef::new(Box::new(native))
    }

    /// Whether two handles refer to the same logical type: whether their
    /// signatures are equal.
    pub fn equals(&self, other: &LogicalTypeRef) -> (r: bool)
        ensures
            r == (self.signature_spec() == other.signature_spec()),
    {
        self.signature().equals(&other.signature())
    }
}

impl Clone for LogicalTypeRef {
    fn clone(&self) -> (r: LogicalTypeRef)
        ensures
            r == *self,
    {
        LogicalTypeRef { object: share(&self.object) }
    }
}

impl View for TypeSignature {
    type V = SpecTypeSignature;

    open spec fn view(&self) -> SpecTypeSignature {
        signature_view(*self)
    }
}

impl View for NativeType {
    type V = SpecNativeType;

    open spec fn view(&self) -> SpecNativeType {
        native_type_view(*self)
    }
}

} // verus!

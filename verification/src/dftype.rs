//! A storage type paired with a logical type, and a physical scalar paired
//! with both.

use crate::canonical::UnknownExtensionType;
use crate::datatype::{DataType, SpecDataType};
use crate::error::{ErrorKind, TypeError, failure};
use crate::native::{
    LogicalTypeRef, NativeType, SpecNativeType, SpecTypeSignature, native_of,
};
use crate::ordering::{Comparison, int_or_float_key, key_comparison};
use crate::scalar::{ScalarValue, data_type_of};
use crate::scalar_order::{compare_scalars, lemma_int_or_float_natural_order, scalar_comparison};
use vstd::hash_map::StringHashMap;
use vstd::prelude::*;

verus! {

/// The metadata of a schema field: a mapping from strings to strings.
pub type Metadata = StringHashMap<String>;

/// The key under which the metadata of a field names its extension type.
///
/// Returns the constant `arrow_schema::extension::EXTENSION_TYPE_NAME_KEY`,
/// which is the text `ARROW:extension:name`.
#[verifier::external_body]
fn extension_type_name_key() -> (r: &'static str)
    ensures
        r@ == "ARROW:extension:name"@,
{
    arrow_schema::extension::EXTENSION_TYPE_NAME_KEY
}

/// The name of the extension type that the metadata of a field names, where
/// it names one.
pub open spec fn named_extension(metadata: Map<Seq<char>, String>) -> Option<Seq<char>> {
    if metadata.contains_key("ARROW:extension:name"@) {
        Some(metadata["ARROW:extension:name"@]@)
    } else {
        None
    }
}

/// A storage type with the logical type of the values stored in it.
pub struct DFType {
    /// The underlying storage type.
    storage_type: DataType,
    /// The logical type.
    logical_type: LogicalTypeRef,
}

impl DFType {
    #[verifier::type_invariant]
    spec fn well_formed(self) -> bool {
        native_of(self.storage_type@) == self.logical_type.native_spec()
    }

    /// The storage type.
    pub closed spec fn storage_spec(&self) -> SpecDataType {
        self.storage_type@
    }

    /// The signature of the logical type.
    pub closed spec fn signature_spec(&self) -> SpecTypeSignature {
        self.logical_type.signature_spec()
    }

    /// The native type of the logical type.
    pub closed spec fn native_spec(&self) -> SpecNativeType {
        self.logical_type.native_spec()
    }

    /// The logical type.
    pub closed spec fn logical_spec(&self) -> LogicalTypeRef {
        self.logical_type
    }

    /// Whether two types have the same storage type and the same logical
    /// type.
    pub open spec fn same_as(&self, other: &DFType) -> bool {
        self.storage_spec() == other.storage_spec() && self.signature_spec()
            == other.signature_spec()
    }

    /// Tries to create a new [`DFType`]. Fails with `TypeMismatch` where the
    /// native type of `storage_type` is not the native type of
    /// `logical_type`.
    pub fn try_new(storage_type: DataType, logical_type: LogicalTypeRef) -> (r: Result<
        Self,
        TypeError,
    >)
        ensures
            r is Ok <==> native_of(storage_type@) == logical_type.native_spec(),
            r matches Ok(t) ==> t.storage_spec() == storage_type@ && t.logical_spec()
                == logical_type && t.signature_spec() == logical_type.signature_spec()
                && t.native_spec() == logical_type.native_spec(),
            r matches Err(e) ==> e@ == failure(ErrorKind::TypeMismatch, "storage type"),
    {
        if !NativeType::from_data_type(&storage_type).equals(logical_type.native()) {
            return Err(TypeError::new(ErrorKind::TypeMismatch, "storage type"));
        }
        Ok(Self { storage_type, logical_type })
    }

    /// Creates a new [`DFType`] without a registry: where the metadata names
    /// an extension type, the logical type is the unknown extension type of
    /// that name over the native type of the storage type; else it is that
    /// native type.
    pub fn new_with_fallback(storage_type: &DataType, metadata: &Metadata) -> (r: Self)
        ensures
            r.storage_spec() == storage_type@,
            r.native_spec() == native_of(storage_type@),
            r.signature_spec() == match named_extension(metadata@) {
                Some(name) => SpecTypeSignature::Extension { name, parameters: Seq::empty() },
                None => SpecTypeSignature::Native(Box::new(native_of(storage_type@))),
            },
            r.logical_spec().signature_spec() == r.signature_spec(),
            r.logical_spec().native_spec() == r.native_spec(),
            r.logical_spec().has_default_capabilities(),
    {
        match metadata.get(extension_type_name_key()) {
            Some(extension_type_name) => Self {
                storage_type: storage_type.clone(),
                logical_type: LogicalTypeRef::new(
                    Box::new(
                        UnknownExtensionType::new(
                            extension_type_name.clone(),
                            NativeType::from_data_type(storage_type),
                        ),
                    ),
                ),
            },
            None => Self {
                storage_type: storage_type.clone(),
                logical_type: LogicalTypeRef::from_native(NativeType::from_data_type(storage_type)),
            },
        }
    }

    /// Creates a new [`DFType`] from the given `storage_type` with its native
    /// type as logical type.
    pub fn new_from_storage_type(storage_type: DataType) -> (r: Self)
        ensures
            r.storage_spec() == storage_type@,
            r.native_spec() == native_of(storage_type@),
            r.signature_spec() == SpecTypeSignature::Native(Box::new(native_of(storage_type@))),
            r.logical_spec().signature_spec() == r.signature_spec(),
            r.logical_spec().native_spec() == r.native_spec(),
            r.logical_spec().has_default_capabilities(),
    {
        Self {
            logical_type: LogicalTypeRef::from_native(NativeType::from_data_type(&storage_type)),
            storage_type,
        }
    }

    /// The storage type.
    pub fn storage_type(&self) -> (r: &DataType)
        ensures
            r@ == self.storage_spec(),
    {
        &self.storage_type
    }

    /// The logical type.
    pub fn logical_type(&self) -> (r: &LogicalTypeRef)
        ensures
            *r == self.logical_spec(),
            r.signature_spec() == self.signature_spec(),
            r.native_spec() == self.native_spec(),
            r.native_spec() == native_of(self.storage_spec()),
    {
        proof {
            use_type_invariant(self);
        }
        &self.logical_type
    }

    /// Whether two types have the same storage type and the same logical
    /// type.
    pub fn equals(&self, other: &DFType) -> (r: bool)
        ensures
            r == self.same_as(other),
    {
        self.storage_type.equals(&other.storage_type) && self.logical_type.equals(
            &other.logical_type,
        )
    }
}

impl PartialEq for DFType {
    /// Whether two types have the same storage type and the same logical
    /// type.
    fn eq(&self, other: &Self) -> (r: bool) {
        self.equals(other)
    }
}

impl vstd::std_specs::cmp::PartialEqSpecImpl for DFType {
    open spec fn obeys_eq_spec() -> bool {
        true
    }

    open spec fn eq_spec(&self, other: &Self) -> bool {
        self.same_as(other)
    }
}

impl Clone for DFType {
    fn clone(&self) -> (r: Self)
        ensures
            r.same_as(self),
            r.storage_spec() == self.storage_spec(),
            r.logical_spec() == self.logical_spec(),
            r.native_spec() == self.native_spec(),
    {
        proof {
            use_type_invariant(self);
        }
        Self { storage_type: self.storage_type.clone(), logical_type: self.logical_type.clone() }
    }
}

/// A [`DFType`] with the nullability of the values.
pub struct NullableDFType {
    /// The inner [`DFType`].
    pub inner: DFType,
    /// Whether or not the value is nullable.
    pub nullable: bool,
}

/// A physical scalar with its type.
pub struct DFTypedScalarValue {
    value: ScalarValue,
    df_type: DFType,
}

impl DFTypedScalarValue {
    #[verifier::type_invariant]
    spec fn well_formed(self) -> bool {
        data_type_of(self.value) == self.df_type.storage_spec()
    }

    /// The scalar.
    pub closed spec fn value_spec(&self) -> ScalarValue {
        self.value
    }

    /// The type.
    pub closed spec fn type_spec(&self) -> DFType {
        self.df_type
    }

    /// Creates a new [`DFTypedScalarValue`]. Fails with `TypeMismatch` where
    /// the storage type of `value` is not the storage type of `df_type`.
    pub fn try_new(value: ScalarValue, df_type: DFType) -> (r: Result<Self, TypeError>)
        ensures
            r is Ok <==> data_type_of(value) == df_type.storage_spec(),
            r matches Ok(t) ==> t.value_spec() == value && t.type_spec() == df_type,
            r matches Err(e) ==> e@ == failure(ErrorKind::TypeMismatch, "scalar value"),
    {
        if !value.data_type().equals(df_type.storage_type()) {
            return Err(TypeError::new(ErrorKind::TypeMismatch, "scalar value"));
        }
        Ok(Self { value, df_type })
    }

    /// The scalar.
    pub fn value(&self) -> (r: &ScalarValue)
        ensures
            *r == self.value_spec(),
            data_type_of(*r) == self.type_spec().storage_spec(),
    {
        proof {
            use_type_invariant(self);
        }
        &self.value
    }

    /// The type.
    pub fn df_type(&self) -> (r: &DFType)
        ensures
            *r == self.type_spec(),
    {
        &self.df_type
    }

    /// How this value stands to another: nothing where their types differ,
    /// for values of different types cannot be compared, and are not equal;
    /// else as their scalars stand in the natural order of the storage
    /// type, nested values element by element and union values by tag
    /// first. Two integer-or-float union values of one type therefore stand
    /// as their keys stand in the type's own ascending order.
    pub fn partial_cmp(&self, other: &Self) -> (r: Option<Comparison>)
        ensures
            !self.type_spec().same_as(&other.type_spec()) ==> r is None,
            self.type_spec().same_as(&other.type_spec()) ==> r == scalar_comparison(
                self.value_spec(),
                other.value_spec(),
            ),
            self.type_spec().same_as(&other.type_spec()) ==> data_type_of(self.value_spec())
                == data_type_of(other.value_spec()),
            self.type_spec().same_as(&other.type_spec()) && self.value_spec()
                == other.value_spec() ==> r == Some(Comparison::Equal),
            self.type_spec().same_as(&other.type_spec()) && int_or_float_key(self.value_spec())
                is Some && int_or_float_key(other.value_spec()) is Some ==> r == Some(
                key_comparison(
                    int_or_float_key(self.value_spec())->Some_0,
                    int_or_float_key(other.value_spec())->Some_0,
                ),
            ),
    {
        proof {
            use_type_invariant(self);
            use_type_invariant(other);
            crate::scalar_order::lemma_scalar_comparison_reflexive(self.value);
            if self.df_type.same_as(&other.df_type) && int_or_float_key(self.value) is Some
                && int_or_float_key(other.value) is Some {
                lemma_int_or_float_natural_order(
                    self.value,
                    other.value,
                    int_or_float_key(self.value)->Some_0,
                    int_or_float_key(other.value)->Some_0,
                );
            }
        }
        if !self.df_type.equals(&other.df_type) {
            return None;
        }
        compare_scalars(&self.value, &other.value)
    }
}

impl DFTypedScalarValue {
    /// Whether two typed scalars are equal: whether they have the same type
    /// and their scalars stand as equal in the natural order of that type,
    /// which they do where they hold the same value.
    pub open spec fn same_as(&self, other: &DFTypedScalarValue) -> bool {
        self.type_spec().same_as(&other.type_spec()) && scalar_comparison(
            self.value_spec(),
            other.value_spec(),
        ) == Some(Comparison::Equal)
    }

    /// Whether two typed scalars are equal.
    pub fn equals(&self, other: &DFTypedScalarValue) -> (r: bool)
        ensures
            r == self.same_as(other),
    {
        match self.partial_cmp(other) {
            Some(Comparison::Equal) => true,
            _ => false,
        }
    }
}

impl PartialEq for DFTypedScalarValue {
    /// Whether two typed scalars are equal.
    fn eq(&self, other: &Self) -> (r: bool) {
        self.equals(other)
    }
}

impl vstd::std_specs::cmp::PartialEqSpecImpl for DFTypedScalarValue {
    open spec fn obeys_eq_spec() -> bool {
        true
    }

    open spec fn eq_spec(&self, other: &Self) -> bool {
        self.same_as(other)
    }
}

/// Every typed scalar is equal to itself, and stands as equal to itself in
/// the order of typed scalars.
pub proof fn lemma_typed_scalar_equals_itself(value: DFTypedScalarValue)
    ensures
        value.same_as(&value),
{
    crate::scalar_order::lemma_scalar_comparison_reflexive(value.value_spec());
}

} // verus!

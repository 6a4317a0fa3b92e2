//! The canonical extension types.

use crate::datatype::DataType;
use crate::error::{SpecError, TypeError};
use crate::extensions::{UuidPrettyPrinter, ValuePrettyPrinter, uuid_printed};
use crate::native::{
    LogicalType, NativeType, PrettyPrinterRef, SpecNativeType, SpecTypeSignature, TypeSignature,
    default_planning_information, default_pretty_printer, no_default_cast,
};
use crate::ordering::LogicalTypePlanningInformation;
use crate::scalar::ScalarValue;
use vstd::prelude::*;

verus! {

/// The canonical UUID extension type: 16 bytes of fixed-size binary, under
/// the name `arrow.uuid`.
pub struct UuidType;

impl UuidType {
    /// Creates a new [`UuidType`].
    pub fn new() -> (r: Self)
        ensures
            r == (UuidType {  }),
            r.signature_spec() == (SpecTypeSignature::Extension {
                name: "arrow.uuid"@,
                parameters: Seq::empty(),
            }),
            r.native_spec() == SpecNativeType::FixedSizeBinary(16),
    {
        UuidType {  }
    }
}

impl Default for UuidType {
    fn default() -> (r: Self)
        ensures
            r == (UuidType {  }),
    {
        Self::new()
    }
}

impl LogicalType for UuidType {
    open spec fn signature_spec(&self) -> SpecTypeSignature {
        SpecTypeSignature::Extension { name: "arrow.uuid"@, parameters: Seq::empty() }
    }

    open spec fn native_spec(&self) -> SpecNativeType {
        SpecNativeType::FixedSizeBinary(16)
    }

    fn native(&self) -> (r: &NativeType) {
        &NativeType::FixedSizeBinary(16)
    }

    fn signature(&self) -> (r: TypeSignature) {
        let parameters: Vec<TypeSignature> = Vec::new();
        assert(crate::native::signatures_view(parameters@) =~= Seq::empty());
        TypeSignature::Extension { name: "arrow.uuid".to_owned(), parameters }
    }

    open spec fn printed(&self, value: ScalarValue) -> Result<Seq<char>, SpecError> {
        uuid_printed(value)
    }

    fn default_cast_for(&self, origin: &DataType) -> (r: Result<DataType, TypeError>) {
        no_default_cast()
    }

    fn planning_information(&self) -> (r: LogicalTypePlanningInformation) {
        default_planning_information()
    }

    fn pretty_printer(&self) -> (r: PrettyPrinterRef) {
        let r = PrettyPrinterRef::new(Box::new(UuidPrettyPrinter));
        assert forall|value: ScalarValue| #[trigger] r.printed(value) == uuid_printed(value) by {
            assert(UuidPrettyPrinter.printed(value) == uuid_printed(value));
        }
        r
    }
}

/// An extension type that the engine does not know: its name and the native
/// type of its storage, to reason about storage where the meaning is
/// unknown.
pub struct UnknownExtensionType {
    /// The underlying native type.
    native_type: NativeType,
    /// The name of the extension type.
    name: String,
}

impl UnknownExtensionType {
    /// Creates a new [`UnknownExtensionType`].
    pub fn new(name: String, native_type: NativeType) -> (r: Self)
        ensures
            r.signature_spec() == (SpecTypeSignature::Extension {
                name: name@,
                parameters: Seq::empty(),
            }),
            r.native_spec() == native_type@,
    {
        Self { name, native_type }
    }
}

impl LogicalType for UnknownExtensionType {
    closed spec fn signature_spec(&self) -> SpecTypeSignature {
        SpecTypeSignature::Extension { name: self.name@, parameters: Seq::empty() }
    }

    closed spec fn native_spec(&self) -> SpecNativeType {
        self.native_type@
    }

    fn native(&self) -> (r: &NativeType) {
        &self.native_type
    }

    fn signature(&self) -> (r: TypeSignature) {
        let parameters: Vec<TypeSignature> = Vec::new();
        assert(crate::native::signatures_view(parameters@) =~= Seq::empty());
        TypeSignature::Extension { name: self.name.clone(), parameters }
    }

    fn default_cast_for(&self, origin: &DataType) -> (r: Result<DataType, TypeError>) {
        no_default_cast()
    }

    fn planning_information(&self) -> (r: LogicalTypePlanningInformation) {
        default_planning_information()
    }

    fn pretty_printer(&self) -> (r: PrettyPrinterRef) {
        default_pretty_printer()
    }
}

} // verus!

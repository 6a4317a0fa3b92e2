//! A logical type with an order of its own: a value that is either a
//! 64-bit integer or a 64-bit float.

use crate::datatype::DataType;
use crate::error::TypeError;
use crate::native::{
    LogicalField, LogicalType, LogicalUnionField, NativeType, PrettyPrinterRef, SpecLogicalField,
    SpecLogicalUnionField, SpecNativeType, SpecTypeSignature, TypeSignature,
    default_pretty_printer, logical_union_fields_view, no_default_cast, signatures_view,
};
use crate::ordering::{
    CustomOrdering, IntOrFloatOrdering, LogicalTypePlanningInformation, SortKey, SortOrdering,
    int_or_float_key,
};
use crate::scalar::ScalarValue;
use std::sync::Arc;
use vstd::prelude::*;

verus! {

/// The native type of an integer-or-float value: a union of `integer`, a
/// 64-bit integer under the tag 0, and `float`, a 64-bit float under the
/// tag 1.
pub open spec fn int_or_float_native() -> SpecNativeType {
    SpecNativeType::Union(
        seq![
            SpecLogicalUnionField {
                type_id: 0,
                field: SpecLogicalField {
                    name: "integer"@,
                    logical_type: SpecTypeSignature::Native(Box::new(SpecNativeType::Int64)),
                    nullable: false,
                },
            },
            SpecLogicalUnionField {
                type_id: 1,
                field: SpecLogicalField {
                    name: "float"@,
                    logical_type: SpecTypeSignature::Native(Box::new(SpecNativeType::Float64)),
                    nullable: false,
                },
            },
        ],
    )
}

/// A type that is either an integer or a float. Its values sort with all
/// integers before all floats.
pub struct IntOrFloatType {
    native_type: NativeType,
}

impl IntOrFloatType {
    #[verifier::type_invariant]
    spec fn well_formed(self) -> bool {
        self.native_type@ == int_or_float_native()
    }

    /// The name of the extension type.
    pub fn name() -> (r: &'static str)
        ensures
            r@ == "int_or_float"@,
    {
        "int_or_float"
    }

    /// Creates the type.
    pub fn new() -> (r: IntOrFloatType)
        ensures
            r.native_spec() == int_or_float_native(),
    {
        let mut fields: Vec<LogicalUnionField> = Vec::new();
        fields.push(
            LogicalUnionField {
                type_id: 0,
                field: LogicalField::new(
                    "integer".to_owned(),
                    TypeSignature::Native(NativeType::Int64),
                    false,
                ),
            },
        );
        fields.push(
            LogicalUnionField {
                type_id: 1,
                field: LogicalField::new(
                    "float".to_owned(),
                    TypeSignature::Native(NativeType::Float64),
                    false,
                ),
            },
        );
        assert(logical_union_fields_view(fields@) =~= int_or_float_native()->Union_0);
        IntOrFloatType { native_type: NativeType::Union(fields) }
    }
}

impl LogicalType for IntOrFloatType {
    open spec fn signature_spec(&self) -> SpecTypeSignature {
        SpecTypeSignature::Extension { name: "int_or_float"@, parameters: Seq::empty() }
    }

    closed spec fn native_spec(&self) -> SpecNativeType {
        self.native_type@
    }

    fn native(&self) -> (r: &NativeType)
        ensures
            r@ == int_or_float_native(),
    {
        proof {
            use_type_invariant(self);
        }
        &self.native_type
    }

    fn signature(&self) -> (r: TypeSignature) {
        let parameters: Vec<TypeSignature> = Vec::new();
        assert(signatures_view(parameters@) =~= Seq::empty());
        TypeSignature::Extension { name: IntOrFloatType::name().to_owned(), parameters }
    }

    open spec fn has_custom_ordering(&self) -> bool {
        true
    }

    open spec fn custom_ordering_id(&self) -> Seq<char> {
        "order_int_or_float"@
    }

    open spec fn custom_key(&self, value: ScalarValue) -> Option<SortKey> {
        int_or_float_key(value)
    }

    fn default_cast_for(&self, origin: &DataType) -> (r: Result<DataType, TypeError>) {
        no_default_cast()
    }

    fn planning_information(&self) -> (r: LogicalTypePlanningInformation) {
        let r = LogicalTypePlanningInformation {
            ordering: SortOrdering::Custom(Arc::new(Box::new(IntOrFloatOrdering))),
        };
        proof {
            assert(IntOrFloatOrdering.ordering_id_spec() == "order_int_or_float"@);
            assert forall|value: ScalarValue| #[trigger]
                r.ordering.key_of(value) == int_or_float_key(value) by {
                assert(IntOrFloatOrdering.key_of(value) == int_or_float_key(value));
            }
        }
        r
    }

    fn pretty_printer(&self) -> (r: PrettyPrinterRef) {
        default_pretty_printer()
    }
}

} // verus!

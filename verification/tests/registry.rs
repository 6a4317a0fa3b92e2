use logical_types::canonical::{UnknownExtensionType, UuidType};
use logical_types::error::ErrorKind;
use logical_types::datatype::DataType;
use logical_types::error::TypeError;
use logical_types::int_or_float::IntOrFloatType;
use logical_types::native::{
    default_planning_information, default_pretty_printer, no_default_cast, LogicalType,
    LogicalTypeRef, NativeType, PrettyPrinterRef, TypeSignature,
};
use logical_types::ordering::{LogicalTypePlanningInformation, SortOrdering};
use logical_types::scalar::ScalarValue;
use logical_types::registry::{LogicalTypeRegistry, MemoryLogicalTypeRegistry};

fn uuid() -> LogicalTypeRef {
    LogicalTypeRef::new(Box::new(UuidType::new()))
}

fn unknown(name: &str, native: NativeType) -> LogicalTypeRef {
    LogicalTypeRef::new(Box::new(UnknownExtensionType::new(name.to_string(), native)))
}

#[test]
fn registering_a_native_type_is_invalid() {
    let mut registry = MemoryLogicalTypeRegistry::new();
    let err = registry.register(LogicalTypeRef::from_native(NativeType::Int32)).err().unwrap();
    assert_eq!(err.kind, ErrorKind::InvalidRegistration);
    assert_eq!(registry.len(), 0);
    let err = registry
        .register_logical_type(LogicalTypeRef::new(Box::new(NativeType::String)))
        .err()
        .unwrap();
    assert_eq!(err.kind, ErrorKind::InvalidRegistration);
}

#[test]
fn registering_twice_returns_the_previous_type() {
    let mut registry = MemoryLogicalTypeRegistry::new();
    let first = registry.register(unknown("geo.point", NativeType::Binary)).ok().unwrap();
    assert!(first.is_none());
    let second = registry.register(unknown("geo.point", NativeType::String)).ok().unwrap();
    assert_eq!(second.unwrap().native(), &NativeType::Binary);
    assert_eq!(registry.get("geo.point").ok().unwrap().native(), &NativeType::String);
    assert_eq!(registry.len(), 1);
}

#[test]
fn get_after_deregister_is_not_found() {
    let mut registry = MemoryLogicalTypeRegistry::new();
    registry.register(uuid()).ok().unwrap();
    assert_eq!(
        registry.get("arrow.uuid").ok().unwrap().signature(),
        TypeSignature::Extension { name: "arrow.uuid".to_string(), parameters: vec![] }
    );
    let removed = registry.deregister("arrow.uuid");
    assert_eq!(removed.unwrap().native(), &NativeType::FixedSizeBinary(16));
    let err = registry.get("arrow.uuid").err().unwrap();
    assert_eq!(err.kind, ErrorKind::NotFound);
    assert_eq!(err.entity, "arrow.uuid");
    assert!(registry.deregister("arrow.uuid").is_none());
}

#[test]
fn lookup_of_an_unknown_name_is_not_found() {
    let registry = MemoryLogicalTypeRegistry::default();
    let err = registry.get_logical_type("nothing").err().unwrap();
    assert_eq!(err.kind, ErrorKind::NotFound);
    assert_eq!(err.entity, "nothing");
}

#[test]
fn all_types_is_a_snapshot_of_the_registrations() {
    let mut registry = MemoryLogicalTypeRegistry::new();
    registry.register(uuid()).ok().unwrap();
    registry.register(unknown("a", NativeType::Int8)).ok().unwrap();
    registry.register(unknown("b", NativeType::Int16)).ok().unwrap();
    registry.deregister("a");
    let mut names: Vec<String> = registry
        .all_types()
        .iter()
        .map(|t| match t.signature() {
            TypeSignature::Extension { name, .. } => name,
            TypeSignature::Native(_) => panic!("a native type was registered"),
        })
        .collect();
    names.sort();
    assert_eq!(names, vec!["arrow.uuid".to_string(), "b".to_string()]);
}

#[test]
fn new_with_types_registers_in_turn() {
    let registry = MemoryLogicalTypeRegistry::new_with_types(vec![
        unknown("a", NativeType::Int8),
        uuid(),
        unknown("a", NativeType::Int64),
    ])
    .ok()
    .unwrap();
    assert_eq!(registry.len(), 2);
    assert_eq!(registry.get("a").ok().unwrap().native(), &NativeType::Int64);
    let err = MemoryLogicalTypeRegistry::new_with_types(vec![
        uuid(),
        LogicalTypeRef::from_native(NativeType::Boolean),
    ])
    .err()
    .unwrap();
    assert_eq!(err.kind, ErrorKind::InvalidRegistration);
}

#[test]
fn registry_trait_methods_agree_with_the_store() {
    let mut registry = MemoryLogicalTypeRegistry::new();
    assert!(registry.register_logical_type(uuid()).ok().unwrap().is_none());
    assert!(registry.get_logical_type("arrow.uuid").is_ok());
    assert!(registry.deregister_logical_type("arrow.uuid").ok().unwrap().is_some());
    assert!(registry.deregister_logical_type("arrow.uuid").ok().unwrap().is_none());
}

#[test]
fn a_shared_handle_refers_to_the_same_type() {
    let a = unknown("a", NativeType::Date);
    let b = a.clone();
    assert!(a.equals(&b));
    assert!(!a.equals(&uuid()));
    assert_eq!(b.native(), &NativeType::Date);
}

struct Celsius {
    native: NativeType,
}

impl LogicalType for Celsius {
    fn native(&self) -> &NativeType {
        &self.native
    }

    fn signature(&self) -> TypeSignature {
        TypeSignature::Extension { name: "celsius".to_string(), parameters: vec![] }
    }

    fn default_cast_for(&self, origin: &DataType) -> Result<DataType, TypeError> {
        match origin {
            DataType::Int8 => Ok(DataType::Int16),
            _ => no_default_cast(),
        }
    }

    fn planning_information(&self) -> LogicalTypePlanningInformation {
        default_planning_information()
    }

    fn pretty_printer(&self) -> PrettyPrinterRef {
        default_pretty_printer()
    }
}

#[test]
fn a_type_of_the_users_own_can_be_registered() {
    let mut registry = MemoryLogicalTypeRegistry::new();
    let celsius = LogicalTypeRef::new(Box::new(Celsius { native: NativeType::Int16 }));
    assert!(registry.register(celsius).ok().unwrap().is_none());
    let found = registry.get("celsius").ok().unwrap();
    assert_eq!(found.native(), &NativeType::Int16);
    assert_eq!(
        found.signature(),
        TypeSignature::Extension { name: "celsius".to_string(), parameters: vec![] }
    );
}

#[test]
fn from_entries_keeps_the_later_registration() {
    let entry = |name: &str, native: NativeType| logical_types::registry::RegistryEntry {
        name: name.to_string(),
        logical_type: unknown(name, native),
    };
    let registry = MemoryLogicalTypeRegistry::from_entries(vec![
        entry("a", NativeType::Int8),
        entry("b", NativeType::Int16),
        entry("a", NativeType::Int32),
    ]);
    assert_eq!(registry.len(), 2);
    assert_eq!(registry.get("a").ok().unwrap().native(), &NativeType::Int32);
    assert_eq!(registry.get("b").ok().unwrap().native(), &NativeType::Int16);
    assert!(registry.get("c").is_err());
}

#[test]
fn a_registered_type_gives_its_capabilities() {
    let mut registry = MemoryLogicalTypeRegistry::new();
    registry.register(uuid()).ok().unwrap();
    registry.register(LogicalTypeRef::new(Box::new(IntOrFloatType::new()))).ok().unwrap();
    registry
        .register(LogicalTypeRef::new(Box::new(Celsius { native: NativeType::Int16 })))
        .ok()
        .unwrap();

    let found = registry.get("arrow.uuid").ok().unwrap();
    let bytes: Vec<u8> = (0u8..16).collect();
    assert_eq!(
        found
            .pretty_printer()
            .pretty_print_scalar(&ScalarValue::FixedSizeBinary(16, Some(bytes)))
            .unwrap(),
        "00010203-0405-0607-0809-0a0b0c0d0e0f"
    );
    assert!(matches!(found.planning_information().ordering, SortOrdering::Default));
    assert_eq!(
        found.default_cast_for(&DataType::Utf8).unwrap_err().kind,
        ErrorKind::Unimplemented
    );

    let found = registry.get("int_or_float").ok().unwrap();
    match found.planning_information().ordering {
        SortOrdering::Custom(ordering) => assert_eq!(ordering.ordering_id(), "order_int_or_float"),
        SortOrdering::Default => panic!("expected a custom ordering"),
    }
    assert_eq!(
        found.pretty_printer().pretty_print_scalar(&ScalarValue::Int64(Some(3))).unwrap(),
        "3"
    );

    let found = registry.get("celsius").ok().unwrap();
    assert_eq!(found.default_cast_for(&DataType::Int8), Ok(DataType::Int16));
    assert_eq!(
        found.default_cast_for(&DataType::Utf8).unwrap_err().kind,
        ErrorKind::Unimplemented
    );
}

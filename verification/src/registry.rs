//! The registry of extension types: a store from the name of an extension
//! type to the logical type.

use crate::error::{ErrorKind, TypeError, failure};
use crate::native::{LogicalTypeRef, SpecTypeSignature, TypeSignature};
use vstd::prelude::*;

verus! {

/// The name under which a type with this signature is registered: the name
/// of an extension type. A native type has none.
pub open spec fn extension_name(signature: SpecTypeSignature) -> Option<Seq<char>> {
    match signature {
        SpecTypeSignature::Native(_) => None,
        SpecTypeSignature::Extension { name, parameters } => Some(name),
    }
}

/// What a registry holds under `name` before something is put there.
pub open spec fn previous_entry(
    types: Map<Seq<char>, LogicalTypeRef>,
    name: Seq<char>,
) -> Option<LogicalTypeRef> {
    if types.contains_key(name) {
        Some(types[name])
    } else {
        None
    }
}

/// A store of logical types by name.
pub trait LogicalTypeRegistry {
    /// The registered types, by name. A registry that is written without
    /// proofs leaves it open.
    open spec fn registered(&self) -> Map<Seq<char>, LogicalTypeRef> {
        arbitrary()
    }

    /// The logical type registered under `name`.
    fn get_logical_type(&self, name: &str) -> (r: Result<LogicalTypeRef, TypeError>)
        ensures
            r matches Ok(t) ==> self.registered().contains_key(name@) && self.registered()[name@]
                == t,
    ;

    /// Registers a logical type under the name of its signature and returns
    /// the type that was registered under that name before. A registry that
    /// refuses stays as it was.
    fn register_logical_type(&mut self, logical_type: LogicalTypeRef) -> (r: Result<
        Option<LogicalTypeRef>,
        TypeError,
    >)
        ensures
            r matches Ok(previous) ==> (extension_name(logical_type.signature_spec()) matches Some(
                name,
            ) && final(self).registered() == old(self).registered().insert(name, logical_type)
                && previous == previous_entry(old(self).registered(), name)),
            r is Err ==> final(self).registered() == old(self).registered(),
    ;

    /// Removes the logical type registered under `name` and returns it. A
    /// registry that refuses stays as it was.
    fn deregister_logical_type(&mut self, name: &str) -> (r: Result<
        Option<LogicalTypeRef>,
        TypeError,
    >)
        ensures
            r matches Ok(previous) ==> final(self).registered() == old(self).registered().remove(
                name@,
            ) && previous == previous_entry(old(self).registered(), name@),
            r is Err ==> final(self).registered() == old(self).registered(),
    ;
}

/// Whether a type is registered under some name.
pub open spec fn is_registered(types: Map<Seq<char>, LogicalTypeRef>, t: LogicalTypeRef) -> bool {
    exists|name: Seq<char>| #[trigger] types.contains_key(name) && types[name] == t
}

/// One registration.
pub struct RegistryEntry {
    pub name: String,
    pub logical_type: LogicalTypeRef,
}

/// The store that a sequence of registrations with distinct names stands
/// for.
pub open spec fn entries_map(entries: Seq<RegistryEntry>) -> Map<Seq<char>, LogicalTypeRef>
    decreases entries.len(),
{
    if entries.len() == 0 {
        Map::empty()
    } else {
        entries_map(entries.drop_last()).insert(entries.last().name@, entries.last().logical_type)
    }
}

/// Whether no name occurs twice.
pub open spec fn distinct_names(entries: Seq<RegistryEntry>) -> bool {
    forall|i: int, j: int|
        0 <= i < entries.len() && 0 <= j < entries.len() && i != j ==> (#[trigger] entries[i]).name@
            != (#[trigger] entries[j]).name@
}

/// The store after registering the given types in turn; a later type takes
/// the place of an earlier one of the same name.
pub open spec fn registered_all(types: Seq<LogicalTypeRef>) -> Map<Seq<char>, LogicalTypeRef>
    decreases types.len(),
{
    if types.len() == 0 {
        Map::empty()
    } else {
        match extension_name(types.last().signature_spec()) {
            Some(name) => registered_all(types.drop_last()).insert(name, types.last()),
            None => registered_all(types.drop_last()),
        }
    }
}

proof fn lemma_entries_map_keys(entries: Seq<RegistryEntry>, key: Seq<char>)
    ensures
        entries_map(entries).contains_key(key) <==> exists|i: int|
            0 <= i < entries.len() && (#[trigger] entries[i]).name@ == key,
    decreases entries.len(),
{
    if entries.len() > 0 {
        let rest = entries.drop_last();
        lemma_entries_map_keys(rest, key);
        if entries_map(entries).contains_key(key) {
            if entries.last().name@ == key {
                assert(entries[entries.len() - 1].name@ == key);
            } else {
                let i = choose|i: int| 0 <= i < rest.len() && (#[trigger] rest[i]).name@ == key;
                assert(entries[i].name@ == key);
            }
        }
        if exists|i: int| 0 <= i < entries.len() && (#[trigger] entries[i]).name@ == key {
            let i = choose|i: int| 0 <= i < entries.len() && (#[trigger] entries[i]).name@ == key;
            if i < entries.len() - 1 {
                assert(rest[i].name@ == key);
            }
        }
    }
}

proof fn lemma_entries_map_value(entries: Seq<RegistryEntry>, i: int)
    requires
        distinct_names(entries),
        0 <= i < entries.len(),
    ensures
        entries_map(entries).contains_key(entries[i].name@),
        entries_map(entries)[entries[i].name@] == entries[i].logical_type,
    decreases entries.len(),
{
    let rest = entries.drop_last();
    if i < entries.len() - 1 {
        assert(distinct_names(rest)) by {
            assert forall|a: int, b: int|
                0 <= a < rest.len() && 0 <= b < rest.len() && a != b implies (
            #[trigger] rest[a]).name@ != (#[trigger] rest[b]).name@ by {
                assert(entries[a].name@ != entries[b].name@);
            }
        }
        lemma_entries_map_value(rest, i);
        assert(rest[i] == entries[i]);
        assert(entries[i].name@ != entries[entries.len() - 1].name@);
    }
}

proof fn lemma_entries_map_finite(entries: Seq<RegistryEntry>)
    requires
        distinct_names(entries),
    ensures
        entries_map(entries).dom().finite(),
        entries_map(entries).dom().len() == entries.len(),
    decreases entries.len(),
{
    if entries.len() > 0 {
        let rest = entries.drop_last();
        assert(distinct_names(rest)) by {
            assert forall|a: int, b: int|
                0 <= a < rest.len() && 0 <= b < rest.len() && a != b implies (
            #[trigger] rest[a]).name@ != (#[trigger] rest[b]).name@ by {
                assert(entries[a].name@ != entries[b].name@);
            }
        }
        lemma_entries_map_finite(rest);
        lemma_entries_map_keys(rest, entries.last().name@);
        if rest.len() > 0 && entries_map(rest).contains_key(entries.last().name@) {
            let i = choose|i: int|
                0 <= i < rest.len() && (#[trigger] rest[i]).name@ == entries.last().name@;
            assert(entries[i].name@ == entries[entries.len() - 1].name@);
        }
        assert(entries_map(entries).dom() =~= entries_map(rest).dom().insert(
            entries.last().name@,
        ));
    }
}

/// A registry of extension types in memory.
pub struct MemoryLogicalTypeRegistry {
    entries: Vec<RegistryEntry>,
}

impl MemoryLogicalTypeRegistry {
    #[verifier::type_invariant]
    spec fn well_formed(self) -> bool {
        distinct_names(self.entries@)
    }

    /// The registered types, by name.
    pub closed spec fn types(&self) -> Map<Seq<char>, LogicalTypeRef> {
        entries_map(self.entries@)
    }

    /// Creates an empty registry.
    pub fn new() -> (r: Self)
        ensures
            r.types() == Map::<Seq<char>, LogicalTypeRef>::empty(),
    {
        MemoryLogicalTypeRegistry { entries: Vec::new() }
    }

    /// Where `name` is registered.
    fn position(&self, name: &str) -> (r: Option<usize>)
        ensures
            match r {
                Some(i) => i < self.entries@.len() && self.entries@[i as int].name@ == name@,
                None => forall|j: int|
                    0 <= j < self.entries@.len() ==> (#[trigger] self.entries@[j]).name@ != name@,
            },
    {
        let wanted = name.to_owned();
        let mut i: usize = 0;
        while i < self.entries.len()
            invariant
                i <= self.entries.len(),
                wanted@ == name@,
                forall|j: int| 0 <= j < i ==> (#[trigger] self.entries@[j]).name@ != name@,
            decreases self.entries.len() - i,
        {
            if self.entries[i].name == wanted {
                return Some(i);
            }
            i += 1;
        }
        None
    }

    /// The number of registered types.
    pub fn len(&self) -> (r: usize)
        ensures
            self.types().dom().finite(),
            r == self.types().dom().len(),
    {
        proof {
            use_type_invariant(self);
            lemma_entries_map_finite(self.entries@);
        }
        self.entries.len()
    }

    /// Returns the logical type registered under `name`, or fails with
    /// `NotFound`, naming `name`.
    pub fn get(&self, name: &str) -> (r: Result<LogicalTypeRef, TypeError>)
        ensures
            r is Ok <==> self.types().contains_key(name@),
            r matches Ok(t) ==> t == self.types()[name@],
            r matches Err(e) ==> e.kind == ErrorKind::NotFound && e.entity@ == name@,
    {
        proof {
            use_type_invariant(self);
            lemma_entries_map_keys(self.entries@, name@);
        }
        match self.position(name) {
            Some(i) => {
                proof {
                    lemma_entries_map_value(self.entries@, i as int);
                }
                Ok(self.entries[i].logical_type.clone())
            },
            None => Err(TypeError::new(ErrorKind::NotFound, name)),
        }
    }

    /// Registers a logical type under the name of its extension signature
    /// and returns the type that was registered under that name before.
    /// Fails with `InvalidRegistration`, and changes nothing, where the
    /// type has a native signature.
    pub fn register(&mut self, logical_type: LogicalTypeRef) -> (r: Result<
        Option<LogicalTypeRef>,
        TypeError,
    >)
        ensures
            match extension_name(logical_type.signature_spec()) {
                Some(name) => r == Ok::<Option<LogicalTypeRef>, TypeError>(
                    previous_entry(old(self).types(), name),
                ) && final(self).types() == old(self).types().insert(name, logical_type),
                None => (r matches Err(e) && e@ == failure(
                    ErrorKind::InvalidRegistration,
                    "native type",
                )) && final(self).types() == old(self).types(),
            },
    {
        match logical_type.signature() {
            TypeSignature::Native(_) => Err(
                TypeError::new(ErrorKind::InvalidRegistration, "native type"),
            ),
            TypeSignature::Extension { name, parameters } => Ok(self.put(name, logical_type)),
        }
    }

    /// Puts a logical type under a name and returns the type that was there
    /// before.
    fn put(&mut self, name: String, logical_type: LogicalTypeRef) -> (r: Option<
        LogicalTypeRef,
    >)
        ensures
            r == previous_entry(old(self).types(), name@),
            final(self).types() == old(self).types().insert(name@, logical_type),
    {
        proof {
            use_type_invariant(&*self);
        }
        let ghost before = self.entries@;
        proof {
            lemma_entries_map_keys(before, name@);
        }
        match self.position(name.as_str()) {
            Some(i) => {
                proof {
                    lemma_entries_map_value(before, i as int);
                }
                let previous = self.entries[i].logical_type.clone();
                let mut entries: Vec<RegistryEntry> = Vec::new();
                std::mem::swap(&mut self.entries, &mut entries);
                entries.set(i, RegistryEntry { name, logical_type });
                proof {
                    let after = entries@;
                    assert(distinct_names(after)) by {
                        assert forall|a: int, b: int|
                            0 <= a < after.len() && 0 <= b < after.len() && a != b implies (
                        #[trigger] after[a]).name@ != (#[trigger] after[b]).name@ by {
                            assert(before[a].name@ != before[b].name@);
                        }
                    }
                    assert forall|key: Seq<char>|
                        entries_map(after).contains_key(key) <==> entries_map(before).insert(
                            name@,
                            logical_type,
                        ).contains_key(key) by {
                        lemma_entries_map_keys(after, key);
                        lemma_entries_map_keys(before, key);
                        if exists|j: int| 0 <= j < after.len() && (#[trigger] after[j]).name@ == key {
                            let j = choose|j: int|
                                0 <= j < after.len() && (#[trigger] after[j]).name@ == key;
                            assert(before[j].name@ == key);
                        }
                        if exists|j: int|
                            0 <= j < before.len() && (#[trigger] before[j]).name@ == key {
                            let j = choose|j: int|
                                0 <= j < before.len() && (#[trigger] before[j]).name@ == key;
                            assert(after[j].name@ == key);
                        }
                        if key == name@ {
                            assert(after[i as int].name@ == key);
                        }
                    }
                    assert forall|key: Seq<char>|
                        entries_map(after).contains_key(key) implies entries_map(after)[key]
                        == entries_map(before).insert(name@, logical_type)[key] by {
                        lemma_entries_map_keys(after, key);
                        let j = choose|j: int|
                            0 <= j < after.len() && (#[trigger] after[j]).name@ == key;
                        lemma_entries_map_value(after, j);
                        if j != i {
                            assert(before[j].name@ == key);
                            lemma_entries_map_value(before, j);
                        }
                    }
                    assert(entries_map(after) =~= entries_map(before).insert(name@, logical_type));
                }
                self.entries = entries;
                Some(previous)
            },
            None => {
                let mut entries: Vec<RegistryEntry> = Vec::new();
                std::mem::swap(&mut self.entries, &mut entries);
                entries.push(RegistryEntry { name, logical_type });
                proof {
                    let after = entries@;
                    assert(after.drop_last() =~= before);
                    assert(distinct_names(after));
                }
                self.entries = entries;
                None
            },
        }
    }

    /// Removes the logical type registered under `name` and returns it, or
    /// nothing where there was none.
    pub fn deregister(&mut self, name: &str) -> (r: Option<LogicalTypeRef>)
        ensures
            r == previous_entry(old(self).types(), name@),
            final(self).types() == old(self).types().remove(name@),
    {
        proof {
            use_type_invariant(&*self);
        }
        let ghost before = self.entries@;
        proof {
            lemma_entries_map_keys(before, name@);
        }
        match self.position(name) {
            Some(i) => {
                proof {
                    lemma_entries_map_value(before, i as int);
                }
                let mut entries: Vec<RegistryEntry> = Vec::new();
                std::mem::swap(&mut self.entries, &mut entries);
                let removed = entries.remove(i);
                proof {
                    let after = entries@;
                    assert(distinct_names(after)) by {
                        assert forall|a: int, b: int|
                            0 <= a < after.len() && 0 <= b < after.len() && a != b implies (
                        #[trigger] after[a]).name@ != (#[trigger] after[b]).name@ by {
                            let a2 = if a < i { a } else { a + 1 };
                            let b2 = if b < i { b } else { b + 1 };
                            assert(before[a2].name@ != before[b2].name@);
                        }
                    }
                    assert forall|key: Seq<char>|
                        entries_map(after).contains_key(key) <==> entries_map(before).remove(
                            name@,
                        ).contains_key(key) by {
                        lemma_entries_map_keys(after, key);
                        lemma_entries_map_keys(before, key);
                        if exists|j: int| 0 <= j < after.len() && (#[trigger] after[j]).name@ == key {
                            let j = choose|j: int|
                                0 <= j < after.len() && (#[trigger] after[j]).name@ == key;
                            let j2 = if j < i { j } else { j + 1 };
                            assert(before[j2].name@ == key);
                            assert(before[j2].name@ != before[i as int].name@);
                        }
                        if key != name@ && exists|j: int|
                            0 <= j < before.len() && (#[trigger] before[j]).name@ == key {
                            let j = choose|j: int|
                                0 <= j < before.len() && (#[trigger] before[j]).name@ == key;
                            let j2 = if j < i { j } else { j - 1 };
                            assert(after[j2].name@ == key);
                        }
                    }
                    assert forall|key: Seq<char>|
                        entries_map(after).contains_key(key) implies entries_map(after)[key]
                        == entries_map(before).remove(name@)[key] by {
                        lemma_entries_map_keys(after, key);
                        let j = choose|j: int|
                            0 <= j < after.len() && (#[trigger] after[j]).name@ == key;
                        lemma_entries_map_value(after, j);
                        let j2 = if j < i { j } else { j + 1 };
                        assert(before[j2] == after[j]);
                        lemma_entries_map_value(before, j2);
                    }
                    assert(entries_map(after) =~= entries_map(before).remove(name@));
                }
                self.entries = entries;
                Some(removed.logical_type)
            },
            None => {
                proof {
                    assert(entries_map(before) =~= entries_map(before).remove(name@));
                }
                None
            },
        }
    }

    /// Returns all registered types, in no particular order.
    pub fn all_types(&self) -> (r: Vec<LogicalTypeRef>)
        ensures
            self.types().dom().finite(),
            r@.len() == self.types().dom().len(),
            forall|i: int| 0 <= i < r@.len() ==> is_registered(self.types(), #[trigger] r@[i]),
            forall|name: Seq<char>| #[trigger]
                self.types().contains_key(name) ==> r@.contains(self.types()[name]),
    {
        proof {
            use_type_invariant(self);
            lemma_entries_map_finite(self.entries@);
        }
        let mut out: Vec<LogicalTypeRef> = Vec::new();
        let mut i: usize = 0;
        while i < self.entries.len()
            invariant
                i <= self.entries.len(),
                out@.len() == i,
                forall|j: int| 0 <= j < i ==> #[trigger] out@[j] == self.entries@[j].logical_type,
            decreases self.entries.len() - i,
        {
            out.push(self.entries[i].logical_type.clone());
            i += 1;
        }
        proof {
            assert forall|i: int| 0 <= i < out@.len() implies is_registered(
                self.types(),
                #[trigger] out@[i],
            ) by {
                lemma_entries_map_value(self.entries@, i);
                assert(self.types().contains_key(self.entries@[i].name@));
            }
            assert forall|name: Seq<char>| #[trigger]
                self.types().contains_key(name) implies out@.contains(self.types()[name]) by {
                lemma_entries_map_keys(self.entries@, name);
                let j = choose|j: int|
                    0 <= j < self.entries@.len() && (#[trigger] self.entries@[j]).name@ == name;
                lemma_entries_map_value(self.entries@, j);
                assert(out@[j] == self.types()[name]);
            }
        }
        out
    }
}

impl MemoryLogicalTypeRegistry {
    /// Creates a registry with the provided `types`, registered in turn.
    /// Fails with `InvalidRegistration` where one of them has a native
    /// signature.
    pub fn new_with_types(types: Vec<LogicalTypeRef>) -> (r: Result<Self, TypeError>)
        ensures
            r is Ok <==> forall|i: int|
                0 <= i < types@.len() ==> extension_name(
                    (#[trigger] types@[i]).signature_spec(),
                ) is Some,
            r matches Ok(registry) ==> registry.types() == registered_all(types@),
            r matches Err(e) ==> e@ == failure(ErrorKind::InvalidRegistration, "native type"),
    {
        let mut registry = MemoryLogicalTypeRegistry::new();
        let mut i: usize = 0;
        assert(types@.subrange(0, 0) =~= Seq::empty());
        while i < types.len()
            invariant
                i <= types.len(),
                registry.types() == registered_all(types@.subrange(0, i as int)),
                forall|j: int|
                    0 <= j < i ==> extension_name((#[trigger] types@[j]).signature_spec()) is Some,
            decreases types.len() - i,
        {
            let ghost next = types@.subrange(0, i + 1);
            assert(next.drop_last() =~= types@.subrange(0, i as int));
            assert(next.last() == types@[i as int]);
            match registry.register(types[i].clone()) {
                Ok(_) => {},
                Err(e) => {
                    return Err(e);
                },
            }
            i += 1;
        }
        assert(types@.subrange(0, types@.len() as int) =~= types@);
        Ok(registry)
    }
}

impl MemoryLogicalTypeRegistry {
    /// Creates a registry from registrations by name; of two registrations
    /// under one name the later one stays.
    pub fn from_entries(entries: Vec<RegistryEntry>) -> (r: Self)
        ensures
            r.types() == entries_map(entries@),
    {
        let mut registry = MemoryLogicalTypeRegistry::new();
        let mut i: usize = 0;
        assert(entries@.subrange(0, 0) =~= Seq::empty());
        while i < entries.len()
            invariant
                i <= entries.len(),
                registry.types() == entries_map(entries@.subrange(0, i as int)),
            decreases entries.len() - i,
        {
            let ghost next = entries@.subrange(0, i + 1);
            assert(next.drop_last() =~= entries@.subrange(0, i as int));
            assert(next.last() == entries@[i as int]);
            registry.put(entries[i].name.clone(), entries[i].logical_type.clone());
            i += 1;
        }
        assert(entries@.subrange(0, entries@.len() as int) =~= entries@);
        registry
    }
}

impl Default for MemoryLogicalTypeRegistry {
    fn default() -> (r: Self)
        ensures
            r.types() == Map::<Seq<char>, LogicalTypeRef>::empty(),
    {
        MemoryLogicalTypeRegistry::new()
    }
}

impl LogicalTypeRegistry for MemoryLogicalTypeRegistry {
    open spec fn registered(&self) -> Map<Seq<char>, LogicalTypeRef> {
        self.types()
    }

    fn get_logical_type(&self, name: &str) -> (r: Result<LogicalTypeRef, TypeError>)
        ensures
            r is Ok <==> self.types().contains_key(name@),
            r matches Err(e) ==> e.kind == ErrorKind::NotFound && e.entity@ == name@,
    {
        self.get(name)
    }

    fn register_logical_type(&mut self, logical_type: LogicalTypeRef) -> (r: Result<
        Option<LogicalTypeRef>,
        TypeError,
    >)
        ensures
            r is Ok <==> extension_name(logical_type.signature_spec()) is Some,
            r matches Err(e) ==> e@ == failure(ErrorKind::InvalidRegistration, "native type"),
    {
        self.register(logical_type)
    }

    fn deregister_logical_type(&mut self, name: &str) -> (r: Result<
        Option<LogicalTypeRef>,
        TypeError,
    >)
        ensures
            r is Ok,
    {
        Ok(self.deregister(name))
    }
}

/// Registering twice under one name: the second registration gets the type
/// of the first back, and the store then holds the second type, as if the
/// first had never been registered.
pub proof fn lemma_register_twice(
    types: Map<Seq<char>, LogicalTypeRef>,
    name: Seq<char>,
    first: LogicalTypeRef,
    second: LogicalTypeRef,
)
    ensures
        previous_entry(types.insert(name, first), name) == Some(first),
        types.insert(name, first).insert(name, second) == types.insert(name, second),
{
    assert(types.insert(name, first).insert(name, second) =~= types.insert(name, second));
}

/// After a name has been deregistered nothing is registered under it: a
/// lookup of it fails, and to deregister it again gives nothing back.
pub proof fn lemma_deregistered_is_absent(types: Map<Seq<char>, LogicalTypeRef>, name: Seq<char>)
    ensures
        !types.remove(name).contains_key(name),
        previous_entry(types.remove(name), name) is None,
        types.remove(name).remove(name) == types.remove(name),
{
    assert(types.remove(name).remove(name) =~= types.remove(name));
}

/// A registration can be looked up, and leaves every other name as it was.
pub proof fn lemma_registered_is_present(
    types: Map<Seq<char>, LogicalTypeRef>,
    name: Seq<char>,
    logical_type: LogicalTypeRef,
    other: Seq<char>,
)
    requires
        other != name,
    ensures
        types.insert(name, logical_type).contains_key(name),
        types.insert(name, logical_type)[name] == logical_type,
        previous_entry(types.insert(name, logical_type), other) == previous_entry(types, other),
{
}

} // verus!

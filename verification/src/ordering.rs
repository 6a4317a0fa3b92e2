//! Sort orderings: the default order of a storage type, or a custom order
//! that a logical type supplies as a comparator over the rows of a column.

use crate::error::{ErrorKind, TypeError, failure};
use crate::scalar::ScalarValue;
use std::sync::Arc;
use vstd::prelude::*;

verus! {

/// How two rows stand to each other.
#[derive(Clone, Copy, Debug, PartialEq, Eq, Structural, Hash)]
pub enum Comparison {
    Less,
    Equal,
    Greater,
}

impl Comparison {
    /// The opposite outcome.
    pub open spec fn reversed(self) -> Comparison {
        match self {
            Comparison::Less => Comparison::Greater,
            Comparison::Equal => Comparison::Equal,
            Comparison::Greater => Comparison::Less,
        }
    }

    /// The opposite outcome.
    pub fn reverse(self) -> (r: Comparison)
        ensures
            r == self.reversed(),
    {
        match self {
            Comparison::Less => Comparison::Greater,
            Comparison::Equal => Comparison::Equal,
            Comparison::Greater => Comparison::Less,
        }
    }
}

/// How a sort is to run.
#[derive(Clone, Copy, Debug, PartialEq, Eq, Structural, Hash)]
pub struct SortOptions {
    pub descending: bool,
    pub nulls_first: bool,
}

/// What a row is ordered by: first by `major`, then by `minor`.
#[derive(Clone, Copy, Debug, PartialEq, Eq, Structural, Hash)]
pub struct SortKey {
    pub major: i64,
    pub minor: i64,
}

/// How two integers stand to each other.
pub open spec fn int_comparison(a: int, b: int) -> Comparison {
    if a < b {
        Comparison::Less
    } else if a == b {
        Comparison::Equal
    } else {
        Comparison::Greater
    }
}

/// How two keys stand to each other: by `major`, and by `minor` where the
/// `major` parts are equal.
pub open spec fn key_comparison(a: SortKey, b: SortKey) -> Comparison {
    if a.major != b.major {
        int_comparison(a.major as int, b.major as int)
    } else {
        int_comparison(a.minor as int, b.minor as int)
    }
}

/// How two keys stand to each other in a sort: as `key_comparison` says,
/// and the opposite of that, as a whole, where the sort is descending.
pub open spec fn sort_comparison(a: SortKey, b: SortKey, descending: bool) -> Comparison {
    if descending {
        key_comparison(a, b).reversed()
    } else {
        key_comparison(a, b)
    }
}

/// The place of a 64-bit float in the total order of IEEE 754, by its bit
/// pattern: negative numbers come before positive ones, a negative number
/// with the larger magnitude first, and every pattern has a place of its
/// own, the NaNs and the two zeros too.
pub open spec fn float64_order_key(bits: u64) -> int {
    if bits < 0x8000_0000_0000_0000 {
        bits as int
    } else {
        0x7fff_ffff_ffff_ffff - bits
    }
}

/// The place of a 64-bit float in the total order, as a signed integer.
pub fn float64_key(bits: u64) -> (r: i64)
    ensures
        r == float64_order_key(bits),
{
    if bits < 0x8000_0000_0000_0000 {
        bits as i64
    } else {
        let magnitude: u64 = bits - 0x8000_0000_0000_0000;
        -1 - (magnitude as i64)
    }
}

/// Compares two keys.
pub fn compare_keys(a: &SortKey, b: &SortKey) -> (r: Comparison)
    ensures
        r == key_comparison(*a, *b),
{
    if a.major < b.major {
        Comparison::Less
    } else if a.major > b.major {
        Comparison::Greater
    } else if a.minor < b.minor {
        Comparison::Less
    } else if a.minor > b.minor {
        Comparison::Greater
    } else {
        Comparison::Equal
    }
}

/// A comparator over the rows of one column: a pure function of two row
/// indices. It holds the rows' keys and nothing that changes.
#[derive(Debug, PartialEq, Eq)]
pub struct Comparator {
    keys: Vec<SortKey>,
    descending: bool,
}

impl Comparator {
    /// The keys of the rows, in row order.
    pub closed spec fn keys_spec(&self) -> Seq<SortKey> {
        self.keys@
    }

    /// Whether the order is reversed.
    pub closed spec fn descending_spec(&self) -> bool {
        self.descending
    }

    /// A comparator over rows with these keys.
    pub fn new(keys: Vec<SortKey>, descending: bool) -> (r: Comparator)
        ensures
            r.keys_spec() == keys@,
            r.descending_spec() == descending,
    {
        Comparator { keys, descending }
    }

    /// The number of rows.
    pub fn len(&self) -> (r: usize)
        ensures
            r == self.keys_spec().len(),
    {
        self.keys.len()
    }

    /// How row `lhs` stands to row `rhs`.
    pub fn compare(&self, lhs: usize, rhs: usize) -> (r: Comparison)
        requires
            lhs < self.keys_spec().len(),
            rhs < self.keys_spec().len(),
        ensures
            r == sort_comparison(
                self.keys_spec()[lhs as int],
                self.keys_spec()[rhs as int],
                self.descending_spec(),
            ),
    {
        let result = compare_keys(&self.keys[lhs], &self.keys[rhs]);
        if self.descending {
            result.reverse()
        } else {
            result
        }
    }

    /// How row `lhs` stands to row `rhs`, or nothing where one of them is
    /// not a row of the column.
    pub fn try_compare(&self, lhs: usize, rhs: usize) -> (r: Option<Comparison>)
        ensures
            r is Some <==> lhs < self.keys_spec().len() && rhs < self.keys_spec().len(),
            r matches Some(c) ==> c == sort_comparison(
                self.keys_spec()[lhs as int],
                self.keys_spec()[rhs as int],
                self.descending_spec(),
            ),
    {
        if lhs < self.keys.len() && rhs < self.keys.len() {
            Some(self.compare(lhs, rhs))
        } else {
            None
        }
    }
}

/// An order that a logical type defines for its values.
pub trait CustomOrdering: Send + Sync {
    /// The identifier that `ordering_id` returns. An order that is written
    /// without proofs leaves it open.
    open spec fn ordering_id_spec(&self) -> Seq<char> {
        arbitrary()
    }

    /// The key by which this order places a value, where it has a place. An
    /// order that is written without proofs leaves it open.
    open spec fn key_of(&self, value: ScalarValue) -> Option<SortKey> {
        arbitrary()
    }

    /// A stable identifier of this order.
    fn ordering_id(&self) -> (r: String)
        ensures
            r@ == self.ordering_id_spec(),
    ;

    /// A comparator over the rows of `array`. Fails with `TypeMismatch`
    /// where a row has no place in this order.
    fn dyn_comparator(&self, array: &Vec<ScalarValue>, options: SortOptions) -> (r: Result<
        Comparator,
        TypeError,
    >)
        ensures
            r is Ok <==> forall|i: int|
                0 <= i < array@.len() ==> self.key_of(#[trigger] array@[i]) is Some,
            r matches Ok(c) ==> c.descending_spec() == options.descending && c.keys_spec().len()
                == array@.len() && forall|i: int|
                0 <= i < array@.len() ==> self.key_of(array@[i]) == Some(
                    #[trigger] c.keys_spec()[i],
                ),
            r matches Err(e) ==> e.kind == ErrorKind::TypeMismatch,
    ;
}

/// The order in which the values of a logical type sort.
pub enum SortOrdering {
    /// The natural order of the storage type.
    Default,
    /// An order of the type's own.
    Custom(Arc<Box<dyn CustomOrdering>>),
}

impl SortOrdering {
    /// The identifier of the order: that of a custom order, and no text for
    /// the default order.
    pub open spec fn ordering_id_spec(&self) -> Seq<char> {
        match self {
            SortOrdering::Default => Seq::empty(),
            SortOrdering::Custom(ordering) => ordering.ordering_id_spec(),
        }
    }

    /// The key by which a custom order places a value; the default order
    /// has no keys of its own.
    pub open spec fn key_of(&self, value: ScalarValue) -> Option<SortKey> {
        match self {
            SortOrdering::Default => None,
            SortOrdering::Custom(ordering) => ordering.key_of(value),
        }
    }
}

/// What the planner needs to know of a logical type.
pub struct LogicalTypePlanningInformation {
    pub ordering: SortOrdering,
}

/// The order of a union of 64-bit integers (tag 0) and 64-bit floats
/// (tag 1): all integers before all floats; integers among themselves in
/// their natural order, floats among themselves in the total order of
/// IEEE 754.
#[derive(Clone, Copy, Debug)]
pub struct IntOrFloatOrdering;

/// The key of a value in the order of `IntOrFloatOrdering`.
pub open spec fn int_or_float_key(value: ScalarValue) -> Option<SortKey> {
    match value {
        ScalarValue::Union(Some((type_id, inner)), _, _) => match *inner {
            ScalarValue::Int64(Some(x)) => if type_id == 0 {
                Some(SortKey { major: 0, minor: x })
            } else {
                None
            },
            ScalarValue::Float64(Some(bits)) => if type_id == 1 {
                Some(SortKey { major: 1, minor: float64_order_key(bits) as i64 })
            } else {
                None
            },
            _ => None,
        },
        _ => None,
    }
}

/// The key of a value in the order of `IntOrFloatOrdering`, where it has one.
pub fn int_or_float_sort_key(value: &ScalarValue) -> (r: Option<SortKey>)
    ensures
        r == int_or_float_key(*value),
{
    match value {
        ScalarValue::Union(Some((type_id, inner)), _, _) => match &**inner {
            ScalarValue::Int64(Some(x)) => if *type_id == 0 {
                Some(SortKey { major: 0, minor: *x })
            } else {
                None
            },
            ScalarValue::Float64(Some(bits)) => if *type_id == 1 {
                Some(SortKey { major: 1, minor: float64_key(*bits) })
            } else {
                None
            },
            _ => None,
        },
        _ => None,
    }
}

impl CustomOrdering for IntOrFloatOrdering {
    open spec fn ordering_id_spec(&self) -> Seq<char> {
        "order_int_or_float"@
    }

    open spec fn key_of(&self, value: ScalarValue) -> Option<SortKey> {
        int_or_float_key(value)
    }

    fn ordering_id(&self) -> (r: String) {
        "order_int_or_float".to_owned()
    }

    fn dyn_comparator(&self, array: &Vec<ScalarValue>, options: SortOptions) -> (r: Result<
        Comparator,
        TypeError,
    >)
        ensures
            r matches Err(e) ==> e@ == failure(ErrorKind::TypeMismatch, "int_or_float"),
    {
        let mut keys: Vec<SortKey> = Vec::new();
        let mut i: usize = 0;
        while i < array.len()
            invariant
                i <= array.len(),
                keys@.len() == i,
                forall|j: int|
                    #![trigger array@[j]]
                    #![trigger keys@[j]]
                    0 <= j < i ==> int_or_float_key(array@[j]) == Some(keys@[j]),
            decreases array.len() - i,
        {
            match int_or_float_sort_key(&array[i]) {
                Some(key) => {
                    keys.push(key);
                },
                None => {
                    return Err(TypeError::new(ErrorKind::TypeMismatch, "int_or_float"));
                },
            }
            i += 1;
        }
        Ok(Comparator::new(keys, options.descending))
    }
}

/// The comparison of integers is a total order: turned round, it gives the
/// opposite outcome, and it is transitive.
pub proof fn lemma_key_comparison_total(a: SortKey, b: SortKey, c: SortKey)
    ensures
        key_comparison(a, b) == key_comparison(b, a).reversed(),
        key_comparison(a, b) == Comparison::Equal <==> a == b,
        key_comparison(a, b) == Comparison::Less && key_comparison(b, c) == Comparison::Less
            ==> key_comparison(a, c) == Comparison::Less,
        key_comparison(a, b) == Comparison::Equal ==> key_comparison(a, c) == key_comparison(b, c),
{
}

/// A descending sort reverses the outcome as a whole: rows still group by
/// their `major` part, and the whole sequence runs the other way.
pub proof fn lemma_descending_reverses(a: SortKey, b: SortKey)
    ensures
        sort_comparison(a, b, true) == sort_comparison(a, b, false).reversed(),
        sort_comparison(a, b, true) == sort_comparison(b, a, false),
{
}

/// In the order of `IntOrFloatOrdering` every integer comes before every
/// float, whatever their values.
pub proof fn lemma_integers_before_floats(x: SortKey, y: SortKey)
    requires
        x.major == 0,
        y.major == 1,
    ensures
        sort_comparison(x, y, false) == Comparison::Less,
        sort_comparison(x, y, true) == Comparison::Greater,
{
}

/// The keys of floats are distinct for distinct bit patterns, so that the
/// order never calls two different floats equal.
pub proof fn lemma_float64_key_injective(a: u64, b: u64)
    ensures
        float64_order_key(a) == float64_order_key(b) <==> a == b,
        -0x8000_0000_0000_0000 <= float64_order_key(a) <= 0x7fff_ffff_ffff_ffff,
{
}

} // verus!

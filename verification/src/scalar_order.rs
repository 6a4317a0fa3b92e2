//! The natural order of physical scalars of one storage type.

use crate::decimal::{compare_signed_le, le_signed};
use crate::ordering::{
    Comparison, SortKey, float64_key, float64_order_key, int_comparison, int_or_float_key,
    key_comparison,
};
use crate::scalar::{MapEntry, ScalarValue, data_type_of};
use vstd::prelude::*;
use vstd::string::StrSliceExecFns;
use vstd::utf8::encode_utf8;

verus! {

/// What a scalar is ordered by.
#[derive(Debug, PartialEq, Eq)]
pub enum OrderKey {
    /// A missing value; it comes before every value.
    Missing,
    /// A number.
    Int(i128),
    /// A string of bytes, ordered byte by byte.
    Bytes(Vec<u8>),
    /// Three numbers, ordered one after the other.
    Triple(i64, i64, i64),
    /// A 256-bit number in little-endian two's complement.
    Wide([u8; 32]),
}

/// The mathematical value of an [`OrderKey`].
pub enum SpecOrderKey {
    Missing,
    Int(int),
    Bytes(Seq<u8>),
    Triple(int, int, int),
    Wide(int),
}

impl View for OrderKey {
    type V = SpecOrderKey;

    open spec fn view(&self) -> SpecOrderKey {
        match *self {
            OrderKey::Missing => SpecOrderKey::Missing,
            OrderKey::Int(x) => SpecOrderKey::Int(x as int),
            OrderKey::Bytes(b) => SpecOrderKey::Bytes(b@),
            OrderKey::Triple(a, b, c) => SpecOrderKey::Triple(a as int, b as int, c as int),
            OrderKey::Wide(b) => SpecOrderKey::Wide(le_signed(b@)),
        }
    }
}

/// The place of a 32-bit float in the total order of IEEE 754, by its bit
/// pattern.
pub open spec fn float32_order_key(bits: u32) -> int {
    if bits < 0x8000_0000 {
        bits as int
    } else {
        0x7fff_ffff - bits
    }
}

/// The place of a 16-bit float in the total order of IEEE 754, by its bit
/// pattern.
pub open spec fn float16_order_key(bits: u16) -> int {
    if bits < 0x8000 {
        bits as int
    } else {
        0x7fff - bits
    }
}

/// The key by which a scalar that holds no other scalar is ordered among
/// the scalars of its storage type: a number by its value, a boolean with
/// `false` first, a float by its place in the total order, a string by its
/// bytes in UTF-8, a binary value by its bytes, an interval by its parts. A
/// value that holds other scalars (a list, a struct, a map, a union, a
/// dictionary value) has no key of its own: it is ordered by what it holds.
pub open spec fn order_key_of(v: ScalarValue) -> Option<SpecOrderKey> {
    match v {
        ScalarValue::Null => Some(SpecOrderKey::Missing),
        ScalarValue::Boolean(None) => Some(SpecOrderKey::Missing),
        ScalarValue::Boolean(Some(x)) => Some(
            SpecOrderKey::Int(
                if x {
                    1
                } else {
                    0
                },
            ),
        ),
        ScalarValue::Float16(None) => Some(SpecOrderKey::Missing),
        ScalarValue::Float16(Some(x)) => Some(SpecOrderKey::Int(float16_order_key(x))),
        ScalarValue::Float32(None) => Some(SpecOrderKey::Missing),
        ScalarValue::Float32(Some(x)) => Some(SpecOrderKey::Int(float32_order_key(x))),
        ScalarValue::Float64(None) => Some(SpecOrderKey::Missing),
        ScalarValue::Float64(Some(x)) => Some(SpecOrderKey::Int(float64_order_key(x))),
        ScalarValue::Decimal128(None, _, _) => Some(SpecOrderKey::Missing),
        ScalarValue::Decimal128(Some(x), _, _) => Some(SpecOrderKey::Int(x as int)),
        ScalarValue::Decimal256(None, _, _) => Some(SpecOrderKey::Missing),
        ScalarValue::Decimal256(Some(b), _, _) => Some(SpecOrderKey::Wide(le_signed(b@))),
        ScalarValue::Int8(None) => Some(SpecOrderKey::Missing),
        ScalarValue::Int8(Some(x)) => Some(SpecOrderKey::Int(x as int)),
        ScalarValue::Int16(None) => Some(SpecOrderKey::Missing),
        ScalarValue::Int16(Some(x)) => Some(SpecOrderKey::Int(x as int)),
        ScalarValue::Int32(None) => Some(SpecOrderKey::Missing),
        ScalarValue::Int32(Some(x)) => Some(SpecOrderKey::Int(x as int)),
        ScalarValue::Int64(None) => Some(SpecOrderKey::Missing),
        ScalarValue::Int64(Some(x)) => Some(SpecOrderKey::Int(x as int)),
        ScalarValue::UInt8(None) => Some(SpecOrderKey::Missing),
        ScalarValue::UInt8(Some(x)) => Some(SpecOrderKey::Int(x as int)),
        ScalarValue::UInt16(None) => Some(SpecOrderKey::Missing),
        ScalarValue::UInt16(Some(x)) => Some(SpecOrderKey::Int(x as int)),
        ScalarValue::UInt32(None) => Some(SpecOrderKey::Missing),
        ScalarValue::UInt32(Some(x)) => Some(SpecOrderKey::Int(x as int)),
        ScalarValue::UInt64(None) => Some(SpecOrderKey::Missing),
        ScalarValue::UInt64(Some(x)) => Some(SpecOrderKey::Int(x as int)),
        ScalarValue::Utf8(None) => Some(SpecOrderKey::Missing),
        ScalarValue::Utf8(Some(s)) => Some(SpecOrderKey::Bytes(encode_utf8(s@))),
        ScalarValue::Utf8View(None) => Some(SpecOrderKey::Missing),
        ScalarValue::Utf8View(Some(s)) => Some(SpecOrderKey::Bytes(encode_utf8(s@))),
        ScalarValue::LargeUtf8(None) => Some(SpecOrderKey::Missing),
        ScalarValue::LargeUtf8(Some(s)) => Some(SpecOrderKey::Bytes(encode_utf8(s@))),
        ScalarValue::Binary(None) => Some(SpecOrderKey::Missing),
        ScalarValue::Binary(Some(b)) => Some(SpecOrderKey::Bytes(b@)),
        ScalarValue::BinaryView(None) => Some(SpecOrderKey::Missing),
        ScalarValue::BinaryView(Some(b)) => Some(SpecOrderKey::Bytes(b@)),
        ScalarValue::FixedSizeBinary(_, None) => Some(SpecOrderKey::Missing),
        ScalarValue::FixedSizeBinary(_, Some(b)) => Some(SpecOrderKey::Bytes(b@)),
        ScalarValue::LargeBinary(None) => Some(SpecOrderKey::Missing),
        ScalarValue::LargeBinary(Some(b)) => Some(SpecOrderKey::Bytes(b@)),
        ScalarValue::Date32(None) => Some(SpecOrderKey::Missing),
        ScalarValue::Date32(Some(x)) => Some(SpecOrderKey::Int(x as int)),
        ScalarValue::Date64(None) => Some(SpecOrderKey::Missing),
        ScalarValue::Date64(Some(x)) => Some(SpecOrderKey::Int(x as int)),
        ScalarValue::Time32Second(None) => Some(SpecOrderKey::Missing),
        ScalarValue::Time32Second(Some(x)) => Some(SpecOrderKey::Int(x as int)),
        ScalarValue::Time32Millisecond(None) => Some(SpecOrderKey::Missing),
        ScalarValue::Time32Millisecond(Some(x)) => Some(SpecOrderKey::Int(x as int)),
        ScalarValue::Time64Microsecond(None) => Some(SpecOrderKey::Missing),
        ScalarValue::Time64Microsecond(Some(x)) => Some(SpecOrderKey::Int(x as int)),
        ScalarValue::Time64Nanosecond(None) => Some(SpecOrderKey::Missing),
        ScalarValue::Time64Nanosecond(Some(x)) => Some(SpecOrderKey::Int(x as int)),
        ScalarValue::TimestampSecond(None, _) => Some(SpecOrderKey::Missing),
        ScalarValue::TimestampSecond(Some(x), _) => Some(SpecOrderKey::Int(x as int)),
        ScalarValue::TimestampMillisecond(None, _) => Some(SpecOrderKey::Missing),
        ScalarValue::TimestampMillisecond(Some(x), _) => Some(SpecOrderKey::Int(x as int)),
        ScalarValue::TimestampMicrosecond(None, _) => Some(SpecOrderKey::Missing),
        ScalarValue::TimestampMicrosecond(Some(x), _) => Some(SpecOrderKey::Int(x as int)),
        ScalarValue::TimestampNanosecond(None, _) => Some(SpecOrderKey::Missing),
        ScalarValue::TimestampNanosecond(Some(x), _) => Some(SpecOrderKey::Int(x as int)),
        ScalarValue::IntervalYearMonth(None) => Some(SpecOrderKey::Missing),
        ScalarValue::IntervalYearMonth(Some(x)) => Some(SpecOrderKey::Int(x as int)),
        ScalarValue::IntervalDayTime(None) => Some(SpecOrderKey::Missing),
        ScalarValue::IntervalDayTime(Some(x)) => Some(
            SpecOrderKey::Triple(x.days as int, x.milliseconds as int, 0),
        ),
        ScalarValue::IntervalMonthDayNano(None) => Some(SpecOrderKey::Missing),
        ScalarValue::IntervalMonthDayNano(Some(x)) => Some(
            SpecOrderKey::Triple(x.months as int, x.days as int, x.nanoseconds as int),
        ),
        ScalarValue::DurationSecond(None) => Some(SpecOrderKey::Missing),
        ScalarValue::DurationSecond(Some(x)) => Some(SpecOrderKey::Int(x as int)),
        ScalarValue::DurationMillisecond(None) => Some(SpecOrderKey::Missing),
        ScalarValue::DurationMillisecond(Some(x)) => Some(SpecOrderKey::Int(x as int)),
        ScalarValue::DurationMicrosecond(None) => Some(SpecOrderKey::Missing),
        ScalarValue::DurationMicrosecond(Some(x)) => Some(SpecOrderKey::Int(x as int)),
        ScalarValue::DurationNanosecond(None) => Some(SpecOrderKey::Missing),
        ScalarValue::DurationNanosecond(Some(x)) => Some(SpecOrderKey::Int(x as int)),
        _ => None,
    }
}

/// How two byte strings stand to each other: the first place where they
/// differ decides, and a string comes before every string that it begins.
pub open spec fn bytes_comparison(a: Seq<u8>, b: Seq<u8>) -> Comparison
    decreases a.len(),
{
    if a.len() == 0 {
        if b.len() == 0 {
            Comparison::Equal
        } else {
            Comparison::Less
        }
    } else if b.len() == 0 {
        Comparison::Greater
    } else if a[0] != b[0] {
        int_comparison(a[0] as int, b[0] as int)
    } else {
        bytes_comparison(a.drop_first(), b.drop_first())
    }
}

/// How two keys stand to each other, where they are of one kind or one of
/// them is `Missing`.
pub open spec fn order_key_comparison(a: SpecOrderKey, b: SpecOrderKey) -> Option<Comparison> {
    match (a, b) {
        (SpecOrderKey::Missing, SpecOrderKey::Missing) => Some(Comparison::Equal),
        (SpecOrderKey::Missing, _) => Some(Comparison::Less),
        (_, SpecOrderKey::Missing) => Some(Comparison::Greater),
        (SpecOrderKey::Int(x), SpecOrderKey::Int(y)) => Some(int_comparison(x, y)),
        (SpecOrderKey::Bytes(x), SpecOrderKey::Bytes(y)) => Some(bytes_comparison(x, y)),
        (SpecOrderKey::Wide(x), SpecOrderKey::Wide(y)) => Some(int_comparison(x, y)),
        (SpecOrderKey::Triple(a1, a2, a3), SpecOrderKey::Triple(b1, b2, b3)) => Some(
            if a1 != b1 {
                int_comparison(a1, b1)
            } else if a2 != b2 {
                int_comparison(a2, b2)
            } else {
                int_comparison(a3, b3)
            },
        ),
        _ => None,
    }
}

/// How two sequences of scalars stand to each other from place `i` on: the
/// first place where the elements are not equal decides; where one sequence
/// ends first, the shorter one comes first. Where two elements cannot be
/// compared, neither can the sequences.
pub open spec fn values_comparison(a: Seq<ScalarValue>, b: Seq<ScalarValue>, i: nat) -> Option<
    Comparison,
>
    decreases a, a.len() - i,
{
    if i >= a.len() || i >= b.len() {
        Some(int_comparison(a.len() as int, b.len() as int))
    } else {
        match scalar_comparison(a[i as int], b[i as int]) {
            None => None,
            Some(Comparison::Equal) => values_comparison(a, b, i + 1),
            Some(c) => Some(c),
        }
    }
}

/// How the entries of two maps stand to each other from place `i` on: entry
/// by entry, the key first and then the value.
pub open spec fn entries_comparison(a: Seq<MapEntry>, b: Seq<MapEntry>, i: nat) -> Option<
    Comparison,
>
    decreases a, a.len() - i,
{
    if i >= a.len() || i >= b.len() {
        Some(int_comparison(a.len() as int, b.len() as int))
    } else {
        match scalar_comparison(a[i as int].key, b[i as int].key) {
            None => None,
            Some(Comparison::Equal) => match scalar_comparison(
                a[i as int].value,
                b[i as int].value,
            ) {
                None => None,
                Some(Comparison::Equal) => entries_comparison(a, b, i + 1),
                Some(c) => Some(c),
            },
            Some(c) => Some(c),
        }
    }
}

/// How two scalars stand to each other in the natural order of their
/// storage type. Scalars of different storage types cannot be compared. Of
/// one storage type, scalars that hold no other scalar compare by their
/// keys, a missing value first; lists, fixed-size lists and structs compare
/// element by element, maps entry by entry, union values by tag and then
/// by what they hold, and a dictionary value as its decoded value.
pub open spec fn scalar_comparison(a: ScalarValue, b: ScalarValue) -> Option<Comparison>
    decreases a,
{
    if data_type_of(a) != data_type_of(b) {
        None
    } else {
        match a {
            ScalarValue::FixedSizeList(la) => match b {
                ScalarValue::FixedSizeList(lb) => values_comparison(la.values@, lb.values@, 0),
                _ => None,
            },
            ScalarValue::List(la) => match b {
                ScalarValue::List(lb) => values_comparison(la.values@, lb.values@, 0),
                _ => None,
            },
            ScalarValue::LargeList(la) => match b {
                ScalarValue::LargeList(lb) => values_comparison(la.values@, lb.values@, 0),
                _ => None,
            },
            ScalarValue::Struct(sa) => match b {
                ScalarValue::Struct(sb) => values_comparison(sa.values@, sb.values@, 0),
                _ => None,
            },
            ScalarValue::Mapping(ma) => match b {
                ScalarValue::Mapping(mb) => entries_comparison(ma.entries@, mb.entries@, 0),
                _ => None,
            },
            ScalarValue::Union(va, _, _) => match b {
                ScalarValue::Union(vb, _, _) => match va {
                    None => match vb {
                        None => Some(Comparison::Equal),
                        Some(_) => Some(Comparison::Less),
                    },
                    Some((tag_a, inner_a)) => match vb {
                        None => Some(Comparison::Greater),
                        Some((tag_b, inner_b)) => if tag_a != tag_b {
                            Some(int_comparison(tag_a as int, tag_b as int))
                        } else {
                            scalar_comparison(*inner_a, *inner_b)
                        },
                    },
                },
                _ => None,
            },
            ScalarValue::Dictionary(_, inner_a) => match b {
                ScalarValue::Dictionary(_, inner_b) => scalar_comparison(*inner_a, *inner_b),
                _ => None,
            },
            _ => match (order_key_of(a), order_key_of(b)) {
                (Some(x), Some(y)) => order_key_comparison(x, y),
                _ => None,
            },
        }
    }
}

/// How two union values of one storage type stand to each other: a value
/// without an active variant comes before one with an active variant; of
/// two active variants the one with the smaller tag comes first, whatever
/// they hold; under one tag, what they hold decides.
pub open spec fn union_comparison(
    a: Option<(i8, Box<ScalarValue>)>,
    b: Option<(i8, Box<ScalarValue>)>,
) -> Option<Comparison> {
    match a {
        None => match b {
            None => Some(Comparison::Equal),
            Some(_) => Some(Comparison::Less),
        },
        Some((tag_a, inner_a)) => match b {
            None => Some(Comparison::Greater),
            Some((tag_b, inner_b)) => if tag_a != tag_b {
                Some(int_comparison(tag_a as int, tag_b as int))
            } else {
                scalar_comparison(*inner_a, *inner_b)
            },
        },
    }
}

/// The place of a 32-bit float in the total order, as a signed integer.
pub fn float32_key(bits: u32) -> (r: i128)
    ensures
        r == float32_order_key(bits),
{
    if bits < 0x8000_0000 {
        bits as i128
    } else {
        0x7fff_ffffi128 - (bits as i128)
    }
}

/// The place of a 16-bit float in the total order, as a signed integer.
pub fn float16_key(bits: u16) -> (r: i128)
    ensures
        r == float16_order_key(bits),
{
    if bits < 0x8000 {
        bits as i128
    } else {
        0x7fffi128 - (bits as i128)
    }
}

fn text_key(s: &Option<String>) -> (r: OrderKey)
    ensures
        r@ == match *s {
            Some(t) => SpecOrderKey::Bytes(encode_utf8(t@)),
            None => SpecOrderKey::Missing,
        },
{
    match s {
        Some(t) => OrderKey::Bytes(t.as_str().as_bytes_vec()),
        None => OrderKey::Missing,
    }
}

fn binary_key(b: &Option<Vec<u8>>) -> (r: OrderKey)
    ensures
        r@ == match *b {
            Some(t) => SpecOrderKey::Bytes(t@),
            None => SpecOrderKey::Missing,
        },
{
    match b {
        Some(t) => OrderKey::Bytes(crate::decimal::bytes_clone(t)),
        None => OrderKey::Missing,
    }
}

/// The key by which a scalar is ordered, where it has one.
pub fn order_key(v: &ScalarValue) -> (r: Option<OrderKey>)
    ensures
        match r {
            Some(k) => order_key_of(*v) == Some(k@),
            None => order_key_of(*v) is None,
        },
{
    match v {
        ScalarValue::Null => Some(OrderKey::Missing),
        ScalarValue::Boolean(None) => Some(OrderKey::Missing),
        ScalarValue::Boolean(Some(x)) => Some(
            OrderKey::Int(
                if *x {
                    1
                } else {
                    0
                },
            ),
        ),
        ScalarValue::Float16(None) => Some(OrderKey::Missing),
        ScalarValue::Float16(Some(x)) => Some(OrderKey::Int(float16_key(*x))),
        ScalarValue::Float32(None) => Some(OrderKey::Missing),
        ScalarValue::Float32(Some(x)) => Some(OrderKey::Int(float32_key(*x))),
        ScalarValue::Float64(None) => Some(OrderKey::Missing),
        ScalarValue::Float64(Some(x)) => Some(OrderKey::Int(float64_key(*x) as i128)),
        ScalarValue::Decimal128(None, _, _) => Some(OrderKey::Missing),
        ScalarValue::Decimal128(Some(x), _, _) => Some(OrderKey::Int(*x)),
        ScalarValue::Decimal256(None, _, _) => Some(OrderKey::Missing),
        ScalarValue::Decimal256(Some(b), _, _) => Some(OrderKey::Wide(*b)),
        ScalarValue::Int8(None) => Some(OrderKey::Missing),
        ScalarValue::Int8(Some(x)) => Some(OrderKey::Int(*x as i128)),
        ScalarValue::Int16(None) => Some(OrderKey::Missing),
        ScalarValue::Int16(Some(x)) => Some(OrderKey::Int(*x as i128)),
        ScalarValue::Int32(None) => Some(OrderKey::Missing),
        ScalarValue::Int32(Some(x)) => Some(OrderKey::Int(*x as i128)),
        ScalarValue::Int64(None) => Some(OrderKey::Missing),
        ScalarValue::Int64(Some(x)) => Some(OrderKey::Int(*x as i128)),
        ScalarValue::UInt8(None) => Some(OrderKey::Missing),
        ScalarValue::UInt8(Some(x)) => Some(OrderKey::Int(*x as i128)),
        ScalarValue::UInt16(None) => Some(OrderKey::Missing),
        ScalarValue::UInt16(Some(x)) => Some(OrderKey::Int(*x as i128)),
        ScalarValue::UInt32(None) => Some(OrderKey::Missing),
        ScalarValue::UInt32(Some(x)) => Some(OrderKey::Int(*x as i128)),
        ScalarValue::UInt64(None) => Some(OrderKey::Missing),
        ScalarValue::UInt64(Some(x)) => Some(OrderKey::Int(*x as i128)),
        ScalarValue::Utf8(s) => Some(text_key(s)),
        ScalarValue::Utf8View(s) => Some(text_key(s)),
        ScalarValue::LargeUtf8(s) => Some(text_key(s)),
        ScalarValue::Binary(b) => Some(binary_key(b)),
        ScalarValue::BinaryView(b) => Some(binary_key(b)),
        ScalarValue::FixedSizeBinary(_, b) => Some(binary_key(b)),
        ScalarValue::LargeBinary(b) => Some(binary_key(b)),
        ScalarValue::Date32(None) => Some(OrderKey::Missing),
        ScalarValue::Date32(Some(x)) => Some(OrderKey::Int(*x as i128)),
        ScalarValue::Date64(None) => Some(OrderKey::Missing),
        ScalarValue::Date64(Some(x)) => Some(OrderKey::Int(*x as i128)),
        ScalarValue::Time32Second(None) => Some(OrderKey::Missing),
        ScalarValue::Time32Second(Some(x)) => Some(OrderKey::Int(*x as i128)),
        ScalarValue::Time32Millisecond(None) => Some(OrderKey::Missing),
        ScalarValue::Time32Millisecond(Some(x)) => Some(OrderKey::Int(*x as i128)),
        ScalarValue::Time64Microsecond(None) => Some(OrderKey::Missing),
        ScalarValue::Time64Microsecond(Some(x)) => Some(OrderKey::Int(*x as i128)),
        ScalarValue::Time64Nanosecond(None) => Some(OrderKey::Missing),
        ScalarValue::Time64Nanosecond(Some(x)) => Some(OrderKey::Int(*x as i128)),
        ScalarValue::TimestampSecond(None, _) => Some(OrderKey::Missing),
        ScalarValue::TimestampSecond(Some(x), _) => Some(OrderKey::Int(*x as i128)),
        ScalarValue::TimestampMillisecond(None, _) => Some(OrderKey::Missing),
        ScalarValue::TimestampMillisecond(Some(x), _) => Some(OrderKey::Int(*x as i128)),
        ScalarValue::TimestampMicrosecond(None, _) => Some(OrderKey::Missing),
        ScalarValue::TimestampMicrosecond(Some(x), _) => Some(OrderKey::Int(*x as i128)),
        ScalarValue::TimestampNanosecond(None, _) => Some(OrderKey::Missing),
        ScalarValue::TimestampNanosecond(Some(x), _) => Some(OrderKey::Int(*x as i128)),
        ScalarValue::IntervalYearMonth(None) => Some(OrderKey::Missing),
        ScalarValue::IntervalYearMonth(Some(x)) => Some(OrderKey::Int(*x as i128)),
        ScalarValue::IntervalDayTime(None) => Some(OrderKey::Missing),
        ScalarValue::IntervalDayTime(Some(x)) => Some(
            OrderKey::Triple(x.days as i64, x.milliseconds as i64, 0),
        ),
        ScalarValue::IntervalMonthDayNano(None) => Some(OrderKey::Missing),
        ScalarValue::IntervalMonthDayNano(Some(x)) => Some(
            OrderKey::Triple(x.months as i64, x.days as i64, x.nanoseconds),
        ),
        ScalarValue::DurationSecond(None) => Some(OrderKey::Missing),
        ScalarValue::DurationSecond(Some(x)) => Some(OrderKey::Int(*x as i128)),
        ScalarValue::DurationMillisecond(None) => Some(OrderKey::Missing),
        ScalarValue::DurationMillisecond(Some(x)) => Some(OrderKey::Int(*x as i128)),
        ScalarValue::DurationMicrosecond(None) => Some(OrderKey::Missing),
        ScalarValue::DurationMicrosecond(Some(x)) => Some(OrderKey::Int(*x as i128)),
        ScalarValue::DurationNanosecond(None) => Some(OrderKey::Missing),
        ScalarValue::DurationNanosecond(Some(x)) => Some(OrderKey::Int(*x as i128)),
        _ => None,
    }
}

/// Compares two integers.
pub fn compare_ints(a: i128, b: i128) -> (r: Comparison)
    ensures
        r == int_comparison(a as int, b as int),
{
    if a < b {
        Comparison::Less
    } else if a == b {
        Comparison::Equal
    } else {
        Comparison::Greater
    }
}

/// Compares two byte strings, byte by byte.
pub fn compare_bytes(a: &Vec<u8>, b: &Vec<u8>) -> (r: Comparison)
    ensures
        r == bytes_comparison(a@, b@),
{
    let mut i: usize = 0;
    assert(a@.subrange(0, a@.len() as int) =~= a@);
    assert(b@.subrange(0, b@.len() as int) =~= b@);
    while i < a.len() && i < b.len()
        invariant
            i <= a.len(),
            i <= b.len(),
            bytes_comparison(a@, b@) == bytes_comparison(
                a@.subrange(i as int, a@.len() as int),
                b@.subrange(i as int, b@.len() as int),
            ),
        decreases a.len() - i,
    {
        let ghost ra = a@.subrange(i as int, a@.len() as int);
        let ghost rb = b@.subrange(i as int, b@.len() as int);
        assert(ra[0] == a@[i as int] && rb[0] == b@[i as int]);
        assert(ra.drop_first() =~= a@.subrange(i + 1, a@.len() as int));
        assert(rb.drop_first() =~= b@.subrange(i + 1, b@.len() as int));
        if a[i] < b[i] {
            return Comparison::Less;
        }
        if a[i] > b[i] {
            return Comparison::Greater;
        }
        i += 1;
    }
    let ghost ra = a@.subrange(i as int, a@.len() as int);
    let ghost rb = b@.subrange(i as int, b@.len() as int);
    if i < b.len() {
        assert(ra.len() == 0 && rb.len() > 0);
        Comparison::Less
    } else if i < a.len() {
        assert(ra.len() > 0 && rb.len() == 0);
        Comparison::Greater
    } else {
        assert(ra.len() == 0 && rb.len() == 0);
        Comparison::Equal
    }
}

/// Compares two keys, where they can be compared.
pub fn compare_order_keys(a: &OrderKey, b: &OrderKey) -> (r: Option<Comparison>)
    ensures
        r == order_key_comparison(a@, b@),
{
    match (a, b) {
        (OrderKey::Missing, OrderKey::Missing) => Some(Comparison::Equal),
        (OrderKey::Missing, _) => Some(Comparison::Less),
        (_, OrderKey::Missing) => Some(Comparison::Greater),
        (OrderKey::Int(x), OrderKey::Int(y)) => Some(compare_ints(*x, *y)),
        (OrderKey::Bytes(x), OrderKey::Bytes(y)) => Some(compare_bytes(x, y)),
        (OrderKey::Wide(x), OrderKey::Wide(y)) => Some(compare_signed_le(x, y)),
        (OrderKey::Triple(a1, a2, a3), OrderKey::Triple(b1, b2, b3)) => Some(
            if *a1 != *b1 {
                compare_ints(*a1 as i128, *b1 as i128)
            } else if *a2 != *b2 {
                compare_ints(*a2 as i128, *b2 as i128)
            } else {
                compare_ints(*a3 as i128, *b3 as i128)
            },
        ),
        _ => None,
    }
}

/// Compares two sequences of scalars, element by element.
fn compare_values(a: &Vec<ScalarValue>, b: &Vec<ScalarValue>) -> (r: Option<Comparison>)
    ensures
        r == values_comparison(a@, b@, 0),
    decreases a,
{
    let mut i: usize = 0;
    while i < a.len() && i < b.len()
        invariant
            i <= a.len(),
            i <= b.len(),
            values_comparison(a@, b@, 0) == values_comparison(a@, b@, i as nat),
        decreases a.len() - i,
    {
        match compare_scalars(&a[i], &b[i]) {
            None => {
                return None;
            },
            Some(Comparison::Equal) => {},
            Some(c) => {
                return Some(c);
            },
        }
        i += 1;
    }
    Some(compare_ints(a.len() as i128, b.len() as i128))
}

/// Compares the entries of two maps, entry by entry.
fn compare_entries(a: &Vec<MapEntry>, b: &Vec<MapEntry>) -> (r: Option<Comparison>)
    ensures
        r == entries_comparison(a@, b@, 0),
    decreases a,
{
    let mut i: usize = 0;
    while i < a.len() && i < b.len()
        invariant
            i <= a.len(),
            i <= b.len(),
            entries_comparison(a@, b@, 0) == entries_comparison(a@, b@, i as nat),
        decreases a.len() - i,
    {
        match compare_scalars(&a[i].key, &b[i].key) {
            None => {
                return None;
            },
            Some(Comparison::Equal) => {},
            Some(c) => {
                return Some(c);
            },
        }
        match compare_scalars(&a[i].value, &b[i].value) {
            None => {
                return None;
            },
            Some(Comparison::Equal) => {},
            Some(c) => {
                return Some(c);
            },
        }
        i += 1;
    }
    Some(compare_ints(a.len() as i128, b.len() as i128))
}

/// Compares two union values of one storage type.
fn compare_unions(a: &Option<(i8, Box<ScalarValue>)>, b: &Option<(i8, Box<ScalarValue>)>) -> (r:
    Option<Comparison>)
    ensures
        r == union_comparison(*a, *b),
    decreases a,
{
    match a {
        None => match b {
            None => Some(Comparison::Equal),
            Some(_) => Some(Comparison::Less),
        },
        Some((tag_a, inner_a)) => match b {
            None => Some(Comparison::Greater),
            Some((tag_b, inner_b)) => if *tag_a != *tag_b {
                Some(compare_ints(*tag_a as i128, *tag_b as i128))
            } else {
                compare_scalars(inner_a, inner_b)
            },
        },
    }
}

/// Compares two scalars in the natural order of their storage type; gives
/// nothing where they cannot be compared.
pub fn compare_scalars(a: &ScalarValue, b: &ScalarValue) -> (r: Option<Comparison>)
    ensures
        r == scalar_comparison(*a, *b),
    decreases a,
{
    if !a.data_type().equals(&b.data_type()) {
        return None;
    }
    match a {
        ScalarValue::FixedSizeList(la) => match b {
            ScalarValue::FixedSizeList(lb) => compare_values(&la.values, &lb.values),
            _ => None,
        },
        ScalarValue::List(la) => match b {
            ScalarValue::List(lb) => compare_values(&la.values, &lb.values),
            _ => None,
        },
        ScalarValue::LargeList(la) => match b {
            ScalarValue::LargeList(lb) => compare_values(&la.values, &lb.values),
            _ => None,
        },
        ScalarValue::Struct(sa) => match b {
            ScalarValue::Struct(sb) => compare_values(&sa.values, &sb.values),
            _ => None,
        },
        ScalarValue::Mapping(ma) => match b {
            ScalarValue::Mapping(mb) => compare_entries(&ma.entries, &mb.entries),
            _ => None,
        },
        ScalarValue::Union(va, _, _) => match b {
            ScalarValue::Union(vb, _, _) => compare_unions(va, vb),
            _ => None,
        },
        ScalarValue::Dictionary(_, inner_a) => match b {
            ScalarValue::Dictionary(_, inner_b) => compare_scalars(inner_a, inner_b),
            _ => None,
        },
        _ => {
            let ka = order_key(a);
            let kb = order_key(b);
            match (ka, kb) {
                (Some(x), Some(y)) => compare_order_keys(&x, &y),
                _ => None,
            }
        },
    }
}

/// The order of byte strings is a total order: turned round it gives the
/// opposite outcome, and only equal strings are equal in it.
pub proof fn lemma_bytes_comparison_total(a: Seq<u8>, b: Seq<u8>)
    ensures
        bytes_comparison(a, b) == bytes_comparison(b, a).reversed(),
        bytes_comparison(a, b) == Comparison::Equal <==> a == b,
    decreases a.len(),
{
    if a.len() > 0 && b.len() > 0 {
        if a[0] == b[0] {
            lemma_bytes_comparison_total(a.drop_first(), b.drop_first());
            if a.drop_first() == b.drop_first() {
                assert(a =~= seq![a[0]] + a.drop_first());
                assert(b =~= seq![b[0]] + b.drop_first());
            }
        }
    } else if a.len() == 0 && b.len() == 0 {
        assert(a =~= b);
    }
}

/// The order of byte strings is transitive.
pub proof fn lemma_bytes_comparison_transitive(a: Seq<u8>, b: Seq<u8>, c: Seq<u8>)
    requires
        bytes_comparison(a, b) == Comparison::Less,
        bytes_comparison(b, c) == Comparison::Less,
    ensures
        bytes_comparison(a, c) == Comparison::Less,
    decreases a.len(),
{
    if a.len() > 0 && b.len() > 0 && c.len() > 0 {
        if a[0] == b[0] && b[0] == c[0] {
            lemma_bytes_comparison_transitive(a.drop_first(), b.drop_first(), c.drop_first());
        }
    }
}

/// The outcome of a comparison the other way round.
pub open spec fn turned(c: Option<Comparison>) -> Option<Comparison> {
    match c {
        Some(x) => Some(x.reversed()),
        None => None,
    }
}

proof fn lemma_values_comparison_turned(a: Seq<ScalarValue>, b: Seq<ScalarValue>, i: nat)
    ensures
        values_comparison(b, a, i) == turned(values_comparison(a, b, i)),
    decreases a, a.len() - i,
{
    if i < a.len() && i < b.len() {
        lemma_scalar_comparison_antisymmetric(a[i as int], b[i as int]);
        lemma_values_comparison_turned(a, b, i + 1);
    }
}

proof fn lemma_entries_comparison_turned(a: Seq<MapEntry>, b: Seq<MapEntry>, i: nat)
    ensures
        entries_comparison(b, a, i) == turned(entries_comparison(a, b, i)),
    decreases a, a.len() - i,
{
    if i < a.len() && i < b.len() {
        lemma_scalar_comparison_antisymmetric(a[i as int].key, b[i as int].key);
        lemma_scalar_comparison_antisymmetric(a[i as int].value, b[i as int].value);
        lemma_entries_comparison_turned(a, b, i + 1);
    }
}

/// Where two scalars can be compared, they can be compared the other way
/// round, with the opposite outcome; where they cannot, they cannot the
/// other way round either.
pub proof fn lemma_scalar_comparison_antisymmetric(a: ScalarValue, b: ScalarValue)
    ensures
        scalar_comparison(b, a) == turned(scalar_comparison(a, b)),
    decreases a,
{
    if data_type_of(a) == data_type_of(b) {
        match a {
            ScalarValue::FixedSizeList(la) => match b {
                ScalarValue::FixedSizeList(lb) => {
                    lemma_values_comparison_turned(la.values@, lb.values@, 0);
                },
                _ => {},
            },
            ScalarValue::List(la) => match b {
                ScalarValue::List(lb) => {
                    lemma_values_comparison_turned(la.values@, lb.values@, 0);
                },
                _ => {},
            },
            ScalarValue::LargeList(la) => match b {
                ScalarValue::LargeList(lb) => {
                    lemma_values_comparison_turned(la.values@, lb.values@, 0);
                },
                _ => {},
            },
            ScalarValue::Struct(sa) => match b {
                ScalarValue::Struct(sb) => {
                    lemma_values_comparison_turned(sa.values@, sb.values@, 0);
                },
                _ => {},
            },
            ScalarValue::Mapping(ma) => match b {
                ScalarValue::Mapping(mb) => {
                    lemma_entries_comparison_turned(ma.entries@, mb.entries@, 0);
                },
                _ => {},
            },
            ScalarValue::Union(va, _, _) => match b {
                ScalarValue::Union(vb, _, _) => {
                    assert(scalar_comparison(a, b) == union_comparison(va, vb));
                    assert(scalar_comparison(b, a) == union_comparison(vb, va));
                    match va {
                        Some((tag_a, inner_a)) => match vb {
                            Some((tag_b, inner_b)) => {
                                if tag_a == tag_b {
                                    lemma_scalar_comparison_antisymmetric(*inner_a, *inner_b);
                                }
                            },
                            None => {},
                        },
                        None => {},
                    }
                },
                _ => {},
            },
            ScalarValue::Dictionary(_, inner_a) => match b {
                ScalarValue::Dictionary(_, inner_b) => {
                    lemma_scalar_comparison_antisymmetric(*inner_a, *inner_b);
                },
                _ => {},
            },
            _ => {
                match (order_key_of(a), order_key_of(b)) {
                    (Some(SpecOrderKey::Bytes(x)), Some(SpecOrderKey::Bytes(y))) => {
                        lemma_bytes_comparison_total(x, y);
                    },
                    _ => {},
                }
            },
        }
    }
}

proof fn lemma_values_comparison_reflexive(a: Seq<ScalarValue>, i: nat)
    ensures
        values_comparison(a, a, i) == Some(Comparison::Equal),
    decreases a, a.len() - i,
{
    if i < a.len() {
        lemma_scalar_comparison_reflexive(a[i as int]);
        lemma_values_comparison_reflexive(a, i + 1);
    }
}

proof fn lemma_entries_comparison_reflexive(a: Seq<MapEntry>, i: nat)
    ensures
        entries_comparison(a, a, i) == Some(Comparison::Equal),
    decreases a, a.len() - i,
{
    if i < a.len() {
        lemma_scalar_comparison_reflexive(a[i as int].key);
        lemma_scalar_comparison_reflexive(a[i as int].value);
        lemma_entries_comparison_reflexive(a, i + 1);
    }
}

/// Every scalar can be compared with itself, and is equal to itself: a
/// nested value too, and an empty list.
pub proof fn lemma_scalar_comparison_reflexive(a: ScalarValue)
    ensures
        scalar_comparison(a, a) == Some(Comparison::Equal),
    decreases a,
{
    match a {
        ScalarValue::FixedSizeList(la) => {
            lemma_values_comparison_reflexive(la.values@, 0);
        },
        ScalarValue::List(la) => {
            lemma_values_comparison_reflexive(la.values@, 0);
            assert(data_type_of(a) == data_type_of(a));
            assert(scalar_comparison(a, a) == values_comparison(la.values@, la.values@, 0));
        },
        ScalarValue::LargeList(la) => {
            lemma_values_comparison_reflexive(la.values@, 0);
        },
        ScalarValue::Struct(sa) => {
            lemma_values_comparison_reflexive(sa.values@, 0);
        },
        ScalarValue::Mapping(ma) => {
            lemma_entries_comparison_reflexive(ma.entries@, 0);
        },
        ScalarValue::Union(va, _, _) => match va {
            Some((_, inner)) => {
                lemma_scalar_comparison_reflexive(*inner);
                assert(scalar_comparison(a, a) == union_comparison(va, va));
                assert(union_comparison(va, va) == scalar_comparison(*inner, *inner));
            },
            None => {
                assert(scalar_comparison(a, a) == union_comparison(va, va));
            },
        },
        ScalarValue::Dictionary(_, inner) => {
            lemma_scalar_comparison_reflexive(*inner);
            assert(scalar_comparison(a, a) == scalar_comparison(*inner, *inner));
        },
        _ => {
            assert(order_key_of(a) is Some);
            match order_key_of(a) {
                Some(SpecOrderKey::Bytes(x)) => {
                    lemma_bytes_comparison_total(x, x);
                },
                _ => {},
            }
            assert(order_key_comparison(order_key_of(a)->Some_0, order_key_of(a)->Some_0) == Some(
                Comparison::Equal,
            ));
        },
    }
}

/// What two comparisons in a row come to, where neither is `Greater`:
/// `Less` where one of them is `Less`, and `Equal` where both are `Equal`.
pub open spec fn in_a_row(x: Comparison, y: Comparison) -> Comparison {
    if x == Comparison::Less || y == Comparison::Less {
        Comparison::Less
    } else {
        Comparison::Equal
    }
}

/// Whether `x` and `y` are outcomes of comparisons, neither of them
/// `Greater`.
pub open spec fn ascending(x: Option<Comparison>, y: Option<Comparison>) -> bool {
    x is Some && y is Some && x != Some(Comparison::Greater) && y != Some(Comparison::Greater)
}

proof fn lemma_bytes_comparison_in_a_row(a: Seq<u8>, b: Seq<u8>, c: Seq<u8>)
    requires
        bytes_comparison(a, b) != Comparison::Greater,
        bytes_comparison(b, c) != Comparison::Greater,
    ensures
        bytes_comparison(a, c) == in_a_row(bytes_comparison(a, b), bytes_comparison(b, c)),
    decreases a.len(),
{
    if a.len() > 0 && b.len() > 0 && c.len() > 0 {
        if a[0] == b[0] && b[0] == c[0] {
            lemma_bytes_comparison_in_a_row(a.drop_first(), b.drop_first(), c.drop_first());
        }
    }
}

/// The order of keys is transitive, equal keys included.
pub proof fn lemma_order_key_comparison_transitive(a: SpecOrderKey, b: SpecOrderKey, c: SpecOrderKey)
    requires
        ascending(order_key_comparison(a, b), order_key_comparison(b, c)),
    ensures
        order_key_comparison(a, c) == Some(
            in_a_row(order_key_comparison(a, b)->Some_0, order_key_comparison(b, c)->Some_0),
        ),
{
    match (a, b, c) {
        (SpecOrderKey::Bytes(x), SpecOrderKey::Bytes(y), SpecOrderKey::Bytes(z)) => {
            lemma_bytes_comparison_in_a_row(x, y, z);
        },
        _ => {},
    }
}

proof fn lemma_values_comparison_transitive(
    a: Seq<ScalarValue>,
    b: Seq<ScalarValue>,
    c: Seq<ScalarValue>,
    i: nat,
)
    requires
        ascending(values_comparison(a, b, i), values_comparison(b, c, i)),
    ensures
        values_comparison(a, c, i) == Some(
            in_a_row(values_comparison(a, b, i)->Some_0, values_comparison(b, c, i)->Some_0),
        ),
    decreases a, a.len() - i,
{
    if i < a.len() && i < b.len() {
        let first = scalar_comparison(a[i as int], b[i as int]);
        assert(first is Some);
        assert(i < c.len());
        let second = scalar_comparison(b[i as int], c[i as int]);
        assert(second is Some);
        lemma_scalar_comparison_transitive(a[i as int], b[i as int], c[i as int]);
        if first == Some(Comparison::Equal) && second == Some(Comparison::Equal) {
            lemma_values_comparison_transitive(a, b, c, i + 1);
        }
    }
}

proof fn lemma_entries_comparison_transitive(
    a: Seq<MapEntry>,
    b: Seq<MapEntry>,
    c: Seq<MapEntry>,
    i: nat,
)
    requires
        ascending(entries_comparison(a, b, i), entries_comparison(b, c, i)),
    ensures
        entries_comparison(a, c, i) == Some(
            in_a_row(entries_comparison(a, b, i)->Some_0, entries_comparison(b, c, i)->Some_0),
        ),
    decreases a, a.len() - i,
{
    if i < a.len() && i < b.len() {
        let first = scalar_comparison(a[i as int].key, b[i as int].key);
        assert(first is Some);
        assert(i < c.len());
        let second = scalar_comparison(b[i as int].key, c[i as int].key);
        assert(second is Some);
        lemma_scalar_comparison_transitive(a[i as int].key, b[i as int].key, c[i as int].key);
        if first == Some(Comparison::Equal) && second == Some(Comparison::Equal) {
            let third = scalar_comparison(a[i as int].value, b[i as int].value);
            let fourth = scalar_comparison(b[i as int].value, c[i as int].value);
            assert(third is Some);
            assert(fourth is Some);
            lemma_scalar_comparison_transitive(
                a[i as int].value,
                b[i as int].value,
                c[i as int].value,
            );
            if third == Some(Comparison::Equal) && fourth == Some(Comparison::Equal) {
                lemma_entries_comparison_transitive(a, b, c, i + 1);
            }
        }
    }
}

/// The order of scalars is transitive, nested values included: where `a`
/// comes before or is equal to `b`, and `b` comes before or is equal to
/// `c`, `a` stands to `c` as the two comparisons in a row say.
pub proof fn lemma_scalar_comparison_transitive(a: ScalarValue, b: ScalarValue, c: ScalarValue)
    requires
        ascending(scalar_comparison(a, b), scalar_comparison(b, c)),
    ensures
        scalar_comparison(a, c) == Some(
            in_a_row(scalar_comparison(a, b)->Some_0, scalar_comparison(b, c)->Some_0),
        ),
    decreases a,
{
    match a {
        ScalarValue::FixedSizeList(la) => match (b, c) {
            (ScalarValue::FixedSizeList(lb), ScalarValue::FixedSizeList(lc)) => {
                lemma_values_comparison_transitive(la.values@, lb.values@, lc.values@, 0);
            },
            _ => {},
        },
        ScalarValue::List(la) => match (b, c) {
            (ScalarValue::List(lb), ScalarValue::List(lc)) => {
                lemma_values_comparison_transitive(la.values@, lb.values@, lc.values@, 0);
            },
            _ => {},
        },
        ScalarValue::LargeList(la) => match (b, c) {
            (ScalarValue::LargeList(lb), ScalarValue::LargeList(lc)) => {
                lemma_values_comparison_transitive(la.values@, lb.values@, lc.values@, 0);
            },
            _ => {},
        },
        ScalarValue::Struct(sa) => match (b, c) {
            (ScalarValue::Struct(sb), ScalarValue::Struct(sc)) => {
                lemma_values_comparison_transitive(sa.values@, sb.values@, sc.values@, 0);
            },
            _ => {},
        },
        ScalarValue::Mapping(ma) => match (b, c) {
            (ScalarValue::Mapping(mb), ScalarValue::Mapping(mc)) => {
                lemma_entries_comparison_transitive(ma.entries@, mb.entries@, mc.entries@, 0);
            },
            _ => {},
        },
        ScalarValue::Union(va, _, _) => match (b, c) {
            (ScalarValue::Union(vb, _, _), ScalarValue::Union(vc, _, _)) => {
                assert(scalar_comparison(a, b) == union_comparison(va, vb));
                assert(scalar_comparison(b, c) == union_comparison(vb, vc));
                assert(scalar_comparison(a, c) == union_comparison(va, vc));
                match (va, vb, vc) {
                    (Some((tag_a, inner_a)), Some((tag_b, inner_b)), Some((tag_c, inner_c))) => {
                        if tag_a == tag_b && tag_b == tag_c {
                            lemma_scalar_comparison_transitive(*inner_a, *inner_b, *inner_c);
                        }
                    },
                    _ => {},
                }
            },
            _ => {},
        },
        ScalarValue::Dictionary(_, inner_a) => match (b, c) {
            (ScalarValue::Dictionary(_, inner_b), ScalarValue::Dictionary(_, inner_c)) => {
                lemma_scalar_comparison_transitive(*inner_a, *inner_b, *inner_c);
            },
            _ => {},
        },
        _ => {
            lemma_order_key_comparison_transitive(
                order_key_of(a)->Some_0,
                order_key_of(b)->Some_0,
                order_key_of(c)->Some_0,
            );
        },
    }
}

/// Two union values of one storage type whose active variants have
/// different tags stand as their tags stand, whatever they hold; under one
/// tag they stand as what they hold stands.
pub proof fn lemma_union_tags_decide(
    a: ScalarValue,
    b: ScalarValue,
    tag_a: i8,
    inner_a: ScalarValue,
    tag_b: i8,
    inner_b: ScalarValue,
)
    requires
        data_type_of(a) == data_type_of(b),
        a matches ScalarValue::Union(Some((t, x)), _, _) && t == tag_a && *x == inner_a,
        b matches ScalarValue::Union(Some((t, x)), _, _) && t == tag_b && *x == inner_b,
    ensures
        tag_a != tag_b ==> scalar_comparison(a, b) == Some(
            int_comparison(tag_a as int, tag_b as int),
        ),
        tag_a == tag_b ==> scalar_comparison(a, b) == scalar_comparison(inner_a, inner_b),
{
    assert(scalar_comparison(a, b) == union_comparison(a->Union_0, b->Union_0));
}

/// The natural order of integer-or-float union values is the order of their
/// custom comparator in an ascending sort: two such values of one storage
/// type always compare, by tag first and then by number, the floats in the
/// total order.
pub proof fn lemma_int_or_float_natural_order(a: ScalarValue, b: ScalarValue, ka: SortKey, kb: SortKey)
    requires
        data_type_of(a) == data_type_of(b),
        int_or_float_key(a) == Some(ka),
        int_or_float_key(b) == Some(kb),
    ensures
        scalar_comparison(a, b) == Some(key_comparison(ka, kb)),
{
    assert(scalar_comparison(a, b) == union_comparison(a->Union_0, b->Union_0));
    let (tag_a, inner_a) = a->Union_0->Some_0;
    let (tag_b, inner_b) = b->Union_0->Some_0;
    if tag_a == tag_b {
        assert(data_type_of(*inner_a) == data_type_of(*inner_b));
        assert(scalar_comparison(*inner_a, *inner_b) == order_key_comparison(
            order_key_of(*inner_a)->Some_0,
            order_key_of(*inner_b)->Some_0,
        ));
    }
}

} // verus!

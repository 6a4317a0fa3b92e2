//! Arbitrary-precision decimals: an unscaled integer in little-endian two's
//! complement and a scale.

use crate::error::{ErrorKind, TypeError, failure};
use bigdecimal::BigDecimal;
use bigdecimal::num_bigint::BigInt;
use vstd::prelude::*;

verus! {

/// 256 to the power `n`.
pub open spec fn pow256(n: nat) -> nat
    decreases n,
{
    if n == 0 {
        1
    } else {
        256 * pow256((n - 1) as nat)
    }
}

/// The number that the bytes spell as an unsigned integer, least significant
/// byte first. The order is fixed: it does not depend on the machine.
pub open spec fn le_unsigned(bytes: Seq<u8>) -> nat
    decreases bytes.len(),
{
    if bytes.len() == 0 {
        0
    } else {
        le_unsigned(bytes.drop_last()) + bytes.last() as nat * pow256((bytes.len() - 1) as nat)
    }
}

/// The number that the bytes spell in two's complement, least significant
/// byte first.
pub open spec fn le_signed(bytes: Seq<u8>) -> int {
    if bytes.len() > 0 && bytes.last() >= 128 {
        le_unsigned(bytes) - pow256(bytes.len())
    } else {
        le_unsigned(bytes) as int
    }
}

/// The most bytes that the unscaled value of a decimal may take.
pub const MAX_UNSCALED_BYTES: usize = 32;

/// An unsigned number of `n` bytes is below 256 to the power `n`.
pub proof fn lemma_le_unsigned_bound(bytes: Seq<u8>)
    ensures
        le_unsigned(bytes) < pow256(bytes.len()),
    decreases bytes.len(),
{
    if bytes.len() > 0 {
        lemma_le_unsigned_bound(bytes.drop_last());
        let p = pow256((bytes.len() - 1) as nat);
        let b = bytes.last() as nat;
        assert(b * p + p <= 256 * p) by (nonlinear_arith)
            requires
                b <= 255,
        ;
    }
}

proof fn lemma_pow256_16()
    ensures
        pow256(15) == 0x1_0000_0000_0000_0000_0000_0000_0000_00,
        pow256(16) == 0x1_0000_0000_0000_0000_0000_0000_0000_0000,
{
    reveal_with_fuel(pow256, 17);
}

/// The sixteen bytes of `v` in little-endian two's complement.
pub fn i128_to_le_bytes(v: i128) -> (r: Vec<u8>)
    ensures
        r@.len() == 16,
        le_signed(r@) == v,
{
    let magnitude: u128 = if v < 0 {
        ((v + i128::MAX) + 1) as u128 + 0x8000_0000_0000_0000_0000_0000_0000_0000u128
    } else {
        v as u128
    };
    let mut out: Vec<u8> = Vec::new();
    let mut rest: u128 = magnitude;
    let mut i: usize = 0;
    proof {
        assert(pow256(0) == 1);
        assert(le_unsigned(out@) == 0);
        assert(rest * pow256(0) == rest) by (nonlinear_arith)
            requires
                pow256(0) == 1,
        ;
    }
    while i < 16
        invariant
            i <= 16,
            out@.len() == i,
            le_unsigned(out@) + rest * pow256(i as nat) == magnitude,
        decreases 16 - i,
    {
        let b: u8 = (rest % 256) as u8;
        let ghost before = out@;
        let ghost p = pow256(i as nat);
        out.push(b);
        proof {
            assert(out@.drop_last() =~= before);
            assert(out@.last() == b);
            assert(le_unsigned(out@) == le_unsigned(before) + b as nat * p);
            assert(b as nat * p + (rest / 256) * (256 * p) == rest * p) by (nonlinear_arith)
                requires
                    b as nat == rest % 256,
            ;
        }
        rest = rest / 256;
        i += 1;
    }
    proof {
        lemma_pow256_16();
        let p = pow256(16);
        assert(rest == 0) by (nonlinear_arith)
            requires
                rest * p <= magnitude,
                magnitude < p,
                p > 0,
        ;
        lemma_le_unsigned_bound(out@.drop_last());
        let top = out@.last() as nat;
        let low = le_unsigned(out@.drop_last());
        assert(le_unsigned(out@) == low + top * pow256(15));
        if v < 0 {
            assert(magnitude == v + pow256(16));
            assert(top >= 128) by (nonlinear_arith)
                requires
                    low + top * 0x1_0000_0000_0000_0000_0000_0000_0000_00
                        >= 0x8000_0000_0000_0000_0000_0000_0000_0000,
                    low < 0x1_0000_0000_0000_0000_0000_0000_0000_00,
            ;
        } else {
            assert(top < 128) by (nonlinear_arith)
                requires
                    low + top * 0x1_0000_0000_0000_0000_0000_0000_0000_00
                        < 0x8000_0000_0000_0000_0000_0000_0000_0000,
            ;
        }
    }
    out
}

/// The text of the decimal `unscaled * 10^(-scale)` in plain notation: what
/// `BigDecimal::to_plain_string` returns for it.
pub uninterp spec fn plain_decimal_text(unscaled: int, scale: int) -> Seq<char>;

/// Renders a decimal in plain notation, without an exponent.
///
/// Calls `BigInt::from_signed_bytes_le`, which reads the bytes as an integer
/// in two's complement, least significant byte first (no bytes are zero),
/// then `BigDecimal::new` and `BigDecimal::to_plain_string`. The text
/// depends on that integer and the scale alone. The scale is small, so the
/// text is short.
#[verifier::external_body]
fn plain_decimal_string(unscaled_le: &Vec<u8>, scale: i8) -> (r: String)
    ensures
        r@ == plain_decimal_text(le_signed(unscaled_le@), scale as int),
{
    BigDecimal::new(BigInt::from_signed_bytes_le(unscaled_le), i64::from(scale)).to_plain_string()
}

/// A decimal number: `unscaled * 10^(-scale)`. The unscaled integer is held
/// in exactly 32 bytes, so that one number has one form.
#[derive(Debug, PartialEq, Eq, Hash)]
pub struct LogicalDecimal {
    unscaled_le: Vec<u8>,
    scale: i8,
}

/// One more byte of sign leaves a number in two's complement as it is: a
/// zero byte behind a number that is not negative, a byte of ones behind a
/// negative one.
pub proof fn lemma_sign_extension(bytes: Seq<u8>, fill: u8)
    requires
        fill == (if bytes.len() > 0 && bytes.last() >= 128 {
            255u8
        } else {
            0u8
        }),
    ensures
        le_signed(bytes.push(fill)) == le_signed(bytes),
{
    let longer = bytes.push(fill);
    let p = pow256(bytes.len());
    assert(longer.drop_last() =~= bytes);
    assert(le_unsigned(longer) == le_unsigned(bytes) + fill as nat * p);
    assert(pow256(longer.len()) == 256 * p);
    if fill == 255 {
        assert(255 * p - 256 * p == -p) by (nonlinear_arith);
    } else {
        assert(0 * p == 0) by (nonlinear_arith);
    }
}

/// Two unsigned numbers of one length are the same number only where they
/// have the same bytes.
pub proof fn lemma_le_unsigned_injective(a: Seq<u8>, b: Seq<u8>)
    requires
        a.len() == b.len(),
        le_unsigned(a) == le_unsigned(b),
    ensures
        a == b,
    decreases a.len(),
{
    if a.len() > 0 {
        if a.last() < b.last() {
            lemma_le_unsigned_order(a, b, a.len() - 1);
        } else if b.last() < a.last() {
            lemma_le_unsigned_order(b, a, a.len() - 1);
        } else {
            lemma_le_unsigned_injective(a.drop_last(), b.drop_last());
            assert(a =~= a.drop_last().push(a.last()));
            assert(b =~= b.drop_last().push(b.last()));
        }
    } else {
        assert(a =~= b);
    }
}

/// Two numbers in two's complement of one length are the same number only
/// where they have the same bytes.
pub proof fn lemma_le_signed_injective(a: Seq<u8>, b: Seq<u8>)
    requires
        a.len() == b.len(),
        le_signed(a) == le_signed(b),
    ensures
        a == b,
{
    lemma_le_unsigned_bound(a);
    lemma_le_unsigned_bound(b);
    lemma_le_unsigned_injective(a, b);
}

/// The same number in exactly 32 bytes.
fn sign_extend(bytes: Vec<u8>) -> (r: Vec<u8>)
    requires
        bytes@.len() <= MAX_UNSCALED_BYTES,
    ensures
        r@.len() == MAX_UNSCALED_BYTES,
        le_signed(r@) == le_signed(bytes@),
{
    let fill: u8 = if bytes.len() > 0 && bytes[bytes.len() - 1] >= 128 {
        255
    } else {
        0
    };
    let ghost start = bytes@;
    let mut out = bytes;
    while out.len() < MAX_UNSCALED_BYTES
        invariant
            out@.len() <= MAX_UNSCALED_BYTES,
            le_signed(out@) == le_signed(start),
            fill == (if out@.len() > 0 && out@.last() >= 128 {
                255u8
            } else {
                0u8
            }),
        decreases MAX_UNSCALED_BYTES - out@.len(),
    {
        proof {
            lemma_sign_extension(out@, fill);
        }
        out.push(fill);
    }
    out
}

impl LogicalDecimal {
    #[verifier::type_invariant]
    spec fn well_formed(self) -> bool {
        self.unscaled_le@.len() == MAX_UNSCALED_BYTES
    }

    /// The unscaled integer.
    pub closed spec fn unscaled_spec(&self) -> int {
        le_signed(self.unscaled_le@)
    }

    /// The 32 bytes of the unscaled integer, little-endian two's complement.
    pub closed spec fn bytes_spec(&self) -> Seq<u8> {
        self.unscaled_le@
    }

    /// The number of decimal digits behind the point.
    pub closed spec fn scale_spec(&self) -> int {
        self.scale as int
    }

    /// A decimal from the bytes of its unscaled integer, in little-endian
    /// two's complement, and its scale. Fails with `ValueTooLarge` where the
    /// integer takes more than 32 bytes or the scale does not fit in eight
    /// bits.
    pub fn try_new(unscaled_le: Vec<u8>, scale: i64) -> (r: Result<LogicalDecimal, TypeError>)
        ensures
            r is Ok <==> unscaled_le@.len() <= MAX_UNSCALED_BYTES && -128 <= scale <= 127,
            r matches Ok(d) ==> d.unscaled_spec() == le_signed(unscaled_le@) && d.scale_spec()
                == scale && d.bytes_spec().len() == MAX_UNSCALED_BYTES && le_signed(
                d.bytes_spec(),
            ) == le_signed(unscaled_le@),
            r matches Err(e) ==> e@ == failure(ErrorKind::ValueTooLarge, "decimal"),
    {
        if unscaled_le.len() > MAX_UNSCALED_BYTES || scale < -128 || scale > 127 {
            return Err(TypeError::new(ErrorKind::ValueTooLarge, "decimal"));
        }
        Ok(LogicalDecimal { unscaled_le: sign_extend(unscaled_le), scale: scale as i8 })
    }

    /// The decimal `v * 10^(-scale)`.
    pub fn from_i128(v: i128, scale: i8) -> (r: LogicalDecimal)
        ensures
            r.unscaled_spec() == v,
            r.scale_spec() == scale,
            r.bytes_spec().len() == MAX_UNSCALED_BYTES,
            le_signed(r.bytes_spec()) == v,
    {
        LogicalDecimal { unscaled_le: sign_extend(i128_to_le_bytes(v)), scale }
    }

    /// The decimal whose unscaled integer the 32 bytes spell in little-endian
    /// two's complement.
    pub fn from_le_bytes(bytes: &[u8; 32], scale: i8) -> (r: LogicalDecimal)
        ensures
            r.bytes_spec() == bytes@,
            r.unscaled_spec() == le_signed(bytes@),
            r.scale_spec() == scale,
    {
        let mut out: Vec<u8> = Vec::new();
        let mut i: usize = 0;
        while i < 32
            invariant
                i <= 32,
                out@.len() == i,
                forall|j: int| 0 <= j < i ==> out@[j] == bytes@[j],
            decreases 32 - i,
        {
            out.push(bytes[i]);
            i += 1;
        }
        assert(out@ =~= bytes@);
        LogicalDecimal { unscaled_le: out, scale }
    }

    /// The 32 bytes of the unscaled integer, little-endian two's complement.
    pub fn unscaled_le_bytes(&self) -> (r: &Vec<u8>)
        ensures
            r@ == self.bytes_spec(),
            r@.len() == MAX_UNSCALED_BYTES,
            le_signed(r@) == self.unscaled_spec(),
    {
        proof {
            use_type_invariant(self);
        }
        &self.unscaled_le
    }

    /// The number of decimal digits behind the point.
    pub fn scale(&self) -> (r: i8)
        ensures
            r == self.scale_spec(),
    {
        self.scale
    }

    /// The decimal in plain notation, such as `123.45`.
    pub fn to_plain_string(&self) -> (r: String)
        ensures
            r@ == plain_decimal_text(self.unscaled_spec(), self.scale_spec()),
    {
        plain_decimal_string(&self.unscaled_le, self.scale)
    }

    /// Whether two decimals have the same unscaled integer and the same
    /// scale.
    pub fn equals(&self, other: &LogicalDecimal) -> (r: bool)
        ensures
            r == (self.unscaled_spec() == other.unscaled_spec() && self.scale_spec()
                == other.scale_spec()),
    {
        proof {
            use_type_invariant(self);
            use_type_invariant(other);
            if self.unscaled_spec() == other.unscaled_spec() {
                lemma_le_signed_injective(self.unscaled_le@, other.unscaled_le@);
            }
        }
        self.scale == other.scale && bytes_equal(&self.unscaled_le, &other.unscaled_le)
    }
}

impl Clone for LogicalDecimal {
    fn clone(&self) -> (r: LogicalDecimal)
        ensures
            r.bytes_spec() == self.bytes_spec(),
            r.unscaled_spec() == self.unscaled_spec(),
            r.scale_spec() == self.scale_spec(),
    {
        proof {
            use_type_invariant(self);
        }
        LogicalDecimal { unscaled_le: bytes_clone(&self.unscaled_le), scale: self.scale }
    }
}

/// Of two unsigned numbers of one length that agree above place `i`, the
/// one with the smaller byte at place `i` is the smaller.
pub proof fn lemma_le_unsigned_order(a: Seq<u8>, b: Seq<u8>, i: int)
    requires
        a.len() == b.len(),
        0 <= i < a.len(),
        forall|j: int| i < j < a.len() ==> a[j] == b[j],
        a[i] < b[i],
    ensures
        le_unsigned(a) < le_unsigned(b),
    decreases a.len(),
{
    let n = a.len();
    let p = pow256((n - 1) as nat);
    if i == n - 1 {
        lemma_le_unsigned_bound(a.drop_last());
        let x = a.last() as nat;
        let y = b.last() as nat;
        assert(x * p + p <= y * p) by (nonlinear_arith)
            requires
                x < y,
        ;
    } else {
        assert(a.last() == b.last());
        assert forall|j: int| i < j < a.drop_last().len() implies a.drop_last()[j] == b.drop_last()[j] by {
            assert(a[j] == b[j]);
        }
        lemma_le_unsigned_order(a.drop_last(), b.drop_last(), i);
    }
}

/// How two 256-bit integers in little-endian two's complement stand to each
/// other.
pub fn compare_signed_le(a: &[u8; 32], b: &[u8; 32]) -> (r: crate::ordering::Comparison)
    ensures
        r == crate::ordering::int_comparison(le_signed(a@), le_signed(b@)),
{
    let a_negative = a[31] >= 128;
    let b_negative = b[31] >= 128;
    proof {
        lemma_le_unsigned_bound(a@);
        lemma_le_unsigned_bound(b@);
    }
    if a_negative && !b_negative {
        return crate::ordering::Comparison::Less;
    }
    if !a_negative && b_negative {
        return crate::ordering::Comparison::Greater;
    }
    let mut i: usize = 32;
    while i > 0
        invariant
            i <= 32,
            forall|j: int| i <= j < 32 ==> a@[j] == b@[j],
            (a@[31] >= 128) == (b@[31] >= 128),
        decreases i,
    {
        i -= 1;
        if a[i] < b[i] {
            proof {
                lemma_le_unsigned_order(a@, b@, i as int);
            }
            return crate::ordering::Comparison::Less;
        }
        if a[i] > b[i] {
            proof {
                lemma_le_unsigned_order(b@, a@, i as int);
            }
            return crate::ordering::Comparison::Greater;
        }
    }
    assert(a@ =~= b@);
    crate::ordering::Comparison::Equal
}

/// Whether two byte strings are equal.
pub fn bytes_equal(a: &Vec<u8>, b: &Vec<u8>) -> (r: bool)
    ensures
        r == (a@ == b@),
{
    if a.len() != b.len() {
        return false;
    }
    let mut i: usize = 0;
    while i < a.len()
        invariant
            i <= a.len(),
            a.len() == b.len(),
            forall|j: int| 0 <= j < i ==> a@[j] == b@[j],
        decreases a.len() - i,
    {
        if a[i] != b[i] {
            return false;
        }
        i += 1;
    }
    assert(a@ =~= b@);
    true
}

/// A copy of a byte string.
pub fn bytes_clone(a: &Vec<u8>) -> (r: Vec<u8>)
    ensures
        r@ == a@,
{
    let mut out: Vec<u8> = Vec::new();
    let mut i: usize = 0;
    while i < a.len()
        invariant
            i <= a.len(),
            out@.len() == i,
            forall|j: int| 0 <= j < i ==> out@[j] == a@[j],
        decreases a.len() - i,
    {
        out.push(a[i]);
        i += 1;
    }
    assert(out@ =~= a@);
    out
}

} // verus!

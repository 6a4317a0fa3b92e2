//! Pretty printing: how the values of a logical type are shown.

use crate::decimal::{LogicalDecimal, le_signed, plain_decimal_text};
use crate::error::{ErrorKind, SpecError, TypeError, failure};
use crate::datatype::Field;
use crate::scalar::{MapEntry, ScalarValue, is_null_value};
use crate::text::{digit_char, digit_str, int_text, nat_text, push_int_text, push_nat_text};
use vstd::prelude::*;
use vstd::string::StringExecFns;

verus! {

/// How the values of a type are shown.
pub trait ValuePrettyPrinter: Send + Sync {
    /// The text that this printer gives for a value, or the error that it
    /// ends in. A printer that is written without proofs leaves it
    /// open.
    open spec fn printed(&self, value: ScalarValue) -> Result<Seq<char>, SpecError> {
        arbitrary()
    }

    /// The text of a scalar value.
    fn pretty_print_scalar(&self, value: &ScalarValue) -> (r: Result<String, TypeError>)
        ensures
            match r {
                Ok(s) => self.printed(*value) == Ok::<Seq<char>, SpecError>(s@),
                Err(e) => self.printed(*value) == Err::<Seq<char>, SpecError>(e@),
            },
    ;

    /// The text of the value in row `index` of a column: that of the scalar
    /// at that row. Fails with `NotFound` where the column has no such row.
    fn pretty_print_array(&self, array: &Vec<ScalarValue>, index: usize) -> (r: Result<
        String,
        TypeError,
    >)
        ensures
            index < array@.len() ==> match r {
                Ok(s) => self.printed(array@[index as int]) == Ok::<Seq<char>, SpecError>(s@),
                Err(e) => self.printed(array@[index as int]) == Err::<Seq<char>, SpecError>(e@),
            },
            index >= array@.len() ==> (r matches Err(e) && e@ == failure(
                ErrorKind::NotFound,
                "row",
            )),
    {
        if index >= array.len() {
            return Err(TypeError::new(ErrorKind::NotFound, "row"));
        }
        self.pretty_print_scalar(&array[index])
    }
}

/// The text of a byte string: the bytes as decimal numbers with commas
/// between them.
pub open spec fn bytes_text(bytes: Seq<u8>) -> Seq<char>
    decreases bytes.len(),
{
    if bytes.len() == 0 {
        Seq::empty()
    } else if bytes.len() == 1 {
        nat_text(bytes[0] as nat)
    } else {
        bytes_text(bytes.drop_last()) + ","@ + nat_text(bytes.last() as nat)
    }
}

/// The standard texts of the first `n` values, with `, ` between them.
pub open spec fn joined_text(values: Seq<ScalarValue>, n: nat) -> Result<Seq<char>, SpecError>
    decreases values, n,
{
    if n == 0 || n > values.len() {
        Ok(Seq::empty())
    } else {
        match joined_text(values, (n - 1) as nat) {
            Err(e) => Err(e),
            Ok(prefix) => match default_text(values[n - 1]) {
                Err(e) => Err(e),
                Ok(t) => Ok(
                    if n == 1 {
                        t
                    } else {
                        prefix + ", "@ + t
                    },
                ),
            },
        }
    }
}

/// The standard texts of the first `n` fields of a struct, each as
/// `name: value`, with `, ` between them.
pub open spec fn fields_text(fields: Seq<Field>, values: Seq<ScalarValue>, n: nat) -> Result<
    Seq<char>,
    SpecError,
>
    decreases values, n,
{
    if n == 0 || n > values.len() || n > fields.len() {
        Ok(Seq::empty())
    } else {
        match fields_text(fields, values, (n - 1) as nat) {
            Err(e) => Err(e),
            Ok(prefix) => match default_text(values[n - 1]) {
                Err(e) => Err(e),
                Ok(t) => Ok(
                    if n == 1 {
                        fields[n - 1].name@ + ": "@ + t
                    } else {
                        prefix + ", "@ + fields[n - 1].name@ + ": "@ + t
                    },
                ),
            },
        }
    }
}

/// The standard texts of the first `n` entries of a map, each as
/// `key: value`, with `, ` between them.
pub open spec fn entries_text(entries: Seq<MapEntry>, n: nat) -> Result<Seq<char>, SpecError>
    decreases entries, n,
{
    if n == 0 || n > entries.len() {
        Ok(Seq::empty())
    } else {
        match entries_text(entries, (n - 1) as nat) {
            Err(e) => Err(e),
            Ok(prefix) => match default_text(entries[n - 1].key) {
                Err(e) => Err(e),
                Ok(k) => match default_text(entries[n - 1].value) {
                    Err(e) => Err(e),
                    Ok(t) => Ok(
                        if n == 1 {
                            k + ": "@ + t
                        } else {
                            prefix + ", "@ + k + ": "@ + t
                        },
                    ),
                },
            },
        }
    }
}

/// A text between two brackets.
pub open spec fn bracketed(open: &str, inner: Result<Seq<char>, SpecError>, close: &str) -> Result<
    Seq<char>,
    SpecError,
> {
    match inner {
        Ok(t) => Ok(open@ + t + close@),
        Err(e) => Err(e),
    }
}

/// The standard text of a value: `NULL` for a missing value, `true` or
/// `false`, the decimal text of an integer, of a date, a time, a timestamp
/// or a duration, a string as it is, the bytes of a binary value as numbers
/// with commas between them, a decimal in plain notation, an interval by
/// its parts (`3d -5ms`, `1mo 2d 3ns`), a list as `[a, b]`, a struct as
/// `{name: a, other: b}`, a map as `{key: a, key: b}`, a union value as
/// `tag:value`, and for a dictionary value the text of its decoded value. A
/// float has no standard text here, nor has a value that holds one.
pub open spec fn default_text(v: ScalarValue) -> Result<Seq<char>, SpecError>
    decreases v,
{
    if is_null_value(v) {
        Ok("NULL"@)
    } else {
        match v {
            ScalarValue::Boolean(Some(x)) => Ok(
                if x {
                    "true"@
                } else {
                    "false"@
                },
            ),
            ScalarValue::Decimal128(Some(x), _, s) => Ok(plain_decimal_text(x as int, s as int)),
            ScalarValue::Decimal256(Some(b), _, s) => Ok(
                plain_decimal_text(le_signed(b@), s as int),
            ),
            ScalarValue::Int8(Some(x)) => Ok(int_text(x as int)),
            ScalarValue::Int16(Some(x)) => Ok(int_text(x as int)),
            ScalarValue::Int32(Some(x)) => Ok(int_text(x as int)),
            ScalarValue::Int64(Some(x)) => Ok(int_text(x as int)),
            ScalarValue::UInt8(Some(x)) => Ok(int_text(x as int)),
            ScalarValue::UInt16(Some(x)) => Ok(int_text(x as int)),
            ScalarValue::UInt32(Some(x)) => Ok(int_text(x as int)),
            ScalarValue::UInt64(Some(x)) => Ok(int_text(x as int)),
            ScalarValue::Utf8(Some(s)) => Ok(s@),
            ScalarValue::Utf8View(Some(s)) => Ok(s@),
            ScalarValue::LargeUtf8(Some(s)) => Ok(s@),
            ScalarValue::Binary(Some(b)) => Ok(bytes_text(b@)),
            ScalarValue::BinaryView(Some(b)) => Ok(bytes_text(b@)),
            ScalarValue::FixedSizeBinary(_, Some(b)) => Ok(bytes_text(b@)),
            ScalarValue::LargeBinary(Some(b)) => Ok(bytes_text(b@)),
            ScalarValue::FixedSizeList(l) => bracketed(
                "[",
                joined_text(l.values@, l.values@.len()),
                "]",
            ),
            ScalarValue::List(l) => bracketed("[", joined_text(l.values@, l.values@.len()), "]"),
            ScalarValue::LargeList(l) => bracketed(
                "[",
                joined_text(l.values@, l.values@.len()),
                "]",
            ),
            ScalarValue::Struct(s) => if s.fields@.len() != s.values@.len() {
                Err(failure(ErrorKind::InternalInvariantViolation, "struct"))
            } else {
                bracketed("{", fields_text(s.fields@, s.values@, s.values@.len()), "}")
            },
            ScalarValue::Mapping(m) => bracketed(
                "{",
                entries_text(m.entries@, m.entries@.len()),
                "}",
            ),
            ScalarValue::Date32(Some(x)) => Ok(int_text(x as int)),
            ScalarValue::Date64(Some(x)) => Ok(int_text(x as int)),
            ScalarValue::Time32Second(Some(x)) => Ok(int_text(x as int)),
            ScalarValue::Time32Millisecond(Some(x)) => Ok(int_text(x as int)),
            ScalarValue::Time64Microsecond(Some(x)) => Ok(int_text(x as int)),
            ScalarValue::Time64Nanosecond(Some(x)) => Ok(int_text(x as int)),
            ScalarValue::TimestampSecond(Some(x), _) => Ok(int_text(x as int)),
            ScalarValue::TimestampMillisecond(Some(x), _) => Ok(int_text(x as int)),
            ScalarValue::TimestampMicrosecond(Some(x), _) => Ok(int_text(x as int)),
            ScalarValue::TimestampNanosecond(Some(x), _) => Ok(int_text(x as int)),
            ScalarValue::IntervalYearMonth(Some(x)) => Ok(int_text(x as int)),
            ScalarValue::IntervalDayTime(Some(x)) => Ok(
                int_text(x.days as int) + "d "@ + int_text(x.milliseconds as int)
                    + "ms"@,
            ),
            ScalarValue::IntervalMonthDayNano(Some(x)) => Ok(
                int_text(x.months as int) + "mo "@ + int_text(x.days as int)
                    + "d "@ + int_text(x.nanoseconds as int) + "ns"@,
            ),
            ScalarValue::DurationSecond(Some(x)) => Ok(int_text(x as int)),
            ScalarValue::DurationMillisecond(Some(x)) => Ok(int_text(x as int)),
            ScalarValue::DurationMicrosecond(Some(x)) => Ok(int_text(x as int)),
            ScalarValue::DurationNanosecond(Some(x)) => Ok(int_text(x as int)),
            ScalarValue::Union(Some((type_id, inner)), _, _) => match default_text(*inner) {
                Ok(t) => Ok(int_text(type_id as int) + ":"@ + t),
                Err(e) => Err(e),
            },
            ScalarValue::Dictionary(_, inner) => default_text(*inner),
            _ => Err(failure(ErrorKind::Unimplemented, "standard text")),
        }
    }
}

/// Appends the text of a byte string to `out`.
pub fn push_bytes_text(out: &mut String, bytes: &Vec<u8>)
    ensures
        final(out)@ == old(out)@ + bytes_text(bytes@),
{
    let ghost start = out@;
    let mut i: usize = 0;
    assert(bytes_text(bytes@.subrange(0, 0)) =~= Seq::empty());
    assert(out@ =~= start + bytes_text(bytes@.subrange(0, 0)));
    while i < bytes.len()
        invariant
            i <= bytes.len(),
            out@ == start + bytes_text(bytes@.subrange(0, i as int)),
        decreases bytes.len() - i,
    {
        let ghost prefix = bytes@.subrange(0, i as int);
        let ghost next = bytes@.subrange(0, i + 1);
        if i > 0 {
            out.append(",");
        }
        push_nat_text(out, bytes[i] as u128);
        proof {
            assert(next.drop_last() =~= prefix);
            assert(next.last() == bytes@[i as int]);
            if i == 0 {
                assert(bytes_text(prefix) =~= Seq::empty());
                assert(out@ =~= start + nat_text(bytes@[0] as nat));
            } else {
                assert(out@ =~= start + (bytes_text(prefix) + ","@ + nat_text(
                    bytes@[i as int] as nat,
                )));
            }
        }
        i += 1;
    }
    assert(bytes@.subrange(0, bytes@.len() as int) =~= bytes@);
}

/// The text of a byte string.
pub fn format_bytes(bytes: &Vec<u8>) -> (r: String)
    ensures
        r@ == bytes_text(bytes@),
{
    let mut out = String::new();
    push_bytes_text(&mut out, bytes);
    assert(out@ =~= bytes_text(bytes@));
    out
}

/// The default pretty printer: it shows a value in its standard text.
#[derive(Clone, Copy, Debug)]
pub struct DefaultValuePrettyPrinter;

impl ValuePrettyPrinter for DefaultValuePrettyPrinter {
    open spec fn printed(&self, value: ScalarValue) -> Result<Seq<char>, SpecError> {
        default_text(value)
    }

    fn pretty_print_scalar(&self, value: &ScalarValue) -> (r: Result<String, TypeError>) {
        default_pretty_print(value)
    }
}

proof fn lemma_joined_text_error(values: Seq<ScalarValue>, n: nat, m: nat)
    requires
        n <= m <= values.len(),
        joined_text(values, n) is Err,
    ensures
        joined_text(values, m) == joined_text(values, n),
    decreases m - n,
{
    if n < m {
        lemma_joined_text_error(values, n, (m - 1) as nat);
    }
}

proof fn lemma_fields_text_error(fields: Seq<Field>, values: Seq<ScalarValue>, n: nat, m: nat)
    requires
        n <= m <= values.len(),
        m <= fields.len(),
        fields_text(fields, values, n) is Err,
    ensures
        fields_text(fields, values, m) == fields_text(fields, values, n),
    decreases m - n,
{
    if n < m {
        lemma_fields_text_error(fields, values, n, (m - 1) as nat);
    }
}

proof fn lemma_entries_text_error(entries: Seq<MapEntry>, n: nat, m: nat)
    requires
        n <= m <= entries.len(),
        entries_text(entries, n) is Err,
    ensures
        entries_text(entries, m) == entries_text(entries, n),
    decreases m - n,
{
    if n < m {
        lemma_entries_text_error(entries, n, (m - 1) as nat);
    }
}

/// Appends the standard texts of the values, with `, ` between them.
fn push_joined_text(out: &mut String, values: &Vec<ScalarValue>) -> (r: Result<(), TypeError>)
    ensures
        match r {
            Ok(_) => joined_text(values@, values@.len()) matches Ok(t) && final(out)@ == old(
                out,
            )@ + t,
            Err(e) => joined_text(values@, values@.len()) == Err::<Seq<char>, SpecError>(e@),
        },
    decreases values,
{
    let ghost start = out@;
    let mut i: usize = 0;
    assert(out@ =~= start + Seq::<char>::empty());
    while i < values.len()
        invariant
            i <= values.len(),
            joined_text(values@, i as nat) matches Ok(t) && out@ == start + t,
        decreases values.len() - i,
    {
        let ghost prefix = joined_text(values@, i as nat)->Ok_0;
        if i > 0 {
            out.append(", ");
        }
        let ghost middle = out@;
        match push_default_text(out, &values[i]) {
            Err(e) => {
                proof {
                    lemma_joined_text_error(values@, (i + 1) as nat, values@.len());
                }
                return Err(e);
            },
            Ok(_) => {
                proof {
                    let t = default_text(values@[i as int])->Ok_0;
                    if i == 0 {
                        assert(prefix =~= Seq::<char>::empty());
                        assert(out@ =~= start + t);
                    } else {
                        assert(middle =~= start + prefix + ", "@);
                        assert(out@ =~= start + (prefix + ", "@ + t));
                    }
                }
            },
        }
        i += 1;
    }
    Ok(())
}

/// Appends the standard texts of the fields of a struct.
fn push_fields_text(out: &mut String, fields: &Vec<Field>, values: &Vec<ScalarValue>) -> (r:
    Result<(), TypeError>)
    requires
        fields@.len() == values@.len(),
    ensures
        match r {
            Ok(_) => fields_text(fields@, values@, values@.len()) matches Ok(t) && final(out)@
                == old(out)@ + t,
            Err(e) => fields_text(fields@, values@, values@.len()) == Err::<Seq<char>, SpecError>(
                e@,
            ),
        },
    decreases values,
{
    let ghost start = out@;
    let mut i: usize = 0;
    assert(out@ =~= start + Seq::<char>::empty());
    while i < values.len()
        invariant
            i <= values.len(),
            fields@.len() == values@.len(),
            fields_text(fields@, values@, i as nat) matches Ok(t) && out@ == start + t,
        decreases values.len() - i,
    {
        let ghost prefix = fields_text(fields@, values@, i as nat)->Ok_0;
        if i > 0 {
            out.append(", ");
        }
        out.append(fields[i].name.as_str());
        out.append(": ");
        let ghost middle = out@;
        match push_default_text(out, &values[i]) {
            Err(e) => {
                proof {
                    lemma_fields_text_error(fields@, values@, (i + 1) as nat, values@.len());
                }
                return Err(e);
            },
            Ok(_) => {
                proof {
                    let t = default_text(values@[i as int])->Ok_0;
                    let name = fields@[i as int].name@;
                    if i == 0 {
                        assert(prefix =~= Seq::<char>::empty());
                        assert(middle =~= start + name + ": "@);
                        assert(out@ =~= start + (name + ": "@ + t));
                    } else {
                        assert(middle =~= start + prefix + ", "@ + name + ": "@);
                        assert(out@ =~= start + (prefix + ", "@ + name + ": "@
                            + t));
                    }
                }
            },
        }
        i += 1;
    }
    Ok(())
}

/// Appends the standard texts of the entries of a map.
fn push_entries_text(out: &mut String, entries: &Vec<MapEntry>) -> (r: Result<(), TypeError>)
    ensures
        match r {
            Ok(_) => entries_text(entries@, entries@.len()) matches Ok(t) && final(out)@ == old(
                out,
            )@ + t,
            Err(e) => entries_text(entries@, entries@.len()) == Err::<Seq<char>, SpecError>(e@),
        },
    decreases entries,
{
    let ghost start = out@;
    let mut i: usize = 0;
    assert(out@ =~= start + Seq::<char>::empty());
    while i < entries.len()
        invariant
            i <= entries.len(),
            entries_text(entries@, i as nat) matches Ok(t) && out@ == start + t,
        decreases entries.len() - i,
    {
        let ghost prefix = entries_text(entries@, i as nat)->Ok_0;
        if i > 0 {
            out.append(", ");
        }
        let ghost first = out@;
        match push_default_text(out, &entries[i].key) {
            Err(e) => {
                proof {
                    lemma_entries_text_error(entries@, (i + 1) as nat, entries@.len());
                }
                return Err(e);
            },
            Ok(_) => {},
        }
        out.append(": ");
        let ghost middle = out@;
        match push_default_text(out, &entries[i].value) {
            Err(e) => {
                proof {
                    lemma_entries_text_error(entries@, (i + 1) as nat, entries@.len());
                }
                return Err(e);
            },
            Ok(_) => {
                proof {
                    let k = default_text(entries@[i as int].key)->Ok_0;
                    let t = default_text(entries@[i as int].value)->Ok_0;
                    if i == 0 {
                        assert(prefix =~= Seq::<char>::empty());
                        assert(middle =~= start + k + ": "@);
                        assert(out@ =~= start + (k + ": "@ + t));
                    } else {
                        assert(first =~= start + prefix + ", "@);
                        assert(middle =~= start + prefix + ", "@ + k + ": "@);
                        assert(out@ =~= start + (prefix + ", "@ + k + ": "@
                            + t));
                    }
                }
            },
        }
        i += 1;
    }
    Ok(())
}

/// Appends the standard text of a value to `out`. Where the value has
/// none, what `out` holds is not to be used.
pub fn push_default_text(out: &mut String, value: &ScalarValue) -> (r: Result<(), TypeError>)
    ensures
        match r {
            Ok(_) => default_text(*value) matches Ok(t) && final(out)@ == old(out)@ + t,
            Err(e) => default_text(*value) == Err::<Seq<char>, SpecError>(e@),
        },
    decreases value,
{
    let ghost start = out@;
    if value.is_null() {
        out.append("NULL");
        return Ok(());
    }
    match value {
        ScalarValue::Boolean(Some(x)) => {
            if *x {
                out.append("true");
            } else {
                out.append("false");
            }
            Ok(())
        },
        ScalarValue::Decimal128(Some(x), _, s) => {
            let text = LogicalDecimal::from_i128(*x, *s).to_plain_string();
            out.append(text.as_str());
            Ok(())
        },
        ScalarValue::Decimal256(Some(b), _, s) => {
            let text = LogicalDecimal::from_le_bytes(b, *s).to_plain_string();
            out.append(text.as_str());
            Ok(())
        },
        ScalarValue::Int8(Some(x)) => {
            push_int_text(out, *x as i128);
            Ok(())
        },
        ScalarValue::Int16(Some(x)) => {
            push_int_text(out, *x as i128);
            Ok(())
        },
        ScalarValue::Int32(Some(x)) => {
            push_int_text(out, *x as i128);
            Ok(())
        },
        ScalarValue::Int64(Some(x)) => {
            push_int_text(out, *x as i128);
            Ok(())
        },
        ScalarValue::UInt8(Some(x)) => {
            push_int_text(out, *x as i128);
            Ok(())
        },
        ScalarValue::UInt16(Some(x)) => {
            push_int_text(out, *x as i128);
            Ok(())
        },
        ScalarValue::UInt32(Some(x)) => {
            push_int_text(out, *x as i128);
            Ok(())
        },
        ScalarValue::UInt64(Some(x)) => {
            push_int_text(out, *x as i128);
            Ok(())
        },
        ScalarValue::Utf8(Some(s)) => {
            out.append(s.as_str());
            Ok(())
        },
        ScalarValue::Utf8View(Some(s)) => {
            out.append(s.as_str());
            Ok(())
        },
        ScalarValue::LargeUtf8(Some(s)) => {
            out.append(s.as_str());
            Ok(())
        },
        ScalarValue::Binary(Some(b)) => {
            push_bytes_text(out, b);
            Ok(())
        },
        ScalarValue::BinaryView(Some(b)) => {
            push_bytes_text(out, b);
            Ok(())
        },
        ScalarValue::FixedSizeBinary(_, Some(b)) => {
            push_bytes_text(out, b);
            Ok(())
        },
        ScalarValue::LargeBinary(Some(b)) => {
            push_bytes_text(out, b);
            Ok(())
        },
        ScalarValue::FixedSizeList(l) => {
            out.append("[");
            push_joined_text(out, &l.values)?;
            out.append("]");
            proof {
                let t = joined_text(l.values@, l.values@.len())->Ok_0;
                assert(out@ =~= start + ("["@ + t + "]"@));
            }
            Ok(())
        },
        ScalarValue::List(l) => {
            out.append("[");
            push_joined_text(out, &l.values)?;
            out.append("]");
            proof {
                let t = joined_text(l.values@, l.values@.len())->Ok_0;
                assert(out@ =~= start + ("["@ + t + "]"@));
            }
            Ok(())
        },
        ScalarValue::LargeList(l) => {
            out.append("[");
            push_joined_text(out, &l.values)?;
            out.append("]");
            proof {
                let t = joined_text(l.values@, l.values@.len())->Ok_0;
                assert(out@ =~= start + ("["@ + t + "]"@));
            }
            Ok(())
        },
        ScalarValue::Struct(s) => {
            if s.fields.len() != s.values.len() {
                return Err(TypeError::new(ErrorKind::InternalInvariantViolation, "struct"));
            }
            out.append("{");
            push_fields_text(out, &s.fields, &s.values)?;
            out.append("}");
            proof {
                let t = fields_text(s.fields@, s.values@, s.values@.len())->Ok_0;
                assert(out@ =~= start + ("{"@ + t + "}"@));
            }
            Ok(())
        },
        ScalarValue::Mapping(m) => {
            out.append("{");
            push_entries_text(out, &m.entries)?;
            out.append("}");
            proof {
                let t = entries_text(m.entries@, m.entries@.len())->Ok_0;
                assert(out@ =~= start + ("{"@ + t + "}"@));
            }
            Ok(())
        },
        ScalarValue::Date32(Some(x)) => {
            push_int_text(out, *x as i128);
            Ok(())
        },
        ScalarValue::Date64(Some(x)) => {
            push_int_text(out, *x as i128);
            Ok(())
        },
        ScalarValue::Time32Second(Some(x)) => {
            push_int_text(out, *x as i128);
            Ok(())
        },
        ScalarValue::Time32Millisecond(Some(x)) => {
            push_int_text(out, *x as i128);
            Ok(())
        },
        ScalarValue::Time64Microsecond(Some(x)) => {
            push_int_text(out, *x as i128);
            Ok(())
        },
        ScalarValue::Time64Nanosecond(Some(x)) => {
            push_int_text(out, *x as i128);
            Ok(())
        },
        ScalarValue::TimestampSecond(Some(x), _) => {
            push_int_text(out, *x as i128);
            Ok(())
        },
        ScalarValue::TimestampMillisecond(Some(x), _) => {
            push_int_text(out, *x as i128);
            Ok(())
        },
        ScalarValue::TimestampMicrosecond(Some(x), _) => {
            push_int_text(out, *x as i128);
            Ok(())
        },
        ScalarValue::TimestampNanosecond(Some(x), _) => {
            push_int_text(out, *x as i128);
            Ok(())
        },
        ScalarValue::IntervalYearMonth(Some(x)) => {
            push_int_text(out, *x as i128);
            Ok(())
        },
        ScalarValue::IntervalDayTime(Some(x)) => {
            push_int_text(out, x.days as i128);
            out.append("d ");
            push_int_text(out, x.milliseconds as i128);
            out.append("ms");
            assert(out@ =~= start + (int_text(x.days as int) + "d "@ + int_text(
                x.milliseconds as int,
            ) + "ms"@));
            Ok(())
        },
        ScalarValue::IntervalMonthDayNano(Some(x)) => {
            push_int_text(out, x.months as i128);
            out.append("mo ");
            push_int_text(out, x.days as i128);
            out.append("d ");
            push_int_text(out, x.nanoseconds as i128);
            out.append("ns");
            assert(out@ =~= start + (int_text(x.months as int) + "mo "@ + int_text(
                x.days as int,
            ) + "d "@ + int_text(x.nanoseconds as int) + "ns"@));
            Ok(())
        },
        ScalarValue::DurationSecond(Some(x)) => {
            push_int_text(out, *x as i128);
            Ok(())
        },
        ScalarValue::DurationMillisecond(Some(x)) => {
            push_int_text(out, *x as i128);
            Ok(())
        },
        ScalarValue::DurationMicrosecond(Some(x)) => {
            push_int_text(out, *x as i128);
            Ok(())
        },
        ScalarValue::DurationNanosecond(Some(x)) => {
            push_int_text(out, *x as i128);
            Ok(())
        },
        ScalarValue::Union(Some((type_id, inner)), _, _) => {
            push_int_text(out, *type_id as i128);
            out.append(":");
            let ghost middle = out@;
            push_default_text(out, inner)?;
            proof {
                let t = default_text(**inner)->Ok_0;
                assert(middle =~= start + int_text(*type_id as int) + ":"@);
                assert(out@ =~= start + (int_text(*type_id as int) + ":"@ + t));
            }
            Ok(())
        },
        ScalarValue::Dictionary(_, inner) => push_default_text(out, inner),
        _ => Err(TypeError::new(ErrorKind::Unimplemented, "standard text")),
    }
}

/// The standard text of a value.
pub fn default_pretty_print(value: &ScalarValue) -> (r: Result<String, TypeError>)
    ensures
        match r {
            Ok(s) => default_text(*value) == Ok::<Seq<char>, SpecError>(s@),
            Err(e) => default_text(*value) == Err::<Seq<char>, SpecError>(e@),
        },
{
    let mut out = String::new();
    push_default_text(&mut out, value)?;
    assert(out@ =~= default_text(*value)->Ok_0);
    Ok(out)
}

/// The position in the byte string of the byte that the hexadecimal digit
/// at place `i` of a UUID's text shows; the hyphens stand at the places 8,
/// 13, 18 and 23.
pub open spec fn uuid_digit_index(i: int) -> int {
    if i < 8 {
        i
    } else if i < 13 {
        i - 1
    } else if i < 18 {
        i - 2
    } else if i < 23 {
        i - 3
    } else {
        i - 4
    }
}

/// The canonical text of a UUID: 32 lower-case hexadecimal digits in five
/// groups of 8, 4, 4, 4 and 12, with hyphens between the groups. Each byte
/// gives two digits, the high half first.
pub open spec fn uuid_text(bytes: Seq<u8>) -> Seq<char> {
    Seq::new(
        36,
        |i: int|
            if i == 8 || i == 13 || i == 18 || i == 23 {
                '-'
            } else {
                let k = uuid_digit_index(i);
                if k % 2 == 0 {
                    digit_char((bytes[k / 2] / 16) as int)
                } else {
                    digit_char((bytes[k / 2] % 16) as int)
                }
            },
    )
}

/// What the UUID printer gives for a value: the canonical text for a
/// fixed-size binary value of exactly 16 bytes, `NULL` for a missing one,
/// and a `TypeMismatch` for anything else.
pub open spec fn uuid_printed(v: ScalarValue) -> Result<Seq<char>, SpecError> {
    match v {
        ScalarValue::FixedSizeBinary(_, None) => Ok("NULL"@),
        ScalarValue::FixedSizeBinary(_, Some(b)) => if b@.len() == 16 {
            Ok(uuid_text(b@))
        } else {
            Err(failure(ErrorKind::TypeMismatch, "arrow.uuid"))
        },
        _ => Err(failure(ErrorKind::TypeMismatch, "arrow.uuid")),
    }
}

/// The canonical text of a UUID. Fails with `TypeMismatch` where there are
/// not exactly 16 bytes.
pub fn format_uuid(bytes: &Vec<u8>) -> (r: Result<String, TypeError>)
    ensures
        r is Ok <==> bytes@.len() == 16,
        r matches Ok(s) ==> s@ == uuid_text(bytes@),
        r matches Err(e) ==> e@ == failure(ErrorKind::TypeMismatch, "arrow.uuid"),
{
    if bytes.len() != 16 {
        return Err(TypeError::new(ErrorKind::TypeMismatch, "arrow.uuid"));
    }
    let mut out = String::new();
    let mut i: usize = 0;
    while i < 16
        invariant
            i <= 16,
            bytes@.len() == 16,
            out@.len() == 2 * i + (if i > 10 {
                4int
            } else if i > 8 {
                3int
            } else if i > 6 {
                2int
            } else if i > 4 {
                1int
            } else {
                0int
            }),
            forall|j: int| 0 <= j < out@.len() ==> out@[j] == uuid_text(bytes@)[j],
        decreases 16 - i,
    {
        if i == 4 || i == 6 || i == 8 || i == 10 {
            proof {
                reveal_strlit("-");
            }
            out.append("-");
        }
        let b = bytes[i];
        out.append(digit_str(b / 16));
        out.append(digit_str(b % 16));
        i += 1;
    }
    assert(out@ =~= uuid_text(bytes@));
    Ok(out)
}

/// The pretty printer of UUIDs.
#[derive(Clone, Copy, Debug)]
pub struct UuidPrettyPrinter;

impl ValuePrettyPrinter for UuidPrettyPrinter {
    open spec fn printed(&self, value: ScalarValue) -> Result<Seq<char>, SpecError> {
        uuid_printed(value)
    }

    fn pretty_print_scalar(&self, value: &ScalarValue) -> (r: Result<String, TypeError>) {
        match value {
            ScalarValue::FixedSizeBinary(_, None) => Ok("NULL".to_owned()),
            ScalarValue::FixedSizeBinary(_, Some(b)) => format_uuid(b),
            _ => Err(TypeError::new(ErrorKind::TypeMismatch, "arrow.uuid")),
        }
    }
}

} // verus!

//! The untyped wire values exchanged with the service.
//!
//! A cell's raw `value` and its structured `objectValue` travel as plain
//! JSON. This module models such a value as a tree of plain data: the
//! numeric leaves are exact decimals, so that `90` and `90.0` on the wire
//! denote one and the same number.

use vstd::prelude::*;

verus! {

/// `10^e`, used to relate a decimal mantissa/exponent pair to its value.
pub open spec fn pow10(e: nat) -> nat
    decreases e,
{
    if e == 0 {
        1
    } else {
        10 * pow10((e - 1) as nat)
    }
}

pub proof fn lemma_pow10_increases(a: nat, b: nat)
    requires
        a <= b,
    ensures
        pow10(a) <= pow10(b),
        1 <= pow10(a),
    decreases b,
{
    if a == b {
        if a > 0 {
            lemma_pow10_increases((a - 1) as nat, (b - 1) as nat);
        }
    } else {
        lemma_pow10_increases(a, (b - 1) as nat);
    }
}

pub proof fn lemma_pow10_20_exceeds_u64()
    ensures
        pow10(20) > u64::MAX,
{
    reveal_with_fuel(pow10, 21);
    assert(pow10(20) == 0x5_6bc7_5e2d_6310_0000) by {
        reveal_with_fuel(pow10, 21);
    }
}

/// A decimal number, exactly as a JSON literal denotes one: the value is
/// `mantissa * 10^exponent`, negated when `negative` is set.
///
/// A canonical `Number` (the only kind the constructors produce) has no
/// trailing zero folded into the mantissa and only one form of zero, so two
/// canonical numbers are equal exactly when they denote the same value:
/// `90` and `90.0` both normalize to mantissa `9`, exponent `1`.
#[derive(Clone, Copy, Debug, PartialEq, Eq, Structural)]
pub struct Number {
    /// Whether the value is negative.
    pub negative: bool,
    /// The decimal digits of the value, without trailing zeros.
    pub mantissa: u64,
    /// The power of ten scaling the mantissa.
    pub exponent: i32,
}

impl Number {
    /// A canonical number has a unique representation for each value.
    pub open spec fn is_canonical(self) -> bool {
        if self.mantissa == 0 {
            !self.negative && self.exponent == 0
        } else {
            self.mantissa % 10 != 0
        }
    }

    /// The canonical form of `(negative, mantissa, exponent)`.
    pub open spec fn spec_norm(negative: bool, mantissa: u64, exponent: int) -> Number
        decreases mantissa,
    {
        if mantissa == 0 {
            Number { negative: false, mantissa: 0, exponent: 0 }
        } else if mantissa % 10 == 0 {
            Self::spec_norm(negative, mantissa / 10, exponent + 1)
        } else {
            Number { negative, mantissa, exponent: exponent as i32 }
        }
    }

    proof fn lemma_norm_canonical(negative: bool, mantissa: u64, exponent: int)
        ensures
            Self::spec_norm(negative, mantissa, exponent).is_canonical(),
        decreases mantissa,
    {
        if mantissa != 0 && mantissa % 10 == 0 {
            Self::lemma_norm_canonical(negative, mantissa / 10, exponent + 1);
        }
    }

    /// Build the canonical number `(-1)^negative * mantissa * 10^exponent`.
    pub fn new(negative: bool, mantissa: u64, exponent: i32) -> (r: Number)
        requires
            exponent <= i32::MAX - 19,
        ensures
            r == Self::spec_norm(negative, mantissa, exponent as int),
            r.is_canonical(),
    {
        let mut m: u64 = mantissa;
        let mut e: i32 = exponent;
        proof {
            assert(pow10(0) == 1);
            assert(mantissa * 1 == mantissa);
        }
        while m != 0 && m % 10 == 0
            invariant
                exponent <= i32::MAX - 19,
                exponent <= e <= exponent + 19,
                m * pow10((e - exponent) as nat) == mantissa,
                Self::spec_norm(negative, m, e as int) == Self::spec_norm(
                    negative,
                    mantissa,
                    exponent as int,
                ),
            decreases m,
        {
            proof {
                let steps: nat = (e - exponent) as nat;
                assert(m == (m / 10) * 10);
                assert((m / 10) * pow10(steps + 1) == m * pow10(steps)) by {
                    assert(pow10(steps + 1) == 10 * pow10(steps));
                    assert((m / 10) * (10 * pow10(steps)) == ((m / 10) * 10) * pow10(steps))
                        by (nonlinear_arith);
                }
                // The exponent cannot climb past 19 steps: ten more would
                // put the original mantissa beyond `u64::MAX`.
                if e - exponent + 1 > 19 {
                    lemma_pow10_increases(20, (e - exponent + 1) as nat);
                    assert((m / 10) * pow10((e - exponent + 1) as nat) >= 1 * pow10(
                        (e - exponent + 1) as nat,
                    )) by (nonlinear_arith)
                        requires
                            m / 10 >= 1,
                    ;
                    lemma_pow10_20_exceeds_u64();
                }
            }
            m = m / 10;
            e = e + 1;
        }
        proof {
            Self::lemma_norm_canonical(negative, mantissa, exponent as int);
        }
        if m == 0 {
            Number { negative: false, mantissa: 0, exponent: 0 }
        } else {
            Number { negative, mantissa: m, exponent: e }
        }
    }

    /// The canonical number for an unsigned integer.
    pub fn from_u64(value: u64) -> (r: Number)
        ensures
            r == Self::spec_norm(false, value, 0),
            r.is_canonical(),
    {
        Self::new(false, value, 0)
    }

    /// The canonical number for a signed integer.
    pub fn from_i64(value: i64) -> (r: Number)
        ensures
            r == Self::spec_norm(value < 0, (if value < 0 {
                -(value as int)
            } else {
                value as int
            }) as u64, 0),
            r.is_canonical(),
    {
        if value >= 0 {
            Self::new(false, value as u64, 0)
        } else {
            let magnitude: u64 = (-(value as i128)) as u64;
            Self::new(true, magnitude, 0)
        }
    }

    /// The unsigned integer a number denotes, when it denotes one.
    pub open spec fn as_u64_spec(self) -> Option<u64> {
        if !self.negative && self.exponent >= 0 && self.mantissa * pow10(self.exponent as nat)
            <= u64::MAX {
            Some((self.mantissa * pow10(self.exponent as nat)) as u64)
        } else {
            None
        }
    }

    /// Read the number back as a `u64`; `None` when it is negative,
    /// fractional, or too large.
    pub fn as_u64(&self) -> (r: Option<u64>)
        ensures
            r == self.as_u64_spec(),
    {
        if self.negative || self.exponent < 0 {
            return None;
        }
        if self.mantissa == 0 {
            proof {
                assert(0 * pow10(self.exponent as nat) == 0) by (nonlinear_arith);
            }
            return Some(0);
        }
        if self.exponent > 19 {
            proof {
                lemma_pow10_increases(20, self.exponent as nat);
                lemma_pow10_20_exceeds_u64();
                assert(self.mantissa * pow10(self.exponent as nat) >= 1 * pow10(
                    self.exponent as nat,
                )) by (nonlinear_arith)
                    requires
                        self.mantissa >= 1,
                ;
            }
            return None;
        }
        let mut acc: u64 = self.mantissa;
        let mut i: i32 = 0;
        proof {
            assert(pow10(0) == 1);
            assert(self.mantissa * 1 == self.mantissa);
        }
        while i < self.exponent
            invariant
                0 <= i <= self.exponent <= 19,
                acc == self.mantissa * pow10(i as nat),
                self.mantissa >= 1,
                acc >= 1,
            decreases self.exponent - i,
        {
            proof {
                assert((self.mantissa * pow10(i as nat)) * 10 == self.mantissa * (10 * pow10(
                    i as nat,
                ))) by (nonlinear_arith);
                if self.mantissa * pow10((i + 1) as nat) > u64::MAX {
                    lemma_pow10_increases((i + 1) as nat, self.exponent as nat);
                    assert(self.mantissa * pow10((i + 1) as nat) <= self.mantissa * pow10(
                        self.exponent as nat,
                    )) by (nonlinear_arith)
                        requires
                            pow10((i + 1) as nat) <= pow10(self.exponent as nat),
                            self.mantissa >= 0,
                    ;
                }
            }
            match acc.checked_mul(10) {
                Some(next) => {
                    acc = next;
                },
                None => {
                    return None;
                },
            }
            i = i + 1;
        }
        Some(acc)
    }
}

/// A round trip through the canonical form: normalizing an integer keeps
/// its value, so `Number::from_u64(v).as_u64()` always yields `v` back.
pub proof fn lemma_norm_keeps_integer(mantissa: u64, exponent: nat)
    requires
        mantissa * pow10(exponent) <= u64::MAX,
    ensures
        Number::spec_norm(false, mantissa, exponent as int).as_u64_spec() == Some(
            (mantissa * pow10(exponent)) as u64,
        ),
    decreases mantissa,
{
    lemma_pow10_increases(0, exponent);
    if mantissa == 0 {
        assert(0 * pow10(exponent) == 0) by (nonlinear_arith);
        assert(Number::spec_norm(false, 0, exponent as int) == Number {
            negative: false,
            mantissa: 0,
            exponent: 0,
        });
        assert(pow10(0) == 1);
    } else if mantissa % 10 == 0 {
        assert(mantissa == (mantissa / 10) * 10);
        assert((mantissa / 10) * pow10(exponent + 1) == mantissa * pow10(exponent)) by {
            assert(pow10(exponent + 1) == 10 * pow10(exponent));
            assert((mantissa / 10) * (10 * pow10(exponent)) == ((mantissa / 10) * 10) * pow10(
                exponent,
            )) by (nonlinear_arith);
        }
        lemma_norm_keeps_integer(mantissa / 10, exponent + 1);
    } else {
        let n = Number::spec_norm(false, mantissa, exponent as int);
        assert(exponent <= 19) by {
            if exponent >= 20 {
                lemma_pow10_increases(20, exponent);
                lemma_pow10_20_exceeds_u64();
                assert(mantissa * pow10(exponent) >= 1 * pow10(exponent)) by (nonlinear_arith)
                    requires
                        mantissa >= 1,
                ;
            }
        }
        assert(n.exponent == exponent as i32);
        assert(n.exponent as nat == exponent);
        assert(n.as_u64_spec() == Some((mantissa * pow10(exponent)) as u64));
    }
}

/// Whether a byte is an ASCII decimal digit.
pub open spec fn is_ascii_digit(b: u8) -> bool {
    0x30 <= b <= 0x39
}

/// Whether every byte of the sequence is an ASCII decimal digit.
pub open spec fn all_ascii_digits(s: Seq<u8>) -> bool {
    forall|i: int| 0 <= i < s.len() ==> is_ascii_digit(#[trigger] s[i])
}

/// The integer a digit string denotes, most significant digit first.
pub open spec fn digits_int(s: Seq<u8>) -> int
    decreases s.len(),
{
    if s.len() == 0 {
        0
    } else {
        digits_int(s.drop_last()) * 10 + (s.last() - 0x30)
    }
}

/// Appending digits never shrinks the denoted integer.
proof fn lemma_digits_append_monotone(s: Seq<u8>, t: Seq<u8>)
    requires
        digits_int(s) >= 0,
        all_ascii_digits(t),
    ensures
        digits_int(s + t) >= digits_int(s),
    decreases t.len(),
{
    if t.len() == 0 {
        assert(s + t =~= s);
    } else {
        assert(all_ascii_digits(t.drop_last())) by {
            assert(forall|i: int|
                0 <= i < t.drop_last().len() ==> is_ascii_digit(#[trigger] t.drop_last()[i]))
                by {
                assert(forall|i: int|
                    0 <= i < t.drop_last().len() ==> t.drop_last()[i] == t[i]);
            }
        }
        lemma_digits_append_monotone(s, t.drop_last());
        assert((s + t).drop_last() =~= s + t.drop_last());
        assert((s + t).last() == t.last());
        assert(digits_int(s + t) == digits_int(s + t.drop_last()) * 10 + (t.last() - 0x30));
        assert(digits_int(s + t.drop_last()) * 10 >= digits_int(s + t.drop_last()))
            by (nonlinear_arith)
            requires
                digits_int(s + t.drop_last()) >= 0,
        ;
    }
}

impl Number {
    /// The number a rendered decimal literal denotes, handed over as its
    /// lexed parts: the digits before the point, the digits after it,
    /// and a power-of-ten exponent. `Some` — the canonical form of that
    /// exact value — if and only if every byte is a digit, there is at
    /// least one, the digits fit a `u64` unscaled, and the effective
    /// exponent leaves the normalization headroom a machine `i32` needs.
    #[verifier::loop_isolation(false)]
    pub fn from_digits(
        negative: bool,
        int_digits: &[u8],
        frac_digits: &[u8],
        exponent: i32,
    ) -> (r: Option<Number>)
        ensures
            ({
                let all = int_digits@ + frac_digits@;
                let fits = {
                    &&& all_ascii_digits(all)
                    &&& all.len() > 0
                    &&& digits_int(all) <= u64::MAX
                    &&& i32::MIN <= exponent - frac_digits@.len()
                    &&& exponent - frac_digits@.len() <= i32::MAX - 19
                };
                match r {
                    Some(n) => fits && n == Number::spec_norm(
                        negative,
                        digits_int(all) as u64,
                        exponent - frac_digits@.len(),
                    ) && n.is_canonical(),
                    None => !fits,
                }
            }),
    {
        let ghost all = int_digits@ + frac_digits@;
        if int_digits.len() == 0 && frac_digits.len() == 0 {
            proof {
                assert(all.len() == 0);
            }
            return None;
        }
        let mut acc: u64 = 0;
        let mut i: usize = 0;
        proof {
            assert(int_digits@.take(0) =~= Seq::<u8>::empty());
        }
        while i < int_digits.len()
            invariant
                i <= int_digits@.len(),
                all_ascii_digits(int_digits@.take(i as int)),
                acc == digits_int(int_digits@.take(i as int)),
            decreases int_digits@.len() - i,
        {
            proof {
                assert(int_digits@.take(i as int + 1).drop_last() =~= int_digits@.take(i as int));
                assert(int_digits@.take(i as int + 1).last() == int_digits@[i as int]);
            }
            let b = int_digits[i];
            if b < 0x30 || b > 0x39 {
                proof {
                    assert(all[i as int] == int_digits@[i as int]);
                    assert(!all_ascii_digits(all));
                }
                return None;
            }
            let scaled = match acc.checked_mul(10) {
                Some(v) => v,
                None => {
                    proof {
                        lemma_overflow_rejects(all, int_digits@.take(i as int + 1), acc, b);
                    }
                    return None;
                },
            };
            acc = match scaled.checked_add((b - 0x30) as u64) {
                Some(v) => v,
                None => {
                    proof {
                        lemma_overflow_rejects(all, int_digits@.take(i as int + 1), acc, b);
                    }
                    return None;
                },
            };
            proof {
                assert(all_ascii_digits(int_digits@.take(i as int + 1)));
            }
            i = i + 1;
        }
        proof {
            assert(int_digits@.take(int_digits@.len() as int) =~= int_digits@);
            assert(int_digits@ + frac_digits@.take(0) =~= int_digits@);
        }
        let mut j: usize = 0;
        while j < frac_digits.len()
            invariant
                j <= frac_digits@.len(),
                all_ascii_digits(int_digits@ + frac_digits@.take(j as int)),
                acc == digits_int(int_digits@ + frac_digits@.take(j as int)),
            decreases frac_digits@.len() - j,
        {
            let ghost prefix = int_digits@ + frac_digits@.take(j as int);
            proof {
                assert((int_digits@ + frac_digits@.take(j as int + 1)).drop_last() =~= prefix);
                assert((int_digits@ + frac_digits@.take(j as int + 1)).last() == frac_digits@[
                    j as int
                ]);
            }
            let b = frac_digits[j];
            if b < 0x30 || b > 0x39 {
                proof {
                    assert(all[int_digits@.len() + j as int] == frac_digits@[j as int]);
                    assert(!all_ascii_digits(all));
                }
                return None;
            }
            let scaled = match acc.checked_mul(10) {
                Some(v) => v,
                None => {
                    proof {
                        lemma_overflow_rejects(
                            all,
                            int_digits@ + frac_digits@.take(j as int + 1),
                            acc,
                            b,
                        );
                    }
                    return None;
                },
            };
            acc = match scaled.checked_add((b - 0x30) as u64) {
                Some(v) => v,
                None => {
                    proof {
                        lemma_overflow_rejects(
                            all,
                            int_digits@ + frac_digits@.take(j as int + 1),
                            acc,
                            b,
                        );
                    }
                    return None;
                },
            };
            proof {
                let next = int_digits@ + frac_digits@.take(j as int + 1);
                assert(all_ascii_digits(next)) by {
                    assert(forall|k: int| 0 <= k < next.len() - 1 ==> next[k] == prefix[k]);
                    assert(next[next.len() - 1] == frac_digits@[j as int]);
                }
            }
            j = j + 1;
        }
        proof {
            assert(int_digits@ + frac_digits@.take(frac_digits@.len() as int) =~= all);
        }
        let effective: i128 = exponent as i128 - frac_digits.len() as i128;
        if effective < i32::MIN as i128 || effective > (i32::MAX - 19) as i128 {
            return None;
        }
        Some(Number::new(negative, acc, effective as i32))
    }
}

/// When one more digit overflows the accumulator, the whole digit string
/// denotes more than a `u64` holds — provided it is all digits.
proof fn lemma_overflow_rejects(all: Seq<u8>, prefix: Seq<u8>, acc: u64, b: u8)
    requires
        0 < prefix.len() <= all.len(),
        prefix =~= all.take(prefix.len() as int),
        acc == digits_int(prefix.drop_last()),
        prefix.last() == b,
        is_ascii_digit(b),
        acc * 10 + (b - 0x30) > u64::MAX,
    ensures
        all_ascii_digits(all) ==> digits_int(all) > u64::MAX,
{
    if all_ascii_digits(all) {
        assert(digits_int(prefix) == acc * 10 + (b - 0x30));
        let suffix = all.skip(prefix.len() as int);
        assert(all_ascii_digits(suffix)) by {
            assert(forall|k: int|
                0 <= k < suffix.len() ==> is_ascii_digit(#[trigger] suffix[k])) by {
                assert(forall|k: int|
                    0 <= k < suffix.len() ==> suffix[k] == all[prefix.len() + k]);
            }
        }
        assert(prefix + suffix =~= all);
        lemma_digits_append_monotone(prefix, suffix);
    }
}

/// Canonical forms are unique: two canonical numbers of the same sign
/// that denote the same value — their mantissas agree once one is scaled
/// by the exponent gap — are one and the same. Structural equality of
/// canonical numbers therefore *is* numeric equality, whatever spelling
/// the wire used.
pub proof fn lemma_canonical_unique(a: Number, b: Number)
    requires
        a.is_canonical(),
        b.is_canonical(),
        a.negative == b.negative,
        a.exponent <= b.exponent ==> a.mantissa == b.mantissa * pow10(
            (b.exponent - a.exponent) as nat,
        ),
        b.exponent < a.exponent ==> b.mantissa == a.mantissa * pow10(
            (a.exponent - b.exponent) as nat,
        ),
    ensures
        a == b,
{
    if a.exponent <= b.exponent {
        lemma_scaled_canonical_match(a, b);
    } else {
        lemma_scaled_canonical_match(b, a);
    }
}

/// The asymmetric half of [`lemma_canonical_unique`]: `low` has the
/// smaller exponent and carries the scaled mantissa.
proof fn lemma_scaled_canonical_match(low: Number, high: Number)
    requires
        low.is_canonical(),
        high.is_canonical(),
        low.negative == high.negative,
        low.exponent <= high.exponent,
        low.mantissa == high.mantissa * pow10((high.exponent - low.exponent) as nat),
    ensures
        low == high,
{
    let gap: nat = (high.exponent - low.exponent) as nat;
    if gap == 0 {
        assert(low.mantissa == high.mantissa * pow10(gap));
        assert(pow10(gap) == 1);
        assert(high.mantissa * 1 == high.mantissa) by (nonlinear_arith);
        assert(low.mantissa == high.mantissa);
    } else {
        // A positive gap would fold a factor of ten into the low
        // mantissa, which canonicity forbids for a non-zero mantissa.
        assert(pow10(gap) == 10 * pow10((gap - 1) as nat));
        assert(low.mantissa as int == (high.mantissa * pow10((gap - 1) as nat)) * 10)
            by (nonlinear_arith)
            requires
                low.mantissa == high.mantissa * pow10(gap),
                pow10(gap) == 10 * pow10((gap - 1) as nat),
        ;
        assert(low.mantissa % 10 == 0) by (nonlinear_arith)
            requires
                low.mantissa as int == (high.mantissa * pow10((gap - 1) as nat)) * 10,
        ;
        if low.mantissa == 0 {
            lemma_pow10_increases(0, gap);
            assert(high.mantissa == 0) by (nonlinear_arith)
                requires
                    high.mantissa * pow10(gap) == 0,
                    pow10(gap) >= 1,
            ;
            // Both are the canonical zero, whose exponent is zero — yet
            // the gap is positive: impossible.
            assert(false);
        } else {
            assert(false);
        }
    }
}

/// One untyped wire value: the JSON a cell's `value` or `objectValue`
/// field carries, already split into its primitive shape.
#[derive(Debug)]
pub enum WireValue {
    /// An explicit JSON `null`.
    Null,
    /// A bare boolean.
    Bool(bool),
    /// A bare number, held as an exact decimal.
    Num(Number),
    /// A bare string.
    Str(String),
    /// An array of wire values.
    Arr(Vec<WireValue>),
    /// An object: its fields in order, each a key with a wire value.
    Obj(Vec<(String, WireValue)>),
}

/// The first field of `fields` named `key`, if any.
pub open spec fn spec_get(fields: Seq<(String, WireValue)>, key: Seq<char>) -> Option<WireValue>
    decreases fields.len(),
{
    if fields.len() == 0 {
        None
    } else if fields[0].0@ == key {
        Some(fields[0].1)
    } else {
        spec_get(fields.drop_first(), key)
    }
}

impl WireValue {
    /// Look a field up by name; `None` on any non-object value, as on an
    /// object without that field.
    #[verifier::loop_isolation(false)]
    pub fn get<'a>(&'a self, key: &str) -> (r: Option<&'a WireValue>)
        ensures
            self is Obj ==> match r {
                Some(v) => spec_get(self->Obj_0@, key@) == Some(*v),
                None => spec_get(self->Obj_0@, key@) is None,
            },
            !(self is Obj) ==> r is None,
    {
        match *self {
            WireValue::Obj(ref fields) => {
                let wanted: String = key.to_owned();
                let mut i: usize = 0;
                proof {
                    assert(fields@.skip(0) =~= fields@);
                }
                while i < fields.len()
                    invariant
                        i <= fields@.len(),
                        wanted@ == key@,
                        spec_get(fields@.skip(i as int), key@) == spec_get(fields@, key@),
                    decreases fields@.len() - i,
                {
                    proof {
                        assert(fields@.skip(i as int)[0] == fields@[i as int]);
                        assert(fields@.skip(i as int).drop_first() =~= fields@.skip(i as int + 1));
                    }
                    if fields[i].0 == wanted {
                        proof {
                            assert(fields@.skip(i as int).len() > 0);
                            assert(fields@.skip(i as int)[0].0@ == key@);
                            assert(spec_get(fields@.skip(i as int), key@) == Some(
                                fields@[i as int].1,
                            ));
                        }
                        return Some(&fields[i].1);
                    }
                    i = i + 1;
                }
                None
            },
            _ => None,
        }
    }

    /// The elements of an array value; `None` for any other shape.
    pub fn as_array(&self) -> (r: Option<&Vec<WireValue>>)
        ensures
            match self {
                WireValue::Arr(items) => r == Some(items),
                _ => r is None,
            },
    {
        match *self {
            WireValue::Arr(ref items) => Some(items),
            _ => None,
        }
    }
}

} // verus!

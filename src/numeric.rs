//! Exact rational values, identities, and the integer arithmetic behind
//! common denominators.
use vstd::prelude::*;

use crate::text::{
    hex_digits, hex_text, hex_value, hex_value_of, lemma_hex_digit_value, lemma_hex_text_layout,
    push_hex, push_signed_decimal, signed_decimal,
};

verus! {

broadcast use vstd::array::group_array_axioms;

/// Absolute value of a mathematical integer.
pub open spec fn abs_int(x: int) -> int {
    if x < 0 {
        -x
    } else {
        x
    }
}

/// `d` divides `x`: some integer multiple of `d` is `x`.
pub open spec fn divides(d: int, x: int) -> bool {
    exists|k: int| x == #[trigger] (d * k)
}

/// Greatest common divisor by Euclid's algorithm on non-negative values.
pub open spec fn gcd_spec(a: nat, b: nat) -> nat
    decreases b,
{
    if b == 0 {
        a
    } else {
        gcd_spec(b, a % b)
    }
}

/// Least common multiple: `|a * b| / gcd(|a|, |b|)`.
pub open spec fn lcm_spec(a: int, b: int) -> int {
    abs_int(a * b) / (gcd_spec(abs_int(a) as nat, abs_int(b) as nat) as int)
}

/// The gcd of two values, not both zero, is positive and divides both.
pub proof fn lemma_gcd_divides(a: nat, b: nat)
    requires
        a > 0 || b > 0,
    ensures
        gcd_spec(a, b) > 0,
        a % gcd_spec(a, b) == 0,
        b % gcd_spec(a, b) == 0,
    decreases b,
{
    if b == 0 {
        vstd::arithmetic::div_mod::lemma_mod_self_0(a as int);
    } else {
        let r = a % b;
        lemma_gcd_divides(b, r);
        let g = gcd_spec(b, r) as int;
        let q = (a / b) as int;
        vstd::arithmetic::div_mod::lemma_fundamental_div_mod(a as int, b as int);
        vstd::arithmetic::div_mod::lemma_fundamental_div_mod(b as int, g);
        vstd::arithmetic::div_mod::lemma_fundamental_div_mod(r as int, g);
        let k1 = b as int / g;
        let k2 = r as int / g;
        assert(a as int == g * (q * k1 + k2)) by (nonlinear_arith)
            requires
                a as int == b as int * q + r as int,
                b as int == g * k1,
                r as int == g * k2,
        ;
        vstd::arithmetic::div_mod::lemma_mod_multiples_basic(q * k1 + k2, g);
        assert((q * k1 + k2) * g == g * (q * k1 + k2)) by (nonlinear_arith);
    }
}

/// The least common multiple of `a` and `b` is divisible by both.
pub proof fn lemma_lcm_divisible(a: int, b: int)
    requires
        a != 0 || b != 0,
    ensures
        divides(a, lcm_spec(a, b)),
        divides(b, lcm_spec(a, b)),
        a != 0 && b != 0 ==> lcm_spec(a, b) > 0,
{
    let ua = abs_int(a);
    let ub = abs_int(b);
    lemma_gcd_divides(ua as nat, ub as nat);
    let g = gcd_spec(ua as nat, ub as nat) as int;
    vstd::arithmetic::div_mod::lemma_fundamental_div_mod(ua, g);
    vstd::arithmetic::div_mod::lemma_fundamental_div_mod(ub, g);
    let k1 = ua / g;
    let k2 = ub / g;
    assert(abs_int(a * b) == ua * ub) by (nonlinear_arith)
        requires
            ua == abs_int(a),
            ub == abs_int(b),
    ;
    assert(ua * ub == g * (k1 * ub)) by (nonlinear_arith)
        requires
            ua == g * k1,
    ;
    vstd::arithmetic::div_mod::lemma_div_multiples_vanish(k1 * ub, g);
    let l = lcm_spec(a, b);
    assert(l == k1 * ub);
    let sa: int = if a < 0 { -1 } else { 1 };
    let sb: int = if b < 0 { -1 } else { 1 };
    assert(l == b * (sb * k1)) by (nonlinear_arith)
        requires
            l == k1 * ub,
            ub == abs_int(b),
            sb == (if b < 0 { -1int } else { 1int }),
    ;
    if a != 0 && b != 0 {
        assert(l > 0) by (nonlinear_arith)
            requires
                l == k1 * ub,
                ua == g * k1,
                g > 0,
                ua > 0,
                ub > 0,
        ;
    }
    assert(l == a * (sa * k2)) by (nonlinear_arith)
        requires
            l == k1 * ub,
            ub == g * k2,
            ua == g * k1,
            ua == abs_int(a),
            sa == (if a < 0 { -1int } else { 1int }),
    ;
}

/// Euclid's algorithm on unsigned magnitudes.
fn gcd_u64(a: u64, b: u64) -> (r: u64)
    ensures
        r == gcd_spec(a as nat, b as nat),
{
    let mut x: u64 = a;
    let mut y: u64 = b;
    while y != 0
        invariant
            gcd_spec(x as nat, y as nat) == gcd_spec(a as nat, b as nat),
        decreases y,
    {
        let t: u64 = y;
        y = x % y;
        x = t;
    }
    x
}

/// Magnitude of a 64-bit signed value, which always fits in 64 unsigned bits.
fn magnitude(a: i64) -> (r: u64)
    ensures
        r as int == abs_int(a as int),
{
    if a < 0 {
        (-(a as i128)) as u64
    } else {
        a as u64
    }
}

/// The gcd of two values is at most each positive one of them.
proof fn lemma_gcd_bounded(a: nat, b: nat)
    ensures
        a > 0 ==> gcd_spec(a, b) <= a,
        b > 0 ==> gcd_spec(a, b) <= b,
        a == 0 && b == 0 ==> gcd_spec(a, b) == 0,
{
    if a > 0 || b > 0 {
        lemma_gcd_divides(a, b);
        let g = gcd_spec(a, b) as int;
        vstd::arithmetic::div_mod::lemma_fundamental_div_mod(a as int, g);
        vstd::arithmetic::div_mod::lemma_fundamental_div_mod(b as int, g);
        if a > 0 {
            assert(g <= a) by (nonlinear_arith)
                requires
                    a as int == g * (a as int / g),
                    g > 0,
                    a > 0,
            ;
        }
        if b > 0 {
            assert(g <= b) by (nonlinear_arith)
                requires
                    b as int == g * (b as int / g),
                    g > 0,
                    b > 0,
            ;
        }
    } else {
        reveal_with_fuel(gcd_spec, 1);
    }
}

/// Greatest common divisor of the magnitudes of `a` and `b`. The result
/// 2^63 does not fit: it comes of `i64::MIN` together with zero or itself.
pub fn gcd(a: i64, b: i64) -> (r: i64)
    requires
        a == i64::MIN ==> b != 0 && b != i64::MIN,
        b == i64::MIN ==> a != 0,
    ensures
        r as int == gcd_spec(abs_int(a as int) as nat, abs_int(b as int) as nat),
{
    let ua = magnitude(a);
    let ub = magnitude(b);
    proof {
        lemma_gcd_bounded(ua as nat, ub as nat);
    }
    gcd_u64(ua, ub) as i64
}

/// Least common multiple `|a * b| / gcd(a, b)`, or `None` where it does not
/// fit in 64 signed bits.
pub fn checked_lcm(a: i64, b: i64) -> (r: Option<i64>)
    requires
        a != 0 || b != 0,
    ensures
        r is Some <==> lcm_spec(a as int, b as int) <= i64::MAX,
        r matches Some(v) ==> v as int == lcm_spec(a as int, b as int),
{
    let ua = magnitude(a);
    let ub = magnitude(b);
    let g = gcd_u64(ua, ub);
    proof {
        lemma_gcd_divides(ua as nat, ub as nat);
        assert(abs_int(a as int * b as int) == ua as int * ub as int) by (nonlinear_arith)
            requires
                ua as int == abs_int(a as int),
                ub as int == abs_int(b as int),
        ;
        assert(ua as int * ub as int <= u64::MAX as int * u64::MAX as int) by (nonlinear_arith)
            requires
                ua <= u64::MAX,
                ub <= u64::MAX,
        ;
        assert(lcm_spec(a as int, b as int) >= 0) by (nonlinear_arith)
            requires
                g > 0,
                lcm_spec(a as int, b as int) == (ua as int * ub as int) / (g as int),
                ua >= 0,
                ub >= 0,
        ;
    }
    let p: u128 = (ua as u128) * (ub as u128);
    let l: u128 = p / (g as u128);
    if l > i64::MAX as u128 {
        None
    } else {
        Some(l as i64)
    }
}

/// Least common multiple `|a * b| / gcd(a, b)`.
pub fn lcm(a: i64, b: i64) -> (r: i64)
    requires
        a != 0 || b != 0,
        lcm_spec(a as int, b as int) <= i64::MAX,
    ensures
        r as int == lcm_spec(a as int, b as int),
{
    match checked_lcm(a, b) {
        Some(v) => v,
        None => 0,
    }
}

/// The engine's 128-bit identity record: sixteen raw bytes.
#[derive(Clone, Copy, Debug, PartialEq, Eq, Hash)]
pub struct GncGuid {
    pub reserved: [u8; 16],
}

/// A 128-bit globally unique identifier.
#[derive(Clone, Copy, Debug, PartialEq, Eq, Hash)]
pub struct Guid(pub GncGuid);

/// Lexicographic order on byte sequences of one length: -1, 0 or 1.
pub open spec fn compare_seq(a: Seq<u8>, b: Seq<u8>) -> int
    decreases a.len(),
{
    if a.len() == 0 || b.len() == 0 {
        0
    } else if a[0] < b[0] {
        -1
    } else if a[0] > b[0] {
        1
    } else {
        compare_seq(a.drop_first(), b.drop_first())
    }
}

/// Text of 32 hexadecimal digits of either case.
pub open spec fn is_guid_text(s: Seq<char>) -> bool {
    s.len() == 32 && forall|i: int| 0 <= i < 32 ==> (#[trigger] hex_value(s[i])) is Some
}

/// The byte that the digits at `2i` and `2i + 1` spell.
pub open spec fn guid_text_byte(s: Seq<char>, i: int) -> u8 {
    (hex_value(s[2 * i])->0 * 16 + hex_value(s[2 * i + 1])->0) as u8
}

/// The lexicographic order is antisymmetric, and it ties exactly on equal
/// sequences of one length.
pub proof fn lemma_compare_seq(a: Seq<u8>, b: Seq<u8>)
    requires
        a.len() == b.len(),
    ensures
        compare_seq(a, b) == -compare_seq(b, a),
        compare_seq(a, b) == 0 <==> a == b,
    decreases a.len(),
{
    if a.len() > 0 {
        lemma_compare_seq(a.drop_first(), b.drop_first());
        if a[0] == b[0] && a.drop_first() == b.drop_first() {
            assert forall|i: int| 0 <= i < a.len() implies a[i] == b[i] by {
                if i > 0 {
                    assert(a[i] == a.drop_first()[i - 1]);
                    assert(b[i] == b.drop_first()[i - 1]);
                }
            }
            assert(a =~= b);
        }
        if a == b {
            assert(a.drop_first() == b.drop_first());
        }
    } else {
        assert(a =~= b);
    }
}

/// Reading back the text of an identity gives the identity: the text is
/// 32 hexadecimal digits, and each pair spells the byte it came from.
pub proof fn lemma_guid_text_round_trip(g: Guid)
    ensures
        is_guid_text(hex_text(g.bytes())),
        forall|i: int| 0 <= i < 16 ==> #[trigger] guid_text_byte(hex_text(g.bytes()), i) == g.bytes()[i],
{
    let b = g.bytes();
    let t = hex_text(b);
    lemma_hex_text_layout(b);
    assert forall|k: int| 0 <= k < 32 implies (#[trigger] hex_value(t[k])) is Some by {
        let i = k / 2;
        assert(k == 2 * i || k == 2 * i + 1);
        lemma_hex_digit_value((b[i] / 16) as int);
        lemma_hex_digit_value((b[i] % 16) as int);
        assert(t[2 * i] == hex_digits()[(b[i] / 16) as int]);
        assert(t[2 * i + 1] == hex_digits()[(b[i] % 16) as int]);
    }
    assert forall|i: int| 0 <= i < 16 implies #[trigger] guid_text_byte(t, i) == b[i] by {
        lemma_hex_digit_value((b[i] / 16) as int);
        lemma_hex_digit_value((b[i] % 16) as int);
        assert(t[2 * i] == hex_digits()[(b[i] / 16) as int]);
        assert((b[i] / 16) * 16 + b[i] % 16 == b[i]);
    }
}

impl Guid {
    /// The sixteen bytes of the identity.
    pub open spec fn bytes(self) -> Seq<u8> {
        self.0.reserved@
    }

    /// Creates a GUID from raw bytes.
    pub fn from_bytes(bytes: [u8; 16]) -> (r: Guid)
        ensures
            r.0.reserved == bytes,
    {
        Guid(GncGuid { reserved: bytes })
    }

    /// The identity that the engine reports for a record: its bytes, or the
    /// null GUID when the engine has none.
    pub fn from_record(reported: Option<[u8; 16]>) -> (r: Guid)
        ensures
            reported matches Some(b) ==> r.0.reserved == b,
            reported is None ==> forall|i: int| 0 <= i < 16 ==> #[trigger] r.bytes()[i] == 0,
    {
        match reported {
            Some(b) => Guid::from_bytes(b),
            None => Guid::null(),
        }
    }

    /// The raw bytes of this GUID.
    pub fn as_bytes(&self) -> (r: &[u8; 16])
        ensures
            *r == self.0.reserved,
    {
        &self.0.reserved
    }

    /// The null GUID: sixteen zero bytes.
    pub fn null() -> (r: Guid)
        ensures
            forall|i: int| 0 <= i < 16 ==> #[trigger] r.bytes()[i] == 0,
    {
        Guid(GncGuid { reserved: [0u8; 16] })
    }

    /// True when every byte is zero.
    pub fn is_null(&self) -> (r: bool)
        ensures
            r == (forall|i: int| 0 <= i < 16 ==> #[trigger] self.bytes()[i] == 0),
    {
        let mut i: usize = 0;
        while i < 16
            invariant
                i <= 16,
                self.bytes().len() == 16,
                forall|j: int| 0 <= j < i ==> #[trigger] self.bytes()[j] == 0,
            decreases 16 - i,
        {
            if self.0.reserved[i] != 0 {
                return false;
            }
            i = i + 1;
        }
        true
    }

    /// The 32 lowercase hexadecimal digits of the identity.
    pub fn to_string(&self) -> (r: String)
        ensures
            r@ == hex_text(self.bytes()),
    {
        let mut s = String::new();
        push_hex(&mut s, self.0.reserved.as_slice());
        proof {
            assert(s@ =~= hex_text(self.bytes()));
        }
        s
    }

    /// Reads an identity from 32 hexadecimal digits of either case.
    pub fn parse(s: &str) -> (r: Option<Guid>)
        ensures
            r is Some <==> is_guid_text(s@),
            r matches Some(g) ==> forall|i: int|
                0 <= i < 16 ==> #[trigger] g.bytes()[i] == guid_text_byte(s@, i),
    {
        let n = s.unicode_len();
        if n != 32 {
            return None;
        }
        let mut bytes = [0u8; 16];
        let mut i: usize = 0;
        while i < 16
            invariant
                n == 32,
                s@.len() == 32,
                i <= 16,
                bytes@.len() == 16,
                forall|k: int| 0 <= k < 2 * i ==> (#[trigger] hex_value(s@[k])) is Some,
                forall|k: int| 0 <= k < i ==> #[trigger] bytes@[k] == guid_text_byte(s@, k),
            decreases 16 - i,
        {
            let hi = match hex_value_of(s.get_char(2 * i)) {
                Some(v) => v,
                None => {
                    return None;
                },
            };
            let lo = match hex_value_of(s.get_char(2 * i + 1)) {
                Some(v) => v,
                None => {
                    return None;
                },
            };
            proof {
                assert(hi < 16 && lo < 16);
            }
            bytes[i] = hi * 16 + lo;
            i = i + 1;
        }
        Some(Guid(GncGuid { reserved: bytes }))
    }

    /// The engine's form of this identity.
    pub fn as_ffi(&self) -> (r: &GncGuid)
        ensures
            *r == self.0,
    {
        &self.0
    }

    /// Lexicographic comparison of the bytes: -1, 0 or 1.
    pub fn compare(&self, other: &Guid) -> (r: i32)
        ensures
            r as int == compare_seq(self.bytes(), other.bytes()),
            r == 0 <==> *self == *other,
    {
        let mut i: usize = 0;
        assert(self.bytes().subrange(0, 16) =~= self.bytes());
        assert(other.bytes().subrange(0, 16) =~= other.bytes());
        while i < 16
            invariant
                i <= 16,
                self.bytes().len() == 16,
                other.bytes().len() == 16,
                self.bytes().subrange(0, i as int) == other.bytes().subrange(0, i as int),
                compare_seq(self.bytes(), other.bytes()) == compare_seq(
                    self.bytes().subrange(i as int, 16),
                    other.bytes().subrange(i as int, 16),
                ),
            decreases 16 - i,
        {
            let x = self.0.reserved[i];
            let y = other.0.reserved[i];
            if x < y {
                return -1;
            }
            if x > y {
                return 1;
            }
            proof {
                assert(self.bytes().subrange(i as int, 16).drop_first() =~= self.bytes().subrange(i + 1, 16));
                assert(other.bytes().subrange(i as int, 16).drop_first() =~= other.bytes().subrange(i + 1, 16));
                assert(self.bytes().subrange(0, i + 1) =~= self.bytes().subrange(0, i as int).push(x));
                assert(other.bytes().subrange(0, i + 1) =~= other.bytes().subrange(0, i as int).push(y));
            }
            i = i + 1;
        }
        proof {
            assert(self.bytes() =~= self.bytes().subrange(0, 16));
            assert(other.bytes() =~= other.bytes().subrange(0, 16));
            assert(self.0.reserved =~= other.0.reserved);
        }
        0
    }
}

/// How a rational value reads: a finite quantity, or one of the non-finite
/// encodings that a zero denominator stands for.
#[derive(Clone, Copy, Debug, PartialEq, Eq, Structural, Hash)]
pub enum ValueKind {
    Finite,
    NaN,
    PositiveInfinity,
    NegativeInfinity,
}

/// A rational number with 64-bit numerator and denominator, kept exactly as
/// given: no reduction to lowest terms. Equality compares the stored pair.
/// A zero denominator encodes a non-finite value.
#[derive(Clone, Copy, Debug, PartialEq, Eq, Structural, Hash)]
pub struct Numeric {
    pub num: i64,
    pub denom: i64,
}

impl Numeric {
    /// A finite zero: numerator zero over a non-zero denominator.
    pub open spec fn spec_is_zero(self) -> bool {
        self.num == 0 && self.denom != 0
    }

    /// Numerator and denominator of opposite signs.
    pub open spec fn spec_is_negative(self) -> bool {
        (self.num < 0) != (self.denom < 0)
    }

    /// The pair with its numerator negated.
    pub open spec fn spec_neg(self) -> Numeric {
        Numeric { num: (-self.num) as i64, denom: self.denom }
    }

    /// Creates a value from numerator and denominator.
    pub fn new(num: i64, denom: i64) -> (r: Numeric)
        ensures
            r.num == num,
            r.denom == denom,
    {
        Numeric { num, denom }
    }

    /// Zero, written 0/1.
    pub fn zero() -> (r: Numeric)
        ensures
            r.num == 0,
            r.denom == 1,
    {
        Numeric::new(0, 1)
    }

    /// A whole number, written n/1.
    pub fn from_int(n: i64) -> (r: Numeric)
        ensures
            r.num == n,
            r.denom == 1,
    {
        Numeric::new(n, 1)
    }

    /// The numerator.
    pub fn num(&self) -> (r: i64)
        ensures
            r == self.num,
    {
        self.num
    }

    /// The denominator.
    pub fn denom(&self) -> (r: i64)
        ensures
            r == self.denom,
    {
        self.denom
    }

    /// True for a finite zero: numerator zero over a non-zero denominator.
    pub fn is_zero(&self) -> (r: bool)
        ensures
            r == self.spec_is_zero(),
    {
        self.num == 0 && self.denom != 0
    }

    /// True when numerator and denominator have opposite signs.
    pub fn is_negative(&self) -> (r: bool)
        ensures
            r == self.spec_is_negative(),
    {
        (self.num < 0) != (self.denom < 0)
    }

    /// True when the value is neither zero nor negative.
    pub fn is_positive(&self) -> (r: bool)
        ensures
            r == (!self.spec_is_zero() && !self.spec_is_negative()),
    {
        !self.is_zero() && !self.is_negative()
    }

    /// Which of the finite and non-finite encodings this value is.
    pub fn kind(&self) -> (r: ValueKind)
        ensures
            self.denom != 0 ==> r == ValueKind::Finite,
            self.denom == 0 && self.num == 0 ==> r == ValueKind::NaN,
            self.denom == 0 && self.num > 0 ==> r == ValueKind::PositiveInfinity,
            self.denom == 0 && self.num < 0 ==> r == ValueKind::NegativeInfinity,
    {
        if self.denom != 0 {
            ValueKind::Finite
        } else if self.num == 0 {
            ValueKind::NaN
        } else if self.num > 0 {
            ValueKind::PositiveInfinity
        } else {
            ValueKind::NegativeInfinity
        }
    }

    /// True for the not-a-number encoding 0/0.
    pub fn is_nan(&self) -> (r: bool)
        ensures
            r == (self.num == 0 && self.denom == 0),
    {
        self.num == 0 && self.denom == 0
    }

    /// True for the infinite encodings n/0 with n non-zero.
    pub fn is_infinite(&self) -> (r: bool)
        ensures
            r == (self.num != 0 && self.denom == 0),
    {
        self.num != 0 && self.denom == 0
    }

    /// The value with its numerator negated.
    pub fn neg(&self) -> (r: Numeric)
        requires
            self.num != i64::MIN,
        ensures
            r == self.spec_neg(),
            r.num == -self.num,
    {
        Numeric::new(-self.num, self.denom)
    }

    /// The magnitudes of both numerator and denominator.
    pub fn abs(&self) -> (r: Numeric)
        requires
            self.num != i64::MIN,
            self.denom != i64::MIN,
        ensures
            r.num == abs_int(self.num as int),
            r.denom == abs_int(self.denom as int),
    {
        let n: i64 = if self.num < 0 { -self.num } else { self.num };
        let d: i64 = if self.denom < 0 { -self.denom } else { self.denom };
        Numeric::new(n, d)
    }
}

/// The text of a rational value: "n" over a denominator of one, "n/d"
/// otherwise; for a zero denominator "NaN", "inf" or "-inf" by the sign of
/// the numerator.
pub open spec fn numeric_text(x: Numeric) -> Seq<char> {
    if x.denom == 0 {
        if x.num == 0 {
            seq!['N', 'a', 'N']
        } else if x.num > 0 {
            seq!['i', 'n', 'f']
        } else {
            seq!['-', 'i', 'n', 'f']
        }
    } else if x.denom == 1 {
        signed_decimal(x.num as int)
    } else {
        signed_decimal(x.num as int) + seq!['/'] + signed_decimal(x.denom as int)
    }
}

impl Numeric {
    /// The value as text.
    pub fn to_string(&self) -> (r: String)
        ensures
            r@ == numeric_text(*self),
    {
        let mut s = String::new();
        if self.denom == 0 {
            if self.num == 0 {
                s.append("NaN");
                proof {
                    reveal_strlit("NaN");
                }
            } else if self.num > 0 {
                s.append("inf");
                proof {
                    reveal_strlit("inf");
                }
            } else {
                s.append("-inf");
                proof {
                    reveal_strlit("-inf");
                }
            }
        } else if self.denom == 1 {
            push_signed_decimal(&mut s, self.num);
        } else {
            push_signed_decimal(&mut s, self.num);
            s.append("/");
            proof {
                reveal_strlit("/");
            }
            push_signed_decimal(&mut s, self.denom);
        }
        proof {
            assert(s@ =~= numeric_text(*self));
        }
        s
    }
}

/// For a finite value (non-zero denominator) the zero test is the
/// numerator's, the sign test compares the signs of numerator and
/// denominator, and negation undoes itself.
pub proof fn lemma_numeric_laws(x: Numeric)
    requires
        x.denom != 0,
        x.num != i64::MIN,
    ensures
        x.spec_is_zero() == (x.num == 0),
        x.spec_is_negative() == ((x.num < 0) != (x.denom < 0)),
        x.spec_neg().num != i64::MIN,
        x.spec_neg().spec_neg() == x,
{
}

} // verus!

//! Whole numbers of any size, for score formulas whose exact values do not fit a machine word.

use vstd::prelude::*;
use vstd::arithmetic::div_mod::{lemma_fundamental_div_mod, lemma_mod_bound};

verus! {

/// The base of the digits of a `BigNat`: 2^32.
pub const BASE: u64 = 0x1_0000_0000;

/// A natural number, held as its digits to the base 2^32, the lowest first.
#[derive(Debug)]
pub struct BigNat {
    pub limbs: Vec<u32>,
}

/// An integer, held as a sign and a magnitude.
#[derive(Debug)]
pub struct BigInt {
    pub negative: bool,
    pub magnitude: BigNat,
}

/// `b` to the power `e`.
pub open spec fn power(b: int, e: nat) -> int
    decreases e,
{
    if e == 0 {
        1
    } else {
        b * power(b, (e - 1) as nat)
    }
}

/// What the digit at position `i` counts: `BASE` to the power `i`.
pub open spec fn weight(i: nat) -> int {
    power(BASE as int, i)
}

/// The digit at position `i`; beyond the last digit it is 0.
pub open spec fn limb(s: Seq<u32>, i: int) -> int {
    if 0 <= i < s.len() {
        s[i] as int
    } else {
        0
    }
}

/// The number that the lowest `n` digits stand for.
pub open spec fn value_upto(s: Seq<u32>, n: nat) -> int
    decreases n,
{
    if n == 0 {
        0
    } else {
        value_upto(s, (n - 1) as nat) + limb(s, n - 1) * weight((n - 1) as nat)
    }
}

/// The number that the digits stand for.
pub open spec fn value(s: Seq<u32>) -> int {
    value_upto(s, s.len())
}

impl View for BigNat {
    type V = int;

    open spec fn view(&self) -> int {
        value(self.limbs@)
    }
}

impl View for BigInt {
    type V = int;

    open spec fn view(&self) -> int {
        if self.negative {
            -self.magnitude@
        } else {
            self.magnitude@
        }
    }
}

pub proof fn lemma_power_positive(b: int, e: nat)
    requires
        b > 0,
    ensures
        power(b, e) > 0,
    decreases e,
{
    if e > 0 {
        lemma_power_positive(b, (e - 1) as nat);
        assert(b * power(b, (e - 1) as nat) > 0) by (nonlinear_arith)
            requires
                b > 0,
                power(b, (e - 1) as nat) > 0,
        ;
    }
}

/// `b^(e1 + e2) == b^e1 * b^e2`.
pub proof fn lemma_power_adds(b: int, e1: nat, e2: nat)
    ensures
        power(b, e1 + e2) == power(b, e1) * power(b, e2),
    decreases e1,
{
    if e1 == 0 {
        assert(power(b, e1) * power(b, e2) == power(b, e2)) by (nonlinear_arith)
            requires
                power(b, e1) == 1,
        ;
    } else {
        lemma_power_adds(b, (e1 - 1) as nat, e2);
        assert((e1 + e2 - 1) as nat == (e1 - 1) as nat + e2);
        let p1 = power(b, (e1 - 1) as nat);
        let p2 = power(b, e2);
        assert(b * (p1 * p2) == (b * p1) * p2) by (nonlinear_arith);
    }
}

/// `(a * b)^e == a^e * b^e`.
pub proof fn lemma_power_of_product(a: int, b: int, e: nat)
    ensures
        power(a * b, e) == power(a, e) * power(b, e),
    decreases e,
{
    if e == 0 {
    } else {
        lemma_power_of_product(a, b, (e - 1) as nat);
        let pa = power(a, (e - 1) as nat);
        let pb = power(b, (e - 1) as nat);
        assert((a * b) * (pa * pb) == (a * pa) * (b * pb)) by (nonlinear_arith);
    }
}

/// `(b^e1)^e2 == b^(e1 * e2)`.
pub proof fn lemma_power_of_power(b: int, e1: nat, e2: nat)
    ensures
        power(power(b, e1), e2) == power(b, e1 * e2),
    decreases e2,
{
    if e2 == 0 {
        assert(e1 * e2 == 0) by (nonlinear_arith)
            requires
                e2 == 0,
        ;
    } else {
        lemma_power_of_power(b, e1, (e2 - 1) as nat);
        lemma_power_adds(b, e1, e1 * ((e2 - 1) as nat));
        assert(e1 + e1 * ((e2 - 1) as nat) == e1 * e2) by (nonlinear_arith)
            requires
                e2 >= 1,
        ;
    }
}

/// An odd power of a negative number is the negated power of its magnitude.
pub proof fn lemma_power_negated(b: int, e: nat)
    ensures
        e % 2 == 1 ==> power(-b, e) == -power(b, e),
        e % 2 == 0 ==> power(-b, e) == power(b, e),
    decreases e,
{
    if e > 0 {
        lemma_power_negated(b, (e - 1) as nat);
        let p = power(b, (e - 1) as nat);
        assert((-b) * p == -(b * p)) by (nonlinear_arith);
        assert((-b) * (-p) == b * p) by (nonlinear_arith);
    }
}

proof fn lemma_weight_step(i: nat)
    ensures
        weight(i + 1) == BASE * weight(i),
        weight(i) > 0,
{
    lemma_power_positive(BASE as int, i);
}

/// The lowest `n` digits stand for a number below `BASE^n`.
pub proof fn lemma_value_upto_bound(s: Seq<u32>, n: nat)
    ensures
        0 <= value_upto(s, n) < weight(n),
    decreases n,
{
    if n > 0 {
        let m = (n - 1) as nat;
        lemma_value_upto_bound(s, m);
        lemma_weight_step(m);
        let l = limb(s, n - 1);
        let w = weight(m);
        assert(0 <= l * w <= (BASE - 1) * w) by (nonlinear_arith)
            requires
                0 <= l <= BASE - 1,
                w > 0,
        ;
        assert(w + (BASE - 1) * w == BASE * w) by (nonlinear_arith);
    }
}

/// Digit sequences that agree in their lowest `n` digits stand for the same number there.
pub proof fn lemma_value_upto_agree(s: Seq<u32>, t: Seq<u32>, n: nat)
    requires
        forall|i: int| 0 <= i < n ==> limb(s, i) == limb(t, i),
    ensures
        value_upto(s, n) == value_upto(t, n),
    decreases n,
{
    if n > 0 {
        lemma_value_upto_agree(s, t, (n - 1) as nat);
    }
}

/// Positions beyond the last digit add nothing.
pub proof fn lemma_value_upto_beyond(s: Seq<u32>, n: nat)
    requires
        n >= s.len(),
    ensures
        value_upto(s, n) == value(s),
    decreases n,
{
    if n > s.len() {
        lemma_value_upto_beyond(s, (n - 1) as nat);
        assert(limb(s, n - 1) * weight((n - 1) as nat) == 0) by (nonlinear_arith)
            requires
                limb(s, n - 1) == 0,
        ;
    }
}

/// One more digit `x` at the top adds `x * BASE^len`.
pub proof fn lemma_value_push(s: Seq<u32>, x: u32)
    ensures
        value(s.push(x)) == value(s) + x * weight(s.len()),
{
    let t = s.push(x);
    assert forall|i: int| 0 <= i < s.len() implies limb(s, i) == limb(t, i) by {}
    lemma_value_upto_agree(s, t, s.len());
}

/// A number `p` splits into its lowest digit and the rest, at any weight.
proof fn lemma_split_digit(p: int, w: int)
    requires
        p >= 0,
    ensures
        (p % (BASE as int)) * w + (p / (BASE as int)) * (BASE * w) == p * w,
        0 <= p % (BASE as int) < BASE,
        0 <= p / (BASE as int),
        p > 0 ==> p / (BASE as int) < p,
{
    let b = BASE as int;
    lemma_fundamental_div_mod(p, b);
    lemma_mod_bound(p, b);
    let q = p / b;
    let r = p % b;
    assert(r * w + q * (b * w) == (b * q + r) * w) by (nonlinear_arith);
    assert(q >= 0) by (nonlinear_arith)
        requires
            p == b * q + r,
            0 <= r < b,
            p >= 0,
            b > 0,
    ;
    assert(p > 0 ==> q < p) by (nonlinear_arith)
        requires
            p == b * q + r,
            0 <= r,
            q >= 0,
            b >= 2,
    ;
}

/// The digit at position `i`, 0 beyond the last digit.
fn limb_at(v: &Vec<u32>, i: usize) -> (r: u32)
    ensures
        r == limb(v@, i as int),
{
    if i < v.len() {
        v[i]
    } else {
        0
    }
}

/// Appends the digits of `carry` above the digits that `r` holds.
fn flush(r: &mut Vec<u32>, carry: u128)
    ensures
        value(final(r)@) == value(old(r)@) + carry * weight(old(r)@.len()),
{
    let mut c: u128 = carry;
    let ghost total = value(r@) + carry * weight(r@.len());
    while c > 0
        invariant
            value(r@) + c * weight(r@.len()) == total,
        decreases c,
    {
        let low: u128 = c % (BASE as u128);
        let high: u128 = c / (BASE as u128);
        proof {
            lemma_split_digit(c as int, weight(r@.len()));
            lemma_value_push(r@, low as u32);
            lemma_weight_step(r@.len());
        }
        r.push(low as u32);
        c = high;
    }
    proof {
        assert(0 * weight(r@.len()) == 0) by (nonlinear_arith);
    }
}

impl BigNat {
    /// No `BigNat` is negative.
    pub proof fn lemma_not_negative(&self)
        ensures
            self@ >= 0,
    {
        lemma_value_upto_bound(self.limbs@, self.limbs@.len());
    }

    /// The number 0.
    pub fn zero() -> (r: BigNat)
        ensures
            r@ == 0,
    {
        BigNat { limbs: Vec::new() }
    }

    /// The number `x`.
    pub fn from_u128(x: u128) -> (r: BigNat)
        ensures
            r@ == x,
    {
        let mut limbs: Vec<u32> = Vec::new();
        flush(&mut limbs, x);
        proof {
            assert(x * weight(0) == x) by (nonlinear_arith)
                requires
                    weight(0) == 1,
            ;
        }
        BigNat { limbs }
    }

    /// The product of the number and `m`.
    pub fn mul_small(&self, m: u128) -> (r: BigNat)
        requires
            m < 0x1_0000_0000_0000_0000_0000_0000,
        ensures
            r@ == self@ * m,
    {
        let mut limbs: Vec<u32> = Vec::new();
        let mut carry: u128 = 0;
        let mut i: usize = 0;
        proof {
            assert(0 * m == 0) by (nonlinear_arith);
            assert(0 * weight(0) == 0) by (nonlinear_arith);
        }
        while i < self.limbs.len()
            invariant
                i <= self.limbs.len(),
                limbs.len() == i,
                m < 0x1_0000_0000_0000_0000_0000_0000,
                carry < 0x1_0000_0000_0000_0000_0000_0000,
                value(limbs@) + carry * weight(i as nat) == value_upto(self.limbs@, i as nat) * m,
            decreases self.limbs.len() - i,
        {
            let d: u128 = self.limbs[i] as u128;
            assert(d * m + carry < 0x1_0000_0000_0000_0000_0000_0000_0000_0000) by (nonlinear_arith)
                requires
                    0 <= d < 0x1_0000_0000,
                    0 <= m < 0x1_0000_0000_0000_0000_0000_0000,
                    0 <= carry < 0x1_0000_0000_0000_0000_0000_0000,
            ;
            let p: u128 = d * m + carry;
            let low: u128 = p % (BASE as u128);
            let high: u128 = p / (BASE as u128);
            proof {
                let w = weight(i as nat);
                lemma_split_digit(p as int, w);
                lemma_value_push(limbs@, low as u32);
                lemma_weight_step(i as nat);
                let before = value_upto(self.limbs@, i as nat);
                assert(limb(self.limbs@, i as int) == d);
                assert((before + d * w) * m == before * m + (d * m) * w) by (nonlinear_arith);
                assert((d * m + carry) * w == (d * m) * w + carry * w) by (nonlinear_arith);
                assert(high < 0x1_0000_0000_0000_0000_0000_0000) by (nonlinear_arith)
                    requires
                        high == p / 0x1_0000_0000,
                        p < 0x1_0000_0000_0000_0000_0000_0000_0000_0000,
                ;
            }
            limbs.push(low as u32);
            carry = high;
            i = i + 1;
        }
        flush(&mut limbs, carry);
        BigNat { limbs }
    }

    /// The sum of the two numbers.
    pub fn add(&self, other: &BigNat) -> (r: BigNat)
        ensures
            r@ == self@ + other@,
    {
        let n = if self.limbs.len() > other.limbs.len() {
            self.limbs.len()
        } else {
            other.limbs.len()
        };
        let mut limbs: Vec<u32> = Vec::new();
        let mut carry: u64 = 0;
        let mut i: usize = 0;
        proof {
            assert(0 * weight(0) == 0) by (nonlinear_arith);
        }
        while i < n
            invariant
                i <= n,
                limbs.len() == i,
                carry <= 1,
                value(limbs@) + carry * weight(i as nat) == value_upto(self.limbs@, i as nat)
                    + value_upto(other.limbs@, i as nat),
            decreases n - i,
        {
            let a: u64 = limb_at(&self.limbs, i) as u64;
            let b: u64 = limb_at(&other.limbs, i) as u64;
            let p: u64 = a + b + carry;
            let low: u64 = p % BASE;
            let high: u64 = p / BASE;
            proof {
                let w = weight(i as nat);
                lemma_split_digit(p as int, w);
                lemma_value_push(limbs@, low as u32);
                lemma_weight_step(i as nat);
                assert((a + b + carry) * w == a * w + b * w + carry * w) by (nonlinear_arith);
            }
            limbs.push(low as u32);
            carry = high;
            i = i + 1;
        }
        proof {
            lemma_value_upto_beyond(self.limbs@, n as nat);
            lemma_value_upto_beyond(other.limbs@, n as nat);
        }
        flush(&mut limbs, carry as u128);
        BigNat { limbs }
    }

    /// The difference of the two numbers, of which the second is not the larger.
    pub fn sub(&self, other: &BigNat) -> (r: BigNat)
        requires
            other@ <= self@,
        ensures
            r@ == self@ - other@,
    {
        let n = if self.limbs.len() > other.limbs.len() {
            self.limbs.len()
        } else {
            other.limbs.len()
        };
        let mut limbs: Vec<u32> = Vec::new();
        let mut borrow: u64 = 0;
        let mut i: usize = 0;
        proof {
            assert(0 * weight(0) == 0) by (nonlinear_arith);
        }
        while i < n
            invariant
                i <= n,
                limbs.len() == i,
                borrow <= 1,
                value(limbs@) - borrow * weight(i as nat) == value_upto(self.limbs@, i as nat)
                    - value_upto(other.limbs@, i as nat),
            decreases n - i,
        {
            let a: u64 = limb_at(&self.limbs, i) as u64;
            let b: u64 = limb_at(&other.limbs, i) as u64;
            let take: u64 = b + borrow;
            let (digit, next): (u64, u64) = if a >= take {
                (a - take, 0)
            } else {
                (a + BASE - take, 1)
            };
            proof {
                let w = weight(i as nat);
                lemma_value_push(limbs@, digit as u32);
                lemma_weight_step(i as nat);
                assert(digit * w - next * (BASE * w) == a * w - b * w - borrow * w) by (
                    nonlinear_arith)
                    requires
                        digit - next * BASE == a - b - borrow,
                ;
            }
            limbs.push(digit as u32);
            borrow = next;
            i = i + 1;
        }
        proof {
            lemma_value_upto_beyond(self.limbs@, n as nat);
            lemma_value_upto_beyond(other.limbs@, n as nat);
            lemma_value_upto_bound(limbs@, n as nat);
            assert(1 * weight(n as nat) == weight(n as nat)) by (nonlinear_arith);
            assert(0 * weight(n as nat) == 0) by (nonlinear_arith);
        }
        BigNat { limbs }
    }

    /// Whether the number is at most `other`.
    pub fn le(&self, other: &BigNat) -> (r: bool)
        ensures
            r == (self@ <= other@),
    {
        let n = if self.limbs.len() > other.limbs.len() {
            self.limbs.len()
        } else {
            other.limbs.len()
        };
        proof {
            lemma_value_upto_beyond(self.limbs@, n as nat);
            lemma_value_upto_beyond(other.limbs@, n as nat);
        }
        let mut i: usize = n;
        while i > 0
            invariant
                i <= n,
                self@ - value_upto(self.limbs@, i as nat) == other@ - value_upto(
                    other.limbs@,
                    i as nat,
                ),
            decreases i,
        {
            let a = limb_at(&self.limbs, i - 1);
            let b = limb_at(&other.limbs, i - 1);
            proof {
                let m = (i - 1) as nat;
                let w = weight(m);
                lemma_value_upto_bound(self.limbs@, m);
                lemma_value_upto_bound(other.limbs@, m);
                lemma_weight_step(m);
                if a < b {
                    assert(a * w + w <= b * w) by (nonlinear_arith)
                        requires
                            a + 1 <= b,
                            w > 0,
                    ;
                }
                if a > b {
                    assert(b * w + w <= a * w) by (nonlinear_arith)
                        requires
                            b + 1 <= a,
                            w > 0,
                    ;
                }
            }
            if a < b {
                return true;
            }
            if a > b {
                return false;
            }
            i = i - 1;
        }
        true
    }

    /// A copy of the number.
    pub fn copy(&self) -> (r: BigNat)
        ensures
            r@ == self@,
    {
        let mut limbs: Vec<u32> = Vec::new();
        let mut i: usize = 0;
        while i < self.limbs.len()
            invariant
                i <= self.limbs.len(),
                limbs@ == self.limbs@.take(i as int),
            decreases self.limbs.len() - i,
        {
            limbs.push(self.limbs[i]);
            i = i + 1;
            assert(limbs@ =~= self.limbs@.take(i as int));
        }
        assert(limbs@ =~= self.limbs@);
        BigNat { limbs }
    }
}

impl BigInt {
    /// The integer `x`.
    pub fn from_i128(x: i128) -> (r: BigInt)
        requires
            x > i128::MIN,
        ensures
            r@ == x,
    {
        if x < 0 {
            BigInt { negative: true, magnitude: BigNat::from_u128((-x) as u128) }
        } else {
            BigInt { negative: false, magnitude: BigNat::from_u128(x as u128) }
        }
    }

    /// The product of the integer and `m`.
    pub fn mul_small(&self, m: i128) -> (r: BigInt)
        requires
            -0x1_0000_0000_0000_0000_0000_0000 < m < 0x1_0000_0000_0000_0000_0000_0000,
        ensures
            r@ == self@ * m,
    {
        let ghost a = self.magnitude@;
        if m < 0 {
            let k: u128 = (-m) as u128;
            proof {
                assert(a * m == -(a * k) && (-a) * m == a * k) by (nonlinear_arith)
                    requires
                        k == -m,
                ;
            }
            BigInt { negative: !self.negative, magnitude: self.magnitude.mul_small(k) }
        } else {
            let k: u128 = m as u128;
            proof {
                assert((-a) * m == -(a * k) && a * m == a * k) by (nonlinear_arith)
                    requires
                        k == m,
                ;
            }
            BigInt { negative: self.negative, magnitude: self.magnitude.mul_small(k) }
        }
    }

    /// The sum of the two integers.
    pub fn add(&self, other: &BigInt) -> (r: BigInt)
        ensures
            r@ == self@ + other@,
    {
        proof {
            lemma_value_upto_bound(self.magnitude.limbs@, self.magnitude.limbs@.len());
            lemma_value_upto_bound(other.magnitude.limbs@, other.magnitude.limbs@.len());
        }
        if self.negative == other.negative {
            BigInt { negative: self.negative, magnitude: self.magnitude.add(&other.magnitude) }
        } else if other.magnitude.le(&self.magnitude) {
            BigInt { negative: self.negative, magnitude: self.magnitude.sub(&other.magnitude) }
        } else {
            BigInt { negative: other.negative, magnitude: other.magnitude.sub(&self.magnitude) }
        }
    }

    /// The difference of the two integers.
    pub fn sub(&self, other: &BigInt) -> (r: BigInt)
        ensures
            r@ == self@ - other@,
    {
        let negated = BigInt { negative: !other.negative, magnitude: other.magnitude.copy() };
        self.add(&negated)
    }

    /// Whether the integer is 0 or below.
    pub fn is_not_positive(&self) -> (r: bool)
        ensures
            r == (self@ <= 0),
    {
        proof {
            lemma_value_upto_bound(self.magnitude.limbs@, self.magnitude.limbs@.len());
        }
        self.negative || self.magnitude.le(&BigNat::zero())
    }

    /// `x` to the power `n`.
    pub fn pow(x: i128, n: u32) -> (r: BigInt)
        requires
            -0x1_0000_0000_0000_0000_0000_0000 < x < 0x1_0000_0000_0000_0000_0000_0000,
        ensures
            r@ == power(x as int, n as nat),
    {
        let mut r = BigInt::from_i128(1);
        let mut i: u32 = 0;
        while i < n
            invariant
                i <= n,
                -0x1_0000_0000_0000_0000_0000_0000 < x < 0x1_0000_0000_0000_0000_0000_0000,
                r@ == power(x as int, i as nat),
            decreases n - i,
        {
            r = r.mul_small(x);
            i = i + 1;
            proof {
                let p = power(x as int, (i - 1) as nat);
                assert(p * x == x * p) by (nonlinear_arith);
            }
        }
        r
    }
}

} // verus!

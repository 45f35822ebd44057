//! The score formulas of CVSS v3.0 and v3.1, in exact arithmetic.
//!
//! Weights are whole numbers of thousandths, and scores whole numbers of tenths. An
//! intermediate value is a whole number of some smaller unit, which its name tells:
//! `e18` stands for units of 10^-18.

use vstd::prelude::*;
use crate::bignum::{
    lemma_power_adds, lemma_power_negated, lemma_power_of_power, lemma_power_of_product,
    lemma_power_positive, power, BigInt, BigNat,
};
use crate::score::{lemma_round_half_up_order, on_scale, round_half_up, round_on_scale, Score};
use crate::v3::{
    AttackComplexity, AttackVector, CvssV3, ExploitCodeMaturity, Impact, PrivilegesRequired,
    RemediationLevel, ReportConfidence, Scope, SecurityRequirement, UserInteraction, V3Metrics,
};

verus! {

pub const E6: u128 = 1_000_000;

pub const E9: u128 = 1_000_000_000;

pub const E18: u128 = 1_000_000_000_000_000_000;

pub const E19: u128 = 10_000_000_000_000_000_000;

/// 0.915 in units of 10^-18: the cap of the modified impact sub-score.
pub const CAP_E18: u128 = 915_000_000_000_000_000;

/// 0.029 in units of 10^-18.
pub const SHIFT_E18: i128 = 29_000_000_000_000_000;

/// 0.02 in units of 10^-18.
pub const OFFSET_E18: i128 = 20_000_000_000_000_000;

/// 0.02 in units of 10^-22.
pub const OFFSET_E22: i128 = 200_000_000_000_000_000_000;

/// The polynomial by which a changed scope turns an impact sub-score `m` into an impact.
#[derive(Clone, Copy, Debug, PartialEq, Eq, Structural)]
pub enum Polynomial {
    /// `7.52 * (m - 0.029) - 3.25 * (m - 0.02)^15`: the base score of both versions and
    /// the environmental score of version 3.0.
    Fifteenth,
    /// `7.52 * (m - 0.029) - 3.25 * (m * 0.9731 - 0.02)^13`: the environmental score of
    /// version 3.1.
    Thirteenth,
}

/// The weights that a score is computed from, in thousandths.
#[derive(Clone, Copy, Debug, PartialEq, Eq, Structural)]
pub struct Weights {
    pub av: u32,
    pub ac: u32,
    pub pr: u32,
    pub ui: u32,
    /// Whether the scope is changed.
    pub changed: bool,
    pub c: u32,
    pub i: u32,
    pub a: u32,
    /// The multipliers of the security requirements; 1000 in a base score.
    pub cr: u32,
    pub ir: u32,
    pub ar: u32,
    /// Whether the impact sub-score is capped at 0.915, as in an environmental score.
    pub capped: bool,
    pub polynomial: Polynomial,
}

/// 10 to the power `k`.
pub open spec fn ten(k: nat) -> int {
    power(10, k)
}

impl Weights {
    /// Whether every weight is one that a metric value can have.
    pub open spec fn valid(self) -> bool {
        self.av <= 1000 && self.ac <= 1000 && self.pr <= 1000 && self.ui <= 1000 && self.c <= 560
            && self.i <= 560 && self.a <= 560 && self.cr <= 1500 && self.ir <= 1500 && self.ar
            <= 1500
    }

    /// The impact sub-score in units of 10^-18:
    /// `1 - (1 - c * cr) * (1 - i * ir) * (1 - a * ar)`, capped at 0.915 where asked for.
    pub open spec fn sub_score_e18(self) -> int {
        let raw = E18 - (E6 - self.c * self.cr) * (E6 - self.i * self.ir) * (E6 - self.a
            * self.ar);
        if self.capped && raw > CAP_E18 {
            CAP_E18 as int
        } else {
            raw
        }
    }

    /// The exploitability in units of 10^-14: `8.22 * av * ac * pr * ui`.
    pub open spec fn exploitability_e14(self) -> int {
        822 * self.av * self.ac * self.pr * self.ui
    }

    /// The exponent of the polynomial.
    pub open spec fn exponent(self) -> nat {
        match self.polynomial {
            Polynomial::Fifteenth => 15,
            Polynomial::Thirteenth => 13,
        }
    }

    /// The number of decimal places of the term that is raised to a power.
    pub open spec fn places(self) -> nat {
        match self.polynomial {
            Polynomial::Fifteenth => 18,
            Polynomial::Thirteenth => 22,
        }
    }

    /// The term that is raised to a power, in units of 10^-places: `m - 0.02` or
    /// `m * 0.9731 - 0.02`.
    pub open spec fn term(self) -> int {
        match self.polynomial {
            Polynomial::Fifteenth => self.sub_score_e18() - OFFSET_E18,
            Polynomial::Thirteenth => 9731 * self.sub_score_e18() - OFFSET_E22,
        }
    }

    /// The number of decimal places of the unit of `changed_impact`: 272 or 288.
    pub open spec fn unit(self) -> nat {
        (self.places() * self.exponent() + 2) as nat
    }

    /// The impact under a changed scope, in units of 10^-unit:
    /// `7.52 * (m - 0.029) - 3.25 * term^exponent`.
    pub open spec fn changed_impact(self) -> int {
        752 * (self.sub_score_e18() - SHIFT_E18) * ten((self.unit() - 20) as nat) - 325 * power(
            self.term(),
            self.exponent(),
        )
    }

    /// The score in tenths. It is 0 where the impact is not positive. Under an unchanged
    /// scope the impact is `6.42 * m` and the score `impact + exploitability`; under a
    /// changed scope the score is `1.08 * (impact + exploitability)`. The score is capped
    /// at 10 and rounded to one decimal place.
    pub open spec fn score(self) -> int {
        if self.changed {
            if self.changed_impact() <= 0 {
                0
            } else {
                on_scale(
                    round_half_up(
                        108 * (self.changed_impact() + self.exploitability_e14() * ten(
                            (self.unit() - 14) as nat,
                        )),
                        ten(self.unit() + 1),
                    ),
                )
            }
        } else {
            if self.sub_score_e18() <= 0 {
                0
            } else {
                on_scale(
                    round_half_up(
                        642 * self.sub_score_e18() + self.exploitability_e14() * E6,
                        E19 as int,
                    ),
                )
            }
        }
    }
}

/// The multiplier of a temporal metric, in thousandths: 1.0 where the metric is absent.
pub open spec fn maturity_factor(e: Option<ExploitCodeMaturity>) -> int {
    match e {
        Some(v) => v.score() as int,
        None => 1000,
    }
}

/// The multiplier of a temporal metric, in thousandths: 1.0 where the metric is absent.
pub open spec fn remediation_factor(rl: Option<RemediationLevel>) -> int {
    match rl {
        Some(v) => v.score() as int,
        None => 1000,
    }
}

/// The multiplier of a temporal metric, in thousandths: 1.0 where the metric is absent.
pub open spec fn confidence_factor(rc: Option<ReportConfidence>) -> int {
    match rc {
        Some(v) => v.score() as int,
        None => 1000,
    }
}

/// The multiplier of a security requirement, in thousandths: 1.0 where the metric is absent.
pub open spec fn requirement_factor(r: Option<SecurityRequirement>) -> u32 {
    match r {
        Some(v) => v.score(),
        None => 1000,
    }
}

/// The attack vector that the environmental score uses: the modified one where it is
/// present and defined, the base one otherwise.
pub open spec fn modified_av(base: AttackVector, modified: Option<AttackVector>) -> AttackVector {
    match modified {
        Some(AttackVector::NotDefined) | None => base,
        Some(v) => v,
    }
}

/// The attack complexity that the environmental score uses.
pub open spec fn modified_ac(
    base: AttackComplexity,
    modified: Option<AttackComplexity>,
) -> AttackComplexity {
    match modified {
        Some(AttackComplexity::NotDefined) | None => base,
        Some(v) => v,
    }
}

/// The privileges required that the environmental score uses.
pub open spec fn modified_pr(
    base: PrivilegesRequired,
    modified: Option<PrivilegesRequired>,
) -> PrivilegesRequired {
    match modified {
        Some(PrivilegesRequired::NotDefined) | None => base,
        Some(v) => v,
    }
}

/// The user interaction that the environmental score uses.
pub open spec fn modified_ui(
    base: UserInteraction,
    modified: Option<UserInteraction>,
) -> UserInteraction {
    match modified {
        Some(UserInteraction::NotDefined) | None => base,
        Some(v) => v,
    }
}

/// The scope that the environmental score uses.
pub open spec fn modified_scope(base: Scope, modified: Option<Scope>) -> Scope {
    match modified {
        Some(Scope::NotDefined) | None => base,
        Some(v) => v,
    }
}

/// The impact that the environmental score uses.
pub open spec fn modified_impact(base: Impact, modified: Option<Impact>) -> Impact {
    match modified {
        Some(Impact::NotDefined) | None => base,
        Some(v) => v,
    }
}

/// Whether all eight base metrics are present.
pub open spec fn has_base(m: V3Metrics) -> bool {
    m.attack_vector is Some && m.attack_complexity is Some && m.privileges_required is Some
        && m.user_interaction is Some && m.scope is Some && m.confidentiality_impact is Some
        && m.integrity_impact is Some && m.availability_impact is Some
}

/// The weights of the base score.
pub open spec fn base_weights(m: V3Metrics) -> Weights
    recommends
        has_base(m),
{
    Weights {
        av: m.attack_vector->0.score(),
        ac: m.attack_complexity->0.score(),
        pr: m.privileges_required->0.score(m.scope->0.is_changed()),
        ui: m.user_interaction->0.score(),
        changed: m.scope->0.is_changed(),
        c: m.confidentiality_impact->0.score(),
        i: m.integrity_impact->0.score(),
        a: m.availability_impact->0.score(),
        cr: 1000,
        ir: 1000,
        ar: 1000,
        capped: false,
        polynomial: Polynomial::Fifteenth,
    }
}

/// The weights of the environmental score: every modified metric that is present and
/// defined stands in for its base metric, each impact is weighted by its security
/// requirement, the impact sub-score is capped, and version 3.1 has its own polynomial.
pub open spec fn environmental_weights(m: V3Metrics, v3_0: bool) -> Weights
    recommends
        has_base(m),
{
    let scope = modified_scope(m.scope->0, m.modified_scope);
    Weights {
        av: modified_av(m.attack_vector->0, m.modified_attack_vector).score(),
        ac: modified_ac(m.attack_complexity->0, m.modified_attack_complexity).score(),
        pr: modified_pr(m.privileges_required->0, m.modified_privileges_required).score(
            scope.is_changed(),
        ),
        ui: modified_ui(m.user_interaction->0, m.modified_user_interaction).score(),
        changed: scope.is_changed(),
        c: modified_impact(m.confidentiality_impact->0, m.modified_confidentiality_impact).score(),
        i: modified_impact(m.integrity_impact->0, m.modified_integrity_impact).score(),
        a: modified_impact(m.availability_impact->0, m.modified_availability_impact).score(),
        cr: requirement_factor(m.confidentiality_requirement),
        ir: requirement_factor(m.integrity_requirement),
        ar: requirement_factor(m.availability_requirement),
        capped: true,
        polynomial: if v3_0 {
            Polynomial::Fifteenth
        } else {
            Polynomial::Thirteenth
        },
    }
}

/// A score, in tenths, times the three temporal multipliers, rounded to one decimal place.
pub open spec fn temporal_of(score: int, m: V3Metrics) -> int {
    on_scale(
        round_half_up(
            score * maturity_factor(m.exploit_code_maturity) * remediation_factor(
                m.remediation_level,
            ) * confidence_factor(m.report_confidence),
            E9 as int,
        ),
    )
}

/// The base score in tenths, or `None` where a base metric is missing.
pub open spec fn base_tenths(m: V3Metrics) -> Option<int> {
    if has_base(m) {
        Some(base_weights(m).score())
    } else {
        None
    }
}

/// The temporal score in tenths, or `None` where a base metric is missing: the base score
/// times the temporal multipliers.
pub open spec fn temporal_tenths(m: V3Metrics) -> Option<int> {
    if has_base(m) {
        Some(temporal_of(base_weights(m).score(), m))
    } else {
        None
    }
}

/// The environmental score in tenths, or `None` where a base metric is missing: the score
/// of the environmental weights times the temporal multipliers.
pub open spec fn environmental_tenths(m: V3Metrics, v3_0: bool) -> Option<int> {
    if has_base(m) {
        Some(temporal_of(environmental_weights(m, v3_0).score(), m))
    } else {
        None
    }
}

/// The number of tenths of a score that may be unavailable.
pub open spec fn tenths_of(score: Option<Score>) -> Option<int> {
    match score {
        Some(s) => Some(s.tenths as int),
        None => None,
    }
}

/// A quotient is known from the multiples of the divisor around the dividend.
proof fn lemma_quotient(n: int, d: int, q: int)
    requires
        d > 0,
        q * d <= n,
    ensures
        n / d >= q,
        n < (q + 1) * d ==> n / d == q,
{
    vstd::arithmetic::div_mod::lemma_fundamental_div_mod(n, d);
    vstd::arithmetic::div_mod::lemma_mod_bound(n, d);
    let k = n / d;
    let r = n % d;
    assert(k >= q) by (nonlinear_arith)
        requires
            n == d * k + r,
            0 <= r < d,
            q * d <= n,
            d > 0,
    ;
    if n < (q + 1) * d {
        assert(k <= q) by (nonlinear_arith)
            requires
                n == d * k + r,
                0 <= r < d,
                n < (q + 1) * d,
                d > 0,
        ;
    }
}

/// Rounds the fraction `num / den` of tenths to a score, a half rounding up, and keeps it
/// on the scale from 0.0 to 10.0.
pub fn round_big(num: &BigInt, den: &BigNat) -> (r: Score)
    requires
        den@ > 0,
    ensures
        r.tenths == on_scale(round_half_up(num@, den@)),
        r.tenths <= 100,
{
    proof {
        lemma_round_half_up_order(num@, den@, 0);
    }
    if num.is_not_positive() {
        return Score { tenths: 0 };
    }
    proof {
        num.magnitude.lemma_not_negative();
    }
    let n2 = num.magnitude.mul_small(2).add(den);
    let d2 = den.mul_small(2);
    let mut acc = d2.copy();
    let mut q: u8 = 0;
    proof {
        assert(0 * d2@ == 0) by (nonlinear_arith);
        assert((0 + 1) * d2@ == d2@) by (nonlinear_arith);
    }
    while q < 100 && acc.le(&n2)
        invariant
            q <= 100,
            d2@ > 0,
            acc@ == (q + 1) * d2@,
            q * d2@ <= n2@,
        decreases 100 - q,
    {
        proof {
            assert((q + 1 + 1) * d2@ == (q + 1) * d2@ + d2@) by (nonlinear_arith);
        }
        acc = acc.add(&d2);
        q = q + 1;
    }
    proof {
        lemma_quotient(n2@, d2@, q as int);
        assert(n2@ == 2 * num@ + den@) by (nonlinear_arith)
            requires
                n2@ == num@ * 2 + den@,
        ;
        assert(d2@ == 2 * den@) by (nonlinear_arith)
            requires
                d2@ == den@ * 2,
        ;
    }
    Score { tenths: q }
}

/// `x` times 10 to the power `k`.
fn scale(x: BigInt, k: u32) -> (r: BigInt)
    ensures
        r@ == x@ * ten(k as nat),
{
    let mut r = x;
    let mut i: u32 = 0;
    proof {
        assert(x@ * 1 == x@) by (nonlinear_arith);
    }
    while i < k
        invariant
            i <= k,
            r@ == x@ * ten(i as nat),
        decreases k - i,
    {
        proof {
            let t = ten(i as nat);
            assert((x@ * t) * 10 == x@ * (10 * t)) by (nonlinear_arith);
        }
        r = r.mul_small(10);
        i = i + 1;
    }
    r
}

impl Weights {
    /// Computes the impact sub-score in units of 10^-18.
    pub fn sub_score(&self) -> (r: u128)
        requires
            self.valid(),
        ensures
            r == self.sub_score_e18(),
            r <= E18,
    {
        let c = self.c;
        let i = self.i;
        let a = self.a;
        let cr = self.cr;
        let ir = self.ir;
        let ar = self.ar;
        assert(c * cr <= 840000 && i * ir <= 840000 && a * ar <= 840000) by (nonlinear_arith)
            requires
                c <= 560,
                i <= 560,
                a <= 560,
                cr <= 1500,
                ir <= 1500,
                ar <= 1500,
        ;
        let x: u128 = E6 - (c as u128) * (cr as u128);
        let y: u128 = E6 - (i as u128) * (ir as u128);
        let z: u128 = E6 - (a as u128) * (ar as u128);
        assert(0 <= x * y <= 1_000_000_000_000) by (nonlinear_arith)
            requires
                0 <= x <= 1_000_000,
                0 <= y <= 1_000_000,
        ;
        let xy: u128 = x * y;
        assert(0 <= xy * z <= 1_000_000_000_000_000_000) by (nonlinear_arith)
            requires
                0 <= xy <= 1_000_000_000_000,
                0 <= z <= 1_000_000,
        ;
        let raw: u128 = E18 - xy * z;
        if self.capped && raw > CAP_E18 {
            CAP_E18
        } else {
            raw
        }
    }

    /// Computes the exploitability in units of 10^-14.
    pub fn exploitability(&self) -> (r: u128)
        requires
            self.valid(),
        ensures
            r == self.exploitability_e14(),
            r <= 822 * 1_000_000_000_000,
    {
        let v: u128 = 822 * (self.av as u128);
        let ac = self.ac;
        let pr = self.pr;
        let ui = self.ui;
        assert(0 <= v * ac <= 822_000_000) by (nonlinear_arith)
            requires
                0 <= v <= 822_000,
                0 <= ac <= 1000,
        ;
        let vc: u128 = v * (ac as u128);
        assert(0 <= vc * pr <= 822_000_000_000) by (nonlinear_arith)
            requires
                0 <= vc <= 822_000_000,
                0 <= pr <= 1000,
        ;
        let vcp: u128 = vc * (pr as u128);
        assert(0 <= vcp * ui <= 822_000_000_000_000) by (nonlinear_arith)
            requires
                0 <= vcp <= 822_000_000_000,
                0 <= ui <= 1000,
        ;
        vcp * (ui as u128)
    }

    /// Computes the score of the weights.
    pub fn calculate(&self) -> (r: Score)
        requires
            self.valid(),
        ensures
            r.tenths == self.score(),
            r.tenths <= 100,
    {
        let m = self.sub_score();
        let e = self.exploitability();
        if !self.changed {
            if m == 0 {
                return Score { tenths: 0 };
            }
            let total: i128 = 642 * (m as i128) + (e as i128) * (E6 as i128);
            return round_on_scale(total, E19 as i128);
        }
        let (exponent, unit, term): (u32, u32, i128) = match self.polynomial {
            Polynomial::Fifteenth => (15, 272, m as i128 - OFFSET_E18),
            Polynomial::Thirteenth => (13, 288, 9731 * (m as i128) - OFFSET_E22),
        };
        proof {
            assert(18 * 15 + 2 == 272 && 22 * 13 + 2 == 288);
            assert(unit == self.unit());
            assert(term == self.term());
            assert(exponent == self.exponent());
        }
        let shifted: i128 = 752 * (m as i128 - SHIFT_E18);
        let linear = scale(BigInt::from_i128(shifted), unit - 20);
        let curved = BigInt::pow(term, exponent).mul_small(325);
        let impact = linear.sub(&curved);
        proof {
            let scale = ten((unit - 20) as nat);
            assert(752 * (self.sub_score_e18() - SHIFT_E18) * scale == shifted * scale);
            assert(power(term as int, exponent as nat) * 325 == 325 * power(
                term as int,
                exponent as nat,
            )) by (nonlinear_arith);
            assert(impact@ == self.changed_impact());
        }
        if impact.is_not_positive() {
            return Score { tenths: 0 };
        }
        let reach = scale(BigInt::from_i128(e as i128), unit - 14);
        let total = impact.add(&reach).mul_small(108);
        let den = scale(BigInt::from_i128(1), unit + 1);
        proof {
            den.magnitude.lemma_not_negative();
            lemma_power_positive(10, (unit + 1) as nat);
            assert(1 * ten((unit + 1) as nat) == ten((unit + 1) as nat)) by (nonlinear_arith);
            let s = self.changed_impact() + self.exploitability_e14() * ten((unit - 14) as nat);
            assert(s * 108 == 108 * s) by (nonlinear_arith);
        }
        round_big(&total, &den.magnitude)
    }
}

/// Applies the temporal multipliers to a score.
fn apply_temporal(score: Score, m: &V3Metrics) -> (r: Score)
    requires
        score.tenths <= 100,
    ensures
        r.tenths == temporal_of(score.tenths as int, *m),
        r.tenths <= 100,
{
    let e: i128 = match m.exploit_code_maturity {
        Some(v) => v.score() as i128,
        None => 1000,
    };
    let rl: i128 = match m.remediation_level {
        Some(v) => v.score() as i128,
        None => 1000,
    };
    let rc: i128 = match m.report_confidence {
        Some(v) => v.score() as i128,
        None => 1000,
    };
    let s: i128 = score.tenths as i128;
    assert(0 <= s * e <= 100_000) by (nonlinear_arith)
        requires
            0 <= s <= 100,
            0 <= e <= 1000,
    ;
    let se: i128 = s * e;
    assert(0 <= se * rl <= 100_000_000) by (nonlinear_arith)
        requires
            0 <= se <= 100_000,
            0 <= rl <= 1000,
    ;
    let ser: i128 = se * rl;
    assert(0 <= ser * rc <= 100_000_000_000) by (nonlinear_arith)
        requires
            0 <= ser <= 100_000_000,
            0 <= rc <= 1000,
    ;
    round_on_scale(ser * rc, E9 as i128)
}

/// The value of a metric in the environmental score.
fn pick_av(base: AttackVector, modified: Option<AttackVector>) -> (r: AttackVector)
    ensures
        r == modified_av(base, modified),
{
    match modified {
        Some(AttackVector::NotDefined) | None => base,
        Some(v) => v,
    }
}

/// The value of a metric in the environmental score.
fn pick_ac(base: AttackComplexity, modified: Option<AttackComplexity>) -> (r: AttackComplexity)
    ensures
        r == modified_ac(base, modified),
{
    match modified {
        Some(AttackComplexity::NotDefined) | None => base,
        Some(v) => v,
    }
}

/// The value of a metric in the environmental score.
fn pick_pr(base: PrivilegesRequired, modified: Option<PrivilegesRequired>) -> (r:
    PrivilegesRequired)
    ensures
        r == modified_pr(base, modified),
{
    match modified {
        Some(PrivilegesRequired::NotDefined) | None => base,
        Some(v) => v,
    }
}

/// The value of a metric in the environmental score.
fn pick_ui(base: UserInteraction, modified: Option<UserInteraction>) -> (r: UserInteraction)
    ensures
        r == modified_ui(base, modified),
{
    match modified {
        Some(UserInteraction::NotDefined) | None => base,
        Some(v) => v,
    }
}

/// The value of a metric in the environmental score.
fn pick_scope(base: Scope, modified: Option<Scope>) -> (r: Scope)
    ensures
        r == modified_scope(base, modified),
{
    match modified {
        Some(Scope::NotDefined) | None => base,
        Some(v) => v,
    }
}

/// The value of a metric in the environmental score.
fn pick_impact(base: Impact, modified: Option<Impact>) -> (r: Impact)
    ensures
        r == modified_impact(base, modified),
{
    match modified {
        Some(Impact::NotDefined) | None => base,
        Some(v) => v,
    }
}

/// The multiplier of a security requirement, in thousandths.
fn requirement(r: Option<SecurityRequirement>) -> (w: u32)
    ensures
        w == requirement_factor(r),
        w <= 1500,
{
    match r {
        Some(v) => v.score(),
        None => 1000,
    }
}

impl V3Metrics {
    /// Whether all eight base metrics are present.
    pub fn has_base(&self) -> (r: bool)
        ensures
            r == has_base(*self),
    {
        self.attack_vector.is_some() && self.attack_complexity.is_some()
            && self.privileges_required.is_some() && self.user_interaction.is_some()
            && self.scope.is_some() && self.confidentiality_impact.is_some()
            && self.integrity_impact.is_some() && self.availability_impact.is_some()
    }

    /// The weights of the base score.
    pub fn base_weights(&self) -> (r: Weights)
        requires
            has_base(*self),
        ensures
            r == base_weights(*self),
            r.valid(),
    {
        let changed = self.scope.unwrap().is_changed();
        Weights {
            av: self.attack_vector.unwrap().score(),
            ac: self.attack_complexity.unwrap().score(),
            pr: self.privileges_required.unwrap().score(changed),
            ui: self.user_interaction.unwrap().score(),
            changed,
            c: self.confidentiality_impact.unwrap().score(),
            i: self.integrity_impact.unwrap().score(),
            a: self.availability_impact.unwrap().score(),
            cr: 1000,
            ir: 1000,
            ar: 1000,
            capped: false,
            polynomial: Polynomial::Fifteenth,
        }
    }

    /// The weights of the environmental score.
    pub fn environmental_weights(&self, v3_0: bool) -> (r: Weights)
        requires
            has_base(*self),
        ensures
            r == environmental_weights(*self, v3_0),
            r.valid(),
    {
        let changed = pick_scope(self.scope.unwrap(), self.modified_scope).is_changed();
        Weights {
            av: pick_av(self.attack_vector.unwrap(), self.modified_attack_vector).score(),
            ac: pick_ac(self.attack_complexity.unwrap(), self.modified_attack_complexity).score(),
            pr: pick_pr(self.privileges_required.unwrap(), self.modified_privileges_required).score(
                changed,
            ),
            ui: pick_ui(self.user_interaction.unwrap(), self.modified_user_interaction).score(),
            changed,
            c: pick_impact(
                self.confidentiality_impact.unwrap(),
                self.modified_confidentiality_impact,
            ).score(),
            i: pick_impact(self.integrity_impact.unwrap(), self.modified_integrity_impact).score(),
            a: pick_impact(
                self.availability_impact.unwrap(),
                self.modified_availability_impact,
            ).score(),
            cr: requirement(self.confidentiality_requirement),
            ir: requirement(self.integrity_requirement),
            ar: requirement(self.availability_requirement),
            capped: true,
            polynomial: if v3_0 {
                Polynomial::Fifteenth
            } else {
                Polynomial::Thirteenth
            },
        }
    }
}

impl CvssV3 {
    /// Calculates the base score from the base metrics.
    /// Returns None if required base metrics are missing.
    pub fn calculated_base_score(&self) -> (r: Option<Score>)
        ensures
            tenths_of(r) == base_tenths(self.metrics()),
            r is Some <==> has_base(self.metrics()),
            r is Some ==> r->0.tenths <= 100,
    {
        let m = self.metrics();
        if !m.has_base() {
            return None;
        }
        Some(m.base_weights().calculate())
    }

    /// Calculates the temporal score: the base score times the temporal multipliers.
    /// Returns None if required base metrics are missing.
    pub fn calculated_temporal_score(&self) -> (r: Option<Score>)
        ensures
            tenths_of(r) == temporal_tenths(self.metrics()),
            r is Some <==> has_base(self.metrics()),
            r is Some ==> r->0.tenths <= 100,
    {
        let m = self.metrics();
        if !m.has_base() {
            return None;
        }
        Some(apply_temporal(m.base_weights().calculate(), &m))
    }

    /// Calculates the environmental score from the modified metrics, the security
    /// requirements and the temporal multipliers, by the formula of the record's version.
    /// Returns None if required base metrics are missing.
    pub fn calculated_environmental_score(&self) -> (r: Option<Score>)
        ensures
            tenths_of(r) == environmental_tenths(
                self.metrics(),
                crate::v3::is_v3_0(self.vector_string@),
            ),
            r is Some <==> has_base(self.metrics()),
            r is Some ==> r->0.tenths <= 100,
    {
        let m = self.metrics();
        if !m.has_base() {
            return None;
        }
        let v3_0 = self.is_v3_0();
        Some(apply_temporal(m.environmental_weights(v3_0).calculate(), &m))
    }
}

/// Whether the three impact metrics are all `NoneValue`.
pub open spec fn no_impact(m: V3Metrics) -> bool {
    m.confidentiality_impact == Some(Impact::NoneValue) && m.integrity_impact == Some(
        Impact::NoneValue,
    ) && m.availability_impact == Some(Impact::NoneValue)
}

/// Whether the three impact metrics that the environmental score uses are all `NoneValue`.
pub open spec fn no_modified_impact(m: V3Metrics) -> bool
    recommends
        has_base(m),
{
    modified_impact(m.confidentiality_impact->0, m.modified_confidentiality_impact)
        == Impact::NoneValue && modified_impact(m.integrity_impact->0, m.modified_integrity_impact)
        == Impact::NoneValue && modified_impact(
        m.availability_impact->0,
        m.modified_availability_impact,
    ) == Impact::NoneValue
}

/// Weights without any impact give the score 0, under either scope and polynomial.
pub proof fn lemma_no_impact_weights(w: Weights)
    requires
        w.c == 0,
        w.i == 0,
        w.a == 0,
    ensures
        w.sub_score_e18() == 0,
        w.score() == 0,
{
    let cr = w.cr as int;
    let ir = w.ir as int;
    let ar = w.ar as int;
    assert(E18 - (E6 - 0 * cr) * (E6 - 0 * ir) * (E6 - 0 * ar) == 0) by (nonlinear_arith)
        requires
            E18 == 1_000_000_000_000_000_000,
            E6 == 1_000_000,
    ;
    assert(w.sub_score_e18() == 0);
    if w.changed {
        match w.polynomial {
            Polynomial::Fifteenth => {
                assert(w.unit() == 272);
                assert(power(10, 16) == 10_000_000_000_000_000) by {
                    reveal_with_fuel(power, 17);
                }
                assert(power(10, 12) == 1_000_000_000_000) by {
                    reveal_with_fuel(power, 13);
                }
                assert(power(2, 15) == 32768) by {
                    reveal_with_fuel(power, 16);
                }
                let t = power(10, 240);
                lemma_power_positive(10, 240);
                lemma_power_of_power(10, 16, 15);
                lemma_power_of_product(2, 10_000_000_000_000_000, 15);
                lemma_power_negated(20_000_000_000_000_000, 15);
                lemma_power_adds(10, 240, 12);
                assert(w.term() == -20_000_000_000_000_000);
                assert(power(w.term(), 15) == -(32768 * t));
                assert(ten(252) == t * 1_000_000_000_000);
                assert(752 * (0 - SHIFT_E18) * (t * 1_000_000_000_000) - 325 * (-(32768 * t)) <= 0)
                    by (nonlinear_arith)
                    requires
                        t > 0,
                        SHIFT_E18 == 29_000_000_000_000_000,
                ;
            },
            Polynomial::Thirteenth => {
                assert(w.unit() == 288);
                assert(power(10, 20) == 100_000_000_000_000_000_000) by {
                    reveal_with_fuel(power, 21);
                }
                assert(power(10, 8) == 100_000_000) by {
                    reveal_with_fuel(power, 9);
                }
                assert(power(2, 13) == 8192) by {
                    reveal_with_fuel(power, 14);
                }
                let t = power(10, 260);
                lemma_power_positive(10, 260);
                lemma_power_of_power(10, 20, 13);
                lemma_power_of_product(2, 100_000_000_000_000_000_000, 13);
                lemma_power_negated(200_000_000_000_000_000_000, 13);
                lemma_power_adds(10, 260, 8);
                assert(w.term() == -200_000_000_000_000_000_000);
                assert(power(w.term(), 13) == -(8192 * t));
                assert(ten(268) == t * 100_000_000);
                assert(752 * (0 - SHIFT_E18) * (t * 100_000_000) - 325 * (-(8192 * t)) <= 0)
                    by (nonlinear_arith)
                    requires
                        t > 0,
                        SHIFT_E18 == 29_000_000_000_000_000,
                ;
            },
        }
        assert(w.changed_impact() <= 0);
    }
}

/// Where all three impact metrics are `NoneValue`, the base score and the temporal score
/// are exactly 0.0, whatever the other metrics are. So is the environmental score where no
/// modified impact metric says otherwise.
pub proof fn lemma_no_impact_scores_zero(m: V3Metrics, v3_0: bool)
    requires
        has_base(m),
        no_impact(m),
    ensures
        base_tenths(m) == Some(0int),
        temporal_tenths(m) == Some(0int),
        no_modified_impact(m) ==> environmental_tenths(m, v3_0) == Some(0int),
{
    lemma_no_impact_weights(base_weights(m));
    let e = maturity_factor(m.exploit_code_maturity);
    let rl = remediation_factor(m.remediation_level);
    let rc = confidence_factor(m.report_confidence);
    assert(0 * e * rl * rc == 0) by (nonlinear_arith);
    lemma_round_half_up_order(0, E9 as int, 0);
    assert(temporal_of(0, m) == 0);
    if no_modified_impact(m) {
        lemma_no_impact_weights(environmental_weights(m, v3_0));
    }
}

/// Every score lies on the scale from 0.0 to 10.0 and has one decimal digit: it is a whole
/// number of tenths between 0 and 100.
pub proof fn lemma_score_range(m: V3Metrics, v3_0: bool)
    ensures
        base_tenths(m) is Some ==> 0 <= base_tenths(m)->0 <= 100,
        temporal_tenths(m) is Some ==> 0 <= temporal_tenths(m)->0 <= 100,
        environmental_tenths(m, v3_0) is Some ==> 0 <= environmental_tenths(m, v3_0)->0 <= 100,
{
}

/// A score is available exactly where all base metrics are present.
pub proof fn lemma_score_available(m: V3Metrics, v3_0: bool)
    ensures
        base_tenths(m) is Some <==> has_base(m),
        temporal_tenths(m) is Some <==> has_base(m),
        environmental_tenths(m, v3_0) is Some <==> has_base(m),
{
}

/// Without environmental metrics, the environmental score of version 3.0 is the temporal
/// score.
pub proof fn lemma_plain_environmental_v3_0(m: V3Metrics)
    requires
        has_base(m),
        m.confidentiality_requirement is None,
        m.integrity_requirement is None,
        m.availability_requirement is None,
        m.modified_attack_vector is None,
        m.modified_attack_complexity is None,
        m.modified_privileges_required is None,
        m.modified_user_interaction is None,
        m.modified_scope is None,
        m.modified_confidentiality_impact is None,
        m.modified_integrity_impact is None,
        m.modified_availability_impact is None,
    ensures
        environmental_tenths(m, true) == temporal_tenths(m),
{
    let b = base_weights(m);
    let e = environmental_weights(m, true);
    assert(e == Weights { capped: true, ..b });
    // The cap at 0.915 is never reached with requirements of 1.0.
    let c = b.c as int;
    let i = b.i as int;
    let a = b.a as int;
    assert((E6 - c * 1000) * (E6 - i * 1000) * (E6 - a * 1000) >= 85_184_000_000_000_000)
        by (nonlinear_arith)
        requires
            0 <= c <= 560,
            0 <= i <= 560,
            0 <= a <= 560,
            E6 == 1_000_000,
    ;
    assert(b.sub_score_e18() == e.sub_score_e18());
}

} // verus!

//! The score formulas of CVSS v2.0, in exact arithmetic.
//!
//! Weights are whole numbers of thousandths, and scores whole numbers of tenths. An
//! intermediate value is a whole number of some smaller unit, which its name tells:
//! `e20` stands for units of 10^-20.

use vstd::prelude::*;
use crate::score::{lemma_round_half_up_order, on_scale, round_half_up, round_on_scale, Score};
use crate::v2_0::{
    CollateralDamagePotential, CvssV2, Exploitability, Impact, RemediationLevel, ReportConfidence,
    SecurityRequirement, TargetDistribution, V2Metrics,
};

verus! {

pub const E6: u128 = 1_000_000;

pub const E9: u128 = 1_000_000_000;

pub const E11: u128 = 100_000_000_000;

pub const E18: u128 = 1_000_000_000_000_000_000;

pub const E20: u128 = 100_000_000_000_000_000_000;

pub const E21: u128 = 1_000_000_000_000_000_000_000;

pub const E23: u128 = 100_000_000_000_000_000_000_000;

/// The impact sub-score in units of 10^-20:
/// `10.41 * (1 - (1 - c * cr) * (1 - i * ir) * (1 - a * ar))`,
/// for impact weights `c`, `i`, `a` and requirement multipliers `cr`, `ir`, `ar`, all in
/// thousandths.
pub open spec fn impact_e20(c: int, i: int, a: int, cr: int, ir: int, ar: int) -> int {
    1041 * (E18 - (E6 - c * cr) * (E6 - i * ir) * (E6 - a * ar))
}

/// The exploitability sub-score in units of 10^-9: `20 * av * ac * au`, for weights in
/// thousandths.
pub open spec fn exploitability_e9(av: int, ac: int, au: int) -> int {
    20 * av * ac * au
}

/// The score, in tenths, of an impact and an exploitability sub-score:
/// `((0.6 * impact) + (0.4 * exploitability) - 1.5) * f(impact)` rounded to one decimal place
/// and kept on the scale, where `f(impact)` is 0 for no impact and 1.176 otherwise.
pub open spec fn combined(impact_e20: int, exploitability_e9: int) -> int {
    if impact_e20 == 0 {
        0
    } else {
        on_scale(
            round_half_up(
                (6 * impact_e20 + 4 * exploitability_e9 * E11 - 15 * E20) * 1176,
                E23 as int,
            ),
        )
    }
}

/// The multiplier of a temporal metric, in thousandths: 1.0 where the metric is absent.
pub open spec fn exploitability_factor(e: Option<Exploitability>) -> int {
    match e {
        Some(v) => v.score() as int,
        None => 1000,
    }
}

/// The multiplier of a temporal metric, in thousandths: 1.0 where the metric is absent.
pub open spec fn remediation_factor(rl: Option<RemediationLevel>) -> int {
    match rl {
        Some(v) => v.score() as int,
        None => 1000,
    }
}

/// The multiplier of a temporal metric, in thousandths: 1.0 where the metric is absent.
pub open spec fn confidence_factor(rc: Option<ReportConfidence>) -> int {
    match rc {
        Some(v) => v.score() as int,
        None => 1000,
    }
}

/// The multiplier of a security requirement, in thousandths: 1.0 where the metric is absent.
pub open spec fn requirement_factor(r: Option<SecurityRequirement>) -> int {
    match r {
        Some(v) => v.score() as int,
        None => 1000,
    }
}

/// The collateral damage potential, in thousandths: 0 where the metric is absent.
pub open spec fn collateral_factor(cdp: Option<CollateralDamagePotential>) -> int {
    match cdp {
        Some(v) => v.score() as int,
        None => 0,
    }
}

/// The target distribution, in thousandths: 1.0 where the metric is absent.
pub open spec fn distribution_factor(td: Option<TargetDistribution>) -> int {
    match td {
        Some(v) => v.score() as int,
        None => 1000,
    }
}

/// Whether all six base metrics are present.
pub open spec fn has_base(m: V2Metrics) -> bool {
    m.access_vector is Some && m.access_complexity is Some && m.authentication is Some
        && m.confidentiality_impact is Some && m.integrity_impact is Some
        && m.availability_impact is Some
}

/// The exploitability sub-score of the base metrics, in units of 10^-9.
pub open spec fn exploitability_of(m: V2Metrics) -> int
    recommends
        has_base(m),
{
    exploitability_e9(
        m.access_vector->0.score() as int,
        m.access_complexity->0.score() as int,
        m.authentication->0.score() as int,
    )
}

/// The impact sub-score of the base metrics, in units of 10^-20.
pub open spec fn impact_of(m: V2Metrics) -> int
    recommends
        has_base(m),
{
    impact_e20(
        m.confidentiality_impact->0.score() as int,
        m.integrity_impact->0.score() as int,
        m.availability_impact->0.score() as int,
        1000,
        1000,
        1000,
    )
}

/// The adjusted impact in units of 10^-20: the impact sub-score with each impact weighted
/// by its security requirement, capped at 10.
pub open spec fn adjusted_impact_of(m: V2Metrics) -> int
    recommends
        has_base(m),
{
    let raw = impact_e20(
        m.confidentiality_impact->0.score() as int,
        m.integrity_impact->0.score() as int,
        m.availability_impact->0.score() as int,
        requirement_factor(m.confidentiality_requirement),
        requirement_factor(m.integrity_requirement),
        requirement_factor(m.availability_requirement),
    );
    if raw > E21 {
        E21 as int
    } else {
        raw
    }
}

/// A score, in tenths, times the three temporal multipliers, rounded to one decimal place.
pub open spec fn temporal_of(score: int, m: V2Metrics) -> int {
    on_scale(
        round_half_up(
            score * exploitability_factor(m.exploitability) * remediation_factor(
                m.remediation_level,
            ) * confidence_factor(m.report_confidence),
            E9 as int,
        ),
    )
}

/// The base score in tenths, or `None` where a base metric is missing.
pub open spec fn base_tenths(m: V2Metrics) -> Option<int> {
    if has_base(m) {
        Some(combined(impact_of(m), exploitability_of(m)))
    } else {
        None
    }
}

/// The temporal score in tenths, or `None` where a base metric is missing: the base score
/// times the temporal multipliers.
pub open spec fn temporal_tenths(m: V2Metrics) -> Option<int> {
    if has_base(m) {
        Some(temporal_of(combined(impact_of(m), exploitability_of(m)), m))
    } else {
        None
    }
}

/// The environmental score in tenths, or `None` where a base metric is missing: the
/// temporal score `t` of the adjusted impact, raised by the collateral damage potential and
/// weighted by the target distribution, `(t + (10 - t) * cdp) * td`.
pub open spec fn environmental_tenths(m: V2Metrics) -> Option<int> {
    if has_base(m) {
        let t = temporal_of(combined(adjusted_impact_of(m), exploitability_of(m)), m);
        Some(
            on_scale(
                round_half_up(
                    (t * 1000 + (100 - t) * collateral_factor(m.collateral_damage_potential))
                        * distribution_factor(m.target_distribution),
                    E6 as int,
                ),
            ),
        )
    } else {
        None
    }
}

/// The number of tenths of a score that may be unavailable.
pub open spec fn tenths_of(score: Option<Score>) -> Option<int> {
    match score {
        Some(s) => Some(s.tenths as int),
        None => None,
    }
}

/// Computes the impact sub-score in units of 10^-20.
fn impact(c: u32, i: u32, a: u32, cr: u32, ir: u32, ar: u32) -> (r: u128)
    requires
        c <= 660,
        i <= 660,
        a <= 660,
        cr <= 1510,
        ir <= 1510,
        ar <= 1510,
    ensures
        r == impact_e20(c as int, i as int, a as int, cr as int, ir as int, ar as int),
        r <= 1041 * E18,
{
    assert(c * cr <= 996600 && i * ir <= 996600 && a * ar <= 996600) by (nonlinear_arith)
        requires
            c <= 660,
            i <= 660,
            a <= 660,
            cr <= 1510,
            ir <= 1510,
            ar <= 1510,
    ;
    let wc: u128 = (c as u128) * (cr as u128);
    let wi: u128 = (i as u128) * (ir as u128);
    let wa: u128 = (a as u128) * (ar as u128);
    let x: u128 = E6 - wc;
    let y: u128 = E6 - wi;
    let z: u128 = E6 - wa;
    assert(0 <= x * y <= 1_000_000_000_000) by (nonlinear_arith)
        requires
            0 <= x <= 1_000_000,
            0 <= y <= 1_000_000,
    ;
    let xy: u128 = x * y;
    assert(0 <= xy * z <= 1_000_000_000_000_000_000) by (nonlinear_arith)
        requires
            0 <= xy <= 1_000_000_000_000,
            0 <= z <= 1_000_000,
    ;
    1041 * (E18 - xy * z)
}

/// Computes the exploitability sub-score in units of 10^-9.
fn exploitability(av: u32, ac: u32, au: u32) -> (r: u128)
    requires
        av <= 1000,
        ac <= 1000,
        au <= 1000,
    ensures
        r == exploitability_e9(av as int, ac as int, au as int),
        r <= 20 * E9,
{
    let v: u128 = 20 * (av as u128);
    assert(0 <= v * ac <= 20_000_000) by (nonlinear_arith)
        requires
            0 <= v <= 20_000,
            0 <= ac <= 1000,
    ;
    let vc: u128 = v * (ac as u128);
    assert(0 <= vc * au <= 20_000_000_000) by (nonlinear_arith)
        requires
            0 <= vc <= 20_000_000,
            0 <= au <= 1000,
    ;
    vc * (au as u128)
}

/// Computes the score of an impact and an exploitability sub-score.
fn combine(impact: u128, exploitability: u128) -> (r: Score)
    requires
        impact <= 1041 * E18,
        exploitability <= 20 * E9,
    ensures
        r.tenths == combined(impact as int, exploitability as int),
        r.tenths <= 100,
{
    if impact == 0 {
        return Score { tenths: 0 };
    }
    let e: i128 = exploitability as i128;
    assert(0 <= 4 * e * E11 <= 8 * E21) by (nonlinear_arith)
        requires
            0 <= e <= 20 * E9,
            E11 == 100_000_000_000,
            E9 == 1_000_000_000,
            E21 == 1_000_000_000_000_000_000_000,
    ;
    let x: i128 = 6 * (impact as i128) + 4 * e * (E11 as i128) - 15 * (E20 as i128);
    round_on_scale(x * 1176, E23 as i128)
}

/// Applies the temporal multipliers to a score.
fn apply_temporal(score: Score, m: &V2Metrics) -> (r: Score)
    requires
        score.tenths <= 100,
    ensures
        r.tenths == temporal_of(score.tenths as int, *m),
        r.tenths <= 100,
{
    let e: i128 = match m.exploitability {
        Some(v) => v.score() as i128,
        None => 1000,
    };
    let rl: i128 = match m.remediation_level {
        Some(v) => v.score() as i128,
        None => 1000,
    };
    let rc: i128 = match m.report_confidence {
        Some(v) => v.score() as i128,
        None => 1000,
    };
    let s: i128 = score.tenths as i128;
    assert(0 <= s * e <= 100_000) by (nonlinear_arith)
        requires
            0 <= s <= 100,
            0 <= e <= 1000,
    ;
    let se: i128 = s * e;
    assert(0 <= se * rl <= 100_000_000) by (nonlinear_arith)
        requires
            0 <= se <= 100_000,
            0 <= rl <= 1000,
    ;
    let ser: i128 = se * rl;
    assert(0 <= ser * rc <= 100_000_000_000) by (nonlinear_arith)
        requires
            0 <= ser <= 100_000_000,
            0 <= rc <= 1000,
    ;
    round_on_scale(ser * rc, E9 as i128)
}

/// The multiplier of a security requirement, in thousandths.
fn requirement(r: Option<SecurityRequirement>) -> (w: u32)
    ensures
        w == requirement_factor(r),
        w <= 1510,
{
    match r {
        Some(v) => v.score(),
        None => 1000,
    }
}

impl CvssV2 {
    /// Calculates the base score from the base metrics.
    /// Returns None if required base metrics are missing.
    pub fn calculated_base_score(&self) -> (r: Option<Score>)
        ensures
            tenths_of(r) == base_tenths(self.metrics()),
            r is Some <==> has_base(self.metrics()),
            r is Some ==> r->0.tenths <= 100,
    {
        let m = self.metrics();
        if m.access_vector.is_none() || m.access_complexity.is_none() || m.authentication.is_none()
            || m.confidentiality_impact.is_none() || m.integrity_impact.is_none()
            || m.availability_impact.is_none() {
            return None;
        }
        let imp = impact(
            m.confidentiality_impact.unwrap().score(),
            m.integrity_impact.unwrap().score(),
            m.availability_impact.unwrap().score(),
            1000,
            1000,
            1000,
        );
        let expl = exploitability(
            m.access_vector.unwrap().score(),
            m.access_complexity.unwrap().score(),
            m.authentication.unwrap().score(),
        );
        Some(combine(imp, expl))
    }

    /// Calculates the temporal score: the base score times the temporal multipliers.
    /// Returns None if required base metrics are missing.
    pub fn calculated_temporal_score(&self) -> (r: Option<Score>)
        ensures
            tenths_of(r) == temporal_tenths(self.metrics()),
            r is Some <==> has_base(self.metrics()),
            r is Some ==> r->0.tenths <= 100,
    {
        let m = self.metrics();
        match self.calculated_base_score() {
            Some(base) => Some(apply_temporal(base, &m)),
            None => None,
        }
    }

    /// Calculates the environmental score from the adjusted impact, the temporal
    /// multipliers, the collateral damage potential and the target distribution.
    /// Returns None if required base metrics are missing.
    pub fn calculated_environmental_score(&self) -> (r: Option<Score>)
        ensures
            tenths_of(r) == environmental_tenths(self.metrics()),
            r is Some <==> has_base(self.metrics()),
            r is Some ==> r->0.tenths <= 100,
    {
        let m = self.metrics();
        if m.access_vector.is_none() || m.access_complexity.is_none() || m.authentication.is_none()
            || m.confidentiality_impact.is_none() || m.integrity_impact.is_none()
            || m.availability_impact.is_none() {
            return None;
        }
        let raw = impact(
            m.confidentiality_impact.unwrap().score(),
            m.integrity_impact.unwrap().score(),
            m.availability_impact.unwrap().score(),
            requirement(m.confidentiality_requirement),
            requirement(m.integrity_requirement),
            requirement(m.availability_requirement),
        );
        let adjusted = if raw > E21 {
            E21
        } else {
            raw
        };
        let expl = exploitability(
            m.access_vector.unwrap().score(),
            m.access_complexity.unwrap().score(),
            m.authentication.unwrap().score(),
        );
        let t = apply_temporal(combine(adjusted, expl), &m);
        let cdp: i128 = match m.collateral_damage_potential {
            Some(v) => v.score() as i128,
            None => 0,
        };
        let td: i128 = match m.target_distribution {
            Some(v) => v.score() as i128,
            None => 1000,
        };
        let ts: i128 = t.tenths as i128;
        assert(0 <= (100 - ts) * cdp <= 50_000) by (nonlinear_arith)
            requires
                0 <= ts <= 100,
                0 <= cdp <= 500,
        ;
        let raised: i128 = ts * 1000 + (100 - ts) * cdp;
        assert(0 <= raised * td <= 150_000_000) by (nonlinear_arith)
            requires
                0 <= raised <= 150_000,
                0 <= td <= 1000,
        ;
        Some(round_on_scale(raised * td, E6 as i128))
    }
}

/// Where all three impact metrics are `NoneValue`, the base score and the temporal score
/// are exactly 0.0, whatever the other metrics are. So is the environmental score, unless
/// there is a collateral damage potential, which counts on its own.
pub proof fn lemma_no_impact_scores_zero(m: V2Metrics)
    requires
        has_base(m),
        m.confidentiality_impact == Some(Impact::NoneValue),
        m.integrity_impact == Some(Impact::NoneValue),
        m.availability_impact == Some(Impact::NoneValue),
    ensures
        base_tenths(m) == Some(0int),
        temporal_tenths(m) == Some(0int),
        collateral_factor(m.collateral_damage_potential) == 0 ==> environmental_tenths(m) == Some(
            0int,
        ),
{
    assert(impact_of(m) == 0) by (nonlinear_arith)
        requires
            impact_of(m) == 1041 * (E18 - (E6 - 0 * 1000) * (E6 - 0 * 1000) * (E6 - 0 * 1000)),
            E18 == 1_000_000_000_000_000_000,
            E6 == 1_000_000,
    ;
    let cr = requirement_factor(m.confidentiality_requirement);
    let ir = requirement_factor(m.integrity_requirement);
    let ar = requirement_factor(m.availability_requirement);
    assert(impact_e20(0, 0, 0, cr, ir, ar) == 0) by (nonlinear_arith)
        requires
            impact_e20(0, 0, 0, cr, ir, ar) == 1041 * (E18 - (E6 - 0 * cr) * (E6 - 0 * ir) * (E6 - 0
                * ar)),
            E18 == 1_000_000_000_000_000_000,
            E6 == 1_000_000,
    ;
    let e = exploitability_factor(m.exploitability);
    let rl = remediation_factor(m.remediation_level);
    let rc = confidence_factor(m.report_confidence);
    assert(0 * e * rl * rc == 0) by (nonlinear_arith);
    lemma_round_half_up_order(0, E9 as int, 0);
    assert(temporal_of(0, m) == 0);
    if collateral_factor(m.collateral_damage_potential) == 0 {
        let td = distribution_factor(m.target_distribution);
        assert((0 * 1000 + (100 - 0) * 0) * td == 0) by (nonlinear_arith);
        lemma_round_half_up_order(0, E6 as int, 0);
    }
}

/// Every score lies on the scale from 0.0 to 10.0 and has one decimal digit: it is a whole
/// number of tenths between 0 and 100.
pub proof fn lemma_score_range(m: V2Metrics)
    ensures
        base_tenths(m) is Some ==> 0 <= base_tenths(m)->0 <= 100,
        temporal_tenths(m) is Some ==> 0 <= temporal_tenths(m)->0 <= 100,
        environmental_tenths(m) is Some ==> 0 <= environmental_tenths(m)->0 <= 100,
{
}

/// A score is available exactly where all base metrics are present.
pub proof fn lemma_score_available(m: V2Metrics)
    ensures
        base_tenths(m) is Some <==> has_base(m),
        temporal_tenths(m) is Some <==> has_base(m),
        environmental_tenths(m) is Some <==> has_base(m),
{
}

} // verus!

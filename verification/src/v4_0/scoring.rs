//! CVSS v4.0 scoring: classification into a MacroVector, table lookup and interpolation.
//!
//! Scores are computed in exact arithmetic. A score that is not yet rounded is a fraction
//! of tenths, `num / den`.

use vstd::prelude::*;
use crate::score::{Fraction, Score};
use crate::v4_0::lookup::{lemma_table_domain, lemma_table_monotone, lookup_global, table_score};
use crate::v4_0::score::{lemma_rounded_v4_range, round_v4, rounded_v4};
use crate::v4_0::{
    AttackComplexity, AttackRequirements, AttackVector, CvssV4, ExploitMaturity, Impact,
    PrivilegesRequired, Requirement, SubsequentImpact, UserInteraction, V4Metrics,
};

verus! {

/// A MacroVector: the six equivalence-class ordinals EQ1 to EQ6 by which a score is looked up.
#[derive(Clone, Copy, Debug, PartialEq, Eq, Hash, Structural)]
pub struct MacroVector {
    pub eq1: u8,
    pub eq2: u8,
    pub eq3: u8,
    pub eq4: u8,
    pub eq5: u8,
    pub eq6: u8,
}

impl MacroVector {
    pub fn new(eq1: u8, eq2: u8, eq3: u8, eq4: u8, eq5: u8, eq6: u8) -> (r: MacroVector)
        ensures
            r == (MacroVector { eq1, eq2, eq3, eq4, eq5, eq6 }),
    {
        MacroVector { eq1, eq2, eq3, eq4, eq5, eq6 }
    }

    pub fn as_tuple(&self) -> (r: (u8, u8, u8, u8, u8, u8))
        ensures
            r == (self.eq1, self.eq2, self.eq3, self.eq4, self.eq5, self.eq6),
    {
        (self.eq1, self.eq2, self.eq3, self.eq4, self.eq5, self.eq6)
    }

    /// The MacroVector with EQ1 one step less severe.
    pub open spec fn next_eq1(self) -> MacroVector {
        MacroVector { eq1: (self.eq1 + 1) as u8, ..self }
    }

    /// The MacroVector with EQ2 one step less severe.
    pub open spec fn next_eq2(self) -> MacroVector {
        MacroVector { eq2: (self.eq2 + 1) as u8, ..self }
    }

    /// The MacroVector with EQ3 one step less severe.
    pub open spec fn next_eq3(self) -> MacroVector {
        MacroVector { eq3: (self.eq3 + 1) as u8, ..self }
    }

    /// The MacroVector with EQ4 one step less severe.
    pub open spec fn next_eq4(self) -> MacroVector {
        MacroVector { eq4: (self.eq4 + 1) as u8, ..self }
    }

    /// The MacroVector with EQ5 one step less severe.
    pub open spec fn next_eq5(self) -> MacroVector {
        MacroVector { eq5: (self.eq5 + 1) as u8, ..self }
    }

    /// The MacroVector with EQ6 one step less severe.
    pub open spec fn next_eq6(self) -> MacroVector {
        MacroVector { eq6: (self.eq6 + 1) as u8, ..self }
    }

    pub fn incr_eq1(&self) -> (r: MacroVector)
        requires
            self.eq1 < u8::MAX,
        ensures
            r == self.next_eq1(),
    {
        MacroVector { eq1: self.eq1 + 1, ..*self }
    }

    pub fn incr_eq2(&self) -> (r: MacroVector)
        requires
            self.eq2 < u8::MAX,
        ensures
            r == self.next_eq2(),
    {
        MacroVector { eq2: self.eq2 + 1, ..*self }
    }

    pub fn incr_eq3(&self) -> (r: MacroVector)
        requires
            self.eq3 < u8::MAX,
        ensures
            r == self.next_eq3(),
    {
        MacroVector { eq3: self.eq3 + 1, ..*self }
    }

    pub fn incr_eq4(&self) -> (r: MacroVector)
        requires
            self.eq4 < u8::MAX,
        ensures
            r == self.next_eq4(),
    {
        MacroVector { eq4: self.eq4 + 1, ..*self }
    }

    pub fn incr_eq5(&self) -> (r: MacroVector)
        requires
            self.eq5 < u8::MAX,
        ensures
            r == self.next_eq5(),
    {
        MacroVector { eq5: self.eq5 + 1, ..*self }
    }

    pub fn incr_eq6(&self) -> (r: MacroVector)
        requires
            self.eq6 < u8::MAX,
        ensures
            r == self.next_eq6(),
    {
        MacroVector { eq6: self.eq6 + 1, ..*self }
    }
}

// Merge policies. A modified metric overrides the base metric; the threat metric defaults
// to the worst case; a requirement defaults to the highest.

/// The modified value where there is one, the base value otherwise.
pub open spec fn merged<T>(base: T, modified: Option<T>) -> T {
    match modified {
        Some(m) => m,
        None => base,
    }
}

/// The exploit maturity that scoring uses: `Attacked` where the metric is absent or not defined.
pub open spec fn threat_or_worst(e: Option<ExploitMaturity>) -> ExploitMaturity {
    match e {
        Some(ExploitMaturity::NotDefined) | None => ExploitMaturity::Attacked,
        Some(other) => other,
    }
}

/// The requirement that scoring uses: `High` where the metric is absent.
pub open spec fn requirement_or_highest(r: Option<Requirement>) -> Requirement {
    match r {
        Some(v) => v,
        None => Requirement::High,
    }
}

pub fn merge_av(base: AttackVector, modified: Option<AttackVector>) -> (r: AttackVector)
    ensures
        r == merged(base, modified),
{
    match modified {
        Some(m) => m,
        None => base,
    }
}

pub fn merge_ac(base: AttackComplexity, modified: Option<AttackComplexity>) -> (r: AttackComplexity)
    ensures
        r == merged(base, modified),
{
    match modified {
        Some(m) => m,
        None => base,
    }
}

pub fn merge_at(base: AttackRequirements, modified: Option<AttackRequirements>) -> (r:
    AttackRequirements)
    ensures
        r == merged(base, modified),
{
    match modified {
        Some(m) => m,
        None => base,
    }
}

pub fn merge_pr(base: PrivilegesRequired, modified: Option<PrivilegesRequired>) -> (r:
    PrivilegesRequired)
    ensures
        r == merged(base, modified),
{
    match modified {
        Some(m) => m,
        None => base,
    }
}

pub fn merge_ui(base: UserInteraction, modified: Option<UserInteraction>) -> (r: UserInteraction)
    ensures
        r == merged(base, modified),
{
    match modified {
        Some(m) => m,
        None => base,
    }
}

pub fn merge_impact(base: Impact, modified: Option<Impact>) -> (r: Impact)
    ensures
        r == merged(base, modified),
{
    match modified {
        Some(m) => m,
        None => base,
    }
}

pub fn merge_subsequent_impact(base: SubsequentImpact, modified: Option<SubsequentImpact>) -> (r:
    SubsequentImpact)
    ensures
        r == merged(base, modified),
{
    match modified {
        Some(m) => m,
        None => base,
    }
}

pub fn merge_exploit_maturity(e: Option<ExploitMaturity>) -> (r: ExploitMaturity)
    ensures
        r == threat_or_worst(e),
{
    match e {
        Some(ExploitMaturity::NotDefined) | None => ExploitMaturity::Attacked,
        Some(other) => other,
    }
}

pub fn merge_requirement(r: Option<Requirement>) -> (v: Requirement)
    ensures
        v == requirement_or_highest(r),
{
    match r {
        Some(v) => v,
        None => Requirement::High,
    }
}

/// EQ1: Exploitation complexity (AV, PR, UI)
/// - 0: AV:N and PR:N and UI:N
/// - 1: (AV:N or PR:N or UI:N) and not (AV:N and PR:N and UI:N) and not AV:P
/// - 2: not(AV:N or PR:N or UI:N) or AV:P
pub open spec fn spec_eq1(av: AttackVector, pr: PrivilegesRequired, ui: UserInteraction) -> u8 {
    if av == AttackVector::Network && pr == PrivilegesRequired::NoneValue && ui
        == UserInteraction::NoneValue {
        0
    } else if (av == AttackVector::Network || pr == PrivilegesRequired::NoneValue || ui
        == UserInteraction::NoneValue) && av != AttackVector::Physical {
        1
    } else {
        2
    }
}

/// EQ2: Attack requirements (AC, AT)
/// - 0: AC:L and AT:N
/// - 1: not(AC:L and AT:N)
pub open spec fn spec_eq2(ac: AttackComplexity, at: AttackRequirements) -> u8 {
    if ac == AttackComplexity::Low && at == AttackRequirements::NoneValue {
        0
    } else {
        1
    }
}

/// EQ3: Vulnerable system impact (VC, VI, VA)
/// - 0: VC:H and VI:H
/// - 1: not(VC:H and VI:H) and (VC:H or VI:H or VA:H)
/// - 2: not (VC:H or VI:H or VA:H)
pub open spec fn spec_eq3(vc: Impact, vi: Impact, va: Impact) -> u8 {
    if vc == Impact::High && vi == Impact::High {
        0
    } else if vc == Impact::High || vi == Impact::High || va == Impact::High {
        1
    } else {
        2
    }
}

/// EQ4: Subsequent System impacts (SC, SI, SA)
/// - 0: SC:S or SI:S or SA:S (Safety impact)
/// - 1: not (SC:S or SI:S or SA:S) and (SC:H or SI:H or SA:H)
/// - 2: not (SC:S or SI:S or SA:S) and not (SC:H or SI:H or SA:H)
pub open spec fn spec_eq4(sc: SubsequentImpact, si: SubsequentImpact, sa: SubsequentImpact) -> u8 {
    if sc == SubsequentImpact::Safety || si == SubsequentImpact::Safety || sa
        == SubsequentImpact::Safety {
        0
    } else if sc == SubsequentImpact::High || si == SubsequentImpact::High || sa
        == SubsequentImpact::High {
        1
    } else {
        2
    }
}

/// EQ5: Exploit maturity (E)
/// - 0: E:A (Attacked)
/// - 1: E:P (ProofOfConcept)
/// - 2: E:U (Unreported) or E:X (NotDefined)
pub open spec fn spec_eq5(e: ExploitMaturity) -> u8 {
    match e {
        ExploitMaturity::Attacked => 0,
        ExploitMaturity::ProofOfConcept => 1,
        ExploitMaturity::Unreported | ExploitMaturity::NotDefined => 2,
    }
}

/// EQ6: Security requirements (CR, IR, AR) combined with impacts
/// - 0: (CR:H and VC:H) or (IR:H and VI:H) or (AR:H and VA:H)
/// - 1: not[(CR:H and VC:H) or (IR:H and VI:H) or (AR:H and VA:H)]
pub open spec fn spec_eq6(
    cr: Requirement,
    vc: Impact,
    ir: Requirement,
    vi: Impact,
    ar: Requirement,
    va: Impact,
) -> u8 {
    if (cr == Requirement::High && vc == Impact::High) || (ir == Requirement::High && vi
        == Impact::High) || (ar == Requirement::High && va == Impact::High) {
        0
    } else {
        1
    }
}

/// Calculate EQ1: Exploitation complexity (AV, PR, UI)
#[verifier::when_used_as_spec(spec_eq1)]
pub fn eq1(av: AttackVector, pr: PrivilegesRequired, ui: UserInteraction) -> (r: u8)
    ensures
        r == spec_eq1(av, pr, ui),
{
    if av == AttackVector::Network && pr == PrivilegesRequired::NoneValue && ui
        == UserInteraction::NoneValue {
        0
    } else if (av == AttackVector::Network || pr == PrivilegesRequired::NoneValue || ui
        == UserInteraction::NoneValue) && av != AttackVector::Physical {
        1
    } else {
        2
    }
}

/// Calculate EQ2: Attack requirements (AC, AT)
#[verifier::when_used_as_spec(spec_eq2)]
pub fn eq2(ac: AttackComplexity, at: AttackRequirements) -> (r: u8)
    ensures
        r == spec_eq2(ac, at),
{
    if ac == AttackComplexity::Low && at == AttackRequirements::NoneValue {
        0
    } else {
        1
    }
}

/// Calculate EQ3: Vulnerable system impact (VC, VI, VA)
#[verifier::when_used_as_spec(spec_eq3)]
pub fn eq3(vc: Impact, vi: Impact, va: Impact) -> (r: u8)
    ensures
        r == spec_eq3(vc, vi, va),
{
    if vc == Impact::High && vi == Impact::High {
        0
    } else if vc == Impact::High || vi == Impact::High || va == Impact::High {
        1
    } else {
        2
    }
}

/// Calculate EQ4: Subsequent System impacts (SC, SI, SA)
#[verifier::when_used_as_spec(spec_eq4)]
pub fn eq4(sc: SubsequentImpact, si: SubsequentImpact, sa: SubsequentImpact) -> (r: u8)
    ensures
        r == spec_eq4(sc, si, sa),
{
    if sc == SubsequentImpact::Safety || si == SubsequentImpact::Safety || sa
        == SubsequentImpact::Safety {
        0
    } else if sc == SubsequentImpact::High || si == SubsequentImpact::High || sa
        == SubsequentImpact::High {
        1
    } else {
        2
    }
}

/// Calculate EQ5: Exploit maturity (E)
#[verifier::when_used_as_spec(spec_eq5)]
pub fn eq5(e: ExploitMaturity) -> (r: u8)
    ensures
        r == spec_eq5(e),
{
    match e {
        ExploitMaturity::Attacked => 0,
        ExploitMaturity::ProofOfConcept => 1,
        ExploitMaturity::Unreported | ExploitMaturity::NotDefined => 2,
    }
}

/// Calculate EQ6: Security requirements (CR, IR, AR) combined with impacts
#[verifier::when_used_as_spec(spec_eq6)]
pub fn eq6(
    cr: Requirement,
    vc: Impact,
    ir: Requirement,
    vi: Impact,
    ar: Requirement,
    va: Impact,
) -> (r: u8)
    ensures
        r == spec_eq6(cr, vc, ir, vi, ar, va),
{
    if (cr == Requirement::High && vc == Impact::High) || (ir == Requirement::High && vi
        == Impact::High) || (ar == Requirement::High && va == Impact::High) {
        0
    } else {
        1
    }
}

/// The metric values that a score is computed from, after merging and defaults.
#[derive(Clone, Copy, Debug, PartialEq, Eq, Structural)]
pub struct Effective {
    pub av: AttackVector,
    pub ac: AttackComplexity,
    pub at: AttackRequirements,
    pub pr: PrivilegesRequired,
    pub ui: UserInteraction,
    pub vc: Impact,
    pub vi: Impact,
    pub va: Impact,
    pub sc: SubsequentImpact,
    pub si: SubsequentImpact,
    pub sa: SubsequentImpact,
    pub e: ExploitMaturity,
    pub cr: Requirement,
    pub ir: Requirement,
    pub ar: Requirement,
}

/// Whether all eleven base metrics are present.
pub open spec fn has_base(m: V4Metrics) -> bool {
    m.attack_vector is Some && m.attack_complexity is Some && m.attack_requirements is Some
        && m.privileges_required is Some && m.user_interaction is Some
        && m.vuln_confidentiality_impact is Some && m.vuln_integrity_impact is Some
        && m.vuln_availability_impact is Some && m.sub_confidentiality_impact is Some
        && m.sub_integrity_impact is Some && m.sub_availability_impact is Some
}

/// The metric values that scoring uses. Every modified metric overrides its base metric.
/// The threat metric counts as `Attacked` where it is absent, not defined, or left out of
/// the score. An absent requirement counts as `High`.
pub open spec fn effective(m: V4Metrics, include_threat_metrics: bool) -> Effective
    recommends
        has_base(m),
{
    Effective {
        av: merged(m.attack_vector->0, m.modified_attack_vector),
        ac: merged(m.attack_complexity->0, m.modified_attack_complexity),
        at: merged(m.attack_requirements->0, m.modified_attack_requirements),
        pr: merged(m.privileges_required->0, m.modified_privileges_required),
        ui: merged(m.user_interaction->0, m.modified_user_interaction),
        vc: merged(m.vuln_confidentiality_impact->0, m.modified_vuln_confidentiality_impact),
        vi: merged(m.vuln_integrity_impact->0, m.modified_vuln_integrity_impact),
        va: merged(m.vuln_availability_impact->0, m.modified_vuln_availability_impact),
        sc: merged(m.sub_confidentiality_impact->0, m.modified_sub_confidentiality_impact),
        si: merged(m.sub_integrity_impact->0, m.modified_sub_integrity_impact),
        sa: merged(m.sub_availability_impact->0, m.modified_sub_availability_impact),
        e: if include_threat_metrics {
            threat_or_worst(m.exploit_maturity)
        } else {
            ExploitMaturity::Attacked
        },
        cr: requirement_or_highest(m.confidentiality_requirement),
        ir: requirement_or_highest(m.integrity_requirement),
        ar: requirement_or_highest(m.availability_requirement),
    }
}

impl Effective {
    /// Whether all six impact metrics are `NoneValue`.
    pub open spec fn no_impact(self) -> bool {
        self.vc == Impact::NoneValue && self.vi == Impact::NoneValue && self.va
            == Impact::NoneValue && self.sc == SubsequentImpact::NoneValue && self.si
            == SubsequentImpact::NoneValue && self.sa == SubsequentImpact::NoneValue
    }

    /// Whether in every dimension the metric values reach a boundary vector of their ordinal.
    pub open spec fn settled(self) -> bool {
        let mv = self.macro_vector();
        first_reached(levels_eq1(self.av, self.pr, self.ui), eq1_bounds(mv.eq1), 0) is Some
            && first_reached(levels_eq2(self.ac, self.at), eq2_bounds(mv.eq2), 0) is Some
            && first_reached(
            levels_eq3eq6(self.vc, self.vi, self.va, self.cr, self.ir, self.ar),
            eq3eq6_bounds(mv.eq3, mv.eq6),
            0,
        ) is Some && first_reached(
            levels_eq4(self.sc, self.si, self.sa),
            eq4_bounds(mv.eq4),
            0,
        ) is Some
    }

    /// The severity distance within EQ1.
    pub open spec fn distance_eq1(self) -> int {
        severity_distance(
            levels_eq1(self.av, self.pr, self.ui),
            eq1_bounds(self.macro_vector().eq1),
            self.settled(),
        )
    }

    /// The severity distance within EQ2.
    pub open spec fn distance_eq2(self) -> int {
        severity_distance(
            levels_eq2(self.ac, self.at),
            eq2_bounds(self.macro_vector().eq2),
            self.settled(),
        )
    }

    /// The severity distance within the joint dimension of EQ3 and EQ6.
    pub open spec fn distance_eq3eq6(self) -> int {
        severity_distance(
            levels_eq3eq6(self.vc, self.vi, self.va, self.cr, self.ir, self.ar),
            eq3eq6_bounds(self.macro_vector().eq3, self.macro_vector().eq6),
            self.settled(),
        )
    }

    /// The severity distance within EQ4.
    pub open spec fn distance_eq4(self) -> int {
        severity_distance(
            levels_eq4(self.sc, self.si, self.sa),
            eq4_bounds(self.macro_vector().eq4),
            self.settled(),
        )
    }

    /// The MacroVector of the metric values.
    pub open spec fn macro_vector(self) -> MacroVector {
        MacroVector {
            eq1: spec_eq1(self.av, self.pr, self.ui),
            eq2: spec_eq2(self.ac, self.at),
            eq3: spec_eq3(self.vc, self.vi, self.va),
            eq4: spec_eq4(self.sc, self.si, self.sa),
            eq5: spec_eq5(self.e),
            eq6: spec_eq6(self.cr, self.vc, self.ir, self.vi, self.ar, self.va),
        }
    }
}

/// The ordinal levels of the metrics of one dimension; slots that a dimension does not use
/// hold 0.
#[derive(Clone, Copy, Debug, PartialEq, Eq, Structural)]
pub struct Levels {
    pub m0: u8,
    pub m1: u8,
    pub m2: u8,
    pub m3: u8,
    pub m4: u8,
    pub m5: u8,
}

impl Levels {
    /// Whether no level is above 3, the highest level of any metric.
    pub open spec fn small(self) -> bool {
        self.m0 <= 3 && self.m1 <= 3 && self.m2 <= 3 && self.m3 <= 3 && self.m4 <= 3 && self.m5
            <= 3
    }

    /// Whether every level is at or below (no more severe than) that of the boundary `b`.
    pub open spec fn reaches(self, b: Levels) -> bool {
        self.m0 >= b.m0 && self.m1 >= b.m1 && self.m2 >= b.m2 && self.m3 >= b.m3 && self.m4
            >= b.m4 && self.m5 >= b.m5
    }

    /// The sum of the level differences to the boundary `b`.
    pub open spec fn gap(self, b: Levels) -> int {
        (self.m0 - b.m0) + (self.m1 - b.m1) + (self.m2 - b.m2) + (self.m3 - b.m3) + (self.m4
            - b.m4) + (self.m5 - b.m5)
    }
}

/// The first boundary, from position `from` on, that the levels reach.
pub open spec fn first_reached(cur: Levels, bounds: Seq<Levels>, from: int) -> Option<Levels>
    decreases bounds.len() - from,
{
    if from < 0 || from >= bounds.len() {
        None
    } else if cur.reaches(bounds[from]) {
        Some(bounds[from])
    } else {
        first_reached(cur, bounds, from + 1)
    }
}

/// The severity distance of the levels within their dimension. Where the vector is
/// settled, that is, where in every dimension some boundary is reached, it is the sum of
/// the level differences to the first boundary that is reached. Where it is not, it is the
/// sum of the level differences to the last boundary, which may be negative.
pub open spec fn severity_distance(cur: Levels, bounds: Seq<Levels>, settled: bool) -> int {
    if settled {
        match first_reached(cur, bounds, 0) {
            Some(b) => cur.gap(b),
            None => 0,
        }
    } else if bounds.len() > 0 {
        cur.gap(bounds.last())
    } else {
        0
    }
}

/// Finds the first boundary that the levels reach.
pub fn find_boundary(cur: Levels, bounds: &Vec<Levels>) -> (r: Option<Levels>)
    ensures
        r == first_reached(cur, bounds@, 0),
{
    let mut i: usize = 0;
    while i < bounds.len()
        invariant
            i <= bounds.len(),
            first_reached(cur, bounds@, 0) == first_reached(cur, bounds@, i as int),
        decreases bounds.len() - i,
    {
        let b = bounds[i];
        if cur.m0 >= b.m0 && cur.m1 >= b.m1 && cur.m2 >= b.m2 && cur.m3 >= b.m3 && cur.m4 >= b.m4
            && cur.m5 >= b.m5 {
            return Some(b);
        }
        i = i + 1;
    }
    None
}

/// The sum of the level differences to a boundary.
fn gap_to(cur: Levels, b: Levels) -> (r: i64)
    requires
        cur.small(),
        b.small(),
    ensures
        r == cur.gap(b),
        -18 <= r <= 18,
{
    (cur.m0 as i64 - b.m0 as i64) + (cur.m1 as i64 - b.m1 as i64) + (cur.m2 as i64 - b.m2 as i64)
        + (cur.m3 as i64 - b.m3 as i64) + (cur.m4 as i64 - b.m4 as i64) + (cur.m5 as i64
        - b.m5 as i64)
}

/// Whether every boundary has only levels that a metric can have.
pub open spec fn all_small(bounds: Seq<Levels>) -> bool {
    forall|i: int| 0 <= i < bounds.len() ==> (#[trigger] bounds[i]).small()
}

/// The first boundary that is reached is one of the boundaries.
proof fn lemma_first_reached_small(cur: Levels, bounds: Seq<Levels>, from: int)
    requires
        all_small(bounds),
        0 <= from,
    ensures
        first_reached(cur, bounds, from) is Some ==> (first_reached(cur, bounds, from)->0).small(),
    decreases bounds.len() - from,
{
    if from < bounds.len() && !cur.reaches(bounds[from]) {
        lemma_first_reached_small(cur, bounds, from + 1);
    }
}

/// Computes the severity distance of the levels within their dimension.
pub fn distance(cur: Levels, bounds: &Vec<Levels>, settled: bool) -> (r: i64)
    requires
        cur.small(),
        all_small(bounds@),
    ensures
        r == severity_distance(cur, bounds@, settled),
        -18 <= r <= 18,
{
    if settled {
        proof {
            lemma_first_reached_small(cur, bounds@, 0);
        }
        match find_boundary(cur, bounds) {
            Some(b) => gap_to(cur, b),
            None => 0,
        }
    } else if bounds.len() > 0 {
        gap_to(cur, bounds[bounds.len() - 1])
    } else {
        0
    }
}

/// The levels of the EQ1 metrics.
pub open spec fn spec_levels_eq1(
    av: AttackVector,
    pr: PrivilegesRequired,
    ui: UserInteraction,
) -> Levels {
    Levels { m0: av.level(), m1: pr.level(), m2: ui.level(), m3: 0, m4: 0, m5: 0 }
}

/// The levels of the EQ2 metrics.
pub open spec fn spec_levels_eq2(ac: AttackComplexity, at: AttackRequirements) -> Levels {
    Levels { m0: ac.level(), m1: at.level(), m2: 0, m3: 0, m4: 0, m5: 0 }
}

/// The levels of the metrics of the joint dimension of EQ3 and EQ6.
pub open spec fn spec_levels_eq3eq6(
    vc: Impact,
    vi: Impact,
    va: Impact,
    cr: Requirement,
    ir: Requirement,
    ar: Requirement,
) -> Levels {
    Levels {
        m0: vc.level(),
        m1: vi.level(),
        m2: va.level(),
        m3: cr.level(),
        m4: ir.level(),
        m5: ar.level(),
    }
}

/// The levels of the EQ4 metrics.
pub open spec fn spec_levels_eq4(
    sc: SubsequentImpact,
    si: SubsequentImpact,
    sa: SubsequentImpact,
) -> Levels {
    Levels { m0: sc.level(), m1: si.level(), m2: sa.level(), m3: 0, m4: 0, m5: 0 }
}

/// The levels of the EQ1 metrics.
#[verifier::when_used_as_spec(spec_levels_eq1)]
pub fn levels_eq1(av: AttackVector, pr: PrivilegesRequired, ui: UserInteraction) -> (r: Levels)
    ensures
        r == spec_levels_eq1(av, pr, ui),
        r.small(),
{
    Levels { m0: av.level(), m1: pr.level(), m2: ui.level(), m3: 0, m4: 0, m5: 0 }
}

/// The levels of the EQ2 metrics.
#[verifier::when_used_as_spec(spec_levels_eq2)]
pub fn levels_eq2(ac: AttackComplexity, at: AttackRequirements) -> (r: Levels)
    ensures
        r == spec_levels_eq2(ac, at),
        r.small(),
{
    Levels { m0: ac.level(), m1: at.level(), m2: 0, m3: 0, m4: 0, m5: 0 }
}

/// The levels of the metrics of the joint dimension of EQ3 and EQ6.
#[verifier::when_used_as_spec(spec_levels_eq3eq6)]
pub fn levels_eq3eq6(
    vc: Impact,
    vi: Impact,
    va: Impact,
    cr: Requirement,
    ir: Requirement,
    ar: Requirement,
) -> (r: Levels)
    ensures
        r == spec_levels_eq3eq6(vc, vi, va, cr, ir, ar),
        r.small(),
{
    Levels {
        m0: vc.level(),
        m1: vi.level(),
        m2: va.level(),
        m3: cr.level(),
        m4: ir.level(),
        m5: ar.level(),
    }
}

/// The levels of the EQ4 metrics.
#[verifier::when_used_as_spec(spec_levels_eq4)]
pub fn levels_eq4(sc: SubsequentImpact, si: SubsequentImpact, sa: SubsequentImpact) -> (r: Levels)
    ensures
        r == spec_levels_eq4(sc, si, sa),
        r.small(),
{
    Levels { m0: sc.level(), m1: si.level(), m2: sa.level(), m3: 0, m4: 0, m5: 0 }
}

/// The boundary (maximum severity) vectors of each ordinal of EQ1.
pub open spec fn eq1_bounds(level: u8) -> Seq<Levels> {
    if level == 0 {
        seq![
            levels_eq1(
                AttackVector::Network,
                PrivilegesRequired::NoneValue,
                UserInteraction::NoneValue,
            ),
        ]
    } else if level == 1 {
        seq![
            levels_eq1(
                AttackVector::Adjacent,
                PrivilegesRequired::NoneValue,
                UserInteraction::NoneValue,
            ),
            levels_eq1(AttackVector::Network, PrivilegesRequired::Low, UserInteraction::NoneValue),
            levels_eq1(
                AttackVector::Network,
                PrivilegesRequired::NoneValue,
                UserInteraction::Passive,
            ),
        ]
    } else {
        seq![
            levels_eq1(
                AttackVector::Physical,
                PrivilegesRequired::NoneValue,
                UserInteraction::NoneValue,
            ),
            levels_eq1(AttackVector::Adjacent, PrivilegesRequired::Low, UserInteraction::Passive),
        ]
    }
}

/// The boundary (maximum severity) vectors of each ordinal of EQ2.
pub open spec fn eq2_bounds(level: u8) -> Seq<Levels> {
    if level == 0 {
        seq![levels_eq2(AttackComplexity::Low, AttackRequirements::NoneValue)]
    } else {
        seq![
            levels_eq2(AttackComplexity::High, AttackRequirements::NoneValue),
            levels_eq2(AttackComplexity::Low, AttackRequirements::Present),
        ]
    }
}

/// The boundary (maximum severity) vectors of each pair of ordinals of EQ3 and EQ6.
pub open spec fn eq3eq6_bounds(eq3: u8, eq6: u8) -> Seq<Levels> {
    if eq3 == 0 && eq6 == 0 {
        seq![
            levels_eq3eq6(
                Impact::High,
                Impact::High,
                Impact::High,
                Requirement::High,
                Requirement::High,
                Requirement::High,
            ),
        ]
    } else if eq3 == 0 {
        seq![
            levels_eq3eq6(
                Impact::High,
                Impact::High,
                Impact::Low,
                Requirement::Medium,
                Requirement::Medium,
                Requirement::High,
            ),
            levels_eq3eq6(
                Impact::High,
                Impact::High,
                Impact::High,
                Requirement::Medium,
                Requirement::Medium,
                Requirement::Medium,
            ),
        ]
    } else if eq3 == 1 && eq6 == 0 {
        seq![
            levels_eq3eq6(
                Impact::Low,
                Impact::High,
                Impact::High,
                Requirement::High,
                Requirement::High,
                Requirement::High,
            ),
            levels_eq3eq6(
                Impact::High,
                Impact::Low,
                Impact::High,
                Requirement::High,
                Requirement::High,
                Requirement::High,
            ),
        ]
    } else if eq3 == 1 {
        seq![
            levels_eq3eq6(
                Impact::Low,
                Impact::High,
                Impact::Low,
                Requirement::High,
                Requirement::Medium,
                Requirement::High,
            ),
            levels_eq3eq6(
                Impact::Low,
                Impact::High,
                Impact::High,
                Requirement::High,
                Requirement::Medium,
                Requirement::Medium,
            ),
            levels_eq3eq6(
                Impact::High,
                Impact::Low,
                Impact::High,
                Requirement::Medium,
                Requirement::High,
                Requirement::Medium,
            ),
            levels_eq3eq6(
                Impact::High,
                Impact::Low,
                Impact::Low,
                Requirement::Medium,
                Requirement::High,
                Requirement::High,
            ),
            levels_eq3eq6(
                Impact::Low,
                Impact::Low,
                Impact::High,
                Requirement::High,
                Requirement::High,
                Requirement::Medium,
            ),
        ]
    } else {
        seq![
            levels_eq3eq6(
                Impact::Low,
                Impact::Low,
                Impact::Low,
                Requirement::High,
                Requirement::High,
                Requirement::High,
            ),
        ]
    }
}

/// The boundary (maximum severity) vectors of each ordinal of EQ4.
pub open spec fn eq4_bounds(level: u8) -> Seq<Levels> {
    if level == 0 {
        seq![levels_eq4(SubsequentImpact::High, SubsequentImpact::Safety, SubsequentImpact::Safety)]
    } else if level == 1 {
        seq![levels_eq4(SubsequentImpact::High, SubsequentImpact::High, SubsequentImpact::High)]
    } else {
        seq![levels_eq4(SubsequentImpact::Low, SubsequentImpact::Low, SubsequentImpact::Low)]
    }
}

/// The greatest severity distance within each ordinal of EQ1.
pub open spec fn eq1_max_step(level: u8) -> int {
    if level == 0 {
        1
    } else if level == 1 {
        4
    } else {
        5
    }
}

/// The greatest severity distance within each ordinal of EQ2.
pub open spec fn eq2_max_step(level: u8) -> int {
    if level == 0 {
        1
    } else {
        2
    }
}

/// The greatest severity distance within each pair of ordinals of EQ3 and EQ6.
pub open spec fn eq3eq6_max_step(eq3: u8, eq6: u8) -> int {
    if eq3 == 0 && eq6 == 0 {
        7
    } else if eq3 == 0 {
        6
    } else if eq3 == 1 {
        8
    } else {
        10
    }
}

/// The greatest severity distance within each ordinal of EQ4.
pub open spec fn eq4_max_step(level: u8) -> int {
    if level == 0 {
        6
    } else if level == 1 {
        5
    } else {
        4
    }
}

/// The score of the next lower MacroVector in the joint dimension of EQ3 and EQ6:
/// from (0,1) and (1,1) EQ3 is raised, from (1,0) EQ6 is raised, from (0,0) the higher of
/// the two scores counts, and (2,1) has no lower neighbour.
pub open spec fn lower_eq3eq6(mv: MacroVector) -> Option<u8> {
    if (mv.eq3 == 0 || mv.eq3 == 1) && mv.eq6 == 1 {
        table_score(mv.next_eq3())
    } else if mv.eq3 == 1 && mv.eq6 == 0 {
        table_score(mv.next_eq6())
    } else if mv.eq3 == 0 && mv.eq6 == 0 {
        higher(table_score(mv.next_eq6()), table_score(mv.next_eq3()))
    } else {
        table_score(mv.next_eq3())
    }
}

/// The higher of two scores that may be missing; a missing score is below every score.
pub open spec fn higher(left: Option<u8>, right: Option<u8>) -> Option<u8> {
    match (left, right) {
        (Some(l), Some(r)) => if l > r {
            left
        } else {
            right
        },
        (Some(l), None) => left,
        _ => right,
    }
}

/// What one dimension takes off the score, in 840ths of a tenth, before the mean is taken:
/// the distance in score to the next lower MacroVector, times the share `distance /
/// max_step` of the way to it. A dimension without a lower MacroVector takes nothing off.
/// 840 is the least common multiple of the values of `max_step`.
pub open spec fn reduction(s0: int, lower: Option<u8>, distance: int, max_step: int) -> int {
    match lower {
        Some(l) => (s0 - l) * distance * (840int / max_step),
        None => 0,
    }
}

/// 1 for a dimension that has a next lower MacroVector, 0 for one that has none.
pub open spec fn counted(lower: Option<u8>) -> int {
    if lower is Some {
        1
    } else {
        0
    }
}

/// The score of the metric values before rounding, as the fraction `num / den` of tenths:
/// the table's score of the MacroVector, less the mean of the reductions of the dimensions
/// that have a next lower MacroVector. EQ5 has no severity distance: it counts in the mean
/// and takes nothing off. `None` where the table holds no entry.
pub open spec fn interpolated(x: Effective) -> Option<Fraction> {
    let mv = x.macro_vector();
    match table_score(mv) {
        None => None,
        Some(s0) => {
            let l1 = table_score(mv.next_eq1());
            let l2 = table_score(mv.next_eq2());
            let l36 = lower_eq3eq6(mv);
            let l4 = table_score(mv.next_eq4());
            let l5 = table_score(mv.next_eq5());
            let n = counted(l1) + counted(l2) + counted(l36) + counted(l4) + counted(l5);
            let off = reduction(s0 as int, l1, x.distance_eq1(), eq1_max_step(mv.eq1)) + reduction(
                s0 as int,
                l2,
                x.distance_eq2(),
                eq2_max_step(mv.eq2),
            ) + reduction(
                s0 as int,
                l36,
                x.distance_eq3eq6(),
                eq3eq6_max_step(mv.eq3, mv.eq6),
            ) + reduction(s0 as int, l4, x.distance_eq4(), eq4_max_step(mv.eq4));
            if n == 0 {
                Some(Fraction { num: s0 as int, den: 1 })
            } else {
                Some(Fraction { num: s0 * 840 * n - off, den: 840 * n })
            }
        },
    }
}

/// The score of a vector in tenths. `None` where a base metric is missing. Exactly 0 where
/// all six impact metrics are `NoneValue` after merging. Otherwise the interpolated score,
/// rounded.
pub open spec fn score_tenths(m: V4Metrics, include_threat_metrics: bool) -> Option<int> {
    if !has_base(m) {
        None
    } else {
        let x = effective(m, include_threat_metrics);
        if x.no_impact() {
            Some(0)
        } else {
            match interpolated(x) {
                Some(f) => Some(rounded_v4(f.num, 10 * f.den)),
                None => None,
            }
        }
    }
}

/// The number of tenths of a score that may be unavailable.
pub open spec fn tenths_of(score: Option<Score>) -> Option<int> {
    match score {
        Some(s) => Some(s.tenths as int),
        None => None,
    }
}

/// The boundary vectors of an ordinal of EQ1, in the order in which they are tried.
pub fn eq1_boundaries(level: u8) -> (r: Vec<Levels>)
    ensures
        r@ == eq1_bounds(level),
        all_small(r@),
{
    let n = PrivilegesRequired::NoneValue;
    let u = UserInteraction::NoneValue;
    let mut r: Vec<Levels> = Vec::new();
    if level == 0 {
        r.push(levels_eq1(AttackVector::Network, n, u));
    } else if level == 1 {
        r.push(levels_eq1(AttackVector::Adjacent, n, u));
        r.push(levels_eq1(AttackVector::Network, PrivilegesRequired::Low, u));
        r.push(levels_eq1(AttackVector::Network, n, UserInteraction::Passive));
    } else {
        r.push(levels_eq1(AttackVector::Physical, n, u));
        let low = PrivilegesRequired::Low;
        r.push(levels_eq1(AttackVector::Adjacent, low, UserInteraction::Passive));
    }
    assert(r@ =~= eq1_bounds(level));
    r
}

/// The boundary vectors of an ordinal of EQ2, in the order in which they are tried.
pub fn eq2_boundaries(level: u8) -> (r: Vec<Levels>)
    ensures
        r@ == eq2_bounds(level),
        all_small(r@),
{
    let mut r: Vec<Levels> = Vec::new();
    if level == 0 {
        r.push(levels_eq2(AttackComplexity::Low, AttackRequirements::NoneValue));
    } else {
        r.push(levels_eq2(AttackComplexity::High, AttackRequirements::NoneValue));
        r.push(levels_eq2(AttackComplexity::Low, AttackRequirements::Present));
    }
    assert(r@ =~= eq2_bounds(level));
    r
}

/// The boundary vectors of a pair of ordinals of EQ3 and EQ6, in the order in which they
/// are tried.
pub fn eq3eq6_boundaries(eq3: u8, eq6: u8) -> (r: Vec<Levels>)
    ensures
        r@ == eq3eq6_bounds(eq3, eq6),
        all_small(r@),
{
    let h = Impact::High;
    let l = Impact::Low;
    let rh = Requirement::High;
    let rm = Requirement::Medium;
    let mut r: Vec<Levels> = Vec::new();
    if eq3 == 0 && eq6 == 0 {
        r.push(levels_eq3eq6(h, h, h, rh, rh, rh));
    } else if eq3 == 0 {
        r.push(levels_eq3eq6(h, h, l, rm, rm, rh));
        r.push(levels_eq3eq6(h, h, h, rm, rm, rm));
    } else if eq3 == 1 && eq6 == 0 {
        r.push(levels_eq3eq6(l, h, h, rh, rh, rh));
        r.push(levels_eq3eq6(h, l, h, rh, rh, rh));
    } else if eq3 == 1 {
        r.push(levels_eq3eq6(l, h, l, rh, rm, rh));
        r.push(levels_eq3eq6(l, h, h, rh, rm, rm));
        r.push(levels_eq3eq6(h, l, h, rm, rh, rm));
        r.push(levels_eq3eq6(h, l, l, rm, rh, rh));
        r.push(levels_eq3eq6(l, l, h, rh, rh, rm));
    } else {
        r.push(levels_eq3eq6(l, l, l, rh, rh, rh));
    }
    assert(r@ =~= eq3eq6_bounds(eq3, eq6));
    r
}

/// The boundary vectors of an ordinal of EQ4, in the order in which they are tried.
pub fn eq4_boundaries(level: u8) -> (r: Vec<Levels>)
    ensures
        r@ == eq4_bounds(level),
        all_small(r@),
{
    let mut r: Vec<Levels> = Vec::new();
    if level == 0 {
        let safety = SubsequentImpact::Safety;
        r.push(levels_eq4(SubsequentImpact::High, safety, safety));
    } else if level == 1 {
        r.push(levels_eq4(SubsequentImpact::High, SubsequentImpact::High, SubsequentImpact::High));
    } else {
        r.push(levels_eq4(SubsequentImpact::Low, SubsequentImpact::Low, SubsequentImpact::Low));
    }
    assert(r@ =~= eq4_bounds(level));
    r
}

/// The greatest severity distance within an ordinal of EQ1.
pub fn max_severity_eq1(level: u8) -> (r: u8)
    ensures
        r == eq1_max_step(level),
{
    if level == 0 {
        1
    } else if level == 1 {
        4
    } else {
        5
    }
}

/// The greatest severity distance within an ordinal of EQ2.
pub fn max_severity_eq2(level: u8) -> (r: u8)
    ensures
        r == eq2_max_step(level),
{
    if level == 0 {
        1
    } else {
        2
    }
}

/// The greatest severity distance within a pair of ordinals of EQ3 and EQ6.
pub fn max_severity_eq3eq6(eq3: u8, eq6: u8) -> (r: u8)
    ensures
        r == eq3eq6_max_step(eq3, eq6),
{
    if eq3 == 0 && eq6 == 0 {
        7
    } else if eq3 == 0 {
        6
    } else if eq3 == 1 {
        8
    } else {
        10
    }
}

/// The greatest severity distance within an ordinal of EQ4.
pub fn max_severity_eq4(level: u8) -> (r: u8)
    ensures
        r == eq4_max_step(level),
{
    if level == 0 {
        6
    } else if level == 1 {
        5
    } else {
        4
    }
}

/// The higher of two scores that may be missing.
fn higher_of(left: Option<u8>, right: Option<u8>) -> (r: Option<u8>)
    ensures
        r == higher(left, right),
{
    match (left, right) {
        (Some(l), Some(r)) => if l > r {
            left
        } else {
            right
        },
        (Some(l), None) => left,
        _ => right,
    }
}

/// The score of the next lower MacroVector in the joint dimension of EQ3 and EQ6.
pub fn lookup_lower_eq3eq6(mv: &MacroVector) -> (r: Option<u8>)
    requires
        mv.eq3 < u8::MAX,
        mv.eq6 < u8::MAX,
    ensures
        r == lower_eq3eq6(*mv),
        r is Some ==> r->0 <= 100,
{
    if (mv.eq3 == 0 || mv.eq3 == 1) && mv.eq6 == 1 {
        // 11 --> 21 or 01 --> 11
        lookup_global(&mv.incr_eq3())
    } else if mv.eq3 == 1 && mv.eq6 == 0 {
        // 10 --> 11
        lookup_global(&mv.incr_eq6())
    } else if mv.eq3 == 0 && mv.eq6 == 0 {
        // 00 --> 01 or 00 --> 10 (take the higher score)
        let left = lookup_global(&mv.incr_eq6());
        let right = lookup_global(&mv.incr_eq3());
        higher_of(left, right)
    } else {
        // 21 --> 32 (does not exist)
        lookup_global(&mv.incr_eq3())
    }
}

/// What one dimension takes off the score, in 840ths of a tenth.
fn reduce(s0: u8, lower: Option<u8>, distance: i64, max_step: u8) -> (r: i64)
    requires
        s0 <= 100,
        lower is Some ==> lower->0 <= 100,
        -18 <= distance <= 18,
        1 <= max_step <= 10,
    ensures
        r == reduction(s0 as int, lower, distance as int, max_step as int),
        -1512000 <= r <= 1512000,
{
    match lower {
        Some(l) => {
            let available: i64 = s0 as i64 - l as i64;
            let d: i64 = distance;
            let m: i64 = max_step as i64;
            let w: i64 = 840 / m;
            assert(0 <= w <= 840) by (nonlinear_arith)
                requires
                    w == 840i64 / m,
                    1 <= m,
            ;
            assert(-1800 <= available * d <= 1800) by (nonlinear_arith)
                requires
                    -100 <= available <= 100,
                    -18 <= d <= 18,
            ;
            let ad: i64 = available * d;
            assert(-1512000 <= ad * w <= 1512000) by (nonlinear_arith)
                requires
                    -1800 <= ad <= 1800,
                    0 <= w <= 840,
            ;
            ad * w
        },
        None => 0,
    }
}

/// 1 for a score that is there, 0 for one that is missing.
fn count(lower: &Option<u8>) -> (r: i64)
    ensures
        r == counted(*lower),
{
    if lower.is_some() {
        1
    } else {
        0
    }
}

/// The metric values that scoring uses, or `None` where a base metric is missing.
pub fn merge_metrics(m: &V4Metrics, include_threat_metrics: bool) -> (r: Option<Effective>)
    ensures
        r is Some <==> has_base(*m),
        r is Some ==> r->0 == effective(*m, include_threat_metrics),
{
    if m.attack_vector.is_none() || m.attack_complexity.is_none() || m.attack_requirements.is_none()
        || m.privileges_required.is_none() || m.user_interaction.is_none()
        || m.vuln_confidentiality_impact.is_none() || m.vuln_integrity_impact.is_none()
        || m.vuln_availability_impact.is_none() || m.sub_confidentiality_impact.is_none()
        || m.sub_integrity_impact.is_none() || m.sub_availability_impact.is_none() {
        return None;
    }
    // For base score calculation, always use E:A (Attacked) regardless of actual value
    let e = if include_threat_metrics {
        merge_exploit_maturity(m.exploit_maturity)
    } else {
        ExploitMaturity::Attacked
    };
    Some(
        Effective {
            av: merge_av(m.attack_vector.unwrap(), m.modified_attack_vector),
            ac: merge_ac(m.attack_complexity.unwrap(), m.modified_attack_complexity),
            at: merge_at(m.attack_requirements.unwrap(), m.modified_attack_requirements),
            pr: merge_pr(m.privileges_required.unwrap(), m.modified_privileges_required),
            ui: merge_ui(m.user_interaction.unwrap(), m.modified_user_interaction),
            vc: merge_impact(
                m.vuln_confidentiality_impact.unwrap(),
                m.modified_vuln_confidentiality_impact,
            ),
            vi: merge_impact(m.vuln_integrity_impact.unwrap(), m.modified_vuln_integrity_impact),
            va: merge_impact(
                m.vuln_availability_impact.unwrap(),
                m.modified_vuln_availability_impact,
            ),
            sc: merge_subsequent_impact(
                m.sub_confidentiality_impact.unwrap(),
                m.modified_sub_confidentiality_impact,
            ),
            si: merge_subsequent_impact(
                m.sub_integrity_impact.unwrap(),
                m.modified_sub_integrity_impact,
            ),
            sa: merge_subsequent_impact(
                m.sub_availability_impact.unwrap(),
                m.modified_sub_availability_impact,
            ),
            e,
            cr: merge_requirement(m.confidentiality_requirement),
            ir: merge_requirement(m.integrity_requirement),
            ar: merge_requirement(m.availability_requirement),
        },
    )
}

/// The MacroVector of the metric values.
pub fn classify(x: &Effective) -> (mv: MacroVector)
    ensures
        mv == x.macro_vector(),
{
    MacroVector::new(
        eq1(x.av, x.pr, x.ui),
        eq2(x.ac, x.at),
        eq3(x.vc, x.vi, x.va),
        eq4(x.sc, x.si, x.sa),
        eq5(x.e),
        eq6(x.cr, x.vc, x.ir, x.vi, x.ar, x.va),
    )
}

/// The severity distances of a vector, one for each dimension that has one.
#[derive(Clone, Copy, Debug)]
pub struct Distances {
    pub eq1: i64,
    pub eq2: i64,
    pub eq3eq6: i64,
    pub eq4: i64,
}

/// Computes the severity distances of the metric values in the four dimensions that have
/// one.
pub fn severity_distances(x: &Effective) -> (d: Distances)
    ensures
        d.eq1 == x.distance_eq1(),
        d.eq2 == x.distance_eq2(),
        d.eq3eq6 == x.distance_eq3eq6(),
        d.eq4 == x.distance_eq4(),
        -18 <= d.eq1 <= 18,
        -18 <= d.eq2 <= 18,
        -18 <= d.eq3eq6 <= 18,
        -18 <= d.eq4 <= 18,
{
    let mv = classify(x);
    let c1 = levels_eq1(x.av, x.pr, x.ui);
    let c2 = levels_eq2(x.ac, x.at);
    let c36 = levels_eq3eq6(x.vc, x.vi, x.va, x.cr, x.ir, x.ar);
    let c4 = levels_eq4(x.sc, x.si, x.sa);
    let b1 = eq1_boundaries(mv.eq1);
    let b2 = eq2_boundaries(mv.eq2);
    let b36 = eq3eq6_boundaries(mv.eq3, mv.eq6);
    let b4 = eq4_boundaries(mv.eq4);
    let ok = find_boundary(c1, &b1).is_some() && find_boundary(c2, &b2).is_some() && find_boundary(
        c36,
        &b36,
    ).is_some() && find_boundary(c4, &b4).is_some();
    Distances {
        eq1: distance(c1, &b1, ok),
        eq2: distance(c2, &b2, ok),
        eq3eq6: distance(c36, &b36, ok),
        eq4: distance(c4, &b4, ok),
    }
}

/// The score of the metric values: the table's score of their MacroVector, lowered by the
/// mean share of the way to the next lower MacroVectors, and rounded. `None` where the
/// table holds no entry for the MacroVector.
pub fn interpolate(x: &Effective) -> (r: Option<Score>)
    ensures
        match r {
            Some(s) => interpolated(*x) is Some && s.tenths == rounded_v4(
                interpolated(*x)->0.num,
                10 * interpolated(*x)->0.den,
            ) && s.tenths <= 100,
            None => interpolated(*x) is None,
        },
{
    let mv = classify(x);
    let value = match lookup_global(&mv) {
        Some(v) => v,
        None => {
            return None;
        },
    };
    // Scores of the next lower MacroVectors
    let l1 = lookup_global(&mv.incr_eq1());
    let l2 = lookup_global(&mv.incr_eq2());
    let l36 = lookup_lower_eq3eq6(&mv);
    let l4 = lookup_global(&mv.incr_eq4());
    let l5 = lookup_global(&mv.incr_eq5());
    // Severity distances to the boundary of each dimension
    let d = severity_distances(x);
    let n: i64 = count(&l1) + count(&l2) + count(&l36) + count(&l4) + count(&l5);
    let off: i64 = reduce(value, l1, d.eq1, max_severity_eq1(mv.eq1)) + reduce(
        value,
        l2,
        d.eq2,
        max_severity_eq2(mv.eq2),
    ) + reduce(value, l36, d.eq3eq6, max_severity_eq3eq6(mv.eq3, mv.eq6)) + reduce(
        value,
        l4,
        d.eq4,
        max_severity_eq4(mv.eq4),
    );
    if n == 0 {
        Some(round_v4(value as i64, 10))
    } else {
        let s0: i64 = value as i64;
        assert(0 <= s0 * 840 * n <= 420000) by (nonlinear_arith)
            requires
                0 <= s0 <= 100,
                1 <= n <= 5,
        ;
        let num: i64 = s0 * 840 * n - off;
        let den: u64 = 8400 * (n as u64);
        Some(round_v4(num, den))
    }
}

/// Main scoring function that calculates the CVSS v4.0 score.
/// Returns None if required base metrics are missing.
///
/// If `include_threat_metrics` is false, the E metric will be fixed to Attacked (EQ5=0)
/// regardless of its actual value. This is used for calculating the "base score" which
/// excludes threat metrics.
pub fn calculate_score_internal(cvss: &CvssV4, include_threat_metrics: bool) -> (r: Option<Score>)
    ensures
        tenths_of(r) == score_tenths(cvss.metrics(), include_threat_metrics),
        r is Some <==> has_base(cvss.metrics()),
        r is Some ==> r->0.tenths <= 100,
{
    let m = cvss.metrics();
    let x = match merge_metrics(&m, include_threat_metrics) {
        Some(x) => x,
        None => {
            return None;
        },
    };
    // Exception for no impact on system (shortcut to 0.0)
    if x.vc == Impact::NoneValue && x.vi == Impact::NoneValue && x.va == Impact::NoneValue && x.sc
        == SubsequentImpact::NoneValue && x.si == SubsequentImpact::NoneValue && x.sa
        == SubsequentImpact::NoneValue {
        return Some(Score { tenths: 0 });
    }
    proof {
        lemma_classified(x);
    }
    interpolate(&x)
}

/// Calculate the full CVSS v4.0 score including all metrics (base, threat, environmental).
pub fn calculate_score(cvss: &CvssV4) -> (r: Option<Score>)
    ensures
        tenths_of(r) == score_tenths(cvss.metrics(), true),
        r is Some <==> has_base(cvss.metrics()),
        r is Some ==> r->0.tenths <= 100,
{
    calculate_score_internal(cvss, true)
}

/// Calculate the base score only (excludes threat metrics like E).
pub fn calculate_base_score(cvss: &CvssV4) -> (r: Option<Score>)
    ensures
        tenths_of(r) == score_tenths(cvss.metrics(), false),
        r is Some <==> has_base(cvss.metrics()),
        r is Some ==> r->0.tenths <= 100,
{
    calculate_score_internal(cvss, false)
}

impl CvssV4 {
    /// Calculates the base score from the base metrics.
    /// Returns None if required base metrics are missing.
    pub fn calculated_base_score(&self) -> (r: Option<Score>)
        ensures
            tenths_of(r) == score_tenths(self.metrics(), false),
            r is Some <==> has_base(self.metrics()),
            r is Some ==> r->0.tenths <= 100,
    {
        calculate_base_score(self)
    }

    /// Calculates the full score from the base, threat and environmental metrics.
    /// Returns None if required base metrics are missing.
    pub fn calculated_score(&self) -> (r: Option<Score>)
        ensures
            tenths_of(r) == score_tenths(self.metrics(), true),
            r is Some <==> has_base(self.metrics()),
            r is Some ==> r->0.tenths <= 100,
    {
        calculate_score(self)
    }
}

/// Every classification has an entry in the table.
pub proof fn lemma_classified(x: Effective)
    ensures
        table_score(x.macro_vector()) is Some,
        interpolated(x) is Some,
{
    lemma_table_domain(x.macro_vector());
}

/// A score is available exactly where all base metrics are present.
pub proof fn lemma_score_available(m: V4Metrics, include_threat_metrics: bool)
    ensures
        score_tenths(m, include_threat_metrics) is Some <==> has_base(m),
{
    if has_base(m) {
        lemma_classified(effective(m, include_threat_metrics));
    }
}

/// Where all six impact metrics are `NoneValue` after merging, the score is exactly 0.0,
/// whatever the other metrics are.
pub proof fn lemma_no_impact_scores_zero(m: V4Metrics, include_threat_metrics: bool)
    requires
        has_base(m),
        effective(m, include_threat_metrics).no_impact(),
    ensures
        score_tenths(m, include_threat_metrics) == Some(0int),
{
}

/// Every score lies on the scale from 0.0 to 10.0 and has one decimal digit: it is a whole
/// number of tenths between 0 and 100.
pub proof fn lemma_score_range(m: V4Metrics, include_threat_metrics: bool)
    ensures
        score_tenths(m, include_threat_metrics) is Some ==> 0 <= score_tenths(
            m,
            include_threat_metrics,
        )->0 <= 100,
{
    if has_base(m) {
        let x = effective(m, include_threat_metrics);
        if !x.no_impact() {
            lemma_classified(x);
            let f = interpolated(x)->0;
            lemma_table_domain(x.macro_vector());
            lemma_rounded_v4_range(f.num, 10 * f.den);
        }
    }
}

/// The base score is the full score of the vector without its threat metric.
pub proof fn lemma_base_score_ignores_threat(m: V4Metrics)
    ensures
        score_tenths(m, false) == score_tenths(V4Metrics { exploit_maturity: None, ..m }, true),
{
}

/// An exploit maturity that is not defined scores as `Attacked`, and as an absent one.
pub proof fn lemma_not_defined_is_attacked(m: V4Metrics)
    requires
        m.exploit_maturity == Some(ExploitMaturity::NotDefined),
    ensures
        score_tenths(m, true) == score_tenths(
            V4Metrics { exploit_maturity: Some(ExploitMaturity::Attacked), ..m },
            true,
        ),
        score_tenths(m, true) == score_tenths(V4Metrics { exploit_maturity: None, ..m }, true),
{
}

/// Within EQ1 a boundary is always reached, at a distance below the greatest of the ordinal.
pub proof fn lemma_distance_eq1(av: AttackVector, pr: PrivilegesRequired, ui: UserInteraction)
    ensures
        first_reached(levels_eq1(av, pr, ui), eq1_bounds(eq1(av, pr, ui)), 0) is Some,
        0 <= severity_distance(levels_eq1(av, pr, ui), eq1_bounds(eq1(av, pr, ui)), true)
            < eq1_max_step(eq1(av, pr, ui)),
{
    reveal_with_fuel(first_reached, 4);
}

/// Within EQ2 a boundary is always reached, at a distance below the greatest of the ordinal.
pub proof fn lemma_distance_eq2(ac: AttackComplexity, at: AttackRequirements)
    ensures
        first_reached(levels_eq2(ac, at), eq2_bounds(eq2(ac, at)), 0) is Some,
        0 <= severity_distance(levels_eq2(ac, at), eq2_bounds(eq2(ac, at)), true) < eq2_max_step(
            eq2(ac, at),
        ),
{
    reveal_with_fuel(first_reached, 3);
}

/// Within the joint dimension of EQ3 and EQ6 a boundary is always reached, at a distance
/// below the greatest of the pair of ordinals.
#[verifier::rlimit(60)]
pub proof fn lemma_distance_eq3eq6(
    vc: Impact,
    vi: Impact,
    va: Impact,
    cr: Requirement,
    ir: Requirement,
    ar: Requirement,
)
    ensures
        first_reached(
            levels_eq3eq6(vc, vi, va, cr, ir, ar),
            eq3eq6_bounds(eq3(vc, vi, va), eq6(cr, vc, ir, vi, ar, va)),
            0,
        ) is Some,
        0 <= severity_distance(
            levels_eq3eq6(vc, vi, va, cr, ir, ar),
            eq3eq6_bounds(eq3(vc, vi, va), eq6(cr, vc, ir, vi, ar, va)),
            true,
        ) < eq3eq6_max_step(eq3(vc, vi, va), eq6(cr, vc, ir, vi, ar, va)),
{
    reveal_with_fuel(first_reached, 6);
}

/// Within EQ4 a boundary is reached unless the subsequent confidentiality impact is
/// `Safety`, which no boundary vector allows for; where one is reached, it is at a distance
/// below the greatest of the ordinal.
pub proof fn lemma_distance_eq4(sc: SubsequentImpact, si: SubsequentImpact, sa: SubsequentImpact)
    ensures
        first_reached(levels_eq4(sc, si, sa), eq4_bounds(eq4(sc, si, sa)), 0) is Some <==> sc
            != SubsequentImpact::Safety,
        sc != SubsequentImpact::Safety ==> 0 <= severity_distance(
            levels_eq4(sc, si, sa),
            eq4_bounds(eq4(sc, si, sa)),
            true,
        ) < eq4_max_step(eq4(sc, si, sa)),
{
    reveal_with_fuel(first_reached, 2);
}

/// In a vector that reaches a boundary in every dimension, every severity distance is at
/// least 0 and below the greatest distance of its ordinal: no vector is taken all the way
/// down to the score of the next lower MacroVector.
pub proof fn lemma_distance_below_max_step(x: Effective)
    requires
        x.settled(),
    ensures
        0 <= x.distance_eq1() < eq1_max_step(x.macro_vector().eq1),
        0 <= x.distance_eq2() < eq2_max_step(x.macro_vector().eq2),
        0 <= x.distance_eq3eq6() < eq3eq6_max_step(x.macro_vector().eq3, x.macro_vector().eq6),
        0 <= x.distance_eq4() < eq4_max_step(x.macro_vector().eq4),
{
    lemma_distance_eq1(x.av, x.pr, x.ui);
    lemma_distance_eq2(x.ac, x.at);
    lemma_distance_eq3eq6(x.vc, x.vi, x.va, x.cr, x.ir, x.ar);
    lemma_distance_eq4(x.sc, x.si, x.sa);
}

/// The metric values reach a boundary vector of their ordinal in every dimension, unless
/// the subsequent confidentiality impact is `Safety`, which no boundary vector of EQ4 allows for.
pub proof fn lemma_boundary_reached(x: Effective)
    ensures
        x.settled() <==> x.sc != SubsequentImpact::Safety,
{
    lemma_distance_eq1(x.av, x.pr, x.ui);
    lemma_distance_eq2(x.ac, x.at);
    lemma_distance_eq3eq6(x.vc, x.vi, x.va, x.cr, x.ir, x.ar);
    lemma_distance_eq4(x.sc, x.si, x.sa);
}

/// What a dimension takes off the score lies between nothing and the whole table score,
/// and is nothing where the dimension has no next lower MacroVector.
proof fn lemma_reduction_bounds(s0: int, lower: Option<u8>, distance: int, max_step: int)
    requires
        0 <= distance < max_step,
        max_step == 1 || max_step == 2 || max_step == 4 || max_step == 5 || max_step == 6
            || max_step == 7 || max_step == 8 || max_step == 10,
        lower is Some ==> lower->0 <= s0,
    ensures
        0 <= reduction(s0, lower, distance, max_step) <= counted(lower) * s0 * 840,
{
    match lower {
        Some(l) => {
            let w = 840int / max_step;
            assert(max_step * w == 840);
            assert(0 <= distance * w <= 840) by (nonlinear_arith)
                requires
                    0 <= distance < max_step,
                    max_step * w == 840,
                    w > 0,
            ;
            let dw = distance * w;
            assert((s0 - l) * distance * w == (s0 - l) * dw) by (nonlinear_arith)
                requires
                    dw == distance * w,
            ;
            assert(0 <= (s0 - l) * dw <= s0 * 840) by (nonlinear_arith)
                requires
                    0 <= dw <= 840,
                    0 <= l <= s0,
            ;
            assert(1 * s0 * 840 == s0 * 840);
        },
        None => {
            assert(0 * s0 * 840 == 0) by (nonlinear_arith);
        },
    }
}

/// No next lower MacroVector has a higher score in the table.
proof fn lemma_lower_scores(mv: MacroVector)
    requires
        table_score(mv) is Some,
    ensures
        table_score(mv.next_eq1()) is Some ==> table_score(mv.next_eq1())->0 <= table_score(mv)->0,
        table_score(mv.next_eq2()) is Some ==> table_score(mv.next_eq2())->0 <= table_score(mv)->0,
        lower_eq3eq6(mv) is Some ==> lower_eq3eq6(mv)->0 <= table_score(mv)->0,
        table_score(mv.next_eq4()) is Some ==> table_score(mv.next_eq4())->0 <= table_score(mv)->0,
        table_score(mv.next_eq5()) is Some ==> table_score(mv.next_eq5())->0 <= table_score(mv)->0,
{
    lemma_table_domain(mv);
    lemma_table_domain(mv.next_eq1());
    lemma_table_domain(mv.next_eq2());
    lemma_table_domain(mv.next_eq3());
    lemma_table_domain(mv.next_eq4());
    lemma_table_domain(mv.next_eq5());
    lemma_table_domain(mv.next_eq6());
    if table_score(mv.next_eq1()) is Some {
        lemma_table_monotone(mv, mv.next_eq1());
    }
    if table_score(mv.next_eq2()) is Some {
        lemma_table_monotone(mv, mv.next_eq2());
    }
    if table_score(mv.next_eq3()) is Some {
        lemma_table_monotone(mv, mv.next_eq3());
    }
    if table_score(mv.next_eq4()) is Some {
        lemma_table_monotone(mv, mv.next_eq4());
    }
    if table_score(mv.next_eq5()) is Some {
        lemma_table_monotone(mv, mv.next_eq5());
    }
    if table_score(mv.next_eq6()) is Some {
        lemma_table_monotone(mv, mv.next_eq6());
    }
}

/// The table score less the reductions, over the number of dimensions that count, lies
/// between 0 and the table score.
proof fn lemma_mean_bounds(s0: int, off: int, k: int, n: int)
    requires
        0 <= s0,
        0 <= k <= n,
        0 <= off <= k * s0 * 840,
    ensures
        0 <= s0 * 840 * n - off <= s0 * (840 * n),
{
    assert(k * s0 * 840 <= s0 * 840 * n) by (nonlinear_arith)
        requires
            0 <= k <= n,
            0 <= s0,
    ;
    assert(s0 * 840 * n == s0 * (840 * n)) by (nonlinear_arith);
}

/// Interpolation only lowers: a vector that reaches a boundary in every dimension scores,
/// before rounding, at least 0 and at most the table's score of its MacroVector.
pub proof fn lemma_interpolated_at_most_table(x: Effective)
    requires
        x.settled(),
    ensures
        interpolated(x) is Some,
        0 <= interpolated(x)->0.num <= table_score(x.macro_vector())->0 * interpolated(x)->0.den,
        interpolated(x)->0.den > 0,
{
    let mv = x.macro_vector();
    lemma_classified(x);
    lemma_distance_below_max_step(x);
    lemma_lower_scores(mv);
    let s0 = table_score(mv)->0 as int;
    let l1 = table_score(mv.next_eq1());
    let l2 = table_score(mv.next_eq2());
    let l36 = lower_eq3eq6(mv);
    let l4 = table_score(mv.next_eq4());
    let l5 = table_score(mv.next_eq5());
    let r1 = reduction(s0, l1, x.distance_eq1(), eq1_max_step(mv.eq1));
    let r2 = reduction(s0, l2, x.distance_eq2(), eq2_max_step(mv.eq2));
    let r36 = reduction(s0, l36, x.distance_eq3eq6(), eq3eq6_max_step(mv.eq3, mv.eq6));
    let r4 = reduction(s0, l4, x.distance_eq4(), eq4_max_step(mv.eq4));
    lemma_reduction_bounds(s0, l1, x.distance_eq1(), eq1_max_step(mv.eq1));
    lemma_reduction_bounds(s0, l2, x.distance_eq2(), eq2_max_step(mv.eq2));
    lemma_reduction_bounds(s0, l36, x.distance_eq3eq6(), eq3eq6_max_step(mv.eq3, mv.eq6));
    lemma_reduction_bounds(s0, l4, x.distance_eq4(), eq4_max_step(mv.eq4));
    let k = counted(l1) + counted(l2) + counted(l36) + counted(l4);
    let n = k + counted(l5);
    assert(counted(l1) * s0 * 840 + counted(l2) * s0 * 840 + counted(l36) * s0 * 840 + counted(l4)
        * s0 * 840 == k * s0 * 840) by (nonlinear_arith)
        requires
            k == counted(l1) + counted(l2) + counted(l36) + counted(l4),
    ;
    lemma_mean_bounds(s0, r1 + r2 + r36 + r4, k, n);
    if n == 0 {
        assert(s0 * 1 == s0);
    }
}

/// A fraction of tenths that is at most `k` rounds to at most `k` tenths.
proof fn lemma_rounded_v4_at_most(num: int, den: int, k: int)
    requires
        den > 0,
        0 <= k <= 100,
        num <= k * den,
    ensures
        rounded_v4(num, 10 * den) <= k,
{
    if num <= 0 {
    } else if num >= 10 * (10 * den) {
        assert(k >= 100) by (nonlinear_arith)
            requires
                num <= k * den,
                num >= 100 * den,
                den > 0,
        ;
    } else {
        let n = 100000 * num + 5001 * (10 * den);
        let d = 10000 * (10 * den);
        assert(n / d <= k) by (nonlinear_arith)
            requires
                n == 100000 * num + 5001 * (10 * den),
                d == 10000 * (10 * den),
                num <= k * den,
                den > 0,
        ;
    }
}

/// A score never lies above the table's score of the vector's MacroVector, where the
/// vector reaches a boundary in every dimension.
pub proof fn lemma_score_at_most_table(m: V4Metrics, include_threat_metrics: bool)
    requires
        has_base(m),
        effective(m, include_threat_metrics).settled(),
    ensures
        score_tenths(m, include_threat_metrics) is Some,
        score_tenths(m, include_threat_metrics)->0 <= table_score(
            effective(m, include_threat_metrics).macro_vector(),
        )->0,
{
    let x = effective(m, include_threat_metrics);
    lemma_interpolated_at_most_table(x);
    let f = interpolated(x)->0;
    lemma_table_domain(x.macro_vector());
    lemma_rounded_v4_at_most(f.num, f.den, table_score(x.macro_vector())->0 as int);
}

} // verus!

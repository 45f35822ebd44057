//! Represents the CVSS v2.0 specification.

use vstd::prelude::*;
use crate::grammar::{
    agrees, component, key_value, lemma_key_value_of, opt_part, prefix_version, push_slot,
    all_plain, lemma_all_plain_concat, lemma_component_plain, plain, raised, read_key_value,
    read_prefix_version, str_view,
};
use crate::score::Score;
use crate::text::{
    all_free_of, chain, copy_range, find, free_of, is1, is2, is3, join, lemma_all_free_concat,
    lemma_chain_concat, lemma_chain_join, lemma_split_at, lemma_split_free, lemma_split_join,
    spells1, spells2, spells3, split, to_chars, to_string, upper,
};
use crate::{ParseError, ParseErrorView};

pub mod scoring;

verus! {

/// Represents a CVSS v2.0 score object.
#[derive(Clone, Debug, PartialEq, Eq)]
pub struct CvssV2 {
    /// The CVSS vector string.
    pub vector_string: String,
    /// The reported qualitative severity rating.
    pub severity: Option<Severity>,
    /// The reported base score, a value between 0.0 and 10.0.
    pub base_score: Score,
    /// The reported temporal score, a value between 0.0 and 10.0.
    pub temporal_score: Option<Score>,
    /// The reported environmental score, a value between 0.0 and 10.0.
    pub environmental_score: Option<Score>,
    // --- Base ---
    /// The access vector metric.
    pub access_vector: Option<AccessVector>,
    /// The access complexity metric.
    pub access_complexity: Option<AccessComplexity>,
    /// The authentication metric.
    pub authentication: Option<Authentication>,
    /// The confidentiality impact metric.
    pub confidentiality_impact: Option<Impact>,
    /// The integrity impact metric.
    pub integrity_impact: Option<Impact>,
    /// The availability impact metric.
    pub availability_impact: Option<Impact>,
    // --- Temporal ---
    /// The exploitability metric.
    pub exploitability: Option<Exploitability>,
    /// The remediation level metric.
    pub remediation_level: Option<RemediationLevel>,
    /// The report confidence metric.
    pub report_confidence: Option<ReportConfidence>,
    // --- Environmental ---
    /// The collateral damage potential metric.
    pub collateral_damage_potential: Option<CollateralDamagePotential>,
    /// The target distribution metric.
    pub target_distribution: Option<TargetDistribution>,
    /// The confidentiality requirement metric.
    pub confidentiality_requirement: Option<SecurityRequirement>,
    /// The integrity requirement metric.
    pub integrity_requirement: Option<SecurityRequirement>,
    /// The availability requirement metric.
    pub availability_requirement: Option<SecurityRequirement>,
}

/// The metric slots of a record, without the vector string and the reported scores.
#[derive(Clone, Copy, Debug, PartialEq, Eq, Structural)]
pub struct V2Metrics {
    pub access_vector: Option<AccessVector>,
    pub access_complexity: Option<AccessComplexity>,
    pub authentication: Option<Authentication>,
    pub confidentiality_impact: Option<Impact>,
    pub integrity_impact: Option<Impact>,
    pub availability_impact: Option<Impact>,
    pub exploitability: Option<Exploitability>,
    pub remediation_level: Option<RemediationLevel>,
    pub report_confidence: Option<ReportConfidence>,
    pub collateral_damage_potential: Option<CollateralDamagePotential>,
    pub target_distribution: Option<TargetDistribution>,
    pub confidentiality_requirement: Option<SecurityRequirement>,
    pub integrity_requirement: Option<SecurityRequirement>,
    pub availability_requirement: Option<SecurityRequirement>,
}

/// Represents the qualitative severity rating of a vulnerability.
#[derive(Clone, Copy, Debug, PartialEq, Eq, Structural)]
pub enum Severity {
    Low,
    Medium,
    High,
}

impl Severity {
    /// The same rating on the scale that all versions share.
    pub open spec fn spec_unified(&self) -> crate::Severity {
        match self {
            Severity::Low => crate::Severity::Low,
            Severity::Medium => crate::Severity::Medium,
            Severity::High => crate::Severity::High,
        }
    }

    /// The same rating on the scale that all versions share.
    #[verifier::when_used_as_spec(spec_unified)]
    pub fn unified(&self) -> (r: crate::Severity)
        ensures
            r == self.spec_unified(),
    {
        match self {
            Severity::Low => crate::Severity::Low,
            Severity::Medium => crate::Severity::Medium,
            Severity::High => crate::Severity::High,
        }
    }
}

/// Represents the access vector metric.
#[derive(Clone, Copy, Debug, PartialEq, Eq, Structural)]
pub enum AccessVector {
    Network,
    AdjacentNetwork,
    Local,
}

impl AccessVector {
    /// The code that stands for this value in a vector string.
    pub open spec fn code(self) -> Seq<char> {
        match self {
            AccessVector::Network => seq!['N'],
            AccessVector::AdjacentNetwork => seq!['A'],
            AccessVector::Local => seq!['L'],
        }
    }

    /// The code of a metric slot: that of its value where it holds one.
    pub open spec fn code_of(value: Option<AccessVector>) -> Option<Seq<char>> {
        match value {
            Some(v) => Some(v.code()),
            None => None,
        }
    }

    /// The value that a code stands for. The code is compared in upper case.
    pub open spec fn from_code(code: Seq<char>) -> Option<AccessVector> {
        if spells1(code, 'N') {
            Some(AccessVector::Network)
        } else if spells1(code, 'A') {
            Some(AccessVector::AdjacentNetwork)
        } else if spells1(code, 'L') {
            Some(AccessVector::Local)
        } else {
            None
        }
    }

    /// Reads a value from its code in upper case.
    pub fn parse(code: &Vec<char>) -> (r: Option<AccessVector>)
        ensures
            r == AccessVector::from_code(code@),
    {
        if is1(code, 'N') {
            Some(AccessVector::Network)
        } else if is1(code, 'A') {
            Some(AccessVector::AdjacentNetwork)
        } else if is1(code, 'L') {
            Some(AccessVector::Local)
        } else {
            None
        }
    }

    /// The code that stands for this value in a vector string.
    pub fn as_str(&self) -> (r: &'static str)
        ensures
            r@ == self.code(),
    {
        match self {
            AccessVector::Network => {
                proof {
                    reveal_strlit("N");
                    assert("N"@ =~= seq!['N']);
                }
                "N"
            },
            AccessVector::AdjacentNetwork => {
                proof {
                    reveal_strlit("A");
                    assert("A"@ =~= seq!['A']);
                }
                "A"
            },
            AccessVector::Local => {
                proof {
                    reveal_strlit("L");
                    assert("L"@ =~= seq!['L']);
                }
                "L"
            },
        }
    }

    /// The code that stands for this value, as an owned string.
    pub fn to_string(&self) -> (r: String)
        ensures
            r@ == self.code(),
    {
        self.as_str().to_owned()
    }

    /// The code of a metric slot: that of its value where it holds one.
    pub fn slot_str(value: Option<AccessVector>) -> (r: Option<&'static str>)
        ensures
            str_view(r) == AccessVector::code_of(value),
    {
        match value {
            Some(v) => Some(v.as_str()),
            None => None,
        }
    }

    /// A value is read back from its own code, and no code holds `/` or `:`.
    pub proof fn lemma_code(self)
        ensures
            AccessVector::from_code(upper(self.code())) == Some(self),
            free_of(self.code(), '/'),
            free_of(self.code(), ':'),
    {
    }

    /// Returns the numeric score for this metric per CVSS v2.0 specification, in thousandths.
    pub open spec fn spec_score(&self) -> u32 {
        match self {
            AccessVector::Network => 1000,
            AccessVector::AdjacentNetwork => 646,
            AccessVector::Local => 395,
        }
    }

    /// Returns the numeric score for this metric per CVSS v2.0 specification, in thousandths.
    #[verifier::when_used_as_spec(spec_score)]
    pub fn score(&self) -> (r: u32)
        ensures
            r == self.spec_score(),
    {
        match self {
            AccessVector::Network => 1000,
            AccessVector::AdjacentNetwork => 646,
            AccessVector::Local => 395,
        }
    }
}

/// Represents the access complexity metric.
#[derive(Clone, Copy, Debug, PartialEq, Eq, Structural)]
pub enum AccessComplexity {
    High,
    Medium,
    Low,
}

impl AccessComplexity {
    /// The code that stands for this value in a vector string.
    pub open spec fn code(self) -> Seq<char> {
        match self {
            AccessComplexity::High => seq!['H'],
            AccessComplexity::Medium => seq!['M'],
            AccessComplexity::Low => seq!['L'],
        }
    }

    /// The code of a metric slot: that of its value where it holds one.
    pub open spec fn code_of(value: Option<AccessComplexity>) -> Option<Seq<char>> {
        match value {
            Some(v) => Some(v.code()),
            None => None,
        }
    }

    /// The value that a code stands for. The code is compared in upper case.
    pub open spec fn from_code(code: Seq<char>) -> Option<AccessComplexity> {
        if spells1(code, 'H') {
            Some(AccessComplexity::High)
        } else if spells1(code, 'M') {
            Some(AccessComplexity::Medium)
        } else if spells1(code, 'L') {
            Some(AccessComplexity::Low)
        } else {
            None
        }
    }

    /// Reads a value from its code in upper case.
    pub fn parse(code: &Vec<char>) -> (r: Option<AccessComplexity>)
        ensures
            r == AccessComplexity::from_code(code@),
    {
        if is1(code, 'H') {
            Some(AccessComplexity::High)
        } else if is1(code, 'M') {
            Some(AccessComplexity::Medium)
        } else if is1(code, 'L') {
            Some(AccessComplexity::Low)
        } else {
            None
        }
    }

    /// The code that stands for this value in a vector string.
    pub fn as_str(&self) -> (r: &'static str)
        ensures
            r@ == self.code(),
    {
        match self {
            AccessComplexity::High => {
                proof {
                    reveal_strlit("H");
                    assert("H"@ =~= seq!['H']);
                }
                "H"
            },
            AccessComplexity::Medium => {
                proof {
                    reveal_strlit("M");
                    assert("M"@ =~= seq!['M']);
                }
                "M"
            },
            AccessComplexity::Low => {
                proof {
                    reveal_strlit("L");
                    assert("L"@ =~= seq!['L']);
                }
                "L"
            },
        }
    }

    /// The code that stands for this value, as an owned string.
    pub fn to_string(&self) -> (r: String)
        ensures
            r@ == self.code(),
    {
        self.as_str().to_owned()
    }

    /// The code of a metric slot: that of its value where it holds one.
    pub fn slot_str(value: Option<AccessComplexity>) -> (r: Option<&'static str>)
        ensures
            str_view(r) == AccessComplexity::code_of(value),
    {
        match value {
            Some(v) => Some(v.as_str()),
            None => None,
        }
    }

    /// A value is read back from its own code, and no code holds `/` or `:`.
    pub proof fn lemma_code(self)
        ensures
            AccessComplexity::from_code(upper(self.code())) == Some(self),
            free_of(self.code(), '/'),
            free_of(self.code(), ':'),
    {
    }

    /// Returns the numeric score for this metric per CVSS v2.0 specification, in thousandths.
    pub open spec fn spec_score(&self) -> u32 {
        match self {
            AccessComplexity::High => 350,
            AccessComplexity::Medium => 610,
            AccessComplexity::Low => 710,
        }
    }

    /// Returns the numeric score for this metric per CVSS v2.0 specification, in thousandths.
    #[verifier::when_used_as_spec(spec_score)]
    pub fn score(&self) -> (r: u32)
        ensures
            r == self.spec_score(),
    {
        match self {
            AccessComplexity::High => 350,
            AccessComplexity::Medium => 610,
            AccessComplexity::Low => 710,
        }
    }
}

/// Represents the authentication metric.
#[derive(Clone, Copy, Debug, PartialEq, Eq, Structural)]
pub enum Authentication {
    Multiple,
    Single,
    NoneValue,
}

impl Authentication {
    /// The code that stands for this value in a vector string.
    pub open spec fn code(self) -> Seq<char> {
        match self {
            Authentication::Multiple => seq!['M'],
            Authentication::Single => seq!['S'],
            Authentication::NoneValue => seq!['N'],
        }
    }

    /// The code of a metric slot: that of its value where it holds one.
    pub open spec fn code_of(value: Option<Authentication>) -> Option<Seq<char>> {
        match value {
            Some(v) => Some(v.code()),
            None => None,
        }
    }

    /// The value that a code stands for. The code is compared in upper case.
    pub open spec fn from_code(code: Seq<char>) -> Option<Authentication> {
        if spells1(code, 'M') {
            Some(Authentication::Multiple)
        } else if spells1(code, 'S') {
            Some(Authentication::Single)
        } else if spells1(code, 'N') {
            Some(Authentication::NoneValue)
        } else {
            None
        }
    }

    /// Reads a value from its code in upper case.
    pub fn parse(code: &Vec<char>) -> (r: Option<Authentication>)
        ensures
            r == Authentication::from_code(code@),
    {
        if is1(code, 'M') {
            Some(Authentication::Multiple)
        } else if is1(code, 'S') {
            Some(Authentication::Single)
        } else if is1(code, 'N') {
            Some(Authentication::NoneValue)
        } else {
            None
        }
    }

    /// The code that stands for this value in a vector string.
    pub fn as_str(&self) -> (r: &'static str)
        ensures
            r@ == self.code(),
    {
        match self {
            Authentication::Multiple => {
                proof {
                    reveal_strlit("M");
                    assert("M"@ =~= seq!['M']);
                }
                "M"
            },
            Authentication::Single => {
                proof {
                    reveal_strlit("S");
                    assert("S"@ =~= seq!['S']);
                }
                "S"
            },
            Authentication::NoneValue => {
                proof {
                    reveal_strlit("N");
                    assert("N"@ =~= seq!['N']);
                }
                "N"
            },
        }
    }

    /// The code that stands for this value, as an owned string.
    pub fn to_string(&self) -> (r: String)
        ensures
            r@ == self.code(),
    {
        self.as_str().to_owned()
    }

    /// The code of a metric slot: that of its value where it holds one.
    pub fn slot_str(value: Option<Authentication>) -> (r: Option<&'static str>)
        ensures
            str_view(r) == Authentication::code_of(value),
    {
        match value {
            Some(v) => Some(v.as_str()),
            None => None,
        }
    }

    /// A value is read back from its own code, and no code holds `/` or `:`.
    pub proof fn lemma_code(self)
        ensures
            Authentication::from_code(upper(self.code())) == Some(self),
            free_of(self.code(), '/'),
            free_of(self.code(), ':'),
    {
    }

    /// Returns the numeric score for this metric per CVSS v2.0 specification, in thousandths.
    pub open spec fn spec_score(&self) -> u32 {
        match self {
            Authentication::Multiple => 450,
            Authentication::Single => 560,
            Authentication::NoneValue => 704,
        }
    }

    /// Returns the numeric score for this metric per CVSS v2.0 specification, in thousandths.
    #[verifier::when_used_as_spec(spec_score)]
    pub fn score(&self) -> (r: u32)
        ensures
            r == self.spec_score(),
    {
        match self {
            Authentication::Multiple => 450,
            Authentication::Single => 560,
            Authentication::NoneValue => 704,
        }
    }
}

/// Represents the impact metrics (confidentiality, integrity, availability).
#[derive(Clone, Copy, Debug, PartialEq, Eq, Structural)]
pub enum Impact {
    NoneValue,
    Partial,
    Complete,
}

impl Impact {
    /// The code that stands for this value in a vector string.
    pub open spec fn code(self) -> Seq<char> {
        match self {
            Impact::NoneValue => seq!['N'],
            Impact::Partial => seq!['P'],
            Impact::Complete => seq!['C'],
        }
    }

    /// The code of a metric slot: that of its value where it holds one.
    pub open spec fn code_of(value: Option<Impact>) -> Option<Seq<char>> {
        match value {
            Some(v) => Some(v.code()),
            None => None,
        }
    }

    /// The value that a code stands for. The code is compared in upper case.
    pub open spec fn from_code(code: Seq<char>) -> Option<Impact> {
        if spells1(code, 'N') {
            Some(Impact::NoneValue)
        } else if spells1(code, 'P') {
            Some(Impact::Partial)
        } else if spells1(code, 'C') {
            Some(Impact::Complete)
        } else {
            None
        }
    }

    /// Reads a value from its code in upper case.
    pub fn parse(code: &Vec<char>) -> (r: Option<Impact>)
        ensures
            r == Impact::from_code(code@),
    {
        if is1(code, 'N') {
            Some(Impact::NoneValue)
        } else if is1(code, 'P') {
            Some(Impact::Partial)
        } else if is1(code, 'C') {
            Some(Impact::Complete)
        } else {
            None
        }
    }

    /// The code that stands for this value in a vector string.
    pub fn as_str(&self) -> (r: &'static str)
        ensures
            r@ == self.code(),
    {
        match self {
            Impact::NoneValue => {
                proof {
                    reveal_strlit("N");
                    assert("N"@ =~= seq!['N']);
                }
                "N"
            },
            Impact::Partial => {
                proof {
                    reveal_strlit("P");
                    assert("P"@ =~= seq!['P']);
                }
                "P"
            },
            Impact::Complete => {
                proof {
                    reveal_strlit("C");
                    assert("C"@ =~= seq!['C']);
                }
                "C"
            },
        }
    }

    /// The code that stands for this value, as an owned string.
    pub fn to_string(&self) -> (r: String)
        ensures
            r@ == self.code(),
    {
        self.as_str().to_owned()
    }

    /// The code of a metric slot: that of its value where it holds one.
    pub fn slot_str(value: Option<Impact>) -> (r: Option<&'static str>)
        ensures
            str_view(r) == Impact::code_of(value),
    {
        match value {
            Some(v) => Some(v.as_str()),
            None => None,
        }
    }

    /// A value is read back from its own code, and no code holds `/` or `:`.
    pub proof fn lemma_code(self)
        ensures
            Impact::from_code(upper(self.code())) == Some(self),
            free_of(self.code(), '/'),
            free_of(self.code(), ':'),
    {
    }

    /// Returns the numeric score for this metric per CVSS v2.0 specification, in thousandths.
    pub open spec fn spec_score(&self) -> u32 {
        match self {
            Impact::NoneValue => 0,
            Impact::Partial => 275,
            Impact::Complete => 660,
        }
    }

    /// Returns the numeric score for this metric per CVSS v2.0 specification, in thousandths.
    #[verifier::when_used_as_spec(spec_score)]
    pub fn score(&self) -> (r: u32)
        ensures
            r == self.spec_score(),
    {
        match self {
            Impact::NoneValue => 0,
            Impact::Partial => 275,
            Impact::Complete => 660,
        }
    }
}

/// Represents the exploitability metric.
#[derive(Clone, Copy, Debug, PartialEq, Eq, Structural)]
pub enum Exploitability {
    Unproven,
    ProofOfConcept,
    Functional,
    High,
    NotDefined,
}

impl Exploitability {
    /// The code that stands for this value in a vector string.
    pub open spec fn code(self) -> Seq<char> {
        match self {
            Exploitability::Unproven => seq!['U'],
            Exploitability::ProofOfConcept => seq!['P', 'O', 'C'],
            Exploitability::Functional => seq!['F'],
            Exploitability::High => seq!['H'],
            Exploitability::NotDefined => seq!['N', 'D'],
        }
    }

    /// The code of a metric slot: that of its value where it holds one.
    pub open spec fn code_of(value: Option<Exploitability>) -> Option<Seq<char>> {
        match value {
            Some(v) => Some(v.code()),
            None => None,
        }
    }

    /// The value that a code stands for. The code is compared in upper case.
    pub open spec fn from_code(code: Seq<char>) -> Option<Exploitability> {
        if spells1(code, 'U') {
            Some(Exploitability::Unproven)
        } else if spells3(code, 'P', 'O', 'C') {
            Some(Exploitability::ProofOfConcept)
        } else if spells1(code, 'F') {
            Some(Exploitability::Functional)
        } else if spells1(code, 'H') {
            Some(Exploitability::High)
        } else if spells2(code, 'N', 'D') {
            Some(Exploitability::NotDefined)
        } else {
            None
        }
    }

    /// Reads a value from its code in upper case.
    pub fn parse(code: &Vec<char>) -> (r: Option<Exploitability>)
        ensures
            r == Exploitability::from_code(code@),
    {
        if is1(code, 'U') {
            Some(Exploitability::Unproven)
        } else if is3(code, 'P', 'O', 'C') {
            Some(Exploitability::ProofOfConcept)
        } else if is1(code, 'F') {
            Some(Exploitability::Functional)
        } else if is1(code, 'H') {
            Some(Exploitability::High)
        } else if is2(code, 'N', 'D') {
            Some(Exploitability::NotDefined)
        } else {
            None
        }
    }

    /// The code that stands for this value in a vector string.
    pub fn as_str(&self) -> (r: &'static str)
        ensures
            r@ == self.code(),
    {
        match self {
            Exploitability::Unproven => {
                proof {
                    reveal_strlit("U");
                    assert("U"@ =~= seq!['U']);
                }
                "U"
            },
            Exploitability::ProofOfConcept => {
                proof {
                    reveal_strlit("POC");
                    assert("POC"@ =~= seq!['P', 'O', 'C']);
                }
                "POC"
            },
            Exploitability::Functional => {
                proof {
                    reveal_strlit("F");
                    assert("F"@ =~= seq!['F']);
                }
                "F"
            },
            Exploitability::High => {
                proof {
                    reveal_strlit("H");
                    assert("H"@ =~= seq!['H']);
                }
                "H"
            },
            Exploitability::NotDefined => {
                proof {
                    reveal_strlit("ND");
                    assert("ND"@ =~= seq!['N', 'D']);
                }
                "ND"
            },
        }
    }

    /// The code that stands for this value, as an owned string.
    pub fn to_string(&self) -> (r: String)
        ensures
            r@ == self.code(),
    {
        self.as_str().to_owned()
    }

    /// The code of a metric slot: that of its value where it holds one.
    pub fn slot_str(value: Option<Exploitability>) -> (r: Option<&'static str>)
        ensures
            str_view(r) == Exploitability::code_of(value),
    {
        match value {
            Some(v) => Some(v.as_str()),
            None => None,
        }
    }

    /// A value is read back from its own code, and no code holds `/` or `:`.
    pub proof fn lemma_code(self)
        ensures
            Exploitability::from_code(upper(self.code())) == Some(self),
            free_of(self.code(), '/'),
            free_of(self.code(), ':'),
    {
    }

    /// Returns the numeric score for this metric per CVSS v2.0 specification, in thousandths.
    pub open spec fn spec_score(&self) -> u32 {
        match self {
            Exploitability::Unproven => 850,
            Exploitability::ProofOfConcept => 900,
            Exploitability::Functional => 950,
            Exploitability::High => 1000,
            Exploitability::NotDefined => 1000,
        }
    }

    /// Returns the numeric score for this metric per CVSS v2.0 specification, in thousandths.
    #[verifier::when_used_as_spec(spec_score)]
    pub fn score(&self) -> (r: u32)
        ensures
            r == self.spec_score(),
    {
        match self {
            Exploitability::Unproven => 850,
            Exploitability::ProofOfConcept => 900,
            Exploitability::Functional => 950,
            Exploitability::High => 1000,
            Exploitability::NotDefined => 1000,
        }
    }
}

/// Represents the remediation level metric.
#[derive(Clone, Copy, Debug, PartialEq, Eq, Structural)]
pub enum RemediationLevel {
    OfficialFix,
    TemporaryFix,
    Workaround,
    Unavailable,
    NotDefined,
}

impl RemediationLevel {
    /// The code that stands for this value in a vector string.
    pub open spec fn code(self) -> Seq<char> {
        match self {
            RemediationLevel::OfficialFix => seq!['O', 'F'],
            RemediationLevel::TemporaryFix => seq!['T', 'F'],
            RemediationLevel::Workaround => seq!['W'],
            RemediationLevel::Unavailable => seq!['U'],
            RemediationLevel::NotDefined => seq!['N', 'D'],
        }
    }

    /// The code of a metric slot: that of its value where it holds one.
    pub open spec fn code_of(value: Option<RemediationLevel>) -> Option<Seq<char>> {
        match value {
            Some(v) => Some(v.code()),
            None => None,
        }
    }

    /// The value that a code stands for. The code is compared in upper case.
    pub open spec fn from_code(code: Seq<char>) -> Option<RemediationLevel> {
        if spells2(code, 'O', 'F') {
            Some(RemediationLevel::OfficialFix)
        } else if spells2(code, 'T', 'F') {
            Some(RemediationLevel::TemporaryFix)
        } else if spells1(code, 'W') {
            Some(RemediationLevel::Workaround)
        } else if spells1(code, 'U') {
            Some(RemediationLevel::Unavailable)
        } else if spells2(code, 'N', 'D') {
            Some(RemediationLevel::NotDefined)
        } else {
            None
        }
    }

    /// Reads a value from its code in upper case.
    pub fn parse(code: &Vec<char>) -> (r: Option<RemediationLevel>)
        ensures
            r == RemediationLevel::from_code(code@),
    {
        if is2(code, 'O', 'F') {
            Some(RemediationLevel::OfficialFix)
        } else if is2(code, 'T', 'F') {
            Some(RemediationLevel::TemporaryFix)
        } else if is1(code, 'W') {
            Some(RemediationLevel::Workaround)
        } else if is1(code, 'U') {
            Some(RemediationLevel::Unavailable)
        } else if is2(code, 'N', 'D') {
            Some(RemediationLevel::NotDefined)
        } else {
            None
        }
    }

    /// The code that stands for this value in a vector string.
    pub fn as_str(&self) -> (r: &'static str)
        ensures
            r@ == self.code(),
    {
        match self {
            RemediationLevel::OfficialFix => {
                proof {
                    reveal_strlit("OF");
                    assert("OF"@ =~= seq!['O', 'F']);
                }
                "OF"
            },
            RemediationLevel::TemporaryFix => {
                proof {
                    reveal_strlit("TF");
                    assert("TF"@ =~= seq!['T', 'F']);
                }
                "TF"
            },
            RemediationLevel::Workaround => {
                proof {
                    reveal_strlit("W");
                    assert("W"@ =~= seq!['W']);
                }
                "W"
            },
            RemediationLevel::Unavailable => {
                proof {
                    reveal_strlit("U");
                    assert("U"@ =~= seq!['U']);
                }
                "U"
            },
            RemediationLevel::NotDefined => {
                proof {
                    reveal_strlit("ND");
                    assert("ND"@ =~= seq!['N', 'D']);
                }
                "ND"
            },
        }
    }

    /// The code that stands for this value, as an owned string.
    pub fn to_string(&self) -> (r: String)
        ensures
            r@ == self.code(),
    {
        self.as_str().to_owned()
    }

    /// The code of a metric slot: that of its value where it holds one.
    pub fn slot_str(value: Option<RemediationLevel>) -> (r: Option<&'static str>)
        ensures
            str_view(r) == RemediationLevel::code_of(value),
    {
        match value {
            Some(v) => Some(v.as_str()),
            None => None,
        }
    }

    /// A value is read back from its own code, and no code holds `/` or `:`.
    pub proof fn lemma_code(self)
        ensures
            RemediationLevel::from_code(upper(self.code())) == Some(self),
            free_of(self.code(), '/'),
            free_of(self.code(), ':'),
    {
    }

    /// Returns the numeric score for this metric per CVSS v2.0 specification, in thousandths.
    pub open spec fn spec_score(&self) -> u32 {
        match self {
            RemediationLevel::OfficialFix => 870,
            RemediationLevel::TemporaryFix => 900,
            RemediationLevel::Workaround => 950,
            RemediationLevel::Unavailable => 1000,
            RemediationLevel::NotDefined => 1000,
        }
    }

    /// Returns the numeric score for this metric per CVSS v2.0 specification, in thousandths.
    #[verifier::when_used_as_spec(spec_score)]
    pub fn score(&self) -> (r: u32)
        ensures
            r == self.spec_score(),
    {
        match self {
            RemediationLevel::OfficialFix => 870,
            RemediationLevel::TemporaryFix => 900,
            RemediationLevel::Workaround => 950,
            RemediationLevel::Unavailable => 1000,
            RemediationLevel::NotDefined => 1000,
        }
    }
}

/// Represents the report confidence metric.
#[derive(Clone, Copy, Debug, PartialEq, Eq, Structural)]
pub enum ReportConfidence {
    Unconfirmed,
    Uncorroborated,
    Confirmed,
    NotDefined,
}

impl ReportConfidence {
    /// The code that stands for this value in a vector string.
    pub open spec fn code(self) -> Seq<char> {
        match self {
            ReportConfidence::Unconfirmed => seq!['U', 'C'],
            ReportConfidence::Uncorroborated => seq!['U', 'R'],
            ReportConfidence::Confirmed => seq!['C'],
            ReportConfidence::NotDefined => seq!['N', 'D'],
        }
    }

    /// The code of a metric slot: that of its value where it holds one.
    pub open spec fn code_of(value: Option<ReportConfidence>) -> Option<Seq<char>> {
        match value {
            Some(v) => Some(v.code()),
            None => None,
        }
    }

    /// The value that a code stands for. The code is compared in upper case.
    pub open spec fn from_code(code: Seq<char>) -> Option<ReportConfidence> {
        if spells2(code, 'U', 'C') {
            Some(ReportConfidence::Unconfirmed)
        } else if spells2(code, 'U', 'R') {
            Some(ReportConfidence::Uncorroborated)
        } else if spells1(code, 'C') {
            Some(ReportConfidence::Confirmed)
        } else if spells2(code, 'N', 'D') {
            Some(ReportConfidence::NotDefined)
        } else {
            None
        }
    }

    /// Reads a value from its code in upper case.
    pub fn parse(code: &Vec<char>) -> (r: Option<ReportConfidence>)
        ensures
            r == ReportConfidence::from_code(code@),
    {
        if is2(code, 'U', 'C') {
            Some(ReportConfidence::Unconfirmed)
        } else if is2(code, 'U', 'R') {
            Some(ReportConfidence::Uncorroborated)
        } else if is1(code, 'C') {
            Some(ReportConfidence::Confirmed)
        } else if is2(code, 'N', 'D') {
            Some(ReportConfidence::NotDefined)
        } else {
            None
        }
    }

    /// The code that stands for this value in a vector string.
    pub fn as_str(&self) -> (r: &'static str)
        ensures
            r@ == self.code(),
    {
        match self {
            ReportConfidence::Unconfirmed => {
                proof {
                    reveal_strlit("UC");
                    assert("UC"@ =~= seq!['U', 'C']);
                }
                "UC"
            },
            ReportConfidence::Uncorroborated => {
                proof {
                    reveal_strlit("UR");
                    assert("UR"@ =~= seq!['U', 'R']);
                }
                "UR"
            },
            ReportConfidence::Confirmed => {
                proof {
                    reveal_strlit("C");
                    assert("C"@ =~= seq!['C']);
                }
                "C"
            },
            ReportConfidence::NotDefined => {
                proof {
                    reveal_strlit("ND");
                    assert("ND"@ =~= seq!['N', 'D']);
                }
                "ND"
            },
        }
    }

    /// The code that stands for this value, as an owned string.
    pub fn to_string(&self) -> (r: String)
        ensures
            r@ == self.code(),
    {
        self.as_str().to_owned()
    }

    /// The code of a metric slot: that of its value where it holds one.
    pub fn slot_str(value: Option<ReportConfidence>) -> (r: Option<&'static str>)
        ensures
            str_view(r) == ReportConfidence::code_of(value),
    {
        match value {
            Some(v) => Some(v.as_str()),
            None => None,
        }
    }

    /// A value is read back from its own code, and no code holds `/` or `:`.
    pub proof fn lemma_code(self)
        ensures
            ReportConfidence::from_code(upper(self.code())) == Some(self),
            free_of(self.code(), '/'),
            free_of(self.code(), ':'),
    {
    }

    /// Returns the numeric score for this metric per CVSS v2.0 specification, in thousandths.
    pub open spec fn spec_score(&self) -> u32 {
        match self {
            ReportConfidence::Unconfirmed => 900,
            ReportConfidence::Uncorroborated => 950,
            ReportConfidence::Confirmed => 1000,
            ReportConfidence::NotDefined => 1000,
        }
    }

    /// Returns the numeric score for this metric per CVSS v2.0 specification, in thousandths.
    #[verifier::when_used_as_spec(spec_score)]
    pub fn score(&self) -> (r: u32)
        ensures
            r == self.spec_score(),
    {
        match self {
            ReportConfidence::Unconfirmed => 900,
            ReportConfidence::Uncorroborated => 950,
            ReportConfidence::Confirmed => 1000,
            ReportConfidence::NotDefined => 1000,
        }
    }
}

/// Represents the collateral damage potential metric.
#[derive(Clone, Copy, Debug, PartialEq, Eq, Structural)]
pub enum CollateralDamagePotential {
    NoneValue,
    Low,
    LowMedium,
    MediumHigh,
    High,
    NotDefined,
}

impl CollateralDamagePotential {
    /// The code that stands for this value in a vector string.
    pub open spec fn code(self) -> Seq<char> {
        match self {
            CollateralDamagePotential::NoneValue => seq!['N'],
            CollateralDamagePotential::Low => seq!['L'],
            CollateralDamagePotential::LowMedium => seq!['L', 'M'],
            CollateralDamagePotential::MediumHigh => seq!['M', 'H'],
            CollateralDamagePotential::High => seq!['H'],
            CollateralDamagePotential::NotDefined => seq!['N', 'D'],
        }
    }

    /// The code of a metric slot: that of its value where it holds one.
    pub open spec fn code_of(value: Option<CollateralDamagePotential>) -> Option<Seq<char>> {
        match value {
            Some(v) => Some(v.code()),
            None => None,
        }
    }

    /// The value that a code stands for. The code is compared in upper case.
    pub open spec fn from_code(code: Seq<char>) -> Option<CollateralDamagePotential> {
        if spells1(code, 'N') {
            Some(CollateralDamagePotential::NoneValue)
        } else if spells1(code, 'L') {
            Some(CollateralDamagePotential::Low)
        } else if spells2(code, 'L', 'M') {
            Some(CollateralDamagePotential::LowMedium)
        } else if spells2(code, 'M', 'H') {
            Some(CollateralDamagePotential::MediumHigh)
        } else if spells1(code, 'H') {
            Some(CollateralDamagePotential::High)
        } else if spells2(code, 'N', 'D') {
            Some(CollateralDamagePotential::NotDefined)
        } else {
            None
        }
    }

    /// Reads a value from its code in upper case.
    pub fn parse(code: &Vec<char>) -> (r: Option<CollateralDamagePotential>)
        ensures
            r == CollateralDamagePotential::from_code(code@),
    {
        if is1(code, 'N') {
            Some(CollateralDamagePotential::NoneValue)
        } else if is1(code, 'L') {
            Some(CollateralDamagePotential::Low)
        } else if is2(code, 'L', 'M') {
            Some(CollateralDamagePotential::LowMedium)
        } else if is2(code, 'M', 'H') {
            Some(CollateralDamagePotential::MediumHigh)
        } else if is1(code, 'H') {
            Some(CollateralDamagePotential::High)
        } else if is2(code, 'N', 'D') {
            Some(CollateralDamagePotential::NotDefined)
        } else {
            None
        }
    }

    /// The code that stands for this value in a vector string.
    pub fn as_str(&self) -> (r: &'static str)
        ensures
            r@ == self.code(),
    {
        match self {
            CollateralDamagePotential::NoneValue => {
                proof {
                    reveal_strlit("N");
                    assert("N"@ =~= seq!['N']);
                }
                "N"
            },
            CollateralDamagePotential::Low => {
                proof {
                    reveal_strlit("L");
                    assert("L"@ =~= seq!['L']);
                }
                "L"
            },
            CollateralDamagePotential::LowMedium => {
                proof {
                    reveal_strlit("LM");
                    assert("LM"@ =~= seq!['L', 'M']);
                }
                "LM"
            },
            CollateralDamagePotential::MediumHigh => {
                proof {
                    reveal_strlit("MH");
                    assert("MH"@ =~= seq!['M', 'H']);
                }
                "MH"
            },
            CollateralDamagePotential::High => {
                proof {
                    reveal_strlit("H");
                    assert("H"@ =~= seq!['H']);
                }
                "H"
            },
            CollateralDamagePotential::NotDefined => {
                proof {
                    reveal_strlit("ND");
                    assert("ND"@ =~= seq!['N', 'D']);
                }
                "ND"
            },
        }
    }

    /// The code that stands for this value, as an owned string.
    pub fn to_string(&self) -> (r: String)
        ensures
            r@ == self.code(),
    {
        self.as_str().to_owned()
    }

    /// The code of a metric slot: that of its value where it holds one.
    pub fn slot_str(value: Option<CollateralDamagePotential>) -> (r: Option<&'static str>)
        ensures
            str_view(r) == CollateralDamagePotential::code_of(value),
    {
        match value {
            Some(v) => Some(v.as_str()),
            None => None,
        }
    }

    /// A value is read back from its own code, and no code holds `/` or `:`.
    pub proof fn lemma_code(self)
        ensures
            CollateralDamagePotential::from_code(upper(self.code())) == Some(self),
            free_of(self.code(), '/'),
            free_of(self.code(), ':'),
    {
    }

    /// Returns the numeric score for this metric per CVSS v2.0 specification, in thousandths.
    pub open spec fn spec_score(&self) -> u32 {
        match self {
            CollateralDamagePotential::NoneValue => 0,
            CollateralDamagePotential::Low => 100,
            CollateralDamagePotential::LowMedium => 300,
            CollateralDamagePotential::MediumHigh => 400,
            CollateralDamagePotential::High => 500,
            CollateralDamagePotential::NotDefined => 0,
        }
    }

    /// Returns the numeric score for this metric per CVSS v2.0 specification, in thousandths.
    #[verifier::when_used_as_spec(spec_score)]
    pub fn score(&self) -> (r: u32)
        ensures
            r == self.spec_score(),
    {
        match self {
            CollateralDamagePotential::NoneValue => 0,
            CollateralDamagePotential::Low => 100,
            CollateralDamagePotential::LowMedium => 300,
            CollateralDamagePotential::MediumHigh => 400,
            CollateralDamagePotential::High => 500,
            CollateralDamagePotential::NotDefined => 0,
        }
    }
}

/// Represents the target distribution metric.
#[derive(Clone, Copy, Debug, PartialEq, Eq, Structural)]
pub enum TargetDistribution {
    NoneValue,
    Low,
    Medium,
    High,
    NotDefined,
}

impl TargetDistribution {
    /// The code that stands for this value in a vector string.
    pub open spec fn code(self) -> Seq<char> {
        match self {
            TargetDistribution::NoneValue => seq!['N'],
            TargetDistribution::Low => seq!['L'],
            TargetDistribution::Medium => seq!['M'],
            TargetDistribution::High => seq!['H'],
            TargetDistribution::NotDefined => seq!['N', 'D'],
        }
    }

    /// The code of a metric slot: that of its value where it holds one.
    pub open spec fn code_of(value: Option<TargetDistribution>) -> Option<Seq<char>> {
        match value {
            Some(v) => Some(v.code()),
            None => None,
        }
    }

    /// The value that a code stands for. The code is compared in upper case.
    pub open spec fn from_code(code: Seq<char>) -> Option<TargetDistribution> {
        if spells1(code, 'N') {
            Some(TargetDistribution::NoneValue)
        } else if spells1(code, 'L') {
            Some(TargetDistribution::Low)
        } else if spells1(code, 'M') {
            Some(TargetDistribution::Medium)
        } else if spells1(code, 'H') {
            Some(TargetDistribution::High)
        } else if spells2(code, 'N', 'D') {
            Some(TargetDistribution::NotDefined)
        } else {
            None
        }
    }

    /// Reads a value from its code in upper case.
    pub fn parse(code: &Vec<char>) -> (r: Option<TargetDistribution>)
        ensures
            r == TargetDistribution::from_code(code@),
    {
        if is1(code, 'N') {
            Some(TargetDistribution::NoneValue)
        } else if is1(code, 'L') {
            Some(TargetDistribution::Low)
        } else if is1(code, 'M') {
            Some(TargetDistribution::Medium)
        } else if is1(code, 'H') {
            Some(TargetDistribution::High)
        } else if is2(code, 'N', 'D') {
            Some(TargetDistribution::NotDefined)
        } else {
            None
        }
    }

    /// The code that stands for this value in a vector string.
    pub fn as_str(&self) -> (r: &'static str)
        ensures
            r@ == self.code(),
    {
        match self {
            TargetDistribution::NoneValue => {
                proof {
                    reveal_strlit("N");
                    assert("N"@ =~= seq!['N']);
                }
                "N"
            },
            TargetDistribution::Low => {
                proof {
                    reveal_strlit("L");
                    assert("L"@ =~= seq!['L']);
                }
                "L"
            },
            TargetDistribution::Medium => {
                proof {
                    reveal_strlit("M");
                    assert("M"@ =~= seq!['M']);
                }
                "M"
            },
            TargetDistribution::High => {
                proof {
                    reveal_strlit("H");
                    assert("H"@ =~= seq!['H']);
                }
                "H"
            },
            TargetDistribution::NotDefined => {
                proof {
                    reveal_strlit("ND");
                    assert("ND"@ =~= seq!['N', 'D']);
                }
                "ND"
            },
        }
    }

    /// The code that stands for this value, as an owned string.
    pub fn to_string(&self) -> (r: String)
        ensures
            r@ == self.code(),
    {
        self.as_str().to_owned()
    }

    /// The code of a metric slot: that of its value where it holds one.
    pub fn slot_str(value: Option<TargetDistribution>) -> (r: Option<&'static str>)
        ensures
            str_view(r) == TargetDistribution::code_of(value),
    {
        match value {
            Some(v) => Some(v.as_str()),
            None => None,
        }
    }

    /// A value is read back from its own code, and no code holds `/` or `:`.
    pub proof fn lemma_code(self)
        ensures
            TargetDistribution::from_code(upper(self.code())) == Some(self),
            free_of(self.code(), '/'),
            free_of(self.code(), ':'),
    {
    }

    /// Returns the numeric score for this metric per CVSS v2.0 specification, in thousandths.
    pub open spec fn spec_score(&self) -> u32 {
        match self {
            TargetDistribution::NoneValue => 0,
            TargetDistribution::Low => 250,
            TargetDistribution::Medium => 750,
            TargetDistribution::High => 1000,
            TargetDistribution::NotDefined => 1000,
        }
    }

    /// Returns the numeric score for this metric per CVSS v2.0 specification, in thousandths.
    #[verifier::when_used_as_spec(spec_score)]
    pub fn score(&self) -> (r: u32)
        ensures
            r == self.spec_score(),
    {
        match self {
            TargetDistribution::NoneValue => 0,
            TargetDistribution::Low => 250,
            TargetDistribution::Medium => 750,
            TargetDistribution::High => 1000,
            TargetDistribution::NotDefined => 1000,
        }
    }
}

/// Represents the security requirement metrics.
#[derive(Clone, Copy, Debug, PartialEq, Eq, Structural)]
pub enum SecurityRequirement {
    Low,
    Medium,
    High,
    NotDefined,
}

impl SecurityRequirement {
    /// The code that stands for this value in a vector string.
    pub open spec fn code(self) -> Seq<char> {
        match self {
            SecurityRequirement::Low => seq!['L'],
            SecurityRequirement::Medium => seq!['M'],
            SecurityRequirement::High => seq!['H'],
            SecurityRequirement::NotDefined => seq!['N', 'D'],
        }
    }

    /// The code of a metric slot: that of its value where it holds one.
    pub open spec fn code_of(value: Option<SecurityRequirement>) -> Option<Seq<char>> {
        match value {
            Some(v) => Some(v.code()),
            None => None,
        }
    }

    /// The value that a code stands for. The code is compared in upper case.
    pub open spec fn from_code(code: Seq<char>) -> Option<SecurityRequirement> {
        if spells1(code, 'L') {
            Some(SecurityRequirement::Low)
        } else if spells1(code, 'M') {
            Some(SecurityRequirement::Medium)
        } else if spells1(code, 'H') {
            Some(SecurityRequirement::High)
        } else if spells2(code, 'N', 'D') {
            Some(SecurityRequirement::NotDefined)
        } else {
            None
        }
    }

    /// Reads a value from its code in upper case.
    pub fn parse(code: &Vec<char>) -> (r: Option<SecurityRequirement>)
        ensures
            r == SecurityRequirement::from_code(code@),
    {
        if is1(code, 'L') {
            Some(SecurityRequirement::Low)
        } else if is1(code, 'M') {
            Some(SecurityRequirement::Medium)
        } else if is1(code, 'H') {
            Some(SecurityRequirement::High)
        } else if is2(code, 'N', 'D') {
            Some(SecurityRequirement::NotDefined)
        } else {
            None
        }
    }

    /// The code that stands for this value in a vector string.
    pub fn as_str(&self) -> (r: &'static str)
        ensures
            r@ == self.code(),
    {
        match self {
            SecurityRequirement::Low => {
                proof {
                    reveal_strlit("L");
                    assert("L"@ =~= seq!['L']);
                }
                "L"
            },
            SecurityRequirement::Medium => {
                proof {
                    reveal_strlit("M");
                    assert("M"@ =~= seq!['M']);
                }
                "M"
            },
            SecurityRequirement::High => {
                proof {
                    reveal_strlit("H");
                    assert("H"@ =~= seq!['H']);
                }
                "H"
            },
            SecurityRequirement::NotDefined => {
                proof {
                    reveal_strlit("ND");
                    assert("ND"@ =~= seq!['N', 'D']);
                }
                "ND"
            },
        }
    }

    /// The code that stands for this value, as an owned string.
    pub fn to_string(&self) -> (r: String)
        ensures
            r@ == self.code(),
    {
        self.as_str().to_owned()
    }

    /// The code of a metric slot: that of its value where it holds one.
    pub fn slot_str(value: Option<SecurityRequirement>) -> (r: Option<&'static str>)
        ensures
            str_view(r) == SecurityRequirement::code_of(value),
    {
        match value {
            Some(v) => Some(v.as_str()),
            None => None,
        }
    }

    /// A value is read back from its own code, and no code holds `/` or `:`.
    pub proof fn lemma_code(self)
        ensures
            SecurityRequirement::from_code(upper(self.code())) == Some(self),
            free_of(self.code(), '/'),
            free_of(self.code(), ':'),
    {
    }

    /// Returns the numeric score for this metric per CVSS v2.0 specification, in thousandths.
    pub open spec fn spec_score(&self) -> u32 {
        match self {
            SecurityRequirement::Low => 500,
            SecurityRequirement::Medium => 1000,
            SecurityRequirement::High => 1510,
            SecurityRequirement::NotDefined => 1000,
        }
    }

    /// Returns the numeric score for this metric per CVSS v2.0 specification, in thousandths.
    #[verifier::when_used_as_spec(spec_score)]
    pub fn score(&self) -> (r: u32)
        ensures
            r == self.spec_score(),
    {
        match self {
            SecurityRequirement::Low => 500,
            SecurityRequirement::Medium => 1000,
            SecurityRequirement::High => 1510,
            SecurityRequirement::NotDefined => 1000,
        }
    }
}

impl V2Metrics {
    /// The record in which no metric is present.
    pub open spec fn spec_empty() -> V2Metrics {
        V2Metrics {
            access_vector: None,
            access_complexity: None,
            authentication: None,
            confidentiality_impact: None,
            integrity_impact: None,
            availability_impact: None,
            exploitability: None,
            remediation_level: None,
            report_confidence: None,
            collateral_damage_potential: None,
            target_distribution: None,
            confidentiality_requirement: None,
            integrity_requirement: None,
            availability_requirement: None,
        }
    }

    /// The record in which no metric is present.
    #[verifier::when_used_as_spec(spec_empty)]
    pub fn empty() -> (r: V2Metrics)
        ensures
            r == V2Metrics::spec_empty(),
    {
        V2Metrics {
            access_vector: None,
            access_complexity: None,
            authentication: None,
            confidentiality_impact: None,
            integrity_impact: None,
            availability_impact: None,
            exploitability: None,
            remediation_level: None,
            report_confidence: None,
            collateral_damage_potential: None,
            target_distribution: None,
            confidentiality_requirement: None,
            integrity_requirement: None,
            availability_requirement: None,
        }
    }

    /// The components that render the base metrics that are present.
    pub open spec fn base_parts(self) -> Seq<Seq<char>> {
        opt_part("AV"@, AccessVector::code_of(self.access_vector))
            + opt_part("AC"@, AccessComplexity::code_of(self.access_complexity))
            + opt_part("Au"@, Authentication::code_of(self.authentication))
            + opt_part("C"@, Impact::code_of(self.confidentiality_impact))
            + opt_part("I"@, Impact::code_of(self.integrity_impact))
            + opt_part("A"@, Impact::code_of(self.availability_impact))
    }

    /// The components that render the temporal metrics that are present.
    pub open spec fn temporal_parts(self) -> Seq<Seq<char>> {
        opt_part("E"@, Exploitability::code_of(self.exploitability))
            + opt_part("RL"@, RemediationLevel::code_of(self.remediation_level))
            + opt_part("RC"@, ReportConfidence::code_of(self.report_confidence))
    }

    /// The components that render the environmental metrics that are present.
    pub open spec fn environmental_parts(self) -> Seq<Seq<char>> {
        opt_part("CDP"@, CollateralDamagePotential::code_of(self.collateral_damage_potential))
            + opt_part("TD"@, TargetDistribution::code_of(self.target_distribution))
            + opt_part("CR"@, SecurityRequirement::code_of(self.confidentiality_requirement))
            + opt_part("IR"@, SecurityRequirement::code_of(self.integrity_requirement))
            + opt_part("AR"@, SecurityRequirement::code_of(self.availability_requirement))
    }

    /// The components of the canonical rendering: one for each metric that is present,
    /// in the canonical order.
    pub open spec fn parts(self) -> Seq<Seq<char>> {
        self.base_parts()
            + self.temporal_parts()
            + self.environmental_parts()
    }

    /// Appends the base metrics that are present, each as `/KEY:VALUE`.
    fn push_base(&self, out: &mut Vec<char>)
        ensures
            final(out)@ == old(out)@ + chain(self.base_parts(), '/'),
    {
        let ghost before = out@;
        let ghost mut parts: Seq<Seq<char>> = Seq::empty();
        proof {
            assert(out@ =~= before + chain(parts, '/'));
        }
        push_slot(
            out,
            "AV",
            AccessVector::slot_str(self.access_vector),
            Ghost(before),
            Ghost(parts),
        );
        proof {
            let part = opt_part("AV"@, AccessVector::code_of(self.access_vector));
            assert(parts + part =~= part);
            parts = part;
        }
        push_slot(
            out,
            "AC",
            AccessComplexity::slot_str(self.access_complexity),
            Ghost(before),
            Ghost(parts),
        );
        proof {
            let part = opt_part("AC"@, AccessComplexity::code_of(self.access_complexity));
            parts = parts + part;
        }
        push_slot(
            out,
            "Au",
            Authentication::slot_str(self.authentication),
            Ghost(before),
            Ghost(parts),
        );
        proof {
            let part = opt_part("Au"@, Authentication::code_of(self.authentication));
            parts = parts + part;
        }
        push_slot(
            out,
            "C",
            Impact::slot_str(self.confidentiality_impact),
            Ghost(before),
            Ghost(parts),
        );
        proof {
            let part = opt_part("C"@, Impact::code_of(self.confidentiality_impact));
            parts = parts + part;
        }
        push_slot(out, "I", Impact::slot_str(self.integrity_impact), Ghost(before), Ghost(parts));
        proof {
            let part = opt_part("I"@, Impact::code_of(self.integrity_impact));
            parts = parts + part;
        }
        push_slot(
            out,
            "A",
            Impact::slot_str(self.availability_impact),
            Ghost(before),
            Ghost(parts),
        );
        proof {
            let part = opt_part("A"@, Impact::code_of(self.availability_impact));
            parts = parts + part;
        }
    }

    /// Appends the temporal metrics that are present, each as `/KEY:VALUE`.
    fn push_temporal(&self, out: &mut Vec<char>)
        ensures
            final(out)@ == old(out)@ + chain(self.temporal_parts(), '/'),
    {
        let ghost before = out@;
        let ghost mut parts: Seq<Seq<char>> = Seq::empty();
        proof {
            assert(out@ =~= before + chain(parts, '/'));
        }
        push_slot(
            out,
            "E",
            Exploitability::slot_str(self.exploitability),
            Ghost(before),
            Ghost(parts),
        );
        proof {
            let part = opt_part("E"@, Exploitability::code_of(self.exploitability));
            assert(parts + part =~= part);
            parts = part;
        }
        push_slot(
            out,
            "RL",
            RemediationLevel::slot_str(self.remediation_level),
            Ghost(before),
            Ghost(parts),
        );
        proof {
            let part = opt_part("RL"@, RemediationLevel::code_of(self.remediation_level));
            parts = parts + part;
        }
        push_slot(
            out,
            "RC",
            ReportConfidence::slot_str(self.report_confidence),
            Ghost(before),
            Ghost(parts),
        );
        proof {
            let part = opt_part("RC"@, ReportConfidence::code_of(self.report_confidence));
            parts = parts + part;
        }
    }

    /// Appends the environmental metrics that are present, each as `/KEY:VALUE`.
    fn push_environmental(&self, out: &mut Vec<char>)
        ensures
            final(out)@ == old(out)@ + chain(self.environmental_parts(), '/'),
    {
        let ghost before = out@;
        let ghost mut parts: Seq<Seq<char>> = Seq::empty();
        proof {
            assert(out@ =~= before + chain(parts, '/'));
        }
        push_slot(
            out,
            "CDP",
            CollateralDamagePotential::slot_str(self.collateral_damage_potential),
            Ghost(before),
            Ghost(parts),
        );
        proof {
            let part = opt_part(
                "CDP"@,
                CollateralDamagePotential::code_of(self.collateral_damage_potential),
            );
            assert(parts + part =~= part);
            parts = part;
        }
        push_slot(
            out,
            "TD",
            TargetDistribution::slot_str(self.target_distribution),
            Ghost(before),
            Ghost(parts),
        );
        proof {
            let part = opt_part("TD"@, TargetDistribution::code_of(self.target_distribution));
            parts = parts + part;
        }
        push_slot(
            out,
            "CR",
            SecurityRequirement::slot_str(self.confidentiality_requirement),
            Ghost(before),
            Ghost(parts),
        );
        proof {
            let part = opt_part(
                "CR"@,
                SecurityRequirement::code_of(self.confidentiality_requirement),
            );
            parts = parts + part;
        }
        push_slot(
            out,
            "IR",
            SecurityRequirement::slot_str(self.integrity_requirement),
            Ghost(before),
            Ghost(parts),
        );
        proof {
            let part = opt_part(
                "IR"@,
                SecurityRequirement::code_of(self.integrity_requirement),
            );
            parts = parts + part;
        }
        push_slot(
            out,
            "AR",
            SecurityRequirement::slot_str(self.availability_requirement),
            Ghost(before),
            Ghost(parts),
        );
        proof {
            let part = opt_part(
                "AR"@,
                SecurityRequirement::code_of(self.availability_requirement),
            );
            parts = parts + part;
        }
    }

    /// Sets the metric that `key` names to the value that `value` stands for.
    /// Key and value are in upper case.
    pub fn set(self, key: &Vec<char>, value: &Vec<char>) -> (r: Result<V2Metrics, ParseError>)
        ensures
            agrees(r, set_metric(self, key@, value@)),
    {
        if is2(key, 'A', 'V') {
            match AccessVector::parse(value) {
                Some(v) => Ok(V2Metrics { access_vector: Some(v), ..self }),
                None => Err(invalid_value(key, value)),
            }
        } else if is2(key, 'A', 'C') {
            match AccessComplexity::parse(value) {
                Some(v) => Ok(V2Metrics { access_complexity: Some(v), ..self }),
                None => Err(invalid_value(key, value)),
            }
        } else if is2(key, 'A', 'U') {
            match Authentication::parse(value) {
                Some(v) => Ok(V2Metrics { authentication: Some(v), ..self }),
                None => Err(invalid_value(key, value)),
            }
        } else if is1(key, 'C') {
            match Impact::parse(value) {
                Some(v) => Ok(V2Metrics { confidentiality_impact: Some(v), ..self }),
                None => Err(invalid_value(key, value)),
            }
        } else if is1(key, 'I') {
            match Impact::parse(value) {
                Some(v) => Ok(V2Metrics { integrity_impact: Some(v), ..self }),
                None => Err(invalid_value(key, value)),
            }
        } else if is1(key, 'A') {
            match Impact::parse(value) {
                Some(v) => Ok(V2Metrics { availability_impact: Some(v), ..self }),
                None => Err(invalid_value(key, value)),
            }
        } else if is1(key, 'E') {
            match Exploitability::parse(value) {
                Some(v) => Ok(V2Metrics { exploitability: Some(v), ..self }),
                None => Err(invalid_value(key, value)),
            }
        } else if is2(key, 'R', 'L') {
            match RemediationLevel::parse(value) {
                Some(v) => Ok(V2Metrics { remediation_level: Some(v), ..self }),
                None => Err(invalid_value(key, value)),
            }
        } else if is2(key, 'R', 'C') {
            match ReportConfidence::parse(value) {
                Some(v) => Ok(V2Metrics { report_confidence: Some(v), ..self }),
                None => Err(invalid_value(key, value)),
            }
        } else if is3(key, 'C', 'D', 'P') {
            match CollateralDamagePotential::parse(value) {
                Some(v) => Ok(V2Metrics { collateral_damage_potential: Some(v), ..self }),
                None => Err(invalid_value(key, value)),
            }
        } else if is2(key, 'T', 'D') {
            match TargetDistribution::parse(value) {
                Some(v) => Ok(V2Metrics { target_distribution: Some(v), ..self }),
                None => Err(invalid_value(key, value)),
            }
        } else if is2(key, 'C', 'R') {
            match SecurityRequirement::parse(value) {
                Some(v) => Ok(V2Metrics { confidentiality_requirement: Some(v), ..self }),
                None => Err(invalid_value(key, value)),
            }
        } else if is2(key, 'I', 'R') {
            match SecurityRequirement::parse(value) {
                Some(v) => Ok(V2Metrics { integrity_requirement: Some(v), ..self }),
                None => Err(invalid_value(key, value)),
            }
        } else if is2(key, 'A', 'R') {
            match SecurityRequirement::parse(value) {
                Some(v) => Ok(V2Metrics { availability_requirement: Some(v), ..self }),
                None => Err(invalid_value(key, value)),
            }
        } else {
            Ok(self)
        }
    }

    /// Reads one segment of a vector into the record. An empty segment changes nothing.
    pub fn read(self, segment: &Vec<char>) -> (r: Result<V2Metrics, ParseError>)
        ensures
            agrees(r, read_component(self, segment@)),
    {
        if segment.len() == 0 {
            return Ok(self);
        }
        match read_key_value(segment) {
            Some((key, value)) => self.set(&key, &value),
            None => Err(ParseError::InvalidComponent { component: to_string(segment) }),
        }
    }
}

/// The record after the metric that `key` names has been set to the value that `value`
/// stands for. Key and value are in upper case. A later value replaces an earlier one.
/// A key that names no metric leaves the record as it is.
pub open spec fn set_metric(m: V2Metrics, key: Seq<char>, value: Seq<char>) -> Result<
    V2Metrics,
    ParseErrorView,
> {
    if spells2(key, 'A', 'V') {
        match AccessVector::from_code(value) {
            Some(v) => Ok(V2Metrics { access_vector: Some(v), ..m }),
            None => Err(ParseErrorView::InvalidMetricValue { metric: key, value }),
        }
    } else if spells2(key, 'A', 'C') {
        match AccessComplexity::from_code(value) {
            Some(v) => Ok(V2Metrics { access_complexity: Some(v), ..m }),
            None => Err(ParseErrorView::InvalidMetricValue { metric: key, value }),
        }
    } else if spells2(key, 'A', 'U') {
        match Authentication::from_code(value) {
            Some(v) => Ok(V2Metrics { authentication: Some(v), ..m }),
            None => Err(ParseErrorView::InvalidMetricValue { metric: key, value }),
        }
    } else if spells1(key, 'C') {
        match Impact::from_code(value) {
            Some(v) => Ok(V2Metrics { confidentiality_impact: Some(v), ..m }),
            None => Err(ParseErrorView::InvalidMetricValue { metric: key, value }),
        }
    } else if spells1(key, 'I') {
        match Impact::from_code(value) {
            Some(v) => Ok(V2Metrics { integrity_impact: Some(v), ..m }),
            None => Err(ParseErrorView::InvalidMetricValue { metric: key, value }),
        }
    } else if spells1(key, 'A') {
        match Impact::from_code(value) {
            Some(v) => Ok(V2Metrics { availability_impact: Some(v), ..m }),
            None => Err(ParseErrorView::InvalidMetricValue { metric: key, value }),
        }
    } else if spells1(key, 'E') {
        match Exploitability::from_code(value) {
            Some(v) => Ok(V2Metrics { exploitability: Some(v), ..m }),
            None => Err(ParseErrorView::InvalidMetricValue { metric: key, value }),
        }
    } else if spells2(key, 'R', 'L') {
        match RemediationLevel::from_code(value) {
            Some(v) => Ok(V2Metrics { remediation_level: Some(v), ..m }),
            None => Err(ParseErrorView::InvalidMetricValue { metric: key, value }),
        }
    } else if spells2(key, 'R', 'C') {
        match ReportConfidence::from_code(value) {
            Some(v) => Ok(V2Metrics { report_confidence: Some(v), ..m }),
            None => Err(ParseErrorView::InvalidMetricValue { metric: key, value }),
        }
    } else if spells3(key, 'C', 'D', 'P') {
        match CollateralDamagePotential::from_code(value) {
            Some(v) => Ok(V2Metrics { collateral_damage_potential: Some(v), ..m }),
            None => Err(ParseErrorView::InvalidMetricValue { metric: key, value }),
        }
    } else if spells2(key, 'T', 'D') {
        match TargetDistribution::from_code(value) {
            Some(v) => Ok(V2Metrics { target_distribution: Some(v), ..m }),
            None => Err(ParseErrorView::InvalidMetricValue { metric: key, value }),
        }
    } else if spells2(key, 'C', 'R') {
        match SecurityRequirement::from_code(value) {
            Some(v) => Ok(V2Metrics { confidentiality_requirement: Some(v), ..m }),
            None => Err(ParseErrorView::InvalidMetricValue { metric: key, value }),
        }
    } else if spells2(key, 'I', 'R') {
        match SecurityRequirement::from_code(value) {
            Some(v) => Ok(V2Metrics { integrity_requirement: Some(v), ..m }),
            None => Err(ParseErrorView::InvalidMetricValue { metric: key, value }),
        }
    } else if spells2(key, 'A', 'R') {
        match SecurityRequirement::from_code(value) {
            Some(v) => Ok(V2Metrics { availability_requirement: Some(v), ..m }),
            None => Err(ParseErrorView::InvalidMetricValue { metric: key, value }),
        }
    } else {
        Ok(m)
    }
}

/// The record after one segment of a vector has been read. An empty segment changes
/// nothing; any other must hold exactly one `:`.
pub open spec fn read_component(m: V2Metrics, segment: Seq<char>) -> Result<
    V2Metrics,
    ParseErrorView,
> {
    if segment.len() == 0 {
        Ok(m)
    } else {
        match key_value(segment) {
            Some((key, value)) => set_metric(m, key, value),
            None => Err(ParseErrorView::InvalidComponent { component: segment }),
        }
    }
}

/// The record after the segments have been read from left to right; the first error ends
/// the reading.
pub open spec fn read_components(m: V2Metrics, segments: Seq<Seq<char>>) -> Result<
    V2Metrics,
    ParseErrorView,
>
    decreases segments.len(),
{
    if segments.len() == 0 {
        Ok(m)
    } else {
        match read_component(m, segments[0]) {
            Ok(next) => read_components(next, segments.drop_first()),
            Err(e) => Err(e),
        }
    }
}

/// What parsing a vector string gives: the metrics it holds, or the first error.
///
/// The string is cut at every `/`. The first segment may read `CVSS:2.0`, the word `CVSS`
/// in any mix of cases; with another version after the word the vector is refused. Every
/// other segment is empty or holds a key, one `:` and a value, both in any mix of cases.
/// A segment whose key names no metric is passed over.
pub open spec fn parse_metrics(s: Seq<char>) -> Result<V2Metrics, ParseErrorView> {
    let segments = split(s, '/');
    match prefix_version(segments[0]) {
        Ok(version) => if spells3(version, '2', '.', '0') {
            read_components(V2Metrics::empty(), segments.drop_first())
        } else {
            Err(ParseErrorView::InvalidVersion { version })
        },
        Err(_) => read_components(V2Metrics::empty(), segments),
    }
}

/// The canonical vector string of the metrics: the metrics that are present, each as
/// `KEY:VALUE`, in the canonical order, with `/` between them.
pub open spec fn render_metrics(m: V2Metrics) -> Seq<char> {
    join(m.parts(), '/')
}

/// Parsing the canonical rendering of any record gives back its metric values.
pub proof fn lemma_round_trip(m: V2Metrics)
    ensures
        parse_metrics(render_metrics(m)) == Ok::<V2Metrics, ParseErrorView>(m),
{
    lemma_read_parts(m);
    if m.parts().len() == 0 {
        lemma_split_free(Seq::empty(), '/');
        lemma_split_free(Seq::empty(), ':');
        lemma_read_cons(V2Metrics::empty(), Seq::empty(), Seq::empty());
        let blank = seq![Seq::<char>::empty()];
        assert(blank + Seq::<Seq<char>>::empty() =~= blank);
    } else {
        lemma_split_join(m.parts(), '/');
        assert(plain(m.parts()[0]));
    }
}

/// The error for a value that the metric `key` does not have.
fn invalid_value(key: &Vec<char>, value: &Vec<char>) -> (e: ParseError)
    ensures
        e@ == (ParseErrorView::InvalidMetricValue { metric: key@, value: value@ }),
{
    ParseError::InvalidMetricValue { metric: to_string(key), value: to_string(value) }
}

/// Reading `first` and then `rest` is reading `first` and going on from its result.
pub proof fn lemma_read_cons(m: V2Metrics, first: Seq<char>, rest: Seq<Seq<char>>)
    ensures
        read_components(m, seq![first] + rest) == match read_component(m, first) {
            Ok(next) => read_components(next, rest),
            Err(e) => Err(e),
        },
{
    let all = seq![first] + rest;
    assert(all[0] == first);
    assert(all.drop_first() =~= rest);
}

/// Reading `a + b` is reading `a` and going on with `b` from its result.
pub proof fn lemma_read_concat(m: V2Metrics, a: Seq<Seq<char>>, b: Seq<Seq<char>>)
    ensures
        read_components(m, a + b) == match read_components(m, a) {
            Ok(next) => read_components(next, b),
            Err(e) => Err(e),
        },
    decreases a.len(),
{
    if a.len() == 0 {
        assert(a + b =~= b);
    } else {
        assert((a + b)[0] == a[0]);
        assert((a + b).drop_first() =~= a.drop_first() + b);
        match read_component(m, a[0]) {
            Ok(next) => lemma_read_concat(next, a.drop_first(), b),
            Err(e) => {},
        }
    }
}

/// Reading fails only with an error of a kind that parsing raises.
pub proof fn lemma_read_errors(m: V2Metrics, segments: Seq<Seq<char>>)
    ensures
        match read_components(m, segments) {
            Ok(_) => true,
            Err(e) => raised(e),
        },
    decreases segments.len(),
{
    if segments.len() > 0 {
        match read_component(m, segments[0]) {
            Ok(next) => lemma_read_errors(next, segments.drop_first()),
            Err(e) => {},
        }
    }
}

/// Parsing fails only with an error of a kind that parsing raises: never with one of the
/// reserved kinds, for a metric that is missing or given twice.
pub proof fn lemma_parse_errors(s: Seq<char>)
    ensures
        match parse_metrics(s) {
            Ok(_) => true,
            Err(e) => raised(e),
        },
{
    lemma_read_errors(V2Metrics::empty(), split(s, '/'));
    lemma_read_errors(V2Metrics::empty(), split(s, '/').drop_first());
}

/// Reading the rendering of one metric slot sets that metric, or changes nothing where
/// the slot is empty.
pub proof fn lemma_read_part(m: V2Metrics, key: Seq<char>, code: Seq<char>)
    requires
        free_of(key, ':'),
        free_of(code, ':'),
    ensures
        read_components(m, seq![component(key, code)]) == set_metric(m, upper(key), upper(code)),
{
    let c = component(key, code);
    lemma_key_value_of(key, code);
    lemma_read_cons(m, c, Seq::empty());
    assert(seq![c] + Seq::<Seq<char>>::empty() =~= seq![c]);
    assert(c.len() > 0);
}

proof fn lemma_read_access_vector(m: V2Metrics, value: Option<AccessVector>)
    ensures
        read_components(m, opt_part("AV"@, AccessVector::code_of(value)))
            == Ok::<V2Metrics, ParseErrorView>(
            match value {
                Some(v) => V2Metrics { access_vector: Some(v), ..m },
                None => m,
            },
        ),
        all_free_of(opt_part("AV"@, AccessVector::code_of(value)), '/'),
        all_plain(opt_part("AV"@, AccessVector::code_of(value))),
{
    reveal_strlit("AV");
    let key = "AV"@;
    assert(key =~= seq!['A', 'V']);
    match value {
        Some(v) => {
            v.lemma_code();
            lemma_read_part(m, key, v.code());
            lemma_component_plain(key, v.code());
            assert(upper(key) =~= seq!['A', 'V']);
        },
        None => {},
    }
}

proof fn lemma_read_access_complexity(m: V2Metrics, value: Option<AccessComplexity>)
    ensures
        read_components(m, opt_part("AC"@, AccessComplexity::code_of(value)))
            == Ok::<V2Metrics, ParseErrorView>(
            match value {
                Some(v) => V2Metrics { access_complexity: Some(v), ..m },
                None => m,
            },
        ),
        all_free_of(opt_part("AC"@, AccessComplexity::code_of(value)), '/'),
        all_plain(opt_part("AC"@, AccessComplexity::code_of(value))),
{
    reveal_strlit("AC");
    let key = "AC"@;
    assert(key =~= seq!['A', 'C']);
    match value {
        Some(v) => {
            v.lemma_code();
            lemma_read_part(m, key, v.code());
            lemma_component_plain(key, v.code());
            assert(upper(key) =~= seq!['A', 'C']);
        },
        None => {},
    }
}

proof fn lemma_read_authentication(m: V2Metrics, value: Option<Authentication>)
    ensures
        read_components(m, opt_part("Au"@, Authentication::code_of(value)))
            == Ok::<V2Metrics, ParseErrorView>(
            match value {
                Some(v) => V2Metrics { authentication: Some(v), ..m },
                None => m,
            },
        ),
        all_free_of(opt_part("Au"@, Authentication::code_of(value)), '/'),
        all_plain(opt_part("Au"@, Authentication::code_of(value))),
{
    reveal_strlit("Au");
    let key = "Au"@;
    assert(key =~= seq!['A', 'u']);
    match value {
        Some(v) => {
            v.lemma_code();
            lemma_read_part(m, key, v.code());
            lemma_component_plain(key, v.code());
            assert(upper(key) =~= seq!['A', 'U']);
        },
        None => {},
    }
}

proof fn lemma_read_confidentiality_impact(m: V2Metrics, value: Option<Impact>)
    ensures
        read_components(m, opt_part("C"@, Impact::code_of(value)))
            == Ok::<V2Metrics, ParseErrorView>(
            match value {
                Some(v) => V2Metrics { confidentiality_impact: Some(v), ..m },
                None => m,
            },
        ),
        all_free_of(opt_part("C"@, Impact::code_of(value)), '/'),
        all_plain(opt_part("C"@, Impact::code_of(value))),
{
    reveal_strlit("C");
    let key = "C"@;
    assert(key =~= seq!['C']);
    match value {
        Some(v) => {
            v.lemma_code();
            lemma_read_part(m, key, v.code());
            lemma_component_plain(key, v.code());
            assert(upper(key) =~= seq!['C']);
        },
        None => {},
    }
}

proof fn lemma_read_integrity_impact(m: V2Metrics, value: Option<Impact>)
    ensures
        read_components(m, opt_part("I"@, Impact::code_of(value)))
            == Ok::<V2Metrics, ParseErrorView>(
            match value {
                Some(v) => V2Metrics { integrity_impact: Some(v), ..m },
                None => m,
            },
        ),
        all_free_of(opt_part("I"@, Impact::code_of(value)), '/'),
        all_plain(opt_part("I"@, Impact::code_of(value))),
{
    reveal_strlit("I");
    let key = "I"@;
    assert(key =~= seq!['I']);
    match value {
        Some(v) => {
            v.lemma_code();
            lemma_read_part(m, key, v.code());
            lemma_component_plain(key, v.code());
            assert(upper(key) =~= seq!['I']);
        },
        None => {},
    }
}

proof fn lemma_read_availability_impact(m: V2Metrics, value: Option<Impact>)
    ensures
        read_components(m, opt_part("A"@, Impact::code_of(value)))
            == Ok::<V2Metrics, ParseErrorView>(
            match value {
                Some(v) => V2Metrics { availability_impact: Some(v), ..m },
                None => m,
            },
        ),
        all_free_of(opt_part("A"@, Impact::code_of(value)), '/'),
        all_plain(opt_part("A"@, Impact::code_of(value))),
{
    reveal_strlit("A");
    let key = "A"@;
    assert(key =~= seq!['A']);
    match value {
        Some(v) => {
            v.lemma_code();
            lemma_read_part(m, key, v.code());
            lemma_component_plain(key, v.code());
            assert(upper(key) =~= seq!['A']);
        },
        None => {},
    }
}

proof fn lemma_read_exploitability(m: V2Metrics, value: Option<Exploitability>)
    ensures
        read_components(m, opt_part("E"@, Exploitability::code_of(value)))
            == Ok::<V2Metrics, ParseErrorView>(
            match value {
                Some(v) => V2Metrics { exploitability: Some(v), ..m },
                None => m,
            },
        ),
        all_free_of(opt_part("E"@, Exploitability::code_of(value)), '/'),
        all_plain(opt_part("E"@, Exploitability::code_of(value))),
{
    reveal_strlit("E");
    let key = "E"@;
    assert(key =~= seq!['E']);
    match value {
        Some(v) => {
            v.lemma_code();
            lemma_read_part(m, key, v.code());
            lemma_component_plain(key, v.code());
            assert(upper(key) =~= seq!['E']);
        },
        None => {},
    }
}

proof fn lemma_read_remediation_level(m: V2Metrics, value: Option<RemediationLevel>)
    ensures
        read_components(m, opt_part("RL"@, RemediationLevel::code_of(value)))
            == Ok::<V2Metrics, ParseErrorView>(
            match value {
                Some(v) => V2Metrics { remediation_level: Some(v), ..m },
                None => m,
            },
        ),
        all_free_of(opt_part("RL"@, RemediationLevel::code_of(value)), '/'),
        all_plain(opt_part("RL"@, RemediationLevel::code_of(value))),
{
    reveal_strlit("RL");
    let key = "RL"@;
    assert(key =~= seq!['R', 'L']);
    match value {
        Some(v) => {
            v.lemma_code();
            lemma_read_part(m, key, v.code());
            lemma_component_plain(key, v.code());
            assert(upper(key) =~= seq!['R', 'L']);
        },
        None => {},
    }
}

proof fn lemma_read_report_confidence(m: V2Metrics, value: Option<ReportConfidence>)
    ensures
        read_components(m, opt_part("RC"@, ReportConfidence::code_of(value)))
            == Ok::<V2Metrics, ParseErrorView>(
            match value {
                Some(v) => V2Metrics { report_confidence: Some(v), ..m },
                None => m,
            },
        ),
        all_free_of(opt_part("RC"@, ReportConfidence::code_of(value)), '/'),
        all_plain(opt_part("RC"@, ReportConfidence::code_of(value))),
{
    reveal_strlit("RC");
    let key = "RC"@;
    assert(key =~= seq!['R', 'C']);
    match value {
        Some(v) => {
            v.lemma_code();
            lemma_read_part(m, key, v.code());
            lemma_component_plain(key, v.code());
            assert(upper(key) =~= seq!['R', 'C']);
        },
        None => {},
    }
}

proof fn lemma_read_collateral_damage_potential(
    m: V2Metrics,
    value: Option<CollateralDamagePotential>,
)
    ensures
        read_components(m, opt_part("CDP"@, CollateralDamagePotential::code_of(value)))
            == Ok::<V2Metrics, ParseErrorView>(
            match value {
                Some(v) => V2Metrics { collateral_damage_potential: Some(v), ..m },
                None => m,
            },
        ),
        all_free_of(opt_part("CDP"@, CollateralDamagePotential::code_of(value)), '/'),
        all_plain(opt_part("CDP"@, CollateralDamagePotential::code_of(value))),
{
    reveal_strlit("CDP");
    let key = "CDP"@;
    assert(key =~= seq!['C', 'D', 'P']);
    match value {
        Some(v) => {
            v.lemma_code();
            lemma_read_part(m, key, v.code());
            lemma_component_plain(key, v.code());
            assert(upper(key) =~= seq!['C', 'D', 'P']);
        },
        None => {},
    }
}

proof fn lemma_read_target_distribution(m: V2Metrics, value: Option<TargetDistribution>)
    ensures
        read_components(m, opt_part("TD"@, TargetDistribution::code_of(value)))
            == Ok::<V2Metrics, ParseErrorView>(
            match value {
                Some(v) => V2Metrics { target_distribution: Some(v), ..m },
                None => m,
            },
        ),
        all_free_of(opt_part("TD"@, TargetDistribution::code_of(value)), '/'),
        all_plain(opt_part("TD"@, TargetDistribution::code_of(value))),
{
    reveal_strlit("TD");
    let key = "TD"@;
    assert(key =~= seq!['T', 'D']);
    match value {
        Some(v) => {
            v.lemma_code();
            lemma_read_part(m, key, v.code());
            lemma_component_plain(key, v.code());
            assert(upper(key) =~= seq!['T', 'D']);
        },
        None => {},
    }
}

proof fn lemma_read_confidentiality_requirement(m: V2Metrics, value: Option<SecurityRequirement>)
    ensures
        read_components(m, opt_part("CR"@, SecurityRequirement::code_of(value)))
            == Ok::<V2Metrics, ParseErrorView>(
            match value {
                Some(v) => V2Metrics { confidentiality_requirement: Some(v), ..m },
                None => m,
            },
        ),
        all_free_of(opt_part("CR"@, SecurityRequirement::code_of(value)), '/'),
        all_plain(opt_part("CR"@, SecurityRequirement::code_of(value))),
{
    reveal_strlit("CR");
    let key = "CR"@;
    assert(key =~= seq!['C', 'R']);
    match value {
        Some(v) => {
            v.lemma_code();
            lemma_read_part(m, key, v.code());
            lemma_component_plain(key, v.code());
            assert(upper(key) =~= seq!['C', 'R']);
        },
        None => {},
    }
}

proof fn lemma_read_integrity_requirement(m: V2Metrics, value: Option<SecurityRequirement>)
    ensures
        read_components(m, opt_part("IR"@, SecurityRequirement::code_of(value)))
            == Ok::<V2Metrics, ParseErrorView>(
            match value {
                Some(v) => V2Metrics { integrity_requirement: Some(v), ..m },
                None => m,
            },
        ),
        all_free_of(opt_part("IR"@, SecurityRequirement::code_of(value)), '/'),
        all_plain(opt_part("IR"@, SecurityRequirement::code_of(value))),
{
    reveal_strlit("IR");
    let key = "IR"@;
    assert(key =~= seq!['I', 'R']);
    match value {
        Some(v) => {
            v.lemma_code();
            lemma_read_part(m, key, v.code());
            lemma_component_plain(key, v.code());
            assert(upper(key) =~= seq!['I', 'R']);
        },
        None => {},
    }
}

proof fn lemma_read_availability_requirement(m: V2Metrics, value: Option<SecurityRequirement>)
    ensures
        read_components(m, opt_part("AR"@, SecurityRequirement::code_of(value)))
            == Ok::<V2Metrics, ParseErrorView>(
            match value {
                Some(v) => V2Metrics { availability_requirement: Some(v), ..m },
                None => m,
            },
        ),
        all_free_of(opt_part("AR"@, SecurityRequirement::code_of(value)), '/'),
        all_plain(opt_part("AR"@, SecurityRequirement::code_of(value))),
{
    reveal_strlit("AR");
    let key = "AR"@;
    assert(key =~= seq!['A', 'R']);
    match value {
        Some(v) => {
            v.lemma_code();
            lemma_read_part(m, key, v.code());
            lemma_component_plain(key, v.code());
            assert(upper(key) =~= seq!['A', 'R']);
        },
        None => {},
    }
}

/// Reading the rendered base metrics of `m` into a record that has none of them sets them
/// as they are in `m`.
proof fn lemma_read_base(start: V2Metrics, m: V2Metrics)
    requires
        start.access_vector is None,
        start.access_complexity is None,
        start.authentication is None,
        start.confidentiality_impact is None,
        start.integrity_impact is None,
        start.availability_impact is None,
    ensures
        read_components(start, m.base_parts()) == Ok::<V2Metrics, ParseErrorView>(
            V2Metrics {
                access_vector: m.access_vector,
                access_complexity: m.access_complexity,
                authentication: m.authentication,
                confidentiality_impact: m.confidentiality_impact,
                integrity_impact: m.integrity_impact,
                availability_impact: m.availability_impact,
                ..start
            },
        ),
        all_free_of(m.base_parts(), '/'),
        all_plain(m.base_parts()),
{
    let seg1 = opt_part("AV"@, AccessVector::code_of(m.access_vector));
    let rec1 = V2Metrics { access_vector: m.access_vector, ..start };
    lemma_read_access_vector(start, m.access_vector);
    let all1 = seg1;
    assert(read_components(start, all1) == Ok::<V2Metrics, ParseErrorView>(rec1));
    let seg2 = opt_part("AC"@, AccessComplexity::code_of(m.access_complexity));
    let rec2 = V2Metrics { access_complexity: m.access_complexity, ..rec1 };
    lemma_read_access_complexity(rec1, m.access_complexity);
    let all2 = all1 + seg2;
    lemma_read_concat(start, all1, seg2);
    lemma_all_free_concat(all1, seg2, '/');
    lemma_all_plain_concat(all1, seg2);
    assert(read_components(start, all2) == Ok::<V2Metrics, ParseErrorView>(rec2));
    let seg3 = opt_part("Au"@, Authentication::code_of(m.authentication));
    let rec3 = V2Metrics { authentication: m.authentication, ..rec2 };
    lemma_read_authentication(rec2, m.authentication);
    let all3 = all2 + seg3;
    lemma_read_concat(start, all2, seg3);
    lemma_all_free_concat(all2, seg3, '/');
    lemma_all_plain_concat(all2, seg3);
    assert(read_components(start, all3) == Ok::<V2Metrics, ParseErrorView>(rec3));
    let seg4 = opt_part("C"@, Impact::code_of(m.confidentiality_impact));
    let rec4 = V2Metrics { confidentiality_impact: m.confidentiality_impact, ..rec3 };
    lemma_read_confidentiality_impact(rec3, m.confidentiality_impact);
    let all4 = all3 + seg4;
    lemma_read_concat(start, all3, seg4);
    lemma_all_free_concat(all3, seg4, '/');
    lemma_all_plain_concat(all3, seg4);
    assert(read_components(start, all4) == Ok::<V2Metrics, ParseErrorView>(rec4));
    let seg5 = opt_part("I"@, Impact::code_of(m.integrity_impact));
    let rec5 = V2Metrics { integrity_impact: m.integrity_impact, ..rec4 };
    lemma_read_integrity_impact(rec4, m.integrity_impact);
    let all5 = all4 + seg5;
    lemma_read_concat(start, all4, seg5);
    lemma_all_free_concat(all4, seg5, '/');
    lemma_all_plain_concat(all4, seg5);
    assert(read_components(start, all5) == Ok::<V2Metrics, ParseErrorView>(rec5));
    let seg6 = opt_part("A"@, Impact::code_of(m.availability_impact));
    let rec6 = V2Metrics { availability_impact: m.availability_impact, ..rec5 };
    lemma_read_availability_impact(rec5, m.availability_impact);
    let all6 = all5 + seg6;
    lemma_read_concat(start, all5, seg6);
    lemma_all_free_concat(all5, seg6, '/');
    lemma_all_plain_concat(all5, seg6);
    assert(read_components(start, all6) == Ok::<V2Metrics, ParseErrorView>(rec6));
}

/// Reading the rendered temporal metrics of `m` into a record that has none of them sets them
/// as they are in `m`.
proof fn lemma_read_temporal(start: V2Metrics, m: V2Metrics)
    requires
        start.exploitability is None,
        start.remediation_level is None,
        start.report_confidence is None,
    ensures
        read_components(start, m.temporal_parts()) == Ok::<V2Metrics, ParseErrorView>(
            V2Metrics {
                exploitability: m.exploitability,
                remediation_level: m.remediation_level,
                report_confidence: m.report_confidence,
                ..start
            },
        ),
        all_free_of(m.temporal_parts(), '/'),
        all_plain(m.temporal_parts()),
{
    let seg1 = opt_part("E"@, Exploitability::code_of(m.exploitability));
    let rec1 = V2Metrics { exploitability: m.exploitability, ..start };
    lemma_read_exploitability(start, m.exploitability);
    let all1 = seg1;
    assert(read_components(start, all1) == Ok::<V2Metrics, ParseErrorView>(rec1));
    let seg2 = opt_part("RL"@, RemediationLevel::code_of(m.remediation_level));
    let rec2 = V2Metrics { remediation_level: m.remediation_level, ..rec1 };
    lemma_read_remediation_level(rec1, m.remediation_level);
    let all2 = all1 + seg2;
    lemma_read_concat(start, all1, seg2);
    lemma_all_free_concat(all1, seg2, '/');
    lemma_all_plain_concat(all1, seg2);
    assert(read_components(start, all2) == Ok::<V2Metrics, ParseErrorView>(rec2));
    let seg3 = opt_part("RC"@, ReportConfidence::code_of(m.report_confidence));
    let rec3 = V2Metrics { report_confidence: m.report_confidence, ..rec2 };
    lemma_read_report_confidence(rec2, m.report_confidence);
    let all3 = all2 + seg3;
    lemma_read_concat(start, all2, seg3);
    lemma_all_free_concat(all2, seg3, '/');
    lemma_all_plain_concat(all2, seg3);
    assert(read_components(start, all3) == Ok::<V2Metrics, ParseErrorView>(rec3));
}

/// Reading the rendered environmental metrics of `m` into a record that has none of them sets them
/// as they are in `m`.
proof fn lemma_read_environmental(start: V2Metrics, m: V2Metrics)
    requires
        start.collateral_damage_potential is None,
        start.target_distribution is None,
        start.confidentiality_requirement is None,
        start.integrity_requirement is None,
        start.availability_requirement is None,
    ensures
        read_components(start, m.environmental_parts()) == Ok::<V2Metrics, ParseErrorView>(
            V2Metrics {
                collateral_damage_potential: m.collateral_damage_potential,
                target_distribution: m.target_distribution,
                confidentiality_requirement: m.confidentiality_requirement,
                integrity_requirement: m.integrity_requirement,
                availability_requirement: m.availability_requirement,
                ..start
            },
        ),
        all_free_of(m.environmental_parts(), '/'),
        all_plain(m.environmental_parts()),
{
    let seg1 = opt_part("CDP"@, CollateralDamagePotential::code_of(m.collateral_damage_potential));
    let rec1 = V2Metrics { collateral_damage_potential: m.collateral_damage_potential, ..start };
    lemma_read_collateral_damage_potential(start, m.collateral_damage_potential);
    let all1 = seg1;
    assert(read_components(start, all1) == Ok::<V2Metrics, ParseErrorView>(rec1));
    let seg2 = opt_part("TD"@, TargetDistribution::code_of(m.target_distribution));
    let rec2 = V2Metrics { target_distribution: m.target_distribution, ..rec1 };
    lemma_read_target_distribution(rec1, m.target_distribution);
    let all2 = all1 + seg2;
    lemma_read_concat(start, all1, seg2);
    lemma_all_free_concat(all1, seg2, '/');
    lemma_all_plain_concat(all1, seg2);
    assert(read_components(start, all2) == Ok::<V2Metrics, ParseErrorView>(rec2));
    let seg3 = opt_part("CR"@, SecurityRequirement::code_of(m.confidentiality_requirement));
    let rec3 = V2Metrics { confidentiality_requirement: m.confidentiality_requirement, ..rec2 };
    lemma_read_confidentiality_requirement(rec2, m.confidentiality_requirement);
    let all3 = all2 + seg3;
    lemma_read_concat(start, all2, seg3);
    lemma_all_free_concat(all2, seg3, '/');
    lemma_all_plain_concat(all2, seg3);
    assert(read_components(start, all3) == Ok::<V2Metrics, ParseErrorView>(rec3));
    let seg4 = opt_part("IR"@, SecurityRequirement::code_of(m.integrity_requirement));
    let rec4 = V2Metrics { integrity_requirement: m.integrity_requirement, ..rec3 };
    lemma_read_integrity_requirement(rec3, m.integrity_requirement);
    let all4 = all3 + seg4;
    lemma_read_concat(start, all3, seg4);
    lemma_all_free_concat(all3, seg4, '/');
    lemma_all_plain_concat(all3, seg4);
    assert(read_components(start, all4) == Ok::<V2Metrics, ParseErrorView>(rec4));
    let seg5 = opt_part("AR"@, SecurityRequirement::code_of(m.availability_requirement));
    let rec5 = V2Metrics { availability_requirement: m.availability_requirement, ..rec4 };
    lemma_read_availability_requirement(rec4, m.availability_requirement);
    let all5 = all4 + seg5;
    lemma_read_concat(start, all4, seg5);
    lemma_all_free_concat(all4, seg5, '/');
    lemma_all_plain_concat(all4, seg5);
    assert(read_components(start, all5) == Ok::<V2Metrics, ParseErrorView>(rec5));
}

/// Reading the components of a record's rendering into the empty record gives the record,
/// and none of the components holds a `/`.
pub proof fn lemma_read_parts(m: V2Metrics)
    ensures
        read_components(V2Metrics::empty(), m.parts()) == Ok::<V2Metrics, ParseErrorView>(m),
        all_free_of(m.parts(), '/'),
        all_plain(m.parts()),
{
    let none = V2Metrics::empty();
    let seg1 = m.base_parts();
    let rec1 = V2Metrics {
        access_vector: m.access_vector,
        access_complexity: m.access_complexity,
        authentication: m.authentication,
        confidentiality_impact: m.confidentiality_impact,
        integrity_impact: m.integrity_impact,
        availability_impact: m.availability_impact,
        ..none
    };
    lemma_read_base(none, m);
    let all1 = seg1;
    assert(read_components(none, all1) == Ok::<V2Metrics, ParseErrorView>(rec1));
    let seg2 = m.temporal_parts();
    let rec2 = V2Metrics {
        exploitability: m.exploitability,
        remediation_level: m.remediation_level,
        report_confidence: m.report_confidence,
        ..rec1
    };
    lemma_read_temporal(rec1, m);
    let all2 = all1 + seg2;
    lemma_read_concat(none, all1, seg2);
    lemma_all_free_concat(all1, seg2, '/');
    lemma_all_plain_concat(all1, seg2);
    assert(read_components(none, all2) == Ok::<V2Metrics, ParseErrorView>(rec2));
    let seg3 = m.environmental_parts();
    let rec3 = V2Metrics {
        collateral_damage_potential: m.collateral_damage_potential,
        target_distribution: m.target_distribution,
        confidentiality_requirement: m.confidentiality_requirement,
        integrity_requirement: m.integrity_requirement,
        availability_requirement: m.availability_requirement,
        ..rec2
    };
    lemma_read_environmental(rec2, m);
    let all3 = all2 + seg3;
    lemma_read_concat(none, all2, seg3);
    lemma_all_free_concat(all2, seg3, '/');
    lemma_all_plain_concat(all2, seg3);
    assert(read_components(none, all3) == Ok::<V2Metrics, ParseErrorView>(rec3));
    assert(rec3 == m);
}

impl CvssV2 {
    /// The vector string as it was given.
    pub fn vector_string(&self) -> (r: &str)
        ensures
            r@ == self.vector_string@,
    {
        self.vector_string.as_str()
    }

    /// The reported base score.
    pub fn base_score(&self) -> (r: Score)
        ensures
            r == self.base_score,
    {
        self.base_score
    }

    /// The reported severity.
    pub fn base_severity(&self) -> (r: Option<crate::Severity>)
        ensures
            r == match self.severity {
                Some(s) => Some(s.unified()),
                None => None,
            },
    {
        match self.severity {
            Some(s) => Some(s.unified()),
            None => None,
        }
    }

    /// The metric slots of the record.
    pub open spec fn spec_metrics(&self) -> V2Metrics {
        V2Metrics {
            access_vector: self.access_vector,
            access_complexity: self.access_complexity,
            authentication: self.authentication,
            confidentiality_impact: self.confidentiality_impact,
            integrity_impact: self.integrity_impact,
            availability_impact: self.availability_impact,
            exploitability: self.exploitability,
            remediation_level: self.remediation_level,
            report_confidence: self.report_confidence,
            collateral_damage_potential: self.collateral_damage_potential,
            target_distribution: self.target_distribution,
            confidentiality_requirement: self.confidentiality_requirement,
            integrity_requirement: self.integrity_requirement,
            availability_requirement: self.availability_requirement,
        }
    }

    /// The metric slots of the record.
    #[verifier::when_used_as_spec(spec_metrics)]
    pub fn metrics(&self) -> (r: V2Metrics)
        ensures
            r == self.spec_metrics(),
    {
        V2Metrics {
            access_vector: self.access_vector,
            access_complexity: self.access_complexity,
            authentication: self.authentication,
            confidentiality_impact: self.confidentiality_impact,
            integrity_impact: self.integrity_impact,
            availability_impact: self.availability_impact,
            exploitability: self.exploitability,
            remediation_level: self.remediation_level,
            report_confidence: self.report_confidence,
            collateral_damage_potential: self.collateral_damage_potential,
            target_distribution: self.target_distribution,
            confidentiality_requirement: self.confidentiality_requirement,
            integrity_requirement: self.integrity_requirement,
            availability_requirement: self.availability_requirement,
        }
    }

    /// Whether the record reports no score: its reported base score is 0.0 and it holds no
    /// other reported value.
    pub open spec fn unscored(&self) -> bool {
        self.severity == None::<Severity>
            && self.base_score == (Score { tenths: 0 })
            && self.temporal_score == None::<Score>
            && self.environmental_score == None::<Score>
    }

    /// The record that holds the given metrics, with the vector string as given and no
    /// reported score.
    pub fn from_metrics(vector_string: String, m: V2Metrics) -> (r: CvssV2)
        ensures
            r.metrics() == m,
            r.vector_string == vector_string,
            r.unscored(),
    {
        CvssV2 {
            vector_string,
            severity: None::<Severity>,
            base_score: Score { tenths: 0 },
            temporal_score: None::<Score>,
            environmental_score: None::<Score>,
            access_vector: m.access_vector,
            access_complexity: m.access_complexity,
            authentication: m.authentication,
            confidentiality_impact: m.confidentiality_impact,
            integrity_impact: m.integrity_impact,
            availability_impact: m.availability_impact,
            exploitability: m.exploitability,
            remediation_level: m.remediation_level,
            report_confidence: m.report_confidence,
            collateral_damage_potential: m.collateral_damage_potential,
            target_distribution: m.target_distribution,
            confidentiality_requirement: m.confidentiality_requirement,
            integrity_requirement: m.integrity_requirement,
            availability_requirement: m.availability_requirement,
        }
    }

    /// Parses a CVSS v2.0 vector string. The record keeps the string as it was given and
    /// reports no score.
    pub fn parse(s: &str) -> (r: Result<CvssV2, ParseError>)
        ensures
            match r {
                Ok(c) => parse_metrics(s@) == Ok::<V2Metrics, ParseErrorView>(c.metrics())
                    && c.vector_string@ == s@ && c.unscored(),
                Err(e) => parse_metrics(s@) == Err::<V2Metrics, ParseErrorView>(e@),
            },
    {
        let chars = to_chars(s);
        let n = chars.len();
        let first_end = find(&chars, 0, '/');
        let first = copy_range(&chars, 0, first_end);
        proof {
            assert(chars@.skip(0) =~= chars@);
            lemma_split_at(chars@, 0, first_end as int, '/');
            if first_end < n {
                assert((seq![first@] + split(chars@.skip(first_end + 1), '/')).drop_first()
                    =~= split(chars@.skip(first_end + 1), '/'));
                lemma_read_cons(V2Metrics::empty(), first@, split(chars@.skip(first_end + 1), '/'));
            } else {
                assert(seq![first@].drop_first() =~= Seq::<Seq<char>>::empty());
                lemma_read_cons(V2Metrics::empty(), first@, Seq::empty());
                assert(seq![first@] + Seq::<Seq<char>>::empty() =~= seq![first@]);
            }
        }
        let mut m = match read_prefix_version(&first) {
            Ok(version) => {
                if !is3(&version, '2', '.', '0') {
                    return Err(ParseError::InvalidVersion { version: to_string(&version) });
                }
                V2Metrics::empty()
            },
            Err(_) => match V2Metrics::empty().read(&first) {
                Ok(m) => m,
                Err(e) => {
                    return Err(e);
                },
            },
        };
        let mut pos = first_end;
        while pos < n
            invariant
                pos <= n,
                n == chars.len(),
                chars@ == s@,
                pos < n ==> chars@[pos as int] == '/',
                parse_metrics(s@) == (if pos < n {
                    read_components(m, split(chars@.skip(pos + 1), '/'))
                } else {
                    Ok::<V2Metrics, ParseErrorView>(m)
                }),
            decreases n - pos,
        {
            let start = pos + 1;
            let end = find(&chars, start, '/');
            let segment = copy_range(&chars, start, end);
            proof {
                lemma_split_at(chars@, start as int, end as int, '/');
                if end < n {
                    lemma_read_cons(m, segment@, split(chars@.skip(end + 1), '/'));
                } else {
                    lemma_read_cons(m, segment@, Seq::empty());
                    assert(seq![segment@] + Seq::<Seq<char>>::empty() =~= seq![segment@]);
                }
            }
            match m.read(&segment) {
                Ok(next) => {
                    m = next;
                },
                Err(e) => {
                    return Err(e);
                },
            }
            pos = end;
        }
        Ok(CvssV2::from_metrics(s.to_owned(), m))
    }

    /// The canonical vector string of the record: the metrics that are present, each as
    /// `KEY:VALUE`, in the canonical order, with `/` between them.
    pub fn to_string(&self) -> (r: String)
        ensures
            r@ == render_metrics(self.metrics()),
    {
        let m = self.metrics();
        let mut out: Vec<char> = Vec::new();
        m.push_base(&mut out);
        m.push_temporal(&mut out);
        m.push_environmental(&mut out);
        proof {
            lemma_chain_concat(m.base_parts(), m.temporal_parts(), '/');
            lemma_chain_concat(m.base_parts() + m.temporal_parts(), m.environmental_parts(), '/');
            assert(out@ =~= chain(m.parts(), '/'));
            if m.parts().len() > 0 {
                lemma_chain_join(m.parts(), '/');
            }
        }
        if out.len() == 0 {
            proof {
                if m.parts().len() > 0 {
                    assert(chain(m.parts(), '/')[0] == '/');
                }
            }
            return String::new();
        }
        proof {
            if m.parts().len() == 0 {
                assert(chain(m.parts(), '/').len() == 0);
            }
        }
        let body = copy_range(&out, 1, out.len());
        assert(body@ =~= join(m.parts(), '/'));
        to_string(&body)
    }
}

impl std::str::FromStr for CvssV2 {
    type Err = ParseError;

    fn from_str(s: &str) -> (r: Result<CvssV2, ParseError>)
        ensures
            match r {
                Ok(c) => parse_metrics(s@) == Ok::<V2Metrics, ParseErrorView>(c.metrics())
                    && c.vector_string@ == s@ && c.unscored(),
                Err(e) => parse_metrics(s@) == Err::<V2Metrics, ParseErrorView>(e@),
            },
    {
        CvssV2::parse(s)
    }
}

} // verus!

//! Represents the CVSS v4.0 specification.

use vstd::prelude::*;
use crate::grammar::{
    agrees, component, key_value, lemma_key_value_of, opt_part, prefix_version, push_slot, raised,
    read_key_value, read_prefix_version, str_view,
};
use crate::score::Score;
use crate::text::{
    all_free_of, chain, copy_range, find, free_of, is1, is2, is3, is5, join, lemma_all_free_concat,
    lemma_chain_concat, lemma_join_chain, lemma_split_at, lemma_split_cons, lemma_split_free,
    lemma_split_join, push_str, spells1, spells2, spells3, spells5, split, to_chars, to_string,
    upper,
};
use crate::{ParseError, ParseErrorView};

pub mod lookup;
pub mod score;
pub mod scoring;

pub use score::Nomenclature;

verus! {

/// Represents a CVSS v4.0 score object.
#[derive(Clone, Debug, PartialEq, Eq)]
pub struct CvssV4 {
    /// The CVSS vector string.
    pub vector_string: String,
    /// The reported base score, a value between 0.0 and 10.0.
    pub base_score: Score,
    /// The reported qualitative severity rating for the base score.
    pub base_severity: Severity,
    // --- Base ---
    /// Attack Vector (AV).
    pub attack_vector: Option<AttackVector>,
    /// Attack Complexity (AC).
    pub attack_complexity: Option<AttackComplexity>,
    /// Attack Requirements (AT).
    pub attack_requirements: Option<AttackRequirements>,
    /// Privileges Required (PR).
    pub privileges_required: Option<PrivilegesRequired>,
    /// User Interaction (UI).
    pub user_interaction: Option<UserInteraction>,
    /// Vulnerable System Confidentiality Impact (VC).
    pub vuln_confidentiality_impact: Option<Impact>,
    /// Vulnerable System Integrity Impact (VI).
    pub vuln_integrity_impact: Option<Impact>,
    /// Vulnerable System Availability Impact (VA).
    pub vuln_availability_impact: Option<Impact>,
    /// Subsequent System Confidentiality Impact (SC).
    pub sub_confidentiality_impact: Option<SubsequentImpact>,
    /// Subsequent System Integrity Impact (SI).
    pub sub_integrity_impact: Option<SubsequentImpact>,
    /// Subsequent System Availability Impact (SA).
    pub sub_availability_impact: Option<SubsequentImpact>,
    // --- Threat ---
    /// Exploit Maturity (E).
    pub exploit_maturity: Option<ExploitMaturity>,
    // --- Environmental ---
    /// Confidentiality Requirement (CR).
    pub confidentiality_requirement: Option<Requirement>,
    /// Integrity Requirement (IR).
    pub integrity_requirement: Option<Requirement>,
    /// Availability Requirement (AR).
    pub availability_requirement: Option<Requirement>,
    /// Modified Attack Vector (MAV).
    pub modified_attack_vector: Option<AttackVector>,
    /// Modified Attack Complexity (MAC).
    pub modified_attack_complexity: Option<AttackComplexity>,
    /// Modified Attack Requirements (MAT).
    pub modified_attack_requirements: Option<AttackRequirements>,
    /// Modified Privileges Required (MPR).
    pub modified_privileges_required: Option<PrivilegesRequired>,
    /// Modified User Interaction (MUI).
    pub modified_user_interaction: Option<UserInteraction>,
    /// Modified Vulnerable System Confidentiality Impact (MVC).
    pub modified_vuln_confidentiality_impact: Option<Impact>,
    /// Modified Vulnerable System Integrity Impact (MVI).
    pub modified_vuln_integrity_impact: Option<Impact>,
    /// Modified Vulnerable System Availability Impact (MVA).
    pub modified_vuln_availability_impact: Option<Impact>,
    /// Modified Subsequent System Confidentiality Impact (MSC).
    pub modified_sub_confidentiality_impact: Option<SubsequentImpact>,
    /// Modified Subsequent System Integrity Impact (MSI).
    pub modified_sub_integrity_impact: Option<SubsequentImpact>,
    /// Modified Subsequent System Availability Impact (MSA).
    pub modified_sub_availability_impact: Option<SubsequentImpact>,
    // --- Supplemental ---
    /// Safety (S).
    pub safety: Option<Safety>,
    /// Automatable (AU).
    pub automatable: Option<Automatable>,
    /// Recovery (R).
    pub recovery: Option<Recovery>,
    /// Value Density (V).
    pub value_density: Option<ValueDensity>,
    /// Vulnerability Response Effort (RE).
    pub vulnerability_response_effort: Option<VulnerabilityResponseEffort>,
    /// Provider Urgency (U).
    pub provider_urgency: Option<ProviderUrgency>,
}

/// The metric slots of a record, without the vector string and the reported scores.
#[derive(Clone, Copy, Debug, PartialEq, Eq, Structural)]
pub struct V4Metrics {
    pub attack_vector: Option<AttackVector>,
    pub attack_complexity: Option<AttackComplexity>,
    pub attack_requirements: Option<AttackRequirements>,
    pub privileges_required: Option<PrivilegesRequired>,
    pub user_interaction: Option<UserInteraction>,
    pub vuln_confidentiality_impact: Option<Impact>,
    pub vuln_integrity_impact: Option<Impact>,
    pub vuln_availability_impact: Option<Impact>,
    pub sub_confidentiality_impact: Option<SubsequentImpact>,
    pub sub_integrity_impact: Option<SubsequentImpact>,
    pub sub_availability_impact: Option<SubsequentImpact>,
    pub exploit_maturity: Option<ExploitMaturity>,
    pub confidentiality_requirement: Option<Requirement>,
    pub integrity_requirement: Option<Requirement>,
    pub availability_requirement: Option<Requirement>,
    pub modified_attack_vector: Option<AttackVector>,
    pub modified_attack_complexity: Option<AttackComplexity>,
    pub modified_attack_requirements: Option<AttackRequirements>,
    pub modified_privileges_required: Option<PrivilegesRequired>,
    pub modified_user_interaction: Option<UserInteraction>,
    pub modified_vuln_confidentiality_impact: Option<Impact>,
    pub modified_vuln_integrity_impact: Option<Impact>,
    pub modified_vuln_availability_impact: Option<Impact>,
    pub modified_sub_confidentiality_impact: Option<SubsequentImpact>,
    pub modified_sub_integrity_impact: Option<SubsequentImpact>,
    pub modified_sub_availability_impact: Option<SubsequentImpact>,
    pub safety: Option<Safety>,
    pub automatable: Option<Automatable>,
    pub recovery: Option<Recovery>,
    pub value_density: Option<ValueDensity>,
    pub vulnerability_response_effort: Option<VulnerabilityResponseEffort>,
    pub provider_urgency: Option<ProviderUrgency>,
}

/// Represents the qualitative severity rating of a vulnerability.
#[derive(Clone, Copy, Debug, PartialEq, Eq, Structural)]
pub enum Severity {
    NoneValue,
    Low,
    Medium,
    High,
    Critical,
}

impl Severity {
    /// The same rating on the scale that all versions share.
    pub open spec fn spec_unified(&self) -> crate::Severity {
        match self {
            Severity::NoneValue => crate::Severity::NoneValue,
            Severity::Low => crate::Severity::Low,
            Severity::Medium => crate::Severity::Medium,
            Severity::High => crate::Severity::High,
            Severity::Critical => crate::Severity::Critical,
        }
    }

    /// The same rating on the scale that all versions share.
    #[verifier::when_used_as_spec(spec_unified)]
    pub fn unified(&self) -> (r: crate::Severity)
        ensures
            r == self.spec_unified(),
    {
        match self {
            Severity::NoneValue => crate::Severity::NoneValue,
            Severity::Low => crate::Severity::Low,
            Severity::Medium => crate::Severity::Medium,
            Severity::High => crate::Severity::High,
            Severity::Critical => crate::Severity::Critical,
        }
    }
}

/// Attack Vector (AV) / Modified Attack Vector (MAV).
#[derive(Clone, Copy, Debug, PartialEq, Eq, Structural)]
pub enum AttackVector {
    Network,
    Adjacent,
    Local,
    Physical,
}

impl AttackVector {
    /// The code that stands for this value in a vector string.
    pub open spec fn code(self) -> Seq<char> {
        match self {
            AttackVector::Network => seq!['N'],
            AttackVector::Adjacent => seq!['A'],
            AttackVector::Local => seq!['L'],
            AttackVector::Physical => seq!['P'],
        }
    }

    /// The code of a metric slot: that of its value where it holds one.
    pub open spec fn code_of(value: Option<AttackVector>) -> Option<Seq<char>> {
        match value {
            Some(v) => Some(v.code()),
            None => None,
        }
    }

    /// The value that a code stands for. The code is compared in upper case.
    pub open spec fn from_code(code: Seq<char>) -> Option<AttackVector> {
        if spells1(code, 'N') {
            Some(AttackVector::Network)
        } else if spells1(code, 'A') {
            Some(AttackVector::Adjacent)
        } else if spells1(code, 'L') {
            Some(AttackVector::Local)
        } else if spells1(code, 'P') {
            Some(AttackVector::Physical)
        } else {
            None
        }
    }

    /// Reads a value from its code in upper case.
    pub fn parse(code: &Vec<char>) -> (r: Option<AttackVector>)
        ensures
            r == AttackVector::from_code(code@),
    {
        if is1(code, 'N') {
            Some(AttackVector::Network)
        } else if is1(code, 'A') {
            Some(AttackVector::Adjacent)
        } else if is1(code, 'L') {
            Some(AttackVector::Local)
        } else if is1(code, 'P') {
            Some(AttackVector::Physical)
        } else {
            None
        }
    }

    /// The code that stands for this value in a vector string.
    pub fn as_str(&self) -> (r: &'static str)
        ensures
            r@ == self.code(),
    {
        match self {
            AttackVector::Network => {
                proof {
                    reveal_strlit("N");
                    assert("N"@ =~= seq!['N']);
                }
                "N"
            },
            AttackVector::Adjacent => {
                proof {
                    reveal_strlit("A");
                    assert("A"@ =~= seq!['A']);
                }
                "A"
            },
            AttackVector::Local => {
                proof {
                    reveal_strlit("L");
                    assert("L"@ =~= seq!['L']);
                }
                "L"
            },
            AttackVector::Physical => {
                proof {
                    reveal_strlit("P");
                    assert("P"@ =~= seq!['P']);
                }
                "P"
            },
        }
    }

    /// The code that stands for this value, as an owned string.
    pub fn to_string(&self) -> (r: String)
        ensures
            r@ == self.code(),
    {
        self.as_str().to_owned()
    }

    /// The code of a metric slot: that of its value where it holds one.
    pub fn slot_str(value: Option<AttackVector>) -> (r: Option<&'static str>)
        ensures
            str_view(r) == AttackVector::code_of(value),
    {
        match value {
            Some(v) => Some(v.as_str()),
            None => None,
        }
    }

    /// A value is read back from its own code, and no code holds `/` or `:`.
    pub proof fn lemma_code(self)
        ensures
            AttackVector::from_code(upper(self.code())) == Some(self),
            free_of(self.code(), '/'),
            free_of(self.code(), ':'),
    {
    }

    /// The ordinal of this value among the values of its metric, 0 for the most severe.
    pub open spec fn spec_level(&self) -> u8 {
        match self {
            AttackVector::Network => 0,
            AttackVector::Adjacent => 1,
            AttackVector::Local => 2,
            AttackVector::Physical => 3,
        }
    }

    /// The ordinal of this value among the values of its metric, 0 for the most severe.
    #[verifier::when_used_as_spec(spec_level)]
    pub fn level(&self) -> (r: u8)
        ensures
            r == self.spec_level(),
    {
        match self {
            AttackVector::Network => 0,
            AttackVector::Adjacent => 1,
            AttackVector::Local => 2,
            AttackVector::Physical => 3,
        }
    }
}

/// Attack Complexity (AC) / Modified Attack Complexity (MAC).
#[derive(Clone, Copy, Debug, PartialEq, Eq, Structural)]
pub enum AttackComplexity {
    Low,
    High,
}

impl AttackComplexity {
    /// The code that stands for this value in a vector string.
    pub open spec fn code(self) -> Seq<char> {
        match self {
            AttackComplexity::Low => seq!['L'],
            AttackComplexity::High => seq!['H'],
        }
    }

    /// The code of a metric slot: that of its value where it holds one.
    pub open spec fn code_of(value: Option<AttackComplexity>) -> Option<Seq<char>> {
        match value {
            Some(v) => Some(v.code()),
            None => None,
        }
    }

    /// The value that a code stands for. The code is compared in upper case.
    pub open spec fn from_code(code: Seq<char>) -> Option<AttackComplexity> {
        if spells1(code, 'L') {
            Some(AttackComplexity::Low)
        } else if spells1(code, 'H') {
            Some(AttackComplexity::High)
        } else {
            None
        }
    }

    /// Reads a value from its code in upper case.
    pub fn parse(code: &Vec<char>) -> (r: Option<AttackComplexity>)
        ensures
            r == AttackComplexity::from_code(code@),
    {
        if is1(code, 'L') {
            Some(AttackComplexity::Low)
        } else if is1(code, 'H') {
            Some(AttackComplexity::High)
        } else {
            None
        }
    }

    /// The code that stands for this value in a vector string.
    pub fn as_str(&self) -> (r: &'static str)
        ensures
            r@ == self.code(),
    {
        match self {
            AttackComplexity::Low => {
                proof {
                    reveal_strlit("L");
                    assert("L"@ =~= seq!['L']);
                }
                "L"
            },
            AttackComplexity::High => {
                proof {
                    reveal_strlit("H");
                    assert("H"@ =~= seq!['H']);
                }
                "H"
            },
        }
    }

    /// The code that stands for this value, as an owned string.
    pub fn to_string(&self) -> (r: String)
        ensures
            r@ == self.code(),
    {
        self.as_str().to_owned()
    }

    /// The code of a metric slot: that of its value where it holds one.
    pub fn slot_str(value: Option<AttackComplexity>) -> (r: Option<&'static str>)
        ensures
            str_view(r) == AttackComplexity::code_of(value),
    {
        match value {
            Some(v) => Some(v.as_str()),
            None => None,
        }
    }

    /// A value is read back from its own code, and no code holds `/` or `:`.
    pub proof fn lemma_code(self)
        ensures
            AttackComplexity::from_code(upper(self.code())) == Some(self),
            free_of(self.code(), '/'),
            free_of(self.code(), ':'),
    {
    }

    /// The ordinal of this value among the values of its metric, 0 for the most severe.
    pub open spec fn spec_level(&self) -> u8 {
        match self {
            AttackComplexity::Low => 0,
            AttackComplexity::High => 1,
        }
    }

    /// The ordinal of this value among the values of its metric, 0 for the most severe.
    #[verifier::when_used_as_spec(spec_level)]
    pub fn level(&self) -> (r: u8)
        ensures
            r == self.spec_level(),
    {
        match self {
            AttackComplexity::Low => 0,
            AttackComplexity::High => 1,
        }
    }
}

/// Attack Requirements (AT) / Modified Attack Requirements (MAT).
#[derive(Clone, Copy, Debug, PartialEq, Eq, Structural)]
pub enum AttackRequirements {
    NoneValue,
    Present,
}

impl AttackRequirements {
    /// The code that stands for this value in a vector string.
    pub open spec fn code(self) -> Seq<char> {
        match self {
            AttackRequirements::NoneValue => seq!['N'],
            AttackRequirements::Present => seq!['P'],
        }
    }

    /// The code of a metric slot: that of its value where it holds one.
    pub open spec fn code_of(value: Option<AttackRequirements>) -> Option<Seq<char>> {
        match value {
            Some(v) => Some(v.code()),
            None => None,
        }
    }

    /// The value that a code stands for. The code is compared in upper case.
    pub open spec fn from_code(code: Seq<char>) -> Option<AttackRequirements> {
        if spells1(code, 'N') {
            Some(AttackRequirements::NoneValue)
        } else if spells1(code, 'P') {
            Some(AttackRequirements::Present)
        } else {
            None
        }
    }

    /// Reads a value from its code in upper case.
    pub fn parse(code: &Vec<char>) -> (r: Option<AttackRequirements>)
        ensures
            r == AttackRequirements::from_code(code@),
    {
        if is1(code, 'N') {
            Some(AttackRequirements::NoneValue)
        } else if is1(code, 'P') {
            Some(AttackRequirements::Present)
        } else {
            None
        }
    }

    /// The code that stands for this value in a vector string.
    pub fn as_str(&self) -> (r: &'static str)
        ensures
            r@ == self.code(),
    {
        match self {
            AttackRequirements::NoneValue => {
                proof {
                    reveal_strlit("N");
                    assert("N"@ =~= seq!['N']);
                }
                "N"
            },
            AttackRequirements::Present => {
                proof {
                    reveal_strlit("P");
                    assert("P"@ =~= seq!['P']);
                }
                "P"
            },
        }
    }

    /// The code that stands for this value, as an owned string.
    pub fn to_string(&self) -> (r: String)
        ensures
            r@ == self.code(),
    {
        self.as_str().to_owned()
    }

    /// The code of a metric slot: that of its value where it holds one.
    pub fn slot_str(value: Option<AttackRequirements>) -> (r: Option<&'static str>)
        ensures
            str_view(r) == AttackRequirements::code_of(value),
    {
        match value {
            Some(v) => Some(v.as_str()),
            None => None,
        }
    }

    /// A value is read back from its own code, and no code holds `/` or `:`.
    pub proof fn lemma_code(self)
        ensures
            AttackRequirements::from_code(upper(self.code())) == Some(self),
            free_of(self.code(), '/'),
            free_of(self.code(), ':'),
    {
    }

    /// The ordinal of this value among the values of its metric, 0 for the most severe.
    pub open spec fn spec_level(&self) -> u8 {
        match self {
            AttackRequirements::NoneValue => 0,
            AttackRequirements::Present => 1,
        }
    }

    /// The ordinal of this value among the values of its metric, 0 for the most severe.
    #[verifier::when_used_as_spec(spec_level)]
    pub fn level(&self) -> (r: u8)
        ensures
            r == self.spec_level(),
    {
        match self {
            AttackRequirements::NoneValue => 0,
            AttackRequirements::Present => 1,
        }
    }
}

/// Privileges Required (PR) / Modified Privileges Required (MPR).
#[derive(Clone, Copy, Debug, PartialEq, Eq, Structural)]
pub enum PrivilegesRequired {
    NoneValue,
    Low,
    High,
}

impl PrivilegesRequired {
    /// The code that stands for this value in a vector string.
    pub open spec fn code(self) -> Seq<char> {
        match self {
            PrivilegesRequired::NoneValue => seq!['N'],
            PrivilegesRequired::Low => seq!['L'],
            PrivilegesRequired::High => seq!['H'],
        }
    }

    /// The code of a metric slot: that of its value where it holds one.
    pub open spec fn code_of(value: Option<PrivilegesRequired>) -> Option<Seq<char>> {
        match value {
            Some(v) => Some(v.code()),
            None => None,
        }
    }

    /// The value that a code stands for. The code is compared in upper case.
    pub open spec fn from_code(code: Seq<char>) -> Option<PrivilegesRequired> {
        if spells1(code, 'N') {
            Some(PrivilegesRequired::NoneValue)
        } else if spells1(code, 'L') {
            Some(PrivilegesRequired::Low)
        } else if spells1(code, 'H') {
            Some(PrivilegesRequired::High)
        } else {
            None
        }
    }

    /// Reads a value from its code in upper case.
    pub fn parse(code: &Vec<char>) -> (r: Option<PrivilegesRequired>)
        ensures
            r == PrivilegesRequired::from_code(code@),
    {
        if is1(code, 'N') {
            Some(PrivilegesRequired::NoneValue)
        } else if is1(code, 'L') {
            Some(PrivilegesRequired::Low)
        } else if is1(code, 'H') {
            Some(PrivilegesRequired::High)
        } else {
            None
        }
    }

    /// The code that stands for this value in a vector string.
    pub fn as_str(&self) -> (r: &'static str)
        ensures
            r@ == self.code(),
    {
        match self {
            PrivilegesRequired::NoneValue => {
                proof {
                    reveal_strlit("N");
                    assert("N"@ =~= seq!['N']);
                }
                "N"
            },
            PrivilegesRequired::Low => {
                proof {
                    reveal_strlit("L");
                    assert("L"@ =~= seq!['L']);
                }
                "L"
            },
            PrivilegesRequired::High => {
                proof {
                    reveal_strlit("H");
                    assert("H"@ =~= seq!['H']);
                }
                "H"
            },
        }
    }

    /// The code that stands for this value, as an owned string.
    pub fn to_string(&self) -> (r: String)
        ensures
            r@ == self.code(),
    {
        self.as_str().to_owned()
    }

    /// The code of a metric slot: that of its value where it holds one.
    pub fn slot_str(value: Option<PrivilegesRequired>) -> (r: Option<&'static str>)
        ensures
            str_view(r) == PrivilegesRequired::code_of(value),
    {
        match value {
            Some(v) => Some(v.as_str()),
            None => None,
        }
    }

    /// A value is read back from its own code, and no code holds `/` or `:`.
    pub proof fn lemma_code(self)
        ensures
            PrivilegesRequired::from_code(upper(self.code())) == Some(self),
            free_of(self.code(), '/'),
            free_of(self.code(), ':'),
    {
    }

    /// The ordinal of this value among the values of its metric, 0 for the most severe.
    pub open spec fn spec_level(&self) -> u8 {
        match self {
            PrivilegesRequired::NoneValue => 0,
            PrivilegesRequired::Low => 1,
            PrivilegesRequired::High => 2,
        }
    }

    /// The ordinal of this value among the values of its metric, 0 for the most severe.
    #[verifier::when_used_as_spec(spec_level)]
    pub fn level(&self) -> (r: u8)
        ensures
            r == self.spec_level(),
    {
        match self {
            PrivilegesRequired::NoneValue => 0,
            PrivilegesRequired::Low => 1,
            PrivilegesRequired::High => 2,
        }
    }
}

/// User Interaction (UI) / Modified User Interaction (MUI).
#[derive(Clone, Copy, Debug, PartialEq, Eq, Structural)]
pub enum UserInteraction {
    NoneValue,
    Passive,
    Active,
}

impl UserInteraction {
    /// The code that stands for this value in a vector string.
    pub open spec fn code(self) -> Seq<char> {
        match self {
            UserInteraction::NoneValue => seq!['N'],
            UserInteraction::Passive => seq!['P'],
            UserInteraction::Active => seq!['A'],
        }
    }

    /// The code of a metric slot: that of its value where it holds one.
    pub open spec fn code_of(value: Option<UserInteraction>) -> Option<Seq<char>> {
        match value {
            Some(v) => Some(v.code()),
            None => None,
        }
    }

    /// The value that a code stands for. The code is compared in upper case.
    pub open spec fn from_code(code: Seq<char>) -> Option<UserInteraction> {
        if spells1(code, 'N') {
            Some(UserInteraction::NoneValue)
        } else if spells1(code, 'P') {
            Some(UserInteraction::Passive)
        } else if spells1(code, 'A') {
            Some(UserInteraction::Active)
        } else {
            None
        }
    }

    /// Reads a value from its code in upper case.
    pub fn parse(code: &Vec<char>) -> (r: Option<UserInteraction>)
        ensures
            r == UserInteraction::from_code(code@),
    {
        if is1(code, 'N') {
            Some(UserInteraction::NoneValue)
        } else if is1(code, 'P') {
            Some(UserInteraction::Passive)
        } else if is1(code, 'A') {
            Some(UserInteraction::Active)
        } else {
            None
        }
    }

    /// The code that stands for this value in a vector string.
    pub fn as_str(&self) -> (r: &'static str)
        ensures
            r@ == self.code(),
    {
        match self {
            UserInteraction::NoneValue => {
                proof {
                    reveal_strlit("N");
                    assert("N"@ =~= seq!['N']);
                }
                "N"
            },
            UserInteraction::Passive => {
                proof {
                    reveal_strlit("P");
                    assert("P"@ =~= seq!['P']);
                }
                "P"
            },
            UserInteraction::Active => {
                proof {
                    reveal_strlit("A");
                    assert("A"@ =~= seq!['A']);
                }
                "A"
            },
        }
    }

    /// The code that stands for this value, as an owned string.
    pub fn to_string(&self) -> (r: String)
        ensures
            r@ == self.code(),
    {
        self.as_str().to_owned()
    }

    /// The code of a metric slot: that of its value where it holds one.
    pub fn slot_str(value: Option<UserInteraction>) -> (r: Option<&'static str>)
        ensures
            str_view(r) == UserInteraction::code_of(value),
    {
        match value {
            Some(v) => Some(v.as_str()),
            None => None,
        }
    }

    /// A value is read back from its own code, and no code holds `/` or `:`.
    pub proof fn lemma_code(self)
        ensures
            UserInteraction::from_code(upper(self.code())) == Some(self),
            free_of(self.code(), '/'),
            free_of(self.code(), ':'),
    {
    }

    /// The ordinal of this value among the values of its metric, 0 for the most severe.
    pub open spec fn spec_level(&self) -> u8 {
        match self {
            UserInteraction::NoneValue => 0,
            UserInteraction::Passive => 1,
            UserInteraction::Active => 2,
        }
    }

    /// The ordinal of this value among the values of its metric, 0 for the most severe.
    #[verifier::when_used_as_spec(spec_level)]
    pub fn level(&self) -> (r: u8)
        ensures
            r == self.spec_level(),
    {
        match self {
            UserInteraction::NoneValue => 0,
            UserInteraction::Passive => 1,
            UserInteraction::Active => 2,
        }
    }
}

/// Impact on the vulnerable system (VC, VI, VA and their modified forms).
#[derive(Clone, Copy, Debug, PartialEq, Eq, Structural)]
pub enum Impact {
    High,
    Low,
    NoneValue,
}

impl Impact {
    /// The code that stands for this value in a vector string.
    pub open spec fn code(self) -> Seq<char> {
        match self {
            Impact::High => seq!['H'],
            Impact::Low => seq!['L'],
            Impact::NoneValue => seq!['N'],
        }
    }

    /// The code of a metric slot: that of its value where it holds one.
    pub open spec fn code_of(value: Option<Impact>) -> Option<Seq<char>> {
        match value {
            Some(v) => Some(v.code()),
            None => None,
        }
    }

    /// The value that a code stands for. The code is compared in upper case.
    pub open spec fn from_code(code: Seq<char>) -> Option<Impact> {
        if spells1(code, 'H') {
            Some(Impact::High)
        } else if spells1(code, 'L') {
            Some(Impact::Low)
        } else if spells1(code, 'N') {
            Some(Impact::NoneValue)
        } else {
            None
        }
    }

    /// Reads a value from its code in upper case.
    pub fn parse(code: &Vec<char>) -> (r: Option<Impact>)
        ensures
            r == Impact::from_code(code@),
    {
        if is1(code, 'H') {
            Some(Impact::High)
        } else if is1(code, 'L') {
            Some(Impact::Low)
        } else if is1(code, 'N') {
            Some(Impact::NoneValue)
        } else {
            None
        }
    }

    /// The code that stands for this value in a vector string.
    pub fn as_str(&self) -> (r: &'static str)
        ensures
            r@ == self.code(),
    {
        match self {
            Impact::High => {
                proof {
                    reveal_strlit("H");
                    assert("H"@ =~= seq!['H']);
                }
                "H"
            },
            Impact::Low => {
                proof {
                    reveal_strlit("L");
                    assert("L"@ =~= seq!['L']);
                }
                "L"
            },
            Impact::NoneValue => {
                proof {
                    reveal_strlit("N");
                    assert("N"@ =~= seq!['N']);
                }
                "N"
            },
        }
    }

    /// The code that stands for this value, as an owned string.
    pub fn to_string(&self) -> (r: String)
        ensures
            r@ == self.code(),
    {
        self.as_str().to_owned()
    }

    /// The code of a metric slot: that of its value where it holds one.
    pub fn slot_str(value: Option<Impact>) -> (r: Option<&'static str>)
        ensures
            str_view(r) == Impact::code_of(value),
    {
        match value {
            Some(v) => Some(v.as_str()),
            None => None,
        }
    }

    /// A value is read back from its own code, and no code holds `/` or `:`.
    pub proof fn lemma_code(self)
        ensures
            Impact::from_code(upper(self.code())) == Some(self),
            free_of(self.code(), '/'),
            free_of(self.code(), ':'),
    {
    }

    /// The ordinal of this value among the values of its metric, 0 for the most severe.
    pub open spec fn spec_level(&self) -> u8 {
        match self {
            Impact::High => 0,
            Impact::Low => 1,
            Impact::NoneValue => 2,
        }
    }

    /// The ordinal of this value among the values of its metric, 0 for the most severe.
    #[verifier::when_used_as_spec(spec_level)]
    pub fn level(&self) -> (r: u8)
        ensures
            r == self.spec_level(),
    {
        match self {
            Impact::High => 0,
            Impact::Low => 1,
            Impact::NoneValue => 2,
        }
    }
}

/// Impact on subsequent systems (SC, SI, SA and their modified forms). `Safety` ranks above `High`.
#[derive(Clone, Copy, Debug, PartialEq, Eq, Structural)]
pub enum SubsequentImpact {
    Safety,
    High,
    Low,
    NoneValue,
}

impl SubsequentImpact {
    /// The code that stands for this value in a vector string.
    pub open spec fn code(self) -> Seq<char> {
        match self {
            SubsequentImpact::Safety => seq!['S'],
            SubsequentImpact::High => seq!['H'],
            SubsequentImpact::Low => seq!['L'],
            SubsequentImpact::NoneValue => seq!['N'],
        }
    }

    /// The code of a metric slot: that of its value where it holds one.
    pub open spec fn code_of(value: Option<SubsequentImpact>) -> Option<Seq<char>> {
        match value {
            Some(v) => Some(v.code()),
            None => None,
        }
    }

    /// The value that a code stands for. The code is compared in upper case.
    pub open spec fn from_code(code: Seq<char>) -> Option<SubsequentImpact> {
        if spells1(code, 'S') {
            Some(SubsequentImpact::Safety)
        } else if spells1(code, 'H') {
            Some(SubsequentImpact::High)
        } else if spells1(code, 'L') {
            Some(SubsequentImpact::Low)
        } else if spells1(code, 'N') {
            Some(SubsequentImpact::NoneValue)
        } else {
            None
        }
    }

    /// Reads a value from its code in upper case.
    pub fn parse(code: &Vec<char>) -> (r: Option<SubsequentImpact>)
        ensures
            r == SubsequentImpact::from_code(code@),
    {
        if is1(code, 'S') {
            Some(SubsequentImpact::Safety)
        } else if is1(code, 'H') {
            Some(SubsequentImpact::High)
        } else if is1(code, 'L') {
            Some(SubsequentImpact::Low)
        } else if is1(code, 'N') {
            Some(SubsequentImpact::NoneValue)
        } else {
            None
        }
    }

    /// The code that stands for this value in a vector string.
    pub fn as_str(&self) -> (r: &'static str)
        ensures
            r@ == self.code(),
    {
        match self {
            SubsequentImpact::Safety => {
                proof {
                    reveal_strlit("S");
                    assert("S"@ =~= seq!['S']);
                }
                "S"
            },
            SubsequentImpact::High => {
                proof {
                    reveal_strlit("H");
                    assert("H"@ =~= seq!['H']);
                }
                "H"
            },
            SubsequentImpact::Low => {
                proof {
                    reveal_strlit("L");
                    assert("L"@ =~= seq!['L']);
                }
                "L"
            },
            SubsequentImpact::NoneValue => {
                proof {
                    reveal_strlit("N");
                    assert("N"@ =~= seq!['N']);
                }
                "N"
            },
        }
    }

    /// The code that stands for this value, as an owned string.
    pub fn to_string(&self) -> (r: String)
        ensures
            r@ == self.code(),
    {
        self.as_str().to_owned()
    }

    /// The code of a metric slot: that of its value where it holds one.
    pub fn slot_str(value: Option<SubsequentImpact>) -> (r: Option<&'static str>)
        ensures
            str_view(r) == SubsequentImpact::code_of(value),
    {
        match value {
            Some(v) => Some(v.as_str()),
            None => None,
        }
    }

    /// A value is read back from its own code, and no code holds `/` or `:`.
    pub proof fn lemma_code(self)
        ensures
            SubsequentImpact::from_code(upper(self.code())) == Some(self),
            free_of(self.code(), '/'),
            free_of(self.code(), ':'),
    {
    }

    /// The ordinal of this value among the values of its metric, 0 for the most severe.
    pub open spec fn spec_level(&self) -> u8 {
        match self {
            SubsequentImpact::Safety => 0,
            SubsequentImpact::High => 1,
            SubsequentImpact::Low => 2,
            SubsequentImpact::NoneValue => 3,
        }
    }

    /// The ordinal of this value among the values of its metric, 0 for the most severe.
    #[verifier::when_used_as_spec(spec_level)]
    pub fn level(&self) -> (r: u8)
        ensures
            r == self.spec_level(),
    {
        match self {
            SubsequentImpact::Safety => 0,
            SubsequentImpact::High => 1,
            SubsequentImpact::Low => 2,
            SubsequentImpact::NoneValue => 3,
        }
    }
}

/// Exploit Maturity (E).
#[derive(Clone, Copy, Debug, PartialEq, Eq, Structural)]
pub enum ExploitMaturity {
    Attacked,
    ProofOfConcept,
    Unreported,
    NotDefined,
}

impl ExploitMaturity {
    /// The code that stands for this value in a vector string.
    pub open spec fn code(self) -> Seq<char> {
        match self {
            ExploitMaturity::Attacked => seq!['A'],
            ExploitMaturity::ProofOfConcept => seq!['P'],
            ExploitMaturity::Unreported => seq!['U'],
            ExploitMaturity::NotDefined => seq!['X'],
        }
    }

    /// The code of a metric slot: that of its value where it holds one.
    pub open spec fn code_of(value: Option<ExploitMaturity>) -> Option<Seq<char>> {
        match value {
            Some(v) => Some(v.code()),
            None => None,
        }
    }

    /// The value that a code stands for. The code is compared in upper case.
    pub open spec fn from_code(code: Seq<char>) -> Option<ExploitMaturity> {
        if spells1(code, 'A') {
            Some(ExploitMaturity::Attacked)
        } else if spells1(code, 'P') {
            Some(ExploitMaturity::ProofOfConcept)
        } else if spells1(code, 'U') {
            Some(ExploitMaturity::Unreported)
        } else if spells1(code, 'X') {
            Some(ExploitMaturity::NotDefined)
        } else {
            None
        }
    }

    /// Reads a value from its code in upper case.
    pub fn parse(code: &Vec<char>) -> (r: Option<ExploitMaturity>)
        ensures
            r == ExploitMaturity::from_code(code@),
    {
        if is1(code, 'A') {
            Some(ExploitMaturity::Attacked)
        } else if is1(code, 'P') {
            Some(ExploitMaturity::ProofOfConcept)
        } else if is1(code, 'U') {
            Some(ExploitMaturity::Unreported)
        } else if is1(code, 'X') {
            Some(ExploitMaturity::NotDefined)
        } else {
            None
        }
    }

    /// The code that stands for this value in a vector string.
    pub fn as_str(&self) -> (r: &'static str)
        ensures
            r@ == self.code(),
    {
        match self {
            ExploitMaturity::Attacked => {
                proof {
                    reveal_strlit("A");
                    assert("A"@ =~= seq!['A']);
                }
                "A"
            },
            ExploitMaturity::ProofOfConcept => {
                proof {
                    reveal_strlit("P");
                    assert("P"@ =~= seq!['P']);
                }
                "P"
            },
            ExploitMaturity::Unreported => {
                proof {
                    reveal_strlit("U");
                    assert("U"@ =~= seq!['U']);
                }
                "U"
            },
            ExploitMaturity::NotDefined => {
                proof {
                    reveal_strlit("X");
                    assert("X"@ =~= seq!['X']);
                }
                "X"
            },
        }
    }

    /// The code that stands for this value, as an owned string.
    pub fn to_string(&self) -> (r: String)
        ensures
            r@ == self.code(),
    {
        self.as_str().to_owned()
    }

    /// The code of a metric slot: that of its value where it holds one.
    pub fn slot_str(value: Option<ExploitMaturity>) -> (r: Option<&'static str>)
        ensures
            str_view(r) == ExploitMaturity::code_of(value),
    {
        match value {
            Some(v) => Some(v.as_str()),
            None => None,
        }
    }

    /// A value is read back from its own code, and no code holds `/` or `:`.
    pub proof fn lemma_code(self)
        ensures
            ExploitMaturity::from_code(upper(self.code())) == Some(self),
            free_of(self.code(), '/'),
            free_of(self.code(), ':'),
    {
    }

    /// The ordinal of this value: 0 for `Attacked`, 1 for `ProofOfConcept`, 2 otherwise.
    pub open spec fn spec_level(&self) -> u8 {
        match self {
            ExploitMaturity::Attacked => 0,
            ExploitMaturity::ProofOfConcept => 1,
            ExploitMaturity::Unreported => 2,
            ExploitMaturity::NotDefined => 2,
        }
    }

    /// The ordinal of this value: 0 for `Attacked`, 1 for `ProofOfConcept`, 2 otherwise.
    #[verifier::when_used_as_spec(spec_level)]
    pub fn level(&self) -> (r: u8)
        ensures
            r == self.spec_level(),
    {
        match self {
            ExploitMaturity::Attacked => 0,
            ExploitMaturity::ProofOfConcept => 1,
            ExploitMaturity::Unreported => 2,
            ExploitMaturity::NotDefined => 2,
        }
    }
}

/// Requirement metrics (CR, IR, AR).
#[derive(Clone, Copy, Debug, PartialEq, Eq, Structural)]
pub enum Requirement {
    High,
    Medium,
    Low,
}

impl Requirement {
    /// The code that stands for this value in a vector string.
    pub open spec fn code(self) -> Seq<char> {
        match self {
            Requirement::High => seq!['H'],
            Requirement::Medium => seq!['M'],
            Requirement::Low => seq!['L'],
        }
    }

    /// The code of a metric slot: that of its value where it holds one.
    pub open spec fn code_of(value: Option<Requirement>) -> Option<Seq<char>> {
        match value {
            Some(v) => Some(v.code()),
            None => None,
        }
    }

    /// The value that a code stands for. The code is compared in upper case.
    pub open spec fn from_code(code: Seq<char>) -> Option<Requirement> {
        if spells1(code, 'H') {
            Some(Requirement::High)
        } else if spells1(code, 'M') {
            Some(Requirement::Medium)
        } else if spells1(code, 'L') {
            Some(Requirement::Low)
        } else {
            None
        }
    }

    /// Reads a value from its code in upper case.
    pub fn parse(code: &Vec<char>) -> (r: Option<Requirement>)
        ensures
            r == Requirement::from_code(code@),
    {
        if is1(code, 'H') {
            Some(Requirement::High)
        } else if is1(code, 'M') {
            Some(Requirement::Medium)
        } else if is1(code, 'L') {
            Some(Requirement::Low)
        } else {
            None
        }
    }

    /// The code that stands for this value in a vector string.
    pub fn as_str(&self) -> (r: &'static str)
        ensures
            r@ == self.code(),
    {
        match self {
            Requirement::High => {
                proof {
                    reveal_strlit("H");
                    assert("H"@ =~= seq!['H']);
                }
                "H"
            },
            Requirement::Medium => {
                proof {
                    reveal_strlit("M");
                    assert("M"@ =~= seq!['M']);
                }
                "M"
            },
            Requirement::Low => {
                proof {
                    reveal_strlit("L");
                    assert("L"@ =~= seq!['L']);
                }
                "L"
            },
        }
    }

    /// The code that stands for this value, as an owned string.
    pub fn to_string(&self) -> (r: String)
        ensures
            r@ == self.code(),
    {
        self.as_str().to_owned()
    }

    /// The code of a metric slot: that of its value where it holds one.
    pub fn slot_str(value: Option<Requirement>) -> (r: Option<&'static str>)
        ensures
            str_view(r) == Requirement::code_of(value),
    {
        match value {
            Some(v) => Some(v.as_str()),
            None => None,
        }
    }

    /// A value is read back from its own code, and no code holds `/` or `:`.
    pub proof fn lemma_code(self)
        ensures
            Requirement::from_code(upper(self.code())) == Some(self),
            free_of(self.code(), '/'),
            free_of(self.code(), ':'),
    {
    }

    /// The ordinal of this value among the values of its metric, 0 for the most severe.
    pub open spec fn spec_level(&self) -> u8 {
        match self {
            Requirement::High => 0,
            Requirement::Medium => 1,
            Requirement::Low => 2,
        }
    }

    /// The ordinal of this value among the values of its metric, 0 for the most severe.
    #[verifier::when_used_as_spec(spec_level)]
    pub fn level(&self) -> (r: u8)
        ensures
            r == self.spec_level(),
    {
        match self {
            Requirement::High => 0,
            Requirement::Medium => 1,
            Requirement::Low => 2,
        }
    }
}

/// Safety (S).
#[derive(Clone, Copy, Debug, PartialEq, Eq, Structural)]
pub enum Safety {
    Negligible,
    Present,
    NotDefined,
}

impl Safety {
    /// The code that stands for this value in a vector string.
    pub open spec fn code(self) -> Seq<char> {
        match self {
            Safety::Negligible => seq!['N'],
            Safety::Present => seq!['P'],
            Safety::NotDefined => seq!['X'],
        }
    }

    /// The code of a metric slot: that of its value where it holds one.
    pub open spec fn code_of(value: Option<Safety>) -> Option<Seq<char>> {
        match value {
            Some(v) => Some(v.code()),
            None => None,
        }
    }

    /// The value that a code stands for. The code is compared in upper case.
    pub open spec fn from_code(code: Seq<char>) -> Option<Safety> {
        if spells1(code, 'N') {
            Some(Safety::Negligible)
        } else if spells1(code, 'P') {
            Some(Safety::Present)
        } else if spells1(code, 'X') {
            Some(Safety::NotDefined)
        } else {
            None
        }
    }

    /// Reads a value from its code in upper case.
    pub fn parse(code: &Vec<char>) -> (r: Option<Safety>)
        ensures
            r == Safety::from_code(code@),
    {
        if is1(code, 'N') {
            Some(Safety::Negligible)
        } else if is1(code, 'P') {
            Some(Safety::Present)
        } else if is1(code, 'X') {
            Some(Safety::NotDefined)
        } else {
            None
        }
    }

    /// The code that stands for this value in a vector string.
    pub fn as_str(&self) -> (r: &'static str)
        ensures
            r@ == self.code(),
    {
        match self {
            Safety::Negligible => {
                proof {
                    reveal_strlit("N");
                    assert("N"@ =~= seq!['N']);
                }
                "N"
            },
            Safety::Present => {
                proof {
                    reveal_strlit("P");
                    assert("P"@ =~= seq!['P']);
                }
                "P"
            },
            Safety::NotDefined => {
                proof {
                    reveal_strlit("X");
                    assert("X"@ =~= seq!['X']);
                }
                "X"
            },
        }
    }

    /// The code that stands for this value, as an owned string.
    pub fn to_string(&self) -> (r: String)
        ensures
            r@ == self.code(),
    {
        self.as_str().to_owned()
    }

    /// The code of a metric slot: that of its value where it holds one.
    pub fn slot_str(value: Option<Safety>) -> (r: Option<&'static str>)
        ensures
            str_view(r) == Safety::code_of(value),
    {
        match value {
            Some(v) => Some(v.as_str()),
            None => None,
        }
    }

    /// A value is read back from its own code, and no code holds `/` or `:`.
    pub proof fn lemma_code(self)
        ensures
            Safety::from_code(upper(self.code())) == Some(self),
            free_of(self.code(), '/'),
            free_of(self.code(), ':'),
    {
    }
}

/// Automatable (AU).
#[derive(Clone, Copy, Debug, PartialEq, Eq, Structural)]
pub enum Automatable {
    No,
    Yes,
    NotDefined,
}

impl Automatable {
    /// The code that stands for this value in a vector string.
    pub open spec fn code(self) -> Seq<char> {
        match self {
            Automatable::No => seq!['N'],
            Automatable::Yes => seq!['Y'],
            Automatable::NotDefined => seq!['X'],
        }
    }

    /// The code of a metric slot: that of its value where it holds one.
    pub open spec fn code_of(value: Option<Automatable>) -> Option<Seq<char>> {
        match value {
            Some(v) => Some(v.code()),
            None => None,
        }
    }

    /// The value that a code stands for. The code is compared in upper case.
    pub open spec fn from_code(code: Seq<char>) -> Option<Automatable> {
        if spells1(code, 'N') {
            Some(Automatable::No)
        } else if spells1(code, 'Y') {
            Some(Automatable::Yes)
        } else if spells1(code, 'X') {
            Some(Automatable::NotDefined)
        } else {
            None
        }
    }

    /// Reads a value from its code in upper case.
    pub fn parse(code: &Vec<char>) -> (r: Option<Automatable>)
        ensures
            r == Automatable::from_code(code@),
    {
        if is1(code, 'N') {
            Some(Automatable::No)
        } else if is1(code, 'Y') {
            Some(Automatable::Yes)
        } else if is1(code, 'X') {
            Some(Automatable::NotDefined)
        } else {
            None
        }
    }

    /// The code that stands for this value in a vector string.
    pub fn as_str(&self) -> (r: &'static str)
        ensures
            r@ == self.code(),
    {
        match self {
            Automatable::No => {
                proof {
                    reveal_strlit("N");
                    assert("N"@ =~= seq!['N']);
                }
                "N"
            },
            Automatable::Yes => {
                proof {
                    reveal_strlit("Y");
                    assert("Y"@ =~= seq!['Y']);
                }
                "Y"
            },
            Automatable::NotDefined => {
                proof {
                    reveal_strlit("X");
                    assert("X"@ =~= seq!['X']);
                }
                "X"
            },
        }
    }

    /// The code that stands for this value, as an owned string.
    pub fn to_string(&self) -> (r: String)
        ensures
            r@ == self.code(),
    {
        self.as_str().to_owned()
    }

    /// The code of a metric slot: that of its value where it holds one.
    pub fn slot_str(value: Option<Automatable>) -> (r: Option<&'static str>)
        ensures
            str_view(r) == Automatable::code_of(value),
    {
        match value {
            Some(v) => Some(v.as_str()),
            None => None,
        }
    }

    /// A value is read back from its own code, and no code holds `/` or `:`.
    pub proof fn lemma_code(self)
        ensures
            Automatable::from_code(upper(self.code())) == Some(self),
            free_of(self.code(), '/'),
            free_of(self.code(), ':'),
    {
    }
}

/// Recovery (R).
#[derive(Clone, Copy, Debug, PartialEq, Eq, Structural)]
pub enum Recovery {
    Automatic,
    User,
    Irrecoverable,
    NotDefined,
}

impl Recovery {
    /// The code that stands for this value in a vector string.
    pub open spec fn code(self) -> Seq<char> {
        match self {
            Recovery::Automatic => seq!['A'],
            Recovery::User => seq!['U'],
            Recovery::Irrecoverable => seq!['I'],
            Recovery::NotDefined => seq!['X'],
        }
    }

    /// The code of a metric slot: that of its value where it holds one.
    pub open spec fn code_of(value: Option<Recovery>) -> Option<Seq<char>> {
        match value {
            Some(v) => Some(v.code()),
            None => None,
        }
    }

    /// The value that a code stands for. The code is compared in upper case.
    pub open spec fn from_code(code: Seq<char>) -> Option<Recovery> {
        if spells1(code, 'A') {
            Some(Recovery::Automatic)
        } else if spells1(code, 'U') {
            Some(Recovery::User)
        } else if spells1(code, 'I') {
            Some(Recovery::Irrecoverable)
        } else if spells1(code, 'X') {
            Some(Recovery::NotDefined)
        } else {
            None
        }
    }

    /// Reads a value from its code in upper case.
    pub fn parse(code: &Vec<char>) -> (r: Option<Recovery>)
        ensures
            r == Recovery::from_code(code@),
    {
        if is1(code, 'A') {
            Some(Recovery::Automatic)
        } else if is1(code, 'U') {
            Some(Recovery::User)
        } else if is1(code, 'I') {
            Some(Recovery::Irrecoverable)
        } else if is1(code, 'X') {
            Some(Recovery::NotDefined)
        } else {
            None
        }
    }

    /// The code that stands for this value in a vector string.
    pub fn as_str(&self) -> (r: &'static str)
        ensures
            r@ == self.code(),
    {
        match self {
            Recovery::Automatic => {
                proof {
                    reveal_strlit("A");
                    assert("A"@ =~= seq!['A']);
                }
                "A"
            },
            Recovery::User => {
                proof {
                    reveal_strlit("U");
                    assert("U"@ =~= seq!['U']);
                }
                "U"
            },
            Recovery::Irrecoverable => {
                proof {
                    reveal_strlit("I");
                    assert("I"@ =~= seq!['I']);
                }
                "I"
            },
            Recovery::NotDefined => {
                proof {
                    reveal_strlit("X");
                    assert("X"@ =~= seq!['X']);
                }
                "X"
            },
        }
    }

    /// The code that stands for this value, as an owned string.
    pub fn to_string(&self) -> (r: String)
        ensures
            r@ == self.code(),
    {
        self.as_str().to_owned()
    }

    /// The code of a metric slot: that of its value where it holds one.
    pub fn slot_str(value: Option<Recovery>) -> (r: Option<&'static str>)
        ensures
            str_view(r) == Recovery::code_of(value),
    {
        match value {
            Some(v) => Some(v.as_str()),
            None => None,
        }
    }

    /// A value is read back from its own code, and no code holds `/` or `:`.
    pub proof fn lemma_code(self)
        ensures
            Recovery::from_code(upper(self.code())) == Some(self),
            free_of(self.code(), '/'),
            free_of(self.code(), ':'),
    {
    }
}

/// Value Density (V).
#[derive(Clone, Copy, Debug, PartialEq, Eq, Structural)]
pub enum ValueDensity {
    Diffuse,
    Concentrated,
    NotDefined,
}

impl ValueDensity {
    /// The code that stands for this value in a vector string.
    pub open spec fn code(self) -> Seq<char> {
        match self {
            ValueDensity::Diffuse => seq!['D'],
            ValueDensity::Concentrated => seq!['C'],
            ValueDensity::NotDefined => seq!['X'],
        }
    }

    /// The code of a metric slot: that of its value where it holds one.
    pub open spec fn code_of(value: Option<ValueDensity>) -> Option<Seq<char>> {
        match value {
            Some(v) => Some(v.code()),
            None => None,
        }
    }

    /// The value that a code stands for. The code is compared in upper case.
    pub open spec fn from_code(code: Seq<char>) -> Option<ValueDensity> {
        if spells1(code, 'D') {
            Some(ValueDensity::Diffuse)
        } else if spells1(code, 'C') {
            Some(ValueDensity::Concentrated)
        } else if spells1(code, 'X') {
            Some(ValueDensity::NotDefined)
        } else {
            None
        }
    }

    /// Reads a value from its code in upper case.
    pub fn parse(code: &Vec<char>) -> (r: Option<ValueDensity>)
        ensures
            r == ValueDensity::from_code(code@),
    {
        if is1(code, 'D') {
            Some(ValueDensity::Diffuse)
        } else if is1(code, 'C') {
            Some(ValueDensity::Concentrated)
        } else if is1(code, 'X') {
            Some(ValueDensity::NotDefined)
        } else {
            None
        }
    }

    /// The code that stands for this value in a vector string.
    pub fn as_str(&self) -> (r: &'static str)
        ensures
            r@ == self.code(),
    {
        match self {
            ValueDensity::Diffuse => {
                proof {
                    reveal_strlit("D");
                    assert("D"@ =~= seq!['D']);
                }
                "D"
            },
            ValueDensity::Concentrated => {
                proof {
                    reveal_strlit("C");
                    assert("C"@ =~= seq!['C']);
                }
                "C"
            },
            ValueDensity::NotDefined => {
                proof {
                    reveal_strlit("X");
                    assert("X"@ =~= seq!['X']);
                }
                "X"
            },
        }
    }

    /// The code that stands for this value, as an owned string.
    pub fn to_string(&self) -> (r: String)
        ensures
            r@ == self.code(),
    {
        self.as_str().to_owned()
    }

    /// The code of a metric slot: that of its value where it holds one.
    pub fn slot_str(value: Option<ValueDensity>) -> (r: Option<&'static str>)
        ensures
            str_view(r) == ValueDensity::code_of(value),
    {
        match value {
            Some(v) => Some(v.as_str()),
            None => None,
        }
    }

    /// A value is read back from its own code, and no code holds `/` or `:`.
    pub proof fn lemma_code(self)
        ensures
            ValueDensity::from_code(upper(self.code())) == Some(self),
            free_of(self.code(), '/'),
            free_of(self.code(), ':'),
    {
    }
}

/// Vulnerability Response Effort (RE).
#[derive(Clone, Copy, Debug, PartialEq, Eq, Structural)]
pub enum VulnerabilityResponseEffort {
    Low,
    Moderate,
    High,
    NotDefined,
}

impl VulnerabilityResponseEffort {
    /// The code that stands for this value in a vector string.
    pub open spec fn code(self) -> Seq<char> {
        match self {
            VulnerabilityResponseEffort::Low => seq!['L'],
            VulnerabilityResponseEffort::Moderate => seq!['M'],
            VulnerabilityResponseEffort::High => seq!['H'],
            VulnerabilityResponseEffort::NotDefined => seq!['X'],
        }
    }

    /// The code of a metric slot: that of its value where it holds one.
    pub open spec fn code_of(value: Option<VulnerabilityResponseEffort>) -> Option<Seq<char>> {
        match value {
            Some(v) => Some(v.code()),
            None => None,
        }
    }

    /// The value that a code stands for. The code is compared in upper case.
    pub open spec fn from_code(code: Seq<char>) -> Option<VulnerabilityResponseEffort> {
        if spells1(code, 'L') {
            Some(VulnerabilityResponseEffort::Low)
        } else if spells1(code, 'M') {
            Some(VulnerabilityResponseEffort::Moderate)
        } else if spells1(code, 'H') {
            Some(VulnerabilityResponseEffort::High)
        } else if spells1(code, 'X') {
            Some(VulnerabilityResponseEffort::NotDefined)
        } else {
            None
        }
    }

    /// Reads a value from its code in upper case.
    pub fn parse(code: &Vec<char>) -> (r: Option<VulnerabilityResponseEffort>)
        ensures
            r == VulnerabilityResponseEffort::from_code(code@),
    {
        if is1(code, 'L') {
            Some(VulnerabilityResponseEffort::Low)
        } else if is1(code, 'M') {
            Some(VulnerabilityResponseEffort::Moderate)
        } else if is1(code, 'H') {
            Some(VulnerabilityResponseEffort::High)
        } else if is1(code, 'X') {
            Some(VulnerabilityResponseEffort::NotDefined)
        } else {
            None
        }
    }

    /// The code that stands for this value in a vector string.
    pub fn as_str(&self) -> (r: &'static str)
        ensures
            r@ == self.code(),
    {
        match self {
            VulnerabilityResponseEffort::Low => {
                proof {
                    reveal_strlit("L");
                    assert("L"@ =~= seq!['L']);
                }
                "L"
            },
            VulnerabilityResponseEffort::Moderate => {
                proof {
                    reveal_strlit("M");
                    assert("M"@ =~= seq!['M']);
                }
                "M"
            },
            VulnerabilityResponseEffort::High => {
                proof {
                    reveal_strlit("H");
                    assert("H"@ =~= seq!['H']);
                }
                "H"
            },
            VulnerabilityResponseEffort::NotDefined => {
                proof {
                    reveal_strlit("X");
                    assert("X"@ =~= seq!['X']);
                }
                "X"
            },
        }
    }

    /// The code that stands for this value, as an owned string.
    pub fn to_string(&self) -> (r: String)
        ensures
            r@ == self.code(),
    {
        self.as_str().to_owned()
    }

    /// The code of a metric slot: that of its value where it holds one.
    pub fn slot_str(value: Option<VulnerabilityResponseEffort>) -> (r: Option<&'static str>)
        ensures
            str_view(r) == VulnerabilityResponseEffort::code_of(value),
    {
        match value {
            Some(v) => Some(v.as_str()),
            None => None,
        }
    }

    /// A value is read back from its own code, and no code holds `/` or `:`.
    pub proof fn lemma_code(self)
        ensures
            VulnerabilityResponseEffort::from_code(upper(self.code())) == Some(self),
            free_of(self.code(), '/'),
            free_of(self.code(), ':'),
    {
    }
}

/// Provider Urgency (U).
#[derive(Clone, Copy, Debug, PartialEq, Eq, Structural)]
pub enum ProviderUrgency {
    Clear,
    Green,
    Amber,
    Red,
    NotDefined,
}

impl ProviderUrgency {
    /// The code that stands for this value in a vector string.
    pub open spec fn code(self) -> Seq<char> {
        match self {
            ProviderUrgency::Clear => seq!['C', 'l', 'e', 'a', 'r'],
            ProviderUrgency::Green => seq!['G', 'r', 'e', 'e', 'n'],
            ProviderUrgency::Amber => seq!['A', 'm', 'b', 'e', 'r'],
            ProviderUrgency::Red => seq!['R', 'e', 'd'],
            ProviderUrgency::NotDefined => seq!['X'],
        }
    }

    /// The code of a metric slot: that of its value where it holds one.
    pub open spec fn code_of(value: Option<ProviderUrgency>) -> Option<Seq<char>> {
        match value {
            Some(v) => Some(v.code()),
            None => None,
        }
    }

    /// The value that a code stands for. The code is compared in upper case.
    pub open spec fn from_code(code: Seq<char>) -> Option<ProviderUrgency> {
        if spells5(code, 'C', 'L', 'E', 'A', 'R') {
            Some(ProviderUrgency::Clear)
        } else if spells5(code, 'G', 'R', 'E', 'E', 'N') {
            Some(ProviderUrgency::Green)
        } else if spells5(code, 'A', 'M', 'B', 'E', 'R') {
            Some(ProviderUrgency::Amber)
        } else if spells3(code, 'R', 'E', 'D') {
            Some(ProviderUrgency::Red)
        } else if spells1(code, 'X') {
            Some(ProviderUrgency::NotDefined)
        } else {
            None
        }
    }

    /// Reads a value from its code in upper case.
    pub fn parse(code: &Vec<char>) -> (r: Option<ProviderUrgency>)
        ensures
            r == ProviderUrgency::from_code(code@),
    {
        if is5(code, 'C', 'L', 'E', 'A', 'R') {
            Some(ProviderUrgency::Clear)
        } else if is5(code, 'G', 'R', 'E', 'E', 'N') {
            Some(ProviderUrgency::Green)
        } else if is5(code, 'A', 'M', 'B', 'E', 'R') {
            Some(ProviderUrgency::Amber)
        } else if is3(code, 'R', 'E', 'D') {
            Some(ProviderUrgency::Red)
        } else if is1(code, 'X') {
            Some(ProviderUrgency::NotDefined)
        } else {
            None
        }
    }

    /// The code that stands for this value in a vector string.
    pub fn as_str(&self) -> (r: &'static str)
        ensures
            r@ == self.code(),
    {
        match self {
            ProviderUrgency::Clear => {
                proof {
                    reveal_strlit("Clear");
                    assert("Clear"@ =~= seq!['C', 'l', 'e', 'a', 'r']);
                }
                "Clear"
            },
            ProviderUrgency::Green => {
                proof {
                    reveal_strlit("Green");
                    assert("Green"@ =~= seq!['G', 'r', 'e', 'e', 'n']);
                }
                "Green"
            },
            ProviderUrgency::Amber => {
                proof {
                    reveal_strlit("Amber");
                    assert("Amber"@ =~= seq!['A', 'm', 'b', 'e', 'r']);
                }
                "Amber"
            },
            ProviderUrgency::Red => {
                proof {
                    reveal_strlit("Red");
                    assert("Red"@ =~= seq!['R', 'e', 'd']);
                }
                "Red"
            },
            ProviderUrgency::NotDefined => {
                proof {
                    reveal_strlit("X");
                    assert("X"@ =~= seq!['X']);
                }
                "X"
            },
        }
    }

    /// The code that stands for this value, as an owned string.
    pub fn to_string(&self) -> (r: String)
        ensures
            r@ == self.code(),
    {
        self.as_str().to_owned()
    }

    /// The code of a metric slot: that of its value where it holds one.
    pub fn slot_str(value: Option<ProviderUrgency>) -> (r: Option<&'static str>)
        ensures
            str_view(r) == ProviderUrgency::code_of(value),
    {
        match value {
            Some(v) => Some(v.as_str()),
            None => None,
        }
    }

    /// A value is read back from its own code, and no code holds `/` or `:`.
    pub proof fn lemma_code(self)
        ensures
            ProviderUrgency::from_code(upper(self.code())) == Some(self),
            free_of(self.code(), '/'),
            free_of(self.code(), ':'),
    {
    }
}

impl V4Metrics {
    /// The record in which no metric is present.
    pub open spec fn spec_empty() -> V4Metrics {
        V4Metrics {
            attack_vector: None,
            attack_complexity: None,
            attack_requirements: None,
            privileges_required: None,
            user_interaction: None,
            vuln_confidentiality_impact: None,
            vuln_integrity_impact: None,
            vuln_availability_impact: None,
            sub_confidentiality_impact: None,
            sub_integrity_impact: None,
            sub_availability_impact: None,
            exploit_maturity: None,
            confidentiality_requirement: None,
            integrity_requirement: None,
            availability_requirement: None,
            modified_attack_vector: None,
            modified_attack_complexity: None,
            modified_attack_requirements: None,
            modified_privileges_required: None,
            modified_user_interaction: None,
            modified_vuln_confidentiality_impact: None,
            modified_vuln_integrity_impact: None,
            modified_vuln_availability_impact: None,
            modified_sub_confidentiality_impact: None,
            modified_sub_integrity_impact: None,
            modified_sub_availability_impact: None,
            safety: None,
            automatable: None,
            recovery: None,
            value_density: None,
            vulnerability_response_effort: None,
            provider_urgency: None,
        }
    }

    /// The record in which no metric is present.
    #[verifier::when_used_as_spec(spec_empty)]
    pub fn empty() -> (r: V4Metrics)
        ensures
            r == V4Metrics::spec_empty(),
    {
        V4Metrics {
            attack_vector: None,
            attack_complexity: None,
            attack_requirements: None,
            privileges_required: None,
            user_interaction: None,
            vuln_confidentiality_impact: None,
            vuln_integrity_impact: None,
            vuln_availability_impact: None,
            sub_confidentiality_impact: None,
            sub_integrity_impact: None,
            sub_availability_impact: None,
            exploit_maturity: None,
            confidentiality_requirement: None,
            integrity_requirement: None,
            availability_requirement: None,
            modified_attack_vector: None,
            modified_attack_complexity: None,
            modified_attack_requirements: None,
            modified_privileges_required: None,
            modified_user_interaction: None,
            modified_vuln_confidentiality_impact: None,
            modified_vuln_integrity_impact: None,
            modified_vuln_availability_impact: None,
            modified_sub_confidentiality_impact: None,
            modified_sub_integrity_impact: None,
            modified_sub_availability_impact: None,
            safety: None,
            automatable: None,
            recovery: None,
            value_density: None,
            vulnerability_response_effort: None,
            provider_urgency: None,
        }
    }

    /// The components that render the base metrics that are present.
    pub open spec fn base_parts(self) -> Seq<Seq<char>> {
        opt_part("AV"@, AttackVector::code_of(self.attack_vector))
            + opt_part("AC"@, AttackComplexity::code_of(self.attack_complexity))
            + opt_part("AT"@, AttackRequirements::code_of(self.attack_requirements))
            + opt_part("PR"@, PrivilegesRequired::code_of(self.privileges_required))
            + opt_part("UI"@, UserInteraction::code_of(self.user_interaction))
            + opt_part("VC"@, Impact::code_of(self.vuln_confidentiality_impact))
            + opt_part("VI"@, Impact::code_of(self.vuln_integrity_impact))
            + opt_part("VA"@, Impact::code_of(self.vuln_availability_impact))
            + opt_part("SC"@, SubsequentImpact::code_of(self.sub_confidentiality_impact))
            + opt_part("SI"@, SubsequentImpact::code_of(self.sub_integrity_impact))
            + opt_part("SA"@, SubsequentImpact::code_of(self.sub_availability_impact))
    }

    /// The components that render the threat metrics that are present.
    pub open spec fn threat_parts(self) -> Seq<Seq<char>> {
        opt_part("E"@, ExploitMaturity::code_of(self.exploit_maturity))
    }

    /// The components that render the environmental metrics that are present.
    pub open spec fn environmental_parts(self) -> Seq<Seq<char>> {
        opt_part("CR"@, Requirement::code_of(self.confidentiality_requirement))
            + opt_part("IR"@, Requirement::code_of(self.integrity_requirement))
            + opt_part("AR"@, Requirement::code_of(self.availability_requirement))
            + opt_part("MAV"@, AttackVector::code_of(self.modified_attack_vector))
            + opt_part("MAC"@, AttackComplexity::code_of(self.modified_attack_complexity))
            + opt_part("MAT"@, AttackRequirements::code_of(self.modified_attack_requirements))
            + opt_part("MPR"@, PrivilegesRequired::code_of(self.modified_privileges_required))
            + opt_part("MUI"@, UserInteraction::code_of(self.modified_user_interaction))
            + opt_part("MVC"@, Impact::code_of(self.modified_vuln_confidentiality_impact))
            + opt_part("MVI"@, Impact::code_of(self.modified_vuln_integrity_impact))
            + opt_part("MVA"@, Impact::code_of(self.modified_vuln_availability_impact))
            + opt_part("MSC"@, SubsequentImpact::code_of(self.modified_sub_confidentiality_impact))
            + opt_part("MSI"@, SubsequentImpact::code_of(self.modified_sub_integrity_impact))
            + opt_part("MSA"@, SubsequentImpact::code_of(self.modified_sub_availability_impact))
    }

    /// The components that render the supplemental metrics that are present.
    pub open spec fn supplemental_parts(self) -> Seq<Seq<char>> {
        opt_part("S"@, Safety::code_of(self.safety))
            + opt_part("AU"@, Automatable::code_of(self.automatable))
            + opt_part("R"@, Recovery::code_of(self.recovery))
            + opt_part("V"@, ValueDensity::code_of(self.value_density))
            + opt_part(
            "RE"@,
            VulnerabilityResponseEffort::code_of(self.vulnerability_response_effort),
        )
            + opt_part("U"@, ProviderUrgency::code_of(self.provider_urgency))
    }

    /// The components of the canonical rendering: one for each metric that is present,
    /// in the canonical order.
    pub open spec fn parts(self) -> Seq<Seq<char>> {
        self.base_parts()
            + self.threat_parts()
            + self.environmental_parts()
            + self.supplemental_parts()
    }

    /// Appends the base metrics that are present, each as `/KEY:VALUE`.
    fn push_base(&self, out: &mut Vec<char>)
        ensures
            final(out)@ == old(out)@ + chain(self.base_parts(), '/'),
    {
        let ghost before = out@;
        let ghost mut parts: Seq<Seq<char>> = Seq::empty();
        proof {
            assert(out@ =~= before + chain(parts, '/'));
        }
        push_slot(
            out,
            "AV",
            AttackVector::slot_str(self.attack_vector),
            Ghost(before),
            Ghost(parts),
        );
        proof {
            let part = opt_part("AV"@, AttackVector::code_of(self.attack_vector));
            assert(parts + part =~= part);
            parts = part;
        }
        push_slot(
            out,
            "AC",
            AttackComplexity::slot_str(self.attack_complexity),
            Ghost(before),
            Ghost(parts),
        );
        proof {
            let part = opt_part("AC"@, AttackComplexity::code_of(self.attack_complexity));
            parts = parts + part;
        }
        push_slot(
            out,
            "AT",
            AttackRequirements::slot_str(self.attack_requirements),
            Ghost(before),
            Ghost(parts),
        );
        proof {
            let part = opt_part("AT"@, AttackRequirements::code_of(self.attack_requirements));
            parts = parts + part;
        }
        push_slot(
            out,
            "PR",
            PrivilegesRequired::slot_str(self.privileges_required),
            Ghost(before),
            Ghost(parts),
        );
        proof {
            let part = opt_part("PR"@, PrivilegesRequired::code_of(self.privileges_required));
            parts = parts + part;
        }
        push_slot(
            out,
            "UI",
            UserInteraction::slot_str(self.user_interaction),
            Ghost(before),
            Ghost(parts),
        );
        proof {
            let part = opt_part("UI"@, UserInteraction::code_of(self.user_interaction));
            parts = parts + part;
        }
        push_slot(
            out,
            "VC",
            Impact::slot_str(self.vuln_confidentiality_impact),
            Ghost(before),
            Ghost(parts),
        );
        proof {
            let part = opt_part("VC"@, Impact::code_of(self.vuln_confidentiality_impact));
            parts = parts + part;
        }
        push_slot(
            out,
            "VI",
            Impact::slot_str(self.vuln_integrity_impact),
            Ghost(before),
            Ghost(parts),
        );
        proof {
            let part = opt_part("VI"@, Impact::code_of(self.vuln_integrity_impact));
            parts = parts + part;
        }
        push_slot(
            out,
            "VA",
            Impact::slot_str(self.vuln_availability_impact),
            Ghost(before),
            Ghost(parts),
        );
        proof {
            let part = opt_part("VA"@, Impact::code_of(self.vuln_availability_impact));
            parts = parts + part;
        }
        push_slot(
            out,
            "SC",
            SubsequentImpact::slot_str(self.sub_confidentiality_impact),
            Ghost(before),
            Ghost(parts),
        );
        proof {
            let part = opt_part(
                "SC"@,
                SubsequentImpact::code_of(self.sub_confidentiality_impact),
            );
            parts = parts + part;
        }
        push_slot(
            out,
            "SI",
            SubsequentImpact::slot_str(self.sub_integrity_impact),
            Ghost(before),
            Ghost(parts),
        );
        proof {
            let part = opt_part("SI"@, SubsequentImpact::code_of(self.sub_integrity_impact));
            parts = parts + part;
        }
        push_slot(
            out,
            "SA",
            SubsequentImpact::slot_str(self.sub_availability_impact),
            Ghost(before),
            Ghost(parts),
        );
        proof {
            let part = opt_part(
                "SA"@,
                SubsequentImpact::code_of(self.sub_availability_impact),
            );
            parts = parts + part;
        }
    }

    /// Appends the threat metrics that are present, each as `/KEY:VALUE`.
    fn push_threat(&self, out: &mut Vec<char>)
        ensures
            final(out)@ == old(out)@ + chain(self.threat_parts(), '/'),
    {
        let ghost before = out@;
        let ghost mut parts: Seq<Seq<char>> = Seq::empty();
        proof {
            assert(out@ =~= before + chain(parts, '/'));
        }
        push_slot(
            out,
            "E",
            ExploitMaturity::slot_str(self.exploit_maturity),
            Ghost(before),
            Ghost(parts),
        );
        proof {
            let part = opt_part("E"@, ExploitMaturity::code_of(self.exploit_maturity));
            assert(parts + part =~= part);
            parts = part;
        }
    }

    /// Appends the environmental metrics that are present, each as `/KEY:VALUE`.
    fn push_environmental(&self, out: &mut Vec<char>)
        ensures
            final(out)@ == old(out)@ + chain(self.environmental_parts(), '/'),
    {
        let ghost before = out@;
        let ghost mut parts: Seq<Seq<char>> = Seq::empty();
        proof {
            assert(out@ =~= before + chain(parts, '/'));
        }
        push_slot(
            out,
            "CR",
            Requirement::slot_str(self.confidentiality_requirement),
            Ghost(before),
            Ghost(parts),
        );
        proof {
            let part = opt_part(
                "CR"@,
                Requirement::code_of(self.confidentiality_requirement),
            );
            assert(parts + part =~= part);
            parts = part;
        }
        push_slot(
            out,
            "IR",
            Requirement::slot_str(self.integrity_requirement),
            Ghost(before),
            Ghost(parts),
        );
        proof {
            let part = opt_part("IR"@, Requirement::code_of(self.integrity_requirement));
            parts = parts + part;
        }
        push_slot(
            out,
            "AR",
            Requirement::slot_str(self.availability_requirement),
            Ghost(before),
            Ghost(parts),
        );
        proof {
            let part = opt_part("AR"@, Requirement::code_of(self.availability_requirement));
            parts = parts + part;
        }
        push_slot(
            out,
            "MAV",
            AttackVector::slot_str(self.modified_attack_vector),
            Ghost(before),
            Ghost(parts),
        );
        proof {
            let part = opt_part("MAV"@, AttackVector::code_of(self.modified_attack_vector));
            parts = parts + part;
        }
        push_slot(
            out,
            "MAC",
            AttackComplexity::slot_str(self.modified_attack_complexity),
            Ghost(before),
            Ghost(parts),
        );
        proof {
            let part = opt_part(
                "MAC"@,
                AttackComplexity::code_of(self.modified_attack_complexity),
            );
            parts = parts + part;
        }
        push_slot(
            out,
            "MAT",
            AttackRequirements::slot_str(self.modified_attack_requirements),
            Ghost(before),
            Ghost(parts),
        );
        proof {
            let part = opt_part(
                "MAT"@,
                AttackRequirements::code_of(self.modified_attack_requirements),
            );
            parts = parts + part;
        }
        push_slot(
            out,
            "MPR",
            PrivilegesRequired::slot_str(self.modified_privileges_required),
            Ghost(before),
            Ghost(parts),
        );
        proof {
            let part = opt_part(
                "MPR"@,
                PrivilegesRequired::code_of(self.modified_privileges_required),
            );
            parts = parts + part;
        }
        push_slot(
            out,
            "MUI",
            UserInteraction::slot_str(self.modified_user_interaction),
            Ghost(before),
            Ghost(parts),
        );
        proof {
            let part = opt_part(
                "MUI"@,
                UserInteraction::code_of(self.modified_user_interaction),
            );
            parts = parts + part;
        }
        push_slot(
            out,
            "MVC",
            Impact::slot_str(self.modified_vuln_confidentiality_impact),
            Ghost(before),
            Ghost(parts),
        );
        proof {
            let part = opt_part(
                "MVC"@,
                Impact::code_of(self.modified_vuln_confidentiality_impact),
            );
            parts = parts + part;
        }
        push_slot(
            out,
            "MVI",
            Impact::slot_str(self.modified_vuln_integrity_impact),
            Ghost(before),
            Ghost(parts),
        );
        proof {
            let part = opt_part("MVI"@, Impact::code_of(self.modified_vuln_integrity_impact));
            parts = parts + part;
        }
        push_slot(
            out,
            "MVA",
            Impact::slot_str(self.modified_vuln_availability_impact),
            Ghost(before),
            Ghost(parts),
        );
        proof {
            let part = opt_part(
                "MVA"@,
                Impact::code_of(self.modified_vuln_availability_impact),
            );
            parts = parts + part;
        }
        push_slot(
            out,
            "MSC",
            SubsequentImpact::slot_str(self.modified_sub_confidentiality_impact),
            Ghost(before),
            Ghost(parts),
        );
        proof {
            let part = opt_part(
                "MSC"@,
                SubsequentImpact::code_of(self.modified_sub_confidentiality_impact),
            );
            parts = parts + part;
        }
        push_slot(
            out,
            "MSI",
            SubsequentImpact::slot_str(self.modified_sub_integrity_impact),
            Ghost(before),
            Ghost(parts),
        );
        proof {
            let part = opt_part(
                "MSI"@,
                SubsequentImpact::code_of(self.modified_sub_integrity_impact),
            );
            parts = parts + part;
        }
        push_slot(
            out,
            "MSA",
            SubsequentImpact::slot_str(self.modified_sub_availability_impact),
            Ghost(before),
            Ghost(parts),
        );
        proof {
            let part = opt_part(
                "MSA"@,
                SubsequentImpact::code_of(self.modified_sub_availability_impact),
            );
            parts = parts + part;
        }
    }

    /// Appends the supplemental metrics that are present, each as `/KEY:VALUE`.
    fn push_supplemental(&self, out: &mut Vec<char>)
        ensures
            final(out)@ == old(out)@ + chain(self.supplemental_parts(), '/'),
    {
        let ghost before = out@;
        let ghost mut parts: Seq<Seq<char>> = Seq::empty();
        proof {
            assert(out@ =~= before + chain(parts, '/'));
        }
        push_slot(out, "S", Safety::slot_str(self.safety), Ghost(before), Ghost(parts));
        proof {
            let part = opt_part("S"@, Safety::code_of(self.safety));
            assert(parts + part =~= part);
            parts = part;
        }
        push_slot(out, "AU", Automatable::slot_str(self.automatable), Ghost(before), Ghost(parts));
        proof {
            let part = opt_part("AU"@, Automatable::code_of(self.automatable));
            parts = parts + part;
        }
        push_slot(out, "R", Recovery::slot_str(self.recovery), Ghost(before), Ghost(parts));
        proof {
            let part = opt_part("R"@, Recovery::code_of(self.recovery));
            parts = parts + part;
        }
        push_slot(
            out,
            "V",
            ValueDensity::slot_str(self.value_density),
            Ghost(before),
            Ghost(parts),
        );
        proof {
            let part = opt_part("V"@, ValueDensity::code_of(self.value_density));
            parts = parts + part;
        }
        push_slot(
            out,
            "RE",
            VulnerabilityResponseEffort::slot_str(self.vulnerability_response_effort),
            Ghost(before),
            Ghost(parts),
        );
        proof {
            let part = opt_part(
                "RE"@,
                VulnerabilityResponseEffort::code_of(self.vulnerability_response_effort),
            );
            parts = parts + part;
        }
        push_slot(
            out,
            "U",
            ProviderUrgency::slot_str(self.provider_urgency),
            Ghost(before),
            Ghost(parts),
        );
        proof {
            let part = opt_part("U"@, ProviderUrgency::code_of(self.provider_urgency));
            parts = parts + part;
        }
    }

    /// Sets the metric that `key` names to the value that `value` stands for.
    /// Key and value are in upper case.
    pub fn set(self, key: &Vec<char>, value: &Vec<char>) -> (r: Result<V4Metrics, ParseError>)
        ensures
            agrees(r, set_metric(self, key@, value@)),
    {
        if is2(key, 'A', 'V') {
            match AttackVector::parse(value) {
                Some(v) => Ok(V4Metrics { attack_vector: Some(v), ..self }),
                None => Err(invalid_value(key, value)),
            }
        } else if is2(key, 'A', 'C') {
            match AttackComplexity::parse(value) {
                Some(v) => Ok(V4Metrics { attack_complexity: Some(v), ..self }),
                None => Err(invalid_value(key, value)),
            }
        } else if is2(key, 'A', 'T') {
            match AttackRequirements::parse(value) {
                Some(v) => Ok(V4Metrics { attack_requirements: Some(v), ..self }),
                None => Err(invalid_value(key, value)),
            }
        } else if is2(key, 'P', 'R') {
            match PrivilegesRequired::parse(value) {
                Some(v) => Ok(V4Metrics { privileges_required: Some(v), ..self }),
                None => Err(invalid_value(key, value)),
            }
        } else if is2(key, 'U', 'I') {
            match UserInteraction::parse(value) {
                Some(v) => Ok(V4Metrics { user_interaction: Some(v), ..self }),
                None => Err(invalid_value(key, value)),
            }
        } else if is2(key, 'V', 'C') {
            match Impact::parse(value) {
                Some(v) => Ok(V4Metrics { vuln_confidentiality_impact: Some(v), ..self }),
                None => Err(invalid_value(key, value)),
            }
        } else if is2(key, 'V', 'I') {
            match Impact::parse(value) {
                Some(v) => Ok(V4Metrics { vuln_integrity_impact: Some(v), ..self }),
                None => Err(invalid_value(key, value)),
            }
        } else if is2(key, 'V', 'A') {
            match Impact::parse(value) {
                Some(v) => Ok(V4Metrics { vuln_availability_impact: Some(v), ..self }),
                None => Err(invalid_value(key, value)),
            }
        } else if is2(key, 'S', 'C') {
            match SubsequentImpact::parse(value) {
                Some(v) => Ok(V4Metrics { sub_confidentiality_impact: Some(v), ..self }),
                None => Err(invalid_value(key, value)),
            }
        } else if is2(key, 'S', 'I') {
            match SubsequentImpact::parse(value) {
                Some(v) => Ok(V4Metrics { sub_integrity_impact: Some(v), ..self }),
                None => Err(invalid_value(key, value)),
            }
        } else if is2(key, 'S', 'A') {
            match SubsequentImpact::parse(value) {
                Some(v) => Ok(V4Metrics { sub_availability_impact: Some(v), ..self }),
                None => Err(invalid_value(key, value)),
            }
        } else if is1(key, 'E') {
            match ExploitMaturity::parse(value) {
                Some(v) => Ok(V4Metrics { exploit_maturity: Some(v), ..self }),
                None => Err(invalid_value(key, value)),
            }
        } else if is2(key, 'C', 'R') {
            match Requirement::parse(value) {
                Some(v) => Ok(V4Metrics { confidentiality_requirement: Some(v), ..self }),
                None => Err(invalid_value(key, value)),
            }
        } else if is2(key, 'I', 'R') {
            match Requirement::parse(value) {
                Some(v) => Ok(V4Metrics { integrity_requirement: Some(v), ..self }),
                None => Err(invalid_value(key, value)),
            }
        } else if is2(key, 'A', 'R') {
            match Requirement::parse(value) {
                Some(v) => Ok(V4Metrics { availability_requirement: Some(v), ..self }),
                None => Err(invalid_value(key, value)),
            }
        } else if is3(key, 'M', 'A', 'V') {
            match AttackVector::parse(value) {
                Some(v) => Ok(V4Metrics { modified_attack_vector: Some(v), ..self }),
                None => Err(invalid_value(key, value)),
            }
        } else if is3(key, 'M', 'A', 'C') {
            match AttackComplexity::parse(value) {
                Some(v) => Ok(V4Metrics { modified_attack_complexity: Some(v), ..self }),
                None => Err(invalid_value(key, value)),
            }
        } else if is3(key, 'M', 'A', 'T') {
            match AttackRequirements::parse(value) {
                Some(v) => Ok(V4Metrics { modified_attack_requirements: Some(v), ..self }),
                None => Err(invalid_value(key, value)),
            }
        } else if is3(key, 'M', 'P', 'R') {
            match PrivilegesRequired::parse(value) {
                Some(v) => Ok(V4Metrics { modified_privileges_required: Some(v), ..self }),
                None => Err(invalid_value(key, value)),
            }
        } else if is3(key, 'M', 'U', 'I') {
            match UserInteraction::parse(value) {
                Some(v) => Ok(V4Metrics { modified_user_interaction: Some(v), ..self }),
                None => Err(invalid_value(key, value)),
            }
        } else if is3(key, 'M', 'V', 'C') {
            match Impact::parse(value) {
                Some(v) => Ok(V4Metrics { modified_vuln_confidentiality_impact: Some(v), ..self }),
                None => Err(invalid_value(key, value)),
            }
        } else if is3(key, 'M', 'V', 'I') {
            match Impact::parse(value) {
                Some(v) => Ok(V4Metrics { modified_vuln_integrity_impact: Some(v), ..self }),
                None => Err(invalid_value(key, value)),
            }
        } else if is3(key, 'M', 'V', 'A') {
            match Impact::parse(value) {
                Some(v) => Ok(V4Metrics { modified_vuln_availability_impact: Some(v), ..self }),
                None => Err(invalid_value(key, value)),
            }
        } else if is3(key, 'M', 'S', 'C') {
            match SubsequentImpact::parse(value) {
                Some(v) => Ok(V4Metrics { modified_sub_confidentiality_impact: Some(v), ..self }),
                None => Err(invalid_value(key, value)),
            }
        } else if is3(key, 'M', 'S', 'I') {
            match SubsequentImpact::parse(value) {
                Some(v) => Ok(V4Metrics { modified_sub_integrity_impact: Some(v), ..self }),
                None => Err(invalid_value(key, value)),
            }
        } else if is3(key, 'M', 'S', 'A') {
            match SubsequentImpact::parse(value) {
                Some(v) => Ok(V4Metrics { modified_sub_availability_impact: Some(v), ..self }),
                None => Err(invalid_value(key, value)),
            }
        } else if is1(key, 'S') {
            match Safety::parse(value) {
                Some(v) => Ok(V4Metrics { safety: Some(v), ..self }),
                None => Err(invalid_value(key, value)),
            }
        } else if is2(key, 'A', 'U') {
            match Automatable::parse(value) {
                Some(v) => Ok(V4Metrics { automatable: Some(v), ..self }),
                None => Err(invalid_value(key, value)),
            }
        } else if is1(key, 'R') {
            match Recovery::parse(value) {
                Some(v) => Ok(V4Metrics { recovery: Some(v), ..self }),
                None => Err(invalid_value(key, value)),
            }
        } else if is1(key, 'V') {
            match ValueDensity::parse(value) {
                Some(v) => Ok(V4Metrics { value_density: Some(v), ..self }),
                None => Err(invalid_value(key, value)),
            }
        } else if is2(key, 'R', 'E') {
            match VulnerabilityResponseEffort::parse(value) {
                Some(v) => Ok(V4Metrics { vulnerability_response_effort: Some(v), ..self }),
                None => Err(invalid_value(key, value)),
            }
        } else if is1(key, 'U') {
            match ProviderUrgency::parse(value) {
                Some(v) => Ok(V4Metrics { provider_urgency: Some(v), ..self }),
                None => Err(invalid_value(key, value)),
            }
        } else {
            Err(ParseError::UnknownMetric { metric: to_string(key) })
        }
    }

    /// Reads one segment of a vector into the record. An empty segment changes nothing.
    pub fn read(self, segment: &Vec<char>) -> (r: Result<V4Metrics, ParseError>)
        ensures
            agrees(r, read_component(self, segment@)),
    {
        if segment.len() == 0 {
            return Ok(self);
        }
        match read_key_value(segment) {
            Some((key, value)) => self.set(&key, &value),
            None => Err(ParseError::InvalidComponent { component: to_string(segment) }),
        }
    }
}

/// The record after the metric that `key` names has been set to the value that `value`
/// stands for. Key and value are in upper case. A later value replaces an earlier one.
pub open spec fn set_metric(m: V4Metrics, key: Seq<char>, value: Seq<char>) -> Result<
    V4Metrics,
    ParseErrorView,
> {
    if spells2(key, 'A', 'V') {
        match AttackVector::from_code(value) {
            Some(v) => Ok(V4Metrics { attack_vector: Some(v), ..m }),
            None => Err(ParseErrorView::InvalidMetricValue { metric: key, value }),
        }
    } else if spells2(key, 'A', 'C') {
        match AttackComplexity::from_code(value) {
            Some(v) => Ok(V4Metrics { attack_complexity: Some(v), ..m }),
            None => Err(ParseErrorView::InvalidMetricValue { metric: key, value }),
        }
    } else if spells2(key, 'A', 'T') {
        match AttackRequirements::from_code(value) {
            Some(v) => Ok(V4Metrics { attack_requirements: Some(v), ..m }),
            None => Err(ParseErrorView::InvalidMetricValue { metric: key, value }),
        }
    } else if spells2(key, 'P', 'R') {
        match PrivilegesRequired::from_code(value) {
            Some(v) => Ok(V4Metrics { privileges_required: Some(v), ..m }),
            None => Err(ParseErrorView::InvalidMetricValue { metric: key, value }),
        }
    } else if spells2(key, 'U', 'I') {
        match UserInteraction::from_code(value) {
            Some(v) => Ok(V4Metrics { user_interaction: Some(v), ..m }),
            None => Err(ParseErrorView::InvalidMetricValue { metric: key, value }),
        }
    } else if spells2(key, 'V', 'C') {
        match Impact::from_code(value) {
            Some(v) => Ok(V4Metrics { vuln_confidentiality_impact: Some(v), ..m }),
            None => Err(ParseErrorView::InvalidMetricValue { metric: key, value }),
        }
    } else if spells2(key, 'V', 'I') {
        match Impact::from_code(value) {
            Some(v) => Ok(V4Metrics { vuln_integrity_impact: Some(v), ..m }),
            None => Err(ParseErrorView::InvalidMetricValue { metric: key, value }),
        }
    } else if spells2(key, 'V', 'A') {
        match Impact::from_code(value) {
            Some(v) => Ok(V4Metrics { vuln_availability_impact: Some(v), ..m }),
            None => Err(ParseErrorView::InvalidMetricValue { metric: key, value }),
        }
    } else if spells2(key, 'S', 'C') {
        match SubsequentImpact::from_code(value) {
            Some(v) => Ok(V4Metrics { sub_confidentiality_impact: Some(v), ..m }),
            None => Err(ParseErrorView::InvalidMetricValue { metric: key, value }),
        }
    } else if spells2(key, 'S', 'I') {
        match SubsequentImpact::from_code(value) {
            Some(v) => Ok(V4Metrics { sub_integrity_impact: Some(v), ..m }),
            None => Err(ParseErrorView::InvalidMetricValue { metric: key, value }),
        }
    } else if spells2(key, 'S', 'A') {
        match SubsequentImpact::from_code(value) {
            Some(v) => Ok(V4Metrics { sub_availability_impact: Some(v), ..m }),
            None => Err(ParseErrorView::InvalidMetricValue { metric: key, value }),
        }
    } else if spells1(key, 'E') {
        match ExploitMaturity::from_code(value) {
            Some(v) => Ok(V4Metrics { exploit_maturity: Some(v), ..m }),
            None => Err(ParseErrorView::InvalidMetricValue { metric: key, value }),
        }
    } else if spells2(key, 'C', 'R') {
        match Requirement::from_code(value) {
            Some(v) => Ok(V4Metrics { confidentiality_requirement: Some(v), ..m }),
            None => Err(ParseErrorView::InvalidMetricValue { metric: key, value }),
        }
    } else if spells2(key, 'I', 'R') {
        match Requirement::from_code(value) {
            Some(v) => Ok(V4Metrics { integrity_requirement: Some(v), ..m }),
            None => Err(ParseErrorView::InvalidMetricValue { metric: key, value }),
        }
    } else if spells2(key, 'A', 'R') {
        match Requirement::from_code(value) {
            Some(v) => Ok(V4Metrics { availability_requirement: Some(v), ..m }),
            None => Err(ParseErrorView::InvalidMetricValue { metric: key, value }),
        }
    } else if spells3(key, 'M', 'A', 'V') {
        match AttackVector::from_code(value) {
            Some(v) => Ok(V4Metrics { modified_attack_vector: Some(v), ..m }),
            None => Err(ParseErrorView::InvalidMetricValue { metric: key, value }),
        }
    } else if spells3(key, 'M', 'A', 'C') {
        match AttackComplexity::from_code(value) {
            Some(v) => Ok(V4Metrics { modified_attack_complexity: Some(v), ..m }),
            None => Err(ParseErrorView::InvalidMetricValue { metric: key, value }),
        }
    } else if spells3(key, 'M', 'A', 'T') {
        match AttackRequirements::from_code(value) {
            Some(v) => Ok(V4Metrics { modified_attack_requirements: Some(v), ..m }),
            None => Err(ParseErrorView::InvalidMetricValue { metric: key, value }),
        }
    } else if spells3(key, 'M', 'P', 'R') {
        match PrivilegesRequired::from_code(value) {
            Some(v) => Ok(V4Metrics { modified_privileges_required: Some(v), ..m }),
            None => Err(ParseErrorView::InvalidMetricValue { metric: key, value }),
        }
    } else if spells3(key, 'M', 'U', 'I') {
        match UserInteraction::from_code(value) {
            Some(v) => Ok(V4Metrics { modified_user_interaction: Some(v), ..m }),
            None => Err(ParseErrorView::InvalidMetricValue { metric: key, value }),
        }
    } else if spells3(key, 'M', 'V', 'C') {
        match Impact::from_code(value) {
            Some(v) => Ok(V4Metrics { modified_vuln_confidentiality_impact: Some(v), ..m }),
            None => Err(ParseErrorView::InvalidMetricValue { metric: key, value }),
        }
    } else if spells3(key, 'M', 'V', 'I') {
        match Impact::from_code(value) {
            Some(v) => Ok(V4Metrics { modified_vuln_integrity_impact: Some(v), ..m }),
            None => Err(ParseErrorView::InvalidMetricValue { metric: key, value }),
        }
    } else if spells3(key, 'M', 'V', 'A') {
        match Impact::from_code(value) {
            Some(v) => Ok(V4Metrics { modified_vuln_availability_impact: Some(v), ..m }),
            None => Err(ParseErrorView::InvalidMetricValue { metric: key, value }),
        }
    } else if spells3(key, 'M', 'S', 'C') {
        match SubsequentImpact::from_code(value) {
            Some(v) => Ok(V4Metrics { modified_sub_confidentiality_impact: Some(v), ..m }),
            None => Err(ParseErrorView::InvalidMetricValue { metric: key, value }),
        }
    } else if spells3(key, 'M', 'S', 'I') {
        match SubsequentImpact::from_code(value) {
            Some(v) => Ok(V4Metrics { modified_sub_integrity_impact: Some(v), ..m }),
            None => Err(ParseErrorView::InvalidMetricValue { metric: key, value }),
        }
    } else if spells3(key, 'M', 'S', 'A') {
        match SubsequentImpact::from_code(value) {
            Some(v) => Ok(V4Metrics { modified_sub_availability_impact: Some(v), ..m }),
            None => Err(ParseErrorView::InvalidMetricValue { metric: key, value }),
        }
    } else if spells1(key, 'S') {
        match Safety::from_code(value) {
            Some(v) => Ok(V4Metrics { safety: Some(v), ..m }),
            None => Err(ParseErrorView::InvalidMetricValue { metric: key, value }),
        }
    } else if spells2(key, 'A', 'U') {
        match Automatable::from_code(value) {
            Some(v) => Ok(V4Metrics { automatable: Some(v), ..m }),
            None => Err(ParseErrorView::InvalidMetricValue { metric: key, value }),
        }
    } else if spells1(key, 'R') {
        match Recovery::from_code(value) {
            Some(v) => Ok(V4Metrics { recovery: Some(v), ..m }),
            None => Err(ParseErrorView::InvalidMetricValue { metric: key, value }),
        }
    } else if spells1(key, 'V') {
        match ValueDensity::from_code(value) {
            Some(v) => Ok(V4Metrics { value_density: Some(v), ..m }),
            None => Err(ParseErrorView::InvalidMetricValue { metric: key, value }),
        }
    } else if spells2(key, 'R', 'E') {
        match VulnerabilityResponseEffort::from_code(value) {
            Some(v) => Ok(V4Metrics { vulnerability_response_effort: Some(v), ..m }),
            None => Err(ParseErrorView::InvalidMetricValue { metric: key, value }),
        }
    } else if spells1(key, 'U') {
        match ProviderUrgency::from_code(value) {
            Some(v) => Ok(V4Metrics { provider_urgency: Some(v), ..m }),
            None => Err(ParseErrorView::InvalidMetricValue { metric: key, value }),
        }
    } else {
        Err(ParseErrorView::UnknownMetric { metric: key })
    }
}

/// The record after one segment of a vector has been read. An empty segment changes
/// nothing; any other must hold exactly one `:`.
pub open spec fn read_component(m: V4Metrics, segment: Seq<char>) -> Result<
    V4Metrics,
    ParseErrorView,
> {
    if segment.len() == 0 {
        Ok(m)
    } else {
        match key_value(segment) {
            Some((key, value)) => set_metric(m, key, value),
            None => Err(ParseErrorView::InvalidComponent { component: segment }),
        }
    }
}

/// The record after the segments have been read from left to right; the first error ends
/// the reading.
pub open spec fn read_components(m: V4Metrics, segments: Seq<Seq<char>>) -> Result<
    V4Metrics,
    ParseErrorView,
>
    decreases segments.len(),
{
    if segments.len() == 0 {
        Ok(m)
    } else {
        match read_component(m, segments[0]) {
            Ok(next) => read_components(next, segments.drop_first()),
            Err(e) => Err(e),
        }
    }
}

/// The first segment of every rendered vector.
pub open spec fn prefix() -> Seq<char> {
    seq!['C', 'V', 'S', 'S', ':', '4', '.', '0']
}

/// Whether the version literal of a vector is one that this record type stands for.
pub open spec fn known_version(version: Seq<char>) -> bool {
    spells3(version, '4', '.', '0')
}

/// What parsing a vector string gives: the metrics it holds, or the first error.
///
/// The string is cut at every `/`. The first segment must read `CVSS:4.0`,
/// the word `CVSS` in any mix of cases. Every other segment is empty or holds a known
/// key, one `:` and a value of that key's metric, both in any mix of cases.
pub open spec fn parse_metrics(s: Seq<char>) -> Result<V4Metrics, ParseErrorView> {
    let segments = split(s, '/');
    match prefix_version(segments[0]) {
        Err(e) => Err(e),
        Ok(version) => if known_version(version) {
            read_components(V4Metrics::empty(), segments.drop_first())
        } else {
            Err(ParseErrorView::InvalidVersion { version })
        },
    }
}

/// The canonical vector string of the metrics: the version prefix, then the metrics that
/// are present, each as `/KEY:VALUE`, in the canonical order.
pub open spec fn render_metrics(m: V4Metrics) -> Seq<char> {
    join(seq![prefix()] + m.parts(), '/')
}

/// Parsing the canonical rendering of any record gives back its metric values.
pub proof fn lemma_round_trip(m: V4Metrics)
    ensures
        parse_metrics(render_metrics(m)) == Ok::<V4Metrics, ParseErrorView>(m),
{
    let first = prefix();
    let segments = seq![first] + m.parts();
    lemma_read_parts(m);
    assert(all_free_of(seq![first], '/'));
    lemma_all_free_concat(seq![first], m.parts(), '/');
    lemma_split_join(segments, '/');
    assert(segments[0] == first);
    assert(segments.drop_first() =~= m.parts());
    let word = seq!['C', 'V', 'S', 'S'];
    let version = first.skip(5);
    assert(first =~= word + seq![':'] + version);
    lemma_split_cons(word, version, ':');
    lemma_split_free(version, ':');
    assert(upper(word) =~= word);
}

/// The error for a value that the metric `key` does not have.
fn invalid_value(key: &Vec<char>, value: &Vec<char>) -> (e: ParseError)
    ensures
        e@ == (ParseErrorView::InvalidMetricValue { metric: key@, value: value@ }),
{
    ParseError::InvalidMetricValue { metric: to_string(key), value: to_string(value) }
}

/// Reading `first` and then `rest` is reading `first` and going on from its result.
pub proof fn lemma_read_cons(m: V4Metrics, first: Seq<char>, rest: Seq<Seq<char>>)
    ensures
        read_components(m, seq![first] + rest) == match read_component(m, first) {
            Ok(next) => read_components(next, rest),
            Err(e) => Err(e),
        },
{
    let all = seq![first] + rest;
    assert(all[0] == first);
    assert(all.drop_first() =~= rest);
}

/// Reading `a + b` is reading `a` and going on with `b` from its result.
pub proof fn lemma_read_concat(m: V4Metrics, a: Seq<Seq<char>>, b: Seq<Seq<char>>)
    ensures
        read_components(m, a + b) == match read_components(m, a) {
            Ok(next) => read_components(next, b),
            Err(e) => Err(e),
        },
    decreases a.len(),
{
    if a.len() == 0 {
        assert(a + b =~= b);
    } else {
        assert((a + b)[0] == a[0]);
        assert((a + b).drop_first() =~= a.drop_first() + b);
        match read_component(m, a[0]) {
            Ok(next) => lemma_read_concat(next, a.drop_first(), b),
            Err(e) => {},
        }
    }
}

/// Reading fails only with an error of a kind that parsing raises.
pub proof fn lemma_read_errors(m: V4Metrics, segments: Seq<Seq<char>>)
    ensures
        match read_components(m, segments) {
            Ok(_) => true,
            Err(e) => raised(e),
        },
    decreases segments.len(),
{
    if segments.len() > 0 {
        match read_component(m, segments[0]) {
            Ok(next) => lemma_read_errors(next, segments.drop_first()),
            Err(e) => {},
        }
    }
}

/// Parsing fails only with an error of a kind that parsing raises: never with one of the
/// reserved kinds, for a metric that is missing or given twice.
pub proof fn lemma_parse_errors(s: Seq<char>)
    ensures
        match parse_metrics(s) {
            Ok(_) => true,
            Err(e) => raised(e),
        },
{
    lemma_read_errors(V4Metrics::empty(), split(s, '/').drop_first());
}

/// Reading the rendering of one metric slot sets that metric, or changes nothing where
/// the slot is empty.
pub proof fn lemma_read_part(m: V4Metrics, key: Seq<char>, code: Seq<char>)
    requires
        free_of(key, ':'),
        free_of(code, ':'),
    ensures
        read_components(m, seq![component(key, code)]) == set_metric(m, upper(key), upper(code)),
{
    let c = component(key, code);
    lemma_key_value_of(key, code);
    lemma_read_cons(m, c, Seq::empty());
    assert(seq![c] + Seq::<Seq<char>>::empty() =~= seq![c]);
    assert(c.len() > 0);
}

proof fn lemma_read_attack_vector(m: V4Metrics, value: Option<AttackVector>)
    ensures
        read_components(m, opt_part("AV"@, AttackVector::code_of(value)))
            == Ok::<V4Metrics, ParseErrorView>(
            match value {
                Some(v) => V4Metrics { attack_vector: Some(v), ..m },
                None => m,
            },
        ),
        all_free_of(opt_part("AV"@, AttackVector::code_of(value)), '/'),
{
    reveal_strlit("AV");
    let key = "AV"@;
    assert(key =~= seq!['A', 'V']);
    match value {
        Some(v) => {
            v.lemma_code();
            lemma_read_part(m, key, v.code());
            assert(upper(key) =~= seq!['A', 'V']);
        },
        None => {},
    }
}

proof fn lemma_read_attack_complexity(m: V4Metrics, value: Option<AttackComplexity>)
    ensures
        read_components(m, opt_part("AC"@, AttackComplexity::code_of(value)))
            == Ok::<V4Metrics, ParseErrorView>(
            match value {
                Some(v) => V4Metrics { attack_complexity: Some(v), ..m },
                None => m,
            },
        ),
        all_free_of(opt_part("AC"@, AttackComplexity::code_of(value)), '/'),
{
    reveal_strlit("AC");
    let key = "AC"@;
    assert(key =~= seq!['A', 'C']);
    match value {
        Some(v) => {
            v.lemma_code();
            lemma_read_part(m, key, v.code());
            assert(upper(key) =~= seq!['A', 'C']);
        },
        None => {},
    }
}

proof fn lemma_read_attack_requirements(m: V4Metrics, value: Option<AttackRequirements>)
    ensures
        read_components(m, opt_part("AT"@, AttackRequirements::code_of(value)))
            == Ok::<V4Metrics, ParseErrorView>(
            match value {
                Some(v) => V4Metrics { attack_requirements: Some(v), ..m },
                None => m,
            },
        ),
        all_free_of(opt_part("AT"@, AttackRequirements::code_of(value)), '/'),
{
    reveal_strlit("AT");
    let key = "AT"@;
    assert(key =~= seq!['A', 'T']);
    match value {
        Some(v) => {
            v.lemma_code();
            lemma_read_part(m, key, v.code());
            assert(upper(key) =~= seq!['A', 'T']);
        },
        None => {},
    }
}

proof fn lemma_read_privileges_required(m: V4Metrics, value: Option<PrivilegesRequired>)
    ensures
        read_components(m, opt_part("PR"@, PrivilegesRequired::code_of(value)))
            == Ok::<V4Metrics, ParseErrorView>(
            match value {
                Some(v) => V4Metrics { privileges_required: Some(v), ..m },
                None => m,
            },
        ),
        all_free_of(opt_part("PR"@, PrivilegesRequired::code_of(value)), '/'),
{
    reveal_strlit("PR");
    let key = "PR"@;
    assert(key =~= seq!['P', 'R']);
    match value {
        Some(v) => {
            v.lemma_code();
            lemma_read_part(m, key, v.code());
            assert(upper(key) =~= seq!['P', 'R']);
        },
        None => {},
    }
}

proof fn lemma_read_user_interaction(m: V4Metrics, value: Option<UserInteraction>)
    ensures
        read_components(m, opt_part("UI"@, UserInteraction::code_of(value)))
            == Ok::<V4Metrics, ParseErrorView>(
            match value {
                Some(v) => V4Metrics { user_interaction: Some(v), ..m },
                None => m,
            },
        ),
        all_free_of(opt_part("UI"@, UserInteraction::code_of(value)), '/'),
{
    reveal_strlit("UI");
    let key = "UI"@;
    assert(key =~= seq!['U', 'I']);
    match value {
        Some(v) => {
            v.lemma_code();
            lemma_read_part(m, key, v.code());
            assert(upper(key) =~= seq!['U', 'I']);
        },
        None => {},
    }
}

proof fn lemma_read_vuln_confidentiality_impact(m: V4Metrics, value: Option<Impact>)
    ensures
        read_components(m, opt_part("VC"@, Impact::code_of(value)))
            == Ok::<V4Metrics, ParseErrorView>(
            match value {
                Some(v) => V4Metrics { vuln_confidentiality_impact: Some(v), ..m },
                None => m,
            },
        ),
        all_free_of(opt_part("VC"@, Impact::code_of(value)), '/'),
{
    reveal_strlit("VC");
    let key = "VC"@;
    assert(key =~= seq!['V', 'C']);
    match value {
        Some(v) => {
            v.lemma_code();
            lemma_read_part(m, key, v.code());
            assert(upper(key) =~= seq!['V', 'C']);
        },
        None => {},
    }
}

proof fn lemma_read_vuln_integrity_impact(m: V4Metrics, value: Option<Impact>)
    ensures
        read_components(m, opt_part("VI"@, Impact::code_of(value)))
            == Ok::<V4Metrics, ParseErrorView>(
            match value {
                Some(v) => V4Metrics { vuln_integrity_impact: Some(v), ..m },
                None => m,
            },
        ),
        all_free_of(opt_part("VI"@, Impact::code_of(value)), '/'),
{
    reveal_strlit("VI");
    let key = "VI"@;
    assert(key =~= seq!['V', 'I']);
    match value {
        Some(v) => {
            v.lemma_code();
            lemma_read_part(m, key, v.code());
            assert(upper(key) =~= seq!['V', 'I']);
        },
        None => {},
    }
}

proof fn lemma_read_vuln_availability_impact(m: V4Metrics, value: Option<Impact>)
    ensures
        read_components(m, opt_part("VA"@, Impact::code_of(value)))
            == Ok::<V4Metrics, ParseErrorView>(
            match value {
                Some(v) => V4Metrics { vuln_availability_impact: Some(v), ..m },
                None => m,
            },
        ),
        all_free_of(opt_part("VA"@, Impact::code_of(value)), '/'),
{
    reveal_strlit("VA");
    let key = "VA"@;
    assert(key =~= seq!['V', 'A']);
    match value {
        Some(v) => {
            v.lemma_code();
            lemma_read_part(m, key, v.code());
            assert(upper(key) =~= seq!['V', 'A']);
        },
        None => {},
    }
}

proof fn lemma_read_sub_confidentiality_impact(m: V4Metrics, value: Option<SubsequentImpact>)
    ensures
        read_components(m, opt_part("SC"@, SubsequentImpact::code_of(value)))
            == Ok::<V4Metrics, ParseErrorView>(
            match value {
                Some(v) => V4Metrics { sub_confidentiality_impact: Some(v), ..m },
                None => m,
            },
        ),
        all_free_of(opt_part("SC"@, SubsequentImpact::code_of(value)), '/'),
{
    reveal_strlit("SC");
    let key = "SC"@;
    assert(key =~= seq!['S', 'C']);
    match value {
        Some(v) => {
            v.lemma_code();
            lemma_read_part(m, key, v.code());
            assert(upper(key) =~= seq!['S', 'C']);
        },
        None => {},
    }
}

proof fn lemma_read_sub_integrity_impact(m: V4Metrics, value: Option<SubsequentImpact>)
    ensures
        read_components(m, opt_part("SI"@, SubsequentImpact::code_of(value)))
            == Ok::<V4Metrics, ParseErrorView>(
            match value {
                Some(v) => V4Metrics { sub_integrity_impact: Some(v), ..m },
                None => m,
            },
        ),
        all_free_of(opt_part("SI"@, SubsequentImpact::code_of(value)), '/'),
{
    reveal_strlit("SI");
    let key = "SI"@;
    assert(key =~= seq!['S', 'I']);
    match value {
        Some(v) => {
            v.lemma_code();
            lemma_read_part(m, key, v.code());
            assert(upper(key) =~= seq!['S', 'I']);
        },
        None => {},
    }
}

proof fn lemma_read_sub_availability_impact(m: V4Metrics, value: Option<SubsequentImpact>)
    ensures
        read_components(m, opt_part("SA"@, SubsequentImpact::code_of(value)))
            == Ok::<V4Metrics, ParseErrorView>(
            match value {
                Some(v) => V4Metrics { sub_availability_impact: Some(v), ..m },
                None => m,
            },
        ),
        all_free_of(opt_part("SA"@, SubsequentImpact::code_of(value)), '/'),
{
    reveal_strlit("SA");
    let key = "SA"@;
    assert(key =~= seq!['S', 'A']);
    match value {
        Some(v) => {
            v.lemma_code();
            lemma_read_part(m, key, v.code());
            assert(upper(key) =~= seq!['S', 'A']);
        },
        None => {},
    }
}

proof fn lemma_read_exploit_maturity(m: V4Metrics, value: Option<ExploitMaturity>)
    ensures
        read_components(m, opt_part("E"@, ExploitMaturity::code_of(value)))
            == Ok::<V4Metrics, ParseErrorView>(
            match value {
                Some(v) => V4Metrics { exploit_maturity: Some(v), ..m },
                None => m,
            },
        ),
        all_free_of(opt_part("E"@, ExploitMaturity::code_of(value)), '/'),
{
    reveal_strlit("E");
    let key = "E"@;
    assert(key =~= seq!['E']);
    match value {
        Some(v) => {
            v.lemma_code();
            lemma_read_part(m, key, v.code());
            assert(upper(key) =~= seq!['E']);
        },
        None => {},
    }
}

proof fn lemma_read_confidentiality_requirement(m: V4Metrics, value: Option<Requirement>)
    ensures
        read_components(m, opt_part("CR"@, Requirement::code_of(value)))
            == Ok::<V4Metrics, ParseErrorView>(
            match value {
                Some(v) => V4Metrics { confidentiality_requirement: Some(v), ..m },
                None => m,
            },
        ),
        all_free_of(opt_part("CR"@, Requirement::code_of(value)), '/'),
{
    reveal_strlit("CR");
    let key = "CR"@;
    assert(key =~= seq!['C', 'R']);
    match value {
        Some(v) => {
            v.lemma_code();
            lemma_read_part(m, key, v.code());
            assert(upper(key) =~= seq!['C', 'R']);
        },
        None => {},
    }
}

proof fn lemma_read_integrity_requirement(m: V4Metrics, value: Option<Requirement>)
    ensures
        read_components(m, opt_part("IR"@, Requirement::code_of(value)))
            == Ok::<V4Metrics, ParseErrorView>(
            match value {
                Some(v) => V4Metrics { integrity_requirement: Some(v), ..m },
                None => m,
            },
        ),
        all_free_of(opt_part("IR"@, Requirement::code_of(value)), '/'),
{
    reveal_strlit("IR");
    let key = "IR"@;
    assert(key =~= seq!['I', 'R']);
    match value {
        Some(v) => {
            v.lemma_code();
            lemma_read_part(m, key, v.code());
            assert(upper(key) =~= seq!['I', 'R']);
        },
        None => {},
    }
}

proof fn lemma_read_availability_requirement(m: V4Metrics, value: Option<Requirement>)
    ensures
        read_components(m, opt_part("AR"@, Requirement::code_of(value)))
            == Ok::<V4Metrics, ParseErrorView>(
            match value {
                Some(v) => V4Metrics { availability_requirement: Some(v), ..m },
                None => m,
            },
        ),
        all_free_of(opt_part("AR"@, Requirement::code_of(value)), '/'),
{
    reveal_strlit("AR");
    let key = "AR"@;
    assert(key =~= seq!['A', 'R']);
    match value {
        Some(v) => {
            v.lemma_code();
            lemma_read_part(m, key, v.code());
            assert(upper(key) =~= seq!['A', 'R']);
        },
        None => {},
    }
}

proof fn lemma_read_modified_attack_vector(m: V4Metrics, value: Option<AttackVector>)
    ensures
        read_components(m, opt_part("MAV"@, AttackVector::code_of(value)))
            == Ok::<V4Metrics, ParseErrorView>(
            match value {
                Some(v) => V4Metrics { modified_attack_vector: Some(v), ..m },
                None => m,
            },
        ),
        all_free_of(opt_part("MAV"@, AttackVector::code_of(value)), '/'),
{
    reveal_strlit("MAV");
    let key = "MAV"@;
    assert(key =~= seq!['M', 'A', 'V']);
    match value {
        Some(v) => {
            v.lemma_code();
            lemma_read_part(m, key, v.code());
            assert(upper(key) =~= seq!['M', 'A', 'V']);
        },
        None => {},
    }
}

proof fn lemma_read_modified_attack_complexity(m: V4Metrics, value: Option<AttackComplexity>)
    ensures
        read_components(m, opt_part("MAC"@, AttackComplexity::code_of(value)))
            == Ok::<V4Metrics, ParseErrorView>(
            match value {
                Some(v) => V4Metrics { modified_attack_complexity: Some(v), ..m },
                None => m,
            },
        ),
        all_free_of(opt_part("MAC"@, AttackComplexity::code_of(value)), '/'),
{
    reveal_strlit("MAC");
    let key = "MAC"@;
    assert(key =~= seq!['M', 'A', 'C']);
    match value {
        Some(v) => {
            v.lemma_code();
            lemma_read_part(m, key, v.code());
            assert(upper(key) =~= seq!['M', 'A', 'C']);
        },
        None => {},
    }
}

proof fn lemma_read_modified_attack_requirements(m: V4Metrics, value: Option<AttackRequirements>)
    ensures
        read_components(m, opt_part("MAT"@, AttackRequirements::code_of(value)))
            == Ok::<V4Metrics, ParseErrorView>(
            match value {
                Some(v) => V4Metrics { modified_attack_requirements: Some(v), ..m },
                None => m,
            },
        ),
        all_free_of(opt_part("MAT"@, AttackRequirements::code_of(value)), '/'),
{
    reveal_strlit("MAT");
    let key = "MAT"@;
    assert(key =~= seq!['M', 'A', 'T']);
    match value {
        Some(v) => {
            v.lemma_code();
            lemma_read_part(m, key, v.code());
            assert(upper(key) =~= seq!['M', 'A', 'T']);
        },
        None => {},
    }
}

proof fn lemma_read_modified_privileges_required(m: V4Metrics, value: Option<PrivilegesRequired>)
    ensures
        read_components(m, opt_part("MPR"@, PrivilegesRequired::code_of(value)))
            == Ok::<V4Metrics, ParseErrorView>(
            match value {
                Some(v) => V4Metrics { modified_privileges_required: Some(v), ..m },
                None => m,
            },
        ),
        all_free_of(opt_part("MPR"@, PrivilegesRequired::code_of(value)), '/'),
{
    reveal_strlit("MPR");
    let key = "MPR"@;
    assert(key =~= seq!['M', 'P', 'R']);
    match value {
        Some(v) => {
            v.lemma_code();
            lemma_read_part(m, key, v.code());
            assert(upper(key) =~= seq!['M', 'P', 'R']);
        },
        None => {},
    }
}

proof fn lemma_read_modified_user_interaction(m: V4Metrics, value: Option<UserInteraction>)
    ensures
        read_components(m, opt_part("MUI"@, UserInteraction::code_of(value)))
            == Ok::<V4Metrics, ParseErrorView>(
            match value {
                Some(v) => V4Metrics { modified_user_interaction: Some(v), ..m },
                None => m,
            },
        ),
        all_free_of(opt_part("MUI"@, UserInteraction::code_of(value)), '/'),
{
    reveal_strlit("MUI");
    let key = "MUI"@;
    assert(key =~= seq!['M', 'U', 'I']);
    match value {
        Some(v) => {
            v.lemma_code();
            lemma_read_part(m, key, v.code());
            assert(upper(key) =~= seq!['M', 'U', 'I']);
        },
        None => {},
    }
}

proof fn lemma_read_modified_vuln_confidentiality_impact(m: V4Metrics, value: Option<Impact>)
    ensures
        read_components(m, opt_part("MVC"@, Impact::code_of(value)))
            == Ok::<V4Metrics, ParseErrorView>(
            match value {
                Some(v) => V4Metrics { modified_vuln_confidentiality_impact: Some(v), ..m },
                None => m,
            },
        ),
        all_free_of(opt_part("MVC"@, Impact::code_of(value)), '/'),
{
    reveal_strlit("MVC");
    let key = "MVC"@;
    assert(key =~= seq!['M', 'V', 'C']);
    match value {
        Some(v) => {
            v.lemma_code();
            lemma_read_part(m, key, v.code());
            assert(upper(key) =~= seq!['M', 'V', 'C']);
        },
        None => {},
    }
}

proof fn lemma_read_modified_vuln_integrity_impact(m: V4Metrics, value: Option<Impact>)
    ensures
        read_components(m, opt_part("MVI"@, Impact::code_of(value)))
            == Ok::<V4Metrics, ParseErrorView>(
            match value {
                Some(v) => V4Metrics { modified_vuln_integrity_impact: Some(v), ..m },
                None => m,
            },
        ),
        all_free_of(opt_part("MVI"@, Impact::code_of(value)), '/'),
{
    reveal_strlit("MVI");
    let key = "MVI"@;
    assert(key =~= seq!['M', 'V', 'I']);
    match value {
        Some(v) => {
            v.lemma_code();
            lemma_read_part(m, key, v.code());
            assert(upper(key) =~= seq!['M', 'V', 'I']);
        },
        None => {},
    }
}

proof fn lemma_read_modified_vuln_availability_impact(m: V4Metrics, value: Option<Impact>)
    ensures
        read_components(m, opt_part("MVA"@, Impact::code_of(value)))
            == Ok::<V4Metrics, ParseErrorView>(
            match value {
                Some(v) => V4Metrics { modified_vuln_availability_impact: Some(v), ..m },
                None => m,
            },
        ),
        all_free_of(opt_part("MVA"@, Impact::code_of(value)), '/'),
{
    reveal_strlit("MVA");
    let key = "MVA"@;
    assert(key =~= seq!['M', 'V', 'A']);
    match value {
        Some(v) => {
            v.lemma_code();
            lemma_read_part(m, key, v.code());
            assert(upper(key) =~= seq!['M', 'V', 'A']);
        },
        None => {},
    }
}

proof fn lemma_read_modified_sub_confidentiality_impact(
    m: V4Metrics,
    value: Option<SubsequentImpact>,
)
    ensures
        read_components(m, opt_part("MSC"@, SubsequentImpact::code_of(value)))
            == Ok::<V4Metrics, ParseErrorView>(
            match value {
                Some(v) => V4Metrics { modified_sub_confidentiality_impact: Some(v), ..m },
                None => m,
            },
        ),
        all_free_of(opt_part("MSC"@, SubsequentImpact::code_of(value)), '/'),
{
    reveal_strlit("MSC");
    let key = "MSC"@;
    assert(key =~= seq!['M', 'S', 'C']);
    match value {
        Some(v) => {
            v.lemma_code();
            lemma_read_part(m, key, v.code());
            assert(upper(key) =~= seq!['M', 'S', 'C']);
        },
        None => {},
    }
}

proof fn lemma_read_modified_sub_integrity_impact(m: V4Metrics, value: Option<SubsequentImpact>)
    ensures
        read_components(m, opt_part("MSI"@, SubsequentImpact::code_of(value)))
            == Ok::<V4Metrics, ParseErrorView>(
            match value {
                Some(v) => V4Metrics { modified_sub_integrity_impact: Some(v), ..m },
                None => m,
            },
        ),
        all_free_of(opt_part("MSI"@, SubsequentImpact::code_of(value)), '/'),
{
    reveal_strlit("MSI");
    let key = "MSI"@;
    assert(key =~= seq!['M', 'S', 'I']);
    match value {
        Some(v) => {
            v.lemma_code();
            lemma_read_part(m, key, v.code());
            assert(upper(key) =~= seq!['M', 'S', 'I']);
        },
        None => {},
    }
}

proof fn lemma_read_modified_sub_availability_impact(m: V4Metrics, value: Option<SubsequentImpact>)
    ensures
        read_components(m, opt_part("MSA"@, SubsequentImpact::code_of(value)))
            == Ok::<V4Metrics, ParseErrorView>(
            match value {
                Some(v) => V4Metrics { modified_sub_availability_impact: Some(v), ..m },
                None => m,
            },
        ),
        all_free_of(opt_part("MSA"@, SubsequentImpact::code_of(value)), '/'),
{
    reveal_strlit("MSA");
    let key = "MSA"@;
    assert(key =~= seq!['M', 'S', 'A']);
    match value {
        Some(v) => {
            v.lemma_code();
            lemma_read_part(m, key, v.code());
            assert(upper(key) =~= seq!['M', 'S', 'A']);
        },
        None => {},
    }
}

proof fn lemma_read_safety(m: V4Metrics, value: Option<Safety>)
    ensures
        read_components(m, opt_part("S"@, Safety::code_of(value)))
            == Ok::<V4Metrics, ParseErrorView>(
            match value {
                Some(v) => V4Metrics { safety: Some(v), ..m },
                None => m,
            },
        ),
        all_free_of(opt_part("S"@, Safety::code_of(value)), '/'),
{
    reveal_strlit("S");
    let key = "S"@;
    assert(key =~= seq!['S']);
    match value {
        Some(v) => {
            v.lemma_code();
            lemma_read_part(m, key, v.code());
            assert(upper(key) =~= seq!['S']);
        },
        None => {},
    }
}

proof fn lemma_read_automatable(m: V4Metrics, value: Option<Automatable>)
    ensures
        read_components(m, opt_part("AU"@, Automatable::code_of(value)))
            == Ok::<V4Metrics, ParseErrorView>(
            match value {
                Some(v) => V4Metrics { automatable: Some(v), ..m },
                None => m,
            },
        ),
        all_free_of(opt_part("AU"@, Automatable::code_of(value)), '/'),
{
    reveal_strlit("AU");
    let key = "AU"@;
    assert(key =~= seq!['A', 'U']);
    match value {
        Some(v) => {
            v.lemma_code();
            lemma_read_part(m, key, v.code());
            assert(upper(key) =~= seq!['A', 'U']);
        },
        None => {},
    }
}

proof fn lemma_read_recovery(m: V4Metrics, value: Option<Recovery>)
    ensures
        read_components(m, opt_part("R"@, Recovery::code_of(value)))
            == Ok::<V4Metrics, ParseErrorView>(
            match value {
                Some(v) => V4Metrics { recovery: Some(v), ..m },
                None => m,
            },
        ),
        all_free_of(opt_part("R"@, Recovery::code_of(value)), '/'),
{
    reveal_strlit("R");
    let key = "R"@;
    assert(key =~= seq!['R']);
    match value {
        Some(v) => {
            v.lemma_code();
            lemma_read_part(m, key, v.code());
            assert(upper(key) =~= seq!['R']);
        },
        None => {},
    }
}

proof fn lemma_read_value_density(m: V4Metrics, value: Option<ValueDensity>)
    ensures
        read_components(m, opt_part("V"@, ValueDensity::code_of(value)))
            == Ok::<V4Metrics, ParseErrorView>(
            match value {
                Some(v) => V4Metrics { value_density: Some(v), ..m },
                None => m,
            },
        ),
        all_free_of(opt_part("V"@, ValueDensity::code_of(value)), '/'),
{
    reveal_strlit("V");
    let key = "V"@;
    assert(key =~= seq!['V']);
    match value {
        Some(v) => {
            v.lemma_code();
            lemma_read_part(m, key, v.code());
            assert(upper(key) =~= seq!['V']);
        },
        None => {},
    }
}

proof fn lemma_read_vulnerability_response_effort(
    m: V4Metrics,
    value: Option<VulnerabilityResponseEffort>,
)
    ensures
        read_components(m, opt_part("RE"@, VulnerabilityResponseEffort::code_of(value)))
            == Ok::<V4Metrics, ParseErrorView>(
            match value {
                Some(v) => V4Metrics { vulnerability_response_effort: Some(v), ..m },
                None => m,
            },
        ),
        all_free_of(opt_part("RE"@, VulnerabilityResponseEffort::code_of(value)), '/'),
{
    reveal_strlit("RE");
    let key = "RE"@;
    assert(key =~= seq!['R', 'E']);
    match value {
        Some(v) => {
            v.lemma_code();
            lemma_read_part(m, key, v.code());
            assert(upper(key) =~= seq!['R', 'E']);
        },
        None => {},
    }
}

proof fn lemma_read_provider_urgency(m: V4Metrics, value: Option<ProviderUrgency>)
    ensures
        read_components(m, opt_part("U"@, ProviderUrgency::code_of(value)))
            == Ok::<V4Metrics, ParseErrorView>(
            match value {
                Some(v) => V4Metrics { provider_urgency: Some(v), ..m },
                None => m,
            },
        ),
        all_free_of(opt_part("U"@, ProviderUrgency::code_of(value)), '/'),
{
    reveal_strlit("U");
    let key = "U"@;
    assert(key =~= seq!['U']);
    match value {
        Some(v) => {
            v.lemma_code();
            lemma_read_part(m, key, v.code());
            assert(upper(key) =~= seq!['U']);
        },
        None => {},
    }
}

/// Reading the rendered base metrics of `m` into a record that has none of them sets them
/// as they are in `m`.
proof fn lemma_read_base(start: V4Metrics, m: V4Metrics)
    requires
        start.attack_vector is None,
        start.attack_complexity is None,
        start.attack_requirements is None,
        start.privileges_required is None,
        start.user_interaction is None,
        start.vuln_confidentiality_impact is None,
        start.vuln_integrity_impact is None,
        start.vuln_availability_impact is None,
        start.sub_confidentiality_impact is None,
        start.sub_integrity_impact is None,
        start.sub_availability_impact is None,
    ensures
        read_components(start, m.base_parts()) == Ok::<V4Metrics, ParseErrorView>(
            V4Metrics {
                attack_vector: m.attack_vector,
                attack_complexity: m.attack_complexity,
                attack_requirements: m.attack_requirements,
                privileges_required: m.privileges_required,
                user_interaction: m.user_interaction,
                vuln_confidentiality_impact: m.vuln_confidentiality_impact,
                vuln_integrity_impact: m.vuln_integrity_impact,
                vuln_availability_impact: m.vuln_availability_impact,
                sub_confidentiality_impact: m.sub_confidentiality_impact,
                sub_integrity_impact: m.sub_integrity_impact,
                sub_availability_impact: m.sub_availability_impact,
                ..start
            },
        ),
        all_free_of(m.base_parts(), '/'),
{
    let seg1 = opt_part("AV"@, AttackVector::code_of(m.attack_vector));
    let rec1 = V4Metrics { attack_vector: m.attack_vector, ..start };
    lemma_read_attack_vector(start, m.attack_vector);
    let all1 = seg1;
    assert(read_components(start, all1) == Ok::<V4Metrics, ParseErrorView>(rec1));
    let seg2 = opt_part("AC"@, AttackComplexity::code_of(m.attack_complexity));
    let rec2 = V4Metrics { attack_complexity: m.attack_complexity, ..rec1 };
    lemma_read_attack_complexity(rec1, m.attack_complexity);
    let all2 = all1 + seg2;
    lemma_read_concat(start, all1, seg2);
    lemma_all_free_concat(all1, seg2, '/');
    assert(read_components(start, all2) == Ok::<V4Metrics, ParseErrorView>(rec2));
    let seg3 = opt_part("AT"@, AttackRequirements::code_of(m.attack_requirements));
    let rec3 = V4Metrics { attack_requirements: m.attack_requirements, ..rec2 };
    lemma_read_attack_requirements(rec2, m.attack_requirements);
    let all3 = all2 + seg3;
    lemma_read_concat(start, all2, seg3);
    lemma_all_free_concat(all2, seg3, '/');
    assert(read_components(start, all3) == Ok::<V4Metrics, ParseErrorView>(rec3));
    let seg4 = opt_part("PR"@, PrivilegesRequired::code_of(m.privileges_required));
    let rec4 = V4Metrics { privileges_required: m.privileges_required, ..rec3 };
    lemma_read_privileges_required(rec3, m.privileges_required);
    let all4 = all3 + seg4;
    lemma_read_concat(start, all3, seg4);
    lemma_all_free_concat(all3, seg4, '/');
    assert(read_components(start, all4) == Ok::<V4Metrics, ParseErrorView>(rec4));
    let seg5 = opt_part("UI"@, UserInteraction::code_of(m.user_interaction));
    let rec5 = V4Metrics { user_interaction: m.user_interaction, ..rec4 };
    lemma_read_user_interaction(rec4, m.user_interaction);
    let all5 = all4 + seg5;
    lemma_read_concat(start, all4, seg5);
    lemma_all_free_concat(all4, seg5, '/');
    assert(read_components(start, all5) == Ok::<V4Metrics, ParseErrorView>(rec5));
    let seg6 = opt_part("VC"@, Impact::code_of(m.vuln_confidentiality_impact));
    let rec6 = V4Metrics { vuln_confidentiality_impact: m.vuln_confidentiality_impact, ..rec5 };
    lemma_read_vuln_confidentiality_impact(rec5, m.vuln_confidentiality_impact);
    let all6 = all5 + seg6;
    lemma_read_concat(start, all5, seg6);
    lemma_all_free_concat(all5, seg6, '/');
    assert(read_components(start, all6) == Ok::<V4Metrics, ParseErrorView>(rec6));
    let seg7 = opt_part("VI"@, Impact::code_of(m.vuln_integrity_impact));
    let rec7 = V4Metrics { vuln_integrity_impact: m.vuln_integrity_impact, ..rec6 };
    lemma_read_vuln_integrity_impact(rec6, m.vuln_integrity_impact);
    let all7 = all6 + seg7;
    lemma_read_concat(start, all6, seg7);
    lemma_all_free_concat(all6, seg7, '/');
    assert(read_components(start, all7) == Ok::<V4Metrics, ParseErrorView>(rec7));
    let seg8 = opt_part("VA"@, Impact::code_of(m.vuln_availability_impact));
    let rec8 = V4Metrics { vuln_availability_impact: m.vuln_availability_impact, ..rec7 };
    lemma_read_vuln_availability_impact(rec7, m.vuln_availability_impact);
    let all8 = all7 + seg8;
    lemma_read_concat(start, all7, seg8);
    lemma_all_free_concat(all7, seg8, '/');
    assert(read_components(start, all8) == Ok::<V4Metrics, ParseErrorView>(rec8));
    let seg9 = opt_part("SC"@, SubsequentImpact::code_of(m.sub_confidentiality_impact));
    let rec9 = V4Metrics { sub_confidentiality_impact: m.sub_confidentiality_impact, ..rec8 };
    lemma_read_sub_confidentiality_impact(rec8, m.sub_confidentiality_impact);
    let all9 = all8 + seg9;
    lemma_read_concat(start, all8, seg9);
    lemma_all_free_concat(all8, seg9, '/');
    assert(read_components(start, all9) == Ok::<V4Metrics, ParseErrorView>(rec9));
    let seg10 = opt_part("SI"@, SubsequentImpact::code_of(m.sub_integrity_impact));
    let rec10 = V4Metrics { sub_integrity_impact: m.sub_integrity_impact, ..rec9 };
    lemma_read_sub_integrity_impact(rec9, m.sub_integrity_impact);
    let all10 = all9 + seg10;
    lemma_read_concat(start, all9, seg10);
    lemma_all_free_concat(all9, seg10, '/');
    assert(read_components(start, all10) == Ok::<V4Metrics, ParseErrorView>(rec10));
    let seg11 = opt_part("SA"@, SubsequentImpact::code_of(m.sub_availability_impact));
    let rec11 = V4Metrics { sub_availability_impact: m.sub_availability_impact, ..rec10 };
    lemma_read_sub_availability_impact(rec10, m.sub_availability_impact);
    let all11 = all10 + seg11;
    lemma_read_concat(start, all10, seg11);
    lemma_all_free_concat(all10, seg11, '/');
    assert(read_components(start, all11) == Ok::<V4Metrics, ParseErrorView>(rec11));
}

/// Reading the rendered threat metrics of `m` into a record that has none of them sets them
/// as they are in `m`.
proof fn lemma_read_threat(start: V4Metrics, m: V4Metrics)
    requires
        start.exploit_maturity is None,
    ensures
        read_components(start, m.threat_parts()) == Ok::<V4Metrics, ParseErrorView>(
            V4Metrics {
                exploit_maturity: m.exploit_maturity,
                ..start
            },
        ),
        all_free_of(m.threat_parts(), '/'),
{
    let seg1 = opt_part("E"@, ExploitMaturity::code_of(m.exploit_maturity));
    let rec1 = V4Metrics { exploit_maturity: m.exploit_maturity, ..start };
    lemma_read_exploit_maturity(start, m.exploit_maturity);
    let all1 = seg1;
    assert(read_components(start, all1) == Ok::<V4Metrics, ParseErrorView>(rec1));
}

/// Reading the rendered environmental metrics of `m` into a record that has none of them sets them
/// as they are in `m`.
proof fn lemma_read_environmental(start: V4Metrics, m: V4Metrics)
    requires
        start.confidentiality_requirement is None,
        start.integrity_requirement is None,
        start.availability_requirement is None,
        start.modified_attack_vector is None,
        start.modified_attack_complexity is None,
        start.modified_attack_requirements is None,
        start.modified_privileges_required is None,
        start.modified_user_interaction is None,
        start.modified_vuln_confidentiality_impact is None,
        start.modified_vuln_integrity_impact is None,
        start.modified_vuln_availability_impact is None,
        start.modified_sub_confidentiality_impact is None,
        start.modified_sub_integrity_impact is None,
        start.modified_sub_availability_impact is None,
    ensures
        read_components(start, m.environmental_parts()) == Ok::<V4Metrics, ParseErrorView>(
            V4Metrics {
                confidentiality_requirement: m.confidentiality_requirement,
                integrity_requirement: m.integrity_requirement,
                availability_requirement: m.availability_requirement,
                modified_attack_vector: m.modified_attack_vector,
                modified_attack_complexity: m.modified_attack_complexity,
                modified_attack_requirements: m.modified_attack_requirements,
                modified_privileges_required: m.modified_privileges_required,
                modified_user_interaction: m.modified_user_interaction,
                modified_vuln_confidentiality_impact: m.modified_vuln_confidentiality_impact,
                modified_vuln_integrity_impact: m.modified_vuln_integrity_impact,
                modified_vuln_availability_impact: m.modified_vuln_availability_impact,
                modified_sub_confidentiality_impact: m.modified_sub_confidentiality_impact,
                modified_sub_integrity_impact: m.modified_sub_integrity_impact,
                modified_sub_availability_impact: m.modified_sub_availability_impact,
                ..start
            },
        ),
        all_free_of(m.environmental_parts(), '/'),
{
    let seg1 = opt_part("CR"@, Requirement::code_of(m.confidentiality_requirement));
    let rec1 = V4Metrics { confidentiality_requirement: m.confidentiality_requirement, ..start };
    lemma_read_confidentiality_requirement(start, m.confidentiality_requirement);
    let all1 = seg1;
    assert(read_components(start, all1) == Ok::<V4Metrics, ParseErrorView>(rec1));
    let seg2 = opt_part("IR"@, Requirement::code_of(m.integrity_requirement));
    let rec2 = V4Metrics { integrity_requirement: m.integrity_requirement, ..rec1 };
    lemma_read_integrity_requirement(rec1, m.integrity_requirement);
    let all2 = all1 + seg2;
    lemma_read_concat(start, all1, seg2);
    lemma_all_free_concat(all1, seg2, '/');
    assert(read_components(start, all2) == Ok::<V4Metrics, ParseErrorView>(rec2));
    let seg3 = opt_part("AR"@, Requirement::code_of(m.availability_requirement));
    let rec3 = V4Metrics { availability_requirement: m.availability_requirement, ..rec2 };
    lemma_read_availability_requirement(rec2, m.availability_requirement);
    let all3 = all2 + seg3;
    lemma_read_concat(start, all2, seg3);
    lemma_all_free_concat(all2, seg3, '/');
    assert(read_components(start, all3) == Ok::<V4Metrics, ParseErrorView>(rec3));
    let seg4 = opt_part("MAV"@, AttackVector::code_of(m.modified_attack_vector));
    let rec4 = V4Metrics { modified_attack_vector: m.modified_attack_vector, ..rec3 };
    lemma_read_modified_attack_vector(rec3, m.modified_attack_vector);
    let all4 = all3 + seg4;
    lemma_read_concat(start, all3, seg4);
    lemma_all_free_concat(all3, seg4, '/');
    assert(read_components(start, all4) == Ok::<V4Metrics, ParseErrorView>(rec4));
    let seg5 = opt_part("MAC"@, AttackComplexity::code_of(m.modified_attack_complexity));
    let rec5 = V4Metrics { modified_attack_complexity: m.modified_attack_complexity, ..rec4 };
    lemma_read_modified_attack_complexity(rec4, m.modified_attack_complexity);
    let all5 = all4 + seg5;
    lemma_read_concat(start, all4, seg5);
    lemma_all_free_concat(all4, seg5, '/');
    assert(read_components(start, all5) == Ok::<V4Metrics, ParseErrorView>(rec5));
    let seg6 = opt_part("MAT"@, AttackRequirements::code_of(m.modified_attack_requirements));
    let rec6 = V4Metrics { modified_attack_requirements: m.modified_attack_requirements, ..rec5 };
    lemma_read_modified_attack_requirements(rec5, m.modified_attack_requirements);
    let all6 = all5 + seg6;
    lemma_read_concat(start, all5, seg6);
    lemma_all_free_concat(all5, seg6, '/');
    assert(read_components(start, all6) == Ok::<V4Metrics, ParseErrorView>(rec6));
    let seg7 = opt_part("MPR"@, PrivilegesRequired::code_of(m.modified_privileges_required));
    let rec7 = V4Metrics { modified_privileges_required: m.modified_privileges_required, ..rec6 };
    lemma_read_modified_privileges_required(rec6, m.modified_privileges_required);
    let all7 = all6 + seg7;
    lemma_read_concat(start, all6, seg7);
    lemma_all_free_concat(all6, seg7, '/');
    assert(read_components(start, all7) == Ok::<V4Metrics, ParseErrorView>(rec7));
    let seg8 = opt_part("MUI"@, UserInteraction::code_of(m.modified_user_interaction));
    let rec8 = V4Metrics { modified_user_interaction: m.modified_user_interaction, ..rec7 };
    lemma_read_modified_user_interaction(rec7, m.modified_user_interaction);
    let all8 = all7 + seg8;
    lemma_read_concat(start, all7, seg8);
    lemma_all_free_concat(all7, seg8, '/');
    assert(read_components(start, all8) == Ok::<V4Metrics, ParseErrorView>(rec8));
    let seg9 = opt_part("MVC"@, Impact::code_of(m.modified_vuln_confidentiality_impact));
    let rec9 = V4Metrics {
        modified_vuln_confidentiality_impact: m.modified_vuln_confidentiality_impact,
        ..rec8
    };
    lemma_read_modified_vuln_confidentiality_impact(rec8, m.modified_vuln_confidentiality_impact);
    let all9 = all8 + seg9;
    lemma_read_concat(start, all8, seg9);
    lemma_all_free_concat(all8, seg9, '/');
    assert(read_components(start, all9) == Ok::<V4Metrics, ParseErrorView>(rec9));
    let seg10 = opt_part("MVI"@, Impact::code_of(m.modified_vuln_integrity_impact));
    let rec10 = V4Metrics {
        modified_vuln_integrity_impact: m.modified_vuln_integrity_impact,
        ..rec9
    };
    lemma_read_modified_vuln_integrity_impact(rec9, m.modified_vuln_integrity_impact);
    let all10 = all9 + seg10;
    lemma_read_concat(start, all9, seg10);
    lemma_all_free_concat(all9, seg10, '/');
    assert(read_components(start, all10) == Ok::<V4Metrics, ParseErrorView>(rec10));
    let seg11 = opt_part("MVA"@, Impact::code_of(m.modified_vuln_availability_impact));
    let rec11 = V4Metrics {
        modified_vuln_availability_impact: m.modified_vuln_availability_impact,
        ..rec10
    };
    lemma_read_modified_vuln_availability_impact(rec10, m.modified_vuln_availability_impact);
    let all11 = all10 + seg11;
    lemma_read_concat(start, all10, seg11);
    lemma_all_free_concat(all10, seg11, '/');
    assert(read_components(start, all11) == Ok::<V4Metrics, ParseErrorView>(rec11));
    let seg12 = opt_part("MSC"@, SubsequentImpact::code_of(m.modified_sub_confidentiality_impact));
    let rec12 = V4Metrics {
        modified_sub_confidentiality_impact: m.modified_sub_confidentiality_impact,
        ..rec11
    };
    lemma_read_modified_sub_confidentiality_impact(rec11, m.modified_sub_confidentiality_impact);
    let all12 = all11 + seg12;
    lemma_read_concat(start, all11, seg12);
    lemma_all_free_concat(all11, seg12, '/');
    assert(read_components(start, all12) == Ok::<V4Metrics, ParseErrorView>(rec12));
    let seg13 = opt_part("MSI"@, SubsequentImpact::code_of(m.modified_sub_integrity_impact));
    let rec13 = V4Metrics {
        modified_sub_integrity_impact: m.modified_sub_integrity_impact,
        ..rec12
    };
    lemma_read_modified_sub_integrity_impact(rec12, m.modified_sub_integrity_impact);
    let all13 = all12 + seg13;
    lemma_read_concat(start, all12, seg13);
    lemma_all_free_concat(all12, seg13, '/');
    assert(read_components(start, all13) == Ok::<V4Metrics, ParseErrorView>(rec13));
    let seg14 = opt_part("MSA"@, SubsequentImpact::code_of(m.modified_sub_availability_impact));
    let rec14 = V4Metrics {
        modified_sub_availability_impact: m.modified_sub_availability_impact,
        ..rec13
    };
    lemma_read_modified_sub_availability_impact(rec13, m.modified_sub_availability_impact);
    let all14 = all13 + seg14;
    lemma_read_concat(start, all13, seg14);
    lemma_all_free_concat(all13, seg14, '/');
    assert(read_components(start, all14) == Ok::<V4Metrics, ParseErrorView>(rec14));
}

/// Reading the rendered supplemental metrics of `m` into a record that has none of them sets them
/// as they are in `m`.
proof fn lemma_read_supplemental(start: V4Metrics, m: V4Metrics)
    requires
        start.safety is None,
        start.automatable is None,
        start.recovery is None,
        start.value_density is None,
        start.vulnerability_response_effort is None,
        start.provider_urgency is None,
    ensures
        read_components(start, m.supplemental_parts()) == Ok::<V4Metrics, ParseErrorView>(
            V4Metrics {
                safety: m.safety,
                automatable: m.automatable,
                recovery: m.recovery,
                value_density: m.value_density,
                vulnerability_response_effort: m.vulnerability_response_effort,
                provider_urgency: m.provider_urgency,
                ..start
            },
        ),
        all_free_of(m.supplemental_parts(), '/'),
{
    let seg1 = opt_part("S"@, Safety::code_of(m.safety));
    let rec1 = V4Metrics { safety: m.safety, ..start };
    lemma_read_safety(start, m.safety);
    let all1 = seg1;
    assert(read_components(start, all1) == Ok::<V4Metrics, ParseErrorView>(rec1));
    let seg2 = opt_part("AU"@, Automatable::code_of(m.automatable));
    let rec2 = V4Metrics { automatable: m.automatable, ..rec1 };
    lemma_read_automatable(rec1, m.automatable);
    let all2 = all1 + seg2;
    lemma_read_concat(start, all1, seg2);
    lemma_all_free_concat(all1, seg2, '/');
    assert(read_components(start, all2) == Ok::<V4Metrics, ParseErrorView>(rec2));
    let seg3 = opt_part("R"@, Recovery::code_of(m.recovery));
    let rec3 = V4Metrics { recovery: m.recovery, ..rec2 };
    lemma_read_recovery(rec2, m.recovery);
    let all3 = all2 + seg3;
    lemma_read_concat(start, all2, seg3);
    lemma_all_free_concat(all2, seg3, '/');
    assert(read_components(start, all3) == Ok::<V4Metrics, ParseErrorView>(rec3));
    let seg4 = opt_part("V"@, ValueDensity::code_of(m.value_density));
    let rec4 = V4Metrics { value_density: m.value_density, ..rec3 };
    lemma_read_value_density(rec3, m.value_density);
    let all4 = all3 + seg4;
    lemma_read_concat(start, all3, seg4);
    lemma_all_free_concat(all3, seg4, '/');
    assert(read_components(start, all4) == Ok::<V4Metrics, ParseErrorView>(rec4));
    let seg5 = opt_part(
        "RE"@,
        VulnerabilityResponseEffort::code_of(m.vulnerability_response_effort),
    );
    let rec5 = V4Metrics { vulnerability_response_effort: m.vulnerability_response_effort, ..rec4 };
    lemma_read_vulnerability_response_effort(rec4, m.vulnerability_response_effort);
    let all5 = all4 + seg5;
    lemma_read_concat(start, all4, seg5);
    lemma_all_free_concat(all4, seg5, '/');
    assert(read_components(start, all5) == Ok::<V4Metrics, ParseErrorView>(rec5));
    let seg6 = opt_part("U"@, ProviderUrgency::code_of(m.provider_urgency));
    let rec6 = V4Metrics { provider_urgency: m.provider_urgency, ..rec5 };
    lemma_read_provider_urgency(rec5, m.provider_urgency);
    let all6 = all5 + seg6;
    lemma_read_concat(start, all5, seg6);
    lemma_all_free_concat(all5, seg6, '/');
    assert(read_components(start, all6) == Ok::<V4Metrics, ParseErrorView>(rec6));
}

/// Reading the components of a record's rendering into the empty record gives the record,
/// and none of the components holds a `/`.
pub proof fn lemma_read_parts(m: V4Metrics)
    ensures
        read_components(V4Metrics::empty(), m.parts()) == Ok::<V4Metrics, ParseErrorView>(m),
        all_free_of(m.parts(), '/'),
{
    let none = V4Metrics::empty();
    let seg1 = m.base_parts();
    let rec1 = V4Metrics {
        attack_vector: m.attack_vector,
        attack_complexity: m.attack_complexity,
        attack_requirements: m.attack_requirements,
        privileges_required: m.privileges_required,
        user_interaction: m.user_interaction,
        vuln_confidentiality_impact: m.vuln_confidentiality_impact,
        vuln_integrity_impact: m.vuln_integrity_impact,
        vuln_availability_impact: m.vuln_availability_impact,
        sub_confidentiality_impact: m.sub_confidentiality_impact,
        sub_integrity_impact: m.sub_integrity_impact,
        sub_availability_impact: m.sub_availability_impact,
        ..none
    };
    lemma_read_base(none, m);
    let all1 = seg1;
    assert(read_components(none, all1) == Ok::<V4Metrics, ParseErrorView>(rec1));
    let seg2 = m.threat_parts();
    let rec2 = V4Metrics {
        exploit_maturity: m.exploit_maturity,
        ..rec1
    };
    lemma_read_threat(rec1, m);
    let all2 = all1 + seg2;
    lemma_read_concat(none, all1, seg2);
    lemma_all_free_concat(all1, seg2, '/');
    assert(read_components(none, all2) == Ok::<V4Metrics, ParseErrorView>(rec2));
    let seg3 = m.environmental_parts();
    let rec3 = V4Metrics {
        confidentiality_requirement: m.confidentiality_requirement,
        integrity_requirement: m.integrity_requirement,
        availability_requirement: m.availability_requirement,
        modified_attack_vector: m.modified_attack_vector,
        modified_attack_complexity: m.modified_attack_complexity,
        modified_attack_requirements: m.modified_attack_requirements,
        modified_privileges_required: m.modified_privileges_required,
        modified_user_interaction: m.modified_user_interaction,
        modified_vuln_confidentiality_impact: m.modified_vuln_confidentiality_impact,
        modified_vuln_integrity_impact: m.modified_vuln_integrity_impact,
        modified_vuln_availability_impact: m.modified_vuln_availability_impact,
        modified_sub_confidentiality_impact: m.modified_sub_confidentiality_impact,
        modified_sub_integrity_impact: m.modified_sub_integrity_impact,
        modified_sub_availability_impact: m.modified_sub_availability_impact,
        ..rec2
    };
    lemma_read_environmental(rec2, m);
    let all3 = all2 + seg3;
    lemma_read_concat(none, all2, seg3);
    lemma_all_free_concat(all2, seg3, '/');
    assert(read_components(none, all3) == Ok::<V4Metrics, ParseErrorView>(rec3));
    let seg4 = m.supplemental_parts();
    let rec4 = V4Metrics {
        safety: m.safety,
        automatable: m.automatable,
        recovery: m.recovery,
        value_density: m.value_density,
        vulnerability_response_effort: m.vulnerability_response_effort,
        provider_urgency: m.provider_urgency,
        ..rec3
    };
    lemma_read_supplemental(rec3, m);
    let all4 = all3 + seg4;
    lemma_read_concat(none, all3, seg4);
    lemma_all_free_concat(all3, seg4, '/');
    assert(read_components(none, all4) == Ok::<V4Metrics, ParseErrorView>(rec4));
    assert(rec4 == m);
}

impl CvssV4 {
    /// The vector string as it was given.
    pub fn vector_string(&self) -> (r: &str)
        ensures
            r@ == self.vector_string@,
    {
        self.vector_string.as_str()
    }

    /// The reported base score.
    pub fn base_score(&self) -> (r: Score)
        ensures
            r == self.base_score,
    {
        self.base_score
    }

    /// The reported base severity.
    pub fn base_severity(&self) -> (r: Option<crate::Severity>)
        ensures
            r == Some(self.base_severity.unified()),
    {
        Some(self.base_severity.unified())
    }

    /// The metric slots of the record.
    pub open spec fn spec_metrics(&self) -> V4Metrics {
        V4Metrics {
            attack_vector: self.attack_vector,
            attack_complexity: self.attack_complexity,
            attack_requirements: self.attack_requirements,
            privileges_required: self.privileges_required,
            user_interaction: self.user_interaction,
            vuln_confidentiality_impact: self.vuln_confidentiality_impact,
            vuln_integrity_impact: self.vuln_integrity_impact,
            vuln_availability_impact: self.vuln_availability_impact,
            sub_confidentiality_impact: self.sub_confidentiality_impact,
            sub_integrity_impact: self.sub_integrity_impact,
            sub_availability_impact: self.sub_availability_impact,
            exploit_maturity: self.exploit_maturity,
            confidentiality_requirement: self.confidentiality_requirement,
            integrity_requirement: self.integrity_requirement,
            availability_requirement: self.availability_requirement,
            modified_attack_vector: self.modified_attack_vector,
            modified_attack_complexity: self.modified_attack_complexity,
            modified_attack_requirements: self.modified_attack_requirements,
            modified_privileges_required: self.modified_privileges_required,
            modified_user_interaction: self.modified_user_interaction,
            modified_vuln_confidentiality_impact: self.modified_vuln_confidentiality_impact,
            modified_vuln_integrity_impact: self.modified_vuln_integrity_impact,
            modified_vuln_availability_impact: self.modified_vuln_availability_impact,
            modified_sub_confidentiality_impact: self.modified_sub_confidentiality_impact,
            modified_sub_integrity_impact: self.modified_sub_integrity_impact,
            modified_sub_availability_impact: self.modified_sub_availability_impact,
            safety: self.safety,
            automatable: self.automatable,
            recovery: self.recovery,
            value_density: self.value_density,
            vulnerability_response_effort: self.vulnerability_response_effort,
            provider_urgency: self.provider_urgency,
        }
    }

    /// The metric slots of the record.
    #[verifier::when_used_as_spec(spec_metrics)]
    pub fn metrics(&self) -> (r: V4Metrics)
        ensures
            r == self.spec_metrics(),
    {
        V4Metrics {
            attack_vector: self.attack_vector,
            attack_complexity: self.attack_complexity,
            attack_requirements: self.attack_requirements,
            privileges_required: self.privileges_required,
            user_interaction: self.user_interaction,
            vuln_confidentiality_impact: self.vuln_confidentiality_impact,
            vuln_integrity_impact: self.vuln_integrity_impact,
            vuln_availability_impact: self.vuln_availability_impact,
            sub_confidentiality_impact: self.sub_confidentiality_impact,
            sub_integrity_impact: self.sub_integrity_impact,
            sub_availability_impact: self.sub_availability_impact,
            exploit_maturity: self.exploit_maturity,
            confidentiality_requirement: self.confidentiality_requirement,
            integrity_requirement: self.integrity_requirement,
            availability_requirement: self.availability_requirement,
            modified_attack_vector: self.modified_attack_vector,
            modified_attack_complexity: self.modified_attack_complexity,
            modified_attack_requirements: self.modified_attack_requirements,
            modified_privileges_required: self.modified_privileges_required,
            modified_user_interaction: self.modified_user_interaction,
            modified_vuln_confidentiality_impact: self.modified_vuln_confidentiality_impact,
            modified_vuln_integrity_impact: self.modified_vuln_integrity_impact,
            modified_vuln_availability_impact: self.modified_vuln_availability_impact,
            modified_sub_confidentiality_impact: self.modified_sub_confidentiality_impact,
            modified_sub_integrity_impact: self.modified_sub_integrity_impact,
            modified_sub_availability_impact: self.modified_sub_availability_impact,
            safety: self.safety,
            automatable: self.automatable,
            recovery: self.recovery,
            value_density: self.value_density,
            vulnerability_response_effort: self.vulnerability_response_effort,
            provider_urgency: self.provider_urgency,
        }
    }

    /// Whether the record reports no score: its reported base score is 0.0 and it holds no
    /// other reported value.
    pub open spec fn unscored(&self) -> bool {
        self.base_score == (Score { tenths: 0 })
            && self.base_severity == Severity::NoneValue
    }

    /// The record that holds the given metrics, with the vector string as given and no
    /// reported score.
    pub fn from_metrics(vector_string: String, m: V4Metrics) -> (r: CvssV4)
        ensures
            r.metrics() == m,
            r.vector_string == vector_string,
            r.unscored(),
    {
        CvssV4 {
            vector_string,
            base_score: Score { tenths: 0 },
            base_severity: Severity::NoneValue,
            attack_vector: m.attack_vector,
            attack_complexity: m.attack_complexity,
            attack_requirements: m.attack_requirements,
            privileges_required: m.privileges_required,
            user_interaction: m.user_interaction,
            vuln_confidentiality_impact: m.vuln_confidentiality_impact,
            vuln_integrity_impact: m.vuln_integrity_impact,
            vuln_availability_impact: m.vuln_availability_impact,
            sub_confidentiality_impact: m.sub_confidentiality_impact,
            sub_integrity_impact: m.sub_integrity_impact,
            sub_availability_impact: m.sub_availability_impact,
            exploit_maturity: m.exploit_maturity,
            confidentiality_requirement: m.confidentiality_requirement,
            integrity_requirement: m.integrity_requirement,
            availability_requirement: m.availability_requirement,
            modified_attack_vector: m.modified_attack_vector,
            modified_attack_complexity: m.modified_attack_complexity,
            modified_attack_requirements: m.modified_attack_requirements,
            modified_privileges_required: m.modified_privileges_required,
            modified_user_interaction: m.modified_user_interaction,
            modified_vuln_confidentiality_impact: m.modified_vuln_confidentiality_impact,
            modified_vuln_integrity_impact: m.modified_vuln_integrity_impact,
            modified_vuln_availability_impact: m.modified_vuln_availability_impact,
            modified_sub_confidentiality_impact: m.modified_sub_confidentiality_impact,
            modified_sub_integrity_impact: m.modified_sub_integrity_impact,
            modified_sub_availability_impact: m.modified_sub_availability_impact,
            safety: m.safety,
            automatable: m.automatable,
            recovery: m.recovery,
            value_density: m.value_density,
            vulnerability_response_effort: m.vulnerability_response_effort,
            provider_urgency: m.provider_urgency,
        }
    }

    /// Parses a CVSS v4.0 vector string. The record keeps the string as it was given and
    /// reports no score.
    pub fn parse(s: &str) -> (r: Result<CvssV4, ParseError>)
        ensures
            match r {
                Ok(c) => parse_metrics(s@) == Ok::<V4Metrics, ParseErrorView>(c.metrics())
                    && c.vector_string@ == s@ && c.unscored(),
                Err(e) => parse_metrics(s@) == Err::<V4Metrics, ParseErrorView>(e@),
            },
    {
        let chars = to_chars(s);
        let n = chars.len();
        let first_end = find(&chars, 0, '/');
        let first = copy_range(&chars, 0, first_end);
        proof {
            assert(chars@.skip(0) =~= chars@);
            lemma_split_at(chars@, 0, first_end as int, '/');
            if first_end < n {
                assert((seq![first@] + split(chars@.skip(first_end + 1), '/')).drop_first()
                    =~= split(chars@.skip(first_end + 1), '/'));
            } else {
                assert(seq![first@].drop_first() =~= Seq::<Seq<char>>::empty());
            }
        }
        let version = match read_prefix_version(&first) {
            Ok(version) => version,
            Err(e) => {
                return Err(e);
            },
        };
        if !(is3(&version, '4', '.', '0')) {
            return Err(ParseError::InvalidVersion { version: to_string(&version) });
        }
        let mut m = V4Metrics::empty();
        let mut pos = first_end;
        while pos < n
            invariant
                pos <= n,
                n == chars.len(),
                chars@ == s@,
                pos < n ==> chars@[pos as int] == '/',
                parse_metrics(s@) == (if pos < n {
                    read_components(m, split(chars@.skip(pos + 1), '/'))
                } else {
                    Ok::<V4Metrics, ParseErrorView>(m)
                }),
            decreases n - pos,
        {
            let start = pos + 1;
            let end = find(&chars, start, '/');
            let segment = copy_range(&chars, start, end);
            proof {
                lemma_split_at(chars@, start as int, end as int, '/');
                if end < n {
                    lemma_read_cons(m, segment@, split(chars@.skip(end + 1), '/'));
                } else {
                    lemma_read_cons(m, segment@, Seq::empty());
                    assert(seq![segment@] + Seq::<Seq<char>>::empty() =~= seq![segment@]);
                }
            }
            match m.read(&segment) {
                Ok(next) => {
                    m = next;
                },
                Err(e) => {
                    return Err(e);
                },
            }
            pos = end;
        }
        Ok(CvssV4::from_metrics(s.to_owned(), m))
    }

    /// The canonical vector string of the record: `CVSS:4.0`, then the metrics that are
    /// present, each as `/KEY:VALUE`, in the canonical order.
    pub fn to_string(&self) -> (r: String)
        ensures
            r@ == render_metrics(self.metrics()),
    {
        let m = self.metrics();
        let mut out: Vec<char> = Vec::new();
        push_str(&mut out, "CVSS:4.0");
        let ghost first = prefix();
        proof {
            reveal_strlit("CVSS:4.0");
            assert(out@ =~= first);
        }
        m.push_base(&mut out);
        m.push_threat(&mut out);
        m.push_environmental(&mut out);
        m.push_supplemental(&mut out);
        proof {
            lemma_chain_concat(m.base_parts(), m.threat_parts(), '/');
            lemma_chain_concat(m.base_parts() + m.threat_parts(), m.environmental_parts(), '/');
            lemma_chain_concat(
                m.base_parts() + m.threat_parts() + m.environmental_parts(),
                m.supplemental_parts(),
                '/',
            );
            lemma_join_chain(first, m.parts(), '/');
        }
        assert(out@ =~= first + chain(m.parts(), '/'));
        to_string(&out)
    }
}

impl std::str::FromStr for CvssV4 {
    type Err = ParseError;

    fn from_str(s: &str) -> (r: Result<CvssV4, ParseError>)
        ensures
            match r {
                Ok(c) => parse_metrics(s@) == Ok::<V4Metrics, ParseErrorView>(c.metrics())
                    && c.vector_string@ == s@ && c.unscored(),
                Err(e) => parse_metrics(s@) == Err::<V4Metrics, ParseErrorView>(e@),
            },
    {
        CvssV4::parse(s)
    }
}

} // verus!

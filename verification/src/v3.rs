//! Represents the CVSS v3.0 and v3.1 specifications.

use vstd::prelude::*;
use crate::grammar::{
    agrees, component, key_value, lemma_key_value_of, opt_part, prefix_version, push_slot, raised,
    read_key_value, read_prefix_version, str_view,
};
use crate::score::Score;
use crate::text::{
    all_free_of, chain, copy_range, find, free_of, is1, is2, is3, join, lemma_all_free_concat,
    lemma_chain_concat, lemma_join_chain, lemma_split_at, lemma_split_cons, lemma_split_free,
    lemma_split_join, push_str, spells1, spells2, spells3, split, to_chars, to_string, upper,
};
use crate::{ParseError, ParseErrorView};

pub mod scoring;

verus! {

/// Represents a CVSS v3.0 or v3.1 score object.
#[derive(Clone, Debug, PartialEq, Eq)]
pub struct CvssV3 {
    /// The CVSS vector string.
    pub vector_string: String,
    /// The reported base score, a value between 0.0 and 10.0.
    pub base_score: Score,
    /// The reported qualitative severity rating for the base score.
    pub base_severity: Severity,
    /// The reported temporal score.
    pub temporal_score: Option<Score>,
    /// The reported qualitative severity rating for the temporal score.
    pub temporal_severity: Option<Severity>,
    /// The reported environmental score.
    pub environmental_score: Option<Score>,
    /// The reported qualitative severity rating for the environmental score.
    pub environmental_severity: Option<Severity>,
    // --- Base ---
    /// The attack vector metric.
    pub attack_vector: Option<AttackVector>,
    /// The attack complexity metric.
    pub attack_complexity: Option<AttackComplexity>,
    /// The privileges required metric.
    pub privileges_required: Option<PrivilegesRequired>,
    /// The user interaction metric.
    pub user_interaction: Option<UserInteraction>,
    /// The scope metric.
    pub scope: Option<Scope>,
    /// The confidentiality impact metric.
    pub confidentiality_impact: Option<Impact>,
    /// The integrity impact metric.
    pub integrity_impact: Option<Impact>,
    /// The availability impact metric.
    pub availability_impact: Option<Impact>,
    // --- Temporal ---
    /// The exploit code maturity metric.
    pub exploit_code_maturity: Option<ExploitCodeMaturity>,
    /// The remediation level metric.
    pub remediation_level: Option<RemediationLevel>,
    /// The report confidence metric.
    pub report_confidence: Option<ReportConfidence>,
    // --- Environmental ---
    /// The confidentiality requirement metric.
    pub confidentiality_requirement: Option<SecurityRequirement>,
    /// The integrity requirement metric.
    pub integrity_requirement: Option<SecurityRequirement>,
    /// The availability requirement metric.
    pub availability_requirement: Option<SecurityRequirement>,
    /// The modified attack vector metric.
    pub modified_attack_vector: Option<AttackVector>,
    /// The modified attack complexity metric.
    pub modified_attack_complexity: Option<AttackComplexity>,
    /// The modified privileges required metric.
    pub modified_privileges_required: Option<PrivilegesRequired>,
    /// The modified user interaction metric.
    pub modified_user_interaction: Option<UserInteraction>,
    /// The modified scope metric.
    pub modified_scope: Option<Scope>,
    /// The modified confidentiality impact metric.
    pub modified_confidentiality_impact: Option<Impact>,
    /// The modified integrity impact metric.
    pub modified_integrity_impact: Option<Impact>,
    /// The modified availability impact metric.
    pub modified_availability_impact: Option<Impact>,
}

/// The metric slots of a record, without the vector string and the reported scores.
#[derive(Clone, Copy, Debug, PartialEq, Eq, Structural)]
pub struct V3Metrics {
    pub attack_vector: Option<AttackVector>,
    pub attack_complexity: Option<AttackComplexity>,
    pub privileges_required: Option<PrivilegesRequired>,
    pub user_interaction: Option<UserInteraction>,
    pub scope: Option<Scope>,
    pub confidentiality_impact: Option<Impact>,
    pub integrity_impact: Option<Impact>,
    pub availability_impact: Option<Impact>,
    pub exploit_code_maturity: Option<ExploitCodeMaturity>,
    pub remediation_level: Option<RemediationLevel>,
    pub report_confidence: Option<ReportConfidence>,
    pub confidentiality_requirement: Option<SecurityRequirement>,
    pub integrity_requirement: Option<SecurityRequirement>,
    pub availability_requirement: Option<SecurityRequirement>,
    pub modified_attack_vector: Option<AttackVector>,
    pub modified_attack_complexity: Option<AttackComplexity>,
    pub modified_privileges_required: Option<PrivilegesRequired>,
    pub modified_user_interaction: Option<UserInteraction>,
    pub modified_scope: Option<Scope>,
    pub modified_confidentiality_impact: Option<Impact>,
    pub modified_integrity_impact: Option<Impact>,
    pub modified_availability_impact: Option<Impact>,
}

/// Represents the qualitative severity rating of a vulnerability.
#[derive(Clone, Copy, Debug, PartialEq, Eq, Structural)]
pub enum Severity {
    NoneValue,
    Low,
    Medium,
    High,
    Critical,
}

impl Severity {
    /// The same rating on the scale that all versions share.
    pub open spec fn spec_unified(&self) -> crate::Severity {
        match self {
            Severity::NoneValue => crate::Severity::NoneValue,
            Severity::Low => crate::Severity::Low,
            Severity::Medium => crate::Severity::Medium,
            Severity::High => crate::Severity::High,
            Severity::Critical => crate::Severity::Critical,
        }
    }

    /// The same rating on the scale that all versions share.
    #[verifier::when_used_as_spec(spec_unified)]
    pub fn unified(&self) -> (r: crate::Severity)
        ensures
            r == self.spec_unified(),
    {
        match self {
            Severity::NoneValue => crate::Severity::NoneValue,
            Severity::Low => crate::Severity::Low,
            Severity::Medium => crate::Severity::Medium,
            Severity::High => crate::Severity::High,
            Severity::Critical => crate::Severity::Critical,
        }
    }
}

/// Represents the attack vector metric.
#[derive(Clone, Copy, Debug, PartialEq, Eq, Structural)]
pub enum AttackVector {
    Network,
    AdjacentNetwork,
    Local,
    Physical,
    NotDefined,
}

impl AttackVector {
    /// The code that stands for this value in a vector string.
    pub open spec fn code(self) -> Seq<char> {
        match self {
            AttackVector::Network => seq!['N'],
            AttackVector::AdjacentNetwork => seq!['A'],
            AttackVector::Local => seq!['L'],
            AttackVector::Physical => seq!['P'],
            AttackVector::NotDefined => seq!['X'],
        }
    }

    /// The code of a metric slot: that of its value where it holds one.
    pub open spec fn code_of(value: Option<AttackVector>) -> Option<Seq<char>> {
        match value {
            Some(v) => Some(v.code()),
            None => None,
        }
    }

    /// The value that a code stands for. The code is compared in upper case.
    pub open spec fn from_code(code: Seq<char>) -> Option<AttackVector> {
        if spells1(code, 'N') {
            Some(AttackVector::Network)
        } else if spells1(code, 'A') {
            Some(AttackVector::AdjacentNetwork)
        } else if spells1(code, 'L') {
            Some(AttackVector::Local)
        } else if spells1(code, 'P') {
            Some(AttackVector::Physical)
        } else if spells1(code, 'X') {
            Some(AttackVector::NotDefined)
        } else {
            None
        }
    }

    /// Reads a value from its code in upper case.
    pub fn parse(code: &Vec<char>) -> (r: Option<AttackVector>)
        ensures
            r == AttackVector::from_code(code@),
    {
        if is1(code, 'N') {
            Some(AttackVector::Network)
        } else if is1(code, 'A') {
            Some(AttackVector::AdjacentNetwork)
        } else if is1(code, 'L') {
            Some(AttackVector::Local)
        } else if is1(code, 'P') {
            Some(AttackVector::Physical)
        } else if is1(code, 'X') {
            Some(AttackVector::NotDefined)
        } else {
            None
        }
    }

    /// The code that stands for this value in a vector string.
    pub fn as_str(&self) -> (r: &'static str)
        ensures
            r@ == self.code(),
    {
        match self {
            AttackVector::Network => {
                proof {
                    reveal_strlit("N");
                    assert("N"@ =~= seq!['N']);
                }
                "N"
            },
            AttackVector::AdjacentNetwork => {
                proof {
                    reveal_strlit("A");
                    assert("A"@ =~= seq!['A']);
                }
                "A"
            },
            AttackVector::Local => {
                proof {
                    reveal_strlit("L");
                    assert("L"@ =~= seq!['L']);
                }
                "L"
            },
            AttackVector::Physical => {
                proof {
                    reveal_strlit("P");
                    assert("P"@ =~= seq!['P']);
                }
                "P"
            },
            AttackVector::NotDefined => {
                proof {
                    reveal_strlit("X");
                    assert("X"@ =~= seq!['X']);
                }
                "X"
            },
        }
    }

    /// The code that stands for this value, as an owned string.
    pub fn to_string(&self) -> (r: String)
        ensures
            r@ == self.code(),
    {
        self.as_str().to_owned()
    }

    /// The code of a metric slot: that of its value where it holds one.
    pub fn slot_str(value: Option<AttackVector>) -> (r: Option<&'static str>)
        ensures
            str_view(r) == AttackVector::code_of(value),
    {
        match value {
            Some(v) => Some(v.as_str()),
            None => None,
        }
    }

    /// A value is read back from its own code, and no code holds `/` or `:`.
    pub proof fn lemma_code(self)
        ensures
            AttackVector::from_code(upper(self.code())) == Some(self),
            free_of(self.code(), '/'),
            free_of(self.code(), ':'),
    {
    }

    /// The weight of this value in the score formulas, in thousandths. `NotDefined` weighs as the
    /// worst case, `Network`.
    pub open spec fn spec_score(&self) -> u32 {
        match self {
            AttackVector::Network => 850,
            AttackVector::AdjacentNetwork => 620,
            AttackVector::Local => 550,
            AttackVector::Physical => 200,
            AttackVector::NotDefined => 850,
        }
    }

    /// The weight of this value in the score formulas, in thousandths. `NotDefined` weighs as the
    /// worst case, `Network`.
    #[verifier::when_used_as_spec(spec_score)]
    pub fn score(&self) -> (r: u32)
        ensures
            r == self.spec_score(),
    {
        match self {
            AttackVector::Network => 850,
            AttackVector::AdjacentNetwork => 620,
            AttackVector::Local => 550,
            AttackVector::Physical => 200,
            AttackVector::NotDefined => 850,
        }
    }
}

/// Represents the attack complexity metric.
#[derive(Clone, Copy, Debug, PartialEq, Eq, Structural)]
pub enum AttackComplexity {
    Low,
    High,
    NotDefined,
}

impl AttackComplexity {
    /// The code that stands for this value in a vector string.
    pub open spec fn code(self) -> Seq<char> {
        match self {
            AttackComplexity::Low => seq!['L'],
            AttackComplexity::High => seq!['H'],
            AttackComplexity::NotDefined => seq!['X'],
        }
    }

    /// The code of a metric slot: that of its value where it holds one.
    pub open spec fn code_of(value: Option<AttackComplexity>) -> Option<Seq<char>> {
        match value {
            Some(v) => Some(v.code()),
            None => None,
        }
    }

    /// The value that a code stands for. The code is compared in upper case.
    pub open spec fn from_code(code: Seq<char>) -> Option<AttackComplexity> {
        if spells1(code, 'L') {
            Some(AttackComplexity::Low)
        } else if spells1(code, 'H') {
            Some(AttackComplexity::High)
        } else if spells1(code, 'X') {
            Some(AttackComplexity::NotDefined)
        } else {
            None
        }
    }

    /// Reads a value from its code in upper case.
    pub fn parse(code: &Vec<char>) -> (r: Option<AttackComplexity>)
        ensures
            r == AttackComplexity::from_code(code@),
    {
        if is1(code, 'L') {
            Some(AttackComplexity::Low)
        } else if is1(code, 'H') {
            Some(AttackComplexity::High)
        } else if is1(code, 'X') {
            Some(AttackComplexity::NotDefined)
        } else {
            None
        }
    }

    /// The code that stands for this value in a vector string.
    pub fn as_str(&self) -> (r: &'static str)
        ensures
            r@ == self.code(),
    {
        match self {
            AttackComplexity::Low => {
                proof {
                    reveal_strlit("L");
                    assert("L"@ =~= seq!['L']);
                }
                "L"
            },
            AttackComplexity::High => {
                proof {
                    reveal_strlit("H");
                    assert("H"@ =~= seq!['H']);
                }
                "H"
            },
            AttackComplexity::NotDefined => {
                proof {
                    reveal_strlit("X");
                    assert("X"@ =~= seq!['X']);
                }
                "X"
            },
        }
    }

    /// The code that stands for this value, as an owned string.
    pub fn to_string(&self) -> (r: String)
        ensures
            r@ == self.code(),
    {
        self.as_str().to_owned()
    }

    /// The code of a metric slot: that of its value where it holds one.
    pub fn slot_str(value: Option<AttackComplexity>) -> (r: Option<&'static str>)
        ensures
            str_view(r) == AttackComplexity::code_of(value),
    {
        match value {
            Some(v) => Some(v.as_str()),
            None => None,
        }
    }

    /// A value is read back from its own code, and no code holds `/` or `:`.
    pub proof fn lemma_code(self)
        ensures
            AttackComplexity::from_code(upper(self.code())) == Some(self),
            free_of(self.code(), '/'),
            free_of(self.code(), ':'),
    {
    }

    /// The weight of this value in the score formulas, in thousandths. `NotDefined` weighs as the
    /// worst case, `Low`.
    pub open spec fn spec_score(&self) -> u32 {
        match self {
            AttackComplexity::Low => 770,
            AttackComplexity::High => 440,
            AttackComplexity::NotDefined => 770,
        }
    }

    /// The weight of this value in the score formulas, in thousandths. `NotDefined` weighs as the
    /// worst case, `Low`.
    #[verifier::when_used_as_spec(spec_score)]
    pub fn score(&self) -> (r: u32)
        ensures
            r == self.spec_score(),
    {
        match self {
            AttackComplexity::Low => 770,
            AttackComplexity::High => 440,
            AttackComplexity::NotDefined => 770,
        }
    }
}

/// Represents the privileges required metric.
#[derive(Clone, Copy, Debug, PartialEq, Eq, Structural)]
pub enum PrivilegesRequired {
    NoneValue,
    Low,
    High,
    NotDefined,
}

impl PrivilegesRequired {
    /// The code that stands for this value in a vector string.
    pub open spec fn code(self) -> Seq<char> {
        match self {
            PrivilegesRequired::NoneValue => seq!['N'],
            PrivilegesRequired::Low => seq!['L'],
            PrivilegesRequired::High => seq!['H'],
            PrivilegesRequired::NotDefined => seq!['X'],
        }
    }

    /// The code of a metric slot: that of its value where it holds one.
    pub open spec fn code_of(value: Option<PrivilegesRequired>) -> Option<Seq<char>> {
        match value {
            Some(v) => Some(v.code()),
            None => None,
        }
    }

    /// The value that a code stands for. The code is compared in upper case.
    pub open spec fn from_code(code: Seq<char>) -> Option<PrivilegesRequired> {
        if spells1(code, 'N') {
            Some(PrivilegesRequired::NoneValue)
        } else if spells1(code, 'L') {
            Some(PrivilegesRequired::Low)
        } else if spells1(code, 'H') {
            Some(PrivilegesRequired::High)
        } else if spells1(code, 'X') {
            Some(PrivilegesRequired::NotDefined)
        } else {
            None
        }
    }

    /// Reads a value from its code in upper case.
    pub fn parse(code: &Vec<char>) -> (r: Option<PrivilegesRequired>)
        ensures
            r == PrivilegesRequired::from_code(code@),
    {
        if is1(code, 'N') {
            Some(PrivilegesRequired::NoneValue)
        } else if is1(code, 'L') {
            Some(PrivilegesRequired::Low)
        } else if is1(code, 'H') {
            Some(PrivilegesRequired::High)
        } else if is1(code, 'X') {
            Some(PrivilegesRequired::NotDefined)
        } else {
            None
        }
    }

    /// The code that stands for this value in a vector string.
    pub fn as_str(&self) -> (r: &'static str)
        ensures
            r@ == self.code(),
    {
        match self {
            PrivilegesRequired::NoneValue => {
                proof {
                    reveal_strlit("N");
                    assert("N"@ =~= seq!['N']);
                }
                "N"
            },
            PrivilegesRequired::Low => {
                proof {
                    reveal_strlit("L");
                    assert("L"@ =~= seq!['L']);
                }
                "L"
            },
            PrivilegesRequired::High => {
                proof {
                    reveal_strlit("H");
                    assert("H"@ =~= seq!['H']);
                }
                "H"
            },
            PrivilegesRequired::NotDefined => {
                proof {
                    reveal_strlit("X");
                    assert("X"@ =~= seq!['X']);
                }
                "X"
            },
        }
    }

    /// The code that stands for this value, as an owned string.
    pub fn to_string(&self) -> (r: String)
        ensures
            r@ == self.code(),
    {
        self.as_str().to_owned()
    }

    /// The code of a metric slot: that of its value where it holds one.
    pub fn slot_str(value: Option<PrivilegesRequired>) -> (r: Option<&'static str>)
        ensures
            str_view(r) == PrivilegesRequired::code_of(value),
    {
        match value {
            Some(v) => Some(v.as_str()),
            None => None,
        }
    }

    /// A value is read back from its own code, and no code holds `/` or `:`.
    pub proof fn lemma_code(self)
        ensures
            PrivilegesRequired::from_code(upper(self.code())) == Some(self),
            free_of(self.code(), '/'),
            free_of(self.code(), ':'),
    {
    }

    /// The weight of this value in the score formulas, in thousandths. `Low` and `High` weigh more
    /// where the scope is changed. `NotDefined` weighs as the worst case, `NoneValue`.
    pub open spec fn spec_score(&self, scope_changed: bool) -> u32 {
        match self {
            PrivilegesRequired::NoneValue => 850,
            PrivilegesRequired::Low => if scope_changed { 680 } else { 620 },
            PrivilegesRequired::High => if scope_changed { 500 } else { 270 },
            PrivilegesRequired::NotDefined => 850,
        }
    }

    /// The weight of this value in the score formulas, in thousandths. `Low` and `High` weigh more
    /// where the scope is changed. `NotDefined` weighs as the worst case, `NoneValue`.
    #[verifier::when_used_as_spec(spec_score)]
    pub fn score(&self, scope_changed: bool) -> (r: u32)
        ensures
            r == self.spec_score(scope_changed),
    {
        match self {
            PrivilegesRequired::NoneValue => 850,
            PrivilegesRequired::Low => if scope_changed { 680 } else { 620 },
            PrivilegesRequired::High => if scope_changed { 500 } else { 270 },
            PrivilegesRequired::NotDefined => 850,
        }
    }
}

/// Represents the user interaction metric.
#[derive(Clone, Copy, Debug, PartialEq, Eq, Structural)]
pub enum UserInteraction {
    NoneValue,
    Required,
    NotDefined,
}

impl UserInteraction {
    /// The code that stands for this value in a vector string.
    pub open spec fn code(self) -> Seq<char> {
        match self {
            UserInteraction::NoneValue => seq!['N'],
            UserInteraction::Required => seq!['R'],
            UserInteraction::NotDefined => seq!['X'],
        }
    }

    /// The code of a metric slot: that of its value where it holds one.
    pub open spec fn code_of(value: Option<UserInteraction>) -> Option<Seq<char>> {
        match value {
            Some(v) => Some(v.code()),
            None => None,
        }
    }

    /// The value that a code stands for. The code is compared in upper case.
    pub open spec fn from_code(code: Seq<char>) -> Option<UserInteraction> {
        if spells1(code, 'N') {
            Some(UserInteraction::NoneValue)
        } else if spells1(code, 'R') {
            Some(UserInteraction::Required)
        } else if spells1(code, 'X') {
            Some(UserInteraction::NotDefined)
        } else {
            None
        }
    }

    /// Reads a value from its code in upper case.
    pub fn parse(code: &Vec<char>) -> (r: Option<UserInteraction>)
        ensures
            r == UserInteraction::from_code(code@),
    {
        if is1(code, 'N') {
            Some(UserInteraction::NoneValue)
        } else if is1(code, 'R') {
            Some(UserInteraction::Required)
        } else if is1(code, 'X') {
            Some(UserInteraction::NotDefined)
        } else {
            None
        }
    }

    /// The code that stands for this value in a vector string.
    pub fn as_str(&self) -> (r: &'static str)
        ensures
            r@ == self.code(),
    {
        match self {
            UserInteraction::NoneValue => {
                proof {
                    reveal_strlit("N");
                    assert("N"@ =~= seq!['N']);
                }
                "N"
            },
            UserInteraction::Required => {
                proof {
                    reveal_strlit("R");
                    assert("R"@ =~= seq!['R']);
                }
                "R"
            },
            UserInteraction::NotDefined => {
                proof {
                    reveal_strlit("X");
                    assert("X"@ =~= seq!['X']);
                }
                "X"
            },
        }
    }

    /// The code that stands for this value, as an owned string.
    pub fn to_string(&self) -> (r: String)
        ensures
            r@ == self.code(),
    {
        self.as_str().to_owned()
    }

    /// The code of a metric slot: that of its value where it holds one.
    pub fn slot_str(value: Option<UserInteraction>) -> (r: Option<&'static str>)
        ensures
            str_view(r) == UserInteraction::code_of(value),
    {
        match value {
            Some(v) => Some(v.as_str()),
            None => None,
        }
    }

    /// A value is read back from its own code, and no code holds `/` or `:`.
    pub proof fn lemma_code(self)
        ensures
            UserInteraction::from_code(upper(self.code())) == Some(self),
            free_of(self.code(), '/'),
            free_of(self.code(), ':'),
    {
    }

    /// The weight of this value in the score formulas, in thousandths. `NotDefined` weighs as the
    /// worst case, `NoneValue`.
    pub open spec fn spec_score(&self) -> u32 {
        match self {
            UserInteraction::NoneValue => 850,
            UserInteraction::Required => 620,
            UserInteraction::NotDefined => 850,
        }
    }

    /// The weight of this value in the score formulas, in thousandths. `NotDefined` weighs as the
    /// worst case, `NoneValue`.
    #[verifier::when_used_as_spec(spec_score)]
    pub fn score(&self) -> (r: u32)
        ensures
            r == self.spec_score(),
    {
        match self {
            UserInteraction::NoneValue => 850,
            UserInteraction::Required => 620,
            UserInteraction::NotDefined => 850,
        }
    }
}

/// Represents the scope metric.
#[derive(Clone, Copy, Debug, PartialEq, Eq, Structural)]
pub enum Scope {
    Unchanged,
    Changed,
    NotDefined,
}

impl Scope {
    /// The code that stands for this value in a vector string.
    pub open spec fn code(self) -> Seq<char> {
        match self {
            Scope::Unchanged => seq!['U'],
            Scope::Changed => seq!['C'],
            Scope::NotDefined => seq!['X'],
        }
    }

    /// The code of a metric slot: that of its value where it holds one.
    pub open spec fn code_of(value: Option<Scope>) -> Option<Seq<char>> {
        match value {
            Some(v) => Some(v.code()),
            None => None,
        }
    }

    /// The value that a code stands for. The code is compared in upper case.
    pub open spec fn from_code(code: Seq<char>) -> Option<Scope> {
        if spells1(code, 'U') {
            Some(Scope::Unchanged)
        } else if spells1(code, 'C') {
            Some(Scope::Changed)
        } else if spells1(code, 'X') {
            Some(Scope::NotDefined)
        } else {
            None
        }
    }

    /// Reads a value from its code in upper case.
    pub fn parse(code: &Vec<char>) -> (r: Option<Scope>)
        ensures
            r == Scope::from_code(code@),
    {
        if is1(code, 'U') {
            Some(Scope::Unchanged)
        } else if is1(code, 'C') {
            Some(Scope::Changed)
        } else if is1(code, 'X') {
            Some(Scope::NotDefined)
        } else {
            None
        }
    }

    /// The code that stands for this value in a vector string.
    pub fn as_str(&self) -> (r: &'static str)
        ensures
            r@ == self.code(),
    {
        match self {
            Scope::Unchanged => {
                proof {
                    reveal_strlit("U");
                    assert("U"@ =~= seq!['U']);
                }
                "U"
            },
            Scope::Changed => {
                proof {
                    reveal_strlit("C");
                    assert("C"@ =~= seq!['C']);
                }
                "C"
            },
            Scope::NotDefined => {
                proof {
                    reveal_strlit("X");
                    assert("X"@ =~= seq!['X']);
                }
                "X"
            },
        }
    }

    /// The code that stands for this value, as an owned string.
    pub fn to_string(&self) -> (r: String)
        ensures
            r@ == self.code(),
    {
        self.as_str().to_owned()
    }

    /// The code of a metric slot: that of its value where it holds one.
    pub fn slot_str(value: Option<Scope>) -> (r: Option<&'static str>)
        ensures
            str_view(r) == Scope::code_of(value),
    {
        match value {
            Some(v) => Some(v.as_str()),
            None => None,
        }
    }

    /// A value is read back from its own code, and no code holds `/` or `:`.
    pub proof fn lemma_code(self)
        ensures
            Scope::from_code(upper(self.code())) == Some(self),
            free_of(self.code(), '/'),
            free_of(self.code(), ':'),
    {
    }

    /// Returns whether the scope is changed (for use in score calculation).
    pub open spec fn spec_is_changed(&self) -> bool {
        match self {
            Scope::Unchanged => false,
            Scope::Changed => true,
            Scope::NotDefined => false,
        }
    }

    /// Returns whether the scope is changed (for use in score calculation).
    #[verifier::when_used_as_spec(spec_is_changed)]
    pub fn is_changed(&self) -> (r: bool)
        ensures
            r == self.spec_is_changed(),
    {
        match self {
            Scope::Unchanged => false,
            Scope::Changed => true,
            Scope::NotDefined => false,
        }
    }
}

/// Represents the impact metrics (confidentiality, integrity, availability).
#[derive(Clone, Copy, Debug, PartialEq, Eq, Structural)]
pub enum Impact {
    High,
    Low,
    NoneValue,
    NotDefined,
}

impl Impact {
    /// The code that stands for this value in a vector string.
    pub open spec fn code(self) -> Seq<char> {
        match self {
            Impact::High => seq!['H'],
            Impact::Low => seq!['L'],
            Impact::NoneValue => seq!['N'],
            Impact::NotDefined => seq!['X'],
        }
    }

    /// The code of a metric slot: that of its value where it holds one.
    pub open spec fn code_of(value: Option<Impact>) -> Option<Seq<char>> {
        match value {
            Some(v) => Some(v.code()),
            None => None,
        }
    }

    /// The value that a code stands for. The code is compared in upper case.
    pub open spec fn from_code(code: Seq<char>) -> Option<Impact> {
        if spells1(code, 'H') {
            Some(Impact::High)
        } else if spells1(code, 'L') {
            Some(Impact::Low)
        } else if spells1(code, 'N') {
            Some(Impact::NoneValue)
        } else if spells1(code, 'X') {
            Some(Impact::NotDefined)
        } else {
            None
        }
    }

    /// Reads a value from its code in upper case.
    pub fn parse(code: &Vec<char>) -> (r: Option<Impact>)
        ensures
            r == Impact::from_code(code@),
    {
        if is1(code, 'H') {
            Some(Impact::High)
        } else if is1(code, 'L') {
            Some(Impact::Low)
        } else if is1(code, 'N') {
            Some(Impact::NoneValue)
        } else if is1(code, 'X') {
            Some(Impact::NotDefined)
        } else {
            None
        }
    }

    /// The code that stands for this value in a vector string.
    pub fn as_str(&self) -> (r: &'static str)
        ensures
            r@ == self.code(),
    {
        match self {
            Impact::High => {
                proof {
                    reveal_strlit("H");
                    assert("H"@ =~= seq!['H']);
                }
                "H"
            },
            Impact::Low => {
                proof {
                    reveal_strlit("L");
                    assert("L"@ =~= seq!['L']);
                }
                "L"
            },
            Impact::NoneValue => {
                proof {
                    reveal_strlit("N");
                    assert("N"@ =~= seq!['N']);
                }
                "N"
            },
            Impact::NotDefined => {
                proof {
                    reveal_strlit("X");
                    assert("X"@ =~= seq!['X']);
                }
                "X"
            },
        }
    }

    /// The code that stands for this value, as an owned string.
    pub fn to_string(&self) -> (r: String)
        ensures
            r@ == self.code(),
    {
        self.as_str().to_owned()
    }

    /// The code of a metric slot: that of its value where it holds one.
    pub fn slot_str(value: Option<Impact>) -> (r: Option<&'static str>)
        ensures
            str_view(r) == Impact::code_of(value),
    {
        match value {
            Some(v) => Some(v.as_str()),
            None => None,
        }
    }

    /// A value is read back from its own code, and no code holds `/` or `:`.
    pub proof fn lemma_code(self)
        ensures
            Impact::from_code(upper(self.code())) == Some(self),
            free_of(self.code(), '/'),
            free_of(self.code(), ':'),
    {
    }

    /// The weight of this value in the score formulas, in thousandths. `NotDefined` weighs as the
    /// worst case, `High`.
    pub open spec fn spec_score(&self) -> u32 {
        match self {
            Impact::High => 560,
            Impact::Low => 220,
            Impact::NoneValue => 0,
            Impact::NotDefined => 560,
        }
    }

    /// The weight of this value in the score formulas, in thousandths. `NotDefined` weighs as the
    /// worst case, `High`.
    #[verifier::when_used_as_spec(spec_score)]
    pub fn score(&self) -> (r: u32)
        ensures
            r == self.spec_score(),
    {
        match self {
            Impact::High => 560,
            Impact::Low => 220,
            Impact::NoneValue => 0,
            Impact::NotDefined => 560,
        }
    }
}

/// Represents the exploit code maturity metric.
#[derive(Clone, Copy, Debug, PartialEq, Eq, Structural)]
pub enum ExploitCodeMaturity {
    Unproven,
    ProofOfConcept,
    Functional,
    High,
    NotDefined,
}

impl ExploitCodeMaturity {
    /// The code that stands for this value in a vector string.
    pub open spec fn code(self) -> Seq<char> {
        match self {
            ExploitCodeMaturity::Unproven => seq!['U'],
            ExploitCodeMaturity::ProofOfConcept => seq!['P'],
            ExploitCodeMaturity::Functional => seq!['F'],
            ExploitCodeMaturity::High => seq!['H'],
            ExploitCodeMaturity::NotDefined => seq!['X'],
        }
    }

    /// The code of a metric slot: that of its value where it holds one.
    pub open spec fn code_of(value: Option<ExploitCodeMaturity>) -> Option<Seq<char>> {
        match value {
            Some(v) => Some(v.code()),
            None => None,
        }
    }

    /// The value that a code stands for. The code is compared in upper case.
    pub open spec fn from_code(code: Seq<char>) -> Option<ExploitCodeMaturity> {
        if spells1(code, 'U') {
            Some(ExploitCodeMaturity::Unproven)
        } else if spells1(code, 'P') {
            Some(ExploitCodeMaturity::ProofOfConcept)
        } else if spells1(code, 'F') {
            Some(ExploitCodeMaturity::Functional)
        } else if spells1(code, 'H') {
            Some(ExploitCodeMaturity::High)
        } else if spells1(code, 'X') {
            Some(ExploitCodeMaturity::NotDefined)
        } else {
            None
        }
    }

    /// Reads a value from its code in upper case.
    pub fn parse(code: &Vec<char>) -> (r: Option<ExploitCodeMaturity>)
        ensures
            r == ExploitCodeMaturity::from_code(code@),
    {
        if is1(code, 'U') {
            Some(ExploitCodeMaturity::Unproven)
        } else if is1(code, 'P') {
            Some(ExploitCodeMaturity::ProofOfConcept)
        } else if is1(code, 'F') {
            Some(ExploitCodeMaturity::Functional)
        } else if is1(code, 'H') {
            Some(ExploitCodeMaturity::High)
        } else if is1(code, 'X') {
            Some(ExploitCodeMaturity::NotDefined)
        } else {
            None
        }
    }

    /// The code that stands for this value in a vector string.
    pub fn as_str(&self) -> (r: &'static str)
        ensures
            r@ == self.code(),
    {
        match self {
            ExploitCodeMaturity::Unproven => {
                proof {
                    reveal_strlit("U");
                    assert("U"@ =~= seq!['U']);
                }
                "U"
            },
            ExploitCodeMaturity::ProofOfConcept => {
                proof {
                    reveal_strlit("P");
                    assert("P"@ =~= seq!['P']);
                }
                "P"
            },
            ExploitCodeMaturity::Functional => {
                proof {
                    reveal_strlit("F");
                    assert("F"@ =~= seq!['F']);
                }
                "F"
            },
            ExploitCodeMaturity::High => {
                proof {
                    reveal_strlit("H");
                    assert("H"@ =~= seq!['H']);
                }
                "H"
            },
            ExploitCodeMaturity::NotDefined => {
                proof {
                    reveal_strlit("X");
                    assert("X"@ =~= seq!['X']);
                }
                "X"
            },
        }
    }

    /// The code that stands for this value, as an owned string.
    pub fn to_string(&self) -> (r: String)
        ensures
            r@ == self.code(),
    {
        self.as_str().to_owned()
    }

    /// The code of a metric slot: that of its value where it holds one.
    pub fn slot_str(value: Option<ExploitCodeMaturity>) -> (r: Option<&'static str>)
        ensures
            str_view(r) == ExploitCodeMaturity::code_of(value),
    {
        match value {
            Some(v) => Some(v.as_str()),
            None => None,
        }
    }

    /// A value is read back from its own code, and no code holds `/` or `:`.
    pub proof fn lemma_code(self)
        ensures
            ExploitCodeMaturity::from_code(upper(self.code())) == Some(self),
            free_of(self.code(), '/'),
            free_of(self.code(), ':'),
    {
    }

    /// The multiplier of this value in the score formulas, in thousandths.
    pub open spec fn spec_score(&self) -> u32 {
        match self {
            ExploitCodeMaturity::Unproven => 910,
            ExploitCodeMaturity::ProofOfConcept => 940,
            ExploitCodeMaturity::Functional => 970,
            ExploitCodeMaturity::High => 1000,
            ExploitCodeMaturity::NotDefined => 1000,
        }
    }

    /// The multiplier of this value in the score formulas, in thousandths.
    #[verifier::when_used_as_spec(spec_score)]
    pub fn score(&self) -> (r: u32)
        ensures
            r == self.spec_score(),
    {
        match self {
            ExploitCodeMaturity::Unproven => 910,
            ExploitCodeMaturity::ProofOfConcept => 940,
            ExploitCodeMaturity::Functional => 970,
            ExploitCodeMaturity::High => 1000,
            ExploitCodeMaturity::NotDefined => 1000,
        }
    }
}

/// Represents the remediation level metric.
#[derive(Clone, Copy, Debug, PartialEq, Eq, Structural)]
pub enum RemediationLevel {
    OfficialFix,
    TemporaryFix,
    Workaround,
    Unavailable,
    NotDefined,
}

impl RemediationLevel {
    /// The code that stands for this value in a vector string.
    pub open spec fn code(self) -> Seq<char> {
        match self {
            RemediationLevel::OfficialFix => seq!['O'],
            RemediationLevel::TemporaryFix => seq!['T'],
            RemediationLevel::Workaround => seq!['W'],
            RemediationLevel::Unavailable => seq!['U'],
            RemediationLevel::NotDefined => seq!['X'],
        }
    }

    /// The code of a metric slot: that of its value where it holds one.
    pub open spec fn code_of(value: Option<RemediationLevel>) -> Option<Seq<char>> {
        match value {
            Some(v) => Some(v.code()),
            None => None,
        }
    }

    /// The value that a code stands for. The code is compared in upper case.
    pub open spec fn from_code(code: Seq<char>) -> Option<RemediationLevel> {
        if spells1(code, 'O') {
            Some(RemediationLevel::OfficialFix)
        } else if spells1(code, 'T') {
            Some(RemediationLevel::TemporaryFix)
        } else if spells1(code, 'W') {
            Some(RemediationLevel::Workaround)
        } else if spells1(code, 'U') {
            Some(RemediationLevel::Unavailable)
        } else if spells1(code, 'X') {
            Some(RemediationLevel::NotDefined)
        } else {
            None
        }
    }

    /// Reads a value from its code in upper case.
    pub fn parse(code: &Vec<char>) -> (r: Option<RemediationLevel>)
        ensures
            r == RemediationLevel::from_code(code@),
    {
        if is1(code, 'O') {
            Some(RemediationLevel::OfficialFix)
        } else if is1(code, 'T') {
            Some(RemediationLevel::TemporaryFix)
        } else if is1(code, 'W') {
            Some(RemediationLevel::Workaround)
        } else if is1(code, 'U') {
            Some(RemediationLevel::Unavailable)
        } else if is1(code, 'X') {
            Some(RemediationLevel::NotDefined)
        } else {
            None
        }
    }

    /// The code that stands for this value in a vector string.
    pub fn as_str(&self) -> (r: &'static str)
        ensures
            r@ == self.code(),
    {
        match self {
            RemediationLevel::OfficialFix => {
                proof {
                    reveal_strlit("O");
                    assert("O"@ =~= seq!['O']);
                }
                "O"
            },
            RemediationLevel::TemporaryFix => {
                proof {
                    reveal_strlit("T");
                    assert("T"@ =~= seq!['T']);
                }
                "T"
            },
            RemediationLevel::Workaround => {
                proof {
                    reveal_strlit("W");
                    assert("W"@ =~= seq!['W']);
                }
                "W"
            },
            RemediationLevel::Unavailable => {
                proof {
                    reveal_strlit("U");
                    assert("U"@ =~= seq!['U']);
                }
                "U"
            },
            RemediationLevel::NotDefined => {
                proof {
                    reveal_strlit("X");
                    assert("X"@ =~= seq!['X']);
                }
                "X"
            },
        }
    }

    /// The code that stands for this value, as an owned string.
    pub fn to_string(&self) -> (r: String)
        ensures
            r@ == self.code(),
    {
        self.as_str().to_owned()
    }

    /// The code of a metric slot: that of its value where it holds one.
    pub fn slot_str(value: Option<RemediationLevel>) -> (r: Option<&'static str>)
        ensures
            str_view(r) == RemediationLevel::code_of(value),
    {
        match value {
            Some(v) => Some(v.as_str()),
            None => None,
        }
    }

    /// A value is read back from its own code, and no code holds `/` or `:`.
    pub proof fn lemma_code(self)
        ensures
            RemediationLevel::from_code(upper(self.code())) == Some(self),
            free_of(self.code(), '/'),
            free_of(self.code(), ':'),
    {
    }

    /// The multiplier of this value in the score formulas, in thousandths.
    pub open spec fn spec_score(&self) -> u32 {
        match self {
            RemediationLevel::OfficialFix => 950,
            RemediationLevel::TemporaryFix => 960,
            RemediationLevel::Workaround => 970,
            RemediationLevel::Unavailable => 1000,
            RemediationLevel::NotDefined => 1000,
        }
    }

    /// The multiplier of this value in the score formulas, in thousandths.
    #[verifier::when_used_as_spec(spec_score)]
    pub fn score(&self) -> (r: u32)
        ensures
            r == self.spec_score(),
    {
        match self {
            RemediationLevel::OfficialFix => 950,
            RemediationLevel::TemporaryFix => 960,
            RemediationLevel::Workaround => 970,
            RemediationLevel::Unavailable => 1000,
            RemediationLevel::NotDefined => 1000,
        }
    }
}

/// Represents the report confidence metric.
#[derive(Clone, Copy, Debug, PartialEq, Eq, Structural)]
pub enum ReportConfidence {
    Unknown,
    Reasonable,
    Confirmed,
    NotDefined,
}

impl ReportConfidence {
    /// The code that stands for this value in a vector string.
    pub open spec fn code(self) -> Seq<char> {
        match self {
            ReportConfidence::Unknown => seq!['U'],
            ReportConfidence::Reasonable => seq!['R'],
            ReportConfidence::Confirmed => seq!['C'],
            ReportConfidence::NotDefined => seq!['X'],
        }
    }

    /// The code of a metric slot: that of its value where it holds one.
    pub open spec fn code_of(value: Option<ReportConfidence>) -> Option<Seq<char>> {
        match value {
            Some(v) => Some(v.code()),
            None => None,
        }
    }

    /// The value that a code stands for. The code is compared in upper case.
    pub open spec fn from_code(code: Seq<char>) -> Option<ReportConfidence> {
        if spells1(code, 'U') {
            Some(ReportConfidence::Unknown)
        } else if spells1(code, 'R') {
            Some(ReportConfidence::Reasonable)
        } else if spells1(code, 'C') {
            Some(ReportConfidence::Confirmed)
        } else if spells1(code, 'X') {
            Some(ReportConfidence::NotDefined)
        } else {
            None
        }
    }

    /// Reads a value from its code in upper case.
    pub fn parse(code: &Vec<char>) -> (r: Option<ReportConfidence>)
        ensures
            r == ReportConfidence::from_code(code@),
    {
        if is1(code, 'U') {
            Some(ReportConfidence::Unknown)
        } else if is1(code, 'R') {
            Some(ReportConfidence::Reasonable)
        } else if is1(code, 'C') {
            Some(ReportConfidence::Confirmed)
        } else if is1(code, 'X') {
            Some(ReportConfidence::NotDefined)
        } else {
            None
        }
    }

    /// The code that stands for this value in a vector string.
    pub fn as_str(&self) -> (r: &'static str)
        ensures
            r@ == self.code(),
    {
        match self {
            ReportConfidence::Unknown => {
                proof {
                    reveal_strlit("U");
                    assert("U"@ =~= seq!['U']);
                }
                "U"
            },
            ReportConfidence::Reasonable => {
                proof {
                    reveal_strlit("R");
                    assert("R"@ =~= seq!['R']);
                }
                "R"
            },
            ReportConfidence::Confirmed => {
                proof {
                    reveal_strlit("C");
                    assert("C"@ =~= seq!['C']);
                }
                "C"
            },
            ReportConfidence::NotDefined => {
                proof {
                    reveal_strlit("X");
                    assert("X"@ =~= seq!['X']);
                }
                "X"
            },
        }
    }

    /// The code that stands for this value, as an owned string.
    pub fn to_string(&self) -> (r: String)
        ensures
            r@ == self.code(),
    {
        self.as_str().to_owned()
    }

    /// The code of a metric slot: that of its value where it holds one.
    pub fn slot_str(value: Option<ReportConfidence>) -> (r: Option<&'static str>)
        ensures
            str_view(r) == ReportConfidence::code_of(value),
    {
        match value {
            Some(v) => Some(v.as_str()),
            None => None,
        }
    }

    /// A value is read back from its own code, and no code holds `/` or `:`.
    pub proof fn lemma_code(self)
        ensures
            ReportConfidence::from_code(upper(self.code())) == Some(self),
            free_of(self.code(), '/'),
            free_of(self.code(), ':'),
    {
    }

    /// The multiplier of this value in the score formulas, in thousandths.
    pub open spec fn spec_score(&self) -> u32 {
        match self {
            ReportConfidence::Unknown => 920,
            ReportConfidence::Reasonable => 960,
            ReportConfidence::Confirmed => 1000,
            ReportConfidence::NotDefined => 1000,
        }
    }

    /// The multiplier of this value in the score formulas, in thousandths.
    #[verifier::when_used_as_spec(spec_score)]
    pub fn score(&self) -> (r: u32)
        ensures
            r == self.spec_score(),
    {
        match self {
            ReportConfidence::Unknown => 920,
            ReportConfidence::Reasonable => 960,
            ReportConfidence::Confirmed => 1000,
            ReportConfidence::NotDefined => 1000,
        }
    }
}

/// Represents the security requirement metric.
#[derive(Clone, Copy, Debug, PartialEq, Eq, Structural)]
pub enum SecurityRequirement {
    Low,
    Medium,
    High,
    NotDefined,
}

impl SecurityRequirement {
    /// The code that stands for this value in a vector string.
    pub open spec fn code(self) -> Seq<char> {
        match self {
            SecurityRequirement::Low => seq!['L'],
            SecurityRequirement::Medium => seq!['M'],
            SecurityRequirement::High => seq!['H'],
            SecurityRequirement::NotDefined => seq!['X'],
        }
    }

    /// The code of a metric slot: that of its value where it holds one.
    pub open spec fn code_of(value: Option<SecurityRequirement>) -> Option<Seq<char>> {
        match value {
            Some(v) => Some(v.code()),
            None => None,
        }
    }

    /// The value that a code stands for. The code is compared in upper case.
    pub open spec fn from_code(code: Seq<char>) -> Option<SecurityRequirement> {
        if spells1(code, 'L') {
            Some(SecurityRequirement::Low)
        } else if spells1(code, 'M') {
            Some(SecurityRequirement::Medium)
        } else if spells1(code, 'H') {
            Some(SecurityRequirement::High)
        } else if spells1(code, 'X') {
            Some(SecurityRequirement::NotDefined)
        } else {
            None
        }
    }

    /// Reads a value from its code in upper case.
    pub fn parse(code: &Vec<char>) -> (r: Option<SecurityRequirement>)
        ensures
            r == SecurityRequirement::from_code(code@),
    {
        if is1(code, 'L') {
            Some(SecurityRequirement::Low)
        } else if is1(code, 'M') {
            Some(SecurityRequirement::Medium)
        } else if is1(code, 'H') {
            Some(SecurityRequirement::High)
        } else if is1(code, 'X') {
            Some(SecurityRequirement::NotDefined)
        } else {
            None
        }
    }

    /// The code that stands for this value in a vector string.
    pub fn as_str(&self) -> (r: &'static str)
        ensures
            r@ == self.code(),
    {
        match self {
            SecurityRequirement::Low => {
                proof {
                    reveal_strlit("L");
                    assert("L"@ =~= seq!['L']);
                }
                "L"
            },
            SecurityRequirement::Medium => {
                proof {
                    reveal_strlit("M");
                    assert("M"@ =~= seq!['M']);
                }
                "M"
            },
            SecurityRequirement::High => {
                proof {
                    reveal_strlit("H");
                    assert("H"@ =~= seq!['H']);
                }
                "H"
            },
            SecurityRequirement::NotDefined => {
                proof {
                    reveal_strlit("X");
                    assert("X"@ =~= seq!['X']);
                }
                "X"
            },
        }
    }

    /// The code that stands for this value, as an owned string.
    pub fn to_string(&self) -> (r: String)
        ensures
            r@ == self.code(),
    {
        self.as_str().to_owned()
    }

    /// The code of a metric slot: that of its value where it holds one.
    pub fn slot_str(value: Option<SecurityRequirement>) -> (r: Option<&'static str>)
        ensures
            str_view(r) == SecurityRequirement::code_of(value),
    {
        match value {
            Some(v) => Some(v.as_str()),
            None => None,
        }
    }

    /// A value is read back from its own code, and no code holds `/` or `:`.
    pub proof fn lemma_code(self)
        ensures
            SecurityRequirement::from_code(upper(self.code())) == Some(self),
            free_of(self.code(), '/'),
            free_of(self.code(), ':'),
    {
    }

    /// The multiplier of this value in the score formulas, in thousandths.
    pub open spec fn spec_score(&self) -> u32 {
        match self {
            SecurityRequirement::Low => 500,
            SecurityRequirement::Medium => 1000,
            SecurityRequirement::High => 1500,
            SecurityRequirement::NotDefined => 1000,
        }
    }

    /// The multiplier of this value in the score formulas, in thousandths.
    #[verifier::when_used_as_spec(spec_score)]
    pub fn score(&self) -> (r: u32)
        ensures
            r == self.spec_score(),
    {
        match self {
            SecurityRequirement::Low => 500,
            SecurityRequirement::Medium => 1000,
            SecurityRequirement::High => 1500,
            SecurityRequirement::NotDefined => 1000,
        }
    }
}

impl V3Metrics {
    /// The record in which no metric is present.
    pub open spec fn spec_empty() -> V3Metrics {
        V3Metrics {
            attack_vector: None,
            attack_complexity: None,
            privileges_required: None,
            user_interaction: None,
            scope: None,
            confidentiality_impact: None,
            integrity_impact: None,
            availability_impact: None,
            exploit_code_maturity: None,
            remediation_level: None,
            report_confidence: None,
            confidentiality_requirement: None,
            integrity_requirement: None,
            availability_requirement: None,
            modified_attack_vector: None,
            modified_attack_complexity: None,
            modified_privileges_required: None,
            modified_user_interaction: None,
            modified_scope: None,
            modified_confidentiality_impact: None,
            modified_integrity_impact: None,
            modified_availability_impact: None,
        }
    }

    /// The record in which no metric is present.
    #[verifier::when_used_as_spec(spec_empty)]
    pub fn empty() -> (r: V3Metrics)
        ensures
            r == V3Metrics::spec_empty(),
    {
        V3Metrics {
            attack_vector: None,
            attack_complexity: None,
            privileges_required: None,
            user_interaction: None,
            scope: None,
            confidentiality_impact: None,
            integrity_impact: None,
            availability_impact: None,
            exploit_code_maturity: None,
            remediation_level: None,
            report_confidence: None,
            confidentiality_requirement: None,
            integrity_requirement: None,
            availability_requirement: None,
            modified_attack_vector: None,
            modified_attack_complexity: None,
            modified_privileges_required: None,
            modified_user_interaction: None,
            modified_scope: None,
            modified_confidentiality_impact: None,
            modified_integrity_impact: None,
            modified_availability_impact: None,
        }
    }

    /// The components that render the base metrics that are present.
    pub open spec fn base_parts(self) -> Seq<Seq<char>> {
        opt_part("AV"@, AttackVector::code_of(self.attack_vector))
            + opt_part("AC"@, AttackComplexity::code_of(self.attack_complexity))
            + opt_part("PR"@, PrivilegesRequired::code_of(self.privileges_required))
            + opt_part("UI"@, UserInteraction::code_of(self.user_interaction))
            + opt_part("S"@, Scope::code_of(self.scope))
            + opt_part("C"@, Impact::code_of(self.confidentiality_impact))
            + opt_part("I"@, Impact::code_of(self.integrity_impact))
            + opt_part("A"@, Impact::code_of(self.availability_impact))
    }

    /// The components that render the temporal metrics that are present.
    pub open spec fn temporal_parts(self) -> Seq<Seq<char>> {
        opt_part("E"@, ExploitCodeMaturity::code_of(self.exploit_code_maturity))
            + opt_part("RL"@, RemediationLevel::code_of(self.remediation_level))
            + opt_part("RC"@, ReportConfidence::code_of(self.report_confidence))
    }

    /// The components that render the environmental metrics that are present.
    pub open spec fn environmental_parts(self) -> Seq<Seq<char>> {
        opt_part("CR"@, SecurityRequirement::code_of(self.confidentiality_requirement))
            + opt_part("IR"@, SecurityRequirement::code_of(self.integrity_requirement))
            + opt_part("AR"@, SecurityRequirement::code_of(self.availability_requirement))
            + opt_part("MAV"@, AttackVector::code_of(self.modified_attack_vector))
            + opt_part("MAC"@, AttackComplexity::code_of(self.modified_attack_complexity))
            + opt_part("MPR"@, PrivilegesRequired::code_of(self.modified_privileges_required))
            + opt_part("MUI"@, UserInteraction::code_of(self.modified_user_interaction))
            + opt_part("MS"@, Scope::code_of(self.modified_scope))
            + opt_part("MC"@, Impact::code_of(self.modified_confidentiality_impact))
            + opt_part("MI"@, Impact::code_of(self.modified_integrity_impact))
            + opt_part("MA"@, Impact::code_of(self.modified_availability_impact))
    }

    /// The components of the canonical rendering: one for each metric that is present,
    /// in the canonical order.
    pub open spec fn parts(self) -> Seq<Seq<char>> {
        self.base_parts()
            + self.temporal_parts()
            + self.environmental_parts()
    }

    /// Appends the base metrics that are present, each as `/KEY:VALUE`.
    fn push_base(&self, out: &mut Vec<char>)
        ensures
            final(out)@ == old(out)@ + chain(self.base_parts(), '/'),
    {
        let ghost before = out@;
        let ghost mut parts: Seq<Seq<char>> = Seq::empty();
        proof {
            assert(out@ =~= before + chain(parts, '/'));
        }
        push_slot(
            out,
            "AV",
            AttackVector::slot_str(self.attack_vector),
            Ghost(before),
            Ghost(parts),
        );
        proof {
            let part = opt_part("AV"@, AttackVector::code_of(self.attack_vector));
            assert(parts + part =~= part);
            parts = part;
        }
        push_slot(
            out,
            "AC",
            AttackComplexity::slot_str(self.attack_complexity),
            Ghost(before),
            Ghost(parts),
        );
        proof {
            let part = opt_part("AC"@, AttackComplexity::code_of(self.attack_complexity));
            parts = parts + part;
        }
        push_slot(
            out,
            "PR",
            PrivilegesRequired::slot_str(self.privileges_required),
            Ghost(before),
            Ghost(parts),
        );
        proof {
            let part = opt_part("PR"@, PrivilegesRequired::code_of(self.privileges_required));
            parts = parts + part;
        }
        push_slot(
            out,
            "UI",
            UserInteraction::slot_str(self.user_interaction),
            Ghost(before),
            Ghost(parts),
        );
        proof {
            let part = opt_part("UI"@, UserInteraction::code_of(self.user_interaction));
            parts = parts + part;
        }
        push_slot(out, "S", Scope::slot_str(self.scope), Ghost(before), Ghost(parts));
        proof {
            let part = opt_part("S"@, Scope::code_of(self.scope));
            parts = parts + part;
        }
        push_slot(
            out,
            "C",
            Impact::slot_str(self.confidentiality_impact),
            Ghost(before),
            Ghost(parts),
        );
        proof {
            let part = opt_part("C"@, Impact::code_of(self.confidentiality_impact));
            parts = parts + part;
        }
        push_slot(out, "I", Impact::slot_str(self.integrity_impact), Ghost(before), Ghost(parts));
        proof {
            let part = opt_part("I"@, Impact::code_of(self.integrity_impact));
            parts = parts + part;
        }
        push_slot(
            out,
            "A",
            Impact::slot_str(self.availability_impact),
            Ghost(before),
            Ghost(parts),
        );
        proof {
            let part = opt_part("A"@, Impact::code_of(self.availability_impact));
            parts = parts + part;
        }
    }

    /// Appends the temporal metrics that are present, each as `/KEY:VALUE`.
    fn push_temporal(&self, out: &mut Vec<char>)
        ensures
            final(out)@ == old(out)@ + chain(self.temporal_parts(), '/'),
    {
        let ghost before = out@;
        let ghost mut parts: Seq<Seq<char>> = Seq::empty();
        proof {
            assert(out@ =~= before + chain(parts, '/'));
        }
        push_slot(
            out,
            "E",
            ExploitCodeMaturity::slot_str(self.exploit_code_maturity),
            Ghost(before),
            Ghost(parts),
        );
        proof {
            let part = opt_part(
                "E"@,
                ExploitCodeMaturity::code_of(self.exploit_code_maturity),
            );
            assert(parts + part =~= part);
            parts = part;
        }
        push_slot(
            out,
            "RL",
            RemediationLevel::slot_str(self.remediation_level),
            Ghost(before),
            Ghost(parts),
        );
        proof {
            let part = opt_part("RL"@, RemediationLevel::code_of(self.remediation_level));
            parts = parts + part;
        }
        push_slot(
            out,
            "RC",
            ReportConfidence::slot_str(self.report_confidence),
            Ghost(before),
            Ghost(parts),
        );
        proof {
            let part = opt_part("RC"@, ReportConfidence::code_of(self.report_confidence));
            parts = parts + part;
        }
    }

    /// Appends the environmental metrics that are present, each as `/KEY:VALUE`.
    fn push_environmental(&self, out: &mut Vec<char>)
        ensures
            final(out)@ == old(out)@ + chain(self.environmental_parts(), '/'),
    {
        let ghost before = out@;
        let ghost mut parts: Seq<Seq<char>> = Seq::empty();
        proof {
            assert(out@ =~= before + chain(parts, '/'));
        }
        push_slot(
            out,
            "CR",
            SecurityRequirement::slot_str(self.confidentiality_requirement),
            Ghost(before),
            Ghost(parts),
        );
        proof {
            let part = opt_part(
                "CR"@,
                SecurityRequirement::code_of(self.confidentiality_requirement),
            );
            assert(parts + part =~= part);
            parts = part;
        }
        push_slot(
            out,
            "IR",
            SecurityRequirement::slot_str(self.integrity_requirement),
            Ghost(before),
            Ghost(parts),
        );
        proof {
            let part = opt_part(
                "IR"@,
                SecurityRequirement::code_of(self.integrity_requirement),
            );
            parts = parts + part;
        }
        push_slot(
            out,
            "AR",
            SecurityRequirement::slot_str(self.availability_requirement),
            Ghost(before),
            Ghost(parts),
        );
        proof {
            let part = opt_part(
                "AR"@,
                SecurityRequirement::code_of(self.availability_requirement),
            );
            parts = parts + part;
        }
        push_slot(
            out,
            "MAV",
            AttackVector::slot_str(self.modified_attack_vector),
            Ghost(before),
            Ghost(parts),
        );
        proof {
            let part = opt_part("MAV"@, AttackVector::code_of(self.modified_attack_vector));
            parts = parts + part;
        }
        push_slot(
            out,
            "MAC",
            AttackComplexity::slot_str(self.modified_attack_complexity),
            Ghost(before),
            Ghost(parts),
        );
        proof {
            let part = opt_part(
                "MAC"@,
                AttackComplexity::code_of(self.modified_attack_complexity),
            );
            parts = parts + part;
        }
        push_slot(
            out,
            "MPR",
            PrivilegesRequired::slot_str(self.modified_privileges_required),
            Ghost(before),
            Ghost(parts),
        );
        proof {
            let part = opt_part(
                "MPR"@,
                PrivilegesRequired::code_of(self.modified_privileges_required),
            );
            parts = parts + part;
        }
        push_slot(
            out,
            "MUI",
            UserInteraction::slot_str(self.modified_user_interaction),
            Ghost(before),
            Ghost(parts),
        );
        proof {
            let part = opt_part(
                "MUI"@,
                UserInteraction::code_of(self.modified_user_interaction),
            );
            parts = parts + part;
        }
        push_slot(out, "MS", Scope::slot_str(self.modified_scope), Ghost(before), Ghost(parts));
        proof {
            let part = opt_part("MS"@, Scope::code_of(self.modified_scope));
            parts = parts + part;
        }
        push_slot(
            out,
            "MC",
            Impact::slot_str(self.modified_confidentiality_impact),
            Ghost(before),
            Ghost(parts),
        );
        proof {
            let part = opt_part("MC"@, Impact::code_of(self.modified_confidentiality_impact));
            parts = parts + part;
        }
        push_slot(
            out,
            "MI",
            Impact::slot_str(self.modified_integrity_impact),
            Ghost(before),
            Ghost(parts),
        );
        proof {
            let part = opt_part("MI"@, Impact::code_of(self.modified_integrity_impact));
            parts = parts + part;
        }
        push_slot(
            out,
            "MA",
            Impact::slot_str(self.modified_availability_impact),
            Ghost(before),
            Ghost(parts),
        );
        proof {
            let part = opt_part("MA"@, Impact::code_of(self.modified_availability_impact));
            parts = parts + part;
        }
    }

    /// Sets the metric that `key` names to the value that `value` stands for.
    /// Key and value are in upper case.
    pub fn set(self, key: &Vec<char>, value: &Vec<char>) -> (r: Result<V3Metrics, ParseError>)
        ensures
            agrees(r, set_metric(self, key@, value@)),
    {
        if is2(key, 'A', 'V') {
            match AttackVector::parse(value) {
                Some(v) => Ok(V3Metrics { attack_vector: Some(v), ..self }),
                None => Err(invalid_value(key, value)),
            }
        } else if is2(key, 'A', 'C') {
            match AttackComplexity::parse(value) {
                Some(v) => Ok(V3Metrics { attack_complexity: Some(v), ..self }),
                None => Err(invalid_value(key, value)),
            }
        } else if is2(key, 'P', 'R') {
            match PrivilegesRequired::parse(value) {
                Some(v) => Ok(V3Metrics { privileges_required: Some(v), ..self }),
                None => Err(invalid_value(key, value)),
            }
        } else if is2(key, 'U', 'I') {
            match UserInteraction::parse(value) {
                Some(v) => Ok(V3Metrics { user_interaction: Some(v), ..self }),
                None => Err(invalid_value(key, value)),
            }
        } else if is1(key, 'S') {
            match Scope::parse(value) {
                Some(v) => Ok(V3Metrics { scope: Some(v), ..self }),
                None => Err(invalid_value(key, value)),
            }
        } else if is1(key, 'C') {
            match Impact::parse(value) {
                Some(v) => Ok(V3Metrics { confidentiality_impact: Some(v), ..self }),
                None => Err(invalid_value(key, value)),
            }
        } else if is1(key, 'I') {
            match Impact::parse(value) {
                Some(v) => Ok(V3Metrics { integrity_impact: Some(v), ..self }),
                None => Err(invalid_value(key, value)),
            }
        } else if is1(key, 'A') {
            match Impact::parse(value) {
                Some(v) => Ok(V3Metrics { availability_impact: Some(v), ..self }),
                None => Err(invalid_value(key, value)),
            }
        } else if is1(key, 'E') {
            match ExploitCodeMaturity::parse(value) {
                Some(v) => Ok(V3Metrics { exploit_code_maturity: Some(v), ..self }),
                None => Err(invalid_value(key, value)),
            }
        } else if is2(key, 'R', 'L') {
            match RemediationLevel::parse(value) {
                Some(v) => Ok(V3Metrics { remediation_level: Some(v), ..self }),
                None => Err(invalid_value(key, value)),
            }
        } else if is2(key, 'R', 'C') {
            match ReportConfidence::parse(value) {
                Some(v) => Ok(V3Metrics { report_confidence: Some(v), ..self }),
                None => Err(invalid_value(key, value)),
            }
        } else if is2(key, 'C', 'R') {
            match SecurityRequirement::parse(value) {
                Some(v) => Ok(V3Metrics { confidentiality_requirement: Some(v), ..self }),
                None => Err(invalid_value(key, value)),
            }
        } else if is2(key, 'I', 'R') {
            match SecurityRequirement::parse(value) {
                Some(v) => Ok(V3Metrics { integrity_requirement: Some(v), ..self }),
                None => Err(invalid_value(key, value)),
            }
        } else if is2(key, 'A', 'R') {
            match SecurityRequirement::parse(value) {
                Some(v) => Ok(V3Metrics { availability_requirement: Some(v), ..self }),
                None => Err(invalid_value(key, value)),
            }
        } else if is3(key, 'M', 'A', 'V') {
            match AttackVector::parse(value) {
                Some(v) => Ok(V3Metrics { modified_attack_vector: Some(v), ..self }),
                None => Err(invalid_value(key, value)),
            }
        } else if is3(key, 'M', 'A', 'C') {
            match AttackComplexity::parse(value) {
                Some(v) => Ok(V3Metrics { modified_attack_complexity: Some(v), ..self }),
                None => Err(invalid_value(key, value)),
            }
        } else if is3(key, 'M', 'P', 'R') {
            match PrivilegesRequired::parse(value) {
                Some(v) => Ok(V3Metrics { modified_privileges_required: Some(v), ..self }),
                None => Err(invalid_value(key, value)),
            }
        } else if is3(key, 'M', 'U', 'I') {
            match UserInteraction::parse(value) {
                Some(v) => Ok(V3Metrics { modified_user_interaction: Some(v), ..self }),
                None => Err(invalid_value(key, value)),
            }
        } else if is2(key, 'M', 'S') {
            match Scope::parse(value) {
                Some(v) => Ok(V3Metrics { modified_scope: Some(v), ..self }),
                None => Err(invalid_value(key, value)),
            }
        } else if is2(key, 'M', 'C') {
            match Impact::parse(value) {
                Some(v) => Ok(V3Metrics { modified_confidentiality_impact: Some(v), ..self }),
                None => Err(invalid_value(key, value)),
            }
        } else if is2(key, 'M', 'I') {
            match Impact::parse(value) {
                Some(v) => Ok(V3Metrics { modified_integrity_impact: Some(v), ..self }),
                None => Err(invalid_value(key, value)),
            }
        } else if is2(key, 'M', 'A') {
            match Impact::parse(value) {
                Some(v) => Ok(V3Metrics { modified_availability_impact: Some(v), ..self }),
                None => Err(invalid_value(key, value)),
            }
        } else {
            Err(ParseError::UnknownMetric { metric: to_string(key) })
        }
    }

    /// Reads one segment of a vector into the record. An empty segment changes nothing.
    pub fn read(self, segment: &Vec<char>) -> (r: Result<V3Metrics, ParseError>)
        ensures
            agrees(r, read_component(self, segment@)),
    {
        if segment.len() == 0 {
            return Ok(self);
        }
        match read_key_value(segment) {
            Some((key, value)) => self.set(&key, &value),
            None => Err(ParseError::InvalidComponent { component: to_string(segment) }),
        }
    }
}

/// The record after the metric that `key` names has been set to the value that `value`
/// stands for. Key and value are in upper case. A later value replaces an earlier one.
pub open spec fn set_metric(m: V3Metrics, key: Seq<char>, value: Seq<char>) -> Result<
    V3Metrics,
    ParseErrorView,
> {
    if spells2(key, 'A', 'V') {
        match AttackVector::from_code(value) {
            Some(v) => Ok(V3Metrics { attack_vector: Some(v), ..m }),
            None => Err(ParseErrorView::InvalidMetricValue { metric: key, value }),
        }
    } else if spells2(key, 'A', 'C') {
        match AttackComplexity::from_code(value) {
            Some(v) => Ok(V3Metrics { attack_complexity: Some(v), ..m }),
            None => Err(ParseErrorView::InvalidMetricValue { metric: key, value }),
        }
    } else if spells2(key, 'P', 'R') {
        match PrivilegesRequired::from_code(value) {
            Some(v) => Ok(V3Metrics { privileges_required: Some(v), ..m }),
            None => Err(ParseErrorView::InvalidMetricValue { metric: key, value }),
        }
    } else if spells2(key, 'U', 'I') {
        match UserInteraction::from_code(value) {
            Some(v) => Ok(V3Metrics { user_interaction: Some(v), ..m }),
            None => Err(ParseErrorView::InvalidMetricValue { metric: key, value }),
        }
    } else if spells1(key, 'S') {
        match Scope::from_code(value) {
            Some(v) => Ok(V3Metrics { scope: Some(v), ..m }),
            None => Err(ParseErrorView::InvalidMetricValue { metric: key, value }),
        }
    } else if spells1(key, 'C') {
        match Impact::from_code(value) {
            Some(v) => Ok(V3Metrics { confidentiality_impact: Some(v), ..m }),
            None => Err(ParseErrorView::InvalidMetricValue { metric: key, value }),
        }
    } else if spells1(key, 'I') {
        match Impact::from_code(value) {
            Some(v) => Ok(V3Metrics { integrity_impact: Some(v), ..m }),
            None => Err(ParseErrorView::InvalidMetricValue { metric: key, value }),
        }
    } else if spells1(key, 'A') {
        match Impact::from_code(value) {
            Some(v) => Ok(V3Metrics { availability_impact: Some(v), ..m }),
            None => Err(ParseErrorView::InvalidMetricValue { metric: key, value }),
        }
    } else if spells1(key, 'E') {
        match ExploitCodeMaturity::from_code(value) {
            Some(v) => Ok(V3Metrics { exploit_code_maturity: Some(v), ..m }),
            None => Err(ParseErrorView::InvalidMetricValue { metric: key, value }),
        }
    } else if spells2(key, 'R', 'L') {
        match RemediationLevel::from_code(value) {
            Some(v) => Ok(V3Metrics { remediation_level: Some(v), ..m }),
            None => Err(ParseErrorView::InvalidMetricValue { metric: key, value }),
        }
    } else if spells2(key, 'R', 'C') {
        match ReportConfidence::from_code(value) {
            Some(v) => Ok(V3Metrics { report_confidence: Some(v), ..m }),
            None => Err(ParseErrorView::InvalidMetricValue { metric: key, value }),
        }
    } else if spells2(key, 'C', 'R') {
        match SecurityRequirement::from_code(value) {
            Some(v) => Ok(V3Metrics { confidentiality_requirement: Some(v), ..m }),
            None => Err(ParseErrorView::InvalidMetricValue { metric: key, value }),
        }
    } else if spells2(key, 'I', 'R') {
        match SecurityRequirement::from_code(value) {
            Some(v) => Ok(V3Metrics { integrity_requirement: Some(v), ..m }),
            None => Err(ParseErrorView::InvalidMetricValue { metric: key, value }),
        }
    } else if spells2(key, 'A', 'R') {
        match SecurityRequirement::from_code(value) {
            Some(v) => Ok(V3Metrics { availability_requirement: Some(v), ..m }),
            None => Err(ParseErrorView::InvalidMetricValue { metric: key, value }),
        }
    } else if spells3(key, 'M', 'A', 'V') {
        match AttackVector::from_code(value) {
            Some(v) => Ok(V3Metrics { modified_attack_vector: Some(v), ..m }),
            None => Err(ParseErrorView::InvalidMetricValue { metric: key, value }),
        }
    } else if spells3(key, 'M', 'A', 'C') {
        match AttackComplexity::from_code(value) {
            Some(v) => Ok(V3Metrics { modified_attack_complexity: Some(v), ..m }),
            None => Err(ParseErrorView::InvalidMetricValue { metric: key, value }),
        }
    } else if spells3(key, 'M', 'P', 'R') {
        match PrivilegesRequired::from_code(value) {
            Some(v) => Ok(V3Metrics { modified_privileges_required: Some(v), ..m }),
            None => Err(ParseErrorView::InvalidMetricValue { metric: key, value }),
        }
    } else if spells3(key, 'M', 'U', 'I') {
        match UserInteraction::from_code(value) {
            Some(v) => Ok(V3Metrics { modified_user_interaction: Some(v), ..m }),
            None => Err(ParseErrorView::InvalidMetricValue { metric: key, value }),
        }
    } else if spells2(key, 'M', 'S') {
        match Scope::from_code(value) {
            Some(v) => Ok(V3Metrics { modified_scope: Some(v), ..m }),
            None => Err(ParseErrorView::InvalidMetricValue { metric: key, value }),
        }
    } else if spells2(key, 'M', 'C') {
        match Impact::from_code(value) {
            Some(v) => Ok(V3Metrics { modified_confidentiality_impact: Some(v), ..m }),
            None => Err(ParseErrorView::InvalidMetricValue { metric: key, value }),
        }
    } else if spells2(key, 'M', 'I') {
        match Impact::from_code(value) {
            Some(v) => Ok(V3Metrics { modified_integrity_impact: Some(v), ..m }),
            None => Err(ParseErrorView::InvalidMetricValue { metric: key, value }),
        }
    } else if spells2(key, 'M', 'A') {
        match Impact::from_code(value) {
            Some(v) => Ok(V3Metrics { modified_availability_impact: Some(v), ..m }),
            None => Err(ParseErrorView::InvalidMetricValue { metric: key, value }),
        }
    } else {
        Err(ParseErrorView::UnknownMetric { metric: key })
    }
}

/// The record after one segment of a vector has been read. An empty segment changes
/// nothing; any other must hold exactly one `:`.
pub open spec fn read_component(m: V3Metrics, segment: Seq<char>) -> Result<
    V3Metrics,
    ParseErrorView,
> {
    if segment.len() == 0 {
        Ok(m)
    } else {
        match key_value(segment) {
            Some((key, value)) => set_metric(m, key, value),
            None => Err(ParseErrorView::InvalidComponent { component: segment }),
        }
    }
}

/// The record after the segments have been read from left to right; the first error ends
/// the reading.
pub open spec fn read_components(m: V3Metrics, segments: Seq<Seq<char>>) -> Result<
    V3Metrics,
    ParseErrorView,
>
    decreases segments.len(),
{
    if segments.len() == 0 {
        Ok(m)
    } else {
        match read_component(m, segments[0]) {
            Ok(next) => read_components(next, segments.drop_first()),
            Err(e) => Err(e),
        }
    }
}

/// The first segment of a rendered vector, for version 3.0 or, otherwise, 3.1.
pub open spec fn prefix(v3_0: bool) -> Seq<char> {
    if v3_0 {
        seq!['C', 'V', 'S', 'S', ':', '3', '.', '0']
    } else {
        seq!['C', 'V', 'S', 'S', ':', '3', '.', '1']
    }
}

/// Whether a vector string marks its record as one of version 3.0: whether it begins
/// with `CVSS:3.0`, in upper case. Every other record counts as one of version 3.1.
pub open spec fn is_v3_0(vector_string: Seq<char>) -> bool {
    vector_string.len() >= 8 && vector_string.take(8) == prefix(true)
}

/// Whether the version literal of a vector is one that this record type stands for.
pub open spec fn known_version(version: Seq<char>) -> bool {
    spells3(version, '3', '.', '0') || spells3(version, '3', '.', '1')
}

/// What parsing a vector string gives: the metrics it holds, or the first error.
///
/// The string is cut at every `/`. The first segment must read `CVSS:3.0` or `CVSS:3.1`,
/// the word `CVSS` in any mix of cases. Every other segment is empty or holds a known
/// key, one `:` and a value of that key's metric, both in any mix of cases.
pub open spec fn parse_metrics(s: Seq<char>) -> Result<V3Metrics, ParseErrorView> {
    let segments = split(s, '/');
    match prefix_version(segments[0]) {
        Err(e) => Err(e),
        Ok(version) => if known_version(version) {
            read_components(V3Metrics::empty(), segments.drop_first())
        } else {
            Err(ParseErrorView::InvalidVersion { version })
        },
    }
}

/// The canonical vector string of the metrics: the version prefix, then the metrics that
/// are present, each as `/KEY:VALUE`, in the canonical order.
pub open spec fn render_metrics(m: V3Metrics, v3_0: bool) -> Seq<char> {
    join(seq![prefix(v3_0)] + m.parts(), '/')
}

/// Parsing the canonical rendering of any record gives back its metric values.
pub proof fn lemma_round_trip(m: V3Metrics, v3_0: bool)
    ensures
        parse_metrics(render_metrics(m, v3_0)) == Ok::<V3Metrics, ParseErrorView>(m),
{
    let first = prefix(v3_0);
    let segments = seq![first] + m.parts();
    lemma_read_parts(m);
    assert(all_free_of(seq![first], '/'));
    lemma_all_free_concat(seq![first], m.parts(), '/');
    lemma_split_join(segments, '/');
    assert(segments[0] == first);
    assert(segments.drop_first() =~= m.parts());
    let word = seq!['C', 'V', 'S', 'S'];
    let version = first.skip(5);
    assert(first =~= word + seq![':'] + version);
    lemma_split_cons(word, version, ':');
    lemma_split_free(version, ':');
    assert(upper(word) =~= word);
}

/// The error for a value that the metric `key` does not have.
fn invalid_value(key: &Vec<char>, value: &Vec<char>) -> (e: ParseError)
    ensures
        e@ == (ParseErrorView::InvalidMetricValue { metric: key@, value: value@ }),
{
    ParseError::InvalidMetricValue { metric: to_string(key), value: to_string(value) }
}

/// Reading `first` and then `rest` is reading `first` and going on from its result.
pub proof fn lemma_read_cons(m: V3Metrics, first: Seq<char>, rest: Seq<Seq<char>>)
    ensures
        read_components(m, seq![first] + rest) == match read_component(m, first) {
            Ok(next) => read_components(next, rest),
            Err(e) => Err(e),
        },
{
    let all = seq![first] + rest;
    assert(all[0] == first);
    assert(all.drop_first() =~= rest);
}

/// Reading `a + b` is reading `a` and going on with `b` from its result.
pub proof fn lemma_read_concat(m: V3Metrics, a: Seq<Seq<char>>, b: Seq<Seq<char>>)
    ensures
        read_components(m, a + b) == match read_components(m, a) {
            Ok(next) => read_components(next, b),
            Err(e) => Err(e),
        },
    decreases a.len(),
{
    if a.len() == 0 {
        assert(a + b =~= b);
    } else {
        assert((a + b)[0] == a[0]);
        assert((a + b).drop_first() =~= a.drop_first() + b);
        match read_component(m, a[0]) {
            Ok(next) => lemma_read_concat(next, a.drop_first(), b),
            Err(e) => {},
        }
    }
}

/// Reading fails only with an error of a kind that parsing raises.
pub proof fn lemma_read_errors(m: V3Metrics, segments: Seq<Seq<char>>)
    ensures
        match read_components(m, segments) {
            Ok(_) => true,
            Err(e) => raised(e),
        },
    decreases segments.len(),
{
    if segments.len() > 0 {
        match read_component(m, segments[0]) {
            Ok(next) => lemma_read_errors(next, segments.drop_first()),
            Err(e) => {},
        }
    }
}

/// Parsing fails only with an error of a kind that parsing raises: never with one of the
/// reserved kinds, for a metric that is missing or given twice.
pub proof fn lemma_parse_errors(s: Seq<char>)
    ensures
        match parse_metrics(s) {
            Ok(_) => true,
            Err(e) => raised(e),
        },
{
    lemma_read_errors(V3Metrics::empty(), split(s, '/').drop_first());
}

/// Reading the rendering of one metric slot sets that metric, or changes nothing where
/// the slot is empty.
pub proof fn lemma_read_part(m: V3Metrics, key: Seq<char>, code: Seq<char>)
    requires
        free_of(key, ':'),
        free_of(code, ':'),
    ensures
        read_components(m, seq![component(key, code)]) == set_metric(m, upper(key), upper(code)),
{
    let c = component(key, code);
    lemma_key_value_of(key, code);
    lemma_read_cons(m, c, Seq::empty());
    assert(seq![c] + Seq::<Seq<char>>::empty() =~= seq![c]);
    assert(c.len() > 0);
}

proof fn lemma_read_attack_vector(m: V3Metrics, value: Option<AttackVector>)
    ensures
        read_components(m, opt_part("AV"@, AttackVector::code_of(value)))
            == Ok::<V3Metrics, ParseErrorView>(
            match value {
                Some(v) => V3Metrics { attack_vector: Some(v), ..m },
                None => m,
            },
        ),
        all_free_of(opt_part("AV"@, AttackVector::code_of(value)), '/'),
{
    reveal_strlit("AV");
    let key = "AV"@;
    assert(key =~= seq!['A', 'V']);
    match value {
        Some(v) => {
            v.lemma_code();
            lemma_read_part(m, key, v.code());
            assert(upper(key) =~= seq!['A', 'V']);
        },
        None => {},
    }
}

proof fn lemma_read_attack_complexity(m: V3Metrics, value: Option<AttackComplexity>)
    ensures
        read_components(m, opt_part("AC"@, AttackComplexity::code_of(value)))
            == Ok::<V3Metrics, ParseErrorView>(
            match value {
                Some(v) => V3Metrics { attack_complexity: Some(v), ..m },
                None => m,
            },
        ),
        all_free_of(opt_part("AC"@, AttackComplexity::code_of(value)), '/'),
{
    reveal_strlit("AC");
    let key = "AC"@;
    assert(key =~= seq!['A', 'C']);
    match value {
        Some(v) => {
            v.lemma_code();
            lemma_read_part(m, key, v.code());
            assert(upper(key) =~= seq!['A', 'C']);
        },
        None => {},
    }
}

proof fn lemma_read_privileges_required(m: V3Metrics, value: Option<PrivilegesRequired>)
    ensures
        read_components(m, opt_part("PR"@, PrivilegesRequired::code_of(value)))
            == Ok::<V3Metrics, ParseErrorView>(
            match value {
                Some(v) => V3Metrics { privileges_required: Some(v), ..m },
                None => m,
            },
        ),
        all_free_of(opt_part("PR"@, PrivilegesRequired::code_of(value)), '/'),
{
    reveal_strlit("PR");
    let key = "PR"@;
    assert(key =~= seq!['P', 'R']);
    match value {
        Some(v) => {
            v.lemma_code();
            lemma_read_part(m, key, v.code());
            assert(upper(key) =~= seq!['P', 'R']);
        },
        None => {},
    }
}

proof fn lemma_read_user_interaction(m: V3Metrics, value: Option<UserInteraction>)
    ensures
        read_components(m, opt_part("UI"@, UserInteraction::code_of(value)))
            == Ok::<V3Metrics, ParseErrorView>(
            match value {
                Some(v) => V3Metrics { user_interaction: Some(v), ..m },
                None => m,
            },
        ),
        all_free_of(opt_part("UI"@, UserInteraction::code_of(value)), '/'),
{
    reveal_strlit("UI");
    let key = "UI"@;
    assert(key =~= seq!['U', 'I']);
    match value {
        Some(v) => {
            v.lemma_code();
            lemma_read_part(m, key, v.code());
            assert(upper(key) =~= seq!['U', 'I']);
        },
        None => {},
    }
}

proof fn lemma_read_scope(m: V3Metrics, value: Option<Scope>)
    ensures
        read_components(m, opt_part("S"@, Scope::code_of(value)))
            == Ok::<V3Metrics, ParseErrorView>(
            match value {
                Some(v) => V3Metrics { scope: Some(v), ..m },
                None => m,
            },
        ),
        all_free_of(opt_part("S"@, Scope::code_of(value)), '/'),
{
    reveal_strlit("S");
    let key = "S"@;
    assert(key =~= seq!['S']);
    match value {
        Some(v) => {
            v.lemma_code();
            lemma_read_part(m, key, v.code());
            assert(upper(key) =~= seq!['S']);
        },
        None => {},
    }
}

proof fn lemma_read_confidentiality_impact(m: V3Metrics, value: Option<Impact>)
    ensures
        read_components(m, opt_part("C"@, Impact::code_of(value)))
            == Ok::<V3Metrics, ParseErrorView>(
            match value {
                Some(v) => V3Metrics { confidentiality_impact: Some(v), ..m },
                None => m,
            },
        ),
        all_free_of(opt_part("C"@, Impact::code_of(value)), '/'),
{
    reveal_strlit("C");
    let key = "C"@;
    assert(key =~= seq!['C']);
    match value {
        Some(v) => {
            v.lemma_code();
            lemma_read_part(m, key, v.code());
            assert(upper(key) =~= seq!['C']);
        },
        None => {},
    }
}

proof fn lemma_read_integrity_impact(m: V3Metrics, value: Option<Impact>)
    ensures
        read_components(m, opt_part("I"@, Impact::code_of(value)))
            == Ok::<V3Metrics, ParseErrorView>(
            match value {
                Some(v) => V3Metrics { integrity_impact: Some(v), ..m },
                None => m,
            },
        ),
        all_free_of(opt_part("I"@, Impact::code_of(value)), '/'),
{
    reveal_strlit("I");
    let key = "I"@;
    assert(key =~= seq!['I']);
    match value {
        Some(v) => {
            v.lemma_code();
            lemma_read_part(m, key, v.code());
            assert(upper(key) =~= seq!['I']);
        },
        None => {},
    }
}

proof fn lemma_read_availability_impact(m: V3Metrics, value: Option<Impact>)
    ensures
        read_components(m, opt_part("A"@, Impact::code_of(value)))
            == Ok::<V3Metrics, ParseErrorView>(
            match value {
                Some(v) => V3Metrics { availability_impact: Some(v), ..m },
                None => m,
            },
        ),
        all_free_of(opt_part("A"@, Impact::code_of(value)), '/'),
{
    reveal_strlit("A");
    let key = "A"@;
    assert(key =~= seq!['A']);
    match value {
        Some(v) => {
            v.lemma_code();
            lemma_read_part(m, key, v.code());
            assert(upper(key) =~= seq!['A']);
        },
        None => {},
    }
}

proof fn lemma_read_exploit_code_maturity(m: V3Metrics, value: Option<ExploitCodeMaturity>)
    ensures
        read_components(m, opt_part("E"@, ExploitCodeMaturity::code_of(value)))
            == Ok::<V3Metrics, ParseErrorView>(
            match value {
                Some(v) => V3Metrics { exploit_code_maturity: Some(v), ..m },
                None => m,
            },
        ),
        all_free_of(opt_part("E"@, ExploitCodeMaturity::code_of(value)), '/'),
{
    reveal_strlit("E");
    let key = "E"@;
    assert(key =~= seq!['E']);
    match value {
        Some(v) => {
            v.lemma_code();
            lemma_read_part(m, key, v.code());
            assert(upper(key) =~= seq!['E']);
        },
        None => {},
    }
}

proof fn lemma_read_remediation_level(m: V3Metrics, value: Option<RemediationLevel>)
    ensures
        read_components(m, opt_part("RL"@, RemediationLevel::code_of(value)))
            == Ok::<V3Metrics, ParseErrorView>(
            match value {
                Some(v) => V3Metrics { remediation_level: Some(v), ..m },
                None => m,
            },
        ),
        all_free_of(opt_part("RL"@, RemediationLevel::code_of(value)), '/'),
{
    reveal_strlit("RL");
    let key = "RL"@;
    assert(key =~= seq!['R', 'L']);
    match value {
        Some(v) => {
            v.lemma_code();
            lemma_read_part(m, key, v.code());
            assert(upper(key) =~= seq!['R', 'L']);
        },
        None => {},
    }
}

proof fn lemma_read_report_confidence(m: V3Metrics, value: Option<ReportConfidence>)
    ensures
        read_components(m, opt_part("RC"@, ReportConfidence::code_of(value)))
            == Ok::<V3Metrics, ParseErrorView>(
            match value {
                Some(v) => V3Metrics { report_confidence: Some(v), ..m },
                None => m,
            },
        ),
        all_free_of(opt_part("RC"@, ReportConfidence::code_of(value)), '/'),
{
    reveal_strlit("RC");
    let key = "RC"@;
    assert(key =~= seq!['R', 'C']);
    match value {
        Some(v) => {
            v.lemma_code();
            lemma_read_part(m, key, v.code());
            assert(upper(key) =~= seq!['R', 'C']);
        },
        None => {},
    }
}

proof fn lemma_read_confidentiality_requirement(m: V3Metrics, value: Option<SecurityRequirement>)
    ensures
        read_components(m, opt_part("CR"@, SecurityRequirement::code_of(value)))
            == Ok::<V3Metrics, ParseErrorView>(
            match value {
                Some(v) => V3Metrics { confidentiality_requirement: Some(v), ..m },
                None => m,
            },
        ),
        all_free_of(opt_part("CR"@, SecurityRequirement::code_of(value)), '/'),
{
    reveal_strlit("CR");
    let key = "CR"@;
    assert(key =~= seq!['C', 'R']);
    match value {
        Some(v) => {
            v.lemma_code();
            lemma_read_part(m, key, v.code());
            assert(upper(key) =~= seq!['C', 'R']);
        },
        None => {},
    }
}

proof fn lemma_read_integrity_requirement(m: V3Metrics, value: Option<SecurityRequirement>)
    ensures
        read_components(m, opt_part("IR"@, SecurityRequirement::code_of(value)))
            == Ok::<V3Metrics, ParseErrorView>(
            match value {
                Some(v) => V3Metrics { integrity_requirement: Some(v), ..m },
                None => m,
            },
        ),
        all_free_of(opt_part("IR"@, SecurityRequirement::code_of(value)), '/'),
{
    reveal_strlit("IR");
    let key = "IR"@;
    assert(key =~= seq!['I', 'R']);
    match value {
        Some(v) => {
            v.lemma_code();
            lemma_read_part(m, key, v.code());
            assert(upper(key) =~= seq!['I', 'R']);
        },
        None => {},
    }
}

proof fn lemma_read_availability_requirement(m: V3Metrics, value: Option<SecurityRequirement>)
    ensures
        read_components(m, opt_part("AR"@, SecurityRequirement::code_of(value)))
            == Ok::<V3Metrics, ParseErrorView>(
            match value {
                Some(v) => V3Metrics { availability_requirement: Some(v), ..m },
                None => m,
            },
        ),
        all_free_of(opt_part("AR"@, SecurityRequirement::code_of(value)), '/'),
{
    reveal_strlit("AR");
    let key = "AR"@;
    assert(key =~= seq!['A', 'R']);
    match value {
        Some(v) => {
            v.lemma_code();
            lemma_read_part(m, key, v.code());
            assert(upper(key) =~= seq!['A', 'R']);
        },
        None => {},
    }
}

proof fn lemma_read_modified_attack_vector(m: V3Metrics, value: Option<AttackVector>)
    ensures
        read_components(m, opt_part("MAV"@, AttackVector::code_of(value)))
            == Ok::<V3Metrics, ParseErrorView>(
            match value {
                Some(v) => V3Metrics { modified_attack_vector: Some(v), ..m },
                None => m,
            },
        ),
        all_free_of(opt_part("MAV"@, AttackVector::code_of(value)), '/'),
{
    reveal_strlit("MAV");
    let key = "MAV"@;
    assert(key =~= seq!['M', 'A', 'V']);
    match value {
        Some(v) => {
            v.lemma_code();
            lemma_read_part(m, key, v.code());
            assert(upper(key) =~= seq!['M', 'A', 'V']);
        },
        None => {},
    }
}

proof fn lemma_read_modified_attack_complexity(m: V3Metrics, value: Option<AttackComplexity>)
    ensures
        read_components(m, opt_part("MAC"@, AttackComplexity::code_of(value)))
            == Ok::<V3Metrics, ParseErrorView>(
            match value {
                Some(v) => V3Metrics { modified_attack_complexity: Some(v), ..m },
                None => m,
            },
        ),
        all_free_of(opt_part("MAC"@, AttackComplexity::code_of(value)), '/'),
{
    reveal_strlit("MAC");
    let key = "MAC"@;
    assert(key =~= seq!['M', 'A', 'C']);
    match value {
        Some(v) => {
            v.lemma_code();
            lemma_read_part(m, key, v.code());
            assert(upper(key) =~= seq!['M', 'A', 'C']);
        },
        None => {},
    }
}

proof fn lemma_read_modified_privileges_required(m: V3Metrics, value: Option<PrivilegesRequired>)
    ensures
        read_components(m, opt_part("MPR"@, PrivilegesRequired::code_of(value)))
            == Ok::<V3Metrics, ParseErrorView>(
            match value {
                Some(v) => V3Metrics { modified_privileges_required: Some(v), ..m },
                None => m,
            },
        ),
        all_free_of(opt_part("MPR"@, PrivilegesRequired::code_of(value)), '/'),
{
    reveal_strlit("MPR");
    let key = "MPR"@;
    assert(key =~= seq!['M', 'P', 'R']);
    match value {
        Some(v) => {
            v.lemma_code();
            lemma_read_part(m, key, v.code());
            assert(upper(key) =~= seq!['M', 'P', 'R']);
        },
        None => {},
    }
}

proof fn lemma_read_modified_user_interaction(m: V3Metrics, value: Option<UserInteraction>)
    ensures
        read_components(m, opt_part("MUI"@, UserInteraction::code_of(value)))
            == Ok::<V3Metrics, ParseErrorView>(
            match value {
                Some(v) => V3Metrics { modified_user_interaction: Some(v), ..m },
                None => m,
            },
        ),
        all_free_of(opt_part("MUI"@, UserInteraction::code_of(value)), '/'),
{
    reveal_strlit("MUI");
    let key = "MUI"@;
    assert(key =~= seq!['M', 'U', 'I']);
    match value {
        Some(v) => {
            v.lemma_code();
            lemma_read_part(m, key, v.code());
            assert(upper(key) =~= seq!['M', 'U', 'I']);
        },
        None => {},
    }
}

proof fn lemma_read_modified_scope(m: V3Metrics, value: Option<Scope>)
    ensures
        read_components(m, opt_part("MS"@, Scope::code_of(value)))
            == Ok::<V3Metrics, ParseErrorView>(
            match value {
                Some(v) => V3Metrics { modified_scope: Some(v), ..m },
                None => m,
            },
        ),
        all_free_of(opt_part("MS"@, Scope::code_of(value)), '/'),
{
    reveal_strlit("MS");
    let key = "MS"@;
    assert(key =~= seq!['M', 'S']);
    match value {
        Some(v) => {
            v.lemma_code();
            lemma_read_part(m, key, v.code());
            assert(upper(key) =~= seq!['M', 'S']);
        },
        None => {},
    }
}

proof fn lemma_read_modified_confidentiality_impact(m: V3Metrics, value: Option<Impact>)
    ensures
        read_components(m, opt_part("MC"@, Impact::code_of(value)))
            == Ok::<V3Metrics, ParseErrorView>(
            match value {
                Some(v) => V3Metrics { modified_confidentiality_impact: Some(v), ..m },
                None => m,
            },
        ),
        all_free_of(opt_part("MC"@, Impact::code_of(value)), '/'),
{
    reveal_strlit("MC");
    let key = "MC"@;
    assert(key =~= seq!['M', 'C']);
    match value {
        Some(v) => {
            v.lemma_code();
            lemma_read_part(m, key, v.code());
            assert(upper(key) =~= seq!['M', 'C']);
        },
        None => {},
    }
}

proof fn lemma_read_modified_integrity_impact(m: V3Metrics, value: Option<Impact>)
    ensures
        read_components(m, opt_part("MI"@, Impact::code_of(value)))
            == Ok::<V3Metrics, ParseErrorView>(
            match value {
                Some(v) => V3Metrics { modified_integrity_impact: Some(v), ..m },
                None => m,
            },
        ),
        all_free_of(opt_part("MI"@, Impact::code_of(value)), '/'),
{
    reveal_strlit("MI");
    let key = "MI"@;
    assert(key =~= seq!['M', 'I']);
    match value {
        Some(v) => {
            v.lemma_code();
            lemma_read_part(m, key, v.code());
            assert(upper(key) =~= seq!['M', 'I']);
        },
        None => {},
    }
}

proof fn lemma_read_modified_availability_impact(m: V3Metrics, value: Option<Impact>)
    ensures
        read_components(m, opt_part("MA"@, Impact::code_of(value)))
            == Ok::<V3Metrics, ParseErrorView>(
            match value {
                Some(v) => V3Metrics { modified_availability_impact: Some(v), ..m },
                None => m,
            },
        ),
        all_free_of(opt_part("MA"@, Impact::code_of(value)), '/'),
{
    reveal_strlit("MA");
    let key = "MA"@;
    assert(key =~= seq!['M', 'A']);
    match value {
        Some(v) => {
            v.lemma_code();
            lemma_read_part(m, key, v.code());
            assert(upper(key) =~= seq!['M', 'A']);
        },
        None => {},
    }
}

/// Reading the rendered base metrics of `m` into a record that has none of them sets them
/// as they are in `m`.
proof fn lemma_read_base(start: V3Metrics, m: V3Metrics)
    requires
        start.attack_vector is None,
        start.attack_complexity is None,
        start.privileges_required is None,
        start.user_interaction is None,
        start.scope is None,
        start.confidentiality_impact is None,
        start.integrity_impact is None,
        start.availability_impact is None,
    ensures
        read_components(start, m.base_parts()) == Ok::<V3Metrics, ParseErrorView>(
            V3Metrics {
                attack_vector: m.attack_vector,
                attack_complexity: m.attack_complexity,
                privileges_required: m.privileges_required,
                user_interaction: m.user_interaction,
                scope: m.scope,
                confidentiality_impact: m.confidentiality_impact,
                integrity_impact: m.integrity_impact,
                availability_impact: m.availability_impact,
                ..start
            },
        ),
        all_free_of(m.base_parts(), '/'),
{
    let seg1 = opt_part("AV"@, AttackVector::code_of(m.attack_vector));
    let rec1 = V3Metrics { attack_vector: m.attack_vector, ..start };
    lemma_read_attack_vector(start, m.attack_vector);
    let all1 = seg1;
    assert(read_components(start, all1) == Ok::<V3Metrics, ParseErrorView>(rec1));
    let seg2 = opt_part("AC"@, AttackComplexity::code_of(m.attack_complexity));
    let rec2 = V3Metrics { attack_complexity: m.attack_complexity, ..rec1 };
    lemma_read_attack_complexity(rec1, m.attack_complexity);
    let all2 = all1 + seg2;
    lemma_read_concat(start, all1, seg2);
    lemma_all_free_concat(all1, seg2, '/');
    assert(read_components(start, all2) == Ok::<V3Metrics, ParseErrorView>(rec2));
    let seg3 = opt_part("PR"@, PrivilegesRequired::code_of(m.privileges_required));
    let rec3 = V3Metrics { privileges_required: m.privileges_required, ..rec2 };
    lemma_read_privileges_required(rec2, m.privileges_required);
    let all3 = all2 + seg3;
    lemma_read_concat(start, all2, seg3);
    lemma_all_free_concat(all2, seg3, '/');
    assert(read_components(start, all3) == Ok::<V3Metrics, ParseErrorView>(rec3));
    let seg4 = opt_part("UI"@, UserInteraction::code_of(m.user_interaction));
    let rec4 = V3Metrics { user_interaction: m.user_interaction, ..rec3 };
    lemma_read_user_interaction(rec3, m.user_interaction);
    let all4 = all3 + seg4;
    lemma_read_concat(start, all3, seg4);
    lemma_all_free_concat(all3, seg4, '/');
    assert(read_components(start, all4) == Ok::<V3Metrics, ParseErrorView>(rec4));
    let seg5 = opt_part("S"@, Scope::code_of(m.scope));
    let rec5 = V3Metrics { scope: m.scope, ..rec4 };
    lemma_read_scope(rec4, m.scope);
    let all5 = all4 + seg5;
    lemma_read_concat(start, all4, seg5);
    lemma_all_free_concat(all4, seg5, '/');
    assert(read_components(start, all5) == Ok::<V3Metrics, ParseErrorView>(rec5));
    let seg6 = opt_part("C"@, Impact::code_of(m.confidentiality_impact));
    let rec6 = V3Metrics { confidentiality_impact: m.confidentiality_impact, ..rec5 };
    lemma_read_confidentiality_impact(rec5, m.confidentiality_impact);
    let all6 = all5 + seg6;
    lemma_read_concat(start, all5, seg6);
    lemma_all_free_concat(all5, seg6, '/');
    assert(read_components(start, all6) == Ok::<V3Metrics, ParseErrorView>(rec6));
    let seg7 = opt_part("I"@, Impact::code_of(m.integrity_impact));
    let rec7 = V3Metrics { integrity_impact: m.integrity_impact, ..rec6 };
    lemma_read_integrity_impact(rec6, m.integrity_impact);
    let all7 = all6 + seg7;
    lemma_read_concat(start, all6, seg7);
    lemma_all_free_concat(all6, seg7, '/');
    assert(read_components(start, all7) == Ok::<V3Metrics, ParseErrorView>(rec7));
    let seg8 = opt_part("A"@, Impact::code_of(m.availability_impact));
    let rec8 = V3Metrics { availability_impact: m.availability_impact, ..rec7 };
    lemma_read_availability_impact(rec7, m.availability_impact);
    let all8 = all7 + seg8;
    lemma_read_concat(start, all7, seg8);
    lemma_all_free_concat(all7, seg8, '/');
    assert(read_components(start, all8) == Ok::<V3Metrics, ParseErrorView>(rec8));
}

/// Reading the rendered temporal metrics of `m` into a record that has none of them sets them
/// as they are in `m`.
proof fn lemma_read_temporal(start: V3Metrics, m: V3Metrics)
    requires
        start.exploit_code_maturity is None,
        start.remediation_level is None,
        start.report_confidence is None,
    ensures
        read_components(start, m.temporal_parts()) == Ok::<V3Metrics, ParseErrorView>(
            V3Metrics {
                exploit_code_maturity: m.exploit_code_maturity,
                remediation_level: m.remediation_level,
                report_confidence: m.report_confidence,
                ..start
            },
        ),
        all_free_of(m.temporal_parts(), '/'),
{
    let seg1 = opt_part("E"@, ExploitCodeMaturity::code_of(m.exploit_code_maturity));
    let rec1 = V3Metrics { exploit_code_maturity: m.exploit_code_maturity, ..start };
    lemma_read_exploit_code_maturity(start, m.exploit_code_maturity);
    let all1 = seg1;
    assert(read_components(start, all1) == Ok::<V3Metrics, ParseErrorView>(rec1));
    let seg2 = opt_part("RL"@, RemediationLevel::code_of(m.remediation_level));
    let rec2 = V3Metrics { remediation_level: m.remediation_level, ..rec1 };
    lemma_read_remediation_level(rec1, m.remediation_level);
    let all2 = all1 + seg2;
    lemma_read_concat(start, all1, seg2);
    lemma_all_free_concat(all1, seg2, '/');
    assert(read_components(start, all2) == Ok::<V3Metrics, ParseErrorView>(rec2));
    let seg3 = opt_part("RC"@, ReportConfidence::code_of(m.report_confidence));
    let rec3 = V3Metrics { report_confidence: m.report_confidence, ..rec2 };
    lemma_read_report_confidence(rec2, m.report_confidence);
    let all3 = all2 + seg3;
    lemma_read_concat(start, all2, seg3);
    lemma_all_free_concat(all2, seg3, '/');
    assert(read_components(start, all3) == Ok::<V3Metrics, ParseErrorView>(rec3));
}

/// Reading the rendered environmental metrics of `m` into a record that has none of them sets them
/// as they are in `m`.
proof fn lemma_read_environmental(start: V3Metrics, m: V3Metrics)
    requires
        start.confidentiality_requirement is None,
        start.integrity_requirement is None,
        start.availability_requirement is None,
        start.modified_attack_vector is None,
        start.modified_attack_complexity is None,
        start.modified_privileges_required is None,
        start.modified_user_interaction is None,
        start.modified_scope is None,
        start.modified_confidentiality_impact is None,
        start.modified_integrity_impact is None,
        start.modified_availability_impact is None,
    ensures
        read_components(start, m.environmental_parts()) == Ok::<V3Metrics, ParseErrorView>(
            V3Metrics {
                confidentiality_requirement: m.confidentiality_requirement,
                integrity_requirement: m.integrity_requirement,
                availability_requirement: m.availability_requirement,
                modified_attack_vector: m.modified_attack_vector,
                modified_attack_complexity: m.modified_attack_complexity,
                modified_privileges_required: m.modified_privileges_required,
                modified_user_interaction: m.modified_user_interaction,
                modified_scope: m.modified_scope,
                modified_confidentiality_impact: m.modified_confidentiality_impact,
                modified_integrity_impact: m.modified_integrity_impact,
                modified_availability_impact: m.modified_availability_impact,
                ..start
            },
        ),
        all_free_of(m.environmental_parts(), '/'),
{
    let seg1 = opt_part("CR"@, SecurityRequirement::code_of(m.confidentiality_requirement));
    let rec1 = V3Metrics { confidentiality_requirement: m.confidentiality_requirement, ..start };
    lemma_read_confidentiality_requirement(start, m.confidentiality_requirement);
    let all1 = seg1;
    assert(read_components(start, all1) == Ok::<V3Metrics, ParseErrorView>(rec1));
    let seg2 = opt_part("IR"@, SecurityRequirement::code_of(m.integrity_requirement));
    let rec2 = V3Metrics { integrity_requirement: m.integrity_requirement, ..rec1 };
    lemma_read_integrity_requirement(rec1, m.integrity_requirement);
    let all2 = all1 + seg2;
    lemma_read_concat(start, all1, seg2);
    lemma_all_free_concat(all1, seg2, '/');
    assert(read_components(start, all2) == Ok::<V3Metrics, ParseErrorView>(rec2));
    let seg3 = opt_part("AR"@, SecurityRequirement::code_of(m.availability_requirement));
    let rec3 = V3Metrics { availability_requirement: m.availability_requirement, ..rec2 };
    lemma_read_availability_requirement(rec2, m.availability_requirement);
    let all3 = all2 + seg3;
    lemma_read_concat(start, all2, seg3);
    lemma_all_free_concat(all2, seg3, '/');
    assert(read_components(start, all3) == Ok::<V3Metrics, ParseErrorView>(rec3));
    let seg4 = opt_part("MAV"@, AttackVector::code_of(m.modified_attack_vector));
    let rec4 = V3Metrics { modified_attack_vector: m.modified_attack_vector, ..rec3 };
    lemma_read_modified_attack_vector(rec3, m.modified_attack_vector);
    let all4 = all3 + seg4;
    lemma_read_concat(start, all3, seg4);
    lemma_all_free_concat(all3, seg4, '/');
    assert(read_components(start, all4) == Ok::<V3Metrics, ParseErrorView>(rec4));
    let seg5 = opt_part("MAC"@, AttackComplexity::code_of(m.modified_attack_complexity));
    let rec5 = V3Metrics { modified_attack_complexity: m.modified_attack_complexity, ..rec4 };
    lemma_read_modified_attack_complexity(rec4, m.modified_attack_complexity);
    let all5 = all4 + seg5;
    lemma_read_concat(start, all4, seg5);
    lemma_all_free_concat(all4, seg5, '/');
    assert(read_components(start, all5) == Ok::<V3Metrics, ParseErrorView>(rec5));
    let seg6 = opt_part("MPR"@, PrivilegesRequired::code_of(m.modified_privileges_required));
    let rec6 = V3Metrics { modified_privileges_required: m.modified_privileges_required, ..rec5 };
    lemma_read_modified_privileges_required(rec5, m.modified_privileges_required);
    let all6 = all5 + seg6;
    lemma_read_concat(start, all5, seg6);
    lemma_all_free_concat(all5, seg6, '/');
    assert(read_components(start, all6) == Ok::<V3Metrics, ParseErrorView>(rec6));
    let seg7 = opt_part("MUI"@, UserInteraction::code_of(m.modified_user_interaction));
    let rec7 = V3Metrics { modified_user_interaction: m.modified_user_interaction, ..rec6 };
    lemma_read_modified_user_interaction(rec6, m.modified_user_interaction);
    let all7 = all6 + seg7;
    lemma_read_concat(start, all6, seg7);
    lemma_all_free_concat(all6, seg7, '/');
    assert(read_components(start, all7) == Ok::<V3Metrics, ParseErrorView>(rec7));
    let seg8 = opt_part("MS"@, Scope::code_of(m.modified_scope));
    let rec8 = V3Metrics { modified_scope: m.modified_scope, ..rec7 };
    lemma_read_modified_scope(rec7, m.modified_scope);
    let all8 = all7 + seg8;
    lemma_read_concat(start, all7, seg8);
    lemma_all_free_concat(all7, seg8, '/');
    assert(read_components(start, all8) == Ok::<V3Metrics, ParseErrorView>(rec8));
    let seg9 = opt_part("MC"@, Impact::code_of(m.modified_confidentiality_impact));
    let rec9 = V3Metrics {
        modified_confidentiality_impact: m.modified_confidentiality_impact,
        ..rec8
    };
    lemma_read_modified_confidentiality_impact(rec8, m.modified_confidentiality_impact);
    let all9 = all8 + seg9;
    lemma_read_concat(start, all8, seg9);
    lemma_all_free_concat(all8, seg9, '/');
    assert(read_components(start, all9) == Ok::<V3Metrics, ParseErrorView>(rec9));
    let seg10 = opt_part("MI"@, Impact::code_of(m.modified_integrity_impact));
    let rec10 = V3Metrics { modified_integrity_impact: m.modified_integrity_impact, ..rec9 };
    lemma_read_modified_integrity_impact(rec9, m.modified_integrity_impact);
    let all10 = all9 + seg10;
    lemma_read_concat(start, all9, seg10);
    lemma_all_free_concat(all9, seg10, '/');
    assert(read_components(start, all10) == Ok::<V3Metrics, ParseErrorView>(rec10));
    let seg11 = opt_part("MA"@, Impact::code_of(m.modified_availability_impact));
    let rec11 = V3Metrics { modified_availability_impact: m.modified_availability_impact, ..rec10 };
    lemma_read_modified_availability_impact(rec10, m.modified_availability_impact);
    let all11 = all10 + seg11;
    lemma_read_concat(start, all10, seg11);
    lemma_all_free_concat(all10, seg11, '/');
    assert(read_components(start, all11) == Ok::<V3Metrics, ParseErrorView>(rec11));
}

/// Reading the components of a record's rendering into the empty record gives the record,
/// and none of the components holds a `/`.
pub proof fn lemma_read_parts(m: V3Metrics)
    ensures
        read_components(V3Metrics::empty(), m.parts()) == Ok::<V3Metrics, ParseErrorView>(m),
        all_free_of(m.parts(), '/'),
{
    let none = V3Metrics::empty();
    let seg1 = m.base_parts();
    let rec1 = V3Metrics {
        attack_vector: m.attack_vector,
        attack_complexity: m.attack_complexity,
        privileges_required: m.privileges_required,
        user_interaction: m.user_interaction,
        scope: m.scope,
        confidentiality_impact: m.confidentiality_impact,
        integrity_impact: m.integrity_impact,
        availability_impact: m.availability_impact,
        ..none
    };
    lemma_read_base(none, m);
    let all1 = seg1;
    assert(read_components(none, all1) == Ok::<V3Metrics, ParseErrorView>(rec1));
    let seg2 = m.temporal_parts();
    let rec2 = V3Metrics {
        exploit_code_maturity: m.exploit_code_maturity,
        remediation_level: m.remediation_level,
        report_confidence: m.report_confidence,
        ..rec1
    };
    lemma_read_temporal(rec1, m);
    let all2 = all1 + seg2;
    lemma_read_concat(none, all1, seg2);
    lemma_all_free_concat(all1, seg2, '/');
    assert(read_components(none, all2) == Ok::<V3Metrics, ParseErrorView>(rec2));
    let seg3 = m.environmental_parts();
    let rec3 = V3Metrics {
        confidentiality_requirement: m.confidentiality_requirement,
        integrity_requirement: m.integrity_requirement,
        availability_requirement: m.availability_requirement,
        modified_attack_vector: m.modified_attack_vector,
        modified_attack_complexity: m.modified_attack_complexity,
        modified_privileges_required: m.modified_privileges_required,
        modified_user_interaction: m.modified_user_interaction,
        modified_scope: m.modified_scope,
        modified_confidentiality_impact: m.modified_confidentiality_impact,
        modified_integrity_impact: m.modified_integrity_impact,
        modified_availability_impact: m.modified_availability_impact,
        ..rec2
    };
    lemma_read_environmental(rec2, m);
    let all3 = all2 + seg3;
    lemma_read_concat(none, all2, seg3);
    lemma_all_free_concat(all2, seg3, '/');
    assert(read_components(none, all3) == Ok::<V3Metrics, ParseErrorView>(rec3));
    assert(rec3 == m);
}

impl CvssV3 {
    /// The vector string as it was given.
    pub fn vector_string(&self) -> (r: &str)
        ensures
            r@ == self.vector_string@,
    {
        self.vector_string.as_str()
    }

    /// The reported base score.
    pub fn base_score(&self) -> (r: Score)
        ensures
            r == self.base_score,
    {
        self.base_score
    }

    /// The reported base severity.
    pub fn base_severity(&self) -> (r: Option<crate::Severity>)
        ensures
            r == Some(self.base_severity.unified()),
    {
        Some(self.base_severity.unified())
    }

    /// The metric slots of the record.
    pub open spec fn spec_metrics(&self) -> V3Metrics {
        V3Metrics {
            attack_vector: self.attack_vector,
            attack_complexity: self.attack_complexity,
            privileges_required: self.privileges_required,
            user_interaction: self.user_interaction,
            scope: self.scope,
            confidentiality_impact: self.confidentiality_impact,
            integrity_impact: self.integrity_impact,
            availability_impact: self.availability_impact,
            exploit_code_maturity: self.exploit_code_maturity,
            remediation_level: self.remediation_level,
            report_confidence: self.report_confidence,
            confidentiality_requirement: self.confidentiality_requirement,
            integrity_requirement: self.integrity_requirement,
            availability_requirement: self.availability_requirement,
            modified_attack_vector: self.modified_attack_vector,
            modified_attack_complexity: self.modified_attack_complexity,
            modified_privileges_required: self.modified_privileges_required,
            modified_user_interaction: self.modified_user_interaction,
            modified_scope: self.modified_scope,
            modified_confidentiality_impact: self.modified_confidentiality_impact,
            modified_integrity_impact: self.modified_integrity_impact,
            modified_availability_impact: self.modified_availability_impact,
        }
    }

    /// The metric slots of the record.
    #[verifier::when_used_as_spec(spec_metrics)]
    pub fn metrics(&self) -> (r: V3Metrics)
        ensures
            r == self.spec_metrics(),
    {
        V3Metrics {
            attack_vector: self.attack_vector,
            attack_complexity: self.attack_complexity,
            privileges_required: self.privileges_required,
            user_interaction: self.user_interaction,
            scope: self.scope,
            confidentiality_impact: self.confidentiality_impact,
            integrity_impact: self.integrity_impact,
            availability_impact: self.availability_impact,
            exploit_code_maturity: self.exploit_code_maturity,
            remediation_level: self.remediation_level,
            report_confidence: self.report_confidence,
            confidentiality_requirement: self.confidentiality_requirement,
            integrity_requirement: self.integrity_requirement,
            availability_requirement: self.availability_requirement,
            modified_attack_vector: self.modified_attack_vector,
            modified_attack_complexity: self.modified_attack_complexity,
            modified_privileges_required: self.modified_privileges_required,
            modified_user_interaction: self.modified_user_interaction,
            modified_scope: self.modified_scope,
            modified_confidentiality_impact: self.modified_confidentiality_impact,
            modified_integrity_impact: self.modified_integrity_impact,
            modified_availability_impact: self.modified_availability_impact,
        }
    }

    /// Whether the record reports no score: its reported base score is 0.0 and it holds no
    /// other reported value.
    pub open spec fn unscored(&self) -> bool {
        self.base_score == (Score { tenths: 0 })
            && self.base_severity == Severity::NoneValue
            && self.temporal_score == None::<Score>
            && self.temporal_severity == None::<Severity>
            && self.environmental_score == None::<Score>
            && self.environmental_severity == None::<Severity>
    }

    /// The record that holds the given metrics, with the vector string as given and no
    /// reported score.
    pub fn from_metrics(vector_string: String, m: V3Metrics) -> (r: CvssV3)
        ensures
            r.metrics() == m,
            r.vector_string == vector_string,
            r.unscored(),
    {
        CvssV3 {
            vector_string,
            base_score: Score { tenths: 0 },
            base_severity: Severity::NoneValue,
            temporal_score: None::<Score>,
            temporal_severity: None::<Severity>,
            environmental_score: None::<Score>,
            environmental_severity: None::<Severity>,
            attack_vector: m.attack_vector,
            attack_complexity: m.attack_complexity,
            privileges_required: m.privileges_required,
            user_interaction: m.user_interaction,
            scope: m.scope,
            confidentiality_impact: m.confidentiality_impact,
            integrity_impact: m.integrity_impact,
            availability_impact: m.availability_impact,
            exploit_code_maturity: m.exploit_code_maturity,
            remediation_level: m.remediation_level,
            report_confidence: m.report_confidence,
            confidentiality_requirement: m.confidentiality_requirement,
            integrity_requirement: m.integrity_requirement,
            availability_requirement: m.availability_requirement,
            modified_attack_vector: m.modified_attack_vector,
            modified_attack_complexity: m.modified_attack_complexity,
            modified_privileges_required: m.modified_privileges_required,
            modified_user_interaction: m.modified_user_interaction,
            modified_scope: m.modified_scope,
            modified_confidentiality_impact: m.modified_confidentiality_impact,
            modified_integrity_impact: m.modified_integrity_impact,
            modified_availability_impact: m.modified_availability_impact,
        }
    }

    /// Parses a CVSS v3.0 or v3.1 vector string. The record keeps the string as it was given and
    /// reports no score.
    pub fn parse(s: &str) -> (r: Result<CvssV3, ParseError>)
        ensures
            match r {
                Ok(c) => parse_metrics(s@) == Ok::<V3Metrics, ParseErrorView>(c.metrics())
                    && c.vector_string@ == s@ && c.unscored(),
                Err(e) => parse_metrics(s@) == Err::<V3Metrics, ParseErrorView>(e@),
            },
    {
        let chars = to_chars(s);
        let n = chars.len();
        let first_end = find(&chars, 0, '/');
        let first = copy_range(&chars, 0, first_end);
        proof {
            assert(chars@.skip(0) =~= chars@);
            lemma_split_at(chars@, 0, first_end as int, '/');
            if first_end < n {
                assert((seq![first@] + split(chars@.skip(first_end + 1), '/')).drop_first()
                    =~= split(chars@.skip(first_end + 1), '/'));
            } else {
                assert(seq![first@].drop_first() =~= Seq::<Seq<char>>::empty());
            }
        }
        let version = match read_prefix_version(&first) {
            Ok(version) => version,
            Err(e) => {
                return Err(e);
            },
        };
        if !(is3(&version, '3', '.', '0') || is3(&version, '3', '.', '1')) {
            return Err(ParseError::InvalidVersion { version: to_string(&version) });
        }
        let mut m = V3Metrics::empty();
        let mut pos = first_end;
        while pos < n
            invariant
                pos <= n,
                n == chars.len(),
                chars@ == s@,
                pos < n ==> chars@[pos as int] == '/',
                parse_metrics(s@) == (if pos < n {
                    read_components(m, split(chars@.skip(pos + 1), '/'))
                } else {
                    Ok::<V3Metrics, ParseErrorView>(m)
                }),
            decreases n - pos,
        {
            let start = pos + 1;
            let end = find(&chars, start, '/');
            let segment = copy_range(&chars, start, end);
            proof {
                lemma_split_at(chars@, start as int, end as int, '/');
                if end < n {
                    lemma_read_cons(m, segment@, split(chars@.skip(end + 1), '/'));
                } else {
                    lemma_read_cons(m, segment@, Seq::empty());
                    assert(seq![segment@] + Seq::<Seq<char>>::empty() =~= seq![segment@]);
                }
            }
            match m.read(&segment) {
                Ok(next) => {
                    m = next;
                },
                Err(e) => {
                    return Err(e);
                },
            }
            pos = end;
        }
        Ok(CvssV3::from_metrics(s.to_owned(), m))
    }

    /// Whether the record is one of version 3.0: whether its vector string begins with
    /// `CVSS:3.0`. Every other record counts as one of version 3.1.
    pub fn is_v3_0(&self) -> (r: bool)
        ensures
            r == is_v3_0(self.vector_string@),
    {
        let chars = to_chars(self.vector_string.as_str());
        if chars.len() < 8 {
            return false;
        }
        let head = copy_range(&chars, 0, 8);
        let r = head[0] == 'C' && head[1] == 'V' && head[2] == 'S' && head[3] == 'S' && head[4]
            == ':' && head[5] == '3' && head[6] == '.' && head[7] == '0';
        proof {
            let lit = seq!['C', 'V', 'S', 'S', ':', '3', '.', '0'];
            assert(head@ == self.vector_string@.take(8));
            if r {
                assert(head@ =~= lit);
            } else {
                assert(head@ != lit);
            }
        }
        r
    }

    /// The canonical vector string of the record: `CVSS:3.0` or `CVSS:3.1`, then the
    /// metrics that are present, each as `/KEY:VALUE`, in the canonical order.
    pub fn to_string(&self) -> (r: String)
        ensures
            r@ == render_metrics(self.metrics(), is_v3_0(self.vector_string@)),
    {
        let m = self.metrics();
        let v3_0 = self.is_v3_0();
        let mut out: Vec<char> = Vec::new();
        let ghost first = prefix(v3_0);
        if v3_0 {
            push_str(&mut out, "CVSS:3.0");
            proof {
                reveal_strlit("CVSS:3.0");
                assert(out@ =~= first);
            }
        } else {
            push_str(&mut out, "CVSS:3.1");
            proof {
                reveal_strlit("CVSS:3.1");
                assert(out@ =~= first);
            }
        }
        m.push_base(&mut out);
        m.push_temporal(&mut out);
        m.push_environmental(&mut out);
        proof {
            lemma_chain_concat(m.base_parts(), m.temporal_parts(), '/');
            lemma_chain_concat(m.base_parts() + m.temporal_parts(), m.environmental_parts(), '/');
            lemma_join_chain(first, m.parts(), '/');
        }
        assert(out@ =~= first + chain(m.parts(), '/'));
        to_string(&out)
    }
}

impl std::str::FromStr for CvssV3 {
    type Err = ParseError;

    fn from_str(s: &str) -> (r: Result<CvssV3, ParseError>)
        ensures
            match r {
                Ok(c) => parse_metrics(s@) == Ok::<V3Metrics, ParseErrorView>(c.metrics())
                    && c.vector_string@ == s@ && c.unscored(),
                Err(e) => parse_metrics(s@) == Err::<V3Metrics, ParseErrorView>(e@),
            },
    {
        CvssV3::parse(s)
    }
}

} // verus!

//! CVSS v4.0 score and nomenclature types.

use vstd::prelude::*;
use crate::score::Score;
use crate::v4_0::{CvssV4, V4Metrics};

verus! {

/// CVSS v4.0 Nomenclature indicates the type of metrics used to calculate the score.
#[derive(Clone, Copy, Debug, PartialEq, Eq, Structural)]
pub enum Nomenclature {
    /// CVSS-B: Base metrics only
    CvssB,
    /// CVSS-BE: Base and Environmental metrics
    CvssBE,
    /// CVSS-BT: Base and Threat metrics
    CvssBT,
    /// CVSS-BTE: Base, Threat, and Environmental metrics
    CvssBTE,
}

/// Whether the vector holds the threat metric.
pub open spec fn has_threat(m: V4Metrics) -> bool {
    m.exploit_maturity is Some
}

/// Whether the vector holds any environmental metric.
pub open spec fn has_environmental(m: V4Metrics) -> bool {
    m.confidentiality_requirement is Some || m.integrity_requirement is Some
        || m.availability_requirement is Some || m.modified_attack_vector is Some
        || m.modified_attack_complexity is Some || m.modified_attack_requirements is Some
        || m.modified_privileges_required is Some || m.modified_user_interaction is Some
        || m.modified_vuln_confidentiality_impact is Some
        || m.modified_vuln_integrity_impact is Some
        || m.modified_vuln_availability_impact is Some
        || m.modified_sub_confidentiality_impact is Some
        || m.modified_sub_integrity_impact is Some || m.modified_sub_availability_impact is Some
}

/// The nomenclature of a vector, by the metric groups that are present in it.
pub open spec fn nomenclature_of(m: V4Metrics) -> Nomenclature {
    if has_threat(m) {
        if has_environmental(m) {
            Nomenclature::CvssBTE
        } else {
            Nomenclature::CvssBT
        }
    } else {
        if has_environmental(m) {
            Nomenclature::CvssBE
        } else {
            Nomenclature::CvssB
        }
    }
}

impl Nomenclature {
    /// The label of the nomenclature.
    pub open spec fn label(self) -> Seq<char> {
        match self {
            Nomenclature::CvssB => "CVSS-B"@,
            Nomenclature::CvssBE => "CVSS-BE"@,
            Nomenclature::CvssBT => "CVSS-BT"@,
            Nomenclature::CvssBTE => "CVSS-BTE"@,
        }
    }

    /// The label of the nomenclature.
    pub fn as_str(&self) -> (r: &'static str)
        ensures
            r@ == self.label(),
    {
        match self {
            Nomenclature::CvssB => "CVSS-B",
            Nomenclature::CvssBE => "CVSS-BE",
            Nomenclature::CvssBT => "CVSS-BT",
            Nomenclature::CvssBTE => "CVSS-BTE",
        }
    }

    /// The label of the nomenclature, as an owned string.
    pub fn to_string(&self) -> (r: String)
        ensures
            r@ == self.label(),
    {
        self.as_str().to_owned()
    }

    /// Detects the appropriate nomenclature based on which metrics are present in the vector.
    pub fn of(cvss: &CvssV4) -> (r: Nomenclature)
        ensures
            r == nomenclature_of(cvss.metrics()),
    {
        let has_threat = cvss.exploit_maturity.is_some();
        let has_environmental = cvss.confidentiality_requirement.is_some()
            || cvss.integrity_requirement.is_some() || cvss.availability_requirement.is_some()
            || cvss.modified_attack_vector.is_some() || cvss.modified_attack_complexity.is_some()
            || cvss.modified_attack_requirements.is_some()
            || cvss.modified_privileges_required.is_some()
            || cvss.modified_user_interaction.is_some()
            || cvss.modified_vuln_confidentiality_impact.is_some()
            || cvss.modified_vuln_integrity_impact.is_some()
            || cvss.modified_vuln_availability_impact.is_some()
            || cvss.modified_sub_confidentiality_impact.is_some()
            || cvss.modified_sub_integrity_impact.is_some()
            || cvss.modified_sub_availability_impact.is_some();
        if has_threat {
            if has_environmental {
                Nomenclature::CvssBTE
            } else {
                Nomenclature::CvssBT
            }
        } else {
            if has_environmental {
                Nomenclature::CvssBE
            } else {
                Nomenclature::CvssB
            }
        }
    }
}

impl<'a> From<&'a CvssV4> for Nomenclature {
    /// Detects the appropriate nomenclature based on which metrics are present in the vector.
    fn from(cvss: &'a CvssV4) -> (r: Nomenclature) {
        Nomenclature::of(cvss)
    }
}

impl<'a> vstd::std_specs::convert::FromSpecImpl<&'a CvssV4> for Nomenclature {
    open spec fn obeys_from_spec() -> bool {
        true
    }

    open spec fn from_spec(cvss: &'a CvssV4) -> Nomenclature {
        nomenclature_of(cvss.metrics())
    }
}

/// The number of tenths to which the score `num / den` is rounded: the score is clamped to
/// the scale from 0 to 10, raised by 0.00001, and rounded to one decimal place, a half
/// rounding up.
pub open spec fn rounded_v4(num: int, den: int) -> int
    recommends
        den > 0,
{
    if num <= 0 {
        0
    } else if num >= 10 * den {
        100
    } else {
        (100000 * num + 5001 * den) / (10000 * den)
    }
}

/// Every rounded score lies on the scale from 0.0 to 10.0.
pub proof fn lemma_rounded_v4_range(num: int, den: int)
    requires
        den > 0,
    ensures
        0 <= rounded_v4(num, den) <= 100,
{
    if 0 < num < 10 * den {
        let n = 100000 * num + 5001 * den;
        let d = 10000 * den;
        assert(0 <= n / d <= 100) by (nonlinear_arith)
            requires
                d > 0,
                0 <= n,
                n < 101 * d,
        ;
    }
}

/// Rounds the score `num / den` to one decimal place using the rounding of CVSS v4.0.
pub fn round_v4(num: i64, den: u64) -> (r: Score)
    requires
        den > 0,
    ensures
        r.tenths == rounded_v4(num as int, den as int),
        r.tenths <= 100,
{
    proof {
        lemma_rounded_v4_range(num as int, den as int);
    }
    if num <= 0 {
        return Score { tenths: 0 };
    }
    let n: u128 = num as u128;
    let d: u128 = den as u128;
    if n >= 10 * d {
        return Score { tenths: 100 };
    }
    let q: u128 = (100000 * n + 5001 * d) / (10000 * d);
    Score { tenths: q as u8 }
}

} // verus!

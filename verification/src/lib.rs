//! Parsing and scoring of CVSS vector strings for versions 2.0, 3.0, 3.1 and 4.0.
//!
//! A vector string such as `CVSS:3.1/AV:N/AC:L/PR:N/UI:N/S:U/C:H/I:H/A:H` is parsed into a
//! record with one optional slot per metric. Scores are computed from the record in exact
//! arithmetic and are held as a number of tenths.

use vstd::prelude::*;
use vstd::string::*;

pub mod score;
pub mod bignum;
pub mod grammar;
pub mod text;
pub mod v2_0;
pub mod v3;
pub mod v4_0;

use crate::score::Score;
use crate::text::{is2, is4, spells2, spells4, to_chars};

verus! {

/// The qualitative severity rating of a vulnerability.
#[derive(Clone, Copy, Debug, PartialEq, Eq, PartialOrd, Ord, Structural)]
pub enum Severity {
    NoneValue,
    Low,
    Medium,
    High,
    Critical,
}

/// Errors that can occur when parsing CVSS vector strings.
#[derive(Clone, Debug, PartialEq, Eq)]
pub enum ParseError {
    /// Vector string doesn't start with "CVSS" or expected prefix
    InvalidPrefix { found: String },
    /// Unsupported or invalid CVSS version
    InvalidVersion { version: String },
    /// Component is malformed (not in key:value format)
    InvalidComponent { component: String },
    /// Metric abbreviation not recognized
    UnknownMetric { metric: String },
    /// Metric value parsing failed
    InvalidMetricValue { metric: String, value: String },
    /// Required base metric is missing
    MissingRequiredMetric { metric: String },
    /// Same metric appears multiple times
    DuplicateMetric { metric: String },
}

/// A parse error with its texts as character sequences.
pub enum ParseErrorView {
    InvalidPrefix { found: Seq<char> },
    InvalidVersion { version: Seq<char> },
    InvalidComponent { component: Seq<char> },
    UnknownMetric { metric: Seq<char> },
    InvalidMetricValue { metric: Seq<char>, value: Seq<char> },
    MissingRequiredMetric { metric: Seq<char> },
    DuplicateMetric { metric: Seq<char> },
}

impl View for ParseError {
    type V = ParseErrorView;

    open spec fn view(&self) -> ParseErrorView {
        match self {
            ParseError::InvalidPrefix { found } => ParseErrorView::InvalidPrefix { found: found@ },
            ParseError::InvalidVersion { version } => ParseErrorView::InvalidVersion {
                version: version@,
            },
            ParseError::InvalidComponent { component } => ParseErrorView::InvalidComponent {
                component: component@,
            },
            ParseError::UnknownMetric { metric } => ParseErrorView::UnknownMetric {
                metric: metric@,
            },
            ParseError::InvalidMetricValue { metric, value } => ParseErrorView::InvalidMetricValue {
                metric: metric@,
                value: value@,
            },
            ParseError::MissingRequiredMetric { metric } => ParseErrorView::MissingRequiredMetric {
                metric: metric@,
            },
            ParseError::DuplicateMetric { metric } => ParseErrorView::DuplicateMetric {
                metric: metric@,
            },
        }
    }
}

impl ParseErrorView {
    /// The message that describes the error.
    pub open spec fn message(self) -> Seq<char> {
        match self {
            ParseErrorView::InvalidPrefix { found } => {
                "invalid vector prefix: expected 'CVSS', found '"@ + found + "'"@
            },
            ParseErrorView::InvalidVersion { version } => "invalid or unsupported CVSS version: '"@
                + version + "'"@,
            ParseErrorView::InvalidComponent { component } => "invalid component format: '"@
                + component + "' (expected 'KEY:VALUE')"@,
            ParseErrorView::UnknownMetric { metric } => "unknown metric abbreviation: '"@ + metric
                + "'"@,
            ParseErrorView::InvalidMetricValue { metric, value } => "invalid value '"@ + value
                + "' for metric '"@ + metric + "'"@,
            ParseErrorView::MissingRequiredMetric { metric } => "missing required metric: '"@
                + metric + "'"@,
            ParseErrorView::DuplicateMetric { metric } => "duplicate metric: '"@ + metric + "'"@,
        }
    }
}

impl ParseError {
    /// The message that describes the error.
    pub fn to_string(&self) -> (r: String)
        ensures
            r@ == self@.message(),
    {
        match self {
            ParseError::InvalidPrefix { found } => {
                let mut r = "invalid vector prefix: expected 'CVSS', found '".to_owned();
                r.append(found.as_str());
                r.append("'");
                r
            },
            ParseError::InvalidVersion { version } => {
                let mut r = "invalid or unsupported CVSS version: '".to_owned();
                r.append(version.as_str());
                r.append("'");
                r
            },
            ParseError::InvalidComponent { component } => {
                let mut r = "invalid component format: '".to_owned();
                r.append(component.as_str());
                r.append("' (expected 'KEY:VALUE')");
                r
            },
            ParseError::UnknownMetric { metric } => {
                let mut r = "unknown metric abbreviation: '".to_owned();
                r.append(metric.as_str());
                r.append("'");
                r
            },
            ParseError::InvalidMetricValue { metric, value } => {
                let mut r = "invalid value '".to_owned();
                r.append(value.as_str());
                r.append("' for metric '");
                r.append(metric.as_str());
                r.append("'");
                r
            },
            ParseError::MissingRequiredMetric { metric } => {
                let mut r = "missing required metric: '".to_owned();
                r.append(metric.as_str());
                r.append("'");
                r
            },
            ParseError::DuplicateMetric { metric } => {
                let mut r = "duplicate metric: '".to_owned();
                r.append(metric.as_str());
                r.append("'");
                r
            },
        }
    }
}

/// An enum to hold any version of a CVSS object.
#[derive(Clone, Debug, PartialEq, Eq)]
pub enum Cvss {
    V2(v2_0::CvssV2),
    V3_0(v3::CvssV3),
    V3_1(v3::CvssV3),
    V4(v4_0::CvssV4),
}

/// The versions of the CVSS standard.
#[derive(Clone, Copy, Debug, PartialEq, Eq, Structural)]
pub enum Version {
    V2,
    V3_0,
    V3_1,
    V4,
}

impl Version {
    /// The name of the version.
    pub open spec fn name(self) -> Seq<char> {
        match self {
            Version::V2 => seq!['V', '2'],
            Version::V3_0 => seq!['V', '3', '_', '0'],
            Version::V3_1 => seq!['V', '3', '_', '1'],
            Version::V4 => seq!['V', '4'],
        }
    }

    /// The version that a name stands for.
    pub open spec fn from_name(name: Seq<char>) -> Option<Version> {
        if spells2(name, 'V', '2') {
            Some(Version::V2)
        } else if spells4(name, 'V', '3', '_', '0') {
            Some(Version::V3_0)
        } else if spells4(name, 'V', '3', '_', '1') {
            Some(Version::V3_1)
        } else if spells2(name, 'V', '4') {
            Some(Version::V4)
        } else {
            None
        }
    }

    /// The name of the version.
    pub fn as_str(&self) -> (r: &'static str)
        ensures
            r@ == self.name(),
    {
        match self {
            Version::V2 => {
                proof {
                    reveal_strlit("V2");
                    assert("V2"@ =~= seq!['V', '2']);
                }
                "V2"
            },
            Version::V3_0 => {
                proof {
                    reveal_strlit("V3_0");
                    assert("V3_0"@ =~= seq!['V', '3', '_', '0']);
                }
                "V3_0"
            },
            Version::V3_1 => {
                proof {
                    reveal_strlit("V3_1");
                    assert("V3_1"@ =~= seq!['V', '3', '_', '1']);
                }
                "V3_1"
            },
            Version::V4 => {
                proof {
                    reveal_strlit("V4");
                    assert("V4"@ =~= seq!['V', '4']);
                }
                "V4"
            },
        }
    }

    /// The name of the version, as an owned string.
    pub fn to_string(&self) -> (r: String)
        ensures
            r@ == self.name(),
    {
        self.as_str().to_owned()
    }

    /// Reads a version from its name.
    pub fn parse(name: &str) -> (r: Option<Version>)
        ensures
            r == Version::from_name(name@),
    {
        let chars = to_chars(name);
        if is2(&chars, 'V', '2') {
            Some(Version::V2)
        } else if is4(&chars, 'V', '3', '_', '0') {
            Some(Version::V3_0)
        } else if is4(&chars, 'V', '3', '_', '1') {
            Some(Version::V3_1)
        } else if is2(&chars, 'V', '4') {
            Some(Version::V4)
        } else {
            None
        }
    }

    /// Every version is read back from its own name.
    pub proof fn lemma_name(self)
        ensures
            Version::from_name(self.name()) == Some(self),
    {
    }
}

impl Cvss {
    /// The version of the CVSS standard.
    pub open spec fn spec_version(&self) -> Version {
        match self {
            Cvss::V2(_) => Version::V2,
            Cvss::V3_0(_) => Version::V3_0,
            Cvss::V3_1(_) => Version::V3_1,
            Cvss::V4(_) => Version::V4,
        }
    }

    /// The vector string of the record, as it was given.
    pub open spec fn spec_vector_string(&self) -> Seq<char> {
        match self {
            Cvss::V2(c) => c.vector_string@,
            Cvss::V3_0(c) => c.vector_string@,
            Cvss::V3_1(c) => c.vector_string@,
            Cvss::V4(c) => c.vector_string@,
        }
    }

    /// The reported base score.
    pub open spec fn spec_base_score(&self) -> Score {
        match self {
            Cvss::V2(c) => c.base_score,
            Cvss::V3_0(c) => c.base_score,
            Cvss::V3_1(c) => c.base_score,
            Cvss::V4(c) => c.base_score,
        }
    }

    /// The reported base severity. A record of version 2.0 may have none.
    pub open spec fn spec_base_severity(&self) -> Option<Severity> {
        match self {
            Cvss::V2(c) => match c.severity {
                Some(s) => Some(s.unified()),
                None => None,
            },
            Cvss::V3_0(c) => Some(c.base_severity.unified()),
            Cvss::V3_1(c) => Some(c.base_severity.unified()),
            Cvss::V4(c) => Some(c.base_severity.unified()),
        }
    }

    /// Returns the version of the CVSS standard.
    #[verifier::when_used_as_spec(spec_version)]
    pub fn version(&self) -> (r: Version)
        ensures
            r == self.spec_version(),
    {
        match self {
            Cvss::V2(_) => Version::V2,
            Cvss::V3_0(_) => Version::V3_0,
            Cvss::V3_1(_) => Version::V3_1,
            Cvss::V4(_) => Version::V4,
        }
    }

    /// Returns the CVSS vector string.
    pub fn vector_string(&self) -> (r: &str)
        ensures
            r@ == self.spec_vector_string(),
    {
        match self {
            Cvss::V2(c) => c.vector_string(),
            Cvss::V3_0(c) => c.vector_string(),
            Cvss::V3_1(c) => c.vector_string(),
            Cvss::V4(c) => c.vector_string(),
        }
    }

    /// Returns the base score.
    #[verifier::when_used_as_spec(spec_base_score)]
    pub fn base_score(&self) -> (r: Score)
        ensures
            r == self.spec_base_score(),
    {
        match self {
            Cvss::V2(c) => c.base_score(),
            Cvss::V3_0(c) => c.base_score(),
            Cvss::V3_1(c) => c.base_score(),
            Cvss::V4(c) => c.base_score(),
        }
    }

    /// Returns the base severity.
    #[verifier::when_used_as_spec(spec_base_severity)]
    pub fn base_severity(&self) -> (r: Option<Severity>)
        ensures
            r == self.spec_base_severity(),
    {
        match self {
            Cvss::V2(c) => c.base_severity(),
            Cvss::V3_0(c) => c.base_severity(),
            Cvss::V3_1(c) => c.base_severity(),
            Cvss::V4(c) => c.base_severity(),
        }
    }

    /// The vector string of the record, as an owned string.
    pub fn to_string(&self) -> (r: String)
        ensures
            r@ == self.spec_vector_string(),
    {
        self.vector_string().to_owned()
    }
}

} // verus!

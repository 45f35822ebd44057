use cvss_rs::v2_0::{self, CvssV2};
use cvss_rs::v3::{self, CvssV3};
use cvss_rs::v4_0::{self, CvssV4};
use cvss_rs::ParseError;
use std::str::FromStr;

#[test]
fn test_v3_parse_sets_each_metric() {
    let c = CvssV3::parse("CVSS:3.1/AV:L/AC:H/PR:L/UI:R/S:C/C:H/I:L/A:N/E:F/RL:W/RC:R/CR:H/MAV:P").unwrap();
    assert_eq!(c.attack_vector, Some(v3::AttackVector::Local));
    assert_eq!(c.attack_complexity, Some(v3::AttackComplexity::High));
    assert_eq!(c.privileges_required, Some(v3::PrivilegesRequired::Low));
    assert_eq!(c.user_interaction, Some(v3::UserInteraction::Required));
    assert_eq!(c.scope, Some(v3::Scope::Changed));
    assert_eq!(c.confidentiality_impact, Some(v3::Impact::High));
    assert_eq!(c.integrity_impact, Some(v3::Impact::Low));
    assert_eq!(c.availability_impact, Some(v3::Impact::NoneValue));
    assert_eq!(c.exploit_code_maturity, Some(v3::ExploitCodeMaturity::Functional));
    assert_eq!(c.remediation_level, Some(v3::RemediationLevel::Workaround));
    assert_eq!(c.report_confidence, Some(v3::ReportConfidence::Reasonable));
    assert_eq!(c.confidentiality_requirement, Some(v3::SecurityRequirement::High));
    assert_eq!(c.modified_attack_vector, Some(v3::AttackVector::Physical));
    assert_eq!(c.integrity_requirement, None);
    assert_eq!(c.modified_scope, None);
}

#[test]
fn test_parse_keeps_the_string_and_reports_no_score() {
    let s = "cvss:3.0//av:n/AC:L/";
    let c = CvssV3::parse(s).unwrap();
    assert_eq!(c.vector_string(), s);
    assert_eq!(c.base_score().tenths(), 0);
    assert_eq!(c.base_severity, v3::Severity::NoneValue);
    assert_eq!(c.temporal_score, None);
    assert_eq!(c.environmental_score, None);
    assert_eq!(c.attack_vector, Some(v3::AttackVector::Network));
    assert_eq!(c.attack_complexity, Some(v3::AttackComplexity::Low));

    let c = CvssV4::parse("CVSS:4.0/AV:N").unwrap();
    assert_eq!(c.vector_string(), "CVSS:4.0/AV:N");
    assert_eq!(c.base_score().tenths(), 0);
    assert_eq!(c.base_severity, v4_0::Severity::NoneValue);

    let c = CvssV2::parse("AV:N").unwrap();
    assert_eq!(c.vector_string(), "AV:N");
    assert_eq!(c.base_score().tenths(), 0);
    assert_eq!(c.severity, None);
    assert_eq!(c.base_severity(), None);
}

#[test]
fn test_from_str_is_parse() {
    assert_eq!(
        CvssV4::from_str("CVSS:4.0/AV:N/AC:L").unwrap(),
        CvssV4::parse("CVSS:4.0/AV:N/AC:L").unwrap()
    );
    assert_eq!(CvssV3::from_str("nonsense"), CvssV3::parse("nonsense"));
    assert_eq!(CvssV2::from_str("AV:N/AC:Q"), CvssV2::parse("AV:N/AC:Q"));
}

#[test]
fn test_invalid_prefix() {
    assert_eq!(
        CvssV3::parse("AV:N/AC:L"),
        Err(ParseError::InvalidPrefix { found: "AV".to_string() })
    );
    assert_eq!(CvssV3::parse(""), Err(ParseError::InvalidPrefix { found: String::new() }));
    assert_eq!(
        CvssV4::parse("CVS:4.0/AV:N"),
        Err(ParseError::InvalidPrefix { found: "CVS".to_string() })
    );
    // A first segment without a colon is a malformed prefix.
    assert_eq!(
        CvssV4::parse("CVSS/AV:N"),
        Err(ParseError::InvalidPrefix { found: "CVSS".to_string() })
    );
    assert_eq!(
        CvssV3::parse("cvss"),
        Err(ParseError::InvalidPrefix { found: "cvss".to_string() })
    );
}

#[test]
fn test_invalid_version() {
    assert_eq!(
        CvssV3::parse("CVSS:2.0/AV:N"),
        Err(ParseError::InvalidVersion { version: "2.0".to_string() })
    );
    assert_eq!(
        CvssV3::parse("CVSS:4.0/AV:N"),
        Err(ParseError::InvalidVersion { version: "4.0".to_string() })
    );
    assert_eq!(
        CvssV4::parse("CVSS:3.1/AV:N"),
        Err(ParseError::InvalidVersion { version: "3.1".to_string() })
    );
    assert_eq!(
        CvssV4::parse("CVSS:/AV:N"),
        Err(ParseError::InvalidVersion { version: String::new() })
    );
    assert!(CvssV3::parse("CVSS:3.0").is_ok());
    assert!(CvssV3::parse("CVSS:3.1").is_ok());
    assert!(CvssV4::parse("CvSs:4.0").is_ok());
}

#[test]
fn test_invalid_component() {
    assert_eq!(
        CvssV3::parse("CVSS:3.1/AVN"),
        Err(ParseError::InvalidComponent { component: "AVN".to_string() })
    );
    assert_eq!(
        CvssV3::parse("CVSS:3.1/AV:N:L"),
        Err(ParseError::InvalidComponent { component: "AV:N:L".to_string() })
    );
    assert_eq!(
        CvssV4::parse("CVSS:4.0/AV:N/ac"),
        Err(ParseError::InvalidComponent { component: "ac".to_string() })
    );
    assert_eq!(
        CvssV2::parse("AV:N/AC"),
        Err(ParseError::InvalidComponent { component: "AC".to_string() })
    );
    assert_eq!(
        CvssV2::parse("A:V:N"),
        Err(ParseError::InvalidComponent { component: "A:V:N".to_string() })
    );
}

#[test]
fn test_unknown_metric() {
    assert_eq!(
        CvssV3::parse("CVSS:3.1/AV:N/XX:N"),
        Err(ParseError::UnknownMetric { metric: "XX".to_string() })
    );
    // The key is reported in upper case.
    assert_eq!(
        CvssV4::parse("CVSS:4.0/foo:n"),
        Err(ParseError::UnknownMetric { metric: "FOO".to_string() })
    );
    assert_eq!(
        CvssV4::parse("CVSS:4.0/:"),
        Err(ParseError::UnknownMetric { metric: String::new() })
    );
    // Keys of another version are unknown.
    assert_eq!(
        CvssV3::parse("CVSS:3.1/AT:N"),
        Err(ParseError::UnknownMetric { metric: "AT".to_string() })
    );
}

#[test]
fn test_invalid_metric_value() {
    assert_eq!(
        CvssV3::parse("CVSS:3.1/AV:Z"),
        Err(ParseError::InvalidMetricValue { metric: "AV".to_string(), value: "Z".to_string() })
    );
    assert_eq!(
        CvssV4::parse("CVSS:4.0/av:net"),
        Err(ParseError::InvalidMetricValue { metric: "AV".to_string(), value: "NET".to_string() })
    );
    assert_eq!(
        CvssV4::parse("CVSS:4.0/AV:"),
        Err(ParseError::InvalidMetricValue { metric: "AV".to_string(), value: String::new() })
    );
    assert_eq!(
        CvssV2::parse("AV:N/Au:X"),
        Err(ParseError::InvalidMetricValue { metric: "AU".to_string(), value: "X".to_string() })
    );
    // Values of another metric of the same version do not count.
    assert_eq!(
        CvssV4::parse("CVSS:4.0/VC:S"),
        Err(ParseError::InvalidMetricValue { metric: "VC".to_string(), value: "S".to_string() })
    );
    assert!(CvssV4::parse("CVSS:4.0/MSI:S").is_ok());
}

#[test]
fn test_first_error_wins() {
    assert_eq!(
        CvssV3::parse("CVSS:3.1/AV:Z/XX:1/bad"),
        Err(ParseError::InvalidMetricValue { metric: "AV".to_string(), value: "Z".to_string() })
    );
    assert_eq!(
        CvssV3::parse("CVSS:3.1/bad/AV:Z"),
        Err(ParseError::InvalidComponent { component: "bad".to_string() })
    );
    assert_eq!(
        CvssV3::parse("CVSS:9.9/bad/AV:Z"),
        Err(ParseError::InvalidVersion { version: "9.9".to_string() })
    );
}

#[test]
fn test_keys_and_values_in_any_case() {
    let upper = CvssV4::parse("CVSS:4.0/AV:N/AC:L/AT:P/PR:H/UI:A/VC:H/SI:S/E:U/CR:M/U:RED").unwrap();
    let lower = CvssV4::parse("cvss:4.0/av:n/ac:l/at:p/pr:h/ui:a/vc:h/si:s/e:u/cr:m/u:red").unwrap();
    let mixed = CvssV4::parse("Cvss:4.0/Av:n/aC:L/At:p/pR:H/Ui:a/vC:h/Si:S/e:U/Cr:m/U:Red").unwrap();
    assert_eq!(upper.metrics(), lower.metrics());
    assert_eq!(upper.metrics(), mixed.metrics());
    assert_eq!(upper.provider_urgency, Some(v4_0::ProviderUrgency::Red));
    assert_eq!(upper.sub_integrity_impact, Some(v4_0::SubsequentImpact::Safety));
}

#[test]
fn test_empty_segments_are_passed_over() {
    let plain = CvssV3::parse("CVSS:3.1/AV:N/AC:L").unwrap();
    let padded = CvssV3::parse("CVSS:3.1///AV:N//AC:L//").unwrap();
    assert_eq!(plain.metrics(), padded.metrics());
    let padded = CvssV2::parse("//AV:N//AC:L/").unwrap();
    assert_eq!(padded.access_vector, Some(v2_0::AccessVector::Network));
    assert_eq!(padded.access_complexity, Some(v2_0::AccessComplexity::Low));
    assert_eq!(CvssV2::parse("").unwrap().metrics(), v2_0::V2Metrics::empty());
}

#[test]
fn test_a_later_value_replaces_an_earlier_one() {
    let c = CvssV3::parse("CVSS:3.1/AV:N/AC:L/AV:P").unwrap();
    assert_eq!(c.attack_vector, Some(v3::AttackVector::Physical));
    let c = CvssV4::parse("CVSS:4.0/E:A/E:U/E:P").unwrap();
    assert_eq!(c.exploit_maturity, Some(v4_0::ExploitMaturity::ProofOfConcept));
    let c = CvssV2::parse("C:N/C:P/C:C").unwrap();
    assert_eq!(c.confidentiality_impact, Some(v2_0::Impact::Complete));
}

#[test]
fn test_v2_passes_unknown_keys_over() {
    let c = CvssV2::parse("AV:N/XX:Y/AC:L/PR:N").unwrap();
    assert_eq!(c.access_vector, Some(v2_0::AccessVector::Network));
    assert_eq!(c.access_complexity, Some(v2_0::AccessComplexity::Low));
    assert_eq!(c.authentication, None);
}

#[test]
fn test_v2_takes_the_prefix_or_leaves_it() {
    let with = CvssV2::parse("CVSS:2.0/AV:N/AC:L/Au:N/C:C/I:C/A:C").unwrap();
    let lower = CvssV2::parse("cvss:2.0/AV:N/AC:L/Au:N/C:C/I:C/A:C").unwrap();
    let without = CvssV2::parse("AV:N/AC:L/Au:N/C:C/I:C/A:C").unwrap();
    assert_eq!(with.metrics(), without.metrics());
    assert_eq!(lower.metrics(), without.metrics());
    assert_eq!(with.vector_string(), "CVSS:2.0/AV:N/AC:L/Au:N/C:C/I:C/A:C");
    let mixed = CvssV2::parse("Cvss:2.0/AV:N/AC:L/Au:N/C:C/I:C/A:C").unwrap();
    assert_eq!(mixed.metrics(), without.metrics());
    assert_eq!(CvssV2::parse("CVSS:2.0").unwrap().metrics(), v2_0::V2Metrics::empty());
}

#[test]
fn test_v2_refuses_another_version() {
    assert_eq!(
        CvssV2::parse("CVSS:3.1/AV:N/AC:L"),
        Err(ParseError::InvalidVersion { version: "3.1".to_string() })
    );
    assert_eq!(
        CvssV2::parse("cvss:2/AV:N"),
        Err(ParseError::InvalidVersion { version: "2".to_string() })
    );
    // Without a colon the first segment is no prefix but a component.
    assert_eq!(
        CvssV2::parse("CVSS/AV:N"),
        Err(ParseError::InvalidComponent { component: "CVSS".to_string() })
    );
    // Only the first segment can be the prefix; later it is a key that names no metric.
    let c = CvssV2::parse("AV:N/CVSS:3.1/AC:L").unwrap();
    assert_eq!(c.access_vector, Some(v2_0::AccessVector::Network));
    assert_eq!(c.access_complexity, Some(v2_0::AccessComplexity::Low));
}

#[test]
fn test_v2_temporal_and_environmental_metrics() {
    let c = CvssV2::parse("E:POC/RL:TF/RC:UR/CDP:MH/TD:M/CR:H/IR:ND/AR:L").unwrap();
    assert_eq!(c.exploitability, Some(v2_0::Exploitability::ProofOfConcept));
    assert_eq!(c.remediation_level, Some(v2_0::RemediationLevel::TemporaryFix));
    assert_eq!(c.report_confidence, Some(v2_0::ReportConfidence::Uncorroborated));
    assert_eq!(c.collateral_damage_potential, Some(v2_0::CollateralDamagePotential::MediumHigh));
    assert_eq!(c.target_distribution, Some(v2_0::TargetDistribution::Medium));
    assert_eq!(c.confidentiality_requirement, Some(v2_0::SecurityRequirement::High));
    assert_eq!(c.integrity_requirement, Some(v2_0::SecurityRequirement::NotDefined));
    assert_eq!(c.availability_requirement, Some(v2_0::SecurityRequirement::Low));
}

#[test]
fn test_parse_error_messages() {
    assert_eq!(
        ParseError::InvalidPrefix { found: "AV".to_string() }.to_string(),
        "invalid vector prefix: expected 'CVSS', found 'AV'"
    );
    assert_eq!(
        ParseError::InvalidVersion { version: "5.0".to_string() }.to_string(),
        "invalid or unsupported CVSS version: '5.0'"
    );
    assert_eq!(
        ParseError::InvalidComponent { component: "AVN".to_string() }.to_string(),
        "invalid component format: 'AVN' (expected 'KEY:VALUE')"
    );
    assert_eq!(
        ParseError::UnknownMetric { metric: "XX".to_string() }.to_string(),
        "unknown metric abbreviation: 'XX'"
    );
    assert_eq!(
        ParseError::InvalidMetricValue { metric: "AV".to_string(), value: "Z".to_string() }
            .to_string(),
        "invalid value 'Z' for metric 'AV'"
    );
    assert_eq!(
        ParseError::MissingRequiredMetric { metric: "AV".to_string() }.to_string(),
        "missing required metric: 'AV'"
    );
    assert_eq!(
        ParseError::DuplicateMetric { metric: "AV".to_string() }.to_string(),
        "duplicate metric: 'AV'"
    );
}

#[test]
fn test_metric_codes() {
    assert_eq!(v4_0::AttackVector::Adjacent.to_string(), "A");
    assert_eq!(v4_0::ProviderUrgency::Amber.to_string(), "Amber");
    assert_eq!(v4_0::ProviderUrgency::NotDefined.as_str(), "X");
    assert_eq!(v3::RemediationLevel::OfficialFix.as_str(), "O");
    assert_eq!(v2_0::Exploitability::ProofOfConcept.as_str(), "POC");
    assert_eq!(v2_0::CollateralDamagePotential::LowMedium.to_string(), "LM");
    let code: Vec<char> = "AMBER".chars().collect();
    assert_eq!(v4_0::ProviderUrgency::parse(&code), Some(v4_0::ProviderUrgency::Amber));
    let code: Vec<char> = "Amber".chars().collect();
    assert_eq!(v4_0::ProviderUrgency::parse(&code), None);
    let code: Vec<char> = "ND".chars().collect();
    assert_eq!(v2_0::TargetDistribution::parse(&code), Some(v2_0::TargetDistribution::NotDefined));
}

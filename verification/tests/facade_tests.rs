use cvss_rs::score::Score;
use cvss_rs::v2_0::{self, CvssV2};
use cvss_rs::v3::{self, AttackVector, CvssV3};
use cvss_rs::v4_0::{self, CvssV4};
use cvss_rs::{Cvss, Severity, Version};

fn reported_v2(vector: &str, tenths: u8, severity: Option<v2_0::Severity>) -> Cvss {
    let mut c = CvssV2::parse(vector).unwrap();
    c.base_score = Score::from_tenths(tenths);
    c.severity = severity;
    Cvss::V2(c)
}

fn reported_v3(vector: &str, tenths: u8, severity: v3::Severity) -> CvssV3 {
    let mut c = CvssV3::parse(vector).unwrap();
    c.base_score = Score::from_tenths(tenths);
    c.base_severity = severity;
    c
}

fn reported_v4(vector: &str, tenths: u8, severity: v4_0::Severity) -> Cvss {
    let mut c = CvssV4::parse(vector).unwrap();
    c.base_score = Score::from_tenths(tenths);
    c.base_severity = severity;
    Cvss::V4(c)
}

fn value(score: Score) -> f64 {
    score.tenths() as f64 / 10.0
}

#[test]
fn test_v2_0_example() {
    let cvss = reported_v2("AV:N/AC:L/Au:N/C:P/I:P/A:P", 75, Some(v2_0::Severity::High));

    assert_eq!(cvss.version(), Version::V2);
    assert_eq!(value(cvss.base_score()), 7.5);
    assert_eq!(cvss.base_severity().unwrap(), Severity::High);
}

#[test]
fn test_v2_0_minimal() {
    let cvss = reported_v2("AV:N/AC:L/Au:N/C:P/I:P/A:P", 75, None);

    assert_eq!(cvss.version(), Version::V2);
    assert_eq!(value(cvss.base_score()), 7.5);
    assert_eq!(cvss.base_severity(), None);
}

#[test]
fn test_v3_1_critical() {
    let cvss = Cvss::V3_1(reported_v3("CVSS:3.1/AV:N/AC:L/PR:N/UI:N/S:U/C:H/I:H/A:H", 98, v3::Severity::Critical));

    assert_eq!(cvss.version(), Version::V3_1);
    assert_eq!(value(cvss.base_score()), 9.8);
    assert_eq!(cvss.base_severity().unwrap(), Severity::Critical);
}

#[test]
fn test_v3_0_critical() {
    let cvss = Cvss::V3_0(reported_v3("CVSS:3.0/AV:N/AC:L/PR:N/UI:N/S:U/C:H/I:H/A:H", 98, v3::Severity::Critical));

    assert_eq!(cvss.version(), Version::V3_0);
    assert_eq!(value(cvss.base_score()), 9.8);
    assert_eq!(cvss.base_severity().unwrap(), Severity::Critical);
}

#[test]
fn test_v3_1_medium() {
    let cvss = Cvss::V3_1(reported_v3("CVSS:3.1/AV:L/AC:L/PR:N/UI:R/S:C/C:L/I:L/A:N", 58, v3::Severity::Medium));

    assert_eq!(cvss.version(), Version::V3_1);
    assert_eq!(value(cvss.base_score()), 5.8);
    assert_eq!(cvss.base_severity().unwrap(), Severity::Medium);

    // Custom assertion for v3_1_medium
    if let Cvss::V3_1(c) = cvss {
        assert_eq!(c.attack_vector, Some(AttackVector::Local));
    } else {
        panic!("Wrong enum variant");
    }
}

#[test]
fn test_v3_environmental() {
    let cvss = Cvss::V3_1(reported_v3("CVSS:3.1/AV:N/AC:L/PR:N/UI:R/S:C/C:H/I:H/A:H/CR:H", 96, v3::Severity::Critical));

    assert_eq!(cvss.version(), Version::V3_1);
    assert_eq!(value(cvss.base_score()), 9.6);
    assert_eq!(cvss.base_severity().unwrap(), Severity::Critical);
}

#[test]
fn test_v4_0_example() {
    let cvss = reported_v4(
        "CVSS:4.0/AV:N/AC:L/AT:N/PR:N/UI:N/VC:H/VI:H/VA:H/SC:N/SI:N/SA:N",
        93,
        v4_0::Severity::Critical,
    );

    assert_eq!(cvss.version(), Version::V4);
    assert_eq!(value(cvss.base_score()), 9.3);
    assert_eq!(cvss.base_severity().unwrap(), Severity::Critical);
}

#[test]
fn test_v4_0_cve_example() {
    let cvss = reported_v4(
        "CVSS:4.0/AV:N/AC:L/AT:P/PR:N/UI:N/VC:N/VI:L/VA:N/SC:N/SI:N/SA:N",
        59,
        v4_0::Severity::Medium,
    );

    assert_eq!(cvss.version(), Version::V4);
    assert_eq!(value(cvss.base_score()), 5.9);
    assert_eq!(cvss.base_severity().unwrap(), Severity::Medium);
}

#[test]
fn test_v4_0_minimal() {
    let cvss = reported_v4("CVSS:4.0/AV:N/AC:L/AT:N/PR:N/UI:N", 99, v4_0::Severity::Critical);

    assert_eq!(cvss.version(), Version::V4);
    assert_eq!(value(cvss.base_score()), 9.9);
    assert_eq!(cvss.base_severity().unwrap(), Severity::Critical);
}

#[test]
fn test_reported_and_computed_scores_are_apart() {
    // A reported score stays as it was given, whatever the vector computes to.
    let c = reported_v3("CVSS:3.1/AV:N/AC:L/PR:N/UI:N/S:U/C:H/I:H/A:H", 12, v3::Severity::Low);
    assert_eq!(c.base_score().tenths(), 12);
    assert_eq!(c.base_severity(), Some(Severity::Low));
    assert_eq!(c.calculated_base_score().unwrap().tenths(), 98);
    assert_eq!(c.base_score().tenths(), 12);
}

#[test]
fn test_facade_vector_string() {
    let text = "cvss:3.1/av:n";
    let cvss = Cvss::V3_1(CvssV3::parse(text).unwrap());
    assert_eq!(cvss.vector_string(), text);
    assert_eq!(cvss.to_string(), text);
    let cvss = Cvss::V2(CvssV2::parse("AV:N").unwrap());
    assert_eq!(cvss.vector_string(), "AV:N");
    assert_eq!(cvss.base_score().tenths(), 0);
    let cvss = Cvss::V4(CvssV4::parse("CVSS:4.0/AV:N").unwrap());
    assert_eq!(cvss.vector_string(), "CVSS:4.0/AV:N");
    assert_eq!(cvss.base_severity(), Some(Severity::NoneValue));
}

#[test]
fn test_version_names() {
    for v in [Version::V2, Version::V3_0, Version::V3_1, Version::V4] {
        assert_eq!(Version::parse(&v.to_string()), Some(v));
    }
    assert_eq!(Version::V3_0.to_string(), "V3_0");
    assert_eq!(Version::V4.as_str(), "V4");
    assert_eq!(Version::parse("V3_1"), Some(Version::V3_1));
    assert_eq!(Version::parse("v2"), None);
    assert_eq!(Version::parse("3.1"), None);
}

#[test]
fn test_severity_order() {
    assert!(Severity::NoneValue < Severity::Low);
    assert!(Severity::Low < Severity::Medium);
    assert!(Severity::Medium < Severity::High);
    assert!(Severity::High < Severity::Critical);
    assert_eq!(v3::Severity::High.unified(), Severity::High);
    assert_eq!(v4_0::Severity::NoneValue.unified(), Severity::NoneValue);
    assert_eq!(v2_0::Severity::Medium.unified(), Severity::Medium);
}

use cvss_rs::v4_0::{CvssV4, Nomenclature};
use std::str::FromStr;

fn value(score: cvss_rs::score::Score) -> f64 {
    score.tenths() as f64 / 10.0
}

#[test]
fn test_v4_0_debug_mismatch() {
    // CVE-2024-7657: This vector should calculate to 5.3
    let vector = "CVSS:4.0/AV:N/AC:L/AT:N/PR:L/UI:N/VC:N/VI:L/VA:N/SC:N/SI:N/SA:N";
    let cvss = CvssV4::from_str(vector).unwrap();

    let score = cvss.calculated_base_score().unwrap();
    assert_eq!(value(score), 5.3);
}

#[test]
fn test_v4_0_exploit_maturity_notdefined() {
    // CVE-2025-6829: Vector with E:X (NotDefined) should still calculate to 5.3
    let vector = "CVSS:4.0/AV:N/AC:L/AT:N/PR:L/UI:N/VC:L/VI:L/VA:L/SC:N/SI:N/SA:N/E:X";
    let cvss = CvssV4::from_str(vector).unwrap();

    let score = cvss.calculated_base_score().unwrap();
    assert_eq!(
        value(score),
        5.3,
        "E:X (NotDefined) should be treated as E:A (Attacked)"
    );

    // CVE-2025-6166: Another E:X case that should calculate to 5.1
    let vector2 = "CVSS:4.0/AV:A/AC:L/AT:N/PR:L/UI:N/VC:L/VI:N/VA:N/SC:N/SI:N/SA:N/E:X";
    let cvss2 = CvssV4::from_str(vector2).unwrap();

    let score2 = cvss2.calculated_base_score().unwrap();
    assert_eq!(value(score2), 5.1, "E:X should be treated as E:A");
}

#[test]
fn test_v4_0_cve_2020_36855() {
    // CVE-2020-36855: Base score should be 4.8 regardless of E metric
    let vector = "CVSS:4.0/AV:L/AC:L/AT:N/PR:L/UI:N/VC:L/VI:L/VA:L/SC:N/SI:N/SA:N/E:P";
    let cvss = CvssV4::from_str(vector).unwrap();

    let score = cvss.calculated_base_score().unwrap();
    assert_eq!(value(score), 4.8);
}

#[test]
fn test_nomenclature_display() {
    assert_eq!(Nomenclature::CvssB.to_string(), "CVSS-B");
    assert_eq!(Nomenclature::CvssBE.to_string(), "CVSS-BE");
    assert_eq!(Nomenclature::CvssBT.to_string(), "CVSS-BT");
    assert_eq!(Nomenclature::CvssBTE.to_string(), "CVSS-BTE");
}

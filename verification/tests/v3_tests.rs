use cvss_rs::score::Score;
use cvss_rs::v3::CvssV3;
use std::str::FromStr;

fn value(score: Score) -> f64 {
    score.tenths() as f64 / 10.0
}

#[test]
fn test_v3_1_rounding_examples() {
    // CVE-2023-35161: Tests CVSS v3.1 environmental formula changes
    //
    // CVSS v3.1 changed the ENVIRONMENTAL Impact formula (Modified Impact Sub Score):
    // - v3.0: 7.52 × (MISS - 0.029) - 3.25 × (MISS - 0.02)^15
    // - v3.1: 7.52 × (MISS - 0.029) - 3.25 × (MISS × 0.9731 - 0.02)^13
    //
    // The base score formula remained unchanged (still uses exponent 15).
    let vector1 = "CVSS:3.1/AV:N/AC:L/PR:N/UI:R/S:C/C:H/I:H/A:H";
    let cvss1 = CvssV3::from_str(vector1).unwrap();

    let base_score = cvss1.calculated_base_score().unwrap();
    let temporal_score = cvss1.calculated_temporal_score().unwrap();
    let env_score = cvss1.calculated_environmental_score().unwrap();

    assert_eq!(value(base_score), 9.6, "Base score should be 9.6");
    assert_eq!(
        value(temporal_score),
        9.6,
        "Temporal score should be 9.6 (with E/RL/RC = NotDefined)"
    );
    assert_eq!(value(env_score), 9.7, "Environmental score should be 9.7 per CVSS v3.1 formula (with all env metrics = NotDefined)");
}

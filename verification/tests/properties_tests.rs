use cvss_rs::score::Score;
use cvss_rs::v2_0::CvssV2;
use cvss_rs::v3::CvssV3;
use cvss_rs::v4_0::{scoring, score, CvssV4, Nomenclature};
use cvss_rs::Severity;

fn value(score: Score) -> f64 {
    score.tenths() as f64 / 10.0
}

#[test]
fn test_v3_1_critical_vector() {
    let c = CvssV3::parse("CVSS:3.1/AV:N/AC:L/PR:N/UI:N/S:U/C:H/I:H/A:H").unwrap();
    let s = c.calculated_base_score().unwrap();
    assert_eq!(value(s), 9.8);
    assert_eq!(s.severity(), Severity::Critical);
    assert_eq!(s.whole(), 9);
    assert_eq!(s.fraction(), 8);
}

#[test]
fn test_v3_1_scope_changed_vector() {
    let c = CvssV3::parse("CVSS:3.1/AV:N/AC:L/PR:L/UI:N/S:C/C:H/I:H/A:H").unwrap();
    assert_eq!(value(c.calculated_base_score().unwrap()), 9.9);
}

#[test]
fn test_v2_highest_and_lowest_vector() {
    let c = CvssV2::parse("AV:N/AC:L/Au:N/C:C/I:C/A:C").unwrap();
    assert_eq!(value(c.calculated_base_score().unwrap()), 10.0);
    assert_eq!(c.calculated_base_score().unwrap().severity_v2(), Severity::High);
    let c = CvssV2::parse("AV:N/AC:L/Au:N/C:N/I:N/A:N").unwrap();
    assert_eq!(value(c.calculated_base_score().unwrap()), 0.0);
    assert_eq!(c.calculated_base_score().unwrap().severity_v2(), Severity::Low);
}

#[test]
fn test_severity_bands() {
    assert_eq!(Score::from_tenths(0).severity(), Severity::NoneValue);
    assert_eq!(Score::from_tenths(1).severity(), Severity::Low);
    assert_eq!(Score::from_tenths(39).severity(), Severity::Low);
    assert_eq!(Score::from_tenths(40).severity(), Severity::Medium);
    assert_eq!(Score::from_tenths(69).severity(), Severity::Medium);
    assert_eq!(Score::from_tenths(70).severity(), Severity::High);
    assert_eq!(Score::from_tenths(89).severity(), Severity::High);
    assert_eq!(Score::from_tenths(90).severity(), Severity::Critical);
    assert_eq!(Score::from_tenths(100).severity(), Severity::Critical);
    assert_eq!(Score::from_tenths(39).severity_v2(), Severity::Low);
    assert_eq!(Score::from_tenths(40).severity_v2(), Severity::Medium);
    assert_eq!(Score::from_tenths(69).severity_v2(), Severity::Medium);
    assert_eq!(Score::from_tenths(70).severity_v2(), Severity::High);
}

#[test]
fn test_no_impact_scores_zero() {
    // Version 4.0: whatever the other metrics are.
    for rest in ["AV:N/AC:L/AT:N/PR:N/UI:N", "AV:P/AC:H/AT:P/PR:H/UI:A", "AV:A/AC:L/AT:P/PR:L/UI:P"] {
        for tail in ["", "/E:U", "/CR:L/IR:M/AR:H", "/MAV:N/MAC:L/S:P/U:Red"] {
            let text = format!("CVSS:4.0/{}/VC:N/VI:N/VA:N/SC:N/SI:N/SA:N{}", rest, tail);
            let c = CvssV4::parse(&text).unwrap();
            assert_eq!(c.calculated_base_score().unwrap().tenths(), 0, "{}", text);
            assert_eq!(c.calculated_score().unwrap().tenths(), 0, "{}", text);
        }
    }
    // Modified impacts count in place of the base ones.
    let c = CvssV4::parse("CVSS:4.0/AV:N/AC:L/AT:N/PR:N/UI:N/VC:H/VI:H/VA:H/SC:H/SI:H/SA:H/MVC:N/MVI:N/MVA:N/MSC:N/MSI:N/MSA:N").unwrap();
    assert_eq!(c.calculated_base_score().unwrap().tenths(), 0);
    let c = CvssV4::parse("CVSS:4.0/AV:N/AC:L/AT:N/PR:N/UI:N/VC:N/VI:N/VA:N/SC:N/SI:N/SA:N/MVC:L").unwrap();
    assert!(c.calculated_base_score().unwrap().tenths() > 0);
    // Version 3.x, under either scope.
    for rest in ["AV:N/AC:L/PR:N/UI:N/S:U", "AV:N/AC:L/PR:N/UI:N/S:C", "AV:P/AC:H/PR:H/UI:R/S:C/E:U/RL:O/CR:H"] {
        for prefix in ["CVSS:3.0", "CVSS:3.1"] {
            let text = format!("{}/{}/C:N/I:N/A:N", prefix, rest);
            let c = CvssV3::parse(&text).unwrap();
            assert_eq!(c.calculated_base_score().unwrap().tenths(), 0, "{}", text);
            assert_eq!(c.calculated_temporal_score().unwrap().tenths(), 0, "{}", text);
            assert_eq!(c.calculated_environmental_score().unwrap().tenths(), 0, "{}", text);
        }
    }
    // Version 2.0.
    for rest in ["AV:N/AC:L/Au:N", "AV:L/AC:H/Au:M/E:U/RL:OF/RC:UC/TD:L/CR:H"] {
        let text = format!("{}/C:N/I:N/A:N", rest);
        let c = CvssV2::parse(&text).unwrap();
        assert_eq!(c.calculated_base_score().unwrap().tenths(), 0, "{}", text);
        assert_eq!(c.calculated_temporal_score().unwrap().tenths(), 0, "{}", text);
        assert_eq!(c.calculated_environmental_score().unwrap().tenths(), 0, "{}", text);
    }
}

#[test]
fn test_v2_collateral_damage_counts_without_impact() {
    let c = CvssV2::parse("AV:N/AC:L/Au:N/C:N/I:N/A:N/CDP:H").unwrap();
    assert_eq!(c.calculated_base_score().unwrap().tenths(), 0);
    assert_eq!(c.calculated_temporal_score().unwrap().tenths(), 0);
    assert_eq!(c.calculated_environmental_score().unwrap().tenths(), 50);
}

#[test]
fn test_v2_low_requirement_stays_on_the_scale() {
    // (0.6 * 1.43 + 0.4 * 1.24 - 1.5) is below 0.
    let c = CvssV2::parse("AV:L/AC:H/Au:M/C:P/I:N/A:N/CR:L").unwrap();
    assert_eq!(c.calculated_base_score().unwrap().tenths(), 8);
    assert_eq!(c.calculated_environmental_score().unwrap().tenths(), 0);
}

#[test]
fn test_missing_base_metric_gives_no_score() {
    let c = CvssV4::parse("CVSS:4.0/AV:N/AC:L/AT:N/PR:N/UI:N/VC:H/VI:H/VA:H/SC:N/SI:N").unwrap();
    assert_eq!(c.calculated_base_score(), None);
    assert_eq!(c.calculated_score(), None);
    assert_eq!(scoring::calculate_score_internal(&c, true), None);
    // A modified metric does not stand in for a missing base metric.
    let c = CvssV4::parse("CVSS:4.0/AV:N/AC:L/AT:N/PR:N/UI:N/VC:H/VI:H/VA:H/SC:N/SI:N/MSA:N").unwrap();
    assert_eq!(c.calculated_base_score(), None);
    let c = CvssV3::parse("CVSS:3.1/AV:N/AC:L/PR:N/UI:N/C:H/I:H/A:H").unwrap();
    assert_eq!(c.calculated_base_score(), None);
    assert_eq!(c.calculated_temporal_score(), None);
    assert_eq!(c.calculated_environmental_score(), None);
    let c = CvssV2::parse("AV:N/AC:L/C:C/I:C/A:C").unwrap();
    assert_eq!(c.calculated_base_score(), None);
    assert_eq!(c.calculated_temporal_score(), None);
    assert_eq!(c.calculated_environmental_score(), None);
    // No score is not the score 0.0.
    let c = CvssV2::parse("AV:N/AC:L/Au:N/C:N/I:N/A:N").unwrap();
    assert_eq!(c.calculated_base_score(), Some(Score::from_tenths(0)));
}

#[test]
fn test_v4_well_known_vectors() {
    let c = CvssV4::parse("CVSS:4.0/AV:N/AC:L/AT:N/PR:N/UI:N/VC:H/VI:H/VA:H/SC:H/SI:H/SA:H").unwrap();
    assert_eq!(value(c.calculated_base_score().unwrap()), 10.0);
    let c = CvssV4::parse("CVSS:4.0/AV:N/AC:L/AT:N/PR:N/UI:N/VC:H/VI:H/VA:H/SC:N/SI:N/SA:N").unwrap();
    assert_eq!(value(c.calculated_base_score().unwrap()), 9.3);
    assert_eq!(c.calculated_base_score().unwrap().severity(), Severity::Critical);
    // 8.7 less a quarter of the 1.7 to the next lower MacroVector of EQ1, over four dimensions.
    let c = CvssV4::parse("CVSS:4.0/AV:L/AC:L/AT:N/PR:N/UI:N/VC:H/VI:H/VA:H/SC:N/SI:N/SA:N").unwrap();
    assert_eq!(value(c.calculated_base_score().unwrap()), 8.6);
    let c = CvssV4::parse("CVSS:4.0/AV:L/AC:L/AT:N/PR:L/UI:N/VC:H/VI:H/VA:H/SC:N/SI:N/SA:N").unwrap();
    assert_eq!(value(c.calculated_base_score().unwrap()), 8.5);
    let c = CvssV4::parse("CVSS:4.0/AV:N/AC:L/AT:N/PR:L/UI:N/VC:H/VI:H/VA:H/SC:N/SI:N/SA:N").unwrap();
    assert_eq!(value(c.calculated_base_score().unwrap()), 8.7);
    let c = CvssV4::parse("CVSS:4.0/AV:N/AC:L/AT:N/PR:N/UI:N/VC:H/VI:N/VA:N/SC:N/SI:N/SA:N").unwrap();
    assert_eq!(value(c.calculated_base_score().unwrap()), 8.7);
    let c = CvssV4::parse("CVSS:4.0/AV:N/AC:L/AT:N/PR:N/UI:A/VC:N/VI:N/VA:N/SC:L/SI:L/SA:N").unwrap();
    assert_eq!(value(c.calculated_base_score().unwrap()), 5.1);
    assert_eq!(c.calculated_base_score().unwrap().severity(), Severity::Medium);
}

#[test]
fn test_v4_subsequent_confidentiality_safety() {
    // No boundary vector allows for it; the distances are those to the last boundary vectors.
    let c = CvssV4::parse("CVSS:4.0/AV:A/AC:L/AT:N/PR:N/UI:N/VC:H/VI:H/VA:H/SC:S/SI:N/SA:N").unwrap();
    assert_eq!(c.calculated_base_score().unwrap().tenths(), 97);
}

#[test]
fn test_v4_threat_metric() {
    let text = "CVSS:4.0/AV:N/AC:L/AT:N/PR:N/UI:N/VC:H/VI:H/VA:H/SC:N/SI:N/SA:N";
    let plain = CvssV4::parse(text).unwrap();
    let attacked = CvssV4::parse(&format!("{}/E:A", text)).unwrap();
    let undefined = CvssV4::parse(&format!("{}/E:X", text)).unwrap();
    let poc = CvssV4::parse(&format!("{}/E:P", text)).unwrap();
    let unreported = CvssV4::parse(&format!("{}/E:U", text)).unwrap();
    // The base score leaves the threat metric out.
    for c in [&plain, &attacked, &undefined, &poc, &unreported] {
        assert_eq!(c.calculated_base_score().unwrap().tenths(), 93);
        assert_eq!(scoring::calculate_base_score(c).unwrap().tenths(), 93);
    }
    // The full score takes it in; not defined counts as attacked.
    assert_eq!(plain.calculated_score().unwrap().tenths(), 93);
    assert_eq!(attacked.calculated_score().unwrap().tenths(), 93);
    assert_eq!(undefined.calculated_score().unwrap().tenths(), 93);
    assert_eq!(poc.calculated_score().unwrap().tenths(), 89);
    assert_eq!(unreported.calculated_score().unwrap().tenths(), 81);
    assert_eq!(scoring::calculate_score(&unreported).unwrap().tenths(), 81);
}

#[test]
fn test_v4_requirements_default_to_high() {
    let text = "CVSS:4.0/AV:N/AC:L/AT:N/PR:N/UI:N/VC:H/VI:L/VA:L/SC:N/SI:N/SA:N";
    let plain = CvssV4::parse(text).unwrap();
    let high = CvssV4::parse(&format!("{}/CR:H/IR:H/AR:H", text)).unwrap();
    let low = CvssV4::parse(&format!("{}/CR:L/IR:L/AR:L", text)).unwrap();
    assert_eq!(plain.calculated_score(), high.calculated_score());
    assert!(low.calculated_score().unwrap().tenths() < plain.calculated_score().unwrap().tenths());
}

#[test]
fn test_v4_macro_vector() {
    let mv = scoring::MacroVector::new(1, 0, 2, 2, 0, 1);
    assert_eq!(mv.as_tuple(), (1, 0, 2, 2, 0, 1));
    assert_eq!(mv.incr_eq1().as_tuple(), (2, 0, 2, 2, 0, 1));
    assert_eq!(mv.incr_eq2().as_tuple(), (1, 1, 2, 2, 0, 1));
    assert_eq!(mv.incr_eq3().as_tuple(), (1, 0, 3, 2, 0, 1));
    assert_eq!(mv.incr_eq4().as_tuple(), (1, 0, 2, 3, 0, 1));
    assert_eq!(mv.incr_eq5().as_tuple(), (1, 0, 2, 2, 1, 1));
    assert_eq!(mv.incr_eq6().as_tuple(), (1, 0, 2, 2, 0, 2));
    assert_eq!(cvss_rs::v4_0::lookup::lookup_global(&mv), Some(53));
    assert_eq!(cvss_rs::v4_0::lookup::lookup_global(&mv.incr_eq1()), Some(24));
    assert_eq!(cvss_rs::v4_0::lookup::lookup_global(&mv.incr_eq3()), None);
    assert_eq!(cvss_rs::v4_0::lookup::lookup_global(&scoring::MacroVector::new(0, 0, 2, 0, 0, 0)), None);
    assert_eq!(cvss_rs::v4_0::lookup::lookup_global(&scoring::MacroVector::new(0, 0, 0, 0, 0, 0)), Some(100));
    assert_eq!(cvss_rs::v4_0::lookup::lookup_global(&scoring::MacroVector::new(2, 1, 2, 2, 2, 1)), Some(1));
}

#[test]
fn test_round_v4() {
    // 8.6 - 7.15 = 1.45 => should round to 1.5
    assert_eq!(value(score::round_v4(145, 100)), 1.5);
    assert_eq!(value(score::round_v4(512345, 100000)), 5.1);
    assert_eq!(value(score::round_v4(515, 100)), 5.2);
    assert_eq!(value(score::round_v4(514, 100)), 5.1);

    // Test clamping
    assert_eq!(value(score::round_v4(-1, 1)), 0.0);
    assert_eq!(value(score::round_v4(11, 1)), 10.0);
}

#[test]
fn test_round_v4_takes_up_what_lies_just_below_a_half() {
    assert_eq!(score::round_v4(144999, 100000).tenths(), 15);
    assert_eq!(score::round_v4(14499, 10000).tenths(), 14);
    assert_eq!(score::round_v4(0, 7).tenths(), 0);
    assert_eq!(score::round_v4(10, 1).tenths(), 100);
    assert_eq!(score::round_v4(999, 100).tenths(), 100);
    assert_eq!(score::round_v4(1, 20).tenths(), 1);
    assert_eq!(score::round_v4(1, 21).tenths(), 0);
}

#[test]
fn test_nomenclature_of_vectors() {
    let of = |text: &str| Nomenclature::from(&CvssV4::parse(text).unwrap());
    assert_eq!(of("CVSS:4.0/AV:N/AC:L"), Nomenclature::CvssB);
    assert_eq!(of("CVSS:4.0/AV:N/E:X"), Nomenclature::CvssBT);
    assert_eq!(of("CVSS:4.0/AV:N/MSA:S"), Nomenclature::CvssBE);
    assert_eq!(of("CVSS:4.0/AV:N/CR:H"), Nomenclature::CvssBE);
    assert_eq!(of("CVSS:4.0/AV:N/AR:L/E:P"), Nomenclature::CvssBTE);
    // Supplemental metrics do not count.
    assert_eq!(of("CVSS:4.0/AV:N/S:P/AU:Y/U:Red"), Nomenclature::CvssB);
    assert_eq!(Nomenclature::CvssBTE.as_str(), "CVSS-BTE");
    let c = CvssV4::parse("CVSS:4.0/AV:N/MAV:L").unwrap();
    assert_eq!(Nomenclature::of(&c), Nomenclature::CvssBE);
    let n: Nomenclature = (&c).into();
    assert_eq!(n, Nomenclature::CvssBE);
}

#[test]
fn test_v3_environmental_formula_by_version() {
    // The two versions differ in the polynomial of a changed modified scope.
    let metrics = "AV:N/AC:L/PR:N/UI:R/S:C/C:H/I:H/A:H";
    let v31 = CvssV3::parse(&format!("CVSS:3.1/{}", metrics)).unwrap();
    let v30 = CvssV3::parse(&format!("CVSS:3.0/{}", metrics)).unwrap();
    assert_eq!(v31.calculated_base_score().unwrap().tenths(), 96);
    assert_eq!(v30.calculated_base_score().unwrap().tenths(), 96);
    assert_eq!(v31.calculated_environmental_score().unwrap().tenths(), 97);
    assert_eq!(v30.calculated_environmental_score().unwrap().tenths(), 96);
}

#[test]
fn test_v3_modified_metrics() {
    // A modified metric that is not defined leaves the base metric in place.
    let base = CvssV3::parse("CVSS:3.1/AV:L/AC:H/PR:L/UI:R/S:U/C:L/I:L/A:N").unwrap();
    let same = CvssV3::parse("CVSS:3.1/AV:L/AC:H/PR:L/UI:R/S:U/C:L/I:L/A:N/MAV:X/MAC:X/MPR:X/MUI:X/MS:X/MC:X/MI:X/MA:X").unwrap();
    assert_eq!(base.calculated_environmental_score(), same.calculated_environmental_score());
    // One that is defined takes its place.
    let raised = CvssV3::parse("CVSS:3.1/AV:L/AC:H/PR:L/UI:R/S:U/C:L/I:L/A:N/MAV:N/MAC:L/MPR:N/MUI:N/MC:H/MI:H/MA:H").unwrap();
    let plain = CvssV3::parse("CVSS:3.1/AV:N/AC:L/PR:N/UI:N/S:U/C:H/I:H/A:H").unwrap();
    assert_eq!(raised.calculated_environmental_score(), plain.calculated_environmental_score());
    assert_eq!(raised.calculated_environmental_score().unwrap().tenths(), 98);
    assert_eq!(raised.calculated_base_score().unwrap().tenths(), 33);
}

use cvss_rs::v2_0::{CvssV2, V2Metrics};
use cvss_rs::v3::{CvssV3, V3Metrics};
use cvss_rs::v4_0::{CvssV4, V4Metrics};

#[test]
fn test_v4_renders_in_canonical_order() {
    let c = CvssV4::parse(
        "cvss:4.0/u:amber/re:m/v:c/r:i/au:y/s:p/msa:s/msi:n/msc:l/mva:h/mvi:l/mvc:n/mui:a/mpr:h/mat:p/mac:h/mav:p/ar:l/ir:m/cr:h/e:u/sa:n/si:l/sc:h/va:n/vi:l/vc:h/ui:p/pr:l/at:n/ac:l/av:a",
    )
    .unwrap();
    assert_eq!(
        c.to_string(),
        "CVSS:4.0/AV:A/AC:L/AT:N/PR:L/UI:P/VC:H/VI:L/VA:N/SC:H/SI:L/SA:N/E:U/CR:H/IR:M/AR:L/MAV:P/MAC:H/MAT:P/MPR:H/MUI:A/MVC:N/MVI:L/MVA:H/MSC:L/MSI:N/MSA:S/S:P/AU:Y/R:I/V:C/RE:M/U:Amber"
    );
    let again = CvssV4::parse(&c.to_string()).unwrap();
    assert_eq!(again.metrics(), c.metrics());
}

#[test]
fn test_v4_renders_only_what_is_present() {
    assert_eq!(CvssV4::parse("CVSS:4.0").unwrap().to_string(), "CVSS:4.0");
    assert_eq!(CvssV4::parse("CVSS:4.0//E:P/").unwrap().to_string(), "CVSS:4.0/E:P");
    let c = CvssV4::from_metrics(String::new(), V4Metrics::empty());
    assert_eq!(c.to_string(), "CVSS:4.0");
}

#[test]
fn test_v3_renders_with_its_version() {
    let c = CvssV3::parse("CVSS:3.0/rc:c/A:H/av:n").unwrap();
    assert!(c.is_v3_0());
    assert_eq!(c.to_string(), "CVSS:3.0/AV:N/A:H/RC:C");
    let c = CvssV3::parse("CVSS:3.1/MA:X/MS:C/CR:L/S:U").unwrap();
    assert!(!c.is_v3_0());
    assert_eq!(c.to_string(), "CVSS:3.1/S:U/CR:L/MS:C/MA:X");
    // Only a prefix in upper case marks a record as one of version 3.0.
    let c = CvssV3::parse("cvss:3.0/AV:N").unwrap();
    assert!(!c.is_v3_0());
    assert_eq!(c.to_string(), "CVSS:3.1/AV:N");
    let c = CvssV3::from_metrics(String::new(), V3Metrics::empty());
    assert_eq!(c.to_string(), "CVSS:3.1");
}

#[test]
fn test_v3_round_trip() {
    let text = "CVSS:3.1/AV:A/AC:H/PR:H/UI:R/S:C/C:L/I:N/A:H/E:U/RL:T/RC:U/CR:M/IR:H/AR:X/MAV:L/MAC:L/MPR:N/MUI:N/MS:U/MC:H/MI:L/MA:N";
    let c = CvssV3::parse(text).unwrap();
    assert_eq!(c.to_string(), text);
    assert_eq!(CvssV3::parse(&c.to_string()).unwrap().metrics(), c.metrics());
}

#[test]
fn test_v2_renders_without_prefix() {
    let c = CvssV2::parse("CVSS:2.0/ar:h/a:c/i:p/c:n/au:m/ac:h/av:l/td:l/cdp:lm/rc:uc/rl:of/e:poc/cr:nd/ir:m").unwrap();
    assert_eq!(c.to_string(), "AV:L/AC:H/Au:M/C:N/I:P/A:C/E:POC/RL:OF/RC:UC/CDP:LM/TD:L/CR:ND/IR:M/AR:H");
    assert_eq!(CvssV2::parse(&c.to_string()).unwrap().metrics(), c.metrics());
}

#[test]
fn test_v2_renders_absent_metrics_as_nothing() {
    assert_eq!(CvssV2::parse("").unwrap().to_string(), "");
    assert_eq!(CvssV2::from_metrics(String::new(), V2Metrics::empty()).to_string(), "");
    let c = CvssV2::parse("AC:L/A:P").unwrap();
    assert_eq!(c.to_string(), "AC:L/A:P");
    assert_eq!(CvssV2::parse(&c.to_string()).unwrap().metrics(), c.metrics());
    let c = CvssV2::parse("AR:L").unwrap();
    assert_eq!(c.to_string(), "AR:L");
}

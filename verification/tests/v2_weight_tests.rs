use cvss_rs::v2_0::{AccessComplexity, AccessVector, Authentication, Impact, SecurityRequirement};

#[test]
fn test_v2_weights() {
    assert_eq!(AccessVector::Network.score(), 1000);
    assert_eq!(AccessVector::AdjacentNetwork.score(), 646);
    assert_eq!(AccessVector::Local.score(), 395);
    assert_eq!(AccessComplexity::High.score(), 350);
    assert_eq!(AccessComplexity::Medium.score(), 610);
    assert_eq!(AccessComplexity::Low.score(), 710);
    assert_eq!(Authentication::Multiple.score(), 450);
    assert_eq!(Authentication::Single.score(), 560);
    assert_eq!(Authentication::NoneValue.score(), 704);
    assert_eq!(Impact::NoneValue.score(), 0);
    assert_eq!(Impact::Partial.score(), 275);
    assert_eq!(Impact::Complete.score(), 660);
    assert_eq!(SecurityRequirement::High.score(), 1510);
}

use cvss_rs::v3::{AttackVector, Impact, PrivilegesRequired, Scope, SecurityRequirement};

#[test]
fn test_v3_weights() {
    assert_eq!(AttackVector::Network.score(), 850);
    assert_eq!(AttackVector::Physical.score(), 200);
    assert_eq!(AttackVector::NotDefined.score(), 850);
    assert_eq!(PrivilegesRequired::Low.score(false), 620);
    assert_eq!(PrivilegesRequired::Low.score(true), 680);
    assert_eq!(PrivilegesRequired::High.score(false), 270);
    assert_eq!(PrivilegesRequired::High.score(true), 500);
    assert_eq!(PrivilegesRequired::NoneValue.score(true), 850);
    assert_eq!(Impact::High.score(), 560);
    assert_eq!(Impact::NoneValue.score(), 0);
    assert_eq!(SecurityRequirement::High.score(), 1500);
    assert!(Scope::Changed.is_changed());
    assert!(!Scope::Unchanged.is_changed());
    assert!(!Scope::NotDefined.is_changed());
}

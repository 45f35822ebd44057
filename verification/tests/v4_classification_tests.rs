use cvss_rs::v4_0::scoring;
use cvss_rs::v4_0::{
    AttackComplexity, AttackRequirements, AttackVector, ExploitMaturity, Impact, PrivilegesRequired,
    Requirement, SubsequentImpact, UserInteraction,
};

#[test]
fn test_v4_classification() {
    assert_eq!(scoring::eq1(AttackVector::Network, PrivilegesRequired::NoneValue, UserInteraction::NoneValue), 0);
    assert_eq!(scoring::eq1(AttackVector::Network, PrivilegesRequired::High, UserInteraction::Active), 1);
    assert_eq!(scoring::eq1(AttackVector::Local, PrivilegesRequired::NoneValue, UserInteraction::Active), 1);
    assert_eq!(scoring::eq1(AttackVector::Physical, PrivilegesRequired::NoneValue, UserInteraction::NoneValue), 2);
    assert_eq!(scoring::eq1(AttackVector::Adjacent, PrivilegesRequired::Low, UserInteraction::Passive), 2);
    assert_eq!(scoring::eq2(AttackComplexity::Low, AttackRequirements::NoneValue), 0);
    assert_eq!(scoring::eq2(AttackComplexity::Low, AttackRequirements::Present), 1);
    assert_eq!(scoring::eq2(AttackComplexity::High, AttackRequirements::NoneValue), 1);
    assert_eq!(scoring::eq3(Impact::High, Impact::High, Impact::NoneValue), 0);
    assert_eq!(scoring::eq3(Impact::High, Impact::Low, Impact::NoneValue), 1);
    assert_eq!(scoring::eq3(Impact::Low, Impact::Low, Impact::High), 1);
    assert_eq!(scoring::eq3(Impact::Low, Impact::Low, Impact::Low), 2);
    assert_eq!(scoring::eq4(SubsequentImpact::High, SubsequentImpact::Safety, SubsequentImpact::NoneValue), 0);
    assert_eq!(scoring::eq4(SubsequentImpact::High, SubsequentImpact::Low, SubsequentImpact::NoneValue), 1);
    assert_eq!(scoring::eq4(SubsequentImpact::Low, SubsequentImpact::Low, SubsequentImpact::NoneValue), 2);
    assert_eq!(scoring::eq5(ExploitMaturity::Attacked), 0);
    assert_eq!(scoring::eq5(ExploitMaturity::ProofOfConcept), 1);
    assert_eq!(scoring::eq5(ExploitMaturity::Unreported), 2);
    assert_eq!(scoring::eq5(ExploitMaturity::NotDefined), 2);
    assert_eq!(scoring::eq6(Requirement::High, Impact::High, Requirement::Low, Impact::Low, Requirement::Low, Impact::Low), 0);
    assert_eq!(scoring::eq6(Requirement::Medium, Impact::High, Requirement::High, Impact::Low, Requirement::Low, Impact::High), 1);
    assert_eq!(scoring::eq6(Requirement::Low, Impact::Low, Requirement::Low, Impact::Low, Requirement::High, Impact::High), 0);
    assert_eq!(scoring::merge_av(AttackVector::Local, None), AttackVector::Local);
    assert_eq!(scoring::merge_av(AttackVector::Local, Some(AttackVector::Network)), AttackVector::Network);
    assert_eq!(scoring::merge_ac(AttackComplexity::Low, Some(AttackComplexity::High)), AttackComplexity::High);
    assert_eq!(scoring::merge_at(AttackRequirements::Present, None), AttackRequirements::Present);
    assert_eq!(scoring::merge_pr(PrivilegesRequired::Low, Some(PrivilegesRequired::High)), PrivilegesRequired::High);
    assert_eq!(scoring::merge_ui(UserInteraction::Active, None), UserInteraction::Active);
    assert_eq!(scoring::merge_impact(Impact::High, Some(Impact::NoneValue)), Impact::NoneValue);
    assert_eq!(scoring::merge_subsequent_impact(SubsequentImpact::Low, Some(SubsequentImpact::Safety)), SubsequentImpact::Safety);
    assert_eq!(scoring::merge_exploit_maturity(None), ExploitMaturity::Attacked);
    assert_eq!(scoring::merge_exploit_maturity(Some(ExploitMaturity::NotDefined)), ExploitMaturity::Attacked);
    assert_eq!(scoring::merge_exploit_maturity(Some(ExploitMaturity::Unreported)), ExploitMaturity::Unreported);
    assert_eq!(scoring::merge_requirement(None), Requirement::High);
    assert_eq!(scoring::merge_requirement(Some(Requirement::Low)), Requirement::Low);
    assert_eq!(AttackVector::Physical.level(), 3);
    assert_eq!(SubsequentImpact::Safety.level(), 0);
    assert_eq!(SubsequentImpact::NoneValue.level(), 3);
    assert_eq!(Requirement::Low.level(), 2);
}

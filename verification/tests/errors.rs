use anchor_spl_amm::errors::TutorialError;

#[test]
fn every_error_has_its_message() {
    assert_eq!(TutorialError::InvalidConfiguration.message(), "Invalid fee or slippage configuration");
    assert_eq!(TutorialError::PriceImpactTooHigh.message(), "Price impact is too high");
    assert_eq!(TutorialError::OutputTooSmall.message(), "Output is below the minimum expected");
    assert_eq!(TutorialError::TradeNotBeneficial.message(), "Trade is not beneficial to the user");
    assert_eq!(TutorialError::InvariantViolated.message(), "Invariant does not hold");
    assert_eq!(TutorialError::ArithmeticOverflow.message(), "Fixed-point arithmetic overflow");
    assert_eq!(TutorialError::DivisionByZero.message(), "Fixed-point division by zero");
}

#[test]
fn errors_compare_by_kind() {
    assert_eq!(TutorialError::OutputTooSmall, TutorialError::OutputTooSmall);
    assert_ne!(TutorialError::ArithmeticOverflow, TutorialError::DivisionByZero);
}

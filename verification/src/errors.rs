use vstd::prelude::*;

verus! {

/// The reasons for which the engine refuses a request. Each is terminal for the
/// request that met it: nothing is retried, and no state is changed.
#[derive(Clone, Copy, Debug, PartialEq, Eq, Structural)]
pub enum TutorialError {
    /// A fee or slippage bound lies outside its permitted range.
    InvalidConfiguration,
    /// The estimated price impact exceeds the maximum allowed slippage.
    PriceImpactTooHigh,
    /// The output is below the minimum that the trader asked for.
    OutputTooSmall,
    /// The output is not worth more than the input plus its fee.
    TradeNotBeneficial,
    /// The product of the reserves went down across a swap.
    InvariantViolated,
    /// A fixed-point operation left the representable range.
    ArithmeticOverflow,
    /// A fixed-point division had a zero divisor.
    DivisionByZero,
}

impl TutorialError {
    /// The text shown for each error.
    pub open spec fn spec_message(self) -> Seq<char> {
        match self {
            TutorialError::InvalidConfiguration => "Invalid fee or slippage configuration"@,
            TutorialError::PriceImpactTooHigh => "Price impact is too high"@,
            TutorialError::OutputTooSmall => "Output is below the minimum expected"@,
            TutorialError::TradeNotBeneficial => "Trade is not beneficial to the user"@,
            TutorialError::InvariantViolated => "Invariant does not hold"@,
            TutorialError::ArithmeticOverflow => "Fixed-point arithmetic overflow"@,
            TutorialError::DivisionByZero => "Fixed-point division by zero"@,
        }
    }

    /// Returns the text shown for this error.
    pub fn message(&self) -> (text: &'static str)
        ensures
            text@ == self.spec_message(),
    {
        match self {
            TutorialError::InvalidConfiguration => "Invalid fee or slippage configuration",
            TutorialError::PriceImpactTooHigh => "Price impact is too high",
            TutorialError::OutputTooSmall => "Output is below the minimum expected",
            TutorialError::TradeNotBeneficial => "Trade is not beneficial to the user",
            TutorialError::InvariantViolated => "Invariant does not hold",
            TutorialError::ArithmeticOverflow => "Fixed-point arithmetic overflow",
            TutorialError::DivisionByZero => "Fixed-point division by zero",
        }
    }
}

} // verus!

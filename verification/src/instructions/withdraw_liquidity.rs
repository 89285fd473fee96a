use crate::errors::TutorialError;
use crate::fixed_point::{
    lemma_div_raw_whole, lemma_mul_raw_of_wholes, lemma_whole_part_of_quotient, scale, Fixed,
    MAX_AMOUNT,
};
use vstd::prelude::*;

verus! {

/// What a withdrawal takes out of the two reserves of a pool.
#[derive(Clone, Copy, Debug, PartialEq, Eq, Structural)]
pub struct WithdrawalAmounts {
    /// The amount taken from the first reserve.
    pub amount_a: u64,
    /// The amount taken from the second reserve.
    pub amount_b: u64,
}

/// The share of a reserve that a number of liquidity tokens stands for:
/// `amount * reserve / (supply + minimum_liquidity)`, rounded down. It is formed in fixed
/// point, so the amount, the reserve, their product and the whole of the liquidity must
/// have a fixed-point representation, and the whole of the liquidity must not be zero.
pub open spec fn spec_withdrawal_share(
    amount: u64,
    reserve: u64,
    supply: u64,
    minimum_liquidity: u64,
) -> Result<u64, TutorialError> {
    if amount > MAX_AMOUNT || reserve > MAX_AMOUNT || amount * reserve > MAX_AMOUNT {
        Err(TutorialError::ArithmeticOverflow)
    } else if supply + minimum_liquidity > MAX_AMOUNT {
        Err(TutorialError::ArithmeticOverflow)
    } else if supply + minimum_liquidity == 0 {
        Err(TutorialError::DivisionByZero)
    } else {
        Ok(((amount * reserve) / (supply + minimum_liquidity)) as u64)
    }
}

/// What a withdrawal of `amount` liquidity tokens takes out of the two reserves: the
/// share of the first, then the share of the second.
pub open spec fn spec_withdraw_liquidity(
    amount: u64,
    reserve_a: u64,
    reserve_b: u64,
    supply: u64,
    minimum_liquidity: u64,
) -> Result<WithdrawalAmounts, TutorialError> {
    match spec_withdrawal_share(amount, reserve_a, supply, minimum_liquidity) {
        Err(e) => Err(e),
        Ok(amount_a) => match spec_withdrawal_share(amount, reserve_b, supply, minimum_liquidity) {
            Err(e) => Err(e),
            Ok(amount_b) => Ok(WithdrawalAmounts { amount_a, amount_b }),
        },
    }
}

/// The share of one reserve.
fn withdrawal_share(amount: u64, reserve: u64, supply: u64, minimum_liquidity: u64) -> (r: Result<
    u64,
    TutorialError,
>)
    ensures
        r == spec_withdrawal_share(amount, reserve, supply, minimum_liquidity),
{
    proof {
        lemma_mul_raw_of_wholes(amount as int, reserve as int);
        assert(0 <= amount * reserve) by (nonlinear_arith);
        if supply + minimum_liquidity > 0 {
            lemma_div_raw_whole(amount * reserve, supply + minimum_liquidity);
            lemma_whole_part_of_quotient(amount * reserve, supply + minimum_liquidity);
        }
    }
    let product = Fixed::from_u64(amount)?.checked_mul(Fixed::from_u64(reserve)?)?;
    if minimum_liquidity > u64::MAX - supply {
        return Err(TutorialError::ArithmeticOverflow);
    }
    let total = Fixed::from_u64(supply + minimum_liquidity)?;
    let share = product.checked_div(total)?;
    proof {
        vstd::arithmetic::div_mod::lemma_div_multiples_vanish(share@ / scale(), scale());
        assert((share@ / scale()) * scale() == scale() * (share@ / scale())) by (nonlinear_arith);
    }
    share.floor().to_u64()
}

/// Computes what a withdrawal of `amount` liquidity tokens takes out of the two reserves
/// of a pool, given the supply of liquidity tokens and the part of the liquidity that
/// stays locked: of each reserve `amount * reserve / (supply + minimum_liquidity)`,
/// rounded down. Moving the amounts and burning the tokens is left to the caller.
pub fn withdraw_liquidity(
    amount: u64,
    reserve_a: u64,
    reserve_b: u64,
    supply: u64,
    minimum_liquidity: u64,
) -> (r: Result<WithdrawalAmounts, TutorialError>)
    ensures
        r == spec_withdraw_liquidity(amount, reserve_a, reserve_b, supply, minimum_liquidity),
{
    let amount_a = withdrawal_share(amount, reserve_a, supply, minimum_liquidity)?;
    let amount_b = withdrawal_share(amount, reserve_b, supply, minimum_liquidity)?;
    Ok(WithdrawalAmounts { amount_a, amount_b })
}

} // verus!

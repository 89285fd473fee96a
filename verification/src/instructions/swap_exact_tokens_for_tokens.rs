use crate::errors::TutorialError;
use crate::fixed_point::{
    lemma_div_raw_whole, lemma_mul_raw_of_wholes, lemma_whole_part_of_quotient, scale, Fixed,
    MAX_AMOUNT,
};
use crate::models::fee_strategy::{FeeCalculator, FeeStrategy, BPS_DENOMINATOR};
use crate::models::price_impact::PriceImpactCalculator;
use crate::models::volatility::{VolatilityConfig, VolatilityTracker};
use crate::state::Amm;
use vstd::prelude::*;

verus! {

/// The balances that a swap reads: what the trader owns and what the pool holds of
/// each token.
#[derive(Clone, Copy, Debug, PartialEq, Eq, Structural)]
pub struct SwapBalances {
    /// The trader's balance of the first token.
    pub trader_account_a: u64,
    /// The trader's balance of the second token.
    pub trader_account_b: u64,
    /// The pool's reserve of the first token.
    pub pool_account_a: u64,
    /// The pool's reserve of the second token.
    pub pool_account_b: u64,
}

impl SwapBalances {
    /// The reserve that the trade pays into.
    pub open spec fn reserve_in(self, swap_a: bool) -> u64 {
        if swap_a {
            self.pool_account_a
        } else {
            self.pool_account_b
        }
    }

    /// The reserve that the trade is paid from.
    pub open spec fn reserve_out(self, swap_a: bool) -> u64 {
        if swap_a {
            self.pool_account_b
        } else {
            self.pool_account_a
        }
    }

    /// What the trader owns of the token that the trade pays in.
    pub open spec fn trader_in(self, swap_a: bool) -> u64 {
        if swap_a {
            self.trader_account_a
        } else {
            self.trader_account_b
        }
    }
}

/// An accepted swap: what moves, and what it was computed from.
#[derive(Clone, Copy, Debug, PartialEq, Eq, Structural)]
pub struct SwapAmounts {
    /// The amount that the trader pays into the pool.
    pub input: u64,
    /// The fee rate charged, in basis points.
    pub fee_rate_bps: u16,
    /// The input less the fee.
    pub taxed_input: u64,
    /// The estimate of the price impact that the trade was judged by.
    pub price_impact: Fixed,
    /// The amount that the pool pays out to the trader.
    pub output: u64,
    /// The product of the pool's reserves before the trade.
    pub invariant_before: u128,
}

/// The volatility as the fee engine reads it: the whole part of the tracker's estimate,
/// held within 16 bits.
pub open spec fn spec_volatility_reading(tracker: VolatilityTracker) -> u16 {
    let whole = (tracker.volatility_raw as int) / scale();
    if whole < 0 {
        0
    } else if whole > u16::MAX {
        u16::MAX
    } else {
        whole as u16
    }
}

/// The input less its fee: `input - input * fee_rate_bps / 10000`, the fee rounded down.
pub open spec fn spec_taxed_input(input: u64, fee_rate_bps: u16) -> int {
    input - (input * fee_rate_bps) / (BPS_DENOMINATOR as int)
}

/// The output of the constant-product formula:
/// `taxed_input * reserve_out / (reserve_in + taxed_input)`, rounded down. It is formed
/// in fixed point, so the amounts, the product and the sum must have a fixed-point
/// representation, and the sum must not be zero.
pub open spec fn spec_constant_product_output(
    taxed_input: u64,
    reserve_in: u64,
    reserve_out: u64,
) -> Result<u64, TutorialError> {
    if taxed_input > MAX_AMOUNT || reserve_out > MAX_AMOUNT || taxed_input * reserve_out
        > MAX_AMOUNT {
        Err(TutorialError::ArithmeticOverflow)
    } else if reserve_in > MAX_AMOUNT || reserve_in + taxed_input > MAX_AMOUNT {
        Err(TutorialError::ArithmeticOverflow)
    } else if reserve_in + taxed_input == 0 {
        Err(TutorialError::DivisionByZero)
    } else {
        Ok(((taxed_input * reserve_out) / (reserve_in + taxed_input)) as u64)
    }
}

/// The fee rate of a swap, by the fee policy and the tracker's estimate of the
/// volatility. The amounts must be such as the policy's strategy can work on.
pub open spec fn spec_swap_fee_rate(
    amm: Amm,
    tracker: VolatilityTracker,
    input: u64,
    reserve_in: u64,
) -> Result<u16, TutorialError> {
    if !FeeCalculator::amounts_supported(amm.fee_config, input, reserve_in) {
        Err(TutorialError::ArithmeticOverflow)
    } else {
        Ok(
            FeeCalculator::spec_fee_rate_bps(
                amm.fee_config,
                input,
                reserve_in,
                Some(spec_volatility_reading(tracker)),
            ) as u16,
        )
    }
}

/// A swap up to its adjusted output, before it is held against the trader's minimum:
/// the input, held within what the trader owns; the fee rate and the taxed input; the
/// estimate of the price impact, which the policy must accept; the output of the
/// constant-product formula, adjusted for slippage.
pub open spec fn spec_trade(
    amm: Amm,
    tracker: VolatilityTracker,
    balances: SwapBalances,
    swap_a: bool,
    input_amount: u64,
) -> Result<SwapAmounts, TutorialError> {
    let reserve_in = balances.reserve_in(swap_a);
    let reserve_out = balances.reserve_out(swap_a);
    let input = if input_amount > balances.trader_in(swap_a) {
        balances.trader_in(swap_a)
    } else {
        input_amount
    };
    match spec_swap_fee_rate(amm, tracker, input, reserve_in) {
        Err(e) => Err(e),
        Ok(fee_rate_bps) => {
            let taxed_input = spec_taxed_input(input, fee_rate_bps) as u64;
            match PriceImpactCalculator::spec_price_impact(input, 0, reserve_in, reserve_out) {
                Err(e) => Err(e),
                Ok(price_impact) => if !PriceImpactCalculator::spec_is_price_impact_acceptable(
                    amm.price_impact_config,
                    price_impact,
                ) {
                    Err(TutorialError::PriceImpactTooHigh)
                } else {
                    match spec_constant_product_output(taxed_input, reserve_in, reserve_out) {
                        Err(e) => Err(e),
                        Ok(raw_output) => match PriceImpactCalculator::spec_adjust_output_for_slippage(
                            amm.price_impact_config,
                            raw_output,
                            price_impact,
                        ) {
                            Err(e) => Err(e),
                            Ok(output) => Ok(
                                SwapAmounts {
                                    input,
                                    fee_rate_bps,
                                    taxed_input,
                                    price_impact,
                                    output,
                                    invariant_before: (balances.pool_account_a
                                        * balances.pool_account_b) as u128,
                                },
                            ),
                        },
                    }
                },
            }
        },
    }
}

/// Whether a trade is worth its cost to the trader: its output against its input and
/// the fee rate as a fraction.
pub open spec fn spec_trade_beneficial(trade: SwapAmounts) -> Result<bool, TutorialError> {
    match Fixed::spec_from_u64(trade.input) {
        Err(e) => Err(e),
        Ok(input_value) => match Fixed::spec_from_u64(trade.output) {
            Err(e) => Err(e),
            Ok(output_value) => match Fixed::spec_from_int(
                trade.fee_rate_bps as int,
            ).spec_checked_div(Fixed::spec_from_int(BPS_DENOMINATOR as int)) {
                Err(e) => Err(e),
                Ok(fee) => PriceImpactCalculator::spec_is_trade_beneficial(
                    input_value,
                    output_value,
                    fee,
                ),
            },
        },
    }
}

/// A swap as a whole: the trade, refused where its output is below the trader's minimum
/// or not worth its cost.
pub open spec fn spec_swap(
    amm: Amm,
    tracker: VolatilityTracker,
    balances: SwapBalances,
    swap_a: bool,
    input_amount: u64,
    min_output_amount: u64,
) -> Result<SwapAmounts, TutorialError> {
    match spec_trade(amm, tracker, balances, swap_a, input_amount) {
        Err(e) => Err(e),
        Ok(trade) => if trade.output < min_output_amount {
            Err(TutorialError::OutputTooSmall)
        } else {
            match spec_trade_beneficial(trade) {
                Err(e) => Err(e),
                Ok(beneficial) => if beneficial {
                    Ok(trade)
                } else {
                    Err(TutorialError::TradeNotBeneficial)
                },
            }
        },
    }
}

/// The output of the constant-product formula leaves the product of the reserves no
/// smaller than it was, and so does any smaller output for any larger input.
pub proof fn lemma_product_kept(
    input: u64,
    taxed_input: u64,
    output: u64,
    reserve_in: u64,
    reserve_out: u64,
)
    requires
        taxed_input <= input,
        reserve_in + taxed_input > 0,
        output <= (taxed_input * reserve_out) / (reserve_in + taxed_input),
    ensures
        output <= reserve_out,
        (reserve_in + input) * (reserve_out - output) >= reserve_in * reserve_out,
{
    let sum = reserve_in + taxed_input;
    let product = taxed_input * reserve_out;
    let quotient = product / sum;
    assert(0 <= product) by (nonlinear_arith)
        requires
            product == taxed_input * reserve_out,
    ;
    vstd::arithmetic::div_mod::lemma_fundamental_div_mod(product, sum);
    vstd::arithmetic::div_mod::lemma_mod_bound(product, sum);
    assert(sum * quotient <= product);
    assert(quotient <= reserve_out) by (nonlinear_arith)
        requires
            sum * quotient <= taxed_input * reserve_out,
            0 <= taxed_input <= sum,
            0 < sum,
            0 <= reserve_out,
            0 <= quotient,
    ;
    assert((reserve_in + input) * (reserve_out - output) >= reserve_in * reserve_out)
        by (nonlinear_arith)
        requires
            sum * quotient <= taxed_input * reserve_out,
            sum == reserve_in + taxed_input,
            0 <= taxed_input <= input,
            0 <= output <= quotient,
            quotient <= reserve_out,
            0 <= reserve_in,
    ;
}

/// Every accepted swap keeps the product of the reserves: with the input added to the
/// one reserve and the output taken from the other, the product is at least what it
/// was.
pub proof fn lemma_swap_keeps_invariant(
    amm: Amm,
    tracker: VolatilityTracker,
    balances: SwapBalances,
    swap_a: bool,
    input_amount: u64,
    min_output_amount: u64,
)
    requires
        amm.well_formed(),
        spec_swap(amm, tracker, balances, swap_a, input_amount, min_output_amount).is_ok(),
    ensures
        ({
            let swap = spec_swap(
                amm,
                tracker,
                balances,
                swap_a,
                input_amount,
                min_output_amount,
            ).unwrap();
            let reserve_in = balances.reserve_in(swap_a);
            let reserve_out = balances.reserve_out(swap_a);
            &&& swap.input <= input_amount
            &&& swap.input <= balances.trader_in(swap_a)
            &&& swap.taxed_input <= swap.input
            &&& swap.output >= min_output_amount
            &&& swap.output <= reserve_out
            &&& reserve_in + swap.input <= u64::MAX
            &&& (reserve_in + swap.input) * (reserve_out - swap.output) >= reserve_in
                * reserve_out
        }),
{
    let swap = spec_swap(amm, tracker, balances, swap_a, input_amount, min_output_amount).unwrap();
    let reserve_in = balances.reserve_in(swap_a);
    let reserve_out = balances.reserve_out(swap_a);
    FeeCalculator::lemma_fee_rate_within_bounds(
        amm.fee_config,
        swap.input,
        reserve_in,
        Some(spec_volatility_reading(tracker)),
    );
    lemma_taxed_input_range(swap.input, swap.fee_rate_bps);
    PriceImpactCalculator::lemma_price_impact_estimate_nonnegative(
        swap.input,
        reserve_in,
        reserve_out,
    );
    let raw_output = spec_constant_product_output(swap.taxed_input, reserve_in, reserve_out).unwrap();
    PriceImpactCalculator::lemma_adjusted_output_at_most(
        amm.price_impact_config,
        raw_output,
        swap.price_impact,
    );
    lemma_product_kept(swap.input, swap.taxed_input, swap.output, reserve_in, reserve_out);
}

/// The taxed input lies between nothing and the input.
pub proof fn lemma_taxed_input_range(input: u64, fee_rate_bps: u16)
    requires
        fee_rate_bps <= BPS_DENOMINATOR,
    ensures
        0 <= spec_taxed_input(input, fee_rate_bps) <= input,
{
    let fee = input * fee_rate_bps;
    assert(0 <= fee <= input * 10000) by (nonlinear_arith)
        requires
            fee == input * fee_rate_bps,
            0 <= fee_rate_bps <= 10000,
            0 <= input,
    ;
}

/// The trader's minimum is met by an output that equals it and missed by an output one
/// unit below it: a trade whose output is the minimum is accepted exactly as it would
/// be with no minimum at all, and one whose output is one less than the minimum is
/// refused as too small.
pub proof fn lemma_minimum_output_boundary(
    amm: Amm,
    tracker: VolatilityTracker,
    balances: SwapBalances,
    swap_a: bool,
    input_amount: u64,
)
    requires
        spec_trade(amm, tracker, balances, swap_a, input_amount).is_ok(),
    ensures
        ({
            let output = spec_trade(amm, tracker, balances, swap_a, input_amount).unwrap().output;
            &&& spec_swap(amm, tracker, balances, swap_a, input_amount, output) == spec_swap(
                amm,
                tracker,
                balances,
                swap_a,
                input_amount,
                0,
            )
            &&& spec_swap(amm, tracker, balances, swap_a, input_amount, output)
                != Err::<SwapAmounts, TutorialError>(TutorialError::OutputTooSmall)
            &&& output < u64::MAX ==> spec_swap(
                amm,
                tracker,
                balances,
                swap_a,
                input_amount,
                (output + 1) as u64,
            ) == Err::<SwapAmounts, TutorialError>(TutorialError::OutputTooSmall)
        }),
{
}

/// Reads the tracker's estimate of the volatility as the fee engine takes it: the whole
/// part, held within 16 bits.
pub fn volatility_reading(tracker: &VolatilityTracker) -> (reading: u16)
    ensures
        reading == spec_volatility_reading(*tracker),
{
    let estimate = tracker.get_volatility().floor();
    if estimate.bits < 0 {
        0
    } else {
        let whole: u128 = (estimate.bits as u128) / 0x1_0000_0000_0000_0000u128;
        if whole > u16::MAX as u128 {
            u16::MAX
        } else {
            whole as u16
        }
    }
}

/// Returns the product of a pool's two reserves, the quantity that a swap must not
/// lower.
pub fn reserve_product(pool_account_a: u64, pool_account_b: u64) -> (product: u128)
    ensures
        product == pool_account_a * pool_account_b,
{
    assert(0 <= pool_account_a * pool_account_b <= 0xFFFF_FFFF_FFFF_FFFF * 0xFFFF_FFFF_FFFF_FFFF)
        by (nonlinear_arith);
    (pool_account_a as u128) * (pool_account_b as u128)
}

/// Returns the input less its fee: `input - input * fee_rate_bps / 10000`, the fee
/// rounded down.
pub fn taxed_input(input: u64, fee_rate_bps: u16) -> (taxed: u64)
    requires
        fee_rate_bps <= BPS_DENOMINATOR,
    ensures
        taxed == spec_taxed_input(input, fee_rate_bps),
        taxed <= input,
{
    proof {
        lemma_taxed_input_range(input, fee_rate_bps);
        assert(0 <= input * fee_rate_bps <= input * 10000) by (nonlinear_arith)
            requires
                0 <= fee_rate_bps <= 10000,
                0 <= input,
        ;
    }
    let fee: u128 = (input as u128) * (fee_rate_bps as u128) / (BPS_DENOMINATOR as u128);
    input - (fee as u64)
}

/// Returns the output of the constant-product formula,
/// `taxed_input * reserve_out / (reserve_in + taxed_input)`, rounded down.
pub fn constant_product_output(taxed_input: u64, reserve_in: u64, reserve_out: u64) -> (output:
    Result<u64, TutorialError>)
    ensures
        output == spec_constant_product_output(taxed_input, reserve_in, reserve_out),
{
    proof {
        lemma_mul_raw_of_wholes(taxed_input as int, reserve_out as int);
        assert(0 <= taxed_input * reserve_out) by (nonlinear_arith);
        if reserve_in + taxed_input > 0 {
            lemma_div_raw_whole(taxed_input * reserve_out, reserve_in + taxed_input);
            lemma_whole_part_of_quotient(taxed_input * reserve_out, reserve_in + taxed_input);
        }
        assert((reserve_in + taxed_input) * scale() == reserve_in * scale() + taxed_input
            * scale()) by (nonlinear_arith);
    }
    let taxed = Fixed::from_u64(taxed_input)?;
    let product = taxed.checked_mul(Fixed::from_u64(reserve_out)?)?;
    let sum = Fixed::from_u64(reserve_in)?.checked_add(taxed)?;
    product.checked_div(sum)?.to_u64()
}

/// Quotes a swap of an exact input: what the trader would pay in and what the pool
/// would pay out, before the output is held against any minimum.
///
/// The input is held within what the trader owns. The fee rate comes from the fee
/// policy, which reads the tracker's estimate of the volatility. The price impact is
/// estimated before the output is known, and the quote is refused where the policy does
/// not accept it. The output is that of the constant-product formula on the taxed input,
/// adjusted for slippage.
pub fn quote_swap(
    amm: &Amm,
    tracker: &VolatilityTracker,
    balances: &SwapBalances,
    swap_a: bool,
    input_amount: u64,
) -> (r: Result<SwapAmounts, TutorialError>)
    requires
        amm.well_formed(),
    ensures
        r == spec_trade(*amm, *tracker, *balances, swap_a, input_amount),
{
    let (reserve_in, reserve_out, owned) = if swap_a {
        (balances.pool_account_a, balances.pool_account_b, balances.trader_account_a)
    } else {
        (balances.pool_account_b, balances.pool_account_a, balances.trader_account_b)
    };
    // The trader spends no more than the trader owns.
    let input = if input_amount > owned {
        owned
    } else {
        input_amount
    };
    // The fee, and the input less the fee.
    if amm.fee_config.strategy == FeeStrategy::Dynamic && (input > MAX_AMOUNT || reserve_in
        > MAX_AMOUNT) {
        return Err(TutorialError::ArithmeticOverflow);
    }
    let fee_rate_bps = FeeCalculator::get_fee_rate_bps(
        &amm.fee_config,
        input,
        reserve_in,
        reserve_out,
        Some(volatility_reading(tracker)),
    );
    let taxed = taxed_input(input, fee_rate_bps);
    // The price impact, estimated before the output is known.
    let price_impact = PriceImpactCalculator::calculate_price_impact(
        &amm.price_impact_config,
        input,
        0,
        reserve_in,
        reserve_out,
    )?;
    if !PriceImpactCalculator::is_price_impact_acceptable(&amm.price_impact_config, price_impact) {
        return Err(TutorialError::PriceImpactTooHigh);
    }
    // The output, adjusted for slippage.
    let raw_output = constant_product_output(taxed, reserve_in, reserve_out)?;
    let output = PriceImpactCalculator::adjust_output_for_slippage(
        &amm.price_impact_config,
        raw_output,
        price_impact,
    )?;
    Ok(
        SwapAmounts {
            input,
            fee_rate_bps,
            taxed_input: taxed,
            price_impact,
            output,
            invariant_before: reserve_product(balances.pool_account_a, balances.pool_account_b),
        },
    )
}

/// Computes a swap of an exact input: what the trader pays in and what the pool pays
/// out, or the reason for which the swap is refused. Nothing is moved: the caller moves
/// the amounts, and then settles the swap with `settle_swap`.
///
/// The swap is quoted as by `quote_swap`. It is refused where the output is below the
/// trader's minimum, and where the output is not worth the input and its fee. An output
/// that equals the minimum is not too small. An accepted swap keeps the product of the
/// reserves: with the input added to the one reserve and the output taken from the
/// other, the product is at least what it was.
pub fn swap_exact_tokens_for_tokens(
    amm: &Amm,
    tracker: &VolatilityTracker,
    balances: &SwapBalances,
    swap_a: bool,
    input_amount: u64,
    min_output_amount: u64,
) -> (r: Result<SwapAmounts, TutorialError>)
    requires
        amm.well_formed(),
    ensures
        r == spec_swap(*amm, *tracker, *balances, swap_a, input_amount, min_output_amount),
        r.is_ok() ==> ({
            let swap = r.unwrap();
            let reserve_in = balances.reserve_in(swap_a);
            let reserve_out = balances.reserve_out(swap_a);
            &&& swap.input <= input_amount
            &&& swap.input <= balances.trader_in(swap_a)
            &&& swap.output >= min_output_amount
            &&& swap.output <= reserve_out
            &&& reserve_in + swap.input <= u64::MAX
            &&& (reserve_in + swap.input) * (reserve_out - swap.output) >= reserve_in
                * reserve_out
        }),
{
    proof {
        if spec_swap(*amm, *tracker, *balances, swap_a, input_amount, min_output_amount).is_ok() {
            lemma_swap_keeps_invariant(
                *amm,
                *tracker,
                *balances,
                swap_a,
                input_amount,
                min_output_amount,
            );
        }
    }
    let swap = quote_swap(amm, tracker, balances, swap_a, input_amount)?;
    if swap.output < min_output_amount {
        return Err(TutorialError::OutputTooSmall);
    }
    if !trade_beneficial(&swap)? {
        return Err(TutorialError::TradeNotBeneficial);
    }
    Ok(swap)
}

/// Whether a trade is worth its cost to the trader.
fn trade_beneficial(trade: &SwapAmounts) -> (r: Result<bool, TutorialError>)
    ensures
        r == spec_trade_beneficial(*trade),
{
    let input_value = Fixed::from_u64(trade.input)?;
    let output_value = Fixed::from_u64(trade.output)?;
    let fee = Fixed::from_u16(trade.fee_rate_bps).checked_div(Fixed::from_u16(BPS_DENOMINATOR))?;
    PriceImpactCalculator::is_trade_beneficial(input_value, output_value, fee)
}

/// The price that a settled swap leaves behind: the reserve that was paid from over the
/// reserve that was paid into.
pub open spec fn spec_settled_price(swap_a: bool, pool_account_a: u64, pool_account_b: u64) -> Result<
    Fixed,
    TutorialError,
> {
    if swap_a {
        Fixed::spec_ratio(pool_account_b, pool_account_a)
    } else {
        Fixed::spec_ratio(pool_account_a, pool_account_b)
    }
}

/// Whether `next` and `outcome` are what settling a swap makes of a tracker. A product
/// of the reserves below the one before the swap is refused. Else the price that the
/// swap leaves behind is recorded. Whatever fails leaves the tracker as it was.
pub open spec fn settles_to(
    tracker: VolatilityTracker,
    next: VolatilityTracker,
    outcome: Result<(), TutorialError>,
    invariant_before: u128,
    swap_a: bool,
    pool_account_a: u64,
    pool_account_b: u64,
    timestamp: i64,
    config: VolatilityConfig,
) -> bool {
    if invariant_before > pool_account_a * pool_account_b {
        outcome == Err::<(), TutorialError>(TutorialError::InvariantViolated) && next == tracker
    } else {
        match spec_settled_price(swap_a, pool_account_a, pool_account_b) {
            Err(e) => outcome == Err::<(), TutorialError>(e) && next == tracker,
            Ok(price) => tracker.updates_to(next, outcome, price, timestamp, config),
        }
    }
}

/// Settles a swap once its amounts were moved, given the product of the reserves before
/// the swap and the reserves as they are now. A product that went down is refused; one
/// that went up is accepted, as rounding in favour of the pool. Then the price that the
/// swap leaves behind is recorded in the tracker. Whatever fails leaves the tracker as
/// it was.
pub fn settle_swap(
    tracker: &mut VolatilityTracker,
    invariant_before: u128,
    swap_a: bool,
    pool_account_a: u64,
    pool_account_b: u64,
    timestamp: i64,
    config: &VolatilityConfig,
) -> (r: Result<(), TutorialError>)
    requires
        old(tracker).well_formed(),
        config.well_formed(),
    ensures
        final(tracker).well_formed(),
        settles_to(
            *old(tracker),
            *final(tracker),
            r,
            invariant_before,
            swap_a,
            pool_account_a,
            pool_account_b,
            timestamp,
            *config,
        ),
        r.is_ok() ==> pool_account_a * pool_account_b >= invariant_before,
{
    if invariant_before > reserve_product(pool_account_a, pool_account_b) {
        return Err(TutorialError::InvariantViolated);
    }
    let price = if swap_a {
        Fixed::ratio(pool_account_b, pool_account_a)?
    } else {
        Fixed::ratio(pool_account_a, pool_account_b)?
    };
    tracker.update_price_sample(price, timestamp, config)
}

} // verus!

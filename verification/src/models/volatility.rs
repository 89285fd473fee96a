use crate::errors::TutorialError;
use crate::fixed_point::{
    div_raw, is_sqrt_raw, lemma_mul_raw_nonnegative, lemma_mul_raw_whole, lemma_sqrt_raw_exists,
    lemma_sqrt_raw_unique, mul_raw, scale, sqrt_raw, Fixed,
};
use crate::logarithm::ln_raw;
use vstd::prelude::*;

verus! {

/// The number of price samples that a tracker holds.
pub const MAX_SAMPLES: usize = 24;

/// The number of samples in a year, one being taken each hour.
pub const PERIODS_PER_YEAR: u16 = 8760;

/// The policy on volatility tracking and on compensation for impermanent loss.
#[derive(Clone, Copy, Debug, PartialEq, Eq, Structural)]
pub struct VolatilityConfig {
    /// Whether prices are tracked.
    pub enabled: bool,
    /// The strength of the protection, in thousandths.
    pub protection_factor: u16,
    /// The decay of the estimate per period, in thousandths.
    pub decay_factor: u16,
    /// The least volatility that counts, in thousandths.
    pub min_volatility_threshold: u16,
    /// The number of sample pairs that enter an estimate.
    pub window_size: u8,
    /// The least number of valid pairs for a new estimate.
    pub min_samples: u8,
    /// The weight that a pair loses with each step of lag, in thousandths.
    pub decay_lambda: i64,
    /// The share of an impermanent loss that is compensated, in thousandths.
    pub compensation_factor: i64,
    /// The least time between two compensations, in seconds.
    pub compensation_period: i64,
}

impl Default for VolatilityConfig {
    fn default() -> (r: Self)
        ensures
            r == VolatilityConfig::spec_default(),
            r.well_formed(),
    {
        VolatilityConfig {
            enabled: false,
            protection_factor: 500,
            decay_factor: 950,
            min_volatility_threshold: 100,
            window_size: 24,
            min_samples: 2,
            decay_lambda: 950,
            compensation_factor: 1000,
            compensation_period: 86400,
        }
    }
}

impl VolatilityConfig {
    /// The policy in use where none is given: tracking not enabled, a window of 24
    /// pairs of which 2 must be valid, a decay of 0.95 per step, and full compensation
    /// once a day.
    pub open spec fn spec_default() -> VolatilityConfig {
        VolatilityConfig {
            enabled: false,
            protection_factor: 500,
            decay_factor: 950,
            min_volatility_threshold: 100,
            window_size: 24,
            min_samples: 2,
            decay_lambda: 950,
            compensation_factor: 1000,
            compensation_period: 86400,
        }
    }

    /// The window fits the buffer and can hold the samples asked for:
    /// `min_samples <= window_size <= 24`.
    pub open spec fn well_formed(self) -> bool {
        self.min_samples <= self.window_size <= MAX_SAMPLES
    }

    /// Accepts a policy whose window fits the buffer and can hold the samples asked for,
    /// and refuses any other.
    pub fn validate(&self) -> (r: Result<(), TutorialError>)
        ensures
            self.well_formed() ==> r == Ok::<(), TutorialError>(()),
            !self.well_formed() ==> r == Err::<(), TutorialError>(
                TutorialError::InvalidConfiguration,
            ),
    {
        if self.min_samples <= self.window_size && self.window_size as usize <= MAX_SAMPLES {
            Ok(())
        } else {
            Err(TutorialError::InvalidConfiguration)
        }
    }
}

/// One observation of the price.
#[derive(Clone, Copy, Debug, PartialEq, Eq, Structural)]
pub struct PriceSample {
    /// The observed price.
    pub price: Fixed,
    /// When it was observed, in unix seconds. Zero marks a slot never written.
    pub timestamp: i64,
}

/// A rolling history of the last 24 price samples, with the volatility estimated from it.
#[derive(Clone, Copy, Debug)]
pub struct VolatilityTracker {
    /// The prices of the samples, in raw fixed-point form.
    pub price_samples: [i128; 24],
    /// The timestamps of the samples. Zero marks a slot never written.
    pub timestamps: [i64; 24],
    /// The slot that the next sample is written to.
    pub current_index: u8,
    /// The last estimate of the volatility, in raw fixed-point form.
    pub volatility_raw: i128,
    /// The timestamp of the last sample.
    pub last_updated: i64,
    /// The time of the last compensation.
    pub last_compensated: i64,
}

impl Default for VolatilityTracker {
    fn default() -> (r: Self)
        ensures
            r.is_empty(),
            r.well_formed(),
    {
        VolatilityTracker {
            price_samples: [0i128;24],
            timestamps: [0i64;24],
            current_index: 0,
            volatility_raw: 0,
            last_updated: 0,
            last_compensated: 0,
        }
    }
}

impl VolatilityTracker {
    /// The cursor points into the buffer.
    pub open spec fn well_formed(self) -> bool {
        self.current_index < MAX_SAMPLES
    }

    /// Nothing was recorded yet: every slot and every field is zero.
    pub open spec fn is_empty(self) -> bool {
        &&& forall|i: int| 0 <= i < MAX_SAMPLES ==> self.price_samples[i] == 0
        &&& forall|i: int| 0 <= i < MAX_SAMPLES ==> self.timestamps[i] == 0
        &&& self.current_index == 0
        &&& self.volatility_raw == 0
        &&& self.last_updated == 0
        &&& self.last_compensated == 0
    }

    /// The slot of the sample recorded `lag` steps before the latest one, the latest
    /// being at lag zero, just behind the cursor.
    pub open spec fn spec_slot(self, lag: int) -> int {
        (self.current_index + MAX_SAMPLES - 1 - lag) % (MAX_SAMPLES as int)
    }

    /// The sample held in a slot.
    pub open spec fn spec_sample(self, slot: int) -> PriceSample {
        PriceSample {
            price: Fixed { bits: self.price_samples[slot] },
            timestamp: self.timestamps[slot],
        }
    }

    /// Whether the sample at a lag and the one recorded before it can give a return:
    /// both slots were written, and both prices are positive.
    pub open spec fn spec_pair_valid(self, lag: int) -> bool {
        let later = self.spec_sample(self.spec_slot(lag));
        let earlier = self.spec_sample(self.spec_slot(lag + 1));
        &&& later.timestamp != 0
        &&& earlier.timestamp != 0
        &&& later.price@ > 0
        &&& earlier.price@ > 0
    }

    /// The logarithmic return from one positive price to the next:
    /// `ln(price / previous)`. A ratio too small to tell from zero has no logarithm.
    pub open spec fn spec_log_return(price: Fixed, previous: Fixed) -> Result<Fixed, TutorialError> {
        match price.spec_checked_div(previous) {
            Err(e) => Err(e),
            Ok(ratio) => if ratio@ <= 0 {
                Err(TutorialError::ArithmeticOverflow)
            } else {
                Ok(Fixed { bits: ln_raw(ratio@) as i128 })
            },
        }
    }

    /// The weight of a pair at a lag: the decay multiplied by itself `lag` times, each
    /// product rounded down.
    pub open spec fn spec_decay_weight(decay: Fixed, lag: nat) -> Result<Fixed, TutorialError>
        decreases lag,
    {
        if lag == 0 {
            Ok(Fixed::one())
        } else {
            match Self::spec_decay_weight(decay, (lag - 1) as nat) {
                Err(e) => Err(e),
                Ok(weight) => weight.spec_checked_mul(decay),
            }
        }
    }

    /// The decay per step of lag: `decay_lambda / 1000`.
    pub open spec fn spec_decay(config: VolatilityConfig) -> Result<Fixed, TutorialError> {
        Fixed::spec_from_int(config.decay_lambda as int).spec_checked_div(
            Fixed::spec_from_int(1000),
        )
    }

    /// What the pair at a lag adds to the sum: its squared logarithmic return, weighted
    /// by the decay for its lag.
    pub open spec fn spec_weighted_square(self, config: VolatilityConfig, lag: nat) -> Result<
        Fixed,
        TutorialError,
    > {
        let later = self.spec_sample(self.spec_slot(lag as int));
        let earlier = self.spec_sample(self.spec_slot(lag as int + 1));
        match Self::spec_log_return(later.price, earlier.price) {
            Err(e) => Err(e),
            Ok(log_return) => match Self::spec_decay(config) {
                Err(e) => Err(e),
                Ok(decay) => match Self::spec_decay_weight(decay, lag) {
                    Err(e) => Err(e),
                    Ok(weight) => match log_return.spec_checked_mul(log_return) {
                        Err(e) => Err(e),
                        Ok(square) => square.spec_checked_mul(weight),
                    },
                },
            },
        }
    }

    /// The sum of the weighted squared returns of the valid pairs among the first `lags`
    /// lags, with the number of those pairs.
    pub open spec fn spec_window_sum(self, config: VolatilityConfig, lags: nat) -> Result<
        (Fixed, nat),
        TutorialError,
    >
        decreases lags,
    {
        if lags == 0 {
            Ok((Fixed::zero(), 0nat))
        } else {
            match self.spec_window_sum(config, (lags - 1) as nat) {
                Err(e) => Err(e),
                Ok((sum, count)) => if self.spec_pair_valid(lags - 1) {
                    match self.spec_weighted_square(config, (lags - 1) as nat) {
                        Err(e) => Err(e),
                        Ok(term) => match sum.spec_checked_add(term) {
                            Err(e) => Err(e),
                            Ok(total) => Ok((total, count + 1)),
                        },
                    }
                } else {
                    Ok((sum, count))
                },
            }
        }
    }

    /// The annualized volatility from a sum over `count` pairs: the square root of the
    /// mean, times the square root of the number of periods in a year. The mean must not
    /// be negative.
    pub open spec fn spec_annualized(sum: Fixed, count: nat) -> Result<Fixed, TutorialError> {
        match sum.spec_checked_div(Fixed::spec_from_int(count as int)) {
            Err(e) => Err(e),
            Ok(mean) => if mean@ < 0 {
                Err(TutorialError::ArithmeticOverflow)
            } else {
                mean.spec_sqrt().spec_checked_mul(
                    Fixed::spec_from_int(PERIODS_PER_YEAR as int).spec_sqrt(),
                )
            },
        }
    }

    /// The estimate from the current window: the annualized volatility where the window
    /// holds enough valid pairs, and the estimate held so far where it does not.
    pub open spec fn spec_volatility(self, config: VolatilityConfig) -> Result<
        Fixed,
        TutorialError,
    > {
        match self.spec_window_sum(config, config.window_size as nat) {
            Err(e) => Err(e),
            Ok((sum, count)) => if count >= config.min_samples {
                Self::spec_annualized(sum, count)
            } else {
                Ok(Fixed { bits: self.volatility_raw })
            },
        }
    }

    /// The estimate that goes with a new sample: recomputed from the window where the
    /// latest slot was written before, and the estimate held so far where it was not.
    pub open spec fn spec_next_volatility(self, config: VolatilityConfig) -> Result<
        Fixed,
        TutorialError,
    > {
        if self.timestamps[self.spec_slot(0)] != 0 {
            self.spec_volatility(config)
        } else {
            Ok(Fixed { bits: self.volatility_raw })
        }
    }

    /// Whether `next` is this tracker after a sample was recorded with the given
    /// estimate: the sample stands at the cursor, the cursor has moved on by one slot,
    /// wrapping at the end of the buffer, and all other samples are as they were.
    pub open spec fn records(
        self,
        next: VolatilityTracker,
        price: Fixed,
        timestamp: i64,
        volatility: Fixed,
    ) -> bool {
        &&& next.price_samples@ == self.price_samples@.update(
            self.current_index as int,
            price.bits,
        )
        &&& next.timestamps@ == self.timestamps@.update(self.current_index as int, timestamp)
        &&& next.current_index == (self.current_index + 1) % (MAX_SAMPLES as int)
        &&& next.volatility_raw == volatility.bits
        &&& next.last_updated == timestamp
        &&& next.last_compensated == self.last_compensated
    }

    /// Whether `next` and `outcome` are what recording a sample makes of this tracker.
    /// Where tracking is not enabled, nothing changes. Where the estimate that goes with
    /// the sample fails, its error comes back and nothing changes. Else the sample is
    /// recorded with that estimate.
    pub open spec fn updates_to(
        self,
        next: VolatilityTracker,
        outcome: Result<(), TutorialError>,
        price: Fixed,
        timestamp: i64,
        config: VolatilityConfig,
    ) -> bool {
        if !config.enabled {
            outcome.is_ok() && next == self
        } else {
            match self.spec_next_volatility(config) {
                Ok(volatility) => outcome.is_ok() && self.records(
                    next,
                    price,
                    timestamp,
                    volatility,
                ),
                Err(e) => outcome == Err::<(), TutorialError>(e) && next == self,
            }
        }
    }

    /// An annualized volatility is never negative.
    pub proof fn lemma_annualized_nonnegative(sum: Fixed, count: nat)
        requires
            Self::spec_annualized(sum, count).is_ok(),
        ensures
            Self::spec_annualized(sum, count).unwrap()@ >= 0,
    {
        let mean = sum.spec_checked_div(Fixed::spec_from_int(count as int)).unwrap();
        let year = Fixed::spec_from_int(PERIODS_PER_YEAR as int);
        lemma_sqrt_raw_exists(mean@);
        lemma_sqrt_raw_exists(year@);
        lemma_mul_raw_nonnegative(sqrt_raw(mean@), sqrt_raw(year@));
    }

    /// Once the sum over some lags has failed, the sum over more lags fails alike.
    proof fn lemma_window_sum_error_stays(
        self,
        config: VolatilityConfig,
        failed: nat,
        lags: nat,
    )
        requires
            failed <= lags,
            self.spec_window_sum(config, failed).is_err(),
        ensures
            self.spec_window_sum(config, lags) == self.spec_window_sum(config, failed),
        decreases lags,
    {
        if failed < lags {
            self.lemma_window_sum_error_stays(config, failed, (lags - 1) as nat);
        }
    }

    /// Returns the last estimate of the volatility, as it was stored.
    pub fn get_volatility(&self) -> (v: Fixed)
        ensures
            v.bits == self.volatility_raw,
    {
        Fixed::from_bits(self.volatility_raw)
    }

    /// Returns the sample held in a slot of the buffer.
    pub fn sample(&self, slot: usize) -> (s: PriceSample)
        requires
            slot < MAX_SAMPLES,
        ensures
            s == self.spec_sample(slot as int),
    {
        PriceSample {
            price: Fixed::from_bits(self.price_samples[slot]),
            timestamp: self.timestamps[slot],
        }
    }

    /// The logarithmic return from one positive price to the next.
    fn log_return(price: Fixed, previous: Fixed) -> (r: Result<Fixed, TutorialError>)
        ensures
            r == Self::spec_log_return(price, previous),
    {
        let ratio = price.checked_div(previous)?;
        if ratio.bits <= 0 {
            return Err(TutorialError::ArithmeticOverflow);
        }
        Ok(ratio.ln())
    }

    /// The weight of a pair at a lag, by repeated multiplication.
    fn decay_weight(decay: Fixed, lag: usize) -> (r: Result<Fixed, TutorialError>)
        ensures
            r == Self::spec_decay_weight(decay, lag as nat),
    {
        let mut weight = Fixed::one();
        let mut step: usize = 0;
        while step < lag
            invariant
                step <= lag,
                Self::spec_decay_weight(decay, step as nat) == Ok::<Fixed, TutorialError>(weight),
            decreases lag - step,
        {
            match weight.checked_mul(decay) {
                Ok(next) => {
                    weight = next;
                },
                Err(e) => {
                    proof {
                        Self::lemma_decay_weight_error_stays(decay, (step + 1) as nat, lag as nat);
                    }
                    return Err(e);
                },
            }
            step = step + 1;
        }
        Ok(weight)
    }

    /// Once the weight at some lag has failed, the weight at a greater lag fails alike.
    proof fn lemma_decay_weight_error_stays(decay: Fixed, failed: nat, lag: nat)
        requires
            failed <= lag,
            Self::spec_decay_weight(decay, failed).is_err(),
        ensures
            Self::spec_decay_weight(decay, lag) == Self::spec_decay_weight(decay, failed),
        decreases lag,
    {
        if failed < lag {
            Self::lemma_decay_weight_error_stays(decay, failed, (lag - 1) as nat);
        }
    }

    /// What the pair at a lag adds to the sum.
    fn weighted_square(&self, config: &VolatilityConfig, lag: usize) -> (r: Result<
        Fixed,
        TutorialError,
    >)
        requires
            self.well_formed(),
            lag < MAX_SAMPLES,
        ensures
            r == self.spec_weighted_square(*config, lag as nat),
    {
        let slot = (self.current_index as usize + MAX_SAMPLES - 1 - lag) % MAX_SAMPLES;
        let before = (slot + MAX_SAMPLES - 1) % MAX_SAMPLES;
        let log_return = Self::log_return(
            Fixed::from_bits(self.price_samples[slot]),
            Fixed::from_bits(self.price_samples[before]),
        )?;
        let decay = Fixed::from_i64(config.decay_lambda).checked_div(Fixed::from_u16(1000))?;
        let weight = Self::decay_weight(decay, lag)?;
        let square = log_return.checked_mul(log_return)?;
        square.checked_mul(weight)
    }

    /// Whether the sample at a lag and the one before it can give a return.
    fn pair_valid(&self, lag: usize) -> (valid: bool)
        requires
            self.well_formed(),
            lag < MAX_SAMPLES,
        ensures
            valid == self.spec_pair_valid(lag as int),
    {
        let slot = (self.current_index as usize + MAX_SAMPLES - 1 - lag) % MAX_SAMPLES;
        let before = (slot + MAX_SAMPLES - 1) % MAX_SAMPLES;
        self.timestamps[slot] != 0 && self.timestamps[before] != 0 && self.price_samples[slot] > 0
            && self.price_samples[before] > 0
    }

    /// The estimate from the current window. Nothing is stored: the caller stores the
    /// estimate together with the sample that brought it about.
    fn calculate_volatility(&self, config: &VolatilityConfig) -> (r: Result<Fixed, TutorialError>)
        requires
            self.well_formed(),
            config.well_formed(),
        ensures
            r == self.spec_volatility(*config),
            r.is_ok() && self.volatility_raw >= 0 ==> r.unwrap()@ >= 0,
    {
        let mut sum = Fixed::zero();
        let mut valid_samples: u8 = 0;
        let mut lag: usize = 0;
        let window = config.window_size as usize;
        while lag < window
            invariant
                lag <= window <= MAX_SAMPLES,
                window == config.window_size,
                self.well_formed(),
                valid_samples <= lag,
                self.spec_window_sum(*config, lag as nat) == Ok::<(Fixed, nat), TutorialError>(
                    (sum, valid_samples as nat),
                ),
            decreases window - lag,
        {
            if self.pair_valid(lag) {
                let added = match self.weighted_square(config, lag) {
                    Ok(term) => sum.checked_add(term),
                    Err(e) => Err(e),
                };
                match added {
                    Ok(total) => {
                        sum = total;
                        valid_samples = valid_samples + 1;
                    },
                    Err(e) => {
                        proof {
                            self.lemma_window_sum_error_stays(
                                *config,
                                (lag + 1) as nat,
                                window as nat,
                            );
                        }
                        return Err(e);
                    },
                }
            }
            lag = lag + 1;
        }
        if valid_samples >= config.min_samples {
            let mean = sum.checked_div(Fixed::from_u16(valid_samples as u16))?;
            if mean.bits < 0 {
                return Err(TutorialError::ArithmeticOverflow);
            }
            proof {
                if Self::spec_annualized(sum, valid_samples as nat).is_ok() {
                    Self::lemma_annualized_nonnegative(sum, valid_samples as nat);
                }
            }
            mean.sqrt().checked_mul(Fixed::from_u16(PERIODS_PER_YEAR).sqrt())
        } else {
            Ok(Fixed::from_bits(self.volatility_raw))
        }
    }

    /// Records a price sample. Nothing happens where tracking is not enabled. Else, where
    /// the latest slot was written before, the volatility is first estimated anew from
    /// the window as it stands; then the sample is written at the cursor, over the
    /// oldest one once the buffer has wrapped, and the cursor moves on. Where the
    /// estimate fails the tracker is left as it was.
    pub fn update_price_sample(
        &mut self,
        current_price: Fixed,
        timestamp: i64,
        config: &VolatilityConfig,
    ) -> (r: Result<(), TutorialError>)
        requires
            old(self).well_formed(),
            config.well_formed(),
        ensures
            final(self).well_formed(),
            old(self).updates_to(*final(self), r, current_price, timestamp, *config),
            old(self).volatility_raw >= 0 ==> final(self).volatility_raw >= 0,
    {
        if !config.enabled {
            return Ok(());
        }
        let previous = if self.current_index == 0 {
            MAX_SAMPLES - 1
        } else {
            (self.current_index - 1) as usize
        };
        let volatility = if self.timestamps[previous] != 0 {
            self.calculate_volatility(config)?
        } else {
            Fixed::from_bits(self.volatility_raw)
        };
        let cursor = self.current_index as usize;
        self.price_samples[cursor] = current_price.to_bits();
        self.timestamps[cursor] = timestamp;
        self.current_index = ((cursor + 1) % MAX_SAMPLES) as u8;
        self.volatility_raw = volatility.to_bits();
        self.last_updated = timestamp;
        Ok(())
    }

    /// The impermanent loss of a position as a share of its value:
    /// `|2 * sqrt(r) / (1 + r) - 1|` for the price ratio `r = current / initial`, and
    /// zero where a price is not positive.
    pub open spec fn spec_estimate_impermanent_loss(
        initial_price: Fixed,
        current_price: Fixed,
    ) -> Result<Fixed, TutorialError> {
        if initial_price@ <= 0 || current_price@ <= 0 {
            Ok(Fixed::zero())
        } else {
            match current_price.spec_checked_div(initial_price) {
                Err(e) => Err(e),
                Ok(ratio) => match Fixed::spec_from_int(2).spec_checked_mul(ratio.spec_sqrt()) {
                    Err(e) => Err(e),
                    Ok(doubled) => match Fixed::one().spec_checked_add(ratio) {
                        Err(e) => Err(e),
                        Ok(denominator) => match doubled.spec_checked_div(denominator) {
                            Err(e) => Err(e),
                            Ok(holding) => match holding.spec_checked_sub(Fixed::one()) {
                                Err(e) => Err(e),
                                Ok(loss) => loss.spec_checked_abs(),
                            },
                        },
                    },
                },
            }
        }
    }

    /// Whether a compensation is due at `now`: tracking is enabled and the compensation
    /// period has passed since the last one.
    pub open spec fn spec_compensation_due(self, config: VolatilityConfig, now: i64) -> bool {
        config.enabled && now - self.last_compensated >= config.compensation_period
    }

    /// The compensation for an impermanent loss: the loss as a share, times
    /// `compensation_factor / 1000`, times the value of the position, rounded down to a
    /// whole amount; zero where none is due.
    pub open spec fn spec_il_compensation(
        self,
        initial_price: Fixed,
        current_price: Fixed,
        liquidity_value: u64,
        config: VolatilityConfig,
        now: i64,
    ) -> Result<u64, TutorialError> {
        if !self.spec_compensation_due(config, now) {
            Ok(0u64)
        } else {
            match Self::spec_estimate_impermanent_loss(initial_price, current_price) {
                Err(e) => Err(e),
                Ok(loss) => match Fixed::spec_from_int(
                    config.compensation_factor as int,
                ).spec_checked_div(Fixed::spec_from_int(1000)) {
                    Err(e) => Err(e),
                    Ok(factor) => match loss.spec_checked_mul(factor) {
                        Err(e) => Err(e),
                        Ok(share) => match Fixed::spec_from_u64(liquidity_value) {
                            Err(e) => Err(e),
                            Ok(value) => match share.spec_checked_mul(value) {
                                Err(e) => Err(e),
                                Ok(amount) => amount.spec_floor().spec_to_u64(),
                            },
                        },
                    },
                },
            }
        }
    }

    /// A price that has not moved leaves no impermanent loss.
    pub proof fn lemma_no_loss_at_same_price(price: Fixed)
        requires
            price@ > 0,
        ensures
            Self::spec_estimate_impermanent_loss(price, price) == Ok::<Fixed, TutorialError>(
                Fixed::zero(),
            ),
    {
        let s = scale();
        let p = price@;
        // The ratio of a price to itself is one.
        vstd::arithmetic::div_mod::lemma_div_multiples_vanish(s, p);
        assert(p * s == s * p) by (nonlinear_arith);
        let ratio = Fixed { bits: s as i128 };
        assert(price.spec_checked_div(price) == Ok::<Fixed, TutorialError>(ratio));
        // The square root of one is one.
        assert(is_sqrt_raw(s, s)) by (nonlinear_arith)
            requires
                s == scale(),
        ;
        lemma_sqrt_raw_unique(s, s, sqrt_raw(s));
        assert(ratio.spec_sqrt() == ratio);
        // Twice one, over one plus one, is one.
        lemma_mul_raw_whole(2 * s, 1);
        assert(mul_raw(2 * s, s) == 2 * s);
        let two = Fixed { bits: (2 * s) as i128 };
        assert(Fixed::spec_from_int(2) == two);
        assert(Fixed::spec_from_int(2).spec_checked_mul(ratio) == Ok::<Fixed, TutorialError>(two));
        assert(Fixed::one().spec_checked_add(ratio) == Ok::<Fixed, TutorialError>(two));
        vstd::arithmetic::div_mod::lemma_div_multiples_vanish(s, 2 * s);
        assert(div_raw(2 * s, 2 * s) == s);
        assert(two.spec_checked_div(two) == Ok::<Fixed, TutorialError>(ratio));
    }

    /// Returns the impermanent loss of a position as a share of its value,
    /// `|2 * sqrt(r) / (1 + r) - 1|` for the price ratio `r = current / initial`, and zero
    /// where a price is not positive. A price that equals the initial one gives zero.
    pub fn estimate_impermanent_loss(initial_price: Fixed, current_price: Fixed) -> (loss: Result<
        Fixed,
        TutorialError,
    >)
        ensures
            loss == Self::spec_estimate_impermanent_loss(initial_price, current_price),
            initial_price@ > 0 && current_price == initial_price ==> loss == Ok::<
                Fixed,
                TutorialError,
            >(Fixed::zero()),
            loss.is_ok() ==> loss.unwrap()@ >= 0,
    {
        proof {
            if initial_price@ > 0 {
                Self::lemma_no_loss_at_same_price(initial_price);
            }
        }
        if initial_price.bits <= 0 || current_price.bits <= 0 {
            return Ok(Fixed::zero());
        }
        let ratio = current_price.checked_div(initial_price)?;
        proof {
            // The quotient of two positive numbers is not negative.
            assert(current_price@ * scale() >= 0) by (nonlinear_arith)
                requires
                    current_price@ > 0,
                    scale() > 0,
            ;
            vstd::arithmetic::div_mod::lemma_div_pos_is_pos(
                current_price@ * scale(),
                initial_price@,
            );
        }
        let doubled = Fixed::from_u16(2).checked_mul(ratio.sqrt())?;
        let denominator = Fixed::one().checked_add(ratio)?;
        let holding = doubled.checked_div(denominator)?;
        let loss = holding.checked_sub(Fixed::one())?;
        loss.checked_abs()
    }

    /// Returns the compensation for an impermanent loss: zero where tracking is not
    /// enabled or the compensation period has not passed since the last compensation,
    /// else the loss as a share, times `compensation_factor / 1000`, times the value of
    /// the position, rounded down. The tracker is only read: whoever pays the amount out
    /// records the payment with `record_compensation`.
    pub fn calculate_il_compensation(
        &self,
        initial_price: Fixed,
        current_price: Fixed,
        liquidity_value: u64,
        config: &VolatilityConfig,
        current_timestamp: i64,
    ) -> (amount: Result<u64, TutorialError>)
        ensures
            amount == self.spec_il_compensation(
                initial_price,
                current_price,
                liquidity_value,
                *config,
                current_timestamp,
            ),
    {
        if !config.enabled || (current_timestamp as i128) - (self.last_compensated as i128) < (
        config.compensation_period as i128) {
            return Ok(0);
        }
        let loss = Self::estimate_impermanent_loss(initial_price, current_price)?;
        let factor = Fixed::from_i64(config.compensation_factor).checked_div(
            Fixed::from_u16(1000),
        )?;
        let share = loss.checked_mul(factor)?;
        let value = Fixed::from_u64(liquidity_value)?;
        let amount = share.checked_mul(value)?;
        amount.floor().to_u64()
    }

    /// Records that a compensation was paid at `timestamp`, so that the next one is due
    /// only after a full compensation period.
    pub fn record_compensation(&mut self, timestamp: i64)
        ensures
            final(self).last_compensated == timestamp,
            final(self).price_samples == old(self).price_samples,
            final(self).timestamps == old(self).timestamps,
            final(self).current_index == old(self).current_index,
            final(self).volatility_raw == old(self).volatility_raw,
            final(self).last_updated == old(self).last_updated,
    {
        self.last_compensated = timestamp;
    }
}

} // verus!

//! Probability knobs for failure injectors.
//!
//! A [`Probability`] tells a failure injector how often to strike: as a rate between 0 and 1, and
//! as the threshold that a random 64-bit draw has to stay below. Rates are handled as binary64 bit
//! patterns, see [`crate::binary64`].
//!
//! - A [`FixedProbability`] is a rate that never changes.
//! - A [`DynamicProbability`] is a shared knob that can be turned while injectors use it.

use crate::binary64::{clamp_to_unit_interval, is_in_unit_interval, threshold};
use crate::rate::RateCell;
use rand::rngs::SmallRng;
use rand::RngCore;
use std::sync::Arc;
use vstd::prelude::*;

verus! {

/// Source of the probability of a failure.
pub trait Probability {
    /// Whether a read of the rate can return the number with these bits.
    spec fn may_report(&self, bits: u64) -> bool;

    /// Whether a read of the threshold can return `threshold`.
    spec fn may_report_threshold(&self, threshold: u64) -> bool;

    /// Returns the bits of the rate, a number from 0 to 1.
    fn probability(&self) -> (bits: u64)
        ensures
            self.may_report(bits),
            crate::binary64::in_unit_interval(bits),
    ;

    /// Returns the threshold of the rate. A random draw strikes if and only if it is strictly less
    /// than this value.
    fn threshold(&self) -> (result: u64)
        ensures
            self.may_report_threshold(result),
    ;
}

/// A fixed probability, given by any number at all.
///
/// Numbers below 0 and what is not a number count as 0, numbers above 1 as 1.
#[derive(Debug, Clone, Copy, PartialEq, Eq, Structural)]
pub struct FixedProbability {
    /// The bits of the number.
    pub bits: u64,
}

impl Probability for FixedProbability {
    open spec fn may_report(&self, bits: u64) -> bool {
        bits == crate::binary64::clamp_spec(self.bits)
    }

    open spec fn may_report_threshold(&self, threshold: u64) -> bool {
        threshold == crate::binary64::threshold_spec(crate::binary64::clamp_spec(self.bits))
    }

    fn probability(&self) -> (bits: u64) {
        clamp_to_unit_interval(self.bits)
    }

    fn threshold(&self) -> (result: u64) {
        threshold(clamp_to_unit_interval(self.bits))
    }
}

/// What kind of failure an error reports.
#[derive(Debug, Clone, Copy, PartialEq, Eq, Structural)]
pub enum ErrorKind {
    /// A parameter was invalid.
    InvalidInput,
}

/// Error returned when a probability lies outside the range from 0 to 1.
#[derive(Debug, Clone, Copy, PartialEq, Eq, Structural)]
pub struct DynamicProbabilityError;

impl DynamicProbabilityError {
    /// The kind of failure.
    pub fn kind(&self) -> (kind: ErrorKind)
        ensures
            kind == ErrorKind::InvalidInput,
    {
        ErrorKind::InvalidInput
    }

    /// The text that describes the error.
    pub fn message(&self) -> (text: &'static str)
        ensures
            text@ == "probability rate must be 0.0–1.0"@,
    {
        "probability rate must be 0.0–1.0"
    }
}

/// Checks that a rate lies between 0 and 1, both included.
pub fn validate_probability_rate(bits: u64) -> (result: Result<(), DynamicProbabilityError>)
    ensures
        result is Ok <==> crate::binary64::in_unit_interval(bits),
{
    if !is_in_unit_interval(bits) {
        return Err(DynamicProbabilityError);
    }
    Ok(())
}

/// Lock-free, shareable probability knob.
///
/// Holds the bits of the rate and nothing else: the threshold is worked out, in integers, from
/// the rate that is read. So a threshold always belongs to a rate that the knob was set to, and
/// [`DynamicProbability::pair`] gives the two of one moment. Every holder of the handle sees an
/// update.
#[derive(Debug)]
pub struct DynamicProbability {
    probability_rate: RateCell,
}

impl DynamicProbability {
    /// The bits of the rates that the knob is set to at one time or another.
    pub closed spec fn rates(&self) -> Set<u64> {
        self.probability_rate.rates()
    }

    /// The knob is set to the rate with these bits at one time or another.
    pub open spec fn takes(&self, bits: u64) -> bool {
        self.rates().contains(bits)
    }

    /// The threshold of a rate that the knob is set to at one time or another.
    pub open spec fn takes_threshold(&self, threshold: u64) -> bool {
        exists|bits: u64| #[trigger]
            self.takes(bits) && threshold == crate::binary64::threshold_spec(bits)
    }

    /// Creates a knob that starts out at the rate with these bits.
    ///
    /// A rate outside the range from 0 to 1 is refused.
    pub fn new(bits: u64) -> (result: Result<Arc<Self>, DynamicProbabilityError>)
        ensures
            result is Ok <==> crate::binary64::in_unit_interval(bits),
            result matches Ok(knob) ==> knob.takes(bits),
    {
        match validate_probability_rate(bits) {
            Err(error) => Err(error),
            Ok(()) => Ok(Arc::new(Self { probability_rate: RateCell::new(bits) })),
        }
    }

    /// Turns the knob to the rate with these bits.
    ///
    /// A rate outside the range from 0 to 1 is refused.
    pub fn set(&self, bits: u64) -> (result: Result<(), DynamicProbabilityError>)
        ensures
            result is Ok <==> crate::binary64::in_unit_interval(bits),
            result is Ok ==> self.takes(bits),
    {
        match validate_probability_rate(bits) {
            Err(error) => Err(error),
            Ok(()) => {
                self.probability_rate.store(bits);
                Ok(())
            },
        }
    }

    /// Returns the bits of the rate and the threshold that belongs to it, from a single read.
    pub fn pair(&self) -> (pair: (u64, u64))
        ensures
            self.takes(pair.0),
            crate::binary64::in_unit_interval(pair.0),
            pair.1 == crate::binary64::threshold_spec(pair.0),
    {
        let bits: u64 = self.probability_rate.load();
        (bits, threshold(bits))
    }
}

impl Default for DynamicProbability {
    /// A knob that starts out at 0.
    fn default() -> (knob: Self)
        ensures
            knob.takes(crate::binary64::ZERO_BITS),
    {
        proof {
            crate::binary64::lemma_zero_and_one();
        }
        Self { probability_rate: RateCell::new(0) }
    }
}

impl Probability for DynamicProbability {
    open spec fn may_report(&self, bits: u64) -> bool {
        self.takes(bits)
    }

    open spec fn may_report_threshold(&self, threshold: u64) -> bool {
        self.takes_threshold(threshold)
    }

    fn probability(&self) -> (bits: u64) {
        self.pair().0
    }

    fn threshold(&self) -> (result: u64) {
        self.pair().1
    }
}

impl Probability for Arc<DynamicProbability> {
    open spec fn may_report(&self, bits: u64) -> bool {
        self.takes(bits)
    }

    open spec fn may_report_threshold(&self, threshold: u64) -> bool {
        self.takes_threshold(threshold)
    }

    fn probability(&self) -> (bits: u64) {
        self.pair().0
    }

    fn threshold(&self) -> (result: u64) {
        self.pair().1
    }
}

#[verifier::external_type_specification]
#[verifier::external_body]
pub struct ExSmallRng(SmallRng);

/// The number that a generator draws next.
pub uninterp spec fn draw_of(rng: SmallRng) -> u64;

/// A generator once it has drawn its next number.
pub uninterp spec fn after_draw(rng: SmallRng) -> SmallRng;

/// `RngCore::next_u64` of `SmallRng`: the number drawn, and what becomes of the generator, depend
/// on the generator alone.
#[verifier::external_body]
fn next_draw(rng: &mut SmallRng) -> (draw: u64)
    ensures
        draw == draw_of(*old(rng)),
        *final(rng) == after_draw(*old(rng)),
{
    rng.next_u64()
}

/// Whether an injector strikes on `draw`, given whether it has struck before.
pub open spec fn strikes(triggered: bool, threshold: u64, draw: u64) -> bool {
    triggered || draw < threshold
}

/// Decides on one draw: strikes, and stays struck, if and only if the draw is strictly below the
/// threshold.
pub fn trigger_on_draw(triggered: &mut bool, threshold: u64, draw: u64) -> (result: bool)
    ensures
        result == strikes(*old(triggered), threshold, draw),
        result == (*old(triggered) || draw < threshold),
        *final(triggered) == result,
{
    if *triggered {
        return true;
    }
    if draw < threshold {
        *triggered = true;
        true
    } else {
        false
    }
}

/// The generator once an injector has decided: it has drawn one number, unless the injector has
/// struck before or the threshold is 0.
pub open spec fn rng_after_trigger(triggered: bool, threshold: u64, rng: SmallRng) -> SmallRng {
    if triggered || threshold == 0 {
        rng
    } else {
        after_draw(rng)
    }
}

/// Decides whether to strike now, drawing a random number if that takes one.
///
/// Once it has struck it strikes for ever, without a draw. A threshold of 0 never strikes, without
/// a draw either. Otherwise it strikes if and only if the next number of the generator is strictly
/// below the threshold.
pub fn try_trigger<P: Probability>(
    triggered: &mut bool,
    rng: &mut SmallRng,
    prob: &mut P,
) -> (result: bool)
    ensures
        *final(triggered) == result,
        *old(triggered) ==> result && *final(rng) == *old(rng),
        !*old(triggered) ==> exists|threshold: u64| #[trigger]
            old(prob).may_report_threshold(threshold) && result == strikes(
                false,
                threshold,
                draw_of(*old(rng)),
            ) && *final(rng) == rng_after_trigger(false, threshold, *old(rng)) && result == (
            draw_of(*old(rng)) < threshold) && *final(rng) == if threshold == 0 {
                *old(rng)
            } else {
                after_draw(*old(rng))
            },
        *final(prob) == *old(prob),
{
    if *triggered {
        return true;
    }
    let threshold: u64 = prob.threshold();
    assert(old(prob).may_report_threshold(threshold));
    if threshold == 0 {
        return false;
    }
    let draw: u64 = next_draw(rng);
    trigger_on_draw(triggered, threshold, draw)
}

/// What an injector is left with after so many attempts at one threshold: whether it has struck,
/// and the generator.
pub open spec fn after_attempts(
    triggered: bool,
    threshold: u64,
    rng: SmallRng,
    attempts: nat,
) -> (bool, SmallRng)
    decreases attempts,
{
    if attempts == 0 {
        (triggered, rng)
    } else {
        after_attempts(
            strikes(triggered, threshold, draw_of(rng)),
            threshold,
            rng_after_trigger(triggered, threshold, rng),
            (attempts - 1) as nat,
        )
    }
}

/// An injector that has struck draws no more, and one with a threshold of 0 never draws: the
/// generator stays as it is over any number of attempts.
pub proof fn law_no_draw_once_decided(
    triggered: bool,
    threshold: u64,
    rng: SmallRng,
    attempts: nat,
)
    requires
        triggered || threshold == 0,
    ensures
        after_attempts(triggered, threshold, rng, attempts) == (triggered, rng),
    decreases attempts,
{
    if attempts > 0 {
        law_no_draw_once_decided(triggered, threshold, rng, (attempts - 1) as nat);
    }
}

/// An injector that has struck strikes again at every later attempt, whatever is drawn and
/// however the probability is turned meanwhile.
pub proof fn law_strike_is_final(threshold: u64, draw: u64, later_threshold: u64, later_draw: u64)
    requires
        strikes(false, threshold, draw),
    ensures
        strikes(strikes(false, threshold, draw), later_threshold, later_draw),
{
}

/// A rate of 0 never strikes, whatever is drawn.
pub proof fn law_zero_rate_never_strikes(bits: u64, draw: u64)
    requires
        crate::binary64::in_unit_interval(bits),
        crate::binary64::magnitude(bits) == 0,
    ensures
        !strikes(false, crate::binary64::threshold_spec(bits), draw),
{
    crate::binary64::law_threshold_at_the_ends(bits);
}

/// A rate of 1 strikes on every draw but the largest one.
pub proof fn law_full_rate_strikes_below_the_largest_draw(bits: u64, draw: u64)
    requires
        crate::binary64::in_unit_interval(bits),
        crate::binary64::magnitude(bits) == crate::binary64::one(),
    ensures
        strikes(false, crate::binary64::threshold_spec(bits), draw) <==> draw != u64::MAX,
{
    crate::binary64::law_threshold_at_the_ends(bits);
}

/// A larger rate strikes on every draw on which a smaller one does.
pub proof fn law_larger_rate_strikes_more(smaller: u64, larger: u64, draw: u64)
    requires
        crate::binary64::in_unit_interval(smaller),
        crate::binary64::in_unit_interval(larger),
        crate::binary64::magnitude(smaller) <= crate::binary64::magnitude(larger),
    ensures
        strikes(false, crate::binary64::threshold_spec(smaller), draw) ==> strikes(
            false,
            crate::binary64::threshold_spec(larger),
            draw,
        ),
{
    crate::binary64::law_threshold_is_monotone(smaller, larger);
}

/// For a number between 0 and 1 a fixed probability asks for the same share of draws as a knob
/// that is set to that number, and reports the same rate unless it is negative zero.
pub proof fn law_fixed_and_dynamic_agree(fixed: FixedProbability)
    requires
        crate::binary64::in_unit_interval(fixed.bits),
    ensures
        fixed.may_report_threshold(crate::binary64::threshold_spec(fixed.bits)),
        !crate::binary64::is_negative(fixed.bits) ==> fixed.may_report(fixed.bits),
{
    if crate::binary64::is_negative(fixed.bits) {
        crate::binary64::law_threshold_at_the_ends(fixed.bits);
        crate::binary64::lemma_zero_and_one();
        crate::binary64::law_threshold_at_the_ends(crate::binary64::ZERO_BITS);
    }
}

/// The knob is never set to anything but the rate with these bits.
pub open spec fn only_takes(knob: DynamicProbability, bits: u64) -> bool {
    forall|other: u64| #[trigger] knob.takes(other) ==> other == bits
}

/// A knob that is only ever set to one rate reports that rate and the threshold that belongs to
/// it.
pub proof fn law_probability_reads_back(
    knob: DynamicProbability,
    bits: u64,
    read: u64,
    read_threshold: u64,
)
    requires
        only_takes(knob, bits),
        knob.may_report(read),
        knob.may_report_threshold(read_threshold),
    ensures
        read == bits,
        read_threshold == crate::binary64::threshold_spec(read),
{
    assert(knob.takes(read));
}

/// While a knob is turned from one rate to another, a threshold that is read belongs to the one
/// rate or to the other, and a pair that is read is the one with its threshold or the other with
/// its own.
pub proof fn law_readers_see_a_consistent_pair(
    knob: DynamicProbability,
    from: u64,
    to: u64,
    pair: (u64, u64),
    read_threshold: u64,
)
    requires
        forall|bits: u64| #[trigger] knob.takes(bits) ==> bits == from || bits == to,
        knob.takes(pair.0),
        pair.1 == crate::binary64::threshold_spec(pair.0),
        knob.may_report_threshold(read_threshold),
    ensures
        pair == (from, crate::binary64::threshold_spec(from)) || pair == (
            to,
            crate::binary64::threshold_spec(to),
        ),
        read_threshold == crate::binary64::threshold_spec(from) || read_threshold
            == crate::binary64::threshold_spec(to),
{
}

/// A fixed probability reports a rate from 0 to 1 whatever number it is given by.
pub proof fn law_fixed_rate_is_in_range(fixed: FixedProbability, read: u64)
    requires
        fixed.may_report(read),
    ensures
        crate::binary64::in_unit_interval(read),
{
    crate::binary64::lemma_zero_and_one();
}

/// A knob reports a rate from 0 to 1, whatever it is asked to take.
pub proof fn law_dynamic_rate_is_in_range(knob: DynamicProbability, read: u64)
    requires
        knob.may_report(read),
    ensures
        crate::binary64::in_unit_interval(read),
{
    knob.probability_rate.lemma_rates_in_range(read);
}

/// An injector that has not struck strikes if and only if the draw is strictly below the threshold,
/// and one that has struck strikes on every draw.
pub proof fn law_strikes_strictly_below_the_threshold(threshold: u64, draw: u64)
    ensures
        strikes(false, threshold, draw) <==> draw < threshold,
        strikes(true, threshold, draw),
{
}

/// The draws on which an injector strikes that has not struck before.
pub open spec fn striking_draws(threshold: u64) -> Set<int> {
    Set::new(
        |draw: int| 0 <= draw < 0x1_0000_0000_0000_0000 && strikes(false, threshold, draw as u64),
    )
}

/// Of the 2^64 draws exactly as many strike as the threshold says.
pub proof fn law_threshold_counts_the_striking_draws(threshold: u64)
    ensures
        striking_draws(threshold).finite(),
        striking_draws(threshold).len() == threshold,
{
    vstd::set_lib::lemma_int_range(0, threshold as int);
    assert(striking_draws(threshold) =~= vstd::set_lib::set_int_range(0, threshold as int));
}

/// Of the 2^64 draws the share strikes that the rate asks for, to within one draw.
pub proof fn law_rate_is_the_share_of_striking_draws(bits: u64)
    requires
        crate::binary64::in_unit_interval(bits),
    ensures
        ({
            let count = striking_draws(crate::binary64::threshold_spec(bits)).len();
            let exact = crate::binary64::magnitude(bits) * 0x1_0000_0000_0000_0000;
            let whole = crate::binary64::one();
            &&& crate::binary64::magnitude(bits) < whole ==> count * whole <= exact < (count + 1)
                * whole
            &&& crate::binary64::magnitude(bits) == whole ==> count == 0xFFFF_FFFF_FFFF_FFFF
        }),
{
    law_threshold_counts_the_striking_draws(crate::binary64::threshold_spec(bits));
    crate::binary64::law_threshold_is_the_share(bits);
}

/// An attempt draws one number, unless the injector has struck before or the threshold is 0.
pub proof fn law_one_draw_per_attempt(triggered: bool, threshold: u64, rng: SmallRng)
    ensures
        triggered || threshold == 0 ==> rng_after_trigger(triggered, threshold, rng) == rng,
        !triggered && threshold > 0 ==> rng_after_trigger(triggered, threshold, rng)
            == after_draw(rng),
{
}

/// A fixed probability reports the nearest rate between 0 and 1 and 0 for what is no number, and
/// strikes on the share of draws that belongs to the rate it reports.
pub proof fn law_fixed_threshold_belongs_to_its_rate(
    fixed: FixedProbability,
    read: u64,
    read_threshold: u64,
)
    requires
        fixed.may_report(read),
        fixed.may_report_threshold(read_threshold),
    ensures
        fixed.bits <= 0x3FF0_0000_0000_0000 ==> read == fixed.bits,
        0x3FF0_0000_0000_0000 < fixed.bits <= 0x7FF0_0000_0000_0000 ==> read
            == 0x3FF0_0000_0000_0000,
        fixed.bits > 0x7FF0_0000_0000_0000 ==> read == 0,
        striking_draws(read_threshold).len() == crate::binary64::threshold_spec(read),
{
    crate::binary64::law_unit_interval_on_the_bits(fixed.bits);
    crate::binary64::lemma_zero_and_one();
    law_threshold_counts_the_striking_draws(read_threshold);
}

} // verus!

//! Units of measure, and the two quantities that depend on the sample rate.

use vstd::arithmetic::div_mod::{
    lemma_div_is_ordered_by_denominator, lemma_div_nonincreasing,
    lemma_fundamental_div_mod, lemma_mod_bound,
};
use vstd::arithmetic::mul::{lemma_mul_basics, lemma_mul_is_distributive_add};
use vstd::prelude::*;

verus! {

/// An amplitude or a gain: a signed fixed-point number with twenty-four
/// fractional bits, so that `UNIT` stands for one.
pub type Amp = i32;

/// The amplitude one.
pub const UNIT: Amp = 0x100_0000;

/// What a generator gives: an amplitude times a gain, a signed fixed-point
/// number with forty-eight fractional bits.
pub type GenAmp = i64;

/// What a pad gives: an amplitude times a gain times a velocity, a signed
/// fixed-point number with seventy-two fractional bits.
pub type PadAmp = i128;

/// The velocity a pad is triggered with, in the unit of `Amp`.
pub type Velocity = Amp;

/// The master volume, never negative, in the unit of `Amp`.
pub type Volume = u32;

/// A position in a waveform, in turns: a fixed-point number with sixty-four
/// fractional bits. It starts again from zero after 2^64 whole turns.
pub type Phase = u128;

/// One full turn of a waveform.
pub const TURN: Phase = 0x1_0000_0000_0000_0000;

/// A span of time in femtoseconds.
pub type Femtos = u64;

/// The number of femtoseconds in a second.
pub const FEMTOS_PER_SECOND: Femtos = 1_000_000_000_000_000;

/// A frequency in thousandths of a hertz.
pub type Frequency = u32;

/// A position along an envelope: a fraction of the generator's duration
/// with thirty-two fractional bits, so that `WHOLE` stands for the whole
/// duration.
pub type Perc = u64;

/// The position at the end of the duration.
pub const WHOLE: Perc = 0x1_0000_0000;

/// Why a value was refused.
#[derive(Clone, Copy, Debug, PartialEq, Eq, Structural)]
pub enum SynthError {
    /// A sample rate of zero hertz.
    ZeroSampleRate,
    /// A generator whose sound lasts no time at all.
    ZeroDuration,
    /// An envelope without points.
    EmptyEnvelope,
    /// An envelope whose first point is not at time zero.
    EnvelopeStart,
    /// An envelope whose points are not in strictly ascending order of time.
    EnvelopeOrder,
    /// An envelope with a point beyond the end of the duration.
    EnvelopeRange,
    /// More pads than a machine can mix without overflow.
    TooManyPads,
    /// An amplitude ratio of zero.
    ZeroRatio,
}

/// A sample rate in hertz that is known not to be zero.
#[derive(Clone, Copy, Debug)]
pub struct SampleHz {
    hz: u32,
}

impl View for SampleHz {
    type V = int;

    closed spec fn view(&self) -> int {
        self.hz as int
    }
}

impl SampleHz {
    #[verifier::type_invariant]
    pub open spec fn inv(self) -> bool {
        1 <= self@ <= u32::MAX
    }

    /// Accepts every rate but zero.
    pub fn new(hz: u32) -> (r: Result<SampleHz, SynthError>)
        ensures
            hz == 0 ==> r == Err::<SampleHz, SynthError>(SynthError::ZeroSampleRate),
            hz != 0 ==> r is Ok && r->Ok_0@ == hz,
        no_unwind
    {
        if hz == 0 {
            Err(SynthError::ZeroSampleRate)
        } else {
            Ok(SampleHz { hz })
        }
    }

    /// The rate in hertz.
    pub fn hz(&self) -> (r: u32)
        ensures
            r == self@,
            r >= 1,
        no_unwind
    {
        proof {
            use_type_invariant(self);
        }
        self.hz
    }
}

/// The time from one sample to the next at `hz` samples a second, in whole
/// femtoseconds.
pub open spec fn sample_period(hz: int) -> int {
    1_000_000_000_000_000int / hz
}

/// The turns, in the unit of `Phase`, by which a tone of `frequency`
/// millihertz moves from one sample to the next at `hz` samples a second,
/// rounded down.
pub open spec fn phase_step(frequency: int, hz: int) -> int {
    frequency * 0x1_0000_0000_0000_0000int / (1000 * hz)
}

/// A phase moved on by `step`, starting again from zero at 2^64 turns.
pub open spec fn advance(phase: int, step: int) -> int {
    (phase + step) % 0x1_0000_0000_0000_0000_0000_0000_0000_0000int
}

/// The sample period is never nothing, and as many of them as there are
/// samples in a second fall short of the second by less than a femtosecond
/// each.
pub proof fn lemma_period_is_close(hz: int)
    requires
        1 <= hz <= u32::MAX,
    ensures
        232_830 <= sample_period(hz) <= 1_000_000_000_000_000,
        hz * sample_period(hz) <= 1_000_000_000_000_000 < hz * (sample_period(hz) + 1),
{
    let second: int = 1_000_000_000_000_000;
    lemma_div_is_ordered_by_denominator(second, hz, 4_294_967_295);
    lemma_div_nonincreasing(second, hz);
    lemma_fundamental_div_mod(second, hz);
    lemma_mod_bound(second, hz);
    lemma_mul_is_distributive_add(hz, sample_period(hz), 1);
    lemma_mul_basics(hz);
}

/// Computes `advance`.
pub fn wrapped_sum(phase: Phase, step: Phase) -> (r: Phase)
    ensures
        r == advance(phase as int, step as int),
    no_unwind
{
    if phase > u128::MAX - step {
        phase - (u128::MAX - step) - 1
    } else {
        phase + step
    }
}

/// Computes `sample_period`.
pub fn period_of(hz: SampleHz) -> (r: Femtos)
    ensures
        r == sample_period(hz@),
        1 <= r <= FEMTOS_PER_SECOND,
    no_unwind
{
    let h: u32 = hz.hz();
    proof {
        lemma_period_is_close(h as int);
    }
    FEMTOS_PER_SECOND / (h as u64)
}

/// Computes `phase_step`.
pub fn step_of(frequency: Frequency, hz: SampleHz) -> (r: Phase)
    ensures
        r == phase_step(frequency as int, hz@),
    no_unwind
{
    let h: u32 = hz.hz();
    let num: u128 = (frequency as u128) * TURN;
    let den: u128 = 1000 * (h as u128);
    num / den
}

} // verus!

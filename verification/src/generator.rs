//! The two generators: a tone and a noise, each under an amplitude envelope.

use crate::arith::lemma_product_bound;
use crate::envelope::{well_formed, Envelope, Point};
use crate::model::{
    gain, is_draw, is_over, lift, GeneratorView, NoiseView, ToneView, GENERATOR_PEAK,
};
use crate::units::{
    advance, phase_step, step_of, wrapped_sum, Amp, Femtos, Frequency,
    GenAmp, Perc, Phase, SampleHz, SynthError,
};
use crate::waveforms::{sine, sine_at, Noise};
use vstd::arithmetic::div_mod::{lemma_div_is_ordered, lemma_div_multiples_vanish};
use vstd::arithmetic::mul::{lemma_mul_is_commutative, lemma_mul_upper_bound};
use vstd::pervasive::unreached;
use vstd::prelude::*;

verus! {

/// The duration of the sound of a generator made without one: a millisecond.
pub const DEFAULT_DURATION: Femtos = 1_000_000_000_000;

/// The frequency of a tone generator made without one: 32.7 kHz.
pub const DEFAULT_FREQUENCY: Frequency = 32_700_000;

/// The control points of the envelope of a generator made without one: a
/// fast rise from a tenth to one in the first hundredth of the duration,
/// then a fall by steps to zero at its end.
pub open spec fn default_points() -> Seq<Point> {
    seq![
        Point { x: 0, y: 1677722, curve: 0 },
        Point { x: 42949673, y: 16777216, curve: 0 },
        Point { x: 1073741824, y: 13421773, curve: 0 },
        Point { x: 3221225472, y: 3355443, curve: 0 },
        Point { x: 4294967296, y: 0, curve: 0 },
    ]
}

/// The tone generator that is made without parameters.
pub open spec fn default_tone() -> ToneView {
    ToneView {
        duration: DEFAULT_DURATION as int,
        envelope: default_points(),
        phase: 0,
        frequency: DEFAULT_FREQUENCY as int,
    }
}

/// The noise generator that is made without parameters.
pub open spec fn default_noise() -> NoiseView {
    NoiseView { duration: DEFAULT_DURATION as int, envelope: default_points() }
}

/// Makes the envelope of `default_points`.
pub fn default_envelope() -> (env: Envelope)
    ensures
        env@ == default_points(),
        well_formed(env@),
{
    let mut points: Vec<Point> = Vec::new();
    points.push(Point::new(0, 1677722, 0));
    points.push(Point::new(42949673, 16777216, 0));
    points.push(Point::new(1073741824, 13421773, 0));
    points.push(Point::new(3221225472, 3355443, 0));
    points.push(Point::new(4294967296, 0, 0));
    assert(points@ =~= default_points());
    match Envelope::new(points) {
        Ok(env) => env,
        Err(_) => unreached(),
    }
}

/// Computes `gain`: the gain of `env` for a sound of `duration`,
/// `active_time` after its start.
fn gain_at(env: &Envelope, duration: Femtos, active_time: Femtos) -> (r: Option<Amp>)
    requires
        duration > 0,
    ensures
        well_formed(env@),
        r is None <==> is_over(env@, duration as int, active_time as int),
        match r {
            Some(g) => gain(env@, duration as int, active_time as int) == Some(g as int),
            None => gain(env@, duration as int, active_time as int) is None,
        },
    no_unwind
{
    proof {
        use_type_invariant(env);
    }
    let last: Perc = env.end();
    proof {
        lemma_mul_upper_bound(active_time as int, 0xffff_ffff_ffff_ffff, 0x1_0000_0000, 0x1_0000_0000);
        lemma_mul_upper_bound(last as int, 0x1_0000_0000, duration as int, 0xffff_ffff_ffff_ffff);
    }
    let passed: u128 = (active_time as u128) * 0x1_0000_0000;
    let whole: u128 = (last as u128) * (duration as u128);
    if passed > whole {
        None
    } else {
        proof {
            // the rounded position lies at or before the last point
            lemma_div_is_ordered(passed as int, whole as int, duration as int);
            lemma_div_multiples_vanish(last as int, duration as int);
            lemma_mul_is_commutative(last as int, duration as int);
        }
        env.y((passed / (duration as u128)) as u64)
    }
}

/// The phase step that a tone generator keeps from one sample to the next.
#[derive(Clone, Copy, Debug)]
struct Tuning {
    /// The sample rate that `step` was worked out for, zero before the
    /// first sample.
    rate: u32,
    /// The phase step at that rate.
    step: Phase,
}

/// A tone generator: a sine oscillator under an amplitude envelope.
#[derive(Debug)]
pub struct SineGenerator {
    /// The duration of the sound.
    duration: Femtos,
    /// The amplitude envelope of the sound.
    amp_env: Envelope,
    /// The phase of the oscillator.
    phase: Phase,
    /// The frequency of the oscillator.
    frequency: Frequency,
    /// The phase step, kept while the sample rate stays the same.
    tuning: Tuning,
}

impl View for SineGenerator {
    type V = ToneView;

    closed spec fn view(&self) -> ToneView {
        ToneView {
            duration: self.duration as int,
            envelope: self.amp_env@,
            phase: self.phase as int,
            frequency: self.frequency as int,
        }
    }
}

impl SineGenerator {
    #[verifier::type_invariant]
    closed spec fn inv(self) -> bool {
        &&& self@.wf()
        &&& self.tuning.rate != 0 ==> self.tuning.step == phase_step(
            self.frequency as int,
            self.tuning.rate as int,
        )
    }

    /// A tone generator with the default duration, envelope and frequency.
    pub fn new() -> (g: SineGenerator)
        ensures
            g@.wf(),
            g@ == default_tone(),
    {
        SineGenerator {
            duration: DEFAULT_DURATION,
            amp_env: default_envelope(),
            phase: 0,
            frequency: DEFAULT_FREQUENCY,
            tuning: Tuning { rate: 0, step: 0 },
        }
    }

    /// A tone generator of `frequency` millihertz whose sound lasts
    /// `duration` femtoseconds under `amp_env`. A duration of zero is
    /// refused.
    pub fn with(duration: Femtos, amp_env: Envelope, frequency: Frequency) -> (r: Result<
        SineGenerator,
        SynthError,
    >)
        ensures
            duration == 0 ==> r is Err && r->Err_0 == SynthError::ZeroDuration,
            duration > 0 ==> r is Ok && r->Ok_0@.wf() && r->Ok_0@ == (ToneView {
                duration: duration as int,
                envelope: amp_env@,
                phase: 0,
                frequency: frequency as int,
            }),
        no_unwind
    {
        if duration == 0 {
            return Err(SynthError::ZeroDuration);
        }
        proof {
            use_type_invariant(&amp_env);
        }
        Ok(SineGenerator { duration, amp_env, phase: 0, frequency, tuning: Tuning { rate: 0, step: 0 } })
    }

    /// How long the sound lasts.
    pub fn duration(&self) -> (d: Femtos)
        ensures
            d == self@.duration,
            self@.wf(),
        no_unwind
    {
        proof {
            use_type_invariant(self);
        }
        self.duration
    }

    /// The phase of the oscillator.
    pub fn phase(&self) -> (p: Phase)
        ensures
            p == self@.phase,
        no_unwind
    {
        self.phase
    }

    /// The frequency of the oscillator, in millihertz.
    pub fn frequency(&self) -> (f: Frequency)
        ensures
            f == self@.frequency,
        no_unwind
    {
        self.frequency
    }

    /// Whether the phase step that the generator keeps is the one for `hz`
    /// samples a second.
    pub closed spec fn is_tuned(self, hz: int) -> bool {
        self.tuning.rate == hz && self.tuning.step == phase_step(self.frequency as int, hz)
    }

    /// Makes ready for samples at `sample_hz`: the phase step is worked out
    /// when the sample rate is not the one it was last worked out for, and
    /// kept otherwise. What the generator is stays as it was.
    pub fn retune(&mut self, sample_hz: SampleHz)
        ensures
            final(self)@ == old(self)@,
            final(self)@.wf(),
            final(self).is_tuned(sample_hz@),
            old(self).is_tuned(sample_hz@) ==> *final(self) == *old(self),
        no_unwind
    {
        proof {
            use_type_invariant(&*self);
        }
        let rate: u32 = sample_hz.hz();
        if self.tuning.rate != rate {
            self.tuning = Tuning { rate, step: step_of(self.frequency, sample_hz) };
        }
    }

    /// Moves the oscillator on by one sample at `sample_hz` and gives its new
    /// phase.
    pub fn next_phase(&mut self, sample_hz: SampleHz) -> (phase: Phase)
        ensures
            final(self)@ == (ToneView {
                phase: advance(old(self)@.phase, phase_step(old(self)@.frequency, sample_hz@)),
                ..old(self)@
            }),
            phase == final(self)@.phase,
            final(self)@.wf(),
        no_unwind
    {
        self.retune(sample_hz);
        proof {
            use_type_invariant(&*self);
        }
        self.phase = wrapped_sum(self.phase, self.tuning.step);
        self.phase
    }

    /// The gain of the envelope `active_time` after the trigger, or nothing
    /// once the sound is over: at every time past the part of the duration
    /// at which the last control point lies, and at no time before.
    pub fn next_amp_mul(&self, active_time: Femtos) -> (r: Option<Amp>)
        ensures
            self@.wf(),
            r is None <==> is_over(self@.envelope, self@.duration, active_time as int),
            match r {
                Some(g) => gain(self@.envelope, self@.duration, active_time as int) == Some(
                    g as int,
                ),
                None => gain(self@.envelope, self@.duration, active_time as int) is None,
            },
        no_unwind
    {
        proof {
            use_type_invariant(self);
        }
        gain_at(&self.amp_env, self.duration, active_time)
    }

    /// The next amplitude, `active_time` after the trigger, at `sample_hz`:
    /// nothing once the envelope has run out; before that the sine of the
    /// oscillator, moved on by one sample, times the gain of the envelope.
    pub fn next_amp(&mut self, sample_hz: SampleHz, active_time: Femtos) -> (r: Option<GenAmp>)
        ensures
            old(self)@.wf(),
            final(self)@.wf(),
            final(self)@ == old(self)@.next(sample_hz@, active_time as int).0,
            lift(r) == old(self)@.next(sample_hz@, active_time as int).1,
            r is None <==> is_over(old(self)@.envelope, old(self)@.duration, active_time as int),
            r is None ==> final(self)@ == old(self)@,
            r matches Some(a) ==> -GENERATOR_PEAK <= a <= GENERATOR_PEAK,
        no_unwind
    {
        match self.next_amp_mul(active_time) {
            Some(g) => {
                let phase: Phase = self.next_phase(sample_hz);
                let wave: Amp = sine_at(phase);
                proof {
                    lemma_product_bound(wave as int, 0x100_0000, g as int, 0x8000_0000);
                }
                Some((wave as i64) * (g as i64))
            },
            None => None,
        }
    }
}

/// A noise generator: chance under an amplitude envelope.
#[derive(Debug)]
pub struct RandomGenerator {
    /// The duration of the sound.
    duration: Femtos,
    /// The amplitude envelope of the sound.
    amp_env: Envelope,
    /// Where the draws come from. Each generator has its own.
    noise: Noise,
}

impl View for RandomGenerator {
    type V = NoiseView;

    closed spec fn view(&self) -> NoiseView {
        NoiseView { duration: self.duration as int, envelope: self.amp_env@ }
    }
}

impl RandomGenerator {
    #[verifier::type_invariant]
    closed spec fn inv(self) -> bool {
        self@.wf()
    }

    /// A noise generator with the default duration and envelope, whose draws
    /// follow from `seed`.
    pub fn new(seed: u64) -> (g: RandomGenerator)
        ensures
            g@.wf(),
            g@ == default_noise(),
    {
        RandomGenerator {
            duration: DEFAULT_DURATION,
            amp_env: default_envelope(),
            noise: Noise::new(seed),
        }
    }

    /// A noise generator whose sound lasts `duration` femtoseconds under
    /// `amp_env`, and whose draws follow from `seed`. A duration of zero is
    /// refused.
    pub fn with(duration: Femtos, amp_env: Envelope, seed: u64) -> (r: Result<
        RandomGenerator,
        SynthError,
    >)
        ensures
            duration == 0 ==> r is Err && r->Err_0 == SynthError::ZeroDuration,
            duration > 0 ==> r is Ok && r->Ok_0@.wf() && r->Ok_0@ == (NoiseView {
                duration: duration as int,
                envelope: amp_env@,
            }),
    {
        if duration == 0 {
            return Err(SynthError::ZeroDuration);
        }
        proof {
            use_type_invariant(&amp_env);
        }
        Ok(RandomGenerator { duration, amp_env, noise: Noise::new(seed) })
    }

    /// How long the sound lasts.
    pub fn duration(&self) -> (d: Femtos)
        ensures
            d == self@.duration,
            self@.wf(),
        no_unwind
    {
        proof {
            use_type_invariant(self);
        }
        self.duration
    }

    /// The gain of the envelope `active_time` after the trigger, or nothing
    /// once the sound is over: at every time past the part of the duration
    /// at which the last control point lies, and at no time before.
    pub fn next_amp_mul(&self, active_time: Femtos) -> (r: Option<Amp>)
        ensures
            self@.wf(),
            r is None <==> is_over(self@.envelope, self@.duration, active_time as int),
            match r {
                Some(g) => gain(self@.envelope, self@.duration, active_time as int) == Some(
                    g as int,
                ),
                None => gain(self@.envelope, self@.duration, active_time as int) is None,
            },
        no_unwind
    {
        proof {
            use_type_invariant(self);
        }
        gain_at(&self.amp_env, self.duration, active_time)
    }

    /// What the generator gives `active_time` after the trigger where chance
    /// has come up with `draw`: nothing once the envelope has run out, before
    /// that the draw times the gain of the envelope.
    pub fn amp_for(&self, active_time: Femtos, draw: Amp) -> (r: Option<GenAmp>)
        ensures
            lift(r) == self@.next(active_time as int, draw as int),
            r is None <==> is_over(self@.envelope, self@.duration, active_time as int),
            is_draw(draw as int) ==> (r matches Some(a) ==> -GENERATOR_PEAK <= a <= GENERATOR_PEAK),
        no_unwind
    {
        match self.next_amp_mul(active_time) {
            Some(g) => Some(noise_amp(draw, g)),
            None => None,
        }
    }

    /// The next amplitude, `active_time` after the trigger: nothing once the
    /// envelope has run out, before that a fresh draw between minus one and
    /// one times the gain of the envelope. The generator stays as it is but
    /// for the source of its draws.
    pub fn next_amp(&mut self, sample_hz: SampleHz, active_time: Femtos) -> (r: Option<GenAmp>)
        ensures
            old(self)@.wf(),
            final(self)@ == old(self)@,
            r is None <==> is_over(old(self)@.envelope, old(self)@.duration, active_time as int),
            exists|draw: int| is_draw(draw) && lift(r) == old(self)@.next(active_time as int, draw),
            r matches Some(a) ==> -GENERATOR_PEAK <= a <= GENERATOR_PEAK,
        no_unwind
    {
        match self.next_amp_mul(active_time) {
            Some(g) => {
                let draw: Amp = self.noise.draw();
                let amp: GenAmp = noise_amp(draw, g);
                assert(is_draw(draw as int) && lift(Some(amp)) == old(self)@.next(
                    active_time as int,
                    draw as int,
                ));
                Some(amp)
            },
            None => {
                assert(is_draw(0) && lift(None) == old(self)@.next(active_time as int, 0));
                None
            },
        }
    }
}

/// A draw times a gain.
pub fn noise_amp(draw: Amp, gain: Amp) -> (r: GenAmp)
    ensures
        r == draw * gain,
        is_draw(draw as int) ==> -GENERATOR_PEAK <= r <= GENERATOR_PEAK,
    no_unwind
{
    proof {
        lemma_product_bound(draw as int, 0x8000_0000, gain as int, 0x8000_0000);
        if is_draw(draw as int) {
            lemma_product_bound(draw as int, 0x100_0000, gain as int, 0x8000_0000);
        }
    }
    (draw as i64) * (gain as i64)
}

/// The generator of a pad: a tone or a noise.
#[derive(Debug)]
pub enum Generator {
    Tone(SineGenerator),
    Noise(RandomGenerator),
}

impl View for Generator {
    type V = GeneratorView;

    open spec fn view(&self) -> GeneratorView {
        match self {
            Generator::Tone(tone) => GeneratorView::Tone(tone@),
            Generator::Noise(noise) => GeneratorView::Noise(noise@),
        }
    }
}

impl Generator {
    /// Whether the generator is ready for samples at `hz` samples a second:
    /// a tone generator keeps the phase step for that rate; a noise
    /// generator keeps nothing that depends on the rate, and is always
    /// ready.
    pub open spec fn is_tuned(self, hz: int) -> bool {
        match self {
            Generator::Tone(tone) => tone.is_tuned(hz),
            Generator::Noise(_) => true,
        }
    }

    /// Makes ready for samples at `sample_hz`: a tone generator works out
    /// its phase step for that rate, unless it keeps it already. What the
    /// generator is stays as it was, and a generator that was ready is not
    /// touched.
    pub fn retune(&mut self, sample_hz: SampleHz)
        ensures
            final(self)@ == old(self)@,
            final(self).is_tuned(sample_hz@),
            old(self).is_tuned(sample_hz@) ==> *final(self) == *old(self),
        no_unwind
    {
        match self {
            Generator::Tone(tone) => tone.retune(sample_hz),
            Generator::Noise(_) => {},
        }
    }

    /// How long the sound lasts.
    pub fn duration(&self) -> (d: Femtos)
        ensures
            d == self@.duration(),
            self@.wf(),
        no_unwind
    {
        match self {
            Generator::Tone(tone) => tone.duration(),
            Generator::Noise(noise) => noise.duration(),
        }
    }

    /// The next amplitude of either kind, `active_time` after the trigger,
    /// at `sample_hz`. Where chance has a part, the result is what the model
    /// gives for one of the draws that can come.
    pub fn next_amp(&mut self, sample_hz: SampleHz, active_time: Femtos) -> (r: Option<GenAmp>)
        ensures
            old(self)@.wf(),
            final(self)@.wf(),
            exists|draw: int|
                is_draw(draw) && (final(self)@, lift(r)) == old(self)@.next(
                    sample_hz@,
                    active_time as int,
                    draw,
                ),
            r is None <==> is_over(
                old(self)@.envelope(),
                old(self)@.duration(),
                active_time as int,
            ),
            r is None ==> final(self)@ == old(self)@,
            r matches Some(a) ==> -GENERATOR_PEAK <= a <= GENERATOR_PEAK,
        no_unwind
    {
        match self {
            Generator::Tone(tone) => {
                let r = tone.next_amp(sample_hz, active_time);
                assert(is_draw(0) && (final(self)@, lift(r)) == old(self)@.next(
                    sample_hz@,
                    active_time as int,
                    0,
                ));
                r
            },
            Generator::Noise(noise) => {
                let r = noise.next_amp(sample_hz, active_time);
                r
            },
        }
    }
}

} // verus!

//! The machine as mathematics: what a generator, a pad and a machine are,
//! and what one sample does to each.
//!
//! The types here are the views of the executable types, and the functions
//! are what the executable functions are proved to compute. Chance enters
//! in one place only: a noise generator multiplies its gain by a draw, and
//! the draw is an argument here.

use crate::envelope::{eval, well_formed, Point};
use crate::units::{advance, phase_step, sample_period};
use crate::waveforms::sine;
use vstd::arithmetic::mul::lemma_mul_inequality;
use vstd::prelude::*;

verus! {

/// The most pads a machine can hold.
pub const MAX_PADS: usize = 256;

/// The largest magnitude of what a generator gives: one times the largest
/// gain.
pub const GENERATOR_PEAK: i64 = 0x80_0000_0000_0000;

/// The largest magnitude of what a pad gives: `GENERATOR_PEAK` times the
/// largest velocity.
pub const PAD_PEAK: i128 = 0x40_0000_0000_0000_0000_0000;

/// Whether a sound of `duration` under `envelope` is over after
/// `active_time`: the time, as a part of the duration, lies past the last
/// control point. Nothing is rounded in this.
pub open spec fn is_over(envelope: Seq<Point>, duration: int, active_time: int) -> bool {
    active_time * 0x1_0000_0000 > envelope.last().x * duration
}

/// How far along its envelope a sound of `duration` is after `active_time`,
/// rounded down to the unit of positions.
pub open spec fn perc(active_time: int, duration: int) -> int {
    active_time * 0x1_0000_0000 / duration
}

/// The gain of a sound of `duration` after `active_time`: nothing once the
/// sound is over, before that the gain of the envelope at the rounded
/// position.
pub open spec fn gain(envelope: Seq<Point>, duration: int, active_time: int) -> Option<int> {
    if is_over(envelope, duration, active_time) {
        None
    } else {
        eval(envelope, perc(active_time, duration))
    }
}

/// A sound is over at every time past its duration.
pub proof fn lemma_over_past_duration(envelope: Seq<Point>, duration: int, active_time: int)
    requires
        well_formed(envelope),
        0 < duration < active_time,
    ensures
        is_over(envelope, duration, active_time),
        gain(envelope, duration, active_time) is None,
{
    lemma_mul_inequality(duration + 1, active_time, 0x1_0000_0000);
    lemma_mul_inequality(envelope.last().x as int, 0x1_0000_0000, duration);
}

/// Whether `draw` can come out of a noise source: it lies between minus one
/// and one.
pub open spec fn is_draw(draw: int) -> bool {
    -0x100_0000 <= draw <= 0x100_0000
}

/// Whether `draws` holds one draw for each of `n` pads.
pub open spec fn are_draws(draws: Seq<int>, n: int) -> bool {
    &&& draws.len() == n
    &&& forall|i: int| 0 <= i < n ==> is_draw(#[trigger] draws[i])
}

/// An optional machine integer as an optional integer.
pub open spec fn lift(r: Option<i64>) -> Option<int> {
    match r {
        Some(v) => Some(v as int),
        None => None,
    }
}

/// The sum of what the pads give.
pub open spec fn mix(outs: Seq<int>) -> int
    decreases outs.len(),
{
    if outs.len() == 0 {
        0
    } else {
        mix(outs.drop_last()) + outs.last()
    }
}

/// A tone generator: an oscillator under an envelope.
pub struct ToneView {
    /// How long the sound lasts, in femtoseconds.
    pub duration: int,
    /// The control points of the amplitude envelope.
    pub envelope: Seq<Point>,
    /// The phase of the oscillator.
    pub phase: int,
    /// The frequency of the oscillator, in millihertz.
    pub frequency: int,
}

/// A noise generator: chance under an envelope.
pub struct NoiseView {
    /// How long the sound lasts, in femtoseconds.
    pub duration: int,
    /// The control points of the amplitude envelope.
    pub envelope: Seq<Point>,
}

/// Either kind of generator.
pub enum GeneratorView {
    Tone(ToneView),
    Noise(NoiseView),
}

/// A pad.
pub struct PadView {
    /// Whether the pad sounds.
    pub active: bool,
    /// For how long it has sounded, in femtoseconds.
    pub active_time: int,
    /// The velocity of the trigger that made it sound.
    pub vel: int,
    /// The generator that makes its sound.
    pub generator: GeneratorView,
}

/// A machine.
pub struct MachineView {
    /// The master volume.
    pub volume: int,
    /// Whether the output is muted.
    pub is_paused: bool,
    /// The pads, in the order of their numbers.
    pub pads: Seq<PadView>,
}

impl ToneView {
    /// What every tone generator satisfies.
    pub open spec fn wf(self) -> bool {
        &&& 0 < self.duration <= u64::MAX
        &&& well_formed(self.envelope)
        &&& 0 <= self.phase < 0x1_0000_0000_0000_0000_0000_0000_0000_0000int
        &&& 0 <= self.frequency <= u32::MAX
    }

    /// One sample at `hz` samples a second, `active_time` after the trigger.
    /// Where the envelope has run out there is no amplitude and the
    /// oscillator stands still. Otherwise the oscillator moves on first, and
    /// the amplitude is the sine at its new phase times the gain.
    pub open spec fn next(self, hz: int, active_time: int) -> (ToneView, Option<int>) {
        match gain(self.envelope, self.duration, active_time) {
            None => (self, None),
            Some(g) => {
                let phase = advance(self.phase, phase_step(self.frequency, hz));
                (ToneView { phase, ..self }, Some(sine(phase) * g))
            },
        }
    }
}

impl NoiseView {
    /// What every noise generator satisfies.
    pub open spec fn wf(self) -> bool {
        &&& 0 < self.duration <= u64::MAX
        &&& well_formed(self.envelope)
    }

    /// One sample, `active_time` after the trigger: nothing where the
    /// envelope has run out, else `draw` times the gain.
    pub open spec fn next(self, active_time: int, draw: int) -> Option<int> {
        match gain(self.envelope, self.duration, active_time) {
            None => None,
            Some(g) => Some(draw * g),
        }
    }
}

impl GeneratorView {
    /// What every generator satisfies.
    pub open spec fn wf(self) -> bool {
        match self {
            GeneratorView::Tone(tone) => tone.wf(),
            GeneratorView::Noise(noise) => noise.wf(),
        }
    }

    /// How long the sound lasts.
    pub open spec fn duration(self) -> int {
        match self {
            GeneratorView::Tone(tone) => tone.duration,
            GeneratorView::Noise(noise) => noise.duration,
        }
    }

    /// The control points of the amplitude envelope.
    pub open spec fn envelope(self) -> Seq<Point> {
        match self {
            GeneratorView::Tone(tone) => tone.envelope,
            GeneratorView::Noise(noise) => noise.envelope,
        }
    }

    /// One sample of either kind. A tone generator takes no notice of
    /// `draw`, a noise generator none of `hz`.
    pub open spec fn next(self, hz: int, active_time: int, draw: int) -> (
        GeneratorView,
        Option<int>,
    ) {
        match self {
            GeneratorView::Tone(tone) => {
                let (moved, amp) = tone.next(hz, active_time);
                (GeneratorView::Tone(moved), amp)
            },
            GeneratorView::Noise(noise) => (self, noise.next(active_time, draw)),
        }
    }
}

impl PadView {
    /// A pad at rest around `generator`.
    pub open spec fn at_rest(generator: GeneratorView) -> PadView {
        PadView { active: false, active_time: 0, vel: 0, generator }
    }

    /// What every pad satisfies.
    pub open spec fn wf(self) -> bool {
        &&& self.generator.wf()
        &&& 0 <= self.active_time
        &&& self.active ==> !is_over(
            self.generator.envelope(),
            self.generator.duration(),
            self.active_time,
        )
        &&& i32::MIN <= self.vel <= i32::MAX
    }

    /// The pad after a trigger with `vel`: it sounds, from time zero. The
    /// generator is left as it is, the phase of an oscillator included.
    pub open spec fn trigger(self, vel: int) -> PadView {
        PadView { active: true, active_time: 0, vel, ..self }
    }

    /// The pad put to rest.
    pub open spec fn silence(self) -> PadView {
        PadView { active: false, active_time: 0, vel: 0, ..self }
    }

    /// One sample at `hz` samples a second. A pad at rest stays as it is and
    /// gives zero. A pad that sounds grows older by one sample period and
    /// asks its generator at its new age: where that has an amplitude, the
    /// pad gives it times its velocity; where it has none, the pad goes to
    /// rest and gives zero.
    pub open spec fn next(self, hz: int, draw: int) -> (PadView, int) {
        if !self.active {
            (self, 0)
        } else {
            let age = self.active_time + sample_period(hz);
            let (generator, amp) = self.generator.next(hz, age, draw);
            match amp {
                Some(a) => (PadView { active_time: age, generator, ..self }, a * self.vel),
                None => (PadView { generator, ..self }.silence(), 0),
            }
        }
    }
}

impl MachineView {
    /// What every machine satisfies: the volume is not negative, and the
    /// pads are few enough to be mixed.
    pub open spec fn wf(self) -> bool {
        &&& 0 <= self.volume <= u32::MAX
        &&& self.pads.len() <= MAX_PADS
    }

    /// Whether `pad` is the number of a pad. Pads are numbered from one.
    pub open spec fn has_pad(self, pad: int) -> bool {
        1 <= pad <= self.pads.len()
    }

    /// The machine after a trigger of pad number `pad`; the same machine
    /// where there is no such pad.
    pub open spec fn trigger(self, pad: int, vel: int) -> MachineView {
        if self.has_pad(pad) {
            MachineView { pads: self.pads.update(pad - 1, self.pads[pad - 1].trigger(vel)), ..self }
        } else {
            self
        }
    }

    /// The machine with pad number `pad` put to rest; the same machine
    /// where there is no such pad.
    pub open spec fn silence(self, pad: int) -> MachineView {
        if self.has_pad(pad) {
            MachineView { pads: self.pads.update(pad - 1, self.pads[pad - 1].silence()), ..self }
        } else {
            self
        }
    }

    /// The machine with all pads put to rest.
    pub open spec fn stop(self) -> MachineView {
        MachineView { pads: Seq::new(self.pads.len(), |i: int| self.pads[i].silence()), ..self }
    }

    /// What each pad gives in one sample, were the machine not paused.
    pub open spec fn outs(self, hz: int, draws: Seq<int>) -> Seq<int> {
        Seq::new(self.pads.len(), |i: int| self.pads[i].next(hz, draws[i]).1)
    }

    /// One sample at `hz` samples a second. A paused machine stays as it is
    /// and gives zero. Otherwise every pad takes its step, and the machine
    /// gives the sum of what they give, times the volume.
    pub open spec fn next(self, hz: int, draws: Seq<int>) -> (MachineView, int) {
        if self.is_paused {
            (self, 0)
        } else {
            (
                MachineView {
                    pads: Seq::new(self.pads.len(), |i: int| self.pads[i].next(hz, draws[i]).0),
                    ..self
                },
                self.volume * mix(self.outs(hz, draws)),
            )
        }
    }

    /// As many samples as `draws` has entries, each with its own draws: the
    /// machine after the last, and what each gave.
    pub open spec fn run(self, hz: int, draws: Seq<Seq<int>>) -> (MachineView, Seq<int>)
        decreases draws.len(),
    {
        if draws.len() == 0 {
            (self, Seq::empty())
        } else {
            let (before, outs) = self.run(hz, draws.drop_last());
            let (after, out) = before.next(hz, draws.last());
            (after, outs.push(out))
        }
    }
}

} // verus!

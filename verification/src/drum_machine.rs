//! The pads and the machine that mixes them.

use crate::arith::{clamp, lemma_product_bound};
use crate::generator::{default_noise, default_tone, Generator, RandomGenerator, SineGenerator};
use crate::model::{
    are_draws, is_draw, is_over, lemma_over_past_duration, lift, mix, GeneratorView, MachineView, PadView,
    MAX_PADS, PAD_PEAK,
};
use crate::units::{
    period_of, sample_period, Amp, GenAmp, Femtos, PadAmp, SampleHz, SynthError, Velocity, Volume, UNIT,
};
use vstd::prelude::*;

verus! {

/// The number of a pad. Pads are numbered from one.
pub type PadIdx = usize;

/// The seed of the noise pad of a machine made without pads of its own.
pub const DEFAULT_SEED: u64 = 0;

/// One frame of the machine's output: a signed fixed-point number with
/// ninety-six fractional bits. It is the exact product of an amplitude, a
/// gain, a velocity and the volume, summed over the pads.
#[derive(Clone, Copy, Debug, PartialEq, Eq, Structural)]
pub struct AudioOut {
    /// The amplitude, in units of 2^-96.
    pub amp: i128,
}

impl AudioOut {
    /// Silence.
    pub fn equilibrium() -> (out: AudioOut)
        ensures
            out.amp == 0,
        no_unwind
    {
        AudioOut { amp: 0 }
    }

    /// Whether the frame is silent.
    pub fn is_equilibrium(&self) -> (b: bool)
        ensures
            b <==> self.amp == 0,
        no_unwind
    {
        self.amp == 0
    }

    /// The frame in the unit of `Amp`: its twenty-four leading fractional bits,
    /// the rest cut off downwards, and what does not fit an `Amp` held at
    /// the nearest end of its range.
    pub fn to_amp(&self) -> (amp: Amp)
        ensures
            amp == rounded(self.amp as int),
        no_unwind
    {
        let whole: i128 = if self.amp >= 0 {
            ((self.amp as u128) / 0x100_0000_0000_0000_0000) as i128
        } else {
            -((((-(self.amp + 1)) as u128) / 0x100_0000_0000_0000_0000) as i128) - 1
        };
        if whole > i32::MAX as i128 {
            i32::MAX
        } else if whole < i32::MIN as i128 {
            i32::MIN
        } else {
            whole as i32
        }
    }
}

/// An amplitude with ninety-six fractional bits in the unit of `Amp`, cut
/// off downwards and held within the range of an `Amp`.
pub open spec fn rounded(amp: int) -> int {
    clamp(amp / 0x100_0000_0000_0000_0000)
}

/// One pad: a generator, and whether, for how long and how hard it sounds.
#[derive(Debug)]
pub struct PadState {
    /// Is the pad active.
    active: bool,
    /// The time that the pad has been active.
    active_time: Femtos,
    /// The velocity this pad was triggered with.
    vel: Velocity,
    /// The sound generator for this pad.
    generator: Generator,
}

impl View for PadState {
    type V = PadView;

    closed spec fn view(&self) -> PadView {
        PadView {
            active: self.active,
            active_time: self.active_time as int,
            vel: self.vel as int,
            generator: self.generator@,
        }
    }
}

impl PadState {
    #[verifier::type_invariant]
    closed spec fn inv(self) -> bool {
        self@.wf()
    }

    /// A pad at rest around `generator`.
    pub fn new(generator: Generator) -> (pad: PadState)
        ensures
            pad@.wf(),
            pad@ == PadView::at_rest(generator@),
        no_unwind
    {
        // a generator says that it is well formed with whatever it is asked
        let _ = generator.duration();
        PadState { active: false, active_time: 0, vel: 0, generator }
    }

    /// Trigger a sound: the pad sounds from time zero with `vel`.
    pub fn trigger(&mut self, vel: Velocity)
        ensures
            final(self)@ == old(self)@.trigger(vel as int),
            final(self)@.wf(),
        no_unwind
    {
        proof {
            use_type_invariant(&*self);
        }
        self.active_time = 0;
        self.vel = vel;
        self.active = true;
    }

    /// Deactivate.
    pub fn silence(&mut self)
        ensures
            final(self)@ == old(self)@.silence(),
            final(self)@.wf(),
        no_unwind
    {
        proof {
            use_type_invariant(&*self);
        }
        self.active = false;
        self.active_time = 0;
        self.vel = 0;
    }

    /// Makes ready for samples at `sample_hz`. The pad stays as it was.
    pub fn retune(&mut self, sample_hz: SampleHz)
        ensures
            final(self)@ == old(self)@,
            final(self)@.wf(),
        no_unwind
    {
        proof {
            use_type_invariant(&*self);
        }
        self.generator.retune(sample_hz);
    }

    /// Whether the pad sounds.
    pub fn is_active(&self) -> (b: bool)
        ensures
            b == self@.active,
            self@.wf(),
        no_unwind
    {
        proof {
            use_type_invariant(self);
        }
        self.active
    }

    /// For how long the pad has sounded.
    pub fn active_time(&self) -> (t: Femtos)
        ensures
            t == self@.active_time,
        no_unwind
    {
        self.active_time
    }

    /// The velocity of the last trigger, zero at rest.
    pub fn velocity(&self) -> (v: Velocity)
        ensures
            v == self@.vel,
        no_unwind
    {
        self.vel
    }

    /// The generator of the pad.
    pub fn generator(&self) -> (g: &Generator)
        ensures
            g@ == self@.generator,
        no_unwind
    {
        &self.generator
    }

    /// Get the next audio frame. A pad at rest gives zero. A pad that sounds
    /// grows older by one sample period and gives what its generator gives
    /// at that age, times its velocity; where the generator gives nothing
    /// more, the pad goes to rest and gives zero. Where chance has a part,
    /// the result is what the model gives for one of the draws that can
    /// come.
    pub fn next_frame(&mut self, sample_hz: SampleHz) -> (out: PadAmp)
        ensures
            old(self)@.wf(),
            final(self)@.wf(),
            exists|draw: int|
                is_draw(draw) && (final(self)@, out as int) == old(self)@.next(sample_hz@, draw),
            !old(self)@.active ==> out == 0 && final(self)@ == old(self)@,
            old(self)@.active ==> (final(self)@.active <==> !is_over(
                old(self)@.generator.envelope(),
                old(self)@.generator.duration(),
                old(self)@.active_time + sample_period(sample_hz@),
            )),
            old(self)@.active && final(self)@.active ==> final(self)@.active_time == old(
                self,
            )@.active_time + sample_period(sample_hz@) && final(self)@.vel == old(self)@.vel,
            old(self)@.active && !final(self)@.active ==> out == 0 && final(self)@ == old(
                self,
            )@.silence(),
            -PAD_PEAK <= out <= PAD_PEAK,
        no_unwind
    {
        proof {
            use_type_invariant(&*self);
        }
        if !self.active {
            assert(is_draw(0) && (self@, 0int) == old(self)@.next(sample_hz@, 0));
            return 0;
        }
        let period: Femtos = period_of(sample_hz);
        if self.active_time > u64::MAX - period {
            // the new age is beyond every duration
            proof {
                lemma_over_past_duration(
                    self@.generator.envelope(),
                    self@.generator.duration(),
                    self.active_time + period,
                );
            }
            self.silence();
            assert(is_draw(0) && (self@, 0int) == old(self)@.next(sample_hz@, 0));
            return 0;
        }
        let age: Femtos = self.active_time + period;
        let next: Option<GenAmp> = self.generator.next_amp(sample_hz, age);
        let ghost draw = choose|draw: int|
            is_draw(draw) && (self.generator@, lift(next)) == old(self)@.generator.next(
                sample_hz@,
                age as int,
                draw,
            );
        match next {
            Some(a) => {
                proof {
                    lemma_product_bound(
                        a as int,
                        0x80_0000_0000_0000,
                        self.vel as int,
                        0x8000_0000,
                    );
                }
                self.active_time = age;
                let out: PadAmp = (a as i128) * (self.vel as i128);
                assert(is_draw(draw) && (self@, out as int) == old(self)@.next(sample_hz@, draw));
                out
            },
            None => {
                self.silence();
                assert(is_draw(draw) && (self@, 0int) == old(self)@.next(sample_hz@, draw));
                0
            },
        }
    }
}

/// The drum machine: pads, a master volume and a pause switch.
#[derive(Debug)]
pub struct Machine {
    /// Amplitude multiplier (volume).
    volume: Volume,
    /// Render playback or not.
    is_paused: bool,
    /// The states of the pads that generate sound for the machine.
    pads: Vec<PadState>,
    /// The sample rate of the last frame, zero before the first.
    rate: u32,
}

impl View for Machine {
    type V = MachineView;

    closed spec fn view(&self) -> MachineView {
        MachineView {
            volume: self.volume as int,
            is_paused: self.is_paused,
            pads: Seq::new(self.pads@.len(), |i: int| self.pads@[i]@),
        }
    }
}

impl Machine {
    #[verifier::type_invariant]
    closed spec fn inv(self) -> bool {
        self@.wf()
    }

    /// A machine with a tone pad and a noise pad, both at rest, at volume
    /// one and not paused.
    pub fn new() -> (m: Machine)
        ensures
            m@.wf(),
            m@ == default_machine(),
    {
        let mut pads: Vec<PadState> = Vec::new();
        pads.push(PadState::new(Generator::Tone(SineGenerator::new())));
        pads.push(PadState::new(Generator::Noise(RandomGenerator::new(DEFAULT_SEED))));
        let m = Machine { volume: UNIT as u32, is_paused: false, pads, rate: 0 };
        assert(m@.pads =~= default_machine().pads);
        m
    }

    /// A machine with the given pads, at volume one and not paused. More
    /// than `MAX_PADS` pads are refused.
    pub fn with_pads(pads: Vec<PadState>) -> (r: Result<Machine, SynthError>)
        ensures
            pads@.len() > MAX_PADS ==> r is Err && r->Err_0 == SynthError::TooManyPads,
            pads@.len() <= MAX_PADS ==> r is Ok && r->Ok_0@.wf() && r->Ok_0@ == (MachineView {
                volume: UNIT as int,
                is_paused: false,
                pads: Seq::new(pads@.len(), |i: int| pads@[i]@),
            }),
        no_unwind
    {
        let n: usize = pads.len();
        if n > MAX_PADS {
            return Err(SynthError::TooManyPads);
        }
        Ok(Machine { volume: UNIT as u32, is_paused: false, pads, rate: 0 })
    }

    /// The master volume.
    pub fn volume(&self) -> (v: Volume)
        ensures
            v == self@.volume,
            self@.wf(),
        no_unwind
    {
        proof {
            use_type_invariant(self);
        }
        self.volume
    }

    /// Sets the master volume.
    pub fn set_volume(&mut self, volume: Volume)
        ensures
            final(self)@ == (MachineView { volume: volume as int, ..old(self)@ }),
            final(self)@.wf(),
        no_unwind
    {
        proof {
            use_type_invariant(&*self);
        }
        self.volume = volume;
    }

    /// Whether the machine is paused.
    pub fn is_paused(&self) -> (b: bool)
        ensures
            b == self@.is_paused,
        no_unwind
    {
        self.is_paused
    }

    /// The number of pads.
    pub fn pad_count(&self) -> (n: usize)
        ensures
            n == self@.pads.len(),
            n <= MAX_PADS,
        no_unwind
    {
        proof {
            use_type_invariant(self);
        }
        self.pads.len()
    }

    /// Pad number `pad`, if there is one.
    pub fn pad(&self, pad: PadIdx) -> (r: Option<&PadState>)
        ensures
            self@.has_pad(pad as int) ==> r is Some && r->Some_0@ == self@.pads[pad - 1],
            !self@.has_pad(pad as int) ==> r is None,
        no_unwind
    {
        if 1 <= pad && pad <= self.pads.len() {
            Some(&self.pads[pad - 1])
        } else {
            None
        }
    }

    /// Trigger a pad. A number that is no pad's leaves the machine as it
    /// is.
    pub fn trigger(&mut self, pad: PadIdx, vel: Velocity)
        ensures
            final(self)@ == old(self)@.trigger(pad as int, vel as int),
            final(self)@.wf(),
            !old(self)@.has_pad(pad as int) ==> *final(self) == *old(self),
        no_unwind
    {
        proof {
            use_type_invariant(&*self);
        }
        if 1 <= pad && pad <= self.pads.len() {
            self.pads[pad - 1].trigger(vel);
            assert(self@.pads =~= old(self)@.pads.update(
                pad - 1,
                old(self)@.pads[pad - 1].trigger(vel as int),
            ));
        }
    }

    /// Deactivate a pad. A number that is no pad's leaves the machine as it
    /// is.
    pub fn silence(&mut self, pad: PadIdx)
        ensures
            final(self)@ == old(self)@.silence(pad as int),
            final(self)@.wf(),
            !old(self)@.has_pad(pad as int) ==> *final(self) == *old(self),
        no_unwind
    {
        proof {
            use_type_invariant(&*self);
        }
        if 1 <= pad && pad <= self.pads.len() {
            self.pads[pad - 1].silence();
            assert(self@.pads =~= old(self)@.pads.update(
                pad - 1,
                old(self)@.pads[pad - 1].silence(),
            ));
        }
    }

    /// Pause playback. The pads are left as they are.
    pub fn pause(&mut self)
        ensures
            final(self)@ == (MachineView { is_paused: true, ..old(self)@ }),
            final(self)@.wf(),
        no_unwind
    {
        proof {
            use_type_invariant(&*self);
        }
        self.is_paused = true;
    }

    /// Unpause playback. The pads are left as they are.
    pub fn unpause(&mut self)
        ensures
            final(self)@ == (MachineView { is_paused: false, ..old(self)@ }),
            final(self)@.wf(),
        no_unwind
    {
        proof {
            use_type_invariant(&*self);
        }
        self.is_paused = false;
    }

    /// Stop playback and clear the current pads: every pad goes to rest.
    /// Volume and pause are left as they are.
    pub fn stop(&mut self)
        ensures
            final(self)@ == old(self)@.stop(),
            final(self)@.wf(),
        no_unwind
    {
        proof {
            use_type_invariant(&*self);
        }
        let n: usize = self.pads.len();
        let mut i: usize = 0;
        while i < n
            invariant
                i <= n,
                n == self.pads@.len(),
                n == old(self).pads@.len(),
                self.volume == old(self).volume,
                self.is_paused == old(self).is_paused,
                self@.wf(),
                forall|k: int| 0 <= k < i ==> (#[trigger] self.pads@[k])@ == old(self).pads@[k]@.silence(),
                forall|k: int| i <= k < n ==> #[trigger] self.pads@[k] == old(self).pads@[k],
            decreases n - i,
        {
            self.pads[i].silence();
            i = i + 1;
        }
        assert(self@.pads =~= old(self)@.stop().pads);
    }

    /// Makes every pad ready for samples at `sample_hz`, where that is not
    /// the sample rate of the last frame. What the machine is stays as it
    /// was.
    fn retune(&mut self, sample_hz: SampleHz)
        ensures
            final(self)@ == old(self)@,
            final(self)@.wf(),
        no_unwind
    {
        proof {
            use_type_invariant(&*self);
        }
        if self.rate == sample_hz.hz() {
            return;
        }
        self.rate = sample_hz.hz();
        let n: usize = self.pads.len();
        let mut i: usize = 0;
        while i < n
            invariant
                i <= n,
                n == self.pads@.len(),
                n == old(self).pads@.len(),
                self.volume == old(self).volume,
                self.is_paused == old(self).is_paused,
                self@.wf(),
                forall|k: int| 0 <= k < n ==> (#[trigger] self.pads@[k])@ == old(self).pads@[k]@,
            decreases n - i,
        {
            self.pads[i].retune(sample_hz);
            i = i + 1;
        }
        assert(self@.pads =~= old(self)@.pads);
    }

    /// Get the next audio frame. A paused machine gives silence and leaves
    /// its pads as they are. Otherwise every pad takes its step, and the
    /// frame is the sum of what the pads give, times the volume. Where
    /// chance has a part, the result is what the model gives for draws that
    /// can come.
    pub fn next_frame(&mut self, sample_hz: SampleHz) -> (out: AudioOut)
        ensures
            old(self)@.wf(),
            final(self)@.wf(),
            exists|draws: Seq<int>|
                are_draws(draws, old(self)@.pads.len() as int) && (final(self)@, out.amp as int)
                    == old(self)@.next(sample_hz@, draws),
            old(self)@.is_paused ==> out.amp == 0 && *final(self) == *old(self),
        no_unwind
    {
        proof {
            use_type_invariant(&*self);
        }
        let n: usize = self.pads.len();
        if self.is_paused {
            let ghost draws = Seq::new(n as nat, |i: int| 0int);
            assert(are_draws(draws, n as int) && (self@, 0int) == old(self)@.next(
                sample_hz@,
                draws,
            ));
            return AudioOut::equilibrium();
        }
        self.retune(sample_hz);
        proof {
            use_type_invariant(&*self);
        }
        let ghost tuned = self.pads@;
        assert forall|k: int| 0 <= k < n implies (#[trigger] tuned[k])@ == old(self).pads@[k]@ by {
            assert(self@.pads[k] == old(self)@.pads[k]);
        }
        let mut sum: i128 = 0;
        let ghost mut draws: Seq<int> = Seq::empty();
        let ghost mut outs: Seq<int> = Seq::empty();
        let mut i: usize = 0;
        while i < n
            invariant
                i <= n,
                n <= MAX_PADS,
                n == self.pads@.len(),
                n == old(self).pads@.len(),
                n == tuned.len(),
                self.volume == old(self).volume,
                self.is_paused == old(self).is_paused,
                self@.wf(),
                draws.len() == i,
                outs.len() == i,
                forall|k: int| 0 <= k < n ==> (#[trigger] tuned[k])@ == old(self).pads@[k]@,
                forall|k: int| 0 <= k < i ==> is_draw(#[trigger] draws[k]),
                forall|k: int|
                    0 <= k < i ==> (#[trigger] self.pads@[k])@ == old(self).pads@[k]@.next(
                        sample_hz@,
                        draws[k],
                    ).0,
                forall|k: int|
                    0 <= k < i ==> #[trigger] outs[k] == old(self).pads@[k]@.next(
                        sample_hz@,
                        draws[k],
                    ).1,
                forall|k: int| i <= k < n ==> #[trigger] self.pads@[k] == tuned[k],
                sum == mix(outs),
                -(i * PAD_PEAK) <= sum <= i * PAD_PEAK,
            decreases n - i,
        {
            let ghost before = self.pads@[i as int]@;
            let out: PadAmp = self.pads[i].next_frame(sample_hz);
            proof {
                let draw = choose|draw: int|
                    is_draw(draw) && (self.pads@[i as int]@, out as int) == before.next(
                        sample_hz@,
                        draw,
                    );
                assert(outs.push(out as int).drop_last() =~= outs);
                draws = draws.push(draw);
                outs = outs.push(out as int);
            }
            sum = sum + out;
            i = i + 1;
        }
        proof {
            assert(outs =~= old(self)@.outs(sample_hz@, draws));
            assert(self@.pads =~= old(self)@.next(sample_hz@, draws).0.pads);
            lemma_product_bound(
                self.volume as int,
                0x1_0000_0000,
                sum as int,
                0x4000_0000_0000_0000_0000_0000,
            );
        }
        AudioOut { amp: (self.volume as i128) * sum }
    }

    /// Fills `buffer` with the next frames, one after another, and leaves
    /// its length as it is. Where the sample rate is not that of the last
    /// frame, what depends on the rate is worked out anew before the first
    /// frame.
    pub fn audio_requested(&mut self, buffer: &mut Vec<AudioOut>, sample_hz: SampleHz)
        ensures
            final(self)@.wf(),
            final(buffer)@.len() == old(buffer)@.len(),
            exists|draws: Seq<Seq<int>>|
                draws.len() == old(buffer)@.len() && (forall|k: int|
                    0 <= k < draws.len() ==> are_draws(
                        #[trigger] draws[k],
                        old(self)@.pads.len() as int,
                    )) && final(self)@ == old(self)@.run(sample_hz@, draws).0 && frames(
                    final(buffer)@,
                ) == old(self)@.run(sample_hz@, draws).1,
        no_unwind
    {
        proof {
            use_type_invariant(&*self);
        }
        let n: usize = buffer.len();
        let ghost mut all: Seq<Seq<int>> = Seq::empty();
        let mut k: usize = 0;
        while k < n
            invariant
                k <= n,
                n == buffer@.len(),
                self@.wf(),
                self@.pads.len() == old(self)@.pads.len(),
                all.len() == k,
                forall|j: int|
                    0 <= j < k ==> are_draws(#[trigger] all[j], old(self)@.pads.len() as int),
                self@ == old(self)@.run(sample_hz@, all).0,
                frames(buffer@).take(k as int) == old(self)@.run(sample_hz@, all).1,
            decreases n - k,
        {
            let ghost before = self@;
            let ghost done = frames(buffer@).take(k as int);
            let frame: AudioOut = self.next_frame(sample_hz);
            proof {
                let draws = choose|draws: Seq<int>|
                    are_draws(draws, before.pads.len() as int) && (self@, frame.amp as int)
                        == before.next(sample_hz@, draws);
                assert(all.push(draws).drop_last() =~= all);
                all = all.push(draws);
            }
            buffer[k] = frame;
            proof {
                assert(frames(buffer@).take(k + 1) =~= done.push(frame.amp as int));
            }
            k = k + 1;
        }
        proof {
            assert(frames(buffer@).take(n as int) =~= frames(buffer@));
        }
    }
}

/// The machine that is made without pads of its own: a tone pad and a noise
/// pad, both at rest, at volume one and not paused.
pub open spec fn default_machine() -> MachineView {
    MachineView {
        volume: UNIT as int,
        is_paused: false,
        pads: seq![
            PadView::at_rest(GeneratorView::Tone(default_tone())),
            PadView::at_rest(GeneratorView::Noise(default_noise())),
        ],
    }
}

/// The amplitudes of a run of frames.
pub open spec fn frames(buffer: Seq<AudioOut>) -> Seq<int> {
    Seq::new(buffer.len(), |i: int| buffer[i].amp as int)
}

} // verus!

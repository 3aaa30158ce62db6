//! A synth voice: a free-running oscillator, a filter and a volume.

use crate::arith::{clamp, clamped, floor_div, lemma_product_bound};
use crate::filters::{Filter, FilterMode, FilterView, Warp};
use crate::units::{
    advance, phase_step, step_of, wrapped_sum, Amp, Frequency, Phase, SampleHz, UNIT,
};
use crate::waveforms::{Square, Waveform};
use vstd::prelude::*;

verus! {

/// The cutoff of the filter of the square wave voice: 800 Hz.
pub const SQUARE_CUTOFF: Frequency = 800_000;

/// The volume of the square wave voice: 0.15.
pub const SQUARE_VOLUME: Amp = 2516582;

/// An oscillator over any waveform.
#[derive(Debug)]
pub struct Oscillator<W: Waveform> {
    phase: Phase,
    waveform: W,
}

impl<W: Waveform> Oscillator<W> {
    /// The phase at which the next amplitude is read.
    pub closed spec fn phase(self) -> Phase {
        self.phase
    }

    /// The waveform that is read.
    pub closed spec fn waveform(self) -> W {
        self.waveform
    }

    /// An oscillator at phase zero.
    pub fn new(waveform: W) -> (o: Oscillator<W>)
        ensures
            o.phase() == 0,
            o.waveform() == waveform,
        no_unwind
    {
        Oscillator { phase: 0, waveform }
    }

    /// The amplitude of the waveform at the present phase; the phase then
    /// moves on by one sample of a tone of `frequency` millihertz at
    /// `sample_hz`.
    pub fn tick(&mut self, frequency: Frequency, sample_hz: SampleHz) -> (amp: Amp)
        ensures
            old(self).waveform().gives(old(self).phase(), amp),
            -UNIT <= amp <= UNIT,
            final(self).phase() == advance(
                old(self).phase() as int,
                phase_step(frequency as int, sample_hz@),
            ),
            forall|p: Phase, a: Amp|
                final(self).waveform().gives(p, a) == old(self).waveform().gives(p, a),
    {
        let amp: Amp = self.waveform.amp_at_phase(self.phase);
        self.phase = wrapped_sum(self.phase, step_of(frequency, sample_hz));
        amp
    }

    /// The phase at which the next amplitude is read.
    pub fn position(&self) -> (p: Phase)
        ensures
            p == self.phase(),
        no_unwind
    {
        self.phase
    }
}

/// The phase of an oscillator `n` samples after it was at `phase`, moving
/// on by `step` with each.
pub open spec fn phase_at(phase: Phase, step: int, n: nat) -> Phase
    decreases n,
{
    if n == 0 {
        phase
    } else {
        advance(phase_at(phase, step, (n - 1) as nat) as int, step) as Phase
    }
}

/// One sample of a voice whose oscillator gives `raw`: the filter after
/// the sample, and what the filter gives times the volume, rounded down and
/// held within the range of an `Amp`.
pub open spec fn voice(filter: FilterView, volume: int, k: int, v0: int, raw: int) -> (
    FilterView,
    int,
) {
    let (after, y) = filter.step(raw, k, v0);
    (after, clamp(y * volume / 0x100_0000))
}

/// As many samples of a voice as `raws` has entries: the filter after the
/// last, and what each gave.
pub open spec fn voice_run(filter: FilterView, volume: int, k: int, v0: int, raws: Seq<Amp>) -> (
    FilterView,
    Seq<Amp>,
)
    decreases raws.len(),
{
    if raws.len() == 0 {
        (filter, Seq::empty())
    } else {
        let (before, outs) = voice_run(filter, volume, k, v0, raws.drop_last());
        let (after, out) = voice(before, volume, k, v0, raws.last() as int);
        (after, outs.push(out as Amp))
    }
}

/// A synth voice.
#[derive(Debug)]
pub struct Synth<W: Waveform> {
    frequency: Frequency,
    volume: Amp,
    oscillator: Oscillator<W>,
    filter: Filter,
}

impl<W: Waveform> Synth<W> {
    /// The frequency of the voice, in millihertz.
    pub closed spec fn frequency(self) -> Frequency {
        self.frequency
    }

    /// The volume of the voice.
    pub closed spec fn volume(self) -> Amp {
        self.volume
    }

    /// The oscillator of the voice.
    pub closed spec fn oscillator(self) -> Oscillator<W> {
        self.oscillator
    }

    /// The filter of the voice.
    pub closed spec fn filter(self) -> Filter {
        self.filter
    }

    /// A voice of the given parts.
    pub fn new(oscillator: Oscillator<W>, filter: Filter, frequency: Frequency, volume: Amp) -> (s:
        Synth<W>)
        ensures
            s.oscillator() == oscillator,
            s.filter() == filter,
            s.frequency() == frequency,
            s.volume() == volume,
        no_unwind
    {
        Synth { oscillator, filter, frequency, volume }
    }

    /// The mode of the voice's filter.
    pub fn filter_mode(&self) -> (mode: FilterMode)
        ensures
            mode == self.filter()@.mode,
        no_unwind
    {
        self.filter.mode()
    }

    /// The phase at which the oscillator is read next.
    pub fn position(&self) -> (p: Phase)
        ensures
            p == self.oscillator().phase(),
        no_unwind
    {
        self.oscillator.position()
    }

    /// The next sample of the voice: the oscillator's amplitude, filtered,
    /// times the volume. The oscillator moves on by one sample.
    pub fn next_amp(&mut self, sample_hz: SampleHz, warp: Warp) -> (amp: Amp)
        ensures
            exists|raw: Amp|
                old(self).oscillator().waveform().gives(old(self).oscillator().phase(), raw) && (
                final(self).filter()@,
                amp as int,
            ) == voice(
                    old(self).filter()@,
                    old(self).volume() as int,
                    warp.k(),
                    warp.v0(),
                    raw as int,
                ),
            final(self).oscillator().phase() == advance(
                old(self).oscillator().phase() as int,
                phase_step(old(self).frequency() as int, sample_hz@),
            ),
            final(self).frequency() == old(self).frequency(),
            final(self).volume() == old(self).volume(),
            forall|p: Phase, a: Amp|
                final(self).oscillator().waveform().gives(p, a) == old(
                    self,
                ).oscillator().waveform().gives(p, a),
    {
        let raw: Amp = self.oscillator.tick(self.frequency, sample_hz);
        let y: Amp = self.filter.tick(raw, warp);
        proof {
            lemma_product_bound(y as int, 0x8000_0000, self.volume as int, 0x8000_0000);
        }
        let amp: Amp = clamped(floor_div((y as i128) * (self.volume as i128), 0x100_0000));
        assert(old(self).oscillator().waveform().gives(old(self).oscillator().phase(), raw) && (
            self.filter()@,
            amp as int,
        ) == voice(
            old(self).filter()@,
            old(self).volume() as int,
            warp.k(),
            warp.v0(),
            raw as int,
        ));
        amp
    }

    /// Fills `buffer` with the next samples of the voice, one after
    /// another, and leaves its length as it is.
    pub fn audio_requested(&mut self, buffer: &mut Vec<Amp>, sample_hz: SampleHz, warp: Warp)
        ensures
            final(buffer)@.len() == old(buffer)@.len(),
            exists|raws: Seq<Amp>|
                raws.len() == old(buffer)@.len() && (forall|k: int|
                    0 <= k < raws.len() ==> old(self).oscillator().waveform().gives(
                        phase_at(
                            old(self).oscillator().phase(),
                            phase_step(old(self).frequency() as int, sample_hz@),
                            k as nat,
                        ),
                        #[trigger] raws[k],
                    )) && (final(self).filter()@, final(buffer)@) == voice_run(
                    old(self).filter()@,
                    old(self).volume() as int,
                    warp.k(),
                    warp.v0(),
                    raws,
                ),
            final(self).oscillator().phase() == phase_at(
                old(self).oscillator().phase(),
                phase_step(old(self).frequency() as int, sample_hz@),
                old(buffer)@.len(),
            ),
            final(self).frequency() == old(self).frequency(),
            final(self).volume() == old(self).volume(),
            forall|p: Phase, a: Amp|
                final(self).oscillator().waveform().gives(p, a) == old(
                    self,
                ).oscillator().waveform().gives(p, a),
    {
        let n: usize = buffer.len();
        let ghost step = phase_step(self.frequency as int, sample_hz@);
        let ghost mut raws: Seq<Amp> = Seq::empty();
        let mut i: usize = 0;
        while i < n
            invariant
                i <= n,
                n == buffer@.len(),
                raws.len() == i,
                step == phase_step(old(self).frequency() as int, sample_hz@),
                self.frequency() == old(self).frequency(),
                self.volume() == old(self).volume(),
                self.oscillator().phase() == phase_at(old(self).oscillator().phase(), step, i as nat),
                forall|p: Phase, a: Amp|
                    self.oscillator().waveform().gives(p, a) == old(
                        self,
                    ).oscillator().waveform().gives(p, a),
                forall|k: int|
                    0 <= k < i ==> old(self).oscillator().waveform().gives(
                        phase_at(old(self).oscillator().phase(), step, k as nat),
                        #[trigger] raws[k],
                    ),
                (self.filter()@, buffer@.take(i as int)) == voice_run(
                    old(self).filter()@,
                    old(self).volume() as int,
                    warp.k(),
                    warp.v0(),
                    raws,
                ),
            decreases n - i,
        {
            let ghost before = *self;
            let ghost done = buffer@.take(i as int);
            let amp: Amp = self.next_amp(sample_hz, warp);
            proof {
                let raw = choose|raw: Amp|
                    before.oscillator().waveform().gives(before.oscillator().phase(), raw) && (
                    self.filter()@,
                    amp as int,
                ) == voice(
                        before.filter()@,
                        before.volume() as int,
                        warp.k(),
                        warp.v0(),
                        raw as int,
                    );
                assert(raws.push(raw).drop_last() =~= raws);
                raws = raws.push(raw);
            }
            buffer[i] = amp;
            proof {
                assert(buffer@.take(i + 1) =~= done.push(amp));
            }
            i = i + 1;
        }
        proof {
            assert(buffer@.take(n as int) =~= buffer@);
        }
    }
}

/// A square wave voice of `frequency` millihertz behind a low pass at
/// 800 Hz, at a volume of 0.15.
pub fn square_synth(frequency: Frequency) -> (s: Synth<Square>)
    ensures
        s.frequency() == frequency,
        s.volume() == SQUARE_VOLUME,
        s.oscillator().phase() == 0,
        s.filter()@ == (FilterView {
            x_last: 0,
            y1_last: 0,
            mode: FilterMode::LowPass(SQUARE_CUTOFF),
        }),
{
    let oscillator = Oscillator::new(Square);
    let filter = Filter::new(FilterMode::LowPass(SQUARE_CUTOFF));
    Synth::new(oscillator, filter, frequency, SQUARE_VOLUME)
}

} // verus!

//! What holds of every machine, proved of the model that the executable
//! machine is proved to follow.

use crate::envelope::lemma_eval_domain;
use crate::model::{
    gain, is_over, lemma_over_past_duration, mix, perc, GeneratorView, MachineView, PadView,
};
use crate::units::{lemma_period_is_close, sample_period};
use vstd::arithmetic::div_mod::{
    lemma_div_is_ordered, lemma_div_multiples_vanish, lemma_div_pos_is_pos,
};
use vstd::arithmetic::mul::{
    lemma_mul_basics, lemma_mul_inequality, lemma_mul_is_associative, lemma_mul_is_commutative,
    lemma_mul_is_distributive_add, lemma_mul_is_distributive_add_other_way,
    lemma_mul_nonnegative, lemma_mul_nonzero,
};
use vstd::prelude::*;

verus! {

/// A trigger or a silence of a pad that the machine does not have leaves
/// the machine as it is.
pub proof fn lemma_unknown_pad_is_ignored(m: MachineView, pad: int, vel: int)
    requires
        !m.has_pad(pad),
    ensures
        m.trigger(pad, vel) == m,
        m.silence(pad) == m,
{
}

/// A trigger or a silence of one pad leaves every other pad, the volume and
/// the pause as they are.
pub proof fn lemma_other_pads_are_left(m: MachineView, pad: int, vel: int, other: int)
    requires
        m.has_pad(pad),
        m.has_pad(other),
        other != pad,
    ensures
        m.trigger(pad, vel).pads[other - 1] == m.pads[other - 1],
        m.silence(pad).pads[other - 1] == m.pads[other - 1],
        m.trigger(pad, vel).pads.len() == m.pads.len(),
        m.silence(pad).pads.len() == m.pads.len(),
        m.trigger(pad, vel).volume == m.volume,
        m.trigger(pad, vel).is_paused == m.is_paused,
{
}

/// A sound has a gain exactly until it is over: from the trigger to the
/// time that is to the duration what the last control point is to the
/// whole, that time included, and at no time after it.
pub proof fn lemma_gain_until_over(g: GeneratorView, active_time: int)
    requires
        g.wf(),
        0 <= active_time,
    ensures
        gain(g.envelope(), g.duration(), active_time) is Some <==> active_time * 0x1_0000_0000
            <= g.envelope().last().x * g.duration(),
        active_time > g.duration() ==> gain(g.envelope(), g.duration(), active_time) is None,
{
    let env = g.envelope();
    let d = g.duration();
    match g {
        GeneratorView::Tone(tone) => {},
        GeneratorView::Noise(noise) => {},
    }
    lemma_eval_domain(env, perc(active_time, d));
    lemma_mul_nonnegative(active_time, 0x1_0000_0000);
    lemma_div_pos_is_pos(active_time * 0x1_0000_0000, d);
    if !is_over(env, d, active_time) {
        lemma_div_is_ordered(active_time * 0x1_0000_0000, env.last().x * d, d);
        lemma_div_multiples_vanish(env.last().x as int, d);
        lemma_mul_is_commutative(env.last().x as int, d);
    }
    if active_time > d {
        lemma_over_past_duration(env, d, active_time);
    }
}

/// One sample leaves a pad what every pad is: a pad that sounds is not
/// over.
pub proof fn lemma_step_keeps_pad(p: PadView, hz: int, draw: int)
    requires
        p.wf(),
        1 <= hz,
    ensures
        p.next(hz, draw).0.wf(),
        p.next(hz, draw).0.generator.duration() == p.generator.duration(),
        p.next(hz, draw).0.generator.envelope() == p.generator.envelope(),
{
    if p.active {
        lemma_div_pos_is_pos(1_000_000_000_000_000, hz);
        match p.generator {
            GeneratorView::Tone(tone) => {},
            GeneratorView::Noise(noise) => {},
        }
    }
}

/// The frame right after a trigger is not silent, where the velocity is not
/// zero and the generator gives an amplitude other than zero at the age of
/// one sample: the frame is that amplitude times the velocity.
pub proof fn lemma_trigger_sounds(p: PadView, vel: int, hz: int, draw: int, a: int)
    requires
        vel != 0,
        a != 0,
        p.generator.next(hz, sample_period(hz), draw).1 == Some(a),
    ensures
        p.trigger(vel).next(hz, draw).1 == a * vel,
        p.trigger(vel).next(hz, draw).1 != 0,
        p.trigger(vel).next(hz, draw).0.active,
{
    lemma_mul_nonzero(a, vel);
}

/// The frame right after a trigger is silent in two cases and no others:
/// the velocity is zero, or the generator gives nothing or zero at the age
/// of one sample.
pub proof fn lemma_trigger_sounds_unless(p: PadView, vel: int, hz: int, draw: int)
    ensures
        p.trigger(vel).next(hz, draw).1 != 0 <==> vel != 0 && (p.generator.next(
            hz,
            sample_period(hz),
            draw,
        ).1 matches Some(a) && a != 0),
{
    match p.generator.next(hz, sample_period(hz), draw).1 {
        Some(a) => {
            lemma_mul_nonzero(a, vel);
        },
        None => {},
    }
}

/// A frame is silent in three cases and no others: the machine is paused,
/// the volume is zero, or what the pads give adds up to zero.
pub proof fn lemma_frame_sounds_unless(m: MachineView, hz: int, draws: Seq<int>)
    ensures
        m.next(hz, draws).1 != 0 <==> !m.is_paused && m.volume != 0 && mix(m.outs(hz, draws)) != 0,
{
    lemma_mul_nonzero(m.volume, mix(m.outs(hz, draws)));
}

/// A pad whose new age lies past the end of its sound goes to rest with the
/// sample and gives zero.
pub proof fn lemma_worn_out_pad_rests(p: PadView, hz: int, draw: int)
    requires
        p.active,
        is_over(p.generator.envelope(), p.generator.duration(), p.active_time + sample_period(hz)),
    ensures
        p.next(hz, draw).1 == 0,
        !p.next(hz, draw).0.active,
        p.next(hz, draw).0 == p.silence(),
{
    match p.generator {
        GeneratorView::Tone(tone) => {},
        GeneratorView::Noise(noise) => {},
    }
}

/// A pad whose new age lies past its generator's duration goes to rest with
/// the sample and gives zero.
pub proof fn lemma_pad_rests_past_duration(p: PadView, hz: int, draw: int)
    requires
        p.wf(),
        p.active,
        p.active_time + sample_period(hz) > p.generator.duration(),
    ensures
        p.next(hz, draw).1 == 0,
        !p.next(hz, draw).0.active,
        p.next(hz, draw).0 == p.silence(),
{
    match p.generator {
        GeneratorView::Tone(tone) => {},
        GeneratorView::Noise(noise) => {},
    }
    lemma_over_past_duration(
        p.generator.envelope(),
        p.generator.duration(),
        p.active_time + sample_period(hz),
    );
    lemma_worn_out_pad_rests(p, hz, draw);
}

/// What a tone pad does with a sample has nothing to do with chance.
pub proof fn lemma_tone_pad_is_certain(p: PadView, hz: int, draw: int, other: int)
    requires
        p.generator is Tone,
    ensures
        p.next(hz, draw) == p.next(hz, other),
{
}

/// A machine of tone pads gives the same frame whatever the draws.
pub proof fn lemma_tone_machine_is_certain(m: MachineView, hz: int, draws: Seq<int>, others: Seq<int>)
    requires
        forall|i: int| 0 <= i < m.pads.len() ==> (#[trigger] m.pads[i]).generator is Tone,
    ensures
        m.next(hz, draws) == m.next(hz, others),
{
    if !m.is_paused {
        assert forall|i: int| 0 <= i < m.pads.len() implies m.pads[i].next(hz, draws[i])
            == m.pads[i].next(hz, others[i]) by {
            lemma_tone_pad_is_certain(m.pads[i], hz, draws[i], others[i]);
        }
        assert(m.outs(hz, draws) =~= m.outs(hz, others));
        assert(m.next(hz, draws).0.pads =~= m.next(hz, others).0.pads);
    }
}

/// A pad at rest stays at rest and gives zero, whatever the sample rate.
pub proof fn lemma_rest_is_silent(p: PadView, hz: int, draw: int)
    requires
        !p.active,
    ensures
        p.next(hz, draw) == (p, 0int),
{
}

/// As many samples of one pad as `draws` has entries: the pad after the
/// last, and what each gave.
pub open spec fn pad_run(p: PadView, hz: int, draws: Seq<int>) -> (PadView, Seq<int>)
    decreases draws.len(),
{
    if draws.len() == 0 {
        (p, Seq::empty())
    } else {
        let (before, outs) = pad_run(p, hz, draws.drop_last());
        let (after, out) = before.next(hz, draws.last());
        (after, outs.push(out))
    }
}

/// While a pad goes on sounding after a trigger, the time it has sounded is
/// the number of samples times the sample period.
pub proof fn lemma_sounding_pad_ages(p: PadView, hz: int, draws: Seq<int>)
    requires
        p.wf(),
        1 <= hz,
        p.active,
        pad_run(p, hz, draws).0.active,
    ensures
        pad_run(p, hz, draws).0.active_time == p.active_time + draws.len() * sample_period(hz),
        pad_run(p, hz, draws).0.wf(),
        pad_run(p, hz, draws).0.generator.duration() == p.generator.duration(),
        pad_run(p, hz, draws).0.generator.envelope() == p.generator.envelope(),
    decreases draws.len(),
{
    if draws.len() == 0 {
        lemma_mul_basics(sample_period(hz));
    } else {
        let (before, outs) = pad_run(p, hz, draws.drop_last());
        // a pad at rest stays at rest, so the pad sounded before the last sample too
        assert(before.active);
        lemma_sounding_pad_ages(p, hz, draws.drop_last());
        lemma_step_keeps_pad(before, hz, draws.last());
        lemma_mul_is_distributive_add(sample_period(hz), draws.len() - 1, 1);
        lemma_mul_basics(sample_period(hz));
        lemma_mul_is_commutative(sample_period(hz), draws.len() as int);
        lemma_mul_is_commutative(sample_period(hz), draws.len() - 1);
    }
}

/// The time a pad has sounded keeps up with its samples: after `n` samples
/// at `hz` samples a second it falls short of `n` parts in `hz` of a second
/// by less than a femtosecond for each sample, and never runs ahead.
pub proof fn lemma_age_is_close(p: PadView, vel: int, hz: int, draws: Seq<int>)
    requires
        p.wf(),
        i32::MIN <= vel <= i32::MAX,
        1 <= hz <= u32::MAX,
        pad_run(p.trigger(vel), hz, draws).0.active,
    ensures
        hz * pad_run(p.trigger(vel), hz, draws).0.active_time <= draws.len()
            * 1_000_000_000_000_000,
        draws.len() * 1_000_000_000_000_000 <= hz * pad_run(
            p.trigger(vel),
            hz,
            draws,
        ).0.active_time + hz * draws.len(),
{
    let q = p.trigger(vel);
    let n = draws.len() as int;
    let period = sample_period(hz);
    let second: int = 1_000_000_000_000_000;
    lemma_mul_nonnegative(p.generator.envelope().last().x as int, p.generator.duration());
    assert(q.wf());
    lemma_sounding_pad_ages(q, hz, draws);
    lemma_period_is_close(hz);
    let t = pad_run(q, hz, draws).0.active_time;
    assert(t == n * period);
    // hz * (n * period) is (hz * period) * n
    lemma_mul_is_commutative(n, period);
    lemma_mul_is_associative(hz, period, n);
    lemma_mul_inequality(hz * period, second, n);
    lemma_mul_is_commutative(second, n);
    // a second is at most hz * period + hz
    lemma_mul_is_distributive_add(hz, period, 1);
    lemma_mul_basics(hz);
    lemma_mul_inequality(second, hz * period + hz, n);
    lemma_mul_is_distributive_add_other_way(n, hz * period, hz);
}

/// Rendering beyond the generator's duration ends in silence: once the
/// samples since the trigger add up to more time than the duration, the pad
/// is at rest.
pub proof fn lemma_pad_rests_in_time(p: PadView, vel: int, hz: int, draws: Seq<int>)
    requires
        p.wf(),
        i32::MIN <= vel <= i32::MAX,
        1 <= hz,
        draws.len() * sample_period(hz) > p.generator.duration(),
    ensures
        !pad_run(p.trigger(vel), hz, draws).0.active,
{
    let q = p.trigger(vel);
    lemma_mul_nonnegative(p.generator.envelope().last().x as int, p.generator.duration());
    assert(q.wf());
    if pad_run(q, hz, draws).0.active {
        lemma_sounding_pad_ages(q, hz, draws);
        lemma_over_past_duration(
            p.generator.envelope(),
            p.generator.duration(),
            pad_run(q, hz, draws).0.active_time,
        );
    }
}

/// The draws of pad `i` in a run of frames.
pub open spec fn column(draws: Seq<Seq<int>>, i: int) -> Seq<int> {
    Seq::new(draws.len(), |k: int| draws[k][i])
}

/// In a machine that is not paused every pad runs by itself: after any
/// number of frames it is where its own samples, one for each frame, have
/// taken it. Volume, pause and the number of pads stay what they were.
pub proof fn lemma_run_is_pad_runs(m: MachineView, hz: int, draws: Seq<Seq<int>>, i: int)
    requires
        0 <= i < m.pads.len(),
        !m.is_paused,
    ensures
        m.run(hz, draws).0.pads.len() == m.pads.len(),
        m.run(hz, draws).0.volume == m.volume,
        !m.run(hz, draws).0.is_paused,
        m.run(hz, draws).0.pads[i] == pad_run(m.pads[i], hz, column(draws, i)).0,
    decreases draws.len(),
{
    if draws.len() > 0 {
        lemma_run_is_pad_runs(m, hz, draws.drop_last(), i);
        assert(column(draws, i).drop_last() =~= column(draws.drop_last(), i));
    }
}

/// Rendering beyond the duration of a triggered pad's generator finds the
/// pad at rest: once the frames since the trigger add up to more time than
/// the duration, the pad has gone to rest by itself.
pub proof fn lemma_machine_rests_in_time(
    m: MachineView,
    pad: int,
    vel: int,
    hz: int,
    draws: Seq<Seq<int>>,
)
    requires
        m.has_pad(pad),
        !m.is_paused,
        m.pads[pad - 1].wf(),
        i32::MIN <= vel <= i32::MAX,
        1 <= hz,
        draws.len() * sample_period(hz) > m.pads[pad - 1].generator.duration(),
    ensures
        !m.trigger(pad, vel).run(hz, draws).0.pads[pad - 1].active,
{
    let t = m.trigger(pad, vel);
    lemma_run_is_pad_runs(t, hz, draws, pad - 1);
    lemma_pad_rests_in_time(m.pads[pad - 1], vel, hz, column(draws, pad - 1));
}

/// While the machine is paused every frame is silent and the machine stays
/// as it is, however many frames are asked for.
pub proof fn lemma_paused_is_silent(m: MachineView, hz: int, draws: Seq<Seq<int>>)
    requires
        m.is_paused,
    ensures
        m.run(hz, draws).0 == m,
        m.run(hz, draws).1.len() == draws.len(),
        forall|k: int| 0 <= k < draws.len() ==> #[trigger] m.run(hz, draws).1[k] == 0,
    decreases draws.len(),
{
    if draws.len() > 0 {
        lemma_paused_is_silent(m, hz, draws.drop_last());
    }
}

/// The mix of silent pads is silence.
pub proof fn lemma_mix_of_silence(outs: Seq<int>)
    requires
        forall|i: int| 0 <= i < outs.len() ==> #[trigger] outs[i] == 0,
    ensures
        mix(outs) == 0,
    decreases outs.len(),
{
    if outs.len() > 0 {
        lemma_mix_of_silence(outs.drop_last());
    }
}

/// The mix of pads of which all but one are silent is what that one gives.
pub proof fn lemma_mix_of_one(outs: Seq<int>, i: int)
    requires
        0 <= i < outs.len(),
        forall|j: int| 0 <= j < outs.len() && j != i ==> #[trigger] outs[j] == 0,
    ensures
        mix(outs) == outs[i],
    decreases outs.len(),
{
    if i == outs.len() - 1 {
        lemma_mix_of_silence(outs.drop_last());
    } else {
        lemma_mix_of_one(outs.drop_last(), i);
    }
}

/// A machine whose pads are at rest is heard at once when one of them is
/// triggered: where it is not paused, volume and velocity are not zero and
/// the pad's generator gives an amplitude other than zero at the age of one
/// sample, the next frame is that amplitude times the velocity times the
/// volume, and is not silent.
pub proof fn lemma_triggered_machine_sounds(
    m: MachineView,
    pad: int,
    vel: int,
    hz: int,
    draws: Seq<int>,
    a: int,
)
    requires
        m.has_pad(pad),
        !m.is_paused,
        m.volume != 0,
        vel != 0,
        a != 0,
        forall|j: int| 0 <= j < m.pads.len() ==> !(#[trigger] m.pads[j]).active,
        m.pads[pad - 1].generator.next(hz, sample_period(hz), draws[pad - 1]).1 == Some(a),
    ensures
        m.trigger(pad, vel).next(hz, draws).1 == m.volume * (a * vel),
        m.trigger(pad, vel).next(hz, draws).1 != 0,
{
    let t = m.trigger(pad, vel);
    lemma_trigger_sounds(m.pads[pad - 1], vel, hz, draws[pad - 1], a);
    lemma_mix_of_one(t.outs(hz, draws), pad - 1);
    lemma_mul_nonzero(a, vel);
    lemma_mul_nonzero(m.volume, a * vel);
}

/// After a stop every pad is at rest, volume and pause are what they were,
/// and the next frame is silent and leaves the machine as the stop left it.
pub proof fn lemma_stopped_is_silent(m: MachineView, hz: int, draws: Seq<int>)
    ensures
        forall|i: int| 0 <= i < m.pads.len() ==> !(#[trigger] m.stop().pads[i]).active,
        m.stop().pads.len() == m.pads.len(),
        m.stop().volume == m.volume,
        m.stop().is_paused == m.is_paused,
        m.stop().next(hz, draws).1 == 0,
        m.stop().next(hz, draws).0 == m.stop(),
{
    let s = m.stop();
    if !s.is_paused {
        lemma_mix_of_silence(s.outs(hz, draws));
        lemma_mul_basics(s.volume);
        assert(s.next(hz, draws).0.pads =~= s.pads);
    }
}

/// The mix of two runs of pads is the sum of the mix of each.
pub proof fn lemma_mix_adds(a: Seq<int>, b: Seq<int>)
    ensures
        mix(a + b) == mix(a) + mix(b),
    decreases b.len(),
{
    if b.len() == 0 {
        assert(a + b =~= a);
    } else {
        assert((a + b).drop_last() =~= a + b.drop_last());
        lemma_mix_adds(a, b.drop_last());
    }
}

/// With two pads the mix is the sum of what each pad gives by itself, and
/// the frame is that sum times the volume.
pub proof fn lemma_two_pads_add(m: MachineView, hz: int, draws: Seq<int>)
    requires
        m.pads.len() == 2,
        !m.is_paused,
    ensures
        mix(m.outs(hz, draws)) == m.pads[0].next(hz, draws[0]).1 + m.pads[1].next(hz, draws[1]).1,
        m.next(hz, draws).1 == m.volume * (m.pads[0].next(hz, draws[0]).1 + m.pads[1].next(
            hz,
            draws[1],
        ).1),
{
    let outs = m.outs(hz, draws);
    assert(outs.drop_last().drop_last() =~= Seq::<int>::empty());
    assert(mix(outs.drop_last().drop_last()) == 0);
    assert(mix(outs.drop_last()) == outs[0]);
}

/// What a pad gives does not depend on the other pads of its machine: it is
/// the pad's own step.
pub proof fn lemma_pads_are_independent(m: MachineView, hz: int, draws: Seq<int>, i: int)
    requires
        0 <= i < m.pads.len(),
        !m.is_paused,
    ensures
        m.outs(hz, draws)[i] == m.pads[i].next(hz, draws[i]).1,
        m.next(hz, draws).0.pads[i] == m.pads[i].next(hz, draws[i]).0,
{
}

/// The volume scales the frame and nothing else: with `k` times the volume
/// every frame is `k` times what it was, and the pads do what they did.
pub proof fn lemma_volume_scales(m: MachineView, k: int, hz: int, draws: Seq<int>)
    ensures
        (MachineView { volume: k * m.volume, ..m }).next(hz, draws).1 == k * m.next(hz, draws).1,
        (MachineView { volume: k * m.volume, ..m }).next(hz, draws).0.pads == m.next(
            hz,
            draws,
        ).0.pads,
{
    let louder = MachineView { volume: k * m.volume, ..m };
    if m.is_paused {
        lemma_mul_basics(k);
    } else {
        assert(louder.outs(hz, draws) =~= m.outs(hz, draws));
        lemma_mul_is_associative(k, m.volume, mix(m.outs(hz, draws)));
        assert(louder.next(hz, draws).0.pads =~= m.next(hz, draws).0.pads);
    }
}

/// Scaling by the volume and mixing can be done in either order: the volume
/// times a sum of pads is the sum of the volume times each.
pub proof fn lemma_volume_distributes(volume: int, a: Seq<int>, b: Seq<int>)
    ensures
        volume * mix(a + b) == volume * mix(a) + volume * mix(b),
{
    lemma_mix_adds(a, b);
    lemma_mul_is_distributive_add(volume, mix(a), mix(b));
}

} // verus!

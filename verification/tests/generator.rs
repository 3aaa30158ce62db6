use drum_machine::envelope::{Envelope, Point};
use drum_machine::generator::{
    default_envelope, noise_amp, Generator, RandomGenerator, SineGenerator, DEFAULT_DURATION,
    DEFAULT_FREQUENCY,
};
use drum_machine::units::{SampleHz, SynthError, UNIT, WHOLE};

const MS: u64 = 1_000_000_000_000;
const PERIOD: u64 = 22_675_736_961;
const STEP_440: u128 = 184_049_147_220_684_868;
const STEP_440_AT_48K: u128 = 169_095_154_009_004_223;
const HALF_GAIN: i64 = 8_388_608;

fn hz(rate: u32) -> SampleHz {
    SampleHz::new(rate).unwrap()
}

fn tone(frequency: u32) -> SineGenerator {
    SineGenerator::with(MS, default_envelope(), frequency).unwrap()
}

#[test]
fn default_tone_is_a_millisecond_at_32700_hertz() {
    let g = SineGenerator::new();
    assert_eq!(g.duration(), MS);
    assert_eq!(g.duration(), DEFAULT_DURATION);
    assert_eq!(g.frequency(), 32_700_000);
    assert_eq!(g.frequency(), DEFAULT_FREQUENCY);
    assert_eq!(g.phase(), 0);
}

#[test]
fn default_envelope_has_the_five_points() {
    let env = default_envelope();
    assert_eq!(env.len(), 5);
    assert_eq!(env.point(0), Some(Point::new(0, 1_677_722, 0)));
    assert_eq!(env.point(1), Some(Point::new(42_949_673, UNIT, 0)));
    assert_eq!(env.point(2), Some(Point::new(WHOLE / 4, 13_421_773, 0)));
    assert_eq!(env.point(3), Some(Point::new(3 * (WHOLE / 4), 3_355_443, 0)));
    assert_eq!(env.point(4), Some(Point::new(WHOLE, 0, 0)));
}

#[test]
fn default_envelope_is_the_stated_one_to_the_nearest_unit() {
    let env = default_envelope();
    let stated = [(0.0, 0.1), (0.01, 1.0), (0.25, 0.8), (0.75, 0.2), (1.0, 0.0)];
    for (i, (x, y)) in stated.iter().enumerate() {
        let p = env.point(i).unwrap();
        assert_eq!(p.x, (x * WHOLE as f64).round() as u64);
        assert_eq!(p.y, (y * UNIT as f64).round() as i32);
    }
}

#[test]
fn tone_without_duration_is_refused() {
    let r = SineGenerator::with(0, default_envelope(), 440_000);
    assert_eq!(r.err(), Some(SynthError::ZeroDuration));
}

#[test]
fn tone_of_any_other_duration_is_taken() {
    assert_eq!(SineGenerator::with(1, default_envelope(), 440_000).unwrap().duration(), 1);
    let longest = SineGenerator::with(u64::MAX, default_envelope(), 440_000).unwrap();
    assert_eq!(longest.duration(), u64::MAX);
}

#[test]
fn noise_without_duration_is_refused() {
    let r = RandomGenerator::with(0, default_envelope(), 1);
    assert_eq!(r.err(), Some(SynthError::ZeroDuration));
    assert_eq!(RandomGenerator::with(u64::MAX, default_envelope(), 1).unwrap().duration(), u64::MAX);
}

#[test]
fn gain_is_the_envelope_at_the_part_of_the_duration_that_has_passed() {
    let g = tone(440_000);
    assert_eq!(g.next_amp_mul(0), Some(1_677_722));
    assert_eq!(g.next_amp_mul(PERIOD), Some(16_599_997));
    assert_eq!(g.next_amp_mul(MS / 2), Some(8_388_608));
    let long = RandomGenerator::with(2 * MS, default_envelope(), 1).unwrap();
    assert_eq!(long.next_amp_mul(MS), Some(8_388_608));
    let longest = RandomGenerator::with(u64::MAX, default_envelope(), 1).unwrap();
    assert_eq!(longest.next_amp_mul(1 << 63), Some(8_388_608));
}

#[test]
fn gain_lasts_to_the_end_of_the_duration_and_not_a_moment_longer() {
    let g = tone(440_000);
    assert_eq!(g.next_amp_mul(MS - 1), Some(1));
    assert_eq!(g.next_amp_mul(MS), Some(0));
    assert_eq!(g.next_amp_mul(MS + 1), None);
    assert_eq!(g.next_amp_mul(MS + MS / 65_536), None);
    assert_eq!(g.next_amp_mul(u64::MAX), None);
    let short = SineGenerator::with(1, default_envelope(), 440_000).unwrap();
    assert_eq!(short.next_amp_mul(1), Some(0));
    assert_eq!(short.next_amp_mul(2), None);
    let longest = RandomGenerator::with(u64::MAX, default_envelope(), 1).unwrap();
    assert_eq!(longest.next_amp_mul(u64::MAX), Some(0));
    let ten_seconds = 10_000 * MS;
    let flat = Envelope::new(vec![Point::new(0, UNIT, 0), Point::new(WHOLE, UNIT, 0)]).unwrap();
    let held = SineGenerator::with(ten_seconds, flat, 440_000).unwrap();
    assert_eq!(held.next_amp_mul(ten_seconds), Some(UNIT));
    assert_eq!(held.next_amp_mul(ten_seconds + 1), None);
    assert_eq!(held.next_amp_mul(ten_seconds + 15_125_000_000), None);
}

#[test]
fn gain_ends_with_the_last_point_where_that_lies_before_the_end() {
    let early = Envelope::new(vec![Point::new(0, UNIT, 0), Point::new(WHOLE / 4, 7, 0)]).unwrap();
    let g = SineGenerator::with(MS, early, 440_000).unwrap();
    assert_eq!(g.next_amp_mul(MS / 4), Some(7));
    assert_eq!(g.next_amp_mul(MS / 4 + 1), None);
    // a duration that the last point does not divide
    let early = Envelope::new(vec![Point::new(0, UNIT, 0), Point::new(WHOLE / 4, 7, 0)]).unwrap();
    let g = SineGenerator::with(10, early, 440_000).unwrap();
    assert_eq!(g.next_amp_mul(2).map(|a| a > 7), Some(true));
    assert_eq!(g.next_amp_mul(3), None);
}

#[test]
fn tone_moves_its_phase_by_frequency_over_sample_rate() {
    let mut g = tone(440_000);
    assert_eq!(g.next_phase(hz(44_100)), STEP_440);
    assert_eq!(g.next_phase(hz(44_100)), 2 * STEP_440);
    assert_eq!(g.phase(), 2 * STEP_440);
}

#[test]
fn tone_works_its_step_out_again_when_the_rate_changes() {
    let mut g = tone(440_000);
    g.next_phase(hz(44_100));
    g.next_phase(hz(48_000));
    g.next_phase(hz(48_000));
    g.next_phase(hz(44_100));
    assert_eq!(g.phase(), 2 * STEP_440 + 2 * STEP_440_AT_48K);
}

#[test]
fn tone_phase_counts_its_turns() {
    // the largest step there is: 2^32 - 1 millihertz at one hertz
    let mut g = tone(u32::MAX);
    let step: u128 = (u32::MAX as u128) * (1u128 << 64) / 1000;
    let mut expected: u128 = 0;
    for _ in 0..5_000 {
        expected += step;
        assert_eq!(g.next_phase(hz(1)), expected);
    }
    // more than four thousand million turns with every sample
    assert!(step > (1u128 << 96) / 1000 - (1u128 << 65));
}

#[test]
fn tone_gives_sine_times_gain() {
    let mut g = tone(440_000);
    assert_eq!(g.next_amp_mul(PERIOD), Some(16_599_997));
    // sine 1051064 at the phase of one step, gain 16599997
    assert_eq!(g.next_amp(hz(44_100), PERIOD), Some(1_051_064 * 16_599_997));
    assert_eq!(g.phase(), STEP_440);
}

#[test]
fn tone_gives_the_gain_at_any_age() {
    let mut g = tone(440_000);
    assert_eq!(g.next_amp(hz(44_100), MS / 2), Some(1_051_064 * HALF_GAIN));
    assert_eq!(g.next_amp(hz(44_100), MS / 2), Some(2_098_000 * HALF_GAIN));
}

#[test]
fn tone_gives_nothing_once_its_sound_is_over() {
    let mut g = tone(440_000);
    assert_eq!(g.next_amp(hz(44_100), MS + 1), None);
    assert_eq!(g.next_amp(hz(44_100), u64::MAX), None);
    // and its oscillator has stood still
    assert_eq!(g.phase(), 0);
    // at the very end it still sounds, with the gain of the last point
    assert_eq!(g.next_amp(hz(44_100), MS), Some(0));
    assert_eq!(g.phase(), STEP_440);
}

#[test]
fn tone_keeps_its_phase_for_the_next_sound() {
    let mut g = tone(440_000);
    g.next_amp(hz(44_100), PERIOD);
    g.next_amp(hz(44_100), MS + 1);
    assert_eq!(g.phase(), STEP_440);
    assert_eq!(g.next_amp(hz(44_100), PERIOD), Some(2_098_000 * 16_599_997));
}

#[test]
fn noise_amp_is_draw_times_gain() {
    assert_eq!(noise_amp(0, 5), 0);
    assert_eq!(noise_amp(UNIT, UNIT), 1 << 48);
    assert_eq!(noise_amp(-UNIT, i32::MAX), -(UNIT as i64) * (i32::MAX as i64));
    assert_eq!(noise_amp(-UNIT, i32::MIN), 1 << 55);
    assert_eq!(noise_amp(-3, 7), -21);
    assert_eq!(noise_amp(i32::MIN, i32::MIN), 1 << 62);
    assert_eq!(noise_amp(i32::MAX, i32::MIN), -(1i64 << 62) + (1i64 << 31));
}

#[test]
fn noise_for_a_given_draw_is_draw_times_gain() {
    let g = RandomGenerator::new(5);
    assert_eq!(g.duration(), MS);
    assert_eq!(g.amp_for(PERIOD, 1_000), Some(16_599_997_000));
    assert_eq!(g.amp_for(MS / 2, -UNIT), Some(-(UNIT as i64) * HALF_GAIN));
    assert_eq!(g.amp_for(MS, UNIT), Some(0));
    assert_eq!(g.amp_for(MS + 1, UNIT), None);
    assert_eq!(g.next_amp_mul(MS / 2), Some(8_388_608));
}

#[test]
fn noise_generator_stays_under_its_envelope() {
    let mut g = RandomGenerator::new(11);
    let mut seen = std::collections::HashSet::new();
    for _ in 0..1_000 {
        let amp = g.next_amp(hz(44_100), MS / 2).unwrap();
        assert!(amp.abs() <= (UNIT as i64) * HALF_GAIN);
        seen.insert(amp);
    }
    assert!(seen.len() > 900);
    assert_eq!(g.next_amp(hz(44_100), MS + 1), None);
}

#[test]
fn noise_generator_follows_from_its_seed() {
    let mut a = RandomGenerator::new(9);
    let mut b = RandomGenerator::new(9);
    let mut c = RandomGenerator::new(10);
    let first: Vec<Option<i64>> = (0..16).map(|_| a.next_amp(hz(44_100), PERIOD)).collect();
    let second: Vec<Option<i64>> = (0..16).map(|_| b.next_amp(hz(48_000), PERIOD)).collect();
    let third: Vec<Option<i64>> = (0..16).map(|_| c.next_amp(hz(44_100), PERIOD)).collect();
    assert_eq!(first, second);
    assert_ne!(first, third);
}

#[test]
fn noise_draws_only_while_its_sound_lasts() {
    let mut a = RandomGenerator::new(9);
    let mut b = RandomGenerator::new(9);
    for _ in 0..10 {
        assert_eq!(a.next_amp(hz(44_100), 2 * MS), None);
    }
    assert_eq!(a.next_amp(hz(44_100), PERIOD), b.next_amp(hz(44_100), PERIOD));
}

#[test]
fn either_generator_answers_through_the_same_call() {
    let mut t = Generator::Tone(tone(440_000));
    let mut n = Generator::Noise(RandomGenerator::new(2));
    assert_eq!(t.duration(), MS);
    assert_eq!(n.duration(), MS);
    assert_eq!(t.next_amp(hz(44_100), PERIOD), Some(1_051_064 * 16_599_997));
    let amp = n.next_amp(hz(44_100), PERIOD).unwrap();
    assert!(amp.abs() <= (UNIT as i64) * 16_599_997);
    assert_eq!(t.next_amp(hz(44_100), 3 * MS), None);
    assert_eq!(n.next_amp(hz(44_100), 3 * MS), None);
}

#[test]
fn generator_under_an_envelope_of_its_own() {
    let env = Envelope::new(vec![Point::new(0, UNIT, 0), Point::new(WHOLE / 2, 0, 0)]).unwrap();
    let mut g = SineGenerator::with(2_000, env, 250_000).unwrap();
    // a quarter of a turn with each sample at one kilohertz
    assert_eq!(g.next_amp(hz(1_000), 0), Some((UNIT as i64) * (UNIT as i64)));
    assert_eq!(g.next_amp(hz(1_000), 500), Some(0));
    assert_eq!(g.next_amp(hz(1_000), 500), Some(-(UNIT as i64) * HALF_GAIN));
    assert_eq!(g.next_amp(hz(1_000), 1_000), Some(0));
    assert_eq!(g.next_amp(hz(1_000), 1_001), None);
}

#[test]
fn retune_changes_nothing_that_can_be_heard() {
    let mut tuned = tone(440_000);
    let mut plain = tone(440_000);
    tuned.retune(hz(48_000));
    assert_eq!(tuned.phase(), 0);
    assert_eq!(tuned.duration(), plain.duration());
    tuned.retune(hz(44_100));
    tuned.retune(hz(96_000));
    for rate in [44_100, 44_100, 48_000, 1, 44_100] {
        assert_eq!(tuned.next_amp(hz(rate), PERIOD), plain.next_amp(hz(rate), PERIOD));
        tuned.retune(hz(12_345));
        assert_eq!(tuned.phase(), plain.phase());
    }
    let mut either = Generator::Noise(RandomGenerator::new(1));
    either.retune(hz(48_000));
    assert_eq!(either.duration(), MS);
}

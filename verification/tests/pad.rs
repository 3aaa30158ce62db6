use drum_machine::drum_machine::PadState;
use drum_machine::generator::{default_envelope, Generator, RandomGenerator, SineGenerator};
use drum_machine::units::{SampleHz, UNIT, WHOLE};

const MS: u64 = 1_000_000_000_000;
const PERIOD: u64 = 22_675_736_961;
const STEP_440: u128 = 184_049_147_220_684_868;

fn hz(rate: u32) -> SampleHz {
    SampleHz::new(rate).unwrap()
}

fn tone_pad(frequency: u32) -> PadState {
    PadState::new(Generator::Tone(
        SineGenerator::with(MS, default_envelope(), frequency).unwrap(),
    ))
}

fn noise_pad(seed: u64) -> PadState {
    PadState::new(Generator::Noise(RandomGenerator::new(seed)))
}

fn phase_of(pad: &PadState) -> u128 {
    match pad.generator() {
        Generator::Tone(tone) => tone.phase(),
        Generator::Noise(_) => 0,
    }
}

#[test]
fn pad_starts_at_rest() {
    let pad = tone_pad(440_000);
    assert!(!pad.is_active());
    assert_eq!(pad.active_time(), 0);
    assert_eq!(pad.velocity(), 0);
}

#[test]
fn pad_at_rest_gives_silence_and_stays_as_it_is() {
    let mut pad = tone_pad(440_000);
    for _ in 0..10 {
        assert_eq!(pad.next_frame(hz(44_100)), 0);
    }
    assert!(!pad.is_active());
    assert_eq!(pad.active_time(), 0);
    assert_eq!(phase_of(&pad), 0);
}

#[test]
fn trigger_makes_the_pad_sound_from_time_zero() {
    let mut pad = tone_pad(440_000);
    pad.trigger(12_345);
    assert!(pad.is_active());
    assert_eq!(pad.active_time(), 0);
    assert_eq!(pad.velocity(), 12_345);
}

#[test]
fn pad_gives_generator_times_velocity() {
    let mut pad = tone_pad(440_000);
    pad.trigger(UNIT);
    assert_eq!(pad.next_frame(hz(44_100)), 292_723_147_878_095_126_528);
    assert_eq!(pad.active_time(), PERIOD);
    assert_eq!(pad.next_frame(hz(44_100)), 573_137_628_698_771_456_000);
    assert_eq!(pad.active_time(), 2 * PERIOD);
    assert_eq!(pad.next_frame(hz(44_100)), 840_206_783_365_999_755_264);
    assert!(pad.is_active());
}

#[test]
fn pad_scales_with_its_velocity() {
    let mut full = tone_pad(440_000);
    let mut third = tone_pad(440_000);
    let mut back = tone_pad(440_000);
    let mut none = tone_pad(440_000);
    full.trigger(30_000);
    third.trigger(10_000);
    back.trigger(-30_000);
    none.trigger(0);
    for _ in 0..44 {
        let f = full.next_frame(hz(44_100));
        assert_ne!(f, 0);
        assert_eq!(third.next_frame(hz(44_100)) * 3, f);
        assert_eq!(back.next_frame(hz(44_100)), -f);
        assert_eq!(none.next_frame(hz(44_100)), 0);
    }
    assert!(none.is_active());
}

#[test]
fn pad_goes_to_rest_when_its_envelope_has_run_out() {
    let mut pad = tone_pad(440_000);
    pad.trigger(UNIT);
    for k in 1..=44u64 {
        assert_ne!(pad.next_frame(hz(44_100)), 0);
        assert!(pad.is_active());
        assert_eq!(pad.active_time(), k * PERIOD);
    }
    let phase = phase_of(&pad);
    assert_eq!(phase, 44 * STEP_440);
    assert_eq!(pad.next_frame(hz(44_100)), 0);
    assert!(!pad.is_active());
    assert_eq!(pad.active_time(), 0);
    assert_eq!(pad.velocity(), 0);
    // the oscillator did not move with the sample that ended the sound
    assert_eq!(phase_of(&pad), phase);
    for _ in 0..100 {
        assert_eq!(pad.next_frame(hz(44_100)), 0);
        assert!(!pad.is_active());
    }
}

#[test]
fn pad_at_a_slow_rate_is_over_with_the_first_sample() {
    let mut pad = tone_pad(440_000);
    pad.trigger(UNIT);
    // one sample at 500 Hz lasts two milliseconds, the sound one
    assert_eq!(pad.next_frame(hz(500)), 0);
    assert!(!pad.is_active());
}

#[test]
fn pad_ages_at_the_fastest_rate_too() {
    let mut pad = tone_pad(440_000);
    pad.trigger(UNIT);
    for _ in 0..100 {
        pad.next_frame(hz(u32::MAX));
    }
    assert!(pad.is_active());
    assert_eq!(pad.active_time(), 100 * 232_830);
    // and its sound ends: 4294979 samples fit into a millisecond, the next ends it
    let mut frames = 100;
    while pad.is_active() {
        pad.next_frame(hz(u32::MAX));
        frames += 1;
    }
    assert_eq!(frames, 4_294_980);
}

#[test]
fn pad_goes_to_rest_with_the_first_sample_past_its_duration() {
    // a sound of exactly forty-four samples and no more
    let exact = SineGenerator::with(44 * PERIOD, default_envelope(), 440_000).unwrap();
    let mut pad = PadState::new(Generator::Tone(exact));
    pad.trigger(UNIT);
    for _ in 0..44 {
        pad.next_frame(hz(44_100));
        assert!(pad.is_active());
    }
    assert_eq!(pad.active_time(), 44 * PERIOD);
    assert_eq!(pad.next_frame(hz(44_100)), 0);
    assert!(!pad.is_active());
    // one femtosecond less, and the forty-fourth sample is past the end
    let short = SineGenerator::with(44 * PERIOD - 1, default_envelope(), 440_000).unwrap();
    let mut pad = PadState::new(Generator::Tone(short));
    pad.trigger(UNIT);
    for _ in 0..43 {
        pad.next_frame(hz(44_100));
    }
    assert!(pad.is_active());
    assert_eq!(pad.next_frame(hz(44_100)), 0);
    assert!(!pad.is_active());
}

#[test]
fn pad_under_a_flat_envelope_ends_on_time() {
    // ten seconds at full level: 441000 samples sound, the next does not
    let flat = drum_machine::envelope::Envelope::new(vec![
        drum_machine::envelope::Point::new(0, UNIT, 0),
        drum_machine::envelope::Point::new(WHOLE, UNIT, 0),
    ])
    .unwrap();
    let held = SineGenerator::with(10_000 * MS, flat, 440_000).unwrap();
    let mut pad = PadState::new(Generator::Tone(held));
    pad.trigger(UNIT);
    let mut frames = 0;
    while pad.is_active() {
        pad.next_frame(hz(44_100));
        frames += 1;
    }
    assert_eq!(frames, 441_001);
}

#[test]
fn trigger_while_sounding_starts_the_time_again_but_not_the_oscillator() {
    let mut pad = tone_pad(440_000);
    pad.trigger(UNIT);
    for _ in 0..30 {
        pad.next_frame(hz(44_100));
    }
    assert_eq!(pad.active_time(), 30 * PERIOD);
    pad.trigger(UNIT / 2);
    assert!(pad.is_active());
    assert_eq!(pad.active_time(), 0);
    assert_eq!(pad.velocity(), UNIT / 2);
    assert_eq!(phase_of(&pad), 30 * STEP_440);
    let mut frames = 0;
    while pad.is_active() {
        pad.next_frame(hz(44_100));
        frames += 1;
    }
    assert_eq!(frames, 45);
}

#[test]
fn silence_puts_the_pad_to_rest() {
    let mut pad = tone_pad(440_000);
    pad.trigger(UNIT);
    pad.next_frame(hz(44_100));
    pad.silence();
    assert!(!pad.is_active());
    assert_eq!(pad.active_time(), 0);
    assert_eq!(pad.velocity(), 0);
    assert_eq!(pad.next_frame(hz(44_100)), 0);
    // once more makes no difference
    pad.silence();
    assert!(!pad.is_active());
    assert_eq!(pad.active_time(), 0);
    assert_eq!(pad.velocity(), 0);
    assert_eq!(phase_of(&pad), STEP_440);
}

#[test]
fn pad_follows_a_change_of_sample_rate() {
    let mut pad = tone_pad(440_000);
    pad.trigger(UNIT);
    let mut outs = Vec::new();
    for _ in 0..3 {
        outs.push(pad.next_frame(hz(44_100)));
    }
    for _ in 0..3 {
        outs.push(pad.next_frame(hz(48_000)));
    }
    assert_eq!(
        outs,
        vec![
            292_723_147_878_095_126_528,
            573_137_628_698_771_456_000,
            840_206_783_365_999_755_264,
            1_073_006_642_276_341_907_456,
            1_293_092_711_782_709_985_280,
            1_499_881_971_365_613_404_160,
        ]
    );
    assert_eq!(phase_of(&pad), 1_059_432_903_689_067_273);
    assert_eq!(pad.active_time(), 130_527_210_882);
}

#[test]
fn noise_pad_stays_under_envelope_times_velocity() {
    let mut pad = noise_pad(4);
    pad.trigger(UNIT / 2);
    let mut frames = 0;
    let mut loud = 0;
    while pad.is_active() {
        let out = pad.next_frame(hz(44_100));
        assert!(out.abs() <= (UNIT as i128) * (UNIT as i128) * ((UNIT / 2) as i128));
        if out != 0 {
            loud += 1;
        }
        frames += 1;
    }
    assert_eq!(frames, 45);
    assert!(loud > 40);
    assert_eq!(pad.next_frame(hz(44_100)), 0);
}

#[test]
fn pad_with_the_longest_sound_takes_velocities_at_both_ends() {
    let long = SineGenerator::with(u64::MAX, default_envelope(), u32::MAX).unwrap();
    let mut pad = PadState::new(Generator::Tone(long));
    pad.trigger(i32::MIN);
    for _ in 0..1_000 {
        pad.next_frame(hz(1));
    }
    assert!(pad.is_active());
    assert_eq!(pad.active_time(), 1_000_000_000_000_000_000);
    pad.trigger(i32::MAX);
    pad.next_frame(hz(1));
    assert_eq!(pad.velocity(), i32::MAX);
}

#[test]
fn pad_with_the_longest_sound_ends_where_time_runs_out() {
    let long = SineGenerator::with(u64::MAX, default_envelope(), 440_000).unwrap();
    let mut pad = PadState::new(Generator::Tone(long));
    pad.trigger(UNIT);
    let mut frames = 0;
    while pad.is_active() {
        pad.next_frame(hz(1));
        frames += 1;
    }
    // 18446 seconds fit into the duration, the next lies past it
    assert_eq!(frames, 18_447);
    assert_eq!(pad.active_time(), 0);
}

#[test]
fn triggered_pad_is_silent_where_its_oscillator_sits_on_a_zero() {
    // at half the sample rate the oscillator moves by half a turn, from zero to zero
    let mut pad = tone_pad(22_050_000);
    pad.trigger(UNIT);
    assert_eq!(pad.next_frame(hz(44_100)), 0);
    assert!(pad.is_active());
    assert_eq!(phase_of(&pad), 1 << 63);
    assert_eq!(pad.next_frame(hz(44_100)), 0);
    assert!(pad.is_active());
}

#[test]
fn triggered_pad_is_silent_where_its_envelope_starts_at_nothing() {
    let env = drum_machine::envelope::Envelope::new(vec![
        drum_machine::envelope::Point::new(0, 0, 0),
        drum_machine::envelope::Point::new(WHOLE / 2, 0, 0),
        drum_machine::envelope::Point::new(WHOLE, UNIT, 0),
    ])
    .unwrap();
    let late = SineGenerator::with(MS, env, 440_000).unwrap();
    let mut pad = PadState::new(Generator::Tone(late));
    pad.trigger(UNIT);
    // the first half of the sound has no level
    for _ in 0..22 {
        assert_eq!(pad.next_frame(hz(44_100)), 0);
        assert!(pad.is_active());
    }
    assert_ne!(pad.next_frame(hz(44_100)), 0);
}

#[test]
fn retune_leaves_the_pad_as_it_is() {
    let mut pad = tone_pad(440_000);
    pad.trigger(UNIT);
    pad.next_frame(hz(44_100));
    pad.retune(hz(48_000));
    assert!(pad.is_active());
    assert_eq!(pad.active_time(), PERIOD);
    assert_eq!(pad.velocity(), UNIT);
    assert_eq!(phase_of(&pad), STEP_440);
    pad.retune(hz(44_100));
    assert_eq!(pad.next_frame(hz(44_100)), 573_137_628_698_771_456_000);
}

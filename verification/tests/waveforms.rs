use drum_machine::units::{TURN, UNIT};
use drum_machine::waveforms::{sine_at, Noise, Saw, Sine, Square, Waveform, HALF, QUARTER};

const STEP_440: u128 = 184_049_147_220_684_868;

fn exact_sine(phase: u128) -> f64 {
    (2.0 * std::f64::consts::PI * ((phase % TURN) as f64) / 18_446_744_073_709_551_616.0).sin()
        * (UNIT as f64)
}

#[test]
fn sine_passes_through_its_four_corners() {
    let mut sine = Sine;
    assert_eq!(sine.amp_at_phase(0), 0);
    assert_eq!(sine.amp_at_phase(QUARTER), UNIT);
    assert_eq!(sine.amp_at_phase(HALF), 0);
    assert_eq!(sine.amp_at_phase(HALF + QUARTER), -UNIT);
    assert_eq!(sine.amp_at_phase(TURN - 1), 0);
    assert_eq!(sine.amp_at_phase(TURN), 0);
    assert_eq!(sine.amp_at_phase(TURN + QUARTER), UNIT);
    assert_eq!(sine.amp_at_phase(QUARTER - 1), UNIT);
    assert_eq!(sine.amp_at_phase(QUARTER + 1), UNIT);
}

#[test]
fn sine_reads_between_the_entries_of_its_table() {
    assert_eq!(sine_at(QUARTER / 2), 11_863_283);
    assert_eq!(sine_at(STEP_440), 1_051_064);
    assert_eq!(sine_at(2 * STEP_440), 2_098_000);
    assert_eq!(sine_at(5), 0);
    assert_eq!(sine_at(TURN - STEP_440), -1_051_064);
    assert_eq!(sine_at(HALF - STEP_440), 1_051_064);
    assert_eq!(sine_at(HALF + STEP_440), -1_051_064);
}

#[test]
fn sine_table_holds_the_sine_to_thirty_bits() {
    // at an entry the sine is the entry, rounded to the unit of an amplitude
    let step = QUARTER / 64;
    for i in 0..=64u128 {
        let exact = (std::f64::consts::FRAC_PI_2 * (i as f64) / 64.0).sin();
        let entry = (exact * 1_073_741_824.0).round() as i64;
        let amp = ((entry + 32) >> 6) as i32;
        assert_eq!(sine_at(i * step), amp, "entry {}", i);
        assert_eq!(sine_at(HALF - i * step), amp);
        assert_eq!(sine_at(HALF + i * step), -amp);
        assert!((amp as f64 - exact * (UNIT as f64)).abs() < 0.51);
    }
}

#[test]
fn sine_is_within_one_unit_of_the_sine() {
    let mut worst: f64 = 0.0;
    // an even sweep of a quarter of a million phases, and as many scattered ones
    let mut phase: u64 = 12_345;
    for _ in 0..262_144u64 {
        let error = (sine_at(phase as u128) as f64 - exact_sine(phase as u128)).abs();
        worst = worst.max(error);
        phase = phase.wrapping_add(1 << 46);
    }
    let mut phase: u64 = 0x9E37_79B9_7F4A_7C15;
    for _ in 0..262_144u64 {
        let error = (sine_at(phase as u128) as f64 - exact_sine(phase as u128)).abs();
        worst = worst.max(error);
        phase = phase.wrapping_mul(6_364_136_223_846_793_005).wrapping_add(1_442_695_040_888_963_407);
    }
    assert!(worst < 0.75, "worst error {} units", worst);
}

#[test]
fn sine_is_within_one_unit_around_every_entry_of_its_table() {
    let step = (QUARTER / 64) as u64;
    let mut worst: f64 = 0.0;
    for i in 0..256u64 {
        for near in [0u64, 1, 2, 1 << 20, 1 << 40, step / 3, step / 2, step - 1] {
            for phase in [(i * step).wrapping_add(near), (i * step).wrapping_sub(near)] {
                let error = (sine_at(phase as u128) as f64 - exact_sine(phase as u128)).abs();
                worst = worst.max(error);
            }
        }
    }
    assert!(worst < 0.75, "worst error {} units", worst);
}

#[test]
fn sine_turns_its_sign_after_half_a_turn() {
    let mut phase: u128 = 0;
    for _ in 0..1_000 {
        assert_eq!(sine_at(phase + HALF), -sine_at(phase));
        phase += 0x0123_4567_89AB_CDEF;
    }
}

#[test]
fn waves_repeat_with_every_turn() {
    let mut sine = Sine;
    let mut saw = Saw;
    let mut square = Square;
    for phase in [0, 1, 12_345, QUARTER, QUARTER + 1, HALF, TURN - 1, STEP_440] {
        for turns in [1u128, 2, 1_000, u32::MAX as u128, (1 << 64) - 1] {
            assert_eq!(sine.amp_at_phase(phase + turns * TURN), sine.amp_at_phase(phase));
            assert_eq!(saw.amp_at_phase(phase + turns * TURN), saw.amp_at_phase(phase));
            assert_eq!(square.amp_at_phase(phase + turns * TURN), square.amp_at_phase(phase));
        }
    }
}

#[test]
fn sine_stays_between_minus_one_and_one() {
    let mut phase: u128 = 0;
    for _ in 0..100_000 {
        let amp = sine_at(phase);
        assert!((-UNIT..=UNIT).contains(&amp));
        phase += 0x0003_1415_9265_3589;
    }
    assert!((-UNIT..=UNIT).contains(&sine_at(u128::MAX)));
}

#[test]
fn saw_falls_from_one_to_minus_one() {
    let mut saw = Saw;
    assert_eq!(saw.amp_at_phase(0), UNIT);
    assert_eq!(saw.amp_at_phase(QUARTER), UNIT / 2);
    assert_eq!(saw.amp_at_phase(HALF), 0);
    assert_eq!(saw.amp_at_phase(TURN - 1), -UNIT + 1);
    assert_eq!(saw.amp_at_phase(TURN), UNIT);
    assert_eq!(saw.amp_at_phase(1 << 39), UNIT - 1);
    assert_eq!(saw.amp_at_phase((1 << 39) - 1), UNIT);
    assert_eq!(saw.amp_at_phase(STEP_440), 16_442_433);
}

#[test]
fn square_is_low_then_high() {
    let mut square = Square;
    assert_eq!(square.amp_at_phase(0), -UNIT);
    assert_eq!(square.amp_at_phase(HALF - 1), -UNIT);
    assert_eq!(square.amp_at_phase(HALF), UNIT);
    assert_eq!(square.amp_at_phase(TURN - 1), UNIT);
    assert_eq!(square.amp_at_phase(TURN), -UNIT);
}

#[test]
fn noise_stays_between_minus_one_and_one() {
    let mut noise = Noise::new(7);
    for phase in 0..10_000u128 {
        let amp = noise.amp_at_phase(phase);
        assert!((-UNIT..=UNIT).contains(&amp));
    }
}

#[test]
fn noise_takes_many_values() {
    let mut noise = Noise::new(1);
    let mut seen = std::collections::HashSet::new();
    let mut lowest = i32::MAX;
    let mut highest = i32::MIN;
    for _ in 0..1_000 {
        let amp = noise.draw();
        seen.insert(amp);
        lowest = lowest.min(amp);
        highest = highest.max(amp);
    }
    assert!(seen.len() > 900);
    assert!(lowest < -UNIT / 2);
    assert!(highest > UNIT / 2);
}

#[test]
fn noise_follows_from_its_seed() {
    let mut a = Noise::new(42);
    let mut b = Noise::new(42);
    let mut c = Noise::new(43);
    let first: Vec<i32> = (0..32).map(|_| a.draw()).collect();
    let second: Vec<i32> = (0..32).map(|_| b.draw()).collect();
    let third: Vec<i32> = (0..32).map(|_| c.draw()).collect();
    assert_eq!(first, second);
    assert_ne!(first, third);
}

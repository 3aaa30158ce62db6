//! Waveforms: the amplitude of one turn of a periodic signal, by phase.

use crate::arith::{floor_div, lemma_part_of};
use crate::units::{Amp, Phase, TURN, UNIT};
use vstd::arithmetic::div_mod::lemma_mod_multiples_vanish;
use vstd::arithmetic::mul::{lemma_mul_basics, lemma_mul_upper_bound};
use vstd::prelude::*;

verus! {

/// A source of amplitudes that is asked by phase.
pub trait Waveform {
    /// Whether the waveform may answer `amp` when asked at `phase`. It holds
    /// of one amplitude where the phase decides, and of several where chance
    /// does. A waveform that says no more may answer any amplitude between
    /// minus one and one.
    open spec fn gives(&self, phase: Phase, amp: Amp) -> bool {
        -UNIT <= amp <= UNIT
    }

    /// The amplitude at `phase`, between minus one and one. Asking may use
    /// up what the waveform draws from, but leaves it the waveform it was.
    fn amp_at_phase(&mut self, phase: Phase) -> (amp: Amp)
        ensures
            old(self).gives(phase, amp),
            -UNIT <= amp <= UNIT,
            forall|p: Phase, a: Amp| final(self).gives(p, a) == old(self).gives(p, a),
    ;
}

/// A quarter of a turn.
pub const QUARTER: Phase = 0x4000_0000_0000_0000;

/// Half a turn.
pub const HALF: Phase = 0x8000_0000_0000_0000;

/// The part of a turn from one entry of the sine table to the next: a
/// sixty-fourth of a quarter.
pub const STEP: Phase = 0x100_0000_0000_0000;

/// The sine table: the rising quarter of a sine wave in sixty-four steps,
/// with thirty fractional bits. Entry `i` is the sine of `i` sixty-fourths
/// of a right angle, to the nearest unit of the table.
pub open spec fn quarter_sine(i: int) -> int {
    if i == 0 {
        0
    } else if i == 1 {
        26350943
    } else if i == 2 {
        52686014
    } else if i == 3 {
        78989349
    } else if i == 4 {
        105245103
    } else if i == 5 {
        131437462
    } else if i == 6 {
        157550647
    } else if i == 7 {
        183568930
    } else if i == 8 {
        209476638
    } else if i == 9 {
        235258165
    } else if i == 10 {
        260897982
    } else if i == 11 {
        286380643
    } else if i == 12 {
        311690799
    } else if i == 13 {
        336813204
    } else if i == 14 {
        361732726
    } else if i == 15 {
        386434353
    } else if i == 16 {
        410903207
    } else if i == 17 {
        435124548
    } else if i == 18 {
        459083786
    } else if i == 19 {
        482766489
    } else if i == 20 {
        506158392
    } else if i == 21 {
        529245404
    } else if i == 22 {
        552013618
    } else if i == 23 {
        574449320
    } else if i == 24 {
        596538995
    } else if i == 25 {
        618269338
    } else if i == 26 {
        639627258
    } else if i == 27 {
        660599890
    } else if i == 28 {
        681174602
    } else if i == 29 {
        701339000
    } else if i == 30 {
        721080937
    } else if i == 31 {
        740388522
    } else if i == 32 {
        759250125
    } else if i == 33 {
        777654384
    } else if i == 34 {
        795590213
    } else if i == 35 {
        813046808
    } else if i == 36 {
        830013654
    } else if i == 37 {
        846480531
    } else if i == 38 {
        862437520
    } else if i == 39 {
        877875009
    } else if i == 40 {
        892783698
    } else if i == 41 {
        907154608
    } else if i == 42 {
        920979082
    } else if i == 43 {
        934248793
    } else if i == 44 {
        946955747
    } else if i == 45 {
        959092290
    } else if i == 46 {
        970651112
    } else if i == 47 {
        981625251
    } else if i == 48 {
        992008094
    } else if i == 49 {
        1001793390
    } else if i == 50 {
        1010975242
    } else if i == 51 {
        1019548121
    } else if i == 52 {
        1027506862
    } else if i == 53 {
        1034846671
    } else if i == 54 {
        1041563127
    } else if i == 55 {
        1047652185
    } else if i == 56 {
        1053110176
    } else if i == 57 {
        1057933813
    } else if i == 58 {
        1062120190
    } else if i == 59 {
        1065666786
    } else if i == 60 {
        1068571464
    } else if i == 61 {
        1070832474
    } else if i == 62 {
        1072448455
    } else if i == 63 {
        1073418433
    } else {
        1073741824
    }
}

/// The angle by which `rest`, a part of a table step in the unit of
/// `Phase`, lies past the table's entry, in radians with thirty fractional
/// bits: the part of the step, cut to thirty bits, times a hundred and
/// twenty-eighth of pi.
pub open spec fn angle_past(rest: int) -> int {
    (rest / 0x400_0000) * 26353589 / 0x4000_0000
}

/// The amplitude at `pos` along the rising quarter, `pos` running from `0`
/// to `QUARTER`. With `s` the table's entry at or before `pos`, `c` its
/// mirror (the cosine there) and `d` the angle past the entry, it is
/// `s + c d - s d^2 / 2 - c d^3 / 6 + s d^4 / 24`, each term rounded down
/// in the table's unit; the sum is rounded to the nearest unit of `Amp`
/// and held between zero and one.
#[verifier::opaque]
pub open spec fn quarter_wave(pos: int) -> int {
    let i = pos / 0x100_0000_0000_0000;
    let s = quarter_sine(i);
    let c = quarter_sine(64 - i);
    let d = angle_past(pos % 0x100_0000_0000_0000);
    let d2 = d * d / 0x4000_0000;
    let d3 = d2 * d / 0x4000_0000;
    let d4 = d2 * d2 / 0x4000_0000;
    let v = s + c * d / 0x4000_0000 - s * d2 / 0x8000_0000 - c * d3 / 0x1_8000_0000 + s * d4
        / 0x6_0000_0000;
    let a = (v + 32) / 64;
    if a < 0 {
        0
    } else if a > 0x100_0000 {
        0x100_0000
    } else {
        a
    }
}

/// The amplitude of the sine wave at `phase`. The second quarter of a turn
/// mirrors the first, and the second half is the first with its sign
/// turned.
pub open spec fn sine(phase: int) -> int {
    let at = phase % 0x1_0000_0000_0000_0000;
    let quadrant = at / 0x4000_0000_0000_0000;
    let pos = at % 0x4000_0000_0000_0000;
    if quadrant == 0 {
        quarter_wave(pos)
    } else if quadrant == 1 {
        quarter_wave(0x4000_0000_0000_0000 - pos)
    } else if quadrant == 2 {
        -quarter_wave(pos)
    } else {
        -quarter_wave(0x4000_0000_0000_0000 - pos)
    }
}

/// The amplitude of the sawtooth wave at `phase`: one at the start of a
/// turn, falling evenly to just above minus one at its end.
pub open spec fn saw(phase: int) -> int {
    0x100_0000 - (phase % 0x1_0000_0000_0000_0000) / 0x80_0000_0000
}

/// The amplitude of the square wave at `phase`: minus one in the first
/// half of a turn, one in the second.
pub open spec fn square(phase: int) -> int {
    if phase % 0x1_0000_0000_0000_0000 < 0x8000_0000_0000_0000 {
        -0x100_0000
    } else {
        0x100_0000
    }
}

/// The entries of the sine table rise from zero to one.
pub proof fn lemma_table_rises(i: int)
    requires
        0 <= i < 64,
    ensures
        0 <= quarter_sine(i) <= quarter_sine(i + 1) <= 0x4000_0000,
        quarter_sine(0) == 0,
        quarter_sine(64) == 0x4000_0000,
{
}

/// The rising quarter stays between zero and one.
pub proof fn lemma_quarter_wave_bounds(pos: int)
    ensures
        0 <= quarter_wave(pos) <= 0x100_0000,
{
    reveal(quarter_wave);
}

/// The table adds angles as sines do: the entry after `i` is the entry at
/// `i` times the cosine of one step and the cosine at `i` times the sine of
/// one step, to within two units of the table. With the circle, the two ends
/// and the rise of the table this leaves the table no room to be anything
/// but the sines of its angles.
pub proof fn lemma_table_adds_angles(i: int)
    requires
        0 <= i < 64,
    ensures
        -0x8000_0000 <= quarter_sine(i + 1) * 0x4000_0000 - (quarter_sine(i) * quarter_sine(63)
            + quarter_sine(64 - i) * quarter_sine(1)) <= 0x8000_0000,
{
}

/// The table lies on the circle: the square of an entry and the square of
/// its mirror, which is the cosine, add up to one to within two units of
/// the table.
pub proof fn lemma_table_is_on_the_circle(i: int)
    requires
        0 <= i <= 64,
    ensures
        -0x8000_0000 <= quarter_sine(i) * quarter_sine(i) + quarter_sine(64 - i) * quarter_sine(
            64 - i,
        ) - 0x1000_0000_0000_0000 <= 0x8000_0000,
{
}

/// At an entry of its table the rising quarter is the entry, rounded to
/// the nearest unit of `Amp`.
pub proof fn lemma_quarter_wave_at_entries(i: int)
    requires
        0 <= i <= 64,
    ensures
        quarter_wave(i * 0x100_0000_0000_0000) == (quarter_sine(i) + 32) / 64,
{
    reveal(quarter_wave);
    let pos = i * 0x100_0000_0000_0000;
    assert(pos / 0x100_0000_0000_0000 == i);
    assert(angle_past(pos % 0x100_0000_0000_0000) == 0);
    if i < 64 {
        lemma_table_rises(i);
    } else {
        lemma_table_rises(63);
    }
    lemma_mul_basics(quarter_sine(i));
    lemma_mul_basics(quarter_sine(64 - i));
}

/// The sine wave stays between minus one and one.
pub proof fn lemma_sine_bounds(phase: int)
    ensures
        -0x100_0000 <= sine(phase) <= 0x100_0000,
{
    let pos = (phase % 0x1_0000_0000_0000_0000) % 0x4000_0000_0000_0000;
    lemma_quarter_wave_bounds(pos);
    lemma_quarter_wave_bounds(0x4000_0000_0000_0000 - pos);
}

/// Half a turn on, the sine wave and the square wave have turned their
/// sign.
pub proof fn lemma_half_turn(phase: int)
    requires
        0 <= phase,
    ensures
        sine(phase + 0x8000_0000_0000_0000) == -sine(phase),
        square(phase + 0x8000_0000_0000_0000) == -square(phase),
{
}

/// Whole turns make no difference to a sine, sawtooth or square wave.
pub proof fn lemma_periodic(phase: int, turns: int)
    ensures
        sine(phase + turns * 0x1_0000_0000_0000_0000) == sine(phase),
        saw(phase + turns * 0x1_0000_0000_0000_0000) == saw(phase),
        square(phase + turns * 0x1_0000_0000_0000_0000) == square(phase),
{
    lemma_mod_multiples_vanish(turns, phase, 0x1_0000_0000_0000_0000);
    assert(0x1_0000_0000_0000_0000 * turns + phase == phase + turns * 0x1_0000_0000_0000_0000);
}

/// Reads the sine table.
fn table(i: u64) -> (r: u64)
    requires
        i <= 64,
    ensures
        r == quarter_sine(i as int),
        r <= 0x4000_0000,
    no_unwind
{
    match i {
        0 => 0,
        1 => 26350943,
        2 => 52686014,
        3 => 78989349,
        4 => 105245103,
        5 => 131437462,
        6 => 157550647,
        7 => 183568930,
        8 => 209476638,
        9 => 235258165,
        10 => 260897982,
        11 => 286380643,
        12 => 311690799,
        13 => 336813204,
        14 => 361732726,
        15 => 386434353,
        16 => 410903207,
        17 => 435124548,
        18 => 459083786,
        19 => 482766489,
        20 => 506158392,
        21 => 529245404,
        22 => 552013618,
        23 => 574449320,
        24 => 596538995,
        25 => 618269338,
        26 => 639627258,
        27 => 660599890,
        28 => 681174602,
        29 => 701339000,
        30 => 721080937,
        31 => 740388522,
        32 => 759250125,
        33 => 777654384,
        34 => 795590213,
        35 => 813046808,
        36 => 830013654,
        37 => 846480531,
        38 => 862437520,
        39 => 877875009,
        40 => 892783698,
        41 => 907154608,
        42 => 920979082,
        43 => 934248793,
        44 => 946955747,
        45 => 959092290,
        46 => 970651112,
        47 => 981625251,
        48 => 992008094,
        49 => 1001793390,
        50 => 1010975242,
        51 => 1019548121,
        52 => 1027506862,
        53 => 1034846671,
        54 => 1041563127,
        55 => 1047652185,
        56 => 1053110176,
        57 => 1057933813,
        58 => 1062120190,
        59 => 1065666786,
        60 => 1068571464,
        61 => 1070832474,
        62 => 1072448455,
        63 => 1073418433,
        _ => 1073741824,
    }
}

/// The part `b` in `den` of `a`, rounded down.
fn part(a: u64, b: u64, den: u64) -> (r: u64)
    requires
        0 < den,
        b <= den,
    ensures
        r == a * b / (den as int),
        r <= a,
    no_unwind
{
    proof {
        lemma_part_of(a as int, b as int, den as int);
        lemma_mul_upper_bound(a as int, 0xffff_ffff_ffff_ffff, b as int, 0xffff_ffff_ffff_ffff);
    }
    (((a as u128) * (b as u128)) / (den as u128)) as u64
}

/// Computes `quarter_wave`.
fn rising(pos: u64) -> (r: Amp)
    requires
        pos <= QUARTER,
    ensures
        r == quarter_wave(pos as int),
        0 <= r <= UNIT,
    no_unwind
{
    proof {
        reveal(quarter_wave);
    }
    let i: u64 = pos / 0x100_0000_0000_0000;
    let s: u64 = table(i);
    let c: u64 = table(64 - i);
    let d: u64 = part((pos % 0x100_0000_0000_0000) / 0x400_0000, 26353589, 0x4000_0000);
    let d2: u64 = part(d, d, 0x4000_0000);
    let d3: u64 = part(d2, d, 0x4000_0000);
    let d4: u64 = part(d2, d2, 0x4000_0000);
    let t1: u64 = part(c, d, 0x4000_0000);
    let t2: u64 = part(s, d2, 0x8000_0000);
    let t3: u64 = part(c, d3, 0x1_8000_0000);
    let t4: u64 = part(s, d4, 0x6_0000_0000);
    let v: i128 = (s as i128) + (t1 as i128) - (t2 as i128) - (t3 as i128) + (t4 as i128);
    let a: i128 = floor_div(v + 32, 64);
    if a < 0 {
        0
    } else if a > UNIT as i128 {
        UNIT
    } else {
        a as Amp
    }
}

/// A sine wave.
#[derive(Clone, Copy, Debug)]
pub struct Sine;

/// A sawtooth wave.
#[derive(Clone, Copy, Debug)]
pub struct Saw;

/// A square wave.
#[derive(Clone, Copy, Debug)]
pub struct Square;

/// A noise signal. It owns the generator of random numbers that it draws
/// from, so that two noise signals never share one.
#[derive(Debug)]
pub struct Noise {
    rng: rand::rngs::StdRng,
}

impl Noise {
    /// A noise signal whose amplitudes follow from `seed`.
    pub fn new(seed: u64) -> Noise {
        Noise { rng: seeded(seed) }
    }

    /// The next amplitude, anywhere between minus one and one.
    pub fn draw(&mut self) -> (amp: Amp)
        ensures
            -UNIT <= amp <= UNIT,
        no_unwind
    {
        draw_between(&mut self.rng, -UNIT, UNIT)
    }
}

/// Computes `sine`.
pub fn sine_at(phase: Phase) -> (amp: Amp)
    ensures
        amp == sine(phase as int),
        -UNIT <= amp <= UNIT,
    no_unwind
{
    proof {
        lemma_sine_bounds(phase as int);
    }
    let at: u64 = (phase % TURN) as u64;
    let quadrant: u64 = at / 0x4000_0000_0000_0000;
    let pos: u64 = at % 0x4000_0000_0000_0000;
    if quadrant == 0 {
        rising(pos)
    } else if quadrant == 1 {
        rising(0x4000_0000_0000_0000 - pos)
    } else if quadrant == 2 {
        -rising(pos)
    } else {
        -rising(0x4000_0000_0000_0000 - pos)
    }
}

impl Waveform for Sine {
    open spec fn gives(&self, phase: Phase, amp: Amp) -> bool {
        amp == sine(phase as int)
    }

    fn amp_at_phase(&mut self, phase: Phase) -> (amp: Amp) {
        sine_at(phase)
    }
}

impl Waveform for Saw {
    open spec fn gives(&self, phase: Phase, amp: Amp) -> bool {
        amp == saw(phase as int)
    }

    fn amp_at_phase(&mut self, phase: Phase) -> (amp: Amp) {
        let fall: u128 = (phase % TURN) / 0x80_0000_0000;
        (UNIT as i64 - fall as i64) as Amp
    }
}

impl Waveform for Square {
    open spec fn gives(&self, phase: Phase, amp: Amp) -> bool {
        amp == square(phase as int)
    }

    fn amp_at_phase(&mut self, phase: Phase) -> (amp: Amp) {
        if phase % TURN < HALF {
            -UNIT
        } else {
            UNIT
        }
    }
}

impl Waveform for Noise {
    open spec fn gives(&self, phase: Phase, amp: Amp) -> bool {
        -UNIT <= amp <= UNIT
    }

    fn amp_at_phase(&mut self, phase: Phase) -> (amp: Amp) {
        self.draw()
    }
}

/// `rand::rngs::StdRng`, the generator of random numbers that a noise signal
/// owns. Nothing is known of what it holds.
#[verifier::external_type_specification]
#[verifier::external_body]
pub struct ExStdRng(rand::rngs::StdRng);

/// `rand::SeedableRng::seed_from_u64` for `StdRng`: a generator whose
/// numbers follow from `seed`. Nothing is claimed of it.
#[verifier::external_body]
fn seeded(seed: u64) -> rand::rngs::StdRng {
    rand::SeedableRng::seed_from_u64(seed)
}

/// `rand::RngExt::random_range` on an inclusive range of `i32` that is not
/// empty. The result lies in the range, and the call returns; which of the
/// range's values comes is left to the generator.
#[verifier::external_body]
fn draw_between(rng: &mut rand::rngs::StdRng, low: i32, high: i32) -> (r: i32)
    requires
        low <= high,
    ensures
        low <= r <= high,
    no_unwind
{
    rand::RngExt::random_range(rng, low..=high)
}

} // verus!

//! A first order filter: low pass, high pass, and the two shelves.
//!
//! The filter is built around a first order all pass. The two numbers that
//! shape it, a tangent and an amplitude ratio, follow from the cutoff, the
//! gain and the sample rate by functions that integers cannot compute; they
//! come in from outside with every sample, as a `Warp`.

use crate::arith::{clamp, clamped, floor_div, lemma_product_bound};
use crate::units::{Amp, Frequency, SynthError};
use vstd::arithmetic::mul::{lemma_mul_nonnegative, lemma_mul_upper_bound};
use vstd::prelude::*;

verus! {

/// What a filter passes and what it holds back.
#[derive(Clone, Copy, Debug, PartialEq, Eq, Structural)]
pub enum FilterMode {
    /// LowPass(cutoff)
    LowPass(Frequency),
    /// HighPass(cutoff)
    HighPass(Frequency),
    /// LowShelf(cutoff, gain), the gain in decibels in the unit of `Amp`
    LowShelf(Frequency, Amp),
    /// HighShelf(cutoff, gain), the gain in decibels in the unit of `Amp`
    HighShelf(Frequency, Amp),
}

/// The two numbers that shape a filter at a sample rate, both in the unit
/// of `Amp`.
#[derive(Clone, Copy, Debug)]
pub struct Warp {
    /// The tangent of half a turn times the cutoff over the sample rate.
    k: u32,
    /// The amplitude ratio of the shelf's gain: ten to the power of a
    /// twentieth of the gain in decibels.
    v0: u32,
}

impl Warp {
    #[verifier::type_invariant]
    closed spec fn inv(self) -> bool {
        self.v0 >= 1
    }

    /// The tangent.
    pub closed spec fn k(self) -> int {
        self.k as int
    }

    /// The amplitude ratio, never zero.
    pub closed spec fn v0(self) -> int {
        self.v0 as int
    }

    /// A warp of tangent `k` and amplitude ratio `v0`. A ratio of zero is
    /// refused: no gain in decibels has it.
    pub fn new(k: u32, v0: u32) -> (r: Result<Warp, SynthError>)
        ensures
            v0 == 0 ==> r is Err && r->Err_0 == SynthError::ZeroRatio,
            v0 != 0 ==> r is Ok && r->Ok_0.k() == k && r->Ok_0.v0() == v0,
        no_unwind
    {
        if v0 == 0 {
            Err(SynthError::ZeroRatio)
        } else {
            Ok(Warp { k, v0 })
        }
    }

    /// The tangent.
    pub fn tangent(&self) -> (k: u32)
        ensures
            k == self.k(),
        no_unwind
    {
        self.k
    }

    /// The amplitude ratio.
    pub fn ratio(&self) -> (v0: u32)
        ensures
            v0 == self.v0(),
            v0 >= 1,
        no_unwind
    {
        proof {
            use_type_invariant(self);
        }
        self.v0
    }
}

/// The coefficient of the all pass, in the unit of `Amp`, rounded down.
/// It is `(k - 1) / (k + 1)`, but for a low shelf that cuts, where it is
/// `(k - v0) / (k + v0)`, and a high shelf that boosts, where it is
/// `(v0 * k - 1) / (k + 1)`.
pub open spec fn alpha(mode: FilterMode, k: int, v0: int) -> int {
    match mode {
        FilterMode::LowShelf(_, gain) if gain < 0 => (k - v0) * 0x100_0000 / (k + v0),
        FilterMode::HighShelf(_, gain) if gain > 0 => (v0 * k - 0x100_0000 * 0x100_0000) / (k + 0x100_0000),
        _ => (k - 0x100_0000) * 0x100_0000 / (k + 0x100_0000),
    }
}

/// The gain that a shelf adds to what it lets through, in the unit of
/// `Amp`: the amplitude ratio less one, and nothing for a low pass or a
/// high pass.
pub open spec fn h0(mode: FilterMode, v0: int) -> int {
    match mode {
        FilterMode::LowPass(_) | FilterMode::HighPass(_) => 0,
        _ => v0 - 0x100_0000,
    }
}

/// What the all pass gives for the sample `x` after the sample `x_last`,
/// for which it gave `y1_last`: `alpha * (x - y1_last) + x_last`, rounded
/// down and held within the range of an `Amp`.
pub open spec fn all_pass(alpha: int, x_last: int, y1_last: int, x: int) -> int {
    clamp(alpha * (x - y1_last) / 0x100_0000 + x_last)
}

/// What the filter gives for the sample `x` where the all pass gives `y1`:
/// half their sum for a low pass, half their difference for a high pass;
/// for a shelf that half times the shelf's gain, and the sample on top.
/// Rounded down and held within the range of an `Amp`.
pub open spec fn output(mode: FilterMode, h0: int, x: int, y1: int) -> int {
    match mode {
        FilterMode::LowPass(_) => clamp((x + y1) / 2),
        FilterMode::HighPass(_) => clamp((x - y1) / 2),
        FilterMode::LowShelf(_, _) => clamp(h0 * (x + y1) / 0x200_0000 + x),
        FilterMode::HighShelf(_, _) => clamp(h0 * (x - y1) / 0x200_0000 + x),
    }
}

/// A filter as mathematics: its mode and what it remembers.
pub struct FilterView {
    /// The sample before.
    pub x_last: int,
    /// What the all pass gave for the sample before.
    pub y1_last: int,
    /// The mode.
    pub mode: FilterMode,
}

impl FilterView {
    /// The filter after the sample `x` under a warp of tangent `k` and
    /// amplitude ratio `v0`, and what it gives for the sample.
    pub open spec fn step(self, x: int, k: int, v0: int) -> (FilterView, int) {
        let y1 = all_pass(alpha(self.mode, k, v0), self.x_last, self.y1_last, x);
        (FilterView { x_last: x, y1_last: y1, mode: self.mode }, output(self.mode, h0(self.mode, v0), x, y1))
    }
}

/// A first order filter.
#[derive(Clone, Copy, Debug, PartialEq, Eq, Structural)]
pub struct Filter {
    x_last: Amp,
    y1_last: Amp,
    mode: FilterMode,
}

impl View for Filter {
    type V = FilterView;

    closed spec fn view(&self) -> FilterView {
        FilterView { x_last: self.x_last as int, y1_last: self.y1_last as int, mode: self.mode }
    }
}

impl Filter {
    /// Creates a new first order filter with the provided mode, with
    /// silence behind it.
    pub fn new(mode: FilterMode) -> (f: Filter)
        ensures
            f@ == (FilterView { x_last: 0, y1_last: 0, mode }),
        no_unwind
    {
        Filter { x_last: 0, y1_last: 0, mode }
    }

    /// The mode of the filter.
    pub fn mode(&self) -> (mode: FilterMode)
        ensures
            mode == self@.mode,
        no_unwind
    {
        self.mode
    }

    /// The sample before, and what the all pass gave for it.
    pub fn history(&self) -> (h: (Amp, Amp))
        ensures
            h.0 == self@.x_last,
            h.1 == self@.y1_last,
        no_unwind
    {
        (self.x_last, self.y1_last)
    }

    /// Filters one sample: runs the all pass, feeds back the result, and
    /// gives the output of the mode.
    pub fn tick(&mut self, amp: Amp, warp: Warp) -> (y: Amp)
        ensures
            (final(self)@, y as int) == old(self)@.step(amp as int, warp.k(), warp.v0()),
        no_unwind
    {
        let (alpha, h0) = self.compute_parameters(warp);
        let x: i128 = amp as i128;
        let turn: i128 = x - (self.y1_last as i128);
        proof {
            lemma_product_bound(alpha as int, 0x1_0000_0000_0000_0000, turn as int, 0x1_0000_0000);
        }
        let y1: Amp = clamped(floor_div(alpha * turn, 0x100_0000) + (self.x_last as i128));
        proof {
            lemma_product_bound(h0 as int, 0x1_0000_0000, x + (y1 as i128), 0x1_0000_0000);
            lemma_product_bound(h0 as int, 0x1_0000_0000, x - (y1 as i128), 0x1_0000_0000);
        }
        let y: Amp = match self.mode {
            FilterMode::LowPass(_) => clamped(floor_div(x + (y1 as i128), 2)),
            FilterMode::HighPass(_) => clamped(floor_div(x - (y1 as i128), 2)),
            FilterMode::LowShelf(_, _) => clamped(floor_div(h0 * (x + (y1 as i128)), 0x200_0000) + x),
            FilterMode::HighShelf(_, _) => clamped(floor_div(h0 * (x - (y1 as i128)), 0x200_0000) + x),
        };
        // Store our results
        self.x_last = amp;
        self.y1_last = y1;
        y
    }

    /// Computes the (alpha, H0) parameters for our filter
    pub fn compute_parameters(&self, warp: Warp) -> (r: (i128, i128))
        ensures
            r.0 == alpha(self@.mode, warp.k(), warp.v0()),
            r.1 == h0(self@.mode, warp.v0()),
            -0x1_0000_0000_0000_0000 <= r.0 <= 0x1_0000_0000_0000_0000,
            -0x1_0000_0000 <= r.1 <= 0x1_0000_0000,
        no_unwind
    {
        let k: i128 = warp.tangent() as i128;
        let v0: i128 = warp.ratio() as i128;
        let plain: i128 = floor_div((k - 0x100_0000) * 0x100_0000, k + 0x100_0000);
        match self.mode {
            FilterMode::LowPass(_) | FilterMode::HighPass(_) => (plain, 0),
            FilterMode::LowShelf(_, gain) => {
                let alpha: i128 = if gain < 0 {
                    floor_div((k - v0) * 0x100_0000, k + v0)
                } else {
                    plain
                };
                (alpha, v0 - 0x100_0000)
            },
            FilterMode::HighShelf(_, gain) => {
                let alpha: i128 = if gain > 0 {
                    proof {
                        lemma_mul_upper_bound(v0 as int, 0x1_0000_0000, k as int, 0x1_0000_0000);
                        lemma_mul_nonnegative(v0 as int, k as int);
                    }
                    floor_div(v0 * k - 0x100_0000 * 0x100_0000, k + 0x100_0000)
                } else {
                    plain
                };
                (alpha, v0 - 0x100_0000)
            },
        }
    }
}

} // verus!

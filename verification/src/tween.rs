//! Keyframe tweening: time-driven interpolation between keyframed values
//! with cubic easing, optional looping, and play/stop semantics.
//!
//! Keyframes pair a fraction of the tween's length, in thousandths, with a
//! value in milli-units. While playing, `get_val` locates the keyframe
//! interval bracketing the elapsed fraction and interpolates inside it
//! through the easing curve; once stopped it reports the last keyframe's
//! fraction, a quirk the rest of the game relies on (every caller's final
//! keyframe fraction is one thousand, which reads as "full scale").

use crate::config::{CFG_LIMIT, ELAPSED_CAP, VAL_LIMIT};
use crate::num::{
    iabs, lemma_muldiv_le_first, lemma_muldiv_le_prod, lemma_ratio_milli, mul_div, muldiv,
};
use vstd::prelude::*;

verus! {

/// A keyframe: a fraction of the tween length in thousandths, and the value
/// the tween passes through at that fraction, in milli-units.
pub type KeyFrame = (i64, i64);

/// The easing curve applied to the local fraction inside an interval.
#[derive(Clone, Copy, Debug, PartialEq, Eq, Structural)]
pub enum Easing {
    Linear,
    EaseIn,
    EaseOut,
    EaseInOut,
}

/// Identity easing.
pub open spec fn ease_linear_spec(f: int) -> int {
    f
}

/// Cubic ease-in: `f^3`, in thousandths.
pub open spec fn ease_in_spec(f: int) -> int {
    f * f * f / 1000000
}

/// Cubic ease-out: `1 - (1 - f)^3`, in thousandths.
pub open spec fn ease_out_spec(f: int) -> int {
    1000 - (1000 - f) * (1000 - f) * (1000 - f) / 1000000
}

/// Cubic ease-in-out, symmetric about the midpoint, in thousandths.
pub open spec fn ease_in_out_spec(f: int) -> int {
    if f < 500 {
        (2 * f) * (2 * f) * (2 * f) / 2000000
    } else {
        1000 - (2000 - 2 * f) * (2000 - 2 * f) * (2000 - 2 * f) / 2000000
    }
}

/// The chosen easing curve applied to a fraction in thousandths.
pub open spec fn ease_spec(e: Easing, f: int) -> int {
    match e {
        Easing::Linear => ease_linear_spec(f),
        Easing::EaseIn => ease_in_spec(f),
        Easing::EaseOut => ease_out_spec(f),
        Easing::EaseInOut => ease_in_out_spec(f),
    }
}

/// A cube of a fraction in thousandths stays within `[0, 1000000000]`.
proof fn lemma_cube_bounds(g: int)
    by (nonlinear_arith)
    requires
        0 <= g <= 1000,
    ensures
        0 <= g * g * g <= 1000000000,
        0 <= g * g <= 1000000,
{
}

/// Every easing curve maps `[0, 1000]` into `[0, 1000]`.
pub proof fn lemma_ease_spec_bounds(e: Easing, f: int)
    requires
        0 <= f <= 1000,
    ensures
        0 <= ease_spec(e, f) <= 1000,
{
    lemma_cube_bounds(f);
    lemma_cube_bounds(1000 - f);
    crate::num::lemma_div_nonneg(f * f * f, 1000000);
    crate::num::lemma_div_le_k(f * f * f, 1000000, 1000);
    crate::num::lemma_div_nonneg((1000 - f) * (1000 - f) * (1000 - f), 1000000);
    crate::num::lemma_div_le_k((1000 - f) * (1000 - f) * (1000 - f), 1000000, 1000);
    if f < 500 {
        lemma_cube_bounds(2 * f);
        crate::num::lemma_div_nonneg((2 * f) * (2 * f) * (2 * f), 2000000);
        crate::num::lemma_div_le_k((2 * f) * (2 * f) * (2 * f), 2000000, 1000);
    } else {
        lemma_cube_bounds(2000 - 2 * f);
        crate::num::lemma_div_nonneg((2000 - 2 * f) * (2000 - 2 * f) * (2000 - 2 * f), 2000000);
        crate::num::lemma_div_le_k((2000 - 2 * f) * (2000 - 2 * f) * (2000 - 2 * f), 2000000, 1000);
    }
}

/// Cubic ease-in on a fraction in thousandths.
pub fn ease_in(f: i64) -> (r: i64)
    requires
        0 <= f <= 1000,
    ensures
        r == ease_in_spec(f as int),
        0 <= r <= 1000,
{
    proof {
        lemma_cube_bounds(f as int);
        lemma_ease_spec_bounds(Easing::EaseIn, f as int);
    }
    f * f * f / 1000000
}

/// Cubic ease-out on a fraction in thousandths.
pub fn ease_out(f: i64) -> (r: i64)
    requires
        0 <= f <= 1000,
    ensures
        r == ease_out_spec(f as int),
        0 <= r <= 1000,
{
    proof {
        lemma_cube_bounds(1000 - f as int);
        lemma_ease_spec_bounds(Easing::EaseOut, f as int);
    }
    let g: i64 = 1000 - f;
    1000 - g * g * g / 1000000
}

/// Cubic ease-in-out on a fraction in thousandths.
pub fn ease_in_out(f: i64) -> (r: i64)
    requires
        0 <= f <= 1000,
    ensures
        r == ease_in_out_spec(f as int),
        0 <= r <= 1000,
{
    proof {
        lemma_ease_spec_bounds(Easing::EaseInOut, f as int);
    }
    if f < 500 {
        proof {
            lemma_cube_bounds(2 * f as int);
        }
        let g: i64 = 2 * f;
        g * g * g / 2000000
    } else {
        proof {
            lemma_cube_bounds(2000 - 2 * f as int);
        }
        let g: i64 = 2000 - 2 * f;
        1000 - g * g * g / 2000000
    }
}

/// Applies the chosen easing curve to a fraction in thousandths.
pub fn ease_val(e: Easing, f: i64) -> (r: i64)
    requires
        0 <= f <= 1000,
    ensures
        r == ease_spec(e, f as int),
        0 <= r <= 1000,
{
    match e {
        Easing::Linear => f,
        Easing::EaseIn => ease_in(f),
        Easing::EaseOut => ease_out(f),
        Easing::EaseInOut => ease_in_out(f),
    }
}

/// Index of the first keyframe whose fraction is at least `tf`, or the
/// sequence length when every fraction is below `tf`.
pub open spec fn first_at_least(kfs: Seq<KeyFrame>, tf: int) -> int
    decreases kfs.len(),
{
    if kfs.len() == 0 {
        0
    } else if kfs.first().0 >= tf {
        0
    } else {
        1 + first_at_least(kfs.drop_first(), tf)
    }
}

/// `first_at_least` is pinned down by a scan that stopped at `i`: every
/// earlier fraction is below `tf`, and the fraction at `i`, if any, is not.
pub proof fn lemma_first_at_least_is(kfs: Seq<KeyFrame>, tf: int, i: int)
    requires
        0 <= i <= kfs.len(),
        forall|j: int| 0 <= j < i ==> (#[trigger] kfs[j]).0 < tf,
        i < kfs.len() ==> kfs[i].0 >= tf,
    ensures
        first_at_least(kfs, tf) == i,
    decreases kfs.len(),
{
    if kfs.len() == 0 {
    } else if kfs.first().0 >= tf {
        assert(i == 0) by {
            if i > 0 {
                assert(kfs[0].0 < tf);
            }
        }
    } else {
        let rest = kfs.drop_first();
        assert(forall|j: int| 0 <= j < i - 1 ==> (#[trigger] rest[j]).0 < tf) by {
            assert(forall|j: int| 0 <= j < i - 1 ==> rest[j] == kfs[j + 1]);
        }
        assert(i - 1 < rest.len() ==> rest[i - 1].0 >= tf);
        lemma_first_at_least_is(rest, tf, i - 1);
    }
}

/// A tween: keyframes, a total length in milliseconds, the elapsed clock,
/// the easing curve, and loop / play flags.
#[derive(Debug)]
pub struct Tween {
    pub keyframes: Vec<KeyFrame>,
    pub length: i64,
    pub elapsed: i64,
    pub easing: Easing,
    pub looped: bool,
    pub playing: bool,
}

impl Tween {
    /// A usable tween: at least two keyframes, fractions strictly ascending
    /// within `[0, 1000]`, values bounded, a positive bounded length, and an
    /// elapsed clock inside the model's range.
    pub open spec fn wf(self) -> bool {
        &&& self.keyframes@.len() >= 2
        &&& 1 <= self.length <= CFG_LIMIT
        &&& 0 <= self.elapsed <= ELAPSED_CAP
        &&& forall|i: int|
            0 <= i < self.keyframes@.len() ==> 0 <= (#[trigger] self.keyframes@[i]).0 <= 1000
        &&& forall|i: int|
            0 <= i < self.keyframes@.len() ==> iabs((#[trigger] self.keyframes@[i]).1 as int)
                <= VAL_LIMIT
        &&& forall|i: int, j: int|
            0 <= i < j < self.keyframes@.len() ==> (#[trigger] self.keyframes@[i]).0 < (
            #[trigger] self.keyframes@[j]).0
    }

    /// Builds a stopped tween at elapsed zero. A zero length or fewer than
    /// two keyframes is a configuration bug and is ruled out here.
    pub fn new(keyframes: Vec<KeyFrame>, length: i64, easing: Easing, looped: bool) -> (t: Tween)
        requires
            keyframes@.len() >= 2,
            1 <= length <= CFG_LIMIT,
            forall|i: int| 0 <= i < keyframes@.len() ==> 0 <= (#[trigger] keyframes@[i]).0 <= 1000,
            forall|i: int|
                0 <= i < keyframes@.len() ==> iabs((#[trigger] keyframes@[i]).1 as int)
                    <= VAL_LIMIT,
            forall|i: int, j: int|
                0 <= i < j < keyframes@.len() ==> (#[trigger] keyframes@[i]).0 < (
                #[trigger] keyframes@[j]).0,
        ensures
            t.keyframes@ == keyframes@,
            t.length == length,
            t.elapsed == 0,
            t.easing == easing,
            t.looped == looped,
            !t.playing,
            t.wf(),
    {
        Tween { keyframes, length, elapsed: 0, easing, looped, playing: false }
    }

    /// The state after advancing the clock by `dt` milliseconds: no-op while
    /// stopped; on overflowing the length, a looped tween wraps once and a
    /// one-shot tween clamps to the length and stops. The clock saturates at
    /// `ELAPSED_CAP`.
    pub open spec fn spec_update(self, dt: int) -> Tween {
        if !self.playing {
            self
        } else {
            let e2 = if self.elapsed + dt <= ELAPSED_CAP {
                self.elapsed + dt
            } else {
                ELAPSED_CAP as int
            };
            if e2 > self.length {
                if self.looped {
                    Tween { elapsed: (e2 - self.length) as i64, ..self }
                } else {
                    Tween { elapsed: self.length, playing: false, ..self }
                }
            } else {
                Tween { elapsed: e2 as i64, ..self }
            }
        }
    }

    /// Advances the clock by `dt` milliseconds.
    pub fn update(&mut self, dt: u32)
        requires
            old(self).wf(),
        ensures
            *final(self) == old(self).spec_update(dt as int),
            final(self).wf(),
    {
        if !self.playing {
            return ;
        }
        let e2: i64 = if self.elapsed + (dt as i64) <= ELAPSED_CAP {
            self.elapsed + (dt as i64)
        } else {
            ELAPSED_CAP
        };
        if e2 > self.length {
            if self.looped {
                self.elapsed = e2 - self.length;
            } else {
                self.playing = false;
                self.elapsed = self.length;
            }
        } else {
            self.elapsed = e2;
        }
    }

    /// The value reported at the current clock; the last keyframe's
    /// fraction once stopped.
    pub open spec fn spec_get_val(self) -> int {
        if !self.playing {
            self.keyframes@.last().0 as int
        } else {
            let tf = muldiv(self.elapsed as int, 1000, self.length as int);
            let idx = first_at_least(self.keyframes@, tf);
            if idx == 0 {
                self.keyframes@[0].1 as int
            } else if idx == self.keyframes@.len() {
                self.keyframes@.last().1 as int
            } else {
                let from = self.keyframes@[idx - 1];
                let to = self.keyframes@[idx];
                let f = muldiv(tf - from.0, 1000, (to.0 - from.0) as int);
                from.1 + muldiv((to.1 - from.1) as int, ease_spec(self.easing, f), 1000)
            }
        }
    }

    /// Reads the interpolated value at the current clock.
    pub fn get_val(&self) -> (r: i64)
        requires
            self.wf(),
        ensures
            r == self.spec_get_val(),
    {
        let n: usize = self.keyframes.len();
        if !self.playing {
            return self.keyframes[n - 1].0;
        }
        proof {
            lemma_muldiv_le_prod(self.elapsed as int, 1000, self.length as int);
            assert(iabs(self.elapsed as int) * 1000 <= ELAPSED_CAP * 1000) by (nonlinear_arith)
                requires
                    0 <= self.elapsed <= ELAPSED_CAP,
            ;
            crate::num::lemma_div_nonneg(self.elapsed as int * 1000, self.length as int);
            assert(self.elapsed as int * 1000 >= 0) by (nonlinear_arith)
                requires
                    self.elapsed >= 0,
            ;
        }
        let tf: i64 = mul_div(self.elapsed, 1000, self.length);
        let mut idx: usize = 0;
        while idx < n && self.keyframes[idx].0 < tf
            invariant
                self.wf(),
                n == self.keyframes@.len(),
                0 <= idx <= n,
                forall|j: int| 0 <= j < idx ==> (#[trigger] self.keyframes@[j]).0 < tf,
            decreases n - idx,
        {
            idx = idx + 1;
        }
        proof {
            lemma_first_at_least_is(self.keyframes@, tf as int, idx as int);
        }
        if idx == 0 {
            self.keyframes[0].1
        } else if idx == n {
            self.keyframes[n - 1].1
        } else {
            let from: KeyFrame = self.keyframes[idx - 1];
            let to: KeyFrame = self.keyframes[idx];
            proof {
                lemma_ratio_milli((tf - from.0) as int, (to.0 - from.0) as int);
            }
            let f: i64 = mul_div(tf - from.0, 1000, to.0 - from.0);
            let e: i64 = ease_val(self.easing, f);
            proof {
                lemma_muldiv_le_first((to.1 - from.1) as int, e as int, 1000);
            }
            from.1 + mul_div(to.1 - from.1, e, 1000)
        }
    }

    /// Builds a stopped two-keyframe tween from `v0` at fraction zero to
    /// `v1` at the full length.
    pub fn two_keyframes(v0: i64, v1: i64, length: i64, easing: Easing, looped: bool) -> (t: Tween)
        requires
            1 <= length <= CFG_LIMIT,
            iabs(v0 as int) <= VAL_LIMIT,
            iabs(v1 as int) <= VAL_LIMIT,
        ensures
            t.keyframes@ == seq![(0i64, v0), (1000i64, v1)],
            t.length == length,
            t.elapsed == 0,
            t.easing == easing,
            t.looped == looped,
            !t.playing,
            t.wf(),
    {
        let mut kfs: Vec<KeyFrame> = Vec::new();
        kfs.push((0, v0));
        kfs.push((1000, v1));
        proof {
            assert(kfs@ =~= seq![(0i64, v0), (1000i64, v1)]);
        }
        Tween::new(kfs, length, easing, looped)
    }

    /// Restarts the tween: playing from elapsed zero.
    pub fn reset(&mut self)
        ensures
            *final(self) == (Tween { elapsed: 0i64, playing: true, ..*old(self) }),
    {
        self.playing = true;
        self.elapsed = 0;
    }

    /// Forces the tween to its stopped terminal state.
    pub fn stop(&mut self)
        ensures
            *final(self) == (Tween { elapsed: old(self).length, playing: false, ..*old(self) }),
    {
        self.playing = false;
        self.elapsed = self.length;
    }

    /// Whether the tween is still playing.
    pub fn is_playing(&self) -> (r: bool)
        ensures
            r == self.playing,
    {
        self.playing
    }
}

} // verus!

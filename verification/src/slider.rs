//! Slider values and the drag-distance-to-step conversion. All of the
//! arithmetic is exact: range fractions are kept as integer numerator and
//! denominator, and drag distances in fixed-point sub-pixel units, so that
//! slow drags lose no motion and remainders carry across frames exactly.

use vstd::prelude::*;
use vstd::arithmetic::div_mod::lemma_div_is_ordered;
use vstd::arithmetic::div_mod::lemma_div_pos_is_pos;
use vstd::arithmetic::div_mod::lemma_fundamental_div_mod;
use vstd::arithmetic::div_mod::lemma_fundamental_div_mod_converse;
use vstd::arithmetic::div_mod::lemma_mod_bound;
use core::ops::Range;

verus! {

/// An exact non-negative fraction; `den` is always at least 1.
#[derive(Debug, Clone, Copy, PartialEq, Eq, Structural)]
pub struct Fraction {
    pub num: u64,
    pub den: u64,
}

impl Fraction {
    pub open spec fn wf(self) -> bool {
        self.den >= 1
    }
}

/// `v` clamped to the closed interval from `lo` to `hi`.
pub open spec fn clamp_int(v: int, lo: int, hi: int) -> int {
    if v < lo {
        lo
    } else if v > hi {
        hi
    } else {
        v
    }
}

/// The absolute value.
pub open spec fn abs_int(v: int) -> int {
    if v < 0 {
        -v
    } else {
        v
    }
}

/// The fraction of the range from `min` to `max` that one step of size
/// `step` covers; zero for a zero step or an empty range.
pub open spec fn step_fraction(step: int, min: int, max: int) -> Fraction {
    if step == 0 || min == max {
        Fraction { num: 0, den: 1 }
    } else {
        Fraction { num: abs_int(step) as u64, den: abs_int(max - min) as u64 }
    }
}

/// The position of `value` within the range from `min` to `max`, as an
/// exact fraction clamped to the unit interval; zero for an empty range.
pub open spec fn percent_fraction(value: int, min: int, max: int) -> Fraction {
    if min == max {
        Fraction { num: 0, den: 1 }
    } else {
        Fraction {
            num: clamp_int(value - min, 0, max - min) as u64,
            den: (max - min) as u64,
        }
    }
}

/// Something that can be used as a slider value. The integer primitives
/// are already implemented. `as_int` gives the mathematical value a slider
/// value stands for; every operation is specified against it.
pub trait SliderValue: Copy + Sized {
    /// The mathematical value this slider value stands for.
    spec fn as_int(self) -> int;

    /// Where `value` sits within the range, as an exact fraction of it,
    /// clamped to the unit interval.
    fn percentage(value: Self, min: Self, max: Self) -> (r: Fraction)
        requires
            Self::as_int(min) <= Self::as_int(max),
        ensures
            r == percent_fraction(Self::as_int(value), Self::as_int(min), Self::as_int(max)),
            r.wf(),
            r.num <= r.den,
    ;

    /// One step up, clamped to the range.
    fn increment(value: Self, step: Self, min: Self, max: Self) -> (r: Self)
        requires
            Self::as_int(min) <= Self::as_int(max),
        ensures
            Self::as_int(r) == clamp_int(
                Self::as_int(value) + Self::as_int(step),
                Self::as_int(min),
                Self::as_int(max),
            ),
    ;

    /// One step down, clamped to the range.
    fn decrement(value: Self, step: Self, min: Self, max: Self) -> (r: Self)
        requires
            Self::as_int(min) <= Self::as_int(max),
        ensures
            Self::as_int(r) == clamp_int(
                Self::as_int(value) - Self::as_int(step),
                Self::as_int(min),
                Self::as_int(max),
            ),
    ;

    /// The value clamped to the range.
    fn clamp_value(value: Self, min: Self, max: Self) -> (r: Self)
        requires
            Self::as_int(min) <= Self::as_int(max),
        ensures
            Self::as_int(r) == clamp_int(
                Self::as_int(value),
                Self::as_int(min),
                Self::as_int(max),
            ),
    ;

    /// The step size as an exact fraction of the range.
    fn step_percentage(step: Self, min: Self, max: Self) -> (r: Fraction)
        requires
            Self::as_int(min) <= Self::as_int(max),
        ensures
            r == step_fraction(Self::as_int(step), Self::as_int(min), Self::as_int(max)),
            r.wf(),
    ;
}

/// A slider's caller-owned value and configuration, threaded across
/// frames; only an active drag mutates `value`.
pub struct SliderState<T> {
    pub value: T,
    pub max: T,
    pub min: T,
    pub step: T,
}

impl<T> SliderState<T> {
    pub fn new_range(bounds: Range<T>, initial: T, step: T) -> (s: Self)
        ensures
            s.value == initial,
            s.min == bounds.start,
            s.max == bounds.end,
            s.step == step,
    {
        Self { value: initial, max: bounds.end, min: bounds.start, step }
    }

    pub fn new(min: T, max: T, initial: T, step: T) -> (s: Self)
        ensures
            s.value == initial,
            s.min == min,
            s.max == max,
            s.step == step,
    {
        Self { value: initial, max, min, step }
    }
}

impl<T: SliderValue> SliderState<T> {
    /// The range is not inverted.
    pub open spec fn wf(self) -> bool {
        T::as_int(self.min) <= T::as_int(self.max)
    }
}

/// A fractional slider value held exactly in thousandths, for sliders
/// whose range or step is not a whole number (a volume from 0.0 to 1.0 in
/// steps of 0.05, say). Construct it with `Milli::of_thousandths`.
#[derive(Debug, Clone, Copy, PartialEq, Eq, PartialOrd, Ord, Hash, Structural)]
pub struct Milli {
    pub thousandths: i64,
}

impl Milli {
    pub fn of_thousandths(thousandths: i64) -> (m: Self)
        ensures
            m.thousandths == thousandths,
    {
        Milli { thousandths }
    }
}

impl SliderValue for Milli {
    open spec fn as_int(self) -> int {
        self.thousandths as int
    }

    fn percentage(value: Self, min: Self, max: Self) -> (r: Fraction) {
        if max.thousandths == min.thousandths {
            Fraction { num: 0, den: 1 }
        } else {
            let range = (max.thousandths as i128) - (min.thousandths as i128);
            let diff = (value.thousandths as i128) - (min.thousandths as i128);
            let pos = if diff < 0 {
                0i128
            } else if diff > range {
                range
            } else {
                diff
            };
            Fraction { num: pos as u64, den: range as u64 }
        }
    }

    fn increment(value: Self, step: Self, min: Self, max: Self) -> (r: Self) {
        let next = match value.thousandths.checked_add(step.thousandths) {
            Some(n) => Milli { thousandths: n },
            None => if step.thousandths > 0 {
                Milli { thousandths: i64::MAX }
            } else {
                Milli { thousandths: i64::MIN }
            },
        };
        Self::clamp_value(next, min, max)
    }

    fn decrement(value: Self, step: Self, min: Self, max: Self) -> (r: Self) {
        let next = match value.thousandths.checked_sub(step.thousandths) {
            Some(n) => Milli { thousandths: n },
            None => if step.thousandths > 0 {
                Milli { thousandths: i64::MIN }
            } else {
                Milli { thousandths: i64::MAX }
            },
        };
        Self::clamp_value(next, min, max)
    }

    fn clamp_value(value: Self, min: Self, max: Self) -> (r: Self) {
        if value.thousandths < min.thousandths {
            min
        } else if value.thousandths > max.thousandths {
            max
        } else {
            value
        }
    }

    fn step_percentage(step: Self, min: Self, max: Self) -> (r: Fraction) {
        if step.thousandths == 0 || max.thousandths == min.thousandths {
            Fraction { num: 0, den: 1 }
        } else {
            let s = if step.thousandths >= 0 {
                step.thousandths as i128
            } else {
                -(step.thousandths as i128)
            };
            let range = (max.thousandths as i128) - (min.thousandths as i128);
            Fraction { num: s as u64, den: range as u64 }
        }
    }
}

/// The most steps one frame of drag applies; a longer drag is truncated to
/// this many steps and the rest of the distance is consumed with them.
pub const MAX_DRAG_STEPS: u32 = 0x7fff_ffff;

/// The smaller of two integers.
pub open spec fn min_int(a: int, b: int) -> int {
    if a <= b {
        a
    } else {
        b
    }
}

/// The drag distance one slider step takes, in fixed-point units: the
/// track span times the step fraction of the range; zero when the span is
/// zero or the fraction is.
pub open spec fn pixels_per_step(span: int, f: Fraction) -> int {
    if span == 0 {
        0
    } else {
        (span * f.num * (crate::state::SUBPIXEL_ONE as int)) / (f.den as int)
    }
}

/// The whole steps a drag of `accum` fixed-point units takes at `pps`
/// units per step: the quotient truncated toward zero, capped at
/// `MAX_DRAG_STEPS` in magnitude.
pub open spec fn drag_steps(accum: int, pps: int) -> int
    recommends
        pps > 0,
{
    if accum >= 0 {
        min_int(accum / pps, MAX_DRAG_STEPS as int)
    } else {
        -min_int((-accum) / pps, MAX_DRAG_STEPS as int)
    }
}

/// What a drag of `accum` units leaves behind once whole steps are
/// consumed: the remainder of the quotient, truncated toward zero, so its
/// magnitude is always below one step's distance.
pub open spec fn drag_remainder(accum: int, pps: int) -> int
    recommends
        pps > 0,
{
    if accum >= 0 {
        accum % pps
    } else {
        -((-accum) % pps)
    }
}

/// The value after `k` single steps of `step`, each clamped to the range;
/// negative `k` steps downward.
pub open spec fn apply_steps(v: int, step: int, min: int, max: int, k: int) -> int
    decreases abs_int(k),
{
    if k == 0 {
        v
    } else if k > 0 {
        clamp_int(apply_steps(v, step, min, max, k - 1) + step, min, max)
    } else {
        clamp_int(apply_steps(v, step, min, max, k + 1) - step, min, max)
    }
}

/// The slider value after one frame of drag handling: with a positive
/// per-step distance, the drag's whole steps are applied; with a
/// degenerate (zero) per-step distance, any nonzero drag applies exactly
/// one step in its direction.
pub open spec fn slider_drag_value(v: int, step: int, min: int, max: int, a1: int, pps: int) -> int {
    if pps > 0 {
        apply_steps(v, step, min, max, drag_steps(a1, pps))
    } else if a1 > 0 {
        clamp_int(v + step, min, max)
    } else if a1 < 0 {
        clamp_int(v - step, min, max)
    } else {
        v
    }
}

/// The drag accumulator after one frame of drag handling: the remainder of
/// the consumed drag, or zero on the degenerate path.
pub open spec fn slider_drag_accum(a1: int, pps: int) -> int {
    if pps > 0 {
        drag_remainder(a1, pps)
    } else {
        0
    }
}

/// For a rightward drag that stays under the step cap, consuming the drag
/// in two frames takes the same total steps and leaves the same remainder
/// as consuming it in one.
pub proof fn lemma_drag_split(a0: int, d1: int, d2: int, pps: int)
    requires
        pps > 0,
        a0 >= 0,
        d1 >= 0,
        d2 >= 0,
        (a0 + d1 + d2) / pps <= MAX_DRAG_STEPS,
    ensures
        ({
            let k1 = drag_steps(a0 + d1, pps);
            let r1 = drag_remainder(a0 + d1, pps);
            let k2 = drag_steps(r1 + d2, pps);
            let r2 = drag_remainder(r1 + d2, pps);
            &&& k1 >= 0
            &&& k2 >= 0
            &&& r1 >= 0
            &&& k1 + k2 == drag_steps(a0 + d1 + d2, pps)
            &&& r2 == drag_remainder(a0 + d1 + d2, pps)
        }),
{
    let a1 = a0 + d1;
    lemma_div_is_ordered(a1, a0 + d1 + d2, pps);
    lemma_fundamental_div_mod(a1, pps);
    lemma_mod_bound(a1, pps);
    let q1 = a1 / pps;
    let r1 = a1 % pps;
    lemma_div_pos_is_pos(a1, pps);
    assert(drag_steps(a1, pps) == q1);
    assert(drag_remainder(a1, pps) == r1);
    let b = r1 + d2;
    lemma_fundamental_div_mod(b, pps);
    lemma_mod_bound(b, pps);
    let q2 = b / pps;
    let r2 = b % pps;
    assert(a0 + d1 + d2 == (q1 + q2) * pps + r2) by (nonlinear_arith)
        requires
            a1 == q1 * pps + r1,
            b == q2 * pps + r2,
            b == r1 + d2,
            a1 == a0 + d1,
    ;
    lemma_fundamental_div_mod_converse(a0 + d1 + d2, pps, q1 + q2, r2);
    lemma_div_pos_is_pos(b, pps);
    assert(q1 * pps >= 0) by (nonlinear_arith)
        requires
            q1 >= 0,
            pps > 0,
    ;
    assert(b <= a0 + d1 + d2);
    lemma_div_is_ordered(b, a0 + d1 + d2, pps);
    assert(drag_steps(b, pps) == q2);
    assert(drag_remainder(b, pps) == r2);
}

/// Stepping `k1` times and then `k2` more, all in the same direction, is
/// stepping `k1 + k2` times.
pub proof fn lemma_apply_steps_add(v: int, step: int, min: int, max: int, k1: int, k2: int)
    requires
        k1 >= 0,
        k2 >= 0,
    ensures
        apply_steps(apply_steps(v, step, min, max, k1), step, min, max, k2)
            == apply_steps(v, step, min, max, k1 + k2),
    decreases k2,
{
    if k2 > 0 {
        lemma_apply_steps_add(v, step, min, max, k1, k2 - 1);
    }
}

/// For a value already in range and a non-negative step, `k` clamped
/// steps land exactly where one clamped jump of `k * step` lands; in
/// particular a drag past the top of the range clamps to `max`.
pub proof fn lemma_apply_steps_closed_form(v: int, step: int, min: int, max: int, k: int)
    requires
        min <= v <= max,
        step >= 0,
        k >= 0,
    ensures
        apply_steps(v, step, min, max, k) == clamp_int(v + k * step, min, max),
    decreases k,
{
    if k == 0 {
        assert(k * step == 0) by (nonlinear_arith)
            requires k == 0,
        ;
    } else {
        lemma_apply_steps_closed_form(v, step, min, max, k - 1);
        assert(k * step == (k - 1) * step + step) by (nonlinear_arith);
        assert((k - 1) * step >= 0) by (nonlinear_arith)
            requires
                k >= 1,
                step >= 0,
        ;
        let w = v + (k - 1) * step;
        assert(apply_steps(v, step, min, max, k)
            == clamp_int(apply_steps(v, step, min, max, k - 1) + step, min, max));
        assert(apply_steps(v, step, min, max, k - 1) == clamp_int(w, min, max));
        assert(clamp_int(clamp_int(w, min, max) + step, min, max)
            == clamp_int(w + step, min, max));
    }
}

/// Rightward slider drags are monotonic and remainder-preserving: two
/// frames that together drag by some distance end on the same value and
/// the same residual as a single frame dragging the whole distance, and
/// that value is the starting value stepped by the drag's whole steps,
/// clamped to the range.
pub proof fn lemma_drag_right_two_frames(
    v: int,
    step: int,
    min: int,
    max: int,
    a0: int,
    d1: int,
    d2: int,
    pps: int,
)
    requires
        pps > 0,
        a0 >= 0,
        d1 >= 0,
        d2 >= 0,
        min <= v <= max,
        step >= 0,
        (a0 + d1 + d2) / pps <= MAX_DRAG_STEPS,
    ensures
        ({
            let v1 = slider_drag_value(v, step, min, max, a0 + d1, pps);
            let r1 = slider_drag_accum(a0 + d1, pps);
            let v2 = slider_drag_value(v1, step, min, max, r1 + d2, pps);
            let r2 = slider_drag_accum(r1 + d2, pps);
            &&& v2 == slider_drag_value(v, step, min, max, a0 + d1 + d2, pps)
            &&& r2 == slider_drag_accum(a0 + d1 + d2, pps)
            &&& v2 == clamp_int(v + drag_steps(a0 + d1 + d2, pps) * step, min, max)
        }),
{
    lemma_drag_split(a0, d1, d2, pps);
    let k1 = drag_steps(a0 + d1, pps);
    let r1 = drag_remainder(a0 + d1, pps);
    let k2 = drag_steps(r1 + d2, pps);
    let k = drag_steps(a0 + d1 + d2, pps);
    lemma_apply_steps_add(v, step, min, max, k1, k2);
    lemma_apply_steps_closed_form(v, step, min, max, k);
}

impl SliderValue for u32 {
    open spec fn as_int(self) -> int {
        self as int
    }

    fn percentage(value: Self, min: Self, max: Self) -> (r: Fraction) {
        if max == min {
            Fraction { num: 0, den: 1 }
        } else {
            let range = max - min;
            let pos = if value <= min {
                0u32
            } else if value - min >= range {
                range
            } else {
                value - min
            };
            Fraction { num: pos as u64, den: range as u64 }
        }
    }

    fn increment(value: Self, step: Self, min: Self, max: Self) -> (r: Self) {
        let next = value.saturating_add(step);
        Self::clamp_value(next, min, max)
    }

    fn decrement(value: Self, step: Self, min: Self, max: Self) -> (r: Self) {
        let next = value.saturating_sub(step);
        Self::clamp_value(next, min, max)
    }

    fn clamp_value(value: Self, min: Self, max: Self) -> (r: Self) {
        if value < min {
            min
        } else if value > max {
            max
        } else {
            value
        }
    }

    fn step_percentage(step: Self, min: Self, max: Self) -> (r: Fraction) {
        if step == 0 || max == min {
            Fraction { num: 0, den: 1 }
        } else {
            Fraction { num: step as u64, den: (max - min) as u64 }
        }
    }
}

impl SliderValue for u8 {
    open spec fn as_int(self) -> int {
        self as int
    }

    fn percentage(value: Self, min: Self, max: Self) -> (r: Fraction) {
        if max == min {
            Fraction { num: 0, den: 1 }
        } else {
            let range = max - min;
            let pos = if value <= min {
                0u8
            } else if value - min >= range {
                range
            } else {
                value - min
            };
            Fraction { num: pos as u64, den: range as u64 }
        }
    }

    fn increment(value: Self, step: Self, min: Self, max: Self) -> (r: Self) {
        let next = value.saturating_add(step);
        Self::clamp_value(next, min, max)
    }

    fn decrement(value: Self, step: Self, min: Self, max: Self) -> (r: Self) {
        let next = value.saturating_sub(step);
        Self::clamp_value(next, min, max)
    }

    fn clamp_value(value: Self, min: Self, max: Self) -> (r: Self) {
        if value < min {
            min
        } else if value > max {
            max
        } else {
            value
        }
    }

    fn step_percentage(step: Self, min: Self, max: Self) -> (r: Fraction) {
        if step == 0 || max == min {
            Fraction { num: 0, den: 1 }
        } else {
            Fraction { num: step as u64, den: (max - min) as u64 }
        }
    }
}

impl SliderValue for u16 {
    open spec fn as_int(self) -> int {
        self as int
    }

    fn percentage(value: Self, min: Self, max: Self) -> (r: Fraction) {
        if max == min {
            Fraction { num: 0, den: 1 }
        } else {
            let range = max - min;
            let pos = if value <= min {
                0u16
            } else if value - min >= range {
                range
            } else {
                value - min
            };
            Fraction { num: pos as u64, den: range as u64 }
        }
    }

    fn increment(value: Self, step: Self, min: Self, max: Self) -> (r: Self) {
        let next = value.saturating_add(step);
        Self::clamp_value(next, min, max)
    }

    fn decrement(value: Self, step: Self, min: Self, max: Self) -> (r: Self) {
        let next = value.saturating_sub(step);
        Self::clamp_value(next, min, max)
    }

    fn clamp_value(value: Self, min: Self, max: Self) -> (r: Self) {
        if value < min {
            min
        } else if value > max {
            max
        } else {
            value
        }
    }

    fn step_percentage(step: Self, min: Self, max: Self) -> (r: Fraction) {
        if step == 0 || max == min {
            Fraction { num: 0, den: 1 }
        } else {
            Fraction { num: step as u64, den: (max - min) as u64 }
        }
    }
}

impl SliderValue for u64 {
    open spec fn as_int(self) -> int {
        self as int
    }

    fn percentage(value: Self, min: Self, max: Self) -> (r: Fraction) {
        if max == min {
            Fraction { num: 0, den: 1 }
        } else {
            let range = max - min;
            let pos = if value <= min {
                0u64
            } else if value - min >= range {
                range
            } else {
                value - min
            };
            Fraction { num: pos, den: range }
        }
    }

    fn increment(value: Self, step: Self, min: Self, max: Self) -> (r: Self) {
        let next = value.saturating_add(step);
        Self::clamp_value(next, min, max)
    }

    fn decrement(value: Self, step: Self, min: Self, max: Self) -> (r: Self) {
        let next = value.saturating_sub(step);
        Self::clamp_value(next, min, max)
    }

    fn clamp_value(value: Self, min: Self, max: Self) -> (r: Self) {
        if value < min {
            min
        } else if value > max {
            max
        } else {
            value
        }
    }

    fn step_percentage(step: Self, min: Self, max: Self) -> (r: Fraction) {
        if step == 0 || max == min {
            Fraction { num: 0, den: 1 }
        } else {
            Fraction { num: step, den: max - min }
        }
    }
}

impl SliderValue for i8 {
    open spec fn as_int(self) -> int {
        self as int
    }

    fn percentage(value: Self, min: Self, max: Self) -> (r: Fraction) {
        if max == min {
            Fraction { num: 0, den: 1 }
        } else {
            let range = (max as i64) - (min as i64);
            let diff = (value as i64) - (min as i64);
            let pos = if diff < 0 {
                0i64
            } else if diff > range {
                range
            } else {
                diff
            };
            Fraction { num: pos as u64, den: range as u64 }
        }
    }

    fn increment(value: Self, step: Self, min: Self, max: Self) -> (r: Self) {
        let next = match value.checked_add(step) {
            Some(n) => n,
            None => if step > 0 {
                Self::MAX
            } else {
                Self::MIN
            },
        };
        Self::clamp_value(next, min, max)
    }

    fn decrement(value: Self, step: Self, min: Self, max: Self) -> (r: Self) {
        let next = match value.checked_sub(step) {
            Some(n) => n,
            None => if step > 0 {
                Self::MIN
            } else {
                Self::MAX
            },
        };
        Self::clamp_value(next, min, max)
    }

    fn clamp_value(value: Self, min: Self, max: Self) -> (r: Self) {
        if value < min {
            min
        } else if value > max {
            max
        } else {
            value
        }
    }

    fn step_percentage(step: Self, min: Self, max: Self) -> (r: Fraction) {
        if step == 0 || max == min {
            Fraction { num: 0, den: 1 }
        } else {
            let s = if step >= 0 {
                step as i64
            } else {
                -(step as i64)
            };
            let range = (max as i64) - (min as i64);
            Fraction { num: s as u64, den: range as u64 }
        }
    }
}

impl SliderValue for i16 {
    open spec fn as_int(self) -> int {
        self as int
    }

    fn percentage(value: Self, min: Self, max: Self) -> (r: Fraction) {
        if max == min {
            Fraction { num: 0, den: 1 }
        } else {
            let range = (max as i64) - (min as i64);
            let diff = (value as i64) - (min as i64);
            let pos = if diff < 0 {
                0i64
            } else if diff > range {
                range
            } else {
                diff
            };
            Fraction { num: pos as u64, den: range as u64 }
        }
    }

    fn increment(value: Self, step: Self, min: Self, max: Self) -> (r: Self) {
        let next = match value.checked_add(step) {
            Some(n) => n,
            None => if step > 0 {
                Self::MAX
            } else {
                Self::MIN
            },
        };
        Self::clamp_value(next, min, max)
    }

    fn decrement(value: Self, step: Self, min: Self, max: Self) -> (r: Self) {
        let next = match value.checked_sub(step) {
            Some(n) => n,
            None => if step > 0 {
                Self::MIN
            } else {
                Self::MAX
            },
        };
        Self::clamp_value(next, min, max)
    }

    fn clamp_value(value: Self, min: Self, max: Self) -> (r: Self) {
        if value < min {
            min
        } else if value > max {
            max
        } else {
            value
        }
    }

    fn step_percentage(step: Self, min: Self, max: Self) -> (r: Fraction) {
        if step == 0 || max == min {
            Fraction { num: 0, den: 1 }
        } else {
            let s = if step >= 0 {
                step as i64
            } else {
                -(step as i64)
            };
            let range = (max as i64) - (min as i64);
            Fraction { num: s as u64, den: range as u64 }
        }
    }
}

impl SliderValue for i64 {
    open spec fn as_int(self) -> int {
        self as int
    }

    fn percentage(value: Self, min: Self, max: Self) -> (r: Fraction) {
        if max == min {
            Fraction { num: 0, den: 1 }
        } else {
            let range = (max as i128) - (min as i128);
            let diff = (value as i128) - (min as i128);
            let pos = if diff < 0 {
                0i128
            } else if diff > range {
                range
            } else {
                diff
            };
            Fraction { num: pos as u64, den: range as u64 }
        }
    }

    fn increment(value: Self, step: Self, min: Self, max: Self) -> (r: Self) {
        let next = match value.checked_add(step) {
            Some(n) => n,
            None => if step > 0 {
                Self::MAX
            } else {
                Self::MIN
            },
        };
        Self::clamp_value(next, min, max)
    }

    fn decrement(value: Self, step: Self, min: Self, max: Self) -> (r: Self) {
        let next = match value.checked_sub(step) {
            Some(n) => n,
            None => if step > 0 {
                Self::MIN
            } else {
                Self::MAX
            },
        };
        Self::clamp_value(next, min, max)
    }

    fn clamp_value(value: Self, min: Self, max: Self) -> (r: Self) {
        if value < min {
            min
        } else if value > max {
            max
        } else {
            value
        }
    }

    fn step_percentage(step: Self, min: Self, max: Self) -> (r: Fraction) {
        if step == 0 || max == min {
            Fraction { num: 0, den: 1 }
        } else {
            let s = if step >= 0 {
                step as i128
            } else {
                -(step as i128)
            };
            let range = (max as i128) - (min as i128);
            Fraction { num: s as u64, den: range as u64 }
        }
    }
}

impl SliderValue for i32 {
    open spec fn as_int(self) -> int {
        self as int
    }

    fn percentage(value: Self, min: Self, max: Self) -> (r: Fraction) {
        if max == min {
            Fraction { num: 0, den: 1 }
        } else {
            let range = (max as i64) - (min as i64);
            let diff = (value as i64) - (min as i64);
            let pos = if diff < 0 {
                0i64
            } else if diff > range {
                range
            } else {
                diff
            };
            Fraction { num: pos as u64, den: range as u64 }
        }
    }

    fn increment(value: Self, step: Self, min: Self, max: Self) -> (r: Self) {
        let next = match value.checked_add(step) {
            Some(n) => n,
            None => if step > 0 {
                Self::MAX
            } else {
                Self::MIN
            },
        };
        Self::clamp_value(next, min, max)
    }

    fn decrement(value: Self, step: Self, min: Self, max: Self) -> (r: Self) {
        let next = match value.checked_sub(step) {
            Some(n) => n,
            None => if step > 0 {
                Self::MIN
            } else {
                Self::MAX
            },
        };
        Self::clamp_value(next, min, max)
    }

    fn clamp_value(value: Self, min: Self, max: Self) -> (r: Self) {
        if value < min {
            min
        } else if value > max {
            max
        } else {
            value
        }
    }

    fn step_percentage(step: Self, min: Self, max: Self) -> (r: Fraction) {
        if step == 0 || max == min {
            Fraction { num: 0, den: 1 }
        } else {
            let s = if step >= 0 {
                step as i64
            } else {
                -(step as i64)
            };
            let range = (max as i64) - (min as i64);
            Fraction { num: s as u64, den: range as u64 }
        }
    }
}

} // verus!

//! The cross-frame interaction state machine: which widget is pressed,
//! which holds keyboard focus, where the pointer was last frame, and the
//! residual sub-step drag distance, together with the transition that a
//! finished frame applies to all of it.

use vstd::prelude::*;
use vstd::arithmetic::div_mod::lemma_small_mod;
use crate::geometry::Rect;
use crate::geometry::Vec2;

verus! {

/// The state of a physical button: held down this frame, or up.
#[derive(Debug, Clone, Copy, PartialEq, Eq, Hash, Structural)]
pub enum ButtonState {
    Down,
    Up,
}

/// One pixel of drag distance, in the fixed-point unit that the drag
/// accumulator uses. Sub-pixel remainders of slider drags are kept exactly
/// in multiples of 1/65536 pixel.
pub const SUBPIXEL_ONE: u64 = 65536;

/// A bound on the drag accumulator that every frame maintains: a slider
/// never leaves a remainder of `2^112` or more fixed-point units behind
/// (the remainder is always smaller than one slider step, which fits this
/// bound even for the widest track and coarsest step fraction).
pub const DRAG_ACCUM_LIMIT: i128 = 0x1_0000_0000_0000_0000_0000_0000_0000;

/// Persistent UI state: created once at application start, then replaced
/// wholesale at the end of every frame by the value the frame produces.
#[derive(Copy, Clone)]
pub struct UIState {
    /// The widget currently pressed, by its rectangle.
    pub active_rect: Option<Rect>,
    /// Where the pointer was last frame; drag deltas come from it.
    pub last_mouse_position: Vec2,
    /// Residual drag distance in `SUBPIXEL_ONE` units per pixel.
    pub active_drag_accum: i128,
    /// The widget holding keyboard focus, by its rectangle.
    pub focused: Option<Rect>,
}

impl UIState {
    /// The drag accumulator stays within the range every frame keeps it in.
    pub open spec fn wf(self) -> bool {
        -DRAG_ACCUM_LIMIT <= self.active_drag_accum <= DRAG_ACCUM_LIMIT
    }

    pub fn new() -> (s: Self)
        ensures
            s.active_rect is None,
            s.focused is None,
            s.last_mouse_position == (Vec2 { x: 0, y: 0 }),
            s.active_drag_accum == 0,
            s.wf(),
    {
        Self {
            active_rect: None,
            last_mouse_position: Vec2::zero(),
            active_drag_accum: 0,
            focused: None,
        }
    }

    /// The rectangle holding keyboard focus, if any.
    pub fn focused_rect(&self) -> (r: Option<Rect>)
        ensures
            r == self.focused,
    {
        self.focused
    }
}

impl Default for UIState {
    fn default() -> (s: Self)
        ensures
            s.active_rect is None,
            s.focused is None,
            s.last_mouse_position == (Vec2 { x: 0, y: 0 }),
            s.active_drag_accum == 0,
    {
        Self::new()
    }
}

/// This frame's physical inputs, collected once by the caller.
pub struct UIInputState {
    /// Pointer position, origin at the top left.
    pub mouse_position: Vec2,
    pub activate_button: ButtonState,
    pub focus_next_button: ButtonState,
}

impl Default for UIInputState {
    /// All buttons up, pointer at the origin.
    fn default() -> (d: Self)
        ensures
            d.mouse_position == (Vec2 { x: 0, y: 0 }),
            d.activate_button == ButtonState::Up,
            d.focus_next_button == ButtonState::Up,
    {
        Self {
            mouse_position: Vec2::zero(),
            activate_button: ButtonState::Up,
            focus_next_button: ButtonState::Up,
        }
    }
}

/// The index of the first occurrence of `r` in `fs`, or `fs.len()` when
/// `r` does not occur.
pub open spec fn first_index(fs: Seq<Rect>, r: Rect) -> int
    decreases fs.len(),
{
    if fs.len() == 0 {
        0
    } else if fs[0] == r {
        0
    } else {
        1 + first_index(fs.drop_first(), r)
    }
}

/// The rectangle that a focus-advance press moves focus to: the entry after
/// the first occurrence of the previously focused rectangle, wrapping to
/// the first entry after the last; the first entry when nothing was focused
/// or the focused rectangle was not registered; nothing when the frame
/// registered no focusables.
pub open spec fn next_focus(fs: Seq<Rect>, prev: Option<Rect>) -> Option<Rect> {
    match prev {
        Some(p) => {
            let next = if fs.contains(p) {
                first_index(fs, p) + 1
            } else {
                0
            };
            if next < fs.len() {
                Some(fs[next])
            } else if fs.len() > 0 {
                Some(fs[0])
            } else {
                None
            }
        },
        None => if fs.len() > 0 {
            Some(fs[0])
        } else {
            None
        },
    }
}

/// `first_index` points at the first occurrence: within bounds and at `r`
/// when `r` occurs, with nothing equal to `r` before it; `fs.len()` when it
/// does not.
pub proof fn lemma_first_index(fs: Seq<Rect>, r: Rect)
    ensures
        fs.contains(r) ==> {
            &&& 0 <= first_index(fs, r) < fs.len()
            &&& fs[first_index(fs, r)] == r
            &&& forall|j: int| 0 <= j < first_index(fs, r) ==> fs[j] != r
        },
        !fs.contains(r) ==> first_index(fs, r) == fs.len(),
    decreases fs.len(),
{
    if fs.len() > 0 {
        lemma_first_index(fs.drop_first(), r);
        if fs[0] != r {
            assert(fs.contains(r) ==> fs.drop_first().contains(r)) by {
                if fs.contains(r) {
                    let w = choose|w: int| 0 <= w < fs.len() && fs[w] == r;
                    assert(fs.drop_first()[w - 1] == r);
                }
            }
            assert(fs.drop_first().contains(r) ==> fs.contains(r)) by {
                if fs.drop_first().contains(r) {
                    let w = choose|w: int| 0 <= w < fs.drop_first().len() && fs.drop_first()[w] == r;
                    assert(fs[w + 1] == r);
                }
            }
            if fs.contains(r) {
                let fi2 = first_index(fs.drop_first(), r);
                assert(fs[fi2 + 1] == fs.drop_first()[fi2]);
                assert forall|j: int| 0 <= j < first_index(fs, r) implies fs[j] != r by {
                    if j > 0 {
                        assert(fs.drop_first()[j - 1] == fs[j]);
                    }
                }
            }
        }
    }
}

/// Focus-advance cycles through distinct registered rectangles in
/// registration order: from the entry at `i` it moves to the entry at
/// `i + 1`, wrapping from the last back to the first.
pub proof fn lemma_focus_advance_cycles(fs: Seq<Rect>, i: int)
    requires
        0 <= i < fs.len(),
        forall|a: int, b: int| 0 <= a < b < fs.len() ==> fs[a] != fs[b],
    ensures
        next_focus(fs, Some(fs[i])) == Some(fs[(i + 1) % (fs.len() as int)]),
{
    let r = fs[i];
    assert(fs.contains(r));
    lemma_first_index(fs, r);
    let fi = first_index(fs, r);
    assert(fi == i) by {
        if fi < i {
            assert(fs[fi] == r && fs[i] == r);
        }
        if fi > i {
            assert(fs[i] != r);
        }
    }
    if i + 1 < fs.len() {
        lemma_small_mod((i + 1) as nat, fs.len());
    } else {
        assert((i + 1) % (fs.len() as int) == 0) by {
            assert(i + 1 == fs.len());
            assert(fs.len() as int % fs.len() as int == 0) by (nonlinear_arith)
                requires fs.len() > 0,
            ;
        }
    }
}

/// The persistent state a finished frame hands back, from the previous
/// state, this frame's inputs, the hover candidate (the last rectangle
/// checked this frame that contains the pointer), and the rectangles
/// registered as focusable in registration order.
///
/// While the activate button is down, the hovered widget (or, with no
/// hover, the focused one) is the pressed widget, and the drag accumulator
/// is cleared whenever the pressed widget changes; when the button is up,
/// nothing is pressed and the accumulator is cleared. A focus-advance press
/// moves focus per `next_focus`. The pointer position is remembered for the
/// next frame's drag delta.
pub open spec fn ui_end_spec(
    state: UIState,
    input: UIInputState,
    hover: Option<Rect>,
    focusables: Seq<Rect>,
) -> UIState {
    let target = if input.activate_button == ButtonState::Down {
        if hover is Some {
            hover
        } else {
            state.focused
        }
    } else {
        None
    };
    let drag = if input.activate_button == ButtonState::Down {
        if state.active_rect == target {
            state.active_drag_accum
        } else {
            0
        }
    } else {
        0
    };
    UIState {
        active_rect: target,
        focused: if input.focus_next_button == ButtonState::Down {
            next_focus(focusables, state.focused)
        } else {
            state.focused
        },
        active_drag_accum: drag,
        last_mouse_position: input.mouse_position,
    }
}

} // verus!

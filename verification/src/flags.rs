//! Bit flags stamped onto draw commands to describe a widget's interaction
//! state. The renderer may use them to pick a style; the core never reads
//! them back.

use vstd::prelude::*;

verus! {

pub type Flags = u32;

/// No interaction state.
pub const NONE: Flags = 0;

/// The pointer is over the widget this frame.
pub const HOVER: Flags = 1;

/// Reserved for renderers that grey out widgets; the core never sets it.
pub const DISABLED: Flags = 2;

/// The widget is currently pressed.
pub const ACTIVE: Flags = 4;

/// The widget holds keyboard focus. Shares a bit with `ACTIVE`: a renderer
/// styles a pressed widget and a focused widget the same way.
pub const FOCUSED: Flags = 4;

} // verus!

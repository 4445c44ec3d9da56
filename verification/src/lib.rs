//! A render-agnostic immediate-mode UI core.
//!
//! Each frame, a client describes the desired widget tree by calling layout
//! and widget functions in order; the core computes positions, tracks
//! interaction state across frames, and emits a flat sequence of draw
//! commands for an external renderer to execute.

pub mod flags;
pub mod prelude;
mod context;
mod draw;
mod geometry;
mod layout;
mod slider;
mod state;

pub use crate::context::CheckboxResult;
pub use crate::context::FontInformation;
pub use crate::context::LayoutFrame;
pub use crate::context::UIContext;
pub use crate::context::UIResult;
pub use crate::context::button_rect;
pub use crate::context::button_text_rect;
pub use crate::context::click_fires;
pub use crate::context::is_active_in;
pub use crate::context::is_focused_in;
pub use crate::context::is_hovered;
pub use crate::context::lemma_checkbox_toggles_once_per_cycle;
pub use crate::context::lemma_press_release_outside_no_click;
pub use crate::context::lemma_press_then_release_clicks;
pub use crate::context::patched_rect_size;
pub use crate::context::widget_flags;
pub use crate::draw::ClassList;
pub use crate::draw::DrawCommand;
pub use crate::draw::DrawData;
pub use crate::draw::TextScale;
pub use crate::draw::UIDrawRole;
pub use crate::draw::class_token_at;
pub use crate::draw::classes_contain;
pub use crate::draw::is_class_sep;
pub use crate::draw::rect_command;
pub use crate::draw::text_command;
pub use crate::geometry::Rect;
pub use crate::geometry::Vec2;
pub use crate::layout::Layout;
pub use crate::layout::LayoutDirection;
pub use crate::layout::layout_fold;
pub use crate::layout::layout_recompute;
pub use crate::layout::lemma_layout_fold_horizontal;
pub use crate::layout::lemma_layout_fold_vertical;
pub use crate::layout::max_int;
pub use crate::layout::max_x;
pub use crate::layout::max_y;
pub use crate::layout::sum_x;
pub use crate::layout::sum_y;
pub use crate::slider::Fraction;
pub use crate::slider::Milli;
pub use crate::slider::MAX_DRAG_STEPS;
pub use crate::slider::SliderState;
pub use crate::slider::SliderValue;
pub use crate::slider::abs_int;
pub use crate::slider::apply_steps;
pub use crate::slider::clamp_int;
pub use crate::slider::drag_remainder;
pub use crate::slider::drag_steps;
pub use crate::slider::lemma_apply_steps_add;
pub use crate::slider::lemma_apply_steps_closed_form;
pub use crate::slider::lemma_drag_right_two_frames;
pub use crate::slider::lemma_drag_split;
pub use crate::slider::min_int;
pub use crate::slider::percent_fraction;
pub use crate::slider::pixels_per_step;
pub use crate::slider::slider_drag_accum;
pub use crate::slider::slider_drag_value;
pub use crate::slider::step_fraction;
pub use crate::state::ButtonState;
pub use crate::state::DRAG_ACCUM_LIMIT;
pub use crate::state::SUBPIXEL_ONE;
pub use crate::state::UIInputState;
pub use crate::state::UIState;
pub use crate::state::first_index;
pub use crate::state::lemma_first_index;
pub use crate::state::lemma_focus_advance_cycles;
pub use crate::state::next_focus;
pub use crate::state::ui_end_spec;
pub use crate::geometry::rect_contains;
pub use crate::geometry::sat_add_u32;
pub use crate::geometry::sat_sub_u32;
pub use crate::geometry::vec2_div;
pub use crate::geometry::vec2_sat_add;
pub use crate::geometry::vec2_sat_sub;

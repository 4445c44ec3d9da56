//! The frame context: constructed from the persistent state, a text-metrics
//! provider and this frame's input, it carries the layout stack, the draw
//! command buffer and the transient hover/focus observations while the
//! client describes its widgets, and finalizes into the next persistent
//! state plus the ordered command sequence.

use vstd::prelude::*;
use crate::draw::ClassList;
use crate::draw::DrawCommand;
use crate::draw::DrawData;
use crate::draw::TextScale;
use crate::draw::UIDrawRole;
use crate::draw::rect_command;
use crate::draw::text_command;
use crate::flags::Flags;
use crate::geometry::Rect;
use crate::geometry::Vec2;
use crate::geometry::rect_contains;
use crate::geometry::sat_sub_u32;
use crate::geometry::vec2_div;
use crate::geometry::vec2_sat_add;
use crate::geometry::vec2_sat_sub;
use crate::layout::Layout;
use crate::layout::LayoutDirection;
use crate::layout::layout_recompute;
use crate::slider::MAX_DRAG_STEPS;
use crate::slider::SliderState;
use crate::slider::SliderValue;
use crate::slider::apply_steps;
use crate::slider::clamp_int;
use crate::slider::drag_remainder;
use crate::slider::drag_steps;
use crate::slider::percent_fraction;
use crate::slider::pixels_per_step;
use crate::slider::slider_drag_accum;
use crate::slider::slider_drag_value;
use crate::slider::step_fraction;
use crate::state::ButtonState;
use crate::state::SUBPIXEL_ONE;
use crate::state::UIInputState;
use crate::state::UIState;
use crate::state::first_index;
use crate::state::lemma_first_index;
use crate::state::ui_end_spec;

verus! {

/// Tells the core how big a text will render; implemented by the renderer
/// binding outside the core. Layout correctness expects it to answer
/// consistently for the same text and scale within a frame.
pub trait FontInformation {
    fn compute_text_size(&self, text: &str, scale: TextScale) -> Vec2;
}

/// One entry of the layout stack: the flow region itself plus the index of
/// its placeholder background command, if it was opened with one.
pub struct LayoutFrame {
    pub layout: Layout,
    pub bg_index: Option<usize>,
}

/// What drawing a checkbox reported: the rectangle it occupied and whether
/// it toggled this frame.
#[derive(Copy, Clone, Debug)]
pub struct CheckboxResult {
    pub rect: Rect,
    pub interacted: bool,
}

/// What a finished frame hands back: the next persistent state and the
/// frame's draw commands in emission order.
pub struct UIResult {
    pub new_state: UIState,
    pub commands: Vec<DrawCommand>,
}

/// The widget is hovered: its rectangle contains this frame's pointer.
pub open spec fn is_hovered(rect: Rect, input: UIInputState) -> bool {
    rect_contains(rect, input.mouse_position)
}

/// The widget is active: it was recorded as pressed at the end of the
/// previous frame.
pub open spec fn is_active_in(state: UIState, rect: Rect) -> bool {
    state.active_rect == Some(rect)
}

/// The widget holds keyboard focus.
pub open spec fn is_focused_in(state: UIState, rect: Rect) -> bool {
    state.focused == Some(rect)
}

/// A click fires on a widget exactly when it is hovered or focused, it is
/// the active (pressed) widget, and the activate button is up this frame:
/// pressing arms the widget, releasing while it is still the target fires.
pub open spec fn click_fires(state: UIState, input: UIInputState, rect: Rect) -> bool {
    &&& is_hovered(rect, input) || is_focused_in(state, rect)
    &&& input.activate_button == ButtonState::Up
    &&& is_active_in(state, rect)
}

/// The flags stamped on a widget's draw commands: the hover bit, plus the
/// shared active/focus bit when the widget is emphasized by either.
pub open spec fn widget_flags(hovered: bool, emphasized: bool) -> Flags {
    (if hovered {
        crate::flags::HOVER as int
    } else {
        0
    } + if emphasized {
        crate::flags::ACTIVE as int
    } else {
        0
    }) as Flags
}

/// A button's rectangle: the measured label size grown by the padding.
pub open spec fn button_rect(top_left: Vec2, text_size: Vec2, padding: Vec2) -> Rect {
    Rect { top_left, size: vec2_sat_add(text_size, padding) }
}

/// Where a button's label goes: centered in the button by offsetting half
/// of the leftover space.
pub open spec fn button_text_rect(rect: Rect, text_size: Vec2) -> Rect {
    Rect {
        top_left: vec2_sat_add(rect.top_left, vec2_div(vec2_sat_sub(rect.size, text_size), 2)),
        size: text_size,
    }
}

/// The command with its rectangle's size replaced; meaningful only for
/// rectangle commands.
pub open spec fn patched_rect_size(cmd: DrawCommand, size: Vec2) -> DrawCommand {
    match cmd {
        DrawCommand::DrawRect { draw_data } => DrawCommand::DrawRect {
            draw_data: DrawData {
                rect: Rect { top_left: draw_data.rect.top_left, size },
                flags: draw_data.flags,
                role: draw_data.role,
                class_list: draw_data.class_list,
            },
        },
        DrawCommand::DrawText { content, text_scale, draw_data } => DrawCommand::DrawText {
            content,
            text_scale,
            draw_data,
        },
    }
}

/// A layout frame's background index, if set, points at a rectangle
/// command of the buffer, so the deferred size rewrite finds what it
/// expects.
pub open spec fn bg_ok(frame: LayoutFrame, cmds: Seq<DrawCommand>) -> bool {
    frame.bg_index matches Some(idx) ==> idx < cmds.len() && cmds[idx as int] is DrawRect
}

/// The exec mirror of `widget_flags`.
fn compute_flags(hovered: bool, emphasized: bool) -> (f: Flags)
    ensures
        f == widget_flags(hovered, emphasized),
{
    let mut f: Flags = crate::flags::NONE;
    if hovered {
        f = f + crate::flags::HOVER;
    }
    if emphasized {
        f = f + crate::flags::ACTIVE;
    }
    f
}

/// The transient context for one frame being described.
pub struct UIContext<'f, F: FontInformation> {
    pub state: UIState,
    pub font_info: &'f F,
    pub input_state: UIInputState,
    /// The last rectangle checked this frame that contains the pointer;
    /// later-drawn widgets are expected to be on top.
    pub hover_rect: Option<Rect>,
    pub command_buffer: Vec<DrawCommand>,
    pub layout_stack: Vec<LayoutFrame>,
    pub next_class: Option<ClassList>,
    /// The rectangles registered as focusable this frame, in draw order.
    pub focusables: Vec<Rect>,
}

impl<'f, F: FontInformation> UIContext<'f, F> {
    /// The layout stack always keeps its root frame, every recorded
    /// background index points at a rectangle command, and the persistent
    /// state stays within its own bounds.
    pub open spec fn wf(self) -> bool {
        &&& self.layout_stack@.len() >= 1
        &&& self.state.wf()
        &&& forall|i: int|
            0 <= i < self.layout_stack@.len() ==> bg_ok(
                #[trigger] self.layout_stack@[i],
                self.command_buffer@,
            )
    }

    /// The layout frame currently accepting children.
    pub open spec fn current_layout(self) -> Layout {
        self.layout_stack@.last().layout
    }

    pub fn new(state: UIState, font_info: &'f F, input_state: UIInputState) -> (ctx: Self)
        requires
            state.wf(),
        ensures
            ctx.wf(),
            ctx.state == state,
            ctx.input_state == input_state,
            ctx.hover_rect is None,
            ctx.next_class is None,
            ctx.command_buffer@ == Seq::<DrawCommand>::empty(),
            ctx.focusables@ == Seq::<Rect>::empty(),
            ctx.layout_stack@.len() == 1,
            ctx.layout_stack@[0].bg_index is None,
            ctx.current_layout() == (Layout {
                direction: LayoutDirection::Horizontal,
                spacing: 0,
                top_left: Vec2 { x: 0, y: 0 },
                size: Vec2 { x: 0, y: 0 },
            }),
    {
        Self::new_layout_init(state, font_info, input_state, Vec2::zero(), 0)
    }

    pub fn new_layout_init(
        state: UIState,
        font_info: &'f F,
        input_state: UIInputState,
        position: Vec2,
        spacing: u32,
    ) -> (ctx: Self)
        requires
            state.wf(),
        ensures
            ctx.wf(),
            ctx.state == state,
            ctx.input_state == input_state,
            ctx.hover_rect is None,
            ctx.next_class is None,
            ctx.command_buffer@ == Seq::<DrawCommand>::empty(),
            ctx.focusables@ == Seq::<Rect>::empty(),
            ctx.layout_stack@.len() == 1,
            ctx.layout_stack@[0].bg_index is None,
            ctx.current_layout() == (Layout {
                direction: LayoutDirection::Horizontal,
                spacing,
                top_left: position,
                size: Vec2 { x: 0, y: 0 },
            }),
    {
        let root = Layout::new(LayoutDirection::Horizontal, spacing, position, Vec2::zero());
        let mut layout_stack: Vec<LayoutFrame> = Vec::new();
        layout_stack.push(LayoutFrame { layout: root, bg_index: None });
        Self {
            command_buffer: Vec::new(),
            input_state,
            hover_rect: None,
            state,
            font_info,
            layout_stack,
            next_class: None,
            focusables: Vec::new(),
        }
    }

    pub fn get_current_layout(&self) -> (l: &Layout)
        requires
            self.wf(),
        ensures
            *l == self.current_layout(),
    {
        let i = self.layout_stack.len() - 1;
        &self.layout_stack[i].layout
    }

    /// Folds a child of the given size into the current layout frame.
    pub fn recompute_current_layout(&mut self, size: Vec2)
        requires
            old(self).wf(),
        ensures
            final(self).wf(),
            final(self).layout_stack@ == old(self).layout_stack@.update(
                old(self).layout_stack@.len() - 1,
                (LayoutFrame {
                    layout: layout_recompute(old(self).current_layout(), size),
                    bg_index: old(self).layout_stack@.last().bg_index,
                }),
            ),
            final(self).state == old(self).state,
            final(self).input_state == old(self).input_state,
            final(self).hover_rect == old(self).hover_rect,
            final(self).command_buffer@ == old(self).command_buffer@,
            final(self).next_class == old(self).next_class,
            final(self).focusables@ == old(self).focusables@,
            final(self).font_info == old(self).font_info,
    {
        let frame = self.layout_stack.pop().unwrap();
        let mut layout = frame.layout;
        layout.recompute(size);
        self.layout_stack.push(LayoutFrame { layout, bg_index: frame.bg_index });
        proof {
            assert(self.layout_stack@ =~= old(self).layout_stack@.update(
                old(self).layout_stack@.len() - 1,
                LayoutFrame {
                    layout: layout_recompute(old(self).current_layout(), size),
                    bg_index: old(self).layout_stack@.last().bg_index,
                },
            ));
        }
    }

    /// Appends the rectangle to this frame's focus order and reports
    /// whether it already holds keyboard focus.
    pub fn register_focusable(&mut self, rect: Rect) -> (focused: bool)
        requires
            old(self).wf(),
        ensures
            final(self).wf(),
            focused == is_focused_in(old(self).state, rect),
            final(self).focusables@ == old(self).focusables@.push(rect),
            final(self).state == old(self).state,
            final(self).input_state == old(self).input_state,
            final(self).hover_rect == old(self).hover_rect,
            final(self).command_buffer@ == old(self).command_buffer@,
            final(self).next_class == old(self).next_class,
            final(self).layout_stack@ == old(self).layout_stack@,
            final(self).font_info == old(self).font_info,
    {
        self.focusables.push(rect);
        match self.state.focused {
            Some(r) => r == rect,
            None => false,
        }
    }

    /// Sets the class list stamped on all following draws until cleared.
    pub fn set_class_list(&mut self, class_list: ClassList)
        requires
            old(self).wf(),
        ensures
            final(self).wf(),
            final(self).next_class == Some(class_list),
            final(self).state == old(self).state,
            final(self).input_state == old(self).input_state,
            final(self).hover_rect == old(self).hover_rect,
            final(self).command_buffer@ == old(self).command_buffer@,
            final(self).layout_stack@ == old(self).layout_stack@,
            final(self).focusables@ == old(self).focusables@,
            final(self).font_info == old(self).font_info,
    {
        self.next_class = Some(class_list);
    }

    /// Clears the class list stamped on following draws.
    pub fn clear_class_list(&mut self)
        requires
            old(self).wf(),
        ensures
            final(self).wf(),
            final(self).next_class is None,
            final(self).state == old(self).state,
            final(self).input_state == old(self).input_state,
            final(self).hover_rect == old(self).hover_rect,
            final(self).command_buffer@ == old(self).command_buffer@,
            final(self).layout_stack@ == old(self).layout_stack@,
            final(self).focusables@ == old(self).focusables@,
            final(self).font_info == old(self).font_info,
    {
        self.next_class = None;
    }

    /// Emits a rectangle command and returns its index in the buffer.
    pub fn rect_raw(&mut self, rect: Rect, flags: Flags, role: UIDrawRole) -> (idx: usize)
        requires
            old(self).wf(),
        ensures
            final(self).wf(),
            idx == old(self).command_buffer@.len(),
            final(self).command_buffer@ == old(self).command_buffer@.push(
                rect_command(rect, flags, role, old(self).next_class),
            ),
            final(self).state == old(self).state,
            final(self).input_state == old(self).input_state,
            final(self).hover_rect == old(self).hover_rect,
            final(self).next_class == old(self).next_class,
            final(self).layout_stack@ == old(self).layout_stack@,
            final(self).focusables@ == old(self).focusables@,
            final(self).font_info == old(self).font_info,
    {
        let idx = self.command_buffer.len();
        self.command_buffer.push(DrawCommand::DrawRect {
            draw_data: DrawData { rect, flags, role, class_list: self.next_class },
        });
        idx
    }

    /// Emits a text command.
    pub fn text_raw(&mut self, label: String, rect: Rect, flags: Flags, role: UIDrawRole, scale: TextScale)
        requires
            old(self).wf(),
        ensures
            final(self).wf(),
            final(self).command_buffer@ == old(self).command_buffer@.push(
                text_command(label, rect, flags, role, scale, old(self).next_class),
            ),
            final(self).state == old(self).state,
            final(self).input_state == old(self).input_state,
            final(self).hover_rect == old(self).hover_rect,
            final(self).next_class == old(self).next_class,
            final(self).layout_stack@ == old(self).layout_stack@,
            final(self).focusables@ == old(self).focusables@,
            final(self).font_info == old(self).font_info,
    {
        self.command_buffer.push(DrawCommand::DrawText {
            content: label,
            text_scale: scale,
            draw_data: DrawData { rect, flags, role, class_list: self.next_class },
        });
    }

    fn is_active(&self, rect: Rect) -> (b: bool)
        ensures
            b == is_active_in(self.state, rect),
    {
        match self.state.active_rect {
            Some(active_rect) => active_rect == rect,
            None => false,
        }
    }

    fn clicked_rect(&self, rect: Rect) -> (b: bool)
        ensures
            b == (self.input_state.activate_button == ButtonState::Up && is_active_in(
                self.state,
                rect,
            )),
    {
        matches!(self.input_state.activate_button, ButtonState::Up) && self.is_active(rect)
    }

    fn check_set_hover(&mut self, rect: Rect) -> (hovered: bool)
        requires
            old(self).wf(),
        ensures
            final(self).wf(),
            hovered == is_hovered(rect, old(self).input_state),
            final(self).hover_rect == (if hovered {
                Some(rect)
            } else {
                old(self).hover_rect
            }),
            final(self).state == old(self).state,
            final(self).input_state == old(self).input_state,
            final(self).command_buffer@ == old(self).command_buffer@,
            final(self).next_class == old(self).next_class,
            final(self).layout_stack@ == old(self).layout_stack@,
            final(self).focusables@ == old(self).focusables@,
            final(self).font_info == old(self).font_info,
    {
        let is_hover = rect.contains(self.input_state.mouse_position);
        if is_hover {
            self.hover_rect = Some(rect);
        }
        is_hover
    }

    /// Opens a nested layout at the current cursor. With `None` spacing the
    /// current layout's spacing is kept. With a background, a placeholder
    /// rectangle command is emitted first, to be rewritten to the final
    /// size by `end_layout`.
    pub fn layout(&mut self, direction: LayoutDirection, spacing: Option<u32>, with_bg: bool)
        requires
            old(self).wf(),
        ensures
            final(self).wf(),
            final(self).layout_stack@ == old(self).layout_stack@.push(
                (LayoutFrame {
                    layout: (Layout {
                        direction,
                        spacing: (if spacing is Some {
                            spacing->0
                        } else {
                            old(self).current_layout().spacing
                        }),
                        top_left: old(self).current_layout().top_left,
                        size: (Vec2 { x: 0, y: 0 }),
                    }),
                    bg_index: (if with_bg {
                        Some(old(self).command_buffer@.len() as usize)
                    } else {
                        None
                    }),
                }),
            ),
            final(self).command_buffer@ == (if with_bg {
                old(self).command_buffer@.push(
                    rect_command(
                        (Rect {
                            top_left: old(self).current_layout().top_left,
                            size: (Vec2 { x: 0, y: 0 }),
                        }),
                        crate::flags::NONE,
                        UIDrawRole::LayoutBackground,
                        old(self).next_class,
                    ),
                )
            } else {
                old(self).command_buffer@
            }),
            final(self).state == old(self).state,
            final(self).input_state == old(self).input_state,
            final(self).hover_rect == old(self).hover_rect,
            final(self).next_class == old(self).next_class,
            final(self).focusables@ == old(self).focusables@,
            final(self).font_info == old(self).font_info,
    {
        let current = self.get_current_layout();
        let top_left = current.top_left;
        let sp = match spacing {
            Some(s) => s,
            None => current.spacing,
        };
        self.layout_at(top_left, direction, sp, with_bg)
    }

    /// Opens a nested layout at the given position; see `layout`.
    pub fn layout_at(&mut self, top_left: Vec2, direction: LayoutDirection, spacing: u32, with_bg: bool)
        requires
            old(self).wf(),
        ensures
            final(self).wf(),
            final(self).layout_stack@ == old(self).layout_stack@.push(
                (LayoutFrame {
                    layout: (Layout { direction, spacing, top_left, size: (Vec2 { x: 0, y: 0 }) }),
                    bg_index: (if with_bg {
                        Some(old(self).command_buffer@.len() as usize)
                    } else {
                        None
                    }),
                }),
            ),
            final(self).command_buffer@ == (if with_bg {
                old(self).command_buffer@.push(
                    rect_command(
                        (Rect { top_left, size: (Vec2 { x: 0, y: 0 }) }),
                        crate::flags::NONE,
                        UIDrawRole::LayoutBackground,
                        old(self).next_class,
                    ),
                )
            } else {
                old(self).command_buffer@
            }),
            final(self).state == old(self).state,
            final(self).input_state == old(self).input_state,
            final(self).hover_rect == old(self).hover_rect,
            final(self).next_class == old(self).next_class,
            final(self).focusables@ == old(self).focusables@,
            final(self).font_info == old(self).font_info,
    {
        let mut bg_idx: Option<usize> = None;
        if with_bg {
            let idx = self.rect_raw(
                Rect { top_left, size: Vec2::zero() },
                crate::flags::NONE,
                UIDrawRole::LayoutBackground,
            );
            bg_idx = Some(idx);
        }
        self.layout_stack.push(LayoutFrame {
            layout: Layout::new(direction, spacing, top_left, Vec2::zero()),
            bg_index: bg_idx,
        });
    }

    /// Closes the innermost nested layout: its accumulated size is folded
    /// into the parent exactly as a single child of that size, and the
    /// placeholder background command, if one was emitted, is rewritten in
    /// place with the final size. Returns the closed layout's size.
    pub fn end_layout(&mut self) -> (size: Vec2)
        requires
            old(self).wf(),
            old(self).layout_stack@.len() >= 2,
        ensures
            final(self).wf(),
            size == old(self).layout_stack@.last().layout.size,
            final(self).layout_stack@ == old(self).layout_stack@.drop_last().update(
                old(self).layout_stack@.len() - 2,
                (LayoutFrame {
                    layout: layout_recompute(
                        old(self).layout_stack@[old(self).layout_stack@.len() - 2].layout,
                        old(self).layout_stack@.last().layout.size,
                    ),
                    bg_index: old(self).layout_stack@[old(self).layout_stack@.len() - 2].bg_index,
                }),
            ),
            final(self).command_buffer@ == (match old(self).layout_stack@.last().bg_index {
                Some(idx) => old(self).command_buffer@.update(
                    idx as int,
                    patched_rect_size(
                        old(self).command_buffer@[idx as int],
                        old(self).layout_stack@.last().layout.size,
                    ),
                ),
                None => old(self).command_buffer@,
            }),
            final(self).state == old(self).state,
            final(self).input_state == old(self).input_state,
            final(self).hover_rect == old(self).hover_rect,
            final(self).next_class == old(self).next_class,
            final(self).focusables@ == old(self).focusables@,
            final(self).font_info == old(self).font_info,
    {
        let popped = self.layout_stack.pop().unwrap();
        let size = popped.layout.size;
        self.recompute_current_layout(size);
        if let Some(idx) = popped.bg_index {
            proof {
                assert(bg_ok(old(self).layout_stack@.last(), old(self).command_buffer@));
            }
            let patched = match &self.command_buffer[idx] {
                DrawCommand::DrawRect { draw_data } => {
                    let dd = *draw_data;
                    DrawCommand::DrawRect {
                        draw_data: DrawData {
                            rect: Rect { top_left: dd.rect.top_left, size },
                            flags: dd.flags,
                            role: dd.role,
                            class_list: dd.class_list,
                        },
                    }
                },
                DrawCommand::DrawText { .. } => vstd::pervasive::unreached(),
            };
            self.command_buffer[idx] = patched;
        }
        proof {
            assert(final(self).layout_stack@ =~= old(self).layout_stack@.drop_last().update(
                old(self).layout_stack@.len() - 2,
                LayoutFrame {
                    layout: layout_recompute(
                        old(self).layout_stack@[old(self).layout_stack@.len() - 2].layout,
                        old(self).layout_stack@.last().layout.size,
                    ),
                    bg_index: old(self).layout_stack@[old(self).layout_stack@.len() - 2].bg_index,
                },
            ));
        }
        size
    }

    /// Emits a background rectangle covering the current layout's extent.
    pub fn layout_rect(&mut self)
        requires
            old(self).wf(),
        ensures
            final(self).wf(),
            final(self).command_buffer@ == old(self).command_buffer@.push(
                rect_command(
                    (Rect {
                        top_left: old(self).current_layout().top_left,
                        size: old(self).current_layout().size,
                    }),
                    crate::flags::NONE,
                    UIDrawRole::LayoutBackground,
                    old(self).next_class,
                ),
            ),
            final(self).state == old(self).state,
            final(self).input_state == old(self).input_state,
            final(self).hover_rect == old(self).hover_rect,
            final(self).next_class == old(self).next_class,
            final(self).layout_stack@ == old(self).layout_stack@,
            final(self).focusables@ == old(self).focusables@,
            final(self).font_info == old(self).font_info,
    {
        let layout = self.get_current_layout();
        let rect = Rect { top_left: layout.top_left, size: layout.size };
        self.rect_raw(rect, crate::flags::NONE, UIDrawRole::LayoutBackground);
    }

    /// Draws `label` at `rect` with the neutral scale.
    pub fn text(&mut self, label: String, rect: Rect)
        requires
            old(self).wf(),
        ensures
            final(self).wf(),
            final(self).command_buffer@ == old(self).command_buffer@.push(
                text_command(
                    label,
                    rect,
                    crate::flags::NONE,
                    UIDrawRole::Text,
                    (TextScale { thousandths: 1000 }),
                    old(self).next_class,
                ),
            ),
            final(self).state == old(self).state,
            final(self).input_state == old(self).input_state,
            final(self).hover_rect == old(self).hover_rect,
            final(self).next_class == old(self).next_class,
            final(self).layout_stack@ == old(self).layout_stack@,
            final(self).focusables@ == old(self).focusables@,
            final(self).font_info == old(self).font_info,
    {
        self.text_scaled(label, rect, TextScale::one())
    }

    /// Draws `label` at `rect` with the given scale stamped on the command.
    pub fn text_scaled(&mut self, label: String, rect: Rect, scale: TextScale)
        requires
            old(self).wf(),
        ensures
            final(self).wf(),
            final(self).command_buffer@ == old(self).command_buffer@.push(
                text_command(
                    label,
                    rect,
                    crate::flags::NONE,
                    UIDrawRole::Text,
                    scale,
                    old(self).next_class,
                ),
            ),
            final(self).state == old(self).state,
            final(self).input_state == old(self).input_state,
            final(self).hover_rect == old(self).hover_rect,
            final(self).next_class == old(self).next_class,
            final(self).layout_stack@ == old(self).layout_stack@,
            final(self).focusables@ == old(self).focusables@,
            final(self).font_info == old(self).font_info,
    {
        self.text_raw(label, rect, crate::flags::NONE, UIDrawRole::Text, scale)
    }

    /// Draws `label` at the current layout cursor with the neutral scale
    /// and folds its measured size into the layout. Returns the size.
    pub fn text_layout(&mut self, label: String) -> (r: Vec2)
        requires
            old(self).wf(),
        ensures
            final(self).wf(),
            final(self).command_buffer@ == old(self).command_buffer@.push(
                text_command(
                    label,
                    (Rect { top_left: old(self).current_layout().top_left, size: r }),
                    crate::flags::NONE,
                    UIDrawRole::Text,
                    (TextScale { thousandths: 1000 }),
                    old(self).next_class,
                ),
            ),
            final(self).layout_stack@ == old(self).layout_stack@.update(
                old(self).layout_stack@.len() - 1,
                (LayoutFrame {
                    layout: layout_recompute(old(self).current_layout(), r),
                    bg_index: old(self).layout_stack@.last().bg_index,
                }),
            ),
            final(self).state == old(self).state,
            final(self).input_state == old(self).input_state,
            final(self).hover_rect == old(self).hover_rect,
            final(self).next_class == old(self).next_class,
            final(self).focusables@ == old(self).focusables@,
            final(self).font_info == old(self).font_info,
    {
        self.text_layout_scaled(label, TextScale::one())
    }

    /// Draws `label` at `position`, measured at the neutral scale; returns
    /// the measured size.
    pub fn text_at(&mut self, label: String, position: Vec2) -> (r: Vec2)
        requires
            old(self).wf(),
        ensures
            final(self).wf(),
            final(self).command_buffer@ == old(self).command_buffer@.push(
                text_command(
                    label,
                    (Rect { top_left: position, size: r }),
                    crate::flags::NONE,
                    UIDrawRole::Text,
                    (TextScale { thousandths: 1000 }),
                    old(self).next_class,
                ),
            ),
            final(self).state == old(self).state,
            final(self).input_state == old(self).input_state,
            final(self).hover_rect == old(self).hover_rect,
            final(self).next_class == old(self).next_class,
            final(self).layout_stack@ == old(self).layout_stack@,
            final(self).focusables@ == old(self).focusables@,
            final(self).font_info == old(self).font_info,
    {
        let text_size = self.font_info.compute_text_size(label.as_str(), TextScale::one());
        self.text(label, Rect { size: text_size, top_left: position });
        text_size
    }

    /// Draws `label` at `position`, measured at `scale`; the command itself
    /// carries the neutral scale. Returns the measured size.
    pub fn text_at_scaled(&mut self, label: String, position: Vec2, scale: TextScale) -> (r: Vec2)
        requires
            old(self).wf(),
        ensures
            final(self).wf(),
            final(self).command_buffer@ == old(self).command_buffer@.push(
                text_command(
                    label,
                    (Rect { top_left: position, size: r }),
                    crate::flags::NONE,
                    UIDrawRole::Text,
                    (TextScale { thousandths: 1000 }),
                    old(self).next_class,
                ),
            ),
            final(self).state == old(self).state,
            final(self).input_state == old(self).input_state,
            final(self).hover_rect == old(self).hover_rect,
            final(self).next_class == old(self).next_class,
            final(self).layout_stack@ == old(self).layout_stack@,
            final(self).focusables@ == old(self).focusables@,
            final(self).font_info == old(self).font_info,
    {
        let text_size = self.font_info.compute_text_size(label.as_str(), scale);
        self.text(label, Rect { size: text_size, top_left: position });
        text_size
    }

    /// Draws `label` at the current layout cursor at `scale` and folds its
    /// measured size into the layout. Returns the measured size.
    pub fn text_layout_scaled(&mut self, label: String, scale: TextScale) -> (r: Vec2)
        requires
            old(self).wf(),
        ensures
            final(self).wf(),
            final(self).command_buffer@ == old(self).command_buffer@.push(
                text_command(
                    label,
                    (Rect { top_left: old(self).current_layout().top_left, size: r }),
                    crate::flags::NONE,
                    UIDrawRole::Text,
                    scale,
                    old(self).next_class,
                ),
            ),
            final(self).layout_stack@ == old(self).layout_stack@.update(
                old(self).layout_stack@.len() - 1,
                (LayoutFrame {
                    layout: layout_recompute(old(self).current_layout(), r),
                    bg_index: old(self).layout_stack@.last().bg_index,
                }),
            ),
            final(self).state == old(self).state,
            final(self).input_state == old(self).input_state,
            final(self).hover_rect == old(self).hover_rect,
            final(self).next_class == old(self).next_class,
            final(self).focusables@ == old(self).focusables@,
            final(self).font_info == old(self).font_info,
    {
        let top_left = self.get_current_layout().top_left;
        let text_size = self.font_info.compute_text_size(label.as_str(), scale);
        self.text_scaled(label, Rect { size: text_size, top_left }, scale);
        self.recompute_current_layout(text_size);
        text_size
    }

    /// Everything drawing a button does to the context, given the measured
    /// label size: its background and centered label are emitted with the
    /// widget's flags, its rectangle joins the focus order and the hover
    /// candidate when hovered, and a click is reported per `click_fires`.
    pub open spec fn button_effects(
        self,
        post: Self,
        top_left: Vec2,
        text_size: Vec2,
        padding: Vec2,
        label: String,
        scale: TextScale,
        clicked: bool,
    ) -> bool {
        let rect = button_rect(top_left, text_size, padding);
        let hovered = is_hovered(rect, self.input_state);
        let focused = is_focused_in(self.state, rect);
        let active = is_active_in(self.state, rect);
        let flags = widget_flags(hovered, active || focused);
        &&& clicked == click_fires(self.state, self.input_state, rect)
        &&& post.command_buffer@ == self.command_buffer@.push(
            rect_command(rect, flags, UIDrawRole::ButtonBackground, self.next_class),
        ).push(
            text_command(
                label,
                button_text_rect(rect, text_size),
                flags,
                UIDrawRole::ButtonText,
                scale,
                self.next_class,
            ),
        )
        &&& post.focusables@ == self.focusables@.push(rect)
        &&& post.hover_rect == (if hovered {
            Some(rect)
        } else {
            self.hover_rect
        })
    }

    /// Draws a button from an already measured label size; see
    /// `button_effects` for what it does and when it reports a click.
    pub fn button_raw(
        &mut self,
        top_left: Vec2,
        text_size: Vec2,
        padding: Vec2,
        label: String,
        text_scale: TextScale,
    ) -> (clicked: bool)
        requires
            old(self).wf(),
        ensures
            final(self).wf(),
            old(self).button_effects(
                *final(self),
                top_left,
                text_size,
                padding,
                label,
                text_scale,
                clicked,
            ),
            final(self).state == old(self).state,
            final(self).input_state == old(self).input_state,
            final(self).next_class == old(self).next_class,
            final(self).layout_stack@ == old(self).layout_stack@,
            final(self).font_info == old(self).font_info,
    {
        let button_size = Vec2::add(text_size, padding);
        let rect = Rect { top_left, size: button_size };

        let hovered = self.check_set_hover(rect);
        let active = self.is_active(rect);
        let focused = self.register_focusable(rect);

        let flags = compute_flags(hovered, active || focused);

        let half_padding = Vec2::div_cmp(Vec2::sub(rect.size, text_size), 2);
        let centered_text_pos = Vec2::add(rect.top_left, half_padding);

        self.rect_raw(rect, flags, UIDrawRole::ButtonBackground);
        self.text_raw(
            label,
            Rect { top_left: centered_text_pos, size: text_size },
            flags,
            UIDrawRole::ButtonText,
            text_scale,
        );

        (hovered || focused) && self.clicked_rect(rect)
    }

    /// Draws a button whose label is measured at the neutral scale;
    /// reports whether it was clicked this frame.
    pub fn button(&mut self, top_left: Vec2, padding: Vec2, label: String) -> (clicked: bool)
        requires
            old(self).wf(),
        ensures
            final(self).wf(),
            exists|text_size: Vec2|
                old(self).button_effects(
                    *final(self),
                    top_left,
                    text_size,
                    padding,
                    label,
                    (TextScale { thousandths: 1000 }),
                    clicked,
                ),
            final(self).state == old(self).state,
            final(self).input_state == old(self).input_state,
            final(self).next_class == old(self).next_class,
            final(self).layout_stack@ == old(self).layout_stack@,
            final(self).font_info == old(self).font_info,
    {
        self.button_scaled(top_left, padding, label, TextScale::one())
    }

    /// Draws a button whose label is measured at `scale`.
    pub fn button_scaled(&mut self, top_left: Vec2, padding: Vec2, label: String, scale: TextScale) -> (clicked: bool)
        requires
            old(self).wf(),
        ensures
            final(self).wf(),
            exists|text_size: Vec2|
                old(self).button_effects(
                    *final(self),
                    top_left,
                    text_size,
                    padding,
                    label,
                    scale,
                    clicked,
                ),
            final(self).state == old(self).state,
            final(self).input_state == old(self).input_state,
            final(self).next_class == old(self).next_class,
            final(self).layout_stack@ == old(self).layout_stack@,
            final(self).font_info == old(self).font_info,
    {
        let text_size = self.font_info.compute_text_size(label.as_str(), scale);
        let clicked = self.button_raw(top_left, text_size, padding, label, scale);
        proof {
            assert(old(self).button_effects(
                *self,
                top_left,
                text_size,
                padding,
                label,
                scale,
                clicked,
            ));
        }
        clicked
    }

    /// Draws a button at the current layout cursor with the neutral scale
    /// and folds its size into the layout.
    pub fn button_layout(&mut self, padding: Vec2, label: String) -> (clicked: bool)
        requires
            old(self).wf(),
        ensures
            final(self).wf(),
            exists|text_size: Vec2|
                {
                    &&& old(self).button_effects(
                        *final(self),
                        old(self).current_layout().top_left,
                        text_size,
                        padding,
                        label,
                        (TextScale { thousandths: 1000 }),
                        clicked,
                    )
                    &&& final(self).layout_stack@ == old(self).layout_stack@.update(
                        old(self).layout_stack@.len() - 1,
                        (LayoutFrame {
                            layout: layout_recompute(
                                old(self).current_layout(),
                                vec2_sat_add(text_size, padding),
                            ),
                            bg_index: old(self).layout_stack@.last().bg_index,
                        }),
                    )
                },
            final(self).state == old(self).state,
            final(self).input_state == old(self).input_state,
            final(self).next_class == old(self).next_class,
            final(self).font_info == old(self).font_info,
    {
        self.button_layout_scaled(padding, label, TextScale::one())
    }

    /// Draws a button at the current layout cursor, measured at `scale`,
    /// and folds its size into the layout.
    pub fn button_layout_scaled(&mut self, padding: Vec2, label: String, scale: TextScale) -> (clicked: bool)
        requires
            old(self).wf(),
        ensures
            final(self).wf(),
            exists|text_size: Vec2|
                {
                    &&& old(self).button_effects(
                        *final(self),
                        old(self).current_layout().top_left,
                        text_size,
                        padding,
                        label,
                        scale,
                        clicked,
                    )
                    &&& final(self).layout_stack@ == old(self).layout_stack@.update(
                        old(self).layout_stack@.len() - 1,
                        (LayoutFrame {
                            layout: layout_recompute(
                                old(self).current_layout(),
                                vec2_sat_add(text_size, padding),
                            ),
                            bg_index: old(self).layout_stack@.last().bg_index,
                        }),
                    )
                },
            final(self).state == old(self).state,
            final(self).input_state == old(self).input_state,
            final(self).next_class == old(self).next_class,
            final(self).font_info == old(self).font_info,
    {
        let top_left = self.get_current_layout().top_left;
        let text_size = self.font_info.compute_text_size(label.as_str(), scale);
        let clicked = self.button_raw(top_left, text_size, padding, label, scale);
        self.recompute_current_layout(Vec2::add(text_size, padding));
        proof {
            assert({
                &&& old(self).button_effects(
                    *self,
                    old(self).current_layout().top_left,
                    text_size,
                    padding,
                    label,
                    scale,
                    clicked,
                )
                &&& self.layout_stack@ == old(self).layout_stack@.update(
                    old(self).layout_stack@.len() - 1,
                    LayoutFrame {
                        layout: layout_recompute(
                            old(self).current_layout(),
                            vec2_sat_add(text_size, padding),
                        ),
                        bg_index: old(self).layout_stack@.last().bg_index,
                    },
                )
            });
        }
        clicked
    }

    /// The rectangle of a checkbox's inner check mark: the box inset by a
    /// quarter of its size on each axis.
    pub open spec fn checkbox_check_rect(top_left: Vec2, size: Vec2) -> Rect {
        Rect {
            top_left: vec2_sat_add(
                top_left,
                Vec2 { x: (size.x as int / 4) as u32, y: (size.y as int / 4) as u32 },
            ),
            size: Vec2 {
                x: sat_sub_u32(size.x as int, 2 * (size.x as int / 4)) as u32,
                y: sat_sub_u32(size.y as int, 2 * (size.y as int / 4)) as u32,
            },
        }
    }

    /// Everything drawing a checkbox does: a click per `click_fires`
    /// toggles the caller's boolean exactly once, the box is emitted, and
    /// a check-mark rectangle follows it exactly when the boolean is true
    /// after the toggle.
    pub open spec fn checkbox_effects(
        self,
        post: Self,
        top_left: Vec2,
        size: Vec2,
        checked_before: bool,
        checked_after: bool,
        toggled: bool,
    ) -> bool {
        let rect = Rect { top_left, size };
        let hovered = is_hovered(rect, self.input_state);
        let focused = is_focused_in(self.state, rect);
        let active = is_active_in(self.state, rect);
        let flags = widget_flags(hovered, active || focused);
        let box_cmd = rect_command(rect, flags, UIDrawRole::CheckboxBox, self.next_class);
        let check_cmd = rect_command(
            Self::checkbox_check_rect(top_left, size),
            flags,
            UIDrawRole::CheckboxCheck,
            self.next_class,
        );
        &&& toggled == click_fires(self.state, self.input_state, rect)
        &&& checked_after == (if toggled {
            !checked_before
        } else {
            checked_before
        })
        &&& post.command_buffer@ == (if checked_after {
            self.command_buffer@.push(box_cmd).push(check_cmd)
        } else {
            self.command_buffer@.push(box_cmd)
        })
        &&& post.focusables@ == self.focusables@.push(rect)
        &&& post.hover_rect == (if hovered {
            Some(rect)
        } else {
            self.hover_rect
        })
    }

    /// Draws a checkbox at `top_left` with the given box size. Toggles the
    /// caller-owned boolean exactly when a click fires on the box, and
    /// reports that toggle.
    pub fn checkbox(&mut self, top_left: Vec2, size: Vec2, checked: &mut bool) -> (toggled: bool)
        requires
            old(self).wf(),
        ensures
            final(self).wf(),
            old(self).checkbox_effects(
                *final(self),
                top_left,
                size,
                *old(checked),
                *final(checked),
                toggled,
            ),
            final(self).state == old(self).state,
            final(self).input_state == old(self).input_state,
            final(self).next_class == old(self).next_class,
            final(self).layout_stack@ == old(self).layout_stack@,
            final(self).font_info == old(self).font_info,
    {
        let rect = Rect { top_left, size };

        let hovered = self.check_set_hover(rect);
        let active = self.is_active(rect);
        let focused = self.register_focusable(rect);

        let flags = compute_flags(hovered, active || focused);

        let toggled = (hovered || focused) && self.clicked_rect(rect);
        if toggled {
            *checked = !*checked;
        }

        self.rect_raw(rect, flags, UIDrawRole::CheckboxBox);

        if *checked {
            let inset = Vec2::new(size.x / 4, size.y / 4);
            let check_top_left = Vec2::add(rect.top_left, inset);
            let check_size = Vec2 {
                x: size.x.saturating_sub(inset.x * 2),
                y: size.y.saturating_sub(inset.y * 2),
            };
            self.rect_raw(
                Rect { top_left: check_top_left, size: check_size },
                flags,
                UIDrawRole::CheckboxCheck,
            );
        }

        toggled
    }

    /// Draws a checkbox at the current layout cursor and folds its size
    /// into the layout; reports the rectangle used and whether it toggled.
    pub fn checkbox_layout(&mut self, size: Vec2, checked: &mut bool) -> (r: CheckboxResult)
        requires
            old(self).wf(),
        ensures
            final(self).wf(),
            r.rect == (Rect { top_left: old(self).current_layout().top_left, size }),
            old(self).checkbox_effects(
                *final(self),
                old(self).current_layout().top_left,
                size,
                *old(checked),
                *final(checked),
                r.interacted,
            ),
            final(self).layout_stack@ == old(self).layout_stack@.update(
                old(self).layout_stack@.len() - 1,
                (LayoutFrame {
                    layout: layout_recompute(old(self).current_layout(), size),
                    bg_index: old(self).layout_stack@.last().bg_index,
                }),
            ),
            final(self).state == old(self).state,
            final(self).input_state == old(self).input_state,
            final(self).next_class == old(self).next_class,
            final(self).font_info == old(self).font_info,
    {
        let top_left = self.get_current_layout().top_left;
        let toggled = self.checkbox(top_left, size, checked);
        self.recompute_current_layout(size);
        CheckboxResult { interacted: toggled, rect: Rect { top_left, size } }
    }

    /// Everything the labelled checkbox does, given the measured label
    /// size: inside a nested horizontal layout at the current cursor, the
    /// label is drawn offset down by a quarter of the box height, the
    /// checkbox follows it, and the pair's accumulated size is folded into
    /// the current layout.
    pub open spec fn label_left_effects(
        self,
        post: Self,
        size: Vec2,
        checked_before: bool,
        checked_after: bool,
        toggled: bool,
        label: String,
        ts: Vec2,
    ) -> bool {
        let lay = self.current_layout();
        let child0 = Layout {
            direction: LayoutDirection::Horizontal,
            spacing: lay.spacing,
            top_left: lay.top_left,
            size: Vec2 { x: 0, y: 0 },
        };
        let label_tl = vec2_sat_add(lay.top_left, Vec2 { x: 0, y: (size.y as int / 4) as u32 });
        let child1 = layout_recompute(child0, ts);
        let crect = Rect { top_left: child1.top_left, size };
        let hovered = is_hovered(crect, self.input_state);
        let focused = is_focused_in(self.state, crect);
        let active = is_active_in(self.state, crect);
        let flags = widget_flags(hovered, active || focused);
        let text_cmd = text_command(
            label,
            Rect { top_left: label_tl, size: ts },
            crate::flags::NONE,
            UIDrawRole::Text,
            TextScale { thousandths: 1000 },
            self.next_class,
        );
        let box_cmd = rect_command(crect, flags, UIDrawRole::CheckboxBox, self.next_class);
        let check_cmd = rect_command(
            Self::checkbox_check_rect(crect.top_left, size),
            flags,
            UIDrawRole::CheckboxCheck,
            self.next_class,
        );
        let child2 = layout_recompute(child1, size);
        &&& toggled == click_fires(self.state, self.input_state, crect)
        &&& checked_after == (if toggled {
            !checked_before
        } else {
            checked_before
        })
        &&& post.command_buffer@ == (if checked_after {
            self.command_buffer@.push(text_cmd).push(box_cmd).push(check_cmd)
        } else {
            self.command_buffer@.push(text_cmd).push(box_cmd)
        })
        &&& post.focusables@ == self.focusables@.push(crect)
        &&& post.hover_rect == (if hovered {
            Some(crect)
        } else {
            self.hover_rect
        })
        &&& post.layout_stack@ == self.layout_stack@.update(
            self.layout_stack@.len() - 1,
            LayoutFrame {
                layout: layout_recompute(lay, child2.size),
                bg_index: self.layout_stack@.last().bg_index,
            },
        )
    }

    /// Draws a label and, to its right, a checkbox, inside a nested
    /// horizontal layout at the current cursor; see `label_left_effects`.
    /// Reports whether the checkbox toggled.
    pub fn checkbox_layout_label_left(
        &mut self,
        size: Vec2,
        checked: &mut bool,
        label: String,
        label_scale: TextScale,
    ) -> (toggled: bool)
        requires
            old(self).wf(),
        ensures
            final(self).wf(),
            exists|ts: Vec2|
                old(self).label_left_effects(
                    *final(self),
                    size,
                    *old(checked),
                    *final(checked),
                    toggled,
                    label,
                    ts,
                ),
            final(self).state == old(self).state,
            final(self).input_state == old(self).input_state,
            final(self).next_class == old(self).next_class,
            final(self).font_info == old(self).font_info,
    {
        self.layout(LayoutDirection::Horizontal, None, false);
        let layout_top_left = self.get_current_layout().top_left;
        let label_top_left = Vec2::add(layout_top_left, Vec2::new(0, size.y / 4));
        let text_size = self.text_at_scaled(label, label_top_left, label_scale);
        self.recompute_current_layout(text_size);
        let ghost mid = *self;
        let interacted = self.checkbox_layout(size, checked);
        let ghost after_cb = *self;
        self.end_layout();
        proof {
            let s0 = old(self).layout_stack@;
            assert(after_cb.layout_stack@.drop_last() =~= s0);
            assert(old(self).label_left_effects(
                *self,
                size,
                *old(checked),
                *checked,
                interacted.interacted,
                label,
                text_size,
            ));
        }
        interacted.interacted
    }

    /// Everything drawing a slider does: while the slider is the pressed
    /// widget, the horizontal pointer delta joins the drag accumulator and
    /// whole steps of it move the value, leaving the exact remainder;
    /// whatever the path, the value ends clamped to its range. The track
    /// and the knob, positioned by the clamped fraction of the range the
    /// value covers, are emitted, and the rectangle joins the focus order.
    pub open spec fn slider_effects<T: SliderValue>(
        self,
        post: Self,
        rect: Rect,
        sv0: SliderState<T>,
        sv1: SliderState<T>,
    ) -> bool {
        let hovered = is_hovered(rect, self.input_state);
        let focused = is_focused_in(self.state, rect);
        let active = is_active_in(self.state, rect);
        let mi = T::as_int(sv0.min);
        let ma = T::as_int(sv0.max);
        let stp = T::as_int(sv0.step);
        let span = sat_sub_u32(rect.size.x as int, 10);
        let pps = pixels_per_step(span, step_fraction(stp, mi, ma));
        let delta = self.input_state.mouse_position.x - self.state.last_mouse_position.x;
        let a1 = self.state.active_drag_accum + delta * (SUBPIXEL_ONE as int);
        let v1 = if active {
            slider_drag_value(T::as_int(sv0.value), stp, mi, ma, a1, pps)
        } else {
            T::as_int(sv0.value)
        };
        let flags = widget_flags(hovered, focused);
        let pf = percent_fraction(T::as_int(sv1.value), mi, ma);
        let offset = span * (pf.num as int) / (pf.den as int);
        let knob_rect = Rect {
            top_left: vec2_sat_add(rect.top_left, Vec2 { x: offset as u32, y: 0 }),
            size: Vec2 { x: 10, y: rect.size.y },
        };
        &&& T::as_int(sv1.value) == clamp_int(v1, mi, ma)
        &&& sv1.min == sv0.min
        &&& sv1.max == sv0.max
        &&& sv1.step == sv0.step
        &&& post.state.active_rect == self.state.active_rect
        &&& post.state.focused == self.state.focused
        &&& post.state.last_mouse_position == self.state.last_mouse_position
        &&& post.state.active_drag_accum == (if active {
            slider_drag_accum(a1, pps)
        } else {
            self.state.active_drag_accum as int
        })
        &&& post.command_buffer@ == self.command_buffer@.push(
            rect_command(rect, flags, UIDrawRole::SliderRect, self.next_class),
        ).push(rect_command(knob_rect, flags, UIDrawRole::SliderKnob, self.next_class))
        &&& post.focusables@ == self.focusables@.push(rect)
        &&& post.hover_rect == (if hovered {
            Some(rect)
        } else {
            self.hover_rect
        })
    }

    /// Draws a slider over `rect`, applying this frame's drag to the
    /// caller-owned state; see `slider_effects`.
    pub fn slider<T: SliderValue>(&mut self, rect: Rect, state: &mut SliderState<T>)
        requires
            old(self).wf(),
            old(state).wf(),
        ensures
            final(self).wf(),
            final(state).wf(),
            old(self).slider_effects(*final(self), rect, *old(state), *final(state)),
            final(self).input_state == old(self).input_state,
            final(self).next_class == old(self).next_class,
            final(self).layout_stack@ == old(self).layout_stack@,
            final(self).font_info == old(self).font_info,
    {
        let ghost mi = T::as_int(state.min);
        let ghost ma = T::as_int(state.max);
        let ghost stp = T::as_int(state.step);
        let ghost v0 = T::as_int(state.value);

        let hovered = self.check_set_hover(rect);
        let active = self.is_active(rect);
        let focused = self.register_focusable(rect);
        let knob_w: u32 = 10;
        let slider_span: u32 = rect.size.x.saturating_sub(knob_w);

        let frac = T::step_percentage(state.step, state.min, state.max);
        let pps_u: u128 = if slider_span == 0 {
            0
        } else {
            proof {
                assert((slider_span as int) * (frac.num as int) <= (u32::MAX as int) * (u64::MAX as int))
                    by (nonlinear_arith)
                    requires
                        0 <= slider_span <= u32::MAX,
                        0 <= frac.num <= u64::MAX,
                ;
            }
            ((slider_span as u128) * (frac.num as u128) * (SUBPIXEL_ONE as u128)) / (frac.den as u128)
        };
        let ghost pps = pixels_per_step(slider_span as int, frac);
        proof {
            if slider_span != 0 {
                assert(pps_u == pps);
            }
            assert(pps <= ((u32::MAX as int) * (u64::MAX as int)) * (SUBPIXEL_ONE as int)) by {
                if slider_span != 0 {
                    assert((slider_span as int) * (frac.num as int) * (SUBPIXEL_ONE as int)
                        <= ((u32::MAX as int) * (u64::MAX as int)) * (SUBPIXEL_ONE as int)
                        && 0 <= (slider_span as int) * (frac.num as int) * (SUBPIXEL_ONE as int))
                        by (nonlinear_arith)
                        requires
                            0 <= slider_span <= u32::MAX,
                            0 <= frac.num <= u64::MAX,
                            SUBPIXEL_ONE == 65536,
                    ;
                    vstd::arithmetic::div_mod::lemma_div_is_ordered(
                        (slider_span as int) * (frac.num as int) * (SUBPIXEL_ONE as int),
                        ((u32::MAX as int) * (u64::MAX as int)) * (SUBPIXEL_ONE as int),
                        frac.den as int,
                    );
                    vstd::arithmetic::div_mod::lemma_div_nonincreasing(
                        ((u32::MAX as int) * (u64::MAX as int)) * (SUBPIXEL_ONE as int),
                        frac.den as int,
                    );
                }
            }
            assert(((u32::MAX as int) * (u64::MAX as int)) * (SUBPIXEL_ONE as int)
                < crate::state::DRAG_ACCUM_LIMIT as int) by (nonlinear_arith);
        }

        if active {
            let mouse_x = self.input_state.mouse_position.x;
            let last_x = self.state.last_mouse_position.x;
            let delta: i64 = (mouse_x as i64) - (last_x as i64);
            proof {
                assert((delta as int) * (SUBPIXEL_ONE as int) <= (u32::MAX as int) * 65536
                    && (delta as int) * (SUBPIXEL_ONE as int) >= -((u32::MAX as int) * 65536))
                    by (nonlinear_arith)
                    requires
                        -(u32::MAX as int) <= delta <= u32::MAX as int,
                        SUBPIXEL_ONE == 65536,
                ;
            }
            let a1: i128 = self.state.active_drag_accum + (delta as i128) * (SUBPIXEL_ONE as i128);
            if pps_u > 0 {
                let neg = a1 < 0;
                let mag: u128 = if neg {
                    (-a1) as u128
                } else {
                    a1 as u128
                };
                let steps_u: u128 = mag / pps_u;
                let steps: u32 = if steps_u > (MAX_DRAG_STEPS as u128) {
                    MAX_DRAG_STEPS
                } else {
                    steps_u as u32
                };
                let rem: u128 = mag % pps_u;
                proof {
                    vstd::arithmetic::div_mod::lemma_mod_bound(mag as int, pps_u as int);
                    if neg {
                        assert(drag_steps(a1 as int, pps as int) == -(steps as int));
                        assert(drag_remainder(a1 as int, pps as int) == -(rem as int));
                    } else {
                        assert(drag_steps(a1 as int, pps as int) == steps as int);
                        assert(drag_remainder(a1 as int, pps as int) == rem as int);
                    }
                }
                if neg {
                    let mut applied: u32 = 0;
                    while applied < steps
                        invariant
                            applied <= steps,
                            mi <= ma,
                            T::as_int(state.min) == mi,
                            T::as_int(state.max) == ma,
                            T::as_int(state.step) == stp,
                            state.min == old(state).min,
                            state.max == old(state).max,
                            state.step == old(state).step,
                            T::as_int(state.value) == apply_steps(v0, stp, mi, ma, -(applied as int)),
                        decreases steps - applied,
                    {
                        state.value = T::decrement(state.value, state.step, state.min, state.max);
                        applied += 1;
                    }
                } else {
                    let mut applied: u32 = 0;
                    while applied < steps
                        invariant
                            applied <= steps,
                            mi <= ma,
                            T::as_int(state.min) == mi,
                            T::as_int(state.max) == ma,
                            T::as_int(state.step) == stp,
                            state.min == old(state).min,
                            state.max == old(state).max,
                            state.step == old(state).step,
                            T::as_int(state.value) == apply_steps(v0, stp, mi, ma, applied as int),
                        decreases steps - applied,
                    {
                        state.value = T::increment(state.value, state.step, state.min, state.max);
                        applied += 1;
                    }
                }
                self.state.active_drag_accum = if neg {
                    -(rem as i128)
                } else {
                    rem as i128
                };
            } else {
                if a1 > 0 {
                    state.value = T::increment(state.value, state.step, state.min, state.max);
                } else if a1 < 0 {
                    state.value = T::decrement(state.value, state.step, state.min, state.max);
                }
                self.state.active_drag_accum = 0;
            }
        }
        state.value = T::clamp_value(state.value, state.min, state.max);

        let pf = T::percentage(state.value, state.min, state.max);
        proof {
            assert((slider_span as int) * (pf.num as int) <= (slider_span as int) * (pf.den as int))
                by (nonlinear_arith)
                requires
                    0 <= slider_span,
                    0 <= pf.num <= pf.den,
            ;
            vstd::arithmetic::div_mod::lemma_div_is_ordered(
                (slider_span as int) * (pf.num as int),
                (slider_span as int) * (pf.den as int),
                pf.den as int,
            );
            vstd::arithmetic::div_mod::lemma_div_multiples_vanish(
                slider_span as int,
                pf.den as int,
            );
            assert((slider_span as int) * (pf.den as int) == (pf.den as int) * (slider_span as int))
                by (nonlinear_arith);
            vstd::arithmetic::div_mod::lemma_div_pos_is_pos(
                (slider_span as int) * (pf.num as int),
                pf.den as int,
            );
            assert((slider_span as int) * (pf.num as int) >= 0
                && (slider_span as int) * (pf.num as int) <= (u32::MAX as int) * (u64::MAX as int))
                by (nonlinear_arith)
                requires
                    0 <= slider_span <= u32::MAX,
                    0 <= pf.num <= u64::MAX,
            ;
            assert((u32::MAX as int) * (u64::MAX as int) < u128::MAX as int) by (nonlinear_arith);
        }
        let offset_u: u128 = ((slider_span as u128) * (pf.num as u128)) / (pf.den as u128);
        let offset: u32 = offset_u as u32;
        let knob_top_left = Vec2::add(rect.top_left, Vec2::new(offset, 0));
        let flags = compute_flags(hovered, focused);
        self.rect_raw(rect, flags, UIDrawRole::SliderRect);
        self.rect_raw(
            Rect { size: Vec2::new(knob_w, rect.size.y), top_left: knob_top_left },
            flags,
            UIDrawRole::SliderKnob,
        );
    }

    /// Draws a slider of the given size at the current layout cursor and
    /// folds its size into the layout.
    pub fn slider_layout<T: SliderValue>(&mut self, size: Vec2, state: &mut SliderState<T>)
        requires
            old(self).wf(),
            old(state).wf(),
        ensures
            final(self).wf(),
            final(state).wf(),
            old(self).slider_effects(
                *final(self),
                (Rect { top_left: old(self).current_layout().top_left, size }),
                *old(state),
                *final(state),
            ),
            final(self).layout_stack@ == old(self).layout_stack@.update(
                old(self).layout_stack@.len() - 1,
                (LayoutFrame {
                    layout: layout_recompute(old(self).current_layout(), size),
                    bg_index: old(self).layout_stack@.last().bg_index,
                }),
            ),
            final(self).input_state == old(self).input_state,
            final(self).next_class == old(self).next_class,
            final(self).font_info == old(self).font_info,
    {
        let top_left = self.get_current_layout().top_left;
        self.slider(Rect { top_left, size }, state);
        self.recompute_current_layout(size);
    }

    /// Finalizes the frame: reconciles the hover and focus observations
    /// against this frame's input per `ui_end_spec`, and hands back the
    /// next persistent state with the frame's commands.
    pub fn end(self) -> (r: UIResult)
        requires
            self.wf(),
        ensures
            r.new_state == ui_end_spec(self.state, self.input_state, self.hover_rect, self.focusables@),
            r.new_state.wf(),
            r.commands@ == self.command_buffer@,
    {
        let mut state = self.state;
        match self.input_state.activate_button {
            ButtonState::Down => {
                let target = match self.hover_rect {
                    Some(h) => Some(h),
                    None => state.focused,
                };
                let same = match (state.active_rect, target) {
                    (Some(a), Some(t)) => a == t,
                    (None, None) => true,
                    _ => false,
                };
                if !same {
                    state.active_drag_accum = 0;
                }
                state.active_rect = target;
            },
            ButtonState::Up => {
                state.active_rect = None;
                state.active_drag_accum = 0;
            },
        }

        if matches!(self.input_state.focus_next_button, ButtonState::Down) {
            match state.focused {
                Some(prev) => {
                    let n = self.focusables.len();
                    let mut i: usize = 0;
                    let mut found: Option<usize> = None;
                    while i < n && found.is_none()
                        invariant
                            n == self.focusables@.len(),
                            i <= n,
                            found matches Some(p) ==> i < n && p == i
                                && self.focusables@[p as int] == prev,
                            forall|j: int| 0 <= j < i ==> self.focusables@[j] != prev,
                        decreases (if found is Some { 0int } else { 1int }), n - i,
                    {
                        if self.focusables[i] == prev {
                            found = Some(i);
                        } else {
                            i += 1;
                        }
                    }
                    proof {
                        lemma_first_index(self.focusables@, prev);
                    }
                    let next_idx = match found {
                        Some(p) => {
                            proof {
                                assert(self.focusables@.contains(prev));
                                assert(first_index(self.focusables@, prev) == p as int) by {
                                    let fi = first_index(self.focusables@, prev);
                                    if fi < p as int {
                                        assert(self.focusables@[fi] != prev);
                                    }
                                    if fi > p as int {
                                        assert(self.focusables@[p as int] != prev);
                                    }
                                }
                            }
                            p + 1
                        },
                        None => {
                            proof {
                                if self.focusables@.contains(prev) {
                                    let w = choose|w: int|
                                        0 <= w < self.focusables@.len()
                                            && self.focusables@[w] == prev;
                                    assert(self.focusables@[w] != prev);
                                }
                            }
                            0
                        },
                    };
                    state.focused = if next_idx < self.focusables.len() {
                        Some(self.focusables[next_idx])
                    } else if self.focusables.len() > 0 {
                        Some(self.focusables[0])
                    } else {
                        None
                    };
                },
                None => {
                    state.focused = if self.focusables.len() > 0 {
                        Some(self.focusables[0])
                    } else {
                        None
                    };
                },
            }
        }

        state.last_mouse_position = self.input_state.mouse_position;
        UIResult { new_state: state, commands: self.command_buffer }
    }
}

/// A widget takes no click on the frame where the activate button goes
/// down over it; that frame ends with the widget pressed, and on the next
/// frame with the button up the click fires exactly when the widget is
/// still hovered or focused. Pressing arms, releasing over the same target
/// fires.
pub proof fn lemma_press_then_release_clicks(
    state0: UIState,
    input_down: UIInputState,
    input_up: UIInputState,
    rect: Rect,
    hover1: Option<Rect>,
    focusables1: Seq<Rect>,
)
    requires
        input_down.activate_button == ButtonState::Down,
        input_up.activate_button == ButtonState::Up,
        hover1 == Some(rect),
    ensures
        !click_fires(state0, input_down, rect),
        ({
            let state1 = ui_end_spec(state0, input_down, hover1, focusables1);
            &&& state1.active_rect == Some(rect)
            &&& click_fires(state1, input_up, rect) <==> (is_hovered(rect, input_up)
                || is_focused_in(state1, rect))
        }),
{
}

/// A widget whose rectangle is never the hover candidate and never holds
/// focus takes no click on either frame of a press-then-release cycle:
/// the press arms some other target (or none), so the release cannot fire
/// on this widget.
pub proof fn lemma_press_release_outside_no_click(
    state0: UIState,
    input_down: UIInputState,
    input_up: UIInputState,
    rect: Rect,
    hover1: Option<Rect>,
    focusables1: Seq<Rect>,
)
    requires
        input_down.activate_button == ButtonState::Down,
        input_up.activate_button == ButtonState::Up,
        hover1 != Some(rect),
        state0.focused != Some(rect),
        input_down.focus_next_button == ButtonState::Up,
    ensures
        !click_fires(state0, input_down, rect),
        !click_fires(ui_end_spec(state0, input_down, hover1, focusables1), input_up, rect),
{
}

/// A checkbox toggles its boolean exactly once per completed
/// press-then-release cycle over its rectangle: the press frame leaves the
/// boolean alone, the release frame inverts it once. (That a check-mark
/// command is emitted exactly on frames where the boolean ends up true is
/// part of `UIContext::checkbox_effects`.)
pub proof fn lemma_checkbox_toggles_once_per_cycle(
    state0: UIState,
    input_down: UIInputState,
    input_up: UIInputState,
    rect: Rect,
    checked0: bool,
    hover1: Option<Rect>,
    focusables1: Seq<Rect>,
)
    requires
        input_down.activate_button == ButtonState::Down,
        input_up.activate_button == ButtonState::Up,
        hover1 == Some(rect),
        is_hovered(rect, input_up),
    ensures
        ({
            let toggled_press = click_fires(state0, input_down, rect);
            let after_press = if toggled_press {
                !checked0
            } else {
                checked0
            };
            let state1 = ui_end_spec(state0, input_down, hover1, focusables1);
            let toggled_release = click_fires(state1, input_up, rect);
            let after_release = if toggled_release {
                !after_press
            } else {
                after_press
            };
            &&& !toggled_press
            &&& toggled_release
            &&& after_press == checked0
            &&& after_release == !checked0
        }),
{
}

} // verus!

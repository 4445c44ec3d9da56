use reimui::ButtonState;
use reimui::ClassList;
use reimui::DrawCommand;
use reimui::LayoutDirection;
use reimui::Rect;
use reimui::Milli;
use reimui::SliderState;
use reimui::TextScale;
use reimui::UIContext;
use reimui::UIDrawRole;
use reimui::UIInputState;
use reimui::UIState;
use reimui::Vec2;
use reimui::FontInformation;

const MOCK_TEXT_HEIGHT: u32 = 16;
const MOCK_TEXT_WIDTH: u32 = 8;

struct MockFontInfo;

impl FontInformation for MockFontInfo {
    fn compute_text_size(&self, text: &str, scale: TextScale) -> Vec2 {
        let scale = (scale.thousandths as f32 / 1000.0).max(0.0);
        Vec2 {
            x: (text.len() as f32 * MOCK_TEXT_WIDTH as f32 * scale).ceil() as u32,
            y: (MOCK_TEXT_HEIGHT as f32 * scale).ceil() as u32,
        }
    }
}

fn mock_font_info() -> MockFontInfo {
    MockFontInfo
}

#[test]
fn layout() {
    const SECTION_TEXT_LEN: u32 = 9;

    let input_state = UIInputState {
        activate_button: ButtonState::Up,
        focus_next_button: ButtonState::Up,
        mouse_position: Vec2::zero(),
    };

    let font_info = mock_font_info();
    let ui_state = UIState::new();
    let mut ctx = UIContext::new(ui_state, &font_info, input_state);
    // draw a horizontal group of texts, each with a vertical layout of text inside
    ctx.layout(LayoutDirection::Horizontal, Some(4), false);
    let main_layout = *ctx.get_current_layout();
    for i in 0..3 {
        let label = format!("Section {}", i);
        assert!(label.len() as u32 == SECTION_TEXT_LEN, "broken test assertion");

        ctx.text_layout(label);

        for j in 0..2 {
            let sub_label = format!("Section {} item {}", i, j);

            ctx.layout(LayoutDirection::Vertical, Some(2), false);
            ctx.text_layout(sub_label);

            let sub_layout = ctx.get_current_layout();
            assert_eq!(
                sub_layout.top_left.y,
                main_layout.top_left.y + MOCK_TEXT_HEIGHT + sub_layout.spacing
            );
            ctx.end_layout();
        }
    }
    ctx.end_layout();

    println!("layout {:?}", ctx.get_current_layout());

    assert_eq!(ctx.command_buffer.len(), 9);
}

#[test]
fn nested_layout_size_propagates() {
    let font_info = mock_font_info();
    let ui_state = UIState::new();
    let mut ctx = UIContext::new(ui_state, &font_info, UIInputState::default());

    ctx.layout(LayoutDirection::Horizontal, Some(4), false);
    let parent_before = *ctx.get_current_layout();
    ctx.layout(LayoutDirection::Vertical, Some(3), false);
    ctx.text_layout("Hi".into());
    ctx.text_layout("WiderText".into());
    let child_layout = *ctx.get_current_layout();
    ctx.end_layout();
    assert_eq!(child_layout.size.x, MOCK_TEXT_WIDTH * 9);
    assert_eq!(child_layout.size.y, MOCK_TEXT_HEIGHT * 2 + 3);

    let parent_after = *ctx.get_current_layout();

    assert_eq!(
        parent_after.top_left.x,
        parent_before.top_left.x + child_layout.size.x + parent_after.spacing
    );
    assert_eq!(parent_after.size.x, child_layout.size.x);
    assert_eq!(parent_after.size.y, child_layout.size.y);
    ctx.end_layout();
}

#[test]
fn layout_at_uses_given_position_for_background() {
    let font_info = mock_font_info();
    let mut ctx = UIContext::new(UIState::new(), &font_info, UIInputState::default());

    let layout_pos = Vec2 { x: 20, y: 30 };
    ctx.layout_at(layout_pos, LayoutDirection::Vertical, 2, true);
    ctx.text_layout("abc".into());
    ctx.end_layout();

    assert_eq!(ctx.command_buffer.len(), 2);
    match &ctx.command_buffer[0] {
        DrawCommand::DrawRect { draw_data } => {
            assert_eq!(draw_data.rect.top_left, layout_pos);
            assert_eq!(
                draw_data.rect.size,
                Vec2 { x: MOCK_TEXT_WIDTH * 3, y: MOCK_TEXT_HEIGHT }
            );
        }
        _ => panic!("expected layout background to be a rect draw"),
    }
}

#[test]
fn button_click() {
    let font_info = mock_font_info();
    let ui_state = UIState::new();

    // first frame: mouse down over button
    let mut ctx = UIContext::new(
        ui_state,
        &font_info,
        UIInputState { activate_button: ButtonState::Down, ..Default::default() },
    );
    let clicked = ctx.button(Vec2 { x: 0, y: 0 }, Vec2 { x: 8, y: 4 }, "Click me".into());
    assert!(!clicked, "button should not register click on mouse down");
    let result = ctx.end();

    // second frame: mouse up over button
    let mut ctx = UIContext::new(
        result.new_state,
        &font_info,
        UIInputState { activate_button: ButtonState::Up, ..Default::default() },
    );
    let clicked = ctx.button(Vec2 { x: 0, y: 0 }, Vec2 { x: 8, y: 4 }, "Click me".into());
    assert!(clicked, "button should register click on mouse up");
}

#[test]
fn button_click_outside() {
    let font_info = mock_font_info();
    let ui_state = UIState::new();

    let input_state = UIInputState {
        mouse_position: Vec2 { x: 100, y: 100 },
        activate_button: ButtonState::Down,
        ..Default::default()
    };

    // first frame: mouse down outside button
    let mut ctx = UIContext::new(ui_state, &font_info, input_state);
    let clicked = ctx.button(Vec2 { x: 0, y: 0 }, Vec2 { x: 8, y: 4 }, "Click me".into());
    assert!(!clicked, "button should not register click on mouse down outside");
    let result = ctx.end();

    let input_state = UIInputState {
        mouse_position: Vec2 { x: 100, y: 100 },
        ..Default::default()
    };

    // second frame: mouse up outside button
    let mut ctx = UIContext::new(result.new_state, &font_info, input_state);
    let clicked = ctx.button(Vec2 { x: 0, y: 0 }, Vec2 { x: 8, y: 4 }, "Click me".into());
    assert!(!clicked, "button should not register click on mouse up outside");
}

#[test]
fn enter_key_activates_focused_button() {
    let font_info = mock_font_info();
    let button_padding = Vec2::zero();
    let button_pos = Vec2::zero();
    let mouse_far = Vec2 { x: 999, y: 999 };

    // focus the button
    let mut ctx = UIContext::new(
        UIState::new(),
        &font_info,
        UIInputState {
            focus_next_button: ButtonState::Down,
            mouse_position: mouse_far,
            ..Default::default()
        },
    );
    ctx.button(button_pos, button_padding, "A".into());
    let result = ctx.end();

    // key down should mark it active but not click yet
    let mut ctx = UIContext::new(
        result.new_state,
        &font_info,
        UIInputState {
            activate_button: ButtonState::Down,
            mouse_position: mouse_far,
            ..Default::default()
        },
    );
    let clicked = ctx.button(button_pos, button_padding, "A".into());
    assert!(!clicked, "activate key down alone should not register a click");
    let state = ctx.end().new_state;

    // releasing the key should click the focused button even without hover
    let mut ctx = UIContext::new(
        state,
        &font_info,
        UIInputState {
            activate_button: ButtonState::Up,
            mouse_position: mouse_far,
            ..Default::default()
        },
    );
    let clicked = ctx.button(button_pos, button_padding, "A".into());
    assert!(clicked, "activate key up should click the focused button");
}

#[test]
fn tab_focus_advances_through_focusables() {
    let font_info = mock_font_info();
    let button_padding = Vec2::zero();
    let first_button_pos = Vec2::zero();
    let second_button_pos = Vec2 { x: 50, y: 0 };

    // first tab press should focus the first registered control
    let mut ctx = UIContext::new(
        UIState::new(),
        &font_info,
        UIInputState { focus_next_button: ButtonState::Down, ..Default::default() },
    );
    ctx.button(first_button_pos, button_padding, "A".into());
    ctx.button(second_button_pos, button_padding, "B".into());
    let result = ctx.end();
    assert_eq!(result.new_state.focused.unwrap().top_left, first_button_pos);

    // next press should advance to the next focusable
    let mut ctx = UIContext::new(
        result.new_state,
        &font_info,
        UIInputState { focus_next_button: ButtonState::Down, ..Default::default() },
    );
    ctx.button(first_button_pos, button_padding, "A".into());
    ctx.button(second_button_pos, button_padding, "B".into());
    let result = ctx.end();
    assert_eq!(result.new_state.focused.unwrap().top_left, second_button_pos);

    // pressing again should wrap back to the first
    let mut ctx = UIContext::new(
        result.new_state,
        &font_info,
        UIInputState { focus_next_button: ButtonState::Down, ..Default::default() },
    );
    ctx.button(first_button_pos, button_padding, "A".into());
    ctx.button(second_button_pos, button_padding, "B".into());
    let result = ctx.end();
    assert_eq!(result.new_state.focused.unwrap().top_left, first_button_pos);
}

#[test]
fn slider_updates_direction_and_clamps() {
    let font_info = mock_font_info();
    let rect = Rect {
        top_left: Vec2 { x: 0, y: 0 },
        size: Vec2 { x: 100, y: 12 },
    };
    let mut slider_state = SliderState::new(0_u32, 10_u32, 5_u32, 1_u32);

    let input_state = UIInputState {
        mouse_position: Vec2 { x: 10, y: 6 },
        activate_button: ButtonState::Down,
        ..Default::default()
    };

    // prime the slider to become active
    let mut ctx = UIContext::new(UIState::new(), &font_info, input_state);
    ctx.slider(rect, &mut slider_state);
    let mut state = ctx.end().new_state;

    // small motions should not cause a step yet
    let mut ctx = UIContext::new(
        state,
        &font_info,
        UIInputState {
            mouse_position: Vec2::new(14, 6),
            activate_button: ButtonState::Down,
            ..Default::default()
        },
    );
    ctx.slider(rect, &mut slider_state);
    state = ctx.end().new_state;
    assert_eq!(slider_state.value, 5);

    // accumulate enough motion to register a single step
    let mut ctx = UIContext::new(
        state,
        &font_info,
        UIInputState {
            mouse_position: Vec2::new(20, 6),
            activate_button: ButtonState::Down,
            ..Default::default()
        },
    );
    ctx.slider(rect, &mut slider_state);
    state = ctx.end().new_state;
    assert_eq!(slider_state.value, 6);

    // moving left far enough should decrease value once
    let mut ctx = UIContext::new(
        state,
        &font_info,
        UIInputState {
            mouse_position: Vec2 { x: 5, y: 6 },
            activate_button: ButtonState::Down,
            ..Default::default()
        },
    );
    ctx.slider(rect, &mut slider_state);
    state = ctx.end().new_state;
    assert_eq!(slider_state.value, 5);

    // release to reset the drag accumulator
    let ctx = UIContext::new(
        state,
        &font_info,
        UIInputState {
            mouse_position: Vec2 { x: 5, y: 6 },
            activate_button: ButtonState::Up,
            ..Default::default()
        },
    );
    state = ctx.end().new_state;

    // large step decrease should clamp to the minimum without crashing
    slider_state.step = 10;
    let mut ctx = UIContext::new(
        state,
        &font_info,
        UIInputState {
            mouse_position: Vec2 { x: 90, y: 6 },
            activate_button: ButtonState::Down,
            ..Default::default()
        },
    );
    ctx.slider(rect, &mut slider_state);
    state = ctx.end().new_state;
    let mut ctx = UIContext::new(
        state,
        &font_info,
        UIInputState {
            mouse_position: Vec2 { x: 0, y: 6 },
            activate_button: ButtonState::Down,
            ..Default::default()
        },
    );
    ctx.slider(rect, &mut slider_state);
    ctx.end();
    assert_eq!(slider_state.value, slider_state.min);
}

#[test]
fn checkbox_toggles_and_draws_check() {
    let font_info = mock_font_info();
    let rect = Rect {
        top_left: Vec2 { x: 0, y: 0 },
        size: Vec2 { x: 20, y: 20 },
    };
    let mut checked = false;

    // press down over the box
    let mut ctx = UIContext::new(
        UIState::new(),
        &font_info,
        UIInputState {
            mouse_position: Vec2 { x: 10, y: 10 },
            activate_button: ButtonState::Down,
            ..Default::default()
        },
    );
    let toggled = ctx.checkbox(rect.top_left, rect.size, &mut checked);
    assert!(!toggled);
    assert!(!checked);
    let state = ctx.end().new_state;

    // release over the box should toggle
    let mut ctx = UIContext::new(
        state,
        &font_info,
        UIInputState {
            mouse_position: Vec2 { x: 10, y: 10 },
            activate_button: ButtonState::Up,
            ..Default::default()
        },
    );
    let toggled = ctx.checkbox(rect.top_left, rect.size, &mut checked);
    assert!(toggled);
    assert!(checked);

    // when checked, a check draw command is emitted after the box
    assert_eq!(ctx.command_buffer.len(), 2);
    match (&ctx.command_buffer[0], &ctx.command_buffer[1]) {
        (
            DrawCommand::DrawRect { draw_data: box_draw },
            DrawCommand::DrawRect { draw_data: check_draw },
        ) => {
            assert_eq!(box_draw.role, UIDrawRole::CheckboxBox);
            assert_eq!(check_draw.role, UIDrawRole::CheckboxCheck);
        }
        _ => panic!("expected two rectangle draws for checkbox"),
    }
}

#[test]
fn backgrounded_layout_sizes_to_stacked_texts() {
    // two stacked texts of widths 40 and 72, vertical spacing 3: the
    // deferred background rewrite must reflect the true final content size
    let font_info = mock_font_info();
    let mut ctx = UIContext::new(UIState::new(), &font_info, UIInputState::default());

    ctx.layout(LayoutDirection::Vertical, Some(3), true);
    ctx.text_layout("Hello".into()); // 5 chars * 8 = 40 wide
    ctx.text_layout("WiderText".into()); // 9 chars * 8 = 72 wide
    let size = ctx.end_layout();

    assert_eq!(size, Vec2 { x: 72, y: MOCK_TEXT_HEIGHT * 2 + 3 });
    match &ctx.command_buffer[0] {
        DrawCommand::DrawRect { draw_data } => {
            assert_eq!(draw_data.role, UIDrawRole::LayoutBackground);
            assert_eq!(draw_data.rect.size, Vec2 { x: 72, y: MOCK_TEXT_HEIGHT * 2 + 3 });
        }
        _ => panic!("expected the background to be the first command"),
    }
}

#[test]
fn empty_backgrounded_layout_is_zero_sized() {
    let font_info = mock_font_info();
    let mut ctx = UIContext::new(UIState::new(), &font_info, UIInputState::default());

    ctx.layout(LayoutDirection::Vertical, Some(5), true);
    let size = ctx.end_layout();

    assert_eq!(size, Vec2::zero());
    match &ctx.command_buffer[0] {
        DrawCommand::DrawRect { draw_data } => {
            assert_eq!(draw_data.rect.size, Vec2::zero());
        }
        _ => panic!("expected a background rect draw"),
    }
}

#[test]
fn drag_in_halves_matches_single_drag() {
    // track 100 wide, knob 10: span 90; range 0..=10, step 1: 9 px per step.
    // dragging right by 4 then 5 (9 px in halves) must land exactly where
    // one 9 px drag lands, remainder preserved across frames.
    let font_info = mock_font_info();
    let rect = Rect { top_left: Vec2 { x: 0, y: 0 }, size: Vec2 { x: 100, y: 12 } };

    let run = |deltas: &[u32]| -> u32 {
        let mut slider_state = SliderState::new(0_u32, 10_u32, 5_u32, 1_u32);
        let mut mouse_x: u32 = 10;
        let mut state = UIState::new();
        // priming frame: press at the starting position
        let mut ctx = UIContext::new(
            state,
            &font_info,
            UIInputState {
                mouse_position: Vec2 { x: mouse_x, y: 6 },
                activate_button: ButtonState::Down,
                ..Default::default()
            },
        );
        ctx.slider(rect, &mut slider_state);
        state = ctx.end().new_state;
        for d in deltas {
            mouse_x += d;
            let mut ctx = UIContext::new(
                state,
                &font_info,
                UIInputState {
                    mouse_position: Vec2 { x: mouse_x, y: 6 },
                    activate_button: ButtonState::Down,
                    ..Default::default()
                },
            );
            ctx.slider(rect, &mut slider_state);
            state = ctx.end().new_state;
        }
        slider_state.value
    };

    assert_eq!(run(&[4, 5]), run(&[9]));
    assert_eq!(run(&[4, 5]), 6);
    // sub-step motion is never lost: three 3 px drags equal one 9 px drag
    assert_eq!(run(&[3, 3, 3]), run(&[9]));
}

#[test]
fn slider_drag_past_max_clamps() {
    let font_info = mock_font_info();
    let rect = Rect { top_left: Vec2 { x: 0, y: 0 }, size: Vec2 { x: 100, y: 12 } };
    let mut slider_state = SliderState::new(0_u32, 10_u32, 9_u32, 1_u32);

    let mut ctx = UIContext::new(
        UIState::new(),
        &font_info,
        UIInputState {
            mouse_position: Vec2 { x: 10, y: 6 },
            activate_button: ButtonState::Down,
            ..Default::default()
        },
    );
    ctx.slider(rect, &mut slider_state);
    let state = ctx.end().new_state;

    // a drag far past the end of the range clamps to max without panicking
    let mut ctx = UIContext::new(
        state,
        &font_info,
        UIInputState {
            mouse_position: Vec2 { x: 4000, y: 6 },
            activate_button: ButtonState::Down,
            ..Default::default()
        },
    );
    ctx.slider(rect, &mut slider_state);
    ctx.end();
    assert_eq!(slider_state.value, 10);
}

#[test]
fn slider_degenerate_range_stays_put() {
    // min == max: the step fraction is zero, so any drag applies a single
    // clamped step, which cannot move the value
    let font_info = mock_font_info();
    let rect = Rect { top_left: Vec2 { x: 0, y: 0 }, size: Vec2 { x: 100, y: 12 } };
    let mut slider_state = SliderState::new(7_u32, 7_u32, 7_u32, 1_u32);

    let mut ctx = UIContext::new(
        UIState::new(),
        &font_info,
        UIInputState {
            mouse_position: Vec2 { x: 10, y: 6 },
            activate_button: ButtonState::Down,
            ..Default::default()
        },
    );
    ctx.slider(rect, &mut slider_state);
    let state = ctx.end().new_state;

    let mut ctx = UIContext::new(
        state,
        &font_info,
        UIInputState {
            mouse_position: Vec2 { x: 60, y: 6 },
            activate_button: ButtonState::Down,
            ..Default::default()
        },
    );
    ctx.slider(rect, &mut slider_state);
    ctx.end();
    assert_eq!(slider_state.value, 7);
}

#[test]
fn class_list_lookup_splits_on_whitespace() {
    let list = ClassList::new("cool-btn  text-red\tborder");
    assert!(list.has("cool-btn"));
    assert!(list.has("text-red"));
    assert!(list.has("border"));
    assert!(!list.has("cool"));
    assert!(!list.has("btn"));
    assert!(!list.has("red"));
    assert!(!list.has(""));
    assert!(!list.has("cool-btn  text-red"));

    assert!(ClassList::new("solo").has("solo"));
    assert!(!ClassList::new("").has("solo"));
    assert_eq!(ClassList::new("a b"), ClassList::new("a b"));
    assert_ne!(ClassList::new("a b"), ClassList::new("a c"));
}

#[test]
fn class_list_is_stamped_on_commands() {
    let font_info = mock_font_info();
    let mut ctx = UIContext::new(UIState::new(), &font_info, UIInputState::default());

    ctx.set_class_list(ClassList::new("fancy panel"));
    ctx.text(
        "tagged".into(),
        Rect { top_left: Vec2::zero(), size: Vec2 { x: 48, y: 16 } },
    );
    ctx.clear_class_list();
    ctx.text(
        "plain".into(),
        Rect { top_left: Vec2::zero(), size: Vec2 { x: 40, y: 16 } },
    );

    match (&ctx.command_buffer[0], &ctx.command_buffer[1]) {
        (
            DrawCommand::DrawText { draw_data: tagged, .. },
            DrawCommand::DrawText { draw_data: plain, .. },
        ) => {
            let list = tagged.class_list.expect("first command should carry the class list");
            assert!(list.has("fancy"));
            assert!(list.has("panel"));
            assert!(plain.class_list.is_none());
        }
        _ => panic!("expected two text draws"),
    }
}

#[test]
fn vec2_arithmetic_saturates() {
    let big = Vec2 { x: u32::MAX - 1, y: 3 };
    let sum = Vec2::add(big, Vec2 { x: 10, y: 4 });
    assert_eq!(sum, Vec2 { x: u32::MAX, y: 7 });

    let diff = Vec2::sub(Vec2 { x: 5, y: 2 }, Vec2 { x: 7, y: 1 });
    assert_eq!(diff, Vec2 { x: 0, y: 1 });

    let halves = Vec2::div_cmp(Vec2 { x: 9, y: 4 }, 2);
    assert_eq!(halves, Vec2 { x: 4, y: 2 });
}

#[test]
fn rect_contains_is_inclusive() {
    let rect = Rect { top_left: Vec2 { x: 10, y: 20 }, size: Vec2 { x: 5, y: 5 } };
    assert!(rect.contains(Vec2 { x: 10, y: 20 }));
    assert!(rect.contains(Vec2 { x: 15, y: 25 }));
    assert!(rect.contains(Vec2 { x: 12, y: 22 }));
    assert!(!rect.contains(Vec2 { x: 9, y: 22 }));
    assert!(!rect.contains(Vec2 { x: 16, y: 22 }));
    assert!(!rect.contains(Vec2 { x: 12, y: 26 }));
}

#[test]
fn button_commands_carry_hover_flag() {
    let font_info = mock_font_info();
    let mut ctx = UIContext::new(
        UIState::new(),
        &font_info,
        UIInputState { mouse_position: Vec2 { x: 1, y: 1 }, ..Default::default() },
    );
    ctx.button(Vec2::zero(), Vec2 { x: 8, y: 4 }, "Hi".into());

    match &ctx.command_buffer[0] {
        DrawCommand::DrawRect { draw_data } => {
            assert_eq!(draw_data.role, UIDrawRole::ButtonBackground);
            assert_eq!(draw_data.flags & reimui::flags::HOVER, reimui::flags::HOVER);
        }
        _ => panic!("expected the button background first"),
    }
    match &ctx.command_buffer[1] {
        DrawCommand::DrawText { draw_data, .. } => {
            assert_eq!(draw_data.role, UIDrawRole::ButtonText);
        }
        _ => panic!("expected the button label second"),
    }
}

#[test]
fn checkbox_layout_reports_cursor_rect() {
    let font_info = mock_font_info();
    let mut ctx = UIContext::new(UIState::new(), &font_info, UIInputState::default());
    let mut checked = false;

    ctx.layout_at(Vec2 { x: 30, y: 40 }, LayoutDirection::Vertical, 2, false);
    let result = ctx.checkbox_layout(Vec2 { x: 20, y: 20 }, &mut checked);
    ctx.end_layout();

    assert_eq!(result.rect.top_left, Vec2 { x: 30, y: 40 });
    assert_eq!(result.rect.size, Vec2 { x: 20, y: 20 });
    assert!(!result.interacted);
}

#[test]
fn checkbox_label_left_toggles_on_release() {
    let font_info = mock_font_info();
    let size = Vec2 { x: 20, y: 20 };
    let mut checked = false;

    // the label is 5 chars * 8 = 40 px wide, so the box starts at x = 40
    // (horizontal spacing 0); press inside the box
    let over_box = Vec2 { x: 45, y: 10 };
    let mut ctx = UIContext::new(
        UIState::new(),
        &font_info,
        UIInputState {
            mouse_position: over_box,
            activate_button: ButtonState::Down,
            ..Default::default()
        },
    );
    let toggled = ctx.checkbox_layout_label_left(size, &mut checked, "Sound".into(), TextScale::one());
    assert!(!toggled);
    assert!(!checked);
    let state = ctx.end().new_state;

    let mut ctx = UIContext::new(
        state,
        &font_info,
        UIInputState {
            mouse_position: over_box,
            activate_button: ButtonState::Up,
            ..Default::default()
        },
    );
    let toggled = ctx.checkbox_layout_label_left(size, &mut checked, "Sound".into(), TextScale::one());
    assert!(toggled);
    assert!(checked);
}

#[test]
fn tab_press_with_no_focusables_clears_nothing() {
    let font_info = mock_font_info();
    let result = UIContext::new(
        UIState::new(),
        &font_info,
        UIInputState { focus_next_button: ButtonState::Down, ..Default::default() },
    )
    .end();
    assert!(result.new_state.focused.is_none());
}

#[test]
fn default_state_and_input_are_idle() {
    let state = UIState::default();
    assert!(state.focused_rect().is_none());
    assert!(state.active_rect.is_none());
    assert_eq!(state.last_mouse_position, Vec2::zero());

    let input = UIInputState::default();
    assert_eq!(input.mouse_position, Vec2::zero());
    assert_eq!(input.activate_button, ButtonState::Up);
    assert_eq!(input.focus_next_button, ButtonState::Up);
}

#[test]
fn slider_state_constructors_store_fields() {
    let from_range = SliderState::new_range(2_i64..9_i64, 4_i64, 1_i64);
    assert_eq!(from_range.min, 2);
    assert_eq!(from_range.max, 9);
    assert_eq!(from_range.value, 4);
    assert_eq!(from_range.step, 1);

    let direct = SliderState::new(-5_i32, 5_i32, 0_i32, 2_i32);
    assert_eq!(direct.min, -5);
    assert_eq!(direct.max, 5);
    assert_eq!(direct.value, 0);
    assert_eq!(direct.step, 2);
}

#[test]
fn fractional_slider_keeps_subpixel_remainders() {
    // a 0.0..=1.0 slider in thousandths with step 0.333: over a 90 px
    // span one step needs 29.97 px, so whole-pixel drags leave sub-pixel
    // remainders that must carry across frames exactly
    let font_info = mock_font_info();
    let rect = Rect { top_left: Vec2 { x: 0, y: 0 }, size: Vec2 { x: 100, y: 12 } };

    let run = |deltas: &[u32]| -> i64 {
        let mut slider_state = SliderState::new(
            Milli::of_thousandths(0),
            Milli::of_thousandths(1000),
            Milli::of_thousandths(0),
            Milli::of_thousandths(333),
        );
        let mut mouse_x: u32 = 10;
        let mut state = UIState::new();
        let mut ctx = UIContext::new(
            state,
            &font_info,
            UIInputState {
                mouse_position: Vec2 { x: mouse_x, y: 6 },
                activate_button: ButtonState::Down,
                ..Default::default()
            },
        );
        ctx.slider(rect, &mut slider_state);
        state = ctx.end().new_state;
        for d in deltas {
            mouse_x += d;
            let mut ctx = UIContext::new(
                state,
                &font_info,
                UIInputState {
                    mouse_position: Vec2 { x: mouse_x, y: 6 },
                    activate_button: ButtonState::Down,
                    ..Default::default()
                },
            );
            ctx.slider(rect, &mut slider_state);
            state = ctx.end().new_state;
        }
        slider_state.value.thousandths
    };

    assert_eq!(run(&[15, 15]), run(&[30]));
    assert_eq!(run(&[30]), 333);
    // 29 px is just under one step; the 30th pixel completes it
    assert_eq!(run(&[29]), 0);
    assert_eq!(run(&[29, 1]), 333);
}

#[test]
fn signed_slider_steps_and_clamps() {
    let font_info = mock_font_info();
    let rect = Rect { top_left: Vec2 { x: 0, y: 0 }, size: Vec2 { x: 100, y: 12 } };
    // range -5..=5, step 1: 10 steps over 90 px of span, 9 px per step
    let mut slider_state = SliderState::new(-5_i32, 5_i32, 0_i32, 1_i32);

    let mut ctx = UIContext::new(
        UIState::new(),
        &font_info,
        UIInputState {
            mouse_position: Vec2 { x: 50, y: 6 },
            activate_button: ButtonState::Down,
            ..Default::default()
        },
    );
    ctx.slider(rect, &mut slider_state);
    let state = ctx.end().new_state;

    // drag left by 18 px: exactly two steps down
    let mut ctx = UIContext::new(
        state,
        &font_info,
        UIInputState {
            mouse_position: Vec2 { x: 32, y: 6 },
            activate_button: ButtonState::Down,
            ..Default::default()
        },
    );
    ctx.slider(rect, &mut slider_state);
    ctx.end();
    assert_eq!(slider_state.value, -2);
}

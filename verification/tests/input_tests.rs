use druid_shell::input::{
    cursor_name, get_modifiers, get_mouse_button, get_mouse_button_from_modifiers,
    get_mouse_click_count, get_scroll_delta, make_mouse_down_event, make_mouse_move_event,
    make_mouse_up_event, ButtonPressKind, Cursor, MouseButton, ScrollDirection, BUTTON1_MASK,
    BUTTON2_MASK, BUTTON3_MASK, BUTTON4_MASK, BUTTON5_MASK, CONTROL_MASK, META_MASK, MOD1_MASK,
    SHIFT_MASK,
};

#[test]
fn button_codes_one_to_five_map_in_order() {
    assert_eq!(get_mouse_button(1), MouseButton::Left);
    assert_eq!(get_mouse_button(2), MouseButton::Middle);
    assert_eq!(get_mouse_button(3), MouseButton::Right);
    assert_eq!(get_mouse_button(4), MouseButton::X1);
    assert_eq!(get_mouse_button(5), MouseButton::X2);
}

#[test]
fn unknown_button_codes_fall_back_to_left() {
    assert_eq!(get_mouse_button(0), MouseButton::Left);
    assert_eq!(get_mouse_button(6), MouseButton::Left);
    assert_eq!(get_mouse_button(99), MouseButton::Left);
    assert_eq!(get_mouse_button(u32::MAX), MouseButton::Left);
}

#[test]
fn button_from_modifier_bits() {
    assert_eq!(get_mouse_button_from_modifiers(BUTTON1_MASK), MouseButton::Left);
    assert_eq!(get_mouse_button_from_modifiers(BUTTON2_MASK), MouseButton::Middle);
    assert_eq!(get_mouse_button_from_modifiers(BUTTON3_MASK), MouseButton::Right);
    assert_eq!(get_mouse_button_from_modifiers(BUTTON4_MASK), MouseButton::X1);
    assert_eq!(get_mouse_button_from_modifiers(BUTTON5_MASK), MouseButton::X2);
}

#[test]
fn button_from_modifiers_prefers_lowest_button_bit() {
    let both = BUTTON2_MASK | BUTTON3_MASK;
    assert_eq!(get_mouse_button_from_modifiers(both), MouseButton::Middle);
    let all = BUTTON1_MASK | BUTTON2_MASK | BUTTON3_MASK | BUTTON4_MASK | BUTTON5_MASK;
    assert_eq!(get_mouse_button_from_modifiers(all), MouseButton::Left);
}

#[test]
fn button_from_modifiers_without_button_bits_is_left() {
    assert_eq!(get_mouse_button_from_modifiers(0), MouseButton::Left);
    assert_eq!(get_mouse_button_from_modifiers(SHIFT_MASK | CONTROL_MASK), MouseButton::Left);
}

#[test]
fn click_counts_for_press_subtypes() {
    assert_eq!(get_mouse_click_count(ButtonPressKind::Single), 1);
    assert_eq!(get_mouse_click_count(ButtonPressKind::Double), 2);
    assert_eq!(get_mouse_click_count(ButtonPressKind::Triple), 3);
    assert_eq!(get_mouse_click_count(ButtonPressKind::Other), 0);
}

#[test]
fn modifier_flags_are_tested_independently() {
    let m = get_modifiers(SHIFT_MASK | META_MASK);
    assert!(m.shift && m.meta && !m.alt && !m.ctrl);
    let m = get_modifiers(MOD1_MASK | CONTROL_MASK);
    assert!(!m.shift && !m.meta && m.alt && m.ctrl);
    let m = get_modifiers(0);
    assert!(!m.shift && !m.meta && !m.alt && !m.ctrl);
}

#[test]
fn scroll_up_and_down_deltas() {
    assert_eq!(get_scroll_delta(ScrollDirection::Up), Some((0, -120)));
    assert_eq!(get_scroll_delta(ScrollDirection::Down), Some((0, 120)));
}

#[test]
fn scroll_horizontal_deltas() {
    assert_eq!(get_scroll_delta(ScrollDirection::Left), Some((120, 0)));
    assert_eq!(get_scroll_delta(ScrollDirection::Right), Some((120, 0)));
}

#[test]
fn smooth_and_unknown_scroll_carry_no_delta() {
    assert_eq!(get_scroll_delta(ScrollDirection::Smooth), None);
    assert_eq!(get_scroll_delta(ScrollDirection::Other), None);
}

#[test]
fn double_press_on_button_three_is_right_count_two() {
    let ev = make_mouse_down_event(40, 30, ButtonPressKind::Double, 0, 3);
    assert_eq!(ev.button, MouseButton::Right);
    assert_eq!(ev.count, 2);
    assert_eq!((ev.x, ev.y), (40, 30));
}

#[test]
fn mouse_up_event_has_count_zero() {
    let ev = make_mouse_up_event(1, 2, SHIFT_MASK, 1);
    assert_eq!(ev.count, 0);
    assert_eq!(ev.button, MouseButton::Left);
    assert!(ev.mods.shift);
}

#[test]
fn mouse_move_event_infers_button_from_held_bits() {
    let ev = make_mouse_move_event(7, 8, BUTTON3_MASK);
    assert_eq!(ev.button, MouseButton::Right);
    assert_eq!(ev.count, 0);
}

#[test]
fn cursor_names_follow_the_closed_mapping() {
    assert_eq!(cursor_name(&Cursor::Arrow), "default");
    assert_eq!(cursor_name(&Cursor::IBeam), "text");
    assert_eq!(cursor_name(&Cursor::Crosshair), "crosshair");
    assert_eq!(cursor_name(&Cursor::OpenHand), "grab");
    assert_eq!(cursor_name(&Cursor::NotAllowed), "not-allowed");
    assert_eq!(cursor_name(&Cursor::ResizeLeftRight), "ew-resize");
    assert_eq!(cursor_name(&Cursor::ResizeUpDown), "ns-resize");
}

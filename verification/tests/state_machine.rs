use screen_key::keys::GlobalKey;
use screen_key::keys::LocalKey;
use screen_key::state::Directive;
use screen_key::state::Message;
use screen_key::state::MouseButton;
use screen_key::state::ScreenKey;

#[test]
fn initial_state_defaults() {
    let s = ScreenKey::new();
    assert_eq!(s.keys, "");
    assert_eq!(s.max_width, 1050);
    assert_eq!(s.width, 0);
    assert_eq!(s.line, 1);
    assert!(!s.is_grabbing);
    assert_eq!(s.grab_location, (0, 0));
    assert_eq!(s.window_position, (0, 0));
}

#[test]
fn title_is_fixed() {
    let s = ScreenKey::new();
    assert_eq!(s.title(), "Zr Alshaha");
}

#[test]
fn first_press_appends_and_resizes() {
    let mut s = ScreenKey::new();
    let d = s.update(Message::GlobalKeyPress(GlobalKey::KeyA));
    assert_eq!(s.keys, " A");
    assert_eq!(s.line, 1);
    assert_eq!(d, Some(Directive::Resize { width: 50, height: 30 }));
}

#[test]
fn presses_accumulate_space_joined() {
    let mut s = ScreenKey::new();
    s.update(Message::GlobalKeyPress(GlobalKey::KeyA));
    s.update(Message::LocalKeyPress(LocalKey::B));
    s.update(Message::GlobalKeyPress(GlobalKey::Space));
    assert_eq!(s.keys, " A B Space");
    assert_eq!(s.line, 1);
}

#[test]
fn width_follows_text_length() {
    let mut s = ScreenKey::new();
    s.update(Message::InputChanged("ab".to_string()));
    let d = s.update(Message::GlobalKeyPress(GlobalKey::KeyB));
    // two characters: 2 / 2 * 30 + 50 = 80 pixels
    assert_eq!(d, Some(Directive::Resize { width: 80, height: 30 }));
    assert_eq!(s.keys, "ab B");
}

#[test]
fn line_stays_within_bounds_for_any_press_sequence() {
    let mut s = ScreenKey::new();
    for i in 0..300 {
        let d = if i % 2 == 0 {
            s.update(Message::GlobalKeyPress(GlobalKey::KeyQ))
        } else {
            s.update(Message::LocalKeyPress(LocalKey::W))
        };
        assert!(s.line >= 1 && s.line <= 3);
        assert!(d.is_some());
    }
}

#[test]
fn wrap_to_second_line_requests_full_width() {
    let mut s = ScreenKey::new();
    // Each press appends " A" (two characters). Before the i-th press the
    // text holds 2 * (i - 1) characters, so the recomputed width is
    // 30 * (i - 1) + 50. The 35th press sees 1070 >= 1050 and wraps.
    for i in 1..=34 {
        let d = s.update(Message::GlobalKeyPress(GlobalKey::KeyA));
        assert_eq!(s.line, 1, "press {i}");
        assert_eq!(
            d,
            Some(Directive::Resize { width: 30 * (i - 1) + 50, height: 30 })
        );
    }
    let d = s.update(Message::GlobalKeyPress(GlobalKey::KeyA));
    assert_eq!(s.line, 2);
    assert_eq!(d, Some(Directive::Resize { width: 1050, height: 60 }));
}

#[test]
fn wrap_is_monotonic_in_text_length() {
    // 66 characters: 33 * 30 + 50 = 1040 < 1050, no wrap.
    let mut short = ScreenKey::new();
    short.update(Message::InputChanged("x".repeat(66)));
    short.update(Message::Other);
    assert_eq!(short.line, 1);
    // 68 characters: 34 * 30 + 50 = 1070 >= 1050, wrap.
    let mut long = ScreenKey::new();
    long.update(Message::InputChanged("x".repeat(68)));
    long.update(Message::Other);
    assert_eq!(long.line, 2);
}

#[test]
fn overflowing_line_three_resets_text_and_line_together() {
    let mut s = ScreenKey::new();
    // 300 characters: width 4550; three further cycles wrap through
    // lines 2 and 3 and then reset.
    s.update(Message::InputChanged("x".repeat(300)));
    s.update(Message::Other);
    assert_eq!(s.line, 2);
    assert_eq!(s.keys.len(), 300);
    s.update(Message::Other);
    assert_eq!(s.line, 3);
    assert_eq!(s.keys.len(), 300);
    s.update(Message::Other);
    assert_eq!(s.line, 1);
    assert_eq!(s.keys, "");
}

#[test]
fn reset_reached_by_repeated_presses() {
    let mut s = ScreenKey::new();
    let mut saw_reset = false;
    let mut len_before: usize = 0;
    for _ in 0..300 {
        s.update(Message::GlobalKeyPress(GlobalKey::KeyA));
        if s.keys.len() < len_before {
            // The only way the text shrinks is the atomic reset.
            assert_eq!(s.line, 1);
            assert_eq!(s.keys, " A");
            saw_reset = true;
            break;
        }
        len_before = s.keys.len();
    }
    assert!(saw_reset);
}

#[test]
fn drag_captures_anchor_then_moves_window() {
    let mut s = ScreenKey::new();
    assert_eq!(s.update(Message::WindowMoved(423, 941)), None);
    assert_eq!(s.window_position, (423, 941));
    assert_eq!(s.update(Message::MouseButtonPressed(MouseButton::Right)), None);
    assert!(s.is_grabbing);
    assert_eq!(s.grab_location, (0, 0));
    // First cursor sample only captures the anchor: no directive.
    assert_eq!(s.update(Message::CursorMoved(100, 100)), None);
    assert_eq!(s.grab_location, (100, 100));
    // Later samples move the window by the cursor's offset from the anchor.
    let d = s.update(Message::CursorMoved(120, 130));
    assert_eq!(d, Some(Directive::MoveTo { x: 443, y: 971 }));
}

#[test]
fn releasing_right_button_stops_dragging() {
    let mut s = ScreenKey::new();
    s.update(Message::WindowMoved(10, 20));
    s.update(Message::MouseButtonPressed(MouseButton::Right));
    s.update(Message::CursorMoved(5, 5));
    s.update(Message::MouseButtonReleased(MouseButton::Right));
    assert!(!s.is_grabbing);
    // The anchor is stale but without a drag no directive is emitted.
    assert_eq!(s.update(Message::CursorMoved(50, 60)), None);
}

#[test]
fn other_mouse_buttons_do_not_start_a_drag() {
    let mut s = ScreenKey::new();
    s.update(Message::MouseButtonPressed(MouseButton::Left));
    assert!(!s.is_grabbing);
    s.update(Message::MouseButtonPressed(MouseButton::Middle));
    assert!(!s.is_grabbing);
    // Cursor motion still captures the sentinel anchor, silently.
    assert_eq!(s.update(Message::CursorMoved(7, 9)), None);
    assert_eq!(s.grab_location, (7, 9));
}

#[test]
fn window_moved_always_updates_position() {
    let mut s = ScreenKey::new();
    assert_eq!(s.update(Message::WindowMoved(77, -5)), None);
    assert_eq!(s.window_position, (77, -5));
    // Also mid-drag: the confirmation overwrites the tracked position.
    s.update(Message::MouseButtonPressed(MouseButton::Right));
    s.update(Message::CursorMoved(1, 1));
    assert_eq!(s.update(Message::WindowMoved(-3, 8)), None);
    assert_eq!(s.window_position, (-3, 8));
    assert!(s.is_grabbing);
}

#[test]
fn input_changed_replaces_text_wholesale() {
    let mut s = ScreenKey::new();
    s.update(Message::GlobalKeyPress(GlobalKey::KeyA));
    assert_eq!(s.update(Message::InputChanged("hello".to_string())), None);
    assert_eq!(s.keys, "hello");
}

#[test]
fn unmapped_key_is_processed_without_failing() {
    let mut s = ScreenKey::new();
    let d = s.update(Message::GlobalKeyPress(GlobalKey::Unknown(12345)));
    // The empty label still gets its leading space, and a resize is
    // still emitted: processing continues normally.
    assert_eq!(s.keys, " ");
    assert_eq!(d, Some(Directive::Resize { width: 50, height: 30 }));
    let d = s.update(Message::LocalKeyPress(LocalKey::Unmapped));
    assert_eq!(s.keys, "  ");
    assert!(d.is_some());
}

#[test]
fn ignored_events_change_nothing_but_the_recompute() {
    let mut s = ScreenKey::new();
    assert_eq!(s.update(Message::GlobalReady), None);
    assert_eq!(s.update(Message::GlobalOther), None);
    assert_eq!(s.update(Message::Other), None);
    assert_eq!(s.keys, "");
    assert_eq!(s.line, 1);
    assert_eq!(s.width, 50);
}

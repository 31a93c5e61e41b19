use audio_game_engine::input::Button;

/// Check initial state on construction.
#[test]
fn test_initial_state() {
    assert_eq!(
        Button::new(false),
        Button {
            pressed: false,
            released: false,
            held: false
        }
    );
    assert_eq!(
        Button::new(true),
        Button {
            pressed: true,
            released: false,
            held: true
        }
    );
}

/// Test updating a Button's state.
#[test]
fn test_update_state() {
    let mut btn = Button::new(false);
    // Pressed (first frame)
    btn.update(true);
    assert_eq!(
        btn,
        Button {
            pressed: true,
            released: false,
            held: true,
        }
    );
    // Held (subsequent frames)
    btn.update(true);
    assert_eq!(
        btn,
        Button {
            pressed: false,
            released: false,
            held: true,
        }
    );
    // Released (first frame)
    btn.update(false);
    assert_eq!(
        btn,
        Button {
            pressed: false,
            released: true,
            held: false,
        }
    );
    // Not held (subsequent frames)
    btn.update(false);
    assert_eq!(
        btn,
        Button {
            pressed: false,
            released: false,
            held: false,
        }
    );
}

/// Across a whole sequence of raw values, `held` equals the raw value on
/// every frame, `pressed` fires exactly on false-to-true transitions and
/// `released` exactly on true-to-false transitions.
#[test]
fn test_edge_detection_sequence() {
    let raws = [false, true, true, false, false, true, false, true, true];
    let mut btn = Button::new(raws[0]);
    let mut prev = false;
    for (frame, &raw) in raws.iter().enumerate() {
        if frame > 0 {
            btn.update(raw);
        }
        assert_eq!(btn.held, raw, "held, frame {}", frame);
        assert_eq!(btn.pressed, raw && !prev, "pressed, frame {}", frame);
        assert_eq!(btn.released, !raw && prev, "released, frame {}", frame);
        prev = raw;
    }
}

/// Feeding the same raw value repeatedly yields no edges from the second
/// feed onward, with `held` unchanged.
#[test]
fn test_repeated_updates_idempotent() {
    for &raw in &[false, true] {
        let mut btn = Button::new(raw);
        btn.update(raw);
        for _ in 0..5 {
            btn.update(raw);
            assert!(!btn.pressed);
            assert!(!btn.released);
            assert_eq!(btn.held, raw);
        }
    }
}

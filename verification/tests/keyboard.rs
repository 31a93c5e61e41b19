use audio_game_engine::keyboard::Key;

/// A key is created with `held` and `pressed` reflecting the initial raw
/// state and no release edge.
#[test]
fn test_key_initial_state() {
    assert_eq!(
        Key::new(false),
        Key { pressed: false, released: false, held: false }
    );
    assert_eq!(
        Key::new(true),
        Key { pressed: true, released: false, held: true }
    );
}

/// A key detects one rising and one falling edge per raw transition.
#[test]
fn test_key_update_state() {
    let mut key = Key::new(false);
    key.update(true);
    assert_eq!(key, Key { pressed: true, released: false, held: true });
    key.update(true);
    assert_eq!(key, Key { pressed: false, released: false, held: true });
    key.update(false);
    assert_eq!(key, Key { pressed: false, released: true, held: false });
    key.update(false);
    assert_eq!(key, Key { pressed: false, released: false, held: false });
}

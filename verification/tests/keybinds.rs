use sotora::user_config::{decode_key_binds, encode_key_binds, KeyBinds, KeyCode};

fn round_trips(kb: KeyBinds) {
    let bytes = encode_key_binds(&kb);
    let back = decode_key_binds(&bytes);
    assert_eq!(back, Some(kb));
}

#[test]
fn default_bindings_are_wasd_e() {
    let kb = KeyBinds::default();
    assert_eq!(kb.move_forward, KeyCode::W);
    assert_eq!(kb.move_left, KeyCode::A);
    assert_eq!(kb.move_backward, KeyCode::S);
    assert_eq!(kb.move_right, KeyCode::D);
    assert_eq!(kb.interact, KeyCode::E);
}

#[test]
fn encode_default_is_canonical_text() {
    let bytes = encode_key_binds(&KeyBinds::default());
    let expected =
        "(\n    move_forward: W,\n    move_left: A,\n    move_backward: S,\n    move_right: D,\n    interact: E,\n)";
    assert_eq!(bytes, expected.as_bytes().to_vec());
}

#[test]
fn round_trip_default() {
    round_trips(KeyBinds::default());
}

#[test]
fn round_trip_arrow_keys() {
    round_trips(KeyBinds {
        move_forward: KeyCode::Up,
        move_left: KeyCode::Left,
        move_backward: KeyCode::Down,
        move_right: KeyCode::Right,
        interact: KeyCode::Space,
    });
}

#[test]
fn round_trip_assorted_keys() {
    let keys = [
        KeyCode::A,
        KeyCode::B,
        KeyCode::C,
        KeyCode::D,
        KeyCode::E,
        KeyCode::F,
        KeyCode::G,
        KeyCode::H,
        KeyCode::I,
        KeyCode::J,
        KeyCode::K,
        KeyCode::L,
        KeyCode::M,
        KeyCode::N,
        KeyCode::O,
        KeyCode::P,
        KeyCode::Q,
        KeyCode::R,
        KeyCode::S,
        KeyCode::T,
        KeyCode::U,
        KeyCode::V,
        KeyCode::W,
        KeyCode::X,
        KeyCode::Y,
        KeyCode::Z,
        KeyCode::Up,
        KeyCode::Down,
        KeyCode::Left,
        KeyCode::Right,
        KeyCode::Space,
        KeyCode::Escape,
        KeyCode::Return,
        KeyCode::Tab,
    ];
    // Walk the key list with different strides so each key appears in each
    // field position at least once.
    for start in 0..keys.len() {
        let kb = KeyBinds {
            move_forward: keys[start % keys.len()],
            move_left: keys[(start + 7) % keys.len()],
            move_backward: keys[(start + 13) % keys.len()],
            move_right: keys[(start + 21) % keys.len()],
            interact: keys[(start + 30) % keys.len()],
        };
        round_trips(kb);
    }
}

#[test]
fn decode_rejects_garbage() {
    assert_eq!(decode_key_binds(&b"not a config".to_vec()), None);
    assert_eq!(decode_key_binds(&Vec::new()), None);
}

#[test]
fn decode_rejects_truncated_input() {
    let mut bytes = encode_key_binds(&KeyBinds::default());
    bytes.pop();
    assert_eq!(decode_key_binds(&bytes), None);
}

#[test]
fn decode_rejects_unknown_key_name() {
    let text =
        "(\n    move_forward: Wx9,\n    move_left: A,\n    move_backward: S,\n    move_right: D,\n    interact: E,\n)";
    assert_eq!(decode_key_binds(&text.as_bytes().to_vec()), None);
}

#[test]
fn decode_rejects_trailing_bytes() {
    let mut bytes = encode_key_binds(&KeyBinds::default());
    bytes.push(b'\n');
    assert_eq!(decode_key_binds(&bytes), None);
}

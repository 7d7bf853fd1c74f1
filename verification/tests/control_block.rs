use razerctl::codec::{BUTTON_FLAGS_SIZE, CONTROL_BLOCK_SIZE};
use razerctl::types::{
    clamp_coordinate, COORDINATE_LIMIT, H_WHEEL, KEY_BREAK, KEY_E0, KEY_E1, KEY_MAKE,
    L_BUTTON_DOWN, L_BUTTON_UP, M_BUTTON_DOWN, M_BUTTON_UP, R_BUTTON_DOWN, R_BUTTON_UP, WHEEL,
    X_BUTTON1_DOWN, X_BUTTON1_UP, X_BUTTON2_DOWN, X_BUTTON2_UP,
};
use razerctl::{
    key_event, usage_event, Error, InputData, InputFault, KeyboardInputData, MouseButton,
    MouseButtons, MouseInputData, RzControl, Type,
};

fn mouse_of(block: &RzControl) -> MouseInputData {
    match block.mouse_data() {
        Some(m) => *m,
        None => panic!("not a mouse block"),
    }
}

fn keyboard_of(block: &RzControl) -> KeyboardInputData {
    match block.keyboard_data() {
        Some(k) => *k,
        None => panic!("not a keyboard block"),
    }
}

#[test]
fn mouse_move_round_trip() {
    let block = RzControl::new_mouse_move(100, -50, false);
    let bytes = block.encode();
    let decoded = RzControl::decode(&bytes).expect("a block");
    assert_eq!(decoded, block);
    let m = mouse_of(&decoded);
    assert_eq!(m.x, 100);
    assert_eq!(m.y, -50);
    assert_eq!(m.movement, 1);
    assert_eq!(m.button_flags.flags, 0);
    assert_eq!(m.absolute_coord, 0);
    assert_eq!(decoded.kind(), Type::Mouse);
}

#[test]
fn mouse_move_bytes_are_exact() {
    let bytes = RzControl::new_mouse_move(100, -50, false).encode();
    let expected: Vec<u8> = vec![
        0, 0, 0, 0, // unk1
        2, 0, 0, 0, // type: mouse
        0, 0, 0, 0, // relative
        0, 0, // no button
        1, 0, // movement
        0, 0, 0, 0, // unk1
        100, 0, 0, 0, // x
        0xCE, 0xFF, 0xFF, 0xFF, // y = -50
        0, 0, 0, 0, // unk2
    ];
    assert_eq!(bytes, expected);
}

#[test]
fn absolute_mouse_move_sets_the_mode() {
    let block = RzControl::new_mouse_move(7, 9, true);
    let m = mouse_of(&block);
    assert_eq!(m.absolute_coord, 1);
    assert_eq!(m.movement, 1);
    assert_eq!((m.x, m.y), (7, 9));
    assert_eq!(&block.encode()[8..12], &[1, 0, 0, 0]);
}

#[test]
fn coordinates_beyond_the_limit_are_clamped() {
    let m = mouse_of(&RzControl::new_mouse_move(40000, 0, false));
    assert_eq!((m.x, m.y), (32767, 0));
    let m = mouse_of(&RzControl::new_mouse_move(-40000, 0, false));
    assert_eq!((m.x, m.y), (-32767, 0));
    let m = mouse_of(&RzControl::new_mouse_move(0, 40000, false));
    assert_eq!((m.x, m.y), (0, 32767));
    let m = mouse_of(&RzControl::new_mouse_move(i32::MAX, i32::MIN, true));
    assert_eq!((m.x, m.y), (32767, -32767));
    let m = mouse_of(&RzControl::new_mouse_move(32767, -32767, false));
    assert_eq!((m.x, m.y), (32767, -32767));
    let m = mouse_of(&RzControl::new_mouse_move(32768, -32768, false));
    assert_eq!((m.x, m.y), (32767, -32767));
    let m = mouse_of(&RzControl::new_mouse_move(32766, -32766, false));
    assert_eq!((m.x, m.y), (32766, -32766));
}

#[test]
fn clamping_is_symmetric_and_total() {
    assert_eq!(COORDINATE_LIMIT, 32767);
    for v in [0, 1, -1, 100, 32766, 32767, 32768, 40000, 1 << 20, i32::MAX] {
        assert_eq!(clamp_coordinate(-v), -clamp_coordinate(v), "value {}", v);
        assert!(clamp_coordinate(v).abs() <= 32767);
        assert_eq!(clamp_coordinate(clamp_coordinate(v)), clamp_coordinate(v));
    }
    assert_eq!(clamp_coordinate(i32::MIN), -32767);
    assert_eq!(clamp_coordinate(i32::MAX), 32767);
    assert_eq!(clamp_coordinate(123), 123);
}

#[test]
fn both_arms_take_32_bytes() {
    assert_eq!(CONTROL_BLOCK_SIZE, 32);
    assert_eq!(BUTTON_FLAGS_SIZE, 2);
    assert_eq!(RzControl::new(Type::Mouse).encode().len(), 32);
    assert_eq!(RzControl::new(Type::Keyboard).encode().len(), 32);
    assert_eq!(RzControl::new_mouse_move(1, 2, false).encode().len(), 32);
    assert_eq!(RzControl::new_mouse_click(MouseButton::X2, true).encode().len(), 32);
    assert_eq!(RzControl::new_key_event(57, false, true).encode().len(), 32);
}

#[test]
fn button_flags_take_two_bytes_at_their_offset() {
    let mut block = RzControl::new(Type::Mouse);
    match block.mouse_data_mut() {
        Some(m) => m.button_flags.set_flag(0xABCD, true),
        None => panic!("not a mouse block"),
    }
    let bytes = block.encode();
    assert_eq!(&bytes[12..14], &[0xCD, 0xAB]);
    assert_eq!(&bytes[8..12], &[0, 0, 0, 0]);
    assert_eq!(&bytes[14..32], &[0u8; 18]);
}

#[test]
fn new_blocks_are_zeroed() {
    let mouse = RzControl::new(Type::Mouse);
    assert_eq!(mouse.unk1, 0);
    assert_eq!(mouse.kind(), Type::Mouse);
    assert_eq!(
        mouse_of(&mouse),
        MouseInputData {
            absolute_coord: 0,
            button_flags: MouseButtons { flags: 0 },
            movement: 0,
            unk1: 0,
            x: 0,
            y: 0,
            unk2: 0,
        }
    );
    let mut expected = vec![0u8; 32];
    expected[4] = 2;
    assert_eq!(mouse.encode(), expected);

    let keyboard = RzControl::new(Type::Keyboard);
    assert_eq!(keyboard.kind(), Type::Keyboard);
    assert_eq!(
        keyboard_of(&keyboard),
        KeyboardInputData { unit_id: 0, make_code: 0, flags: 0, reserved: 0, extra_information: 0 }
    );
    let mut expected = vec![0u8; 32];
    expected[4] = 1;
    assert_eq!(keyboard.encode(), expected);
}

#[test]
fn type_tags() {
    assert_eq!(Type::Keyboard.code(), 1);
    assert_eq!(Type::Mouse.code(), 2);
}

#[test]
fn accessors_give_only_the_arm_that_is_held() {
    let mut mouse = RzControl::new(Type::Mouse);
    assert!(mouse.mouse_data().is_some());
    assert!(mouse.keyboard_data().is_none());
    assert!(mouse.mouse_data_mut().is_some());
    assert!(mouse.keyboard_data_mut().is_none());
    assert_eq!(mouse, RzControl::new(Type::Mouse));

    let mut keyboard = RzControl::new(Type::Keyboard);
    assert!(keyboard.keyboard_data().is_some());
    assert!(keyboard.mouse_data().is_none());
    assert!(keyboard.keyboard_data_mut().is_some());
    assert!(keyboard.mouse_data_mut().is_none());
    assert_eq!(keyboard, RzControl::new(Type::Keyboard));
}

#[test]
fn writing_through_an_accessor_changes_that_field_only() {
    let mut mouse = RzControl::new(Type::Mouse);
    if let Some(m) = mouse.mouse_data_mut() {
        m.x = -3;
        m.unk2 = 0x01020304;
    }
    let m = mouse_of(&mouse);
    assert_eq!(m.x, -3);
    assert_eq!(m.unk2, 0x01020304);
    assert_eq!(m.y, 0);
    assert_eq!(mouse.unk1, 0);

    let mut keyboard = RzControl::new(Type::Keyboard);
    if let Some(k) = keyboard.keyboard_data_mut() {
        k.make_code = 0x1234;
        k.flags = KEY_E1;
    }
    let bytes = keyboard.encode();
    assert_eq!(&bytes[8..20], &[0, 0, 0x34, 0x12, 4, 0, 0, 0, 0, 0, 0, 0]);
    assert_eq!(&bytes[20..32], &[0u8; 12]);
}

#[test]
fn every_field_keeps_its_place_on_the_wire() {
    let block = RzControl {
        unk1: 0x04030201,
        data: InputData::Mouse(MouseInputData {
            absolute_coord: 0x08070605,
            button_flags: MouseButtons { flags: 0x0A09 },
            movement: 0x0C0B,
            unk1: 0x100F0E0D,
            x: 0x14131211,
            y: 0x18171615,
            unk2: 0x1C1B1A19,
        }),
    };
    let bytes = block.encode();
    let expected: Vec<u8> = vec![
        1, 2, 3, 4, 2, 0, 0, 0, 5, 6, 7, 8, 9, 10, 11, 12, 13, 14, 15, 16, 17, 18, 19, 20, 21, 22,
        23, 24, 25, 26, 27, 28,
    ];
    assert_eq!(bytes, expected);
    assert_eq!(RzControl::decode(&bytes), Some(block));

    let block = RzControl {
        unk1: 0xFFFFFFFF,
        data: InputData::Keyboard(KeyboardInputData {
            unit_id: 0x0201,
            make_code: 0x0403,
            flags: 0x0605,
            reserved: 0x0807,
            extra_information: 0x0C0B0A09,
        }),
    };
    let bytes = block.encode();
    let expected: Vec<u8> = vec![
        0xFF, 0xFF, 0xFF, 0xFF, 1, 0, 0, 0, 1, 2, 3, 4, 5, 6, 7, 8, 9, 10, 11, 12, 0, 0, 0, 0, 0,
        0, 0, 0, 0, 0, 0, 0,
    ];
    assert_eq!(bytes, expected);
    assert_eq!(RzControl::decode(&bytes), Some(block));
}

#[test]
fn negative_fields_round_trip() {
    let block = RzControl {
        unk1: 0,
        data: InputData::Mouse(MouseInputData {
            absolute_coord: u32::MAX,
            button_flags: MouseButtons { flags: u16::MAX },
            movement: i16::MIN,
            unk1: 0,
            x: i32::MIN,
            y: -1,
            unk2: 0,
        }),
    };
    let bytes = block.encode();
    assert_eq!(&bytes[14..16], &[0x00, 0x80]);
    assert_eq!(&bytes[20..24], &[0x00, 0x00, 0x00, 0x80]);
    assert_eq!(&bytes[24..28], &[0xFF, 0xFF, 0xFF, 0xFF]);
    assert_eq!(RzControl::decode(&bytes), Some(block));
    let mut block = block;
    if let Some(m) = block.mouse_data_mut() {
        m.movement = -1;
        m.x = i32::MAX;
    }
    assert_eq!(RzControl::decode(&block.encode()), Some(block));
}

#[test]
fn decode_refuses_what_is_no_block() {
    assert_eq!(RzControl::decode(&[]), None);
    assert_eq!(RzControl::decode(&[0u8; 31]), None);
    assert_eq!(RzControl::decode(&[0u8; 33]), None);
    // 32 bytes with the tag 0
    assert_eq!(RzControl::decode(&[0u8; 32]), None);
    let mut bytes = [0u8; 32];
    bytes[4] = 3;
    assert_eq!(RzControl::decode(&bytes), None);
    bytes[4] = 2;
    bytes[5] = 1;
    assert_eq!(RzControl::decode(&bytes), None);
    bytes[5] = 0;
    assert_eq!(RzControl::decode(&bytes), Some(RzControl::new(Type::Mouse)));
    bytes[4] = 1;
    assert_eq!(RzControl::decode(&bytes), Some(RzControl::new(Type::Keyboard)));
}

#[test]
fn decode_does_not_read_behind_the_keyboard_arm() {
    let mut bytes = RzControl::new_key_event(30, true, false).encode();
    bytes[31] = 0xEE;
    assert_eq!(RzControl::decode(&bytes), Some(RzControl::new_key_event(30, true, false)));
}

#[test]
fn a_click_sets_the_one_flag_of_its_edge() {
    let cases: [(MouseButton, bool, u16); 10] = [
        (MouseButton::Left, true, L_BUTTON_DOWN),
        (MouseButton::Left, false, L_BUTTON_UP),
        (MouseButton::Right, true, R_BUTTON_DOWN),
        (MouseButton::Right, false, R_BUTTON_UP),
        (MouseButton::Middle, true, M_BUTTON_DOWN),
        (MouseButton::Middle, false, M_BUTTON_UP),
        (MouseButton::X1, true, X_BUTTON1_DOWN),
        (MouseButton::X1, false, X_BUTTON1_UP),
        (MouseButton::X2, true, X_BUTTON2_DOWN),
        (MouseButton::X2, false, X_BUTTON2_UP),
    ];
    let mut seen: u16 = 0;
    for (i, (button, pressed, flag)) in cases.iter().enumerate() {
        let block = RzControl::new_mouse_click(*button, *pressed);
        let m = mouse_of(&block);
        assert_eq!(m.button_flags.flags, *flag);
        assert_eq!(*flag, 1u16 << i);
        assert_eq!(flag.count_ones(), 1);
        assert_eq!(seen & flag, 0);
        seen |= flag;
        assert_eq!(m.movement, 0);
        assert_eq!((m.x, m.y), (0, 0));
        assert_eq!(m.absolute_coord, 0);
        assert_eq!((m.unk1, m.unk2), (0, 0));
        assert_eq!(block.unk1, 0);
        for (other_button, other_pressed, other_flag) in cases.iter() {
            let same = other_button == button && other_pressed == pressed;
            assert_eq!(m.button_flags.check_flag(*other_flag), same);
        }
        assert!(!m.button_flags.check_flag(WHEEL | H_WHEEL));
    }
    assert_eq!(seen, 0x03FF);
    assert_eq!(WHEEL, 0x0400);
    assert_eq!(H_WHEEL, 0x0800);
}

#[test]
fn click_bytes_are_exact() {
    let bytes = RzControl::new_mouse_click(MouseButton::Right, false).encode();
    let mut expected = vec![0u8; 32];
    expected[4] = 2;
    expected[12] = 0x08;
    assert_eq!(bytes, expected);
    let bytes = RzControl::new_mouse_click(MouseButton::X2, true).encode();
    let mut expected = vec![0u8; 32];
    expected[4] = 2;
    expected[13] = 0x01;
    assert_eq!(bytes, expected);
}

#[test]
fn key_event_flags() {
    assert_eq!((KEY_MAKE, KEY_BREAK, KEY_E0, KEY_E1), (0, 1, 2, 4));
    let cases: [(bool, bool, u16); 4] =
        [(true, false, 0), (false, false, 1), (true, true, 2), (false, true, 3)];
    for (pressed, extended, flags) in cases.iter() {
        let block = RzControl::new_key_event(0x1C, *pressed, *extended);
        let k = keyboard_of(&block);
        assert_eq!(k.flags, *flags);
        assert_eq!(k.make_code, 0x1C);
        assert_eq!(k.unit_id, 0);
        assert_eq!(k.reserved, 0);
        assert_eq!(k.extra_information, 0);
        assert_eq!(block.unk1, 0);
        assert_eq!(block.kind(), Type::Keyboard);
    }
}

#[test]
fn key_event_bytes_are_exact() {
    let bytes = RzControl::new_key_event(0x0139, false, true).encode();
    let mut expected = vec![0u8; 32];
    expected[4] = 1;
    expected[10] = 0x39;
    expected[11] = 0x01;
    expected[12] = 3;
    assert_eq!(bytes, expected);
}

#[test]
fn key_events_are_built_from_virtual_keys() {
    // Space: usage id 44, make code 57, not extended.
    assert_eq!(key_event(0x20, true), Ok(RzControl::new_key_event(57, true, false)));
    assert_eq!(key_event(0x20, false), Ok(RzControl::new_key_event(57, false, false)));
    // A: usage id 4, make code 30.
    assert_eq!(key_event(0x41, true), Ok(RzControl::new_key_event(30, true, false)));
    // Left arrow: usage id 80, make code 75, extended.
    assert_eq!(key_event(0x25, true), Ok(RzControl::new_key_event(75, true, true)));
    assert_eq!(keyboard_of(&key_event(0x25, false).unwrap()).flags, 3);
    // Left Win: usage id 227, make code 91, extended.
    assert_eq!(key_event(0x5B, true), Ok(RzControl::new_key_event(91, true, true)));
    // F12: usage id 69, make code 88.
    assert_eq!(key_event(0x7B, true), Ok(RzControl::new_key_event(88, true, false)));
    // Shift: usage id 225, make code 42.
    assert_eq!(key_event(0x10, false), Ok(RzControl::new_key_event(42, false, false)));
}

#[test]
fn keys_outside_the_domain_are_refused() {
    for vk in [0x00u8, 0x01, 0x2F, 0x3A, 0x40, 0x5D, 0x6F, 0x7C, 0xFF] {
        assert_eq!(key_event(vk, true), Err(Error::InvalidInput(InputFault::UnknownKey)));
        assert_eq!(key_event(vk, false), Err(Error::InvalidInput(InputFault::UnknownKey)));
    }
}

#[test]
fn button_mask_starts_clear() {
    let buttons = MouseButtons::new();
    assert_eq!(buttons.flags, 0);
    assert_eq!(MouseButtons::default(), buttons);
    for bit in 0..16 {
        assert!(!buttons.check_flag(1 << bit));
    }
    assert!(!buttons.check_flag(0xFFFF));
}

#[test]
fn button_mask_sets_and_clears_by_mask() {
    let mut buttons = MouseButtons::new();
    buttons.set_flag(L_BUTTON_DOWN, true);
    buttons.set_flag(WHEEL, true);
    assert_eq!(buttons.flags, 0x0401);
    assert!(buttons.check_flag(L_BUTTON_DOWN));
    assert!(buttons.check_flag(WHEEL));
    assert!(!buttons.check_flag(R_BUTTON_DOWN));
    assert!(buttons.check_flag(L_BUTTON_DOWN | R_BUTTON_DOWN));
    buttons.set_flag(L_BUTTON_DOWN, false);
    assert_eq!(buttons.flags, 0x0400);
    assert!(!buttons.check_flag(L_BUTTON_DOWN));
    assert!(buttons.check_flag(WHEEL));
    buttons.set_flag(R_BUTTON_UP, false);
    assert_eq!(buttons.flags, 0x0400);
    buttons.set_flag(0, true);
    assert_eq!(buttons.flags, 0x0400);
    assert!(!buttons.check_flag(0));
    buttons.set_flag(0x0F0F, true);
    assert_eq!(buttons.flags, 0x0F0F);
    buttons.set_flag(0x00FF, false);
    assert_eq!(buttons.flags, 0x0F00);
    buttons.set_flag(0xFFFF, false);
    assert_eq!(buttons.flags, 0);
}

#[test]
fn usage_ids_without_a_scan_code_are_refused() {
    // unmapped, reserved in the dense table, reserved among the modifiers
    for usage_id in [0u16, 3, 116, 232, 149, 204, 235, 1000, u16::MAX] {
        for pressed in [true, false] {
            assert_eq!(
                usage_event(usage_id, pressed, false),
                Err(Error::InvalidInput(InputFault::UnmappedKey)),
                "usage id {}",
                usage_id
            );
        }
    }
}

#[test]
fn usage_ids_with_a_scan_code_give_their_block() {
    assert_eq!(usage_event(4, true, false), Ok(RzControl::new_key_event(30, true, false)));
    assert_eq!(usage_event(1, false, false), Ok(RzControl::new_key_event(255, false, false)));
    assert_eq!(usage_event(145, true, true), Ok(RzControl::new_key_event(241, true, true)));
    assert_eq!(usage_event(183, true, false), Ok(RzControl::new_key_event(36, true, false)));
    assert_eq!(usage_event(205, false, false), Ok(RzControl::new_key_event(34, false, false)));
    assert_eq!(usage_event(234, true, false), Ok(RzControl::new_key_event(46, true, false)));
}

#[test]
fn encoding_what_was_decoded_gives_the_bytes_back() {
    let mut bytes: Vec<u8> = (0..32).map(|i| (i * 37 + 11) as u8).collect();
    bytes[4..8].copy_from_slice(&[2, 0, 0, 0]);
    let block = RzControl::decode(&bytes).expect("a mouse block");
    assert_eq!(block.encode(), bytes);
    bytes[4] = 1;
    let block = RzControl::decode(&bytes).expect("a keyboard block");
    let written = block.encode();
    assert_eq!(&written[..20], &bytes[..20]);
    assert_eq!(&written[20..], &[0u8; 12]);
    let bytes = vec![0xFFu8, 0xFF, 0xFF, 0xFF, 2, 0, 0, 0]
        .into_iter()
        .chain(std::iter::repeat(0xFF).take(24))
        .collect::<Vec<u8>>();
    let block = RzControl::decode(&bytes).expect("a mouse block");
    let m = block.mouse_data().expect("a mouse block");
    assert_eq!((m.x, m.y, m.movement), (-1, -1, -1));
    assert_eq!(block.encode(), bytes);
}

use oholeo::keyboard::{
    row_bounds, row_of, width_quarters, Keyboard, HEIGHT, KEYBOARD_CHARS, KEYMAP, KEY_COUNT,
    STM2RS, WIDTH,
};

const XS: [u32; 64] = [
    0, 64, 128, 192, 256, 320, 384, 448, 512, 576, 640, 704, 768, 832, 0, 96, 160, 224, 288, 352,
    416, 480, 544, 608, 672, 736, 800, 864, 0, 112, 176, 240, 304, 368, 432, 496, 560, 624, 688,
    752, 816, 0, 128, 192, 256, 320, 384, 448, 512, 576, 640, 704, 768, 832, 896, 0, 80, 160, 240,
    640, 704, 768, 832, 896,
];

#[test]
fn new_keyboard_has_64_default_keys() {
    let kb = Keyboard::new();
    assert_eq!(kb.keys.len(), KEY_COUNT);
    for (i, k) in kb.keys.iter().enumerate() {
        assert_eq!(k.index, i as u32);
        assert_eq!(k.stm32_index, KEYMAP[i] as u32);
        assert_eq!(k.bind_key, (0, 0));
        assert_eq!(k.mode, 0);
        assert_eq!(k.value, (50, 5, 5, 35));
        assert!(!k.selected);
        assert_eq!(k.adc_value, 0);
        assert_eq!(k.rgb_raw, 0);
        assert_eq!(k.size.1, HEIGHT);
        assert_eq!(k.position.0, XS[i]);
    }
}

#[test]
fn new_keyboard_key_sizes() {
    let kb = Keyboard::new();
    assert_eq!(kb.keys[0].size, (64, 64));
    assert_eq!(kb.keys[13].size, (128, 64));
    assert_eq!(kb.keys[14].size, (96, 64));
    assert_eq!(kb.keys[27].size, (96, 64));
    assert_eq!(kb.keys[28].size, (112, 64));
    assert_eq!(kb.keys[40].size, (144, 64));
    assert_eq!(kb.keys[41].size, (128, 64));
    assert_eq!(kb.keys[55].size, (80, 64));
    assert_eq!(kb.keys[57].size, (80, 64));
    assert_eq!(kb.keys[58].size, (400, 64));
    assert_eq!(kb.keys[63].size, (64, 64));
}

#[test]
fn new_keyboard_rows() {
    let kb = Keyboard::new();
    assert_eq!(kb.keys[0].position, (0, 0));
    assert_eq!(kb.keys[13].position, (832, 0));
    assert_eq!(kb.keys[14].position, (0, 64));
    assert_eq!(kb.keys[28].position, (0, 128));
    assert_eq!(kb.keys[41].position, (0, 192));
    assert_eq!(kb.keys[55].position, (0, 256));
    assert_eq!(kb.keys[58].position, (240, 256));
    assert_eq!(kb.keys[63].position, (896, 256));
}

#[test]
fn rows_fill_fifteen_units() {
    let kb = Keyboard::new();
    for row in 0..5u32 {
        let (first, last) = row_bounds(row);
        assert_eq!(kb.keys[first as usize].position.0, 0);
        let end = kb.keys[last as usize].position.0 + kb.keys[last as usize].size.0;
        assert_eq!(end, 15 * WIDTH);
        for i in first..last {
            let k = &kb.keys[i as usize];
            assert_eq!(k.position.0 + k.size.0, kb.keys[i as usize + 1].position.0);
            assert_eq!(row_of(i), row);
        }
    }
}

#[test]
fn row_bounds_values() {
    assert_eq!(row_bounds(0), (0, 13));
    assert_eq!(row_bounds(1), (14, 27));
    assert_eq!(row_bounds(2), (28, 40));
    assert_eq!(row_bounds(3), (41, 54));
    assert_eq!(row_bounds(4), (55, 63));
    assert_eq!(row_of(63), 4);
}

#[test]
fn width_quarter_values() {
    assert_eq!(width_quarters(0), 4);
    assert_eq!(width_quarters(13), 8);
    assert_eq!(width_quarters(28), 7);
    assert_eq!(width_quarters(40), 9);
    assert_eq!(width_quarters(58), 25);
}

#[test]
fn index_maps_are_inverse() {
    for i in 0..KEY_COUNT {
        assert_eq!(STM2RS[KEYMAP[i]], i);
        assert_eq!(KEYMAP[STM2RS[i]], i);
    }
    assert_eq!(KEYMAP[0], 15);
    assert_eq!(STM2RS[15], 0);
}

#[test]
fn keycap_labels() {
    assert_eq!(KEYBOARD_CHARS[0], "Esc");
    assert_eq!(KEYBOARD_CHARS[27], "\\");
    assert_eq!(KEYBOARD_CHARS[53], "⬆");
    assert_eq!(KEYBOARD_CHARS[63], "➡");
}

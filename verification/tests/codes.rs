use oholeo::keycode::{KeyCode, KEYCODE_COUNT};
use oholeo::lighting::{rgb_mode_label, RGB_GLOBAL_MODE, RGB_MODE};

#[test]
fn keycode_numbers() {
    assert_eq!(KeyCode::LCTRL.code(), -8);
    assert_eq!(KeyCode::RGUI.code(), -1);
    assert_eq!(KeyCode::RESERVED.code(), 0);
    assert_eq!(KeyCode::A.code(), 4);
    assert_eq!(KeyCode::NUM_1.code(), 30);
    assert_eq!(KeyCode::VOLUME_DOWN.code(), 129);
    assert_eq!(KeyCode::FN.code(), 1000);
    assert_eq!(KeyCode::PROFILE4.code(), 1004);
}

#[test]
fn keycode_names() {
    assert_eq!(KeyCode::A.name(), "A");
    assert_eq!(KeyCode::NUM_1.name(), "1");
    assert_eq!(KeyCode::QUOTE.name(), "' \"");
    assert_eq!(KeyCode::BACKSLASH.name(), "\\|");
    assert_eq!(KeyCode::RIGHT_ARROW.name(), "➡");
    assert_eq!(KeyCode::UP_ARROW.name(), "⬆");
    assert_eq!(KeyCode::ERROR_UNDEFINED.name(), "ERROR_UNDEFINED");
}

#[test]
fn keycode_list_order() {
    assert_eq!(KEYCODE_COUNT, 143);
    assert_eq!(KeyCode::from_index(0), Some(KeyCode::LCTRL));
    assert_eq!(KeyCode::from_index(8), Some(KeyCode::RESERVED));
    assert_eq!(KeyCode::from_index(138), Some(KeyCode::FN));
    assert_eq!(KeyCode::from_index(142), Some(KeyCode::PROFILE4));
    assert_eq!(KeyCode::from_index(143), None);
    for i in 0..KEYCODE_COUNT {
        assert_eq!(KeyCode::from_index(i).unwrap().index(), i);
    }
}

#[test]
fn keycode_from_number() {
    assert_eq!(KeyCode::try_from_code(-8), Some(KeyCode::LCTRL));
    assert_eq!(KeyCode::try_from_code(-9), None);
    assert_eq!(KeyCode::try_from_code(130), None);
    assert_eq!(KeyCode::try_from_code(999), None);
    assert_eq!(KeyCode::try_from_code(1002), Some(KeyCode::PROFILE2));
    assert_eq!(KeyCode::try_from_code(1005), None);
    for i in 0..KEYCODE_COUNT {
        let k = KeyCode::from_index(i).unwrap();
        assert_eq!(KeyCode::try_from_code(k.code()), Some(k));
    }
}

#[test]
fn lighting_mode_names_round_trip() {
    for i in 0..8 {
        let m = RGB_GLOBAL_MODE::from_index(i).unwrap();
        assert_eq!(m.index(), i);
        assert_eq!(RGB_GLOBAL_MODE::from_name(m.name()), Some(m));
    }
    assert_eq!(RGB_GLOBAL_MODE::from_index(8), None);
    for i in 0..4 {
        let m = RGB_MODE::from_index(i).unwrap();
        assert_eq!(m.index(), i);
        assert_eq!(RGB_MODE::from_name(m.name()), Some(m));
    }
    assert_eq!(RGB_MODE::from_index(4), None);
}

#[test]
fn lighting_mode_names() {
    assert_eq!(RGB_GLOBAL_MODE::RGB_GLOBAL_MODE_JELLY.name(), "RGB_GLOBAL_MODE_JELLY");
    assert_eq!(RGB_GLOBAL_MODE::RGB_GLOBAL_MODE_WAVE.index(), 2);
    assert_eq!(RGB_MODE::TRIGGER.name(), "TRIGGER");
    assert_eq!(RGB_MODE::from_name("LINEAR"), Some(RGB_MODE::LINEAR));
    assert_eq!(RGB_MODE::from_name("linear"), None);
    assert_eq!(RGB_MODE::from_name(""), None);
    assert_eq!(RGB_GLOBAL_MODE::from_name("RGB_GLOBAL_MODE"), None);
}

#[test]
fn rgb_mode_label_reads_bits_27_to_24() {
    assert_eq!(rgb_mode_label(0x0000_0000), "STATIC");
    assert_eq!(rgb_mode_label(0x0100_0000), "CYCLE");
    assert_eq!(rgb_mode_label(0x72ff_ffff), "LINEAR");
    assert_eq!(rgb_mode_label(0xf3ab_cdef), "TRIGGER");
}

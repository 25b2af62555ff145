use oholeo::edit::{
    apply_color, apply_global_mode, apply_rgb_mode, edit_keys, selected_count, set_travel,
    KeyEdit, Travel,
};
use oholeo::keyboard::Keyboard;
use oholeo::text::{color_label, page_title, str_eq};

#[test]
fn color_goes_to_every_key_when_none_selected() {
    let mut kb = Keyboard::new();
    kb.keys[3].rgb_raw = 0x5a00_0000;
    apply_color(&mut kb, "#ff8001");
    assert_eq!(kb.keys[0].rgb_raw, 0x00ff_8001);
    assert_eq!(kb.keys[3].rgb_raw, 0x5aff_8001);
}

#[test]
fn color_goes_to_selected_keys_only() {
    let mut kb = Keyboard::new();
    kb.keys[1].selected = true;
    kb.keys[2].selected = true;
    apply_color(&mut kb, "#0A0b0C");
    assert_eq!(kb.keys[1].rgb_raw, 0x000a_0b0c);
    assert_eq!(kb.keys[2].rgb_raw, 0x000a_0b0c);
    assert_eq!(kb.keys[0].rgb_raw, 0);
    assert_eq!(selected_count(&kb.keys), 2);
}

#[test]
fn bad_color_is_white() {
    let mut kb = Keyboard::new();
    apply_color(&mut kb, "#12345g");
    assert_eq!(kb.keys[0].rgb_raw, 0x00ff_ffff);
    let mut kb = Keyboard::new();
    apply_color(&mut kb, "#12345");
    assert_eq!(kb.keys[9].rgb_raw, 0x00ff_ffff);
    let mut kb = Keyboard::new();
    apply_color(&mut kb, "#zz");
    assert_eq!(kb.keys[9].rgb_raw, 0x00ff_ffff);
}

#[test]
fn longer_color_uses_first_three_bytes() {
    let mut kb = Keyboard::new();
    apply_color(&mut kb, "#010203ff");
    assert_eq!(kb.keys[0].rgb_raw, 0x0001_0203);
}

#[test]
fn global_mode_goes_to_every_key() {
    let mut kb = Keyboard::new();
    kb.keys[0].selected = true;
    kb.keys[5].rgb_raw = 0xf123_4567;
    apply_global_mode(&mut kb, "RGB_GLOBAL_MODE_JELLY");
    assert_eq!(kb.keys[0].rgb_raw, 0x7000_0000);
    assert_eq!(kb.keys[5].rgb_raw, 0x7123_4567);
    apply_global_mode(&mut kb, "no such mode");
    assert_eq!(kb.keys[5].rgb_raw, 0x1123_4567);
}

#[test]
fn key_mode_goes_to_targets() {
    let mut kb = Keyboard::new();
    kb.keys[5].rgb_raw = 0x7f12_3456;
    apply_rgb_mode(&mut kb, "TRIGGER");
    assert_eq!(kb.keys[5].rgb_raw, 0x7312_3456);
    assert_eq!(kb.keys[6].rgb_raw, 0x0300_0000);
    apply_rgb_mode(&mut kb, "bogus");
    assert_eq!(kb.keys[5].rgb_raw, 0x7012_3456);
}

#[test]
fn travel_set_within_range() {
    let mut kb = Keyboard::new();
    assert!(set_travel(&mut kb, Travel::Activation, "20"));
    assert_eq!(kb.keys[0].value, (20, 5, 5, 35));
    kb.keys[4].selected = true;
    assert!(set_travel(&mut kb, Travel::Trigger, "+100"));
    assert_eq!(kb.keys[4].value, (20, 100, 5, 35));
    assert_eq!(kb.keys[0].value, (20, 5, 5, 35));
    assert!(set_travel(&mut kb, Travel::Reset, "1"));
    assert!(set_travel(&mut kb, Travel::LowerDeadzone, "7"));
    assert_eq!(kb.keys[4].value, (20, 100, 1, 7));
}

#[test]
fn travel_out_of_range_is_ignored() {
    let mut kb = Keyboard::new();
    assert!(!set_travel(&mut kb, Travel::Activation, "0"));
    assert!(!set_travel(&mut kb, Travel::Activation, "101"));
    assert!(!set_travel(&mut kb, Travel::Activation, "4000000000"));
    assert_eq!(kb.keys[0].value, (50, 5, 5, 35));
}

#[test]
fn trigger_mode_edit() {
    let mut kb = Keyboard::new();
    kb.keys[10].selected = true;
    edit_keys(&mut kb, KeyEdit::TriggerMode(1));
    assert_eq!(kb.keys[10].mode, 1);
    assert_eq!(kb.keys[11].mode, 0);
    assert!(kb.keys[10].selected);
}

#[test]
fn color_labels() {
    assert_eq!(color_label(0x12ab_cdef).as_str(), "#ABCDEF");
    assert_eq!(color_label(0).as_str(), "#000000");
    assert_eq!(color_label(0xff00_0a0b).as_str(), "#000A0B");
}

#[test]
fn page_titles() {
    assert_eq!(page_title("/performance").as_str(), "PERFORMANCE");
    assert_eq!(page_title("/keymap").as_str(), "KEYMAP");
    assert_eq!(page_title("/").as_str(), "");
    assert_eq!(page_title("/a-b_9é").as_str(), "A-B_9é");
}

#[test]
fn string_equality() {
    assert!(str_eq("", ""));
    assert!(str_eq("/rgb", "/rgb"));
    assert!(!str_eq("/rgb", "/rgB"));
    assert!(!str_eq("/rgb", "/rgb/"));
}

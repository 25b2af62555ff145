use oholeo::keyboard::Keyboard;
use oholeo::keycode::KeyCode;
use oholeo::report::PageKind;
use oholeo::state::{ADC_Data, UiState};
use oholeo::ui::{
    bind_key_label, click_key, drag_enter, drag_leave, drop_keycode, key_label, layer_name,
    set_mode, switch_layer, upload_action, upload_label, Page, UploadAction,
};

#[test]
fn pages_from_paths() {
    assert_eq!(Page::from_path("/performance"), Page::Performance);
    assert_eq!(Page::from_path("/keymap"), Page::Keymap);
    assert_eq!(Page::from_path("/rgb"), Page::Rgb);
    assert_eq!(Page::from_path("/debug"), Page::Debug);
    assert_eq!(Page::from_path("/"), Page::Other);
    assert_eq!(Page::from_path("/RGB"), Page::Other);
}

#[test]
fn initial_state() {
    let ui = UiState::new();
    assert_eq!(ui.mode, 0);
    assert_eq!(ui.key_monitor, 0);
    assert_eq!(ui.layer, 0);
    assert!(!ui.mousedown);
    assert_eq!(
        (ui.activation_value, ui.trigger_value, ui.reset_value, ui.lower_deadzone),
        (30, 3, 3, 32)
    );
    let adc = ADC_Data::new();
    assert_eq!(adc.array, [0u32; 64]);
    assert_eq!(adc.cnt, 0);
}

#[test]
fn debug_click_selects_one_key() {
    let mut ui = UiState::new();
    let mut kb = Keyboard::new();
    kb.keys[1].selected = true;
    click_key(&mut ui, &mut kb, 5, Page::Debug);
    assert_eq!(ui.key_monitor, 5);
    assert!(kb.keys[5].selected);
    assert!(!kb.keys[1].selected);
    click_key(&mut ui, &mut kb, 5, Page::Debug);
    assert!(kb.keys.iter().all(|k| !k.selected));
}

#[test]
fn click_toggles_and_shows_mode() {
    let mut ui = UiState::new();
    let mut kb = Keyboard::new();
    kb.keys[1].selected = true;
    kb.keys[7].mode = 1;
    click_key(&mut ui, &mut kb, 7, Page::Performance);
    assert_eq!(ui.mode, 1);
    assert!(kb.keys[7].selected);
    assert!(kb.keys[1].selected);
    click_key(&mut ui, &mut kb, 7, Page::Rgb);
    assert!(!kb.keys[7].selected);
}

#[test]
fn drags_select_and_deselect() {
    let mut kb = Keyboard::new();
    drag_enter(&mut kb, 3);
    assert!(kb.keys[3].selected);
    drag_leave(&mut kb, 3);
    assert!(!kb.keys[3].selected);
}

#[test]
fn drop_binds_selected_keys_on_layer() {
    let ui = UiState::new();
    let mut kb = Keyboard::new();
    kb.keys[2].selected = true;
    kb.keys[3].selected = true;
    drop_keycode(&ui, &mut kb, "12");
    assert_eq!(kb.keys[2].bind_key, (KeyCode::A.code(), 0));
    assert_eq!(kb.keys[3].bind_key, (4, 0));
    assert!(!kb.keys[2].selected);
    assert_eq!(kb.keys[4].bind_key, (0, 0));
    let mut fn_layer = UiState::new();
    fn_layer.layer = 1;
    kb.keys[2].selected = true;
    drop_keycode(&fn_layer, &mut kb, "138");
    assert_eq!(kb.keys[2].bind_key, (4, 1000));
    let mut other = UiState::new();
    other.layer = 7;
    kb.keys[2].selected = true;
    drop_keycode(&other, &mut kb, "0");
    assert_eq!(kb.keys[2].bind_key, (4, 1000));
    assert!(!kb.keys[2].selected);
}

#[test]
fn drop_past_the_list_binds_reserved() {
    let ui = UiState::new();
    let mut kb = Keyboard::new();
    kb.keys[0].bind_key = (9, 9);
    kb.keys[0].selected = true;
    drop_keycode(&ui, &mut kb, "500");
    assert_eq!(kb.keys[0].bind_key, (0, 9));
}

#[test]
fn layer_switching() {
    let mut ui = UiState::new();
    switch_layer(&mut ui);
    assert_eq!(ui.layer, 1);
    assert_eq!(layer_name(ui.layer), "Fn Layer");
    switch_layer(&mut ui);
    assert_eq!(ui.layer, 0);
    assert_eq!(layer_name(ui.layer), "Default");
    ui.layer = 5;
    switch_layer(&mut ui);
    assert_eq!(ui.layer, 0);
}

#[test]
fn binding_labels() {
    let mut kb = Keyboard::new();
    kb.keys[0].bind_key = (KeyCode::NUM_1.code(), 500);
    assert_eq!(bind_key_label(&kb, 0, 0), "1");
    assert_eq!(bind_key_label(&kb, 0, 1), "ERROR_UNDEFINED");
    assert_eq!(bind_key_label(&kb, 0, 2), "RESERVED");
    kb.keys[0].bind_key = (-8, 1004);
    assert_eq!(bind_key_label(&kb, 0, 0), "LCTRL");
    assert_eq!(bind_key_label(&kb, 0, 1), "PROFILE4");
}

#[test]
fn keycap_label_of_key() {
    let kb = Keyboard::new();
    assert_eq!(key_label(&kb, 0), "Esc");
    assert_eq!(key_label(&kb, 58), "Space");
}

#[test]
fn mode_input_sets_mode() {
    let mut ui = UiState::new();
    let mut kb = Keyboard::new();
    set_mode(&mut ui, &mut kb, "1");
    assert_eq!(ui.mode, 1);
    assert!(kb.keys.iter().all(|k| k.mode == 1));
}

#[test]
fn upload_actions() {
    assert_eq!(upload_action(Page::Rgb, false), UploadAction::Connect);
    assert_eq!(upload_action(Page::Performance, true), UploadAction::Upload(Some(PageKind::Performance)));
    assert_eq!(upload_action(Page::Rgb, true), UploadAction::Upload(Some(PageKind::Rgb)));
    assert_eq!(upload_action(Page::Keymap, true), UploadAction::Upload(Some(PageKind::Keymap)));
    assert_eq!(upload_action(Page::Debug, true), UploadAction::Upload(None));
    assert_eq!(upload_label(true), "Save to Keyboard");
    assert_eq!(upload_label(false), "Connect");
}

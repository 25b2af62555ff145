use oholeo::keyboard::{Keyboard, KEYMAP, STM2RS};
use oholeo::report::{
    adc_input, apply_key_page, classify_input_report, handle_input_report, keymap_input,
    keymap_report_frames, performance_input, performance_report_frames, report_frames,
    request_input_frame, rgb_input, rgb_report_frames, InputReport, PageKind, FRAME_LEN,
    REPORT_ID,
};
use oholeo::state::{ADC_Data, UiState};

fn report(first: u8, payload: [u8; 16]) -> Vec<u8> {
    let mut v = vec![first];
    v.extend_from_slice(&payload);
    v
}

#[test]
fn performance_input_sets_four_keys_in_scan_order() {
    let mut kb = Keyboard::new();
    let ba = report(
        16 + 2,
        [0x85, 1, 2, 3, 0x10, 4, 5, 6, 0xff, 7, 8, 9, 0x00, 10, 11, 12],
    );
    performance_input(&ba, &mut kb);
    let t0 = STM2RS[8];
    assert_eq!(kb.keys[t0].mode, 1);
    assert_eq!(kb.keys[t0].value, (5, 1, 2, 3));
    let t1 = STM2RS[9];
    assert_eq!(kb.keys[t1].mode, 0);
    assert_eq!(kb.keys[t1].value, (0x10, 4, 5, 6));
    let t2 = STM2RS[10];
    assert_eq!(kb.keys[t2].mode, 1);
    assert_eq!(kb.keys[t2].value, (0x7f, 7, 8, 9));
    let t3 = STM2RS[11];
    assert_eq!(kb.keys[t3].value, (0, 10, 11, 12));
    let fresh = Keyboard::new();
    for i in 0..64 {
        if KEYMAP[i] / 4 != 2 {
            assert_eq!(kb.keys[i], fresh.keys[i]);
        }
    }
}

#[test]
fn rgb_input_reads_words_high_byte_first() {
    let mut kb = Keyboard::new();
    let ba = report(32 + 15, [0x12, 0x34, 0x56, 0x78, 0, 0, 0, 1, 0xff, 0xff, 0xff, 0xff, 1, 0, 0, 0]);
    rgb_input(&ba, &mut kb);
    assert_eq!(kb.keys[STM2RS[60]].rgb_raw, 0x1234_5678);
    assert_eq!(kb.keys[STM2RS[61]].rgb_raw, 1);
    assert_eq!(kb.keys[STM2RS[62]].rgb_raw, 0xffff_ffff);
    assert_eq!(kb.keys[STM2RS[63]].rgb_raw, 0x0100_0000);
}

#[test]
fn keymap_input_reads_signed_bindings() {
    let mut kb = Keyboard::new();
    let ba = report(48, [0x00, 0x04, 0xff, 0xf8, 0x03, 0xe8, 0x00, 0x00, 0x80, 0x00, 0x7f, 0xff, 0, 0x29, 0, 0x1e]);
    keymap_input(&ba, &mut kb);
    assert_eq!(kb.keys[STM2RS[0]].bind_key, (4, -8));
    assert_eq!(kb.keys[STM2RS[1]].bind_key, (1000, 0));
    assert_eq!(kb.keys[STM2RS[2]].bind_key, (i16::MIN, i16::MAX));
    assert_eq!(kb.keys[STM2RS[3]].bind_key, (41, 30));
}

#[test]
fn adc_input_stores_readings_and_window() {
    let mut adc = ADC_Data::new();
    let mut ui = UiState::new();
    ui.key_monitor = STM2RS[8 + 3] as u32;
    let mut window: Vec<u32> = vec![7];
    let ba = report(1, [0x01, 0x02, 0, 3, 0, 0, 0x12, 0x34, 0, 5, 0, 6, 0, 7, 0xff, 0xff]);
    adc_input(&ba, &mut adc, &ui, &mut window);
    assert_eq!(adc.array[STM2RS[8]], 0x0102);
    assert_eq!(adc.array[STM2RS[9]], 3);
    assert_eq!(adc.array[STM2RS[11]], 0x1234);
    assert_eq!(adc.array[STM2RS[15]], 0xffff);
    assert_eq!(adc.array[STM2RS[0]], 0);
    assert_eq!(adc.cnt, 0);
    assert_eq!(window, vec![7, 0x1234]);
}

#[test]
fn adc_window_keeps_128_readings() {
    let mut adc = ADC_Data::new();
    let mut ui = UiState::new();
    ui.key_monitor = STM2RS[0] as u32;
    let mut window: Vec<u32> = (0..128).collect();
    let ba = report(0, [0, 200, 0, 0, 0, 0, 0, 0, 0, 0, 0, 0, 0, 0, 0, 0]);
    adc_input(&ba, &mut adc, &ui, &mut window);
    assert_eq!(window.len(), 128);
    assert_eq!(window[0], 1);
    assert_eq!(window[127], 200);
}

#[test]
fn adc_window_untouched_for_other_keys() {
    let mut adc = ADC_Data::new();
    let mut ui = UiState::new();
    ui.key_monitor = 200;
    let mut window: Vec<u32> = vec![1, 2];
    let ba = report(7, [9; 16]);
    adc_input(&ba, &mut adc, &ui, &mut window);
    assert_eq!(window, vec![1, 2]);
    assert_eq!(adc.array[STM2RS[56]], 9 * 256 + 9);
}

#[test]
fn classify_reports() {
    assert_eq!(classify_input_report(1, &[0]), InputReport::Ignored);
    assert_eq!(classify_input_report(REPORT_ID, &[0]), InputReport::Adc);
    assert_eq!(classify_input_report(REPORT_ID, &[15]), InputReport::Adc);
    assert_eq!(classify_input_report(REPORT_ID, &[16]), InputReport::KeyPage(PageKind::Performance));
    assert_eq!(classify_input_report(REPORT_ID, &[47]), InputReport::KeyPage(PageKind::Rgb));
    assert_eq!(classify_input_report(REPORT_ID, &[48]), InputReport::KeyPage(PageKind::Keymap));
    assert_eq!(classify_input_report(REPORT_ID, &[64]), InputReport::Ignored);
    assert_eq!(classify_input_report(REPORT_ID, &[255]), InputReport::Ignored);
    assert_eq!(classify_input_report(3, &[]), InputReport::Ignored);
}

#[test]
fn handle_input_report_routes() {
    let mut kb = Keyboard::new();
    let mut adc = ADC_Data::new();
    let mut ui = UiState::new();
    ui.key_monitor = STM2RS[2] as u32;
    let mut window: Vec<u32> = Vec::new();
    let ba = report(32 + 1, [0, 0, 0, 9, 0, 0, 0, 0, 0, 0, 0, 0, 0, 0, 0, 0]);
    handle_input_report(REPORT_ID, &ba, &mut kb, &mut adc, &ui, &mut window);
    assert_eq!(kb.keys[STM2RS[4]].rgb_raw, 9);
    assert_eq!(adc.array, [0u32; 64]);
    let before = kb.clone();
    handle_input_report(5, &ba, &mut kb, &mut adc, &ui, &mut window);
    assert_eq!(kb.keys, before.keys);
    let ignored = report(64, [1; 16]);
    handle_input_report(REPORT_ID, &ignored, &mut kb, &mut adc, &ui, &mut window);
    assert_eq!(kb.keys, before.keys);
    let analog = report(0, [0, 1, 0, 2, 0, 3, 0, 4, 0, 5, 0, 6, 0, 7, 0, 8]);
    handle_input_report(REPORT_ID, &analog, &mut kb, &mut adc, &ui, &mut window);
    assert_eq!(adc.array[STM2RS[7]], 8);
    assert_eq!(window, vec![3]);
}

#[test]
fn performance_frames_of_default_board() {
    let kb = Keyboard::new();
    let frames = performance_report_frames(&kb);
    assert_eq!(frames.len(), 16);
    for (p, f) in frames.iter().enumerate() {
        assert_eq!(f.len(), FRAME_LEN);
        assert_eq!(f[0], p as u8);
        assert_eq!(&f[1..5], &[50, 5, 5, 35]);
    }
}

#[test]
fn performance_frame_packs_mode_bit() {
    let mut kb = Keyboard::new();
    kb.keys[5].mode = 1;
    kb.keys[5].value = (30, 200, 300, 7);
    let frames = performance_report_frames(&kb);
    assert_eq!(&frames[1][5..9], &[30 | 0x80, 200, 300u32 as u8, 7]);
}

#[test]
fn rgb_and_keymap_frames() {
    let mut kb = Keyboard::new();
    kb.keys[0].rgb_raw = 0x1122_3344;
    kb.keys[7].bind_key = (-8, 1001);
    let rgb = rgb_report_frames(&kb);
    assert_eq!(rgb.len(), 16);
    assert_eq!(rgb[0][0], 16);
    assert_eq!(rgb[15][0], 31);
    assert_eq!(&rgb[0][1..5], &[0x11, 0x22, 0x33, 0x44]);
    let km = keymap_report_frames(&kb);
    assert_eq!(km[0][0], 32);
    assert_eq!(km[15][0], 47);
    assert_eq!(&km[1][13..17], &[0xff, 0xf8, 0x03, 0xe9]);
}

#[test]
fn frames_read_back_into_scan_order() {
    let mut src = Keyboard::new();
    for (i, k) in src.keys.iter_mut().enumerate() {
        k.rgb_raw = 0x0100_0000 * (i as u32 % 3) + 0x10203 * i as u32;
        k.bind_key = (i as i16 - 8, 1000 + i as i16);
        k.mode = (i % 2) as u32;
        k.value = (i as u32, 100 - i as u32, 3, 99);
    }
    for (kind, frames) in [
        (PageKind::Rgb, report_frames(PageKind::Rgb, &src)),
        (PageKind::Keymap, report_frames(PageKind::Keymap, &src)),
        (PageKind::Performance, report_frames(PageKind::Performance, &src)),
    ] {
        let mut dst = Keyboard::new();
        for (p, f) in frames.iter().enumerate() {
            apply_key_page(kind, f, &mut dst);
            for i in 0..4 {
                let from = &src.keys[4 * p + i];
                let to = &dst.keys[STM2RS[4 * p + i]];
                match kind {
                    PageKind::Rgb => assert_eq!(to.rgb_raw, from.rgb_raw),
                    PageKind::Keymap => assert_eq!(to.bind_key, from.bind_key),
                    PageKind::Performance => {
                        assert_eq!(to.mode, from.mode);
                        assert_eq!(to.value, from.value);
                    }
                }
            }
        }
    }
}

#[test]
fn request_frame() {
    let f = request_input_frame();
    assert_eq!(f.len(), 17);
    assert_eq!(f[0], 255);
    assert!(f[1..].iter().all(|b| *b == 0));
}

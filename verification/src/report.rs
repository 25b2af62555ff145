//! The HID reports exchanged with the board.
//!
//! The board answers with input reports whose first byte says what they
//! carry: 0..16 analog readings of eight keys, 16..32 trigger settings of four
//! keys, 32..48 lighting of four keys, 48..64 bindings of four keys; the low
//! four bits of that byte are the page. Keys travel in the controller's scan
//! order. The tool writes settings back in frames of 17 bytes: a page byte
//! and four keys of four bytes each, in screen order.

use vstd::prelude::*;
use crate::keyboard::{Key, Keyboard, KEY_COUNT, KEYMAP, STM2RS, lemma_index_maps_inverse};
use crate::state::{ADC_Data, UiState, ADC_WINDOW};

verus! {

/// The report id of every report exchanged with the board.
pub const REPORT_ID: u8 = 2;

/// The USB vendor id of the board.
pub const VENDOR_ID: u16 = 0x0484;

/// The USB product id of the board.
pub const PRODUCT_ID: u16 = 0x572f;

/// Length of a frame sent to the board.
pub const FRAME_LEN: usize = 17;

/// The settings that travel in pages of four keys.
#[derive(Debug, Clone, Copy, PartialEq, Eq, Structural)]
pub enum PageKind {
    Performance,
    Rgb,
    Keymap,
}

/// A key binding from its two bytes on the wire, high byte first.
pub open spec fn spec_binding(hi: u8, lo: u8) -> i16 {
    ((hi as u16) << 8u16 | lo as u16) as i16
}

/// A lighting word from its four bytes on the wire, high byte first.
pub open spec fn spec_rgb_word(x: Seq<u8>) -> u32 {
    (x[0] as u32) << 24u32 | (x[1] as u32) << 16u32 | (x[2] as u32) << 8u32 | x[3] as u32
}

/// Key `k` after the four bytes `x` of a page of kind `kind` were read for it:
/// trigger settings take the mode from the top bit of the first byte and the
/// four travels from the rest; lighting takes the word; bindings take the two
/// codes.
pub open spec fn spec_update_key(kind: PageKind, k: Key, x: Seq<u8>) -> Key {
    match kind {
        PageKind::Performance => Key {
            mode: (x[0] >> 7u8) as u32,
            value: ((x[0] & 0x7fu8) as u32, x[1] as u32, x[2] as u32, x[3] as u32),
            ..k
        },
        PageKind::Rgb => Key { rgb_raw: spec_rgb_word(x), ..k },
        PageKind::Keymap => Key {
            bind_key: (spec_binding(x[0], x[1]), spec_binding(x[2], x[3])),
            ..k
        },
    }
}

/// Key `i` (by screen index) is one of the four keys of page `page`.
pub open spec fn in_key_page(i: int, page: int) -> bool {
    0 <= i < KEY_COUNT && KEYMAP@[i] / 4 == page
}

/// The four bytes of slot `slot` of an input report.
pub open spec fn slot_bytes(ba: Seq<u8>, slot: int) -> Seq<u8> {
    ba.subrange(1 + 4 * slot, 5 + 4 * slot)
}

/// The page that an input report carries.
pub open spec fn report_page(ba: Seq<u8>) -> int {
    (ba[0] % 16) as int
}

/// The keys after an input report of kind `kind` was read: each key of the
/// page takes the bytes of its slot, the slot being its scan index modulo 4;
/// every other key stays as it was.
pub open spec fn spec_apply_key_page(kind: PageKind, keys: Seq<Key>, ba: Seq<u8>) -> Seq<Key> {
    Seq::new(
        keys.len(),
        |i: int|
            if in_key_page(i, report_page(ba)) {
                spec_update_key(kind, keys[i], slot_bytes(ba, (KEYMAP@[i] % 4) as int))
            } else {
                keys[i]
            },
    )
}

/// The four keys of page `page` all exist in a board of `len` keys.
pub open spec fn page_fits(len: int, page: int) -> bool {
    forall|j: int| 0 <= j < 4 ==> #[trigger] STM2RS@[page * 4 + j] < len
}

fn update_key(kind: PageKind, k: Key, x0: u8, x1: u8, x2: u8, x3: u8) -> (r: Key)
    ensures
        r == spec_update_key(kind, k, seq![x0, x1, x2, x3]),
{
    let ghost x = seq![x0, x1, x2, x3];
    assert(x[0] == x0 && x[1] == x1 && x[2] == x2 && x[3] == x3);
    match kind {
        PageKind::Performance => Key {
            mode: (x0 >> 7) as u32,
            value: ((x0 & 0x7f) as u32, x1 as u32, x2 as u32, x3 as u32),
            ..k
        },
        PageKind::Rgb => Key {
            rgb_raw: (x0 as u32) << 24 | (x1 as u32) << 16 | (x2 as u32) << 8 | x3 as u32,
            ..k
        },
        PageKind::Keymap => Key {
            bind_key: (((x0 as u16) << 8 | x1 as u16) as i16, ((x2 as u16) << 8 | x3 as u16) as i16),
            ..k
        },
    }
}

/// Reads an input report that carries a page of four keys of kind `kind`
/// into the board.
pub fn apply_key_page(kind: PageKind, ba: &[u8], keyboard: &mut Keyboard)
    requires
        ba@.len() >= 17,
        page_fits(old(keyboard).keys@.len() as int, report_page(ba@)),
    ensures
        final(keyboard).keys@ == spec_apply_key_page(kind, old(keyboard).keys@, ba@),
{
    proof {
        lemma_index_maps_inverse();
    }
    let ghost old_keys = keyboard.keys@;
    let page: usize = (ba[0] % 16) as usize;
    let mut j: usize = 0;
    while j < 4
        invariant
            j <= 4,
            page == report_page(ba@),
            page < 16,
            ba@.len() >= 17,
            page_fits(old_keys.len() as int, page as int),
            keyboard.keys@.len() == old_keys.len(),
            forall|i: int|
                #![trigger keyboard.keys@[i]]
                0 <= i < old_keys.len() ==> keyboard.keys@[i] == if in_key_page(i, page as int)
                    && KEYMAP@[i] % 4 < j {
                    spec_update_key(kind, old_keys[i], slot_bytes(ba@, (KEYMAP@[i] % 4) as int))
                } else {
                    old_keys[i]
                },
            forall|i: int|
                0 <= i < KEY_COUNT ==> KEYMAP@[i] < KEY_COUNT && #[trigger] STM2RS@[KEYMAP@[i] as int]
                    == i,
            forall|i: int|
                0 <= i < KEY_COUNT ==> STM2RS@[i] < KEY_COUNT && #[trigger] KEYMAP@[STM2RS@[i] as int]
                    == i,
        decreases 4 - j,
    {
        let s: usize = page * 4 + j;
        let t: usize = STM2RS[s];
        assert(STM2RS@[page * 4 + j] < old_keys.len());
        assert(KEYMAP@[t as int] == s);
        let k = keyboard.keys[t];
        let b: usize = 1 + 4 * j;
        let nk = update_key(kind, k, ba[b], ba[b + 1], ba[b + 2], ba[b + 3]);
        proof {
            assert(seq![ba@[b as int], ba@[b + 1], ba@[b + 2], ba@[b + 3]] =~= slot_bytes(ba@, j as int));
        }
        keyboard.keys.set(t, nk);
        proof {
            assert forall|i: int| 0 <= i < old_keys.len() implies #[trigger] keyboard.keys@[i] == if in_key_page(i, page as int)
                && KEYMAP@[i] % 4 < j + 1 {
                spec_update_key(kind, old_keys[i], slot_bytes(ba@, (KEYMAP@[i] % 4) as int))
            } else {
                old_keys[i]
            } by {
                if i == t {
                } else if in_key_page(i, page as int) && KEYMAP@[i] % 4 == j {
                    assert(KEYMAP@[i] == s);
                    assert(STM2RS@[KEYMAP@[i] as int] == i);
                }
            }
        }
        j = j + 1;
    }
    assert(keyboard.keys@ =~= spec_apply_key_page(kind, old_keys, ba@));
}

/// Reads an input report that carries the trigger settings of four keys.
pub fn performance_input(ba: &[u8], keyboard: &mut Keyboard)
    requires
        ba@.len() >= 17,
        page_fits(old(keyboard).keys@.len() as int, report_page(ba@)),
    ensures
        final(keyboard).keys@ == spec_apply_key_page(
            PageKind::Performance,
            old(keyboard).keys@,
            ba@,
        ),
{
    apply_key_page(PageKind::Performance, ba, keyboard);
}

/// Reads an input report that carries the lighting of four keys.
pub fn rgb_input(ba: &[u8], keyboard: &mut Keyboard)
    requires
        ba@.len() >= 17,
        page_fits(old(keyboard).keys@.len() as int, report_page(ba@)),
    ensures
        final(keyboard).keys@ == spec_apply_key_page(PageKind::Rgb, old(keyboard).keys@, ba@),
{
    apply_key_page(PageKind::Rgb, ba, keyboard);
}

/// Reads an input report that carries the bindings of four keys.
pub fn keymap_input(ba: &[u8], keyboard: &mut Keyboard)
    requires
        ba@.len() >= 17,
        page_fits(old(keyboard).keys@.len() as int, report_page(ba@)),
    ensures
        final(keyboard).keys@ == spec_apply_key_page(PageKind::Keymap, old(keyboard).keys@, ba@),
{
    apply_key_page(PageKind::Keymap, ba, keyboard);
}

/// The analog reading in slot `slot` of an input report: two bytes, high
/// byte first.
pub open spec fn adc_sample(ba: Seq<u8>, slot: int) -> u32 {
    (ba[1 + 2 * slot] * 256 + ba[2 + 2 * slot]) as u32
}

/// Key `i` (by screen index) is one of the eight keys of analog page `page`.
pub open spec fn in_adc_page(i: int, page: int) -> bool {
    0 <= i < KEY_COUNT && KEYMAP@[i] / 8 == page
}

/// The readings after an analog report was read: each key of the page takes
/// the reading of its slot, the slot being its scan index modulo 8.
pub open spec fn spec_adc_array(readings: Seq<u32>, ba: Seq<u8>) -> Seq<u32> {
    Seq::new(
        readings.len(),
        |i: int|
            if in_adc_page(i, report_page(ba)) {
                adc_sample(ba, (KEYMAP@[i] % 8) as int)
            } else {
                readings[i]
            },
    )
}

/// The window of readings after `v` was appended: the oldest reading leaves
/// once there are more than `ADC_WINDOW`.
pub open spec fn spec_window_push(w: Seq<u32>, v: u32) -> Seq<u32> {
    if w.push(v).len() > ADC_WINDOW {
        w.push(v).drop_first()
    } else {
        w.push(v)
    }
}

/// The window of readings of key `monitor` after an analog report was read:
/// it takes the key's new reading if the report carries one.
pub open spec fn spec_adc_window(w: Seq<u32>, ba: Seq<u8>, monitor: u32) -> Seq<u32> {
    if in_adc_page(monitor as int, report_page(ba)) {
        spec_window_push(w, adc_sample(ba, (KEYMAP@[monitor as int] % 8) as int))
    } else {
        w
    }
}

/// Reads an input report that carries the analog readings of eight keys:
/// stores them, and appends the reading of the monitored key, if the report
/// carries it, to the window of its readings.
pub fn adc_input(ba: &[u8], adc_data: &mut ADC_Data, uistate: &UiState, adc_vec: &mut Vec<u32>)
    requires
        ba@.len() >= 17,
        report_page(ba@) < 8,
    ensures
        final(adc_data).array@ == spec_adc_array(old(adc_data).array@, ba@),
        final(adc_data).cnt == old(adc_data).cnt,
        final(adc_vec)@ == spec_adc_window(old(adc_vec)@, ba@, uistate.key_monitor),
{
    proof {
        lemma_index_maps_inverse();
    }
    let ghost old_array = adc_data.array@;
    let ghost old_vec = adc_vec@;
    let page: usize = (ba[0] % 16) as usize;
    let mut j: usize = 0;
    while j < 8
        invariant
            j <= 8,
            page == report_page(ba@),
            page < 8,
            ba@.len() >= 17,
            adc_data.array@.len() == 64,
            adc_data.cnt == old(adc_data).cnt,
            forall|i: int|
                #![trigger adc_data.array@[i]]
                0 <= i < 64 ==> adc_data.array@[i] == if in_adc_page(i, page as int) && KEYMAP@[i]
                    % 8 < j {
                    adc_sample(ba@, (KEYMAP@[i] % 8) as int)
                } else {
                    old_array[i]
                },
            adc_vec@ == if in_adc_page(uistate.key_monitor as int, page as int)
                && KEYMAP@[uistate.key_monitor as int] % 8 < j {
                spec_window_push(
                    old_vec,
                    adc_sample(ba@, (KEYMAP@[uistate.key_monitor as int] % 8) as int),
                )
            } else {
                old_vec
            },
            forall|i: int|
                0 <= i < KEY_COUNT ==> KEYMAP@[i] < KEY_COUNT && #[trigger] STM2RS@[KEYMAP@[i] as int]
                    == i,
            forall|i: int|
                0 <= i < KEY_COUNT ==> STM2RS@[i] < KEY_COUNT && #[trigger] KEYMAP@[STM2RS@[i] as int]
                    == i,
        decreases 8 - j,
    {
        let b: usize = 1 + 2 * j;
        let data: u32 = (ba[b] as u32) * 256 + ba[b + 1] as u32;
        let s: usize = page * 8 + j;
        let t: usize = STM2RS[s];
        assert(KEYMAP@[t as int] == s);
        adc_data.array[t] = data;
        if uistate.key_monitor == t as u32 {
            adc_vec.push(data);
            if adc_vec.len() > ADC_WINDOW {
                adc_vec.remove(0);
            }
        }
        proof {
            assert forall|i: int| 0 <= i < 64 implies #[trigger] adc_data.array@[i] == if in_adc_page(i, page as int)
                && KEYMAP@[i] % 8 < j + 1 {
                adc_sample(ba@, (KEYMAP@[i] % 8) as int)
            } else {
                old_array[i]
            } by {
                if i == t {
                } else if in_adc_page(i, page as int) && KEYMAP@[i] % 8 == j {
                    assert(KEYMAP@[i] == s);
                    assert(STM2RS@[KEYMAP@[i] as int] == i);
                }
            }
            let m = uistate.key_monitor as int;
            if in_adc_page(m, page as int) && KEYMAP@[m] % 8 == j {
                assert(KEYMAP@[m] == s);
                assert(STM2RS@[KEYMAP@[m] as int] == m);
                assert(m == t);
            }
            if uistate.key_monitor == t as u32 {
                assert(in_adc_page(t as int, page as int) && KEYMAP@[t as int] % 8 == j);
            }
        }
        j = j + 1;
    }
    assert(adc_data.array@ =~= spec_adc_array(old_array, ba@));
}

/// What an input report carries.
#[derive(Debug, Clone, Copy, PartialEq, Eq, Structural)]
pub enum InputReport {
    /// Analog readings of eight keys.
    Adc,
    /// Settings of four keys.
    KeyPage(PageKind),
    /// Nothing the tool reads.
    Ignored,
}

/// What an input report with id `report_id` and bytes `ba` carries.
pub open spec fn spec_classify(report_id: u8, ba: Seq<u8>) -> InputReport {
    if report_id != REPORT_ID {
        InputReport::Ignored
    } else if ba[0] < 16 {
        InputReport::Adc
    } else if ba[0] < 32 {
        InputReport::KeyPage(PageKind::Performance)
    } else if ba[0] < 48 {
        InputReport::KeyPage(PageKind::Rgb)
    } else if ba[0] < 64 {
        InputReport::KeyPage(PageKind::Keymap)
    } else {
        InputReport::Ignored
    }
}

/// Tells what an input report with id `report_id` and bytes `ba` carries.
pub fn classify_input_report(report_id: u8, ba: &[u8]) -> (r: InputReport)
    requires
        report_id == REPORT_ID ==> ba@.len() >= 1,
    ensures
        r == spec_classify(report_id, ba@),
{
    if report_id != REPORT_ID {
        InputReport::Ignored
    } else if ba[0] < 16 {
        InputReport::Adc
    } else if ba[0] < 32 {
        InputReport::KeyPage(PageKind::Performance)
    } else if ba[0] < 48 {
        InputReport::KeyPage(PageKind::Rgb)
    } else if ba[0] < 64 {
        InputReport::KeyPage(PageKind::Keymap)
    } else {
        InputReport::Ignored
    }
}

/// The input reports that can be read without fault: the bytes of what
/// the report carries are there, an analog page is one of the eight, and the
/// keys of a key page exist on the board.
pub open spec fn input_report_readable(report_id: u8, ba: Seq<u8>, keys_len: int) -> bool {
    &&& report_id == REPORT_ID ==> ba.len() >= 1
    &&& spec_classify(report_id, ba) != InputReport::Ignored ==> ba.len() >= 17
    &&& spec_classify(report_id, ba) == InputReport::Adc ==> report_page(ba) < 8
    &&& spec_classify(report_id, ba) is KeyPage ==> page_fits(keys_len, report_page(ba))
}

/// Reads an input report from the board into the tool's state.
pub fn handle_input_report(
    report_id: u8,
    ba: &[u8],
    keyboard: &mut Keyboard,
    adc_data: &mut ADC_Data,
    uistate: &UiState,
    adc_vec: &mut Vec<u32>,
)
    requires
        input_report_readable(report_id, ba@, old(keyboard).keys@.len() as int),
    ensures
        spec_classify(report_id, ba@) == InputReport::Adc ==> {
            &&& final(adc_data).array@ == spec_adc_array(old(adc_data).array@, ba@)
            &&& final(adc_data).cnt == old(adc_data).cnt
            &&& final(adc_vec)@ == spec_adc_window(old(adc_vec)@, ba@, uistate.key_monitor)
            &&& final(keyboard).keys@ == old(keyboard).keys@
        },
        spec_classify(report_id, ba@) matches InputReport::KeyPage(kind) ==> {
            &&& final(keyboard).keys@ == spec_apply_key_page(kind, old(keyboard).keys@, ba@)
            &&& final(adc_data).array@ == old(adc_data).array@
            &&& final(adc_data).cnt == old(adc_data).cnt
            &&& final(adc_vec)@ == old(adc_vec)@
        },
        spec_classify(report_id, ba@) == InputReport::Ignored ==> {
            &&& final(keyboard).keys@ == old(keyboard).keys@
            &&& final(adc_data).array@ == old(adc_data).array@
            &&& final(adc_data).cnt == old(adc_data).cnt
            &&& final(adc_vec)@ == old(adc_vec)@
        },
{
    match classify_input_report(report_id, ba) {
        InputReport::Adc => adc_input(ba, adc_data, uistate, adc_vec),
        InputReport::KeyPage(kind) => apply_key_page(kind, ba, keyboard),
        InputReport::Ignored => {},
    }
}

/// The four bytes that stand for key `k` in a frame of kind `kind`: the first
/// travel with the mode in its top bit and the other three travels; the
/// lighting word, high byte first; the two bindings, high byte first.
pub open spec fn spec_key_bytes(kind: PageKind, k: Key) -> Seq<u8> {
    match kind {
        PageKind::Performance => seq![
            (k.value.0 as u8) | ((k.mode << 7u32) as u8),
            k.value.1 as u8,
            k.value.2 as u8,
            k.value.3 as u8,
        ],
        PageKind::Rgb => seq![
            (k.rgb_raw >> 24u32) as u8,
            (k.rgb_raw >> 16u32) as u8,
            (k.rgb_raw >> 8u32) as u8,
            k.rgb_raw as u8,
        ],
        PageKind::Keymap => seq![
            (k.bind_key.0 >> 8i16) as u8,
            k.bind_key.0 as u8,
            (k.bind_key.1 >> 8i16) as u8,
            k.bind_key.1 as u8,
        ],
    }
}

/// The first page byte of frames of kind `kind`.
pub open spec fn page_base(kind: PageKind) -> u8 {
    match kind {
        PageKind::Performance => 0,
        PageKind::Rgb => 16,
        PageKind::Keymap => 32,
    }
}

/// The frame that carries page `page` (keys `4 * page` to `4 * page + 3` in
/// screen order) of kind `kind`.
pub open spec fn spec_frame(kind: PageKind, keys: Seq<Key>, page: int) -> Seq<u8> {
    seq![((page as u8) + page_base(kind)) as u8] + spec_key_bytes(kind, keys[4 * page])
        + spec_key_bytes(kind, keys[4 * page + 1]) + spec_key_bytes(kind, keys[4 * page + 2])
        + spec_key_bytes(kind, keys[4 * page + 3])
}

/// A board of `len` keys can be written in frames of kind `kind`: its keys
/// fill whole pages, and every page byte fits in a byte.
pub open spec fn frames_fit(kind: PageKind, len: int) -> bool {
    &&& len % 4 == 0
    &&& kind != PageKind::Performance ==> len / 4 + page_base(kind) <= 256
}

fn push_key_bytes(kind: PageKind, k: &Key, out: &mut Vec<u8>)
    ensures
        final(out)@ == old(out)@ + spec_key_bytes(kind, *k),
{
    let ghost start = out@;
    match kind {
        PageKind::Performance => {
            out.push((k.value.0 as u8) | ((k.mode << 7) as u8));
            out.push(k.value.1 as u8);
            out.push(k.value.2 as u8);
            out.push(k.value.3 as u8);
        },
        PageKind::Rgb => {
            out.push((k.rgb_raw >> 24) as u8);
            out.push((k.rgb_raw >> 16) as u8);
            out.push((k.rgb_raw >> 8) as u8);
            out.push(k.rgb_raw as u8);
        },
        PageKind::Keymap => {
            out.push((k.bind_key.0 >> 8) as u8);
            out.push(k.bind_key.0 as u8);
            out.push((k.bind_key.1 >> 8) as u8);
            out.push(k.bind_key.1 as u8);
        },
    }
    assert(out@ =~= start + spec_key_bytes(kind, *k));
}

/// The frames, in order, that write the settings of kind `kind` of every
/// key to the board, four keys a frame.
pub fn report_frames(kind: PageKind, keyboard: &Keyboard) -> (frames: Vec<Vec<u8>>)
    requires
        frames_fit(kind, keyboard.keys@.len() as int),
    ensures
        frames@.len() == keyboard.keys@.len() / 4,
        forall|p: int|
            0 <= p < frames@.len() ==> #[trigger] frames@[p]@ == spec_frame(kind, keyboard.keys@, p),
{
    let n: usize = keyboard.keys.len() / 4;
    let mut frames: Vec<Vec<u8>> = Vec::new();
    let mut p: usize = 0;
    while p < n
        invariant
            n == keyboard.keys@.len() / 4,
            frames_fit(kind, keyboard.keys@.len() as int),
            p <= n,
            frames@.len() == p,
            forall|q: int| 0 <= q < p ==> #[trigger] frames@[q]@ == spec_frame(kind, keyboard.keys@, q),
        decreases n - p,
    {
        let mut f: Vec<u8> = Vec::with_capacity(FRAME_LEN);
        let page_byte: u8 = match kind {
            PageKind::Performance => #[verifier::truncate] (p as u8),
            PageKind::Rgb => (p as u8) + 16,
            PageKind::Keymap => (p as u8) + 32,
        };
        f.push(page_byte);
        let len: usize = keyboard.keys.len();
        assert(4 * p + 3 < len);
        push_key_bytes(kind, &keyboard.keys[4 * p], &mut f);
        push_key_bytes(kind, &keyboard.keys[4 * p + 1], &mut f);
        push_key_bytes(kind, &keyboard.keys[4 * p + 2], &mut f);
        push_key_bytes(kind, &keyboard.keys[4 * p + 3], &mut f);
        assert(f@ =~= spec_frame(kind, keyboard.keys@, p as int));
        frames.push(f);
        p = p + 1;
    }
    frames
}

/// The frames that write the trigger settings of every key to the board.
pub fn performance_report_frames(keyboard: &Keyboard) -> (frames: Vec<Vec<u8>>)
    requires
        keyboard.keys@.len() % 4 == 0,
    ensures
        frames@.len() == keyboard.keys@.len() / 4,
        forall|p: int|
            0 <= p < frames@.len() ==> #[trigger] frames@[p]@ == spec_frame(
                PageKind::Performance,
                keyboard.keys@,
                p,
            ),
{
    report_frames(PageKind::Performance, keyboard)
}

/// The frames that write the lighting of every key to the board.
pub fn rgb_report_frames(keyboard: &Keyboard) -> (frames: Vec<Vec<u8>>)
    requires
        keyboard.keys@.len() % 4 == 0,
        keyboard.keys@.len() <= 960,
    ensures
        frames@.len() == keyboard.keys@.len() / 4,
        forall|p: int|
            0 <= p < frames@.len() ==> #[trigger] frames@[p]@ == spec_frame(
                PageKind::Rgb,
                keyboard.keys@,
                p,
            ),
{
    report_frames(PageKind::Rgb, keyboard)
}

/// The frames that write the bindings of every key to the board.
pub fn keymap_report_frames(keyboard: &Keyboard) -> (frames: Vec<Vec<u8>>)
    requires
        keyboard.keys@.len() % 4 == 0,
        keyboard.keys@.len() <= 896,
    ensures
        frames@.len() == keyboard.keys@.len() / 4,
        forall|p: int|
            0 <= p < frames@.len() ==> #[trigger] frames@[p]@ == spec_frame(
                PageKind::Keymap,
                keyboard.keys@,
                p,
            ),
{
    report_frames(PageKind::Keymap, keyboard)
}

/// The frame that asks the board to report all its settings: page byte 255,
/// then sixteen zero bytes.
pub fn request_input_frame() -> (f: Vec<u8>)
    ensures
        f@ == seq![255u8] + Seq::new(16, |i: int| 0u8),
{
    let mut f: Vec<u8> = Vec::with_capacity(FRAME_LEN);
    f.push(255);
    let mut i: usize = 0;
    while i < 16
        invariant
            i <= 16,
            f@ == seq![255u8] + Seq::new(i as nat, |j: int| 0u8),
        decreases 16 - i,
    {
        f.push(0);
        i = i + 1;
        assert(f@ =~= seq![255u8] + Seq::new(i as nat, |j: int| 0u8));
    }
    f
}

/// Key `dst` with the settings of kind `kind` taken from key `src`.
pub open spec fn spec_copy_settings(kind: PageKind, dst: Key, src: Key) -> Key {
    match kind {
        PageKind::Performance => Key { mode: src.mode, value: src.value, ..dst },
        PageKind::Rgb => Key { rgb_raw: src.rgb_raw, ..dst },
        PageKind::Keymap => Key { bind_key: src.bind_key, ..dst },
    }
}

/// The settings of kind `kind` of key `k` fit the four bytes of a frame
/// unchanged: a mode of one bit, a first travel of seven bits and travels of
/// a byte each. Lighting words and bindings always fit.
pub open spec fn settings_fit_frame(kind: PageKind, k: Key) -> bool {
    match kind {
        PageKind::Performance => k.mode < 2 && k.value.0 < 128 && k.value.1 < 256 && k.value.2
            < 256 && k.value.3 < 256,
        _ => true,
    }
}

proof fn lemma_rgb_word_bytes(x: u32)
    ensures
        ((((x >> 24u32) as u8) as u32) << 24u32 | (((x >> 16u32) as u8) as u32) << 16u32 | (((x
            >> 8u32) as u8) as u32) << 8u32 | ((x as u8) as u32)) == x,
{
    assert(((((x >> 24u32) as u8) as u32) << 24u32 | (((x >> 16u32) as u8) as u32) << 16u32 | (((x
        >> 8u32) as u8) as u32) << 8u32 | ((x as u8) as u32)) == x) by (bit_vector);
}

proof fn lemma_binding_bytes(b: i16)
    ensures
        spec_binding((b >> 8i16) as u8, b as u8) == b,
{
    assert(((((b >> 8i16) as u8) as u16) << 8u16 | ((b as u8) as u16)) as i16 == b) by (bit_vector);
}

proof fn lemma_trigger_bytes(mode: u32, v0: u32)
    requires
        mode < 2,
        v0 < 128,
    ensures
        (((v0 as u8) | ((mode << 7u32) as u8)) >> 7u8) as u32 == mode,
        (((v0 as u8) | ((mode << 7u32) as u8)) & 0x7fu8) as u32 == v0,
{
    assert((((v0 as u8) | ((mode << 7u32) as u8)) >> 7u8) as u32 == mode && (((v0 as u8) | ((mode
        << 7u32) as u8)) & 0x7fu8) as u32 == v0) by (bit_vector)
        requires
            mode < 2,
            v0 < 128,
    ;
}

/// Reading back the four bytes that stand for a key gives the key's settings
/// back, where they fit the frame.
pub proof fn lemma_key_bytes_roundtrip(kind: PageKind, dst: Key, src: Key)
    requires
        settings_fit_frame(kind, src),
    ensures
        spec_update_key(kind, dst, spec_key_bytes(kind, src)) == spec_copy_settings(kind, dst, src),
{
    let x = spec_key_bytes(kind, src);
    match kind {
        PageKind::Performance => {
            lemma_trigger_bytes(src.mode, src.value.0);
        },
        PageKind::Rgb => {
            lemma_rgb_word_bytes(src.rgb_raw);
        },
        PageKind::Keymap => {
            lemma_binding_bytes(src.bind_key.0);
            lemma_binding_bytes(src.bind_key.1);
        },
    }
}

/// A frame that the tool writes, read back as an input report of the same
/// kind, sets each key of the page to the settings that the frame was made
/// from: key `4 * page + i` in screen order lands on the key whose scan
/// index is `4 * page + i`, the board's own order. Every other key keeps its
/// settings.
pub proof fn lemma_frame_roundtrip(kind: PageKind, src: Seq<Key>, dst: Seq<Key>, page: int)
    requires
        0 <= page < 16,
        4 * page + 4 <= src.len(),
        page_fits(dst.len() as int, page),
        forall|i: int| 0 <= i < 4 ==> settings_fit_frame(kind, #[trigger] src[4 * page + i]),
    ensures
        spec_frame(kind, src, page).len() == FRAME_LEN,
        report_page(spec_frame(kind, src, page)) == page,
        forall|i: int|
            0 <= i < 4 ==> #[trigger] spec_apply_key_page(kind, dst, spec_frame(kind, src, page))[STM2RS@[4
                * page + i] as int] == spec_copy_settings(
                kind,
                dst[STM2RS@[4 * page + i] as int],
                src[4 * page + i],
            ),
        forall|j: int|
            0 <= j < dst.len() && !in_key_page(j, page) ==> #[trigger] spec_apply_key_page(
                kind,
                dst,
                spec_frame(kind, src, page),
            )[j] == dst[j],
{
    lemma_index_maps_inverse();
    let f = spec_frame(kind, src, page);
    assert(f.len() == 17);
    assert((page as u8) as int == page);
    assert forall|i: int| 0 <= i < 4 implies #[trigger] spec_apply_key_page(kind, dst, f)[STM2RS@[4
        * page + i] as int] == spec_copy_settings(
        kind,
        dst[STM2RS@[4 * page + i] as int],
        src[4 * page + i],
    ) by {
        assert(STM2RS@[page * 4 + i] < dst.len());
        assert(page * 4 + i == 4 * page + i);
        let t = STM2RS@[4 * page + i] as int;
        assert(0 <= t < dst.len());
        assert(KEYMAP@[t] == 4 * page + i);
        assert(in_key_page(t, page));
        assert(slot_bytes(f, i) =~= spec_key_bytes(kind, src[4 * page + i]));
        lemma_key_bytes_roundtrip(kind, dst[t], src[4 * page + i]);
    }
}

/// The window of readings never grows past `ADC_WINDOW` readings once it
/// holds no more than that.
pub proof fn lemma_adc_window_bounded(w: Seq<u32>, ba: Seq<u8>, monitor: u32)
    requires
        w.len() <= ADC_WINDOW,
    ensures
        spec_adc_window(w, ba, monitor).len() <= ADC_WINDOW,
{
}

/// What an input report carries is told by its id and first byte alone: on
/// the board's report id, first bytes 0..16 carry analog readings, 16..32
/// trigger settings, 32..48 lighting, 48..64 bindings, and anything from 64
/// on, or any other report id, carries nothing the tool reads.
pub proof fn lemma_classify_ranges(report_id: u8, ba: Seq<u8>)
    requires
        ba.len() >= 1,
    ensures
        report_id != 2 ==> spec_classify(report_id, ba) == InputReport::Ignored,
        report_id == 2 && ba[0] < 16 ==> spec_classify(report_id, ba) == InputReport::Adc,
        report_id == 2 && 16 <= ba[0] < 32 ==> spec_classify(report_id, ba)
            == InputReport::KeyPage(PageKind::Performance),
        report_id == 2 && 32 <= ba[0] < 48 ==> spec_classify(report_id, ba)
            == InputReport::KeyPage(PageKind::Rgb),
        report_id == 2 && 48 <= ba[0] < 64 ==> spec_classify(report_id, ba)
            == InputReport::KeyPage(PageKind::Keymap),
        report_id == 2 && 64 <= ba[0] ==> spec_classify(report_id, ba) == InputReport::Ignored,
{
}

/// The four bytes of a key in an input report, read as numbers: the mode is
/// the top bit of the first byte and the first travel its low seven bits, the
/// other travels are the other bytes; the lighting word is the four bytes in
/// base 256, high byte first; each binding is two bytes in base 256, high
/// byte first, read as a signed 16-bit number. Nothing else of the key
/// changes.
pub proof fn lemma_update_key_numbers(k: Key, x: Seq<u8>)
    requires
        x.len() == 4,
    ensures
        ({
            let p = spec_update_key(PageKind::Performance, k, x);
            &&& p.mode == x[0] / 128
            &&& p.value == ((x[0] % 128) as u32, x[1] as u32, x[2] as u32, x[3] as u32)
            &&& p.bind_key == k.bind_key && p.rgb_raw == k.rgb_raw
            &&& p.index == k.index && p.stm32_index == k.stm32_index && p.position == k.position
            &&& p.size == k.size && p.selected == k.selected && p.adc_value == k.adc_value
        }),
        ({
            let r = spec_update_key(PageKind::Rgb, k, x);
            &&& r.rgb_raw == x[0] * 16777216 + x[1] * 65536 + x[2] * 256 + x[3]
            &&& r.mode == k.mode && r.value == k.value && r.bind_key == k.bind_key
            &&& r.index == k.index && r.stm32_index == k.stm32_index && r.position == k.position
            &&& r.size == k.size && r.selected == k.selected && r.adc_value == k.adc_value
        }),
        ({
            let b = spec_update_key(PageKind::Keymap, k, x);
            let hi = x[0] * 256 + x[1];
            let lo = x[2] * 256 + x[3];
            &&& b.bind_key.0 == (if hi < 32768 { hi } else { hi - 65536 })
            &&& b.bind_key.1 == (if lo < 32768 { lo } else { lo - 65536 })
            &&& b.mode == k.mode && b.value == k.value && b.rgb_raw == k.rgb_raw
            &&& b.index == k.index && b.stm32_index == k.stm32_index && b.position == k.position
            &&& b.size == k.size && b.selected == k.selected && b.adc_value == k.adc_value
        }),
{
    let x0 = x[0];
    let x1 = x[1];
    let x2 = x[2];
    let x3 = x[3];
    assert((x0 >> 7u8) as u32 == x0 / 128 && (x0 & 0x7fu8) as u32 == x0 % 128) by (bit_vector);
    assert(((x0 as u32) << 24u32 | (x1 as u32) << 16u32 | (x2 as u32) << 8u32 | x3 as u32) as int
        == x0 * 16777216 + x1 * 65536 + x2 * 256 + x3) by (bit_vector);
    assert(((x0 as u16) << 8u16 | x1 as u16) as i16 as int == (if x0 * 256 + x1 < 32768 {
        x0 * 256 + x1
    } else {
        x0 * 256 + x1 - 65536
    })) by (bit_vector);
    assert(((x2 as u16) << 8u16 | x3 as u16) as i16 as int == (if x2 * 256 + x3 < 32768 {
        x2 * 256 + x3
    } else {
        x2 * 256 + x3 - 65536
    })) by (bit_vector);
}

/// An input page of four keys lands on the keys whose scan indices are
/// `4 * page` to `4 * page + 3`: the key with scan index `4 * page + j` takes
/// bytes `1 + 4 * j` to `4 + 4 * j`, and every key with a scan index outside
/// the page keeps its settings.
pub proof fn lemma_key_page_targets(kind: PageKind, keys: Seq<Key>, ba: Seq<u8>)
    requires
        ba.len() >= 17,
        page_fits(keys.len() as int, (ba[0] % 16) as int),
    ensures
        spec_apply_key_page(kind, keys, ba).len() == keys.len(),
        forall|j: int|
            0 <= j < 4 ==> #[trigger] spec_apply_key_page(kind, keys, ba)[STM2RS@[(ba[0] % 16) * 4
                + j] as int] == spec_update_key(
                kind,
                keys[STM2RS@[(ba[0] % 16) * 4 + j] as int],
                ba.subrange(1 + 4 * j, 5 + 4 * j),
            ),
        forall|i: int|
            0 <= i < keys.len() && !(i < 64 && (ba[0] % 16) * 4 <= KEYMAP@[i] < (ba[0] % 16) * 4 + 4)
                ==> #[trigger] spec_apply_key_page(kind, keys, ba)[i] == keys[i],
{
    lemma_index_maps_inverse();
    let p = (ba[0] % 16) as int;
    assert forall|j: int| 0 <= j < 4 implies #[trigger] spec_apply_key_page(kind, keys, ba)[STM2RS@[p
        * 4 + j] as int] == spec_update_key(
        kind,
        keys[STM2RS@[p * 4 + j] as int],
        ba.subrange(1 + 4 * j, 5 + 4 * j),
    ) by {
        assert(STM2RS@[p * 4 + j] < keys.len());
        assert(KEYMAP@[STM2RS@[p * 4 + j] as int] == p * 4 + j);
    }
}

/// An analog page lands on the keys whose scan indices are `8 * page` to
/// `8 * page + 7`: the key with scan index `8 * page + j` reads bytes
/// `1 + 2 * j` and `2 + 2 * j` as a number in base 256, high byte first;
/// every other key keeps its reading.
pub proof fn lemma_adc_targets(readings: Seq<u32>, ba: Seq<u8>)
    requires
        ba.len() >= 17,
        ba[0] % 16 < 8,
        readings.len() == 64,
    ensures
        spec_adc_array(readings, ba).len() == 64,
        forall|j: int|
            0 <= j < 8 ==> #[trigger] spec_adc_array(readings, ba)[STM2RS@[(ba[0] % 16) * 8 + j] as int]
                == ba[1 + 2 * j] * 256 + ba[2 + 2 * j],
        forall|i: int|
            0 <= i < 64 && !((ba[0] % 16) * 8 <= KEYMAP@[i] < (ba[0] % 16) * 8 + 8)
                ==> #[trigger] spec_adc_array(readings, ba)[i] == readings[i],
{
    lemma_index_maps_inverse();
    let p = (ba[0] % 16) as int;
    assert forall|j: int| 0 <= j < 8 implies #[trigger] spec_adc_array(readings, ba)[STM2RS@[p * 8
        + j] as int] == ba[1 + 2 * j] * 256 + ba[2 + 2 * j] by {
        assert(KEYMAP@[STM2RS@[p * 8 + j] as int] == p * 8 + j);
    }
}

/// The bytes of a frame as numbers: the page byte is the page plus 0 for
/// trigger settings, 16 for lighting, 32 for bindings; each key takes four
/// bytes, in screen order. Trigger settings: the first travel (under 128)
/// plus 128 for mode 1, then the other travels (each under 256). Lighting:
/// the word in base 256, high byte first. Bindings: each code as an unsigned
/// 16-bit number in base 256, high byte first.
pub proof fn lemma_frame_numbers(kind: PageKind, keys: Seq<Key>, page: int, i: int)
    requires
        0 <= page < 224,
        4 * page + 4 <= keys.len(),
        0 <= i < 4,
    ensures
        ({
            let f = spec_frame(kind, keys, page);
            let k = keys[4 * page + i];
            &&& f.len() == 17
            &&& kind == PageKind::Performance ==> f[0] == page
            &&& kind == PageKind::Rgb ==> f[0] == page + 16
            &&& kind == PageKind::Keymap ==> f[0] == page + 32
            &&& kind == PageKind::Performance && k.mode < 2 && k.value.0 < 128 && k.value.1 < 256
                && k.value.2 < 256 && k.value.3 < 256 ==> {
                &&& f[1 + 4 * i] == k.value.0 + 128 * k.mode
                &&& f[2 + 4 * i] == k.value.1
                &&& f[3 + 4 * i] == k.value.2
                &&& f[4 + 4 * i] == k.value.3
            }
            &&& kind == PageKind::Rgb ==> {
                &&& f[1 + 4 * i] == k.rgb_raw / 16777216
                &&& f[2 + 4 * i] == (k.rgb_raw / 65536) % 256
                &&& f[3 + 4 * i] == (k.rgb_raw / 256) % 256
                &&& f[4 + 4 * i] == k.rgb_raw % 256
            }
            &&& kind == PageKind::Keymap ==> {
                let a = if k.bind_key.0 < 0 { k.bind_key.0 + 65536 } else { k.bind_key.0 as int };
                let b = if k.bind_key.1 < 0 { k.bind_key.1 + 65536 } else { k.bind_key.1 as int };
                &&& f[1 + 4 * i] == a / 256
                &&& f[2 + 4 * i] == a % 256
                &&& f[3 + 4 * i] == b / 256
                &&& f[4 + 4 * i] == b % 256
            }
        }),
{
    let f = spec_frame(kind, keys, page);
    let k = keys[4 * page + i];
    assert((page as u8) as int == page);
    assert(f.subrange(1 + 4 * i, 5 + 4 * i) =~= spec_key_bytes(kind, k));
    assert(f[1 + 4 * i] == f.subrange(1 + 4 * i, 5 + 4 * i)[0]);
    assert(f[2 + 4 * i] == f.subrange(1 + 4 * i, 5 + 4 * i)[1]);
    assert(f[3 + 4 * i] == f.subrange(1 + 4 * i, 5 + 4 * i)[2]);
    assert(f[4 + 4 * i] == f.subrange(1 + 4 * i, 5 + 4 * i)[3]);
    let m = k.mode;
    let v0 = k.value.0;
    let v1 = k.value.1;
    let v2 = k.value.2;
    let v3 = k.value.3;
    let x = k.rgb_raw;
    let b0 = k.bind_key.0;
    let b1 = k.bind_key.1;
    assert(m < 2 && v0 < 128 ==> ((v0 as u8) | ((m << 7u32) as u8)) as int == v0 + 128 * m)
        by (bit_vector);
    assert(v1 < 256 ==> (v1 as u8) as int == v1) by (bit_vector);
    assert(v2 < 256 ==> (v2 as u8) as int == v2) by (bit_vector);
    assert(v3 < 256 ==> (v3 as u8) as int == v3) by (bit_vector);
    assert(((x >> 24u32) as u8) as int == x / 16777216 && ((x >> 16u32) as u8) as int == (x / 65536)
        % 256 && ((x >> 8u32) as u8) as int == (x / 256) % 256 && (x as u8) as int == x % 256)
        by (bit_vector);
    assert(((b0 >> 8i16) as u8) as int == (if b0 < 0 { b0 + 65536 } else { b0 as int }) / 256
        && (b0 as u8) as int == (if b0 < 0 { b0 + 65536 } else { b0 as int }) % 256) by (bit_vector);
    assert(((b1 >> 8i16) as u8) as int == (if b1 < 0 { b1 + 65536 } else { b1 as int }) / 256
        && (b1 as u8) as int == (if b1 < 0 { b1 + 65536 } else { b1 as int }) % 256) by (bit_vector);
}

} // verus!

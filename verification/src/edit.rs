//! The edits that the settings pages make to the keys. An edit made on a
//! page goes to the selected keys, or to every key when none is selected.

use vstd::prelude::*;
use vstd::string::*;
use crate::keyboard::{Key, Keyboard};
use crate::lighting::{RGB_GLOBAL_MODE, RGB_MODE, lemma_rgb_global_mode_names_distinct, lemma_rgb_mode_names_distinct};
use crate::text::{hex_decode, parse_u32, spec_decimal, spec_hex_decode};
use vstd::utf8::encode_utf8;

verus! {

/// One of the four travels of a key.
#[derive(Debug, Clone, Copy, PartialEq, Eq, Structural)]
pub enum Travel {
    /// Normal trigger travel.
    Activation,
    /// Dynamic trigger travel.
    Trigger,
    /// Dynamic reset travel.
    Reset,
    /// Lower dead zone.
    LowerDeadzone,
}

/// An edit of the settings of a key.
#[derive(Debug, Clone, Copy, PartialEq, Eq, Structural)]
pub enum KeyEdit {
    /// Sets the color (red, green, blue) of the lighting word.
    Color(u8, u8, u8),
    /// Sets the global lighting mode, on every key.
    GlobalMode(u32),
    /// Sets the key's lighting mode.
    RgbMode(u32),
    /// Sets one travel.
    Travel(Travel, u32),
    /// Sets the trigger mode.
    TriggerMode(u32),
}

/// Number of selected keys.
pub open spec fn spec_selected_count(keys: Seq<Key>) -> nat
    decreases keys.len(),
{
    if keys.len() == 0 {
        0
    } else {
        spec_selected_count(keys.drop_last()) + if keys.last().selected {
            1nat
        } else {
            0nat
        }
    }
}

/// Edit `edit` goes to key `k` when `selected` keys are selected: the global
/// lighting mode goes to every key, any other edit to the selected keys, or
/// to every key when none is.
pub open spec fn edit_applies(edit: KeyEdit, k: Key, selected: nat) -> bool {
    match edit {
        KeyEdit::GlobalMode(_) => true,
        _ => k.selected || selected == 0,
    }
}

/// Key `k` after edit `edit`.
pub open spec fn spec_edit_key(edit: KeyEdit, k: Key) -> Key {
    match edit {
        KeyEdit::Color(r, g, b) => Key {
            rgb_raw: k.rgb_raw & 0xff000000u32 | (r as u32) << 16u32 | (g as u32) << 8u32 | b as u32,
            ..k
        },
        KeyEdit::GlobalMode(m) => Key { rgb_raw: k.rgb_raw & 0x0fffffffu32 | m << 28u32, ..k },
        KeyEdit::RgbMode(m) => Key { rgb_raw: k.rgb_raw & 0xf0ffffffu32 | m << 24u32, ..k },
        KeyEdit::Travel(t, v) => Key {
            value: match t {
                Travel::Activation => (v, k.value.1, k.value.2, k.value.3),
                Travel::Trigger => (k.value.0, v, k.value.2, k.value.3),
                Travel::Reset => (k.value.0, k.value.1, v, k.value.3),
                Travel::LowerDeadzone => (k.value.0, k.value.1, k.value.2, v),
            },
            ..k
        },
        KeyEdit::TriggerMode(m) => Key { mode: m, ..k },
    }
}

/// The keys after edit `edit`.
pub open spec fn spec_edit_keys(keys: Seq<Key>, edit: KeyEdit) -> Seq<Key> {
    Seq::new(
        keys.len(),
        |i: int|
            if edit_applies(edit, keys[i], spec_selected_count(keys)) {
                spec_edit_key(edit, keys[i])
            } else {
                keys[i]
            },
    )
}

/// Counts the selected keys.
pub fn selected_count(keys: &Vec<Key>) -> (n: usize)
    ensures
        n == spec_selected_count(keys@),
{
    let mut n: usize = 0;
    let mut i: usize = 0;
    while i < keys.len()
        invariant
            i <= keys@.len(),
            n <= i,
            n == spec_selected_count(keys@.take(i as int)),
        decreases keys@.len() - i,
    {
        assert(keys@.take(i + 1).drop_last() =~= keys@.take(i as int));
        if keys[i].selected {
            n = n + 1;
        }
        i = i + 1;
    }
    assert(keys@.take(i as int) =~= keys@);
    n
}

fn edit_key(edit: KeyEdit, k: Key) -> (r: Key)
    ensures
        r == spec_edit_key(edit, k),
{
    match edit {
        KeyEdit::Color(r, g, b) => Key {
            rgb_raw: k.rgb_raw & 0xff000000 | (r as u32) << 16 | (g as u32) << 8 | b as u32,
            ..k
        },
        KeyEdit::GlobalMode(m) => Key { rgb_raw: k.rgb_raw & 0x0fffffff | m << 28, ..k },
        KeyEdit::RgbMode(m) => Key { rgb_raw: k.rgb_raw & 0xf0ffffff | m << 24, ..k },
        KeyEdit::Travel(t, v) => Key {
            value: match t {
                Travel::Activation => (v, k.value.1, k.value.2, k.value.3),
                Travel::Trigger => (k.value.0, v, k.value.2, k.value.3),
                Travel::Reset => (k.value.0, k.value.1, v, k.value.3),
                Travel::LowerDeadzone => (k.value.0, k.value.1, k.value.2, v),
            },
            ..k
        },
        KeyEdit::TriggerMode(m) => Key { mode: m, ..k },
    }
}

/// Applies edit `edit` to the keys it goes to.
pub fn edit_keys(keyboard: &mut Keyboard, edit: KeyEdit)
    ensures
        final(keyboard).keys@ == spec_edit_keys(old(keyboard).keys@, edit),
{
    let ghost old_keys = keyboard.keys@;
    let n = selected_count(&keyboard.keys);
    let mut i: usize = 0;
    while i < keyboard.keys.len()
        invariant
            keyboard.keys@.len() == old_keys.len(),
            n == spec_selected_count(old_keys),
            i <= old_keys.len(),
            forall|j: int|
                #![trigger keyboard.keys@[j]]
                0 <= j < old_keys.len() ==> keyboard.keys@[j] == if j < i && edit_applies(
                    edit,
                    old_keys[j],
                    n as nat,
                ) {
                    spec_edit_key(edit, old_keys[j])
                } else {
                    old_keys[j]
                },
        decreases old_keys.len() - i,
    {
        let k = keyboard.keys[i];
        let applies = match edit {
            KeyEdit::GlobalMode(_) => true,
            _ => k.selected || n == 0,
        };
        if applies {
            keyboard.keys.set(i, edit_key(edit, k));
        }
        i = i + 1;
    }
    assert(keyboard.keys@ =~= spec_edit_keys(old_keys, edit));
}

/// The color that a color input's value sets: the hex digits after its
/// first character, or white where they are no hex bytes.
pub open spec fn spec_color_of(value: Seq<char>) -> (u8, u8, u8) {
    match spec_hex_decode(encode_utf8(value.drop_first())) {
        Some(c) => (c[0], c[1], c[2]),
        None => (255, 255, 255),
    }
}

/// A color input's value can be read: its first character is one byte long,
/// and the hex digits after it, where they are hex bytes, give at least the
/// three bytes of a color.
pub open spec fn color_value_readable(value: Seq<char>) -> bool {
    &&& value.len() >= 1
    &&& '\0' <= value[0] <= '\u{7f}'
    &&& spec_hex_decode(encode_utf8(value.drop_first())) matches Some(c) ==> c.len() >= 3
}

/// Sets the color of the keys that edits go to, from the value of a color
/// input (`#rrggbb`).
pub fn apply_color(keyboard: &mut Keyboard, value: &str)
    requires
        color_value_readable(value@),
    ensures
        final(keyboard).keys@ == spec_edit_keys(
            old(keyboard).keys@,
            KeyEdit::Color(spec_color_of(value@).0, spec_color_of(value@).1, spec_color_of(value@).2),
        ),
{
    let n = value.unicode_len();
    let tail = value.substring_char(1, n);
    assert(tail@ =~= value@.drop_first());
    let decoded = hex_decode(tail.as_bytes());
    let (r, g, b) = match decoded {
        Some(c) => (c[0], c[1], c[2]),
        None => (255u8, 255u8, 255u8),
    };
    edit_keys(keyboard, KeyEdit::Color(r, g, b));
}

/// The global lighting mode that a mode input's value names, the individual
/// mode where it names none.
pub open spec fn spec_global_mode_of(value: Seq<char>) -> RGB_GLOBAL_MODE {
    if exists|m: RGB_GLOBAL_MODE| m.spec_name() == value {
        choose|m: RGB_GLOBAL_MODE| m.spec_name() == value
    } else {
        RGB_GLOBAL_MODE::RGB_GLOBAL_MODE_INDIVIDUAL
    }
}

/// The key lighting mode that a mode input's value names, the static mode
/// where it names none.
pub open spec fn spec_rgb_mode_of_name(value: Seq<char>) -> RGB_MODE {
    if exists|m: RGB_MODE| m.spec_name() == value {
        choose|m: RGB_MODE| m.spec_name() == value
    } else {
        RGB_MODE::STATIC
    }
}

/// Sets the global lighting mode named by `value` on every key.
pub fn apply_global_mode(keyboard: &mut Keyboard, value: &str)
    ensures
        final(keyboard).keys@ == spec_edit_keys(
            old(keyboard).keys@,
            KeyEdit::GlobalMode(spec_global_mode_of(value@).spec_index()),
        ),
{
    let mode = match RGB_GLOBAL_MODE::from_name(value) {
        Some(m) => m,
        None => RGB_GLOBAL_MODE::RGB_GLOBAL_MODE_INDIVIDUAL,
    };
    proof {
        if exists|m: RGB_GLOBAL_MODE| m.spec_name() == value@ {
            let m = choose|m: RGB_GLOBAL_MODE| m.spec_name() == value@;
            assert(m.spec_name() == value@);
        }
    }
    edit_keys(keyboard, KeyEdit::GlobalMode(mode.index()));
}

/// Sets the key lighting mode named by `value` on the keys that edits go to.
pub fn apply_rgb_mode(keyboard: &mut Keyboard, value: &str)
    ensures
        final(keyboard).keys@ == spec_edit_keys(
            old(keyboard).keys@,
            KeyEdit::RgbMode(spec_rgb_mode_of_name(value@).spec_index()),
        ),
{
    let mode = match RGB_MODE::from_name(value) {
        Some(m) => m,
        None => RGB_MODE::STATIC,
    };
    proof {
        if exists|m: RGB_MODE| m.spec_name() == value@ {
            let m = choose|m: RGB_MODE| m.spec_name() == value@;
            assert(m.spec_name() == value@);
        }
    }
    edit_keys(keyboard, KeyEdit::RgbMode(mode.index()));
}

/// A number input's value can be read: it is a decimal number that fits
/// in 32 bits.
pub open spec fn number_value_readable(text: Seq<char>) -> bool {
    spec_decimal(text) matches Some(n) && n <= u32::MAX
}

/// A travel is set only to a value from 1 to 100.
pub open spec fn travel_in_range(v: nat) -> bool {
    0 < v <= 100
}

/// Sets travel `which` of the keys that edits go to, from the value of a
/// number input, when that value is from 1 to 100; tells whether it did.
pub fn set_travel(keyboard: &mut Keyboard, which: Travel, text: &str) -> (applied: bool)
    requires
        number_value_readable(text@),
    ensures
        applied == travel_in_range(spec_decimal(text@).unwrap()),
        applied ==> final(keyboard).keys@ == spec_edit_keys(
            old(keyboard).keys@,
            KeyEdit::Travel(which, spec_decimal(text@).unwrap() as u32),
        ),
        !applied ==> final(keyboard).keys@ == old(keyboard).keys@,
{
    let value = match parse_u32(text) {
        Some(v) => v,
        None => 0,
    };
    if value > 0 && value <= 100 {
        edit_keys(keyboard, KeyEdit::Travel(which, value));
        true
    } else {
        false
    }
}

/// The three fields of a lighting word read back what an edit wrote and
/// keep what it did not touch: a color edit writes the three low bytes and
/// keeps the mode byte; a global mode edit writes bits 31..28 and keeps the
/// rest; a key mode edit writes bits 27..24 and keeps the rest.
pub proof fn lemma_lighting_fields(k: Key, r: u8, g: u8, b: u8, m: u32)
    requires
        m < 16,
    ensures
        spec_edit_key(KeyEdit::Color(r, g, b), k).rgb_raw & 0x00ffffffu32 == (r as u32) << 16u32 | (
        g as u32) << 8u32 | b as u32,
        spec_edit_key(KeyEdit::Color(r, g, b), k).rgb_raw >> 24u32 == k.rgb_raw >> 24u32,
        spec_edit_key(KeyEdit::GlobalMode(m), k).rgb_raw >> 28u32 == m,
        spec_edit_key(KeyEdit::GlobalMode(m), k).rgb_raw & 0x0fffffffu32 == k.rgb_raw & 0x0fffffffu32,
        (spec_edit_key(KeyEdit::RgbMode(m), k).rgb_raw >> 24u32) & 0x0fu32 == m,
        spec_edit_key(KeyEdit::RgbMode(m), k).rgb_raw & 0xf0ffffffu32 == k.rgb_raw & 0xf0ffffffu32,
{
    let x = k.rgb_raw;
    assert((x & 0xff000000u32 | (r as u32) << 16u32 | (g as u32) << 8u32 | b as u32) & 0x00ffffffu32
        == (r as u32) << 16u32 | (g as u32) << 8u32 | b as u32) by (bit_vector);
    assert((x & 0xff000000u32 | (r as u32) << 16u32 | (g as u32) << 8u32 | b as u32) >> 24u32 == x
        >> 24u32) by (bit_vector);
    assert((x & 0x0fffffffu32 | m << 28u32) >> 28u32 == m && (x & 0x0fffffffu32 | m << 28u32)
        & 0x0fffffffu32 == x & 0x0fffffffu32) by (bit_vector)
        requires
            m < 16,
    ;
    assert(((x & 0xf0ffffffu32 | m << 24u32) >> 24u32) & 0x0fu32 == m && (x & 0xf0ffffffu32 | m
        << 24u32) & 0xf0ffffffu32 == x & 0xf0ffffffu32) by (bit_vector)
        requires
            m < 16,
    ;
}

/// An edit never changes which keys are selected, so a second edit made
/// right after goes to the same keys.
pub proof fn lemma_edit_keeps_selection(keys: Seq<Key>, edit: KeyEdit)
    ensures
        spec_edit_keys(keys, edit).len() == keys.len(),
        forall|i: int|
            0 <= i < keys.len() ==> #[trigger] spec_edit_keys(keys, edit)[i].selected
                == keys[i].selected,
        spec_selected_count(spec_edit_keys(keys, edit)) == spec_selected_count(keys),
{
    lemma_same_selection_same_count(keys, spec_edit_keys(keys, edit));
}

/// Two boards whose keys are selected alike have as many selected keys.
pub proof fn lemma_same_selection_same_count(a: Seq<Key>, b: Seq<Key>)
    requires
        a.len() == b.len(),
        forall|i: int| 0 <= i < a.len() ==> #[trigger] a[i].selected == b[i].selected,
    ensures
        spec_selected_count(a) == spec_selected_count(b),
    decreases a.len(),
{
    if a.len() > 0 {
        assert forall|i: int| 0 <= i < a.drop_last().len() implies #[trigger] a.drop_last()[i].selected
            == b.drop_last()[i].selected by {
            assert(a[i].selected == b[i].selected);
        }
        lemma_same_selection_same_count(a.drop_last(), b.drop_last());
    }
}

/// At most one key is selected where no key but `index` is.
pub proof fn lemma_single_selection(keys: Seq<Key>, index: int)
    requires
        forall|j: int| 0 <= j < keys.len() && j != index ==> !(#[trigger] keys[j]).selected,
    ensures
        spec_selected_count(keys) <= 1,
        !(0 <= index < keys.len()) ==> spec_selected_count(keys) == 0,
    decreases keys.len(),
{
    if keys.len() > 0 {
        let s = keys.drop_last();
        assert forall|j: int| 0 <= j < s.len() && j != index implies !(#[trigger] s[j]).selected by {
            assert(!keys[j].selected);
        }
        lemma_single_selection(s, index);
        if index == keys.len() - 1 {
            assert forall|j: int| 0 <= j < s.len() && j != keys.len() implies !(#[trigger] s[j]).selected by {
                assert(!keys[j].selected);
            }
            lemma_single_selection(s, keys.len() as int);
        }
    }
}

/// No key is selected exactly when the count of selected keys is zero.
pub proof fn lemma_selected_count_zero(keys: Seq<Key>)
    ensures
        (spec_selected_count(keys) == 0) <==> (forall|j: int|
            0 <= j < keys.len() ==> !(#[trigger] keys[j]).selected),
    decreases keys.len(),
{
    if keys.len() > 0 {
        let s = keys.drop_last();
        lemma_selected_count_zero(s);
        if spec_selected_count(keys) == 0 {
            assert forall|j: int| 0 <= j < keys.len() implies !(#[trigger] keys[j]).selected by {
                if j < keys.len() - 1 {
                    assert(s[j] == keys[j]);
                }
            }
        } else {
            if forall|j: int| 0 <= j < keys.len() ==> !(#[trigger] keys[j]).selected {
                assert forall|j: int| 0 <= j < s.len() implies !(#[trigger] s[j]).selected by {
                    assert(s[j] == keys[j]);
                }
                assert(!keys[keys.len() - 1].selected);
            }
        }
    }
}

/// Who an edit goes to. While some key is selected, an edit other than the
/// global lighting mode (a color, a key lighting mode, a travel, a trigger
/// mode) leaves every unselected key exactly as it was and changes the
/// selected ones; while no key is selected it changes every key; the global
/// lighting mode always changes every key. Which keys are selected never
/// changes.
pub proof fn lemma_edit_targets(keys: Seq<Key>, edit: KeyEdit, i: int)
    requires
        0 <= i < keys.len(),
    ensures
        spec_edit_keys(keys, edit).len() == keys.len(),
        spec_edit_keys(keys, edit)[i].selected == keys[i].selected,
        !(edit is GlobalMode) && (exists|j: int| 0 <= j < keys.len() && (#[trigger] keys[j]).selected)
            && !keys[i].selected ==> spec_edit_keys(keys, edit)[i] == keys[i],
        edit is GlobalMode || keys[i].selected || (forall|j: int|
            0 <= j < keys.len() ==> !(#[trigger] keys[j]).selected) ==> spec_edit_keys(keys, edit)[i]
            == spec_edit_key(edit, keys[i]),
{
    lemma_selected_count_zero(keys);
    if exists|j: int| 0 <= j < keys.len() && (#[trigger] keys[j]).selected {
        let j = choose|j: int| 0 <= j < keys.len() && (#[trigger] keys[j]).selected;
        assert(keys[j].selected);
    }
}

/// What each edit writes into a key, as numbers: a color puts red, green and
/// blue in base 256 under the unchanged top byte; a global lighting mode puts
/// its number (under 16) times 2^28 over the unchanged low 28 bits; a key
/// lighting mode puts its number (under 16) times 2^24 between the unchanged
/// top four bits and low 24 bits; a travel edit sets that one travel; a
/// trigger mode edit sets the mode. Every other field keeps its value.
pub proof fn lemma_edit_key_numbers(k: Key, edit: KeyEdit)
    requires
        edit matches KeyEdit::GlobalMode(m) ==> m < 16,
        edit matches KeyEdit::RgbMode(m) ==> m < 16,
    ensures
        ({
            let e = spec_edit_key(edit, k);
            &&& e.index == k.index && e.stm32_index == k.stm32_index && e.bind_key == k.bind_key
            &&& e.position == k.position && e.size == k.size && e.selected == k.selected
            &&& e.adc_value == k.adc_value
            &&& match edit {
                KeyEdit::Color(r, g, b) => {
                    &&& e.rgb_raw == (k.rgb_raw / 16777216) * 16777216 + r * 65536 + g * 256 + b
                    &&& e.mode == k.mode && e.value == k.value
                },
                KeyEdit::GlobalMode(m) => {
                    &&& e.rgb_raw == m * 268435456 + k.rgb_raw % 268435456
                    &&& e.mode == k.mode && e.value == k.value
                },
                KeyEdit::RgbMode(m) => {
                    &&& e.rgb_raw == (k.rgb_raw / 268435456) * 268435456 + m * 16777216
                        + k.rgb_raw % 16777216
                    &&& e.mode == k.mode && e.value == k.value
                },
                KeyEdit::Travel(Travel::Activation, v) => {
                    &&& e.value == (v, k.value.1, k.value.2, k.value.3)
                    &&& e.mode == k.mode && e.rgb_raw == k.rgb_raw
                },
                KeyEdit::Travel(Travel::Trigger, v) => {
                    &&& e.value == (k.value.0, v, k.value.2, k.value.3)
                    &&& e.mode == k.mode && e.rgb_raw == k.rgb_raw
                },
                KeyEdit::Travel(Travel::Reset, v) => {
                    &&& e.value == (k.value.0, k.value.1, v, k.value.3)
                    &&& e.mode == k.mode && e.rgb_raw == k.rgb_raw
                },
                KeyEdit::Travel(Travel::LowerDeadzone, v) => {
                    &&& e.value == (k.value.0, k.value.1, k.value.2, v)
                    &&& e.mode == k.mode && e.rgb_raw == k.rgb_raw
                },
                KeyEdit::TriggerMode(m) => {
                    &&& e.mode == m
                    &&& e.value == k.value && e.rgb_raw == k.rgb_raw
                },
            }
        }),
{
    let x = k.rgb_raw;
    match edit {
        KeyEdit::Color(r, g, b) => {
            assert((x & 0xff000000u32 | (r as u32) << 16u32 | (g as u32) << 8u32 | b as u32) as int
                == (x / 16777216) * 16777216 + r * 65536 + g * 256 + b) by (bit_vector);
        },
        KeyEdit::GlobalMode(m) => {
            assert((x & 0x0fffffffu32 | m << 28u32) as int == m * 268435456 + x % 268435456)
                by (bit_vector)
                requires
                    m < 16,
            ;
        },
        KeyEdit::RgbMode(m) => {
            assert((x & 0xf0ffffffu32 | m << 24u32) as int == (x / 268435456) * 268435456 + m
                * 16777216 + x % 16777216) by (bit_vector)
                requires
                    m < 16,
            ;
        },
        _ => {},
    }
}

/// The number that the global lighting mode input writes for each name: the
/// place of the mode in the list OFF, INDIVIDUAL, WAVE, STRING,
/// FADING_STRING, DIAMOND_RIPPLE, FADING_DIAMOND_RIPPLE, JELLY; any other
/// name writes INDIVIDUAL's number, 1.
pub proof fn lemma_global_mode_numbers(value: Seq<char>)
    ensures
        value == "RGB_GLOBAL_MODE_OFF"@ ==> spec_global_mode_of(value).spec_index() == 0,
        value == "RGB_GLOBAL_MODE_INDIVIDUAL"@ ==> spec_global_mode_of(value).spec_index() == 1,
        value == "RGB_GLOBAL_MODE_WAVE"@ ==> spec_global_mode_of(value).spec_index() == 2,
        value == "RGB_GLOBAL_MODE_STRING"@ ==> spec_global_mode_of(value).spec_index() == 3,
        value == "RGB_GLOBAL_MODE_FADING_STRING"@ ==> spec_global_mode_of(value).spec_index() == 4,
        value == "RGB_GLOBAL_MODE_DIAMOND_RIPPLE"@ ==> spec_global_mode_of(value).spec_index() == 5,
        value == "RGB_GLOBAL_MODE_FADING_DIAMOND_RIPPLE"@ ==> spec_global_mode_of(value).spec_index()
            == 6,
        value == "RGB_GLOBAL_MODE_JELLY"@ ==> spec_global_mode_of(value).spec_index() == 7,
        value != "RGB_GLOBAL_MODE_OFF"@ && value != "RGB_GLOBAL_MODE_INDIVIDUAL"@ && value
            != "RGB_GLOBAL_MODE_WAVE"@ && value != "RGB_GLOBAL_MODE_STRING"@ && value
            != "RGB_GLOBAL_MODE_FADING_STRING"@ && value != "RGB_GLOBAL_MODE_DIAMOND_RIPPLE"@
            && value != "RGB_GLOBAL_MODE_FADING_DIAMOND_RIPPLE"@ && value
            != "RGB_GLOBAL_MODE_JELLY"@ ==> spec_global_mode_of(value).spec_index() == 1,
{
    lemma_rgb_global_mode_names_distinct();
    if exists|m: RGB_GLOBAL_MODE| m.spec_name() == value {
        let m = choose|m: RGB_GLOBAL_MODE| m.spec_name() == value;
        assert(m.spec_name() == value);
    }
    assert(RGB_GLOBAL_MODE::RGB_GLOBAL_MODE_OFF.spec_name() == "RGB_GLOBAL_MODE_OFF"@);
    assert(RGB_GLOBAL_MODE::RGB_GLOBAL_MODE_INDIVIDUAL.spec_name() == "RGB_GLOBAL_MODE_INDIVIDUAL"@);
    assert(RGB_GLOBAL_MODE::RGB_GLOBAL_MODE_WAVE.spec_name() == "RGB_GLOBAL_MODE_WAVE"@);
    assert(RGB_GLOBAL_MODE::RGB_GLOBAL_MODE_STRING.spec_name() == "RGB_GLOBAL_MODE_STRING"@);
    assert(RGB_GLOBAL_MODE::RGB_GLOBAL_MODE_FADING_STRING.spec_name()
        == "RGB_GLOBAL_MODE_FADING_STRING"@);
    assert(RGB_GLOBAL_MODE::RGB_GLOBAL_MODE_DIAMOND_RIPPLE.spec_name()
        == "RGB_GLOBAL_MODE_DIAMOND_RIPPLE"@);
    assert(RGB_GLOBAL_MODE::RGB_GLOBAL_MODE_FADING_DIAMOND_RIPPLE.spec_name()
        == "RGB_GLOBAL_MODE_FADING_DIAMOND_RIPPLE"@);
    assert(RGB_GLOBAL_MODE::RGB_GLOBAL_MODE_JELLY.spec_name() == "RGB_GLOBAL_MODE_JELLY"@);
}

/// The number that the key lighting mode input writes for each name: STATIC
/// 0, CYCLE 1, LINEAR 2, TRIGGER 3; any other name writes STATIC's 0.
pub proof fn lemma_rgb_mode_numbers(value: Seq<char>)
    ensures
        value == "STATIC"@ ==> spec_rgb_mode_of_name(value).spec_index() == 0,
        value == "CYCLE"@ ==> spec_rgb_mode_of_name(value).spec_index() == 1,
        value == "LINEAR"@ ==> spec_rgb_mode_of_name(value).spec_index() == 2,
        value == "TRIGGER"@ ==> spec_rgb_mode_of_name(value).spec_index() == 3,
        value != "STATIC"@ && value != "CYCLE"@ && value != "LINEAR"@ && value != "TRIGGER"@
            ==> spec_rgb_mode_of_name(value).spec_index() == 0,
{
    lemma_rgb_mode_names_distinct();
    if exists|m: RGB_MODE| m.spec_name() == value {
        let m = choose|m: RGB_MODE| m.spec_name() == value;
        assert(m.spec_name() == value);
    }
    assert(RGB_MODE::STATIC.spec_name() == "STATIC"@);
    assert(RGB_MODE::CYCLE.spec_name() == "CYCLE"@);
    assert(RGB_MODE::LINEAR.spec_name() == "LINEAR"@);
    assert(RGB_MODE::TRIGGER.spec_name() == "TRIGGER"@);
}

} // verus!

//! What the pages of the tool do on clicks, drags and drops, and what they
//! show of a key.

use vstd::prelude::*;
use crate::edit::{edit_keys, spec_edit_keys, number_value_readable, KeyEdit, spec_selected_count, lemma_single_selection};
use crate::keyboard::{Key, Keyboard, KEYBOARD_CHARS};
use crate::keycode::{KeyCode, lemma_index_code};
use crate::report::PageKind;
use crate::state::UiState;
use crate::text::{parse_u32, parse_usize, spec_decimal, str_eq};

verus! {

/// The pages of the tool.
#[derive(Debug, Clone, Copy, PartialEq, Eq, Structural)]
pub enum Page {
    Performance,
    Keymap,
    Rgb,
    Debug,
    Other,
}

/// The page at a path.
pub open spec fn spec_page(path: Seq<char>) -> Page {
    if path == "/performance"@ {
        Page::Performance
    } else if path == "/keymap"@ {
        Page::Keymap
    } else if path == "/rgb"@ {
        Page::Rgb
    } else if path == "/debug"@ {
        Page::Debug
    } else {
        Page::Other
    }
}

impl Page {
    /// The page at `path`.
    pub fn from_path(path: &str) -> (p: Page)
        ensures
            p == spec_page(path@),
    {
        if str_eq(path, "/performance") {
            Page::Performance
        } else if str_eq(path, "/keymap") {
            Page::Keymap
        } else if str_eq(path, "/rgb") {
            Page::Rgb
        } else if str_eq(path, "/debug") {
            Page::Debug
        } else {
            Page::Other
        }
    }
}

/// The keys after key `index` was clicked on the debug page: it toggles, and
/// every other key is deselected.
pub open spec fn spec_debug_click(keys: Seq<Key>, index: int) -> Seq<Key> {
    Seq::new(
        keys.len(),
        |i: int| Key { selected: if i == index { !keys[i].selected } else { false }, ..keys[i] },
    )
}

/// A click on key `index`. On the debug page the key becomes the monitored
/// key and the only candidate for selection; elsewhere its trigger mode is
/// shown and its selection toggles.
pub fn click_key(uistate: &mut UiState, keyboard: &mut Keyboard, index: usize, page: Page)
    requires
        page != Page::Debug ==> index < old(keyboard).keys@.len(),
    ensures
        page == Page::Debug ==> {
            &&& *final(uistate) == (UiState { key_monitor: index as u32, ..*old(uistate) })
            &&& final(keyboard).keys@ == spec_debug_click(old(keyboard).keys@, index as int)
        },
        page != Page::Debug ==> {
            &&& *final(uistate) == (UiState {
                mode: old(keyboard).keys@[index as int].mode,
                ..*old(uistate)
            })
            &&& final(keyboard).keys@ == old(keyboard).keys@.update(
                index as int,
                (Key {
                    selected: !old(keyboard).keys@[index as int].selected,
                    ..old(keyboard).keys@[index as int]
                }),
            )
        },
{
    if page == Page::Debug {
        uistate.key_monitor = #[verifier::truncate] (index as u32);
        let ghost old_keys = keyboard.keys@;
        let mut i: usize = 0;
        while i < keyboard.keys.len()
            invariant
                keyboard.keys@.len() == old_keys.len(),
                i <= old_keys.len(),
                forall|j: int|
                    #![trigger keyboard.keys@[j]]
                    0 <= j < old_keys.len() ==> keyboard.keys@[j] == if j < i {
                        spec_debug_click(old_keys, index as int)[j]
                    } else {
                        old_keys[j]
                    },
            decreases old_keys.len() - i,
        {
            let k = keyboard.keys[i];
            let selected = if i == index {
                !k.selected
            } else {
                false
            };
            keyboard.keys.set(i, Key { selected, ..k });
            i = i + 1;
        }
        assert(keyboard.keys@ =~= spec_debug_click(old_keys, index as int));
    } else {
        let k = keyboard.keys[index];
        uistate.mode = k.mode;
        keyboard.keys.set(index, Key { selected: !k.selected, ..k });
    }
}

/// A drag enters key `index`: the key is selected.
pub fn drag_enter(keyboard: &mut Keyboard, index: usize)
    requires
        index < old(keyboard).keys@.len(),
    ensures
        final(keyboard).keys@ == old(keyboard).keys@.update(
            index as int,
            (Key { selected: true, ..old(keyboard).keys@[index as int] }),
        ),
{
    let k = keyboard.keys[index];
    keyboard.keys.set(index, Key { selected: true, ..k });
}

/// A drag leaves key `index`: the key is deselected.
pub fn drag_leave(keyboard: &mut Keyboard, index: usize)
    requires
        index < old(keyboard).keys@.len(),
    ensures
        final(keyboard).keys@ == old(keyboard).keys@.update(
            index as int,
            (Key { selected: false, ..old(keyboard).keys@[index as int] }),
        ),
{
    let k = keyboard.keys[index];
    keyboard.keys.set(index, Key { selected: false, ..k });
}

/// The number of the key code at place `index` of the list of codes, or of
/// the reserved code where there is none.
pub open spec fn spec_dropped_code(index: int) -> i16 {
    match KeyCode::spec_from_index(index) {
        Some(k) => k.spec_code(),
        None => 0,
    }
}

/// The binding pair of a key after `code` was bound on layer `layer`: layer 0
/// and layer 1 take the code, any other layer binds nothing.
pub open spec fn spec_bind(pair: (i16, i16), layer: u32, code: i16) -> (i16, i16) {
    if layer == 0 {
        (code, pair.1)
    } else if layer == 1 {
        (pair.0, code)
    } else {
        pair
    }
}

/// The keys after the code at place `index` was dropped on them: every
/// selected key takes the code on the edited layer and is deselected.
pub open spec fn spec_drop(keys: Seq<Key>, layer: u32, index: int) -> Seq<Key> {
    Seq::new(
        keys.len(),
        |i: int|
            if keys[i].selected {
                Key {
                    selected: false,
                    bind_key: spec_bind(keys[i].bind_key, layer, spec_dropped_code(index)),
                    ..keys[i]
                }
            } else {
                keys[i]
            },
    )
}

/// A drag-data value can be read: it is a decimal number that fits in a
/// `usize`.
pub open spec fn index_value_readable(data: Seq<char>) -> bool {
    spec_decimal(data) matches Some(n) && n <= usize::MAX
}

/// A key code, given by its place in the list of codes as drag data, is
/// dropped: it is bound to the selected keys on the edited layer.
pub fn drop_keycode(uistate: &UiState, keyboard: &mut Keyboard, data: &str)
    requires
        index_value_readable(data@),
    ensures
        final(keyboard).keys@ == spec_drop(
            old(keyboard).keys@,
            uistate.layer,
            spec_decimal(data@).unwrap() as int,
        ),
{
    let index = match parse_usize(data) {
        Some(i) => i,
        None => 0,
    };
    let code: i16 = match KeyCode::from_index(index) {
        Some(k) => k.code(),
        None => 0,
    };
    let layer = uistate.layer;
    let ghost old_keys = keyboard.keys@;
    let mut i: usize = 0;
    while i < keyboard.keys.len()
        invariant
            keyboard.keys@.len() == old_keys.len(),
            i <= old_keys.len(),
            code == spec_dropped_code(index as int),
            forall|j: int|
                #![trigger keyboard.keys@[j]]
                0 <= j < old_keys.len() ==> keyboard.keys@[j] == if j < i {
                    spec_drop(old_keys, layer, index as int)[j]
                } else {
                    old_keys[j]
                },
        decreases old_keys.len() - i,
    {
        let k = keyboard.keys[i];
        if k.selected {
            let bind_key = if layer == 0 {
                (code, k.bind_key.1)
            } else if layer == 1 {
                (k.bind_key.0, code)
            } else {
                k.bind_key
            };
            keyboard.keys.set(i, Key { selected: false, bind_key, ..k });
        }
        i = i + 1;
    }
    assert(keyboard.keys@ =~= spec_drop(old_keys, layer, index as int));
}

/// The layer after a switch: the Fn layer from the default layer, the
/// default layer from any other.
pub open spec fn spec_switched_layer(layer: u32) -> u32 {
    if layer == 0 {
        1
    } else {
        0
    }
}

/// Switches between the default layer and the Fn layer.
pub fn switch_layer(uistate: &mut UiState)
    ensures
        *final(uistate) == (UiState { layer: spec_switched_layer(old(uistate).layer), ..*old(uistate) }),
{
    if uistate.layer == 0 {
        uistate.layer = 1;
    } else {
        uistate.layer = 0;
    }
}

/// The name of a layer: the default layer, or the Fn layer for any other.
pub fn layer_name(layer: u32) -> (s: &'static str)
    ensures
        s@ == (if layer == 0 {
            "Default"@
        } else {
            "Fn Layer"@
        }),
{
    if layer == 0 {
        "Default"
    } else {
        "Fn Layer"
    }
}

/// The code number bound to key `k` on layer `layer`; the reserved code on
/// any layer but the two.
pub open spec fn spec_bound_code(k: Key, layer: u32) -> i16 {
    if layer == 0 {
        k.bind_key.0
    } else if layer == 1 {
        k.bind_key.1
    } else {
        0
    }
}

/// The name of the code bound to key `index` on layer `layer`; a number that
/// is no key code shows as the undefined-error code.
pub fn bind_key_label(keyboard: &Keyboard, index: usize, layer: u32) -> (s: &'static str)
    requires
        index < keyboard.keys@.len(),
    ensures
        forall|k: KeyCode|
            #[trigger] k.spec_code() == spec_bound_code(keyboard.keys@[index as int], layer)
                ==> s@ == k.spec_name(),
        !crate::keycode::is_key_code(spec_bound_code(keyboard.keys@[index as int], layer))
            ==> s@ == KeyCode::ERROR_UNDEFINED.spec_name(),
{
    let k = keyboard.keys[index];
    let code: i16 = if layer == 0 {
        k.bind_key.0
    } else if layer == 1 {
        k.bind_key.1
    } else {
        0
    };
    match KeyCode::try_from_code(code) {
        Some(c) => c.name(),
        None => KeyCode::ERROR_UNDEFINED.name(),
    }
}

/// The label printed on the keycap of key `index`.
pub fn key_label(keyboard: &Keyboard, index: usize) -> (s: &'static str)
    requires
        index < keyboard.keys@.len(),
        keyboard.keys@[index as int].index < 64,
    ensures
        s == KEYBOARD_CHARS@[keyboard.keys@[index as int].index as int],
{
    KEYBOARD_CHARS[keyboard.keys[index].index as usize]
}

/// Sets the trigger mode of the keys that edits go to, and the mode shown,
/// from the value of the mode input.
pub fn set_mode(uistate: &mut UiState, keyboard: &mut Keyboard, text: &str)
    requires
        number_value_readable(text@),
    ensures
        *final(uistate) == (UiState { mode: spec_decimal(text@).unwrap() as u32, ..*old(uistate) }),
        final(keyboard).keys@ == spec_edit_keys(
            old(keyboard).keys@,
            KeyEdit::TriggerMode(spec_decimal(text@).unwrap() as u32),
        ),
{
    let value = match parse_u32(text) {
        Some(v) => v,
        None => 0,
    };
    uistate.mode = value;
    edit_keys(keyboard, KeyEdit::TriggerMode(value));
}

/// What the upload button does.
#[derive(Debug, Clone, Copy, PartialEq, Eq, Structural)]
pub enum UploadAction {
    /// No board is connected: connect one.
    Connect,
    /// A board is connected: write the settings of this kind, if any, then
    /// confirm.
    Upload(Option<PageKind>),
}

/// What the upload button does on page `page`: connect a board where none
/// is; else write the settings that the page edits.
pub fn upload_action(page: Page, connected: bool) -> (a: UploadAction)
    ensures
        !connected ==> a == UploadAction::Connect,
        connected ==> a == UploadAction::Upload(
            match page {
                Page::Performance => Some(PageKind::Performance),
                Page::Rgb => Some(PageKind::Rgb),
                Page::Keymap => Some(PageKind::Keymap),
                _ => None,
            },
        ),
{
    if !connected {
        UploadAction::Connect
    } else {
        UploadAction::Upload(
            match page {
                Page::Performance => Some(PageKind::Performance),
                Page::Rgb => Some(PageKind::Rgb),
                Page::Keymap => Some(PageKind::Keymap),
                _ => None,
            },
        )
    }
}

/// The caption of the upload button.
pub fn upload_label(connected: bool) -> (s: &'static str)
    ensures
        s@ == (if connected {
            "Save to Keyboard"@
        } else {
            "Connect"@
        }),
{
    if connected {
        "Save to Keyboard"
    } else {
        "Connect"
    }
}

/// After a click on the debug page at most one key is selected: the clicked
/// one, if it was not selected before.
pub proof fn lemma_debug_click_single_selection(keys: Seq<Key>, index: int)
    ensures
        spec_selected_count(spec_debug_click(keys, index)) <= 1,
        0 <= index < keys.len() ==> spec_debug_click(keys, index)[index].selected
            == !keys[index].selected,
{
    let s = spec_debug_click(keys, index);
    assert forall|j: int| 0 <= j < s.len() && j != index implies !(#[trigger] s[j]).selected by {}
    lemma_single_selection(s, index);
}

/// Clicking the same key twice off the debug page leaves the keys as they
/// were.
pub proof fn lemma_click_twice(keys: Seq<Key>, index: int)
    requires
        0 <= index < keys.len(),
    ensures
        ({
            let once = keys.update(index, Key { selected: !keys[index].selected, ..keys[index] });
            once.update(index, Key { selected: !once[index].selected, ..once[index] }) == keys
        }),
{
    let once = keys.update(index, Key { selected: !keys[index].selected, ..keys[index] });
    assert(once.update(index, Key { selected: !once[index].selected, ..once[index] }) =~= keys);
}

/// After a drop no key is selected.
pub proof fn lemma_drop_clears_selection(keys: Seq<Key>, layer: u32, index: int)
    ensures
        spec_selected_count(spec_drop(keys, layer, index)) == 0,
{
    let s = spec_drop(keys, layer, index);
    assert forall|j: int| 0 <= j < s.len() && j != -1 implies !(#[trigger] s[j]).selected by {}
    lemma_single_selection(s, -1);
}

/// Switching layers moves between the default layer and the Fn layer: the
/// result is one of the two, and switching twice from either returns to it.
pub proof fn lemma_switch_layer_twice(layer: u32)
    ensures
        spec_switched_layer(layer) == 0 || spec_switched_layer(layer) == 1,
        layer <= 1 ==> spec_switched_layer(spec_switched_layer(layer)) == layer,
{
}

/// The code that a drop binds, from the place dropped: places 0 to 137 are
/// the codes -8 to 129 in order, places 138 to 142 the codes 1000 to 1004,
/// and any other place binds the reserved code 0.
pub proof fn lemma_dropped_code_numbers(index: int)
    ensures
        0 <= index < 138 ==> spec_dropped_code(index) == index - 8,
        138 <= index < 143 ==> spec_dropped_code(index) == index - 138 + 1000,
        index < 0 || index >= 143 ==> spec_dropped_code(index) == 0,
{
    crate::keycode::lemma_from_index_place(index);
    if let Some(k) = KeyCode::spec_from_index(index) {
        lemma_index_code(k);
    }
}

} // verus!

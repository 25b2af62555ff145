//! The key matrix of the board: its default layout on screen and the two
//! index maps between the order of the keys on screen and the order in which
//! the controller scans them.

use vstd::prelude::*;

verus! {

/// Width of a one-unit key on screen, in pixels.
pub const WIDTH: u32 = 64;

/// Height of every key on screen, in pixels.
pub const HEIGHT: u32 = 64;

/// Number of keys on the board.
pub const KEY_COUNT: usize = 64;

/// Labels printed on the keycaps, by screen index.
pub const KEYBOARD_CHARS: [&'static str; 64] = [
    "Esc", "1", "2", "3", "4", "5", "6", "7", "8", "9", "0", "-", "=", "Backspace", "Tab", "Q", "W", "E", "R", "T", "Y", "U", "I", "O", "P", "[", "]", "\\", "Caps", "A", "S", "D", "F", "G", "H", "J", "K", "L", ";", ",", "Enter", "LShift", "Z", "X", "C", "V", "B", "N", "M", "<", ">", "/", "RS", "\u{2b06}", "Del", "Ctrl", "Win", "Alt", "Space", "RAlt", "Fn", "\u{2b05}", "\u{2b07}", "\u{27a1}",
];

/// Index is the screen index of a key, the element is its index in the
/// controller's scan order.
pub const KEYMAP: [usize; 64] = [
    15, 14, 13, 12, 44, 43, 37, 63, 59, 58, 31, 30, 29, 28, 8, 9,
    10, 11, 42, 36, 35, 62, 56, 57, 24, 25, 26, 27, 3, 2, 1, 0,
    41, 38, 34, 61, 55, 19, 18, 17, 16, 4, 5, 6, 7, 40, 39, 33,
    60, 54, 53, 20, 21, 22, 23, 45, 46, 47, 32, 48, 49, 50, 51, 52,
];

/// Index is the controller's scan index of a key, the element is its screen
/// index.
pub const STM2RS: [usize; 64] = [
    31, 30, 29, 28, 41, 42, 43, 44, 14, 15, 16, 17, 3, 2, 1, 0,
    40, 39, 38, 37, 51, 52, 53, 54, 24, 25, 26, 27, 13, 12, 11, 10,
    58, 47, 34, 20, 19, 6, 33, 46, 45, 32, 18, 5, 4, 55, 56, 57,
    59, 60, 61, 62, 63, 50, 49, 36, 22, 23, 9, 8, 48, 35, 21, 7,
];

/// One key of the board, as the configuration tool sees it.
#[derive(Debug, Clone, Copy, PartialEq, Eq)]
pub struct Key {
    pub index: u32,
    pub stm32_index: u32,
    /// Key code bound on the default layer and on the Fn layer.
    pub bind_key: (i16, i16),
    /// 0: default; 1: rapid trigger
    pub mode: u32,
    /// 0: normal trigger travel 1: dynamic trigger travel 2: dynamic reset travel 3: lower deadzone
    pub value: (u32, u32, u32, u32),
    pub position: (u32, u32),
    pub size: (u32, u32),
    pub selected: bool,
    pub adc_value: u32,
    /// [31:24] global mode | mode; [23:16] R; [15:8] G; [7:0] B
    pub rgb_raw: u32,
}

/// The whole board.
#[derive(Debug, Clone)]
pub struct Keyboard {
    pub keys: Vec<Key>,
}

/// The width of key `i` in quarters of a one-unit key.
pub open spec fn spec_width_quarters(i: int) -> u32 {
    if i == 13 || i == 41 {
        8
    } else if i == 14 || i == 27 {
        6
    } else if i == 28 {
        7
    } else if i == 40 {
        9
    } else if 55 <= i <= 57 {
        5
    } else if i == 58 {
        25
    } else {
        4
    }
}

/// The width of key `i` on screen, in pixels.
pub open spec fn spec_key_width(i: int) -> u32 {
    (WIDTH * spec_width_quarters(i) / 4) as u32
}

/// The row (0 at the top) that key `i` stands in.
pub open spec fn spec_row(i: int) -> u32 {
    if i <= 13 {
        0
    } else if i <= 27 {
        1
    } else if i <= 40 {
        2
    } else if i <= 54 {
        3
    } else {
        4
    }
}

/// Key `i` is the leftmost key of its row.
pub open spec fn is_row_start(i: int) -> bool {
    i == 0 || i == 14 || i == 28 || i == 41 || i == 55
}

/// Key `i` is the rightmost key of its row.
pub open spec fn is_row_end(i: int) -> bool {
    i == 13 || i == 27 || i == 40 || i == 54 || i == 63
}

/// The horizontal position of key `i`: the widths of the keys to its left in
/// its row, added up.
pub open spec fn spec_key_x(i: nat) -> int
    decreases i,
{
    if i == 0 || is_row_start(i as int) {
        0
    } else {
        spec_key_x((i - 1) as nat) + spec_key_width(i - 1)
    }
}

/// Key `i` as a freshly made board holds it.
pub open spec fn spec_default_key(i: int) -> Key {
    Key {
        index: i as u32,
        stm32_index: KEYMAP@[i] as u32,
        bind_key: (0, 0),
        mode: 0,
        value: (50, 5, 5, 35),
        position: (spec_key_x(i as nat) as u32, (spec_row(i) * HEIGHT) as u32),
        size: (spec_key_width(i), HEIGHT),
        selected: false,
        adc_value: 0,
        rgb_raw: 0,
    }
}

/// The width of key `i` in quarters of a one-unit key.
pub fn width_quarters(i: u32) -> (q: u32)
    ensures
        q == spec_width_quarters(i as int),
        4 <= q <= 25,
{
    if i == 13 || i == 41 {
        8
    } else if i == 14 || i == 27 {
        6
    } else if i == 28 {
        7
    } else if i == 40 {
        9
    } else if 55 <= i && i <= 57 {
        5
    } else if i == 58 {
        25
    } else {
        4
    }
}

/// The row (0 at the top) that key `i` stands in.
pub fn row_of(i: u32) -> (r: u32)
    ensures
        r == spec_row(i as int),
        r <= 4,
{
    if i <= 13 {
        0
    } else if i <= 27 {
        1
    } else if i <= 40 {
        2
    } else if i <= 54 {
        3
    } else {
        4
    }
}

impl Keyboard {
    /// The board with its default layout: every key unbound, in the default
    /// trigger mode with travels 50, 5, 5 and 35, dark, unselected, and laid
    /// out row by row from the left edge.
    pub fn new() -> (kb: Keyboard)
        ensures
            kb.keys@.len() == KEY_COUNT,
            forall|i: int| 0 <= i < KEY_COUNT ==> #[trigger] kb.keys@[i] == spec_default_key(i),
    {
        let mut keys: Vec<Key> = Vec::with_capacity(64);
        let mut x_position: u32 = 0;
        let mut idx: u32 = 0;
        while idx < 64
            invariant
                idx <= 64,
                keys@.len() == idx,
                x_position == spec_key_x(idx as nat),
                x_position <= idx * 400,
                forall|i: int| 0 <= i < idx ==> #[trigger] keys@[i] == spec_default_key(i),
            decreases 64 - idx,
        {
            let quarters = width_quarters(idx);
            let width: u32 = WIDTH * quarters / 4;
            let row = row_of(idx);
            keys.push(
                Key {
                    index: idx,
                    stm32_index: KEYMAP[idx as usize] as u32,
                    bind_key: (0, 0),
                    mode: 0,
                    value: (50, 5, 5, 35),
                    position: (x_position, row * HEIGHT),
                    size: (width, HEIGHT),
                    selected: false,
                    adc_value: 0,
                    rgb_raw: 0,
                },
            );
            x_position = x_position + width;
            if idx == 13 || idx == 27 || idx == 40 || idx == 54 {
                x_position = 0;
            }
            idx = idx + 1;
        }
        Keyboard { keys }
    }
}

/// `KEYMAP` and `STM2RS` are inverse permutations of the key indices: going
/// from screen order to scan order and back, or the other way round, lands
/// on the key one started from.
pub proof fn lemma_index_maps_inverse()
    ensures
        forall|i: int|
            0 <= i < KEY_COUNT ==> KEYMAP@[i] < KEY_COUNT && #[trigger] STM2RS@[KEYMAP@[i] as int]
                == i,
        forall|i: int|
            0 <= i < KEY_COUNT ==> STM2RS@[i] < KEY_COUNT && #[trigger] KEYMAP@[STM2RS@[i] as int]
                == i,
{
}

/// The rows of the default layout tile the same width: every key ends at or
/// before `15 * WIDTH`, the last key of each row ends exactly there, and
/// each other key ends where its right-hand neighbour begins.
pub proof fn lemma_rows_fill_width()
    ensures
        forall|i: int|
            0 <= i < KEY_COUNT ==> #[trigger] spec_key_x(i as nat) + spec_key_width(i) <= 15 * WIDTH,
        forall|i: int|
            0 <= i < KEY_COUNT && is_row_end(i) ==> #[trigger] spec_key_x(i as nat) + spec_key_width(
                i,
            ) == 15 * WIDTH,
        forall|i: int|
            0 <= i < KEY_COUNT - 1 && !is_row_end(i) ==> #[trigger] spec_key_x((i + 1) as nat)
                == spec_key_x(i as nat) + spec_key_width(i),
{
    reveal_with_fuel(spec_key_x, 15);
    assert forall|i: int| 0 <= i < KEY_COUNT implies #[trigger] spec_key_x(i as nat) + spec_key_width(i) <= 15 * WIDTH && (is_row_end(i) ==> spec_key_x(i as nat) + spec_key_width(i) == 15 * WIDTH) by {
    }
}

/// On a fresh board the scan index of every key leads back to the key: the
/// default layout follows `KEYMAP`, which `STM2RS` undoes.
pub proof fn lemma_default_scan_order()
    ensures
        forall|i: int|
            0 <= i < KEY_COUNT ==> STM2RS@[#[trigger] spec_default_key(i).stm32_index as int] == i,
{
    lemma_index_maps_inverse();
    assert forall|i: int| 0 <= i < KEY_COUNT implies STM2RS@[#[trigger] spec_default_key(i).stm32_index as int] == i by {
        assert(KEYMAP@[i] < KEY_COUNT);
        assert(STM2RS@[KEYMAP@[i] as int] == i);
    }
}

/// The first and last screen index of row `row` (0 to 4).
pub fn row_bounds(row: u32) -> (b: (u32, u32))
    requires
        row <= 4,
    ensures
        b.0 <= b.1 < KEY_COUNT,
        is_row_start(b.0 as int),
        is_row_end(b.1 as int),
        forall|i: int| 0 <= i < KEY_COUNT ==> (#[trigger] spec_row(i) == row <==> b.0 <= i <= b.1),
{
    if row == 0 {
        (0, 13)
    } else if row == 1 {
        (14, 27)
    } else if row == 2 {
        (28, 40)
    } else if row == 3 {
        (41, 54)
    } else {
        (55, 63)
    }
}

} // verus!

//! The state that the pages of the tool share besides the board itself.

use vstd::prelude::*;

verus! {

/// Length of the window of readings of the monitored key.
pub const ADC_WINDOW: usize = 128;

/// What the pages of the tool remember between events.
#[derive(Debug, Clone, Copy, PartialEq, Eq, Structural)]
pub struct UiState {
    /// Trigger mode shown on the performance page.
    pub mode: u32,
    /// Screen index of the key whose readings are charted.
    pub key_monitor: u32,
    /// Binding layer being edited: 0 is the default layer, 1 the Fn layer.
    pub layer: u32,
    pub mousedown: bool,
    pub activation_value: u8,
    pub trigger_value: u8,
    pub reset_value: u8,
    pub lower_deadzone: u8,
}

/// The latest analog reading of every key, by screen index.
#[allow(non_camel_case_types)]
#[derive(Debug, Clone, Copy)]
pub struct ADC_Data {
    pub array: [u32; 64],
    pub cnt: usize,
}

impl UiState {
    /// The state the tool starts in.
    pub fn new() -> (s: UiState)
        ensures
            s == (UiState {
                mode: 0,
                key_monitor: 0,
                layer: 0,
                mousedown: false,
                activation_value: 30,
                trigger_value: 3,
                reset_value: 3,
                lower_deadzone: 32,
            }),
    {
        UiState {
            mode: 0,
            key_monitor: 0,
            layer: 0,
            mousedown: false,
            activation_value: 30,
            trigger_value: 3,
            reset_value: 3,
            lower_deadzone: 32,
        }
    }
}

impl ADC_Data {
    /// No readings yet: every key reads 0.
    pub fn new() -> (d: ADC_Data)
        ensures
            d.array@ == Seq::new(64, |i: int| 0u32),
            d.cnt == 0,
    {
        let d = ADC_Data { array: [0u32; 64], cnt: 0 };
        assert(d.array@ =~= Seq::new(64, |i: int| 0u32));
        d
    }
}

/// The argument of a message to the tool's host: its name must match the
/// host's.
pub struct MessageArgs<'a> {
    pub payload: &'a str,
}

} // verus!

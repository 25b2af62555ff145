//! The lighting modes of the board, and the lighting word of a key: the
//! global mode in bits 31..28, the key's mode in bits 27..24 and the color,
//! red, green and blue, in the three low bytes.

use vstd::prelude::*;
use crate::text::str_eq;

verus! {

/// The lighting effect of the whole board.
#[allow(non_camel_case_types)]
#[derive(Debug, Clone, Copy, PartialEq, Eq, Structural)]
pub enum RGB_GLOBAL_MODE {
    RGB_GLOBAL_MODE_OFF,
    RGB_GLOBAL_MODE_INDIVIDUAL,
    RGB_GLOBAL_MODE_WAVE,
    RGB_GLOBAL_MODE_STRING,
    RGB_GLOBAL_MODE_FADING_STRING,
    RGB_GLOBAL_MODE_DIAMOND_RIPPLE,
    RGB_GLOBAL_MODE_FADING_DIAMOND_RIPPLE,
    RGB_GLOBAL_MODE_JELLY,
}

impl RGB_GLOBAL_MODE {
    /// The number of the mode, its place in declaration order.
    pub open spec fn spec_index(self) -> u32 {
        match self {
            RGB_GLOBAL_MODE::RGB_GLOBAL_MODE_OFF => 0,
            RGB_GLOBAL_MODE::RGB_GLOBAL_MODE_INDIVIDUAL => 1,
            RGB_GLOBAL_MODE::RGB_GLOBAL_MODE_WAVE => 2,
            RGB_GLOBAL_MODE::RGB_GLOBAL_MODE_STRING => 3,
            RGB_GLOBAL_MODE::RGB_GLOBAL_MODE_FADING_STRING => 4,
            RGB_GLOBAL_MODE::RGB_GLOBAL_MODE_DIAMOND_RIPPLE => 5,
            RGB_GLOBAL_MODE::RGB_GLOBAL_MODE_FADING_DIAMOND_RIPPLE => 6,
            RGB_GLOBAL_MODE::RGB_GLOBAL_MODE_JELLY => 7,
        }
    }

    /// The name of the mode, as shown and as read back.
    pub open spec fn spec_name(self) -> Seq<char> {
        match self {
            RGB_GLOBAL_MODE::RGB_GLOBAL_MODE_OFF => "RGB_GLOBAL_MODE_OFF"@,
            RGB_GLOBAL_MODE::RGB_GLOBAL_MODE_INDIVIDUAL => "RGB_GLOBAL_MODE_INDIVIDUAL"@,
            RGB_GLOBAL_MODE::RGB_GLOBAL_MODE_WAVE => "RGB_GLOBAL_MODE_WAVE"@,
            RGB_GLOBAL_MODE::RGB_GLOBAL_MODE_STRING => "RGB_GLOBAL_MODE_STRING"@,
            RGB_GLOBAL_MODE::RGB_GLOBAL_MODE_FADING_STRING => "RGB_GLOBAL_MODE_FADING_STRING"@,
            RGB_GLOBAL_MODE::RGB_GLOBAL_MODE_DIAMOND_RIPPLE => "RGB_GLOBAL_MODE_DIAMOND_RIPPLE"@,
            RGB_GLOBAL_MODE::RGB_GLOBAL_MODE_FADING_DIAMOND_RIPPLE => "RGB_GLOBAL_MODE_FADING_DIAMOND_RIPPLE"@,
            RGB_GLOBAL_MODE::RGB_GLOBAL_MODE_JELLY => "RGB_GLOBAL_MODE_JELLY"@,
        }
    }

    /// The number of the mode.
    pub fn index(&self) -> (i: u32)
        ensures
            i == self.spec_index(),
            i < 8,
    {
        match self {
            RGB_GLOBAL_MODE::RGB_GLOBAL_MODE_OFF => 0,
            RGB_GLOBAL_MODE::RGB_GLOBAL_MODE_INDIVIDUAL => 1,
            RGB_GLOBAL_MODE::RGB_GLOBAL_MODE_WAVE => 2,
            RGB_GLOBAL_MODE::RGB_GLOBAL_MODE_STRING => 3,
            RGB_GLOBAL_MODE::RGB_GLOBAL_MODE_FADING_STRING => 4,
            RGB_GLOBAL_MODE::RGB_GLOBAL_MODE_DIAMOND_RIPPLE => 5,
            RGB_GLOBAL_MODE::RGB_GLOBAL_MODE_FADING_DIAMOND_RIPPLE => 6,
            RGB_GLOBAL_MODE::RGB_GLOBAL_MODE_JELLY => 7,
        }
    }

    /// The name of the mode.
    pub fn name(&self) -> (s: &'static str)
        ensures
            s@ == self.spec_name(),
    {
        match self {
            RGB_GLOBAL_MODE::RGB_GLOBAL_MODE_OFF => "RGB_GLOBAL_MODE_OFF",
            RGB_GLOBAL_MODE::RGB_GLOBAL_MODE_INDIVIDUAL => "RGB_GLOBAL_MODE_INDIVIDUAL",
            RGB_GLOBAL_MODE::RGB_GLOBAL_MODE_WAVE => "RGB_GLOBAL_MODE_WAVE",
            RGB_GLOBAL_MODE::RGB_GLOBAL_MODE_STRING => "RGB_GLOBAL_MODE_STRING",
            RGB_GLOBAL_MODE::RGB_GLOBAL_MODE_FADING_STRING => "RGB_GLOBAL_MODE_FADING_STRING",
            RGB_GLOBAL_MODE::RGB_GLOBAL_MODE_DIAMOND_RIPPLE => "RGB_GLOBAL_MODE_DIAMOND_RIPPLE",
            RGB_GLOBAL_MODE::RGB_GLOBAL_MODE_FADING_DIAMOND_RIPPLE => "RGB_GLOBAL_MODE_FADING_DIAMOND_RIPPLE",
            RGB_GLOBAL_MODE::RGB_GLOBAL_MODE_JELLY => "RGB_GLOBAL_MODE_JELLY",
        }
    }

    /// The mode with number `i`, if there is one.
    pub fn from_index(i: u32) -> (r: Option<RGB_GLOBAL_MODE>)
        ensures
            r is Some <==> i < 8,
            r matches Some(m) ==> m.spec_index() == i,
    {
        if i == 0 {
            Some(RGB_GLOBAL_MODE::RGB_GLOBAL_MODE_OFF)
        } else
        if i == 1 {
            Some(RGB_GLOBAL_MODE::RGB_GLOBAL_MODE_INDIVIDUAL)
        } else
        if i == 2 {
            Some(RGB_GLOBAL_MODE::RGB_GLOBAL_MODE_WAVE)
        } else
        if i == 3 {
            Some(RGB_GLOBAL_MODE::RGB_GLOBAL_MODE_STRING)
        } else
        if i == 4 {
            Some(RGB_GLOBAL_MODE::RGB_GLOBAL_MODE_FADING_STRING)
        } else
        if i == 5 {
            Some(RGB_GLOBAL_MODE::RGB_GLOBAL_MODE_DIAMOND_RIPPLE)
        } else
        if i == 6 {
            Some(RGB_GLOBAL_MODE::RGB_GLOBAL_MODE_FADING_DIAMOND_RIPPLE)
        } else
        if i == 7 {
            Some(RGB_GLOBAL_MODE::RGB_GLOBAL_MODE_JELLY)
        } else {
            None
        }
    }

    /// The mode whose name is `s`, if there is one.
    pub fn from_name(s: &str) -> (r: Option<RGB_GLOBAL_MODE>)
        ensures
            r matches Some(m) ==> m.spec_name() == s@,
            r is None ==> forall|m: RGB_GLOBAL_MODE| #[trigger] m.spec_name() != s@,
            forall|m: RGB_GLOBAL_MODE| #[trigger] m.spec_name() == s@ ==> r == Some(m),
    {
        proof {
            lemma_rgb_global_mode_names_distinct();
            reveal_strlit("RGB_GLOBAL_MODE_OFF");
            reveal_strlit("RGB_GLOBAL_MODE_INDIVIDUAL");
            reveal_strlit("RGB_GLOBAL_MODE_WAVE");
            reveal_strlit("RGB_GLOBAL_MODE_STRING");
            reveal_strlit("RGB_GLOBAL_MODE_FADING_STRING");
            reveal_strlit("RGB_GLOBAL_MODE_DIAMOND_RIPPLE");
            reveal_strlit("RGB_GLOBAL_MODE_FADING_DIAMOND_RIPPLE");
            reveal_strlit("RGB_GLOBAL_MODE_JELLY");
        }
        let r = if str_eq(s, "RGB_GLOBAL_MODE_OFF") {
            Some(RGB_GLOBAL_MODE::RGB_GLOBAL_MODE_OFF)
        } else if str_eq(s, "RGB_GLOBAL_MODE_INDIVIDUAL") {
            Some(RGB_GLOBAL_MODE::RGB_GLOBAL_MODE_INDIVIDUAL)
        } else if str_eq(s, "RGB_GLOBAL_MODE_WAVE") {
            Some(RGB_GLOBAL_MODE::RGB_GLOBAL_MODE_WAVE)
        } else if str_eq(s, "RGB_GLOBAL_MODE_STRING") {
            Some(RGB_GLOBAL_MODE::RGB_GLOBAL_MODE_STRING)
        } else if str_eq(s, "RGB_GLOBAL_MODE_FADING_STRING") {
            Some(RGB_GLOBAL_MODE::RGB_GLOBAL_MODE_FADING_STRING)
        } else if str_eq(s, "RGB_GLOBAL_MODE_DIAMOND_RIPPLE") {
            Some(RGB_GLOBAL_MODE::RGB_GLOBAL_MODE_DIAMOND_RIPPLE)
        } else if str_eq(s, "RGB_GLOBAL_MODE_FADING_DIAMOND_RIPPLE") {
            Some(RGB_GLOBAL_MODE::RGB_GLOBAL_MODE_FADING_DIAMOND_RIPPLE)
        } else if str_eq(s, "RGB_GLOBAL_MODE_JELLY") {
            Some(RGB_GLOBAL_MODE::RGB_GLOBAL_MODE_JELLY)
        } else {
            None
        };
        proof {
            if let Some(m0) = r {
                assert(m0.spec_name() == s@);
                assert forall|m: RGB_GLOBAL_MODE| #[trigger] m.spec_name() == s@ implies r == Some(m) by {
                    assert(m.spec_name() == m0.spec_name());
                }
            }
        }
        r
    }
}

/// The lighting mode of a single key.
#[allow(non_camel_case_types)]
#[derive(Debug, Clone, Copy, PartialEq, Eq, Structural)]
pub enum RGB_MODE {
    STATIC,
    CYCLE,
    LINEAR,
    TRIGGER,
}

impl RGB_MODE {
    /// The number of the mode, its place in declaration order.
    pub open spec fn spec_index(self) -> u32 {
        match self {
            RGB_MODE::STATIC => 0,
            RGB_MODE::CYCLE => 1,
            RGB_MODE::LINEAR => 2,
            RGB_MODE::TRIGGER => 3,
        }
    }

    /// The name of the mode, as shown and as read back.
    pub open spec fn spec_name(self) -> Seq<char> {
        match self {
            RGB_MODE::STATIC => "STATIC"@,
            RGB_MODE::CYCLE => "CYCLE"@,
            RGB_MODE::LINEAR => "LINEAR"@,
            RGB_MODE::TRIGGER => "TRIGGER"@,
        }
    }

    /// The number of the mode.
    pub fn index(&self) -> (i: u32)
        ensures
            i == self.spec_index(),
            i < 4,
    {
        match self {
            RGB_MODE::STATIC => 0,
            RGB_MODE::CYCLE => 1,
            RGB_MODE::LINEAR => 2,
            RGB_MODE::TRIGGER => 3,
        }
    }

    /// The name of the mode.
    pub fn name(&self) -> (s: &'static str)
        ensures
            s@ == self.spec_name(),
    {
        match self {
            RGB_MODE::STATIC => "STATIC",
            RGB_MODE::CYCLE => "CYCLE",
            RGB_MODE::LINEAR => "LINEAR",
            RGB_MODE::TRIGGER => "TRIGGER",
        }
    }

    /// The mode with number `i`, if there is one.
    pub fn from_index(i: u32) -> (r: Option<RGB_MODE>)
        ensures
            r is Some <==> i < 4,
            r matches Some(m) ==> m.spec_index() == i,
    {
        if i == 0 {
            Some(RGB_MODE::STATIC)
        } else
        if i == 1 {
            Some(RGB_MODE::CYCLE)
        } else
        if i == 2 {
            Some(RGB_MODE::LINEAR)
        } else
        if i == 3 {
            Some(RGB_MODE::TRIGGER)
        } else {
            None
        }
    }

    /// The mode whose name is `s`, if there is one.
    pub fn from_name(s: &str) -> (r: Option<RGB_MODE>)
        ensures
            r matches Some(m) ==> m.spec_name() == s@,
            r is None ==> forall|m: RGB_MODE| #[trigger] m.spec_name() != s@,
            forall|m: RGB_MODE| #[trigger] m.spec_name() == s@ ==> r == Some(m),
    {
        proof {
            lemma_rgb_mode_names_distinct();
            reveal_strlit("STATIC");
            reveal_strlit("CYCLE");
            reveal_strlit("LINEAR");
            reveal_strlit("TRIGGER");
        }
        let r = if str_eq(s, "STATIC") {
            Some(RGB_MODE::STATIC)
        } else if str_eq(s, "CYCLE") {
            Some(RGB_MODE::CYCLE)
        } else if str_eq(s, "LINEAR") {
            Some(RGB_MODE::LINEAR)
        } else if str_eq(s, "TRIGGER") {
            Some(RGB_MODE::TRIGGER)
        } else {
            None
        };
        proof {
            if let Some(m0) = r {
                assert(m0.spec_name() == s@);
                assert forall|m: RGB_MODE| #[trigger] m.spec_name() == s@ implies r == Some(m) by {
                    assert(m.spec_name() == m0.spec_name());
                }
            }
        }
        r
    }
}


/// Different RGB_GLOBAL_MODE modes have different names.
pub proof fn lemma_rgb_global_mode_names_distinct()
    ensures
        forall|a: RGB_GLOBAL_MODE, b: RGB_GLOBAL_MODE| #[trigger] a.spec_name() == #[trigger] b.spec_name() ==> a == b,
{
    reveal_strlit("RGB_GLOBAL_MODE_OFF");
    reveal_strlit("RGB_GLOBAL_MODE_INDIVIDUAL");
    reveal_strlit("RGB_GLOBAL_MODE_WAVE");
    reveal_strlit("RGB_GLOBAL_MODE_STRING");
    reveal_strlit("RGB_GLOBAL_MODE_FADING_STRING");
    reveal_strlit("RGB_GLOBAL_MODE_DIAMOND_RIPPLE");
    reveal_strlit("RGB_GLOBAL_MODE_FADING_DIAMOND_RIPPLE");
    reveal_strlit("RGB_GLOBAL_MODE_JELLY");
    assert("RGB_GLOBAL_MODE_OFF"@.len() != "RGB_GLOBAL_MODE_INDIVIDUAL"@.len());
    assert("RGB_GLOBAL_MODE_OFF"@.len() != "RGB_GLOBAL_MODE_WAVE"@.len());
    assert("RGB_GLOBAL_MODE_OFF"@.len() != "RGB_GLOBAL_MODE_STRING"@.len());
    assert("RGB_GLOBAL_MODE_OFF"@.len() != "RGB_GLOBAL_MODE_FADING_STRING"@.len());
    assert("RGB_GLOBAL_MODE_OFF"@.len() != "RGB_GLOBAL_MODE_DIAMOND_RIPPLE"@.len());
    assert("RGB_GLOBAL_MODE_OFF"@.len() != "RGB_GLOBAL_MODE_FADING_DIAMOND_RIPPLE"@.len());
    assert("RGB_GLOBAL_MODE_OFF"@.len() != "RGB_GLOBAL_MODE_JELLY"@.len());
    assert("RGB_GLOBAL_MODE_INDIVIDUAL"@.len() != "RGB_GLOBAL_MODE_WAVE"@.len());
    assert("RGB_GLOBAL_MODE_INDIVIDUAL"@.len() != "RGB_GLOBAL_MODE_STRING"@.len());
    assert("RGB_GLOBAL_MODE_INDIVIDUAL"@.len() != "RGB_GLOBAL_MODE_FADING_STRING"@.len());
    assert("RGB_GLOBAL_MODE_INDIVIDUAL"@.len() != "RGB_GLOBAL_MODE_DIAMOND_RIPPLE"@.len());
    assert("RGB_GLOBAL_MODE_INDIVIDUAL"@.len() != "RGB_GLOBAL_MODE_FADING_DIAMOND_RIPPLE"@.len());
    assert("RGB_GLOBAL_MODE_INDIVIDUAL"@.len() != "RGB_GLOBAL_MODE_JELLY"@.len());
    assert("RGB_GLOBAL_MODE_WAVE"@.len() != "RGB_GLOBAL_MODE_STRING"@.len());
    assert("RGB_GLOBAL_MODE_WAVE"@.len() != "RGB_GLOBAL_MODE_FADING_STRING"@.len());
    assert("RGB_GLOBAL_MODE_WAVE"@.len() != "RGB_GLOBAL_MODE_DIAMOND_RIPPLE"@.len());
    assert("RGB_GLOBAL_MODE_WAVE"@.len() != "RGB_GLOBAL_MODE_FADING_DIAMOND_RIPPLE"@.len());
    assert("RGB_GLOBAL_MODE_WAVE"@.len() != "RGB_GLOBAL_MODE_JELLY"@.len());
    assert("RGB_GLOBAL_MODE_STRING"@.len() != "RGB_GLOBAL_MODE_FADING_STRING"@.len());
    assert("RGB_GLOBAL_MODE_STRING"@.len() != "RGB_GLOBAL_MODE_DIAMOND_RIPPLE"@.len());
    assert("RGB_GLOBAL_MODE_STRING"@.len() != "RGB_GLOBAL_MODE_FADING_DIAMOND_RIPPLE"@.len());
    assert("RGB_GLOBAL_MODE_STRING"@.len() != "RGB_GLOBAL_MODE_JELLY"@.len());
    assert("RGB_GLOBAL_MODE_FADING_STRING"@.len() != "RGB_GLOBAL_MODE_DIAMOND_RIPPLE"@.len());
    assert("RGB_GLOBAL_MODE_FADING_STRING"@.len() != "RGB_GLOBAL_MODE_FADING_DIAMOND_RIPPLE"@.len());
    assert("RGB_GLOBAL_MODE_FADING_STRING"@.len() != "RGB_GLOBAL_MODE_JELLY"@.len());
    assert("RGB_GLOBAL_MODE_DIAMOND_RIPPLE"@.len() != "RGB_GLOBAL_MODE_FADING_DIAMOND_RIPPLE"@.len());
    assert("RGB_GLOBAL_MODE_DIAMOND_RIPPLE"@.len() != "RGB_GLOBAL_MODE_JELLY"@.len());
    assert("RGB_GLOBAL_MODE_FADING_DIAMOND_RIPPLE"@.len() != "RGB_GLOBAL_MODE_JELLY"@.len());
}

/// Different RGB_MODE modes have different names.
pub proof fn lemma_rgb_mode_names_distinct()
    ensures
        forall|a: RGB_MODE, b: RGB_MODE| #[trigger] a.spec_name() == #[trigger] b.spec_name() ==> a == b,
{
    reveal_strlit("STATIC");
    reveal_strlit("CYCLE");
    reveal_strlit("LINEAR");
    reveal_strlit("TRIGGER");
    assert("STATIC"@.len() != "CYCLE"@.len());
    assert("STATIC"@[0] != "LINEAR"@[0]);
    assert("STATIC"@.len() != "TRIGGER"@.len());
    assert("CYCLE"@.len() != "LINEAR"@.len());
    assert("CYCLE"@.len() != "TRIGGER"@.len());
    assert("LINEAR"@.len() != "TRIGGER"@.len());
}

/// The key mode with number `i`; the last mode for any larger number.
pub open spec fn spec_rgb_mode_of(i: u32) -> RGB_MODE {
    if i == 0 {
        RGB_MODE::STATIC
    } else if i == 1 {
        RGB_MODE::CYCLE
    } else if i == 2 {
        RGB_MODE::LINEAR
    } else {
        RGB_MODE::TRIGGER
    }
}

/// The key mode in bits 27..24 of a lighting word.
pub open spec fn spec_key_mode_bits(rgb_raw: u32) -> u32 {
    (rgb_raw >> 24u32) & 0x0fu32
}

/// The name of the key mode in a lighting word.
pub fn rgb_mode_label(rgb_raw: u32) -> (s: &'static str)
    requires
        spec_key_mode_bits(rgb_raw) < 4,
    ensures
        s@ == spec_rgb_mode_of(spec_key_mode_bits(rgb_raw)).spec_name(),
{
    let mode: u32 = (rgb_raw >> 24) & 0x0f;
    if mode == 0 {
        RGB_MODE::STATIC.name()
    } else if mode == 1 {
        RGB_MODE::CYCLE.name()
    } else if mode == 2 {
        RGB_MODE::LINEAR.name()
    } else {
        RGB_MODE::TRIGGER.name()
    }
}

} // verus!

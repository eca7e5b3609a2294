//! The hardware gamepad frame and the mapping from logical buttons to it.
//!
//! A frame is one complete report of a wired Xbox 360 style gamepad. Here
//! only its button word is ever driven; triggers and sticks stay at rest.
//! Every logical button owns one bit of the button word, and no two share
//! one, so the frame is a function of the store's contents alone.

use vstd::prelude::*;
use crate::buttons::ButtonState;
use crate::buttons::LogicalButton;
use crate::buttons::lemma_state_extensional;

verus! {

/// Directional pad, up.
pub const UP: u16 = 0x0001;

/// Directional pad, down.
pub const DOWN: u16 = 0x0002;

/// Directional pad, left.
pub const LEFT: u16 = 0x0004;

/// Directional pad, right.
pub const RIGHT: u16 = 0x0008;

/// Start button.
pub const START: u16 = 0x0010;

/// Back button.
pub const BACK: u16 = 0x0020;

/// Left shoulder button.
pub const LB: u16 = 0x0100;

/// Right shoulder button.
pub const RB: u16 = 0x0200;

/// Face button B.
pub const B: u16 = 0x2000;

/// Every bit of the button word that some logical button drives.
pub const MAPPED_BITS: u16 = 0x233F;

/// The bit of the button word that `button` drives.
pub open spec fn hardware_bit(button: LogicalButton) -> u16 {
    match button {
        LogicalButton::Climb => START,
        LogicalButton::Zero => BACK,
        LogicalButton::Intake => RIGHT,
        LogicalButton::High => UP,
        LogicalButton::Mid => LEFT,
        LogicalButton::Low => DOWN,
        LogicalButton::Coral => B,
        LogicalButton::IntakeAlga => LB,
        LogicalButton::DropAlga => RB,
    }
}

/// `bit` if the button is held, nothing otherwise.
pub open spec fn bit_if(held: bool, bit: u16) -> u16 {
    if held {
        bit
    } else {
        0
    }
}

/// The button word for a store state: the union of the bits of the buttons
/// that are pressed.
pub open spec fn button_bits(state: ButtonState) -> u16 {
    bit_if(state.climb, START) | bit_if(state.zero, BACK) | bit_if(state.intake, RIGHT) | bit_if(
        state.high,
        UP,
    ) | bit_if(state.mid, LEFT) | bit_if(state.low, DOWN) | bit_if(state.coral, B) | bit_if(
        state.intake_alga,
        LB,
    ) | bit_if(state.drop_alga, RB)
}

/// The bit of the button word that `button` drives.
pub fn bit_of(button: LogicalButton) -> (bit: u16)
    ensures
        bit == hardware_bit(button),
{
    match button {
        LogicalButton::Climb => START,
        LogicalButton::Zero => BACK,
        LogicalButton::Intake => RIGHT,
        LogicalButton::High => UP,
        LogicalButton::Mid => LEFT,
        LogicalButton::Low => DOWN,
        LogicalButton::Coral => B,
        LogicalButton::IntakeAlga => LB,
        LogicalButton::DropAlga => RB,
    }
}

fn held_bit(held: bool, bit: u16) -> (word: u16)
    ensures
        word == bit_if(held, bit),
{
    if held {
        bit
    } else {
        0
    }
}

/// One complete gamepad report: the button word, both triggers and both
/// sticks.
#[derive(Clone, Copy, Debug, PartialEq, Eq, Structural)]
pub struct HardwareGamepadFrame {
    pub buttons: u16,
    pub left_trigger: u8,
    pub right_trigger: u8,
    pub thumb_lx: i16,
    pub thumb_ly: i16,
    pub thumb_rx: i16,
    pub thumb_ry: i16,
}

impl HardwareGamepadFrame {
    /// The frame of a gamepad at rest: nothing held, triggers released,
    /// sticks centred.
    pub open spec fn neutral() -> HardwareGamepadFrame {
        HardwareGamepadFrame {
            buttons: 0,
            left_trigger: 0,
            right_trigger: 0,
            thumb_lx: 0,
            thumb_ly: 0,
            thumb_rx: 0,
            thumb_ry: 0,
        }
    }

    /// The frame that stands for a store state: the button word of the
    /// pressed buttons, everything else at rest.
    pub open spec fn of(state: ButtonState) -> HardwareGamepadFrame {
        HardwareGamepadFrame {
            buttons: button_bits(state),
            left_trigger: 0,
            right_trigger: 0,
            thumb_lx: 0,
            thumb_ly: 0,
            thumb_rx: 0,
            thumb_ry: 0,
        }
    }

    /// Whether the frame reports `button` as held.
    pub open spec fn holds(self, button: LogicalButton) -> bool {
        self.buttons & hardware_bit(button) != 0
    }

    /// The frame of a gamepad at rest.
    pub fn new() -> (frame: HardwareGamepadFrame)
        ensures
            frame == HardwareGamepadFrame::neutral(),
            frame == HardwareGamepadFrame::of(ButtonState::released()),
    {
        proof {
            lemma_released_is_neutral();
        }
        HardwareGamepadFrame {
            buttons: 0,
            left_trigger: 0,
            right_trigger: 0,
            thumb_lx: 0,
            thumb_ly: 0,
            thumb_rx: 0,
            thumb_ry: 0,
        }
    }

    /// Computes the frame that stands for a store state.
    pub fn from_state(state: &ButtonState) -> (frame: HardwareGamepadFrame)
        ensures
            frame == HardwareGamepadFrame::of(*state),
            forall|button: LogicalButton| frame.holds(button) == state.pressed(button),
            frame.buttons & !MAPPED_BITS == 0,
    {
        let buttons = held_bit(state.climb, START) | held_bit(state.zero, BACK) | held_bit(
            state.intake,
            RIGHT,
        ) | held_bit(state.high, UP) | held_bit(state.mid, LEFT) | held_bit(state.low, DOWN)
            | held_bit(state.coral, B) | held_bit(state.intake_alga, LB) | held_bit(
            state.drop_alga,
            RB,
        );
        proof {
            lemma_frame_reflects_state(*state);
        }
        HardwareGamepadFrame {
            buttons,
            left_trigger: 0,
            right_trigger: 0,
            thumb_lx: 0,
            thumb_ly: 0,
            thumb_rx: 0,
            thumb_ry: 0,
        }
    }

    /// Whether the frame reports `button` as held.
    pub fn is_held(&self, button: LogicalButton) -> (held: bool)
        ensures
            held == self.holds(button),
    {
        self.buttons & bit_of(button) != 0
    }
}

impl Default for HardwareGamepadFrame {
    fn default() -> (frame: HardwareGamepadFrame)
        ensures
            frame == HardwareGamepadFrame::neutral(),
    {
        HardwareGamepadFrame::new()
    }
}

proof fn lemma_word_bits(
    climb: bool,
    zero: bool,
    intake: bool,
    high: bool,
    mid: bool,
    low: bool,
    coral: bool,
    intake_alga: bool,
    drop_alga: bool,
    word: u16,
)
    by (bit_vector)
    requires
        word == bit_if(climb, START) | bit_if(zero, BACK) | bit_if(intake, RIGHT) | bit_if(
            high,
            UP,
        ) | bit_if(mid, LEFT) | bit_if(low, DOWN) | bit_if(coral, B) | bit_if(intake_alga, LB)
            | bit_if(drop_alga, RB),
    ensures
        (word & START != 0) == climb,
        (word & BACK != 0) == zero,
        (word & RIGHT != 0) == intake,
        (word & UP != 0) == high,
        (word & LEFT != 0) == mid,
        (word & DOWN != 0) == low,
        (word & B != 0) == coral,
        (word & LB != 0) == intake_alga,
        (word & RB != 0) == drop_alga,
        word & !MAPPED_BITS == 0,
        (word == 0) == !(climb || zero || intake || high || mid || low || coral || intake_alga
            || drop_alga),
{
}

/// Every logical button drives exactly one bit, and no two drive the same.
pub proof fn lemma_bits_distinct(a: LogicalButton, b: LogicalButton)
    ensures
        hardware_bit(a) != 0,
        hardware_bit(a) & MAPPED_BITS == hardware_bit(a),
        a != b ==> hardware_bit(a) & hardware_bit(b) == 0,
        a == b <==> hardware_bit(a) == hardware_bit(b),
{
    let x = hardware_bit(a);
    let y = hardware_bit(b);
    assert(x == 0x0001 || x == 0x0002 || x == 0x0004 || x == 0x0008 || x == 0x0010 || x == 0x0020
        || x == 0x0100 || x == 0x0200 || x == 0x2000);
    assert(y == 0x0001 || y == 0x0002 || y == 0x0004 || y == 0x0008 || y == 0x0010 || y == 0x0020
        || y == 0x0100 || y == 0x0200 || y == 0x2000);
    assert(x & 0x233F == x && (x != y ==> x & y == 0)) by (bit_vector)
        requires
            x == 0x0001 || x == 0x0002 || x == 0x0004 || x == 0x0008 || x == 0x0010 || x
                == 0x0020 || x == 0x0100 || x == 0x0200 || x == 0x2000,
            y == 0x0001 || y == 0x0002 || y == 0x0004 || y == 0x0008 || y == 0x0010 || y
                == 0x0020 || y == 0x0100 || y == 0x0200 || y == 0x2000,
    ;
}

/// The button word holds the bit of a button exactly when the button is
/// pressed, and holds no bit that no button drives.
pub proof fn lemma_frame_reflects_state(state: ButtonState)
    ensures
        forall|button: LogicalButton|
            #[trigger] HardwareGamepadFrame::of(state).holds(button) == state.pressed(button),
        button_bits(state) & !MAPPED_BITS == 0,
{
    lemma_word_bits(
        state.climb,
        state.zero,
        state.intake,
        state.high,
        state.mid,
        state.low,
        state.coral,
        state.intake_alga,
        state.drop_alga,
        button_bits(state),
    );
}

/// With every button released the frame is the frame of a gamepad at rest.
pub proof fn lemma_released_is_neutral()
    ensures
        HardwareGamepadFrame::of(ButtonState::released()) == HardwareGamepadFrame::neutral(),
{
    lemma_word_bits(
        false,
        false,
        false,
        false,
        false,
        false,
        false,
        false,
        false,
        button_bits(ButtonState::released()),
    );
}

/// The frame depends on nothing but which buttons are pressed: two states
/// with the same buttons pressed give the same frame.
pub proof fn lemma_frame_determined_by_pressed(a: ButtonState, b: ButtonState)
    requires
        forall|button: LogicalButton| a.pressed(button) == b.pressed(button),
    ensures
        HardwareGamepadFrame::of(a) == HardwareGamepadFrame::of(b),
{
    lemma_state_extensional(a, b);
}

/// The mapping loses nothing: two states give the same frame exactly
/// when they are the same state.
pub proof fn lemma_frame_injective(a: ButtonState, b: ButtonState)
    ensures
        HardwareGamepadFrame::of(a) == HardwareGamepadFrame::of(b) <==> a == b,
{
    if HardwareGamepadFrame::of(a) == HardwareGamepadFrame::of(b) {
        lemma_frame_reflects_state(a);
        lemma_frame_reflects_state(b);
        assert forall|button: LogicalButton| a.pressed(button) == b.pressed(button) by {
            assert(HardwareGamepadFrame::of(a).holds(button) == a.pressed(button));
            assert(HardwareGamepadFrame::of(b).holds(button) == b.pressed(button));
        }
        lemma_state_extensional(a, b);
    }
}

} // verus!

//! Keyboard modifiers: from the windowing system's modifier state to the
//! runtime's modifier flags.
use vstd::prelude::*;

verus! {

/// The bit of winit's `ModifiersState` for the shift key.
pub const SHIFT_BIT: u32 = 0b100;

/// The bit of winit's `ModifiersState` for the control key.
pub const CTRL_BIT: u32 = 0b100000;

/// The bit of winit's `ModifiersState` for the alt key.
pub const ALT_BIT: u32 = 0b100000000;

/// The bit of winit's `ModifiersState` for the logo (command, windows) key.
pub const LOGO_BIT: u32 = 0b100000000000;

/// The modifier keys held down, as the runtime sees them.
#[derive(Clone, Copy, Debug, PartialEq, Eq, Structural)]
pub struct KeyboardModifiers {
    pub shift: bool,
    pub alt: bool,
    pub control: bool,
    pub meta: bool,
}

/// Whether the modifier state `bits` has the bit `flag` set.
pub open spec fn has_flag(bits: u32, flag: u32) -> bool {
    bits & flag != 0
}

/// `winit::event::ModifiersState::shift`, on the state with the given bits.
/// winit defines it as `intersects(SHIFT)`, with `SHIFT = 0b100`: the
/// contract says that the result is whether that bit is set.
#[verifier::external_body]
fn winit_shift(bits: u32) -> (pressed: bool)
    ensures
        pressed == has_flag(bits, SHIFT_BIT),
{
    winit::event::ModifiersState::from_bits_truncate(bits).shift()
}

/// `winit::event::ModifiersState::ctrl`, on the state with the given bits.
/// winit defines it as `intersects(CTRL)`, with `CTRL = 0b100 << 3`: the
/// contract says that the result is whether that bit is set.
#[verifier::external_body]
fn winit_ctrl(bits: u32) -> (pressed: bool)
    ensures
        pressed == has_flag(bits, CTRL_BIT),
{
    winit::event::ModifiersState::from_bits_truncate(bits).ctrl()
}

/// `winit::event::ModifiersState::alt`, on the state with the given bits.
/// winit defines it as `intersects(ALT)`, with `ALT = 0b100 << 6`: the
/// contract says that the result is whether that bit is set.
#[verifier::external_body]
fn winit_alt(bits: u32) -> (pressed: bool)
    ensures
        pressed == has_flag(bits, ALT_BIT),
{
    winit::event::ModifiersState::from_bits_truncate(bits).alt()
}

/// `winit::event::ModifiersState::logo`, on the state with the given bits.
/// winit defines it as `intersects(LOGO)`, with `LOGO = 0b100 << 9`: the
/// contract says that the result is whether that bit is set.
#[verifier::external_body]
fn winit_logo(bits: u32) -> (pressed: bool)
    ensures
        pressed == has_flag(bits, LOGO_BIT),
{
    winit::event::ModifiersState::from_bits_truncate(bits).logo()
}

/// The runtime's modifiers for the modifier state `bits`.
///
/// Where `command_is_control` holds (macOS), the command (logo) key acts as
/// control and the control key as meta, so that shortcuts behave alike on
/// every platform; elsewhere control is control and the logo key is meta.
pub open spec fn spec_keyboard_modifiers(bits: u32, command_is_control: bool) -> KeyboardModifiers {
    let ctrl = has_flag(bits, CTRL_BIT);
    let logo = has_flag(bits, LOGO_BIT);
    KeyboardModifiers {
        shift: has_flag(bits, SHIFT_BIT),
        alt: has_flag(bits, ALT_BIT),
        control: if command_is_control { logo } else { ctrl },
        meta: if command_is_control { ctrl } else { logo },
    }
}

/// Translates the windowing system's modifier state into the runtime's
/// modifiers (see `spec_keyboard_modifiers`).
pub fn keyboard_modifiers(bits: u32, command_is_control: bool) -> (modifiers: KeyboardModifiers)
    ensures
        modifiers == spec_keyboard_modifiers(bits, command_is_control),
        modifiers.shift == (bits & 0b100u32 != 0),
        modifiers.alt == (bits & 0b100000000u32 != 0),
        modifiers.control == if command_is_control {
            bits & 0b100000000000u32 != 0
        } else {
            bits & 0b100000u32 != 0
        },
        modifiers.meta == if command_is_control {
            bits & 0b100000u32 != 0
        } else {
            bits & 0b100000000000u32 != 0
        },
{
    let ctrl = winit_ctrl(bits);
    let logo = winit_logo(bits);
    let (control, meta) = if command_is_control {
        (logo, ctrl)
    } else {
        (ctrl, logo)
    };
    KeyboardModifiers { shift: winit_shift(bits), alt: winit_alt(bits), control, meta }
}

/// Each modifier of the runtime is the state of its own key's bit in winit's
/// modifier state, whatever the other bits: shift is bit 2, alt bit 8, and
/// control and meta are bits 5 (ctrl) and 11 (logo), in that order, or the other
/// way round where command acts as control.
pub proof fn lemma_each_modifier_is_its_own_bit(bits: u32, command_is_control: bool)
    ensures
        spec_keyboard_modifiers(bits, command_is_control).shift == (bits & 0b100u32 != 0),
        spec_keyboard_modifiers(bits, command_is_control).alt == (bits & 0b100000000u32 != 0),
        !command_is_control ==> spec_keyboard_modifiers(bits, command_is_control).control == (
        bits & 0b100000u32 != 0),
        !command_is_control ==> spec_keyboard_modifiers(bits, command_is_control).meta == (bits
            & 0b100000000000u32 != 0),
        command_is_control ==> spec_keyboard_modifiers(bits, command_is_control).control == (bits
            & 0b100000000000u32 != 0),
        command_is_control ==> spec_keyboard_modifiers(bits, command_is_control).meta == (bits
            & 0b100000u32 != 0),
{
}

/// Holding several modifier keys at once reports each of them: with the bits of
/// shift and alt both set, shift and alt both hold; with all four bits set, all
/// four modifiers hold, on every platform.
pub proof fn lemma_combined_modifiers(bits: u32, command_is_control: bool)
    ensures
        (bits & 0b100u32 != 0 && bits & 0b100000000u32 != 0) ==> spec_keyboard_modifiers(
            bits,
            command_is_control,
        ).shift && spec_keyboard_modifiers(bits, command_is_control).alt,
        (bits & 0b100u32 != 0 && bits & 0b100000u32 != 0 && bits & 0b100000000u32 != 0 && bits
            & 0b100000000000u32 != 0) ==> spec_keyboard_modifiers(bits, command_is_control)
            == (KeyboardModifiers { shift: true, alt: true, control: true, meta: true }),
{
}

/// On the platform where command acts as control, control and meta trade
/// places; shift and alt do not depend on the platform.
pub proof fn lemma_command_swaps_control_and_meta(bits: u32)
    ensures
        spec_keyboard_modifiers(bits, true).control == spec_keyboard_modifiers(bits, false).meta,
        spec_keyboard_modifiers(bits, true).meta == spec_keyboard_modifiers(bits, false).control,
        spec_keyboard_modifiers(bits, true).shift == spec_keyboard_modifiers(bits, false).shift,
        spec_keyboard_modifiers(bits, true).alt == spec_keyboard_modifiers(bits, false).alt,
{
}

/// Each modifier of the runtime depends on one bit only: a state with no bits
/// set holds no modifier, and setting the shift bit sets shift and nothing else.
pub proof fn lemma_modifier_bits(command_is_control: bool)
    ensures
        spec_keyboard_modifiers(0, command_is_control) == (KeyboardModifiers {
            shift: false,
            alt: false,
            control: false,
            meta: false,
        }),
        spec_keyboard_modifiers(SHIFT_BIT, command_is_control) == (KeyboardModifiers {
            shift: true,
            alt: false,
            control: false,
            meta: false,
        }),
{
    assert(0u32 & 0b100u32 == 0) by (bit_vector);
    assert(0u32 & 0b100000u32 == 0) by (bit_vector);
    assert(0u32 & 0b100000000u32 == 0) by (bit_vector);
    assert(0u32 & 0b100000000000u32 == 0) by (bit_vector);
    assert(0b100u32 & 0b100u32 != 0) by (bit_vector);
    assert(0b100u32 & 0b100000u32 == 0) by (bit_vector);
    assert(0b100u32 & 0b100000000u32 == 0) by (bit_vector);
    assert(0b100u32 & 0b100000000000u32 == 0) by (bit_vector);
}

} // verus!

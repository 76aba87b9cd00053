use vstd::prelude::*;

verus! {

pub const IBUS_SHIFT_MASK: u32 = 1 << 0;
pub const IBUS_LOCK_MASK: u32 = 1 << 1;
pub const IBUS_CONTROL_MASK: u32 = 1 << 2;
pub const IBUS_MOD1_MASK: u32 = 1 << 3;
pub const IBUS_RELEASE_MASK: u32 = 1 << 30;
pub const IBUS_CAP_SURROUNDING_TEXT: u32 = 1 << 5;

pub const KEY_BACKSPACE: u32 = 0xff08;
pub const KEYCODE_BACKSPACE: u32 = 14;
pub const KEY_RETURN: u32 = 0xff0d;
pub const KEY_ESCAPE: u32 = 0xff1b;
pub const KEY_CAPS_LOCK: u32 = 0xffe5;
pub const KEY_CONTROL_L: u32 = 0xffe3;
pub const KEY_CONTROL_R: u32 = 0xffe4;
pub const KEY_SHIFT_L: u32 = 0xffe1;
pub const KEY_SHIFT_R: u32 = 0xffe2;
pub const KEY_ALT_L: u32 = 0xffe9;
pub const KEY_ALT_R: u32 = 0xffea;
pub const KEY_SPACE: u32 = 0x020;
pub const KEY_TAB: u32 = 0xff09;
pub const KEY_LEFT: u32 = 0xff51;
pub const KEY_UP: u32 = 0xff52;
pub const KEY_RIGHT: u32 = 0xff53;
pub const KEY_DOWN: u32 = 0xff54;

/// Whether any bit of `mask` is set in `modifiers`.
pub open spec fn has_mask(modifiers: u32, mask: u32) -> bool {
    modifiers & mask != 0
}

pub open spec fn is_ascii_alphabetic_code(code: u32) -> bool {
    (0x41 <= code <= 0x5A) || (0x61 <= code <= 0x7A)
}

/// ASCII punctuation, symbols and digits: the printable non-space ASCII
/// characters that are not letters.
pub open spec fn is_ascii_symbol_or_digit_code(code: u32) -> bool {
    0x21 <= code <= 0x7E && !is_ascii_alphabetic_code(code)
}

/// The ASCII letter a key value stands for.
pub open spec fn spec_ascii_letter(keyval: u32) -> Option<char> {
    if is_ascii_alphabetic_code(keyval) {
        Some(keyval as char)
    } else {
        None
    }
}

/// The ASCII symbol or digit a key value stands for.
pub open spec fn spec_ascii_symbol_or_digit(keyval: u32) -> Option<char> {
    if is_ascii_symbol_or_digit_code(keyval) {
        Some(keyval as char)
    } else {
        None
    }
}

/// Control or Alt is held: the key is a shortcut.
pub open spec fn spec_has_command_modifier(modifiers: u32) -> bool {
    has_mask(modifiers, IBUS_CONTROL_MASK) || has_mask(modifiers, IBUS_MOD1_MASK)
}

/// Shift, Control and Alt keys on either side.
pub open spec fn spec_is_modifier_key(keyval: u32) -> bool {
    keyval == KEY_SHIFT_L || keyval == KEY_SHIFT_R || keyval == KEY_CONTROL_L || keyval
        == KEY_CONTROL_R || keyval == KEY_ALT_L || keyval == KEY_ALT_R
}

pub fn ascii_letter(keyval: u32) -> (r: Option<char>)
    ensures
        r == spec_ascii_letter(keyval),
{
    match char::from_u32(keyval) {
        Some(ch) => {
            proof {
                crate::text::lemma_char_code_injective(ch, keyval as char);
            }
            let code = ch as u32;
            if (0x41 <= code && code <= 0x5A) || (0x61 <= code && code <= 0x7A) {
                Some(ch)
            } else {
                None
            }
        },
        None => None,
    }
}

pub fn ascii_symbol_or_digit(keyval: u32) -> (r: Option<char>)
    ensures
        r == spec_ascii_symbol_or_digit(keyval),
{
    let ch = char::from_u32(keyval)?;
    proof {
        crate::text::lemma_char_code_injective(ch, keyval as char);
    }
    let code = ch as u32;
    let graphic = 0x21 <= code && code <= 0x7E;
    let alphabetic = (0x41 <= code && code <= 0x5A) || (0x61 <= code && code <= 0x7A);
    if graphic && !alphabetic {
        Some(ch)
    } else {
        None
    }
}

pub fn has_command_modifier(modifiers: u32) -> (r: bool)
    ensures
        r == spec_has_command_modifier(modifiers),
{
    let r = modifiers & (IBUS_CONTROL_MASK | IBUS_MOD1_MASK) != 0;
    assert(IBUS_CONTROL_MASK == 4u32 && IBUS_MOD1_MASK == 8u32) by (bit_vector);
    assert(r == (modifiers & 4u32 != 0 || modifiers & 8u32 != 0)) by (bit_vector)
        requires
            r == (modifiers & (4u32 | 8u32) != 0),
    ;
    r
}

pub fn is_modifier_key(keyval: u32) -> (r: bool)
    ensures
        r == spec_is_modifier_key(keyval),
{
    keyval == KEY_SHIFT_L || keyval == KEY_SHIFT_R || keyval == KEY_CONTROL_L || keyval
        == KEY_CONTROL_R || keyval == KEY_ALT_L || keyval == KEY_ALT_R
}

} // verus!

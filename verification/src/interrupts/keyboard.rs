//! The opaque scancode-to-key collaborator: a stateful decoder that turns
//! the raw bytes read from the keyboard data port into zero-or-one key
//! events, each resolving to a printable character or a named
//! non-character key.
//!
//! The decoding tables live in the `pc_keyboard` crate; this module wraps
//! the three calls the handler makes and carries the decoder state between
//! interrupts. Nothing here promises what a scan code decodes to — the
//! handler is verified for every answer the decoder can give.

use vstd::prelude::*;

verus! {

#[verifier::external_type_specification]
#[verifier::external_body]
pub struct ExScancodeSet1(pc_keyboard::ScancodeSet1);

#[verifier::external_type_specification]
#[verifier::external_body]
pub struct ExKeyEvent(pc_keyboard::KeyEvent);

#[verifier::external_type_specification]
#[verifier::external_body]
pub struct ExKeyboardError(pc_keyboard::Error);

/// A resolved key press: a Unicode character, or a named non-character key
/// carried as its raw key-code number.
#[derive(Debug, Clone, Copy, PartialEq, Eq)]
pub enum KeyPress {
    Unicode(char),
    RawKey(u8),
}

/// Carries the scancode decoder's state from one keyboard interrupt to the
/// next. The decoder type is generic over layout and scan-code set with the
/// outside crate's own trait bounds, which cannot be declared here, so the
/// whole struct is held opaquely.
#[verifier::external_body]
pub struct KeyboardDecoder {
    inner: pc_keyboard::PS2Keyboard<pc_keyboard::layouts::Us104Key, pc_keyboard::ScancodeSet1>,
}

/// Relies on pc_keyboard::ScancodeSet1::new: a scan-code-set-1 decoder in
/// its start state.
#[verifier::external_body]
fn new_scancode_set1() -> pc_keyboard::ScancodeSet1 {
    pc_keyboard::ScancodeSet1::new()
}

/// Relies on pc_keyboard::PS2Keyboard::new: a fresh decoder for the US
/// 104-key layout that leaves control-key letter mapping off.
#[verifier::external_body]
fn new_ps2_keyboard(set: pc_keyboard::ScancodeSet1) -> KeyboardDecoder {
    KeyboardDecoder {
        inner: pc_keyboard::PS2Keyboard::new(
            set,
            pc_keyboard::layouts::Us104Key,
            pc_keyboard::HandleControl::Ignore,
        ),
    }
}

/// Relies on pc_keyboard::PS2Keyboard::add_byte: advances the decoder state
/// by one scan-code byte; a completed sequence yields a key event, a
/// malformed byte an error, anything else nothing yet.
#[verifier::external_body]
fn keyboard_add_byte(kb: &mut KeyboardDecoder, scancode: u8) -> Result<
    Option<pc_keyboard::KeyEvent>,
    pc_keyboard::Error,
> {
    kb.inner.add_byte(scancode)
}

/// Relies on pc_keyboard::PS2Keyboard::process_keyevent: resolves a key
/// event against the tracked modifier state; a Unicode answer is handed on
/// as the character, a named key as its raw key-code number.
#[verifier::external_body]
fn keyboard_process_keyevent(kb: &mut KeyboardDecoder, ev: pc_keyboard::KeyEvent) -> Option<
    KeyPress,
> {
    match kb.inner.process_keyevent(ev) {
        Some(pc_keyboard::DecodedKey::Unicode(c)) => Some(KeyPress::Unicode(c)),
        Some(pc_keyboard::DecodedKey::RawKey(k)) => Some(KeyPress::RawKey(k as u8)),
        None => None,
    }
}

impl KeyboardDecoder {
    pub fn new() -> KeyboardDecoder {
        new_ps2_keyboard(new_scancode_set1())
    }

    /// Feed one scan-code byte: a completed key event that resolves against
    /// the decoder's state comes back as a key press; a partial sequence, a
    /// malformed byte or an unresolved event comes back as nothing, exactly
    /// as the collaborator decides.
    pub fn decode(&mut self, scancode: u8) -> Option<KeyPress> {
        match keyboard_add_byte(self, scancode) {
            Ok(Some(ev)) => keyboard_process_keyevent(self, ev),
            _ => None,
        }
    }
}

} // verus!

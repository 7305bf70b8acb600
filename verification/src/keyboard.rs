//! Keyboard controller: a data register and a control/status register with a
//! one-shot "key ready" strobe protocol.
//!
//! The control register models a legacy peripheral-interface-adapter status
//! line: the first control write with bit 7 set while interrupt mode is still
//! disabled enables interrupt mode (and is not stored); afterwards, reading
//! the control register while its high bit is set consumes the "key ready"
//! signal exactly once, clearing the register and returning the fixed ready
//! code `0xA7`.

use vstd::prelude::*;

verus! {

/// Fixed code returned by a control-register read that consumes the strobe.
pub const KEY_READY_CODE: u8 = 0xA7;

/// State of the keyboard interface: data register, control register, and the
/// one-shot interrupt-mode latch.
#[derive(Clone, Copy, Debug, PartialEq, Eq, Structural)]
pub struct Keyboard {
    /// Data register: the most recently injected key byte.
    pub kbd: u8,
    /// Control/status register.
    pub cr: u8,
    /// One-shot latch: set by the first control write with bit 7 while clear.
    pub kbd_interrupts: bool,
}

impl Keyboard {
    /// The initial state: both registers zero, interrupt mode disabled.
    pub open spec fn spec_new() -> Keyboard {
        Keyboard { kbd: 0, cr: 0, kbd_interrupts: false }
    }

    /// State after a control-register write of `cr`.
    pub open spec fn spec_write_cr(self, cr: u8) -> Keyboard {
        if !self.kbd_interrupts && cr >= 0x80 {
            (Keyboard { kbd_interrupts: true, ..self })
        } else {
            (Keyboard { cr, ..self })
        }
    }

    /// Value returned by a control-register read.
    pub open spec fn spec_read_cr_result(self) -> u8 {
        if self.kbd_interrupts && self.cr >= 0x80 {
            KEY_READY_CODE
        } else {
            self.cr
        }
    }

    /// State after a control-register read: the strobe, if observed, is
    /// consumed by clearing the control register.
    pub open spec fn spec_read_cr_state(self) -> Keyboard {
        if self.kbd_interrupts && self.cr >= 0x80 {
            (Keyboard { cr: 0, ..self })
        } else {
            self
        }
    }

    pub fn new() -> (k: Keyboard)
        ensures
            k == Keyboard::spec_new(),
    {
        Keyboard { kbd: 0, cr: 0, kbd_interrupts: false }
    }

    /// Store `kbd` in the data register; no other side effect.
    pub fn write_kbd(&mut self, kbd: u8)
        ensures
            *final(self) == (Keyboard { kbd, ..*old(self) }),
    {
        self.kbd = kbd;
    }

    /// Return the data register; non-destructive.
    pub fn read_kbd(&mut self) -> (r: u8)
        ensures
            r == old(self).kbd,
            *final(self) == *old(self),
    {
        self.kbd
    }

    /// Control-register write. The first write with bit 7 set while interrupt
    /// mode is disabled enables interrupt mode and is not stored; every other
    /// write stores the byte verbatim.
    pub fn write_cr(&mut self, cr: u8)
        ensures
            *final(self) == old(self).spec_write_cr(cr),
    {
        if !self.kbd_interrupts && cr >= 0x80 {
            self.kbd_interrupts = true;
        } else {
            self.cr = cr;
        }
    }

    /// Control-register read. While interrupt mode is enabled and the stored
    /// register has bit 7 set, this is the "key ready" strobe: the register
    /// is cleared and the fixed ready code is returned. Otherwise the stored
    /// register is returned unchanged.
    pub fn read_cr(&mut self) -> (r: u8)
        ensures
            r == old(self).spec_read_cr_result(),
            *final(self) == old(self).spec_read_cr_state(),
    {
        if self.kbd_interrupts && self.cr >= 0x80 {
            self.cr = 0;
            KEY_READY_CODE
        } else {
            self.cr
        }
    }
}

impl Default for Keyboard {
    /// Same state as `Keyboard::new`.
    fn default() -> (k: Keyboard)
        ensures
            k == Keyboard::spec_new(),
    {
        Keyboard::new()
    }
}

} // verus!

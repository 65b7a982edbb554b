//! The serial port, which here only echoes the transferred bytes.
use crate::constants::{SERIAL_TRANSFER_CTRL, SERIAL_TRANSFER_DATA};
use vstd::prelude::*;

verus! {

/// Represents the Serial transfer control register at 0xFF02: bit 0 selects the internal
/// clock, bit 1 the high speed clock (CGB only), bit 7 requests a transfer.
#[derive(Copy, Clone, PartialEq, Eq, Structural, Debug)]
pub struct Control {
    pub bits: u8,
}

/// Bit 7 of the control register: a transfer is requested or in progress.
pub const TRANSFER_ENABLE: u8 = 0b1000_0000;

impl Control {
    /// The register with the given bits; the undefined bits 2-6 are dropped.
    pub fn from_bits_truncate(bits: u8) -> (r: Self)
        ensures
            r.bits == bits & 0b1000_0011,
    {
        Control { bits: bits & 0b1000_0011 }
    }
}

/// The serial transfer registers.
#[derive(Copy, Clone, PartialEq, Eq, Structural, Debug)]
pub struct SerialTransfer {
    /// The transfer control register.
    pub control: Control,
    /// The transfer data register.
    pub data: u8,
    /// Whether transferred bytes are echoed as text.
    pub print_serial: bool,
}

/// Whether `address` is one of the two serial registers.
pub open spec fn is_serial_address(address: u16) -> bool {
    address == SERIAL_TRANSFER_DATA || address == SERIAL_TRANSFER_CTRL
}

impl SerialTransfer {
    /// A serial port with cleared registers.
    pub fn new(print_serial: bool) -> (r: Self)
        ensures
            r == (SerialTransfer { control: Control { bits: 0 }, data: 0, print_serial }),
    {
        Self { control: Control { bits: 0 }, data: 0, print_serial }
    }

    /// The character echoed for a transfer of `data`: the byte itself if it is ASCII,
    /// else `?`.
    pub open spec fn echo(data: u8) -> char {
        if data < 128 {
            data as char
        } else {
            '?'
        }
    }

    /// Writes a serial register. Writing the control register with the transfer bit set
    /// starts a transfer, whose byte is returned for echoing when echoing is enabled.
    pub fn write(&mut self, address: u16, value: u8) -> (echoed: Option<char>)
        requires
            is_serial_address(address),
        ensures
            address == SERIAL_TRANSFER_DATA ==> *final(self) == (SerialTransfer { data: value, ..*old(self) })
                && echoed == None::<char>,
            address == SERIAL_TRANSFER_CTRL ==> *final(self) == (SerialTransfer {
                control: Control { bits: value & 0b1000_0011 },
                ..*old(self)
            }) && echoed == if old(self).print_serial && value & TRANSFER_ENABLE != 0 {
                Some(Self::echo(old(self).data))
            } else {
                None
            },
    {
        if address == SERIAL_TRANSFER_DATA {
            self.data = value;
            None
        } else {
            self.set_ctrl(value)
        }
    }

    /// Sets the control register; returns the byte to echo if a transfer starts.
    fn set_ctrl(&mut self, value: u8) -> (echoed: Option<char>)
        ensures
            *final(self) == (SerialTransfer { control: Control { bits: value & 0b1000_0011 }, ..*old(self) }),
            echoed == if old(self).print_serial && value & TRANSFER_ENABLE != 0 {
                Some(Self::echo(old(self).data))
            } else {
                None
            },
    {
        self.control = Control::from_bits_truncate(value);
        let bits = value;
        assert((bits & 0b1000_0011u8) & 0b1000_0000u8 == bits & 0b1000_0000u8) by (bit_vector);
        if self.print_serial && self.control.bits & TRANSFER_ENABLE != 0 {
            if self.data < 128 {
                Some(self.data as char)
            } else {
                Some('?')
            }
        } else {
            None
        }
    }

    /// Reads a serial register; the undocumented bits of the control register read as 1.
    pub fn read(&mut self, address: u16) -> (r: u8)
        requires
            is_serial_address(address),
        ensures
            r == if address == SERIAL_TRANSFER_DATA {
                old(self).data
            } else {
                old(self).control.bits | 0b0111_1110
            },
            *final(self) == *old(self),
    {
        if address == SERIAL_TRANSFER_DATA {
            self.data
        } else {
            self.control.bits | 0b0111_1110
        }
    }
}

impl Default for SerialTransfer {
    fn default() -> (r: Self)
        ensures
            r == (SerialTransfer { control: Control { bits: 0 }, data: 0, print_serial: false }),
    {
        Self { control: Control { bits: 0 }, data: 0, print_serial: false }
    }
}

} // verus!

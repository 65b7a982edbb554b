//! The OAM DMA controller, which copies 160 bytes into the sprite table.
use crate::constants::UNDEFINED_READ;
use vstd::prelude::*;

verus! {

/// The number of bytes one OAM DMA transfer copies.
pub const OAM_TRANSFER_SIZE: u8 = 0xA0;

/// This controller holds all data required for the OAM DMA transfer.
/// It takes 2 machine cycles until the transfer is started.
///   M = 0: write to $FF46 happens
///   M = 1: nothing (OAM still accessible)
///   M = 2: new DMA starts, OAM reads will return $FF
///
/// Also, when OAM DMA is restarted while a previous one is running, the previous one
/// is not immediately stopped.
///
/// source, requested and pending hold the upper bits of the source address.
#[derive(Copy, Clone, PartialEq, Eq, Structural, Debug)]
pub struct OamDmaController {
    pub is_running: bool,
    pub source: u8,
    pub requested: Option<u8>,
    pub pending: Option<u8>,
    pub source_address: u16,  // Holds the current transfer source address
}

impl OamDmaController {
    /// The idle controller.
    pub open spec fn default_spec() -> Self {
        OamDmaController {
            is_running: false,
            source: UNDEFINED_READ,
            requested: None,
            pending: None,
            source_address: 0x0000,
        }
    }
}

impl OamDmaController {
    /// The controller after `start(source)`.
    pub open spec fn started(self, source: u8) -> Self {
        OamDmaController {
            source,
            is_running: true,
            source_address: (source * 256) as u16,
            ..self
        }
    }

    /// The controller after one `transfer()`, and the address that call returns.
    pub open spec fn transferred(self) -> (Self, Option<u16>) {
        if !self.is_running {
            (self, None)
        } else {
            let next = (if self.source_address == 0xFFFF {
                0
            } else {
                self.source_address + 1
            }) as u16;
            (
                OamDmaController {
                    source_address: next,
                    is_running: next % 256 < OAM_TRANSFER_SIZE,
                    ..self
                },
                Some(self.source_address),
            )
        }
    }

    /// The controller after `n` calls of `transfer()`.
    pub open spec fn after_transfers(self, n: nat) -> Self
        decreases n,
    {
        if n == 0 {
            self
        } else {
            self.after_transfers((n - 1) as nat).transferred().0
        }
    }

    /// After `start(source)`, the first 160 transfers hand out the source bytes
    /// `source * 0x100 + i` one after another, and the transfer is then over: every further
    /// call returns `None` until the next start.
    pub proof fn lemma_transfer_sequence(self, source: u8, n: nat)
        ensures
            n < OAM_TRANSFER_SIZE ==> self.started(source).after_transfers(n).is_running
                && self.started(source).after_transfers(n).transferred().1 == Some(
                (source * 256 + n) as u16,
            ),
            n >= OAM_TRANSFER_SIZE ==> !self.started(source).after_transfers(n).is_running
                && self.started(source).after_transfers(n).transferred().1 == None::<u16>,
        decreases n,
    {
        let s = self.started(source);
        if n <= OAM_TRANSFER_SIZE {
            s.lemma_running_prefix(source, n);
        } else {
            self.lemma_transfer_sequence(source, (n - 1) as nat);
        }
    }

    /// The controller after `n <= 160` transfers from a start: its address has moved on
    /// by `n`, and it runs while `n < 160`.
    proof fn lemma_running_prefix(self, source: u8, n: nat)
        requires
            self.is_running,
            self.source == source,
            self.source_address == source * 256,
            n <= OAM_TRANSFER_SIZE,
        ensures
            self.after_transfers(n) == (OamDmaController {
                source_address: (source * 256 + n) as u16,
                is_running: n < OAM_TRANSFER_SIZE,
                ..self
            }),
        decreases n,
    {
        if n > 0 {
            self.lemma_running_prefix(source, (n - 1) as nat);
            let a = source * 256 + n;
            assert(a % 256 == n) by (nonlinear_arith)
                requires
                    a == source * 256 + n,
                    0 < n <= 160,
            ;
        }
    }
}

impl Default for OamDmaController {
    fn default() -> (r: Self)
        ensures
            r == OamDmaController::default_spec(),
    {
        Self {
            is_running: false,
            source: UNDEFINED_READ,
            requested: None,
            pending: None,
            source_address: 0x0000,
        }
    }
}

impl OamDmaController {
    /// Requests a new OAM DMA transfer.
    pub fn request(&mut self, value: u8)
        ensures
            *final(self) == (OamDmaController { requested: Some(value), ..*old(self) }),
    {
        self.requested = Some(value);
    }

    /// Starts the OAM DMA transfer, the passed value specifies the transfer source address
    /// divided by 0x100.
    pub fn start(&mut self, source: u8)
        ensures
            *final(self) == (OamDmaController {
                source,
                is_running: true,
                source_address: (source * 256) as u16,
                ..*old(self)
            }),
            *final(self) == old(self).started(source),
    {
        self.source = source;
        self.is_running = true;
        self.source_address = source as u16 * 256;
    }

    /// Returns the current source address and increments it by 1; the transfer ends once
    /// the low byte of the address reaches 0xA0.
    pub fn transfer(&mut self) -> (r: Option<u16>)
        ensures
            !old(self).is_running ==> r == None::<u16> && *final(self) == *old(self),
            old(self).is_running ==> ({
                let next = (if old(self).source_address == 0xFFFF {
                    0
                } else {
                    old(self).source_address + 1
                }) as u16;
                &&& r == Some(old(self).source_address)
                &&& *final(self) == (OamDmaController {
                    source_address: next,
                    is_running: next % 256 < OAM_TRANSFER_SIZE,
                    ..*old(self)
                })
            }),
            (*final(self), r) == old(self).transferred(),
    {
        if !self.is_running {
            return None;
        }
        let address = self.source_address;
        self.source_address = self.source_address.wrapping_add(1);
        // Check if the transfer is complete. The low byte of the address is the offset of
        // the current byte, as the source only specified the upper bits.
        if self.source_address % 256 >= OAM_TRANSFER_SIZE as u16 {
            self.is_running = false;
        }
        Some(address)
    }
}

} // verus!

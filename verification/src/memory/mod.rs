//! The memory bus: maps the address space onto the cartridge, the RAM areas and the
//! I/O registers.
use crate::bus::{Bus, InterruptRegister, SubSystem};
use crate::cartridge::Cartridge;
use crate::constants::{
    BOOT_END, BOOT_ROM_OFF, CGB_PREPARE_SPEED_SWITCH, CGB_WRAM_BANK, CRAM_BANK_BEGIN, CRAM_BANK_END,
    ERAM_BEGIN, ERAM_END, ERAM_SIZE, HRAM_BEGIN, HRAM_END, INTERRUPT_FLAG, IO_BEGIN, IO_END,
    OAM_BEGIN, OAM_END, PCM_AMPLITUDES12, PCM_AMPLITUDES34, PPU_DMA, ROM_HIGH_BANK_END,
    TIMER_DIVIDER, UNUSED_END, VRAM_BEGIN, VRAM_END, WRAM_BEGIN, WRAM_END,
};
use crate::cartridge::{byte_at, is_cartridge_address, read_byte_offset};
use crate::utils::{set_bit, with_bit_spec};
use vstd::array::spec_array_update;
use vstd::prelude::*;

verus! {

/// Whether the I/O address has no register behind it, so that reads yield 0xFF.
pub open spec fn is_unmapped_io(address: u16) -> bool {
    address == 0xFF03 || (0xFF08 <= address <= 0xFF0E) || address == 0xFF15 || address == 0xFF1F || (
    0xFF27 <= address <= 0xFF2F) || address == CGB_PREPARE_SPEED_SWITCH || address == 0xFF4E || (
    0xFF57 <= address <= 0xFF5F) || (0xFF6C <= address <= 0xFF6F) || address == CGB_WRAM_BANK || (
    0xFF71 <= address <= 0xFF75) || address == PCM_AMPLITUDES12 || address == PCM_AMPLITUDES34 || (
    0xFF78 <= address <= 0xFF7F)
}

/// Defines a global MemoryBus, all processing units should access memory through this bus.
pub struct MemoryBus {
    pub cartridge: Cartridge,
    pub boot_rom: Vec<u8>,
    pub vram: [u8; 8192],
    pub wram: [u8; 8192],
    pub eram: [u8; 7680],
    pub oam: [u8; 160],
    pub io: [u8; 128],
    pub hram: [u8; 127],
    pub ie: u8,
}

impl MemoryBus {
    /// Whether the boot ROM is mapped over the start of the cartridge ROM: until a
    /// non-zero value is written to BOOT_ROM_OFF.
    pub open spec fn boot_rom_active(self) -> bool {
        self.io[BOOT_ROM_OFF - IO_BEGIN] == 0
    }

    /// The value a read of an I/O register yields.
    pub open spec fn io_peek(self, address: u16) -> u8 {
        if is_unmapped_io(address) {
            0xFF
        } else {
            self.io[address - IO_BEGIN]
        }
    }

    /// The OAM after a DMA transfer from `value * 100`: byte `i` is the byte read at the
    /// source address plus `i`.
    pub open spec fn oam_after_dma(self, value: u8) -> [u8; 160] {
        choose|oam: [u8; 160]| #[trigger] self.dma_copied(value, oam)
    }

    /// Whether `oam` holds the 160 bytes read from `value * 100` on.
    pub open spec fn dma_copied(self, value: u8, oam: [u8; 160]) -> bool {
        forall|i: int| 0 <= i < 160 ==> #[trigger] oam[i] == self.peek((value * 100 + i) as u16)
    }

    /// The bus after a write to the I/O area: writing DIV resets it, writing DMA starts
    /// the OAM transfer, other registers store the value.
    pub open spec fn io_poke(self, address: u16, value: u8) -> Self {
        if address == TIMER_DIVIDER {
            MemoryBus { io: spec_array_update(self.io, address - IO_BEGIN, 0), ..self }
        } else if address == PPU_DMA {
            MemoryBus { oam: self.oam_after_dma(value), ..self }
        } else {
            MemoryBus { io: spec_array_update(self.io, address - IO_BEGIN, value), ..self }
        }
    }

    /// A bus over `cartridge` with cleared RAM and registers, the boot ROM mapped in.
    pub fn new(cartridge: Cartridge, boot_rom: Vec<u8>) -> (r: Self)
        ensures
            r.cartridge == cartridge,
            r.boot_rom@ == boot_rom@,
            r.vram@ == Seq::new(8192, |i: int| 0u8),
            r.wram@ == Seq::new(8192, |i: int| 0u8),
            r.eram@ == Seq::new(7680, |i: int| 0u8),
            r.oam@ == Seq::new(160, |i: int| 0u8),
            r.io@ == Seq::new(128, |i: int| 0u8),
            r.hram@ == Seq::new(127, |i: int| 0u8),
            r.ie == 0,
    {
        let r = Self {
            cartridge,
            boot_rom,
            vram: [0u8; 8192],
            wram: [0u8; 8192],
            eram: [0u8; 7680],
            oam: [0u8; 160],
            io: [0u8; 128],
            hram: [0u8; 127],
            ie: 0,
        };
        assert(r.vram@ =~= Seq::new(8192, |i: int| 0u8));
        assert(r.wram@ =~= Seq::new(8192, |i: int| 0u8));
        assert(r.eram@ =~= Seq::new(7680, |i: int| 0u8));
        assert(r.oam@ =~= Seq::new(160, |i: int| 0u8));
        assert(r.io@ =~= Seq::new(128, |i: int| 0u8));
        assert(r.hram@ =~= Seq::new(127, |i: int| 0u8));
        r
    }

    /// Requests an interrupt: sets bit `id` (0 = V-Blank ... 4 = Joypad) of IF.
    pub fn irq(&mut self, id: u8)
        requires
            id < 8,
        ensures
            *final(self) == (MemoryBus {
                io: spec_array_update(
                    old(self).io,
                    INTERRUPT_FLAG - IO_BEGIN,
                    with_bit_spec(old(self).io[INTERRUPT_FLAG - IO_BEGIN], id as nat, true) as u8,
                ),
                ..*old(self)
            }),
    {
        let req = set_bit(self.read(INTERRUPT_FLAG), id, true);
        self.write(INTERRUPT_FLAG, req);
    }

    /// Unchecked write to avoid memory traps: stores a value in DIV.
    /// This function should only be used in emulator internals!
    pub fn write_unchecked(&mut self, address: u16, value: u8)
        requires
            address == TIMER_DIVIDER,
        ensures
            *final(self) == (MemoryBus {
                io: spec_array_update(old(self).io, address - IO_BEGIN, value),
                ..*old(self)
            }),
    {
        broadcast use vstd::array::group_array_axioms;

        self.io[(address - IO_BEGIN) as usize] = value;
        assert(self.io =~= spec_array_update(old(self).io, address - IO_BEGIN, value));
    }

    /// Reads value from boot ROM or cartridge depending on BOOT_ROM_OFF register.
    fn read_cartridge(&mut self, address: u16) -> (r: u8)
        requires
            is_cartridge_address(address),
        ensures
            r == old(self).peek(address),
            *final(self) == *old(self),
    {
        if address <= BOOT_END && self.io[(BOOT_ROM_OFF - IO_BEGIN) as usize] == 0 {
            read_byte_offset(&self.boot_rom, 0, address)
        } else {
            self.cartridge.read(address)
        }
    }

    /// Initiate DMA transfer.
    fn dma_transfer(&mut self, value: u8)
        ensures
            *final(self) == (MemoryBus { oam: old(self).oam_after_dma(value), ..*old(self) }),
    {
        broadcast use vstd::array::group_array_axioms;

        let address = value as u16 * 100;
        let mut offset: u16 = 0;
        while offset < 0xA0
            invariant
                address == value * 100,
                offset <= 0xA0,
                *self == (MemoryBus { oam: self.oam, ..*old(self) }),
                forall|i: int| 0 <= i < offset ==> #[trigger] self.oam[i] == old(self).peek((address + i) as u16),
                forall|i: int| offset <= i < 160 ==> #[trigger] self.oam[i] == old(self).oam[i],
            decreases 0xA0 - offset,
        {
            let byte = self.read(address + offset);
            assert(self.peek((address + offset) as u16) == old(self).peek((address + offset) as u16));
            // The OAM byte at the offset, as a write to OAM_BEGIN + offset stores it
            self.oam[offset as usize] = byte;
            offset = offset + 1;
        }
        assert(old(self).dma_copied(value, self.oam));
        let ghost target = old(self).oam_after_dma(value);
        assert(old(self).dma_copied(value, target));
        assert(self.oam =~= target);
    }

    /// Writes to the I/O registers.
    fn write_io(&mut self, address: u16, value: u8)
        requires
            IO_BEGIN <= address <= IO_END,
        ensures
            *final(self) == old(self).io_poke(address, value),
    {
        broadcast use vstd::array::group_array_axioms;

        if address == TIMER_DIVIDER {
            // Trap the divider register, whenever a ROM tries to write to it, it resets to 0
            self.io[(address - IO_BEGIN) as usize] = 0;
            assert(self.io =~= spec_array_update(old(self).io, address - IO_BEGIN, 0));
        } else if address == PPU_DMA {
            self.dma_transfer(value);
        } else {
            self.io[(address - IO_BEGIN) as usize] = value;
            assert(self.io =~= spec_array_update(old(self).io, address - IO_BEGIN, value));
        }
    }

    /// Reads the I/O registers; unmapped ones read 0xFF.
    fn read_io(&self, address: u16) -> (r: u8)
        requires
            IO_BEGIN <= address <= IO_END,
        ensures
            r == self.io_peek(address),
    {
        if address == 0xFF03 || (0xFF08 <= address && address <= 0xFF0E) || address == 0xFF15
            || address == 0xFF1F || (0xFF27 <= address && address <= 0xFF2F) || address
            == CGB_PREPARE_SPEED_SWITCH || address == 0xFF4E || (0xFF57 <= address && address
            <= 0xFF5F) || (0xFF6C <= address && address <= 0xFF6F) || address == CGB_WRAM_BANK || (
        0xFF71 <= address && address <= 0xFF75) || address == PCM_AMPLITUDES12 || address
            == PCM_AMPLITUDES34 || (0xFF78 <= address && address <= 0xFF7F) {
            0xFF
        } else {
            self.io[(address - IO_BEGIN) as usize]
        }
    }
}

/// Whether `address` is plain RAM of the bus: video RAM, work RAM, echo RAM, OAM, high
/// RAM or the IE register.
pub open spec fn is_plain_ram(address: u16) -> bool {
    (VRAM_BEGIN <= address <= VRAM_END) || (WRAM_BEGIN <= address <= OAM_END) || (HRAM_BEGIN
        <= address)
}

/// A read of plain RAM gives back the byte last written there, and such a write leaves
/// the cartridge, the boot ROM and the I/O registers alone.
pub proof fn lemma_plain_ram_read_back(bus: MemoryBus, address: u16, value: u8)
    requires
        is_plain_ram(address),
    ensures
        bus.poke(address, value).peek(address) == value,
        bus.poke(address, value).cartridge == bus.cartridge,
        bus.poke(address, value).boot_rom == bus.boot_rom,
        bus.poke(address, value).io == bus.io,
{
    broadcast use vstd::array::group_array_axioms;

}

impl SubSystem for MemoryBus {
    /// The value a read of `address` yields.
    open spec fn peek(&self, address: u16) -> u8 {
        if address <= BOOT_END && self.boot_rom_active() {
            byte_at(self.boot_rom@, address as int)
        } else if address <= ROM_HIGH_BANK_END {
            self.cartridge.controller.peek(address)
        } else if address <= VRAM_END {
            self.vram[address - VRAM_BEGIN]
        } else if address <= CRAM_BANK_END {
            self.cartridge.controller.peek(address)
        } else if address <= WRAM_END {
            self.wram[address - WRAM_BEGIN]
        } else if address <= ERAM_END {
            self.eram[address - ERAM_BEGIN]
        } else if address <= OAM_END {
            self.oam[address - OAM_BEGIN]
        } else if address <= UNUSED_END {
            0xFF
        } else if address <= IO_END {
            self.io_peek(address)
        } else if address <= HRAM_END {
            self.hram[address - HRAM_BEGIN]
        } else {
            self.ie
        }
    }

    /// The bus after `value` has been written to `address`. A write to echo RAM also lands
    /// in work RAM, at the address less 0x1E00; the unused area ignores writes.
    open spec fn poke(&self, address: u16, value: u8) -> Self {
        if address <= ROM_HIGH_BANK_END || (CRAM_BANK_BEGIN <= address <= CRAM_BANK_END) {
            MemoryBus { cartridge: Cartridge { controller: self.cartridge.controller.written(address, value), ..self.cartridge }, ..*self }
        } else if address <= VRAM_END {
            MemoryBus { vram: spec_array_update(self.vram, address - VRAM_BEGIN, value), ..*self }
        } else if address <= WRAM_END {
            MemoryBus { wram: spec_array_update(self.wram, address - WRAM_BEGIN, value), ..*self }
        } else if address <= ERAM_END {
            MemoryBus {
                eram: spec_array_update(self.eram, address - ERAM_BEGIN, value),
                wram: spec_array_update(self.wram, address - ERAM_SIZE - WRAM_BEGIN, value),
                ..*self
            }
        } else if address <= OAM_END {
            MemoryBus { oam: spec_array_update(self.oam, address - OAM_BEGIN, value), ..*self }
        } else if address <= UNUSED_END {
            *self
        } else if address <= IO_END {
            self.io_poke(address, value)
        } else if address <= HRAM_END {
            MemoryBus { hram: spec_array_update(self.hram, address - HRAM_BEGIN, value), ..*self }
        } else {
            MemoryBus { ie: value, ..*self }
        }
    }

    fn write(&mut self, address: u16, value: u8) {
        broadcast use vstd::array::group_array_axioms;

        if address <= ROM_HIGH_BANK_END || (CRAM_BANK_BEGIN <= address && address <= CRAM_BANK_END) {
            self.cartridge.write(address, value);
        } else if address <= VRAM_END {
            self.vram[(address - VRAM_BEGIN) as usize] = value;
            assert(self.vram =~= spec_array_update(old(self).vram, address - VRAM_BEGIN, value));
        } else if address <= WRAM_END {
            self.wram[(address - WRAM_BEGIN) as usize] = value;
            assert(self.wram =~= spec_array_update(old(self).wram, address - WRAM_BEGIN, value));
        } else if address <= ERAM_END {
            // Writes to Echo RAM, mirroring to Working RAM
            self.eram[(address - ERAM_BEGIN) as usize] = value;
            self.wram[(address - ERAM_SIZE as u16 - WRAM_BEGIN) as usize] = value;
            assert(self.eram =~= spec_array_update(old(self).eram, address - ERAM_BEGIN, value));
            assert(self.wram =~= spec_array_update(old(self).wram, address - ERAM_SIZE - WRAM_BEGIN, value));
        } else if address <= OAM_END {
            self.oam[(address - OAM_BEGIN) as usize] = value;
            assert(self.oam =~= spec_array_update(old(self).oam, address - OAM_BEGIN, value));
        } else if address <= UNUSED_END {
        } else if address <= IO_END {
            self.write_io(address, value);
        } else if address <= HRAM_END {
            self.hram[(address - HRAM_BEGIN) as usize] = value;
            assert(self.hram =~= spec_array_update(old(self).hram, address - HRAM_BEGIN, value));
        } else {
            self.ie = value;
        }
    }

    fn read(&mut self, address: u16) -> (value: u8) {
        if address <= ROM_HIGH_BANK_END {
            self.read_cartridge(address)
        } else if address <= VRAM_END {
            self.vram[(address - VRAM_BEGIN) as usize]
        } else if address <= CRAM_BANK_END {
            self.read_cartridge(address)
        } else if address <= WRAM_END {
            self.wram[(address - WRAM_BEGIN) as usize]
        } else if address <= ERAM_END {
            self.eram[(address - ERAM_BEGIN) as usize]
        } else if address <= OAM_END {
            self.oam[(address - OAM_BEGIN) as usize]
        } else if address <= UNUSED_END {
            0xFF
        } else if address <= IO_END {
            self.read_io(address)
        } else if address <= HRAM_END {
            self.hram[(address - HRAM_BEGIN) as usize]
        } else {
            self.ie
        }
    }
}

impl Bus for MemoryBus {
    /// No clocked unit is attached to this bus, so a machine cycle changes nothing.
    open spec fn tick(&self) -> Self {
        *self
    }

    open spec fn ie(&self) -> u8 {
        self.ie
    }

    open spec fn iflag(&self) -> u8 {
        self.io[INTERRUPT_FLAG - IO_BEGIN]
    }

    open spec fn with_ie(&self, bits: u8) -> Self {
        MemoryBus { ie: bits, ..*self }
    }

    open spec fn with_if(&self, bits: u8) -> Self {
        MemoryBus { io: spec_array_update(self.io, INTERRUPT_FLAG - IO_BEGIN, bits), ..*self }
    }

    fn cycle(&mut self) {
    }

    fn has_irq(&self) -> (r: bool) {
        self.ie & self.io[(INTERRUPT_FLAG - IO_BEGIN) as usize] & 0b0001_1111 != 0
    }

    fn set_ie(&mut self, r: InterruptRegister) {
        self.ie = r.bits();
    }

    fn get_ie(&self) -> (r: InterruptRegister) {
        InterruptRegister::from_bits_retain(self.ie)
    }

    fn set_if(&mut self, r: InterruptRegister) {
        broadcast use vstd::array::group_array_axioms;

        self.io[(INTERRUPT_FLAG - IO_BEGIN) as usize] = r.bits();
        assert(self.io =~= spec_array_update(old(self).io, INTERRUPT_FLAG - IO_BEGIN, r@));
    }

    fn get_if(&self) -> (r: InterruptRegister) {
        InterruptRegister::from_bits_retain(self.io[(INTERRUPT_FLAG - IO_BEGIN) as usize])
    }
}

} // verus!

use crate::audio::{is_audio_address, AudioProcessor, AUDIO_REGISTERS_END, AUDIO_REGISTERS_START};
use crate::cartridge::{byte_at, is_cartridge_address, read_byte_offset, Cartridge};
use crate::constants::{
    BOOT_END, BOOT_ROM_OFF, CRAM_BANK_BEGIN, CRAM_BANK_END, ERAM_BEGIN, ERAM_END, HRAM_BEGIN,
    HRAM_END, INTERRUPT_ENABLE, INTERRUPT_FLAG, IO_BEGIN, IO_END, JOYPAD, OAM_END, ROM_HIGH_BANK_END,
    SERIAL_TRANSFER_CTRL, SERIAL_TRANSFER_DATA, TIMER_CTRL, TIMER_DIVIDER, UNDEFINED_READ,
    UNUSED_END, VRAM_END, WRAM_BEGIN, WRAM_END,
};
use crate::joypad::{
    flags_after, with_lines, Joypad, JoypadInputState, JoypadRegister, SELECT_BUTTONS, SELECT_DPAD,
};
use crate::oam::OamDmaController;
use crate::emulator::EmulatorConfig;
use crate::ppu::buffer::FrameBuffer;
use crate::ppu::misc::ColoredPixel;
use crate::ppu::registers::Registers;
use crate::ppu::{PPU, PPU_LCDC, PPU_WX};
use crate::serial::{Control, SerialTransfer, TRANSFER_ENABLE};
use crate::timer::{is_timer_address, Timer, TimerControl};
use vstd::array::spec_array_update;
use vstd::prelude::*;

verus! {

/// Represents the interrupt registers IE (0xFFFF) and IF (0xFF0F).
/// Bit 0 is V-Blank, bit 1 LCD STAT, bit 2 Timer, bit 3 Serial and bit 4 Joypad;
/// the register keeps whatever is written to the upper three bits.
#[derive(Copy, Clone, PartialEq, Eq, Structural, Debug)]
pub struct InterruptRegister {
    pub bits: u8,
}

/// The five interrupt sources in the order of their priority (highest first).
pub open spec fn irq_bit(index: int) -> u8 {
    if index == 0 {
        0b0000_0001
    } else if index == 1 {
        0b0000_0010
    } else if index == 2 {
        0b0000_0100
    } else if index == 3 {
        0b0000_1000
    } else {
        0b0001_0000
    }
}

/// The priority of the highest requested interrupt in `bits` among the five sources,
/// or 5 when none is requested.
pub open spec fn first_request(bits: u8) -> int {
    if bits & irq_bit(0) != 0 {
        0
    } else if bits & irq_bit(1) != 0 {
        1
    } else if bits & irq_bit(2) != 0 {
        2
    } else if bits & irq_bit(3) != 0 {
        3
    } else if bits & irq_bit(4) != 0 {
        4
    } else {
        5
    }
}

impl InterruptRegister {
    /// The raw register value.
    pub open spec fn view(self) -> u8 {
        self.bits
    }

    /// V-Blank interrupt.
    pub fn vblank() -> (r: Self)
        ensures
            r@ == 0b0000_0001,
    {
        InterruptRegister { bits: 0b0000_0001 }
    }

    /// LCD STAT interrupt.
    pub fn stat() -> (r: Self)
        ensures
            r@ == 0b0000_0010,
    {
        InterruptRegister { bits: 0b0000_0010 }
    }

    /// Timer overflow interrupt.
    pub fn timer() -> (r: Self)
        ensures
            r@ == 0b0000_0100,
    {
        InterruptRegister { bits: 0b0000_0100 }
    }

    /// Serial transfer completion interrupt.
    pub fn serial() -> (r: Self)
        ensures
            r@ == 0b0000_1000,
    {
        InterruptRegister { bits: 0b0000_1000 }
    }

    /// Joypad input interrupt.
    pub fn joypad() -> (r: Self)
        ensures
            r@ == 0b0001_0000,
    {
        InterruptRegister { bits: 0b0001_0000 }
    }

    /// No interrupt set.
    pub fn empty() -> (r: Self)
        ensures
            r@ == 0,
    {
        InterruptRegister { bits: 0 }
    }

    /// All five interrupts set.
    pub fn all() -> (r: Self)
        ensures
            r@ == 0b0001_1111,
    {
        InterruptRegister { bits: 0b0001_1111 }
    }

    /// The register holding exactly `bits`, undocumented bits included.
    pub fn from_bits_retain(bits: u8) -> (r: Self)
        ensures
            r@ == bits,
    {
        InterruptRegister { bits }
    }

    /// The register holding the five documented bits of `bits`.
    pub fn from_bits_truncate(bits: u8) -> (r: Self)
        ensures
            r@ == bits & 0b0001_1111,
    {
        InterruptRegister { bits: bits & 0b0001_1111 }
    }

    /// The raw register value.
    pub fn bits(&self) -> (r: u8)
        ensures
            r == self@,
    {
        self.bits
    }

    /// Whether all bits of `other` are set.
    pub fn contains(&self, other: Self) -> (r: bool)
        ensures
            r == (self@ & other@ == other@),
    {
        self.bits & other.bits == other.bits
    }

    /// Whether no bit is set.
    pub fn is_empty(&self) -> (r: bool)
        ensures
            r == (self@ == 0),
    {
        self.bits == 0
    }

    /// Sets all bits of `other`.
    pub fn insert(&mut self, other: Self)
        ensures
            final(self)@ == old(self)@ | other@,
    {
        self.bits = self.bits | other.bits;
    }

    /// Clears all bits of `other`.
    pub fn remove(&mut self, other: Self)
        ensures
            final(self)@ == old(self)@ & !other@,
    {
        self.bits = self.bits & !other.bits;
    }

    /// Clears all bits.
    pub fn clear(&mut self)
        ensures
            final(self)@ == 0,
    {
        self.bits = 0;
    }

    /// The bits set here and not in `other`.
    pub fn difference(&self, other: Self) -> (r: Self)
        ensures
            r@ == self@ & !other@,
    {
        InterruptRegister { bits: self.bits & !other.bits }
    }

    /// The bits set in both.
    pub fn intersection(&self, other: Self) -> (r: Self)
        ensures
            r@ == self@ & other@,
    {
        InterruptRegister { bits: self.bits & other.bits }
    }

    /// The requested interrupt of highest priority, if any, counting the five documented
    /// sources only: V-Blank first, then LCD STAT, Timer, Serial and Joypad.
    pub fn highest_prio(&self) -> (r: Option<InterruptRegister>)
        ensures
            r is None <==> first_request(self@) == 5,
            r matches Some(irq) ==> irq@ == irq_bit(first_request(self@)),
    {
        if self.bits & 0b0000_0001 != 0 {
            Some(InterruptRegister { bits: 0b0000_0001 })
        } else if self.bits & 0b0000_0010 != 0 {
            Some(InterruptRegister { bits: 0b0000_0010 })
        } else if self.bits & 0b0000_0100 != 0 {
            Some(InterruptRegister { bits: 0b0000_0100 })
        } else if self.bits & 0b0000_1000 != 0 {
            Some(InterruptRegister { bits: 0b0000_1000 })
        } else if self.bits & 0b0001_0000 != 0 {
            Some(InterruptRegister { bits: 0b0001_0000 })
        } else {
            None
        }
    }
}

/// The 16-bit value `a + d`, wrapping around at 0x10000.
pub open spec fn add16(a: u16, d: int) -> u16 {
    ((a as int + d) % 0x10000) as u16
}

/// The bus after one machine cycle and a read of `address`, with the value read.
pub open spec fn cread<B: Bus>(bus: B, address: u16) -> (B, u8) {
    (bus.tick(), bus.tick().peek(address))
}

/// The bus after one machine cycle and a write of `value` to `address`.
pub open spec fn cwrite<B: Bus>(bus: B, address: u16, value: u8) -> B {
    bus.tick().poke(address, value)
}

/// Whether every state of the bus type `B` behaves as plain memory: a read gives back the
/// last byte written to the address, a write leaves the other addresses alone, and the
/// passing of a machine cycle changes no byte.
pub open spec fn behaves_as_memory<B: Bus>() -> bool {
    &&& forall|s: B, a: u16, v: u8| #[trigger] s.poke(a, v).peek(a) == v
    &&& forall|s: B, a: u16, b: u16, v: u8| a != b ==> #[trigger] s.poke(a, v).peek(b) == s.peek(b)
    &&& forall|s: B, a: u16| #[trigger] s.tick().peek(a) == s.peek(a)
}

/// A memory-mapped unit of the emulator that can be read and written byte by byte.
///
/// The state of an implementation is described by two functions: `peek` gives the value
/// a read of an address returns, and `poke` the state that a write leaves behind.
pub trait SubSystem: Sized {
    /// The value that reading `address` yields in this state.
    spec fn peek(&self, address: u16) -> u8;

    /// The state after `value` has been written to `address`.
    spec fn poke(&self, address: u16, value: u8) -> Self;

    /// Writes a byte to the given address.
    fn write(&mut self, address: u16, value: u8)
        ensures
            *final(self) == old(self).poke(address, value),
    ;

    /// Reads a byte from the given address; reading changes no state.
    fn read(&mut self, address: u16) -> (value: u8)
        ensures
            value == old(self).peek(address),
            *final(self) == *old(self),
    ;
}

/// The hardware bus as seen by the CPU: memory accesses, the passing of machine cycles
/// and the two interrupt registers.
pub trait Bus: SubSystem {
    /// The state after one machine cycle has passed.
    spec fn tick(&self) -> Self;

    /// The interrupt enable register (IE).
    spec fn ie(&self) -> u8;

    /// The interrupt flag register (IF).
    spec fn iflag(&self) -> u8;

    /// The state with IE replaced by `bits`.
    spec fn with_ie(&self, bits: u8) -> Self;

    /// The state with IF replaced by `bits`.
    spec fn with_if(&self, bits: u8) -> Self;

    /// Advance the bus for 1 machine cycle.
    fn cycle(&mut self)
        ensures
            *final(self) == old(self).tick(),
    ;

    /// Indicates whether an interrupt is both requested and enabled.
    fn has_irq(&self) -> (r: bool)
        ensures
            r == (self.ie() & self.iflag() & 0b0001_1111 != 0),
    ;

    /// Sets the interrupt enable register.
    fn set_ie(&mut self, r: InterruptRegister)
        ensures
            *final(self) == old(self).with_ie(r@),
    ;

    /// Gets the interrupt enable register.
    fn get_ie(&self) -> (r: InterruptRegister)
        ensures
            r@ == self.ie(),
    ;

    /// Sets the interrupt flag register.
    fn set_if(&mut self, r: InterruptRegister)
        ensures
            *final(self) == old(self).with_if(r@),
    ;

    /// Gets the interrupt flag register.
    fn get_if(&self) -> (r: InterruptRegister)
        ensures
            r@ == self.iflag(),
    ;

    /// Advance the bus for 1 machine cycle and write a byte to the given address.
    fn cycle_write(&mut self, address: u16, value: u8)
        ensures
            *final(self) == old(self).tick().poke(address, value),
    {
        self.cycle();
        self.write(address, value);
    }

    /// Advance the bus for 1 machine cycle and read a byte from the given address.
    fn cycle_read(&mut self, address: u16) -> (value: u8)
        ensures
            value == old(self).tick().peek(address),
            *final(self) == old(self).tick(),
    {
        self.cycle();
        self.read(address)
    }
}


/// The system bus: the cartridge and the boot ROM, work and high RAM, the picture unit,
/// the timer, the serial port, the joypad, the audio registers and the two interrupt
/// registers. Every read and write goes to the unit that owns the address, and each
/// machine cycle advances the OAM DMA transfer, the picture unit and the timer.
///
/// This bus is that of the DMG: work RAM has its two fixed banks.
pub struct MainBus {
    pub is_booting: bool,
    pub boot_rom: Vec<u8>,
    pub apu: AudioProcessor,
    pub serial: SerialTransfer,
    pub cartridge: Cartridge,
    pub timer: Timer,
    pub ppu: PPU,
    pub joypad: Joypad,
    pub interrupt_enable: InterruptRegister,
    pub interrupt_flag: InterruptRegister,
    pub wram: [u8; 8192],
    pub hram: [u8; 127],
    pub serial_echo: Option<char>,
    pub frame_ready: bool,
}

impl MainBus {
    /// The invariant of the bus: the picture unit is in a consistent state. Every bus
    /// that `with_cartridge` makes has it, and reads, writes and machine cycles keep it.
    pub open spec fn wf(self) -> bool {
        self.ppu.wf()
    }

    /// Whether the boot ROM is mapped over the start of the cartridge ROM.
    pub open spec fn booting(self) -> bool {
        self.is_booting
    }

    /// The boot ROM image.
    pub open spec fn boot_image(self) -> Seq<u8> {
        self.boot_rom@
    }

    /// The cartridge.
    pub open spec fn cartridge_state(self) -> Cartridge {
        self.cartridge
    }

    /// The picture unit.
    pub open spec fn ppu_state(self) -> PPU {
        self.ppu
    }

    /// The timer.
    pub open spec fn timer_state(self) -> Timer {
        self.timer
    }

    /// The serial port.
    pub open spec fn serial_state(self) -> SerialTransfer {
        self.serial
    }

    /// The joypad.
    pub open spec fn joypad_state(self) -> Joypad {
        self.joypad
    }

    /// The audio registers.
    pub open spec fn apu_state(self) -> AudioProcessor {
        self.apu
    }

    /// The work RAM, both banks.
    pub open spec fn wram_state(self) -> Seq<u8> {
        self.wram@
    }

    /// The high RAM.
    pub open spec fn hram_state(self) -> Seq<u8> {
        self.hram@
    }

    /// The character that the serial port echoed last and that has not been taken yet.
    pub open spec fn echo_state(self) -> Option<char> {
        self.serial_echo
    }

    /// Whether the picture unit completed a frame that has not been taken yet.
    pub open spec fn frame_pending(self) -> bool {
        self.frame_ready
    }

    /// The value a read of the cartridge area yields: the boot ROM while it is mapped,
    /// else the cartridge.
    pub open spec fn cartridge_peek(self, address: u16) -> u8 {
        if self.is_booting && address <= BOOT_END {
            byte_at(self.boot_rom@, address as int)
        } else {
            self.cartridge.controller.peek(address)
        }
    }

    /// The value a read of an I/O register yields; the undocumented and write-only
    /// registers read 0xFF, and the unused bits of IF read 1.
    pub open spec fn io_peek(self, address: u16) -> u8 {
        if address == JOYPAD {
            self.joypad.register.bits
        } else if address == SERIAL_TRANSFER_DATA {
            self.serial.data
        } else if address == SERIAL_TRANSFER_CTRL {
            self.serial.control.bits | 0b0111_1110
        } else if is_timer_address(address) {
            self.timer.peek(address)
        } else if address == INTERRUPT_FLAG {
            self.interrupt_flag.bits | 0b1110_0000
        } else if is_audio_address(address) {
            self.apu.peek(address)
        } else if PPU_LCDC <= address <= PPU_WX {
            self.ppu.peek(address)
        } else {
            UNDEFINED_READ
        }
    }

    /// The joypad's register after its row selection has been written.
    pub open spec fn joypad_selected(joypad: Joypad, value: u8) -> u8 {
        with_lines(
            (joypad.register.bits & !(SELECT_DPAD | SELECT_BUTTONS)) | (value & (SELECT_DPAD
                | SELECT_BUTTONS)),
            joypad.input,
        )
    }

    /// The bus after a write to an I/O register: JOYP selects the joypad rows (a falling
    /// input line requests the joypad interrupt), the serial, timer, audio and picture
    /// registers go to their unit, IF takes the value, and a non-zero write to BOOT_ROM_OFF
    /// unmaps the boot ROM. Writing SC with the transfer bit set echoes the data byte when
    /// echoing is on. Other writes are dropped.
    pub open spec fn io_poked(self, address: u16, value: u8) -> Self {
        if address == JOYPAD {
            let bits = Self::joypad_selected(self.joypad, value);
            MainBus {
                joypad: Joypad { register: JoypadRegister { bits }, ..self.joypad },
                interrupt_flag: InterruptRegister {
                    bits: flags_after(self.interrupt_flag.bits, self.joypad.register.bits, bits),
                },
                ..self
            }
        } else if address == SERIAL_TRANSFER_DATA {
            MainBus { serial: SerialTransfer { data: value, ..self.serial }, ..self }
        } else if address == SERIAL_TRANSFER_CTRL {
            MainBus {
                serial: SerialTransfer { control: Control { bits: value & 0b1000_0011 }, ..self.serial },
                serial_echo: if self.serial.print_serial && value & TRANSFER_ENABLE != 0 {
                    Some(SerialTransfer::echo(self.serial.data))
                } else {
                    self.serial_echo
                },
                ..self
            }
        } else if is_timer_address(address) {
            MainBus { timer: self.timer.poke(address, value), ..self }
        } else if address == INTERRUPT_FLAG {
            MainBus { interrupt_flag: InterruptRegister { bits: value }, ..self }
        } else if is_audio_address(address) {
            MainBus { apu: self.apu.poked(address, value), ..self }
        } else if PPU_LCDC <= address <= PPU_WX {
            MainBus { ppu: self.ppu.poked(address, value), ..self }
        } else if address == BOOT_ROM_OFF && value > 0 {
            MainBus { is_booting: false, ..self }
        } else {
            self
        }
    }

    /// The bus with the OAM DMA controller replaced by `dma`.
    pub open spec fn with_dma(self, dma: OamDmaController) -> Self {
        MainBus { ppu: PPU { r: Registers { oam_dma: dma, ..self.ppu.r }, ..self.ppu }, ..self }
    }

    /// The bus after the OAM DMA step of a machine cycle: a running transfer copies the
    /// byte at its source address to the OAM, a pending transfer starts, and a requested
    /// one becomes pending.
    pub open spec fn oam_transferred(self) -> Self {
        let (dma, source) = self.ppu.r.oam_dma.transferred();
        let b = self.with_dma(dma);
        let c = match source {
            Some(address) => MainBus { ppu: b.ppu.dma_written(address, b.peek(address)), ..b },
            None => b,
        };
        let d = match c.ppu.r.oam_dma.pending {
            Some(s) => c.with_dma(OamDmaController { pending: None, ..c.ppu.r.oam_dma }.started(s)),
            None => c,
        };
        match d.ppu.r.oam_dma.requested {
            Some(s) => d.with_dma(
                OamDmaController { requested: None, pending: Some(s), ..d.ppu.r.oam_dma },
            ),
            None => d,
        }
    }

    /// A bus over `cartridge` with cleared RAM and registers and the boot ROM mapped in;
    /// `display` receives the frames that the picture unit draws.
    pub fn with_cartridge(
        cartridge: Cartridge,
        print_serial: bool,
        display: Option<FrameBuffer>,
        boot_rom: Vec<u8>,
    ) -> (r: Self)
        ensures
            r.booting(),
            r.boot_image() == boot_rom@,
            r.cartridge_state() == cartridge,
            r.serial_state() == (SerialTransfer { control: Control { bits: 0 }, data: 0, print_serial }),
            r.timer_state() == (Timer {
                divider: 0,
                counter: 0,
                modulo: 0,
                control: TimerControl { bits: 0 },
                counter_overflow: false,
            }),
            r.joypad_state().register.bits == 0b1100_1111,
            r.ppu_state().display == display,
            r.ppu_state().r.lcd_control.bits == 0,
            r.ie() == 0 && r.iflag() == 0,
            r.wram_state() == Seq::new(8192, |i: int| 0u8),
            r.hram_state() == Seq::new(127, |i: int| 0u8),
            r.apu_state().r@ == Seq::new(48, |i: int| 0u8),
            r.echo_state() is None,
            !r.frame_pending(),
            r.wf(),
    {
        broadcast use vstd::array::group_array_axioms;

        let r = MainBus {
            is_booting: true,
            boot_rom,
            apu: AudioProcessor::default(),
            serial: SerialTransfer::new(print_serial),
            ppu: PPU::new(display),
            joypad: Joypad::default(),
            interrupt_enable: InterruptRegister::empty(),
            interrupt_flag: InterruptRegister::empty(),
            timer: Timer::default(),
            wram: [0u8; 8192],
            hram: [0u8; 127],
            cartridge,
            serial_echo: None,
            frame_ready: false,
        };
        assert(r.wram@ =~= Seq::new(8192, |i: int| 0u8));
        assert(r.hram@ =~= Seq::new(127, |i: int| 0u8));
        r
    }

    /// Updates the configuration of the bus and the units it drives: echoing of the serial
    /// port follows `print_serial`, and an attached display starts over with a white frame.
    pub fn update_config(&mut self, config: &EmulatorConfig)
        ensures
            final(self).serial_state() == (SerialTransfer {
                print_serial: config.print_serial,
                ..old(self).serial_state()
            }),
            final(self).ppu_state().display matches Some(f) ==> forall|i: int|
                0 <= i < 23040 ==> f.buffer@[i] == ColoredPixel::White,
            final(self).ppu_state().display is Some == old(self).ppu_state().display is Some,
            *final(self) == (MainBus {
                serial: final(self).serial,
                ppu: PPU { display: final(self).ppu.display, ..old(self).ppu },
                ..*old(self)
            }),
            old(self).wf() ==> final(self).wf(),
    {
        self.serial.print_serial = config.print_serial;
        if self.ppu.display.is_some() {
            self.ppu.display = Some(FrameBuffer::new());
        }
    }

    /// Reads the boot ROM or the cartridge, depending on whether the boot ROM is still
    /// mapped.
    fn read_cartridge(&mut self, address: u16) -> (r: u8)
        requires
            is_cartridge_address(address),
        ensures
            r == old(self).cartridge_peek(address),
            *final(self) == *old(self),
    {
        if self.is_booting && address <= BOOT_END {
            read_byte_offset(&self.boot_rom, 0, address)
        } else {
            self.cartridge.read(address)
        }
    }

    /// Handles all writes to the I/O registers (0xFF00-0xFF7F).
    fn write_io(&mut self, address: u16, value: u8)
        requires
            IO_BEGIN <= address <= IO_END,
        ensures
            *final(self) == old(self).io_poked(address, value),
            old(self).wf() ==> final(self).wf(),
    {
        if address == JOYPAD {
            self.joypad.write(value, &mut self.interrupt_flag);
        } else if address == SERIAL_TRANSFER_DATA || address == SERIAL_TRANSFER_CTRL {
            let echoed = self.serial.write(address, value);
            if echoed.is_some() {
                self.serial_echo = echoed;
            }
        } else if TIMER_DIVIDER <= address && address <= TIMER_CTRL {
            self.timer.write(address, value);
        } else if address == INTERRUPT_FLAG {
            self.interrupt_flag = InterruptRegister::from_bits_retain(value);
        } else if AUDIO_REGISTERS_START <= address && address <= AUDIO_REGISTERS_END {
            self.apu.write(address, value);
        } else if PPU_LCDC <= address && address <= PPU_WX {
            self.ppu.write(address, value);
        } else if address == BOOT_ROM_OFF && value > 0 {
            self.is_booting = false;
        }
    }

    /// Handles all reads from the I/O registers (0xFF00-0xFF7F).
    fn read_io(&mut self, address: u16) -> (r: u8)
        requires
            IO_BEGIN <= address <= IO_END,
        ensures
            r == old(self).io_peek(address),
            *final(self) == *old(self),
    {
        if address == JOYPAD {
            self.joypad.read()
        } else if address == SERIAL_TRANSFER_DATA || address == SERIAL_TRANSFER_CTRL {
            self.serial.read(address)
        } else if TIMER_DIVIDER <= address && address <= TIMER_CTRL {
            self.timer.read(address)
        } else if address == INTERRUPT_FLAG {
            self.interrupt_flag.bits() | 0b1110_0000
        } else if AUDIO_REGISTERS_START <= address && address <= AUDIO_REGISTERS_END {
            self.apu.read(address)
        } else if PPU_LCDC <= address && address <= PPU_WX {
            self.ppu.read(address)
        } else {
            UNDEFINED_READ
        }
    }

    /// Checks if the OAM DMA transfer is active and transfers the data to the OAM.
    fn oam_transfer(&mut self)
        ensures
            *final(self) == old(self).oam_transferred(),
            old(self).wf() ==> final(self).wf(),
    {
        if let Some(source_address) = self.ppu.r.oam_dma.transfer() {
            let value = self.read(source_address);
            self.ppu.write_oam_dma(source_address, value);
        }
        if let Some(source) = self.ppu.r.oam_dma.pending {
            self.ppu.r.oam_dma.pending = None;
            self.ppu.r.oam_dma.start(source);
        }
        if let Some(source) = self.ppu.r.oam_dma.requested {
            self.ppu.r.oam_dma.requested = None;
            self.ppu.r.oam_dma.pending = Some(source);
        }
    }

    /// Hands a change of the pressed buttons to the joypad; a line that goes low requests
    /// the joypad interrupt.
    pub fn handle_joypad_input(&mut self, input: JoypadInputState)
        ensures
            ({
                let bits = with_lines(old(self).joypad_state().register.bits, input);
                &&& final(self).joypad_state() == (Joypad { input, register: JoypadRegister { bits } })
                &&& final(self).iflag() == flags_after(
                    old(self).iflag(),
                    old(self).joypad_state().register.bits,
                    bits,
                )
                &&& *final(self) == old(self).with_joypad(
                    Joypad { input, register: JoypadRegister { bits } },
                    flags_after(old(self).iflag(), old(self).joypad_state().register.bits, bits),
                )
            }),
    {
        self.joypad.handle_input(input, &mut self.interrupt_flag);
    }

    /// The bus with the joypad replaced by `joypad` and IF by `flags`.
    pub open spec fn with_joypad(self, joypad: Joypad, flags: u8) -> Self {
        MainBus { joypad, interrupt_flag: InterruptRegister { bits: flags }, ..self }
    }

    /// Takes the character that the serial port echoed last, if any.
    pub fn take_serial_echo(&mut self) -> (r: Option<char>)
        ensures
            r == old(self).echo_state(),
            final(self).echo_state() is None,
            *final(self) == old(self).without_echo(),
    {
        let r = self.serial_echo;
        self.serial_echo = None;
        r
    }

    /// The bus with no echoed character waiting.
    pub open spec fn without_echo(self) -> Self {
        MainBus { serial_echo: None, ..self }
    }

    /// Takes the frame that the picture unit completed, if a display is attached and a
    /// frame was completed since the last call.
    pub fn take_frame(&mut self) -> (r: Option<FrameBuffer>)
        ensures
            r == if old(self).frame_pending() {
                old(self).ppu_state().display
            } else {
                None
            },
            !final(self).frame_pending(),
            *final(self) == old(self).without_frame(),
    {
        let r = if self.frame_ready {
            self.ppu.display
        } else {
            None
        };
        self.frame_ready = false;
        r
    }

    /// The bus with no completed frame waiting.
    pub open spec fn without_frame(self) -> Self {
        MainBus { frame_ready: false, ..self }
    }

    /// Whether the boot ROM is still mapped.
    pub fn is_booting(&self) -> (r: bool)
        ensures
            r == self.booting(),
    {
        self.is_booting
    }

    /// Unmaps the boot ROM, as the boot ROM itself does when it is done.
    pub fn unmap_boot_rom(&mut self)
        ensures
            *final(self) == old(self).io_poked(BOOT_ROM_OFF, 1),
            !final(self).booting(),
    {
        self.write_io(BOOT_ROM_OFF, 1);
    }

    /// The cartridge.
    pub fn cartridge(&self) -> (r: &Cartridge)
        ensures
            *r == self.cartridge_state(),
    {
        &self.cartridge
    }

    /// The picture unit.
    pub fn ppu(&self) -> (r: &PPU)
        ensures
            *r == self.ppu_state(),
    {
        &self.ppu
    }

    /// The timer.
    pub fn timer(&self) -> (r: Timer)
        ensures
            r == self.timer_state(),
    {
        self.timer
    }

    /// The joypad.
    pub fn joypad(&self) -> (r: Joypad)
        ensures
            r == self.joypad_state(),
    {
        self.joypad
    }
}

impl SubSystem for MainBus {
    /// The value a read of `address` yields.
    open spec fn peek(&self, address: u16) -> u8 {
        if address <= ROM_HIGH_BANK_END {
            self.cartridge_peek(address)
        } else if address <= VRAM_END {
            self.ppu.peek(address)
        } else if address <= CRAM_BANK_END {
            self.cartridge_peek(address)
        } else if address <= WRAM_END {
            self.wram[address - WRAM_BEGIN]
        } else if address <= ERAM_END {
            // Echo RAM mirrors the work RAM.
            self.wram[address - ERAM_BEGIN]
        } else if address <= OAM_END {
            self.ppu.peek(address)
        } else if address <= UNUSED_END {
            UNDEFINED_READ
        } else if address <= IO_END {
            self.io_peek(address)
        } else if address <= HRAM_END {
            self.hram[address - HRAM_BEGIN]
        } else {
            self.interrupt_enable.bits
        }
    }

    /// The bus after `value` has been written to `address`; a write to echo RAM lands in
    /// the work RAM it mirrors, and the unused area ignores writes.
    open spec fn poke(&self, address: u16, value: u8) -> Self {
        if address <= ROM_HIGH_BANK_END || (CRAM_BANK_BEGIN <= address <= CRAM_BANK_END) {
            MainBus {
                cartridge: Cartridge {
                    controller: self.cartridge.controller.written(address, value),
                    ..self.cartridge
                },
                ..*self
            }
        } else if address <= VRAM_END {
            MainBus { ppu: self.ppu.poked(address, value), ..*self }
        } else if address <= WRAM_END {
            MainBus { wram: spec_array_update(self.wram, address - WRAM_BEGIN, value), ..*self }
        } else if address <= ERAM_END {
            MainBus { wram: spec_array_update(self.wram, address - ERAM_BEGIN, value), ..*self }
        } else if address <= OAM_END {
            MainBus { ppu: self.ppu.poked(address, value), ..*self }
        } else if address <= UNUSED_END {
            *self
        } else if address <= IO_END {
            self.io_poked(address, value)
        } else if address <= HRAM_END {
            MainBus { hram: spec_array_update(self.hram, address - HRAM_BEGIN, value), ..*self }
        } else {
            MainBus { interrupt_enable: InterruptRegister { bits: value }, ..*self }
        }
    }

    fn write(&mut self, address: u16, value: u8)
        ensures
            old(self).wf() ==> final(self).wf(),
    {
        broadcast use vstd::array::group_array_axioms;

        if address <= ROM_HIGH_BANK_END || (CRAM_BANK_BEGIN <= address && address <= CRAM_BANK_END) {
            self.cartridge.write(address, value);
        } else if address <= VRAM_END {
            self.ppu.write(address, value);
        } else if address <= WRAM_END {
            self.wram[(address - WRAM_BEGIN) as usize] = value;
            assert(self.wram =~= spec_array_update(old(self).wram, address - WRAM_BEGIN, value));
        } else if address <= ERAM_END {
            // Writes to Echo RAM, effectively mirroring to Working RAM
            self.wram[(address - ERAM_BEGIN) as usize] = value;
            assert(self.wram =~= spec_array_update(old(self).wram, address - ERAM_BEGIN, value));
        } else if address <= OAM_END {
            self.ppu.write(address, value);
        } else if address <= UNUSED_END {
        } else if address <= IO_END {
            self.write_io(address, value);
        } else if address <= HRAM_END {
            self.hram[(address - HRAM_BEGIN) as usize] = value;
            assert(self.hram =~= spec_array_update(old(self).hram, address - HRAM_BEGIN, value));
        } else {
            self.interrupt_enable = InterruptRegister::from_bits_retain(value);
        }
    }

    fn read(&mut self, address: u16) -> (value: u8) {
        if address <= ROM_HIGH_BANK_END {
            self.read_cartridge(address)
        } else if address <= VRAM_END {
            self.ppu.read(address)
        } else if address <= CRAM_BANK_END {
            self.read_cartridge(address)
        } else if address <= WRAM_END {
            self.wram[(address - WRAM_BEGIN) as usize]
        } else if address <= ERAM_END {
            // Reads from Echo RAM, effectively mirroring to Working RAM
            self.wram[(address - ERAM_BEGIN) as usize]
        } else if address <= OAM_END {
            self.ppu.read(address)
        } else if address <= UNUSED_END {
            UNDEFINED_READ
        } else if address <= IO_END {
            self.read_io(address)
        } else if address <= HRAM_END {
            self.hram[(address - HRAM_BEGIN) as usize]
        } else {
            self.interrupt_enable.bits()
        }
    }
}

impl Bus for MainBus {
    /// One machine cycle: the OAM DMA step, then a step of the picture unit (whose
    /// interrupts are requested in IF and whose completed frame waits to be taken), then a
    /// step of the timer. A picture unit out of its invariant, which no bus of
    /// `with_cartridge` reaches, is not stepped.
    open spec fn tick(&self) -> Self {
        let a = self.oam_transferred();
        let (_, irqs, ready) = a.ppu.stepped();
        let b = if a.ppu.wf() {
            MainBus {
                ppu: a.ppu.after_step(),
                interrupt_flag: InterruptRegister { bits: a.interrupt_flag.bits | irqs },
                frame_ready: a.frame_ready || ready,
                ..a
            }
        } else {
            a
        };
        let (t, flags) = b.timer.cycled(b.interrupt_flag.bits);
        MainBus { timer: t, interrupt_flag: InterruptRegister { bits: flags }, ..b }
    }

    open spec fn ie(&self) -> u8 {
        self.interrupt_enable.bits
    }

    open spec fn iflag(&self) -> u8 {
        self.interrupt_flag.bits
    }

    open spec fn with_ie(&self, bits: u8) -> Self {
        MainBus { interrupt_enable: InterruptRegister { bits }, ..*self }
    }

    open spec fn with_if(&self, bits: u8) -> Self {
        MainBus { interrupt_flag: InterruptRegister { bits }, ..*self }
    }

    fn cycle(&mut self)
        ensures
            old(self).wf() ==> final(self).wf(),
    {
        self.oam_transfer();
        if self.ppu.is_wf() {
            let ghost before = self.ppu;
            let ready = self.ppu.step(&mut self.interrupt_flag);
            proof {
                before.lemma_step_determined(self.ppu);
            }
            self.frame_ready = self.frame_ready || ready;
        }
        self.timer.cycle(&mut self.interrupt_flag);
    }

    fn has_irq(&self) -> (r: bool) {
        let enabled = self.interrupt_enable.bits() & 0b0001_1111;
        let flag = self.interrupt_flag.bits() & 0b0001_1111;
        proof {
            let e = self.interrupt_enable.bits;
            let f = self.interrupt_flag.bits;
            assert((e & 0b0001_1111) & (f & 0b0001_1111) == e & f & 0b0001_1111) by (bit_vector);
        }
        enabled & flag != 0
    }

    fn set_ie(&mut self, r: InterruptRegister) {
        self.interrupt_enable = r;
    }

    fn get_ie(&self) -> (r: InterruptRegister) {
        self.interrupt_enable
    }

    fn set_if(&mut self, r: InterruptRegister) {
        self.interrupt_flag = r;
    }

    fn get_if(&self) -> (r: InterruptRegister) {
        self.interrupt_flag
    }
}


/// Work, echo and high RAM of the main bus give back the byte last written: a read of the
/// written address yields it, echo RAM and the work RAM below it are one memory, and such
/// a write leaves the cartridge and the clocked units alone.
pub proof fn lemma_main_bus_ram_read_back(bus: MainBus, address: u16, value: u8)
    requires
        (WRAM_BEGIN <= address <= ERAM_END) || (HRAM_BEGIN <= address <= HRAM_END),
    ensures
        bus.poke(address, value).peek(address) == value,
        WRAM_BEGIN <= address <= 0xDDFF ==> bus.poke(address, value).peek(
            (address + 0x2000) as u16,
        ) == value,
        ERAM_BEGIN <= address <= ERAM_END ==> bus.poke(address, value).peek(
            (address - 0x2000) as u16,
        ) == value,
        bus.poke(address, value).cartridge == bus.cartridge,
        bus.poke(address, value).ppu == bus.ppu,
        bus.poke(address, value).timer == bus.timer,
        bus.poke(address, value).joypad == bus.joypad,
        bus.poke(address, value).serial == bus.serial,
        bus.poke(address, value).interrupt_flag == bus.interrupt_flag,
{
    broadcast use vstd::array::group_array_axioms;

}

/// IE reads back the byte written to it; IF reads back its five sources, its unused top
/// three bits reading as 1.
pub proof fn lemma_main_bus_interrupt_registers(bus: MainBus, value: u8)
    ensures
        bus.poke(INTERRUPT_ENABLE, value).peek(INTERRUPT_ENABLE) == value,
        bus.poke(INTERRUPT_ENABLE, value).ie() == value,
        bus.poke(INTERRUPT_FLAG, value).peek(INTERRUPT_FLAG) == value | 0b1110_0000,
        bus.poke(INTERRUPT_FLAG, value).iflag() == value,
{
}

/// A non-zero write to BOOT_ROM_OFF unmaps the boot ROM for good: the cartridge shows
/// through at its addresses, and no later write maps it back.
pub proof fn lemma_boot_rom_unmapped(bus: MainBus, value: u8, address: u16)
    requires
        value > 0,
        address <= BOOT_END,
    ensures
        bus.poke(BOOT_ROM_OFF, value).peek(address) == bus.cartridge.controller.peek(address),
        forall|later: u16, other: u8| #![trigger bus.poke(BOOT_ROM_OFF, value).poke(later, other)]
            !bus.poke(BOOT_ROM_OFF, value).poke(later, other).booting(),
{
}

/// Every machine cycle advances the timer's divider by one, wrapping around, whatever
/// else happens on the bus in it.
pub proof fn lemma_cycle_advances_divider(bus: MainBus)
    ensures
        bus.tick().timer.divider == (if bus.timer.divider == 0xFFFF {
            0
        } else {
            bus.timer.divider + 1
        }),
{
}

/// With echoing on, a byte written to SB is echoed, as ASCII or else `?`, once a transfer
/// is started by a write to SC.
pub proof fn lemma_serial_echo(bus: MainBus, data: u8, control: u8)
    requires
        bus.serial.print_serial,
        control & TRANSFER_ENABLE != 0,
    ensures
        bus.poke(SERIAL_TRANSFER_DATA, data).poke(SERIAL_TRANSFER_CTRL, control).serial_echo
            == Some(SerialTransfer::echo(data)),
{
}

} // verus!

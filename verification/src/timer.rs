//! The timer and divider registers.
use crate::bus::{irq_bit, InterruptRegister};
use crate::constants::{TIMER_COUNTER, TIMER_CTRL, TIMER_DIVIDER, TIMER_MODULO};
use vstd::prelude::*;

verus! {

/// Represents the control register TAC at 0xFF07: bits 0-1 select the frequency, bit 2
/// enables the timer.
#[derive(Copy, Clone, PartialEq, Eq, Structural, Debug)]
pub struct TimerControl {
    pub bits: u8,
}

impl TimerControl {
    /// The divider bit whose falling edge increments the counter, for the selected frequency.
    pub open spec fn mask(self) -> u16 {
        let freq = self.bits & 0b11;
        if freq == 0 {
            1u16 << 7u16  // 4096 Hz
        } else if freq == 1 {
            1u16 << 1u16  // 262144 Hz
        } else if freq == 2 {
            1u16 << 3u16  // 65536 Hz
        } else {
            1u16 << 5u16  // 16384 Hz
        }
    }

    /// Whether the enable bit is set.
    pub open spec fn enabled(self) -> bool {
        self.bits & 0b100 != 0
    }

    /// The register with the given bits; the undefined bits 3-7 are dropped.
    pub fn from_bits_truncate(bits: u8) -> (r: Self)
        ensures
            r.bits == bits & 0b111,
    {
        TimerControl { bits: bits & 0b111 }
    }

    /// The raw register value.
    pub fn bits(&self) -> (r: u8)
        ensures
            r == self.bits,
    {
        self.bits
    }

    /// Returns the counter mask used for edge detection.
    pub fn divider_mask(self) -> (r: u16)
        ensures
            r == self.mask(),
    {
        let freq = self.bits & 0b11;
        if freq == 0 {
            1 << 7  // 4096 Hz
        } else if freq == 1 {
            1 << 1  // 262144 Hz
        } else if freq == 2 {
            1 << 3  // 65536 Hz
        } else {
            1 << 5  // 16384 Hz
        }
    }

    /// Returns whether the timer is enabled.
    pub fn is_enabled(self) -> (r: bool)
        ensures
            r == self.enabled(),
    {
        self.bits & 0b100 != 0
    }
}

impl Default for TimerControl {
    fn default() -> (r: Self)
        ensures
            r.bits == 0,
    {
        TimerControl { bits: 0 }
    }
}

/// This struct holds all timer related registers.
/// See https://gbdev.io/pandocs/Timer_and_Divider_Registers.html
#[derive(Copy, Clone, PartialEq, Eq, Structural, Debug)]
pub struct Timer {
    // DIV. The upper bits of the divider are mapped to memory but the two extra bits
    // at the top are not visible. Hence, we need to right shift the divider by 6 bits.
    pub divider: u16,
    pub counter: u8,  // TIMA
    pub modulo: u8,  // TMA
    pub control: TimerControl,  // TAC
    pub counter_overflow: bool,  // Indicates whether the counter overflowed during the last cycle
}

/// The facts about clock selects, watched bits and divider edges that the timer laws
/// rest on: a select is below 4, the watched bits are 0x80, 0x02, 0x08 and 0x20, and such
/// a bit falls as the divider moves on from `d` exactly when `d + 1` is a multiple of
/// twice the bit.
proof fn lemma_select_facts(bits: u8, d: u16)
    ensures
        bits & 0b11 < 4,
        1u16 << 7u16 == 0x80 && 1u16 << 1u16 == 0x02 && 1u16 << 3u16 == 0x08 && 1u16 << 5u16
            == 0x20,
        ({
            let n: u16 = (if d == 0xFFFF { 0 } else { d + 1 }) as u16;
            &&& (d & 0x80 != 0 && n & 0x80 == 0) <==> ((d as u32 + 1) % 256 == 0)
            &&& (d & 0x02 != 0 && n & 0x02 == 0) <==> ((d as u32 + 1) % 4 == 0)
            &&& (d & 0x08 != 0 && n & 0x08 == 0) <==> ((d as u32 + 1) % 16 == 0)
            &&& (d & 0x20 != 0 && n & 0x20 == 0) <==> ((d as u32 + 1) % 64 == 0)
        }),
{
    let n: u16 = (if d == 0xFFFF { 0 } else { d + 1 }) as u16;
    assert(bits & 0b11 < 4 && 1u16 << 7u16 == 0x80 && 1u16 << 1u16 == 0x02 && 1u16 << 3u16
        == 0x08 && 1u16 << 5u16 == 0x20 && ((d & 0x80 != 0 && n & 0x80 == 0) <==> ((d as u32
        + 1) % 256 == 0)) && ((d & 0x02 != 0 && n & 0x02 == 0) <==> ((d as u32 + 1) % 4 == 0))
        && ((d & 0x08 != 0 && n & 0x08 == 0) <==> ((d as u32 + 1) % 16 == 0)) && ((d & 0x20 != 0
        && n & 0x20 == 0) <==> ((d as u32 + 1) % 64 == 0))) by (bit_vector)
        requires
            n == (if d == 0xFFFF { 0u16 } else { (d + 1) as u16 }),
    ;
}

/// The divider bit that TAC clock select `select` watches.
pub open spec fn tac_watched_bit(select: u8) -> int {
    if select == 0 {
        7
    } else if select == 1 {
        1
    } else if select == 2 {
        3
    } else {
        5
    }
}

/// The number of machine cycles (at 1048576 Hz) between two increments of TIMA for TAC
/// clock select `select`: 4096 Hz, 262144 Hz, 65536 Hz and 16384 Hz.
pub open spec fn tac_period(select: u8) -> int {
    if select == 0 {
        256
    } else if select == 1 {
        4
    } else if select == 2 {
        16
    } else {
        64
    }
}

/// Whether `address` is one of the four timer registers.
pub open spec fn is_timer_address(address: u16) -> bool {
    TIMER_DIVIDER <= address <= TIMER_CTRL
}

impl Timer {
    /// The divider bit that the selected frequency watches.
    pub open spec fn edge(self, divider: u16) -> bool {
        divider & self.control.mask() != 0
    }

    /// The timer after the counter has been incremented; an overflow wraps it to 0 and is
    /// remembered until the next cycle.
    pub open spec fn incremented(self) -> Self {
        Timer {
            counter: if self.counter == 255 { 0 } else { (self.counter + 1) as u8 },
            counter_overflow: self.counter == 255,
            ..self
        }
    }

    /// One machine cycle: the divider advances. A counter that overflowed in the previous
    /// cycle is reloaded from the modulo and the timer interrupt is requested; otherwise an
    /// enabled timer increments the counter on a falling edge of the watched divider bit.
    pub open spec fn cycled(self, flags: u8) -> (Self, u8) {
        let divider = (if self.divider == 0xFFFF { 0 } else { self.divider + 1 }) as u16;
        let t = Timer { divider, ..self };
        if self.counter_overflow {
            (Timer { counter: self.modulo, counter_overflow: false, ..t }, flags | irq_bit(2))
        } else if self.control.enabled() && self.edge(self.divider) && !self.edge(divider) {
            (t.incremented(), flags)
        } else {
            (t, flags)
        }
    }

    /// The value a read of a timer register yields.
    pub open spec fn peek(self, address: u16) -> u8 {
        if address == TIMER_DIVIDER {
            (self.divider / 64) as u8
        } else if address == TIMER_COUNTER {
            self.counter
        } else if address == TIMER_MODULO {
            self.modulo
        } else {
            self.control.bits | 0b1111_1000
        }
    }

    /// The timer after `value` has been written to a timer register. Writing DIV resets it
    /// (a set watched bit then counts as a falling edge); writing TIMA is ignored in the
    /// cycle after an overflow; writing TMA in that cycle also loads TIMA; writing TAC
    /// counts a falling edge when the watched, enabled bit goes from 1 to 0.
    pub open spec fn poke(self, address: u16, value: u8) -> Self {
        if address == TIMER_DIVIDER {
            let t = if self.edge(self.divider) { self.incremented() } else { self };
            Timer { divider: 0, ..t }
        } else if address == TIMER_COUNTER {
            if self.counter_overflow { self } else { Timer { counter: value, ..self } }
        } else if address == TIMER_MODULO {
            Timer {
                modulo: value,
                counter: if self.counter_overflow { value } else { self.counter },
                ..self
            }
        } else {
            let old_bit = self.control.enabled() && self.edge(self.divider);
            let t = Timer { control: TimerControl { bits: value & 0b111 }, ..self };
            let new_bit = t.control.enabled() && t.edge(t.divider);
            if old_bit && !new_bit { t.incremented() } else { t }
        }
    }

    /// The watched divider bit of each clock select of TAC, and the rate it gives TIMA:
    /// select 0 watches bit 7 (4096 Hz), 1 bit 1 (262144 Hz), 2 bit 3 (65536 Hz) and 3
    /// bit 5 (16384 Hz); the four selects give four different rates.
    pub proof fn lemma_tac_clock_selects(bits: u8)
        ensures
            (TimerControl { bits }).mask() == 1u16 << (tac_watched_bit(bits & 0b11) as u16),
            (TimerControl { bits }).mask() as int * 2 == tac_period(bits & 0b11),
            bits & 0b11 == 0 ==> (TimerControl { bits }).mask() == 0x80,
            bits & 0b11 == 1 ==> (TimerControl { bits }).mask() == 0x02,
            bits & 0b11 == 2 ==> (TimerControl { bits }).mask() == 0x08,
            bits & 0b11 == 3 ==> (TimerControl { bits }).mask() == 0x20,
            forall|a: u8, b: u8| a < 4 && b < 4 && a != b ==> tac_period(a) != tac_period(b),
    {
        lemma_select_facts(bits, 0);
    }

    /// An enabled timer with no overflow pending increments TIMA in a machine cycle exactly
    /// when the divider, counting machine cycles, reaches a multiple of the period of the
    /// clock select: once every 256, 4, 16 or 64 cycles for selects 0 to 3. Otherwise TIMA
    /// keeps its value.
    pub proof fn lemma_timer_rate(self, flags: u8)
        requires
            self.control.enabled(),
            !self.counter_overflow,
        ensures
            self.cycled(flags).0.counter == if (self.divider + 1) % tac_period(
                self.control.bits & 0b11,
            ) == 0 {
                if self.counter == 255 {
                    0
                } else {
                    (self.counter + 1) as u8
                }
            } else {
                self.counter
            },
            self.cycled(flags).0.divider == (self.divider + 1) % 0x10000,
    {
        lemma_select_facts(self.control.bits, self.divider);
        Self::lemma_tac_clock_selects(self.control.bits);
    }

    /// The timer interrupt is requested in exactly the cycle after the counter overflowed:
    /// that cycle reloads the counter from the modulo and sets the timer bit of IF, and a
    /// cycle without a pending overflow leaves IF unchanged.
    pub proof fn lemma_overflow_reload(self, flags: u8)
        ensures
            self.counter_overflow ==> self.cycled(flags).0.counter == self.modulo
                && !self.cycled(flags).0.counter_overflow && self.cycled(flags).1 == flags | irq_bit(2),
            !self.counter_overflow ==> self.cycled(flags).1 == flags,
    {
    }

    /// An increment that wraps the counter to 0 marks the overflow, and the next cycle
    /// reloads the modulo and requests the interrupt.
    pub proof fn lemma_wrap_then_reload(self, flags: u8)
        requires
            self.counter == 255,
        ensures
            self.incremented().counter == 0,
            self.incremented().counter_overflow,
            self.incremented().cycled(flags).0.counter == self.modulo,
            self.incremented().cycled(flags).1 == flags | irq_bit(2),
    {
    }

    /// Steps the `Timer` by one cycle.
    pub fn cycle(&mut self, int_flag: &mut InterruptRegister)
        ensures
            (*final(self), final(int_flag)@) == old(self).cycled(old(int_flag)@),
    {
        let prev_divider = self.divider;
        self.divider = self.divider.wrapping_add(1);

        // Handle TIMA overflow
        if self.counter_overflow {
            self.counter = self.modulo;
            self.counter_overflow = false;
            int_flag.insert(InterruptRegister::timer());
        } else if self.control.is_enabled() {
            // Detect falling edge
            if self.edge_bit(prev_divider) && !self.edge_bit(self.divider) {
                self.increment_counter();
            }
        }
    }

    /// Steps the `Timer` by one cycle, as `cycle` does.
    pub fn step(&mut self, int_flag: &mut InterruptRegister)
        ensures
            (*final(self), final(int_flag)@) == old(self).cycled(old(int_flag)@),
    {
        self.cycle(int_flag)
    }

    /// Returns the current state of the divider bit for the selected frequency.
    fn edge_bit(&self, divider: u16) -> (r: bool)
        ensures
            r == self.edge(divider),
    {
        (divider & self.control.divider_mask()) != 0
    }

    /// Increments the counter and handles overflow.
    fn increment_counter(&mut self)
        ensures
            *final(self) == old(self).incremented(),
    {
        let overflow = self.counter == 255;
        self.counter = self.counter.wrapping_add(1);
        self.counter_overflow = overflow;
    }

    /// Writes a value to the divider (DIV).
    fn write_divider(&mut self)
        ensures
            *final(self) == old(self).poke(TIMER_DIVIDER, 0),
    {
        if self.edge_bit(self.divider) {
            self.increment_counter();
        }
        self.divider = 0;
    }

    /// Writes a value to the counter (TIMA).
    fn write_counter(&mut self, value: u8)
        ensures
            *final(self) == old(self).poke(TIMER_COUNTER, value),
    {
        if !self.counter_overflow {
            self.counter = value;
        }
    }

    /// Writes a value to the modulo (TMA).
    fn write_modulo(&mut self, value: u8)
        ensures
            *final(self) == old(self).poke(TIMER_MODULO, value),
    {
        self.modulo = value;
        if self.counter_overflow {
            self.counter = value;
        }
    }

    /// Writes a value to the control register (TAC).
    fn write_control(&mut self, value: u8)
        ensures
            *final(self) == old(self).poke(TIMER_CTRL, value),
    {
        let old_bit = self.control.is_enabled() && self.edge_bit(self.divider);
        self.control = TimerControl::from_bits_truncate(value);
        let new_bit = self.control.is_enabled() && self.edge_bit(self.divider);
        if old_bit && !new_bit {
            self.increment_counter();
        }
    }

    /// Writes a timer register.
    pub fn write(&mut self, address: u16, value: u8)
        requires
            is_timer_address(address),
        ensures
            *final(self) == old(self).poke(address, value),
    {
        if address == TIMER_DIVIDER {
            self.write_divider()
        } else if address == TIMER_COUNTER {
            self.write_counter(value)
        } else if address == TIMER_MODULO {
            self.write_modulo(value)
        } else {
            self.write_control(value)
        }
    }

    /// Reads a timer register; the undocumented bits of TAC read as 1.
    pub fn read(&mut self, address: u16) -> (r: u8)
        requires
            is_timer_address(address),
        ensures
            r == old(self).peek(address),
            *final(self) == *old(self),
    {
        if address == TIMER_DIVIDER {
            (self.divider / 64) as u8
        } else if address == TIMER_COUNTER {
            self.counter
        } else if address == TIMER_MODULO {
            self.modulo
        } else {
            self.control.bits() | 0b1111_1000
        }
    }
}

impl Default for Timer {
    fn default() -> (r: Self)
        ensures
            r == (Timer {
                divider: 0,
                counter: 0,
                modulo: 0,
                control: TimerControl { bits: 0 },
                counter_overflow: false,
            }),
    {
        Timer {
            divider: 0,
            counter: 0,
            modulo: 0,
            control: TimerControl::default(),
            counter_overflow: false,
        }
    }
}

} // verus!

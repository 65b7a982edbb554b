use crate::bus::{add16, cwrite, first_request, irq_bit, Bus};
use crate::cpu::registers::Registers;
use crate::cpu::{ImeState, CPU};
use vstd::prelude::*;

verus! {

/// The address of the handler of the interrupt with priority `index` (0 = V-Blank).
pub open spec fn irq_vector(index: int) -> u16 {
    if index == 0 {
        0x0040
    } else if index == 1 {
        0x0048
    } else if index == 2 {
        0x0050
    } else if index == 3 {
        0x0058
    } else {
        0x0060
    }
}

/// Dispatching an interrupt: IME is cleared, two machine cycles pass, PC is pushed
/// (high byte first). The interrupt is chosen after the high byte has been pushed, from
/// the IE and IF registers of that moment; its IF bit is cleared and PC jumps to its
/// handler, or to 0x0000 when no request is left.
pub open spec fn interrupt_spec<T: Bus>(cpu: CPU, bus: T) -> (CPU, T) {
    let b1 = bus.tick().tick();
    let sp1 = add16(cpu.r.sp, -1);
    let b2 = cwrite(b1, sp1, (cpu.r.pc / 256) as u8);
    let flags = b2.iflag();
    let index = first_request(b2.ie() & flags);
    let sp2 = add16(sp1, -1);
    let b3 = cwrite(b2, sp2, (cpu.r.pc % 256) as u8);
    let b4 = if index < 5 { b3.with_if(flags & !irq_bit(index)) } else { b3 };
    let pc = if index < 5 { irq_vector(index) } else { 0x0000 };
    (CPU { r: Registers { sp: sp2, pc, ..cpu.r }, ime: ImeState::Disabled, ..cpu }, b4)
}

const VBLANK_IRQ_ADDRESS: u16 = 0x0040;
const LCD_IRQ_ADDRESS: u16 = 0x0048;
const TIMER_IRQ_ADDRESS: u16 = 0x0050;
const SERIAL_IRQ_ADDRESS: u16 = 0x0058;
const JOYPAD_IRQ_ADDRESS: u16 = 0x0060;

/// Handles pending interrupt requests.
pub fn handle<T: Bus>(cpu: &mut CPU, bus: &mut T)
    requires
        old(bus).ie() & old(bus).iflag() & 0b0001_1111 != 0,
        old(cpu).ime == ImeState::Enabled,
        !old(cpu).is_halted,
    ensures
        (*final(cpu), *final(bus)) == interrupt_spec(*old(cpu), *old(bus)),
{
    cpu.ime = ImeState::Disabled;
    bus.cycle();
    bus.cycle();

    // Save current execution address by pushing it onto the stack
    let pc = cpu.r.pc;
    let high = (pc / 256) as u8;
    let low = (pc % 256) as u8;

    cpu.r.sp = cpu.r.sp.wrapping_sub(1);
    bus.cycle_write(cpu.r.sp, high);

    let int_flags = bus.get_if();
    // After the high byte push it's possible that the interrupt flag register has changed
    let irq = bus.get_ie().intersection(int_flags).highest_prio();

    // The low byte push is not fast enough to modify the pending IRQ
    cpu.r.sp = cpu.r.sp.wrapping_sub(1);
    bus.cycle_write(cpu.r.sp, low);

    let ghost pending = bus.ie() & int_flags@;
    proof {
        assert(irq_bit(0) == 1 && irq_bit(1) == 2 && irq_bit(2) == 4 && irq_bit(3) == 8 && irq_bit(4) == 16);
    }
    cpu.r.pc = match irq {
        Some(irq) => {
            // Clear the flag for the request that is being handled
            bus.set_if(int_flags.difference(irq));
            if irq.bits() == 0b0000_0001 {
                VBLANK_IRQ_ADDRESS
            } else if irq.bits() == 0b0000_0010 {
                LCD_IRQ_ADDRESS
            } else if irq.bits() == 0b0000_0100 {
                TIMER_IRQ_ADDRESS
            } else if irq.bits() == 0b0000_1000 {
                SERIAL_IRQ_ADDRESS
            } else {
                JOYPAD_IRQ_ADDRESS
            }
        },
        None => 0x0000,
    };
}

} // verus!

use lib::bus::{Bus, InterruptRegister, SubSystem};
use lib::cartridge::Cartridge;
use lib::cpu::CPU;
use lib::memory::MemoryBus;

/// A 32 KiB ROM image without bank controller; every byte holds its address modulo 251.
fn rom_image() -> Vec<u8> {
    let mut rom: Vec<u8> = (0..0x8000u32).map(|i| (i % 251) as u8).collect();
    rom[0x147] = 0x00; // ROM only
    rom[0x148] = 0x00; // 32 KiB
    rom[0x149] = 0x00; // no RAM
    rom
}

fn bus_with_boot_rom() -> MemoryBus {
    let cartridge = Cartridge::try_from(rom_image()).unwrap();
    MemoryBus::new(cartridge, vec![0xAA; 256])
}

#[test]
fn test_bus_work_ram_read_back() {
    let mut bus = bus_with_boot_rom();
    bus.write(0xC123, 0x42);
    assert_eq!(bus.read(0xC123), 0x42);
    bus.write(0xFF80, 0x17);
    assert_eq!(bus.read(0xFF80), 0x17);
    bus.write(0x8000, 0x99);
    assert_eq!(bus.read(0x8000), 0x99);
}

#[test]
fn test_bus_echo_ram_mirrors_into_work_ram() {
    let mut bus = bus_with_boot_rom();
    bus.write(0xE000, 0x5A);
    assert_eq!(bus.read(0xE000), 0x5A);
    // The mirror lands 0x1E00 below the echo address.
    assert_eq!(bus.read(0xC200), 0x5A);
    assert_eq!(bus.read(0xC000), 0x00);
}

#[test]
fn test_bus_unused_and_unmapped_read_ff() {
    let mut bus = bus_with_boot_rom();
    bus.write(0xFEA0, 0x12);
    assert_eq!(bus.read(0xFEA0), 0xFF);
    assert_eq!(bus.read(0xFF03), 0xFF);
    assert_eq!(bus.read(0xFF4D), 0xFF);
    assert_eq!(bus.read(0xFF7F), 0xFF);
    bus.write(0xFF01, 0x33);
    assert_eq!(bus.read(0xFF01), 0x33);
}

#[test]
fn test_bus_divider_write_resets() {
    let mut bus = bus_with_boot_rom();
    bus.write_unchecked(0xFF04, 0x80);
    assert_eq!(bus.read(0xFF04), 0x80);
    bus.write(0xFF04, 0x12);
    assert_eq!(bus.read(0xFF04), 0x00);
}

#[test]
fn test_bus_boot_rom_mapping() {
    let mut bus = bus_with_boot_rom();
    assert_eq!(bus.read(0x0010), 0xAA, "boot ROM is mapped at start");
    assert_eq!(bus.read(0x0100), (0x100 % 251) as u8, "cartridge above the boot ROM");
    bus.write(0xFF50, 0x01);
    assert_eq!(bus.read(0x0010), 0x10, "cartridge after the boot ROM is switched off");
}

#[test]
fn test_bus_dma_copies_into_oam() {
    let mut bus = bus_with_boot_rom();
    bus.write(0xFF50, 0x01);
    // The source is the written value times 100.
    bus.write(0xFF46, 0x02);
    let rom = rom_image();
    for i in 0..0xA0u16 {
        assert_eq!(bus.read(0xFE00 + i), rom[200 + i as usize]);
    }
}

#[test]
fn test_bus_irq_sets_flag() {
    let mut bus = bus_with_boot_rom();
    bus.irq(2);
    assert_eq!(bus.read(0xFF0F), 0b0000_0100);
    assert!(bus.get_if().contains(InterruptRegister::timer()));
    assert!(!bus.has_irq());
    bus.set_ie(InterruptRegister::timer());
    assert!(bus.has_irq());
    assert_eq!(bus.read(0xFFFF), 0b0000_0100);
}

#[test]
fn test_cpu_runs_on_memory_bus() {
    let mut rom = rom_image();
    // LD A, 0x42; LD HL, 0xC000; LD (HL), A; HALT
    let program = [0x3E, 0x42, 0x21, 0x00, 0xC0, 0x77, 0x76];
    for (i, b) in program.iter().enumerate() {
        rom[0x0150 + i] = *b;
    }
    let cartridge = Cartridge::try_from(rom).unwrap();
    let mut bus = MemoryBus::new(cartridge, vec![0x00; 256]);
    bus.write(0xFF50, 0x01);
    let mut cpu = CPU::default();
    cpu.r.pc = 0x0150;
    for _ in 0..4 {
        cpu.step(&mut bus);
    }
    assert_eq!(cpu.r.a, 0x42);
    assert_eq!(bus.read(0xC000), 0x42);
    assert!(cpu.is_halted);
    assert_eq!(cpu.r.pc, 0x0157);
}

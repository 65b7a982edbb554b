use lib::bus::{Bus, MainBus, SubSystem};
use lib::cartridge::Cartridge;
use lib::joypad::JoypadInputState;
use lib::ppu::buffer::FrameBuffer;

fn rom_image() -> Vec<u8> {
    let mut rom = vec![0u8; 0x8000];
    rom[0x0000] = 0x11;
    rom[0x0150] = 0x22;
    rom[0x147] = 0x00;
    rom[0x148] = 0x00;
    rom[0x149] = 0x00;
    rom
}

fn bus_with(print_serial: bool, display: Option<FrameBuffer>) -> MainBus {
    MainBus::with_cartridge(
        Cartridge::try_from(rom_image()).unwrap(),
        print_serial,
        display,
        vec![0xAA; 256],
    )
}

#[test]
fn main_bus_maps_the_boot_rom_until_it_is_switched_off() {
    let mut bus = bus_with(false, None);
    assert!(bus.is_booting());
    assert_eq!(bus.read(0x0000), 0xAA);
    assert_eq!(bus.read(0x0150), 0x22);
    bus.write(0xFF50, 0x00);
    assert_eq!(bus.read(0x0000), 0xAA);
    bus.write(0xFF50, 0x01);
    assert!(!bus.is_booting());
    assert_eq!(bus.read(0x0000), 0x11);
    assert_eq!(bus.read(0xFF50), 0xFF);
}

#[test]
fn main_bus_work_echo_and_high_ram_read_back() {
    let mut bus = bus_with(false, None);
    bus.write(0xC123, 0x42);
    assert_eq!(bus.read(0xC123), 0x42);
    assert_eq!(bus.read(0xE123), 0x42);
    bus.write(0xF234, 0x17);
    assert_eq!(bus.read(0xD234), 0x17);
    bus.write(0xDFFF, 0x99);
    assert_eq!(bus.read(0xDFFF), 0x99);
    bus.write(0xFF80, 0x55);
    assert_eq!(bus.read(0xFF80), 0x55);
    bus.write(0xFEA5, 0x12);
    assert_eq!(bus.read(0xFEA5), 0xFF);
}

#[test]
fn main_bus_interrupt_registers() {
    let mut bus = bus_with(false, None);
    bus.write(0xFFFF, 0x1F);
    assert_eq!(bus.read(0xFFFF), 0x1F);
    assert_eq!(bus.get_ie().bits(), 0x1F);
    bus.write(0xFF0F, 0x01);
    assert_eq!(bus.read(0xFF0F), 0xE1);
    assert!(bus.has_irq());
    bus.write(0xFF0F, 0x00);
    assert!(!bus.has_irq());
}

#[test]
fn main_bus_drives_the_timer() {
    let mut bus = bus_with(false, None);
    for _ in 0..64 {
        bus.cycle();
    }
    assert_eq!(bus.read(0xFF04), 1);
    bus.write(0xFF04, 0x12);
    assert_eq!(bus.read(0xFF04), 0);
    // Timer on at the fastest rate, about to overflow.
    bus.write(0xFF06, 0x33);
    bus.write(0xFF05, 0xFF);
    bus.write(0xFF07, 0x05);
    let mut cycles = 0;
    while bus.read(0xFF0F) & 0x04 == 0 && cycles < 100 {
        bus.cycle();
        cycles += 1;
    }
    assert!(cycles < 100, "the timer interrupt was not requested");
    assert_eq!(bus.read(0xFF05), 0x33);
}

#[test]
fn main_bus_echoes_serial_transfers() {
    let mut bus = bus_with(true, None);
    bus.write(0xFF01, b'A');
    assert_eq!(bus.read(0xFF01), b'A');
    assert_eq!(bus.take_serial_echo(), None);
    bus.write(0xFF02, 0x81);
    assert_eq!(bus.read(0xFF02), 0xFF);
    assert_eq!(bus.take_serial_echo(), Some('A'));
    assert_eq!(bus.take_serial_echo(), None);

    let mut quiet = bus_with(false, None);
    quiet.write(0xFF01, b'B');
    quiet.write(0xFF02, 0x81);
    assert_eq!(quiet.take_serial_echo(), None);
}

#[test]
fn main_bus_routes_joypad_input() {
    let mut bus = bus_with(false, None);
    assert_eq!(bus.read(0xFF00), 0xCF);
    // Select the direction keys.
    bus.write(0xFF00, 0x20);
    assert_eq!(bus.read(0xFF00), 0xEF);
    let mut input = JoypadInputState::default();
    input.right = true;
    bus.handle_joypad_input(input);
    assert_eq!(bus.read(0xFF00), 0xEE);
    assert_eq!(bus.read(0xFF0F) & 0x10, 0x10);
}

#[test]
fn main_bus_copies_oam_by_dma() {
    let mut bus = bus_with(false, None);
    for i in 0..0xA0u16 {
        bus.write(0xC000 + i, i as u8);
    }
    bus.write(0xFF46, 0xC0);
    assert_eq!(bus.read(0xFF46), 0xFF);
    for _ in 0..(2 + 160) {
        bus.cycle();
    }
    assert_eq!(bus.read(0xFF46), 0xC0);
    for i in 0..0xA0u16 {
        assert_eq!(bus.read(0xFE00 + i), i as u8);
    }
    assert!(!bus.ppu().r.oam_dma.is_running);
}

#[test]
fn main_bus_steps_the_picture_unit() {
    let mut bus = bus_with(false, Some(FrameBuffer::new()));
    bus.write(0xFF40, 0x91);
    bus.write(0xFFFF, 0x01);
    let mut cycles = 0;
    while bus.read(0xFF0F) & 0x01 == 0 && cycles < 20000 {
        bus.cycle();
        cycles += 1;
    }
    assert!(cycles < 20000, "no V-Blank interrupt within a frame");
    assert!(bus.has_irq());
    assert_eq!(bus.read(0xFF44), 144);
    assert!(bus.take_frame().is_some());
    assert!(bus.take_frame().is_none());
}

#[test]
fn main_bus_audio_registers() {
    let mut bus = bus_with(false, None);
    bus.write(0xFF12, 0xF3);
    assert_eq!(bus.read(0xFF12), 0xF3);
    bus.write(0xFF15, 0x12);
    assert_eq!(bus.read(0xFF15), 0xFF);
}

#[test]
fn main_bus_takes_a_new_configuration() {
    let mut bus = bus_with(false, Some(FrameBuffer::new()));
    let mut config = lib::emulator::EmulatorConfig::default();
    config.print_serial = true;
    bus.update_config(&config);
    bus.write(0xFF01, b'Z');
    bus.write(0xFF02, 0x80);
    assert_eq!(bus.take_serial_echo(), Some('Z'));
    assert!(bus.ppu().display.is_some());
}

use lib::cartridge::Cartridge;
use lib::cpu::instruction::Instruction;
use lib::debugger::bus::DebugBus;
use lib::memory::MemoryBus;

fn bus_with_code(code: &[u8]) -> DebugBus<MemoryBus> {
    let mut rom = vec![0u8; 0x8000];
    rom[0x147] = 0x00;
    rom[0x148] = 0x00;
    rom[0x149] = 0x00;
    let mut boot = vec![0u8; 256];
    boot[..code.len()].copy_from_slice(code);
    DebugBus::from(MemoryBus::new(Cartridge::try_from(rom).unwrap(), boot))
}

#[test]
fn listing_of_a_range() {
    // NOP; LD A,0x42; JP 0x1234; BIT 7,H; STOP (which would pass the end of the range)
    let mut bus = bus_with_code(&[0x00, 0x3E, 0x42, 0xC3, 0x34, 0x12, 0xCB, 0x7C, 0x10, 0x00]);
    let listing = bus.instructions_from_range(0x0000, 0x0008);
    let addresses: Vec<u16> = listing.iter().map(|a| a.address).collect();
    assert_eq!(addresses, vec![0x0000, 0x0001, 0x0003, 0x0006]);
    assert_eq!(listing[0].instruction, Instruction::NOP);
    assert_eq!(listing[1].bytes, vec![0x3E, 0x42]);
    assert_eq!(listing[2].bytes, vec![0xC3, 0x34, 0x12]);
    assert_eq!(listing[3].bytes, vec![0xCB, 0x7C]);
}

#[test]
fn listing_stops_before_an_instruction_that_passes_the_end() {
    let mut bus = bus_with_code(&[0x00, 0xC3, 0x00, 0x00]);
    let listing = bus.instructions_from_range(0x0000, 0x0002);
    assert_eq!(listing.len(), 1);
    let empty = bus.instructions_from_range(0x0005, 0x0004);
    assert!(empty.is_empty());
}

#[test]
fn listing_of_all_code_areas() {
    let mut bus = bus_with_code(&[]);
    let listing = bus.fetch_instructions();
    // Every byte of ROM, cartridge RAM (reads as 0xFF here: no RAM), work RAM and high
    // RAM decodes to a one-byte instruction.
    let first_hram = listing.iter().position(|a| a.address == 0xFF80).unwrap();
    assert_eq!(listing[first_hram - 1].address, 0xDFFF);
    assert_eq!(listing.last().unwrap().address, 0xFFFE);
}

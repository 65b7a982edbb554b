use lib::cartridge::basic::{BankingMode, Cartridge, CartridgeHeader, UnsupportedType};

/// A 64 KiB image (four ROM banks) whose bytes hold their bank number, with the given
/// cartridge type.
fn rom(cartridge_type: u8) -> Vec<u8> {
    let mut rom: Vec<u8> = (0..0x10000usize).map(|i| (i / 0x4000) as u8).collect();
    for (i, b) in b"TETRIS 2!".iter().enumerate() {
        rom[0x134 + i] = *b;
    }
    rom[0x143] = 0x80;
    rom[0x147] = cartridge_type;
    rom
}

#[test]
fn basic_banking_mode_from_type() {
    assert_eq!(BankingMode::try_from(0x00), Ok(BankingMode::NoMBC));
    assert_eq!(BankingMode::try_from(0x03), Ok(BankingMode::MBC1));
    assert_eq!(BankingMode::try_from(0x06), Ok(BankingMode::MBC2));
    assert_eq!(BankingMode::try_from(0x04), Err(UnsupportedType { cartridge_type: 0x04 }));
}

#[test]
fn basic_header_text() {
    let image = rom(0x01);
    let header = CartridgeHeader::try_from(&image).unwrap();
    assert_eq!(header.title, "TETRIS2");
    assert_eq!(header.to_string(), "Title: TETRIS2 (banking: MBC1, cgb_flag: 0x80)");
    assert!(Cartridge::from_rom(rom(0x19)).is_err());
}

#[test]
fn basic_mbc1_switches_rom_banks() {
    let mut cartridge = Cartridge::from_rom(rom(0x01)).unwrap();
    assert_eq!(cartridge.read(0x0000), 0);
    assert_eq!(cartridge.read(0x4000), 1);
    cartridge.write(0x2000, 3);
    assert_eq!(cartridge.read(0x4000), 3);
    // Bank 0 selects bank 1.
    cartridge.write(0x2000, 0);
    assert_eq!(cartridge.cur_rom_bank, 1);
    // The high bits come from the 0x4000-0x5FFF register in ROM banking mode.
    cartridge.write(0x4000, 0x20);
    assert_eq!(cartridge.cur_rom_bank, 0x21);
}

#[test]
fn basic_mbc1_ram_banks() {
    let mut cartridge = Cartridge::from_rom(rom(0x03)).unwrap();
    cartridge.write(0x0000, 0x0A);
    assert!(cartridge.enable_ram);
    cartridge.write(0x6000, 0x01);
    assert!(!cartridge.rom_banking);
    cartridge.write(0x4000, 0x02);
    assert_eq!(cartridge.cur_ram_bank, 2);
    cartridge.write(0xA000, 0x42);
    assert_eq!(cartridge.read(0xA000), 0x42);
    assert_eq!(cartridge.ram[2 * 0x2000], 0x42);
    // Back to ROM banking: RAM bank 0 again.
    cartridge.write(0x6000, 0x00);
    assert_eq!(cartridge.cur_ram_bank, 0);
    assert_eq!(cartridge.read(0xA000), 0x00);
    cartridge.write(0x0000, 0x00);
    assert!(!cartridge.enable_ram);
}

#[test]
fn basic_mbc2_uses_four_bank_bits() {
    let mut cartridge = Cartridge::from_rom(rom(0x05)).unwrap();
    cartridge.write(0x2000, 0x12);
    assert_eq!(cartridge.cur_rom_bank, 0x02);
    assert_eq!(cartridge.read(0x4000), 2);
    cartridge.write(0x4000, 0x03);
    assert_eq!(cartridge.cur_ram_bank, 0);
}

#[test]
fn basic_without_controller_ignores_bank_writes() {
    let mut cartridge = Cartridge::from_rom(rom(0x00)).unwrap();
    cartridge.write(0x2000, 3);
    cartridge.write(0x0000, 0x0A);
    assert_eq!(cartridge.cur_rom_bank, 1);
    assert!(!cartridge.enable_ram);
}

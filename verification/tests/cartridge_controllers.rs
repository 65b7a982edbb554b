use lib::cartridge::controller::{self, BankController};
use lib::cartridge::mbc5::MBC5;
use lib::cartridge::nombc::NoMBC;
use lib::cartridge::{
    verify_checksum, Cartridge, CartridgeConfig, CartridgeError, CartridgeHeader, ControllerType,
    SaveError, ROM_BANK_SIZE,
};

fn header_image(kind: u8, rom_code: u8, ram_code: u8) -> Vec<u8> {
    let mut rom = vec![0u8; 0x8000];
    rom[0x147] = kind;
    rom[0x148] = rom_code;
    rom[0x149] = ram_code;
    rom
}

#[test]
fn test_controller_type_codes() {
    assert_eq!(ControllerType::try_from(0x00), Ok(ControllerType::NoMBC { battery: false }));
    assert_eq!(ControllerType::try_from(0x09), Ok(ControllerType::NoMBC { battery: true }));
    assert_eq!(ControllerType::try_from(0x03), Ok(ControllerType::MBC1 { battery: true }));
    assert_eq!(ControllerType::try_from(0x11), Ok(ControllerType::MBC3 { battery: false }));
    assert_eq!(ControllerType::try_from(0x1B), Ok(ControllerType::MBC5 { battery: true }));
    assert_eq!(ControllerType::try_from(0x22), Ok(ControllerType::MBC7 { battery: true }));
    assert_eq!(
        ControllerType::try_from(0x04),
        Err(CartridgeError::UnsupportedControllerType(0x04))
    );
    assert!(ControllerType::MBC3 { battery: true }.has_battery());
    assert!(!ControllerType::MBC5 { battery: false }.has_battery());
}

#[test]
fn test_config_errors() {
    let mbc1 = ControllerType::MBC1 { battery: false };
    assert_eq!(
        CartridgeConfig::new(mbc1, 0x00, 0x06),
        Err(CartridgeError::UnsupportedRamSize(0x06))
    );
    assert_eq!(
        CartridgeConfig::new(mbc1, 0x09, 0x00),
        Err(CartridgeError::UnsupportedRomSize(0x09))
    );
    // An unknown RAM size is reported first.
    assert_eq!(
        CartridgeConfig::new(mbc1, 0x09, 0x06),
        Err(CartridgeError::UnsupportedRamSize(0x06))
    );
    let config = CartridgeConfig::new(mbc1, 0x08, 0x04).unwrap();
    assert_eq!(config.rom_banks, 512);
    assert_eq!(config.ram_banks, 16);
    assert_eq!(config.ram_size(), 131072);
    assert!(!config.is_savable());
    let config = CartridgeConfig::new(ControllerType::MBC3 { battery: true }, 0x00, 0x01).unwrap();
    assert_eq!(config.ram_banks, 0);
    assert!(!config.is_savable());
    let config = CartridgeConfig::new(ControllerType::MBC3 { battery: true }, 0x00, 0x05).unwrap();
    assert_eq!(config.ram_banks, 8);
    assert!(config.is_savable());
}

#[test]
fn test_header_title() {
    let mut rom = header_image(0x00, 0x00, 0x00);
    let title = b"TET-RIS game!";
    for (i, b) in title.iter().enumerate() {
        rom[0x134 + i] = *b;
    }
    rom[0x14D] = 0x4D;
    rom[0x14E] = 0x12;
    rom[0x14F] = 0x34;
    let header = CartridgeHeader::try_from(&rom).unwrap();
    assert_eq!(header.title, "TETRISgame");
    assert_eq!(header.header_checksum, 0x4D);
    assert_eq!(header.global_checksum, 0x1234);
    let empty = header_image(0x00, 0x00, 0x00);
    assert_eq!(CartridgeHeader::parse_title(&empty), "Unnamed");
}

#[test]
fn test_header_errors() {
    assert!(matches!(
        CartridgeHeader::try_from(&header_image(0x04, 0x00, 0x00)),
        Err(CartridgeError::UnsupportedControllerType(0x04))
    ));
    assert!(matches!(
        CartridgeHeader::try_from(&header_image(0x01, 0x0A, 0x00)),
        Err(CartridgeError::UnsupportedRomSize(0x0A))
    ));
}

#[test]
fn test_cartridge_too_small() {
    assert!(matches!(Cartridge::try_from(vec![0u8; 0x100]), Err(CartridgeError::TooSmall)));
}

#[test]
fn test_cartridge_reads_rom() {
    let mut rom = header_image(0x00, 0x00, 0x00);
    rom[0x4000] = 0x77;
    let mut cartridge = Cartridge::try_from(rom).unwrap();
    assert_eq!(cartridge.read(0x4000), 0x77);
    assert_eq!(cartridge.read(0x0147), 0x00);
    // No RAM: reads are undefined.
    assert_eq!(cartridge.read(0xA000), 0xFF);
    assert!(matches!(cartridge.controller, BankController::NoMBC(_)));
}

#[test]
fn test_autosave_filename() {
    let mut cartridge = Cartridge::try_from(header_image(0x00, 0x00, 0x00)).unwrap();
    cartridge.header.title = String::from("SUPER GAME");
    cartridge.header.header_checksum = 0x0A;
    assert_eq!(cartridge.autosave_filename(), "SUPER_GAME_0a_autosave.sav");
}

#[test]
fn test_checksum_mismatch_values() {
    let mut buf = vec![1u8; 0x150];
    buf[0x14E] = 0x00;
    buf[0x14F] = 0x07;
    // 0x150 bytes of 1, less the two checksum bytes
    assert_eq!(
        verify_checksum(&buf),
        Err(CartridgeError::ChecksumMismatch { expected: 0x0007, calculated: 0x014E })
    );
    buf[0x14E] = 0x01;
    buf[0x14F] = 0x4E;
    assert_eq!(verify_checksum(&buf), Ok(()));
}

#[test]
fn test_mbc5_banking_and_ram() {
    let config = CartridgeConfig::new(ControllerType::MBC5 { battery: true }, 0x02, 0x03).unwrap();
    let rom: Vec<u8> = (0u8..8).flat_map(|i| vec![i; ROM_BANK_SIZE]).collect();
    let mut ctrl = MBC5::new(config, rom);
    assert_eq!(ctrl.read(0x4000), 1);
    ctrl.write(0x2000, 0x05);
    assert_eq!(ctrl.rom_bank_number, 5);
    assert_eq!(ctrl.read(0x4000), 5);
    // Bank 0 can be selected on MBC5.
    ctrl.write(0x2000, 0x00);
    assert_eq!(ctrl.read(0x4000), 0);
    // The ninth bit is masked away for 8 banks.
    ctrl.write(0x3000, 0x01);
    assert_eq!(ctrl.rom_bank_number, 0);
    // RAM disabled
    ctrl.write(0xA000, 0x42);
    assert_eq!(ctrl.read(0xA000), 0xFF);
    ctrl.write(0x0000, 0x0A);
    ctrl.write(0x4000, 0x03);
    ctrl.write(0xA000, 0x42);
    assert_eq!(ctrl.read(0xA000), 0x42);
    ctrl.write(0x4000, 0x00);
    assert_eq!(ctrl.read(0xA000), 0x00);
    assert_eq!(ctrl.save_ram().unwrap().len(), 32768);
}

#[test]
fn test_nombc_ram_and_saving() {
    let config = CartridgeConfig::new(ControllerType::NoMBC { battery: true }, 0x00, 0x02).unwrap();
    let mut ctrl = NoMBC::new(config, vec![0x11; 0x8000]);
    ctrl.write(0xA010, 0x99);
    assert_eq!(ctrl.read(0xA010), 0x99);
    ctrl.write(0x2000, 0x01);
    assert_eq!(ctrl.read(0x2000), 0x11, "ROM is not writable");
    let saved = ctrl.save_ram().unwrap();
    assert_eq!(saved.len(), 8192);
    assert_eq!(saved[0x10], 0x99);
    let mut other = NoMBC::new(config, vec![0x11; 0x8000]);
    other.load_ram(saved);
    assert_eq!(other.read(0xA010), 0x99);
    let unsaved = NoMBC::new(CartridgeConfig::new(ControllerType::NoMBC { battery: false }, 0x00, 0x02).unwrap(), vec![]);
    assert!(matches!(unsaved.save_ram(), Err(SaveError::NoSaveSupport)));
}

#[test]
fn test_mbc1_refuses_to_save_while_ram_enabled() {
    let config = CartridgeConfig::new(ControllerType::MBC1 { battery: true }, 0x00, 0x02).unwrap();
    let mut ctrl = controller::new(config, vec![0; 0x8000]);
    ctrl.write(0x0000, 0x0A);
    assert!(matches!(ctrl.save_ram(), Err(SaveError::RAMLocked)));
    ctrl.write(0xA000, 0x12);
    ctrl.write(0x0000, 0x00);
    let saved = ctrl.save_ram().unwrap();
    assert_eq!(saved[0], 0x12);
}

#[test]
fn test_ram_written_is_read_back() {
    for kind in [0x03u8, 0x13, 0x1B] {
        let config =
            CartridgeConfig::new(ControllerType::try_from(kind).unwrap(), 0x01, 0x03).unwrap();
        let mut ctrl = controller::new(config, vec![0; 4 * ROM_BANK_SIZE]);
        ctrl.write(0x0000, 0x0A);
        for (i, address) in [0xA000u16, 0xA123, 0xBFFF].iter().enumerate() {
            ctrl.write(*address, i as u8 + 1);
            assert_eq!(ctrl.read(*address), i as u8 + 1);
        }
    }
}

#[test]
fn test_savefile_roundtrip_and_errors() {
    let mut rom = header_image(0x03, 0x00, 0x02);
    rom[0x14D] = 0x5C;
    let mut cartridge = Cartridge::try_from(rom.clone()).unwrap();
    cartridge.write(0x0000, 0x0A);
    cartridge.write(0xA001, 0x77);
    cartridge.write(0x0000, 0x00);
    let data = cartridge.savefile().unwrap();
    assert_eq!(data.len(), 8192 + 1);
    assert_eq!(data[8192], 0x5C);
    assert_eq!(data[1], 0x77);

    let mut other = Cartridge::try_from(rom).unwrap();
    assert_eq!(other.load_savefile(vec![]), Err(SaveError::MalformedFile));
    assert_eq!(other.load_savefile(vec![0, 0x5D]), Err(SaveError::InvalidChecksum));
    assert_eq!(other.load_savefile(data), Ok(()));
    other.write(0x0000, 0x0A);
    assert_eq!(other.read(0xA001), 0x77);
    assert_eq!(other.savefile(), Err(SaveError::RAMLocked));
}

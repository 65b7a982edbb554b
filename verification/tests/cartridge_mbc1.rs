use lib::cartridge::mbc1::{
    BankingMode, BANKING_MODE_SELECT_BEGIN, MBC1, RAM_BANK_NUMBER_BEGIN, RAM_ENABLE_BEGIN,
    ROM_BANK_NUMBER_BEGIN,
};
use lib::cartridge::{CartridgeConfig, ControllerType, RAM_BANK_SIZE, ROM_BANK_SIZE};
use lib::constants::{CRAM_BANK_BEGIN, ROM_HIGH_BANK_BEGIN, ROM_LOW_BANK_BEGIN};

#[test]
    fn mbc1_test_ram_state() {
        let config =
            CartridgeConfig::new(ControllerType::MBC1 { battery: true }, 0x03, 0x02).unwrap();
        let mut controller = MBC1::new(config, vec![0; ROM_BANK_SIZE * 16]);

        let addr = CRAM_BANK_BEGIN + 0x10;
        controller.write(addr, 0x42);
        assert_eq!(controller.read(addr), 0xFF, "RAM should be disabled");

        controller.write(RAM_ENABLE_BEGIN, 0x0A);
        assert_eq!(
            controller.read(addr),
            0x00,
            "First write should have been ignored"
        );

        controller.write(addr, 0x42);
        assert_eq!(controller.read(addr), 0x42, "RAM should be enabled");

        controller.write(RAM_ENABLE_BEGIN, 0xFF);
        assert_eq!(controller.read(addr), 0xFF, "RAM should be disabled");
    }

#[test]
    fn test_rom_bank_lower_bits() {
        let config =
            CartridgeConfig::new(ControllerType::MBC1 { battery: true }, 0x03, 0x02).unwrap();
        let mut ctrl = MBC1::new(config, vec![0; ROM_BANK_SIZE * 16]);

        ctrl.write(ROM_BANK_NUMBER_BEGIN, 0x01);
        assert_eq!(ctrl.bank_low_bits, 0x01);
        assert_eq!(ctrl.high_rom_bank_offset, ROM_BANK_SIZE);

        ctrl.write(ROM_BANK_NUMBER_BEGIN, 0x00);
        assert_eq!(ctrl.bank_low_bits, 0x01);
        assert_eq!(
            ctrl.high_rom_bank_offset, ROM_BANK_SIZE,
            "0x00 should be treated as 0x01"
        );

        ctrl.write(ROM_BANK_NUMBER_BEGIN, 0x02);
        assert_eq!(ctrl.bank_low_bits, 0x02);
        assert_eq!(ctrl.high_rom_bank_offset, ROM_BANK_SIZE * 2);

        ctrl.write(ROM_BANK_NUMBER_BEGIN, 0xFF);
        assert_eq!(
            ctrl.high_rom_bank_offset,
            ROM_BANK_SIZE * 0x1F,
            "Only first 5 bits should be used"
        );
    }

#[test]
    fn test_rom_bank_upper_bits() {
        let config =
            CartridgeConfig::new(ControllerType::MBC1 { battery: true }, 0x03, 0x03).unwrap();
        let mut ctrl = MBC1::new(config, vec![0; ROM_BANK_SIZE * 16]);

        ctrl.write(RAM_BANK_NUMBER_BEGIN, 0b11);
        assert_eq!(ctrl.bank_high_bits, 0b11);
        assert_eq!(
            ctrl.ram_bank_offset, 0,
            "RAM bank should be 0, because of banking mode simple"
        );
        assert_eq!(ctrl.high_rom_bank_offset, ROM_BANK_SIZE);

        // Switch to advanced mode
        ctrl.write(BANKING_MODE_SELECT_BEGIN, 0b1);

        ctrl.write(RAM_BANK_NUMBER_BEGIN, 0b11);
        assert_eq!(ctrl.bank_high_bits, 0b11);
        assert_eq!(ctrl.ram_bank_offset, RAM_BANK_SIZE * 3);
        assert_eq!(
            ctrl.high_rom_bank_offset, ROM_BANK_SIZE,
            "High ROM bank should not change, because the it only holds 16 banks"
        );

        ctrl.write(RAM_BANK_NUMBER_BEGIN, 0xFF);
        assert_eq!(
            ctrl.bank_high_bits, 0b11,
            "Only first 2 bits should be used"
        );
    }

#[test]
    fn test_change_banking_mode() {
        let config =
            CartridgeConfig::new(ControllerType::MBC1 { battery: true }, 0x03, 0x02).unwrap();
        let mut ctrl = MBC1::new(config, vec![0; ROM_BANK_SIZE * 16]);

        ctrl.write(BANKING_MODE_SELECT_BEGIN, 0b1);
        assert_eq!(ctrl.banking_mode, BankingMode::Advanced);

        ctrl.write(BANKING_MODE_SELECT_BEGIN, 0b1111);
        assert_eq!(ctrl.banking_mode, BankingMode::Advanced);

        ctrl.write(BANKING_MODE_SELECT_BEGIN, 0b1000);
        assert_eq!(ctrl.banking_mode, BankingMode::Simple);

        ctrl.write(BANKING_MODE_SELECT_BEGIN, 0b0000);
        assert_eq!(ctrl.banking_mode, BankingMode::Simple);
    }

#[test]
    fn test_rom_banking_simple() {
        let config =
            CartridgeConfig::new(ControllerType::MBC1 { battery: true }, 0x05, 0x02).unwrap();

        // Initialize each bank with a unique value
        let mut ctrl = MBC1::new(
            config,
            (0u8..64).flat_map(|i| vec![i; ROM_BANK_SIZE]).collect(),
        );

        assert_eq!(ctrl.read(ROM_LOW_BANK_BEGIN), 0);
        assert_eq!(ctrl.read(ROM_HIGH_BANK_BEGIN), 1);

        for i in 2..32 {
            ctrl.write(ROM_BANK_NUMBER_BEGIN, i);
            assert_eq!(
                ctrl.read(ROM_HIGH_BANK_BEGIN),
                i,
                "ROM bank {i} should be selected"
            );
        }

        // When trying to select bank 32, it should wrap around to 0 in simple mode
        // because 5 bits are not enough to address it.
        for _ in 32..34 {
            ctrl.write(ROM_BANK_NUMBER_BEGIN, 32);
            assert_eq!(
                ctrl.read(ROM_HIGH_BANK_BEGIN),
                1,
                "ROM bank 1 should be selected",
            );
        }

        for i in 34..64 {
            ctrl.write(ROM_BANK_NUMBER_BEGIN, i);
            assert_eq!(
                ctrl.read(ROM_HIGH_BANK_BEGIN),
                i - 32,
                "ROM bank {} should be selected",
                i - 32
            );
        }
    }

#[test]
    fn test_rom_banking_masked() {
        let config =
            CartridgeConfig::new(ControllerType::MBC1 { battery: true }, 0x02, 0x02).unwrap();

        // Initialize each bank with a unique value
        let mut ctrl = MBC1::new(
            config,
            (0u8..16).flat_map(|i| vec![i; ROM_BANK_SIZE]).collect(),
        );
        ctrl.write(ROM_BANK_NUMBER_BEGIN, 0b1111_1001);
        assert_eq!(
            ctrl.bank_low_bits, 0b0000_1001,
            "The upper 4 bits should be masked"
        );
        assert_eq!(
            ctrl.read(ROM_HIGH_BANK_BEGIN),
            9,
            "ROM bank 9 should be selected"
        );
    }

#[test]
    fn test_rom_banking_advanced() {
        let config =
            CartridgeConfig::new(ControllerType::MBC1 { battery: true }, 0x05, 0x02).unwrap();

        // Initialize each bank with a unique value
        let mut ctrl = MBC1::new(
            config,
            (0u8..64).flat_map(|i| vec![i; ROM_BANK_SIZE]).collect(),
        );

        // Switch to advanced mode
        ctrl.write(BANKING_MODE_SELECT_BEGIN, 0b1);

        assert_eq!(
            ctrl.read(ROM_LOW_BANK_BEGIN),
            0,
            "Bank 0 should be selected"
        );
        assert_eq!(
            ctrl.read(ROM_HIGH_BANK_BEGIN),
            1,
            "Bank 1 should be selected"
        );

        ctrl.write(RAM_BANK_NUMBER_BEGIN, 1);

        // Any attempt to address ROM Bank 32 will select bank 33 instead
        ctrl.write(ROM_BANK_NUMBER_BEGIN, 0);
        assert_eq!(
            ctrl.read(ROM_HIGH_BANK_BEGIN),
            33,
            "ROM bank 33 should be selected"
        );

        for i in 33..64 {
            ctrl.write(ROM_BANK_NUMBER_BEGIN, i);
            assert_eq!(
                ctrl.read(ROM_HIGH_BANK_BEGIN),
                i,
                "ROM bank {i} should be selected"
            );
        }
    }

#[test]
    fn mbc1_test_ram_banking() {
        let config =
            CartridgeConfig::new(ControllerType::MBC1 { battery: true }, 0x00, 0x03).unwrap();

        // Initialize each bank with a unique value
        let mut ctrl = MBC1::new(
            config,
            (0u8..64).flat_map(|i| vec![i; ROM_BANK_SIZE]).collect(),
        );

        // Switch to advanced mode and enable RAM
        ctrl.write(BANKING_MODE_SELECT_BEGIN, 1);
        ctrl.write(RAM_ENABLE_BEGIN, 0x0A);

        // Assert the banks are set correctly and the memory is initialized
        for i in 0u8..4 {
            ctrl.write(RAM_BANK_NUMBER_BEGIN, i);
            assert_eq!(ctrl.ram_bank_offset, RAM_BANK_SIZE * i as usize);
            assert_eq!(
                ctrl.read(CRAM_BANK_BEGIN),
                0,
                "RAM should be initialized to 0"
            );
            ctrl.write(CRAM_BANK_BEGIN, i + 1);
            assert_eq!(
                ctrl.read(CRAM_BANK_BEGIN),
                i + 1,
                "RAM should return {}",
                i + 1
            );
        }

        // Assert the written values are correct when switching banks again
        for i in 0u8..4 {
            ctrl.write(RAM_BANK_NUMBER_BEGIN, i);
            assert_eq!(
                ctrl.read(CRAM_BANK_BEGIN),
                i + 1,
                "RAM should return {}",
                i + 1
            );
        }
    }

use lib::bus::SubSystem;
use lib::cartridge::Cartridge;
use lib::cpu::CPU;
use lib::debugger::FrontendDebugMessage;
use lib::emulator::{fastboot, EmulatorConfig, EmulatorControl, FrontendMessage, MessageAction};
use lib::joypad::JoypadInputState;
use lib::bus::MainBus;

fn rom_image() -> Vec<u8> {
    let mut rom = vec![0u8; 0x8000];
    rom[0x147] = 0x00;
    rom[0x148] = 0x00;
    rom[0x149] = 0x00;
    rom
}

fn saving_config() -> EmulatorConfig {
    let mut config = EmulatorConfig::default();
    config.savefile = Some(String::from("game.sav"));
    config
}

#[test]
fn emulator_config_defaults() {
    let config = EmulatorConfig::default();
    assert_eq!(config.rom, None);
    assert_eq!(config.upscale, 3);
    assert!(!config.fastboot && !config.print_serial && !config.headless);
    assert_eq!(config.savefile, None);
    assert!(config.autosave);
}

#[test]
fn autosave_waits_a_minute() {
    let mut control = EmulatorControl::new(saving_config(), 100);
    assert_eq!(control.last_autosave, Some(100));
    assert_eq!(control.autosave_path(true, 159), None);
    assert_eq!(control.autosave_path(true, 160), Some(String::from("game.sav")));
    assert_eq!(control.last_autosave, Some(160));
    assert_eq!(control.autosave_path(true, 200), None);
}

#[test]
fn autosave_needs_a_savable_cartridge_and_a_path() {
    let mut control = EmulatorControl::new(saving_config(), 0);
    assert_eq!(control.autosave_path(false, 1000), None);
    let mut without_path = EmulatorControl::new(EmulatorConfig::default(), 0);
    assert_eq!(without_path.autosave_path(true, 1000), None);
    assert_eq!(without_path.last_autosave, Some(0));
    let mut off = saving_config();
    off.autosave = false;
    let mut control = EmulatorControl::new(off, 0);
    assert_eq!(control.last_autosave, None);
    assert_eq!(control.autosave_path(true, 1000), None);
}

#[test]
fn stop_makes_the_autosave_due_at_once() {
    let mut control = EmulatorControl::new(saving_config(), 100);
    assert!(matches!(control.handle_message(FrontendMessage::Stop), MessageAction::Nothing));
    assert!(!control.is_running);
    assert_eq!(control.autosave_path(true, 101), Some(String::from("game.sav")));
}

#[test]
fn messages_name_their_actions() {
    let mut control = EmulatorControl::new(EmulatorConfig::default(), 0);
    let input = JoypadInputState { a: true, ..JoypadInputState::default() };
    assert!(matches!(control.handle_message(FrontendMessage::Input(input)), MessageAction::Input(i) if i == input));
    assert!(matches!(control.handle_message(FrontendMessage::WriteSaveFile), MessageAction::Nothing));
    assert!(matches!(
        control.handle_message(FrontendMessage::UpdateConfig(saving_config())),
        MessageAction::ApplyConfig
    ));
    assert_eq!(control.config.savefile, Some(String::from("game.sav")));
    assert!(matches!(
        control.handle_message(FrontendMessage::WriteSaveFile),
        MessageAction::WriteSaveFile(p) if p == "game.sav"
    ));
    assert!(control.debugger.is_none());
    control.handle_message(FrontendMessage::Debug(FrontendDebugMessage::Step));
    assert!(control.debugger.is_none());
    assert!(matches!(control.handle_message(FrontendMessage::AttachDebugger), MessageAction::SendSnapshot));
    control.handle_message(FrontendMessage::Debug(FrontendDebugMessage::Pause));
    assert!(matches!(control.debugger.as_ref().unwrap().message, Some(FrontendDebugMessage::Pause)));
    control.handle_message(FrontendMessage::DetachDebugger);
    assert!(control.debugger.is_none());
    assert!(control.is_running);
}

#[test]
fn fastboot_leaves_the_registers_as_the_boot_rom_does() {
    let mut cpu = CPU::default();
    let mut bus = MainBus::with_cartridge(Cartridge::try_from(rom_image()).unwrap(), false, None, vec![0xAA; 256]);
    assert_eq!(bus.read(0x0000), 0xAA);
    fastboot(&mut cpu, &mut bus);
    assert_eq!(cpu.r.get_af(), 0x01B0);
    assert_eq!(cpu.r.get_bc(), 0x0013);
    assert_eq!(cpu.r.get_de(), 0x00D8);
    assert_eq!(cpu.r.get_hl(), 0x014D);
    assert_eq!(cpu.r.sp, 0xFFFE);
    assert_eq!(cpu.r.pc, 0x0100);
    assert_eq!(bus.read(0x0000), 0x00);
}

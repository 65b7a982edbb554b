//! The decisions of the emulator's main loop: what a message of the frontend changes,
//! when the cartridge RAM is saved on its own, how the machine boots fast, and who steps
//! the CPU. The loop itself, its channels, clock and files belong to the caller, which
//! carries out the action that each decision names.
use crate::bus::Bus;
use crate::constants::BOOT_END;
use crate::cpu::registers::Registers;
use crate::cpu::{step_spec, CPU};
use crate::debugger::{Debugger, FrontendDebugMessage};
use crate::joypad::JoypadInputState;
use crate::bus::MainBus;
use vstd::prelude::*;

verus! {

/// Seconds that must pass between two autosaves.
pub const AUTOSAVE_INTERVAL_SECS: u64 = 60;

/// Holds the configuration for the emulator.
#[derive(Clone, Debug)]
pub struct EmulatorConfig {
    pub rom: Option<String>,  // Path to the ROM file
    pub upscale: usize,  // Scale factor for the display
    pub fastboot: bool,  // Skip boot ROM
    pub print_serial: bool,  // Print serial data to stdout
    pub headless: bool,  // Run in headless mode (no display)
    pub savefile: Option<String>,  // Path to the save file
    pub autosave: bool,  // Automatically loads and saves SRAM
}

impl Default for EmulatorConfig {
    fn default() -> (r: Self)
        ensures
            r.rom is None,
            r.upscale == 3,
            !r.fastboot && !r.print_serial && !r.headless,
            r.savefile is None,
            r.autosave,
    {
        Self {
            rom: None,
            upscale: 3,
            fastboot: false,
            print_serial: false,
            headless: false,
            savefile: None,
            autosave: true,
        }
    }
}

/// The messages that the frontend sends to the emulator.
#[derive(Debug)]
pub enum FrontendMessage {
    Stop,
    Input(JoypadInputState),
    UpdateConfig(EmulatorConfig),
    WriteSaveFile,
    AttachDebugger,
    DetachDebugger,
    Debug(FrontendDebugMessage),
}

/// What the caller carries out after a message, beyond the state kept here.
#[derive(Clone, Debug)]
pub enum MessageAction {
    /// Nothing more.
    Nothing,
    /// Hand the joypad state to the bus.
    Input(JoypadInputState),
    /// Hand the new configuration (now in `config`) to the bus.
    ApplyConfig,
    /// Write the cartridge RAM to the save file at this path.
    WriteSaveFile(String),
    /// Send the frontend a snapshot of the machine: a debugger was attached.
    SendSnapshot,
}

/// The state of the emulator's main loop that its decisions read and change.
#[derive(Debug)]
pub struct EmulatorControl {
    pub is_running: bool,
    pub debugger: Option<Debugger>,
    pub config: EmulatorConfig,
    /// When the last autosave was made, in seconds of the caller's monotonic clock.
    pub last_autosave: Option<u64>,
}

impl EmulatorControl {
    /// A running emulator without a debugger; with autosave on, the time of creation
    /// counts as the last autosave.
    pub fn new(config: EmulatorConfig, now: u64) -> (r: Self)
        ensures
            r.is_running,
            r.debugger is None,
            r.config == config,
            r.last_autosave == (if config.autosave {
                Some(now)
            } else {
                None
            }),
    {
        let last_autosave = if config.autosave {
            Some(now)
        } else {
            None
        };
        Self { is_running: true, debugger: None, config, last_autosave }
    }

    /// Handles a message of the frontend. `Stop` ends the loop and makes the next
    /// autosave check due at once; a new configuration replaces the old one; a request to
    /// write the save file names the configured path, if there is one; attaching a
    /// debugger asks for a first snapshot; debugger requests go to the debugger, if one
    /// is attached.
    pub fn handle_message(&mut self, message: FrontendMessage) -> (action: MessageAction)
        ensures
            match message {
                FrontendMessage::Stop => !final(self).is_running && final(self).last_autosave is None
                    && final(self).debugger == old(self).debugger && final(self).config
                    == old(self).config && action is Nothing,
                FrontendMessage::Input(input) => *final(self) == *old(self) && action
                    == MessageAction::Input(input),
                FrontendMessage::UpdateConfig(config) => *final(self) == (EmulatorControl {
                    config,
                    ..*old(self)
                }) && action is ApplyConfig,
                FrontendMessage::WriteSaveFile => *final(self) == *old(self)
                    && match old(self).config.savefile {
                    Some(path) => action == MessageAction::WriteSaveFile(path),
                    None => action is Nothing,
                },
                FrontendMessage::AttachDebugger => final(self).debugger matches Some(d)
                    && d.message is None && d.marked() == Set::<u16>::empty()
                    && final(self).is_running == old(self).is_running
                    && final(self).config == old(self).config
                    && final(self).last_autosave == old(self).last_autosave && action is SendSnapshot,
                FrontendMessage::DetachDebugger => *final(self) == (EmulatorControl {
                    debugger: None,
                    ..*old(self)
                }) && action is Nothing,
                FrontendMessage::Debug(m) => final(self).is_running == old(self).is_running
                    && final(self).config == old(self).config
                    && final(self).last_autosave == old(self).last_autosave && action is Nothing
                    && match old(self).debugger {
                    Some(d) => final(self).debugger matches Some(e) && e.message == Some(m)
                        && e.marked() == d.marked(),
                    None => final(self).debugger is None,
                },
            },
    {
        match message {
            FrontendMessage::Stop => {
                // This makes the next autosave check write the save file.
                self.last_autosave = None;
                self.is_running = false;
                MessageAction::Nothing
            },
            FrontendMessage::Input(input) => MessageAction::Input(input),
            FrontendMessage::UpdateConfig(config) => {
                self.config = config;
                MessageAction::ApplyConfig
            },
            FrontendMessage::WriteSaveFile => match &self.config.savefile {
                Some(path) => MessageAction::WriteSaveFile(path.clone()),
                None => MessageAction::Nothing,
            },
            FrontendMessage::AttachDebugger => {
                self.debugger = Some(Debugger::new());
                MessageAction::SendSnapshot
            },
            FrontendMessage::DetachDebugger => {
                self.debugger = None;
                MessageAction::Nothing
            },
            FrontendMessage::Debug(message) => {
                if let Some(mut debugger) = self.debugger.take() {
                    debugger.handle_message(message);
                    self.debugger = Some(debugger);
                }
                MessageAction::Nothing
            },
        }
    }

    /// Whether an autosave is due at `now`: autosave is on, the cartridge RAM can be saved,
    /// a save file is configured, and the last autosave (if any) is a minute old.
    pub open spec fn autosave_due(self, savable: bool, now: u64) -> bool {
        &&& self.config.autosave
        &&& savable
        &&& self.config.savefile is Some
        &&& match self.last_autosave {
            Some(last) => now - last >= AUTOSAVE_INTERVAL_SECS,
            None => true,
        }
    }

    /// Whether an autosave is due at `now` (seconds on the caller's clock), and where to:
    /// with autosave on, a cartridge whose RAM can be saved, a save file configured, and
    /// no autosave in the last minute. A due autosave counts as made at `now`.
    pub fn autosave_path(&mut self, savable: bool, now: u64) -> (path: Option<String>)
        ensures
            old(self).autosave_due(savable, now) ==> path == old(self).config.savefile
                && *final(self) == (EmulatorControl { last_autosave: Some(now), ..*old(self) }),
            !old(self).autosave_due(savable, now) ==> path is None && *final(self) == *old(self),
    {
        if !self.config.autosave || !savable {
            return None;
        }
        if let Some(last_autosave) = self.last_autosave {
            if now.saturating_sub(last_autosave) < AUTOSAVE_INTERVAL_SECS {
                return None;
            }
        }
        let path = match &self.config.savefile {
            Some(path) => path.clone(),
            None => return None,
        };
        self.last_autosave = Some(now);
        Some(path)
    }

    /// Steps the machine once: through the debugger when one is attached, else the CPU
    /// directly. Says whether the frontend is owed a snapshot.
    pub fn step<T: Bus>(&mut self, cpu: &mut CPU, bus: &mut T, boot_rom_active: bool) -> (report: bool)
        ensures
            final(self).is_running == old(self).is_running,
            final(self).config == old(self).config,
            final(self).last_autosave == old(self).last_autosave,
            old(self).debugger is None ==> final(self).debugger is None
                && (*final(cpu), *final(bus)) == step_spec(*old(cpu), *old(bus)) && !report,
            old(self).debugger matches Some(d) ==> final(self).debugger matches Some(e)
                && Debugger::stepped(d, e, *old(cpu), *final(cpu), *old(bus), *final(bus), boot_rom_active, report),
    {
        match self.debugger.take() {
            Some(mut debugger) => {
                let report = debugger.maybe_step(cpu, bus, boot_rom_active);
                self.debugger = Some(debugger);
                report
            },
            None => {
                cpu.step(bus);
                false
            },
        }
    }
}

/// Stopping the emulator makes the next autosave check save at once, whenever autosave is
/// on, the cartridge RAM can be saved and a save file is configured.
pub proof fn lemma_stop_saves(control: EmulatorControl, savable: bool, now: u64)
    requires
        control.last_autosave is None,
    ensures
        control.autosave_due(savable, now) == (control.config.autosave && savable
            && control.config.savefile is Some),
{
}

/// Boots fast: sets the CPU registers as the boot ROM leaves them, with the program
/// counter just after it, and unmaps the boot ROM.
pub fn fastboot(cpu: &mut CPU, bus: &mut MainBus)
    ensures
        final(cpu).r == (Registers {
            sp: 0xFFFE,
            pc: (BOOT_END + 1) as u16,
            ..old(cpu).r.with_af(0x01B0).with_bc(0x0013).with_de(0x00D8).with_hl(0x014D)
        }),
        final(cpu).ime == old(cpu).ime && final(cpu).is_halted == old(cpu).is_halted
            && final(cpu).halt_bug == old(cpu).halt_bug,
        !final(bus).booting(),
        *final(bus) == (MainBus { is_booting: false, ..*old(bus) }),
{
    cpu.r.set_af(0x01B0);
    cpu.r.set_bc(0x0013);
    cpu.r.set_de(0x00D8);
    cpu.r.set_hl(0x014D);
    cpu.r.sp = 0xFFFE;
    cpu.r.pc = BOOT_END + 1;
    bus.unmap_boot_rom();
}

} // verus!

//! A Game Boy (DMG) emulator core: CPU, instruction decoding, memory bus,
//! cartridge bank controllers, timer, joypad and picture-unit registers.
pub mod audio;
pub mod bus;
pub mod utils;
pub mod cpu;
pub mod debugger;
pub mod display;
pub mod dma;
pub mod emulator;
pub mod cartridge;
pub mod constants;
pub mod instruction;
pub mod joypad;
pub mod memory;
pub mod oam;
pub mod ppu;
pub mod registers;
pub mod serial;
pub mod text;
pub mod timer;
pub mod timings;

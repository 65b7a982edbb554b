//! Direct memory access of the Game Boy Color.
pub mod vram;

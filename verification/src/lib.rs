//! Emulator cores for the Game Boy (DMG) and the NES, with verified contracts.

pub mod bits;
pub mod gb;
pub mod nes;
pub mod save_state;

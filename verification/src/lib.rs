//! A cycle-stepped emulator core for the Nintendo Entertainment System:
//! a 6502-derivative CPU, a dot-clocked picture processing unit, a four-channel
//! audio unit, a decoded address bus with mirroring, a bank-switching cartridge
//! mapper catalog, and versioned whole-machine save states.

pub mod apu;
pub mod bus;
pub mod cartridge;
pub mod controller;
pub mod cpu;
pub mod machine;
pub mod mapper;
pub mod ppu;
pub mod state;

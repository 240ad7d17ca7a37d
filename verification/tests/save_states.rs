//! Save-state checks: the round trip restores the machine bit for bit, later
//! frames replay identically, and a wrong version tag or foreign fingerprint
//! is rejected without touching the machine.

use nes_core::machine::NES;
use nes_core::state::StateError;

fn make_rom(prg: &[u8]) -> Vec<u8> {
    let mut rom: Vec<u8> = vec![0x4e, 0x45, 0x53, 0x1a, 1, 1, 0, 0];
    rom.resize(16, 0);
    let mut bank = vec![0u8; 0x4000];
    bank[..prg.len()].copy_from_slice(prg);
    bank[0x3ffc] = 0x00;
    bank[0x3ffd] = 0x80;
    rom.extend_from_slice(&bank);
    rom.extend_from_slice(&vec![0u8; 0x2000]);
    rom
}

fn busy_rom() -> Vec<u8> {
    // INC $10; JMP self: keeps mutating RAM every frame
    make_rom(&[0xe6, 0x10, 0x4c, 0x00, 0x80])
}

#[test]
fn save_load_round_trip_is_bit_identical() {
    let mut nes = NES::new(&busy_rom()).unwrap();
    nes.clock_for_frame();
    nes.clock_for_frame();
    let snap = nes.save_state().unwrap();
    nes.clock_for_frame();
    assert!(nes.load_state(&snap).is_ok());
    let snap2 = nes.save_state().unwrap();
    assert_eq!(snap, snap2);
}

#[test]
fn restored_machine_replays_identical_frames() {
    let mut nes = NES::new(&busy_rom()).unwrap();
    nes.clock_for_frame();
    let snap = nes.save_state().unwrap();
    let mut frames_a: Vec<Vec<u8>> = Vec::new();
    for _ in 0..3 {
        nes.clock_for_frame();
        frames_a.push(nes.pixel_buffer().unwrap().clone());
    }
    let ram_a = nes.machine.as_mut().unwrap().bus_read(0x0010);
    assert!(nes.load_state(&snap).is_ok());
    for i in 0..3 {
        nes.clock_for_frame();
        assert_eq!(nes.pixel_buffer().unwrap(), &frames_a[i]);
    }
    let ram_b = nes.machine.as_mut().unwrap().bus_read(0x0010);
    assert_eq!(ram_a, ram_b);
}

#[test]
fn wrong_version_is_rejected_and_state_untouched() {
    let mut nes = NES::new(&busy_rom()).unwrap();
    nes.clock_for_frame();
    let before = nes.save_state().unwrap();
    let mut stream = before.clone();
    stream[0] = 2;
    assert!(matches!(nes.load_state(&stream), Err(StateError::WrongVersion)));
    assert_eq!(nes.save_state().unwrap(), before);
}

#[test]
fn empty_stream_is_rejected() {
    let mut nes = NES::new(&busy_rom()).unwrap();
    let before = nes.save_state().unwrap();
    assert!(matches!(nes.load_state(&Vec::new()), Err(StateError::BadLength)));
    assert_eq!(nes.save_state().unwrap(), before);
}

#[test]
fn foreign_cartridge_fingerprint_is_rejected() {
    let mut nes = NES::new(&busy_rom()).unwrap();
    let before = nes.save_state().unwrap();
    let mut stream = before.clone();
    stream[1] = 3; // a different mapper id
    assert!(matches!(nes.load_state(&stream), Err(StateError::CartridgeMismatch)));
    assert_eq!(nes.save_state().unwrap(), before);
}

#[test]
fn corrupt_counter_is_rejected() {
    let mut nes = NES::new(&busy_rom()).unwrap();
    let before = nes.save_state().unwrap();
    let mut stream = before.clone();
    stream[26] = 0xff; // scanline far out of range
    assert!(matches!(nes.load_state(&stream), Err(StateError::Corrupt)));
    assert_eq!(nes.save_state().unwrap(), before);
}

#[test]
fn load_into_empty_console_fails() {
    let mut nes = NES::new(&busy_rom()).unwrap();
    let snap = nes.save_state().unwrap();
    let mut empty = NES::new_without_file();
    assert!(matches!(empty.load_state(&snap), Err(StateError::NoCartridge)));
}

#[test]
fn reset_preserves_memories() {
    let mut nes = NES::new(&busy_rom()).unwrap();
    nes.clock_for_frame();
    {
        let m = nes.machine.as_mut().unwrap();
        m.bus_write(0x6000, 0x77);
    }
    nes.reset();
    let m = nes.machine.as_mut().unwrap();
    assert_eq!(m.bus_read(0x6000), 0x77);
    assert_eq!(m.cpu.pc, 0x8000);
}

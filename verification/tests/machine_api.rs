//! Console-level checks: bus decoding and mirroring, mapper bank switching,
//! ROM loading errors, PPU frame timing, and the end-to-end scenarios.

use nes_core::cartridge::LoadError;
use nes_core::machine::NES;
use nes_core::mapper::{Device, Mapper};
use nes_core::ppu::{DOTS_PER_FRAME, FRAME_BYTES, TV_HEIGHT, TV_WIDTH};
use nes_core::apu::SAMPLE_RATE;
use nes_core::controller::StandardNESKey;

fn make_rom_with(mapper_hi_nibble: u8, prg_count: u8, chr_count: u8, prg_fill: &[u8]) -> Vec<u8> {
    let mut rom: Vec<u8> = vec![0x4e, 0x45, 0x53, 0x1a, prg_count, chr_count, mapper_hi_nibble << 4, 0];
    rom.resize(16, 0);
    for bank in 0..prg_count as usize {
        let mut b = vec![0u8; 0x4000];
        b[..prg_fill.len()].copy_from_slice(prg_fill);
        b[0] = bank as u8 + 1;
        b[0x3ffc] = 0x00;
        b[0x3ffd] = 0x80;
        rom.extend_from_slice(&b);
    }
    rom.extend_from_slice(&vec![0u8; chr_count as usize * 0x2000]);
    rom
}

fn make_rom(prg: &[u8]) -> Vec<u8> {
    let mut rom: Vec<u8> = vec![0x4e, 0x45, 0x53, 0x1a, 1, 1, 0, 0];
    rom.resize(16, 0);
    let mut bank = vec![0u8; 0x4000];
    bank[..prg.len()].copy_from_slice(prg);
    bank[0x3ffc] = 0x00;
    bank[0x3ffd] = 0x80;
    rom.extend_from_slice(&bank);
    rom.extend_from_slice(&vec![0u8; 0x2000]);
    rom
}

#[test]
fn ram_mirror_round_trip() {
    let rom = make_rom(&[0xea]);
    let mut m = NES::new(&rom).unwrap().machine.unwrap();
    m.bus_write(0x0123, 0xab);
    assert_eq!(m.bus_read(0x0123), 0xab);
    assert_eq!(m.bus_read(0x0923), 0xab);
    assert_eq!(m.bus_read(0x1123), 0xab);
    assert_eq!(m.bus_read(0x1923), 0xab);
    m.bus_write(0x1923, 0x21);
    assert_eq!(m.bus_read(0x0123), 0x21);
}

#[test]
fn cartridge_ram_round_trip() {
    let rom = make_rom(&[0xea]);
    let mut m = NES::new(&rom).unwrap().machine.unwrap();
    m.bus_write(0x6123, 0x5a);
    assert_eq!(m.bus_read(0x6123), 0x5a);
}

#[test]
fn uxrom_bank_switch_moves_window_only() {
    let mut mp = Mapper::from_id(2).unwrap();
    assert!(mp.init(4, 0));
    let before_fixed = mp.map_read(0xc123, Device::Cpu);
    assert_eq!(mp.map_read(0x8123, Device::Cpu), 0x0123);
    mp.map_write(0x8000, 2, Device::Cpu);
    assert_eq!(mp.map_read(0x8123, Device::Cpu), 2 * 0x4000 + 0x0123);
    assert_eq!(mp.map_read(0xc123, Device::Cpu), before_fixed);
    assert_eq!(mp.map_read(0x0123, Device::Ppu), 0x0123);
}

#[test]
fn cnrom_chr_bank_switch() {
    let mut mp = Mapper::from_id(3).unwrap();
    assert!(mp.init(1, 4));
    assert_eq!(mp.map_read(0x0045, Device::Ppu), 0x0045);
    mp.map_write(0x8000, 3, Device::Cpu);
    assert_eq!(mp.map_read(0x0045, Device::Ppu), 3 * 0x2000 + 0x0045);
    assert_eq!(mp.map_read(0x8045, Device::Cpu), 0x0045);
    // bank select wraps around the initialized bank count
    mp.map_write(0x8000, 5, Device::Cpu);
    assert_eq!(mp.map_read(0x0045, Device::Ppu), 1 * 0x2000 + 0x0045);
}

#[test]
fn bad_magic_is_rejected() {
    let mut rom = make_rom(&[0xea]);
    rom[0] = 0x4d;
    assert!(matches!(NES::new(&rom), Err(LoadError::BadHeader)));
}

#[test]
fn unknown_mapper_is_rejected() {
    let rom = make_rom_with(4, 1, 1, &[0xea]);
    assert!(matches!(NES::new(&rom), Err(LoadError::UnsupportedMapper)));
}

#[test]
fn oversized_bank_count_is_rejected() {
    let rom = make_rom_with(0, 3, 1, &[0xea]);
    assert!(matches!(NES::new(&rom), Err(LoadError::UnsupportedMapper)));
}

#[test]
fn truncated_rom_is_rejected() {
    let mut rom = make_rom(&[0xea]);
    rom.truncate(rom.len() - 1);
    assert!(matches!(NES::new(&rom), Err(LoadError::Truncated)));
}

#[test]
fn one_vblank_entry_per_frame_at_documented_dot() {
    let rom = make_rom(&[0xea]);
    let m = NES::new(&rom).unwrap().machine.unwrap();
    let mut ppu = m.ppu;
    let cart = m.cart;
    let mut entries: u32 = 0;
    for _ in 0..DOTS_PER_FRAME {
        if ppu.tick(&cart) {
            entries += 1;
            assert_eq!(ppu.scanline, 241);
            assert_eq!(ppu.dot, 1);
        }
    }
    assert_eq!(entries, 1);
}

#[test]
fn program_writes_ram_observed_after_frame() {
    // LDA #$42; STA $0010; JMP self
    let rom = make_rom(&[0xa9, 0x42, 0x8d, 0x10, 0x00, 0x4c, 0x05, 0x80]);
    let mut nes = NES::new(&rom).unwrap();
    assert!(!nes.is_empty());
    nes.clock_for_frame();
    let m = nes.machine.as_mut().unwrap();
    assert_eq!(m.bus_read(0x0010), 0x42);
}

#[test]
fn frame_has_documented_dimensions_and_audio_budget() {
    let rom = make_rom(&[0x4c, 0x00, 0x80]);
    let mut nes = NES::new(&rom).unwrap();
    nes.clock_for_frame();
    let _ = nes.audio_buffer();
    nes.clock_for_frame();
    let fb = nes.pixel_buffer().unwrap();
    assert_eq!(fb.len(), FRAME_BYTES);
    assert_eq!(fb.len(), TV_WIDTH * TV_HEIGHT * 4);
    let samples = nes.audio_buffer();
    let budget = (SAMPLE_RATE / 60) as i64;
    let got = samples.len() as i64;
    assert!((got - budget).abs() <= 1, "got {} samples", got);
    // a second drain without stepping hands back nothing
    assert_eq!(nes.audio_buffer().len(), 0);
}

#[test]
fn empty_console_is_inert() {
    let mut nes = NES::new_without_file();
    assert!(nes.is_empty());
    nes.clock_for_frame();
    assert!(nes.pixel_buffer().is_none());
    assert_eq!(nes.audio_buffer().len(), 0);
    assert!(nes.save_state().is_none());
}

#[test]
fn controller_shifts_buttons_in_order() {
    let rom = make_rom(&[0xea]);
    let mut m = NES::new(&rom).unwrap().machine.unwrap();
    m.controller.set_state(StandardNESKey::A, true);
    m.controller.set_state(StandardNESKey::Start, true);
    m.bus_write(0x4016, 1);
    m.bus_write(0x4016, 0);
    let bits: Vec<u8> = (0..8).map(|_| m.bus_read(0x4016)).collect();
    // A, B, Select, Start, Up, Down, Left, Right
    assert_eq!(bits, vec![1, 0, 0, 1, 0, 0, 0, 0]);
    // past the eighth read the port answers 1
    assert_eq!(m.bus_read(0x4016), 1);
}

#[test]
fn ppu_status_read_clears_vblank_and_latch() {
    let rom = make_rom(&[0x4c, 0x00, 0x80]);
    let mut nes = NES::new(&rom).unwrap();
    nes.clock_for_frame();
    let m = nes.machine.as_mut().unwrap();
    let st = m.bus_read(0x2002);
    assert_eq!(st & 0x80, 0x80);
    let st2 = m.bus_read(0x2002);
    assert_eq!(st2 & 0x80, 0);
}

#[test]
fn chr_ram_written_through_data_port() {
    // mapper 0 with no CHR banks: 8 KiB of CHR RAM
    let mut rom: Vec<u8> = vec![0x4e, 0x45, 0x53, 0x1a, 1, 0, 0, 0];
    rom.resize(16, 0);
    let mut bank = vec![0u8; 0x4000];
    bank[0x3ffc] = 0x00;
    bank[0x3ffd] = 0x80;
    rom.extend_from_slice(&bank);
    let mut m = NES::new(&rom).unwrap().machine.unwrap();
    assert!(m.cart.chr_is_ram);
    // set address 0x0005 and write through the data port
    m.bus_write(0x2006, 0x00);
    m.bus_write(0x2006, 0x05);
    m.bus_write(0x2007, 0x9c);
    assert_eq!(m.cart.chr[0x0005], 0x9c);
}

#[test]
fn nametable_write_read_back_through_mirror() {
    let rom = make_rom(&[0xea]);
    let mut m = NES::new(&rom).unwrap().machine.unwrap();
    // horizontal mirroring: 0x2000 and 0x2400 share a physical table
    m.bus_write(0x2006, 0x20);
    m.bus_write(0x2006, 0x44);
    m.bus_write(0x2007, 0x7e);
    m.bus_write(0x2006, 0x24);
    m.bus_write(0x2006, 0x44);
    let _ = m.bus_read(0x2007); // buffered
    assert_eq!(m.bus_read(0x2007), 0x7e);
}

#[test]
fn apu_status_reflects_length_counters() {
    let rom = make_rom(&[0xea]);
    let mut m = NES::new(&rom).unwrap().machine.unwrap();
    m.bus_write(0x4015, 0x01); // enable pulse 1
    m.bus_write(0x4003, 0x08); // length load
    assert_eq!(m.bus_read(0x4015) & 0x01, 0x01);
    m.bus_write(0x4015, 0x00); // disabling clears the counter
    assert_eq!(m.bus_read(0x4015) & 0x01, 0x00);
}

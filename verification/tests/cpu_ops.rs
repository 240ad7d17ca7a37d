//! Instruction-level checks: documented register/flag postconditions and
//! exact cycle costs for the supported opcodes.

use nes_core::machine::{Machine, NES};

fn make_rom(prg: &[u8]) -> Vec<u8> {
    let mut rom: Vec<u8> = vec![0x4e, 0x45, 0x53, 0x1a, 1, 1, 0, 0];
    rom.resize(16, 0);
    let mut bank = vec![0u8; 0x4000];
    bank[..prg.len()].copy_from_slice(prg);
    bank[0x3ffc] = 0x00;
    bank[0x3ffd] = 0x80;
    rom.extend_from_slice(&bank);
    rom.extend_from_slice(&vec![0u8; 0x2000]);
    rom
}

fn machine_with(prog: &[u8]) -> Machine {
    let rom = make_rom(prog);
    let nes = NES::new(&rom).unwrap();
    nes.machine.unwrap()
}

#[test]
fn lda_immediate_loads_and_sets_flags() {
    let mut m = machine_with(&[0xa9, 0x42]);
    let c = m.cpu_step();
    assert_eq!(c, 2);
    assert_eq!(m.cpu.a, 0x42);
    assert_eq!(m.cpu.p & 0x02, 0);
    assert_eq!(m.cpu.p & 0x80, 0);
}

#[test]
fn lda_immediate_zero_sets_zero_flag() {
    let mut m = machine_with(&[0xa9, 0x00]);
    m.cpu_step();
    assert_eq!(m.cpu.a, 0);
    assert_eq!(m.cpu.p & 0x02, 0x02);
}

#[test]
fn lda_immediate_negative_sets_negative_flag() {
    let mut m = machine_with(&[0xa9, 0x80]);
    m.cpu_step();
    assert_eq!(m.cpu.p & 0x80, 0x80);
}

#[test]
fn sta_absolute_writes_ram_and_costs_four() {
    let mut m = machine_with(&[0xa9, 0x37, 0x8d, 0x10, 0x00]);
    m.cpu_step();
    let c = m.cpu_step();
    assert_eq!(c, 4);
    assert_eq!(m.bus_read(0x0010), 0x37);
}

#[test]
fn sta_zero_page_costs_three() {
    let mut m = machine_with(&[0xa9, 0x55, 0x85, 0x20]);
    m.cpu_step();
    let c = m.cpu_step();
    assert_eq!(c, 3);
    assert_eq!(m.bus_read(0x0020), 0x55);
}

#[test]
fn adc_adds_with_carry_and_sets_carry_out() {
    // CLC; LDA #$F0; ADC #$20 -> 0x10 with carry set
    let mut m = machine_with(&[0x18, 0xa9, 0xf0, 0x69, 0x20]);
    m.cpu_step();
    m.cpu_step();
    let c = m.cpu_step();
    assert_eq!(c, 2);
    assert_eq!(m.cpu.a, 0x10);
    assert_eq!(m.cpu.p & 0x01, 0x01);
    assert_eq!(m.cpu.p & 0x40, 0);
}

#[test]
fn adc_signed_overflow_sets_v() {
    // CLC; LDA #$50; ADC #$50 -> 0xA0, V set
    let mut m = machine_with(&[0x18, 0xa9, 0x50, 0x69, 0x50]);
    m.cpu_step();
    m.cpu_step();
    m.cpu_step();
    assert_eq!(m.cpu.a, 0xa0);
    assert_eq!(m.cpu.p & 0x40, 0x40);
    assert_eq!(m.cpu.p & 0x80, 0x80);
}

#[test]
fn sbc_subtracts_with_borrow_semantics() {
    // SEC; LDA #$50; SBC #$10 -> 0x40, carry still set
    let mut m = machine_with(&[0x38, 0xa9, 0x50, 0xe9, 0x10]);
    m.cpu_step();
    m.cpu_step();
    m.cpu_step();
    assert_eq!(m.cpu.a, 0x40);
    assert_eq!(m.cpu.p & 0x01, 0x01);
}

#[test]
fn logic_ops_combine_accumulator() {
    let mut m = machine_with(&[0xa9, 0xf0, 0x29, 0x3c, 0x09, 0x01, 0x49, 0xff]);
    m.cpu_step();
    m.cpu_step();
    assert_eq!(m.cpu.a, 0x30);
    m.cpu_step();
    assert_eq!(m.cpu.a, 0x31);
    m.cpu_step();
    assert_eq!(m.cpu.a, 0xce);
}

#[test]
fn cmp_sets_carry_and_zero() {
    let mut m = machine_with(&[0xa9, 0x40, 0xc9, 0x40]);
    m.cpu_step();
    let c = m.cpu_step();
    assert_eq!(c, 2);
    assert_eq!(m.cpu.p & 0x01, 0x01);
    assert_eq!(m.cpu.p & 0x02, 0x02);
}

#[test]
fn inx_wraps_and_sets_zero() {
    let mut m = machine_with(&[0xa2, 0xff, 0xe8]);
    m.cpu_step();
    let c = m.cpu_step();
    assert_eq!(c, 2);
    assert_eq!(m.cpu.x, 0);
    assert_eq!(m.cpu.p & 0x02, 0x02);
}

#[test]
fn dey_decrements() {
    let mut m = machine_with(&[0xa0, 0x01, 0x88]);
    m.cpu_step();
    m.cpu_step();
    assert_eq!(m.cpu.y, 0);
    assert_eq!(m.cpu.p & 0x02, 0x02);
}

#[test]
fn asl_accumulator_shifts_into_carry() {
    let mut m = machine_with(&[0xa9, 0x81, 0x0a]);
    m.cpu_step();
    let c = m.cpu_step();
    assert_eq!(c, 2);
    assert_eq!(m.cpu.a, 0x02);
    assert_eq!(m.cpu.p & 0x01, 0x01);
}

#[test]
fn lsr_accumulator_shifts_out_low_bit() {
    let mut m = machine_with(&[0xa9, 0x03, 0x4a]);
    m.cpu_step();
    m.cpu_step();
    assert_eq!(m.cpu.a, 0x01);
    assert_eq!(m.cpu.p & 0x01, 0x01);
}

#[test]
fn rol_rotates_through_carry() {
    // SEC; LDA #$40; ROL -> 0x81
    let mut m = machine_with(&[0x38, 0xa9, 0x40, 0x2a]);
    m.cpu_step();
    m.cpu_step();
    m.cpu_step();
    assert_eq!(m.cpu.a, 0x81);
    assert_eq!(m.cpu.p & 0x01, 0);
}

#[test]
fn ror_rotates_through_carry() {
    // SEC; LDA #$02; ROR -> 0x81, carry clear
    let mut m = machine_with(&[0x38, 0xa9, 0x02, 0x6a]);
    m.cpu_step();
    m.cpu_step();
    m.cpu_step();
    assert_eq!(m.cpu.a, 0x81);
    assert_eq!(m.cpu.p & 0x01, 0);
}

#[test]
fn branch_cycle_costs() {
    // BNE taken, no page cross: 3 cycles (Z clear after LDA #1)
    let mut m = machine_with(&[0xa9, 0x01, 0xd0, 0x02]);
    m.cpu_step();
    let c = m.cpu_step();
    assert_eq!(c, 3);
    // BEQ untaken: 2 cycles
    let mut m2 = machine_with(&[0xa9, 0x01, 0xf0, 0x02]);
    m2.cpu_step();
    let c2 = m2.cpu_step();
    assert_eq!(c2, 2);
}

#[test]
fn branch_page_cross_costs_four() {
    // program at 0x8000: BNE -3 jumps to 0x7FFF (previous page)
    let mut m = machine_with(&[0xa9, 0x01, 0xd0, 0xfb]);
    m.cpu_step();
    let c = m.cpu_step();
    assert_eq!(c, 4);
    assert_eq!(m.cpu.pc, 0x7fff);
}

#[test]
fn jmp_absolute_sets_pc() {
    let mut m = machine_with(&[0x4c, 0x05, 0x80]);
    let c = m.cpu_step();
    assert_eq!(c, 3);
    assert_eq!(m.cpu.pc, 0x8005);
}

#[test]
fn jsr_and_rts_round_trip() {
    // JSR $8005; (pad); RTS at 0x8005 returns to 0x8003
    let mut m = machine_with(&[0x20, 0x05, 0x80, 0xea, 0xea, 0x60]);
    let c1 = m.cpu_step();
    assert_eq!(c1, 6);
    assert_eq!(m.cpu.pc, 0x8005);
    let c2 = m.cpu_step();
    assert_eq!(c2, 6);
    assert_eq!(m.cpu.pc, 0x8003);
}

#[test]
fn pha_pla_move_accumulator_through_stack() {
    let mut m = machine_with(&[0xa9, 0x7a, 0x48, 0xa9, 0x00, 0x68]);
    m.cpu_step();
    let c = m.cpu_step();
    assert_eq!(c, 3);
    m.cpu_step();
    let c2 = m.cpu_step();
    assert_eq!(c2, 4);
    assert_eq!(m.cpu.a, 0x7a);
}

#[test]
fn bit_sets_flags_from_memory() {
    // store $C0 at $10, LDA #$00, BIT $10 -> Z set, N set, V set
    let mut m = machine_with(&[0xa9, 0xc0, 0x85, 0x10, 0xa9, 0x00, 0x24, 0x10]);
    m.cpu_step();
    m.cpu_step();
    m.cpu_step();
    let c = m.cpu_step();
    assert_eq!(c, 3);
    assert_eq!(m.cpu.p & 0x02, 0x02);
    assert_eq!(m.cpu.p & 0x80, 0x80);
    assert_eq!(m.cpu.p & 0x40, 0x40);
}

#[test]
fn flag_ops_toggle_bits() {
    let mut m = machine_with(&[0x38, 0xf8, 0x78, 0x18, 0xd8]);
    m.cpu_step();
    assert_eq!(m.cpu.p & 0x01, 0x01);
    m.cpu_step();
    assert_eq!(m.cpu.p & 0x08, 0x08);
    m.cpu_step();
    assert_eq!(m.cpu.p & 0x04, 0x04);
    m.cpu_step();
    assert_eq!(m.cpu.p & 0x01, 0);
    m.cpu_step();
    assert_eq!(m.cpu.p & 0x08, 0);
}

#[test]
fn transfers_copy_registers() {
    let mut m = machine_with(&[0xa9, 0x33, 0xaa, 0xa8, 0x9a, 0xba]);
    m.cpu_step();
    m.cpu_step();
    assert_eq!(m.cpu.x, 0x33);
    m.cpu_step();
    assert_eq!(m.cpu.y, 0x33);
    m.cpu_step();
    assert_eq!(m.cpu.sp, 0x33);
    m.cpu_step();
    assert_eq!(m.cpu.x, 0x33);
}

#[test]
fn inc_dec_memory() {
    let mut m = machine_with(&[0xa9, 0x05, 0x85, 0x10, 0xe6, 0x10, 0xc6, 0x10, 0xc6, 0x10]);
    m.cpu_step();
    m.cpu_step();
    let c = m.cpu_step();
    assert_eq!(c, 5);
    assert_eq!(m.bus_read(0x0010), 0x06);
    m.cpu_step();
    m.cpu_step();
    assert_eq!(m.bus_read(0x0010), 0x04);
}

#[test]
fn indexed_loads_use_offsets() {
    // LDX #2; LDA $0E,X (zp) after storing at $10
    let mut m = machine_with(&[0xa9, 0x66, 0x85, 0x10, 0xa2, 0x02, 0xb5, 0x0e]);
    m.cpu_step();
    m.cpu_step();
    m.cpu_step();
    let c = m.cpu_step();
    assert_eq!(c, 4);
    assert_eq!(m.cpu.a, 0x66);
}

#[test]
fn undocumented_opcode_is_two_cycle_noop() {
    let mut m = machine_with(&[0x02]);
    let pc0 = m.cpu.pc;
    let c = m.cpu_step();
    assert_eq!(c, 2);
    assert_eq!(m.cpu.pc, pc0.wrapping_add(1));
}

//! The 6502-derivative CPU: fetch, decode, execute over the bus, with the
//! documented per-instruction cycle costs, page-cross penalties, and the
//! NMI/IRQ interrupt sequence.
//!
//! Supported opcode subset: loads and stores (LDA/LDX/LDY/STA/STX/STY in
//! immediate, zero-page, zero-page indexed, absolute, and for LDA/STA also
//! absolute indexed and both zero-page indirect modes), transfers
//! (TAX/TAY/TXA/TYA/TSX/TXS), ADC/SBC/AND/ORA/EOR (immediate, zero page,
//! absolute), CMP/CPX/CPY, INC/DEC (zero page, absolute) and the register
//! steps INX/INY/DEX/DEY, the four shifts and rotates on the accumulator,
//! zero page and absolute, BIT, all eight branches, JMP (absolute and
//! indirect, with the page-wrap quirk), JSR/RTS/RTI/BRK, the stack pushes
//! and pops, the seven flag instructions, and NOP. Every other opcode —
//! the remaining documented addressing modes as well as the undocumented
//! opcodes — executes as a two-cycle no-op rather than failing.

use vstd::prelude::*;
use vstd::arithmetic::div_mod::lemma_add_mod_noop;
use crate::bus::spec_decode;
use crate::machine::Machine;

verus! {

pub const FLAG_C: u8 = 1;

pub const FLAG_Z: u8 = 2;

pub const FLAG_I: u8 = 4;

pub const FLAG_D: u8 = 8;

pub const FLAG_B: u8 = 16;

pub const FLAG_U: u8 = 32;

pub const FLAG_V: u8 = 64;

pub const FLAG_N: u8 = 128;

/// CPU registers, status flags and pending-interrupt latches.
#[derive(Clone, Copy, PartialEq, Eq, Structural, Debug)]
pub struct Cpu {
    pub a: u8,
    pub x: u8,
    pub y: u8,
    pub sp: u8,
    pub pc: u16,
    pub p: u8,
    pub nmi_pending: bool,
    pub irq_pending: bool,
}

impl Cpu {
    /// Register state after power-on, before the reset vector is loaded.
    pub fn power_on() -> (r: Cpu)
        ensures
            r.a == 0 && r.x == 0 && r.y == 0,
            r.sp == 0xfd,
            r.p == 0x24,
            !r.nmi_pending && !r.irq_pending,
    {
        Cpu { a: 0, x: 0, y: 0, sp: 0xfd, pc: 0, p: 0x24, nmi_pending: false, irq_pending: false }
    }
}

/// The CPU is about to fetch an instruction from PRG ROM with no interrupt
/// pending: the case in which the per-opcode clauses below apply.
pub open spec fn spec_plain_fetch(m: Machine) -> bool {
    &&& !m.cpu.nmi_pending
    &&& !m.cpu.irq_pending
    &&& spec_decode(m.cpu.pc) is CartridgeRom
}

/// The opcode byte the next fetch returns.
pub open spec fn spec_opcode_at(m: Machine) -> u8 {
    m.spec_bus_value(m.cpu.pc)
}

/// Address `k` bytes past the program counter, wrapping.
pub open spec fn spec_operand_addr(m: Machine, k: int) -> u16 {
    ((m.cpu.pc + k) % 0x10000) as u16
}

/// The byte `k` bytes past the program counter.
pub open spec fn spec_operand(m: Machine, k: int) -> u8 {
    m.spec_bus_value(spec_operand_addr(m, k))
}

/// That byte sits in PRG ROM, so fetching it is side-effect free.
pub open spec fn spec_operand_in_rom(m: Machine, k: int) -> bool {
    spec_decode(spec_operand_addr(m, k)) is CartridgeRom
}

/// Adding to an already-wrapped counter wraps the same way as adding both
/// steps at once.
proof fn lemma_wrap_add(x: int, d: int, m: int)
    requires
        m > 0,
        0 <= x,
        0 <= d,
    ensures
        ((x % m) + d) % m == (x + d) % m,
{
    lemma_add_mod_noop(x, d, m);
    lemma_add_mod_noop(x % m, d, m);
    vstd::arithmetic::div_mod::lemma_small_mod((x % m) as nat, m as nat);
    assert(x % m % m == x % m);
}

/// Whether a status flag is set. `bit` is the flag's power-of-two mask.
pub fn get_flag(p: u8, bit: u8) -> (r: bool)
    requires
        bit == 1 || bit == 2 || bit == 4 || bit == 8 || bit == 16 || bit == 32 || bit == 64 || bit
            == 128,
    ensures
        r == ((p / bit) % 2 == 1),
{
    (p / bit) % 2 == 1
}

/// The status byte with one flag forced on or off: the bit is added when
/// absent and wanted, removed when present and unwanted.
pub open spec fn spec_set_flag(p: u8, bit: u8, on: bool) -> u8 {
    if on && (p / bit) % 2 == 0 {
        (p + bit) as u8
    } else if !on && (p / bit) % 2 == 1 {
        (p - bit) as u8
    } else {
        p
    }
}

/// The status byte with one flag forced on or off.
pub fn set_flag(p: u8, bit: u8, on: bool) -> (r: u8)
    requires
        bit == 1 || bit == 2 || bit == 4 || bit == 8 || bit == 16 || bit == 32 || bit == 64 || bit
            == 128,
    ensures
        r == spec_set_flag(p, bit, on),
{
    let bit_set = (p / bit) % 2 == 1;
    if on && !bit_set {
        p + bit
    } else if !on && bit_set {
        p - bit
    } else {
        p
    }
}

/// The status byte with zero and negative derived from a result value.
pub fn set_zn(p: u8, v: u8) -> (r: u8)
    ensures
        r == spec_set_flag(spec_set_flag(p, FLAG_Z, v == 0), FLAG_N, v >= 128),
{
    let p1 = set_flag(p, FLAG_Z, v == 0);
    set_flag(p1, FLAG_N, v >= 128)
}

/// Addition modulo 256.
pub fn wadd8(a: u8, b: u8) -> (r: u8)
    ensures
        r == (a + b) % 256,
{
    ((a as u16 + b as u16) % 256) as u8
}

/// Subtraction modulo 256.
pub fn wsub8(a: u8, b: u8) -> (r: u8)
    ensures
        r == (a + 256 - b) % 256,
{
    ((a as u16 + 256 - b as u16) % 256) as u8
}

/// Addition modulo 65536.
pub fn wadd16(a: u16, b: u16) -> (r: u16)
    ensures
        r == (a + b) % 0x10000,
{
    ((a as u32 + b as u32) % 0x10000) as u16
}

/// Subtraction modulo 65536.
pub fn wsub16(a: u16, b: u16) -> (r: u16)
    ensures
        r == (a + 0x10000 - b) % 0x10000,
{
    ((a as u32 + 0x10000 - b as u32) % 0x10000) as u16
}

/// Branch target: program counter plus a signed 8-bit displacement.
pub fn branch_target(pc: u16, off: u8) -> (r: u16)
    ensures
        off < 128 ==> r == (pc + off) % 0x10000,
        off >= 128 ==> r == (pc + off + 0xff00) % 0x10000,
{
    if off < 128 {
        wadd16(pc, off as u16)
    } else {
        wadd16(pc, off as u16 + 0xff00)
    }
}

impl Machine {
    /// Fetches the byte at the program counter and advances it.
    fn fetch8(&mut self) -> (r: u8)
        requires
            old(self).wf(),
        ensures
            final(self).wf(),
            Machine::spec_same_video_pos(*old(self), *final(self)),
            final(self).apu.samples == old(self).apu.samples,
            final(self).apu.sample_acc == old(self).apu.sample_acc,
            final(self).cpu.pc == (old(self).cpu.pc + 1) % 0x10000,
            (final(self).cpu == Cpu { pc: final(self).cpu.pc, ..old(self).cpu }),
            spec_decode(old(self).cpu.pc) is CartridgeRom ==> r == old(self).spec_bus_value(
                old(self).cpu.pc,
            ) && (*final(self) == Machine { cpu: final(self).cpu, ..*old(self) }),
    {
        let pc = self.cpu.pc;
        let v = self.bus_read(pc);
        self.cpu.pc = wadd16(pc, 1);
        v
    }

    /// Fetches a little-endian 16-bit operand.
    fn fetch16(&mut self) -> (r: u16)
        requires
            old(self).wf(),
        ensures
            final(self).wf(),
            Machine::spec_same_video_pos(*old(self), *final(self)),
            final(self).apu.samples == old(self).apu.samples,
            final(self).apu.sample_acc == old(self).apu.sample_acc,
            final(self).cpu.pc == (old(self).cpu.pc + 2) % 0x10000,
            (final(self).cpu == Cpu { pc: final(self).cpu.pc, ..old(self).cpu }),
            spec_operand_in_rom(*old(self), 0) && spec_operand_in_rom(*old(self), 1) ==> r
                == spec_operand(*old(self), 0) + 256 * spec_operand(*old(self), 1) && (*final(self)
                == Machine { cpu: final(self).cpu, ..*old(self) }),
    {
        proof {
            lemma_wrap_add(old(self).cpu.pc + 1, 1, 0x10000);
        }
        let lo = self.fetch8() as u16;
        let hi = self.fetch8() as u16;
        hi * 256 + lo
    }

    /// Pushes a byte on the stack page.
    fn push8(&mut self, v: u8)
        requires
            old(self).wf(),
        ensures
            final(self).wf(),
            Machine::spec_same_video_pos(*old(self), *final(self)),
            final(self).apu.samples == old(self).apu.samples,
            final(self).apu.sample_acc == old(self).apu.sample_acc,
            (final(self).cpu == Cpu {
                sp: ((old(self).cpu.sp + 255) % 256) as u8,
                ..old(self).cpu
            }),
            final(self).ram@ == old(self).ram@.update(0x100 + old(self).cpu.sp as int, v),
            final(self).ppu == old(self).ppu && final(self).apu == old(self).apu,
            final(self).controller == old(self).controller,
            final(self).cart == old(self).cart,
            final(self).dma_stall == old(self).dma_stall,
    {
        let sp = self.cpu.sp;
        self.bus_write(0x100 + sp as u16, v);
        self.cpu.sp = wsub8(sp, 1);
    }

    /// Pops a byte off the stack page.
    fn pop8(&mut self) -> (r: u8)
        requires
            old(self).wf(),
        ensures
            final(self).wf(),
            Machine::spec_same_video_pos(*old(self), *final(self)),
            final(self).apu.samples == old(self).apu.samples,
            final(self).apu.sample_acc == old(self).apu.sample_acc,
    {
        let sp = wadd8(self.cpu.sp, 1);
        self.cpu.sp = sp;
        self.bus_read(0x100 + sp as u16)
    }

    /// Reads a 16-bit interrupt/reset vector.
    fn read_vector(&mut self, address: u16) -> (r: u16)
        requires
            old(self).wf(),
            0x8000 <= address <= 0xfffe,
        ensures
            final(self).wf(),
            Machine::spec_same_video_pos(*old(self), *final(self)),
            final(self).apu.samples == old(self).apu.samples,
            final(self).apu.sample_acc == old(self).apu.sample_acc,
            r == old(self).spec_bus_value(address) + 256 * old(self).spec_bus_value(
                (address + 1) as u16,
            ),
            *final(self) == *old(self),
    {
        let lo = self.bus_read(address) as u16;
        let hi = self.bus_read(address + 1) as u16;
        hi * 256 + lo
    }

    /// The interrupt sequence: pushes the return address and status, sets
    /// interrupt-disable, and loads the handler vector.
    fn service_interrupt(&mut self, vector: u16, from_brk: bool)
        requires
            old(self).wf(),
            0x8000 <= vector <= 0xfffe,
        ensures
            final(self).wf(),
            Machine::spec_same_video_pos(*old(self), *final(self)),
            final(self).apu.samples == old(self).apu.samples,
            final(self).apu.sample_acc == old(self).apu.sample_acc,
            final(self).cpu.sp == ((old(self).cpu.sp + 253) % 256) as u8,
            final(self).cpu.nmi_pending == old(self).cpu.nmi_pending,
            final(self).cpu.irq_pending == old(self).cpu.irq_pending,
            final(self).cart == old(self).cart && final(self).ppu == old(self).ppu && final(self).apu == old(self).apu,
            final(self).cpu.pc == old(self).spec_bus_value(vector) + 256 * old(self).spec_bus_value(
                (vector + 1) as u16,
            ),
    {
        proof {
            let s0 = old(self).cpu.sp as int;
            lemma_wrap_add(s0 + 255, 255, 256);
            lemma_wrap_add(s0 + 510, 255, 256);
            lemma_add_mod_noop(s0 + 253, 512, 256);
            vstd::arithmetic::div_mod::lemma_small_mod(((s0 + 253) % 256) as nat, 256nat);
            assert(512int % 256 == 0);
        }
        let pc = self.cpu.pc;
        self.push8((pc / 256) as u8);
        self.push8((pc % 256) as u8);
        let pushed = set_flag(set_flag(self.cpu.p, FLAG_B, from_brk), FLAG_U, true);
        self.push8(pushed);
        self.cpu.p = set_flag(self.cpu.p, FLAG_I, true);
        let t = self.read_vector(vector);
        self.cpu.pc = t;
    }

    /// Zero-page operand address.
    fn addr_zp(&mut self) -> (r: u16)
        requires
            old(self).wf(),
        ensures
            final(self).wf(),
            Machine::spec_same_video_pos(*old(self), *final(self)),
            final(self).apu.samples == old(self).apu.samples,
            final(self).apu.sample_acc == old(self).apu.sample_acc,
            final(self).cpu.pc == (old(self).cpu.pc + 1) % 0x10000,
            (final(self).cpu == Cpu { pc: final(self).cpu.pc, ..old(self).cpu }),
            r < 256,
            spec_operand_in_rom(*old(self), 0) ==> r == spec_operand(*old(self), 0) && (*final(self)
                == Machine { cpu: final(self).cpu, ..*old(self) }),
    {
        self.fetch8() as u16
    }

    /// Zero-page,X operand address (wraps within the zero page).
    fn addr_zpx(&mut self) -> (r: u16)
        requires
            old(self).wf(),
        ensures
            final(self).wf(),
            Machine::spec_same_video_pos(*old(self), *final(self)),
            final(self).apu.samples == old(self).apu.samples,
            final(self).apu.sample_acc == old(self).apu.sample_acc,
    {
        let z = self.fetch8();
        wadd8(z, self.cpu.x) as u16
    }

    /// Zero-page,Y operand address (wraps within the zero page).
    fn addr_zpy(&mut self) -> (r: u16)
        requires
            old(self).wf(),
        ensures
            final(self).wf(),
            Machine::spec_same_video_pos(*old(self), *final(self)),
            final(self).apu.samples == old(self).apu.samples,
            final(self).apu.sample_acc == old(self).apu.sample_acc,
    {
        let z = self.fetch8();
        wadd8(z, self.cpu.y) as u16
    }

    /// Absolute operand address.
    fn addr_abs(&mut self) -> (r: u16)
        requires
            old(self).wf(),
        ensures
            final(self).wf(),
            Machine::spec_same_video_pos(*old(self), *final(self)),
            final(self).apu.samples == old(self).apu.samples,
            final(self).apu.sample_acc == old(self).apu.sample_acc,
            final(self).cpu.pc == (old(self).cpu.pc + 2) % 0x10000,
            (final(self).cpu == Cpu { pc: final(self).cpu.pc, ..old(self).cpu }),
            spec_operand_in_rom(*old(self), 0) && spec_operand_in_rom(*old(self), 1) ==> r
                == spec_operand(*old(self), 0) + 256 * spec_operand(*old(self), 1) && (*final(self)
                == Machine { cpu: final(self).cpu, ..*old(self) }),
    {
        self.fetch16()
    }

    /// Absolute,X operand address, reporting a page crossing.
    fn addr_absx(&mut self) -> (r: (u16, bool))
        requires
            old(self).wf(),
        ensures
            final(self).wf(),
            Machine::spec_same_video_pos(*old(self), *final(self)),
            final(self).apu.samples == old(self).apu.samples,
            final(self).apu.sample_acc == old(self).apu.sample_acc,
    {
        let base = self.fetch16();
        let t = wadd16(base, self.cpu.x as u16);
        (t, base / 256 != t / 256)
    }

    /// Absolute,Y operand address, reporting a page crossing.
    fn addr_absy(&mut self) -> (r: (u16, bool))
        requires
            old(self).wf(),
        ensures
            final(self).wf(),
            Machine::spec_same_video_pos(*old(self), *final(self)),
            final(self).apu.samples == old(self).apu.samples,
            final(self).apu.sample_acc == old(self).apu.sample_acc,
    {
        let base = self.fetch16();
        let t = wadd16(base, self.cpu.y as u16);
        (t, base / 256 != t / 256)
    }

    /// (Indirect,X) operand address through the zero page.
    fn addr_indx(&mut self) -> (r: u16)
        requires
            old(self).wf(),
        ensures
            final(self).wf(),
            Machine::spec_same_video_pos(*old(self), *final(self)),
            final(self).apu.samples == old(self).apu.samples,
            final(self).apu.sample_acc == old(self).apu.sample_acc,
    {
        let z = wadd8(self.fetch8(), self.cpu.x);
        let lo = self.bus_read(z as u16) as u16;
        let hi = self.bus_read(wadd8(z, 1) as u16) as u16;
        hi * 256 + lo
    }

    /// (Indirect),Y operand address through the zero page, reporting a page
    /// crossing.
    fn addr_indy(&mut self) -> (r: (u16, bool))
        requires
            old(self).wf(),
        ensures
            final(self).wf(),
            Machine::spec_same_video_pos(*old(self), *final(self)),
            final(self).apu.samples == old(self).apu.samples,
            final(self).apu.sample_acc == old(self).apu.sample_acc,
    {
        let z = self.fetch8();
        let lo = self.bus_read(z as u16) as u16;
        let hi = self.bus_read(wadd8(z, 1) as u16) as u16;
        let base: u16 = hi * 256 + lo;
        let t = wadd16(base, self.cpu.y as u16);
        (t, base / 256 != t / 256)
    }

    /// Add with carry into the accumulator, setting C, V, Z, N.
    fn do_adc(&mut self, m: u8)
        requires
            old(self).wf(),
        ensures
            final(self).wf(),
            Machine::spec_same_video_pos(*old(self), *final(self)),
            final(self).apu.samples == old(self).apu.samples,
            final(self).apu.sample_acc == old(self).apu.sample_acc,
    {
        let a = self.cpu.a;
        let cin: u16 = if get_flag(self.cpu.p, FLAG_C) {
            1
        } else {
            0
        };
        let t: u16 = a as u16 + m as u16 + cin;
        let r: u8 = (t % 256) as u8;
        let mut p = set_flag(self.cpu.p, FLAG_C, t > 255);
        let overflow = (a / 128 == m / 128) && (r / 128 != a / 128);
        p = set_flag(p, FLAG_V, overflow);
        p = set_zn(p, r);
        self.cpu.p = p;
        self.cpu.a = r;
    }

    /// Compare a register with memory, setting C, Z, N.
    fn do_compare(&mut self, reg: u8, m: u8)
        requires
            old(self).wf(),
        ensures
            final(self).wf(),
            Machine::spec_same_video_pos(*old(self), *final(self)),
            final(self).apu.samples == old(self).apu.samples,
            final(self).apu.sample_acc == old(self).apu.sample_acc,
    {
        let d = wsub8(reg, m);
        let mut p = set_flag(self.cpu.p, FLAG_C, reg >= m);
        p = set_zn(p, d);
        self.cpu.p = p;
    }

    /// Branch on a condition: 2 cycles untaken, 3 taken, 4 across a page.
    fn do_branch(&mut self, cond: bool) -> (c: u8)
        requires
            old(self).wf(),
        ensures
            final(self).wf(),
            Machine::spec_same_video_pos(*old(self), *final(self)),
            final(self).apu.samples == old(self).apu.samples,
            final(self).apu.sample_acc == old(self).apu.sample_acc,
            2 <= c <= 4,
    {
        let off = self.fetch8();
        if cond {
            let pc = self.cpu.pc;
            let t = branch_target(pc, off);
            self.cpu.pc = t;
            if pc / 256 != t / 256 {
                4
            } else {
                3
            }
        } else {
            2
        }
    }

    /// One instruction (or one accepted interrupt, or a DMA stall): runs it
    /// to completion and returns how many CPU cycles it consumed. A pending
    /// NMI is taken first, with the documented 7-cycle cost, the three stack
    /// pushes and the jump through the NMI vector. For the register-level
    /// opcodes fetched from PRG ROM with no interrupt pending, the exact
    /// effect on registers, memory, program counter and cycle count is part
    /// of the contract.
    #[verifier::rlimit(100)]
    pub fn cpu_step(&mut self) -> (cycles: u32)
        requires
            old(self).wf(),
        ensures
            final(self).wf(),
            Machine::spec_same_video_pos(*old(self), *final(self)),
            final(self).apu.samples == old(self).apu.samples,
            final(self).apu.sample_acc == old(self).apu.sample_acc,
            old(self).dma_stall + 1 <= cycles <= old(self).dma_stall + 8,
            old(self).cpu.nmi_pending ==> !final(self).cpu.nmi_pending && cycles == old(self).dma_stall + 7 && final(self).cpu.pc == old(self).spec_bus_value(0xfffa) + 256 * old(self).spec_bus_value(0xfffb) && final(self).cpu.sp == ((old(self).cpu.sp + 253)
                % 256) as u8,
            spec_plain_fetch(*old(self)) && spec_opcode_at(*old(self)) == 0xa9
                && spec_operand_in_rom(*old(self), 1) ==> final(self).cpu.a == spec_operand(
                *old(self),
                1,
            ) && final(self).cpu.pc == spec_operand_addr(*old(self), 2) && cycles == old(self).dma_stall + 2 && final(self).ram == old(self).ram,
            spec_plain_fetch(*old(self)) && spec_opcode_at(*old(self)) == 0xa2
                && spec_operand_in_rom(*old(self), 1) ==> final(self).cpu.x == spec_operand(
                *old(self),
                1,
            ) && final(self).cpu.pc == spec_operand_addr(*old(self), 2) && cycles == old(self).dma_stall + 2,
            spec_plain_fetch(*old(self)) && spec_opcode_at(*old(self)) == 0xa0
                && spec_operand_in_rom(*old(self), 1) ==> final(self).cpu.y == spec_operand(
                *old(self),
                1,
            ) && final(self).cpu.pc == spec_operand_addr(*old(self), 2) && cycles == old(self).dma_stall + 2,
            spec_plain_fetch(*old(self)) && spec_opcode_at(*old(self)) == 0xaa ==> final(self).cpu.x == old(self).cpu.a && final(self).cpu.pc == spec_operand_addr(*old(self), 1)
                && cycles == old(self).dma_stall + 2,
            spec_plain_fetch(*old(self)) && spec_opcode_at(*old(self)) == 0x8a ==> final(self).cpu.a == old(self).cpu.x && final(self).cpu.pc == spec_operand_addr(*old(self), 1)
                && cycles == old(self).dma_stall + 2,
            spec_plain_fetch(*old(self)) && spec_opcode_at(*old(self)) == 0xe8 ==> final(self).cpu.x == (old(self).cpu.x + 1) % 256 && final(self).cpu.pc == spec_operand_addr(
                *old(self),
                1,
            ) && cycles == old(self).dma_stall + 2,
            spec_plain_fetch(*old(self)) && spec_opcode_at(*old(self)) == 0xca ==> final(self).cpu.x == (old(self).cpu.x + 255) % 256 && final(self).cpu.pc == spec_operand_addr(
                *old(self),
                1,
            ) && cycles == old(self).dma_stall + 2,
            spec_plain_fetch(*old(self)) && spec_opcode_at(*old(self)) == 0xea ==> final(self).cpu
                == (Cpu { pc: spec_operand_addr(*old(self), 1), ..old(self).cpu }) && final(self).ram == old(self).ram && cycles == old(self).dma_stall + 2,
            spec_plain_fetch(*old(self)) && spec_opcode_at(*old(self)) == 0x4c
                && spec_operand_in_rom(*old(self), 1) && spec_operand_in_rom(*old(self), 2)
                ==> final(self).cpu.pc == spec_operand(*old(self), 1) + 256 * spec_operand(
                *old(self),
                2,
            ) && cycles == old(self).dma_stall + 3 && final(self).ram == old(self).ram,
            spec_plain_fetch(*old(self)) && spec_opcode_at(*old(self)) == 0x85
                && spec_operand_in_rom(*old(self), 1) ==> final(self).ram@ == old(self).ram@.update(spec_operand(*old(self), 1) as int, old(self).cpu.a) && final(self).cpu.a
                == old(self).cpu.a && final(self).cpu.pc == spec_operand_addr(*old(self), 2)
                && cycles == old(self).dma_stall + 3,
    {
        let mut stall: u32 = 0;
        if self.dma_stall > 0 {
            stall = self.dma_stall;
            self.dma_stall = 0;
        }
        if self.cpu.nmi_pending {
            self.cpu.nmi_pending = false;
            proof {
                assert forall|a: u16| #[trigger]
                    self.spec_bus_value(a) == old(self).spec_bus_value(a) by {}
            }
            self.service_interrupt(0xfffa, false);
            return stall + 7;
        }
        if self.cpu.irq_pending {
            self.cpu.irq_pending = false;
            if !get_flag(self.cpu.p, FLAG_I) {
                self.service_interrupt(0xfffe, false);
                return stall + 7;
            }
        }
        let ghost m0 = *old(self);
        let ghost m_pre = *self;
        let opcode = self.fetch8();
        proof {
            if spec_plain_fetch(m0) {
                vstd::arithmetic::div_mod::lemma_small_mod(
                    ((m0.cpu.pc + 1) % 0x10000) as nat,
                    0x10000nat,
                );
                lemma_wrap_add(m0.cpu.pc + 1, 1, 0x10000);
                assert(self.cpu.pc == spec_operand_addr(m0, 1));
                assert(spec_operand_addr(*self, 0) == spec_operand_addr(m0, 1));
                assert(spec_operand_addr(*self, 1) == spec_operand_addr(m0, 2));
                assert forall|a: u16| #[trigger]
                    self.spec_bus_value(a) == m0.spec_bus_value(a) by {}
            }
        }
        let c = self.exec_opcode(opcode);
        stall + c as u32
    }

    /// Decode and execute one opcode; returns its cycle cost. For the
    /// register-level opcodes below, the exact effect on registers, memory,
    /// program counter and cycle count is part of the contract (operands
    /// fetched from PRG ROM).
    #[verifier::rlimit(100)]
    fn exec_opcode(&mut self, opcode: u8) -> (c: u8)
        requires
            old(self).wf(),
        ensures
            final(self).wf(),
            Machine::spec_same_video_pos(*old(self), *final(self)),
            final(self).apu.samples == old(self).apu.samples,
            final(self).apu.sample_acc == old(self).apu.sample_acc,
            1 <= c <= 8,
            opcode == 0xa9 && spec_operand_in_rom(*old(self), 0) ==> final(self).cpu.a
                == spec_operand(*old(self), 0) && final(self).cpu.x == old(self).cpu.x && final(self).cpu.y == old(self).cpu.y && final(self).cpu.pc == spec_operand_addr(*old(self), 1)
                && c == 2 && final(self).ram == old(self).ram,
            opcode == 0xa2 && spec_operand_in_rom(*old(self), 0) ==> final(self).cpu.x
                == spec_operand(*old(self), 0) && final(self).cpu.a == old(self).cpu.a && final(self).cpu.pc == spec_operand_addr(*old(self), 1) && c == 2 && final(self).ram == old(self).ram,
            opcode == 0xa0 && spec_operand_in_rom(*old(self), 0) ==> final(self).cpu.y
                == spec_operand(*old(self), 0) && final(self).cpu.a == old(self).cpu.a && final(self).cpu.pc == spec_operand_addr(*old(self), 1) && c == 2 && final(self).ram == old(self).ram,
            opcode == 0xaa ==> final(self).cpu.x == old(self).cpu.a && final(self).cpu.a == old(self).cpu.a && final(self).cpu.pc == old(self).cpu.pc && c == 2 && final(self).ram == old(self).ram,
            opcode == 0x8a ==> final(self).cpu.a == old(self).cpu.x && final(self).cpu.x == old(self).cpu.x && final(self).cpu.pc == old(self).cpu.pc && c == 2 && final(self).ram == old(self).ram,
            opcode == 0xe8 ==> final(self).cpu.x == (old(self).cpu.x + 1) % 256 && final(self).cpu.pc == old(self).cpu.pc && c == 2 && final(self).ram == old(self).ram,
            opcode == 0xca ==> final(self).cpu.x == (old(self).cpu.x + 255) % 256 && final(self).cpu.pc == old(self).cpu.pc && c == 2 && final(self).ram == old(self).ram,
            opcode == 0xea ==> *final(self) == *old(self) && c == 2,
            opcode == 0x4c && spec_operand_in_rom(*old(self), 0) && spec_operand_in_rom(
                *old(self),
                1,
            ) ==> final(self).cpu.pc == spec_operand(*old(self), 0) + 256 * spec_operand(
                *old(self),
                1,
            ) && c == 3 && final(self).ram == old(self).ram,
            opcode == 0x85 && spec_operand_in_rom(*old(self), 0) ==> final(self).ram@ == old(self).ram@.update(spec_operand(*old(self), 0) as int, old(self).cpu.a) && final(self).cpu.a
                == old(self).cpu.a && final(self).cpu.pc == spec_operand_addr(*old(self), 1) && c
                == 3,
    {
        match opcode {
            0xa9 => {
                let v = self.fetch8();
                self.cpu.a = v;
                self.cpu.p = set_zn(self.cpu.p, v);
                2
            },
            0xa5 => {
                let a = self.addr_zp();
                let v = self.bus_read(a);
                self.cpu.a = v;
                self.cpu.p = set_zn(self.cpu.p, v);
                3
            },
            0xb5 => {
                let a = self.addr_zpx();
                let v = self.bus_read(a);
                self.cpu.a = v;
                self.cpu.p = set_zn(self.cpu.p, v);
                4
            },
            0xad => {
                let a = self.addr_abs();
                let v = self.bus_read(a);
                self.cpu.a = v;
                self.cpu.p = set_zn(self.cpu.p, v);
                4
            },
            0xbd => {
                let (a, crossed) = self.addr_absx();
                let v = self.bus_read(a);
                self.cpu.a = v;
                self.cpu.p = set_zn(self.cpu.p, v);
                if crossed {
                    5
                } else {
                    4
                }
            },
            0xb9 => {
                let (a, crossed) = self.addr_absy();
                let v = self.bus_read(a);
                self.cpu.a = v;
                self.cpu.p = set_zn(self.cpu.p, v);
                if crossed {
                    5
                } else {
                    4
                }
            },
            0xa1 => {
                let a = self.addr_indx();
                let v = self.bus_read(a);
                self.cpu.a = v;
                self.cpu.p = set_zn(self.cpu.p, v);
                6
            },
            0xb1 => {
                let (a, crossed) = self.addr_indy();
                let v = self.bus_read(a);
                self.cpu.a = v;
                self.cpu.p = set_zn(self.cpu.p, v);
                if crossed {
                    6
                } else {
                    5
                }
            },
            0xa2 => {
                let v = self.fetch8();
                self.cpu.x = v;
                self.cpu.p = set_zn(self.cpu.p, v);
                2
            },
            0xa6 => {
                let a = self.addr_zp();
                let v = self.bus_read(a);
                self.cpu.x = v;
                self.cpu.p = set_zn(self.cpu.p, v);
                3
            },
            0xb6 => {
                let a = self.addr_zpy();
                let v = self.bus_read(a);
                self.cpu.x = v;
                self.cpu.p = set_zn(self.cpu.p, v);
                4
            },
            0xae => {
                let a = self.addr_abs();
                let v = self.bus_read(a);
                self.cpu.x = v;
                self.cpu.p = set_zn(self.cpu.p, v);
                4
            },
            0xa0 => {
                let v = self.fetch8();
                self.cpu.y = v;
                self.cpu.p = set_zn(self.cpu.p, v);
                2
            },
            0xa4 => {
                let a = self.addr_zp();
                let v = self.bus_read(a);
                self.cpu.y = v;
                self.cpu.p = set_zn(self.cpu.p, v);
                3
            },
            0xac => {
                let a = self.addr_abs();
                let v = self.bus_read(a);
                self.cpu.y = v;
                self.cpu.p = set_zn(self.cpu.p, v);
                4
            },
            0x85 => {
                let a = self.addr_zp();
                let v = self.cpu.a;
                self.bus_write(a, v);
                3
            },
            0x95 => {
                let a = self.addr_zpx();
                let v = self.cpu.a;
                self.bus_write(a, v);
                4
            },
            0x8d => {
                let a = self.addr_abs();
                let v = self.cpu.a;
                self.bus_write(a, v);
                4
            },
            0x9d => {
                let (a, _crossed) = self.addr_absx();
                let v = self.cpu.a;
                self.bus_write(a, v);
                5
            },
            0x99 => {
                let (a, _crossed) = self.addr_absy();
                let v = self.cpu.a;
                self.bus_write(a, v);
                5
            },
            0x81 => {
                let a = self.addr_indx();
                let v = self.cpu.a;
                self.bus_write(a, v);
                6
            },
            0x91 => {
                let (a, _crossed) = self.addr_indy();
                let v = self.cpu.a;
                self.bus_write(a, v);
                6
            },
            0x86 => {
                let a = self.addr_zp();
                let v = self.cpu.x;
                self.bus_write(a, v);
                3
            },
            0x96 => {
                let a = self.addr_zpy();
                let v = self.cpu.x;
                self.bus_write(a, v);
                4
            },
            0x8e => {
                let a = self.addr_abs();
                let v = self.cpu.x;
                self.bus_write(a, v);
                4
            },
            0x84 => {
                let a = self.addr_zp();
                let v = self.cpu.y;
                self.bus_write(a, v);
                3
            },
            0x94 => {
                let a = self.addr_zpx();
                let v = self.cpu.y;
                self.bus_write(a, v);
                4
            },
            0x8c => {
                let a = self.addr_abs();
                let v = self.cpu.y;
                self.bus_write(a, v);
                4
            },
            0xaa => {
                let v = self.cpu.a;
                self.cpu.x = v;
                self.cpu.p = set_zn(self.cpu.p, v);
                2
            },
            0xa8 => {
                let v = self.cpu.a;
                self.cpu.y = v;
                self.cpu.p = set_zn(self.cpu.p, v);
                2
            },
            0x8a => {
                let v = self.cpu.x;
                self.cpu.a = v;
                self.cpu.p = set_zn(self.cpu.p, v);
                2
            },
            0x98 => {
                let v = self.cpu.y;
                self.cpu.a = v;
                self.cpu.p = set_zn(self.cpu.p, v);
                2
            },
            0xba => {
                let v = self.cpu.sp;
                self.cpu.x = v;
                self.cpu.p = set_zn(self.cpu.p, v);
                2
            },
            0x9a => {
                self.cpu.sp = self.cpu.x;
                2
            },
            0x69 => {
                let m = self.fetch8();
                self.do_adc(m);
                2
            },
            0x65 => {
                let a = self.addr_zp();
                let m = self.bus_read(a);
                self.do_adc(m);
                3
            },
            0x6d => {
                let a = self.addr_abs();
                let m = self.bus_read(a);
                self.do_adc(m);
                4
            },
            0xe9 => {
                let m = self.fetch8();
                self.do_adc(255 - m);
                2
            },
            0xe5 => {
                let a = self.addr_zp();
                let m = self.bus_read(a);
                self.do_adc(255 - m);
                3
            },
            0xed => {
                let a = self.addr_abs();
                let m = self.bus_read(a);
                self.do_adc(255 - m);
                4
            },
            0x29 => {
                let m = self.fetch8();
                let v = self.cpu.a & m;
                self.cpu.a = v;
                self.cpu.p = set_zn(self.cpu.p, v);
                2
            },
            0x25 => {
                let a = self.addr_zp();
                let m = self.bus_read(a);
                let v = self.cpu.a & m;
                self.cpu.a = v;
                self.cpu.p = set_zn(self.cpu.p, v);
                3
            },
            0x2d => {
                let a = self.addr_abs();
                let m = self.bus_read(a);
                let v = self.cpu.a & m;
                self.cpu.a = v;
                self.cpu.p = set_zn(self.cpu.p, v);
                4
            },
            0x09 => {
                let m = self.fetch8();
                let v = self.cpu.a | m;
                self.cpu.a = v;
                self.cpu.p = set_zn(self.cpu.p, v);
                2
            },
            0x05 => {
                let a = self.addr_zp();
                let m = self.bus_read(a);
                let v = self.cpu.a | m;
                self.cpu.a = v;
                self.cpu.p = set_zn(self.cpu.p, v);
                3
            },
            0x0d => {
                let a = self.addr_abs();
                let m = self.bus_read(a);
                let v = self.cpu.a | m;
                self.cpu.a = v;
                self.cpu.p = set_zn(self.cpu.p, v);
                4
            },
            0x49 => {
                let m = self.fetch8();
                let v = self.cpu.a ^ m;
                self.cpu.a = v;
                self.cpu.p = set_zn(self.cpu.p, v);
                2
            },
            0x45 => {
                let a = self.addr_zp();
                let m = self.bus_read(a);
                let v = self.cpu.a ^ m;
                self.cpu.a = v;
                self.cpu.p = set_zn(self.cpu.p, v);
                3
            },
            0x4d => {
                let a = self.addr_abs();
                let m = self.bus_read(a);
                let v = self.cpu.a ^ m;
                self.cpu.a = v;
                self.cpu.p = set_zn(self.cpu.p, v);
                4
            },
            0xc9 => {
                let m = self.fetch8();
                let r = self.cpu.a;
                self.do_compare(r, m);
                2
            },
            0xc5 => {
                let a = self.addr_zp();
                let m = self.bus_read(a);
                let r = self.cpu.a;
                self.do_compare(r, m);
                3
            },
            0xcd => {
                let a = self.addr_abs();
                let m = self.bus_read(a);
                let r = self.cpu.a;
                self.do_compare(r, m);
                4
            },
            0xe0 => {
                let m = self.fetch8();
                let r = self.cpu.x;
                self.do_compare(r, m);
                2
            },
            0xe4 => {
                let a = self.addr_zp();
                let m = self.bus_read(a);
                let r = self.cpu.x;
                self.do_compare(r, m);
                3
            },
            0xec => {
                let a = self.addr_abs();
                let m = self.bus_read(a);
                let r = self.cpu.x;
                self.do_compare(r, m);
                4
            },
            0xc0 => {
                let m = self.fetch8();
                let r = self.cpu.y;
                self.do_compare(r, m);
                2
            },
            0xc4 => {
                let a = self.addr_zp();
                let m = self.bus_read(a);
                let r = self.cpu.y;
                self.do_compare(r, m);
                3
            },
            0xcc => {
                let a = self.addr_abs();
                let m = self.bus_read(a);
                let r = self.cpu.y;
                self.do_compare(r, m);
                4
            },
            0xe6 => {
                let a = self.addr_zp();
                let v = wadd8(self.bus_read(a), 1);
                self.bus_write(a, v);
                self.cpu.p = set_zn(self.cpu.p, v);
                5
            },
            0xee => {
                let a = self.addr_abs();
                let v = wadd8(self.bus_read(a), 1);
                self.bus_write(a, v);
                self.cpu.p = set_zn(self.cpu.p, v);
                6
            },
            0xc6 => {
                let a = self.addr_zp();
                let v = wsub8(self.bus_read(a), 1);
                self.bus_write(a, v);
                self.cpu.p = set_zn(self.cpu.p, v);
                5
            },
            0xce => {
                let a = self.addr_abs();
                let v = wsub8(self.bus_read(a), 1);
                self.bus_write(a, v);
                self.cpu.p = set_zn(self.cpu.p, v);
                6
            },
            0xe8 => {
                let v = wadd8(self.cpu.x, 1);
                self.cpu.x = v;
                self.cpu.p = set_zn(self.cpu.p, v);
                2
            },
            0xc8 => {
                let v = wadd8(self.cpu.y, 1);
                self.cpu.y = v;
                self.cpu.p = set_zn(self.cpu.p, v);
                2
            },
            0xca => {
                let v = wsub8(self.cpu.x, 1);
                self.cpu.x = v;
                self.cpu.p = set_zn(self.cpu.p, v);
                2
            },
            0x88 => {
                let v = wsub8(self.cpu.y, 1);
                self.cpu.y = v;
                self.cpu.p = set_zn(self.cpu.p, v);
                2
            },
            0x0a => {
                let v = self.cpu.a;
                let r = (v % 128) * 2;
                self.cpu.p = set_zn(set_flag(self.cpu.p, FLAG_C, v >= 128), r);
                self.cpu.a = r;
                2
            },
            0x06 => {
                let a = self.addr_zp();
                let v = self.bus_read(a);
                let r = (v % 128) * 2;
                self.cpu.p = set_zn(set_flag(self.cpu.p, FLAG_C, v >= 128), r);
                self.bus_write(a, r);
                5
            },
            0x0e => {
                let a = self.addr_abs();
                let v = self.bus_read(a);
                let r = (v % 128) * 2;
                self.cpu.p = set_zn(set_flag(self.cpu.p, FLAG_C, v >= 128), r);
                self.bus_write(a, r);
                6
            },
            0x4a => {
                let v = self.cpu.a;
                let r = v / 2;
                self.cpu.p = set_zn(set_flag(self.cpu.p, FLAG_C, v % 2 == 1), r);
                self.cpu.a = r;
                2
            },
            0x46 => {
                let a = self.addr_zp();
                let v = self.bus_read(a);
                let r = v / 2;
                self.cpu.p = set_zn(set_flag(self.cpu.p, FLAG_C, v % 2 == 1), r);
                self.bus_write(a, r);
                5
            },
            0x4e => {
                let a = self.addr_abs();
                let v = self.bus_read(a);
                let r = v / 2;
                self.cpu.p = set_zn(set_flag(self.cpu.p, FLAG_C, v % 2 == 1), r);
                self.bus_write(a, r);
                6
            },
            0x2a => {
                let v = self.cpu.a;
                let cin: u8 = if get_flag(self.cpu.p, FLAG_C) {
                    1
                } else {
                    0
                };
                let r = (v % 128) * 2 + cin;
                self.cpu.p = set_zn(set_flag(self.cpu.p, FLAG_C, v >= 128), r);
                self.cpu.a = r;
                2
            },
            0x26 => {
                let a = self.addr_zp();
                let v = self.bus_read(a);
                let cin: u8 = if get_flag(self.cpu.p, FLAG_C) {
                    1
                } else {
                    0
                };
                let r = (v % 128) * 2 + cin;
                self.cpu.p = set_zn(set_flag(self.cpu.p, FLAG_C, v >= 128), r);
                self.bus_write(a, r);
                5
            },
            0x2e => {
                let a = self.addr_abs();
                let v = self.bus_read(a);
                let cin: u8 = if get_flag(self.cpu.p, FLAG_C) {
                    1
                } else {
                    0
                };
                let r = (v % 128) * 2 + cin;
                self.cpu.p = set_zn(set_flag(self.cpu.p, FLAG_C, v >= 128), r);
                self.bus_write(a, r);
                6
            },
            0x6a => {
                let v = self.cpu.a;
                let cin: u8 = if get_flag(self.cpu.p, FLAG_C) {
                    128
                } else {
                    0
                };
                let r = v / 2 + cin;
                self.cpu.p = set_zn(set_flag(self.cpu.p, FLAG_C, v % 2 == 1), r);
                self.cpu.a = r;
                2
            },
            0x66 => {
                let a = self.addr_zp();
                let v = self.bus_read(a);
                let cin: u8 = if get_flag(self.cpu.p, FLAG_C) {
                    128
                } else {
                    0
                };
                let r = v / 2 + cin;
                self.cpu.p = set_zn(set_flag(self.cpu.p, FLAG_C, v % 2 == 1), r);
                self.bus_write(a, r);
                5
            },
            0x6e => {
                let a = self.addr_abs();
                let v = self.bus_read(a);
                let cin: u8 = if get_flag(self.cpu.p, FLAG_C) {
                    128
                } else {
                    0
                };
                let r = v / 2 + cin;
                self.cpu.p = set_zn(set_flag(self.cpu.p, FLAG_C, v % 2 == 1), r);
                self.bus_write(a, r);
                6
            },
            0x24 => {
                let a = self.addr_zp();
                let m = self.bus_read(a);
                let mut p = set_flag(self.cpu.p, FLAG_Z, self.cpu.a & m == 0);
                p = set_flag(p, FLAG_N, m >= 128);
                p = set_flag(p, FLAG_V, (m / 64) % 2 == 1);
                self.cpu.p = p;
                3
            },
            0x2c => {
                let a = self.addr_abs();
                let m = self.bus_read(a);
                let mut p = set_flag(self.cpu.p, FLAG_Z, self.cpu.a & m == 0);
                p = set_flag(p, FLAG_N, m >= 128);
                p = set_flag(p, FLAG_V, (m / 64) % 2 == 1);
                self.cpu.p = p;
                4
            },
            0x10 => {
                let cond = !get_flag(self.cpu.p, FLAG_N);
                self.do_branch(cond)
            },
            0x30 => {
                let cond = get_flag(self.cpu.p, FLAG_N);
                self.do_branch(cond)
            },
            0x50 => {
                let cond = !get_flag(self.cpu.p, FLAG_V);
                self.do_branch(cond)
            },
            0x70 => {
                let cond = get_flag(self.cpu.p, FLAG_V);
                self.do_branch(cond)
            },
            0x90 => {
                let cond = !get_flag(self.cpu.p, FLAG_C);
                self.do_branch(cond)
            },
            0xb0 => {
                let cond = get_flag(self.cpu.p, FLAG_C);
                self.do_branch(cond)
            },
            0xd0 => {
                let cond = !get_flag(self.cpu.p, FLAG_Z);
                self.do_branch(cond)
            },
            0xf0 => {
                let cond = get_flag(self.cpu.p, FLAG_Z);
                self.do_branch(cond)
            },
            0x4c => {
                let a = self.addr_abs();
                self.cpu.pc = a;
                3
            },
            0x6c => {
                let ptr = self.fetch16();
                let lo = self.bus_read(ptr) as u16;
                let hi_addr: u16 = if ptr % 256 == 255 {
                    ptr - 255
                } else {
                    ptr + 1
                };
                let hi = self.bus_read(hi_addr) as u16;
                self.cpu.pc = hi * 256 + lo;
                5
            },
            0x20 => {
                let a = self.addr_abs();
                let ret = wsub16(self.cpu.pc, 1);
                self.push8((ret / 256) as u8);
                self.push8((ret % 256) as u8);
                self.cpu.pc = a;
                6
            },
            0x60 => {
                let lo = self.pop8() as u16;
                let hi = self.pop8() as u16;
                self.cpu.pc = wadd16(hi * 256 + lo, 1);
                6
            },
            0x40 => {
                let p = self.pop8();
                self.cpu.p = set_flag(set_flag(p, FLAG_B, false), FLAG_U, true);
                let lo = self.pop8() as u16;
                let hi = self.pop8() as u16;
                self.cpu.pc = hi * 256 + lo;
                6
            },
            0x00 => {
                let _pad = self.fetch8();
                let pc = self.cpu.pc;
                self.push8((pc / 256) as u8);
                self.push8((pc % 256) as u8);
                let pushed = set_flag(set_flag(self.cpu.p, FLAG_B, true), FLAG_U, true);
                self.push8(pushed);
                self.cpu.p = set_flag(self.cpu.p, FLAG_I, true);
                let t = self.read_vector(0xfffe);
                self.cpu.pc = t;
                7
            },
            0x48 => {
                let v = self.cpu.a;
                self.push8(v);
                3
            },
            0x68 => {
                let v = self.pop8();
                self.cpu.a = v;
                self.cpu.p = set_zn(self.cpu.p, v);
                4
            },
            0x08 => {
                let v = set_flag(set_flag(self.cpu.p, FLAG_B, true), FLAG_U, true);
                self.push8(v);
                3
            },
            0x28 => {
                let v = self.pop8();
                self.cpu.p = set_flag(set_flag(v, FLAG_B, false), FLAG_U, true);
                4
            },
            0x18 => {
                self.cpu.p = set_flag(self.cpu.p, FLAG_C, false);
                2
            },
            0x38 => {
                self.cpu.p = set_flag(self.cpu.p, FLAG_C, true);
                2
            },
            0x58 => {
                self.cpu.p = set_flag(self.cpu.p, FLAG_I, false);
                2
            },
            0x78 => {
                self.cpu.p = set_flag(self.cpu.p, FLAG_I, true);
                2
            },
            0xb8 => {
                self.cpu.p = set_flag(self.cpu.p, FLAG_V, false);
                2
            },
            0xd8 => {
                self.cpu.p = set_flag(self.cpu.p, FLAG_D, false);
                2
            },
            0xf8 => {
                self.cpu.p = set_flag(self.cpu.p, FLAG_D, true);
                2
            },
            0xea => { 2 },
            _ => { 2 },
        }
    }
}

} // verus!

//! Versioned whole-machine save states: every register, counter and memory of
//! the CPU, PPU, APU, controller and mapper, plus work RAM, cartridge RAM and
//! CHR RAM, serialized in a fixed order behind a version tag and a cartridge
//! fingerprint. Restoring is all-or-nothing: a wrong version, a different
//! cartridge, a wrong length or an out-of-range field is rejected and the
//! machine is left untouched.

use vstd::prelude::*;
use crate::apu::{Apu, DOT_RATE, NoiseChannel, PulseChannel, TriangleChannel};
use crate::controller::Controller;
use crate::cpu::Cpu;
use crate::machine::Machine;
use crate::mapper::{Mapper, MirroringMode};
use crate::ppu::Ppu;

verus! {

/// Format version tag carried in the first byte.
pub const STATE_VERSION: u8 = 1;

/// Offset of the work-RAM image.
pub const OFF_RAM: usize = 100;

/// Offset of the nametable-RAM image.
pub const OFF_VRAM: usize = 100 + 0x800;

/// Offset of the palette image.
pub const OFF_PALETTE: usize = 100 + 0x800 + 0x800;

/// Offset of the sprite-memory image.
pub const OFF_OAM: usize = 100 + 0x800 + 0x800 + 32;

/// Offset of the cartridge-RAM image.
pub const OFF_PRG_RAM: usize = 100 + 0x800 + 0x800 + 32 + 256;

/// Offset of the CHR-RAM image (present only on CHR-RAM cartridges).
pub const OFF_CHR: usize = 100 + 0x800 + 0x800 + 32 + 256 + 0x2000;

/// One byte per boolean.
pub open spec fn bb(v: bool) -> u8 {
    if v {
        1u8
    } else {
        0u8
    }
}

/// Low byte of a 16-bit value.
pub open spec fn lo16(v: u16) -> u8 {
    (v % 256) as u8
}

/// High byte of a 16-bit value.
pub open spec fn hi16(v: u16) -> u8 {
    (v / 256) as u8
}

/// The numeric code of a mirroring mode.
pub open spec fn spec_mirroring_code(m: MirroringMode) -> u8 {
    match m {
        MirroringMode::Horizontal => 0u8,
        MirroringMode::Vertical => 1u8,
        MirroringMode::FourScreen => 2u8,
    }
}

/// Version tag and cartridge fingerprint (6 bytes).
pub open spec fn c_header(c: crate::cartridge::Cartridge) -> Seq<u8> {
    seq![
        STATE_VERSION,
        c.mapper_id,
        c.mapper.spec_prg_count(),
        c.mapper.spec_chr_count(),
        bb(c.chr_is_ram),
        spec_mirroring_code(c.mirroring),
    ]
}

/// CPU registers and interrupt latches (9 bytes).
pub open spec fn c_cpu(c: Cpu) -> Seq<u8> {
    seq![
        c.a,
        c.x,
        c.y,
        c.sp,
        c.p,
        lo16(c.pc),
        hi16(c.pc),
        bb(c.nmi_pending),
        bb(c.irq_pending),
    ]
}

/// PPU registers, latches and counters (15 bytes).
pub open spec fn c_ppu(p: Ppu) -> Seq<u8> {
    seq![
        p.ctrl,
        p.mask,
        p.status,
        p.oam_addr,
        p.scroll_x,
        p.scroll_y,
        bb(p.addr_latch),
        p.read_buffer,
        lo16(p.vram_addr),
        hi16(p.vram_addr),
        lo16(p.scanline),
        hi16(p.scanline),
        lo16(p.dot),
        hi16(p.dot),
        bb(p.nmi_request),
    ]
}

/// One pulse channel (14 bytes).
pub open spec fn c_pulse(p: PulseChannel) -> Seq<u8> {
    seq![
        bb(p.enabled),
        p.duty,
        bb(p.halt),
        bb(p.constant_volume),
        p.volume,
        p.env_level,
        p.env_divider,
        bb(p.env_start),
        lo16(p.timer_period),
        hi16(p.timer_period),
        lo16(p.timer),
        hi16(p.timer),
        p.phase,
        p.length,
    ]
}

/// The triangle channel (11 bytes).
pub open spec fn c_triangle(t: TriangleChannel) -> Seq<u8> {
    seq![
        bb(t.enabled),
        bb(t.control),
        t.linear_reload_value,
        bb(t.linear_reload_flag),
        t.linear,
        lo16(t.timer_period),
        hi16(t.timer_period),
        lo16(t.timer),
        hi16(t.timer),
        t.phase,
        t.length,
    ]
}

/// The noise channel (15 bytes).
pub open spec fn c_noise(n: NoiseChannel) -> Seq<u8> {
    seq![
        bb(n.enabled),
        bb(n.mode),
        bb(n.halt),
        bb(n.constant_volume),
        n.volume,
        n.env_level,
        n.env_divider,
        bb(n.env_start),
        lo16(n.timer_period),
        hi16(n.timer_period),
        lo16(n.timer),
        hi16(n.timer),
        lo16(n.shift),
        hi16(n.shift),
        n.length,
    ]
}

/// Frame sequencer, delta-modulation level and decimator (10 bytes).
pub open spec fn c_apu_misc(a: Apu) -> Seq<u8> {
    seq![
        a.dmc_level,
        bb(a.five_step),
        bb(a.irq_inhibit),
        bb(a.frame_irq),
        lo16(a.frame_cycle),
        hi16(a.frame_cycle),
        bb(a.odd_cycle),
        (a.sample_acc % 256) as u8,
        ((a.sample_acc / 256) % 256) as u8,
        ((a.sample_acc / 65536) % 256) as u8,
    ]
}

/// Controller latch (3 bytes).
pub open spec fn c_controller(c: Controller) -> Seq<u8> {
    seq![c.buttons, bb(c.strobe), c.shift_index]
}

/// Mapper bank register and pending DMA stall (3 bytes).
pub open spec fn c_tail(mp: Mapper, dma_stall: u32) -> Seq<u8> {
    seq![spec_mapper_bank(mp), (dma_stall % 256) as u8, (dma_stall / 256) as u8]
}

/// The one bank-select register of the mapper catalog.
pub open spec fn spec_mapper_bank(m: Mapper) -> u8 {
    match m {
        Mapper::Nrom { .. } => 0u8,
        Mapper::Uxrom { prg_bank, .. } => prg_bank,
        Mapper::Cnrom { chr_bank, .. } => chr_bank,
    }
}

/// The mapper rebuilt from a saved bank register, keeping the live counts.
pub open spec fn spec_mapper_restored(m: Mapper, bank: u8) -> Mapper {
    match m {
        Mapper::Nrom { prg_count, chr_count } => Mapper::Nrom { prg_count, chr_count },
        Mapper::Uxrom { prg_count, chr_count, .. } => Mapper::Uxrom {
            prg_count,
            chr_count,
            prg_bank: bank,
        },
        Mapper::Cnrom { prg_count, chr_count, .. } => Mapper::Cnrom {
            prg_count,
            chr_count,
            chr_bank: bank,
        },
    }
}

/// The CHR-RAM tail: present exactly on CHR-RAM cartridges.
pub open spec fn c_chr_tail(m: Machine) -> Seq<u8> {
    if m.cart.chr_is_ram {
        m.cart.chr@
    } else {
        Seq::empty()
    }
}

/// The 100 scalar bytes at the head of the stream.
pub open spec fn spec_scalars(m: Machine) -> Seq<u8> {
    c_header(m.cart) + c_cpu(m.cpu) + c_ppu(m.ppu) + c_pulse(m.apu.pulse1) + c_pulse(m.apu.pulse2)
        + c_triangle(m.apu.triangle) + c_noise(m.apu.noise) + c_apu_misc(m.apu) + c_controller(
        m.controller,
    ) + c_tail(m.cart.mapper, m.dma_stall)
}

/// The memory images that follow the scalar head.
pub open spec fn spec_mems(m: Machine) -> Seq<u8> {
    m.ram@ + m.ppu.vram@ + m.ppu.palette@ + m.ppu.oam@ + m.cart.prg_ram@ + c_chr_tail(m)
}

/// The whole serialized machine.
pub open spec fn spec_ser(m: Machine) -> Seq<u8> {
    spec_scalars(m) + spec_mems(m)
}

/// Expected stream length for a machine's cartridge flavor.
pub open spec fn spec_expected_len(m: Machine) -> int {
    OFF_CHR as int + if m.cart.chr_is_ram {
        0x2000int
    } else {
        0int
    }
}

/// The stream is acceptable for this machine: right length, right version,
/// the fingerprint names this very cartridge, and every counter field is in
/// the range the hardware invariants demand.
pub open spec fn spec_loadable(m: Machine, d: Seq<u8>) -> bool {
    &&& d.len() == spec_expected_len(m)
    &&& d[0] == STATE_VERSION
    &&& d[1] == m.cart.mapper_id
    &&& d[2] == m.cart.mapper.spec_prg_count()
    &&& d[3] == m.cart.mapper.spec_chr_count()
    &&& d[4] == bb(m.cart.chr_is_ram)
    &&& d[5] == spec_mirroring_code(m.cart.mirroring)
    &&& d[23] + d[24] * 256 < 0x4000
    &&& d[25] + d[26] * 256 < 262
    &&& d[27] + d[28] * 256 < 341
    &&& spec_pulse_fields_ok(d, 30)
    &&& spec_pulse_fields_ok(d, 44)
    &&& d[60] < 128
    &&& d[62] < 128
    &&& d[63] + d[64] * 256 < 0x800
    &&& d[67] < 32
    &&& d[73] < 16
    &&& d[74] < 16
    &&& d[77] + d[78] * 256 <= 4068
    &&& d[81] + d[82] * 256 < 0x8000
    &&& d[84] < 128
    &&& d[88] + d[89] * 256 < 37282
    &&& d[91] + d[92] * 256 + d[93] * 65536 < DOT_RATE
    &&& d[96] <= 8
    &&& spec_bank_ok(m.cart.mapper, d[97])
    &&& d[98] + d[99] * 256 <= 513
}

/// Range checks for one serialized pulse channel starting at `b`.
pub open spec fn spec_pulse_fields_ok(d: Seq<u8>, b: int) -> bool {
    &&& d[b + 1] < 4
    &&& d[b + 4] < 16
    &&& d[b + 5] < 16
    &&& d[b + 8] + d[b + 9] * 256 < 0x800
    &&& d[b + 12] < 8
}

/// The saved bank register addresses an existing bank of the live mapper.
pub open spec fn spec_bank_ok(m: Mapper, bank: u8) -> bool {
    match m {
        Mapper::Nrom { .. } => true,
        Mapper::Uxrom { prg_count, .. } => bank < prg_count,
        Mapper::Cnrom { chr_count, .. } => bank < chr_count,
    }
}

/// What a successful restore does: every serialized component of the new
/// machine equals the corresponding bytes of the stream, and everything the
/// stream does not carry (the ROM images, the frame buffer, the pending audio
/// samples) is kept from the old machine.
pub open spec fn spec_restored(m_old: Machine, m_new: Machine, d: Seq<u8>) -> bool {
    &&& spec_restored_scalars(m_old, m_new, d)
    &&& spec_restored_mems(m_old, m_new, d)
}

/// The scalar half of the restore relation.
pub open spec fn spec_restored_scalars(m_old: Machine, m_new: Machine, d: Seq<u8>) -> bool {
    &&& spec_restored_cpu_ppu(m_old, m_new, d)
    &&& spec_restored_apu_rest(m_old, m_new, d)
}

/// CPU and PPU scalar registers of the restore relation.
pub open spec fn spec_restored_cpu_ppu(m_old: Machine, m_new: Machine, d: Seq<u8>) -> bool {


    &&& m_new.cpu.a == d[6]
    &&& m_new.cpu.x == d[7]
    &&& m_new.cpu.y == d[8]
    &&& m_new.cpu.sp == d[9]
    &&& m_new.cpu.p == d[10]
    &&& m_new.cpu.pc == d[11] + d[12] * 256
    &&& m_new.cpu.nmi_pending == (d[13] != 0)
    &&& m_new.cpu.irq_pending == (d[14] != 0)
    &&& m_new.ppu.ctrl == d[15]
    &&& m_new.ppu.mask == d[16]
    &&& m_new.ppu.status == d[17]
    &&& m_new.ppu.oam_addr == d[18]
    &&& m_new.ppu.scroll_x == d[19]
    &&& m_new.ppu.scroll_y == d[20]
    &&& m_new.ppu.addr_latch == (d[21] != 0)
    &&& m_new.ppu.read_buffer == d[22]
    &&& m_new.ppu.vram_addr == d[23] + d[24] * 256
    &&& m_new.ppu.scanline == d[25] + d[26] * 256
    &&& m_new.ppu.dot == d[27] + d[28] * 256
    &&& m_new.ppu.nmi_request == (d[29] != 0)
}

/// APU, controller, mapper and stall scalars of the restore relation.
pub open spec fn spec_restored_apu_rest(m_old: Machine, m_new: Machine, d: Seq<u8>) -> bool {
    &&& spec_pulse_restored(m_new.apu.pulse1, d, 30)
    &&& spec_pulse_restored(m_new.apu.pulse2, d, 44)
    &&& m_new.apu.triangle.enabled == (d[58] != 0)
    &&& m_new.apu.triangle.control == (d[59] != 0)
    &&& m_new.apu.triangle.linear_reload_value == d[60]
    &&& m_new.apu.triangle.linear_reload_flag == (d[61] != 0)
    &&& m_new.apu.triangle.linear == d[62]
    &&& m_new.apu.triangle.timer_period == d[63] + d[64] * 256
    &&& m_new.apu.triangle.timer == d[65] + d[66] * 256
    &&& m_new.apu.triangle.phase == d[67]
    &&& m_new.apu.triangle.length == d[68]
    &&& m_new.apu.noise.enabled == (d[69] != 0)
    &&& m_new.apu.noise.mode == (d[70] != 0)
    &&& m_new.apu.noise.halt == (d[71] != 0)
    &&& m_new.apu.noise.constant_volume == (d[72] != 0)
    &&& m_new.apu.noise.volume == d[73]
    &&& m_new.apu.noise.env_level == d[74]
    &&& m_new.apu.noise.env_divider == d[75]
    &&& m_new.apu.noise.env_start == (d[76] != 0)
    &&& m_new.apu.noise.timer_period == d[77] + d[78] * 256
    &&& m_new.apu.noise.timer == d[79] + d[80] * 256
    &&& m_new.apu.noise.shift == d[81] + d[82] * 256
    &&& m_new.apu.noise.length == d[83]
    &&& m_new.apu.dmc_level == d[84]
    &&& m_new.apu.five_step == (d[85] != 0)
    &&& m_new.apu.irq_inhibit == (d[86] != 0)
    &&& m_new.apu.frame_irq == (d[87] != 0)
    &&& m_new.apu.frame_cycle == d[88] + d[89] * 256
    &&& m_new.apu.odd_cycle == (d[90] != 0)
    &&& m_new.apu.sample_acc == d[91] + d[92] * 256 + d[93] * 65536
    &&& m_new.controller.buttons == d[94]
    &&& m_new.controller.strobe == (d[95] != 0)
    &&& m_new.controller.shift_index == d[96]
    &&& m_new.cart.mapper == spec_mapper_restored(m_old.cart.mapper, d[97])
    &&& m_new.dma_stall == d[98] + d[99] * 256
}


/// The memory half of the restore relation.
pub open spec fn spec_restored_mems(m_old: Machine, m_new: Machine, d: Seq<u8>) -> bool {
    &&& m_new.ram@ == d.subrange(OFF_RAM as int, OFF_VRAM as int)
    &&& m_new.ppu.vram@ == d.subrange(OFF_VRAM as int, OFF_PALETTE as int)
    &&& m_new.ppu.palette@ == d.subrange(OFF_PALETTE as int, OFF_OAM as int)
    &&& m_new.ppu.oam@ == d.subrange(OFF_OAM as int, OFF_PRG_RAM as int)
    &&& m_new.cart.prg_ram@ == d.subrange(OFF_PRG_RAM as int, OFF_CHR as int)
    &&& m_old.cart.chr_is_ram ==> m_new.cart.chr@ == d.subrange(
        OFF_CHR as int,
        OFF_CHR as int + 0x2000,
    )
    &&& !m_old.cart.chr_is_ram ==> m_new.cart.chr@ == m_old.cart.chr@
    &&& m_new.cart.prg@ == m_old.cart.prg@
    &&& m_new.cart.chr_is_ram == m_old.cart.chr_is_ram
    &&& m_new.cart.mirroring == m_old.cart.mirroring
    &&& m_new.cart.mapper_id == m_old.cart.mapper_id
    &&& m_new.ppu.frame@ == m_old.ppu.frame@
    &&& m_new.apu.samples@ == m_old.apu.samples@
}

/// One restored pulse channel.
pub open spec fn spec_pulse_restored(p: PulseChannel, d: Seq<u8>, b: int) -> bool {
    &&& p.enabled == (d[b] != 0)
    &&& p.duty == d[b + 1]
    &&& p.halt == (d[b + 2] != 0)
    &&& p.constant_volume == (d[b + 3] != 0)
    &&& p.volume == d[b + 4]
    &&& p.env_level == d[b + 5]
    &&& p.env_divider == d[b + 6]
    &&& p.env_start == (d[b + 7] != 0)
    &&& p.timer_period == d[b + 8] + d[b + 9] * 256
    &&& p.timer == d[b + 10] + d[b + 11] * 256
    &&& p.phase == d[b + 12]
    &&& p.length == d[b + 13]
}

/// Every component the two machines share is byte-for-byte identical.
pub open spec fn spec_machine_eq(a: Machine, b: Machine) -> bool {
    &&& a.cpu == b.cpu
    &&& a.ppu.ctrl == b.ppu.ctrl
    &&& a.ppu.mask == b.ppu.mask
    &&& a.ppu.status == b.ppu.status
    &&& a.ppu.oam_addr == b.ppu.oam_addr
    &&& a.ppu.scroll_x == b.ppu.scroll_x
    &&& a.ppu.scroll_y == b.ppu.scroll_y
    &&& a.ppu.addr_latch == b.ppu.addr_latch
    &&& a.ppu.vram_addr == b.ppu.vram_addr
    &&& a.ppu.read_buffer == b.ppu.read_buffer
    &&& a.ppu.scanline == b.ppu.scanline
    &&& a.ppu.dot == b.ppu.dot
    &&& a.ppu.nmi_request == b.ppu.nmi_request
    &&& a.ppu.vram@ == b.ppu.vram@
    &&& a.ppu.palette@ == b.ppu.palette@
    &&& a.ppu.oam@ == b.ppu.oam@
    &&& a.ppu.frame@ == b.ppu.frame@
    &&& a.apu.pulse1 == b.apu.pulse1
    &&& a.apu.pulse2 == b.apu.pulse2
    &&& a.apu.triangle == b.apu.triangle
    &&& a.apu.noise == b.apu.noise
    &&& a.apu.dmc_level == b.apu.dmc_level
    &&& a.apu.five_step == b.apu.five_step
    &&& a.apu.irq_inhibit == b.apu.irq_inhibit
    &&& a.apu.frame_irq == b.apu.frame_irq
    &&& a.apu.frame_cycle == b.apu.frame_cycle
    &&& a.apu.odd_cycle == b.apu.odd_cycle
    &&& a.apu.sample_acc == b.apu.sample_acc
    &&& a.apu.samples@ == b.apu.samples@
    &&& a.controller == b.controller
    &&& a.ram@ == b.ram@
    &&& a.cart.prg@ == b.cart.prg@
    &&& a.cart.chr@ == b.cart.chr@
    &&& a.cart.prg_ram@ == b.cart.prg_ram@
    &&& a.cart.chr_is_ram == b.cart.chr_is_ram
    &&& a.cart.mirroring == b.cart.mirroring
    &&& a.cart.mapper_id == b.cart.mapper_id
    &&& a.cart.mapper == b.cart.mapper
    &&& a.dma_stall == b.dma_stall
}

/// The scalar head of the stream, byte by byte: each absolute index carries
/// the corresponding component byte.
#[verifier::rlimit(100)]
pub proof fn lemma_ser_indexing(m: Machine)
    requires
        m.wf(),
    ensures
        spec_ser(m).len() == spec_expected_len(m),
        forall|i: int| 0 <= i < 6 ==> #[trigger] spec_ser(m)[i] == c_header(m.cart)[i],
        forall|i: int| 6 <= i < 15 ==> #[trigger] spec_ser(m)[i] == c_cpu(m.cpu)[i - 6],
        forall|i: int| 15 <= i < 30 ==> #[trigger] spec_ser(m)[i] == c_ppu(m.ppu)[i - 15],
        forall|i: int| 30 <= i < 44 ==> #[trigger] spec_ser(m)[i] == c_pulse(m.apu.pulse1)[i - 30],
        forall|i: int| 44 <= i < 58 ==> #[trigger] spec_ser(m)[i] == c_pulse(m.apu.pulse2)[i - 44],
        forall|i: int|
            58 <= i < 69 ==> #[trigger] spec_ser(m)[i] == c_triangle(m.apu.triangle)[i - 58],
        forall|i: int| 69 <= i < 84 ==> #[trigger] spec_ser(m)[i] == c_noise(m.apu.noise)[i - 69],
        forall|i: int| 84 <= i < 94 ==> #[trigger] spec_ser(m)[i] == c_apu_misc(m.apu)[i - 84],
        forall|i: int|
            94 <= i < 97 ==> #[trigger] spec_ser(m)[i] == c_controller(m.controller)[i - 94],
        forall|i: int|
            97 <= i < 100 ==> #[trigger] spec_ser(m)[i] == c_tail(m.cart.mapper, m.dma_stall)[i
            - 97],
        spec_ser(m).subrange(OFF_RAM as int, OFF_VRAM as int) == m.ram@,
        spec_ser(m).subrange(OFF_VRAM as int, OFF_PALETTE as int) == m.ppu.vram@,
        spec_ser(m).subrange(OFF_PALETTE as int, OFF_OAM as int) == m.ppu.palette@,
        spec_ser(m).subrange(OFF_OAM as int, OFF_PRG_RAM as int) == m.ppu.oam@,
        spec_ser(m).subrange(OFF_PRG_RAM as int, OFF_CHR as int) == m.cart.prg_ram@,
        m.cart.chr_is_ram ==> spec_ser(m).subrange(OFF_CHR as int, OFF_CHR as int + 0x2000)
            == m.cart.chr@,
{
    lemma_component_lens(m);
    lemma_mem_index(m);
    let d = spec_ser(m);
    let sc = spec_scalars(m);
    assert forall|i: int| 0 <= i < 100 implies #[trigger] d[i] == sc[i] by {
        assert(d[i] == (sc + spec_mems(m))[i]);
    }
}

/// The bytes of a saved well-formed machine always pass their own
/// acceptance check.
#[verifier::rlimit(100)]
pub proof fn lemma_ser_loadable(m: Machine)
    requires
        m.wf(),
    ensures
        spec_loadable(m, spec_ser(m)),
{
    lemma_ser_indexing(m);
    let d = spec_ser(m);
    assert(lo16(m.ppu.vram_addr) + hi16(m.ppu.vram_addr) * 256 == m.ppu.vram_addr);
    assert(lo16(m.ppu.scanline) + hi16(m.ppu.scanline) * 256 == m.ppu.scanline);
    assert(lo16(m.ppu.dot) + hi16(m.ppu.dot) * 256 == m.ppu.dot);
    assert(lo16(m.apu.pulse1.timer_period) + hi16(m.apu.pulse1.timer_period) * 256
        == m.apu.pulse1.timer_period);
    assert(lo16(m.apu.pulse2.timer_period) + hi16(m.apu.pulse2.timer_period) * 256
        == m.apu.pulse2.timer_period);
    assert(lo16(m.apu.triangle.timer_period) + hi16(m.apu.triangle.timer_period) * 256
        == m.apu.triangle.timer_period);
    assert(lo16(m.apu.noise.timer_period) + hi16(m.apu.noise.timer_period) * 256
        == m.apu.noise.timer_period);
    assert(lo16(m.apu.noise.shift) + hi16(m.apu.noise.shift) * 256 == m.apu.noise.shift);
    assert(lo16(m.apu.frame_cycle) + hi16(m.apu.frame_cycle) * 256 == m.apu.frame_cycle);
    assert(m.apu.sample_acc % 256 + (m.apu.sample_acc / 256) % 256 * 256 + (m.apu.sample_acc
        / 65536) % 256 * 65536 == m.apu.sample_acc) by {
        lemma_u32_three_bytes(m.apu.sample_acc);
    }
    assert((m.dma_stall % 256) + (m.dma_stall / 256) * 256 == m.dma_stall);
}

/// CPU and PPU agreement between a restored machine and its source.
#[verifier::rlimit(100)]
proof fn lemma_restored_cpu_ppu(m: Machine, m2: Machine)
    requires
        m.wf(),
        spec_restored(m, m2, spec_ser(m)),
    ensures
        m2.cpu == m.cpu,
        m2.ppu.ctrl == m.ppu.ctrl && m2.ppu.mask == m.ppu.mask && m2.ppu.status == m.ppu.status,
        m2.ppu.oam_addr == m.ppu.oam_addr && m2.ppu.scroll_x == m.ppu.scroll_x,
        m2.ppu.scroll_y == m.ppu.scroll_y && m2.ppu.addr_latch == m.ppu.addr_latch,
        m2.ppu.vram_addr == m.ppu.vram_addr && m2.ppu.read_buffer == m.ppu.read_buffer,
        m2.ppu.scanline == m.ppu.scanline && m2.ppu.dot == m.ppu.dot,
        m2.ppu.nmi_request == m.ppu.nmi_request,
        m2.ppu.vram@ == m.ppu.vram@ && m2.ppu.palette@ == m.ppu.palette@,
        m2.ppu.oam@ == m.ppu.oam@ && m2.ppu.frame@ == m.ppu.frame@,
{
    lemma_ser_indexing(m);
    assert(lo16(m.cpu.pc) + hi16(m.cpu.pc) * 256 == m.cpu.pc);
    assert(m2.cpu == m.cpu);
    assert(lo16(m.ppu.vram_addr) + hi16(m.ppu.vram_addr) * 256 == m.ppu.vram_addr);
    assert(lo16(m.ppu.scanline) + hi16(m.ppu.scanline) * 256 == m.ppu.scanline);
    assert(lo16(m.ppu.dot) + hi16(m.ppu.dot) * 256 == m.ppu.dot);
}

/// Pulse-channel agreement between a restored machine and its source.
#[verifier::rlimit(100)]
proof fn lemma_restored_pulses(m: Machine, m2: Machine)
    requires
        m.wf(),
        spec_restored(m, m2, spec_ser(m)),
    ensures
        m2.apu.pulse1 == m.apu.pulse1,
        m2.apu.pulse2 == m.apu.pulse2,
{
    lemma_ser_indexing(m);
    assert(lo16(m.apu.pulse1.timer_period) + hi16(m.apu.pulse1.timer_period) * 256
        == m.apu.pulse1.timer_period);
    assert(lo16(m.apu.pulse1.timer) + hi16(m.apu.pulse1.timer) * 256 == m.apu.pulse1.timer);
    assert(lo16(m.apu.pulse2.timer_period) + hi16(m.apu.pulse2.timer_period) * 256
        == m.apu.pulse2.timer_period);
    assert(lo16(m.apu.pulse2.timer) + hi16(m.apu.pulse2.timer) * 256 == m.apu.pulse2.timer);
    assert(m2.apu.pulse1 == m.apu.pulse1);
    assert(m2.apu.pulse2 == m.apu.pulse2);
}

/// Triangle- and noise-channel agreement between a restored machine and its
/// source.
#[verifier::rlimit(100)]
proof fn lemma_restored_tri_noise(m: Machine, m2: Machine)
    requires
        m.wf(),
        spec_restored(m, m2, spec_ser(m)),
    ensures
        m2.apu.triangle == m.apu.triangle,
        m2.apu.noise == m.apu.noise,
{
    lemma_ser_indexing(m);
    assert(lo16(m.apu.triangle.timer_period) + hi16(m.apu.triangle.timer_period) * 256
        == m.apu.triangle.timer_period);
    assert(lo16(m.apu.triangle.timer) + hi16(m.apu.triangle.timer) * 256 == m.apu.triangle.timer);
    assert(m2.apu.triangle == m.apu.triangle);
    assert(lo16(m.apu.noise.timer_period) + hi16(m.apu.noise.timer_period) * 256
        == m.apu.noise.timer_period);
    assert(lo16(m.apu.noise.timer) + hi16(m.apu.noise.timer) * 256 == m.apu.noise.timer);
    assert(lo16(m.apu.noise.shift) + hi16(m.apu.noise.shift) * 256 == m.apu.noise.shift);
    assert(m2.apu.noise == m.apu.noise);
}

/// Frame-sequencer and decimator agreement between a restored machine and
/// its source.
#[verifier::rlimit(100)]
proof fn lemma_restored_apu(m: Machine, m2: Machine)
    requires
        m.wf(),
        spec_restored(m, m2, spec_ser(m)),
    ensures
        m2.apu.dmc_level == m.apu.dmc_level && m2.apu.five_step == m.apu.five_step,
        m2.apu.irq_inhibit == m.apu.irq_inhibit && m2.apu.frame_irq == m.apu.frame_irq,
        m2.apu.frame_cycle == m.apu.frame_cycle && m2.apu.odd_cycle == m.apu.odd_cycle,
        m2.apu.sample_acc == m.apu.sample_acc,
        m2.apu.samples@ == m.apu.samples@,
{
    lemma_ser_indexing(m);
    assert(lo16(m.apu.frame_cycle) + hi16(m.apu.frame_cycle) * 256 == m.apu.frame_cycle);
    assert(m.apu.sample_acc % 256 + (m.apu.sample_acc / 256) % 256 * 256 + (m.apu.sample_acc
        / 65536) % 256 * 65536 == m.apu.sample_acc) by {
        lemma_u32_three_bytes(m.apu.sample_acc);
    }
    assert(m2.apu.sample_acc == m.apu.sample_acc);
}

/// Controller, memories, cartridge and mapper agreement between a restored
/// machine and its source.
#[verifier::rlimit(100)]
proof fn lemma_restored_rest(m: Machine, m2: Machine)
    requires
        m.wf(),
        spec_restored(m, m2, spec_ser(m)),
    ensures
        m2.controller == m.controller,
        m2.ram@ == m.ram@,
        m2.cart.prg@ == m.cart.prg@ && m2.cart.chr@ == m.cart.chr@,
        m2.cart.prg_ram@ == m.cart.prg_ram@,
        m2.cart.chr_is_ram == m.cart.chr_is_ram && m2.cart.mirroring == m.cart.mirroring,
        m2.cart.mapper_id == m.cart.mapper_id && m2.cart.mapper == m.cart.mapper,
        m2.dma_stall == m.dma_stall,
{
    lemma_ser_indexing(m);
    assert(m2.controller == m.controller);
    assert(m2.cart.mapper == m.cart.mapper);
    assert((m.dma_stall % 256) + (m.dma_stall / 256) * 256 == m.dma_stall);
    assert(m2.dma_stall == m.dma_stall);
}

/// Any machine that satisfies the restore relation against the bytes of a
/// saved well-formed machine agrees with it component by component.
proof fn lemma_restored_implies_eq(m: Machine, m2: Machine)
    requires
        m.wf(),
        spec_restored(m, m2, spec_ser(m)),
    ensures
        spec_machine_eq(m2, m),
{
    lemma_restored_cpu_ppu(m, m2);
    lemma_restored_pulses(m, m2);
    lemma_restored_tri_noise(m, m2);
    lemma_restored_apu(m, m2);
    lemma_restored_rest(m, m2);
}

/// The save/load round trip: the bytes produced by serializing a well-formed
/// machine are always accepted back by that machine, and any machine that a
/// successful restore of those bytes produces is byte-for-byte identical to
/// the one that was saved.
pub proof fn lemma_save_load_round_trip(m: Machine)
    requires
        m.wf(),
    ensures
        spec_loadable(m, spec_ser(m)),
        forall|m2: Machine| spec_restored(m, m2, spec_ser(m)) ==> spec_machine_eq(m2, m),
{
    lemma_ser_loadable(m);
    assert forall|m2: Machine| spec_restored(m, m2, spec_ser(m)) implies spec_machine_eq(
        m2,
        m,
    ) by {
        lemma_restored_implies_eq(m, m2);
    }
}

/// Lengths of the scalar components.
proof fn lemma_component_lens(m: Machine)
    ensures
        c_header(m.cart).len() == 6,
        c_cpu(m.cpu).len() == 9,
        c_ppu(m.ppu).len() == 15,
        c_pulse(m.apu.pulse1).len() == 14,
        c_pulse(m.apu.pulse2).len() == 14,
        c_triangle(m.apu.triangle).len() == 11,
        c_noise(m.apu.noise).len() == 15,
        c_apu_misc(m.apu).len() == 10,
        c_controller(m.controller).len() == 3,
        c_tail(m.cart.mapper, m.dma_stall).len() == 3,
        spec_scalars(m).len() == 100,
{
}

/// The memory images of the stream, each at its fixed window.
#[verifier::rlimit(100)]
proof fn lemma_mem_index(m: Machine)
    requires
        m.wf(),
    ensures
        spec_ser(m).len() == spec_expected_len(m),
        spec_ser(m).subrange(OFF_RAM as int, OFF_VRAM as int) == m.ram@,
        spec_ser(m).subrange(OFF_VRAM as int, OFF_PALETTE as int) == m.ppu.vram@,
        spec_ser(m).subrange(OFF_PALETTE as int, OFF_OAM as int) == m.ppu.palette@,
        spec_ser(m).subrange(OFF_OAM as int, OFF_PRG_RAM as int) == m.ppu.oam@,
        spec_ser(m).subrange(OFF_PRG_RAM as int, OFF_CHR as int) == m.cart.prg_ram@,
        m.cart.chr_is_ram ==> spec_ser(m).subrange(OFF_CHR as int, OFF_CHR as int + 0x2000)
            == m.cart.chr@,
{
    lemma_component_lens(m);
    let d = spec_ser(m);
    assert(d.len() == spec_expected_len(m));
    assert(d.subrange(OFF_RAM as int, OFF_VRAM as int) =~= m.ram@);
    assert(d.subrange(OFF_VRAM as int, OFF_PALETTE as int) =~= m.ppu.vram@);
    assert(d.subrange(OFF_PALETTE as int, OFF_OAM as int) =~= m.ppu.palette@);
    assert(d.subrange(OFF_OAM as int, OFF_PRG_RAM as int) =~= m.ppu.oam@);
    assert(d.subrange(OFF_PRG_RAM as int, OFF_CHR as int) =~= m.cart.prg_ram@);
    if m.cart.chr_is_ram {
        assert(d.subrange(OFF_CHR as int, OFF_CHR as int + 0x2000) =~= m.cart.chr@);
    }
}

/// A value below 2^24 is the sum of its three little-endian bytes.
pub proof fn lemma_u32_three_bytes(v: u32)
    requires
        v < 0x1000000,
    ensures
        (v % 256) + ((v / 256) % 256) * 256 + ((v / 65536) % 256) * 65536 == v,
{
    assert((v % 256) + ((v / 256) % 256) * 256 + ((v / 65536) % 256) * 65536 == v) by (
    nonlinear_arith)
        requires
            v < 0x1000000,
    ;
}


/// Why a restore was refused.
#[derive(Clone, Copy, PartialEq, Eq, Structural, Debug)]
pub enum StateError {
    /// The stream's version tag differs from `STATE_VERSION`.
    WrongVersion,
    /// The stream is empty or not exactly the expected length.
    BadLength,
    /// The fingerprint names a different cartridge.
    CartridgeMismatch,
    /// A counter field is outside the range the hardware invariants demand.
    Corrupt,
    /// No cartridge is loaded to restore into.
    NoCartridge,
}

/// Appends one byte.
fn put(out: &mut Vec<u8>, v: u8)
    ensures
        final(out)@ == old(out)@.push(v),
{
    out.push(v);
}

/// Appends a boolean as one byte.
fn putb(out: &mut Vec<u8>, v: bool)
    ensures
        final(out)@ == old(out)@.push(bb(v)),
{
    if v {
        out.push(1);
    } else {
        out.push(0);
    }
}

/// Appends a 16-bit value, low byte first.
fn put16(out: &mut Vec<u8>, v: u16)
    ensures
        final(out)@ == old(out)@.push(lo16(v)).push(hi16(v)),
{
    out.push((v % 256) as u8);
    out.push((v / 256) as u8);
}

/// Appends a whole byte vector.
fn put_all(out: &mut Vec<u8>, src: &Vec<u8>)
    ensures
        final(out)@ == old(out)@ + src@,
{
    let mut i: usize = 0;
    while i < src.len()
        invariant
            i <= src.len(),
            out@ == old(out)@ + src@.subrange(0, i as int),
        decreases src.len() - i,
    {
        out.push(src[i]);
        i += 1;
        proof {
            assert(out@ =~= old(out)@ + src@.subrange(0, i as int));
        }
    }
    proof {
        assert(out@ =~= old(out)@ + src@);
    }
}

/// Little-endian 16-bit read.
fn rd16(d: &Vec<u8>, i: usize) -> (r: u16)
    requires
        i + 1 < d.len(),
    ensures
        r == d@[i as int] + d@[i as int + 1] * 256,
{
    d[i] as u16 + d[i + 1] as u16 * 256
}

/// Little-endian 24-bit read.
fn rd24(d: &Vec<u8>, i: usize) -> (r: u32)
    requires
        i + 2 < d.len(),
    ensures
        r == d@[i as int] + d@[i as int + 1] * 256 + d@[i as int + 2] * 65536,
{
    d[i] as u32 + d[i + 1] as u32 * 256 + d[i + 2] as u32 * 65536
}

impl Machine {
    /// Serializes the whole machine state into the versioned stream.
    #[verifier::rlimit(100)]
    pub fn save_state(&self) -> (r: Vec<u8>)
        requires
            self.wf(),
        ensures
            r@ == spec_ser(*self),
    {
        let mut out: Vec<u8> = Vec::new();
        save_header(&self.cart, &mut out);
        save_cpu(&self.cpu, &mut out);
        save_ppu_regs(&self.ppu, &mut out);
        self.apu.pulse1.save_to(&mut out);
        self.apu.pulse2.save_to(&mut out);
        self.apu.triangle.save_to(&mut out);
        self.apu.noise.save_to(&mut out);
        save_apu_misc(&self.apu, &mut out);
        save_controller_block(&self.controller, &mut out);
        save_tail(&self.cart.mapper, self.dma_stall, &mut out);
        proof {
            assert(out@ =~= spec_scalars(*self));
        }
        put_all(&mut out, &self.ram);
        put_all(&mut out, &self.ppu.vram);
        put_all(&mut out, &self.ppu.palette);
        put_all(&mut out, &self.ppu.oam);
        put_all(&mut out, &self.cart.prg_ram);
        if self.cart.chr_is_ram {
            put_all(&mut out, &self.cart.chr);
        }
        proof {
            assert(out@ =~= spec_ser(*self));
        }
        out
    }

    /// Restores the whole machine state from a stream. All-or-nothing: any
    /// refusal leaves the machine exactly as it was. The stream must carry
    /// the current version, name this very cartridge, have exactly the
    /// expected length, and keep every counter inside its hardware range.
    #[verifier::rlimit(100)]
    pub fn load_state(&mut self, data: &Vec<u8>) -> (r: Result<(), StateError>)
        requires
            old(self).wf(),
        ensures
            final(self).wf(),
            r is Ok <==> spec_loadable(*old(self), data@),
            r is Ok ==> spec_restored(*old(self), *final(self), data@),
            !(r is Ok) ==> *final(self) == *old(self),
            data@.len() == 0 ==> r == Err::<(), StateError>(StateError::BadLength),
            data@.len() >= 1 && data@[0] != STATE_VERSION ==> r == Err::<(), StateError>(
                StateError::WrongVersion,
            ),
    {
        let n = data.len();
        if n == 0 {
            return Err(StateError::BadLength);
        }
        if data[0] != STATE_VERSION {
            return Err(StateError::WrongVersion);
        }
        let expected: usize = OFF_CHR + if self.cart.chr_is_ram {
            0x2000
        } else {
            0
        };
        if n != expected {
            return Err(StateError::BadLength);
        }
        let code: u8 = match self.cart.mirroring {
            crate::mapper::MirroringMode::Horizontal => 0,
            crate::mapper::MirroringMode::Vertical => 1,
            crate::mapper::MirroringMode::FourScreen => 2,
        };
        if data[1] != self.cart.mapper_id || data[2] != self.cart.mapper.prg_count() || data[3]
            != self.cart.mapper.chr_count() || data[4] != (if self.cart.chr_is_ram {
            1
        } else {
            0
        }) || data[5] != code {
            return Err(StateError::CartridgeMismatch);
        }
        let vram_addr = rd16(data, 23);
        let scanline = rd16(data, 25);
        let dot = rd16(data, 27);
        if vram_addr >= 0x4000 || scanline >= 262 || dot >= 341 {
            return Err(StateError::Corrupt);
        }
        if !(data[31] < 4 && data[34] < 16 && data[35] < 16 && rd16(data, 38) < 0x800 && data[42]
            < 8) {
            return Err(StateError::Corrupt);
        }
        if !(data[45] < 4 && data[48] < 16 && data[49] < 16 && rd16(data, 52) < 0x800 && data[56]
            < 8) {
            return Err(StateError::Corrupt);
        }
        if !(data[60] < 128 && data[62] < 128 && rd16(data, 63) < 0x800 && data[67] < 32) {
            return Err(StateError::Corrupt);
        }
        if !(data[73] < 16 && data[74] < 16 && rd16(data, 77) <= 4068 && rd16(data, 81) < 0x8000) {
            return Err(StateError::Corrupt);
        }
        if !(data[84] < 128 && rd16(data, 88) < 37282 && rd24(data, 91) < DOT_RATE && data[96]
            <= 8) {
            return Err(StateError::Corrupt);
        }
        let bank = data[97];
        let bank_ok: bool = match self.cart.mapper {
            Mapper::Nrom { .. } => true,
            Mapper::Uxrom { prg_count, .. } => bank < prg_count,
            Mapper::Cnrom { chr_count, .. } => bank < chr_count,
        };
        if !bank_ok || rd16(data, 98) > 513 {
            return Err(StateError::Corrupt);
        }
        assert(spec_loadable(*self, data@));
        self.apply_state(data);
        Ok(())
    }

    /// Writes every serialized component of an accepted stream into the
    /// machine.
    fn apply_state(&mut self, data: &Vec<u8>)
        requires
            old(self).wf(),
            spec_loadable(*old(self), data@),
        ensures
            final(self).wf(),
            spec_restored(*old(self), *final(self), data@),
    {
        self.apply_scalars(data);
        self.apply_mems(data);
    }

    /// The scalar registers, counters and latches of an accepted stream.
    fn apply_scalars(&mut self, data: &Vec<u8>)
        requires
            old(self).wf(),
            spec_loadable(*old(self), data@),
        ensures
            final(self).wf(),
            spec_restored_scalars(*old(self), *final(self), data@),
            final(self).ram == old(self).ram,
            final(self).ppu.vram == old(self).ppu.vram,
            final(self).ppu.palette == old(self).ppu.palette,
            final(self).ppu.oam == old(self).ppu.oam,
            final(self).ppu.frame == old(self).ppu.frame,
            final(self).cart.prg_ram == old(self).cart.prg_ram,
            final(self).cart.prg == old(self).cart.prg,
            final(self).cart.chr == old(self).cart.chr,
            final(self).cart.chr_is_ram == old(self).cart.chr_is_ram,
            final(self).cart.mirroring == old(self).cart.mirroring,
            final(self).cart.mapper_id == old(self).cart.mapper_id,
            final(self).apu.samples == old(self).apu.samples,
    {
        self.apply_cpu_ppu_scalars(data);
        self.apply_apu_rest_scalars(data);
    }

    /// CPU and PPU scalar registers of an accepted stream.
    #[verifier::rlimit(100)]
    fn apply_cpu_ppu_scalars(&mut self, data: &Vec<u8>)
        requires
            old(self).wf(),
            spec_loadable(*old(self), data@),
        ensures
            final(self).wf(),
            spec_restored_cpu_ppu(*old(self), *final(self), data@),
            final(self).apu == old(self).apu,
            final(self).controller == old(self).controller,
            final(self).dma_stall == old(self).dma_stall,
            final(self).cart == old(self).cart,
            final(self).ram == old(self).ram,
            final(self).ppu.vram == old(self).ppu.vram,
            final(self).ppu.palette == old(self).ppu.palette,
            final(self).ppu.oam == old(self).ppu.oam,
            final(self).ppu.frame == old(self).ppu.frame,
    {
        let vram_addr = rd16(data, 23);
        let scanline = rd16(data, 25);
        let dot = rd16(data, 27);
        self.cpu = Cpu {
            a: data[6],
            x: data[7],
            y: data[8],
            sp: data[9],
            p: data[10],
            pc: rd16(data, 11),
            nmi_pending: data[13] != 0,
            irq_pending: data[14] != 0,
        };
        self.ppu.ctrl = data[15];
        self.ppu.mask = data[16];
        self.ppu.status = data[17];
        self.ppu.oam_addr = data[18];
        self.ppu.scroll_x = data[19];
        self.ppu.scroll_y = data[20];
        self.ppu.addr_latch = data[21] != 0;
        self.ppu.read_buffer = data[22];
        self.ppu.vram_addr = vram_addr;
        self.ppu.scanline = scanline;
        self.ppu.dot = dot;
        self.ppu.nmi_request = data[29] != 0;
    }

    /// APU, controller, mapper and stall scalars of an accepted stream.
    #[verifier::rlimit(100)]
    fn apply_apu_rest_scalars(&mut self, data: &Vec<u8>)
        requires
            old(self).wf(),
            spec_loadable(*old(self), data@),
        ensures
            final(self).wf(),
            spec_restored_apu_rest(*old(self), *final(self), data@),
            final(self).cpu == old(self).cpu,
            final(self).ppu == old(self).ppu,
            final(self).ram == old(self).ram,
            final(self).cart.prg == old(self).cart.prg,
            final(self).cart.chr == old(self).cart.chr,
            final(self).cart.prg_ram == old(self).cart.prg_ram,
            final(self).cart.chr_is_ram == old(self).cart.chr_is_ram,
            final(self).cart.mirroring == old(self).cart.mirroring,
            final(self).cart.mapper_id == old(self).cart.mapper_id,
            final(self).apu.samples == old(self).apu.samples,
    {
        let bank = data[97];
        self.apu.pulse1 = load_pulse(data, 30);
        self.apu.pulse2 = load_pulse(data, 44);
        self.apu.triangle = TriangleChannel {
            enabled: data[58] != 0,
            control: data[59] != 0,
            linear_reload_value: data[60],
            linear_reload_flag: data[61] != 0,
            linear: data[62],
            timer_period: rd16(data, 63),
            timer: rd16(data, 65),
            phase: data[67],
            length: data[68],
        };
        self.apu.noise = NoiseChannel {
            enabled: data[69] != 0,
            mode: data[70] != 0,
            halt: data[71] != 0,
            constant_volume: data[72] != 0,
            volume: data[73],
            env_level: data[74],
            env_divider: data[75],
            env_start: data[76] != 0,
            timer_period: rd16(data, 77),
            timer: rd16(data, 79),
            shift: rd16(data, 81),
            length: data[83],
        };
        self.apu.dmc_level = data[84];
        self.apu.five_step = data[85] != 0;
        self.apu.irq_inhibit = data[86] != 0;
        self.apu.frame_irq = data[87] != 0;
        self.apu.frame_cycle = rd16(data, 88);
        self.apu.odd_cycle = data[90] != 0;
        self.apu.sample_acc = rd24(data, 91);
        self.controller = Controller {
            buttons: data[94],
            strobe: data[95] != 0,
            shift_index: data[96],
        };
        self.cart.mapper = match self.cart.mapper {
            Mapper::Nrom { prg_count, chr_count } => Mapper::Nrom { prg_count, chr_count },
            Mapper::Uxrom { prg_count, chr_count, .. } => Mapper::Uxrom {
                prg_count,
                chr_count,
                prg_bank: bank,
            },
            Mapper::Cnrom { prg_count, chr_count, .. } => Mapper::Cnrom {
                prg_count,
                chr_count,
                chr_bank: bank,
            },
        };
        self.dma_stall = rd16(data, 98) as u32;
    }

    /// The memory images of an accepted stream.
    #[verifier::rlimit(100)]
    fn apply_mems(&mut self, data: &Vec<u8>)
        requires
            old(self).wf(),
            data@.len() == OFF_CHR as int + if old(self).cart.chr_is_ram {
                0x2000int
            } else {
                0int
            },
        ensures
            final(self).wf(),
            spec_restored_mems(*old(self), *final(self), data@),
            final(self).cpu == old(self).cpu,
            final(self).controller == old(self).controller,
            final(self).dma_stall == old(self).dma_stall,
            final(self).cart.mapper == old(self).cart.mapper,
            final(self).cart.mapper_id == old(self).cart.mapper_id,
            final(self).cart.mirroring == old(self).cart.mirroring,
            final(self).cart.chr_is_ram == old(self).cart.chr_is_ram,
            final(self).cart.prg == old(self).cart.prg,
            final(self).ppu.frame == old(self).ppu.frame,
            final(self).apu.pulse1 == old(self).apu.pulse1,
            final(self).apu.pulse2 == old(self).apu.pulse2,
            final(self).apu.triangle == old(self).apu.triangle,
            final(self).apu.noise == old(self).apu.noise,
            final(self).apu.dmc_level == old(self).apu.dmc_level,
            final(self).apu.five_step == old(self).apu.five_step,
            final(self).apu.irq_inhibit == old(self).apu.irq_inhibit,
            final(self).apu.frame_irq == old(self).apu.frame_irq,
            final(self).apu.frame_cycle == old(self).apu.frame_cycle,
            final(self).apu.odd_cycle == old(self).apu.odd_cycle,
            final(self).apu.sample_acc == old(self).apu.sample_acc,
            final(self).apu.samples == old(self).apu.samples,
            final(self).ppu.ctrl == old(self).ppu.ctrl,
            final(self).ppu.mask == old(self).ppu.mask,
            final(self).ppu.status == old(self).ppu.status,
            final(self).ppu.oam_addr == old(self).ppu.oam_addr,
            final(self).ppu.scroll_x == old(self).ppu.scroll_x,
            final(self).ppu.scroll_y == old(self).ppu.scroll_y,
            final(self).ppu.addr_latch == old(self).ppu.addr_latch,
            final(self).ppu.read_buffer == old(self).ppu.read_buffer,
            final(self).ppu.vram_addr == old(self).ppu.vram_addr,
            final(self).ppu.scanline == old(self).ppu.scanline,
            final(self).ppu.dot == old(self).ppu.dot,
            final(self).ppu.nmi_request == old(self).ppu.nmi_request,
    {
        self.ram = crate::cartridge::copy_range(data, OFF_RAM, 0x800);
        self.ppu.vram = crate::cartridge::copy_range(data, OFF_VRAM, 0x800);
        self.ppu.palette = crate::cartridge::copy_range(data, OFF_PALETTE, 32);
        self.ppu.oam = crate::cartridge::copy_range(data, OFF_OAM, 256);
        self.cart.prg_ram = crate::cartridge::copy_range(data, OFF_PRG_RAM, 0x2000);
        if self.cart.chr_is_ram {
            self.cart.chr = crate::cartridge::copy_range(data, OFF_CHR, 0x2000);
        }
    }
}

/// Appends the version tag and cartridge fingerprint.
fn save_header(c: &crate::cartridge::Cartridge, out: &mut Vec<u8>)
    ensures
        final(out)@ == old(out)@ + c_header(*c),
{
    put(out, STATE_VERSION);
    put(out, c.mapper_id);
    put(out, c.mapper.prg_count());
    put(out, c.mapper.chr_count());
    putb(out, c.chr_is_ram);
    let code: u8 = match c.mirroring {
        crate::mapper::MirroringMode::Horizontal => 0,
        crate::mapper::MirroringMode::Vertical => 1,
        crate::mapper::MirroringMode::FourScreen => 2,
    };
    put(out, code);
    proof {
        assert(out@ =~= old(out)@ + c_header(*c));
    }
}

/// Appends the CPU block.
fn save_cpu(c: &Cpu, out: &mut Vec<u8>)
    ensures
        final(out)@ == old(out)@ + c_cpu(*c),
{
    put(out, c.a);
    put(out, c.x);
    put(out, c.y);
    put(out, c.sp);
    put(out, c.p);
    put16(out, c.pc);
    putb(out, c.nmi_pending);
    putb(out, c.irq_pending);
    proof {
        assert(out@ =~= old(out)@ + c_cpu(*c));
    }
}

/// Appends the PPU register block.
fn save_ppu_regs(p: &Ppu, out: &mut Vec<u8>)
    ensures
        final(out)@ == old(out)@ + c_ppu(*p),
{
    put(out, p.ctrl);
    put(out, p.mask);
    put(out, p.status);
    put(out, p.oam_addr);
    put(out, p.scroll_x);
    put(out, p.scroll_y);
    putb(out, p.addr_latch);
    put(out, p.read_buffer);
    put16(out, p.vram_addr);
    put16(out, p.scanline);
    put16(out, p.dot);
    putb(out, p.nmi_request);
    proof {
        assert(out@ =~= old(out)@ + c_ppu(*p));
    }
}

/// Appends the frame sequencer and decimator block.
fn save_apu_misc(a: &Apu, out: &mut Vec<u8>)
    ensures
        final(out)@ == old(out)@ + c_apu_misc(*a),
{
    put(out, a.dmc_level);
    putb(out, a.five_step);
    putb(out, a.irq_inhibit);
    putb(out, a.frame_irq);
    put16(out, a.frame_cycle);
    putb(out, a.odd_cycle);
    put(out, (a.sample_acc % 256) as u8);
    put(out, ((a.sample_acc / 256) % 256) as u8);
    put(out, ((a.sample_acc / 65536) % 256) as u8);
    proof {
        assert(out@ =~= old(out)@ + c_apu_misc(*a));
    }
}

/// Appends the controller block.
fn save_controller_block(c: &Controller, out: &mut Vec<u8>)
    ensures
        final(out)@ == old(out)@ + c_controller(*c),
{
    put(out, c.buttons);
    putb(out, c.strobe);
    put(out, c.shift_index);
    proof {
        assert(out@ =~= old(out)@ + c_controller(*c));
    }
}

/// Appends the mapper bank register and DMA stall.
fn save_tail(mp: &Mapper, dma_stall: u32, out: &mut Vec<u8>)
    requires
        dma_stall <= 513,
    ensures
        final(out)@ == old(out)@ + c_tail(*mp, dma_stall),
{
    let bank: u8 = match *mp {
        Mapper::Nrom { .. } => 0,
        Mapper::Uxrom { prg_bank, .. } => prg_bank,
        Mapper::Cnrom { chr_bank, .. } => chr_bank,
    };
    put(out, bank);
    put(out, (dma_stall % 256) as u8);
    put(out, (dma_stall / 256) as u8);
    proof {
        assert(out@ =~= old(out)@ + c_tail(*mp, dma_stall));
    }
}

/// One pulse channel read back from its 14-byte block.
fn load_pulse(data: &Vec<u8>, b: usize) -> (r: PulseChannel)
    requires
        b + 14 <= data.len(),
    ensures
        spec_pulse_restored(r, data@, b as int),
{
    PulseChannel {
        enabled: data[b] != 0,
        duty: data[b + 1],
        halt: data[b + 2] != 0,
        constant_volume: data[b + 3] != 0,
        volume: data[b + 4],
        env_level: data[b + 5],
        env_divider: data[b + 6],
        env_start: data[b + 7] != 0,
        timer_period: rd16(data, b + 8),
        timer: rd16(data, b + 10),
        phase: data[b + 12],
        length: data[b + 13],
    }
}

impl PulseChannel {
    /// Appends this channel's 14-byte block.
    fn save_to(&self, out: &mut Vec<u8>)
        ensures
            final(out)@ == old(out)@ + c_pulse(*self),
    {
        putb(out, self.enabled);
        put(out, self.duty);
        putb(out, self.halt);
        putb(out, self.constant_volume);
        put(out, self.volume);
        put(out, self.env_level);
        put(out, self.env_divider);
        putb(out, self.env_start);
        put16(out, self.timer_period);
        put16(out, self.timer);
        put(out, self.phase);
        put(out, self.length);
        proof {
            assert(out@ =~= old(out)@ + c_pulse(*self));
        }
    }
}


impl TriangleChannel {
    /// Appends this channel's 11-byte block.
    fn save_to(&self, out: &mut Vec<u8>)
        ensures
            final(out)@ == old(out)@ + c_triangle(*self),
    {
        putb(out, self.enabled);
        putb(out, self.control);
        put(out, self.linear_reload_value);
        putb(out, self.linear_reload_flag);
        put(out, self.linear);
        put16(out, self.timer_period);
        put16(out, self.timer);
        put(out, self.phase);
        put(out, self.length);
        proof {
            assert(out@ =~= old(out)@ + c_triangle(*self));
        }
    }
}

impl NoiseChannel {
    /// Appends this channel's 15-byte block.
    fn save_to(&self, out: &mut Vec<u8>)
        ensures
            final(out)@ == old(out)@ + c_noise(*self),
    {
        putb(out, self.enabled);
        putb(out, self.mode);
        putb(out, self.halt);
        putb(out, self.constant_volume);
        put(out, self.volume);
        put(out, self.env_level);
        put(out, self.env_divider);
        putb(out, self.env_start);
        put16(out, self.timer_period);
        put16(out, self.timer);
        put16(out, self.shift);
        put(out, self.length);
        proof {
            assert(out@ =~= old(out)@ + c_noise(*self));
        }
    }
}
} // verus!

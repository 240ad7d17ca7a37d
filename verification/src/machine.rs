//! The machine aggregate: one CPU, PPU, APU, controller, work RAM and
//! cartridge, plus the public console front: an empty-or-loaded `NES` that
//! drives the synchronized clock loop one video frame at a time.

use vstd::prelude::*;
use crate::apu::{Apu, DOT_RATE, SAMPLE_STEP};
use crate::cartridge::{Cartridge, LoadError};
use crate::controller::{Controller, StandardNESKey};
use crate::cpu::Cpu;
use crate::mapper::Device;
use crate::ppu::{DOTS_PER_FRAME, Ppu, VBLANK_POS};

verus! {

/// Size of the internal work RAM.
pub const RAM_SIZE: u16 = 0x800;

/// A loaded machine: every subsystem initialized and consistent with the
/// cartridge's bank counts.
#[derive(Clone, Debug)]
pub struct Machine {
    pub cpu: Cpu,
    pub ppu: Ppu,
    pub apu: Apu,
    pub controller: Controller,
    /// 2 KiB of internal work RAM, mirrored through 0x0000..0x2000.
    pub ram: Vec<u8>,
    pub cart: Cartridge,
    /// CPU cycles still owed for a sprite-memory DMA transfer.
    pub dma_stall: u32,
}

impl Machine {
    pub open spec fn wf(self) -> bool {
        &&& self.ppu.wf()
        &&& self.apu.wf()
        &&& self.controller.wf()
        &&& self.ram.len() == RAM_SIZE
        &&& self.cart.wf()
        &&& self.dma_stall <= 513
    }

    /// The video position is untouched: only the PPU's own tick moves it.
    pub open spec fn spec_same_video_pos(a: Machine, b: Machine) -> bool {
        &&& a.ppu.scanline == b.ppu.scanline
        &&& a.ppu.dot == b.ppu.dot
    }

    /// What the reset line does: CPU, PPU and APU register state back at
    /// power-on values, the program counter loaded from the reset vector,
    /// while work RAM, the cartridge (its RAM, ROM and mapper registers) and
    /// the controller survive. `b` is `a` after the reset.
    pub open spec fn spec_reset_state(a: Machine, b: Machine) -> bool {
        &&& b.cpu.a == 0 && b.cpu.x == 0 && b.cpu.y == 0
        &&& b.cpu.sp == 0xfd && b.cpu.p == 0x24
        &&& !b.cpu.nmi_pending && !b.cpu.irq_pending
        &&& b.cpu.pc == spec_reset_vector(a.cart)
        &&& b.ppu.ctrl == 0 && b.ppu.mask == 0 && b.ppu.status == 0
        &&& b.ppu.oam_addr == 0 && b.ppu.scroll_x == 0 && b.ppu.scroll_y == 0
        &&& !b.ppu.addr_latch && b.ppu.vram_addr == 0 && b.ppu.read_buffer == 0
        &&& b.ppu.spec_pos() == 0 && !b.ppu.nmi_request
        &&& !b.apu.pulse1.enabled && b.apu.pulse1.length == 0
        &&& !b.apu.pulse2.enabled && b.apu.pulse2.length == 0
        &&& !b.apu.triangle.enabled && b.apu.triangle.length == 0
        &&& !b.apu.noise.enabled && b.apu.noise.length == 0
        &&& b.apu.dmc_level == 0 && b.apu.frame_cycle == 0 && !b.apu.five_step
        &&& !b.apu.frame_irq && b.apu.sample_acc == 0 && b.apu.samples@.len() == 0
        &&& b.dma_stall == 0
        &&& b.cart == a.cart
        &&& b.ram == a.ram
        &&& b.controller == a.controller
    }

    /// Builds a machine around a parsed cartridge, with every subsystem at
    /// power-on state; the CPU starts at the reset vector read from PRG.
    pub fn power_on(cart: Cartridge) -> (r: Machine)
        requires
            cart.wf(),
        ensures
            r.wf(),
            r.cart == cart,
            Machine::spec_reset_state(r, r),
    {
        let mut m = Machine {
            cpu: Cpu::power_on(),
            ppu: Ppu::power_on(),
            apu: Apu::power_on(),
            controller: Controller::power_on(),
            ram: crate::cartridge::zero_vec(RAM_SIZE as usize),
            cart,
            dma_stall: 0,
        };
        let lo = m.cart.prg_read(0xfffc) as u16;
        let hi = m.cart.prg_read(0xfffd) as u16;
        m.cpu.pc = hi * 256 + lo;
        m
    }

    /// A physical reset: CPU, PPU and APU register state is re-initialized,
    /// while work RAM, cartridge RAM and mapper-visible storage survive, as on
    /// the console's reset line.
    pub fn reset(&mut self)
        requires
            old(self).wf(),
        ensures
            final(self).wf(),
            Machine::spec_reset_state(*old(self), *final(self)),
    {
        self.cpu = Cpu::power_on();
        self.ppu = Ppu::power_on();
        self.apu = Apu::power_on();
        self.dma_stall = 0;
        let lo = self.cart.prg_read(0xfffc) as u16;
        let hi = self.cart.prg_read(0xfffd) as u16;
        self.cpu.pc = hi * 256 + lo;
    }

    /// Drives the synchronized clock loop until the PPU signals frame
    /// completion: each CPU instruction fans out three PPU dots and one APU
    /// tick per cycle, and the loop stops at the first VBlank entry it
    /// observes — so exactly one entry occurs per call and the machine is
    /// left exactly at the documented VBlank position. The audio decimator
    /// advances by exactly one APU tick per CPU cycle, so the sample buffer
    /// grows by the paced amount for the dots this frame spanned. Always
    /// terminates: the entry arrives within one frame's worth of dots.
    #[verifier::rlimit(100)]
    pub fn clock_for_frame(&mut self)
        requires
            old(self).wf(),
        ensures
            final(self).wf(),
            final(self).ppu.spec_pos() == VBLANK_POS as int,
            ({
                let ticks = (remaining_dots(old(self).ppu.spec_pos()) + 2) / 3;
                &&& final(self).apu.samples@.len() == old(self).apu.samples@.len() + (old(
                    self,
                ).apu.sample_acc + ticks * SAMPLE_STEP) / (DOT_RATE as int)
                &&& final(self).apu.sample_acc == (old(self).apu.sample_acc + ticks * SAMPLE_STEP)
                    % (DOT_RATE as int)
            }),
    {
        let ghost d0: int = remaining_dots(self.ppu.spec_pos());
        let ghost len0: int = self.apu.samples@.len() as int;
        let ghost acc0: int = self.apu.sample_acc as int;
        let ghost mut ticks: int = 0;
        let ghost mut dots: int = 0;
        let ghost mut budget: int = d0;
        proof {
            lemma_remaining_dots_step(self.ppu.spec_pos());
        }
        let mut frame_done = false;
        while !frame_done
            invariant
                self.wf(),
                !frame_done ==> budget == remaining_dots(self.ppu.spec_pos()),
                frame_done ==> self.ppu.spec_pos() == VBLANK_POS as int,
                budget >= 0,
                ticks >= 0,
                0 <= acc0 < DOT_RATE,
                !frame_done ==> dots == 3 * ticks && dots + budget == d0,
                frame_done ==> dots == d0 && 3 * ticks - 2 <= d0 <= 3 * ticks,
                self.apu.samples@.len() == len0 + (acc0 + ticks * SAMPLE_STEP) / (DOT_RATE as int),
                self.apu.sample_acc == (acc0 + ticks * SAMPLE_STEP) % (DOT_RATE as int),
            decreases budget,
        {
            let ghost b0: int = budget;
            let cycles = self.cpu_step();
            let mut c: u32 = 0;
            while c < cycles && !frame_done
                invariant
                    self.wf(),
                    c <= cycles,
                    budget <= b0,
                    c >= 1 || frame_done ==> budget <= b0 - 1,
                    frame_done ==> self.ppu.spec_pos() == VBLANK_POS as int,
                    !frame_done ==> budget == remaining_dots(self.ppu.spec_pos()),
                    budget >= 0,
                    ticks >= 0,
                    0 <= acc0 < DOT_RATE,
                    !frame_done ==> dots == 3 * ticks && dots + budget == d0,
                    frame_done ==> dots == d0 && 3 * ticks - 2 <= d0 <= 3 * ticks,
                    self.apu.samples@.len() == len0 + (acc0 + ticks * SAMPLE_STEP) / (
                    DOT_RATE as int),
                    self.apu.sample_acc == (acc0 + ticks * SAMPLE_STEP) % (DOT_RATE as int),
                decreases cycles - c,
            {
                let mut d: u32 = 0;
                while d < 3 && !frame_done
                    invariant
                        self.wf(),
                        d <= 3,
                        budget <= b0,
                        c >= 1 || d >= 1 || frame_done ==> budget <= b0 - 1,
                        frame_done ==> self.ppu.spec_pos() == VBLANK_POS as int,
                        !frame_done ==> budget == remaining_dots(self.ppu.spec_pos()),
                        budget >= 0,
                        ticks >= 0,
                        0 <= acc0 < DOT_RATE,
                        !frame_done ==> dots == 3 * ticks + d && dots + budget == d0,
                        frame_done ==> dots == d0 && 3 * ticks + 1 <= d0 <= 3 * ticks + d,
                        self.apu.samples@.len() == len0 + (acc0 + ticks * SAMPLE_STEP) / (
                        DOT_RATE as int),
                        self.apu.sample_acc == (acc0 + ticks * SAMPLE_STEP) % (DOT_RATE as int),
                    decreases 3 - d,
                {
                    proof {
                        lemma_remaining_dots_step(self.ppu.spec_pos());
                    }
                    let entered = self.ppu_dot();
                    proof {
                        budget = budget - 1;
                        dots = dots + 1;
                    }
                    if entered {
                        frame_done = true;
                    }
                    d += 1;
                }
                proof {
                    lemma_decimator_tick(acc0, ticks);
                }
                self.apu.tick();
                proof {
                    ticks = ticks + 1;
                }
                if self.apu.frame_irq {
                    self.cpu.irq_pending = true;
                }
                c += 1;
            }
        }
        proof {
            assert(ticks == (d0 + 2) / 3);
        }
    }

    /// One PPU dot, including the NMI hand-off from PPU to CPU.
    fn ppu_dot(&mut self) -> (entered: bool)
        requires
            old(self).wf(),
        ensures
            final(self).wf(),
            final(self).ppu.spec_pos() == (old(self).ppu.spec_pos() + 1) % (DOTS_PER_FRAME as int),
            entered <==> final(self).ppu.spec_pos() == VBLANK_POS,
            final(self).apu == old(self).apu,
    {
        let entered = self.ppu.tick(&self.cart);
        if self.ppu.nmi_request {
            self.ppu.nmi_request = false;
            self.cpu.nmi_pending = true;
        }
        entered
    }
}

/// The console: either empty (no cartridge, stepping is a no-op) or loaded,
/// with every subsystem consistent with the cartridge. This is the boundary
/// handed to front ends; a renderer wraps the frame buffer it reads in its
/// own synchronization.
pub struct NES {
    pub machine: Option<Machine>,
}

impl NES {
    /// Either no machine, or a well-formed one.
    pub open spec fn wf(self) -> bool {
        match self.machine {
            Some(m) => m.wf(),
            None => true,
        }
    }

    pub open spec fn spec_is_empty(self) -> bool {
        self.machine is None
    }

    /// Builds a console around a ROM image. Fails, naming the reason, when
    /// the header is malformed, the mapper is not in the catalog, or the data
    /// is truncated; no console is produced then.
    pub fn new(rom: &Vec<u8>) -> (r: Result<NES, LoadError>)
        ensures
            r is Ok <==> crate::cartridge::spec_header_ok(rom@)
                && crate::cartridge::spec_mapper_supported(rom@) && crate::cartridge::spec_rom_complete(
                rom@,
            ),
            r is Ok ==> r->Ok_0.wf() && !r->Ok_0.spec_is_empty(),
            r is Ok ==> ({
                let m = r->Ok_0.machine->Some_0;
                &&& Machine::spec_reset_state(m, m)
                &&& m.cart.mapper_id == crate::cartridge::spec_mapper_id(rom@)
                &&& m.cart.mirroring == crate::cartridge::spec_mirroring(rom@)
                &&& m.cart.mapper.spec_prg_count() == rom@[4]
                &&& m.cart.mapper.spec_chr_count() == rom@[5]
                &&& m.cart.prg@ == rom@.subrange(
                    crate::cartridge::spec_prg_offset(rom@),
                    crate::cartridge::spec_prg_offset(rom@) + (rom@[4] as int) * 0x4000,
                )
            }),
    {
        match Cartridge::parse(rom) {
            Ok(cart) => Ok(NES { machine: Some(Machine::power_on(cart)) }),
            Err(e) => Err(e),
        }
    }

    /// An empty console, with no cartridge loaded.
    pub fn new_without_file() -> (r: NES)
        ensures
            r.wf(),
            r.spec_is_empty(),
    {
        NES { machine: None }
    }

    /// Whether no cartridge is loaded.
    pub fn is_empty(&self) -> (r: bool)
        ensures
            r == self.spec_is_empty(),
    {
        match self.machine {
            Some(_) => false,
            None => true,
        }
    }

    /// A physical reset; a no-op on an empty console.
    pub fn reset(&mut self)
        requires
            old(self).wf(),
        ensures
            final(self).wf(),
            final(self).spec_is_empty() == old(self).spec_is_empty(),
            old(self).spec_is_empty() ==> *final(self) == *old(self),
            !old(self).spec_is_empty() ==> Machine::spec_reset_state(
                old(self).machine->Some_0,
                final(self).machine->Some_0,
            ),
    {
        if let Some(m) = &mut self.machine {
            m.reset();
        }
    }

    /// Steps the machine for exactly one video frame, stopping at the first
    /// VBlank entry it observes — the machine is left exactly at the
    /// documented VBlank position. A no-op on an empty console.
    pub fn clock_for_frame(&mut self)
        requires
            old(self).wf(),
        ensures
            final(self).wf(),
            final(self).spec_is_empty() == old(self).spec_is_empty(),
            old(self).spec_is_empty() ==> *final(self) == *old(self),
            !old(self).spec_is_empty() ==> final(self).machine->Some_0.ppu.spec_pos()
                == VBLANK_POS as int,
            !old(self).spec_is_empty() ==> ({
                let a = old(self).machine->Some_0;
                let b = final(self).machine->Some_0;
                let ticks = (remaining_dots(a.ppu.spec_pos()) + 2) / 3;
                b.apu.samples@.len() == a.apu.samples@.len() + (a.apu.sample_acc + ticks
                    * SAMPLE_STEP) / (DOT_RATE as int)
            }),
    {
        if let Some(m) = &mut self.machine {
            m.clock_for_frame();
        }
    }

    /// Hands out and clears the audio samples accumulated since the last
    /// drain; empty on an empty console.
    pub fn audio_buffer(&mut self) -> (r: Vec<u16>)
        requires
            old(self).wf(),
        ensures
            final(self).wf(),
            final(self).spec_is_empty() == old(self).spec_is_empty(),
            match old(self).machine {
                Some(m) => r == m.apu.samples && final(self).machine->Some_0.apu.samples@.len()
                    == 0,
                None => r@.len() == 0,
            },
    {
        match &mut self.machine {
            Some(m) => m.apu.drain_samples(),
            None => Vec::new(),
        }
    }

    /// Read-only view of the last completed frame, packed RGBA; `None` on an
    /// empty console.
    pub fn pixel_buffer(&self) -> (r: Option<&Vec<u8>>)
        requires
            self.wf(),
        ensures
            self.spec_is_empty() <==> r is None,
            r is Some ==> r->0@ == self.machine->Some_0.ppu.frame@ && r->0@.len()
                == crate::ppu::FRAME_BYTES,
    {
        match &self.machine {
            Some(m) => Some(&m.ppu.frame),
            None => None,
        }
    }

    /// Presses or releases one controller button, leaving every other button
    /// and everything else in the machine unchanged; a no-op on an empty
    /// console.
    pub fn set_controller_state(&mut self, key: StandardNESKey, pressed: bool)
        requires
            old(self).wf(),
        ensures
            final(self).wf(),
            final(self).spec_is_empty() == old(self).spec_is_empty(),
            old(self).spec_is_empty() ==> *final(self) == *old(self),
            !old(self).spec_is_empty() ==> ({
                let a = old(self).machine->Some_0;
                let b = final(self).machine->Some_0;
                &&& (b == Machine { controller: b.controller, ..a })
                &&& crate::controller::spec_bit_of(b.controller.buttons, key.spec_bit()) == (
                if pressed {
                    1u8
                } else {
                    0u8
                })
                &&& forall|k: StandardNESKey|
                    k != key ==> crate::controller::spec_bit_of(b.controller.buttons, k.spec_bit())
                        == crate::controller::spec_bit_of(a.controller.buttons, k.spec_bit())
                &&& b.controller.strobe == a.controller.strobe
                &&& b.controller.shift_index == a.controller.shift_index
            }),
    {
        if let Some(m) = &mut self.machine {
            m.controller.set_state(key, pressed);
        }
    }

    /// Serializes the whole machine state; `None` on an empty console.
    pub fn save_state(&self) -> (r: Option<Vec<u8>>)
        requires
            self.wf(),
        ensures
            self.spec_is_empty() <==> r is None,
            r is Some ==> r->0@ == crate::state::spec_ser(self.machine->Some_0),
    {
        match &self.machine {
            Some(m) => Some(m.save_state()),
            None => None,
        }
    }

    /// Restores the whole machine state from a stream, all-or-nothing; fails
    /// on an empty console, on a version or cartridge mismatch, on a wrong
    /// length, or on an out-of-range field, leaving the console untouched.
    pub fn load_state(&mut self, data: &Vec<u8>) -> (r: Result<(), crate::state::StateError>)
        requires
            old(self).wf(),
        ensures
            final(self).wf(),
            final(self).spec_is_empty() == old(self).spec_is_empty(),
            old(self).spec_is_empty() ==> r == Err::<(), crate::state::StateError>(
                crate::state::StateError::NoCartridge,
            ) && *final(self) == *old(self),
            !old(self).spec_is_empty() ==> {
                &&& r is Ok <==> crate::state::spec_loadable(old(self).machine->Some_0, data@)
                &&& r is Ok ==> crate::state::spec_restored(
                    old(self).machine->Some_0,
                    final(self).machine->Some_0,
                    data@,
                )
                &&& !(r is Ok) ==> *final(self) == *old(self)
                &&& data@.len() >= 1 && data@[0] != crate::state::STATE_VERSION ==> r == Err::<
                    (),
                    crate::state::StateError,
                >(crate::state::StateError::WrongVersion)
            },
    {
        match &mut self.machine {
            Some(m) => m.load_state(data),
            None => Err(crate::state::StateError::NoCartridge),
        }
    }
}

/// One step of the audio decimator, in terms of the running tick count: the
/// accumulator stays the running sum modulo the dot rate, and the sample
/// count its quotient.
proof fn lemma_decimator_tick(acc0: int, ticks: int)
    requires
        0 <= acc0 < DOT_RATE,
        0 <= ticks,
    ensures
        ({
            let t_big = acc0 + ticks * SAMPLE_STEP;
            let nxt = acc0 + (ticks + 1) * SAMPLE_STEP;
            &&& nxt == t_big + SAMPLE_STEP
            &&& t_big % (DOT_RATE as int) + (SAMPLE_STEP as int) >= DOT_RATE ==> nxt / (
            DOT_RATE as int) == t_big / (DOT_RATE as int) + 1 && nxt % (DOT_RATE as int) == t_big
                % (DOT_RATE as int) + SAMPLE_STEP - DOT_RATE
            &&& t_big % (DOT_RATE as int) + (SAMPLE_STEP as int) < DOT_RATE ==> nxt / (
            DOT_RATE as int) == t_big / (DOT_RATE as int) && nxt % (DOT_RATE as int) == t_big % (
            DOT_RATE as int) + SAMPLE_STEP
        }),
{
    let den = DOT_RATE as int;
    let step = SAMPLE_STEP as int;
    let t_big = acc0 + ticks * step;
    assert(step == 132300 && den == 5360520);
    assert(t_big >= 0 && acc0 + (ticks + 1) * step == t_big + step) by (nonlinear_arith)
        requires
            acc0 >= 0,
            ticks >= 0,
            step > 0,
            t_big == acc0 + ticks * step,
    ;
    vstd::arithmetic::div_mod::lemma_fundamental_div_mod(t_big, den);
    if t_big % den + step >= den {
        vstd::arithmetic::div_mod::lemma_fundamental_div_mod_converse(
            t_big + step,
            den,
            t_big / den + 1,
            t_big % den + step - den,
        );
    } else {
        vstd::arithmetic::div_mod::lemma_fundamental_div_mod_converse(
            t_big + step,
            den,
            t_big / den,
            t_big % den + step,
        );
    }
}

/// The per-frame audio budget: a frame stepped from the VBlank position —
/// where every call of the frame loop leaves the machine — spans one whole
/// frame of dots, and the decimator then emits the target rate divided by
/// sixty samples, give or take one.
pub proof fn lemma_frame_sample_budget(acc0: int)
    requires
        0 <= acc0 < DOT_RATE,
    ensures
        ({
            let ticks = (remaining_dots(VBLANK_POS as int) + 2) / 3;
            734 <= (acc0 + ticks * SAMPLE_STEP) / (DOT_RATE as int) <= 736
        }),
{
    assert(remaining_dots(VBLANK_POS as int) == DOTS_PER_FRAME as int);
    let ticks = (DOTS_PER_FRAME as int + 2) / 3;
    assert(ticks == 29781);
    let s = acc0 + ticks * (SAMPLE_STEP as int);
    vstd::arithmetic::div_mod::lemma_fundamental_div_mod(s, DOT_RATE as int);
    crate::apu::lemma_sample_pacing(acc0, ticks, s / (DOT_RATE as int), s % (DOT_RATE as int));
}

/// The address the CPU starts at: the 16-bit little-endian reset vector read
/// from PRG through the mapper.
pub open spec fn spec_reset_vector(c: Cartridge) -> int {
    c.prg@[c.mapper.spec_map_read(0xfffc, Device::Cpu) as int] + 256 * c.prg@[c.mapper.spec_map_read(
        0xfffd,
        Device::Cpu,
    ) as int]
}

/// Dots until the next VBlank entry, from a flattened position.
pub open spec fn remaining_dots(pos: int) -> int {
    let n = DOTS_PER_FRAME as int;
    let target = VBLANK_POS as int;
    if target >= pos + 1 {
        target - pos
    } else {
        target + n - pos
    }
}

/// Advancing one dot brings the next VBlank entry one dot closer (and the
/// count never runs out before the entry: it is 1 exactly at the entry dot).
pub proof fn lemma_remaining_dots_step(pos: int)
    requires
        0 <= pos < DOTS_PER_FRAME,
    ensures
        1 <= remaining_dots(pos) <= DOTS_PER_FRAME,
        ({
            let next = (pos + 1) % (DOTS_PER_FRAME as int);
            next == VBLANK_POS as int ==> remaining_dots(pos) == 1
        }),
        ({
            let next = (pos + 1) % (DOTS_PER_FRAME as int);
            next != VBLANK_POS as int ==> remaining_dots(next) == remaining_dots(pos) - 1
        }),
{
    let n = DOTS_PER_FRAME as int;
    let next = (pos + 1) % n;
    if pos + 1 < n {
        vstd::arithmetic::div_mod::lemma_small_mod((pos + 1) as nat, n as nat);
        assert(next == pos + 1);
    } else {
        assert(pos + 1 == n);
        vstd::arithmetic::div_mod::lemma_mod_self_0(n);
        assert(next == 0);
    }
}

} // verus!

//! The CPU-visible address bus: the single authority that decodes a 16-bit
//! address into its routing target and dispatches reads and writes, applying
//! the RAM mirroring window. Decoding is total and non-overlapping over the
//! whole address space.

use vstd::prelude::*;
use crate::machine::Machine;
use crate::mapper::Device;

verus! {

/// The routing targets of the CPU address space.
#[derive(Clone, Copy, PartialEq, Eq, Structural, Debug)]
pub enum BusTarget {
    /// 0x0000..0x2000: internal work RAM, mirrored every 0x800 bytes.
    InternalRam,
    /// 0x2000..0x4000: the eight PPU registers, mirrored every 8 bytes.
    PpuRegister,
    /// 0x4000..0x4018: APU and controller registers, and the sprite DMA port.
    ApuIoRegister,
    /// 0x4018..0x6000: open bus — no device responds.
    Unmapped,
    /// 0x6000..0x8000: cartridge work RAM.
    CartridgeRam,
    /// 0x8000..=0xFFFF: cartridge PRG space, resolved by the mapper.
    CartridgeRom,
}

/// Which addresses a target answers for.
pub open spec fn spec_target_range(t: BusTarget, address: u16) -> bool {
    match t {
        BusTarget::InternalRam => address < 0x2000,
        BusTarget::PpuRegister => 0x2000 <= address < 0x4000,
        BusTarget::ApuIoRegister => 0x4000 <= address < 0x4018,
        BusTarget::Unmapped => 0x4018 <= address < 0x6000,
        BusTarget::CartridgeRam => 0x6000 <= address < 0x8000,
        BusTarget::CartridgeRom => 0x8000 <= address,
    }
}

/// The routing target of an address.
pub open spec fn spec_decode(address: u16) -> BusTarget {
    if address < 0x2000 {
        BusTarget::InternalRam
    } else if address < 0x4000 {
        BusTarget::PpuRegister
    } else if address < 0x4018 {
        BusTarget::ApuIoRegister
    } else if address < 0x6000 {
        BusTarget::Unmapped
    } else if address < 0x8000 {
        BusTarget::CartridgeRam
    } else {
        BusTarget::CartridgeRom
    }
}

/// Decoding is total: every address lies in the range of the target chosen
/// for it.
pub proof fn lemma_decode_total(address: u16)
    ensures
        spec_target_range(spec_decode(address), address),
{
}

/// Decoding is non-overlapping: no address lies in the range of two targets.
pub proof fn lemma_decode_non_overlapping(address: u16, t1: BusTarget, t2: BusTarget)
    requires
        spec_target_range(t1, address),
        spec_target_range(t2, address),
    ensures
        t1 == t2,
{
}

/// Work-RAM cell behind an address in the RAM window.
pub open spec fn spec_ram_index(address: u16) -> int {
    (address as int) % 0x800
}

/// Two RAM-window addresses are mirror-equivalent when they reach the same
/// physical cell.
pub open spec fn spec_ram_equiv(a1: u16, a2: u16) -> bool {
    spec_ram_index(a1) == spec_ram_index(a2)
}

/// Mirroring round trip for work RAM: a write through one address is read
/// back through every mirror-equivalent address.
pub proof fn lemma_ram_mirror_round_trip(ram: Seq<u8>, a1: u16, a2: u16, data: u8)
    requires
        ram.len() == 0x800,
        a1 < 0x2000,
        a2 < 0x2000,
        spec_ram_equiv(a1, a2),
    ensures
        ram.update(spec_ram_index(a1), data)[spec_ram_index(a2)] == data,
{
}

impl Machine {
    /// A pure view of what a bus read returns for the side-effect-free
    /// targets (RAM, cartridge RAM and ROM; open bus reads as zero).
    pub open spec fn spec_bus_value(self, address: u16) -> u8 {
        match spec_decode(address) {
            BusTarget::InternalRam => self.ram@[spec_ram_index(address)],
            BusTarget::CartridgeRam => self.cart.prg_ram@[(address - 0x6000) as int],
            BusTarget::CartridgeRom => self.cart.prg@[self.cart.mapper.spec_map_read(
                address,
                Device::Cpu,
            ) as int],
            _ => 0u8,
        }
    }

    /// A CPU read. Reads of RAM, cartridge space and open bus have no side
    /// effect and return `spec_bus_value`; reads of PPU/APU/controller
    /// registers carry the documented side effects (status-latch clears,
    /// serial shifts) within the addressed device only.
    pub fn bus_read(&mut self, address: u16) -> (r: u8)
        requires
            old(self).wf(),
        ensures
            final(self).wf(),
            Machine::spec_same_video_pos(*old(self), *final(self)),
            final(self).cpu == old(self).cpu,
            final(self).ram == old(self).ram,
            final(self).cart.prg == old(self).cart.prg,
            final(self).cart.prg_ram == old(self).cart.prg_ram,
            final(self).cart.chr == old(self).cart.chr,
            final(self).cart.mapper == old(self).cart.mapper,
            final(self).dma_stall == old(self).dma_stall,
            final(self).apu.samples == old(self).apu.samples,
            final(self).apu.sample_acc == old(self).apu.sample_acc,
            final(self).ppu.frame == old(self).ppu.frame,
            !(spec_decode(address) is PpuRegister || spec_decode(address) is ApuIoRegister)
                ==> *final(self) == *old(self) && r == old(self).spec_bus_value(address),
    {
        if address < 0x2000 {
            self.ram[(address % 0x800) as usize]
        } else if address < 0x4000 {
            let reg = address % 8;
            self.ppu.reg_read(&self.cart, reg)
        } else if address < 0x4018 {
            if address == 0x4015 {
                self.apu.read_status()
            } else if address == 0x4016 {
                self.controller.serial_read()
            } else {
                0
            }
        } else if address < 0x6000 {
            0
        } else if address < 0x8000 {
            self.cart.prg_ram[(address - 0x6000) as usize]
        } else {
            self.cart.prg_read(address)
        }
    }

    /// The byte a sprite-memory DMA transfer fetches: like a bus read but
    /// side-effect free — register windows supply zero.
    fn dma_source_byte(&self, address: u16) -> (r: u8)
        requires
            self.wf(),
        ensures
            r == self.spec_bus_value(address),
    {
        if address < 0x2000 {
            self.ram[(address % 0x800) as usize]
        } else if address < 0x6000 {
            0
        } else if address < 0x8000 {
            self.cart.prg_ram[(address - 0x6000) as usize]
        } else {
            self.cart.prg_read(address)
        }
    }

    /// A CPU write. RAM and cartridge-RAM writes update exactly the mirrored
    /// cell; cartridge-ROM writes reach the mapper's bank-select registers;
    /// register-window writes land in the addressed device; the DMA port
    /// copies a 256-byte page into sprite memory and charges the documented
    /// stall cycles.
    pub fn bus_write(&mut self, address: u16, data: u8)
        requires
            old(self).wf(),
        ensures
            final(self).wf(),
            Machine::spec_same_video_pos(*old(self), *final(self)),
            final(self).cpu == old(self).cpu,
            final(self).cart.prg == old(self).cart.prg,
            spec_decode(address) is InternalRam ==> final(self).ram@ == old(self).ram@.update(
                spec_ram_index(address),
                data,
            ) && final(self).ppu == old(self).ppu && final(self).apu == old(self).apu && final(self).controller == old(self).controller && final(self).cart == old(self).cart && final(self).dma_stall == old(self).dma_stall,
            spec_decode(address) is CartridgeRam ==> final(self).cart.prg_ram@ == old(self).cart.prg_ram@.update((address - 0x6000) as int, data) && final(self).ram == old(self).ram && final(self).ppu == old(self).ppu && final(self).cart.mapper == old(self).cart.mapper && final(self).cart.chr == old(self).cart.chr,
            spec_decode(address) is CartridgeRom ==> final(self).cart.mapper == old(self).cart.mapper.spec_map_write(address, data, Device::Cpu) && final(self).ram == old(self).ram && final(self).ppu == old(self).ppu && final(self).cart.prg_ram == old(self).cart.prg_ram && final(self).cart.chr == old(self).cart.chr,
            spec_decode(address) is Unmapped ==> *final(self) == *old(self),
            final(self).ram == old(self).ram || spec_decode(address) is InternalRam,
            final(self).apu.samples == old(self).apu.samples,
            final(self).apu.sample_acc == old(self).apu.sample_acc,
    {
        if address < 0x2000 {
            self.ram.set((address % 0x800) as usize, data);
        } else if address < 0x4000 {
            let reg = address % 8;
            self.ppu.reg_write(&mut self.cart, reg, data);
        } else if address < 0x4018 {
            if address == 0x4014 {
                self.oam_dma(data);
            } else if address == 0x4016 {
                self.controller.strobe_write(data);
            } else {
                self.apu.write_reg(address, data);
            }
        } else if address < 0x6000 {
        } else if address < 0x8000 {
            self.cart.prg_ram.set((address - 0x6000) as usize, data);
        } else {
            self.cart.mapper.map_write(address, data, crate::mapper::Device::Cpu);
        }
    }

    /// Sprite-memory DMA: copies the 256 bytes of one page into OAM starting
    /// at the current OAM address, and records the 513-cycle CPU stall.
    fn oam_dma(&mut self, page: u8)
        requires
            old(self).wf(),
        ensures
            final(self).wf(),
            Machine::spec_same_video_pos(*old(self), *final(self)),
            final(self).cpu == old(self).cpu,
            final(self).ram == old(self).ram,
            final(self).cart == old(self).cart,
            final(self).apu == old(self).apu,
            final(self).controller == old(self).controller,
            final(self).ppu.frame == old(self).ppu.frame,
    {
        let base: u16 = page as u16 * 256;
        let mut i: u16 = 0;
        while i < 256
            invariant
                self.wf(),
                i <= 256,
                base == page * 256,
                Machine::spec_same_video_pos(*old(self), *self),
                self.cpu == old(self).cpu,
                self.ram == old(self).ram,
                self.cart == old(self).cart,
                self.apu == old(self).apu,
                self.controller == old(self).controller,
                self.ppu.frame == old(self).ppu.frame,
            decreases 256 - i,
        {
            let b = self.dma_source_byte(base + i);
            let dst = (self.ppu.oam_addr as u16 + i) % 256;
            self.ppu.oam.set(dst as usize, b);
            i += 1;
        }
        self.dma_stall = 513;
    }
}

} // verus!

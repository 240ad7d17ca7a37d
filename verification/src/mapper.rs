//! Cartridge mapper catalog: one closed variant per supported bank-switching IC.
//!
//! Every variant resolves a CPU- or PPU-space address to an offset into the
//! cartridge's PRG or CHR storage (`map_read`), and interprets writes to its
//! control registers (`map_write`). Bank counts are validated once in `init`,
//! so no resolved offset can ever reach past the storage the cartridge owns.

use vstd::prelude::*;

verus! {

/// Which address space an access comes from.
#[derive(Clone, Copy, PartialEq, Eq, Structural, Debug)]
pub enum Device {
    Cpu,
    Ppu,
}

/// Nametable arrangement selected by the cartridge.
#[derive(Clone, Copy, PartialEq, Eq, Structural, Debug)]
pub enum MirroringMode {
    Horizontal,
    Vertical,
    FourScreen,
}

/// Bank-switching hardware, one variant per supported mapper IC.
///
/// Supported catalog: iNES mapper 0 (fixed mapping, no registers), mapper 2
/// (switchable 16 KiB PRG window at 0x8000, fixed last bank at 0xC000), and
/// mapper 3 (fixed PRG, switchable 8 KiB CHR bank). Bank counts are bounded so
/// that every resolved offset fits the 16-bit result of `map_read`.
#[derive(Clone, Copy, PartialEq, Eq, Structural, Debug)]
pub enum Mapper {
    Nrom { prg_count: u8, chr_count: u8 },
    Uxrom { prg_count: u8, chr_count: u8, prg_bank: u8 },
    Cnrom { prg_count: u8, chr_count: u8, chr_bank: u8 },
}

impl Mapper {
    /// Number of 16 KiB PRG banks the cartridge was initialized with.
    pub open spec fn spec_prg_count(self) -> u8 {
        match self {
            Mapper::Nrom { prg_count, .. } => prg_count,
            Mapper::Uxrom { prg_count, .. } => prg_count,
            Mapper::Cnrom { prg_count, .. } => prg_count,
        }
    }

    /// Number of 8 KiB CHR banks the cartridge was initialized with
    /// (0 means the cartridge brings 8 KiB of CHR RAM instead of ROM).
    pub open spec fn spec_chr_count(self) -> u8 {
        match self {
            Mapper::Nrom { chr_count, .. } => chr_count,
            Mapper::Uxrom { chr_count, .. } => chr_count,
            Mapper::Cnrom { chr_count, .. } => chr_count,
        }
    }

    /// Number of 8 KiB CHR banks of actual storage (CHR RAM counts as one bank).
    pub open spec fn spec_chr_storage_banks(self) -> u8 {
        if self.spec_chr_count() == 0 {
            1u8
        } else {
            self.spec_chr_count()
        }
    }

    /// Bank counts are in the range the variant supports and every bank-select
    /// register addresses an existing bank.
    pub open spec fn wf(self) -> bool {
        match self {
            Mapper::Nrom { prg_count, chr_count } => {
                &&& 1 <= prg_count <= 2
                &&& chr_count <= 1
            },
            Mapper::Uxrom { prg_count, chr_count, prg_bank } => {
                &&& 1 <= prg_count <= 4
                &&& chr_count <= 1
                &&& prg_bank < prg_count
            },
            Mapper::Cnrom { prg_count, chr_count, chr_bank } => {
                &&& 1 <= prg_count <= 2
                &&& 1 <= chr_count <= 8
                &&& chr_bank < chr_count
            },
        }
    }

    /// Resolved PRG/CHR offset for an address, as a function of current state.
    ///
    /// CPU space resolves only 0x8000..=0xFFFF (into PRG); PPU space resolves
    /// only 0x0000..=0x1FFF (into CHR); any address outside the variant's
    /// mapped windows resolves to 0.
    pub open spec fn spec_map_read(self, address: u16, device: Device) -> u16 {
        match device {
            Device::Cpu => if address < 0x8000 {
                0u16
            } else {
                let off = (address - 0x8000) as int;
                match self {
                    Mapper::Nrom { prg_count, .. } => (off % (prg_count * 0x4000)) as u16,
                    Mapper::Uxrom { prg_count, prg_bank, .. } => if address < 0xC000 {
                        (prg_bank * 0x4000 + off % 0x4000) as u16
                    } else {
                        ((prg_count - 1) * 0x4000 + off % 0x4000) as u16
                    },
                    Mapper::Cnrom { prg_count, .. } => (off % (prg_count * 0x4000)) as u16,
                }
            },
            Device::Ppu => if address < 0x2000 {
                match self {
                    Mapper::Cnrom { chr_bank, .. } => (chr_bank * 0x2000 + address) as u16,
                    _ => address,
                }
            } else {
                0u16
            },
        }
    }

    /// Mapper state after a write, as a function of the old state.
    ///
    /// Only register windows react: the whole CPU range 0x8000..=0xFFFF is the
    /// single bank-select register of the switching variants; the selected bank
    /// wraps around the initialized bank count.
    pub open spec fn spec_map_write(self, address: u16, data: u8, device: Device) -> Mapper {
        match self {
            Mapper::Nrom { .. } => self,
            Mapper::Uxrom { prg_count, chr_count, .. } => {
                if device is Cpu && address >= 0x8000 {
                    Mapper::Uxrom { prg_count, chr_count, prg_bank: (data % prg_count) as u8 }
                } else {
                    self
                }
            },
            Mapper::Cnrom { prg_count, chr_count, .. } => {
                if device is Cpu && address >= 0x8000 {
                    Mapper::Cnrom { prg_count, chr_count, chr_bank: (data % chr_count) as u8 }
                } else {
                    self
                }
            },
        }
    }

    /// Bank count accessor, executable form.
    pub fn prg_count(&self) -> (r: u8)
        ensures
            r == self.spec_prg_count(),
    {
        match *self {
            Mapper::Nrom { prg_count, .. } => prg_count,
            Mapper::Uxrom { prg_count, .. } => prg_count,
            Mapper::Cnrom { prg_count, .. } => prg_count,
        }
    }

    /// Bank count accessor, executable form.
    pub fn chr_count(&self) -> (r: u8)
        ensures
            r == self.spec_chr_count(),
    {
        match *self {
            Mapper::Nrom { chr_count, .. } => chr_count,
            Mapper::Uxrom { chr_count, .. } => chr_count,
            Mapper::Cnrom { chr_count, .. } => chr_count,
        }
    }

    /// Selects the mapper variant for an iNES mapper id. `None` when the id has
    /// no implementation in the catalog.
    pub fn from_id(mapper_id: u8) -> (r: Option<Mapper>)
        ensures
            r is Some <==> (mapper_id == 0 || mapper_id == 2 || mapper_id == 3),
            mapper_id == 0 ==> r == Some(Mapper::Nrom { prg_count: 1u8, chr_count: 0u8 }),
            mapper_id == 2 ==> r == Some(
                Mapper::Uxrom { prg_count: 1u8, chr_count: 0u8, prg_bank: 0u8 },
            ),
            mapper_id == 3 ==> r == Some(
                Mapper::Cnrom { prg_count: 1u8, chr_count: 1u8, chr_bank: 0u8 },
            ),
    {
        if mapper_id == 0 {
            Some(Mapper::Nrom { prg_count: 1, chr_count: 0 })
        } else if mapper_id == 2 {
            Some(Mapper::Uxrom { prg_count: 1, chr_count: 0, prg_bank: 0 })
        } else if mapper_id == 3 {
            Some(Mapper::Cnrom { prg_count: 1, chr_count: 1, chr_bank: 0 })
        } else {
            None
        }
    }

    /// Whether this variant supports the given bank counts, within the 16-bit
    /// offset range `map_read` can express.
    pub open spec fn spec_counts_supported(self, prg_count: u8, chr_count: u8) -> bool {
        match self {
            Mapper::Nrom { .. } => 1 <= prg_count <= 2 && chr_count <= 1,
            Mapper::Uxrom { .. } => 1 <= prg_count <= 4 && chr_count <= 1,
            Mapper::Cnrom { .. } => 1 <= prg_count <= 2 && 1 <= chr_count <= 8,
        }
    }

    /// Establishes the addressable bank range and resets the registers to their
    /// power-on defaults. Returns false (and leaves the state well formed but
    /// unspecified beyond the counts) when the variant cannot address the given
    /// bank counts; load-time validation reports that instead of crashing.
    pub fn init(&mut self, prg_count: u8, chr_count: u8) -> (ok: bool)
        ensures
            ok <==> old(self).spec_counts_supported(prg_count, chr_count),
            ok ==> final(self).wf(),
            ok ==> final(self).spec_prg_count() == prg_count && final(self).spec_chr_count()
                == chr_count,
            ok ==> match *final(self) {
                Mapper::Nrom { .. } => *old(self) is Nrom,
                Mapper::Uxrom { prg_bank, .. } => *old(self) is Uxrom && prg_bank == 0,
                Mapper::Cnrom { chr_bank, .. } => *old(self) is Cnrom && chr_bank == 0,
            },
            !ok ==> *final(self) == *old(self),
    {
        match *self {
            Mapper::Nrom { .. } => {
                if 1 <= prg_count && prg_count <= 2 && chr_count <= 1 {
                    *self = Mapper::Nrom { prg_count, chr_count };
                    true
                } else {
                    false
                }
            },
            Mapper::Uxrom { .. } => {
                if 1 <= prg_count && prg_count <= 4 && chr_count <= 1 {
                    *self = Mapper::Uxrom { prg_count, chr_count, prg_bank: 0 };
                    true
                } else {
                    false
                }
            },
            Mapper::Cnrom { .. } => {
                if 1 <= prg_count && prg_count <= 2 && 1 <= chr_count && chr_count <= 8 {
                    *self = Mapper::Cnrom { prg_count, chr_count, chr_bank: 0 };
                    true
                } else {
                    false
                }
            },
        }
    }

    /// Resolves an address to an offset into PRG (CPU space) or CHR (PPU
    /// space) storage, honoring the current bank-select registers. Pure: the
    /// mapper state is not touched.
    pub fn map_read(&self, address: u16, device: Device) -> (r: u16)
        requires
            self.wf(),
        ensures
            r == self.spec_map_read(address, device),
    {
        match device {
            Device::Cpu => {
                if address < 0x8000 {
                    0
                } else {
                    let off: u16 = address - 0x8000;
                    match *self {
                        Mapper::Nrom { prg_count, .. } => off % (prg_count as u16 * 0x4000),
                        Mapper::Uxrom { prg_count, prg_bank, .. } => {
                            if address < 0xC000 {
                                prg_bank as u16 * 0x4000 + off % 0x4000
                            } else {
                                (prg_count as u16 - 1) * 0x4000 + off % 0x4000
                            }
                        },
                        Mapper::Cnrom { prg_count, .. } => off % (prg_count as u16 * 0x4000),
                    }
                }
            },
            Device::Ppu => {
                if address < 0x2000 {
                    match *self {
                        Mapper::Cnrom { chr_bank, .. } => chr_bank as u16 * 0x2000 + address,
                        _ => address,
                    }
                } else {
                    0
                }
            },
        }
    }

    /// Interprets a write in a register window, updating bank-select state.
    /// Writes outside every register window leave the state unchanged.
    pub fn map_write(&mut self, address: u16, data: u8, device: Device)
        requires
            old(self).wf(),
        ensures
            *final(self) == old(self).spec_map_write(address, data, device),
            final(self).wf(),
    {
        match *self {
            Mapper::Nrom { .. } => {},
            Mapper::Uxrom { prg_count, chr_count, .. } => {
                if device == Device::Cpu && address >= 0x8000 {
                    *self = Mapper::Uxrom { prg_count, chr_count, prg_bank: data % prg_count };
                }
            },
            Mapper::Cnrom { prg_count, chr_count, .. } => {
                if device == Device::Cpu && address >= 0x8000 {
                    *self = Mapper::Cnrom { prg_count, chr_count, chr_bank: data % chr_count };
                }
            },
        }
    }
}

/// Every resolved offset stays inside the storage the bank counts describe:
/// CPU-space reads of the mapped window land within the PRG image, PPU-space
/// reads of the pattern range land within the CHR image.
pub proof fn lemma_map_read_in_bounds(m: Mapper, address: u16, device: Device)
    requires
        m.wf(),
    ensures
        device is Cpu && address >= 0x8000 ==> (m.spec_map_read(address, device) as int) < (
        m.spec_prg_count() as int) * 0x4000,
        device is Ppu && address < 0x2000 ==> (m.spec_map_read(address, device) as int) < (
        m.spec_chr_storage_banks() as int) * 0x2000,
{
}

/// Bank switching is local to the switched window: after writing the bank
/// select register of the switchable-PRG variant, reads in the switchable
/// window 0x8000..0xC000 follow the newly selected bank, while reads in every
/// other CPU address and the whole PPU space are unchanged.
pub proof fn lemma_uxrom_bank_switch(m: Mapper, w_addr: u16, data: u8)
    requires
        m.wf(),
        m is Uxrom,
        w_addr >= 0x8000,
    ensures
        ({
            let m2 = m.spec_map_write(w_addr, data, Device::Cpu);
            &&& forall|a: u16|
                0x8000 <= a < 0xC000 ==> m2.spec_map_read(a, Device::Cpu) == (data % m.spec_prg_count())
                    * 0x4000 + (a - 0x8000) % 0x4000
            &&& forall|a: u16|
                !(0x8000 <= a < 0xC000) ==> m2.spec_map_read(a, Device::Cpu) == m.spec_map_read(
                    a,
                    Device::Cpu,
                )
            &&& forall|a: u16| m2.spec_map_read(a, Device::Ppu) == m.spec_map_read(a, Device::Ppu)
        }),
{
}

/// The same locality for the switchable-CHR variant: the write moves PPU-space
/// pattern reads to the newly selected CHR bank and leaves every CPU-space
/// read unchanged.
pub proof fn lemma_cnrom_bank_switch(m: Mapper, w_addr: u16, data: u8)
    requires
        m.wf(),
        m is Cnrom,
        w_addr >= 0x8000,
    ensures
        ({
            let m2 = m.spec_map_write(w_addr, data, Device::Cpu);
            &&& forall|a: u16|
                a < 0x2000 ==> m2.spec_map_read(a, Device::Ppu) == (data % m.spec_chr_count())
                    * 0x2000 + a
            &&& forall|a: u16| m2.spec_map_read(a, Device::Cpu) == m.spec_map_read(a, Device::Cpu)
        }),
{
}

} // verus!

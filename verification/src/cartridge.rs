//! Cartridge: the ROM images, cartridge RAM, and the mapper that banks them.
//!
//! `Cartridge::parse` reads the standard ROM image layout: a 16-byte header
//! (magic bytes, PRG/CHR bank counts, mapper id split across two flag bytes,
//! mirroring flags, optional 512-byte trainer block), then the PRG data, then
//! the CHR data. A malformed header, an unimplemented mapper id, a bank count
//! the mapper cannot address, or truncated data is rejected at load time.

use vstd::prelude::*;
use crate::mapper::{Device, Mapper, MirroringMode};

verus! {

/// Size of the battery/work RAM window at 0x6000..=0x7FFF.
pub const PRG_RAM_SIZE: u16 = 0x2000;

/// Why a ROM image was rejected at load time.
#[derive(Clone, Copy, PartialEq, Eq, Structural, Debug)]
pub enum LoadError {
    /// Missing or wrong magic bytes, or a zero PRG bank count.
    BadHeader,
    /// The mapper id has no implementation, or the bank counts exceed what the
    /// mapper variant can address.
    UnsupportedMapper,
    /// The data after the header is shorter than the header promises.
    Truncated,
}

/// The header is present, carries the magic bytes, and promises at least one
/// PRG bank.
pub open spec fn spec_header_ok(b: Seq<u8>) -> bool {
    &&& b.len() >= 16
    &&& b[0] == 0x4eu8
    &&& b[1] == 0x45u8
    &&& b[2] == 0x53u8
    &&& b[3] == 0x1au8
    &&& b[4] != 0u8
}

/// Mapper id: high nibble of flag byte 7, high nibble of flag byte 6 as the
/// low nibble.
pub open spec fn spec_mapper_id(b: Seq<u8>) -> u8 {
    ((b[7] as int) / 16 * 16 + (b[6] as int) / 16) as u8
}

/// The optional 512-byte trainer block sits between header and PRG data.
pub open spec fn spec_has_trainer(b: Seq<u8>) -> bool {
    (b[6] as int) % 8 >= 4
}

/// Mirroring flags: bit 3 selects four-screen, else bit 0 selects vertical.
pub open spec fn spec_mirroring(b: Seq<u8>) -> MirroringMode {
    if (b[6] as int) % 16 >= 8 {
        MirroringMode::FourScreen
    } else if (b[6] as int) % 2 == 1 {
        MirroringMode::Vertical
    } else {
        MirroringMode::Horizontal
    }
}

/// Offset of the PRG data within the image.
pub open spec fn spec_prg_offset(b: Seq<u8>) -> int {
    16 + if spec_has_trainer(b) {
        512int
    } else {
        0int
    }
}

/// The image holds all the PRG and CHR data the header promises.
pub open spec fn spec_rom_complete(b: Seq<u8>) -> bool {
    b.len() >= spec_prg_offset(b) + (b[4] as int) * 0x4000 + (b[5] as int) * 0x2000
}

/// A cartridge: immutable PRG image, CHR image (RAM when the header names no
/// CHR banks), work RAM, mirroring mode, and the mapper that banks it all.
#[derive(Clone, Debug)]
pub struct Cartridge {
    pub prg: Vec<u8>,
    pub chr: Vec<u8>,
    pub chr_is_ram: bool,
    pub prg_ram: Vec<u8>,
    pub mirroring: MirroringMode,
    pub mapper_id: u8,
    pub mapper: Mapper,
}

impl Cartridge {
    /// Storage sizes agree exactly with the bank counts the mapper was
    /// initialized with, so every in-window resolved offset is in bounds.
    pub open spec fn wf(self) -> bool {
        &&& self.mapper.wf()
        &&& self.prg.len() == (self.mapper.spec_prg_count() as int) * 0x4000
        &&& self.chr.len() == (self.mapper.spec_chr_storage_banks() as int) * 0x2000
        &&& self.chr_is_ram == (self.mapper.spec_chr_count() == 0)
        &&& self.prg_ram.len() == PRG_RAM_SIZE
    }

    /// Reads a byte of PRG through the mapper (CPU space, 0x8000..=0xFFFF).
    pub fn prg_read(&self, address: u16) -> (r: u8)
        requires
            self.wf(),
            address >= 0x8000,
        ensures
            r == self.prg@[self.mapper.spec_map_read(address, Device::Cpu) as int],
    {
        proof {
            crate::mapper::lemma_map_read_in_bounds(self.mapper, address, Device::Cpu);
        }
        let off = self.mapper.map_read(address, Device::Cpu);
        self.prg[off as usize]
    }

    /// Reads a byte of CHR through the mapper (PPU space, 0x0000..=0x1FFF).
    pub fn chr_read(&self, address: u16) -> (r: u8)
        requires
            self.wf(),
            address < 0x2000,
        ensures
            r == self.chr@[self.mapper.spec_map_read(address, Device::Ppu) as int],
    {
        proof {
            crate::mapper::lemma_map_read_in_bounds(self.mapper, address, Device::Ppu);
        }
        let off = self.mapper.map_read(address, Device::Ppu);
        self.chr[off as usize]
    }

    /// Writes a byte of CHR RAM (PPU space). A write to CHR ROM is ignored,
    /// as on the real cartridge bus.
    pub fn chr_write(&mut self, address: u16, data: u8)
        requires
            old(self).wf(),
            address < 0x2000,
        ensures
            final(self).wf(),
            final(self).chr_is_ram ==> final(self).chr@ == old(self).chr@.update(
                old(self).mapper.spec_map_read(address, Device::Ppu) as int,
                data,
            ),
            !final(self).chr_is_ram ==> final(self).chr@ == old(self).chr@,
            final(self).prg == old(self).prg,
            final(self).prg_ram == old(self).prg_ram,
            final(self).mapper == old(self).mapper,
            final(self).chr_is_ram == old(self).chr_is_ram,
            final(self).mirroring == old(self).mirroring,
            final(self).mapper_id == old(self).mapper_id,
    {
        proof {
            crate::mapper::lemma_map_read_in_bounds(self.mapper, address, Device::Ppu);
        }
        if self.chr_is_ram {
            let off = self.mapper.map_read(address, Device::Ppu);
            self.chr.set(off as usize, data);
        }
    }

    /// Parses a ROM image. Returns exactly one of: the loaded cartridge, or
    /// the reason the image is rejected — a missing/malformed header, a mapper
    /// id outside the catalog or bank counts its variant cannot address, or
    /// data shorter than the header promises.
    pub fn parse(bytes: &Vec<u8>) -> (r: Result<Cartridge, LoadError>)
        ensures
            r == Err::<Cartridge, LoadError>(LoadError::BadHeader) <==> !spec_header_ok(bytes@),
            spec_header_ok(bytes@) ==> (r == Err::<Cartridge, LoadError>(
                LoadError::UnsupportedMapper,
            ) <==> !spec_mapper_supported(bytes@)),
            spec_header_ok(bytes@) && spec_mapper_supported(bytes@) ==> (r == Err::<
                Cartridge,
                LoadError,
            >(LoadError::Truncated) <==> !spec_rom_complete(bytes@)),
            r is Ok <==> spec_header_ok(bytes@) && spec_mapper_supported(bytes@)
                && spec_rom_complete(bytes@),
            r is Ok ==> ({
                let c = r->Ok_0;
                &&& c.wf()
                &&& c.mapper_id == spec_mapper_id(bytes@)
                &&& c.mirroring == spec_mirroring(bytes@)
                &&& c.mapper.spec_prg_count() == bytes@[4]
                &&& c.mapper.spec_chr_count() == bytes@[5]
                &&& c.prg@ == bytes@.subrange(
                    spec_prg_offset(bytes@),
                    spec_prg_offset(bytes@) + (bytes@[4] as int) * 0x4000,
                )
                &&& !c.chr_is_ram ==> c.chr@ == bytes@.subrange(
                    spec_prg_offset(bytes@) + (bytes@[4] as int) * 0x4000,
                    spec_prg_offset(bytes@) + (bytes@[4] as int) * 0x4000 + (bytes@[5] as int)
                        * 0x2000,
                )
                &&& c.chr_is_ram ==> c.chr@ =~= Seq::new(0x2000, |i: int| 0u8)
                &&& c.prg_ram@ =~= Seq::new(PRG_RAM_SIZE as nat, |i: int| 0u8)
            }),
    {
        if !(bytes.len() >= 16 && bytes[0] == 0x4e && bytes[1] == 0x45 && bytes[2] == 0x53
            && bytes[3] == 0x1a && bytes[4] != 0) {
            return Err(LoadError::BadHeader);
        }
        let prg_count: u8 = bytes[4];
        let chr_count: u8 = bytes[5];
        let flags6: u8 = bytes[6];
        let flags7: u8 = bytes[7];
        let mapper_id: u8 = (flags7 / 16) * 16 + flags6 / 16;
        let mapper_opt = Mapper::from_id(mapper_id);
        let mut mapper = match mapper_opt {
            Some(m) => m,
            None => { return Err(LoadError::UnsupportedMapper) },
        };
        if !mapper.init(prg_count, chr_count) {
            return Err(LoadError::UnsupportedMapper);
        }
        let prg_offset: usize = if (flags6 / 4) % 2 == 1 {
            16 + 512
        } else {
            16
        };
        let prg_len: usize = prg_count as usize * 0x4000;
        let chr_len: usize = chr_count as usize * 0x2000;
        if bytes.len() < prg_offset + prg_len + chr_len {
            return Err(LoadError::Truncated);
        }
        let mirroring = if (flags6 / 8) % 2 == 1 {
            MirroringMode::FourScreen
        } else if flags6 % 2 == 1 {
            MirroringMode::Vertical
        } else {
            MirroringMode::Horizontal
        };
        let prg = copy_range(bytes, prg_offset, prg_len);
        let chr_is_ram = chr_count == 0;
        let chr = if chr_is_ram {
            zero_vec(0x2000)
        } else {
            copy_range(bytes, prg_offset + prg_len, chr_len)
        };
        let prg_ram = zero_vec(PRG_RAM_SIZE as usize);
        Ok(Cartridge { prg, chr, chr_is_ram, prg_ram, mirroring, mapper_id, mapper })
    }
}

/// The catalog implements the header's mapper id and its variant can address
/// the header's bank counts.
pub open spec fn spec_mapper_supported(b: Seq<u8>) -> bool {
    let id = spec_mapper_id(b);
    ||| id == 0 && b[4] <= 2 && b[5] <= 1
    ||| id == 2 && b[4] <= 4 && b[5] <= 1
    ||| id == 3 && b[4] <= 2 && 1 <= b[5] <= 8
}

/// Copies `src[start .. start + len]` into a fresh vector.
pub fn copy_range(src: &Vec<u8>, start: usize, len: usize) -> (r: Vec<u8>)
    requires
        start + len <= src.len(),
    ensures
        r@ == src@.subrange(start as int, start as int + len as int),
{
    let mut out: Vec<u8> = Vec::new();
    let mut i: usize = 0;
    while i < len
        invariant
            start + len <= src.len(),
            i <= len,
            out@ == src@.subrange(start as int, start as int + i as int),
        decreases len - i,
    {
        out.push(src[start + i]);
        i += 1;
        proof {
            assert(out@ =~= src@.subrange(start as int, start as int + i as int));
        }
    }
    out
}

/// A vector of `len` zero bytes.
pub fn zero_vec(len: usize) -> (r: Vec<u8>)
    ensures
        r@ =~= Seq::new(len as nat, |i: int| 0u8),
{
    let mut out: Vec<u8> = Vec::new();
    let mut i: usize = 0;
    while i < len
        invariant
            i <= len,
            out@ =~= Seq::new(i as nat, |j: int| 0u8),
        decreases len - i,
    {
        out.push(0);
        i += 1;
        proof {
            assert(out@ =~= Seq::new(i as nat, |j: int| 0u8));
        }
    }
    out
}

} // verus!

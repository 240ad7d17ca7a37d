//! Picture processing unit: registers with read/write side effects, video
//! memory behind nametable mirroring, palette RAM, object attribute memory,
//! and the dot clock — 341 dots by 262 scanlines per frame, with the VBlank
//! flag raised at the documented dot of scanline 241.

use vstd::prelude::*;
use vstd::arithmetic::div_mod::lemma_add_mod_noop;
use crate::cartridge::Cartridge;
use crate::mapper::{Device, MirroringMode};

verus! {

/// Width of the output picture in pixels.
pub const TV_WIDTH: usize = 256;

/// Height of the output picture in pixels.
pub const TV_HEIGHT: usize = 240;

/// Bytes in the packed-RGBA frame buffer.
pub const FRAME_BYTES: usize = 256 * 240 * 4;

/// Dots per frame.
pub const DOTS_PER_FRAME: u32 = 341 * 262;

/// Flattened dot position at which the VBlank flag is raised:
/// scanline 241, dot 1.
pub const VBLANK_POS: u32 = 241 * 341 + 1;

/// The picture processing unit.
#[derive(Clone, Debug)]
pub struct Ppu {
    pub ctrl: u8,
    pub mask: u8,
    pub status: u8,
    pub oam_addr: u8,
    pub scroll_x: u8,
    pub scroll_y: u8,
    /// Second-write toggle shared by the scroll and address registers;
    /// cleared by a status read.
    pub addr_latch: bool,
    pub vram_addr: u16,
    /// Buffered byte returned by non-palette data reads.
    pub read_buffer: u8,
    /// 2 KiB of nametable RAM.
    pub vram: Vec<u8>,
    /// 32 bytes of palette RAM.
    pub palette: Vec<u8>,
    /// 256 bytes of object attribute memory (64 sprites).
    pub oam: Vec<u8>,
    /// Packed RGBA output, `TV_WIDTH` x `TV_HEIGHT`.
    pub frame: Vec<u8>,
    pub scanline: u16,
    pub dot: u16,
    /// Raised when VBlank begins while NMI output is enabled; the machine
    /// hands it to the CPU and clears it.
    pub nmi_request: bool,
}

/// Physical index into the 2 KiB nametable RAM for an address in
/// 0x2000..0x3F00, under the cartridge's mirroring mode. The four-screen mode
/// is folded onto the two physical tables the console owns, like vertical.
pub open spec fn spec_nt_index(m: MirroringMode, address: u16) -> int {
    let nt = ((address - 0x2000) as int) % 0x1000;
    let table = nt / 0x400;
    let off = nt % 0x400;
    let phys = match m {
        MirroringMode::Horizontal => table / 2,
        MirroringMode::Vertical => table % 2,
        MirroringMode::FourScreen => table % 2,
    };
    phys * 0x400 + off
}

/// Index into the 32-byte palette RAM: 32-byte mirroring, with the sprite
/// backdrop entries 0x10/0x14/0x18/0x1C aliasing the background ones.
pub open spec fn spec_pal_index(address: u16) -> int {
    let p = (address as int) % 0x20;
    if p >= 0x10 && p % 4 == 0 {
        p - 0x10
    } else {
        p
    }
}

/// Two nametable addresses are mirror-equivalent when they reach the same
/// physical cell under the given mirroring mode.
pub open spec fn spec_nt_equiv(m: MirroringMode, a1: u16, a2: u16) -> bool {
    spec_nt_index(m, a1) == spec_nt_index(m, a2)
}

impl Ppu {
    pub open spec fn wf(self) -> bool {
        &&& self.vram.len() == 0x800
        &&& self.palette.len() == 32
        &&& self.oam.len() == 256
        &&& self.frame.len() == FRAME_BYTES
        &&& self.scanline < 262
        &&& self.dot < 341
        &&& self.vram_addr < 0x4000
    }

    /// Flattened dot position within the frame.
    pub open spec fn spec_pos(self) -> int {
        (self.scanline as int) * 341 + (self.dot as int)
    }

    pub fn power_on() -> (r: Ppu)
        ensures
            r.wf(),
            r.spec_pos() == 0,
            r.ctrl == 0 && r.mask == 0 && r.status == 0,
            r.oam_addr == 0 && r.scroll_x == 0 && r.scroll_y == 0,
            !r.addr_latch && r.vram_addr == 0 && r.read_buffer == 0,
            !r.nmi_request,
    {
        Ppu {
            ctrl: 0,
            mask: 0,
            status: 0,
            oam_addr: 0,
            scroll_x: 0,
            scroll_y: 0,
            addr_latch: false,
            vram_addr: 0,
            read_buffer: 0,
            vram: crate::cartridge::zero_vec(0x800),
            palette: crate::cartridge::zero_vec(32),
            oam: crate::cartridge::zero_vec(256),
            frame: crate::cartridge::zero_vec(FRAME_BYTES),
            scanline: 0,
            dot: 0,
            nmi_request: false,
        }
    }

    /// Index into the nametable RAM, executable form.
    fn nt_index(&self, m: MirroringMode, address: u16) -> (r: usize)
        requires
            0x2000 <= address < 0x3f00,
        ensures
            r == spec_nt_index(m, address),
            r < 0x800,
    {
        let nt: u16 = (address - 0x2000) % 0x1000;
        let table: u16 = nt / 0x400;
        let off: u16 = nt % 0x400;
        let phys: u16 = match m {
            MirroringMode::Horizontal => table / 2,
            MirroringMode::Vertical => table % 2,
            MirroringMode::FourScreen => table % 2,
        };
        (phys * 0x400 + off) as usize
    }

    /// Index into the palette RAM, executable form.
    fn pal_index(&self, address: u16) -> (r: usize)
        ensures
            r == spec_pal_index(address),
            r < 32,
    {
        let p: u16 = address % 0x20;
        if p >= 0x10 && p % 4 == 0 {
            (p - 0x10) as usize
        } else {
            p as usize
        }
    }

    /// A read in PPU address space: pattern data through the mapper,
    /// nametable RAM behind mirroring, or palette RAM.
    pub fn vram_read(&self, cart: &Cartridge, address: u16) -> (r: u8)
        requires
            self.wf(),
            cart.wf(),
            address < 0x4000,
        ensures
            address < 0x2000 ==> r == cart.chr@[cart.mapper.spec_map_read(
                address,
                Device::Ppu,
            ) as int],
            0x2000 <= address < 0x3f00 ==> r == self.vram@[spec_nt_index(
                cart.mirroring,
                address,
            )],
            0x3f00 <= address ==> r == self.palette@[spec_pal_index(address)],
    {
        if address < 0x2000 {
            cart.chr_read(address)
        } else if address < 0x3f00 {
            let i = self.nt_index(cart.mirroring, address);
            self.vram[i]
        } else {
            let i = self.pal_index(address);
            self.palette[i]
        }
    }

    /// A write in PPU address space. Pattern writes land in CHR RAM (and are
    /// ignored on CHR ROM), nametable writes land in the mirrored cell,
    /// palette writes in the aliased entry.
    pub fn vram_write(&mut self, cart: &mut Cartridge, address: u16, data: u8)
        requires
            old(self).wf(),
            old(cart).wf(),
            address < 0x4000,
        ensures
            final(self).wf(),
            final(cart).wf(),
            final(cart).mirroring == old(cart).mirroring,
            final(cart).mapper == old(cart).mapper,
            final(cart).prg == old(cart).prg,
            final(cart).prg_ram == old(cart).prg_ram,
            address >= 0x2000 ==> *final(cart) == *old(cart),
            0x2000 <= address < 0x3f00 ==> final(self).vram@ == old(self).vram@.update(
                spec_nt_index(old(cart).mirroring, address),
                data,
            ) && final(self).palette == old(self).palette,
            0x3f00 <= address ==> final(self).palette@ == old(self).palette@.update(
                spec_pal_index(address),
                data,
            ) && final(self).vram == old(self).vram,
            address < 0x2000 ==> final(self).vram == old(self).vram && final(self).palette == old(self).palette,
            final(self).frame == old(self).frame,
            final(self).oam == old(self).oam,
            final(self).scanline == old(self).scanline,
            final(self).dot == old(self).dot,
            final(self).status == old(self).status,
            final(self).ctrl == old(self).ctrl,
            final(self).mask == old(self).mask,
            final(self).nmi_request == old(self).nmi_request,
            final(self).vram_addr == old(self).vram_addr,
            final(self).addr_latch == old(self).addr_latch,
            final(self).scroll_x == old(self).scroll_x,
            final(self).scroll_y == old(self).scroll_y,
            final(self).oam_addr == old(self).oam_addr,
            final(self).read_buffer == old(self).read_buffer,
    {
        if address < 0x2000 {
            cart.chr_write(address, data);
        } else if address < 0x3f00 {
            let i = self.nt_index(cart.mirroring, address);
            self.vram.set(i, data);
        } else {
            let i = self.pal_index(address);
            self.palette.set(i, data);
        }
    }

    /// The address increment applied after a data-port access: 1, or 32 when
    /// control bit 2 is set.
    fn addr_increment(&self) -> (r: u16)
        ensures
            r == if (self.ctrl / 4) % 2 == 1 {
                32u16
            } else {
                1u16
            },
    {
        if (self.ctrl / 4) % 2 == 1 {
            32
        } else {
            1
        }
    }

    /// A CPU read of PPU register `reg` (0..=7, the low three address bits).
    /// Reading status returns it, then clears the VBlank flag and the shared
    /// write toggle; reading sprite data returns the byte at the sprite
    /// address; reading the data port returns the buffered byte for
    /// non-palette addresses (refilling the buffer from video memory), the
    /// palette entry directly for palette addresses, and advances the video
    /// address by the configured increment.
    pub fn reg_read(&mut self, cart: &Cartridge, reg: u16) -> (r: u8)
        requires
            old(self).wf(),
            cart.wf(),
            reg < 8,
        ensures
            final(self).wf(),
            reg == 2 ==> r == old(self).status && final(self).status == old(self).status % 128
                && !final(self).addr_latch,
            reg == 4 ==> r == old(self).oam@[old(self).oam_addr as int] && *final(self) == *old(self),
            reg == 7 ==> final(self).vram_addr == (old(self).vram_addr + (if (old(self).ctrl / 4)
                % 2 == 1 {
                32int
            } else {
                1int
            })) % 0x4000,
            reg == 7 && old(self).vram_addr < 0x2000 ==> r == old(self).read_buffer && final(self).read_buffer == cart.chr@[cart.mapper.spec_map_read(
                old(self).vram_addr,
                crate::mapper::Device::Ppu,
            ) as int],
            reg == 7 && 0x2000 <= old(self).vram_addr < 0x3f00 ==> r == old(self).read_buffer
                && final(self).read_buffer == old(self).vram@[spec_nt_index(
                cart.mirroring,
                old(self).vram_addr,
            )],
            reg == 7 && 0x3f00 <= old(self).vram_addr ==> r == old(self).palette@[spec_pal_index(
                old(self).vram_addr,
            )],
            reg == 0 || reg == 1 || reg == 3 || reg == 5 || reg == 6 ==> r == 0 && *final(self)
                == *old(self),
            final(self).frame == old(self).frame,
            final(self).vram == old(self).vram,
            final(self).palette == old(self).palette,
            final(self).oam == old(self).oam,
            final(self).scanline == old(self).scanline,
            final(self).dot == old(self).dot,
            final(self).nmi_request == old(self).nmi_request,
            final(self).ctrl == old(self).ctrl,
            final(self).mask == old(self).mask,
    {
        if reg == 2 {
            let r = self.status;
            self.status = self.status % 128;
            self.addr_latch = false;
            r
        } else if reg == 4 {
            self.oam[self.oam_addr as usize]
        } else if reg == 7 {
            let address = self.vram_addr;
            let inc = self.addr_increment();
            self.vram_addr = (self.vram_addr + inc) % 0x4000;
            if address < 0x3f00 {
                let r = self.read_buffer;
                self.read_buffer = self.vram_read(cart, address);
                r
            } else {
                self.read_buffer = self.vram_read(cart, address);
                self.read_buffer
            }
        } else {
            0
        }
    }

    /// A CPU write to PPU register `reg`. The scroll and address registers
    /// consume two writes steered by the shared toggle; the data port writes
    /// through `vram_write` and advances the address.
    pub fn reg_write(&mut self, cart: &mut Cartridge, reg: u16, data: u8)
        requires
            old(self).wf(),
            old(cart).wf(),
            reg < 8,
        ensures
            final(self).wf(),
            final(cart).wf(),
            final(cart).mirroring == old(cart).mirroring,
            final(cart).mapper == old(cart).mapper,
            final(cart).prg == old(cart).prg,
            final(cart).prg_ram == old(cart).prg_ram,
            reg == 0 ==> final(self).ctrl == data,
            reg == 1 ==> final(self).mask == data,
            reg == 5 || reg == 6 ==> final(self).addr_latch == !old(self).addr_latch,
            final(self).scanline == old(self).scanline,
            final(self).dot == old(self).dot,
            final(self).frame == old(self).frame,
            final(self).status == old(self).status,
            final(self).nmi_request == old(self).nmi_request,
    {
        if reg == 0 {
            self.ctrl = data;
        } else if reg == 1 {
            self.mask = data;
        } else if reg == 3 {
            self.oam_addr = data;
        } else if reg == 4 {
            self.oam.set(self.oam_addr as usize, data);
            self.oam_addr = if self.oam_addr == 255 {
                0
            } else {
                self.oam_addr + 1
            };
        } else if reg == 5 {
            if !self.addr_latch {
                self.scroll_x = data;
            } else {
                self.scroll_y = data;
            }
            self.addr_latch = !self.addr_latch;
        } else if reg == 6 {
            if !self.addr_latch {
                self.vram_addr = (data as u16 % 0x40) * 0x100 + self.vram_addr % 0x100;
            } else {
                self.vram_addr = self.vram_addr / 0x100 * 0x100 + data as u16;
            }
            self.addr_latch = !self.addr_latch;
        } else if reg == 7 {
            let address = self.vram_addr;
            let inc = self.addr_increment();
            self.vram_addr = (self.vram_addr + inc) % 0x4000;
            self.vram_write(cart, address, data);
        }
    }

    /// Writes one RGBA pixel into the frame buffer.
    fn put_pixel(&mut self, x: u16, y: u16, red: u8, green: u8, blue: u8)
        requires
            old(self).wf(),
            x < 256,
            y < 240,
        ensures
            final(self).wf(),
            (*final(self) == Ppu { frame: final(self).frame, ..*old(self) }),
    {
        let idx: usize = (y as usize * 256 + x as usize) * 4;
        self.frame.set(idx, red);
        self.frame.set(idx + 1, green);
        self.frame.set(idx + 2, blue);
        self.frame.set(idx + 3, 255);
    }

    /// Background pixel composition for one dot: coarse-scrolled nametable
    /// lookup, pattern fetch through the mapper, attribute-steered palette.
    fn render_bg_pixel(&mut self, cart: &Cartridge, x: u16, y: u16)
        requires
            old(self).wf(),
            cart.wf(),
            x < 256,
            y < 240,
        ensures
            final(self).wf(),
            (*final(self) == Ppu { frame: final(self).frame, ..*old(self) }),
    {
        let base_x: u16 = (self.ctrl % 2) as u16 * 256;
        let base_y: u16 = ((self.ctrl / 2) % 2) as u16 * 240;
        let wx: u16 = (x + self.scroll_x as u16 + base_x) % 512;
        let wy: u16 = (y + self.scroll_y as u16 + base_y) % 480;
        let table: u16 = (wy / 240) * 2 + wx / 256;
        let tile_x: u16 = (wx % 256) / 8;
        let tile_y: u16 = (wy % 240) / 8;
        let fine_x: u16 = wx % 8;
        let fine_y: u16 = wy % 8;
        let nt_addr: u16 = 0x2000 + table * 0x400 + tile_y * 32 + tile_x;
        let tile = self.vram_read(cart, nt_addr) as u16;
        let pattern_base: u16 = if (self.ctrl / 16) % 2 == 1 {
            0x1000
        } else {
            0
        };
        let p_addr: u16 = pattern_base + tile * 16 + fine_y;
        let low = self.vram_read(cart, p_addr);
        let high = self.vram_read(cart, p_addr + 8);
        let bit: u16 = 7 - fine_x;
        let pix: u8 = bit_at(high, bit as u8) * 2 + bit_at(low, bit as u8);
        let attr_addr: u16 = 0x2000 + table * 0x400 + 0x3c0 + (tile_y / 4) * 8 + tile_x / 4;
        let attr = self.vram_read(cart, attr_addr);
        let quadrant: u8 = (((tile_y % 4) / 2) * 2 + (tile_x % 4) / 2) as u8;
        let pal: u8 = (attr / quadrant_divisor(quadrant)) % 4;
        let color_idx: u8 = if pix == 0 {
            self.palette[0] % 64
        } else {
            self.palette[(pal * 4 + pix) as usize] % 64
        };
        let (red, green, blue) = nes_color(color_idx);
        self.put_pixel(x, y, red, green, blue);
    }

    /// Simplified sprite pass for one completed scanline: draws the 8x8
    /// sprites that cover it, lower index in front, honoring flips; sets the
    /// sprite-overflow flag past eight sprites on the line, and the sprite-0
    /// hit flag when sprite 0 produces an opaque pixel while the background
    /// is enabled.
    fn render_sprites_on_line(&mut self, cart: &Cartridge, y: u16)
        requires
            old(self).wf(),
            cart.wf(),
            y < 240,
        ensures
            final(self).wf(),
            final(self).scanline == old(self).scanline,
            final(self).dot == old(self).dot,
            final(self).nmi_request == old(self).nmi_request,
            final(self).ctrl == old(self).ctrl,
            final(self).vram == old(self).vram,
            final(self).palette == old(self).palette,
            final(self).oam == old(self).oam,
            final(self).vram_addr == old(self).vram_addr,
            final(self).addr_latch == old(self).addr_latch,
            final(self).mask == old(self).mask,
            final(self).read_buffer == old(self).read_buffer,
            final(self).scroll_x == old(self).scroll_x,
            final(self).scroll_y == old(self).scroll_y,
            final(self).oam_addr == old(self).oam_addr,
            final(self).status % 32 == old(self).status % 32 && final(self).status / 128 == old(self).status / 128,
    {
        let mut on_line: u8 = 0;
        let mut si: usize = 64;
        while si > 0
            invariant
                self.wf(),
                cart.wf(),
                y < 240,
                si <= 64,
                self.scanline == old(self).scanline,
                self.dot == old(self).dot,
                self.nmi_request == old(self).nmi_request,
                self.ctrl == old(self).ctrl,
                self.vram == old(self).vram,
                self.palette == old(self).palette,
                self.oam == old(self).oam,
                self.vram_addr == old(self).vram_addr,
                self.addr_latch == old(self).addr_latch,
                self.mask == old(self).mask,
                self.read_buffer == old(self).read_buffer,
                self.scroll_x == old(self).scroll_x,
                self.scroll_y == old(self).scroll_y,
                self.oam_addr == old(self).oam_addr,
                self.status % 32 == old(self).status % 32 && self.status / 128 == old(self).status / 128,
            decreases si,
        {
            si -= 1;
            let sy = self.oam[si * 4] as u16;
            if y >= sy + 1 && y < sy + 9 {
                let mut row: u16 = y - (sy + 1);
                let tile = self.oam[si * 4 + 1] as u16;
                let attr = self.oam[si * 4 + 2];
                let sx = self.oam[si * 4 + 3] as u16;
                if on_line < 255 {
                    on_line += 1;
                }
                if on_line > 8 {
                    self.status = set_bit_u8(self.status, 32);
                } else {
                    if (attr / 128) % 2 == 1 {
                        row = 7 - row;
                    }
                    let pattern_base: u16 = if (self.ctrl / 8) % 2 == 1 {
                        0x1000
                    } else {
                        0
                    };
                    let p_addr: u16 = pattern_base + tile * 16 + row;
                    let low = self.vram_read(cart, p_addr);
                    let high = self.vram_read(cart, p_addr + 8);
                    let mut cx: u16 = 0;
                    while cx < 8
                        invariant
                            self.wf(),
                            cart.wf(),
                            cx <= 8,
                            sx < 256,
                            self.scanline == old(self).scanline,
                            self.dot == old(self).dot,
                            self.nmi_request == old(self).nmi_request,
                            self.ctrl == old(self).ctrl,
                            self.vram == old(self).vram,
                            self.palette == old(self).palette,
                            self.oam == old(self).oam,
                            self.vram_addr == old(self).vram_addr,
                            self.addr_latch == old(self).addr_latch,
                            self.mask == old(self).mask,
                            self.read_buffer == old(self).read_buffer,
                            self.scroll_x == old(self).scroll_x,
                            self.scroll_y == old(self).scroll_y,
                            self.oam_addr == old(self).oam_addr,
                            self.status % 32 == old(self).status % 32 && self.status / 128 == old(self).status / 128,
                            y < 240,
                        decreases 8 - cx,
                    {
                        let bit: u16 = if (attr / 64) % 2 == 1 {
                            cx
                        } else {
                            7 - cx
                        };
                        let pix: u8 = bit_at(high, bit as u8) * 2 + bit_at(low, bit as u8);
                        let px: u16 = sx + cx;
                        if pix != 0 && px < 256 {
                            if si == 0 && (self.mask / 8) % 2 == 1 {
                                self.status = set_bit_u8(self.status, 64);
                            }
                            if (attr / 32) % 2 == 0 {
                                let pal: u8 = attr % 4;
                                let color_idx: u8 = self.palette[(16 + pal * 4 + pix) as usize]
                                    % 64;
                                let (red, green, blue) = nes_color(color_idx);
                                self.put_pixel(px, y, red, green, blue);
                            }
                        }
                        cx += 1;
                    }
                }
            }
        }
    }

    /// Advances the unit by one dot. Renders during visible scanlines when
    /// rendering is enabled; raises the VBlank flag (and the NMI request when
    /// enabled) on entering the documented position, clears the per-frame
    /// status bits on the pre-render line. Returns whether this dot entered
    /// VBlank — the frame-completion event.
    pub fn tick(&mut self, cart: &Cartridge) -> (vblank_entry: bool)
        requires
            old(self).wf(),
            cart.wf(),
        ensures
            final(self).wf(),
            final(self).spec_pos() == (old(self).spec_pos() + 1) % (DOTS_PER_FRAME as int),
            vblank_entry <==> final(self).spec_pos() == VBLANK_POS,
            vblank_entry ==> final(self).status >= 128,
            final(self).nmi_request == (old(self).nmi_request || (vblank_entry && old(self).ctrl
                >= 128)),
            final(self).ctrl == old(self).ctrl,
            final(self).mask == old(self).mask,
            final(self).vram == old(self).vram,
            final(self).palette == old(self).palette,
            final(self).oam == old(self).oam,
            final(self).vram_addr == old(self).vram_addr,
            final(self).addr_latch == old(self).addr_latch,
            final(self).read_buffer == old(self).read_buffer,
            final(self).scroll_x == old(self).scroll_x,
            final(self).scroll_y == old(self).scroll_y,
            final(self).oam_addr == old(self).oam_addr,
    {
        let rendering = (self.mask / 8) % 2 == 1 || (self.mask / 16) % 2 == 1;
        if self.scanline < 240 && self.dot < 256 && rendering {
            if (self.mask / 8) % 2 == 1 {
                let x = self.dot;
                let y = self.scanline;
                self.render_bg_pixel(cart, x, y);
            }
        }
        if self.scanline < 240 && self.dot == 340 && (self.mask / 16) % 2 == 1 {
            let y = self.scanline;
            self.render_sprites_on_line(cart, y);
        }
        if self.dot == 340 {
            self.dot = 0;
            if self.scanline == 261 {
                self.scanline = 0;
            } else {
                self.scanline = self.scanline + 1;
            }
        } else {
            self.dot = self.dot + 1;
        }
        if self.scanline == 241 && self.dot == 1 {
            self.status = set_bit_u8(self.status, 128);
            if self.ctrl >= 128 {
                self.nmi_request = true;
            }
            true
        } else {
            if self.scanline == 261 && self.dot == 1 {
                self.status = self.status % 32;
            }
            false
        }
    }
}

/// Bit `bit` (0..=7) of `v`, by arithmetic.
fn bit_at(v: u8, bit: u8) -> (r: u8)
    requires
        bit < 8,
    ensures
        r <= 1,
{
    (v / quadrant_divisor_wide(bit)) % 2
}

/// 4^q for the attribute quadrant shift (q < 4): 1, 4, 16, 64.
fn quadrant_divisor(q: u8) -> (r: u8)
    requires
        q < 4,
    ensures
        r == 1 || r == 4 || r == 16 || r == 64,
{
    if q == 0 {
        1
    } else if q == 1 {
        4
    } else if q == 2 {
        16
    } else {
        64
    }
}

/// 2^bit for bit positions 0..=7.
fn quadrant_divisor_wide(bit: u8) -> (r: u8)
    requires
        bit < 8,
    ensures
        r >= 1,
{
    if bit == 0 {
        1
    } else if bit == 1 {
        2
    } else if bit == 2 {
        4
    } else if bit == 3 {
        8
    } else if bit == 4 {
        16
    } else if bit == 5 {
        32
    } else if bit == 6 {
        64
    } else {
        128
    }
}

/// Sets one bit of a status byte (bit must be a power of two).
fn set_bit_u8(v: u8, bit: u8) -> (r: u8)
    requires
        bit == 32 || bit == 64 || bit == 128,
    ensures
        bit == 128 ==> r >= 128 && r % 128 == v % 128,
        bit == 64 ==> r / 128 == v / 128 && r % 32 == v % 32,
        bit == 32 ==> r / 128 == v / 128 && r % 32 == v % 32,
{
    if bit == 128 {
        v % 128 + 128
    } else if bit == 64 {
        (v / 128) * 128 + 64 + (v / 32) % 2 * 32 + v % 32
    } else {
        (v / 64) * 64 + 32 + v % 32
    }
}

/// An approximate RGB rendering of the 64-entry hardware palette: four
/// brightness rows of sixteen hues.
fn nes_color(idx: u8) -> (r: (u8, u8, u8))
    requires
        idx < 64,
{
    let level: u8 = idx / 16;
    let hue: u8 = idx % 16;
    let v: u8 = 84 + level * 56;
    let lo: u8 = v / 4;
    if hue == 0 {
        (v, v, v)
    } else if hue == 1 {
        (lo, lo, v)
    } else if hue == 2 {
        (lo, v / 2, v)
    } else if hue == 3 {
        (v / 2, lo, v)
    } else if hue == 4 {
        (v, lo, v)
    } else if hue == 5 {
        (v, lo, v / 2)
    } else if hue == 6 {
        (v, lo, lo)
    } else if hue == 7 {
        (v, v / 2, lo)
    } else if hue == 8 {
        (v / 2, v / 2, lo)
    } else if hue == 9 {
        (lo, v, lo)
    } else if hue == 10 {
        (lo, v, v / 2)
    } else if hue == 11 {
        (lo, v, v)
    } else if hue == 12 {
        (lo, v / 2, v / 2)
    } else if hue == 13 {
        (level, level, level)
    } else {
        (0, 0, 0)
    }
}

/// Mirroring round trip for nametable RAM: writing through one address and
/// reading through any mirror-equivalent address returns the written value.
pub proof fn lemma_nametable_mirror_round_trip(
    m: MirroringMode,
    vram: Seq<u8>,
    a1: u16,
    a2: u16,
    data: u8,
)
    requires
        vram.len() == 0x800,
        0x2000 <= a1 < 0x3f00,
        0x2000 <= a2 < 0x3f00,
        spec_nt_equiv(m, a1, a2),
    ensures
        vram.update(spec_nt_index(m, a1), data)[spec_nt_index(m, a2)] == data,
{
    assert(0 <= spec_nt_index(m, a1) < 0x800);
}

/// Over any window of `DOTS_PER_FRAME` consecutive dots there is exactly one
/// VBlank entry: existence — some dot in the window lands on the documented
/// scanline-241, dot-1 position.
pub proof fn lemma_vblank_entry_exists(p0: int)
    requires
        0 <= p0 < DOTS_PER_FRAME,
    ensures
        exists|i: int|
            0 <= i < DOTS_PER_FRAME && #[trigger] pos_after(p0, i + 1) == VBLANK_POS,
{
    let n = DOTS_PER_FRAME as int;
    let target = VBLANK_POS as int;
    let i = if target >= p0 + 1 {
        target - p0 - 1
    } else {
        target + n - p0 - 1
    };
    assert(0 <= i < n);
    if target >= p0 + 1 {
        assert(p0 + (i + 1) == target);
        assert(pos_after(p0, i + 1) == target % n);
        assert(target % n == target);
    } else {
        assert(p0 + (i + 1) == target + n);
        assert((target + n) % n == target) by {
            lemma_add_mod_noop(target, n, n);
            assert(n % n == 0);
            assert(target % n == target);
        }
    }
    assert(0 <= i < DOTS_PER_FRAME as int && pos_after(p0, i + 1) == VBLANK_POS as int);
}

/// ... and uniqueness: two dots of the window that both land on the VBlank
/// entry position are the same dot.
pub proof fn lemma_vblank_entry_unique(p0: int, i: int, j: int)
    requires
        0 <= p0 < DOTS_PER_FRAME,
        0 <= i < DOTS_PER_FRAME,
        0 <= j < DOTS_PER_FRAME,
        pos_after(p0, i + 1) == VBLANK_POS,
        pos_after(p0, j + 1) == VBLANK_POS,
    ensures
        i == j,
{
    let n = DOTS_PER_FRAME as int;
    let a = p0 + i + 1;
    let b = p0 + j + 1;
    vstd::arithmetic::div_mod::lemma_fundamental_div_mod(a, n);
    vstd::arithmetic::div_mod::lemma_fundamental_div_mod(b, n);
    let qa = a / n;
    let qb = b / n;
    assert(a == qa * n + a % n);
    assert(b == qb * n + b % n);
    assert(a - b == (qa - qb) * n) by (nonlinear_arith)
        requires
            a == qa * n + a % n,
            b == qb * n + b % n,
            a % n == b % n,
    ;
    assert(-n < a - b < n);
    assert(qa == qb) by (nonlinear_arith)
        requires
            a - b == (qa - qb) * n,
            -n < a - b < n,
            n > 0,
    ;
}

/// Position after `k` further dots, in the flattened frame coordinate.
pub open spec fn pos_after(p0: int, k: int) -> int {
    (p0 + k) % (DOTS_PER_FRAME as int)
}

/// One dot of advance agrees with the flattened-position recurrence, so the
/// per-tick contract of `Ppu::tick` composes into `pos_after`.
pub proof fn lemma_pos_step(p0: int, k: int)
    requires
        0 <= p0 < DOTS_PER_FRAME,
        k >= 0,
    ensures
        (pos_after(p0, k) + 1) % (DOTS_PER_FRAME as int) == pos_after(p0, k + 1),
{
    let n = DOTS_PER_FRAME as int;
    lemma_add_mod_noop(p0 + k, 1, n);
    assert((p0 + k) % n % n == (p0 + k) % n);
    assert(1int % n == 1);
    lemma_add_mod_noop((p0 + k) % n, 1, n);
}

} // verus!

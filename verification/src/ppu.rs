//! The 2C02 picture processing unit: a per-dot state machine with the
//! internal "loopy" scroll registers v/t/x/w, the background and sprite
//! shift-register pipelines, nametable and palette RAM, OAM, the register
//! window the CPU sees at 0x2000-0x2007, and VBlank/NMI timing.

use vstd::prelude::*;
use crate::rom::Mirroring;
use vstd::wrapping::u16_specs;
use crate::rom::Rom;

verus! {

broadcast use {crate::bits::lemma_u16_mask_7, crate::bits::lemma_u16_mask_f,
    crate::bits::lemma_u16_mask_1f,
    crate::bits::lemma_u16_mask_3ff, crate::bits::lemma_u16_mask_7ff,
    crate::bits::lemma_u16_mask_fff, crate::bits::lemma_u16_mask_3fff,
    crate::bits::lemma_u16_mask_7fff, crate::bits::lemma_u8_mask_3,
    crate::bits::lemma_u8_mask_7, crate::bits::lemma_u8_mask_3f};

pub const PPU_STATUS_VBLANK_BIT: u8 = 0x80;

pub const PPU_CTRL_NMI_TRIGGER_BIT: u8 = 0x80;

/// The PPU state, in spec form: the register copies, the scroll machinery,
/// the pipelines, and the memories as plain sequences.
#[verifier::ext_equal]
pub ghost struct PpuView {
    pub reg_ctrl: u8,
    pub reg_mask: u8,
    pub reg_status: u8,
    pub data: u8,
    pub data_buffer: u8,
    pub pixel: u16,
    pub scanline: u16,
    pub nmi_triggered: bool,
    pub v: u16,
    pub t: u16,
    pub x: u8,
    pub w: bool,
    pub bg_pattern_shift_low: u16,
    pub bg_pattern_shift_high: u16,
    pub bg_palette_shift_low: u16,
    pub bg_palette_shift_high: u16,
    pub bg_next_tile_id: u8,
    pub bg_next_tile_attr: u8,
    pub bg_next_tile_lsb: u8,
    pub bg_next_tile_msb: u8,
    pub sprite_count: usize,
    pub sprite_pattern_shift_low: Seq<u8>,
    pub sprite_pattern_shift_high: Seq<u8>,
    pub sprite_positions: Seq<u8>,
    pub sprite_priorities: Seq<u8>,
    pub sprite_indices: Seq<u8>,
    pub sprite_zero_being_rendered: bool,
    pub oam_addr: u8,
    pub mirroring: Mirroring,
    pub vram_bank_1: Seq<u8>,
    pub vram_bank_2: Seq<u8>,
    pub vram_bank_3: Seq<u8>,
    pub vram_bank_4: Seq<u8>,
    pub palette_ram: Seq<u8>,
    pub oam_ram: Seq<u8>,
    pub gbuffer: Seq<u32>,
}

/// The picture processing unit.
pub struct Ppu {
    pub reg_ctrl: u8,
    pub reg_mask: u8,
    pub reg_status: u8,
    pub data: u8,
    pub data_buffer: u8,
    pub pixel: u16,
    pub scanline: u16,
    pub nmi_triggered: bool,
    pub v: u16,
    pub t: u16,
    pub x: u8,
    pub w: bool,
    pub bg_pattern_shift_low: u16,
    pub bg_pattern_shift_high: u16,
    pub bg_palette_shift_low: u16,
    pub bg_palette_shift_high: u16,
    pub bg_next_tile_id: u8,
    pub bg_next_tile_attr: u8,
    pub bg_next_tile_lsb: u8,
    pub bg_next_tile_msb: u8,
    pub sprite_count: usize,
    pub sprite_pattern_shift_low: Vec<u8>,
    pub sprite_pattern_shift_high: Vec<u8>,
    pub sprite_positions: Vec<u8>,
    pub sprite_priorities: Vec<u8>,
    pub sprite_indices: Vec<u8>,
    pub sprite_zero_being_rendered: bool,
    pub oam_addr: u8,
    pub mirroring: Mirroring,
    pub vram_bank_1: Vec<u8>,
    pub vram_bank_2: Vec<u8>,
    pub vram_bank_3: Vec<u8>,
    pub vram_bank_4: Vec<u8>,
    pub palette_ram: Vec<u8>,
    pub oam_ram: Vec<u8>,
    pub gbuffer: Vec<u32>,
}

impl View for Ppu {
    type V = PpuView;

    open spec fn view(&self) -> PpuView {
        PpuView {
            reg_ctrl: self.reg_ctrl,
            reg_mask: self.reg_mask,
            reg_status: self.reg_status,
            data: self.data,
            data_buffer: self.data_buffer,
            pixel: self.pixel,
            scanline: self.scanline,
            nmi_triggered: self.nmi_triggered,
            v: self.v,
            t: self.t,
            x: self.x,
            w: self.w,
            bg_pattern_shift_low: self.bg_pattern_shift_low,
            bg_pattern_shift_high: self.bg_pattern_shift_high,
            bg_palette_shift_low: self.bg_palette_shift_low,
            bg_palette_shift_high: self.bg_palette_shift_high,
            bg_next_tile_id: self.bg_next_tile_id,
            bg_next_tile_attr: self.bg_next_tile_attr,
            bg_next_tile_lsb: self.bg_next_tile_lsb,
            bg_next_tile_msb: self.bg_next_tile_msb,
            sprite_count: self.sprite_count,
            sprite_pattern_shift_low: self.sprite_pattern_shift_low@,
            sprite_pattern_shift_high: self.sprite_pattern_shift_high@,
            sprite_positions: self.sprite_positions@,
            sprite_priorities: self.sprite_priorities@,
            sprite_indices: self.sprite_indices@,
            sprite_zero_being_rendered: self.sprite_zero_being_rendered,
            oam_addr: self.oam_addr,
            mirroring: self.mirroring,
            vram_bank_1: self.vram_bank_1@,
            vram_bank_2: self.vram_bank_2@,
            vram_bank_3: self.vram_bank_3@,
            vram_bank_4: self.vram_bank_4@,
            palette_ram: self.palette_ram@,
            oam_ram: self.oam_ram@,
            gbuffer: self.gbuffer@,
        }
    }
}

impl PpuView {
    /// The memory sizes are fixed: four 1 KiB nametable banks (two are
    /// reached only under four-screen mirroring), 32 palette
    /// entries, 256 OAM bytes, eight sprite slots, a 256x240 frame, and the
    /// dot and scanline counters stay on the 341x262 grid.
    pub open spec fn wf(self) -> bool {
        &&& self.vram_bank_1.len() == 0x400
        &&& self.vram_bank_2.len() == 0x400
        &&& self.vram_bank_3.len() == 0x400
        &&& self.vram_bank_4.len() == 0x400
        &&& self.palette_ram.len() == 0x20
        &&& self.oam_ram.len() == 0x100
        &&& self.sprite_pattern_shift_low.len() == 8
        &&& self.sprite_pattern_shift_high.len() == 8
        &&& self.sprite_positions.len() == 8
        &&& self.sprite_priorities.len() == 8
        &&& self.sprite_indices.len() == 8
        &&& self.gbuffer.len() == 61440
        &&& self.sprite_count <= 8
        &&& self.x < 8
        &&& self.pixel <= 340
        &&& self.scanline <= 261
    }

    pub open spec fn spec_is_vblank(self) -> bool {
        self.reg_status & PPU_STATUS_VBLANK_BIT != 0
    }

    pub open spec fn spec_vram_increment(self) -> u16 {
        if self.reg_ctrl & 0x04 != 0 {
            32u16
        } else {
            1u16
        }
    }

    pub open spec fn spec_sprite_pattern_table(self) -> u16 {
        if self.reg_ctrl & 0x08 != 0 {
            0x1000u16
        } else {
            0x0000u16
        }
    }

    pub open spec fn spec_bg_pattern_table(self) -> u16 {
        if self.reg_ctrl & 0x10 != 0 {
            0x1000u16
        } else {
            0x0000u16
        }
    }

    pub open spec fn spec_sprite_size(self) -> u8 {
        if self.reg_ctrl & 0x20 != 0 {
            16u8
        } else {
            8u8
        }
    }

    pub open spec fn spec_should_trigger_nmi(self) -> bool {
        self.reg_ctrl & PPU_CTRL_NMI_TRIGGER_BIT != 0
    }

    pub open spec fn spec_rendering_enabled(self) -> bool {
        (self.reg_mask & 0x08) != 0 || (self.reg_mask & 0x10) != 0
    }

    pub open spec fn spec_show_background(self) -> bool {
        (self.reg_mask & 0x08) != 0
    }

    pub open spec fn spec_show_sprites(self) -> bool {
        (self.reg_mask & 0x10) != 0
    }

    pub open spec fn spec_show_background_left(self) -> bool {
        (self.reg_mask & 0x02) != 0
    }

    pub open spec fn spec_show_sprites_left(self) -> bool {
        (self.reg_mask & 0x04) != 0
    }

    pub open spec fn spec_is_greyscale(self) -> bool {
        (self.reg_mask & 0x01) != 0
    }

    /// Which physical nametable bank (numbered from 1) a PPU address in
    /// 0x2000-0x3EFF reaches under the current mirroring: horizontal
    /// shares each bank across a row, vertical across a column,
    /// single-screen folds everything onto the first bank, and
    /// four-screen keeps all four logical slots distinct.
    pub open spec fn spec_nametable_bank(self, addr: u16) -> int {
        let folded = addr & 0xFFF;
        match self.mirroring {
            Mirroring::HORIZONTAL => if folded <= 0x7FF {
                1int
            } else {
                2int
            },
            Mirroring::VERTICAL => if folded <= 0x3FF {
                1int
            } else if folded <= 0x7FF {
                2int
            } else if folded <= 0xBFF {
                1int
            } else {
                2int
            },
            Mirroring::SINGLE_SCREEN => 1int,
            Mirroring::FOUR_SCREEN => if folded <= 0x3FF {
                1int
            } else if folded <= 0x7FF {
                2int
            } else if folded <= 0xBFF {
                3int
            } else {
                4int
            },
        }
    }

    /// The palette index an address in 0x3F00-0x3FFF folds to: 32 entries,
    /// with 0x10/0x14/0x18/0x1C aliasing 0x00/0x04/0x08/0x0C.
    pub open spec fn spec_palette_index(addr: u16) -> int {
        let i = addr & 0x1F;
        if i == 0x10 || i == 0x14 || i == 0x18 || i == 0x1C {
            (i & 0x0F) as int
        } else {
            i as int
        }
    }

    /// What a read of PPU memory space returns: pattern tables from the
    /// cartridge, nametables folded by mirroring, palette RAM folded and
    /// masked (to 0x30 in greyscale mode, 0x3F otherwise), zero elsewhere.
    pub open spec fn spec_ppu_read(self, rom: Rom, addr: u16) -> u8 {
        if addr < 0x2000 {
            rom.chr@[addr as int]
        } else if addr <= 0x3EFF {
            let bank = self.spec_nametable_bank(addr);
            if bank == 1 {
                self.vram_bank_1[(addr & 0x3FF) as int]
            } else if bank == 2 {
                self.vram_bank_2[(addr & 0x3FF) as int]
            } else if bank == 3 {
                self.vram_bank_3[(addr & 0x3FF) as int]
            } else {
                self.vram_bank_4[(addr & 0x3FF) as int]
            }
        } else if addr <= 0x3FFF {
            let p = self.palette_ram[Self::spec_palette_index(addr)];
            if self.spec_is_greyscale() {
                p & 0x30
            } else {
                p & 0x3F
            }
        } else {
            0u8
        }
    }

    /// The state after a write to PPU memory space: pattern space is
    /// read-only for NROM, nametables fold by mirroring, palette entries
    /// fold as on read, everything else is ignored.
    pub open spec fn spec_ppu_write(self, addr: u16, value: u8) -> PpuView {
        if addr < 0x2000 {
            self
        } else if addr <= 0x3EFF {
            let bank = self.spec_nametable_bank(addr);
            if bank == 1 {
                PpuView {
                    vram_bank_1: self.vram_bank_1.update((addr & 0x3FF) as int, value),
                    ..self
                }
            } else if bank == 2 {
                PpuView {
                    vram_bank_2: self.vram_bank_2.update((addr & 0x3FF) as int, value),
                    ..self
                }
            } else if bank == 3 {
                PpuView {
                    vram_bank_3: self.vram_bank_3.update((addr & 0x3FF) as int, value),
                    ..self
                }
            } else {
                PpuView {
                    vram_bank_4: self.vram_bank_4.update((addr & 0x3FF) as int, value),
                    ..self
                }
            }
        } else if addr <= 0x3FFF {
            PpuView { palette_ram: self.palette_ram.update(Self::spec_palette_index(addr), value), ..self }
        } else {
            self
        }
    }

    /// What the side-effect-free inspection path sees of register `reg`:
    /// the raw PPUCTRL/PPUMASK/PPUSTATUS copies and the current OAM byte;
    /// the write-only registers and PPUDATA read as zero.
    pub open spec fn spec_reg_peek(self, reg: u8) -> u8 {
        if reg == 0 {
            self.reg_ctrl
        } else if reg == 1 {
            self.reg_mask
        } else if reg == 2 {
            self.reg_status
        } else if reg == 4 {
            self.oam_ram[self.oam_addr as int]
        } else {
            0u8
        }
    }

    /// What a CPU read of register `reg` (0-7) returns. Only PPUSTATUS,
    /// OAMDATA and PPUDATA read back; PPUSTATUS carries the open-bus low
    /// bits of the last written value, and PPUDATA returns the buffered
    /// byte except for palette addresses.
    pub open spec fn spec_reg_read_value(self, rom: Rom, reg: u8) -> u8 {
        if reg == 2 {
            (self.reg_status & 0xE0) | (self.data_buffer & 0x1F)
        } else if reg == 4 {
            self.oam_ram[self.oam_addr as int]
        } else if reg == 7 {
            if self.v >= 0x3F00 {
                self.spec_ppu_read(rom, self.v)
            } else {
                self.data_buffer
            }
        } else {
            0u8
        }
    }

    /// The state after a CPU read of register `reg`: PPUSTATUS clears
    /// VBlank and resets the write toggle; PPUDATA refills the read buffer
    /// from the current VRAM address and advances it.
    pub open spec fn spec_reg_read_state(self, rom: Rom, reg: u8) -> PpuView {
        if reg == 2 {
            PpuView { w: false, reg_status: self.reg_status & 0x7F, ..self }
        } else if reg == 7 {
            PpuView {
                data: self.spec_reg_read_value(rom, 7),
                data_buffer: self.spec_ppu_read(rom, self.v),
                v: u16_wrap(self.v + self.spec_vram_increment()),
                ..self
            }
        } else {
            self
        }
    }

    /// The state after a CPU write of `value` to register `reg`.
    pub open spec fn spec_reg_write_state(self, reg: u8, value: u8) -> PpuView {
        if reg == 0 {
            PpuView {
                reg_ctrl: value,
                t: (self.t & 0xF3FF) | (((value as u16) & 0x03) << 10),
                data_buffer: value,
                ..self
            }
        } else if reg == 1 {
            PpuView { reg_mask: value, ..self }
        } else if reg == 2 {
            self
        } else if reg == 3 {
            PpuView { oam_addr: value, ..self }
        } else if reg == 4 {
            PpuView {
                oam_ram: self.oam_ram.update(self.oam_addr as int, value),
                oam_addr: u8_wrap(self.oam_addr + 1),
                ..self
            }
        } else if reg == 5 {
            if !self.w {
                PpuView {
                    t: (self.t & 0xFFE0) | ((value as u16) >> 3),
                    x: value & 0x07,
                    w: true,
                    data_buffer: value,
                    ..self
                }
            } else {
                PpuView {
                    t: (((self.t & 0x8FFF) | (((value as u16) & 0x07) << 12)) & 0xFC1F) | (((
                    value as u16) & 0xF8) << 2),
                    w: false,
                    data_buffer: value,
                    ..self
                }
            }
        } else if reg == 6 {
            if !self.w {
                PpuView {
                    t: (self.t & 0x00FF) | (((value as u16) & 0x3F) << 8),
                    w: true,
                    data_buffer: value,
                    ..self
                }
            } else {
                let t1 = (self.t & 0xFF00) | (value as u16);
                PpuView { t: t1, v: t1, w: false, data_buffer: value, ..self }
            }
        } else {
            let written = self.spec_ppu_write(self.v, value);
            PpuView {
                v: u16_wrap(self.v + self.spec_vram_increment()),
                data_buffer: value,
                ..written
            }
        }
    }
}

/// Reduction of a sum modulo the u16 range.
pub open spec fn u16_wrap(x: int) -> u16 {
    (x % 0x10000) as u16
}

/// Reduction of a sum modulo the u8 range.
pub open spec fn u8_wrap(x: int) -> u8 {
    (x % 0x100) as u8
}

impl PpuView {
    /// The freshly constructed PPU: registers, pipelines and memories all
    /// zeroed, horizontal mirroring until the cartridge says otherwise.
    pub open spec fn spec_new() -> PpuView {
        PpuView {
            reg_ctrl: 0u8,
            reg_mask: 0u8,
            reg_status: 0u8,
            data: 0u8,
            data_buffer: 0u8,
            pixel: 0u16,
            scanline: 0u16,
            nmi_triggered: false,
            v: 0u16,
            t: 0u16,
            x: 0u8,
            w: false,
            bg_pattern_shift_low: 0u16,
            bg_pattern_shift_high: 0u16,
            bg_palette_shift_low: 0u16,
            bg_palette_shift_high: 0u16,
            bg_next_tile_id: 0u8,
            bg_next_tile_attr: 0u8,
            bg_next_tile_lsb: 0u8,
            bg_next_tile_msb: 0u8,
            sprite_count: 0usize,
            sprite_pattern_shift_low: Seq::new(8, |i: int| 0u8),
            sprite_pattern_shift_high: Seq::new(8, |i: int| 0u8),
            sprite_positions: Seq::new(8, |i: int| 0u8),
            sprite_priorities: Seq::new(8, |i: int| 0u8),
            sprite_indices: Seq::new(8, |i: int| 0u8),
            sprite_zero_being_rendered: false,
            oam_addr: 0u8,
            mirroring: Mirroring::HORIZONTAL,
            vram_bank_1: Seq::new(0x400, |i: int| 0u8),
            vram_bank_2: Seq::new(0x400, |i: int| 0u8),
            vram_bank_3: Seq::new(0x400, |i: int| 0u8),
            vram_bank_4: Seq::new(0x400, |i: int| 0u8),
            palette_ram: Seq::new(0x20, |i: int| 0u8),
            oam_ram: Seq::new(0x100, |i: int| 0u8),
            gbuffer: Seq::new(61440, |i: int| 0u32),
        }
    }
}

impl Ppu {
    pub fn new() -> (p: Ppu)
        ensures
            p@.wf(),
            p@ == PpuView::spec_new(),
    {
        let p = Self {
            reg_ctrl: 0,
            reg_mask: 0,
            reg_status: 0,
            data: 0,
            data_buffer: 0,
            pixel: 0,
            scanline: 0,
            nmi_triggered: false,
            v: 0,
            t: 0,
            x: 0,
            w: false,
            bg_pattern_shift_low: 0,
            bg_pattern_shift_high: 0,
            bg_palette_shift_low: 0,
            bg_palette_shift_high: 0,
            bg_next_tile_id: 0,
            bg_next_tile_attr: 0,
            bg_next_tile_lsb: 0,
            bg_next_tile_msb: 0,
            sprite_count: 0,
            sprite_pattern_shift_low: crate::rom::zero_vec(8),
            sprite_pattern_shift_high: crate::rom::zero_vec(8),
            sprite_positions: crate::rom::zero_vec(8),
            sprite_priorities: crate::rom::zero_vec(8),
            sprite_indices: crate::rom::zero_vec(8),
            sprite_zero_being_rendered: false,
            oam_addr: 0,
            mirroring: Mirroring::HORIZONTAL,
            vram_bank_1: crate::rom::zero_vec(0x400),
            vram_bank_2: crate::rom::zero_vec(0x400),
            vram_bank_3: crate::rom::zero_vec(0x400),
            vram_bank_4: crate::rom::zero_vec(0x400),
            palette_ram: crate::rom::zero_vec(0x20),
            oam_ram: crate::rom::zero_vec(0x100),
            gbuffer: zero_vec_u32(61440),
        };
        proof {
            assert(p@ =~= PpuView::spec_new());
        }
        p
    }

    pub fn is_vblank(&self) -> (r: bool)
        ensures
            r == self@.spec_is_vblank(),
    {
        return self.reg_status & PPU_STATUS_VBLANK_BIT != 0;
    }

    pub fn set_mirroring(&mut self, mirroring: Mirroring)
        ensures
            final(self)@ == (PpuView { mirroring, ..old(self)@ }),
    {
        self.mirroring = mirroring;
        proof {
            assert(self@ =~= (PpuView { mirroring, ..old(self)@ }));
        }
    }

    /// Consume the one-shot NMI edge flag the VBlank rise set.
    pub fn get_and_reset_nmi_triggered(&mut self) -> (r: bool)
        ensures
            r == old(self)@.nmi_triggered,
            final(self)@ == (PpuView { nmi_triggered: false, ..old(self)@ }),
    {
        let r = self.nmi_triggered;
        self.nmi_triggered = false;
        proof {
            assert(self@ =~= (PpuView { nmi_triggered: false, ..old(self)@ }));
        }
        return r;
    }

    /// The PPU-space read used by the rendering pipeline and PPUDATA.
    fn ppu_read(&self, rom: &Rom, address: u16) -> (r: u8)
        requires
            self@.wf(),
            rom.wf(),
        ensures
            r == self@.spec_ppu_read(*rom, address),
    {
        if address < 0x2000 {
            return rom.read_chr(address);
        } else if address <= 0x3EFF {
            let tmp_addr = address & 0xFFF;
            match self.mirroring {
                Mirroring::HORIZONTAL => {
                    if tmp_addr <= 0x7FF {
                        return self.vram_bank_1[(address & 0x3FF) as usize];
                    } else {
                        return self.vram_bank_2[(address & 0x3FF) as usize];
                    }
                },
                Mirroring::VERTICAL => {
                    if tmp_addr <= 0x3FF {
                        return self.vram_bank_1[(address & 0x3FF) as usize];
                    } else if tmp_addr <= 0x7FF {
                        return self.vram_bank_2[(address & 0x3FF) as usize];
                    } else if tmp_addr <= 0xBFF {
                        return self.vram_bank_1[(address & 0x3FF) as usize];
                    } else {
                        return self.vram_bank_2[(address & 0x3FF) as usize];
                    }
                },
                Mirroring::SINGLE_SCREEN => {
                    return self.vram_bank_1[(address & 0x3FF) as usize];
                },
                Mirroring::FOUR_SCREEN => {
                    if tmp_addr <= 0x3FF {
                        return self.vram_bank_1[(address & 0x3FF) as usize];
                    } else if tmp_addr <= 0x7FF {
                        return self.vram_bank_2[(address & 0x3FF) as usize];
                    } else if tmp_addr <= 0xBFF {
                        return self.vram_bank_3[(address & 0x3FF) as usize];
                    } else {
                        return self.vram_bank_4[(address & 0x3FF) as usize];
                    }
                },
            }
        } else if address <= 0x3FFF {
            let idx = Self::palette_index(address);
            let p = self.palette_ram[idx];
            if self.reg_mask & 0x1 != 0 {
                return p & 0x30;
            } else {
                return p & 0x3F;
            }
        } else {
            return 0;
        }
    }

    /// The folded palette slot for an address in 0x3F00-0x3FFF.
    fn palette_index(address: u16) -> (r: usize)
        ensures
            r == PpuView::spec_palette_index(address),
            r < 0x20,
    {
        let mut tmp_addr = address & 0x1F;
        if tmp_addr == 0x10 || tmp_addr == 0x14 || tmp_addr == 0x18 || tmp_addr == 0x1C {
            tmp_addr &= 0x0F;
        }
        tmp_addr as usize
    }

    /// The PPU-space write used by PPUDATA.
    fn ppu_write(&mut self, address: u16, value: u8)
        requires
            old(self)@.wf(),
        ensures
            final(self)@.wf(),
            final(self)@ == old(self)@.spec_ppu_write(address, value),
    {
        if address < 0x2000 {
        } else if address <= 0x3EFF {
            let tmp_addr = address & 0xFFF;
            match self.mirroring {
                Mirroring::HORIZONTAL => {
                    if tmp_addr <= 0x7FF {
                        self.vram_bank_1.set((address & 0x3FF) as usize, value);
                    } else {
                        self.vram_bank_2.set((address & 0x3FF) as usize, value);
                    }
                },
                Mirroring::VERTICAL => {
                    if tmp_addr <= 0x3FF {
                        self.vram_bank_1.set((address & 0x3FF) as usize, value);
                    } else if tmp_addr <= 0x7FF {
                        self.vram_bank_2.set((address & 0x3FF) as usize, value);
                    } else if tmp_addr <= 0xBFF {
                        self.vram_bank_1.set((address & 0x3FF) as usize, value);
                    } else {
                        self.vram_bank_2.set((address & 0x3FF) as usize, value);
                    }
                },
                Mirroring::SINGLE_SCREEN => {
                    self.vram_bank_1.set((address & 0x3FF) as usize, value);
                },
                Mirroring::FOUR_SCREEN => {
                    if tmp_addr <= 0x3FF {
                        self.vram_bank_1.set((address & 0x3FF) as usize, value);
                    } else if tmp_addr <= 0x7FF {
                        self.vram_bank_2.set((address & 0x3FF) as usize, value);
                    } else if tmp_addr <= 0xBFF {
                        self.vram_bank_3.set((address & 0x3FF) as usize, value);
                    } else {
                        self.vram_bank_4.set((address & 0x3FF) as usize, value);
                    }
                },
            }
        } else if address <= 0x3FFF {
            let idx = Self::palette_index(address);
            self.palette_ram.set(idx, value);
        } else {
        }
        proof {
            assert(self@ =~= old(self)@.spec_ppu_write(address, value));
        }
    }

    /// A side-effect-free read of PPU memory for inspection tooling.
    pub fn read_ppu_memory(&self, rom: &Rom, address: u16) -> (r: u8)
        requires
            self@.wf(),
            rom.wf(),
        ensures
            r == self@.spec_ppu_read(*rom, address),
    {
        self.ppu_read(rom, address)
    }

    /// The CPU-visible read of register `reg` (the low three address
    /// bits), with its documented side effects.
    #[allow(non_snake_case)]
    pub fn cpuRead(&mut self, rom: &Rom, register_num: u8) -> (r: u8)
        requires
            old(self)@.wf(),
            rom.wf(),
            register_num < 8,
        ensures
            final(self)@.wf(),
            r == old(self)@.spec_reg_read_value(*rom, register_num),
            final(self)@ == old(self)@.spec_reg_read_state(*rom, register_num),
    {
        if register_num == 2 {
            self.w = false;
            let output = (self.reg_status & 0xE0) | (self.data_buffer & 0x1F);
            self.reg_status = self.reg_status & 0x7F;
            proof {
                assert(self@ =~= old(self)@.spec_reg_read_state(*rom, 2));
            }
            return output;
        } else if register_num == 4 {
            proof {
                assert(self@ =~= old(self)@.spec_reg_read_state(*rom, 4));
            }
            return self.oam_ram[self.oam_addr as usize];
        } else if register_num == 7 {
            self.data = self.data_buffer;
            self.data_buffer = self.ppu_read(rom, self.v);
            if self.v >= 0x3F00 {
                self.data = self.data_buffer;
            }
            let increment = if self.reg_ctrl & 0x04 != 0 {
                32u16
            } else {
                1u16
            };
            self.v = self.v.wrapping_add(increment);
            proof {
                assert(self@ =~= old(self)@.spec_reg_read_state(*rom, 7));
            }
            return self.data;
        } else {
            proof {
                assert(self@ =~= old(self)@.spec_reg_read_state(*rom, register_num));
            }
            return 0;
        }
    }

    /// A side-effect-free view of the register window for inspection
    /// tooling: the raw register copies, with no status clear and no
    /// buffer advance.
    #[allow(non_snake_case)]
    pub fn cpuReadImmutable(&self, _rom: &Rom, register_num: u8) -> (r: u8)
        requires
            self@.wf(),
            register_num < 8,
        ensures
            r == self@.spec_reg_peek(register_num),
    {
        if register_num == 0 {
            return self.reg_ctrl;
        } else if register_num == 1 {
            return self.reg_mask;
        } else if register_num == 2 {
            return self.reg_status;
        } else if register_num == 4 {
            return self.oam_ram[self.oam_addr as usize];
        } else {
            return 0;
        }
    }

    /// The CPU-visible write of register `reg`, with its documented side
    /// effects on the loopy registers, OAM, and VRAM.
    #[allow(non_snake_case)]
    pub fn cpuWrite(&mut self, _rom: &mut Rom, register_num: u8, value: u8)
        requires
            old(self)@.wf(),
            register_num < 8,
        ensures
            final(self)@.wf(),
            final(self)@ == old(self)@.spec_reg_write_state(register_num, value),
            *final(_rom) == *old(_rom),
    {
        if register_num == 0 {
            self.reg_ctrl = value;
            self.t = (self.t & 0xF3FF) | (((value as u16) & 0x03) << 10);
            self.data_buffer = value;
            proof {
                assert(self@ =~= old(self)@.spec_reg_write_state(0, value));
            }
        } else if register_num == 1 {
            self.reg_mask = value;
            proof {
                assert(self@ =~= old(self)@.spec_reg_write_state(1, value));
            }
        } else if register_num == 2 {
            proof {
                assert(self@ =~= old(self)@.spec_reg_write_state(2, value));
            }
        } else if register_num == 3 {
            self.oam_addr = value;
            proof {
                assert(self@ =~= old(self)@.spec_reg_write_state(3, value));
            }
        } else if register_num == 4 {
            self.oam_ram.set(self.oam_addr as usize, value);
            self.oam_addr = self.oam_addr.wrapping_add(1);
            proof {
                assert(self@ =~= old(self)@.spec_reg_write_state(4, value));
            }
        } else if register_num == 5 {
            if !self.w {
                self.t = (self.t & 0xFFE0) | ((value as u16) >> 3);
                self.x = value & 0x07;
                self.w = true;
            } else {
                self.t = (self.t & 0x8FFF) | (((value as u16) & 0x07) << 12);
                self.t = (self.t & 0xFC1F) | (((value as u16) & 0xF8) << 2);
                self.w = false;
            }
            self.data_buffer = value;
            proof {
                assert(self@ =~= old(self)@.spec_reg_write_state(5, value));
            }
        } else if register_num == 6 {
            if !self.w {
                self.t = (self.t & 0x00FF) | (((value as u16) & 0x3F) << 8);
                self.w = true;
            } else {
                self.t = (self.t & 0xFF00) | (value as u16);
                self.v = self.t;
                self.w = false;
            }
            self.data_buffer = value;
            proof {
                assert(self@ =~= old(self)@.spec_reg_write_state(6, value));
            }
        } else {
            self.ppu_write(self.v, value);
            let increment = if self.reg_ctrl & 0x04 != 0 {
                32u16
            } else {
                1u16
            };
            self.v = self.v.wrapping_add(increment);
            self.data_buffer = value;
            proof {
                assert(self@ =~= old(self)@.spec_reg_write_state(7, value));
            }
        }
    }
}

/// A vector of `n` zeroed 24-bit pixels.
pub fn zero_vec_u32(n: usize) -> (v: Vec<u32>)
    ensures
        v@ == Seq::new(n as nat, |i: int| 0u32),
{
    let mut v: Vec<u32> = Vec::new();
    while v.len() < n
        invariant
            v@.len() <= n,
            forall|i: int| 0 <= i < v@.len() ==> v@[i] == 0u32,
        decreases n - v@.len(),
    {
        v.push(0);
    }
    proof {
        assert(v@ =~= Seq::new(n as nat, |i: int| 0u32));
    }
    v
}


/// The fixed 64-entry palette: 6-bit palette indices to 24-bit RGB.
pub open spec fn spec_palette_lookup() -> Seq<u32> {
    seq![
        0x545454u32,
        0x001E74,
        0x081090,
        0x300088,
        0x440064,
        0x5C0030,
        0x540400,
        0x3C1800,
        0x202A00,
        0x083A00,
        0x004000,
        0x003C00,
        0x00323C,
        0x000000,
        0x000000,
        0x000000,
        0x989698,
        0x084CC4,
        0x3032EC,
        0x5C1EE4,
        0x8814B0,
        0xA01464,
        0x982220,
        0x783C00,
        0x545A00,
        0x287200,
        0x087C00,
        0x007628,
        0x006678,
        0x000000,
        0x000000,
        0x000000,
        0xECEEEC,
        0x4C9AEC,
        0x787CEC,
        0xB062EC,
        0xE454EC,
        0xEC58B4,
        0xEC6A64,
        0xD48820,
        0xA0AA00,
        0x74C400,
        0x4CD020,
        0x38CC6C,
        0x38B4CC,
        0x3C3C3C,
        0x000000,
        0x000000,
        0xECEEEC,
        0xA8CCEC,
        0xBCBCEC,
        0xD4B2EC,
        0xECAEEC,
        0xECAED4,
        0xECB4B0,
        0xE4C490,
        0xCCD278,
        0xB4DE78,
        0xA8E290,
        0x98E2B4,
        0xA0D6E4,
        0xA0A2A0,
        0x000000,
        0x000000,
    ]
}

/// The RGB value of a 6-bit palette index.
pub fn palette_rgb(idx: u8) -> (r: u32)
    requires
        idx < 64,
    ensures
        r == spec_palette_lookup()[idx as int],
{
    match idx {
        0 => 0x545454,
        1 => 0x001E74,
        2 => 0x081090,
        3 => 0x300088,
        4 => 0x440064,
        5 => 0x5C0030,
        6 => 0x540400,
        7 => 0x3C1800,
        8 => 0x202A00,
        9 => 0x083A00,
        10 => 0x004000,
        11 => 0x003C00,
        12 => 0x00323C,
        13 => 0x000000,
        14 => 0x000000,
        15 => 0x000000,
        16 => 0x989698,
        17 => 0x084CC4,
        18 => 0x3032EC,
        19 => 0x5C1EE4,
        20 => 0x8814B0,
        21 => 0xA01464,
        22 => 0x982220,
        23 => 0x783C00,
        24 => 0x545A00,
        25 => 0x287200,
        26 => 0x087C00,
        27 => 0x007628,
        28 => 0x006678,
        29 => 0x000000,
        30 => 0x000000,
        31 => 0x000000,
        32 => 0xECEEEC,
        33 => 0x4C9AEC,
        34 => 0x787CEC,
        35 => 0xB062EC,
        36 => 0xE454EC,
        37 => 0xEC58B4,
        38 => 0xEC6A64,
        39 => 0xD48820,
        40 => 0xA0AA00,
        41 => 0x74C400,
        42 => 0x4CD020,
        43 => 0x38CC6C,
        44 => 0x38B4CC,
        45 => 0x3C3C3C,
        46 => 0x000000,
        47 => 0x000000,
        48 => 0xECEEEC,
        49 => 0xA8CCEC,
        50 => 0xBCBCEC,
        51 => 0xD4B2EC,
        52 => 0xECAEEC,
        53 => 0xECAED4,
        54 => 0xECB4B0,
        55 => 0xE4C490,
        56 => 0xCCD278,
        57 => 0xB4DE78,
        58 => 0xA8E290,
        59 => 0x98E2B4,
        60 => 0xA0D6E4,
        61 => 0xA0A2A0,
        62 => 0x000000,
        _ => 0x000000,
    }
}

/// The bits of a byte in reverse order, for horizontally flipped sprites.
pub open spec fn spec_reverse_bits(b: u8) -> u8 {
    (((b & 1) << 7) | ((b & 2) << 5) | ((b & 4) << 3) | ((b & 8) << 1) | ((b & 16) >> 1) | ((b
        & 32) >> 3) | ((b & 64) >> 5) | ((b & 128) >> 7)) as u8
}

fn reverse_bits_u8(b: u8) -> (r: u8)
    ensures
        r == spec_reverse_bits(b),
{
    ((b & 1) << 7) | ((b & 2) << 5) | ((b & 4) << 3) | ((b & 8) << 1) | ((b & 16) >> 1) | ((b
        & 32) >> 3) | ((b & 64) >> 5) | ((b & 128) >> 7)
}

impl PpuView {
    /// Horizontal scroll increment at the end of each background tile:
    /// coarse X steps and wraps into the neighbouring nametable. A no-op
    /// while rendering is disabled.
    pub open spec fn spec_inc_scroll_x(self) -> PpuView {
        if !self.spec_rendering_enabled() {
            self
        } else if self.v & 0x001F == 31 {
            PpuView { v: (self.v & 0xFFE0) ^ 0x0400, ..self }
        } else {
            PpuView { v: (self.v + 1) as u16, ..self }
        }
    }

    /// Vertical scroll increment at dot 256: fine Y carries into coarse Y,
    /// which wraps at 29 into the other vertical nametable (or at 31
    /// without the switch). A no-op while rendering is disabled.
    pub open spec fn spec_inc_scroll_y(self) -> PpuView {
        if !self.spec_rendering_enabled() {
            self
        } else if self.v & 0x7000 != 0x7000 {
            PpuView { v: (self.v + 0x1000) as u16, ..self }
        } else {
            let v0 = self.v & 0x8FFF;
            let y = (v0 & 0x03E0) >> 5;
            let v1 = if y == 29 {
                v0 ^ 0x0800
            } else {
                v0
            };
            let y1: u16 = if y == 29 {
                0u16
            } else if y == 31 {
                0u16
            } else {
                (y + 1) as u16
            };
            PpuView { v: (v1 & 0xFC1F) | (y1 << 5), ..self }
        }
    }

    /// Copy the horizontal scroll bits of t into v at dot 257.
    pub open spec fn spec_transfer_x(self) -> PpuView {
        if !self.spec_rendering_enabled() {
            self
        } else {
            PpuView { v: (self.v & 0xFBE0) | (self.t & 0x041F), ..self }
        }
    }

    /// Copy the vertical scroll bits of t into v on the pre-render line.
    pub open spec fn spec_transfer_y(self) -> PpuView {
        if !self.spec_rendering_enabled() {
            self
        } else {
            PpuView { v: (self.v & 0x841F) | (self.t & 0x7BE0), ..self }
        }
    }

    /// Reload the low bytes of the background shift registers from the
    /// next-tile latches, expanding the 2-bit attribute to full bytes.
    pub open spec fn spec_reload_shifts(self) -> PpuView {
        let attr_bits = self.bg_next_tile_attr & 0x03;
        let palette_low: u16 = if attr_bits & 0x01 != 0 {
            0xFFu16
        } else {
            0x00u16
        };
        let palette_high: u16 = if attr_bits & 0x02 != 0 {
            0xFFu16
        } else {
            0x00u16
        };
        PpuView {
            bg_pattern_shift_low: (self.bg_pattern_shift_low & 0xFF00) | self.bg_next_tile_lsb
                as u16,
            bg_pattern_shift_high: (self.bg_pattern_shift_high & 0xFF00) | self.bg_next_tile_msb
                as u16,
            bg_palette_shift_low: (self.bg_palette_shift_low & 0xFF00) | palette_low,
            bg_palette_shift_high: (self.bg_palette_shift_high & 0xFF00) | palette_high,
            ..self
        }
    }

    /// The nametable entry the current v selects.
    pub open spec fn spec_fetch_nametable_byte(self, rom: Rom) -> u8 {
        self.spec_ppu_read(rom, 0x2000 | (self.v & 0x0FFF))
    }

    /// The 2-bit palette selection for the current tile's 2x2 quadrant of
    /// the attribute byte v points at.
    pub open spec fn spec_fetch_attribute(self, rom: Rom) -> u8 {
        let attribute = self.spec_ppu_read(
            rom,
            0x23C0 | (self.v & 0x0C00) | ((self.v >> 4) & 0x38) | ((self.v >> 2) & 0x07),
        );
        let coarse_x = self.v & 0x1F;
        let coarse_y = (self.v >> 5) & 0x1F;
        let shift = ((coarse_y & 0x02) << 1) | (coarse_x & 0x02);
        (attribute >> shift) & 0x03
    }

    /// The fine Y row within the current tile.
    pub open spec fn spec_fine_y(self) -> u8 {
        ((self.v >> 12) & 0x07) as u8
    }

    /// The low plane of the named tile's pattern row.
    pub open spec fn spec_fetch_pattern_low(self, rom: Rom, tile_id: u8, fine_y: u8) -> u8 {
        self.spec_ppu_read(
            rom,
            (self.spec_bg_pattern_table() + tile_id * 16 + (fine_y & 0x07)) as u16,
        )
    }

    /// The high plane of the named tile's pattern row.
    pub open spec fn spec_fetch_pattern_high(self, rom: Rom, tile_id: u8, fine_y: u8) -> u8 {
        self.spec_ppu_read(
            rom,
            (self.spec_bg_pattern_table() + tile_id * 16 + (fine_y & 0x07) + 8) as u16,
        )
    }

    /// The background contribution at the current dot: a 2-bit pixel and a
    /// 2-bit palette index muxed out of the shift registers by fine X, or
    /// zero when backgrounds are off or masked in the left column.
    pub open spec fn spec_bg_pixel(self) -> (u8, u8) {
        if !self.spec_show_background() {
            (0u8, 0u8)
        } else if self.pixel < 8 && !self.spec_show_background_left() {
            (0u8, 0u8)
        } else {
            let bit_mux = 0x8000u16 >> self.x;
            let p0: u8 = if self.bg_pattern_shift_low & bit_mux != 0 {
                1u8
            } else {
                0u8
            };
            let p1: u8 = if self.bg_pattern_shift_high & bit_mux != 0 {
                1u8
            } else {
                0u8
            };
            let pal0: u8 = if self.bg_palette_shift_low & bit_mux != 0 {
                1u8
            } else {
                0u8
            };
            let pal1: u8 = if self.bg_palette_shift_high & bit_mux != 0 {
                1u8
            } else {
                0u8
            };
            (((p1 << 1) | p0) as u8, ((pal1 << 1) | pal0) as u8)
        }
    }

    /// The sprite contribution at the current dot, scanning the slots from
    /// `i` up: the first slot covering this dot with an opaque pixel wins.
    /// Yields (pixel, palette, front priority, is sprite 0).
    pub open spec fn spec_sprite_pixel_from(self, i: int) -> (u8, u8, u8, bool)
        decreases self.sprite_count - i,
    {
        if i < 0 || i >= self.sprite_count || self.sprite_count > 8 {
            (0u8, 0u8, 0u8, false)
        } else {
            let sprite_x = self.sprite_positions[i];
            if self.pixel >= sprite_x as u16 && self.pixel < sprite_x as u16 + 8 {
                let offset = (self.pixel - sprite_x as u16) as u8;
                let bit_mux = 0x80u8 >> offset;
                let p0: u8 = if self.sprite_pattern_shift_low[i] & bit_mux != 0 {
                    1u8
                } else {
                    0u8
                };
                let p1: u8 = if self.sprite_pattern_shift_high[i] & bit_mux != 0 {
                    1u8
                } else {
                    0u8
                };
                let pixel = ((p1 << 1) | p0) as u8;
                if pixel != 0 {
                    let palette = ((self.sprite_priorities[i] & 0x03) + 4) as u8;
                    let priority: u8 = if self.sprite_priorities[i] & 0x20 == 0 {
                        1u8
                    } else {
                        0u8
                    };
                    let sprite_zero = self.sprite_zero_being_rendered && self.sprite_indices[i]
                        == 0;
                    (pixel, palette, priority, sprite_zero)
                } else {
                    self.spec_sprite_pixel_from(i + 1)
                }
            } else {
                self.spec_sprite_pixel_from(i + 1)
            }
        }
    }

    /// The sprite contribution at the current dot, or zero when sprites are
    /// off or masked in the left column.
    pub open spec fn spec_sprite_pixel(self) -> (u8, u8, u8, bool) {
        if !self.spec_show_sprites() {
            (0u8, 0u8, 0u8, false)
        } else if self.pixel < 8 && !self.spec_show_sprites_left() {
            (0u8, 0u8, 0u8, false)
        } else {
            self.spec_sprite_pixel_from(0)
        }
    }

    /// The palette RAM slot that colours (palette, pixel), after the
    /// universal-background and mirroring folds.
    pub open spec fn spec_color_index(self, palette: u8, pixel: u8) -> u8 {
        let addr: u16 = if pixel == 0 {
            0x3F00u16
        } else if palette < 4 {
            (0x3F00 + palette * 4 + pixel) as u16
        } else {
            (0x3F10 + (palette - 4) * 4 + pixel) as u16
        };
        let mirrored = addr & 0x1F;
        let raw = if mirrored == 0x10 || mirrored == 0x14 || mirrored == 0x18 || mirrored
            == 0x1C {
            self.palette_ram[(mirrored & 0x0F) as int]
        } else {
            self.palette_ram[mirrored as int]
        };
        if self.spec_is_greyscale() {
            raw & 0x30
        } else {
            raw
        }
    }

    /// The RGB colour of (palette, pixel) under the current palette RAM.
    pub open spec fn spec_color(self, palette: u8, pixel: u8) -> u32 {
        spec_palette_lookup()[(self.spec_color_index(palette, pixel) & 0x3F) as int]
    }
}

impl Ppu {
    fn increment_scroll_x(&mut self)
        ensures
            final(self)@ == old(self)@.spec_inc_scroll_x(),
    {
        if (self.reg_mask & 0x08) == 0 && (self.reg_mask & 0x10) == 0 {
            proof {
                assert(self@ =~= old(self)@.spec_inc_scroll_x());
            }
            return;
        }
        if (self.v & 0x001F) == 31 {
            self.v = self.v & 0xFFE0;
            self.v = self.v ^ 0x0400;
        } else {
            proof {
                crate::bits::lemma_u16_mask_1f(self.v);
            }
            self.v = self.v + 1;
        }
        proof {
            assert(self@ =~= old(self)@.spec_inc_scroll_x());
        }
    }

    fn increment_scroll_y(&mut self)
        ensures
            final(self)@ == old(self)@.spec_inc_scroll_y(),
    {
        if (self.reg_mask & 0x08) == 0 && (self.reg_mask & 0x10) == 0 {
            proof {
                assert(self@ =~= old(self)@.spec_inc_scroll_y());
            }
            return;
        }
        if (self.v & 0x7000) != 0x7000 {
            proof {
                let v = self.v;
                assert(v & 0x7000 != 0x7000 ==> v + 0x1000 <= 0xFFFF) by (bit_vector);
            }
            self.v = self.v + 0x1000;
        } else {
            self.v = self.v & 0x8FFF;
            let mut y = (self.v & 0x03E0) >> 5;
            if y == 29 {
                y = 0;
                self.v = self.v ^ 0x0800;
            } else if y == 31 {
                y = 0;
            } else {
                proof {
                    let v = self.v;
                    assert(((v & 0x03E0) >> 5) + 1 <= 0xFFFF) by (bit_vector);
                }
                y = y + 1;
            }
            self.v = (self.v & 0xFC1F) | (y << 5);
        }
        proof {
            assert(self@ =~= old(self)@.spec_inc_scroll_y());
        }
    }

    fn transfer_address_x(&mut self)
        ensures
            final(self)@ == old(self)@.spec_transfer_x(),
    {
        if (self.reg_mask & 0x08) == 0 && (self.reg_mask & 0x10) == 0 {
            proof {
                assert(self@ =~= old(self)@.spec_transfer_x());
            }
            return;
        }
        self.v = (self.v & 0xFBE0) | (self.t & 0x041F);
        proof {
            assert(self@ =~= old(self)@.spec_transfer_x());
        }
    }

    fn transfer_address_y(&mut self)
        ensures
            final(self)@ == old(self)@.spec_transfer_y(),
    {
        if (self.reg_mask & 0x08) == 0 && (self.reg_mask & 0x10) == 0 {
            proof {
                assert(self@ =~= old(self)@.spec_transfer_y());
            }
            return;
        }
        self.v = (self.v & 0x841F) | (self.t & 0x7BE0);
        proof {
            assert(self@ =~= old(self)@.spec_transfer_y());
        }
    }

    fn reload_shift_registers(&mut self)
        ensures
            final(self)@ == old(self)@.spec_reload_shifts(),
    {
        self.bg_pattern_shift_low = (self.bg_pattern_shift_low & 0xFF00) | (self.bg_next_tile_lsb
            as u16);
        self.bg_pattern_shift_high = (self.bg_pattern_shift_high & 0xFF00) | (self.bg_next_tile_msb
            as u16);
        let attr_bits = self.bg_next_tile_attr & 0x03;
        let palette_low: u16 = if attr_bits & 0x01 != 0 {
            0xFF
        } else {
            0x00
        };
        let palette_high: u16 = if attr_bits & 0x02 != 0 {
            0xFF
        } else {
            0x00
        };
        self.bg_palette_shift_low = (self.bg_palette_shift_low & 0xFF00) | palette_low;
        self.bg_palette_shift_high = (self.bg_palette_shift_high & 0xFF00) | palette_high;
        proof {
            assert(self@ =~= old(self)@.spec_reload_shifts());
        }
    }

    fn fetch_nametable_byte(&self, rom: &Rom) -> (r: u8)
        requires
            self@.wf(),
            rom.wf(),
        ensures
            r == self@.spec_fetch_nametable_byte(*rom),
    {
        let addr = 0x2000 | (self.v & 0x0FFF);
        self.ppu_read(rom, addr)
    }

    fn fetch_attribute_byte(&self, rom: &Rom) -> (r: u8)
        requires
            self@.wf(),
            rom.wf(),
        ensures
            r == self@.spec_fetch_attribute(*rom),
    {
        let addr = 0x23C0 | (self.v & 0x0C00) | ((self.v >> 4) & 0x38) | ((self.v >> 2) & 0x07);
        let attribute = self.ppu_read(rom, addr);
        let coarse_x = self.v & 0x1F;
        let coarse_y = (self.v >> 5) & 0x1F;
        let shift = ((coarse_y & 0x02) << 1) | (coarse_x & 0x02);
        proof {
            let v = self.v;
            assert(((((v >> 5) & 0x1F) & 0x02) << 1) | ((v & 0x1F) & 0x02) < 8) by (bit_vector);
        }
        (attribute >> shift) & 0x03
    }

    fn fetch_pattern_low(&self, rom: &Rom, tile_id: u8, fine_y: u8) -> (r: u8)
        requires
            self@.wf(),
            rom.wf(),
        ensures
            r == self@.spec_fetch_pattern_low(*rom, tile_id, fine_y),
    {
        let base = if self.reg_ctrl & 0x10 != 0 {
            0x1000u16
        } else {
            0x0000u16
        };
        let addr = base + (tile_id as u16) * 16 + ((fine_y & 0x07) as u16);
        self.ppu_read(rom, addr)
    }

    fn fetch_pattern_high(&self, rom: &Rom, tile_id: u8, fine_y: u8) -> (r: u8)
        requires
            self@.wf(),
            rom.wf(),
        ensures
            r == self@.spec_fetch_pattern_high(*rom, tile_id, fine_y),
    {
        let base = if self.reg_ctrl & 0x10 != 0 {
            0x1000u16
        } else {
            0x0000u16
        };
        let addr = base + (tile_id as u16) * 16 + ((fine_y & 0x07) as u16) + 8;
        self.ppu_read(rom, addr)
    }

    fn get_background_pixel(&self) -> (r: (u8, u8))
        requires
            self@.wf(),
        ensures
            r == self@.spec_bg_pixel(),
    {
        if (self.reg_mask & 0x08) == 0 {
            return (0, 0);
        }
        if self.pixel < 8 && (self.reg_mask & 0x02) == 0 {
            return (0, 0);
        }
        let bit_mux = 0x8000u16 >> self.x;
        let p0: u8 = if self.bg_pattern_shift_low & bit_mux != 0 {
            1
        } else {
            0
        };
        let p1: u8 = if self.bg_pattern_shift_high & bit_mux != 0 {
            1
        } else {
            0
        };
        let pal0: u8 = if self.bg_palette_shift_low & bit_mux != 0 {
            1
        } else {
            0
        };
        let pal1: u8 = if self.bg_palette_shift_high & bit_mux != 0 {
            1
        } else {
            0
        };
        ((p1 << 1) | p0, (pal1 << 1) | pal0)
    }

    fn get_sprite_pixel(&self) -> (r: (u8, u8, u8, bool))
        requires
            self@.wf(),
        ensures
            r == self@.spec_sprite_pixel(),
    {
        if (self.reg_mask & 0x10) == 0 {
            return (0, 0, 0, false);
        }
        if self.pixel < 8 && (self.reg_mask & 0x04) == 0 {
            return (0, 0, 0, false);
        }
        let mut i: usize = 0;
        while i < self.sprite_count
            invariant
                self@.wf(),
                i <= self.sprite_count,
                self@.spec_sprite_pixel_from(0) == self@.spec_sprite_pixel_from(i as int),
                self@.spec_show_sprites(),
                !(self@.pixel < 8 && !self@.spec_show_sprites_left()),
            decreases self.sprite_count - i,
        {
            let sprite_x = self.sprite_positions[i];
            if self.pixel >= sprite_x as u16 && self.pixel < sprite_x as u16 + 8 {
                let offset = (self.pixel - sprite_x as u16) as u8;
                let bit_mux = 0x80u8 >> offset;
                let p0: u8 = if self.sprite_pattern_shift_low[i] & bit_mux != 0 {
                    1
                } else {
                    0
                };
                let p1: u8 = if self.sprite_pattern_shift_high[i] & bit_mux != 0 {
                    1
                } else {
                    0
                };
                let pixel = (p1 << 1) | p0;
                if pixel != 0 {
                    let palette = (self.sprite_priorities[i] & 0x03) + 4;
                    let priority: u8 = if self.sprite_priorities[i] & 0x20 == 0 {
                        1
                    } else {
                        0
                    };
                    let sprite_zero = self.sprite_zero_being_rendered && self.sprite_indices[i]
                        == 0;
                    return (pixel, palette, priority, sprite_zero);
                }
            }
            i = i + 1;
        }
        return (0, 0, 0, false);
    }

    fn get_color_from_palette(&self, palette: u8, pixel: u8) -> (r: u32)
        requires
            self@.wf(),
        ensures
            r == self@.spec_color(palette, pixel),
    {
        let addr: u16 = if pixel == 0 {
            0x3F00
        } else if palette < 4 {
            0x3F00 + (palette as u16) * 4 + (pixel as u16)
        } else {
            0x3F10 + ((palette - 4) as u16) * 4 + (pixel as u16)
        };
        let mirrored = addr & 0x1F;
        let mut palette_index = self.palette_ram[mirrored as usize];
        if mirrored == 0x10 || mirrored == 0x14 || mirrored == 0x18 || mirrored == 0x1C {
            palette_index = self.palette_ram[(mirrored & 0x0F) as usize];
        }
        if self.reg_mask & 0x01 != 0 {
            palette_index = palette_index & 0x30;
        }
        proof {
            crate::bits::lemma_u8_mask_3f(palette_index);
        }
        palette_rgb(palette_index & 0x3F)
    }
}


impl PpuView {
    /// One sprite's evaluation step while preparing the next scanline: if
    /// OAM entry `i` covers it, either load its pattern row (flips applied)
    /// into the next free slot, or set the overflow flag once eight slots
    /// are taken.
    pub open spec fn spec_eval_one(self, rom: Rom, i: int) -> PpuView {
        let sprite_y = self.oam_ram[4 * i] as u16;
        let tile_id = self.oam_ram[4 * i + 1];
        let attributes = self.oam_ram[4 * i + 2];
        let sprite_x = self.oam_ram[4 * i + 3];
        let next_scanline: u16 = if self.scanline == 261 {
            0u16
        } else {
            (self.scanline + 1) as u16
        };
        let sprite_height: u16 = if self.reg_ctrl & 0x20 != 0 {
            16u16
        } else {
            8u16
        };
        let diff = u16_specs::wrapping_sub(next_scanline, sprite_y);
        if diff < sprite_height {
            if self.sprite_count < 8 {
                let row: u16 = if attributes & 0x80 != 0 {
                    (sprite_height - 1 - diff) as u16
                } else {
                    diff
                };
                let pattern_addr: u16 = if sprite_height == 8 {
                    (self.spec_sprite_pattern_table() + tile_id * 16 + row) as u16
                } else {
                    (((tile_id & 0x01) as u16) * 0x1000 + ((tile_id & 0xFE) as u16) * 16 + (
                    if row >= 8 {
                        (row + 8) as u16
                    } else {
                        row
                    })) as u16
                };
                let plo0 = self.spec_ppu_read(rom, pattern_addr);
                let phi0 = self.spec_ppu_read(rom, (pattern_addr + 8) as u16);
                let plo = if attributes & 0x40 != 0 {
                    spec_reverse_bits(plo0)
                } else {
                    plo0
                };
                let phi = if attributes & 0x40 != 0 {
                    spec_reverse_bits(phi0)
                } else {
                    phi0
                };
                PpuView {
                    sprite_zero_being_rendered: if i == 0 {
                        true
                    } else {
                        self.sprite_zero_being_rendered
                    },
                    sprite_pattern_shift_low: self.sprite_pattern_shift_low.update(
                        self.sprite_count as int,
                        plo,
                    ),
                    sprite_pattern_shift_high: self.sprite_pattern_shift_high.update(
                        self.sprite_count as int,
                        phi,
                    ),
                    sprite_positions: self.sprite_positions.update(self.sprite_count as int, sprite_x),
                    sprite_priorities: self.sprite_priorities.update(
                        self.sprite_count as int,
                        attributes,
                    ),
                    sprite_indices: self.sprite_indices.update(self.sprite_count as int, i as u8),
                    sprite_count: (self.sprite_count + 1) as usize,
                    ..self
                }
            } else {
                PpuView { reg_status: self.reg_status | 0x20, ..self }
            }
        } else {
            self
        }
    }

    /// Sprite evaluation from OAM entry `i` to the end.
    pub open spec fn spec_eval_from(self, rom: Rom, i: int) -> PpuView
        decreases 64 - i,
    {
        if i < 0 || i >= 64 {
            self
        } else {
            self.spec_eval_one(rom, i).spec_eval_from(rom, i + 1)
        }
    }

    /// The whole dot-257 sprite evaluation: reset the slot count and the
    /// sprite-0 marker, then scan all 64 OAM entries.
    pub open spec fn spec_evaluate_sprites(self, rom: Rom) -> PpuView {
        (PpuView { sprite_count: 0usize, sprite_zero_being_rendered: false, ..self }).spec_eval_from(
            rom,
            0,
        )
    }

    /// The shift stage of one dot: during the fetch columns of visible and
    /// pre-render lines, all four background shift registers move one bit.
    pub open spec fn spec_shift_phase(self) -> PpuView {
        if (self.scanline < 240 || self.scanline == 261) && self.spec_rendering_enabled() && ((1
            <= self.pixel && self.pixel <= 256) || (321 <= self.pixel && self.pixel <= 336)) {
            PpuView {
                bg_pattern_shift_low: self.bg_pattern_shift_low << 1,
                bg_pattern_shift_high: self.bg_pattern_shift_high << 1,
                bg_palette_shift_low: self.bg_palette_shift_low << 1,
                bg_palette_shift_high: self.bg_palette_shift_high << 1,
                ..self
            }
        } else {
            self
        }
    }

    /// The pixel-output stage of one dot: on visible dots with rendering
    /// on, multiplex background against sprites (sprite priority bit
    /// deciding overlaps), record a sprite-0 hit when both are opaque
    /// under the mask rules, and write the colour to the framebuffer.
    pub open spec fn spec_render_phase(self) -> PpuView {
        if self.scanline < 240 && 0 < self.pixel && self.pixel <= 256
            && self.spec_rendering_enabled() {
            let bg = self.spec_bg_pixel();
            let sp = self.spec_sprite_pixel();
            let hit = sp.3 && bg.0 > 0 && sp.0 > 0 && ((self.spec_show_background_left()
                && self.spec_show_sprites_left()) || self.pixel >= 9) && self.pixel < 255;
            let st = if hit {
                self.reg_status | 0x40
            } else {
                self.reg_status
            };
            let muxed: (u8, u8) = if bg.0 == 0 && sp.0 == 0 {
                (0u8, 0u8)
            } else if bg.0 == 0 {
                (sp.0, sp.1)
            } else if sp.0 == 0 {
                (bg.0, bg.1)
            } else if sp.2 != 0 {
                (sp.0, sp.1)
            } else {
                (bg.0, bg.1)
            };
            let color = self.spec_color(muxed.1, muxed.0);
            PpuView {
                reg_status: st,
                gbuffer: self.gbuffer.update(self.pixel - 1 + self.scanline * 256, color),
                ..self
            }
        } else {
            self
        }
    }

    /// The fetch stage of one dot: the 8-dot background tile cadence
    /// (reload and nametable byte, attribute, low plane, high plane,
    /// horizontal increment), the vertical increment at dot 256, and the
    /// horizontal transfer plus sprite evaluation at dot 257.
    pub open spec fn spec_fetch_cadence(self, rom: Rom) -> PpuView {
        if (1 <= self.pixel && self.pixel <= 256) || (321 <= self.pixel && self.pixel <= 336) {
            let ph = (self.pixel - 1) % 8;
            if ph == 0 {
                let r = self.spec_reload_shifts();
                PpuView { bg_next_tile_id: r.spec_fetch_nametable_byte(rom), ..r }
            } else if ph == 2 {
                PpuView { bg_next_tile_attr: self.spec_fetch_attribute(rom), ..self }
            } else if ph == 4 {
                PpuView {
                    bg_next_tile_lsb: self.spec_fetch_pattern_low(
                            rom,
                            self.bg_next_tile_id,
                            self.spec_fine_y(),
                        ),
                        ..self
                    }
            } else if ph == 6 {
                PpuView {
                    bg_next_tile_msb: self.spec_fetch_pattern_high(
                            rom,
                            self.bg_next_tile_id,
                            self.spec_fine_y(),
                        ),
                        ..self
                    }
            } else if ph == 7 {
                self.spec_inc_scroll_x()
            } else {
                self
            }
        } else {
            self
        }
    }

    /// The fetch stage of one dot: the tile cadence, then the vertical
    /// increment at dot 256, then the horizontal transfer and sprite
    /// evaluation at dot 257.
    pub open spec fn spec_fetch_phase(self, rom: Rom) -> PpuView {
        if (self.scanline < 240 || self.scanline == 261) && self.spec_rendering_enabled() {
            let a = self.spec_fetch_cadence(rom);
            let b = if a.pixel == 256 {
                a.spec_inc_scroll_y()
            } else {
                a
            };
            if b.pixel == 257 {
                let t = b.spec_transfer_x();
                if t.scanline < 240 {
                    t.spec_evaluate_sprites(rom)
                } else {
                    t
                }
            } else {
                b
            }
        } else {
            self
        }
    }

    /// The pre-render stage: dot 1 of line 261 clears VBlank, sprite-0 hit
    /// and overflow; dots 280-304 copy the vertical scroll bits back.
    pub open spec fn spec_prerender_phase(self) -> PpuView {
        if self.scanline == 261 {
            let a = if self.pixel == 1 {
                PpuView { reg_status: ((self.reg_status & 0x7F) & 0xBF) & 0xDF, ..self }
            } else {
                self
            };
            if a.spec_rendering_enabled() && 280 <= a.pixel && a.pixel <= 304 {
                a.spec_transfer_y()
            } else {
                a
            }
        } else {
            self
        }
    }

    /// The VBlank stage: dot 1 of line 241 sets the VBlank flag and, if
    /// PPUCTRL enables it, latches the one-shot NMI edge.
    pub open spec fn spec_vblank_phase(self) -> PpuView {
        if self.scanline == 241 && self.pixel == 1 {
            PpuView {
                nmi_triggered: if self.spec_should_trigger_nmi() {
                    true
                } else {
                    self.nmi_triggered
                },
                reg_status: self.reg_status | PPU_STATUS_VBLANK_BIT,
                ..self
            }
        } else {
            self
        }
    }

    /// The counter stage: the dot advances, wrapping at 341 into the next
    /// scanline and at 262 into the next frame.
    pub open spec fn spec_advance(self) -> PpuView {
        if self.pixel + 1 > 340 {
            if self.scanline + 1 > 261 {
                PpuView { pixel: 0u16, scanline: 0u16, ..self }
            } else {
                PpuView { pixel: 0u16, scanline: (self.scanline + 1) as u16, ..self }
            }
        } else {
            PpuView { pixel: (self.pixel + 1) as u16, ..self }
        }
    }

    /// One dot of the PPU: shift, render, fetch, pre-render and VBlank
    /// stages in order, then the counters advance.
    pub open spec fn spec_tick(self, rom: Rom) -> PpuView {
        self.spec_shift_phase().spec_render_phase().spec_fetch_phase(
            rom,
        ).spec_prerender_phase().spec_vblank_phase().spec_advance()
    }
}

impl Ppu {
    /// Scan OAM for the sprites on the next scanline, loading the first
    /// eight into the sprite slots and flagging overflow past them.
    #[verifier::rlimit(100)]
    #[verifier::spinoff_prover]
    fn evaluate_sprites(&mut self, rom: &Rom)
        requires
            old(self)@.wf(),
            rom.wf(),
        ensures
            final(self)@.wf(),
            final(self)@ == old(self)@.spec_evaluate_sprites(*rom),
    {
        self.sprite_count = 0;
        self.sprite_zero_being_rendered = false;
        let ghost init = self@;
        proof {
            assert(init =~= (PpuView {
                sprite_count: 0usize,
                sprite_zero_being_rendered: false,
                ..old(self)@
            }));
        }
        let mut i: usize = 0;
        while i < 64
            invariant
                self@.wf(),
                rom.wf(),
                i <= 64,
                self@.scanline == init.scanline,
                self@.spec_eval_from(*rom, i as int) == init.spec_eval_from(*rom, 0),
            decreases 64 - i,
        {
            let ghost pre = self@;
            let oam_offset = i * 4;
            let sprite_y = self.oam_ram[oam_offset] as u16;
            let tile_id = self.oam_ram[oam_offset + 1];
            let attributes = self.oam_ram[oam_offset + 2];
            let sprite_x = self.oam_ram[oam_offset + 3];
            let next_scanline: u16 = if self.scanline == 261 {
                0
            } else {
                self.scanline + 1
            };
            let sprite_height: u16 = if self.reg_ctrl & 0x20 != 0 {
                16
            } else {
                8
            };
            let diff = next_scanline.wrapping_sub(sprite_y);
            if diff < sprite_height {
                if self.sprite_count < 8 {
                    if i == 0 {
                        self.sprite_zero_being_rendered = true;
                    }
                    let mut row = diff;
                    if attributes & 0x80 != 0 {
                        row = sprite_height - 1 - row;
                    }
                    let pattern_addr: u16 = if sprite_height == 8 {
                        let base = if self.reg_ctrl & 0x08 != 0 {
                            0x1000u16
                        } else {
                            0x0000u16
                        };
                        base + (tile_id as u16) * 16 + row
                    } else {
                        proof {
                            assert(tile_id & 0x01 <= 1 && tile_id & 0xFE <= 0xFE) by (bit_vector);
                        }
                        let table = ((tile_id & 0x01) as u16) * 0x1000;
                        let tile = ((tile_id & 0xFE) as u16) * 16;
                        table + tile + (if row >= 8 {
                            row + 8
                        } else {
                            row
                        })
                    };
                    let mut pattern_low = self.ppu_read(rom, pattern_addr);
                    let mut pattern_high = self.ppu_read(rom, pattern_addr + 8);
                    if attributes & 0x40 != 0 {
                        pattern_low = reverse_bits_u8(pattern_low);
                        pattern_high = reverse_bits_u8(pattern_high);
                    }
                    let c = self.sprite_count;
                    self.sprite_pattern_shift_low.set(c, pattern_low);
                    self.sprite_pattern_shift_high.set(c, pattern_high);
                    self.sprite_positions.set(c, sprite_x);
                    self.sprite_priorities.set(c, attributes);
                    self.sprite_indices.set(c, i as u8);
                    self.sprite_count = c + 1;
                } else {
                    self.reg_status = self.reg_status | 0x20;
                }
            }
            proof {
                assert(self@ =~= pre.spec_eval_one(*rom, i as int));
            }
            i = i + 1;
        }
        proof {
            assert(self@ == init.spec_eval_from(*rom, 0));
            assert(final(self)@ == old(self)@.spec_evaluate_sprites(*rom));
        }
    }

    /// The shift stage of `tick`.
    fn tick_shift(&mut self)
        requires
            old(self)@.wf(),
        ensures
            final(self)@.wf(),
            final(self)@ == old(self)@.spec_shift_phase(),
    {
        let rendering_enabled = (self.reg_mask & 0x08) != 0 || (self.reg_mask & 0x10) != 0;
        if (self.scanline < 240 || self.scanline == 261) && rendering_enabled {
            if (self.pixel >= 1 && self.pixel <= 256) || (self.pixel >= 321 && self.pixel <= 336) {
                self.bg_pattern_shift_low = self.bg_pattern_shift_low << 1u16;
                self.bg_pattern_shift_high = self.bg_pattern_shift_high << 1u16;
                self.bg_palette_shift_low = self.bg_palette_shift_low << 1u16;
                self.bg_palette_shift_high = self.bg_palette_shift_high << 1u16;
            }
        }
        proof {
            assert(self@ =~= old(self)@.spec_shift_phase());
        }
    }

    /// The pixel-output stage of `tick`.
    fn tick_render(&mut self)
        requires
            old(self)@.wf(),
        ensures
            final(self)@.wf(),
            final(self)@ == old(self)@.spec_render_phase(),
    {
        let rendering_enabled = (self.reg_mask & 0x08) != 0 || (self.reg_mask & 0x10) != 0;
        if self.scanline < 240 && self.pixel > 0 && self.pixel <= 256 && rendering_enabled {
            let bg = self.get_background_pixel();
            let sp = self.get_sprite_pixel();
            let (bg_pixel, bg_palette) = bg;
            let (sprite_pixel, sprite_palette, sprite_priority, is_sprite_zero) = sp;
            if is_sprite_zero && bg_pixel > 0 && sprite_pixel > 0 {
                let leftmost_ok = ((self.reg_mask & 0x02) != 0 && (self.reg_mask & 0x04) != 0)
                    || self.pixel >= 9;
                if leftmost_ok && self.pixel < 255 {
                    self.reg_status = self.reg_status | 0x40;
                }
            }
            let muxed: (u8, u8) = if bg_pixel == 0 && sprite_pixel == 0 {
                (0, 0)
            } else if bg_pixel == 0 {
                (sprite_pixel, sprite_palette)
            } else if sprite_pixel == 0 {
                (bg_pixel, bg_palette)
            } else if sprite_priority != 0 {
                (sprite_pixel, sprite_palette)
            } else {
                (bg_pixel, bg_palette)
            };
            let color = self.get_color_from_palette(muxed.1, muxed.0);
            let offset = (self.pixel - 1) as usize + (self.scanline as usize) * 256;
            self.gbuffer.set(offset, color);
        }
        proof {
            assert(self@ =~= old(self)@.spec_render_phase());
        }
    }

    /// The 8-dot background tile cadence of the fetch stage.
    fn tick_fetch_cadence(&mut self, rom: &Rom)
        requires
            old(self)@.wf(),
            rom.wf(),
        ensures
            final(self)@.wf(),
            final(self)@ == old(self)@.spec_fetch_cadence(*rom),
    {
        if (self.pixel >= 1 && self.pixel <= 256) || (self.pixel >= 321 && self.pixel <= 336) {
            let phase = (self.pixel - 1) % 8;
            if phase == 0 {
                self.reload_shift_registers();
                let b = self.fetch_nametable_byte(rom);
                self.bg_next_tile_id = b;
            } else if phase == 2 {
                let b = self.fetch_attribute_byte(rom);
                self.bg_next_tile_attr = b;
            } else if phase == 4 {
                let fine_y = ((self.v >> 12) & 0x07) as u8;
                let b = self.fetch_pattern_low(rom, self.bg_next_tile_id, fine_y);
                self.bg_next_tile_lsb = b;
            } else if phase == 6 {
                let fine_y = ((self.v >> 12) & 0x07) as u8;
                let b = self.fetch_pattern_high(rom, self.bg_next_tile_id, fine_y);
                self.bg_next_tile_msb = b;
            } else if phase == 7 {
                self.increment_scroll_x();
            }
        }
        proof {
            assert(self@ =~= old(self)@.spec_fetch_cadence(*rom));
        }
    }

    /// The tile-fetch stage of `tick`.
    fn tick_fetch(&mut self, rom: &Rom)
        requires
            old(self)@.wf(),
            rom.wf(),
        ensures
            final(self)@.wf(),
            final(self)@ == old(self)@.spec_fetch_phase(*rom),
    {
        let rendering_enabled = (self.reg_mask & 0x08) != 0 || (self.reg_mask & 0x10) != 0;
        if (self.scanline < 240 || self.scanline == 261) && rendering_enabled {
            self.tick_fetch_cadence(rom);
            if self.pixel == 256 {
                self.increment_scroll_y();
            }
            if self.pixel == 257 {
                self.transfer_address_x();
                if self.scanline < 240 {
                    self.evaluate_sprites(rom);
                }
            }
        }
        proof {
            assert(self@ =~= old(self)@.spec_fetch_phase(*rom));
        }
    }

    /// The pre-render and VBlank stages and the counter advance of `tick`.
    fn tick_frame_edges(&mut self)
        requires
            old(self)@.wf(),
        ensures
            final(self)@.wf(),
            final(self)@ == old(self)@.spec_prerender_phase().spec_vblank_phase().spec_advance(),
    {
        let rendering_enabled = (self.reg_mask & 0x08) != 0 || (self.reg_mask & 0x10) != 0;
        if self.scanline == 261 {
            if self.pixel == 1 {
                self.reg_status = self.reg_status & 0x7F;
                self.reg_status = self.reg_status & 0xBF;
                self.reg_status = self.reg_status & 0xDF;
            }
            if rendering_enabled && self.pixel >= 280 && self.pixel <= 304 {
                self.transfer_address_y();
            }
        }
        proof {
            assert(self@ =~= old(self)@.spec_prerender_phase());
        }
        let ghost s4 = self@;

        if self.scanline == 241 && self.pixel == 1 {
            if self.reg_ctrl & PPU_CTRL_NMI_TRIGGER_BIT != 0 {
                self.nmi_triggered = true;
            }
            self.reg_status = self.reg_status | PPU_STATUS_VBLANK_BIT;
        }
        proof {
            assert(self@ =~= s4.spec_vblank_phase());
        }
        let ghost s5 = self@;

        self.pixel = self.pixel + 1;
        if self.pixel > 340 {
            self.pixel = 0;
            self.scanline = self.scanline + 1;
            if self.scanline > 261 {
                self.scanline = 0;
            }
        }
        proof {
            assert(self@ =~= s5.spec_advance());
        }
    }

    /// One dot of the PPU pipeline: shift the background registers, output
    /// a pixel on visible dots, run the tile-fetch cadence and the scroll
    /// and sprite machinery, handle the pre-render clears and the VBlank
    /// rise, and advance the dot and scanline counters.
    pub fn tick(&mut self, rom: &Rom)
        requires
            old(self)@.wf(),
            rom.wf(),
        ensures
            final(self)@.wf(),
            final(self)@ == old(self)@.spec_tick(*rom),
    {
        self.tick_shift();
        self.tick_render();
        self.tick_fetch(rom);
        self.tick_frame_edges();
    }
}

/// Palette folding: a write through 0x3F10 lands in the entry that
/// 0x3F00 reads, so with greyscale off the written value (a 6-bit palette
/// index) reads straight back.
pub proof fn lemma_palette_folding(p: PpuView, rom: Rom, v: u8)
    requires
        p.wf(),
        v < 0x40,
        !p.spec_is_greyscale(),
    ensures
        p.spec_ppu_write(0x3F10, v).spec_ppu_read(rom, 0x3F00) == v,
{
    assert(0x3F10u16 & 0x1F == 0x10 && 0x3F00u16 & 0x1F == 0 && 0x10u16 & 0x0F == 0)
        by (bit_vector);
    assert(v < 0x40 ==> v & 0x3F == v) by (bit_vector);
}

/// Sprite evaluation moves no dot or scanline counter and leaves the
/// VBlank bit alone (it can only set the overflow bit).
pub proof fn lemma_eval_from_counters(p: PpuView, rom: Rom, i: int)
    ensures
        p.spec_eval_from(rom, i).pixel == p.pixel,
        p.spec_eval_from(rom, i).scanline == p.scanline,
        p.spec_eval_from(rom, i).reg_status & 0x80 == p.reg_status & 0x80,
    decreases 64 - i,
{
    if 0 <= i && i < 64 {
        let q = p.spec_eval_one(rom, i);
        assert(forall|st: u8| #[trigger] ((st | 0x20) & 0x80) == st & 0x80) by (bit_vector);
        lemma_eval_from_counters(q, rom, i + 1);
    }
}

/// Frame cadence: every dot advances the frame position (scanline times
/// 341 plus dot) by exactly one, modulo the 341 x 262 = 89342 dots of a
/// frame, and the VBlank flag rises exactly at dot 1 of scanline 241. So
/// exactly 89342 dots elapse between consecutive VBlank rises.
pub proof fn lemma_frame_cadence(p: PpuView, rom: Rom)
    requires
        p.wf(),
    ensures
        ({
            let q = p.spec_tick(rom);
            &&& q.scanline * 341 + q.pixel == (p.scanline * 341 + p.pixel + 1) % 89342
            &&& ((q.spec_is_vblank() && !p.spec_is_vblank()) <==> (p.scanline == 241 && p.pixel
                == 1 && !p.spec_is_vblank()))
        }),
{
    assert(forall|st: u8|
        #![trigger st | 0x40]
        #![trigger st | 0x80]
        #![trigger ((st & 0x7F) & 0xBF) & 0xDF]
        (st | 0x40) & 0x80 == st & 0x80 && (st | 0x80) & 0x80 != 0 && (((st & 0x7F) & 0xBF)
            & 0xDF) & 0x80 == 0) by (bit_vector);
    let s1 = p.spec_shift_phase();
    let s2 = s1.spec_render_phase();
    let s3 = s2.spec_fetch_phase(rom);
    let s4 = s3.spec_prerender_phase();
    let s5 = s4.spec_vblank_phase();
    assert(s1.pixel == p.pixel && s1.scanline == p.scanline && s1.reg_status == p.reg_status);
    assert(s2.pixel == p.pixel && s2.scanline == p.scanline && s2.reg_status & 0x80 == p.reg_status
        & 0x80);
    if (s2.scanline < 240 || s2.scanline == 261) && s2.spec_rendering_enabled() {
        let a = s2.spec_fetch_cadence(rom);
        assert(a.pixel == s2.pixel && a.scanline == s2.scanline && a.reg_status == s2.reg_status);
        let b = if a.pixel == 256 {
            a.spec_inc_scroll_y()
        } else {
            a
        };
        assert(b.pixel == a.pixel && b.scanline == a.scanline && b.reg_status == a.reg_status);
        if b.pixel == 257 {
            let t = b.spec_transfer_x();
            if t.scanline < 240 {
                lemma_eval_from_counters(
                    PpuView { sprite_count: 0usize, sprite_zero_being_rendered: false, ..t },
                    rom,
                    0,
                );
            }
        }
    }
    assert(s3.pixel == p.pixel && s3.scanline == p.scanline && s3.reg_status & 0x80 == p.reg_status
        & 0x80);
    assert(s4.pixel == p.pixel && s4.scanline == p.scanline);
    assert(s5.pixel == p.pixel && s5.scanline == p.scanline);
    let q = p.spec_tick(rom);
    if p.pixel + 1 > 340 {
        assert(p.pixel == 340);
        if p.scanline + 1 > 261 {
            assert(p.scanline == 261);
            assert((261 * 341 + 340 + 1) % 89342 == 0);
        } else {
            assert(p.scanline * 341 + p.pixel + 1 < 89342);
        }
    } else {
        assert(p.scanline * 341 + p.pixel + 1 < 89342);
    }
}

} // verus!

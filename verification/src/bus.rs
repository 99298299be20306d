//! The CPU-side memory bus: 2 KiB work RAM mirrored through 0x0000-0x1FFF,
//! the PPU register window at 0x2000-0x3FFF, the controller port, the OAM
//! DMA trigger at 0x4014, cartridge work RAM at 0x6000-0x7FFF, and PRG space
//! above 0x8000.

use vstd::prelude::*;
use crate::controller::Controller;
use crate::ppu::Ppu;
use crate::ppu::PpuView;
use crate::rom::Rom;

verus! {

broadcast use {crate::bits::lemma_u16_mask_7, crate::bits::lemma_u16_mask_7ff,
    crate::bits::lemma_u16_mask_1fff};

/// The bus state in spec form.
#[verifier::ext_equal]
pub ghost struct BusView {
    pub ram2k: Seq<u8>,
    pub workram: Seq<u8>,
    pub controller: Controller,
    pub rom: Rom,
    pub ppu: PpuView,
    pub dma_cycles: u16,
    pub cpu_odd_cycle: bool,
}

/// The memory bus. It owns work RAM, the controller, the cartridge and the
/// PPU; the CPU reaches all of them through `read_ram` and `write_ram`.
pub struct Bus {
    pub ram2k: Vec<u8>,
    pub workram: Vec<u8>,
    pub controller: Controller,
    pub rom: Rom,
    pub ppu: Ppu,
    pub dma_cycles: u16,
    pub cpu_odd_cycle: bool,
}

impl View for Bus {
    type V = BusView;

    open spec fn view(&self) -> BusView {
        BusView {
            ram2k: self.ram2k@,
            workram: self.workram@,
            controller: self.controller,
            rom: self.rom,
            ppu: self.ppu@,
            dma_cycles: self.dma_cycles,
            cpu_odd_cycle: self.cpu_odd_cycle,
        }
    }
}

impl BusView {
    pub open spec fn wf(self) -> bool {
        &&& self.ram2k.len() == 0x800
        &&& self.workram.len() == 0x2000
        &&& self.controller.wf()
        &&& self.rom.wf()
        &&& self.ppu.wf()
    }

    /// The byte a CPU read of `location` returns.
    #[verifier::opaque]
    pub open spec fn spec_read_value(self, location: u16) -> u8 {
        if location < 0x2000 {
            self.ram2k[(location & 0x7FF) as int]
        } else if location < 0x4000 {
            self.ppu.spec_reg_read_value(self.rom, (location & 0x7) as u8)
        } else if location == 0x4016 {
            self.controller.spec_read_result()
        } else if location == 0x4017 {
            0x40u8
        } else if location < 0x6000 {
            0u8
        } else if location < 0x8000 {
            self.workram[(location & 0x1FFF) as int]
        } else {
            self.rom.spec_read_prg(location)
        }
    }

    /// The bus state after a CPU read of `location`: reads in the PPU
    /// window and of the controller port have side effects, all others
    /// leave the bus unchanged.
    #[verifier::opaque]
    pub open spec fn spec_read_state(self, location: u16) -> BusView {
        if location < 0x2000 {
            self
        } else if location < 0x4000 {
            BusView {
                ppu: self.ppu.spec_reg_read_state(self.rom, (location & 0x7) as u8),
                ..self
            }
        } else if location == 0x4016 {
            BusView { controller: self.controller.spec_after_read(), ..self }
        } else {
            self
        }
    }

    /// The byte the side-effect-free inspection path returns: the raw PPU
    /// register copies, zero for the whole I/O block, and memory otherwise.
    #[verifier::opaque]
    pub open spec fn spec_read_debug(self, location: u16) -> u8 {
        if location < 0x2000 {
            self.ram2k[(location & 0x7FF) as int]
        } else if location < 0x4000 {
            self.ppu.spec_reg_peek((location & 0x7) as u8)
        } else if location < 0x6000 {
            0u8
        } else if location < 0x8000 {
            self.workram[(location & 0x1FFF) as int]
        } else {
            self.rom.spec_read_prg(location)
        }
    }

    /// One byte of the OAM DMA copy: read `addr` through the bus (with any
    /// side effects) and store the byte at OAM index `i`.
    pub open spec fn spec_dma_step(self, addr: u16, i: int) -> BusView {
        let val = self.spec_read_value(addr);
        let b1 = self.spec_read_state(addr);
        BusView { ppu: PpuView { oam_ram: b1.ppu.oam_ram.update(i, val), ..b1.ppu }, ..b1 }
    }

    /// The OAM DMA copy from byte `i` on, out of the page starting at
    /// `start`.
    pub open spec fn spec_dma_from(self, start: u16, i: int) -> BusView
        decreases 256 - i,
    {
        if i < 0 || i >= 256 {
            self
        } else {
            self.spec_dma_step((start + i) as u16, i).spec_dma_from(start, i + 1)
        }
    }

    /// The whole DMA transfer a write of `value` to 0x4014 performs: 256
    /// bytes from page `value` into OAM, and a CPU stall of 513 cycles (514
    /// when triggered on an odd CPU cycle).
    pub open spec fn spec_dma(self, value: u8) -> BusView {
        BusView {
            dma_cycles: if self.cpu_odd_cycle {
                514u16
            } else {
                513u16
            },
            ..self.spec_dma_from((value as u16) << 8, 0)
        }
    }

    /// The bus state after a CPU write of `value` to `location`.
    #[verifier::opaque]
    pub open spec fn spec_write_state(self, location: u16, value: u8) -> BusView {
        if location < 0x2000 {
            BusView { ram2k: self.ram2k.update((location & 0x7FF) as int, value), ..self }
        } else if location < 0x4000 {
            BusView { ppu: self.ppu.spec_reg_write_state((location & 0x7) as u8, value), ..self }
        } else if location == 0x4014 {
            self.spec_dma(value)
        } else if location == 0x4016 {
            BusView { controller: self.controller.spec_after_write(value), ..self }
        } else if location < 0x6000 {
            self
        } else if location < 0x8000 {
            BusView { workram: self.workram.update((location & 0x1FFF) as int, value), ..self }
        } else {
            self
        }
    }
}

impl Bus {
    pub fn new() -> (b: Bus)
        ensures
            b@.wf(),
            b@ == (BusView {
                ram2k: Seq::new(0x800, |i: int| 0u8),
                workram: Seq::new(0x2000, |i: int| 0u8),
                controller: Controller::spec_new(),
                rom: b@.rom,
                ppu: PpuView::spec_new(),
                dma_cycles: 0u16,
                cpu_odd_cycle: false,
            }),
            b@.rom.wf(),
            b@.rom.prg@ == Seq::new(262144, |i: int| 0u8),
            b@.rom.chr@ == Seq::new(131072, |i: int| 0u8),
            b@.rom.prg_bank_count == 0,
    {
        let b = Self {
            ram2k: crate::rom::zero_vec(0x800),
            workram: crate::rom::zero_vec(0x2000),
            controller: Controller::new(),
            rom: Rom::new(),
            ppu: Ppu::new(),
            dma_cycles: 0,
            cpu_odd_cycle: false,
        };
        proof {
            assert(b@ =~= (BusView {
                ram2k: Seq::new(0x800, |i: int| 0u8),
                workram: Seq::new(0x2000, |i: int| 0u8),
                controller: Controller::spec_new(),
                rom: b@.rom,
                ppu: PpuView::spec_new(),
                dma_cycles: 0u16,
                cpu_odd_cycle: false,
            }));
        }
        b
    }

    /// A CPU read, with the documented side effects in the PPU window and
    /// on the controller port.
    #[verifier::spinoff_prover]
    pub fn read_ram(&mut self, location: u16) -> (r: u8)
        requires
            old(self)@.wf(),
        ensures
            final(self)@.wf(),
            r == old(self)@.spec_read_value(location),
            final(self)@ == old(self)@.spec_read_state(location),
    {
        if location < 0x2000 {
            let r = self.ram2k[(location & 0x7FF) as usize];
            proof {
                reveal(BusView::spec_read_value);
                reveal(BusView::spec_read_state);
                assert(r == old(self)@.spec_read_value(location));
                assert(self@ =~= old(self)@.spec_read_state(location));
            }
            return r;
        } else if location < 0x4000 {
            let r = self.ppu.cpuRead(&self.rom, (location & 0x7) as u8);
            proof {
                reveal(BusView::spec_read_value);
                reveal(BusView::spec_read_state);
                assert(r == old(self)@.spec_read_value(location));
                assert(self@ =~= old(self)@.spec_read_state(location));
            }
            return r;
        } else if location == 0x4016 {
            let r = self.controller.read();
            proof {
                reveal(BusView::spec_read_value);
                reveal(BusView::spec_read_state);
                assert(r == old(self)@.spec_read_value(location));
                assert(self@ =~= old(self)@.spec_read_state(location));
            }
            return r;
        } else if location == 0x4017 {
            proof {
                reveal(BusView::spec_read_value);
                reveal(BusView::spec_read_state);
                assert(0x40u8 == old(self)@.spec_read_value(location));
                assert(self@ =~= old(self)@.spec_read_state(location));
            }
            return 0x40;
        } else if location < 0x6000 {
            proof {
                reveal(BusView::spec_read_value);
                reveal(BusView::spec_read_state);
                assert(0u8 == old(self)@.spec_read_value(location));
                assert(self@ =~= old(self)@.spec_read_state(location));
            }
            return 0;
        } else if location < 0x8000 {
            let r = self.workram[(location & 0x1FFF) as usize];
            proof {
                reveal(BusView::spec_read_value);
                reveal(BusView::spec_read_state);
                assert(r == old(self)@.spec_read_value(location));
                assert(self@ =~= old(self)@.spec_read_state(location));
            }
            return r;
        } else {
            let r = self.rom.read_prg(location);
            proof {
                reveal(BusView::spec_read_value);
                reveal(BusView::spec_read_state);
                assert(r == old(self)@.spec_read_value(location));
                assert(self@ =~= old(self)@.spec_read_state(location));
            }
            return r;
        }
    }

    /// The side-effect-free inspection read: no status clear, no PPUDATA
    /// buffer advance, no controller shift.
    pub fn read_ram_immutable_debug(&self, location: u16) -> (r: u8)
        requires
            self@.wf(),
        ensures
            r == self@.spec_read_debug(location),
    {
        proof {
            reveal(BusView::spec_read_debug);
        }
        if location < 0x2000 {
            return self.ram2k[(location & 0x7FF) as usize];
        } else if location < 0x4000 {
            return self.ppu.cpuReadImmutable(&self.rom, (location & 0x7) as u8);
        } else if location < 0x6000 {
            return 0;
        } else if location < 0x8000 {
            return self.workram[(location & 0x1FFF) as usize];
        } else {
            return self.rom.read_prg(location);
        }
    }

    /// The side-effect-free read used when decoding instructions for
    /// inspection; same path as `read_ram_immutable_debug`.
    pub fn read_ram_opcode(&self, location: u16) -> (r: u8)
        requires
            self@.wf(),
        ensures
            r == self@.spec_read_debug(location),
    {
        self.read_ram_immutable_debug(location)
    }

    /// A CPU write: RAM and cartridge work RAM store the byte, the PPU
    /// window runs the register side effects, 0x4014 triggers the OAM DMA
    /// copy and stall, 0x4016 drives the controller strobe. PRG space is
    /// read-only under NROM.
    #[verifier::spinoff_prover]
    pub fn write_ram(&mut self, location: u16, value: u8)
        requires
            old(self)@.wf(),
        ensures
            final(self)@.wf(),
            final(self)@ == old(self)@.spec_write_state(location, value),
    {
        if location < 0x2000 {
            self.ram2k.set((location & 0x7FF) as usize, value);
            proof {
                reveal(BusView::spec_write_state);
                assert(self@ =~= old(self)@.spec_write_state(location, value));
            }
        } else if location < 0x4000 {
            self.ppu.cpuWrite(&mut self.rom, (location & 0x7) as u8, value);
            proof {
                reveal(BusView::spec_write_state);
                assert(self@ =~= old(self)@.spec_write_state(location, value));
            }
        } else if location == 0x4014 {
            self.oam_dma_write(value);
            proof {
                reveal(BusView::spec_write_state);
                assert(self@ =~= old(self)@.spec_write_state(location, value));
            }
        } else if location == 0x4016 {
            self.controller.write(value);
            proof {
                reveal(BusView::spec_write_state);
                assert(self@ =~= old(self)@.spec_write_state(location, value));
            }
        } else if location < 0x6000 {
            proof {
                reveal(BusView::spec_write_state);
                assert(self@ =~= old(self)@.spec_write_state(location, value));
            }
        } else if location < 0x8000 {
            self.workram.set((location & 0x1FFF) as usize, value);
            proof {
                reveal(BusView::spec_write_state);
                assert(self@ =~= old(self)@.spec_write_state(location, value));
            }
        } else {
            self.rom.write_prg(location, value);
            proof {
                reveal(BusView::spec_write_state);
                assert(self@ =~= old(self)@.spec_write_state(location, value));
            }
        }
    }

    /// The OAM DMA transfer: copy 256 bytes from page `value` of CPU space
    /// into OAM and charge the stall.
    #[verifier::spinoff_prover]
    fn oam_dma_write(&mut self, value: u8)
        requires
            old(self)@.wf(),
        ensures
            final(self)@.wf(),
            final(self)@ == old(self)@.spec_dma(value),
    {
        let cpu_start_address = (value as u16) << 8;
        proof {
            let v = value;
            assert((v as u16) << 8 <= 0xFF00) by (bit_vector);
        }
        let ghost init = self@;
        let mut i: usize = 0;
        while i < 256
            invariant
                self@.wf(),
                i <= 256,
                cpu_start_address <= 0xFF00,
                self@.cpu_odd_cycle == init.cpu_odd_cycle,
                self@.spec_dma_from(cpu_start_address, i as int) == init.spec_dma_from(
                    cpu_start_address,
                    0,
                ),
            decreases 256 - i,
        {
            let ghost pre = self@;
            let b = self.read_ram(cpu_start_address + (i as u16));
            self.ppu.oam_ram.set(i, b);
            proof {
                reveal(BusView::spec_read_state);
                assert(self@ =~= pre.spec_dma_step((cpu_start_address + i) as u16, i as int));
            }
            i = i + 1;
        }
        self.dma_cycles = if self.cpu_odd_cycle {
            514
        } else {
            513
        };
        proof {
            assert(self@ =~= init.spec_dma(value));
        }
    }

    /// Zero the whole CPU address space through `write_ram`, with every
    /// write's documented side effects.
    #[verifier::spinoff_prover]
    pub fn reset_ram(&mut self)
        requires
            old(self)@.wf(),
        ensures
            final(self)@.wf(),
            final(self)@ == old(self)@.spec_reset_from(0),
    {
        let mut addr: u32 = 0;
        let ghost init = self@;
        while addr <= 0xFFFF
            invariant
                self@.wf(),
                addr <= 0x10000,
                self@.spec_reset_from(addr as int) == init.spec_reset_from(0),
            decreases 0x10000 - addr,
        {
            let ghost pre = self@;
            self.write_ram(addr as u16, 0x00);
            proof {
                assert(self@ == pre.spec_write_state(addr as u16, 0));
            }
            addr = addr + 1;
        }
    }
}

impl BusView {
    /// The state `reset_ram` leaves: a zero written to every address from
    /// `addr` up, in order, through the bus write path.
    pub open spec fn spec_reset_from(self, addr: int) -> BusView
        decreases 0x10000 - addr,
    {
        if addr < 0 || addr >= 0x10000 {
            self
        } else {
            self.spec_write_state(addr as u16, 0).spec_reset_from(addr + 1)
        }
    }
}

/// Address-space mirroring: below 0x2000 the bus reads the 2 KiB work RAM
/// through four mirrors, so a read of `a` equals a read of the same low
/// eleven bits in any of the four windows, and neither read changes the
/// bus.
pub proof fn lemma_ram_mirroring(b: BusView, a: u16, k: u16)
    requires
        b.wf(),
        a < 0x2000,
        k < 4,
    ensures
        b.spec_read_value(a) == b.spec_read_value((a & 0x7FF) | (k << 11)),
        b.spec_read_state(a) == b,
        b.spec_read_state((a & 0x7FF) | (k << 11)) == b,
{
    reveal(BusView::spec_read_value);
    reveal(BusView::spec_read_state);
    let m = (a & 0x7FF) | (k << 11);
    assert(k < 4 ==> (((a & 0x7FF) | (k << 11)) < 0x2000 && (((a & 0x7FF) | (k << 11)) & 0x7FF)
        == (a & 0x7FF))) by (bit_vector);
}

} // verus!

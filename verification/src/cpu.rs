//! The MOS 6502-derived CPU: fetch/decode/execute over the bus, the
//! pending-cycles pacing counter, the stack discipline in page 1, and the
//! reset/NMI/IRQ entry sequences.

use vstd::prelude::*;
use vstd::wrapping::u16_specs;
use crate::bus::Bus;
use crate::bus::BusView;
use crate::flags::Flag;
use crate::opcodes::AddrMode;
use crate::opcodes::OpKind;
use crate::opcodes::Opcode;
use crate::opcodes::opcode_lookup;
use crate::opcodes::spec_opcode;
use crate::ppu::PpuView;
use crate::ppu::u8_wrap;

verus! {

broadcast use {crate::bits::lemma_u16_mask_ff, crate::bits::lemma_u16_mask_7};

/// The 0xFF-wrapping decrement the stack pointer uses.
pub open spec fn spec_dec8(value: u8) -> u8 {
    if value == 0 {
        0xFFu8
    } else {
        (value - 1) as u8
    }
}

/// The 0xFF-wrapping increment the stack pointer uses.
pub open spec fn spec_inc8(value: u8) -> u8 {
    if value == 0xFF {
        0u8
    } else {
        (value + 1) as u8
    }
}

pub fn decrement_u8(value: u8) -> (r: u8)
    ensures
        r == spec_dec8(value),
{
    if value == 0 {
        return 0xFF;
    }
    return value - 1;
}

pub fn increment_u8(value: u8) -> (r: u8)
    ensures
        r == spec_inc8(value),
{
    if value == 0xFF {
        return 0;
    }
    return value + 1;
}

/// The CPU state in spec form.
#[verifier::ext_equal]
pub ghost struct CpuView {
    pub bus: BusView,
    pub pc: u16,
    pub cycles: u8,
    pub reg_a: u8,
    pub reg_x: u8,
    pub reg_y: u8,
    pub reg_sp: u8,
    pub flag: Flag,
    pub tick_count: u64,
    pub fetched: u8,
    pub abs_addr: u16,
    pub relative_addr_offset: i8,
    pub is_accumulator_opcode: bool,
}

/// The CPU: registers, status flags, the pending-cycles counter that paces
/// execution, the scratch effective-address state the addressing modes
/// fill, and the bus it owns.
pub struct Cpu {
    pub bus: Bus,
    pub pc: u16,
    pub cycles: u8,
    pub reg_a: u8,
    pub reg_x: u8,
    pub reg_y: u8,
    pub reg_sp: u8,
    pub flag: Flag,
    pub tick_count: u64,
    pub fetched: u8,
    pub abs_addr: u16,
    pub relative_addr_offset: i8,
    pub is_accumulator_opcode: bool,
}

impl View for Cpu {
    type V = CpuView;

    open spec fn view(&self) -> CpuView {
        CpuView {
            bus: self.bus@,
            pc: self.pc,
            cycles: self.cycles,
            reg_a: self.reg_a,
            reg_x: self.reg_x,
            reg_y: self.reg_y,
            reg_sp: self.reg_sp,
            flag: self.flag,
            tick_count: self.tick_count,
            fetched: self.fetched,
            abs_addr: self.abs_addr,
            relative_addr_offset: self.relative_addr_offset,
            is_accumulator_opcode: self.is_accumulator_opcode,
        }
    }
}

impl CpuView {
    pub open spec fn wf(self) -> bool {
        self.bus.wf() && self.flag.wf()
    }

    /// A bus read: the state after its side effects, and the byte it gave.
    pub open spec fn spec_read_step(self, addr: u16) -> (CpuView, u8) {
        (
            CpuView { bus: self.bus.spec_read_state(addr), ..self },
            self.bus.spec_read_value(addr),
        )
    }

    /// A bus write.
    pub open spec fn spec_write_step(self, addr: u16, value: u8) -> CpuView {
        CpuView { bus: self.bus.spec_write_state(addr, value), ..self }
    }

    /// Load the operand: a read at the effective address, except in
    /// accumulator mode where `fetched` already holds the register.
    pub open spec fn spec_fetch(self) -> CpuView {
        if !self.is_accumulator_opcode {
            let r = self.spec_read_step(self.abs_addr);
            CpuView { fetched: r.1, ..r.0 }
        } else {
            self
        }
    }

    /// Store a result: into the accumulator in accumulator mode, else
    /// through the bus at the effective address.
    pub open spec fn spec_write_value(self, value: u8) -> CpuView {
        if self.is_accumulator_opcode {
            CpuView { reg_a: value, ..self }
        } else {
            self.spec_write_step(self.abs_addr, value)
        }
    }

    /// Set the Z and N flags from a result byte.
    pub open spec fn spec_set_zn(self, val: u8) -> CpuView {
        CpuView {
            flag: Flag {
                flag_z: if val == 0 {
                    1u8
                } else {
                    0u8
                },
                flag_n: if val & 0x80 != 0 {
                    1u8
                } else {
                    0u8
                },
                ..self.flag
            },
            ..self
        }
    }

    /// Push one byte: store at 0x0100 + SP, then decrement SP with wrap.
    pub open spec fn spec_push_u8(self, value: u8) -> CpuView {
        let c1 = self.spec_write_step((0x100 + self.reg_sp) as u16, value);
        CpuView { reg_sp: spec_dec8(c1.reg_sp), ..c1 }
    }

    /// Push a 16-bit value, high byte first.
    pub open spec fn spec_push_u16(self, value: u16) -> CpuView {
        self.spec_push_u8(((value >> 8) & 0xFF) as u8).spec_push_u8((value & 0xFF) as u8)
    }

    /// Pull one byte: increment SP with wrap, then read 0x0100 + SP.
    pub open spec fn spec_pull_u8(self) -> (CpuView, u8) {
        let c1 = CpuView { reg_sp: spec_inc8(self.reg_sp), ..self };
        let r = c1.spec_read_step((0x100 + c1.reg_sp) as u16);
        (r.0, r.1)
    }

    /// Pull a 16-bit value, low byte first.
    pub open spec fn spec_pull_u16(self) -> (CpuView, u16) {
        let lo = self.spec_pull_u8();
        let hi = lo.0.spec_pull_u8();
        (hi.0, (lo.1 as u16 | ((hi.1 as u16) << 8)) as u16)
    }

    /// An operand-byte fetch: read at PC, then advance PC with wrap.
    pub open spec fn spec_read_pc(self) -> (CpuView, u8) {
        let r = self.spec_read_step(self.pc);
        (CpuView { pc: u16_specs::wrapping_add(r.0.pc, 1), ..r.0 }, r.1)
    }

    /// The effective-address computation of each addressing mode: the state
    /// after its operand reads, and the page-cross cycle penalty.
    pub open spec fn spec_addr(self, mode: AddrMode) -> (CpuView, u8) {
        match mode {
            AddrMode::NUL => (CpuView { fetched: self.reg_a, ..self }, 0u8),
            AddrMode::ACC => (CpuView { fetched: self.reg_a, ..self }, 0u8),
            AddrMode::IMM => (
                CpuView { abs_addr: self.pc, pc: u16_specs::wrapping_add(self.pc, 1), ..self },
                0u8,
            ),
            AddrMode::ZPG => {
                let r = self.spec_read_pc();
                (CpuView { abs_addr: r.1 as u16, ..r.0 }, 0u8)
            },
            AddrMode::ZPX => {
                let r = self.spec_read_pc();
                (CpuView { abs_addr: ((r.1 + self.reg_x) as u16) & 0x00FF, ..r.0 }, 0u8)
            },
            AddrMode::ZPY => {
                let r = self.spec_read_pc();
                (CpuView { abs_addr: ((r.1 + self.reg_y) as u16) & 0x00FF, ..r.0 }, 0u8)
            },
            AddrMode::ABS => {
                let lo = self.spec_read_pc();
                let hi = lo.0.spec_read_pc();
                (
                    CpuView { abs_addr: (((hi.1 as u16) << 8) | lo.1 as u16) as u16, ..hi.0 },
                    0u8,
                )
            },
            AddrMode::ABX => {
                let lo = self.spec_read_pc();
                let hi = lo.0.spec_read_pc();
                let abs = u16_specs::wrapping_add(
                    (((hi.1 as u16) << 8) | lo.1 as u16) as u16,
                    self.reg_x as u16,
                );
                (
                    CpuView { abs_addr: abs, ..hi.0 },
                    if abs & 0xFF00 != ((hi.1 as u16) << 8) as u16 {
                        1u8
                    } else {
                        0u8
                    },
                )
            },
            AddrMode::ABY => {
                let lo = self.spec_read_pc();
                let hi = lo.0.spec_read_pc();
                let abs = u16_specs::wrapping_add(
                    (((hi.1 as u16) << 8) | lo.1 as u16) as u16,
                    self.reg_y as u16,
                );
                (
                    CpuView { abs_addr: abs, ..hi.0 },
                    if abs & 0xFF00 != ((hi.1 as u16) << 8) as u16 {
                        1u8
                    } else {
                        0u8
                    },
                )
            },
            AddrMode::IND => {
                let lo = self.spec_read_pc();
                let hi = lo.0.spec_read_pc();
                let ptr = (((hi.1 as u16) << 8) | lo.1 as u16) as u16;
                let ptr2 = ((ptr & 0xFF00) | (u16_specs::wrapping_add(ptr, 1) & 0x00FF)) as u16;
                let rhi = hi.0.spec_read_step(ptr2);
                let rlo = rhi.0.spec_read_step(ptr);
                (
                    CpuView { abs_addr: (((rhi.1 as u16) << 8) | rlo.1 as u16) as u16, ..rlo.0 },
                    0u8,
                )
            },
            AddrMode::IDX => {
                let r = self.spec_read_pc();
                let ptr = ((r.1 + self.reg_x) as u16) & 0xFF;
                let lo = r.0.spec_read_step(ptr);
                let hi = lo.0.spec_read_step((ptr + 1) as u16);
                (
                    CpuView { abs_addr: (((hi.1 as u16) << 8) | lo.1 as u16) as u16, ..hi.0 },
                    0u8,
                )
            },
            AddrMode::IDY => {
                let r = self.spec_read_pc();
                let ptr = r.1 as u16;
                let lo = r.0.spec_read_step(ptr);
                let hi = lo.0.spec_read_step((ptr + 1) as u16);
                let abs = u16_specs::wrapping_add(
                    (((hi.1 as u16) << 8) | lo.1 as u16) as u16,
                    self.reg_y as u16,
                );
                (
                    CpuView { abs_addr: abs, ..hi.0 },
                    if abs & 0xFF00 != ((hi.1 as u16) << 8) as u16 {
                        1u8
                    } else {
                        0u8
                    },
                )
            },
            AddrMode::REL => {
                let r = self.spec_read_pc();
                (CpuView { relative_addr_offset: r.1 as i8, ..r.0 }, 0u8)
            },
        }
    }
}

impl Cpu {
    pub fn new() -> (c: Cpu)
        ensures
            c@.wf(),
            c@.pc == 0x0600,
            c@.cycles == 0,
            c@.reg_a == 0 && c@.reg_x == 0 && c@.reg_y == 0,
            c@.reg_sp == 0xFF,
            c@.flag == (Flag {
                flag_n: 0u8,
                flag_v: 0u8,
                flag_b: 0u8,
                flag_d: 0u8,
                flag_i: 0u8,
                flag_z: 0u8,
                flag_c: 0u8,
            }),
            c@.tick_count == 0,
            c@.fetched == 0,
            c@.abs_addr == 0,
            c@.relative_addr_offset == 0,
            !c@.is_accumulator_opcode,
            c@.bus.wf(),
            c@.bus.ram2k == Seq::new(0x800, |i: int| 0u8),
            c@.bus.workram == Seq::new(0x2000, |i: int| 0u8),
            c@.bus.controller == crate::controller::Controller::spec_new(),
            c@.bus.ppu == PpuView::spec_new(),
            c@.bus.dma_cycles == 0,
            !c@.bus.cpu_odd_cycle,
            c@.bus.rom.prg@ == Seq::new(262144, |i: int| 0u8),
            c@.bus.rom.chr@ == Seq::new(131072, |i: int| 0u8),
            c@.bus.rom.prg_bank_count == 0,
    {
        let flag = Flag {
            flag_n: 0,
            flag_v: 0,
            flag_b: 0,
            flag_d: 0,
            flag_i: 0,
            flag_z: 0,
            flag_c: 0,
        };
        Self {
            bus: Bus::new(),
            pc: 0x0600,
            cycles: 0,
            reg_a: 0,
            reg_x: 0,
            reg_y: 0,
            reg_sp: 0xFF,
            flag,
            tick_count: 0,
            fetched: 0,
            abs_addr: 0,
            relative_addr_offset: 0,
            is_accumulator_opcode: false,
        }
    }

    fn write_value(&mut self, value: u8)
        requires
            old(self)@.wf(),
        ensures
            final(self)@.wf(),
            final(self)@ == old(self)@.spec_write_value(value),
    {
        if self.is_accumulator_opcode {
            self.reg_a = value;
            proof {
                assert(self@ =~= old(self)@.spec_write_value(value));
            }
        } else {
            self.bus.write_ram(self.abs_addr, value);
            proof {
                assert(self@ =~= old(self)@.spec_write_value(value));
            }
        }
    }

    fn fetch(&mut self)
        requires
            old(self)@.wf(),
        ensures
            final(self)@.wf(),
            final(self)@ == old(self)@.spec_fetch(),
    {
        if !self.is_accumulator_opcode {
            self.fetched = self.bus.read_ram(self.abs_addr);
            proof {
                assert(self@ =~= old(self)@.spec_fetch());
            }
        }
    }

    /// Whether the pending-cycles counter has drained, so the next tick
    /// fetches a new instruction.
    pub fn ready_to_execute_next_instruction(&self) -> (r: bool)
        ensures
            r == (self@.cycles == 0),
    {
        return self.cycles == 0;
    }

    fn push_stack_u16(&mut self, value: u16)
        requires
            old(self)@.wf(),
        ensures
            final(self)@.wf(),
            final(self)@ == old(self)@.spec_push_u16(value),
    {
        self.bus.write_ram(0x100 + self.reg_sp as u16, ((value >> 8) & 0xFF) as u8);
        self.reg_sp = decrement_u8(self.reg_sp);
        self.bus.write_ram(0x100 + self.reg_sp as u16, (value & 0xFF) as u8);
        self.reg_sp = decrement_u8(self.reg_sp);
        proof {
            assert(self@ =~= old(self)@.spec_push_u16(value));
        }
    }

    fn push_stack_u8(&mut self, value: u8)
        requires
            old(self)@.wf(),
        ensures
            final(self)@.wf(),
            final(self)@ == old(self)@.spec_push_u8(value),
    {
        self.bus.write_ram(0x100 + self.reg_sp as u16, value);
        self.reg_sp = decrement_u8(self.reg_sp);
        proof {
            assert(self@ =~= old(self)@.spec_push_u8(value));
        }
    }

    fn pull_stack_u8(&mut self) -> (r: u8)
        requires
            old(self)@.wf(),
        ensures
            final(self)@.wf(),
            (final(self)@, r) == old(self)@.spec_pull_u8(),
    {
        self.reg_sp = increment_u8(self.reg_sp);
        let r = self.bus.read_ram(0x100 + self.reg_sp as u16);
        proof {
            assert(self@ =~= old(self)@.spec_pull_u8().0);
        }
        return r;
    }

    fn pull_stack_u16(&mut self) -> (r: u16)
        requires
            old(self)@.wf(),
        ensures
            final(self)@.wf(),
            (final(self)@, r) == old(self)@.spec_pull_u16(),
    {
        self.reg_sp = increment_u8(self.reg_sp);
        let val_lo: u16 = self.bus.read_ram(0x100 + self.reg_sp as u16) as u16;
        self.reg_sp = increment_u8(self.reg_sp);
        let val_hi: u16 = self.bus.read_ram(0x100 + self.reg_sp as u16) as u16;
        proof {
            assert(self@ =~= old(self)@.spec_pull_u16().0);
        }
        return val_lo | (val_hi << 8);
    }

    fn set_z_n_flags(&mut self, val: u8)
        requires
            old(self)@.wf(),
        ensures
            final(self)@.wf(),
            final(self)@ == old(self)@.spec_set_zn(val),
    {
        self.flag.set_flag_z(val == 0);
        self.flag.set_flag_n(val & 0x80 != 0);
        proof {
            assert(self@ =~= old(self)@.spec_set_zn(val));
        }
    }

    /// Read the next instruction byte and advance PC.
    fn read_pc_byte(&mut self) -> (r: u8)
        requires
            old(self)@.wf(),
        ensures
            final(self)@.wf(),
            (final(self)@, r) == old(self)@.spec_read_pc(),
    {
        let r = self.bus.read_ram(self.pc);
        self.pc = self.pc.wrapping_add(1);
        proof {
            assert(self@ =~= old(self)@.spec_read_pc().0);
        }
        return r;
    }

    #[allow(non_snake_case)]
    fn addr_NUL(&mut self) -> (r: u8)
        requires
            old(self)@.wf(),
        ensures
            final(self)@.wf(),
            (final(self)@, r) == old(self)@.spec_addr(AddrMode::NUL),
            r <= 1,
    {
        self.fetched = self.reg_a;
        proof {
            assert(self@ =~= old(self)@.spec_addr(AddrMode::NUL).0);
        }
        return 0;
    }

    #[allow(non_snake_case)]
    fn addr_ACC(&mut self) -> (r: u8)
        requires
            old(self)@.wf(),
        ensures
            final(self)@.wf(),
            (final(self)@, r) == old(self)@.spec_addr(AddrMode::ACC),
            r <= 1,
    {
        self.fetched = self.reg_a;
        proof {
            assert(self@ =~= old(self)@.spec_addr(AddrMode::ACC).0);
        }
        return 0;
    }

    #[allow(non_snake_case)]
    fn addr_IMM(&mut self) -> (r: u8)
        requires
            old(self)@.wf(),
        ensures
            final(self)@.wf(),
            (final(self)@, r) == old(self)@.spec_addr(AddrMode::IMM),
            r <= 1,
    {
        self.abs_addr = self.pc;
        self.pc = self.pc.wrapping_add(1);
        proof {
            assert(self@ =~= old(self)@.spec_addr(AddrMode::IMM).0);
        }
        return 0;
    }

    #[allow(non_snake_case)]
    fn addr_ZPG(&mut self) -> (r: u8)
        requires
            old(self)@.wf(),
        ensures
            final(self)@.wf(),
            (final(self)@, r) == old(self)@.spec_addr(AddrMode::ZPG),
            r <= 1,
    {
        let v = self.read_pc_byte();
        self.abs_addr = v as u16;
        proof {
            assert(self@ =~= old(self)@.spec_addr(AddrMode::ZPG).0);
        }
        return 0;
    }

    #[allow(non_snake_case)]
    fn addr_ZPX(&mut self) -> (r: u8)
        requires
            old(self)@.wf(),
        ensures
            final(self)@.wf(),
            (final(self)@, r) == old(self)@.spec_addr(AddrMode::ZPX),
            r <= 1,
    {
        let x = self.reg_x;
        let v = self.read_pc_byte();
        self.abs_addr = (v as u16 + x as u16) & 0x00FF;
        proof {
            assert(self@ =~= old(self)@.spec_addr(AddrMode::ZPX).0);
        }
        return 0;
    }

    #[allow(non_snake_case)]
    fn addr_ZPY(&mut self) -> (r: u8)
        requires
            old(self)@.wf(),
        ensures
            final(self)@.wf(),
            (final(self)@, r) == old(self)@.spec_addr(AddrMode::ZPY),
            r <= 1,
    {
        let y = self.reg_y;
        let v = self.read_pc_byte();
        self.abs_addr = (v as u16 + y as u16) & 0x00FF;
        proof {
            assert(self@ =~= old(self)@.spec_addr(AddrMode::ZPY).0);
        }
        return 0;
    }

    #[allow(non_snake_case)]
    fn addr_ABS(&mut self) -> (r: u8)
        requires
            old(self)@.wf(),
        ensures
            final(self)@.wf(),
            (final(self)@, r) == old(self)@.spec_addr(AddrMode::ABS),
            r <= 1,
    {
        let abs_addr_lo = self.read_pc_byte() as u16;
        let abs_addr_hi = self.read_pc_byte() as u16;
        self.abs_addr = abs_addr_hi << 8 | abs_addr_lo;
        proof {
            assert(self@ =~= old(self)@.spec_addr(AddrMode::ABS).0);
        }
        return 0;
    }

    #[allow(non_snake_case)]
    #[verifier::rlimit(100)]
    #[verifier::spinoff_prover]
    fn addr_ABX(&mut self) -> (r: u8)
        requires
            old(self)@.wf(),
        ensures
            final(self)@.wf(),
            (final(self)@, r) == old(self)@.spec_addr(AddrMode::ABX),
            r <= 1,
    {
        let x = self.reg_x;
        let abs_addr_lo = self.read_pc_byte() as u16;
        let abs_addr_hi = self.read_pc_byte() as u16;
        self.abs_addr = (abs_addr_hi << 8 | abs_addr_lo).wrapping_add(x as u16);
        proof {
            assert(self@ =~= old(self)@.spec_addr(AddrMode::ABX).0);
        }
        if self.abs_addr & 0xFF00 != abs_addr_hi << 8 {
            return 1;
        }
        return 0;
    }

    #[allow(non_snake_case)]
    #[verifier::rlimit(100)]
    #[verifier::spinoff_prover]
    fn addr_ABY(&mut self) -> (r: u8)
        requires
            old(self)@.wf(),
        ensures
            final(self)@.wf(),
            (final(self)@, r) == old(self)@.spec_addr(AddrMode::ABY),
            r <= 1,
    {
        let y = self.reg_y;
        let abs_addr_lo = self.read_pc_byte() as u16;
        let abs_addr_hi = self.read_pc_byte() as u16;
        self.abs_addr = (abs_addr_hi << 8 | abs_addr_lo).wrapping_add(y as u16);
        proof {
            assert(self@ =~= old(self)@.spec_addr(AddrMode::ABY).0);
        }
        if self.abs_addr & 0xFF00 != abs_addr_hi << 8 {
            return 1;
        }
        return 0;
    }

    #[allow(non_snake_case)]
    #[verifier::rlimit(100)]
    #[verifier::spinoff_prover]
    fn addr_IND(&mut self) -> (r: u8)
        requires
            old(self)@.wf(),
        ensures
            final(self)@.wf(),
            (final(self)@, r) == old(self)@.spec_addr(AddrMode::IND),
            r <= 1,
    {
        let ptr_addr_lo = self.read_pc_byte() as u16;
        let ptr_addr_hi = self.read_pc_byte() as u16;
        let ptr: u16 = ptr_addr_hi << 8 | ptr_addr_lo;
        let ptr2: u16 = (ptr & 0xFF00) | (ptr.wrapping_add(1) & 0x00FF);
        let hi = self.bus.read_ram(ptr2) as u16;
        let lo = self.bus.read_ram(ptr) as u16;
        self.abs_addr = hi << 8 | lo;
        proof {
            assert(self@ =~= old(self)@.spec_addr(AddrMode::IND).0);
        }
        return 0;
    }

    #[allow(non_snake_case)]
    #[verifier::rlimit(100)]
    #[verifier::spinoff_prover]
    fn addr_IDX(&mut self) -> (r: u8)
        requires
            old(self)@.wf(),
        ensures
            final(self)@.wf(),
            (final(self)@, r) == old(self)@.spec_addr(AddrMode::IDX),
            r <= 1,
    {
        let x = self.reg_x;
        let v = self.read_pc_byte();
        let ptr_addr = (v as u16 + x as u16) & 0xFF;
        let abs_addr_lo = self.bus.read_ram(ptr_addr) as u16;
        let abs_addr_hi = self.bus.read_ram(ptr_addr + 1) as u16;
        self.abs_addr = abs_addr_hi << 8 | abs_addr_lo;
        proof {
            assert(self@ =~= old(self)@.spec_addr(AddrMode::IDX).0);
        }
        return 0;
    }

    #[allow(non_snake_case)]
    #[verifier::rlimit(100)]
    #[verifier::spinoff_prover]
    fn addr_IDY(&mut self) -> (r: u8)
        requires
            old(self)@.wf(),
        ensures
            final(self)@.wf(),
            (final(self)@, r) == old(self)@.spec_addr(AddrMode::IDY),
            r <= 1,
    {
        let y = self.reg_y;
        let v = self.read_pc_byte();
        let ptr_addr = v as u16;
        let abs_addr_lo = self.bus.read_ram(ptr_addr) as u16;
        let abs_addr_hi = self.bus.read_ram(ptr_addr + 1) as u16;
        self.abs_addr = (abs_addr_hi << 8 | abs_addr_lo).wrapping_add(y as u16);
        proof {
            assert(self@ =~= old(self)@.spec_addr(AddrMode::IDY).0);
        }
        if self.abs_addr & 0xFF00 != abs_addr_hi << 8 {
            return 1;
        }
        return 0;
    }

    #[allow(non_snake_case)]
    fn addr_REL(&mut self) -> (r: u8)
        requires
            old(self)@.wf(),
        ensures
            final(self)@.wf(),
            (final(self)@, r) == old(self)@.spec_addr(AddrMode::REL),
            r <= 1,
    {
        let v = self.read_pc_byte();
        self.relative_addr_offset = v as i8;
        proof {
            assert(self@ =~= old(self)@.spec_addr(AddrMode::REL).0);
        }
        return 0;
    }

    /// Run one addressing mode: fill the effective-address scratch state
    /// and report the page-cross penalty.
    fn run_addressing(&mut self, mode: AddrMode) -> (r: u8)
        requires
            old(self)@.wf(),
        ensures
            final(self)@.wf(),
            (final(self)@, r) == old(self)@.spec_addr(mode),
            r <= 1,
    {
        match mode {
            AddrMode::NUL => self.addr_NUL(),
            AddrMode::ACC => self.addr_ACC(),
            AddrMode::IMM => self.addr_IMM(),
            AddrMode::ZPG => self.addr_ZPG(),
            AddrMode::ZPX => self.addr_ZPX(),
            AddrMode::ZPY => self.addr_ZPY(),
            AddrMode::ABS => self.addr_ABS(),
            AddrMode::ABX => self.addr_ABX(),
            AddrMode::ABY => self.addr_ABY(),
            AddrMode::IND => self.addr_IND(),
            AddrMode::IDX => self.addr_IDX(),
            AddrMode::IDY => self.addr_IDY(),
            AddrMode::REL => self.addr_REL(),
        }
    }

}

impl CpuView {
    /// The V flag ADC and SBC compute: set when the sign of the result
    /// disagrees with both operands' signs.
    pub open spec fn spec_set_v(self, result: u16, acc: u8, mem: u8) -> CpuView {
        CpuView {
            flag: Flag {
                flag_v: if (result ^ acc as u16) & (result ^ mem as u16) & 0x0080 != 0 {
                    1u8
                } else {
                    0u8
                },
                ..self.flag
            },
            ..self
        }
    }

    pub open spec fn spec_set_c(self, c: bool) -> CpuView {
        CpuView { flag: Flag { flag_c: if c { 1u8 } else { 0u8 }, ..self.flag }, ..self }
    }

    /// Add the operand and carry into the accumulator; C from the 9th bit,
    /// V from the sign rule, Z and N from the 8-bit result.
    pub open spec fn spec_op_adc(self) -> (CpuView, u8) {
        let c = self.spec_fetch();
        let sum: u16 = (c.reg_a + c.fetched + c.flag.flag_c) as u16;
        let sum8: u8 = (sum & 0xff) as u8;
        let c1 = c.spec_set_c(sum > 0xff).spec_set_v(sum, c.reg_a, c.fetched).spec_set_zn(sum8);
        (CpuView { reg_a: sum8, ..c1 }, 0u8)
    }

    /// Subtract with borrow: ADC of the operand's ones' complement.
    pub open spec fn spec_op_sbc(self) -> (CpuView, u8) {
        let c = self.spec_fetch();
        let value: u8 = c.fetched ^ 0xFF;
        let sum: u16 = (c.reg_a + value + c.flag.flag_c) as u16;
        let sum8: u8 = (sum & 0xFF) as u8;
        let c1 = c.spec_set_c(sum > 0xff).spec_set_v(sum, c.reg_a, value).spec_set_zn(sum8);
        (CpuView { reg_a: sum8, ..c1 }, 0u8)
    }

    pub open spec fn spec_op_and(self) -> (CpuView, u8) {
        let c = self.spec_fetch();
        let v = (c.reg_a & c.fetched) as u8;
        (CpuView { reg_a: v, ..c.spec_set_zn(v) }, 0u8)
    }

    pub open spec fn spec_op_ora(self) -> (CpuView, u8) {
        let c = self.spec_fetch();
        let v = (c.reg_a | c.fetched) as u8;
        (CpuView { reg_a: v, ..c.spec_set_zn(v) }, 0u8)
    }

    pub open spec fn spec_op_eor(self) -> (CpuView, u8) {
        let c = self.spec_fetch();
        let v = (c.reg_a ^ c.fetched) as u8;
        (CpuView { reg_a: v, ..c.spec_set_zn(v) }, 0u8)
    }

    /// BIT: Z from A AND the operand, V and N straight from operand bits 6
    /// and 7.
    pub open spec fn spec_op_bit(self) -> (CpuView, u8) {
        let c = self.spec_fetch();
        (
            CpuView {
                flag: Flag {
                    flag_z: if c.reg_a & c.fetched == 0 {
                        1u8
                    } else {
                        0u8
                    },
                    flag_v: if c.fetched & 0x40 != 0 {
                        1u8
                    } else {
                        0u8
                    },
                    flag_n: if c.fetched & 0x80 != 0 {
                        1u8
                    } else {
                        0u8
                    },
                    ..c.flag
                },
                ..c
            },
            0u8,
        )
    }

    pub open spec fn spec_op_load_a(self) -> (CpuView, u8) {
        let c = self.spec_fetch();
        (CpuView { reg_a: c.fetched, ..c.spec_set_zn(c.fetched) }, 0u8)
    }

    pub open spec fn spec_op_load_x(self) -> (CpuView, u8) {
        let c = self.spec_fetch();
        (CpuView { reg_x: c.fetched, ..c.spec_set_zn(c.fetched) }, 0u8)
    }

    pub open spec fn spec_op_load_y(self) -> (CpuView, u8) {
        let c = self.spec_fetch();
        (CpuView { reg_y: c.fetched, ..c.spec_set_zn(c.fetched) }, 0u8)
    }

    /// The comparison CMP/CPX/CPY share: C when the register is at least
    /// the operand, Z on equality, N from the wrapping difference.
    pub open spec fn spec_op_compare(self, reg: u8) -> (CpuView, u8) {
        let c = self.spec_fetch();
        let result: u8 = if reg < c.fetched {
            (0xFF - (c.fetched - reg)) as u8
        } else {
            (reg - c.fetched) as u8
        };
        (
            CpuView {
                flag: Flag {
                    flag_c: if reg >= c.fetched {
                        1u8
                    } else {
                        0u8
                    },
                    flag_z: if reg == c.fetched {
                        1u8
                    } else {
                        0u8
                    },
                    flag_n: if result & 0x80 != 0 {
                        1u8
                    } else {
                        0u8
                    },
                    ..c.flag
                },
                ..c
            },
            0u8,
        )
    }

    /// A taken branch costs one extra cycle, two if it crosses a page.
    pub open spec fn spec_op_jump(self, cond: bool) -> (CpuView, u8) {
        if cond {
            let updated = u16_specs::wrapping_add_signed(self.pc, self.relative_addr_offset as i16);
            (
                CpuView { pc: updated, ..self },
                if updated & 0xFF00 != self.pc & 0xFF00 {
                    2u8
                } else {
                    1u8
                },
            )
        } else {
            (self, 0u8)
        }
    }

    pub open spec fn spec_op_asl(self) -> (CpuView, u8) {
        let c = self.spec_fetch();
        let value: u8 = c.fetched << 1;
        (c.spec_set_c(c.fetched & 0x80 != 0).spec_set_zn(value).spec_write_value(value), 0u8)
    }

    pub open spec fn spec_op_lsr(self) -> (CpuView, u8) {
        let c = self.spec_fetch();
        let value: u8 = c.fetched >> 1;
        (c.spec_set_c(c.fetched & 0x01 != 0).spec_set_zn(value).spec_write_value(value), 0u8)
    }

    pub open spec fn spec_op_rol(self) -> (CpuView, u8) {
        let c = self.spec_fetch();
        let value: u8 = ((c.fetched << 1) | c.flag.flag_c) as u8;
        (c.spec_set_c(c.fetched & 0x80 != 0).spec_set_zn(value).spec_write_value(value), 0u8)
    }

    pub open spec fn spec_op_ror(self) -> (CpuView, u8) {
        let c = self.spec_fetch();
        let value: u8 = ((c.flag.flag_c << 7) | (c.fetched >> 1)) as u8;
        (c.spec_set_c(c.fetched & 0x01 != 0).spec_set_zn(value).spec_write_value(value), 0u8)
    }

    pub open spec fn spec_op_dec(self) -> (CpuView, u8) {
        let c = self.spec_fetch();
        let temp = spec_dec8(c.fetched);
        (c.spec_write_step(c.abs_addr, temp).spec_set_zn(temp), 0u8)
    }

    pub open spec fn spec_op_inc(self) -> (CpuView, u8) {
        let c = self.spec_fetch();
        let temp = spec_inc8(c.fetched);
        (c.spec_write_step(c.abs_addr, temp).spec_set_zn(temp), 0u8)
    }

    /// NMI entry: push PC, then the status byte with B clear and the I
    /// flag as it was (bit 5 reads 1), then set I and vector through
    /// 0xFFFA/0xFFFB. Costs 8 cycles.
    pub open spec fn spec_nmi(self) -> CpuView {
        let c0 = CpuView { flag: Flag { flag_b: 0u8, ..self.flag }, ..self };
        let c1 = c0.spec_push_u16(c0.pc);
        let c2 = c1.spec_push_u8(c1.flag.spec_sr());
        let c3 = CpuView { flag: Flag { flag_i: 1u8, ..c2.flag }, ..c2 };
        let lo = c3.spec_read_step(0xFFFA);
        let hi = lo.0.spec_read_step(0xFFFB);
        CpuView { pc: (lo.1 as u16 | ((hi.1 as u16) << 8)) as u16, ..hi.0 }
    }

    /// IRQ entry: only when I is clear; like NMI but through 0xFFFE/0xFFFF
    /// and 7 cycles.
    pub open spec fn spec_irq(self) -> CpuView {
        if self.flag.flag_i == 1 {
            self
        } else {
            let c0 = CpuView { flag: Flag { flag_b: 0u8, ..self.flag }, ..self };
            let c1 = c0.spec_push_u16(c0.pc);
            let c2 = c1.spec_push_u8(c1.flag.spec_sr());
            let c3 = CpuView { flag: Flag { flag_i: 1u8, ..c2.flag }, ..c2 };
            let lo = c3.spec_read_step(0xFFFE);
            let hi = lo.0.spec_read_step(0xFFFF);
            CpuView { pc: (lo.1 as u16 | ((hi.1 as u16) << 8)) as u16, ..hi.0 }
        }
    }

    /// BRK: a software interrupt through the IRQ vector; the pushed PC
    /// skips the byte after BRK, the pushed status carries B set and the I
    /// flag as it was, and I is set afterwards.
    pub open spec fn spec_op_brk(self) -> (CpuView, u8) {
        let c1 = self.spec_push_u16(u16_specs::wrapping_add(self.pc, 1));
        let c2 = c1.spec_push_u8((c1.flag.spec_sr() | 0x10) as u8);
        let c3 = CpuView { flag: Flag { flag_i: 1u8, ..c2.flag }, ..c2 };
        let lo = c3.spec_read_step(0xFFFE);
        let hi = lo.0.spec_read_step(0xFFFF);
        (CpuView { pc: (lo.1 as u16 | ((hi.1 as u16) << 8)) as u16, ..hi.0 }, 0u8)
    }

    /// The transition of each operation: the state it leaves and its extra
    /// cycle cost.
    pub open spec fn spec_op(self, kind: OpKind) -> (CpuView, u8) {
        match kind {
            OpKind::NOP => (self, 0u8),
            OpKind::NUL => (self, 0u8),
            OpKind::ADC => self.spec_op_adc(),
            OpKind::SBC => self.spec_op_sbc(),
            OpKind::AND => self.spec_op_and(),
            OpKind::ORA => self.spec_op_ora(),
            OpKind::EOR => self.spec_op_eor(),
            OpKind::BIT => self.spec_op_bit(),
            OpKind::LDA => self.spec_op_load_a(),
            OpKind::LDX => self.spec_op_load_x(),
            OpKind::LDY => self.spec_op_load_y(),
            OpKind::STA => (self.spec_write_step(self.abs_addr, self.reg_a), 0u8),
            OpKind::STX => (self.spec_write_step(self.abs_addr, self.reg_x), 0u8),
            OpKind::STY => (self.spec_write_step(self.abs_addr, self.reg_y), 0u8),
            OpKind::TAX => (
                CpuView { reg_x: self.reg_a, ..self.spec_set_zn(self.reg_a) },
                0u8,
            ),
            OpKind::TAY => (
                CpuView { reg_y: self.reg_a, ..self.spec_set_zn(self.reg_a) },
                0u8,
            ),
            OpKind::TSX => (
                CpuView { reg_x: self.reg_sp, ..self.spec_set_zn(self.reg_sp) },
                0u8,
            ),
            OpKind::TXA => (
                CpuView { reg_a: self.reg_x, ..self.spec_set_zn(self.reg_x) },
                0u8,
            ),
            OpKind::TXS => (CpuView { reg_sp: self.reg_x, ..self }, 0u8),
            OpKind::TYA => (
                CpuView { reg_a: self.reg_y, ..self.spec_set_zn(self.reg_y) },
                0u8,
            ),
            OpKind::CLC => (self.spec_set_c(false), 0u8),
            OpKind::SEC => (self.spec_set_c(true), 0u8),
            OpKind::CLD => (
                CpuView { flag: Flag { flag_d: 0u8, ..self.flag }, ..self },
                0u8,
            ),
            OpKind::SED => (
                CpuView { flag: Flag { flag_d: 1u8, ..self.flag }, ..self },
                0u8,
            ),
            OpKind::CLI => (
                CpuView { flag: Flag { flag_i: 0u8, ..self.flag }, ..self },
                0u8,
            ),
            OpKind::SEI => (
                CpuView { flag: Flag { flag_i: 1u8, ..self.flag }, ..self },
                0u8,
            ),
            OpKind::CLV => (
                CpuView { flag: Flag { flag_v: 0u8, ..self.flag }, ..self },
                0u8,
            ),
            OpKind::DEC => self.spec_op_dec(),
            OpKind::INC => self.spec_op_inc(),
            OpKind::DEX => {
                let v = spec_dec8(self.reg_x);
                (CpuView { reg_x: v, ..self.spec_set_zn(v) }, 0u8)
            },
            OpKind::DEY => {
                let v = spec_dec8(self.reg_y);
                (CpuView { reg_y: v, ..self.spec_set_zn(v) }, 0u8)
            },
            OpKind::INX => {
                let v = spec_inc8(self.reg_x);
                (CpuView { reg_x: v, ..self.spec_set_zn(v) }, 0u8)
            },
            OpKind::INY => {
                let v = spec_inc8(self.reg_y);
                (CpuView { reg_y: v, ..self.spec_set_zn(v) }, 0u8)
            },
            OpKind::CMP => self.spec_op_compare(self.reg_a),
            OpKind::CPX => self.spec_op_compare(self.reg_x),
            OpKind::CPY => self.spec_op_compare(self.reg_y),
            OpKind::BCS => self.spec_op_jump(self.flag.flag_c == 1),
            OpKind::BCC => self.spec_op_jump(!(self.flag.flag_c == 1)),
            OpKind::BEQ => self.spec_op_jump(self.flag.flag_z == 1),
            OpKind::BNE => self.spec_op_jump(!(self.flag.flag_z == 1)),
            OpKind::BMI => self.spec_op_jump(self.flag.flag_n == 1),
            OpKind::BPL => self.spec_op_jump(!(self.flag.flag_n == 1)),
            OpKind::BVS => self.spec_op_jump(self.flag.flag_v == 1),
            OpKind::BVC => self.spec_op_jump(!(self.flag.flag_v == 1)),
            OpKind::JMP => (CpuView { pc: self.abs_addr, ..self }, 0u8),
            OpKind::JSR => (
                CpuView {
                    pc: self.abs_addr,
                    ..self.spec_push_u16(u16_specs::wrapping_sub(self.pc, 1))
                },
                0u8,
            ),
            OpKind::RTS => {
                let r = self.spec_pull_u16();
                (CpuView { pc: u16_specs::wrapping_add(r.1, 1), ..r.0 }, 0u8)
            },
            OpKind::RTI => {
                let sr = self.spec_pull_u8();
                let pc = sr.0.spec_pull_u16();
                (
                    CpuView {
                        flag: Flag { flag_b: pc.0.flag.flag_b, ..Flag::spec_from_sr(sr.1) },
                        pc: pc.1,
                        ..pc.0
                    },
                    0u8,
                )
            },
            OpKind::ASL => self.spec_op_asl(),
            OpKind::LSR => self.spec_op_lsr(),
            OpKind::ROL => self.spec_op_rol(),
            OpKind::ROR => self.spec_op_ror(),
            OpKind::PHA => (self.spec_push_u8(self.reg_a), 0u8),
            OpKind::PHP => (self.spec_push_u8((self.flag.spec_sr() | 0x10) as u8), 0u8),
            OpKind::PLA => {
                let r = self.spec_pull_u8();
                (CpuView { reg_a: r.1, ..r.0.spec_set_zn(r.1) }, 0u8)
            },
            OpKind::PLP => {
                let r = self.spec_pull_u8();
                (
                    CpuView {
                        flag: Flag { flag_b: r.0.flag.flag_b, ..Flag::spec_from_sr(r.1) },
                        ..r.0
                    },
                    0u8,
                )
            },
            OpKind::BRK => self.spec_op_brk(),
        }
    }
}

impl Cpu {
    fn set_overflow_flag(&mut self, result: u16, acc: u8, mem: u8)
        requires
            old(self)@.wf(),
        ensures
            final(self)@.wf(),
            final(self)@ == old(self)@.spec_set_v(result, acc, mem),
    {
        self.flag.set_flag_v((result ^ acc as u16) & (result ^ mem as u16) & 0x0080 != 0);
        proof {
            assert(self@ =~= old(self)@.spec_set_v(result, acc, mem));
        }
    }

    #[allow(non_snake_case)]
    fn op_NOP(&mut self) -> (r: u8)
        requires
            old(self)@.wf(),
        ensures
            final(self)@.wf(),
            (final(self)@, r) == old(self)@.spec_op(OpKind::NOP),
            r <= 2,
    {

        proof {
            assert(self@ =~= old(self)@.spec_op(OpKind::NOP).0);
        }
        return 0;
    }

    #[allow(non_snake_case)]
    #[verifier::rlimit(100)]
    #[verifier::spinoff_prover]
    fn op_ADC(&mut self) -> (r: u8)
        requires
            old(self)@.wf(),
        ensures
            final(self)@.wf(),
            (final(self)@, r) == old(self)@.spec_op_adc(),
            r <= 2,
    {
        self.fetch();
        let value: u8 = self.fetched;
        let sum_u16: u16 = self.reg_a as u16 + value as u16 + self.flag.flag_c as u16;
        let sum_u8: u8 = (sum_u16 & 0xff) as u8;
        self.flag.set_flag_c(sum_u16 > 0xff);
        self.set_overflow_flag(sum_u16, self.reg_a, value);
        self.set_z_n_flags(sum_u8);
        self.reg_a = sum_u8;
        proof {
            assert(self@ =~= old(self)@.spec_op_adc().0);
        }
        return 0;
    }

    #[allow(non_snake_case)]
    #[verifier::rlimit(100)]
    #[verifier::spinoff_prover]
    fn op_SBC(&mut self) -> (r: u8)
        requires
            old(self)@.wf(),
        ensures
            final(self)@.wf(),
            (final(self)@, r) == old(self)@.spec_op_sbc(),
            r <= 2,
    {
        self.fetch();
        let value: u8 = self.fetched ^ 0xFF;
        let sum_u16: u16 = self.reg_a as u16 + value as u16 + self.flag.flag_c as u16;
        let sum_u8: u8 = (sum_u16 & 0xff) as u8;
        self.flag.set_flag_c(sum_u16 > 0xff);
        self.set_overflow_flag(sum_u16, self.reg_a, value);
        self.set_z_n_flags(sum_u8);
        self.reg_a = sum_u8;
        proof {
            assert(self@ =~= old(self)@.spec_op_sbc().0);
        }
        return 0;
    }

    #[allow(non_snake_case)]
    fn op_AND(&mut self) -> (r: u8)
        requires
            old(self)@.wf(),
        ensures
            final(self)@.wf(),
            (final(self)@, r) == old(self)@.spec_op_and(),
            r <= 2,
    {
        self.fetch();
        self.reg_a = self.reg_a & self.fetched;
        self.set_z_n_flags(self.reg_a);
        proof {
            assert(self@ =~= old(self)@.spec_op_and().0);
        }
        return 0;
    }

    #[allow(non_snake_case)]
    fn op_ORA(&mut self) -> (r: u8)
        requires
            old(self)@.wf(),
        ensures
            final(self)@.wf(),
            (final(self)@, r) == old(self)@.spec_op_ora(),
            r <= 2,
    {
        self.fetch();
        self.reg_a = self.reg_a | self.fetched;
        self.set_z_n_flags(self.reg_a);
        proof {
            assert(self@ =~= old(self)@.spec_op_ora().0);
        }
        return 0;
    }

    #[allow(non_snake_case)]
    fn op_EOR(&mut self) -> (r: u8)
        requires
            old(self)@.wf(),
        ensures
            final(self)@.wf(),
            (final(self)@, r) == old(self)@.spec_op_eor(),
            r <= 2,
    {
        self.fetch();
        self.reg_a = self.reg_a ^ self.fetched;
        self.set_z_n_flags(self.reg_a);
        proof {
            assert(self@ =~= old(self)@.spec_op_eor().0);
        }
        return 0;
    }

    #[allow(non_snake_case)]
    fn op_BIT(&mut self) -> (r: u8)
        requires
            old(self)@.wf(),
        ensures
            final(self)@.wf(),
            (final(self)@, r) == old(self)@.spec_op_bit(),
            r <= 2,
    {
        self.fetch();
        self.flag.set_flag_z(self.reg_a & self.fetched == 0x00);
        self.flag.set_flag_v(self.fetched & 0x40 != 0);
        self.flag.set_flag_n(self.fetched & 0x80 != 0);
        proof {
            assert(self@ =~= old(self)@.spec_op_bit().0);
        }
        return 0;
    }

    #[allow(non_snake_case)]
    fn op_LDA(&mut self) -> (r: u8)
        requires
            old(self)@.wf(),
        ensures
            final(self)@.wf(),
            (final(self)@, r) == old(self)@.spec_op_load_a(),
            r <= 2,
    {
        self.fetch();
        self.reg_a = self.fetched;
        self.set_z_n_flags(self.reg_a);
        proof {
            assert(self@ =~= old(self)@.spec_op_load_a().0);
        }
        return 0;
    }

    #[allow(non_snake_case)]
    fn op_LDX(&mut self) -> (r: u8)
        requires
            old(self)@.wf(),
        ensures
            final(self)@.wf(),
            (final(self)@, r) == old(self)@.spec_op_load_x(),
            r <= 2,
    {
        self.fetch();
        self.reg_x = self.fetched;
        self.set_z_n_flags(self.reg_x);
        proof {
            assert(self@ =~= old(self)@.spec_op_load_x().0);
        }
        return 0;
    }

    #[allow(non_snake_case)]
    fn op_LDY(&mut self) -> (r: u8)
        requires
            old(self)@.wf(),
        ensures
            final(self)@.wf(),
            (final(self)@, r) == old(self)@.spec_op_load_y(),
            r <= 2,
    {
        self.fetch();
        self.reg_y = self.fetched;
        self.set_z_n_flags(self.reg_y);
        proof {
            assert(self@ =~= old(self)@.spec_op_load_y().0);
        }
        return 0;
    }

    #[allow(non_snake_case)]
    fn op_STA(&mut self) -> (r: u8)
        requires
            old(self)@.wf(),
        ensures
            final(self)@.wf(),
            (final(self)@, r) == old(self)@.spec_op(OpKind::STA),
            r <= 2,
    {
        self.bus.write_ram(self.abs_addr, self.reg_a);
        proof {
            assert(self@ =~= old(self)@.spec_op(OpKind::STA).0);
        }
        return 0;
    }

    #[allow(non_snake_case)]
    fn op_STX(&mut self) -> (r: u8)
        requires
            old(self)@.wf(),
        ensures
            final(self)@.wf(),
            (final(self)@, r) == old(self)@.spec_op(OpKind::STX),
            r <= 2,
    {
        self.bus.write_ram(self.abs_addr, self.reg_x);
        proof {
            assert(self@ =~= old(self)@.spec_op(OpKind::STX).0);
        }
        return 0;
    }

    #[allow(non_snake_case)]
    fn op_STY(&mut self) -> (r: u8)
        requires
            old(self)@.wf(),
        ensures
            final(self)@.wf(),
            (final(self)@, r) == old(self)@.spec_op(OpKind::STY),
            r <= 2,
    {
        self.bus.write_ram(self.abs_addr, self.reg_y);
        proof {
            assert(self@ =~= old(self)@.spec_op(OpKind::STY).0);
        }
        return 0;
    }

    #[allow(non_snake_case)]
    fn op_TAX(&mut self) -> (r: u8)
        requires
            old(self)@.wf(),
        ensures
            final(self)@.wf(),
            (final(self)@, r) == old(self)@.spec_op(OpKind::TAX),
            r <= 2,
    {
        self.reg_x = self.reg_a;
        self.set_z_n_flags(self.reg_x);
        proof {
            assert(self@ =~= old(self)@.spec_op(OpKind::TAX).0);
        }
        return 0;
    }

    #[allow(non_snake_case)]
    fn op_TAY(&mut self) -> (r: u8)
        requires
            old(self)@.wf(),
        ensures
            final(self)@.wf(),
            (final(self)@, r) == old(self)@.spec_op(OpKind::TAY),
            r <= 2,
    {
        self.reg_y = self.reg_a;
        self.set_z_n_flags(self.reg_y);
        proof {
            assert(self@ =~= old(self)@.spec_op(OpKind::TAY).0);
        }
        return 0;
    }

    #[allow(non_snake_case)]
    fn op_TSX(&mut self) -> (r: u8)
        requires
            old(self)@.wf(),
        ensures
            final(self)@.wf(),
            (final(self)@, r) == old(self)@.spec_op(OpKind::TSX),
            r <= 2,
    {
        self.reg_x = self.reg_sp;
        self.set_z_n_flags(self.reg_x);
        proof {
            assert(self@ =~= old(self)@.spec_op(OpKind::TSX).0);
        }
        return 0;
    }

    #[allow(non_snake_case)]
    fn op_TXA(&mut self) -> (r: u8)
        requires
            old(self)@.wf(),
        ensures
            final(self)@.wf(),
            (final(self)@, r) == old(self)@.spec_op(OpKind::TXA),
            r <= 2,
    {
        self.reg_a = self.reg_x;
        self.set_z_n_flags(self.reg_a);
        proof {
            assert(self@ =~= old(self)@.spec_op(OpKind::TXA).0);
        }
        return 0;
    }

    #[allow(non_snake_case)]
    fn op_TXS(&mut self) -> (r: u8)
        requires
            old(self)@.wf(),
        ensures
            final(self)@.wf(),
            (final(self)@, r) == old(self)@.spec_op(OpKind::TXS),
            r <= 2,
    {
        self.reg_sp = self.reg_x;
        proof {
            assert(self@ =~= old(self)@.spec_op(OpKind::TXS).0);
        }
        return 0;
    }

    #[allow(non_snake_case)]
    fn op_TYA(&mut self) -> (r: u8)
        requires
            old(self)@.wf(),
        ensures
            final(self)@.wf(),
            (final(self)@, r) == old(self)@.spec_op(OpKind::TYA),
            r <= 2,
    {
        self.reg_a = self.reg_y;
        self.set_z_n_flags(self.reg_a);
        proof {
            assert(self@ =~= old(self)@.spec_op(OpKind::TYA).0);
        }
        return 0;
    }

    #[allow(non_snake_case)]
    fn op_CLC(&mut self) -> (r: u8)
        requires
            old(self)@.wf(),
        ensures
            final(self)@.wf(),
            (final(self)@, r) == old(self)@.spec_op(OpKind::CLC),
            r <= 2,
    {
        self.flag.set_flag_c(false);
        proof {
            assert(self@ =~= old(self)@.spec_op(OpKind::CLC).0);
        }
        return 0;
    }

    #[allow(non_snake_case)]
    fn op_CLD(&mut self) -> (r: u8)
        requires
            old(self)@.wf(),
        ensures
            final(self)@.wf(),
            (final(self)@, r) == old(self)@.spec_op(OpKind::CLD),
            r <= 2,
    {
        self.flag.set_flag_d(false);
        proof {
            assert(self@ =~= old(self)@.spec_op(OpKind::CLD).0);
        }
        return 0;
    }

    #[allow(non_snake_case)]
    fn op_CLI(&mut self) -> (r: u8)
        requires
            old(self)@.wf(),
        ensures
            final(self)@.wf(),
            (final(self)@, r) == old(self)@.spec_op(OpKind::CLI),
            r <= 2,
    {
        self.flag.set_flag_i(false);
        proof {
            assert(self@ =~= old(self)@.spec_op(OpKind::CLI).0);
        }
        return 0;
    }

    #[allow(non_snake_case)]
    fn op_CLV(&mut self) -> (r: u8)
        requires
            old(self)@.wf(),
        ensures
            final(self)@.wf(),
            (final(self)@, r) == old(self)@.spec_op(OpKind::CLV),
            r <= 2,
    {
        self.flag.set_flag_v(false);
        proof {
            assert(self@ =~= old(self)@.spec_op(OpKind::CLV).0);
        }
        return 0;
    }

    #[allow(non_snake_case)]
    fn op_SEC(&mut self) -> (r: u8)
        requires
            old(self)@.wf(),
        ensures
            final(self)@.wf(),
            (final(self)@, r) == old(self)@.spec_op(OpKind::SEC),
            r <= 2,
    {
        self.flag.set_flag_c(true);
        proof {
            assert(self@ =~= old(self)@.spec_op(OpKind::SEC).0);
        }
        return 0;
    }

    #[allow(non_snake_case)]
    fn op_SED(&mut self) -> (r: u8)
        requires
            old(self)@.wf(),
        ensures
            final(self)@.wf(),
            (final(self)@, r) == old(self)@.spec_op(OpKind::SED),
            r <= 2,
    {
        self.flag.set_flag_d(true);
        proof {
            assert(self@ =~= old(self)@.spec_op(OpKind::SED).0);
        }
        return 0;
    }

    #[allow(non_snake_case)]
    fn op_SEI(&mut self) -> (r: u8)
        requires
            old(self)@.wf(),
        ensures
            final(self)@.wf(),
            (final(self)@, r) == old(self)@.spec_op(OpKind::SEI),
            r <= 2,
    {
        self.flag.set_flag_i(true);
        proof {
            assert(self@ =~= old(self)@.spec_op(OpKind::SEI).0);
        }
        return 0;
    }

    #[allow(non_snake_case)]
    fn op_DEC(&mut self) -> (r: u8)
        requires
            old(self)@.wf(),
        ensures
            final(self)@.wf(),
            (final(self)@, r) == old(self)@.spec_op_dec(),
            r <= 2,
    {
        self.fetch();
        let temp: u8 = decrement_u8(self.fetched);
        self.bus.write_ram(self.abs_addr, temp);
        self.set_z_n_flags(temp);
        proof {
            assert(self@ =~= old(self)@.spec_op_dec().0);
        }
        return 0;
    }

    #[allow(non_snake_case)]
    fn op_INC(&mut self) -> (r: u8)
        requires
            old(self)@.wf(),
        ensures
            final(self)@.wf(),
            (final(self)@, r) == old(self)@.spec_op_inc(),
            r <= 2,
    {
        self.fetch();
        let temp: u8 = increment_u8(self.fetched);
        self.bus.write_ram(self.abs_addr, temp);
        self.set_z_n_flags(temp);
        proof {
            assert(self@ =~= old(self)@.spec_op_inc().0);
        }
        return 0;
    }

    #[allow(non_snake_case)]
    fn op_DEX(&mut self) -> (r: u8)
        requires
            old(self)@.wf(),
        ensures
            final(self)@.wf(),
            (final(self)@, r) == old(self)@.spec_op(OpKind::DEX),
            r <= 2,
    {
        self.reg_x = decrement_u8(self.reg_x);
        self.set_z_n_flags(self.reg_x);
        proof {
            assert(self@ =~= old(self)@.spec_op(OpKind::DEX).0);
        }
        return 0;
    }

    #[allow(non_snake_case)]
    fn op_DEY(&mut self) -> (r: u8)
        requires
            old(self)@.wf(),
        ensures
            final(self)@.wf(),
            (final(self)@, r) == old(self)@.spec_op(OpKind::DEY),
            r <= 2,
    {
        self.reg_y = decrement_u8(self.reg_y);
        self.set_z_n_flags(self.reg_y);
        proof {
            assert(self@ =~= old(self)@.spec_op(OpKind::DEY).0);
        }
        return 0;
    }

    #[allow(non_snake_case)]
    fn op_INX(&mut self) -> (r: u8)
        requires
            old(self)@.wf(),
        ensures
            final(self)@.wf(),
            (final(self)@, r) == old(self)@.spec_op(OpKind::INX),
            r <= 2,
    {
        self.reg_x = increment_u8(self.reg_x);
        self.set_z_n_flags(self.reg_x);
        proof {
            assert(self@ =~= old(self)@.spec_op(OpKind::INX).0);
        }
        return 0;
    }

    #[allow(non_snake_case)]
    fn op_INY(&mut self) -> (r: u8)
        requires
            old(self)@.wf(),
        ensures
            final(self)@.wf(),
            (final(self)@, r) == old(self)@.spec_op(OpKind::INY),
            r <= 2,
    {
        self.reg_y = increment_u8(self.reg_y);
        self.set_z_n_flags(self.reg_y);
        proof {
            assert(self@ =~= old(self)@.spec_op(OpKind::INY).0);
        }
        return 0;
    }

    #[allow(non_snake_case)]
    #[verifier::rlimit(100)]
    #[verifier::spinoff_prover]
    fn op_CMP(&mut self) -> (r: u8)
        requires
            old(self)@.wf(),
        ensures
            final(self)@.wf(),
            (final(self)@, r) == old(self)@.spec_op_compare(old(self)@.reg_a),
            r <= 2,
    {
        self.fetch();
        let result: u8 = if self.reg_a < self.fetched {
            0xFF - (self.fetched - self.reg_a)
        } else {
            self.reg_a - self.fetched
        };
        self.flag.set_flag_c(self.reg_a >= self.fetched);
        self.flag.set_flag_z(self.reg_a == self.fetched);
        self.flag.set_flag_n(result & 0x80 != 0);
        proof {
            assert(self@ =~= old(self)@.spec_op_compare(old(self)@.reg_a).0);
        }
        return 0;
    }

    #[allow(non_snake_case)]
    #[verifier::rlimit(100)]
    #[verifier::spinoff_prover]
    fn op_CPX(&mut self) -> (r: u8)
        requires
            old(self)@.wf(),
        ensures
            final(self)@.wf(),
            (final(self)@, r) == old(self)@.spec_op_compare(old(self)@.reg_x),
            r <= 2,
    {
        self.fetch();
        let result: u8 = if self.reg_x < self.fetched {
            0xFF - (self.fetched - self.reg_x)
        } else {
            self.reg_x - self.fetched
        };
        self.flag.set_flag_c(self.reg_x >= self.fetched);
        self.flag.set_flag_z(self.reg_x == self.fetched);
        self.flag.set_flag_n(result & 0x80 != 0);
        proof {
            assert(self@ =~= old(self)@.spec_op_compare(old(self)@.reg_x).0);
        }
        return 0;
    }

    #[allow(non_snake_case)]
    #[verifier::rlimit(100)]
    #[verifier::spinoff_prover]
    fn op_CPY(&mut self) -> (r: u8)
        requires
            old(self)@.wf(),
        ensures
            final(self)@.wf(),
            (final(self)@, r) == old(self)@.spec_op_compare(old(self)@.reg_y),
            r <= 2,
    {
        self.fetch();
        let result: u8 = if self.reg_y < self.fetched {
            0xFF - (self.fetched - self.reg_y)
        } else {
            self.reg_y - self.fetched
        };
        self.flag.set_flag_c(self.reg_y >= self.fetched);
        self.flag.set_flag_z(self.reg_y == self.fetched);
        self.flag.set_flag_n(result & 0x80 != 0);
        proof {
            assert(self@ =~= old(self)@.spec_op_compare(old(self)@.reg_y).0);
        }
        return 0;
    }

    /// A branch instruction: move PC by the relative offset when the
    /// condition holds, charging the taken and page-cross penalties.
    fn op_jump(&mut self, do_jump_condition: bool) -> (r: u8)
        requires
            old(self)@.wf(),
        ensures
            final(self)@.wf(),
            (final(self)@, r) == old(self)@.spec_op_jump(do_jump_condition),
            r <= 2,
    {
        let mut cycle_cost: u8 = 0;
        if do_jump_condition {
            cycle_cost = cycle_cost + 1;
            let updated_pc = self.pc.wrapping_add_signed(self.relative_addr_offset as i16);
            if updated_pc & 0xFF00 != self.pc & 0xFF00 {
                cycle_cost = cycle_cost + 1;
            }
            self.pc = updated_pc;
        }
        proof {
            assert(self@ =~= old(self)@.spec_op_jump(do_jump_condition).0);
        }
        return cycle_cost;
    }

    #[allow(non_snake_case)]
    fn op_BCS(&mut self) -> (r: u8)
        requires
            old(self)@.wf(),
        ensures
            final(self)@.wf(),
            (final(self)@, r) == old(self)@.spec_op(OpKind::BCS),
            r <= 2,
    {
        return self.op_jump(self.flag.get_flag_c());
    }

    #[allow(non_snake_case)]
    fn op_BCC(&mut self) -> (r: u8)
        requires
            old(self)@.wf(),
        ensures
            final(self)@.wf(),
            (final(self)@, r) == old(self)@.spec_op(OpKind::BCC),
            r <= 2,
    {
        return self.op_jump(!self.flag.get_flag_c());
    }

    #[allow(non_snake_case)]
    fn op_BEQ(&mut self) -> (r: u8)
        requires
            old(self)@.wf(),
        ensures
            final(self)@.wf(),
            (final(self)@, r) == old(self)@.spec_op(OpKind::BEQ),
            r <= 2,
    {
        return self.op_jump(self.flag.get_flag_z());
    }

    #[allow(non_snake_case)]
    fn op_BNE(&mut self) -> (r: u8)
        requires
            old(self)@.wf(),
        ensures
            final(self)@.wf(),
            (final(self)@, r) == old(self)@.spec_op(OpKind::BNE),
            r <= 2,
    {
        return self.op_jump(!self.flag.get_flag_z());
    }

    #[allow(non_snake_case)]
    fn op_BMI(&mut self) -> (r: u8)
        requires
            old(self)@.wf(),
        ensures
            final(self)@.wf(),
            (final(self)@, r) == old(self)@.spec_op(OpKind::BMI),
            r <= 2,
    {
        return self.op_jump(self.flag.get_flag_n());
    }

    #[allow(non_snake_case)]
    fn op_BPL(&mut self) -> (r: u8)
        requires
            old(self)@.wf(),
        ensures
            final(self)@.wf(),
            (final(self)@, r) == old(self)@.spec_op(OpKind::BPL),
            r <= 2,
    {
        return self.op_jump(!self.flag.get_flag_n());
    }

    #[allow(non_snake_case)]
    fn op_BVS(&mut self) -> (r: u8)
        requires
            old(self)@.wf(),
        ensures
            final(self)@.wf(),
            (final(self)@, r) == old(self)@.spec_op(OpKind::BVS),
            r <= 2,
    {
        return self.op_jump(self.flag.get_flag_v());
    }

    #[allow(non_snake_case)]
    fn op_BVC(&mut self) -> (r: u8)
        requires
            old(self)@.wf(),
        ensures
            final(self)@.wf(),
            (final(self)@, r) == old(self)@.spec_op(OpKind::BVC),
            r <= 2,
    {
        return self.op_jump(!self.flag.get_flag_v());
    }

    #[allow(non_snake_case)]
    fn op_JMP(&mut self) -> (r: u8)
        requires
            old(self)@.wf(),
        ensures
            final(self)@.wf(),
            (final(self)@, r) == old(self)@.spec_op(OpKind::JMP),
            r <= 2,
    {
        self.pc = self.abs_addr;
        proof {
            assert(self@ =~= old(self)@.spec_op(OpKind::JMP).0);
        }
        return 0;
    }

    #[allow(non_snake_case)]
    fn op_JSR(&mut self) -> (r: u8)
        requires
            old(self)@.wf(),
        ensures
            final(self)@.wf(),
            (final(self)@, r) == old(self)@.spec_op(OpKind::JSR),
            r <= 2,
    {
        self.push_stack_u16(self.pc.wrapping_sub(1));
        self.pc = self.abs_addr;
        proof {
            assert(self@ =~= old(self)@.spec_op(OpKind::JSR).0);
        }
        return 0;
    }

    #[allow(non_snake_case)]
    fn op_RTS(&mut self) -> (r: u8)
        requires
            old(self)@.wf(),
        ensures
            final(self)@.wf(),
            (final(self)@, r) == old(self)@.spec_op(OpKind::RTS),
            r <= 2,
    {
        let pc: u16 = self.pull_stack_u16();
        self.pc = pc.wrapping_add(1);
        proof {
            assert(self@ =~= old(self)@.spec_op(OpKind::RTS).0);
        }
        return 0;
    }

    #[allow(non_snake_case)]
    fn op_RTI(&mut self) -> (r: u8)
        requires
            old(self)@.wf(),
        ensures
            final(self)@.wf(),
            (final(self)@, r) == old(self)@.spec_op(OpKind::RTI),
            r <= 2,
    {
        let sr: u8 = self.pull_stack_u8();
        let pc: u16 = self.pull_stack_u16();
        let prev_b = self.flag.flag_b;
        self.flag.set_sr(sr);
        self.flag.flag_b = prev_b;
        self.pc = pc;
        proof {
            assert(self@ =~= old(self)@.spec_op(OpKind::RTI).0);
        }
        return 0;
    }

    #[allow(non_snake_case)]
    #[verifier::rlimit(100)]
    #[verifier::spinoff_prover]
    fn op_ASL(&mut self) -> (r: u8)
        requires
            old(self)@.wf(),
        ensures
            final(self)@.wf(),
            (final(self)@, r) == old(self)@.spec_op_asl(),
            r <= 2,
    {
        self.fetch();
        let value: u8 = self.fetched << 1;
        self.flag.set_flag_c(self.fetched & 0x80 != 0);
        self.set_z_n_flags(value);
        self.write_value(value);
        proof {
            assert(self@ =~= old(self)@.spec_op_asl().0);
        }
        return 0;
    }

    #[allow(non_snake_case)]
    #[verifier::rlimit(100)]
    #[verifier::spinoff_prover]
    fn op_LSR(&mut self) -> (r: u8)
        requires
            old(self)@.wf(),
        ensures
            final(self)@.wf(),
            (final(self)@, r) == old(self)@.spec_op_lsr(),
            r <= 2,
    {
        self.fetch();
        let value: u8 = self.fetched >> 1;
        self.flag.set_flag_c(self.fetched & 0x01 != 0);
        self.set_z_n_flags(value);
        self.write_value(value);
        proof {
            assert(self@ =~= old(self)@.spec_op_lsr().0);
        }
        return 0;
    }

    #[allow(non_snake_case)]
    #[verifier::rlimit(100)]
    #[verifier::spinoff_prover]
    fn op_ROL(&mut self) -> (r: u8)
        requires
            old(self)@.wf(),
        ensures
            final(self)@.wf(),
            (final(self)@, r) == old(self)@.spec_op_rol(),
            r <= 2,
    {
        self.fetch();
        let value: u8 = (self.fetched << 1) | self.flag.flag_c;
        self.flag.set_flag_c(self.fetched & 0x80 != 0);
        self.set_z_n_flags(value);
        self.write_value(value);
        proof {
            assert(self@ =~= old(self)@.spec_op_rol().0);
        }
        return 0;
    }

    #[allow(non_snake_case)]
    #[verifier::rlimit(100)]
    #[verifier::spinoff_prover]
    fn op_ROR(&mut self) -> (r: u8)
        requires
            old(self)@.wf(),
        ensures
            final(self)@.wf(),
            (final(self)@, r) == old(self)@.spec_op_ror(),
            r <= 2,
    {
        self.fetch();
        let value: u8 = (self.flag.flag_c << 7) | (self.fetched >> 1);
        self.flag.set_flag_c(self.fetched & 0x01 != 0);
        self.set_z_n_flags(value);
        self.write_value(value);
        proof {
            assert(self@ =~= old(self)@.spec_op_ror().0);
        }
        return 0;
    }

    #[allow(non_snake_case)]
    fn op_PHA(&mut self) -> (r: u8)
        requires
            old(self)@.wf(),
        ensures
            final(self)@.wf(),
            (final(self)@, r) == old(self)@.spec_op(OpKind::PHA),
            r <= 2,
    {
        self.push_stack_u8(self.reg_a);
        proof {
            assert(self@ =~= old(self)@.spec_op(OpKind::PHA).0);
        }
        return 0;
    }

    #[allow(non_snake_case)]
    fn op_PHP(&mut self) -> (r: u8)
        requires
            old(self)@.wf(),
        ensures
            final(self)@.wf(),
            (final(self)@, r) == old(self)@.spec_op(OpKind::PHP),
            r <= 2,
    {
        let sr = self.flag.get_sr();
        self.push_stack_u8(sr | 0x10);
        proof {
            assert(self@ =~= old(self)@.spec_op(OpKind::PHP).0);
        }
        return 0;
    }

    #[allow(non_snake_case)]
    fn op_PLA(&mut self) -> (r: u8)
        requires
            old(self)@.wf(),
        ensures
            final(self)@.wf(),
            (final(self)@, r) == old(self)@.spec_op(OpKind::PLA),
            r <= 2,
    {
        let v = self.pull_stack_u8();
        self.reg_a = v;
        self.set_z_n_flags(self.reg_a);
        proof {
            assert(self@ =~= old(self)@.spec_op(OpKind::PLA).0);
        }
        return 0;
    }

    #[allow(non_snake_case)]
    fn op_PLP(&mut self) -> (r: u8)
        requires
            old(self)@.wf(),
        ensures
            final(self)@.wf(),
            (final(self)@, r) == old(self)@.spec_op(OpKind::PLP),
            r <= 2,
    {
        let sr: u8 = self.pull_stack_u8();
        let prev_b = self.flag.flag_b;
        self.flag.set_sr(sr);
        self.flag.flag_b = prev_b;
        proof {
            assert(self@ =~= old(self)@.spec_op(OpKind::PLP).0);
        }
        return 0;
    }

    #[allow(non_snake_case)]
    #[verifier::rlimit(100)]
    #[verifier::spinoff_prover]
    fn op_BRK(&mut self) -> (r: u8)
        requires
            old(self)@.wf(),
        ensures
            final(self)@.wf(),
            (final(self)@, r) == old(self)@.spec_op_brk(),
            r <= 2,
    {
        self.push_stack_u16(self.pc.wrapping_add(1));
        let sr = self.flag.get_sr();
        self.push_stack_u8(sr | 0x10);
        self.flag.set_flag_i(true);
        let lo = self.bus.read_ram(0xFFFE) as u16;
        let hi = self.bus.read_ram(0xFFFF) as u16;
        self.pc = lo | (hi << 8);
        proof {
            assert(self@ =~= old(self)@.spec_op_brk().0);
        }
        return 0;
    }

    /// Run one operation.
    #[verifier::rlimit(100)]
    #[verifier::spinoff_prover]
    fn run_operation(&mut self, kind: OpKind) -> (r: u8)
        requires
            old(self)@.wf(),
        ensures
            final(self)@.wf(),
            (final(self)@, r) == old(self)@.spec_op(kind),
            r <= 2,
    {
        match kind {
            OpKind::ADC => self.op_ADC(),
            OpKind::AND => self.op_AND(),
            OpKind::ASL => self.op_ASL(),
            OpKind::BCC => self.op_BCC(),
            OpKind::BCS => self.op_BCS(),
            OpKind::BEQ => self.op_BEQ(),
            OpKind::BIT => self.op_BIT(),
            OpKind::BMI => self.op_BMI(),
            OpKind::BNE => self.op_BNE(),
            OpKind::BPL => self.op_BPL(),
            OpKind::BRK => self.op_BRK(),
            OpKind::BVC => self.op_BVC(),
            OpKind::BVS => self.op_BVS(),
            OpKind::CLC => self.op_CLC(),
            OpKind::CLD => self.op_CLD(),
            OpKind::CLI => self.op_CLI(),
            OpKind::CLV => self.op_CLV(),
            OpKind::CMP => self.op_CMP(),
            OpKind::CPX => self.op_CPX(),
            OpKind::CPY => self.op_CPY(),
            OpKind::DEC => self.op_DEC(),
            OpKind::DEX => self.op_DEX(),
            OpKind::DEY => self.op_DEY(),
            OpKind::EOR => self.op_EOR(),
            OpKind::INC => self.op_INC(),
            OpKind::INX => self.op_INX(),
            OpKind::INY => self.op_INY(),
            OpKind::JMP => self.op_JMP(),
            OpKind::JSR => self.op_JSR(),
            OpKind::LDA => self.op_LDA(),
            OpKind::LDX => self.op_LDX(),
            OpKind::LDY => self.op_LDY(),
            OpKind::LSR => self.op_LSR(),
            OpKind::NOP => self.op_NOP(),
            OpKind::NUL => self.op_NOP(),
            OpKind::ORA => self.op_ORA(),
            OpKind::PHA => self.op_PHA(),
            OpKind::PHP => self.op_PHP(),
            OpKind::PLA => self.op_PLA(),
            OpKind::PLP => self.op_PLP(),
            OpKind::ROL => self.op_ROL(),
            OpKind::ROR => self.op_ROR(),
            OpKind::RTI => self.op_RTI(),
            OpKind::RTS => self.op_RTS(),
            OpKind::SBC => self.op_SBC(),
            OpKind::SEC => self.op_SEC(),
            OpKind::SED => self.op_SED(),
            OpKind::SEI => self.op_SEI(),
            OpKind::STA => self.op_STA(),
            OpKind::STX => self.op_STX(),
            OpKind::STY => self.op_STY(),
            OpKind::TAX => self.op_TAX(),
            OpKind::TAY => self.op_TAY(),
            OpKind::TSX => self.op_TSX(),
            OpKind::TXA => self.op_TXA(),
            OpKind::TXS => self.op_TXS(),
            OpKind::TYA => self.op_TYA(),
        }
    }
}

impl CpuView {
    /// One machine cycle: the tick counter advances and its parity is
    /// latched for the DMA stall rule; a pending instruction just burns a
    /// cycle, otherwise the opcode at PC is fetched, decoded and executed,
    /// and the pending counter is charged with its full documented cost
    /// (base cycles plus page-cross and branch penalties) less the cycle
    /// just consumed.
    pub open spec fn spec_step(self) -> CpuView {
        let c0 = CpuView { tick_count: (self.tick_count + 1) as u64, ..self };
        let c1 = CpuView {
            bus: BusView { cpu_odd_cycle: c0.tick_count % 2 == 1, ..c0.bus },
            ..c0
        };
        if c1.cycles > 0 {
            CpuView { cycles: (c1.cycles - 1) as u8, ..c1 }
        } else {
            c1.spec_step_fetch()
        }
    }

    /// The fetch/decode/execute half of one machine cycle, entered with the
    /// pending-cycles counter at zero.
    pub open spec fn spec_step_fetch(self) -> CpuView {
        let fetch = self.spec_read_pc();
        let info = spec_opcode(fetch.1);
        let c2 = CpuView {
            is_accumulator_opcode: info.addr_t == AddrMode::ACC,
            ..fetch.0
        };
        let ra = c2.spec_addr(info.addr_t);
        let ro = ra.0.spec_op(info.operation);
        CpuView { cycles: (ra.1 + ro.1 + info.cycles - 1) as u8, ..ro.0 }
    }

    /// The NMI entry together with its cycle charge on the pending
    /// counter (wrapping, as the counter is 8 bits).
    pub open spec fn spec_trigger_nmi(self) -> CpuView {
        let c = self.spec_nmi();
        CpuView { cycles: u8_wrap(c.cycles + 8), ..c }
    }

    /// One scheduler step: a pending DMA stall burns the cycle; otherwise a
    /// pending NMI edge is consumed and taken, and the CPU ticks once.
    /// Either way the PPU then advances three dots.
    pub open spec fn spec_system_step(self) -> CpuView {
        self.spec_system_cpu_part().spec_system_step_ppu_part()
    }

    /// The CPU half of one scheduler step: burn a DMA stall cycle, or
    /// consume a pending NMI edge and tick once.
    pub open spec fn spec_system_cpu_part(self) -> CpuView {
        if self.bus.dma_cycles > 0 {
            CpuView {
                bus: BusView { dma_cycles: (self.bus.dma_cycles - 1) as u16, ..self.bus },
                ..self
            }
        } else {
            let pending = self.bus.ppu.nmi_triggered;
            let consumed = CpuView {
                bus: BusView {
                    ppu: PpuView { nmi_triggered: false, ..self.bus.ppu },
                    ..self.bus
                },
                ..self
            };
            let served = if pending {
                consumed.spec_trigger_nmi()
            } else {
                consumed
            };
            served.spec_step()
        }
    }

    /// The reset sequence: PC from the reset vector, registers zeroed, SP
    /// at 0xFD, only the I flag set, scratch state cleared, seven cycles
    /// charged, the bus DMA stall cleared, and the PPU dot and scanline
    /// counters and background shift pipeline zeroed.
    pub open spec fn spec_reset(self) -> CpuView {
        let lo = self.spec_read_step(0xFFFC);
        let hi = lo.0.spec_read_step(0xFFFD);
        CpuView {
            pc: (lo.1 as u16 | ((hi.1 as u16) << 8)) as u16,
            reg_a: 0u8,
            reg_x: 0u8,
            reg_y: 0u8,
            reg_sp: 0xFDu8,
            flag: Flag { flag_i: 1u8, ..Flag::spec_from_sr(0) },
            abs_addr: 0u16,
            relative_addr_offset: 0i8,
            fetched: 0u8,
            tick_count: 0u64,
            cycles: 7u8,
            bus: BusView {
                dma_cycles: 0u16,
                ppu: PpuView {
                    pixel: 0u16,
                    scanline: 0u16,
                    bg_pattern_shift_low: 0u16,
                    bg_pattern_shift_high: 0u16,
                    bg_palette_shift_low: 0u16,
                    bg_palette_shift_high: 0u16,
                    sprite_pattern_shift_low: Seq::new(8, |j: int| 0u8),
                    sprite_pattern_shift_high: Seq::new(8, |j: int| 0u8),
                    sprite_count: 0usize,
                    ..hi.0.bus.ppu
                },
                ..hi.0.bus
            },
            ..hi.0
        }
    }
}

impl Cpu {
    /// The CPU half of one scheduler step.
    #[verifier::rlimit(100)]
    #[verifier::spinoff_prover]
    fn system_cpu_phase(&mut self)
        requires
            old(self)@.wf(),
            old(self)@.tick_count < u64::MAX,
        ensures
            final(self)@.wf(),
            final(self)@ == old(self)@.spec_system_cpu_part(),
    {
        if self.bus.dma_cycles > 0 {
            self.bus.dma_cycles = self.bus.dma_cycles - 1;
            proof {
                assert(self@ =~= old(self)@.spec_system_cpu_part());
            }
        } else {
            let ghost orig = self@;
            let pending = self.bus.ppu.get_and_reset_nmi_triggered();
            proof {
                assert(self@ =~= (CpuView {
                    bus: BusView {
                        ppu: PpuView { nmi_triggered: false, ..orig.bus.ppu },
                        ..orig.bus
                    },
                    ..orig
                }));
            }
            if pending {
                self.trigger_nmi();
            }
            self.tick();
            proof {
                assert(final(self)@ == old(self)@.spec_system_cpu_part());
            }
        }
    }

    /// The three PPU dots every scheduler step ends with.
    #[verifier::rlimit(100)]
    #[verifier::spinoff_prover]
    fn system_ppu_phase(&mut self)
        requires
            old(self)@.wf(),
        ensures
            final(self)@.wf(),
            final(self)@ == old(self)@.spec_system_step_ppu_part(),
    {
        self.bus.ppu.tick(&self.bus.rom);
        proof {
            assert(self@ =~= (CpuView {
                bus: BusView {
                    ppu: old(self)@.bus.ppu.spec_tick(old(self)@.bus.rom),
                    ..old(self)@.bus
                },
                ..old(self)@
            }));
        }
        let ghost m2 = self@;
        self.bus.ppu.tick(&self.bus.rom);
        proof {
            assert(self@ =~= (CpuView {
                bus: BusView { ppu: m2.bus.ppu.spec_tick(m2.bus.rom), ..m2.bus },
                ..m2
            }));
        }
        let ghost m3 = self@;
        self.bus.ppu.tick(&self.bus.rom);
        proof {
            assert(self@ =~= (CpuView {
                bus: BusView { ppu: m3.bus.ppu.spec_tick(m3.bus.rom), ..m3.bus },
                ..m3
            }));
            assert(final(self)@ == old(self)@.spec_system_step_ppu_part());
        }
    }

    /// Interleave the system one scheduler step: honour a DMA stall, serve
    /// a pending NMI, tick the CPU, then advance the PPU three dots.
    pub fn execute_cpu_ppu(&mut self)
        requires
            old(self)@.wf(),
            old(self)@.tick_count < u64::MAX,
        ensures
            final(self)@.wf(),
            final(self)@ == old(self)@.spec_system_step(),
    {
        self.system_cpu_phase();
        self.system_ppu_phase();
    }

    /// Take the pending NMI now and add its cycle cost to the pending
    /// counter.
    #[verifier::spinoff_prover]
    pub fn trigger_nmi(&mut self)
        requires
            old(self)@.wf(),
        ensures
            final(self)@.wf(),
            final(self)@ == old(self)@.spec_trigger_nmi(),
    {
        let n = self.nmi();
        self.cycles = self.cycles.wrapping_add(n);
        proof {
            assert(self@ =~= old(self)@.spec_trigger_nmi());
        }
    }

    /// The fetch/decode/execute half of a machine cycle.
    #[verifier::rlimit(100)]
    #[verifier::spinoff_prover]
    fn tick_fetch_execute(&mut self)
        requires
            old(self)@.wf(),
            old(self)@.cycles == 0,
        ensures
            final(self)@.wf(),
            final(self)@ == old(self)@.spec_step_fetch(),
    {
        let current_opcode: u8 = self.read_pc_byte();
        let opcode = crate::opcodes::opcode_lookup(current_opcode);
        self.is_accumulator_opcode = opcode.addr_t == AddrMode::ACC;
        let p1 = self.run_addressing(opcode.addr_t);
        let p2 = self.run_operation(opcode.operation);
        self.cycles = p1 + p2 + opcode.cycles - 1;
        proof {
            assert(self@ =~= old(self)@.spec_step_fetch());
        }
    }

    /// One machine cycle, as `spec_step` describes: burn a pending cycle or
    /// fetch, decode and execute the next instruction and charge its cost.
    #[verifier::rlimit(100)]
    #[verifier::spinoff_prover]
    pub fn tick(&mut self)
        requires
            old(self)@.wf(),
            old(self)@.tick_count < u64::MAX,
        ensures
            final(self)@.wf(),
            final(self)@ == old(self)@.spec_step(),
    {
        self.tick_count = self.tick_count + 1;
        self.bus.cpu_odd_cycle = self.tick_count % 2 == 1;
        if self.cycles > 0 {
            self.cycles = self.cycles - 1;
            proof {
                assert(self@ =~= old(self)@.spec_step());
            }
            return;
        }
        let ghost c1 = self@;
        self.tick_fetch_execute();
        proof {
            assert(c1 =~= (CpuView {
                bus: BusView {
                    cpu_odd_cycle: (old(self)@.tick_count + 1) as u64 % 2 == 1,
                    ..old(self)@.bus
                },
                tick_count: (old(self)@.tick_count + 1) as u64,
                ..old(self)@
            }));
            assert(final(self)@ == old(self)@.spec_step());
        }
    }

    /// NMI entry: push PC and status with B clear, set I, vector through
    /// 0xFFFA/0xFFFB; costs 8 cycles.
    pub fn nmi(&mut self) -> (r: u8)
        requires
            old(self)@.wf(),
        ensures
            final(self)@.wf(),
            final(self)@ == old(self)@.spec_nmi(),
            r == 8,
    {
        self.flag.set_flag_b(false);
        self.push_stack_u16(self.pc);
        let sr = self.flag.get_sr();
        self.push_stack_u8(sr);
        self.flag.set_flag_i(true);
        let lo = self.bus.read_ram(0xFFFA) as u16;
        let hi = self.bus.read_ram(0xFFFB) as u16;
        self.pc = lo | (hi << 8);
        proof {
            assert(self@ =~= old(self)@.spec_nmi());
        }
        return 8;
    }

    /// IRQ entry: taken only while I is clear, through 0xFFFE/0xFFFF;
    /// costs 7 cycles when taken.
    pub fn irq(&mut self) -> (r: u8)
        requires
            old(self)@.wf(),
        ensures
            final(self)@.wf(),
            final(self)@ == old(self)@.spec_irq(),
            r == (if old(self)@.flag.flag_i == 1 { 0int } else { 7int }),
    {
        if self.flag.get_flag_i() {
            return 0;
        }
        self.flag.set_flag_b(false);
        self.push_stack_u16(self.pc);
        let sr = self.flag.get_sr();
        self.push_stack_u8(sr);
        self.flag.set_flag_i(true);
        let lo = self.bus.read_ram(0xFFFE) as u16;
        let hi = self.bus.read_ram(0xFFFF) as u16;
        self.pc = lo | (hi << 8);
        proof {
            assert(self@ =~= old(self)@.spec_irq());
        }
        return 7;
    }

    /// System reset: reread the reset vector, zero the registers, set I,
    /// charge seven cycles, clear the bus DMA stall, and zero the PPU dot
    /// and scanline counters and background shift pipeline.
    pub fn reset(&mut self)
        requires
            old(self)@.wf(),
        ensures
            final(self)@.wf(),
            final(self)@ == old(self)@.spec_reset(),
    {
        let lo = self.bus.read_ram(0xFFFC) as u16;
        let hi = self.bus.read_ram(0xFFFD) as u16;
        self.pc = lo | (hi << 8);
        self.reg_a = 0;
        self.reg_x = 0;
        self.reg_y = 0;
        self.reg_sp = 0xFD;
        self.flag.set_sr(0);
        self.flag.set_flag_i(true);
        self.abs_addr = 0x0000;
        self.relative_addr_offset = 0x00;
        self.fetched = 0x00;
        self.tick_count = 0;
        self.cycles = 7;
        self.bus.dma_cycles = 0;
        self.bus.ppu.pixel = 0;
        self.bus.ppu.scanline = 0;
        self.bus.ppu.bg_pattern_shift_low = 0;
        self.bus.ppu.bg_pattern_shift_high = 0;
        self.bus.ppu.bg_palette_shift_low = 0;
        self.bus.ppu.bg_palette_shift_high = 0;
        self.bus.ppu.sprite_pattern_shift_low = crate::rom::zero_vec(8);
        self.bus.ppu.sprite_pattern_shift_high = crate::rom::zero_vec(8);
        self.bus.ppu.sprite_count = 0;
        proof {
            assert(self@ =~= old(self)@.spec_reset());
        }
    }

    /// The decode-table entry for the opcode byte at `pc_addr`, read
    /// without side effects.
    pub fn get_optcode(&self, pc_addr: u16) -> (r: Opcode)
        requires
            self@.wf(),
        ensures
            r == spec_opcode(self@.bus.spec_read_debug(pc_addr)),
    {
        let current_opcode: u8 = self.bus.read_ram_immutable_debug(pc_addr);
        opcode_lookup(current_opcode)
    }

/// Run scheduler steps until the PPU's scanline counter wraps into a
    /// new frame, reporting whether the wrap was seen; it is missed only
    /// when the tick counter runs into its cap first. On a wrap the PPU is
    /// at most two dots into scanline zero.
    pub fn run_frame(&mut self) -> (completed: bool)
        requires
            old(self)@.wf(),
        ensures
            final(self)@.wf(),
            completed ==> final(self)@.bus.ppu.scanline < 261,
            !completed ==> final(self)@.tick_count == u64::MAX,
    {
        loop
            invariant
                self@.wf(),
            ensures
                self@.wf(),
                self@.tick_count == u64::MAX,
            decreases u64::MAX - self@.tick_count, self@.bus.dma_cycles,
        {
            if self.tick_count >= u64::MAX {
                break;
            }
            let before = self.bus.ppu.scanline;
            let ghost pre = self@;
            self.execute_cpu_ppu();
            proof {
                let stepped = pre.spec_system_cpu_part();
                if pre.bus.dma_cycles == 0 {
                    let consumed = CpuView {
                        bus: BusView {
                            ppu: PpuView { nmi_triggered: false, ..pre.bus.ppu },
                            ..pre.bus
                        },
                        ..pre
                    };
                    let served = if pre.bus.ppu.nmi_triggered {
                        consumed.spec_trigger_nmi()
                    } else {
                        consumed
                    };
                    lemma_trigger_nmi_tick_count(consumed);
                    lemma_step_fetch_tick_count(
                        CpuView {
                            tick_count: (served.tick_count + 1) as u64,
                            bus: BusView {
                                cpu_odd_cycle: (served.tick_count + 1) as u64 % 2 == 1,
                                ..served.bus
                            },
                            ..served
                        },
                    );
                    assert(stepped.tick_count == pre.tick_count + 1);
                } else {
                    assert(stepped.tick_count == pre.tick_count && stepped.bus.dma_cycles
                        < pre.bus.dma_cycles);
                }
                assert(self@.tick_count == stepped.tick_count && self@.bus.dma_cycles
                    == stepped.bus.dma_cycles);
            }
            if self.bus.ppu.scanline < before {
                return true;
            }
        }
        return false;
    }

    /// Tick until the program counter reaches zero, a debugging
    /// convenience for short test programs. Stops early only when the
    /// tick counter runs into its cap.
    pub fn run_until_interrupt(&mut self)
        requires
            old(self)@.wf(),
        ensures
            final(self)@.wf(),
            final(self)@.tick_count >= old(self)@.tick_count,
            final(self)@.pc == 0 || final(self)@.tick_count == u64::MAX,
    {
        let mut remaining: u64 = u64::MAX;
        loop
            invariant
                self@.wf(),
                self@.tick_count == old(self)@.tick_count + (u64::MAX - remaining),
            ensures
                self@.wf(),
                self@.tick_count >= old(self)@.tick_count,
                self@.pc == 0 || self@.tick_count == u64::MAX,
            decreases remaining,
        {
            if self.tick_count >= u64::MAX {
                break;
            }
            if remaining == 0 {
                break;
            }
            remaining = remaining - 1;
            let ghost pre = self@;
            self.tick();
            proof {
                if pre.cycles == 0 {
                    lemma_step_fetch_tick_count(
                        CpuView {
                            tick_count: (pre.tick_count + 1) as u64,
                            bus: BusView {
                                cpu_odd_cycle: (pre.tick_count + 1) as u64 % 2 == 1,
                                ..pre.bus
                            },
                            ..pre
                        },
                    );
                }
            }
            if self.pc == 0x00 {
                break;
            }
        }
    }
}

impl CpuView {
    /// The three PPU dots every scheduler step ends with.
    pub open spec fn spec_system_step_ppu_part(self) -> CpuView {
        let c2 = CpuView {
            bus: BusView { ppu: self.bus.ppu.spec_tick(self.bus.rom), ..self.bus },
            ..self
        };
        let c3 = CpuView {
            bus: BusView { ppu: c2.bus.ppu.spec_tick(c2.bus.rom), ..c2.bus },
            ..c2
        };
        CpuView {
            bus: BusView { ppu: c3.bus.ppu.spec_tick(c3.bus.rom), ..c3.bus },
            ..c3
        }
    }
}

/// Stack round trip: pushing a byte and pulling again restores both the
/// byte and the stack pointer.
pub proof fn lemma_stack_push_pull(c: CpuView, b: u8)
    requires
        c.wf(),
    ensures
        c.spec_push_u8(b).spec_pull_u8().1 == b,
        c.spec_push_u8(b).spec_pull_u8().0.reg_sp == c.reg_sp,
{
    reveal(BusView::spec_read_value);
    reveal(BusView::spec_read_state);
    reveal(BusView::spec_write_state);
    let sp = c.reg_sp;
    let t: u16 = (0x100 + sp) as u16;
    assert(t & 0x7FF == t && t < 0x2000) by (bit_vector)
        requires
            t == (0x100 + sp) as u16,
    ;
}

/// Subtraction is addition of the ones' complement: SBC leaves the same
/// accumulator and the same N, V, Z and C flags as ADC run on the
/// complemented operand.
pub proof fn lemma_sbc_is_adc_of_complement(c: CpuView)
    requires
        c.is_accumulator_opcode,
    ensures
        ({
            let s = c.spec_op_sbc().0;
            let a = (CpuView { fetched: (c.fetched ^ 0xFF) as u8, ..c }).spec_op_adc().0;
            s.reg_a == a.reg_a && s.flag == a.flag
        }),
{
}

/// Stack round trip for the accumulator: PHA followed by PLA restores A
/// and the stack pointer, and sets Z and N from the restored value.
pub proof fn lemma_pha_pla_round_trip(c: CpuView)
    requires
        c.wf(),
    ensures
        ({
            let pulled = c.spec_op(OpKind::PHA).0.spec_op(OpKind::PLA).0;
            &&& pulled.reg_a == c.reg_a
            &&& pulled.reg_sp == c.reg_sp
            &&& pulled.flag.flag_z == (if c.reg_a == 0 {
                1u8
            } else {
                0u8
            })
            &&& pulled.flag.flag_n == (if c.reg_a & 0x80 != 0 {
                1u8
            } else {
                0u8
            })
        }),
{
    reveal(BusView::spec_read_value);
    reveal(BusView::spec_read_state);
    reveal(BusView::spec_write_state);
    let sp = c.reg_sp;
    let t: u16 = (0x100 + sp) as u16;
    assert(t & 0x7FF == t && t < 0x2000) by (bit_vector)
        requires
            t == (0x100 + sp) as u16,
    ;
}

/// Stack round trip for the status byte: PHP followed by PLP restores
/// every flag exactly - bit 5 is forced to 1 on the wire, and bit 4 of
/// the pulled byte is ignored, so the B flag keeps its old value.
pub proof fn lemma_php_plp_round_trip(c: CpuView)
    requires
        c.wf(),
    ensures
        c.spec_op(OpKind::PHP).0.spec_op(OpKind::PLP).0.flag == c.flag,
        c.spec_op(OpKind::PHP).0.spec_op(OpKind::PLP).0.reg_sp == c.reg_sp,
{
    reveal(BusView::spec_read_value);
    reveal(BusView::spec_read_state);
    reveal(BusView::spec_write_state);
    let sp = c.reg_sp;
    let t: u16 = (0x100 + sp) as u16;
    assert(t & 0x7FF == t && t < 0x2000) by (bit_vector)
        requires
            t == (0x100 + sp) as u16,
    ;
    let cc = c.flag.flag_c;
    let z = c.flag.flag_z;
    let i = c.flag.flag_i;
    let d = c.flag.flag_d;
    let b = c.flag.flag_b;
    let v = c.flag.flag_v;
    let n = c.flag.flag_n;
    let sr2 = (c.flag.spec_sr() | 0x10) as u8;
    assert((if sr2 & (1u8 << 0) != 0 { 1u8 } else { 0u8 }) == cc && (if sr2 & (1u8 << 1) != 0 {
        1u8
    } else {
        0u8
    }) == z && (if sr2 & (1u8 << 2) != 0 { 1u8 } else { 0u8 }) == i && (if sr2 & (1u8 << 3) != 0 {
        1u8
    } else {
        0u8
    }) == d && (if sr2 & (1u8 << 4) != 0 { 1u8 } else { 0u8 }) == 1u8 && (if sr2 & (1u8 << 6) != 0 {
        1u8
    } else {
        0u8
    }) == v && (if sr2 & (1u8 << 7) != 0 { 1u8 } else { 0u8 }) == n) by (bit_vector)
        requires
            cc <= 1 && z <= 1 && i <= 1 && d <= 1 && b <= 1 && v <= 1 && n <= 1,
            sr2 == ((cc | (z << 1) | (i << 2) | (d << 3) | (b << 4) | (1u8 << 5) | (v << 6) | (n
                << 7)) | 0x10) as u8,
    ;
}

/// Serving an NMI moves no tick counter.
pub proof fn lemma_trigger_nmi_tick_count(c: CpuView)
    ensures
        c.spec_trigger_nmi().tick_count == c.tick_count,
{
}

/// The machine state after `k` ticks.
pub open spec fn spec_steps(c: CpuView, k: nat) -> CpuView
    decreases k,
{
    if k == 0 {
        c
    } else {
        spec_steps(c.spec_step(), (k - 1) as nat)
    }
}

/// While the pending-cycles counter drains, each tick only burns one
/// pending cycle and advances the tick counter; `k` ticks empty a counter
/// of `k`, with everything else unchanged.
pub proof fn lemma_drain(c: CpuView, k: u8)
    requires
        c.cycles == k,
        k >= 1,
        c.tick_count + k <= u64::MAX,
    ensures
        spec_steps(c, k as nat) == (CpuView {
            cycles: 0u8,
            tick_count: (c.tick_count + k) as u64,
            bus: BusView {
                cpu_odd_cycle: (c.tick_count + k) as u64 % 2 == 1,
                ..c.bus
            },
            ..c
        }),
        forall|j: nat| j < k ==> #[trigger] spec_steps(c, j).cycles == k - j,
    decreases k,
{
    let c1 = c.spec_step();
    assert(c1 =~= (CpuView {
        cycles: (k - 1) as u8,
        tick_count: (c.tick_count + 1) as u64,
        bus: BusView { cpu_odd_cycle: (c.tick_count + 1) as u64 % 2 == 1, ..c.bus },
        ..c
    }));
    if k == 1 {
        assert(spec_steps(c, 1) == c1);
        assert forall|j: nat| j < 1 implies #[trigger] spec_steps(c, j).cycles == 1 - j by {
            assert(spec_steps(c, 0) == c);
        }
    } else {
        lemma_drain(c1, (k - 1) as u8);
        assert(spec_steps(c, k as nat) == spec_steps(c1, (k - 1) as nat));
        assert(spec_steps(c, k as nat) =~= (CpuView {
            cycles: 0u8,
            tick_count: (c.tick_count + k) as u64,
            bus: BusView {
                cpu_odd_cycle: (c.tick_count + k) as u64 % 2 == 1,
                ..c.bus
            },
            ..c
        }));
        assert forall|j: nat| j < k implies #[trigger] spec_steps(c, j).cycles == k - j by {
            if j == 0 {
                assert(spec_steps(c, 0) == c);
            } else {
                assert(spec_steps(c, j) == spec_steps(c1, (j - 1) as nat));
                assert(spec_steps(c1, (j - 1) as nat).cycles == (k - 1) - (j - 1));
            }
        }
    }
}

/// Every addressing mode's page-cross penalty is at most one cycle.
pub proof fn lemma_addr_penalty_bound(c: CpuView, mode: AddrMode)
    ensures
        c.spec_addr(mode).1 <= 1,
{
}

/// Every operation's extra cost is at most the two cycles of a taken
/// branch that crosses a page.
pub proof fn lemma_op_penalty_bound(c: CpuView, kind: OpKind)
    ensures
        c.spec_op(kind).1 <= 2,
{
}

/// Cycle budget invariant: from an instruction boundary (pending counter
/// at zero), the issued instruction holds the CPU for exactly its
/// published cost - the decode-table base cycles plus the page-cross and
/// branch-taken penalties. The tick counter grows by exactly that cost,
/// the pending counter stays busy at every tick in between and is empty
/// again at the end.
pub proof fn lemma_cycle_budget(c: CpuView)
    requires
        c.wf(),
        c.cycles == 0,
        c.tick_count + 12 < u64::MAX,
    ensures
        ({
            let c1 = CpuView {
                tick_count: (c.tick_count + 1) as u64,
                bus: BusView {
                    cpu_odd_cycle: (c.tick_count + 1) as u64 % 2 == 1,
                    ..c.bus
                },
                ..c
            };
            let fetch = c1.spec_read_pc();
            let info = spec_opcode(fetch.1);
            let ra = (CpuView {
                is_accumulator_opcode: info.addr_t == AddrMode::ACC,
                ..fetch.0
            }).spec_addr(info.addr_t);
            let ro = ra.0.spec_op(info.operation);
            let total = ra.1 + ro.1 + info.cycles;
            &&& spec_steps(c, total as nat).cycles == 0
            &&& spec_steps(c, total as nat).tick_count == c.tick_count + total
            &&& forall|j: nat|
                1 <= j < total ==> #[trigger] spec_steps(c, j).cycles == total - j
        }),
{
    let c1 = CpuView {
        tick_count: (c.tick_count + 1) as u64,
        bus: BusView { cpu_odd_cycle: (c.tick_count + 1) as u64 % 2 == 1, ..c.bus },
        ..c
    };
    let fetch = c1.spec_read_pc();
    let info = spec_opcode(fetch.1);
    let ra = (CpuView {
        is_accumulator_opcode: info.addr_t == AddrMode::ACC,
        ..fetch.0
    }).spec_addr(info.addr_t);
    let ro = ra.0.spec_op(info.operation);
    let total = ra.1 + ro.1 + info.cycles;
    crate::opcodes::lemma_opcode_cycles(fetch.1);
    lemma_addr_penalty_bound(
        CpuView { is_accumulator_opcode: info.addr_t == AddrMode::ACC, ..fetch.0 },
        info.addr_t,
    );
    lemma_op_penalty_bound(ra.0, info.operation);
    let after = c.spec_step();
    assert(after == CpuView { cycles: (total - 1) as u8, ..ro.0 });
    assert(after.tick_count == c.tick_count + 1) by {
        lemma_step_fetch_tick_count(c1);
    }
    if total == 1 {
        assert(spec_steps(c, 1) == after);
        assert forall|j: nat| 1 <= j < total implies #[trigger] spec_steps(c, j).cycles == total
            - j by {
        }
    } else {
        lemma_drain(after, (total - 1) as u8);
        assert(spec_steps(c, total as nat) == spec_steps(after, (total - 1) as nat));
        assert forall|j: nat| 1 <= j < total implies #[trigger] spec_steps(c, j).cycles == total
            - j by {
            assert(spec_steps(c, j) == spec_steps(after, (j - 1) as nat));
            if j == 1 {
                assert(spec_steps(after, 0) == after);
            }
        }
    }
}

/// The fetch half of a cycle reads, decodes and executes, none of which
/// moves the tick counter.
pub proof fn lemma_step_fetch_tick_count(c: CpuView)
    ensures
        c.spec_step_fetch().tick_count == c.tick_count,
{
    let fetch = c.spec_read_pc();
    let info = spec_opcode(fetch.1);
    let c2 = CpuView { is_accumulator_opcode: info.addr_t == AddrMode::ACC, ..fetch.0 };
    lemma_addr_tick_count(c2, info.addr_t);
    lemma_op_tick_count(c2.spec_addr(info.addr_t).0, info.operation);
}

/// Addressing never moves the tick counter.
pub proof fn lemma_addr_tick_count(c: CpuView, mode: AddrMode)
    ensures
        c.spec_addr(mode).0.tick_count == c.tick_count,
{
}

/// No operation moves the tick counter.
pub proof fn lemma_op_tick_count(c: CpuView, kind: OpKind)
    ensures
        c.spec_op(kind).0.tick_count == c.tick_count,
{
}

impl Opcode {
    /// The address this instruction touches, as the inspection tooling
    /// computes it from the side-effect-free read path: the absolute
    /// operand of a three-byte instruction, or the target of a relative
    /// branch. Other two-byte and all one-byte forms report none.
    pub open spec fn spec_memory_addr_accessed(self, b: BusView, pc_value: u16) -> Option<u16> {
        if self.spec_byte_size() == 3 {
            Some(
                (b.spec_read_debug(u16_specs::wrapping_add(pc_value, 1)) as u16 | ((
                b.spec_read_debug(u16_specs::wrapping_add(pc_value, 2)) as u16) << 8)) as u16,
            )
        } else if self.spec_byte_size() == 2 && self.addr_t == AddrMode::REL {
            Some(
                u16_specs::wrapping_add(
                    u16_specs::wrapping_add_signed(
                        pc_value,
                        (b.spec_read_debug(u16_specs::wrapping_add(pc_value, 1)) as i8) as i16,
                    ),
                    2,
                ),
            )
        } else {
            None
        }
    }

    pub fn get_memory_addr_accessed(&self, cpu: &Cpu, pc_value: u16) -> (r: Option<u16>)
        requires
            cpu@.wf(),
        ensures
            r == self.spec_memory_addr_accessed(cpu@.bus, pc_value),
    {
        let size = self.get_opcode_byte_size();
        if size == 3 {
            let lo = cpu.bus.read_ram_immutable_debug(pc_value.wrapping_add(1)) as u16;
            let hi = cpu.bus.read_ram_immutable_debug(pc_value.wrapping_add(2)) as u16;
            return Some(lo | (hi << 8));
        } else if size == 2 {
            if self.addr_t == AddrMode::REL {
                let offset = cpu.bus.read_ram_immutable_debug(pc_value.wrapping_add(1)) as i8;
                return Some(pc_value.wrapping_add_signed(offset as i16).wrapping_add(2));
            }
            return None;
        } else {
            return None;
        }
    }
}

} // verus!

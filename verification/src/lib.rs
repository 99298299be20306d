//! Cycle-accurate core of a Nintendo Entertainment System emulator: a MOS
//! 6502-derived CPU, the 2C02 picture processing unit, the shared memory bus,
//! the NROM cartridge model, the controller shift register, and the pulse
//! channels of the audio unit, advanced together on a 3:1 dot-to-cycle clock.

pub mod apu;
pub mod bits;
pub mod bus;
pub mod controller;
pub mod cpu;
pub mod debugger;
pub mod flags;
pub mod opcodes;
pub mod ppu;
pub mod rom;

pub use apu::PulseChannel;
pub use bus::Bus;
pub use cpu::Cpu;
pub use opcodes::Opcode;
pub use opcodes::AddrMode;
pub use opcodes::OpKind;
pub use controller::Button;
pub use controller::Controller;
pub use debugger::Debugger;
pub use flags::Flag;
pub use ppu::Ppu;
pub use rom::Mirroring;
pub use rom::Rom;
pub use rom::RomError;

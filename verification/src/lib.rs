//! Instruction-level emulator core for a 65c816-derived 16-bit console:
//! register file, flag-dependent instruction semantics, address decoding
//! across ROM/RAM/hardware registers, and the synchronous DMA engine.

pub mod cart;
pub mod cpu;
pub mod dma;
pub mod err;
pub mod inst;
pub mod mem;
pub mod regs;
pub mod scrn;
pub mod snes;
pub mod step;

//! The console aggregate: cartridge, CPU and bus owned by value, with
//! reset and single-instruction stepping for a debugger to drive.

use vstd::prelude::*;
use crate::cart::SnesCart;
use crate::cpu::CpuView;
use crate::cpu::Ricoh5A22;
use crate::cpu::powered_up;
use crate::cpu::reset_view;
use crate::err::EmuError;
use crate::mem::Memory;
use crate::step::lemma_step_err_frame;
use crate::step::step_res;

verus! {

/// The whole core: the cartridge, the CPU with its hardware registers
/// and PPU storage, the bus memory, and a count of executed steps.
#[derive(Debug, Clone, PartialEq, Eq)]
pub struct SNES {
    pub cart: SnesCart,
    pub cpu: Ricoh5A22,
    pub mem: Memory,
    pub step: u64,
}

impl SNES {
    pub open spec fn wf(self) -> bool {
        &&& self.cart.wf()
        &&& self.cpu@.wf()
        &&& self.mem.wf()
    }

    /// Build a console around a ROM image: the image becomes the
    /// cartridge, the bus gets its own copy of it plus fresh work RAM,
    /// and the CPU starts powered up but not yet reset.
    pub fn new(rom: Vec<u8>) -> (r: SNES)
        requires
            rom@.len() >= 0x8000,
        ensures
            r.wf(),
            r.cart@ == rom@,
            r.mem@.cart == rom@,
            powered_up(r.cpu@),
            r.step == 0,
    {
        let cart = SnesCart::new(rom);
        let bus_cart = cart.duplicate();
        let mem = Memory::new(bus_cart);
        let cpu = Ricoh5A22::new();
        SNES { cart, cpu, mem, step: 0u64 }
    }

    /// Reset the CPU from the cartridge's reset vector.
    pub fn reset(&mut self)
        requires
            old(self).wf(),
        ensures
            final(self).wf(),
            final(self).cpu@ == reset_view(old(self).cpu@, old(self).cart@),
            final(self).cart == old(self).cart,
            final(self).mem == old(self).mem,
            final(self).step == old(self).step,
    {
        self.cpu.reset(&self.cart);
    }

    /// Execute one instruction, counting it, and hand back its cycle
    /// cost or the error that stopped it. A failing instruction has no
    /// effect beyond the program counter moving past its fetched bytes.
    pub fn step(&mut self) -> (r: Result<u8, EmuError>)
        requires
            old(self).wf(),
        ensures
            final(self).wf(),
            final(self).cart == old(self).cart,
            final(self).step == old(self).step.wrapping_add(1),
            ({
                let s = step_res(old(self).cpu@, old(self).mem@);
                final(self).cpu@ == s.0 && final(self).mem@ == s.1 && r == s.2
            }),
            r is Err ==> final(self).cpu@ == (CpuView {
                pc: final(self).cpu@.pc,
                ..old(self).cpu@
            }) && final(self).mem@ == old(self).mem@,
    {
        proof {
            lemma_step_err_frame(old(self).cpu@, old(self).mem@);
        }
        self.step = self.step.wrapping_add(1);
        self.cpu.step(&mut self.mem)
    }
}

} // verus!

//! The CPU-side memory bus: address-decodes plain reads and writes among
//! work RAM (low region) and cartridge ROM (bank-selected high window).
//! Hardware registers are decoded a level above, by the CPU's bus entry
//! points; anything unmatched here is an unmapped access.

use vstd::prelude::*;
use crate::cart::SnesCart;
use crate::err::EmuError;

verus! {

/// Exclusive top of the work-RAM region.
pub const WRAM_END: u16 = 0x2000;

/// Inclusive bottom of the bank-selected cartridge ROM window.
pub const ROM_BASE: u16 = 0x8000;

/// Mathematical model of the plain bus: the work-RAM bytes and the ROM
/// image bytes.
pub ghost struct MemV {
    pub wram: Seq<u8>,
    pub cart: Seq<u8>,
}

impl MemV {
    /// Index into the ROM image selected by an address in the ROM window
    /// and a bank byte.
    pub open spec fn rom_index(addr: u16, bank: u8) -> int {
        (addr - 0x8000) + bank * 0x8000
    }

    /// Whether a plain bus read of `addr` under `bank` decodes to RAM or
    /// to a ROM byte that the image actually holds.
    pub open spec fn peek_ok(self, addr: u16, bank: u8) -> bool {
        ||| addr < 0x2000
        ||| (addr >= 0x8000 && MemV::rom_index(addr, bank) < self.cart.len())
    }

    /// The byte a successful plain bus read returns.
    pub open spec fn peek_val(self, addr: u16, bank: u8) -> u8 {
        if addr < 0x2000 {
            self.wram[addr as int]
        } else {
            self.cart[MemV::rom_index(addr, bank)]
        }
    }
}

/// Work RAM and the cartridge.
#[derive(Debug, Clone, PartialEq, Eq)]
pub struct Memory {
    pub cart: SnesCart,
    pub wram: Vec<u8>,
}

impl View for Memory {
    type V = MemV;

    open spec fn view(&self) -> MemV {
        MemV { wram: self.wram@, cart: self.cart@ }
    }
}

impl Memory {
    pub open spec fn wf(self) -> bool {
        &&& self.cart.wf()
        &&& self.wram@.len() == 0x2000
    }

    pub fn new(cart: SnesCart) -> (r: Memory)
        requires
            cart.wf(),
        ensures
            r.wf(),
            r.cart == cart,
            r@.wram.len() == 0x2000,
            forall|i: int| 0 <= i < 0x2000 ==> r@.wram[i] == 0x55u8,
    {
        let mut wram: Vec<u8> = Vec::new();
        let mut i: usize = 0;
        while i < 0x2000
            invariant
                i <= 0x2000,
                wram@.len() == i,
                forall|j: int| 0 <= j < i ==> wram@[j] == 0x55u8,
            decreases 0x2000 - i,
        {
            wram.push(0x55u8);
            i += 1;
        }
        Memory { cart, wram }
    }

    /// Read one byte without side effects: work RAM below 0x2000, the
    /// bank-selected ROM window at 0x8000 and above, unmapped otherwise.
    pub fn peek_u8(&self, addr: u16, bank: u8) -> (r: Result<u8, EmuError>)
        requires
            self.wf(),
        ensures
            self@.peek_ok(addr, bank) ==> r == Ok::<u8, EmuError>(self@.peek_val(addr, bank)),
            !self@.peek_ok(addr, bank) ==> r == Err::<u8, EmuError>(EmuError::UnmappedAccess(addr)),
    {
        if addr < WRAM_END {
            Ok(self.wram[addr as usize])
        } else if addr >= ROM_BASE {
            let index: usize = (addr as usize - 0x8000) + (bank as usize) * 0x8000;
            if index < self.cart.len() {
                Ok(self.cart.read(index))
            } else {
                Err(EmuError::UnmappedAccess(addr))
            }
        } else {
            Err(EmuError::UnmappedAccess(addr))
        }
    }

    /// Write one byte: only work RAM is writable through the plain bus;
    /// everything else is unmapped at this level.
    pub fn write_u8(&mut self, addr: u16, val: u8) -> (r: Result<(), EmuError>)
        requires
            old(self).wf(),
        ensures
            final(self).wf(),
            final(self).cart == old(self).cart,
            final(self)@.cart == old(self)@.cart,
            addr < 0x2000 ==> r == Ok::<(), EmuError>(())
                && final(self)@.wram == old(self)@.wram.update(addr as int, val),
            addr >= 0x2000 ==> r == Err::<(), EmuError>(EmuError::UnmappedAccess(addr))
                && *final(self) == *old(self),
    {
        if addr < WRAM_END {
            self.wram.set(addr as usize, val);
            Ok(())
        } else {
            Err(EmuError::UnmappedAccess(addr))
        }
    }
}

} // verus!

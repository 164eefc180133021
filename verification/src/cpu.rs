//! The CPU core: register file, status flags, the hardware-register side
//! of the bus (PPU and DMA registers), the synchronous DMA engine, and
//! the fetch/decode/execute loop.

use vstd::prelude::*;
use crate::cart::SnesCart;
use crate::err::EmuError;
use crate::mem::MemV;
use crate::mem::Memory;
use crate::regs::BGMODE;
use crate::regs::BGNBA;
use crate::regs::BGXSC;
use crate::regs::DMAControl;
use crate::regs::DmaChannel;
use crate::regs::SCRDES;
use crate::regs::VINC;
use crate::regs::VINCAM;
use crate::regs::VMAIN;
use crate::regs::VREMAP;

verus! {

/// The 16-bit value formed from a low and a high byte.
pub open spec fn spec_u16_from_bytes(lo: u8, hi: u8) -> u16 {
    (lo as u16) | ((hi as u16) << 8)
}

#[verifier::when_used_as_spec(spec_u16_from_bytes)]
pub fn u16_from_bytes(lo: u8, hi: u8) -> (r: u16)
    ensures
        r == spec_u16_from_bytes(lo, hi),
{
    (lo as u16) | ((hi as u16) << 8)
}

/// Processor status flags, one named boolean per bit of the packed flag
/// byte. `encode`/`decode` preserve the exact bit positions, which
/// matters because `PHP` pushes the literal byte and `PLP` restores from
/// it.
#[derive(Debug, Clone, Copy, PartialEq, Eq, Structural)]
pub struct PReg {
    /// carry, bit 0
    pub c: bool,
    /// zero, bit 1
    pub z: bool,
    /// IRQ disable, bit 2
    pub i: bool,
    /// decimal, bit 3
    pub d: bool,
    /// index width (set: 8-bit X/Y), bit 4
    pub x: bool,
    /// accumulator width (set: 8-bit A), bit 5
    pub m: bool,
    /// overflow, bit 6
    pub v: bool,
    /// negative, bit 7
    pub n: bool,
}

impl PReg {
    pub open spec fn spec_bits(self) -> u8 {
        (if self.c { 0x01u8 } else { 0u8 })
            | (if self.z { 0x02u8 } else { 0u8 })
            | (if self.i { 0x04u8 } else { 0u8 })
            | (if self.d { 0x08u8 } else { 0u8 })
            | (if self.x { 0x10u8 } else { 0u8 })
            | (if self.m { 0x20u8 } else { 0u8 })
            | (if self.v { 0x40u8 } else { 0u8 })
            | (if self.n { 0x80u8 } else { 0u8 })
    }

    /// Pack the flags into the literal byte that `PHP` pushes.
    #[verifier::when_used_as_spec(spec_bits)]
    pub fn bits(self) -> (r: u8)
        ensures
            r == self.spec_bits(),
    {
        (if self.c { 0x01u8 } else { 0u8 })
            | (if self.z { 0x02u8 } else { 0u8 })
            | (if self.i { 0x04u8 } else { 0u8 })
            | (if self.d { 0x08u8 } else { 0u8 })
            | (if self.x { 0x10u8 } else { 0u8 })
            | (if self.m { 0x20u8 } else { 0u8 })
            | (if self.v { 0x40u8 } else { 0u8 })
            | (if self.n { 0x80u8 } else { 0u8 })
    }

    pub open spec fn spec_from_bits(b: u8) -> PReg {
        PReg {
            c: b & 0x01 == 0x01,
            z: b & 0x02 == 0x02,
            i: b & 0x04 == 0x04,
            d: b & 0x08 == 0x08,
            x: b & 0x10 == 0x10,
            m: b & 0x20 == 0x20,
            v: b & 0x40 == 0x40,
            n: b & 0x80 == 0x80,
        }
    }

    /// Unpack a flag byte, as `PLP` restores it.
    #[verifier::when_used_as_spec(spec_from_bits)]
    pub fn from_bits(b: u8) -> (r: PReg)
        ensures
            r == PReg::spec_from_bits(b),
    {
        PReg {
            c: b & 0x01 == 0x01,
            z: b & 0x02 == 0x02,
            i: b & 0x04 == 0x04,
            d: b & 0x08 == 0x08,
            x: b & 0x10 == 0x10,
            m: b & 0x20 == 0x20,
            v: b & 0x40 == 0x40,
            n: b & 0x80 == 0x80,
        }
    }
}

impl Default for PReg {
    fn default() -> (r: PReg)
        ensures
            r == (PReg {
                c: false,
                z: false,
                i: false,
                d: false,
                x: false,
                m: false,
                v: false,
                n: false,
            }),
    {
        PReg { c: false, z: false, i: false, d: false, x: false, m: false, v: false, n: false }
    }
}

/// Packing then unpacking the flag byte restores every flag, and
/// unpacking then packing restores the byte: the `PHP`/`PLP` encoding
/// loses nothing in either direction.
pub proof fn lemma_preg_bits_roundtrip(p: PReg, b: u8)
    ensures
        PReg::spec_from_bits(p.spec_bits()) == p,
        PReg::spec_from_bits(b).spec_bits() == b,
{
    let cb: u8 = if p.c { 0x01u8 } else { 0u8 };
    let zb: u8 = if p.z { 0x02u8 } else { 0u8 };
    let ib: u8 = if p.i { 0x04u8 } else { 0u8 };
    let db: u8 = if p.d { 0x08u8 } else { 0u8 };
    let xb: u8 = if p.x { 0x10u8 } else { 0u8 };
    let mb: u8 = if p.m { 0x20u8 } else { 0u8 };
    let vb: u8 = if p.v { 0x40u8 } else { 0u8 };
    let nb: u8 = if p.n { 0x80u8 } else { 0u8 };
    let e: u8 = cb | zb | ib | db | xb | mb | vb | nb;
    assert(e & 0x01 == cb && e & 0x02 == zb && e & 0x04 == ib && e & 0x08 == db && e & 0x10 == xb
        && e & 0x20 == mb && e & 0x40 == vb && e & 0x80 == nb) by (bit_vector)
        requires
            (cb == 0 || cb == 0x01) && (zb == 0 || zb == 0x02) && (ib == 0 || ib == 0x04) && (db
                == 0 || db == 0x08) && (xb == 0 || xb == 0x10) && (mb == 0 || mb == 0x20) && (vb
                == 0 || vb == 0x40) && (nb == 0 || nb == 0x80),
            e == (cb | zb | ib | db | xb | mb | vb | nb),
    ;
    assert(p.spec_bits() == e);
    assert({
        let d2 = (if b & 0x01 == 0x01 { 0x01u8 } else { 0u8 })
            | (if b & 0x02 == 0x02 { 0x02u8 } else { 0u8 })
            | (if b & 0x04 == 0x04 { 0x04u8 } else { 0u8 })
            | (if b & 0x08 == 0x08 { 0x08u8 } else { 0u8 })
            | (if b & 0x10 == 0x10 { 0x10u8 } else { 0u8 })
            | (if b & 0x20 == 0x20 { 0x20u8 } else { 0u8 })
            | (if b & 0x40 == 0x40 { 0x40u8 } else { 0u8 })
            | (if b & 0x80 == 0x80 { 0x80u8 } else { 0u8 });
        d2 == b
    }) by (bit_vector);
}

/// The PPU-side storage the core writes through memory-mapped registers:
/// the VRAM word array with its address pointer, and the palette byte
/// array with its write index.
#[derive(Debug, Clone, PartialEq, Eq)]
pub struct PpuState {
    pub vram: Vec<u16>,
    pub vram_addr: u16,
    pub palette: Vec<u8>,
    pub palette_index: u16,
}

/// Mathematical model of `PpuState`.
pub ghost struct PpuV {
    pub vram: Seq<u16>,
    pub vram_addr: u16,
    pub palette: Seq<u8>,
    pub palette_index: u16,
}

impl View for PpuState {
    type V = PpuV;

    open spec fn view(&self) -> PpuV {
        PpuV {
            vram: self.vram@,
            vram_addr: self.vram_addr,
            palette: self.palette@,
            palette_index: self.palette_index,
        }
    }
}

impl PpuState {
    /// 64K VRAM words and 1024 palette bytes, zeroed, with both pointers
    /// at zero.
    pub fn new() -> (r: PpuState)
        ensures
            r@.vram.len() == 0x10000,
            r@.palette.len() == 1024,
            r@.vram_addr == 0,
            r@.palette_index == 0,
            forall|i: int| 0 <= i < 0x10000 ==> r@.vram[i] == 0u16,
            forall|i: int| 0 <= i < 1024 ==> r@.palette[i] == 0u8,
    {
        let mut vram: Vec<u16> = Vec::new();
        let mut i: usize = 0;
        while i < 0x10000
            invariant
                i <= 0x10000,
                vram@.len() == i,
                forall|j: int| 0 <= j < i ==> vram@[j] == 0u16,
            decreases 0x10000 - i,
        {
            vram.push(0u16);
            i += 1;
        }
        let mut palette: Vec<u8> = Vec::new();
        let mut j: usize = 0;
        while j < 1024
            invariant
                j <= 1024,
                palette@.len() == j,
                forall|k: int| 0 <= k < j ==> palette@[k] == 0u8,
            decreases 1024 - j,
        {
            palette.push(0u8);
            j += 1;
        }
        PpuState { vram, vram_addr: 0u16, palette, palette_index: 0u16 }
    }
}

/// Mathematical model of the whole CPU-owned state: architectural
/// registers, decoded hardware registers, DMA channel configurations and
/// the PPU storage.
pub ghost struct CpuView {
    pub pc: u16,
    pub p_reg: PReg,
    pub nmitimen: u8,
    pub emulation: bool,
    pub hdmaen: u8,
    pub mdmaen: u8,
    pub inidisp: u8,
    pub fastrom: bool,
    pub a_reg: u16,
    pub x_reg: u16,
    pub y_reg: u16,
    pub direct_page: u16,
    pub stack_ptr: u16,
    pub pbr: u8,
    pub dbr: u8,
    pub dma: Seq<DmaChannel>,
    pub vmain: VMAIN,
    pub bgmode: BGMODE,
    pub bgxsc: Seq<BGXSC>,
    pub bg12nba: BGNBA,
    pub bg34nba: BGNBA,
    pub tm: SCRDES,
    pub ts: SCRDES,
    pub ppu: PpuV,
}

impl CpuView {
    /// Structural well-formedness: the fixed-size collections have their
    /// fixed sizes and the palette index stays inside the palette.
    pub open spec fn wf(self) -> bool {
        &&& self.dma.len() == 7
        &&& self.bgxsc.len() == 4
        &&& self.ppu.vram.len() == 0x10000
        &&& self.ppu.palette.len() == 1024
        &&& self.ppu.palette_index < 1024
    }
}

/// The CPU: architectural registers plus the hardware registers it owns.
#[derive(Debug, Clone, PartialEq, Eq)]
pub struct Ricoh5A22 {
    pub pc: u16,
    pub p_reg: PReg,
    pub nmitimen: u8,
    pub emulation: bool,
    pub hdmaen: u8,
    pub mdmaen: u8,
    pub inidisp: u8,
    pub fastrom: bool,
    pub a_reg: u16,
    pub x_reg: u16,
    pub y_reg: u16,
    pub direct_page: u16,
    pub stack_ptr: u16,
    pub pbr: u8,
    pub dbr: u8,
    pub dma: Vec<DmaChannel>,
    pub vmain: VMAIN,
    pub bgmode: BGMODE,
    pub bgxsc: Vec<BGXSC>,
    pub bg12nba: BGNBA,
    pub bg34nba: BGNBA,
    pub tm: SCRDES,
    pub ts: SCRDES,
    pub ppu: PpuState,
}

impl View for Ricoh5A22 {
    type V = CpuView;

    open spec fn view(&self) -> CpuView {
        CpuView {
            pc: self.pc,
            p_reg: self.p_reg,
            nmitimen: self.nmitimen,
            emulation: self.emulation,
            hdmaen: self.hdmaen,
            mdmaen: self.mdmaen,
            inidisp: self.inidisp,
            fastrom: self.fastrom,
            a_reg: self.a_reg,
            x_reg: self.x_reg,
            y_reg: self.y_reg,
            direct_page: self.direct_page,
            stack_ptr: self.stack_ptr,
            pbr: self.pbr,
            dbr: self.dbr,
            dma: self.dma@,
            vmain: self.vmain,
            bgmode: self.bgmode,
            bgxsc: self.bgxsc@,
            bg12nba: self.bg12nba,
            bg34nba: self.bg34nba,
            tm: self.tm,
            ts: self.ts,
            ppu: self.ppu@,
        }
    }
}

/// The state the CPU powers up in, before any reset: everything zeroed,
/// every flag clear, every DMA channel cleared, every decoded hardware
/// register at its zero decoding, and the PPU storage empty.
pub open spec fn powered_up(c: CpuView) -> bool {
    &&& c.pc == 0
    &&& c.p_reg == PReg::spec_from_bits(0)
    &&& c.nmitimen == 0
    &&& !c.emulation
    &&& c.hdmaen == 0
    &&& c.mdmaen == 0
    &&& c.inidisp == 0
    &&& !c.fastrom
    &&& c.a_reg == 0
    &&& c.x_reg == 0
    &&& c.y_reg == 0
    &&& c.direct_page == 0
    &&& c.stack_ptr == 0
    &&& c.pbr == 0
    &&& c.dbr == 0
    &&& c.dma == Seq::new(7, |i: int| DmaChannel::spec_cleared())
    &&& c.vmain == VMAIN::spec_from(0)
    &&& c.bgmode == BGMODE::spec_from(0)
    &&& c.bgxsc == Seq::new(4, |i: int| BGXSC::spec_from(0))
    &&& c.bg12nba == BGNBA::spec_from(0)
    &&& c.bg34nba == BGNBA::spec_from(0)
    &&& c.tm == SCRDES::spec_from(0)
    &&& c.ts == SCRDES::spec_from(0)
    &&& c.ppu.vram_addr == 0
    &&& c.ppu.palette_index == 0
    &&& c.ppu.vram == Seq::new(0x10000, |i: int| 0u16)
    &&& c.ppu.palette == Seq::new(1024, |i: int| 0u8)
}

/// The state a reset leaves the CPU in: the program counter comes from
/// the reset vector (little-endian at 0x7FFC in the ROM image), the
/// accumulator is forced to 8-bit width, emulation mode is entered, the
/// DMA/HDMA enables, display and ROM-speed registers are cleared, A/X/Y
/// and the Direct Page are zeroed, the stack points at the top of page
/// one, both bank registers are zeroed, the DMA channels are cleared and
/// the VRAM increment control returns to its default.
pub open spec fn reset_view(c: CpuView, rom: Seq<u8>) -> CpuView {
    CpuView {
        pc: spec_u16_from_bytes(rom[0x7FFC], rom[0x7FFD]),
        p_reg: (PReg { m: true, ..c.p_reg }),
        emulation: true,
        hdmaen: 0u8,
        mdmaen: 0u8,
        inidisp: 0u8,
        fastrom: false,
        a_reg: 0u16,
        x_reg: 0u16,
        y_reg: 0u16,
        direct_page: 0u16,
        stack_ptr: 0x01FFu16,
        pbr: 0u8,
        dbr: 0u8,
        dma: Seq::new(7, |i: int| DmaChannel::spec_cleared()),
        vmain: (VMAIN { increment: VINC::Byte, amount: VINCAM::One, remap: VREMAP::NoRemap }),
        ..c
    }
}

/// What a CPU-level bus read returns: a handful of hardware addresses
/// read as fixed placeholder bytes (write-only registers mirror open-bus
/// behavior rather than the last written value); everything else falls
/// through to the plain bus.
pub open spec fn hw_read(addr: u16) -> Option<u8> {
    if addr == 0x2000 {
        Some(0u8)
    } else if addr == 0x4210 {
        Some(0x42u8)
    } else if 0x2140 <= addr && addr <= 0x2143 {
        Some(0u8)
    } else if addr == 0x420B {
        Some(0u8)
    } else if 0x4300 <= addr && addr <= 0x4366 && (addr & 0xF) < 7 {
        Some(0u8)
    } else {
        None
    }
}

/// Whether a CPU-level 8-bit bus read succeeds.
pub open spec fn bus_ok(m: MemV, addr: u16, bank: u8) -> bool {
    hw_read(addr) is Some || m.peek_ok(addr, bank)
}

/// The byte a successful CPU-level 8-bit bus read returns.
pub open spec fn bus_val(m: MemV, addr: u16, bank: u8) -> u8 {
    match hw_read(addr) {
        Some(v) => v,
        None => m.peek_val(addr, bank),
    }
}

/// The result of a CPU-level 8-bit bus read.
pub open spec fn bus_read8(m: MemV, addr: u16, bank: u8) -> Result<u8, EmuError> {
    if bus_ok(m, addr, bank) {
        Ok(bus_val(m, addr, bank))
    } else {
        Err(EmuError::UnmappedAccess(addr))
    }
}

/// The result of a CPU-level 16-bit bus read: little-endian pair at
/// `addr` and `addr + 1` (wrapping).
pub open spec fn bus_read16(m: MemV, addr: u16, bank: u8) -> Result<u16, EmuError> {
    match bus_read8(m, addr, bank) {
        Err(e) => Err(e),
        Ok(lo) => match bus_read8(m, addr.wrapping_add(1), bank) {
            Err(e) => Err(e),
            Ok(hi) => Ok(spec_u16_from_bytes(lo, hi)),
        },
    }
}

impl Ricoh5A22 {
    /// The CPU as it powers up, before any reset: everything zeroed and
    /// every flag clear.
    pub fn new() -> (r: Ricoh5A22)
        ensures
            r@.wf(),
            powered_up(r@),
    {
        let mut dma: Vec<DmaChannel> = Vec::new();
        let mut i: usize = 0;
        while i < 7
            invariant
                i <= 7,
                dma@.len() == i,
                forall|j: int| 0 <= j < i ==> dma@[j] == DmaChannel::spec_cleared(),
            decreases 7 - i,
        {
            dma.push(DmaChannel::cleared());
            i += 1;
        }
        let mut bgxsc: Vec<BGXSC> = Vec::new();
        let mut j: usize = 0;
        while j < 4
            invariant
                j <= 4,
                bgxsc@.len() == j,
                forall|k: int| 0 <= k < j ==> bgxsc@[k] == BGXSC::spec_from(0),
            decreases 4 - j,
        {
            bgxsc.push(BGXSC::from(0u8));
            j += 1;
        }
        proof {
            assert(0u8 & 0b10000000 != 0b10000000) by (bit_vector);
            assert(0u8 & 0b00000011 == 0) by (bit_vector);
            assert(0u8 & 0b00001100 == 0) by (bit_vector);
            assert(0u8 & 0b111 == 0) by (bit_vector);
            assert((0u8 >> 4) & 0b1 == 0 && (0u8 >> 5) & 0b1 == 0 && (0u8 >> 6) & 0b1 == 0 && (
            0u8 >> 7) & 0b1 == 0) by (bit_vector);
        }
        let r = Ricoh5A22 {
            pc: 0u16,
            p_reg: PReg::from_bits(0u8),
            nmitimen: 0u8,
            emulation: false,
            hdmaen: 0u8,
            mdmaen: 0u8,
            inidisp: 0u8,
            fastrom: false,
            a_reg: 0u16,
            x_reg: 0u16,
            y_reg: 0u16,
            direct_page: 0u16,
            stack_ptr: 0u16,
            pbr: 0u8,
            dbr: 0u8,
            dma,
            vmain: VMAIN::from(0u8),
            bgmode: BGMODE::from(0u8),
            bgxsc,
            bg12nba: BGNBA::from(0u8),
            bg34nba: BGNBA::from(0u8),
            tm: SCRDES::from(0u8),
            ts: SCRDES::from(0u8),
            ppu: PpuState::new(),
        };
        proof {
            assert(r@.dma =~= Seq::new(7, |i: int| DmaChannel::spec_cleared()));
            assert(r@.bgxsc =~= Seq::new(4, |i: int| BGXSC::spec_from(0)));
            assert(r@.ppu.vram =~= Seq::new(0x10000, |i: int| 0u16));
            assert(r@.ppu.palette =~= Seq::new(1024, |i: int| 0u8));
        }
        r
    }

    /// Reset: load the program counter from the cartridge's reset vector
    /// (little-endian at 0x7FFC), force the 8-bit accumulator width,
    /// enter emulation mode, clear the DMA/HDMA enables, display and
    /// ROM-speed registers, zero A/X/Y and the Direct Page, point the
    /// stack at the top of page one, zero both bank registers, zero the
    /// DMA channel configurations, and restore the default VRAM
    /// increment control.
    pub fn reset(&mut self, cart: &SnesCart)
        requires
            cart.wf(),
            old(self)@.wf(),
        ensures
            final(self)@.wf(),
            final(self)@ == reset_view(old(self)@, cart@),
    {
        let lo = cart.read(0x7FFC);
        let hi = cart.read(0x7FFD);
        self.pc = u16_from_bytes(lo, hi);
        self.p_reg.m = true;
        self.emulation = true;
        self.hdmaen = 0u8;
        self.mdmaen = 0u8;
        self.inidisp = 0u8;
        self.fastrom = false;
        self.a_reg = 0u16;
        self.y_reg = 0u16;
        self.x_reg = 0u16;
        self.direct_page = 0u16;
        self.stack_ptr = 0x01FFu16;
        self.pbr = 0u8;
        self.dbr = 0u8;
        let mut dma: Vec<DmaChannel> = Vec::new();
        let mut i: usize = 0;
        while i < 7
            invariant
                i <= 7,
                dma@.len() == i,
                forall|j: int| 0 <= j < i ==> dma@[j] == DmaChannel::spec_cleared(),
            decreases 7 - i,
        {
            dma.push(DmaChannel::cleared());
            i += 1;
        }
        self.dma = dma;
        self.vmain = VMAIN { increment: VINC::Byte, amount: VINCAM::One, remap: VREMAP::NoRemap };
        proof {
            assert(self.dma@ =~= Seq::new(7, |i: int| DmaChannel::spec_cleared()));
        }
    }

    /// CPU-level 8-bit bus read: a few hardware addresses read as fixed
    /// placeholders, everything else goes to RAM or ROM.
    pub fn read_u8(&self, mem: &Memory, addr: u16, bank: u8) -> (r: Result<u8, EmuError>)
        requires
            mem.wf(),
        ensures
            r == bus_read8(mem@, addr, bank),
    {
        if addr == 0x2000 {
            Ok(0u8)
        } else if addr == 0x4210 {
            Ok(0x42u8)
        } else if 0x2140 <= addr && addr <= 0x2143 {
            Ok(0u8)
        } else if addr == 0x420B {
            Ok(0u8)
        } else if 0x4300 <= addr && addr <= 0x4366 && (addr & 0xF) < 7 {
            Ok(0u8)
        } else {
            mem.peek_u8(addr, bank)
        }
    }

    /// CPU-level 16-bit bus read, little-endian at `addr`, `addr + 1`.
    pub fn read_u16(&self, mem: &Memory, addr: u16, bank: u8) -> (r: Result<u16, EmuError>)
        requires
            mem.wf(),
        ensures
            r == bus_read16(mem@, addr, bank),
    {
        let lo = match self.read_u8(mem, addr, bank) {
            Ok(v) => v,
            Err(e) => { return Err(e); },
        };
        let hi = match self.read_u8(mem, addr.wrapping_add(1), bank) {
            Ok(v) => v,
            Err(e) => { return Err(e); },
        };
        Ok(u16_from_bytes(lo, hi))
    }

    /// Fetch one byte at the program counter (program bank) and advance
    /// the program counter past it.
    pub fn read_u8_pc(&mut self, mem: &Memory) -> (r: Result<u8, EmuError>)
        requires
            mem.wf(),
        ensures
            r == bus_read8(mem@, old(self).pc, old(self).pbr),
            r is Ok ==> final(self)@ == (CpuView {
                pc: old(self).pc.wrapping_add(1),
                ..old(self)@
            }),
            r is Err ==> final(self)@ == old(self)@,
    {
        match self.read_u8(mem, self.pc, self.pbr) {
            Ok(val) => {
                self.pc = self.pc.wrapping_add(1);
                Ok(val)
            },
            Err(e) => Err(e),
        }
    }

    /// Fetch a little-endian 16-bit operand at the program counter and
    /// advance the program counter past it.
    pub fn read_u16_pc(&mut self, mem: &Memory) -> (r: Result<u16, EmuError>)
        requires
            mem.wf(),
        ensures
            r == bus_read16(mem@, old(self).pc, old(self).pbr),
            r is Ok ==> final(self)@ == (CpuView {
                pc: old(self).pc.wrapping_add(2),
                ..old(self)@
            }),
            r is Err && bus_read8(mem@, old(self).pc, old(self).pbr) is Err ==> final(self)@
                == old(self)@,
            r is Err && bus_read8(mem@, old(self).pc, old(self).pbr) is Ok ==> final(self)@
                == (CpuView { pc: old(self).pc.wrapping_add(1), ..old(self)@ }),
    {
        let lo = match self.read_u8_pc(mem) {
            Ok(v) => v,
            Err(e) => { return Err(e); },
        };
        let hi = match self.read_u8_pc(mem) {
            Ok(v) => v,
            Err(e) => { return Err(e); },
        };
        Ok(u16_from_bytes(lo, hi))
    }

    /// The current stack pointer.
    pub fn stack_ptr(&self) -> (r: u16)
        ensures
            r == self@.stack_ptr,
    {
        self.stack_ptr
    }
}

/// Whether a controller-bus address (0x2100..=0x21FF) is backed by a
/// register at all. The decoded registers and the documented no-op
/// blocks are mapped; everything else in the window is not.
pub open spec fn bb_mapped(addr: u16) -> bool {
    ||| (0x2100 <= addr && addr <= 0x2133)
    ||| addr == 0x213E
    ||| (0x2140 <= addr && addr <= 0x2143)
    ||| (0x2180 <= addr && addr <= 0x2183)
}

/// Whether a write to a controller-bus address succeeds in state `c`:
/// the VRAM data ports additionally demand that no address remapping is
/// configured.
pub open spec fn bb_ok(c: CpuView, addr: u16) -> bool {
    if addr == 0x2118 || addr == 0x2119 {
        c.vmain.remap == VREMAP::NoRemap
    } else {
        bb_mapped(addr)
    }
}

/// The error a failing controller-bus write reports.
pub open spec fn bb_err(c: CpuView, addr: u16) -> EmuError {
    if (addr == 0x2118 || addr == 0x2119) && c.vmain.remap != VREMAP::NoRemap {
        EmuError::UnsupportedRemap
    } else {
        EmuError::UnmappedAccess(addr)
    }
}

/// The state after a successful write to a controller-bus address.
#[verifier::opaque]
pub open spec fn bb_apply(c: CpuView, addr: u16, val: u8) -> CpuView {
    if addr == 0x2100 {
        CpuView { inidisp: val, ..c }
    } else if addr == 0x2105 {
        CpuView { bgmode: BGMODE::spec_from(val), ..c }
    } else if 0x2107 <= addr && addr <= 0x210A {
        CpuView { bgxsc: c.bgxsc.update(addr - 0x2107, BGXSC::spec_from(val)), ..c }
    } else if addr == 0x210B {
        CpuView { bg12nba: BGNBA::spec_from(val), ..c }
    } else if addr == 0x210C {
        CpuView { bg34nba: BGNBA::spec_from(val), ..c }
    } else if addr == 0x2115 {
        CpuView { vmain: VMAIN::spec_from(val), ..c }
    } else if addr == 0x2116 {
        CpuView { ppu: (PpuV { vram_addr: (c.ppu.vram_addr & 0xFF00) | (val as u16), ..c.ppu }), ..c }
    } else if addr == 0x2117 {
        CpuView {
            ppu: (PpuV { vram_addr: (c.ppu.vram_addr & 0x00FF) | ((val as u16) << 8), ..c.ppu }),
            ..c
        }
    } else if addr == 0x2118 {
        let w = c.ppu.vram[c.ppu.vram_addr as int];
        let vram2 = c.ppu.vram.update(c.ppu.vram_addr as int, (w & 0xFF00) | (val as u16));
        let va2 = if c.vmain.increment == VINC::Byte {
            c.ppu.vram_addr.wrapping_add(c.vmain.amount.spec_step())
        } else {
            c.ppu.vram_addr
        };
        CpuView { ppu: (PpuV { vram: vram2, vram_addr: va2, ..c.ppu }), ..c }
    } else if addr == 0x2119 {
        let w = c.ppu.vram[c.ppu.vram_addr as int];
        let vram2 = c.ppu.vram.update(c.ppu.vram_addr as int, (w & 0x00FF) | ((val as u16) << 8));
        let va2 = if c.vmain.increment == VINC::Word {
            c.ppu.vram_addr.wrapping_add(c.vmain.amount.spec_step())
        } else {
            c.ppu.vram_addr
        };
        CpuView { ppu: (PpuV { vram: vram2, vram_addr: va2, ..c.ppu }), ..c }
    } else if addr == 0x2121 {
        CpuView { ppu: (PpuV { palette_index: ((val as u16) * 2) as u16, ..c.ppu }), ..c }
    } else if addr == 0x2122 {
        let pal2 = c.ppu.palette.update(c.ppu.palette_index as int, val);
        let pi2 = ((c.ppu.palette_index + 1) % 1024) as u16;
        CpuView { ppu: (PpuV { palette: pal2, palette_index: pi2, ..c.ppu }), ..c }
    } else if addr == 0x212C {
        CpuView { tm: SCRDES::spec_from(val), ..c }
    } else if addr == 0x212D {
        CpuView { ts: SCRDES::spec_from(val), ..c }
    } else {
        c
    }
}

/// A controller-bus write never touches the architectural registers, the
/// DMA configuration, or (except through the increment-control register
/// itself) the VRAM increment control.
pub proof fn lemma_bb_apply_frame(c: CpuView, addr: u16, val: u8)
    ensures
        ({
            let c1 = bb_apply(c, addr, val);
            &&& c1.pc == c.pc
            &&& c1.p_reg == c.p_reg
            &&& c1.nmitimen == c.nmitimen
            &&& c1.emulation == c.emulation
            &&& c1.hdmaen == c.hdmaen
            &&& c1.mdmaen == c.mdmaen
            &&& c1.inidisp == if addr == 0x2100 {
                val
            } else {
                c.inidisp
            }
            &&& c1.fastrom == c.fastrom
            &&& c1.a_reg == c.a_reg
            &&& c1.x_reg == c.x_reg
            &&& c1.y_reg == c.y_reg
            &&& c1.direct_page == c.direct_page
            &&& c1.stack_ptr == c.stack_ptr
            &&& c1.pbr == c.pbr
            &&& c1.dbr == c.dbr
            &&& c1.dma == c.dma
            &&& (addr != 0x2115 ==> c1.vmain == c.vmain)
        }),
{
    reveal(bb_apply);
}

/// A controller-bus write preserves structural well-formedness.
pub proof fn lemma_bb_apply_wf(c: CpuView, addr: u16, val: u8)
    requires
        c.wf(),
    ensures
        bb_apply(c, addr, val).wf(),
{
    reveal(bb_apply);
}

/// A controller-bus write to `waddr` keeps a mapped address `qaddr`
/// writable, as long as it cannot reconfigure the VRAM remapping that
/// `qaddr` may depend on.
pub proof fn lemma_bb_ok_preserved(c: CpuView, waddr: u16, val: u8, qaddr: u16)
    requires
        bb_ok(c, qaddr),
        (qaddr == 0x2118 || qaddr == 0x2119) ==> waddr != 0x2115,
    ensures
        bb_ok(bb_apply(c, waddr, val), qaddr),
{
    lemma_bb_apply_frame(c, waddr, val);
}

impl Ricoh5A22 {
    /// Whether a write to the controller-bus address would succeed now.
    pub fn bb_writable(&self, addr: u16) -> (r: bool)
        ensures
            r == bb_ok(self@, addr),
    {
        if addr == 0x2118 || addr == 0x2119 {
            self.vmain.remap == VREMAP::NoRemap
        } else {
            (0x2100 <= addr && addr <= 0x2133) || addr == 0x213E || (0x2140 <= addr && addr
                <= 0x2143) || (0x2180 <= addr && addr <= 0x2183)
        }
    }

    /// The error a failing controller-bus write would report now.
    pub fn bb_error(&self, addr: u16) -> (r: EmuError)
        ensures
            r == bb_err(self@, addr),
    {
        if (addr == 0x2118 || addr == 0x2119) && !(self.vmain.remap == VREMAP::NoRemap) {
            EmuError::UnsupportedRemap
        } else {
            EmuError::UnmappedAccess(addr)
        }
    }

    /// Write one byte to a controller-bus register (0x2100..=0x21FF):
    /// PPU mode and tilemap registers, the VRAM pointer and data ports,
    /// the palette pointer and data port, and the screen-layer enables.
    #[verifier::rlimit(100)]
    #[verifier::spinoff_prover]
    pub fn write_b(&mut self, addr: u16, val: u8) -> (r: Result<(), EmuError>)
        requires
            0x2100 <= addr && addr <= 0x21FF,
            old(self)@.wf(),
        ensures
            final(self)@.wf(),
            bb_ok(old(self)@, addr) ==> r == Ok::<(), EmuError>(()) && final(self)@ == bb_apply(
                old(self)@,
                addr,
                val,
            ),
            !bb_ok(old(self)@, addr) ==> r == Err::<(), EmuError>(bb_err(old(self)@, addr))
                && final(self)@ == old(self)@,
    {
        proof {
            reveal(bb_apply);
        }
        if addr == 0x2100 {
            self.set_inidisp(val);
            Ok(())
        } else if addr == 0x2105 {
            self.set_bgmode(val);
            Ok(())
        } else if 0x2107 <= addr && addr <= 0x210A {
            self.set_bg_sc(addr, val);
            Ok(())
        } else if addr == 0x210B {
            self.set_bg12nba(val);
            Ok(())
        } else if addr == 0x210C {
            self.set_bg34nba(val);
            Ok(())
        } else if addr == 0x2115 {
            self.set_vmain(val);
            Ok(())
        } else if addr == 0x2116 {
            self.set_vram_addr_low(val);
            Ok(())
        } else if addr == 0x2117 {
            self.set_vram_addr_high(val);
            Ok(())
        } else if addr == 0x2118 {
            self.write_vram_low(val)
        } else if addr == 0x2119 {
            self.write_vram_high(val)
        } else if addr == 0x2121 {
            self.set_cgadd(val);
            Ok(())
        } else if addr == 0x2122 {
            self.write_cgdata(val);
            Ok(())
        } else if addr == 0x212C {
            self.set_tm(val);
            Ok(())
        } else if addr == 0x212D {
            self.set_ts(val);
            Ok(())
        } else if (0x2101 <= addr && addr <= 0x2104) || addr == 0x2106 || (0x210D <= addr && addr
            <= 0x2114) || (0x211A <= addr && addr <= 0x2120) || (0x2123 <= addr && addr <= 0x212B)
            || (0x212E <= addr && addr <= 0x2133) || addr == 0x213E || (0x2140 <= addr && addr
            <= 0x2143) || (0x2180 <= addr && addr <= 0x2183) {
            Ok(())
        } else {
            Err(EmuError::UnmappedAccess(addr))
        }
    }

    /// Display enable/brightness register.
    fn set_inidisp(&mut self, val: u8)
        requires
            old(self)@.wf(),
        ensures
            final(self)@.wf(),
            final(self)@ == bb_apply(old(self)@, 0x2100, val),
    {
        proof {
            reveal(bb_apply);
        }
        self.inidisp = val;
    }

    /// Background mode register.
    fn set_bgmode(&mut self, val: u8)
        requires
            old(self)@.wf(),
        ensures
            final(self)@.wf(),
            final(self)@ == bb_apply(old(self)@, 0x2105, val),
    {
        proof {
            reveal(bb_apply);
        }
        self.bgmode = BGMODE::from(val);
    }

    /// One background layer's tilemap address/size register.
    fn set_bg_sc(&mut self, addr: u16, val: u8)
        requires
            0x2107 <= addr && addr <= 0x210A,
            old(self)@.wf(),
        ensures
            final(self)@.wf(),
            final(self)@ == bb_apply(old(self)@, addr, val),
    {
        proof {
            reveal(bb_apply);
        }
        self.bgxsc.set((addr - 0x2107) as usize, BGXSC::from(val));
    }

    /// Character base register for the first background pair.
    fn set_bg12nba(&mut self, val: u8)
        requires
            old(self)@.wf(),
        ensures
            final(self)@.wf(),
            final(self)@ == bb_apply(old(self)@, 0x210B, val),
    {
        proof {
            reveal(bb_apply);
        }
        self.bg12nba = BGNBA::from(val);
    }

    /// Character base register for the second background pair.
    fn set_bg34nba(&mut self, val: u8)
        requires
            old(self)@.wf(),
        ensures
            final(self)@.wf(),
            final(self)@ == bb_apply(old(self)@, 0x210C, val),
    {
        proof {
            reveal(bb_apply);
        }
        self.bg34nba = BGNBA::from(val);
    }

    /// VRAM increment-control register.
    fn set_vmain(&mut self, val: u8)
        requires
            old(self)@.wf(),
        ensures
            final(self)@.wf(),
            final(self)@ == bb_apply(old(self)@, 0x2115, val),
    {
        proof {
            reveal(bb_apply);
        }
        self.vmain = VMAIN::from(val);
    }

    /// Low byte of the VRAM address pointer.
    fn set_vram_addr_low(&mut self, val: u8)
        requires
            old(self)@.wf(),
        ensures
            final(self)@.wf(),
            final(self)@ == bb_apply(old(self)@, 0x2116, val),
    {
        proof {
            reveal(bb_apply);
        }
        self.ppu.vram_addr = (self.ppu.vram_addr & 0xFF00) | (val as u16);
    }

    /// High byte of the VRAM address pointer.
    fn set_vram_addr_high(&mut self, val: u8)
        requires
            old(self)@.wf(),
        ensures
            final(self)@.wf(),
            final(self)@ == bb_apply(old(self)@, 0x2117, val),
    {
        proof {
            reveal(bb_apply);
        }
        self.ppu.vram_addr = (self.ppu.vram_addr & 0x00FF) | ((val as u16) << 8);
    }

    /// VRAM data port, low half of the word at the pointer. The pointer
    /// advances only when the byte-write trigger is configured; any
    /// remapping mode is refused before anything is written.
    fn write_vram_low(&mut self, val: u8) -> (r: Result<(), EmuError>)
        requires
            old(self)@.wf(),
        ensures
            final(self)@.wf(),
            bb_ok(old(self)@, 0x2118) ==> r == Ok::<(), EmuError>(()) && final(self)@ == bb_apply(
                old(self)@,
                0x2118,
                val,
            ),
            !bb_ok(old(self)@, 0x2118) ==> r == Err::<(), EmuError>(bb_err(old(self)@, 0x2118))
                && final(self)@ == old(self)@,
    {
        proof {
            reveal(bb_apply);
        }
        if self.vmain.remap == VREMAP::NoRemap {
            let va = self.ppu.vram_addr;
            let w = self.ppu.vram[va as usize];
            self.ppu.vram.set(va as usize, (w & 0xFF00) | (val as u16));
            if self.vmain.increment == VINC::Byte {
                self.ppu.vram_addr = va.wrapping_add(self.vmain.amount.step());
            }
            Ok(())
        } else {
            Err(EmuError::UnsupportedRemap)
        }
    }

    /// VRAM data port, high half of the word at the pointer. The pointer
    /// advances only when the word-write trigger is configured; any
    /// remapping mode is refused before anything is written.
    fn write_vram_high(&mut self, val: u8) -> (r: Result<(), EmuError>)
        requires
            old(self)@.wf(),
        ensures
            final(self)@.wf(),
            bb_ok(old(self)@, 0x2119) ==> r == Ok::<(), EmuError>(()) && final(self)@ == bb_apply(
                old(self)@,
                0x2119,
                val,
            ),
            !bb_ok(old(self)@, 0x2119) ==> r == Err::<(), EmuError>(bb_err(old(self)@, 0x2119))
                && final(self)@ == old(self)@,
    {
        proof {
            reveal(bb_apply);
        }
        if self.vmain.remap == VREMAP::NoRemap {
            let va = self.ppu.vram_addr;
            let w = self.ppu.vram[va as usize];
            self.ppu.vram.set(va as usize, (w & 0x00FF) | ((val as u16) << 8));
            if self.vmain.increment == VINC::Word {
                self.ppu.vram_addr = va.wrapping_add(self.vmain.amount.step());
            }
            Ok(())
        } else {
            Err(EmuError::UnsupportedRemap)
        }
    }

    /// Palette address register: the write index is the doubled entry
    /// number, since each palette entry is two bytes.
    fn set_cgadd(&mut self, val: u8)
        requires
            old(self)@.wf(),
        ensures
            final(self)@.wf(),
            final(self)@ == bb_apply(old(self)@, 0x2121, val),
    {
        proof {
            reveal(bb_apply);
        }
        self.ppu.palette_index = (val as u16) * 2;
    }

    /// Palette data port: stores at the write index and advances it.
    fn write_cgdata(&mut self, val: u8)
        requires
            old(self)@.wf(),
        ensures
            final(self)@.wf(),
            final(self)@ == bb_apply(old(self)@, 0x2122, val),
    {
        proof {
            reveal(bb_apply);
        }
        let pi = self.ppu.palette_index;
        self.ppu.palette.set(pi as usize, val);
        self.ppu.palette_index = (pi + 1) % 1024;
    }

    /// Main-screen layer enable register.
    fn set_tm(&mut self, val: u8)
        requires
            old(self)@.wf(),
        ensures
            final(self)@.wf(),
            final(self)@ == bb_apply(old(self)@, 0x212C, val),
    {
        proof {
            reveal(bb_apply);
        }
        self.tm = SCRDES::from(val);
    }

    /// Sub-screen layer enable register.
    fn set_ts(&mut self, val: u8)
        requires
            old(self)@.wf(),
        ensures
            final(self)@.wf(),
            final(self)@ == bb_apply(old(self)@, 0x212D, val),
    {
        proof {
            reveal(bb_apply);
        }
        self.ts = SCRDES::from(val);
    }
}

/// A write to one of a channel's seven configuration registers: the
/// control byte, destination register low byte, source address low/high,
/// source bank, and transfer size low/high.
pub open spec fn dma_reg_write(c: CpuView, addr: u16, val: u8) -> CpuView {
    let ch = ((addr >> 4) & 0xF) as int;
    let reg = addr & 0xF;
    let chan = c.dma[ch];
    let chan2 = if reg == 0 {
        DmaChannel { control: DMAControl::spec_from(val), ..chan }
    } else if reg == 1 {
        DmaChannel { dest: val, ..chan }
    } else if reg == 2 {
        DmaChannel { addr: (chan.addr & 0xFF00) | (val as u16), ..chan }
    } else if reg == 3 {
        DmaChannel { addr: (chan.addr & 0x00FF) | ((val as u16) << 8), ..chan }
    } else if reg == 4 {
        DmaChannel { bank: val, ..chan }
    } else if reg == 5 {
        DmaChannel { size: (chan.size & 0xFF00) | (val as u16), ..chan }
    } else {
        DmaChannel { size: (chan.size & 0x00FF) | ((val as u16) << 8), ..chan }
    };
    CpuView { dma: c.dma.update(ch, chan2), ..c }
}

/// The full effect of a CPU-level 8-bit bus write: the state afterwards,
/// the work RAM afterwards, and the result. Controller-bus addresses go
/// to the register file; the trigger, enable and speed registers and the
/// DMA channel configuration blocks are decoded here; everything else
/// falls through to the plain bus, where only work RAM accepts a write.
pub open spec fn write8_res(c: CpuView, m: MemV, addr: u16, val: u8) -> (CpuView, MemV, Result<
    (),
    EmuError,
>) {
    if 0x2100 <= addr && addr <= 0x21FF {
        if bb_ok(c, addr) {
            (bb_apply(c, addr, val), m, Ok(()))
        } else {
            (c, m, Err(bb_err(c, addr)))
        }
    } else if addr == 0x4200 {
        (CpuView { nmitimen: val, ..c }, m, Ok(()))
    } else if 0x4201 <= addr && addr <= 0x4203 {
        (c, m, Ok(()))
    } else if addr == 0x420B {
        let t = crate::dma::dma_chans(c, m, val, 0);
        ((if t.1 is Ok {
            t.0
        } else {
            c
        }), m, t.1)
    } else if addr == 0x420C {
        if val == 0 {
            (CpuView { hdmaen: 0u8, ..c }, m, Ok(()))
        } else {
            (c, m, Err(EmuError::UnsupportedDmaMode))
        }
    } else if addr == 0x420D {
        (CpuView { fastrom: val & 1 == 1, ..c }, m, Ok(()))
    } else if 0x4300 <= addr && addr <= 0x4366 && (addr & 0xF) < 7 {
        (dma_reg_write(c, addr, val), m, Ok(()))
    } else if addr < 0x2000 {
        (c, (MemV { wram: m.wram.update(addr as int, val), ..m }), Ok(()))
    } else {
        (c, m, Err(EmuError::UnmappedAccess(addr)))
    }
}

/// The full effect of a CPU-level 16-bit bus write: the low byte at
/// `addr`, then the high byte at `addr + 1` (wrapping). The write is
/// all or nothing: if either byte would fail, nothing at all is
/// written and the first failure's error is reported.
pub open spec fn write16_res(c: CpuView, m: MemV, addr: u16, val: u16) -> (CpuView, MemV, Result<
    (),
    EmuError,
>) {
    let w1 = write8_res(c, m, addr, (val & 0x00FF) as u8);
    if w1.2 is Err {
        (c, m, w1.2)
    } else {
        let w2 = write8_res(w1.0, w1.1, addr.wrapping_add(1), ((val & 0xFF00) >> 8) as u8);
        if w2.2 is Err {
            (c, m, w2.2)
        } else {
            w2
        }
    }
}

/// The full effect of a push: the byte goes to the bus at the stack
/// pointer, and on success the stack pointer moves down by one; a
/// failing write leaves the stack pointer where it was.
pub open spec fn push8_res(c: CpuView, m: MemV, val: u8) -> (CpuView, MemV, Result<(), EmuError>) {
    let w = write8_res(c, m, c.stack_ptr, val);
    if w.2 is Ok {
        ((CpuView { stack_ptr: c.stack_ptr.wrapping_sub(1), ..w.0 }), w.1, w.2)
    } else {
        w
    }
}

/// The full effect of a 16-bit push: high byte at the stack pointer,
/// low byte one address below, per the stack convention, and the stack
/// pointer moves down by two. All or nothing: if either byte would
/// fail, nothing is written and the stack pointer does not move.
pub open spec fn push16_res(c: CpuView, m: MemV, val: u16) -> (CpuView, MemV, Result<
    (),
    EmuError,
>) {
    let sp = c.stack_ptr;
    let w1 = write8_res(c, m, sp, ((val & 0xFF00) >> 8) as u8);
    if w1.2 is Err {
        (c, m, w1.2)
    } else {
        let w2 = write8_res(w1.0, w1.1, sp.wrapping_sub(1), (val & 0x00FF) as u8);
        if w2.2 is Err {
            (c, m, w2.2)
        } else {
            ((CpuView { stack_ptr: sp.wrapping_sub(2), ..w2.0 }), w2.1, w2.2)
        }
    }
}

/// The full effect of a pull: the byte one address above the stack
/// pointer (bank zero) is read and the pointer moves up onto it; a
/// failing read leaves the stack pointer where it was.
pub open spec fn pull8_res(c: CpuView, m: MemV) -> (CpuView, Result<u8, EmuError>) {
    let sp1 = c.stack_ptr.wrapping_add(1);
    match bus_read8(m, sp1, 0) {
        Ok(v) => ((CpuView { stack_ptr: sp1, ..c }), Ok(v)),
        Err(e) => (c, Err(e)),
    }
}

/// The full effect of a 16-bit pull: low byte first, then the high
/// byte, the exact mirror of the 16-bit push. All or nothing: if either
/// byte is unreadable, the stack pointer does not move.
pub open spec fn pull16_res(c: CpuView, m: MemV) -> (CpuView, Result<u16, EmuError>) {
    let sp1 = c.stack_ptr.wrapping_add(1);
    let sp2 = c.stack_ptr.wrapping_add(2);
    match bus_read8(m, sp1, 0) {
        Err(e) => (c, Err(e)),
        Ok(lo) => match bus_read8(m, sp2, 0) {
            Err(e) => (c, Err(e)),
            Ok(hi) => ((CpuView { stack_ptr: sp2, ..c }), Ok(spec_u16_from_bytes(lo, hi))),
        },
    }
}

/// A successful 8-bit write anywhere but the increment-control register
/// and the DMA trigger leaves the VRAM increment control unchanged.
proof fn lemma_write8_keeps_vmain(c: CpuView, m: MemV, addr: u16, val: u8)
    requires
        addr != 0x2115,
        addr != 0x420B,
    ensures
        write8_res(c, m, addr, val).0.vmain == c.vmain,
{
    if 0x2100 <= addr && addr <= 0x21FF {
        lemma_bb_apply_frame(c, addr, val);
    }
}

/// Whether the second byte of a two-byte bus write succeeds — and with
/// which error it fails — is already determined before the first byte
/// is written, as long as the second byte is not the DMA trigger and
/// the first byte cannot reconfigure the VRAM remapping the second may
/// depend on. This is what lets a 16-bit write or push be checked in
/// full before its first byte moves.
pub proof fn lemma_check_stable(c: CpuView, m: MemV, a1: u16, v1: u8, a2: u16, v2: u8)
    requires
        write8_res(c, m, a1, v1).2 is Ok,
        a2 != 0x420B,
        (a2 == 0x2118 || a2 == 0x2119) ==> (a1 != 0x2115 && a1 != 0x420B),
    ensures
        ({
            let w1 = write8_res(c, m, a1, v1);
            write8_res(w1.0, w1.1, a2, v2).2 == write8_res(c, m, a2, v2).2
        }),
{
    if a2 == 0x2118 || a2 == 0x2119 {
        lemma_write8_keeps_vmain(c, m, a1, v1);
    }
}

/// An element-for-element copy of a vector of plain values.
fn copy_vec<T: Copy>(v: &Vec<T>) -> (r: Vec<T>)
    ensures
        r@ == v@,
{
    let mut out: Vec<T> = Vec::new();
    let mut i: usize = 0;
    let n = v.len();
    while i < n
        invariant
            i <= n,
            n == v@.len(),
            out@ =~= v@.subrange(0, i as int),
        decreases n - i,
    {
        out.push(v[i]);
        i += 1;
    }
    proof {
        assert(out@ =~= v@);
    }
    out
}

impl Ricoh5A22 {
    /// A deep copy with the same view. Multi-part operations take one
    /// before they start so that a failure can restore the machine
    /// exactly, leaving no partial effect behind.
    pub fn snapshot(&self) -> (r: Ricoh5A22)
        ensures
            r@ == self@,
    {
        Ricoh5A22 {
            pc: self.pc,
            p_reg: self.p_reg,
            nmitimen: self.nmitimen,
            emulation: self.emulation,
            hdmaen: self.hdmaen,
            mdmaen: self.mdmaen,
            inidisp: self.inidisp,
            fastrom: self.fastrom,
            a_reg: self.a_reg,
            x_reg: self.x_reg,
            y_reg: self.y_reg,
            direct_page: self.direct_page,
            stack_ptr: self.stack_ptr,
            pbr: self.pbr,
            dbr: self.dbr,
            dma: copy_vec(&self.dma),
            vmain: self.vmain,
            bgmode: self.bgmode,
            bgxsc: copy_vec(&self.bgxsc),
            bg12nba: self.bg12nba,
            bg34nba: self.bg34nba,
            tm: self.tm,
            ts: self.ts,
            ppu: PpuState {
                vram: copy_vec(&self.ppu.vram),
                vram_addr: self.ppu.vram_addr,
                palette: copy_vec(&self.ppu.palette),
                palette_index: self.ppu.palette_index,
            },
        }
    }

    /// Whether an 8-bit bus write would succeed right now, and with
    /// which error it would fail, without performing it. A would-be DMA
    /// trigger is judged by running it on a discarded copy.
    pub(crate) fn can_write8(&self, mem: &Memory, addr: u16, val: u8) -> (r: Result<(), EmuError>)
        requires
            self@.wf(),
            mem.wf(),
        ensures
            r == write8_res(self@, mem@, addr, val).2,
    {
        if 0x2100 <= addr && addr <= 0x21FF {
            if self.bb_writable(addr) {
                Ok(())
            } else {
                Err(self.bb_error(addr))
            }
        } else if addr == 0x4200 {
            Ok(())
        } else if 0x4201 <= addr && addr <= 0x4203 {
            Ok(())
        } else if addr == 0x420B {
            let mut probe = self.snapshot();
            probe.dma_trigger(mem, val)
        } else if addr == 0x420C {
            if val == 0 {
                Ok(())
            } else {
                Err(EmuError::UnsupportedDmaMode)
            }
        } else if addr == 0x420D {
            Ok(())
        } else if 0x4300 <= addr && addr <= 0x4366 && (addr & 0xF) < 7 {
            Ok(())
        } else if addr < 0x2000 {
            Ok(())
        } else {
            Err(EmuError::UnmappedAccess(addr))
        }
    }

    /// CPU-level 8-bit bus write. A write to the DMA trigger register
    /// runs the enabled channels' transfers synchronously before this
    /// call returns. A failing write has no effect at all.
    pub fn write_u8(&mut self, mem: &mut Memory, addr: u16, val: u8) -> (r: Result<(), EmuError>)
        requires
            old(self)@.wf(),
            old(mem).wf(),
        ensures
            final(self)@.wf(),
            final(mem).wf(),
            ({
                let w = write8_res(old(self)@, old(mem)@, addr, val);
                final(self)@ == w.0 && final(mem)@ == w.1 && r == w.2
            }),
    {
        if 0x2100 <= addr && addr <= 0x21FF {
            self.write_b(addr, val)
        } else if addr == 0x4200 {
            self.nmitimen = val;
            Ok(())
        } else if 0x4201 <= addr && addr <= 0x4203 {
            Ok(())
        } else if addr == 0x420B {
            self.dma_trigger(mem, val)
        } else if addr == 0x420C {
            if val == 0 {
                self.hdmaen = 0;
                Ok(())
            } else {
                Err(EmuError::UnsupportedDmaMode)
            }
        } else if addr == 0x420D {
            self.fastrom = val & 1 == 1;
            Ok(())
        } else if 0x4300 <= addr && addr <= 0x4366 && (addr & 0xF) < 7 {
            proof {
                assert((0x4300 <= addr && addr <= 0x4366 && (addr & 0xF) < 7) ==> ((addr >> 4)
                    & 0xF) < 7) by (bit_vector);
            }
            let ch = ((addr >> 4) & 0xF) as usize;
            let reg = addr & 0xF;
            let mut chan = self.dma[ch];
            if reg == 0 {
                chan.control = DMAControl::from(val);
            } else if reg == 1 {
                chan.dest = val;
            } else if reg == 2 {
                chan.addr = (chan.addr & 0xFF00) | (val as u16);
            } else if reg == 3 {
                chan.addr = (chan.addr & 0x00FF) | ((val as u16) << 8);
            } else if reg == 4 {
                chan.bank = val;
            } else if reg == 5 {
                chan.size = (chan.size & 0xFF00) | (val as u16);
            } else {
                chan.size = (chan.size & 0x00FF) | ((val as u16) << 8);
            }
            self.dma.set(ch, chan);
            Ok(())
        } else {
            mem.write_u8(addr, val)
        }
    }

    /// CPU-level 16-bit bus write, low byte at `addr` first. Both bytes
    /// are checked before either is written: a failing write has no
    /// effect at all.
    pub fn write_u16(&mut self, mem: &mut Memory, addr: u16, val: u16) -> (r: Result<
        (),
        EmuError,
    >)
        requires
            old(self)@.wf(),
            old(mem).wf(),
        ensures
            final(self)@.wf(),
            final(mem).wf(),
            ({
                let w = write16_res(old(self)@, old(mem)@, addr, val);
                final(self)@ == w.0 && final(mem)@ == w.1 && r == w.2
            }),
    {
        let lo = (val & 0x00FF) as u8;
        let hi = ((val & 0xFF00) >> 8) as u8;
        let a2 = addr.wrapping_add(1);
        match self.can_write8(mem, addr, lo) {
            Err(e) => {
                return Err(e);
            },
            Ok(_) => {},
        }
        proof {
            assert(a2 != 0x420B);
            lemma_check_stable(self@, mem@, addr, lo, a2, hi);
        }
        match self.can_write8(mem, a2, hi) {
            Err(e) => {
                return Err(e);
            },
            Ok(_) => {},
        }
        let _w1 = self.write_u8(mem, addr, lo);
        self.write_u8(mem, a2, hi)
    }

    /// Push one byte: write at the stack pointer, then move it down; a
    /// failing write leaves the stack pointer where it was.
    pub fn push_u8(&mut self, mem: &mut Memory, val: u8) -> (r: Result<(), EmuError>)
        requires
            old(self)@.wf(),
            old(mem).wf(),
        ensures
            final(self)@.wf(),
            final(mem).wf(),
            ({
                let w = push8_res(old(self)@, old(mem)@, val);
                final(self)@ == w.0 && final(mem)@ == w.1 && r == w.2
            }),
    {
        let sp = self.stack_ptr;
        let wres = self.write_u8(mem, sp, val);
        if wres.is_ok() {
            self.stack_ptr = sp.wrapping_sub(1);
        }
        wres
    }

    /// Push a 16-bit value: high byte first, then the low byte, at
    /// descending addresses. Both bytes are checked before either is
    /// written: a failing push has no effect at all.
    #[verifier::rlimit(100)]
    #[verifier::spinoff_prover]
    pub fn push_u16(&mut self, mem: &mut Memory, val: u16) -> (r: Result<(), EmuError>)
        requires
            old(self)@.wf(),
            old(mem).wf(),
        ensures
            final(self)@.wf(),
            final(mem).wf(),
            ({
                let w = push16_res(old(self)@, old(mem)@, val);
                final(self)@ == w.0 && final(mem)@ == w.1 && r == w.2
            }),
    {
        let hi = ((val & 0xFF00) >> 8) as u8;
        let lo = (val & 0x00FF) as u8;
        let sp = self.stack_ptr;
        let a2 = sp.wrapping_sub(1);
        match self.can_write8(mem, sp, hi) {
            Err(e) => {
                return Err(e);
            },
            Ok(_) => {},
        }
        let chk2 = if sp == 0x420C {
            // the first write only clears the HDMA enable; judge the
            // second byte against exactly that state
            let saved = self.hdmaen;
            self.hdmaen = 0;
            let r = self.can_write8(mem, a2, lo);
            self.hdmaen = saved;
            r
        } else {
            proof {
                lemma_check_stable(self@, mem@, sp, hi, a2, lo);
            }
            self.can_write8(mem, a2, lo)
        };
        match chk2 {
            Err(e) => {
                return Err(e);
            },
            Ok(_) => {},
        }
        let _w1 = self.write_u8(mem, sp, hi);
        let r2 = self.write_u8(mem, a2, lo);
        self.stack_ptr = sp.wrapping_sub(2);
        r2
    }

    /// Pull one byte: read one address above the stack pointer, then
    /// move it up; a failing read leaves the stack pointer unchanged.
    pub fn pull_u8(&mut self, mem: &Memory) -> (r: Result<u8, EmuError>)
        requires
            old(self)@.wf(),
            mem.wf(),
        ensures
            final(self)@.wf(),
            ({
                let w = pull8_res(old(self)@, mem@);
                final(self)@ == w.0 && r == w.1
            }),
    {
        let sp1 = self.stack_ptr.wrapping_add(1);
        match self.read_u8(mem, sp1, 0u8) {
            Ok(v) => {
                self.stack_ptr = sp1;
                Ok(v)
            },
            Err(e) => Err(e),
        }
    }

    /// Pull a 16-bit value: low byte first, then the high byte, the
    /// exact mirror of the 16-bit push. Both bytes are read before the
    /// stack pointer moves: a failing pull has no effect at all.
    pub fn pull_u16(&mut self, mem: &Memory) -> (r: Result<u16, EmuError>)
        requires
            old(self)@.wf(),
            mem.wf(),
        ensures
            final(self)@.wf(),
            ({
                let w = pull16_res(old(self)@, mem@);
                final(self)@ == w.0 && r == w.1
            }),
    {
        let sp1 = self.stack_ptr.wrapping_add(1);
        let sp2 = self.stack_ptr.wrapping_add(2);
        let lo = match self.read_u8(mem, sp1, 0u8) {
            Ok(v) => v,
            Err(e) => {
                return Err(e);
            },
        };
        let hi = match self.read_u8(mem, sp2, 0u8) {
            Ok(v) => v,
            Err(e) => {
                return Err(e);
            },
        };
        self.stack_ptr = sp2;
        Ok(u16_from_bytes(lo, hi))
    }
}

/// Pushing a 16-bit value and pulling it right back, on an
/// otherwise-untouched stack inside work RAM, returns the original
/// value and restores the stack pointer — the pull order (low byte
/// first) is the exact mirror of the push order (high byte first). The
/// bound on the stack pointer covers both the emulation-mode page-one
/// convention and any native-mode stack placed in work RAM.
pub proof fn lemma_push_pull_round_trip(c: CpuView, m: MemV, v: u16)
    requires
        2 <= c.stack_ptr < 0x2000,
        m.wram.len() == 0x2000,
    ensures
        ({
            let p = push16_res(c, m, v);
            &&& p.2 is Ok
            &&& p.0.stack_ptr == c.stack_ptr - 2
            &&& pull16_res(p.0, p.1).1 == Ok::<u16, EmuError>(v)
            &&& pull16_res(p.0, p.1).0.stack_ptr == c.stack_ptr
        }),
{
    let sp = c.stack_ptr;
    let hi = ((v & 0xFF00) >> 8) as u8;
    let lo = (v & 0x00FF) as u8;
    let w1 = write8_res(c, m, sp, hi);
    assert(w1.1.wram == m.wram.update(sp as int, hi));
    let w2 = write8_res(w1.0, w1.1, sp.wrapping_sub(1), lo);
    assert(w2.1.wram == w1.1.wram.update(sp - 1, lo));
    let p = push16_res(c, m, v);
    assert(p.0.stack_ptr == sp - 2);
    let q = pull16_res(p.0, p.1);
    assert(q.1 == Ok::<u16, EmuError>(spec_u16_from_bytes(lo, hi)));
    assert(((((v & 0x00FF) as u8) as u16) | ((((v & 0xFF00) >> 8) as u8 as u16) << 8))
        == v) by (bit_vector);
}

} // verus!

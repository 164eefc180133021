//! Decoders for the packed hardware-register bytes: DMA channel control,
//! VRAM increment control, background mode/tilemap/character registers and
//! screen-layer enable masks.

use vstd::prelude::*;

verus! {

/// How many destination registers a DMA channel cycles through, and how
/// many times each, per transferred unit.
#[derive(Debug, Clone, Copy, PartialEq, Eq, Structural)]
pub enum DMATransferMode {
    /// one register, written once
    RW,
    /// two registers, written once each
    RRW,
    /// one register, written twice
    RWW,
    /// two registers, written twice each
    RRWW,
    /// four registers, written once each
    RRRRW,
    /// two registers, written twice, alternating
    RWRW,
}

impl DMATransferMode {
    pub open spec fn spec_from(val: u8) -> DMATransferMode {
        let low = val & 0b111;
        if low == 0b000 {
            DMATransferMode::RW
        } else if low == 0b001 {
            DMATransferMode::RRW
        } else if low == 0b010 {
            DMATransferMode::RWW
        } else if low == 0b011 {
            DMATransferMode::RRWW
        } else if low == 0b100 {
            DMATransferMode::RRRRW
        } else if low == 0b101 {
            DMATransferMode::RWRW
        } else if low == 0b110 {
            DMATransferMode::RRW
        } else {
            DMATransferMode::RRWW
        }
    }

    #[verifier::when_used_as_spec(spec_from)]
    pub fn from(val: u8) -> (r: DMATransferMode)
        ensures
            r == DMATransferMode::spec_from(val),
    {
        let low = val & 0b111;
        if low == 0b000 {
            DMATransferMode::RW
        } else if low == 0b001 {
            DMATransferMode::RRW
        } else if low == 0b010 {
            DMATransferMode::RWW
        } else if low == 0b011 {
            DMATransferMode::RRWW
        } else if low == 0b100 {
            DMATransferMode::RRRRW
        } else if low == 0b101 {
            DMATransferMode::RWRW
        } else if low == 0b110 {
            DMATransferMode::RRW
        } else {
            DMATransferMode::RRWW
        }
    }
}

impl Default for DMATransferMode {
    fn default() -> (r: DMATransferMode)
        ensures
            r == DMATransferMode::RW,
    {
        DMATransferMode::RW
    }
}

/// Direction of a DMA transfer: `To` moves CPU-side bytes into the
/// controller register window, `From` the reverse.
#[derive(Debug, Clone, Copy, PartialEq, Eq, Structural)]
pub enum DMADirection {
    To,
    From,
}

impl DMADirection {
    pub open spec fn spec_from(val: u8) -> DMADirection {
        if val & 0b10000000 == 0b10000000 {
            DMADirection::From
        } else {
            DMADirection::To
        }
    }

    #[verifier::when_used_as_spec(spec_from)]
    pub fn from(val: u8) -> (r: DMADirection)
        ensures
            r == DMADirection::spec_from(val),
    {
        if val & 0b10000000 == 0b10000000 {
            DMADirection::From
        } else {
            DMADirection::To
        }
    }
}

impl Default for DMADirection {
    fn default() -> (r: DMADirection)
        ensures
            r == DMADirection::To,
    {
        DMADirection::To
    }
}

/// Whether the source address advances after each transferred unit or
/// stays fixed.
#[derive(Debug, Clone, Copy, PartialEq, Eq, Structural)]
pub enum DMATransfer {
    Adjusted,
    Fixed,
}

impl DMATransfer {
    pub open spec fn spec_from(val: u8) -> DMATransfer {
        if val & 0b00001000 == 0b00001000 {
            DMATransfer::Fixed
        } else {
            DMATransfer::Adjusted
        }
    }

    #[verifier::when_used_as_spec(spec_from)]
    pub fn from(val: u8) -> (r: DMATransfer)
        ensures
            r == DMATransfer::spec_from(val),
    {
        if val & 0b00001000 == 0b00001000 {
            DMATransfer::Fixed
        } else {
            DMATransfer::Adjusted
        }
    }
}

impl Default for DMATransfer {
    fn default() -> (r: DMATransfer)
        ensures
            r == DMATransfer::Adjusted,
    {
        DMATransfer::Adjusted
    }
}

/// Direction in which an adjusted source address moves.
#[derive(Debug, Clone, Copy, PartialEq, Eq, Structural)]
pub enum DMAIncrement {
    Increment,
    Decrement,
}

impl DMAIncrement {
    pub open spec fn spec_from(val: u8) -> DMAIncrement {
        if val & 0b00010000 == 0b00010000 {
            DMAIncrement::Decrement
        } else {
            DMAIncrement::Increment
        }
    }

    #[verifier::when_used_as_spec(spec_from)]
    pub fn from(val: u8) -> (r: DMAIncrement)
        ensures
            r == DMAIncrement::spec_from(val),
    {
        if val & 0b00010000 == 0b00010000 {
            DMAIncrement::Decrement
        } else {
            DMAIncrement::Increment
        }
    }
}

impl Default for DMAIncrement {
    fn default() -> (r: DMAIncrement)
        ensures
            r == DMAIncrement::Increment,
    {
        DMAIncrement::Increment
    }
}

/// Addressing submode used by the horizontal-blank DMA variant.
#[derive(Debug, Clone, Copy, PartialEq, Eq, Structural)]
pub enum HDMAAddressing {
    Direct,
    Indirect,
}

impl HDMAAddressing {
    pub open spec fn spec_from(val: u8) -> HDMAAddressing {
        if val & 0b01000000 == 0b01000000 {
            HDMAAddressing::Indirect
        } else {
            HDMAAddressing::Direct
        }
    }

    #[verifier::when_used_as_spec(spec_from)]
    pub fn from(val: u8) -> (r: HDMAAddressing)
        ensures
            r == HDMAAddressing::spec_from(val),
    {
        if val & 0b01000000 == 0b01000000 {
            HDMAAddressing::Indirect
        } else {
            HDMAAddressing::Direct
        }
    }
}

impl Default for HDMAAddressing {
    fn default() -> (r: HDMAAddressing)
        ensures
            r == HDMAAddressing::Direct,
    {
        HDMAAddressing::Direct
    }
}

/// Decoded form of a DMA channel's control byte.
#[derive(Debug, Clone, Copy, PartialEq, Eq, Structural)]
pub struct DMAControl {
    pub transfer: DMATransfer,
    pub increment: DMAIncrement,
    pub hdma_mode: HDMAAddressing,
    pub direction: DMADirection,
    pub mode: DMATransferMode,
}

impl DMAControl {
    pub open spec fn spec_from(val: u8) -> DMAControl {
        DMAControl {
            transfer: DMATransfer::spec_from(val),
            increment: DMAIncrement::spec_from(val),
            hdma_mode: HDMAAddressing::spec_from(val),
            direction: DMADirection::spec_from(val),
            mode: DMATransferMode::spec_from(val),
        }
    }

    #[verifier::when_used_as_spec(spec_from)]
    pub fn from(val: u8) -> (r: DMAControl)
        ensures
            r == DMAControl::spec_from(val),
    {
        DMAControl {
            transfer: DMATransfer::from(val),
            increment: DMAIncrement::from(val),
            hdma_mode: HDMAAddressing::from(val),
            direction: DMADirection::from(val),
            mode: DMATransferMode::from(val),
        }
    }
}

impl Default for DMAControl {
    fn default() -> (r: DMAControl)
        ensures
            r == (DMAControl {
                transfer: DMATransfer::Adjusted,
                increment: DMAIncrement::Increment,
                hdma_mode: HDMAAddressing::Direct,
                direction: DMADirection::To,
                mode: DMATransferMode::RW,
            }),
    {
        DMAControl {
            transfer: DMATransfer::Adjusted,
            increment: DMAIncrement::Increment,
            hdma_mode: HDMAAddressing::Direct,
            direction: DMADirection::To,
            mode: DMATransferMode::RW,
        }
    }
}

/// Which half of a VRAM word triggers the address auto-increment.
#[derive(Debug, Clone, Copy, PartialEq, Eq, Structural)]
pub enum VINC {
    Byte,
    Word,
}

impl VINC {
    pub open spec fn spec_from(val: u8) -> VINC {
        if val & 0b10000000 == 0b10000000 {
            VINC::Word
        } else {
            VINC::Byte
        }
    }

    #[verifier::when_used_as_spec(spec_from)]
    pub fn from(val: u8) -> (r: VINC)
        ensures
            r == VINC::spec_from(val),
    {
        if val & 0b10000000 == 0b10000000 {
            VINC::Word
        } else {
            VINC::Byte
        }
    }
}

impl Default for VINC {
    fn default() -> (r: VINC)
        ensures
            r == VINC::Byte,
    {
        VINC::Byte
    }
}

/// Amount added to the VRAM address pointer when the increment fires.
#[derive(Debug, Clone, Copy, PartialEq, Eq, Structural)]
pub enum VINCAM {
    One,
    ThirtyTwo,
    OneTwentyEight,
}

impl VINCAM {
    pub open spec fn spec_from(val: u8) -> VINCAM {
        let low = val & 0b00000011;
        if low == 0b00000000 {
            VINCAM::One
        } else if low == 0b00000001 {
            VINCAM::ThirtyTwo
        } else {
            VINCAM::OneTwentyEight
        }
    }

    #[verifier::when_used_as_spec(spec_from)]
    pub fn from(val: u8) -> (r: VINCAM)
        ensures
            r == VINCAM::spec_from(val),
    {
        let low = val & 0b00000011;
        if low == 0b00000000 {
            VINCAM::One
        } else if low == 0b00000001 {
            VINCAM::ThirtyTwo
        } else {
            VINCAM::OneTwentyEight
        }
    }

    /// The pointer step this amount stands for.
    pub open spec fn spec_step(self) -> u16 {
        match self {
            VINCAM::One => 1u16,
            VINCAM::ThirtyTwo => 32u16,
            VINCAM::OneTwentyEight => 128u16,
        }
    }

    #[verifier::when_used_as_spec(spec_step)]
    pub fn step(self) -> (r: u16)
        ensures
            r == self.spec_step(),
    {
        match self {
            VINCAM::One => 1u16,
            VINCAM::ThirtyTwo => 32u16,
            VINCAM::OneTwentyEight => 128u16,
        }
    }
}

impl Default for VINCAM {
    fn default() -> (r: VINCAM)
        ensures
            r == VINCAM::One,
    {
        VINCAM::One
    }
}

/// VRAM address bit-remapping mode; only `NoRemap` is supported by the core.
#[derive(Debug, Clone, Copy, PartialEq, Eq, Structural)]
pub enum VREMAP {
    NoRemap,
    First,
    Second,
    Third,
}

impl VREMAP {
    pub open spec fn spec_from(val: u8) -> VREMAP {
        let low = val & 0b00001100;
        if low == 0b00000000 {
            VREMAP::NoRemap
        } else if low == 0b00000100 {
            VREMAP::First
        } else if low == 0b00001000 {
            VREMAP::Second
        } else {
            VREMAP::Third
        }
    }

    #[verifier::when_used_as_spec(spec_from)]
    pub fn from(val: u8) -> (r: VREMAP)
        ensures
            r == VREMAP::spec_from(val),
    {
        let low = val & 0b00001100;
        if low == 0b00000000 {
            VREMAP::NoRemap
        } else if low == 0b00000100 {
            VREMAP::First
        } else if low == 0b00001000 {
            VREMAP::Second
        } else {
            VREMAP::Third
        }
    }
}

impl Default for VREMAP {
    fn default() -> (r: VREMAP)
        ensures
            r == VREMAP::NoRemap,
    {
        VREMAP::NoRemap
    }
}

/// Decoded form of the VRAM increment-control register byte.
#[derive(Debug, Clone, Copy, PartialEq, Eq, Structural)]
pub struct VMAIN {
    pub increment: VINC,
    pub amount: VINCAM,
    pub remap: VREMAP,
}

impl VMAIN {
    pub open spec fn spec_from(val: u8) -> VMAIN {
        VMAIN {
            increment: VINC::spec_from(val),
            amount: VINCAM::spec_from(val),
            remap: VREMAP::spec_from(val),
        }
    }

    #[verifier::when_used_as_spec(spec_from)]
    pub fn from(val: u8) -> (r: VMAIN)
        ensures
            r == VMAIN::spec_from(val),
    {
        VMAIN {
            increment: VINC::from(val),
            amount: VINCAM::from(val),
            remap: VREMAP::from(val),
        }
    }
}

impl Default for VMAIN {
    fn default() -> (r: VMAIN)
        ensures
            r == (VMAIN { increment: VINC::Byte, amount: VINCAM::One, remap: VREMAP::NoRemap }),
    {
        VMAIN { increment: VINC::Byte, amount: VINCAM::One, remap: VREMAP::NoRemap }
    }
}

/// Background rendering mode selected by the low bits of the BG mode byte.
#[derive(Debug, Clone, Copy, PartialEq, Eq, Structural)]
pub enum BGMODES {
    Mode0,
    Mode1,
    Mode2,
    Mode3,
    Mode4,
    Mode5,
    Mode6,
    Mode7,
}

impl BGMODES {
    pub open spec fn spec_from(val: u8) -> BGMODES {
        let low = val & 0b111;
        if low == 0b000 {
            BGMODES::Mode0
        } else if low == 0b001 {
            BGMODES::Mode1
        } else if low == 0b010 {
            BGMODES::Mode2
        } else if low == 0b011 {
            BGMODES::Mode3
        } else if low == 0b100 {
            BGMODES::Mode4
        } else if low == 0b101 {
            BGMODES::Mode5
        } else if low == 0b110 {
            BGMODES::Mode6
        } else {
            BGMODES::Mode7
        }
    }

    #[verifier::when_used_as_spec(spec_from)]
    pub fn from(val: u8) -> (r: BGMODES)
        ensures
            r == BGMODES::spec_from(val),
    {
        let low = val & 0b111;
        if low == 0b000 {
            BGMODES::Mode0
        } else if low == 0b001 {
            BGMODES::Mode1
        } else if low == 0b010 {
            BGMODES::Mode2
        } else if low == 0b011 {
            BGMODES::Mode3
        } else if low == 0b100 {
            BGMODES::Mode4
        } else if low == 0b101 {
            BGMODES::Mode5
        } else if low == 0b110 {
            BGMODES::Mode6
        } else {
            BGMODES::Mode7
        }
    }
}

impl Default for BGMODES {
    fn default() -> (r: BGMODES)
        ensures
            r == BGMODES::Mode0,
    {
        BGMODES::Mode0
    }
}

/// Character (tile) size for one background layer.
#[derive(Debug, Clone, Copy, PartialEq, Eq, Structural)]
pub enum CHARSIZE {
    S8,
    S16,
}

impl CHARSIZE {
    pub open spec fn spec_from(val: u8) -> CHARSIZE {
        if val & 0b1 == 0b1 {
            CHARSIZE::S16
        } else {
            CHARSIZE::S8
        }
    }

    #[verifier::when_used_as_spec(spec_from)]
    pub fn from(val: u8) -> (r: CHARSIZE)
        ensures
            r == CHARSIZE::spec_from(val),
    {
        if val & 0b1 == 0b1 {
            CHARSIZE::S16
        } else {
            CHARSIZE::S8
        }
    }
}

impl Default for CHARSIZE {
    fn default() -> (r: CHARSIZE)
        ensures
            r == CHARSIZE::S8,
    {
        CHARSIZE::S8
    }
}

/// Character sizes of the four background layers, decoded from the high
/// nibble of the BG mode byte.
#[derive(Debug, Clone, Copy, PartialEq, Eq, Structural)]
pub struct BGCHAR(pub CHARSIZE, pub CHARSIZE, pub CHARSIZE, pub CHARSIZE);

impl BGCHAR {
    pub open spec fn spec_from(val: u8) -> BGCHAR {
        BGCHAR(
            CHARSIZE::spec_from(val >> 4),
            CHARSIZE::spec_from(val >> 5),
            CHARSIZE::spec_from(val >> 6),
            CHARSIZE::spec_from(val >> 7),
        )
    }

    #[verifier::when_used_as_spec(spec_from)]
    pub fn from(val: u8) -> (r: BGCHAR)
        ensures
            r == BGCHAR::spec_from(val),
    {
        BGCHAR(
            CHARSIZE::from(val >> 4),
            CHARSIZE::from(val >> 5),
            CHARSIZE::from(val >> 6),
            CHARSIZE::from(val >> 7),
        )
    }
}

impl Default for BGCHAR {
    fn default() -> (r: BGCHAR)
        ensures
            r == (BGCHAR(CHARSIZE::S8, CHARSIZE::S8, CHARSIZE::S8, CHARSIZE::S8)),
    {
        BGCHAR(CHARSIZE::S8, CHARSIZE::S8, CHARSIZE::S8, CHARSIZE::S8)
    }
}

/// Decoded form of the BG mode register byte.
#[derive(Debug, Clone, Copy, PartialEq, Eq, Structural)]
pub struct BGMODE {
    pub bg_sizes: BGCHAR,
    pub mode: BGMODES,
}

impl BGMODE {
    pub open spec fn spec_from(val: u8) -> BGMODE {
        BGMODE { bg_sizes: BGCHAR::spec_from(val), mode: BGMODES::spec_from(val) }
    }

    #[verifier::when_used_as_spec(spec_from)]
    pub fn from(val: u8) -> (r: BGMODE)
        ensures
            r == BGMODE::spec_from(val),
    {
        BGMODE { bg_sizes: BGCHAR::from(val), mode: BGMODES::from(val) }
    }
}

impl Default for BGMODE {
    fn default() -> (r: BGMODE)
        ensures
            r == (BGMODE {
                bg_sizes: BGCHAR(CHARSIZE::S8, CHARSIZE::S8, CHARSIZE::S8, CHARSIZE::S8),
                mode: BGMODES::Mode0,
            }),
    {
        BGMODE {
            bg_sizes: BGCHAR(CHARSIZE::S8, CHARSIZE::S8, CHARSIZE::S8, CHARSIZE::S8),
            mode: BGMODES::Mode0,
        }
    }
}

/// Tilemap dimensions of one background layer.
#[derive(Debug, Clone, Copy, PartialEq, Eq, Structural)]
pub enum BGSIZE {
    S32x32,
    S64x32,
    S32x64,
    S64x64,
}

impl BGSIZE {
    pub open spec fn spec_from(val: u8) -> BGSIZE {
        let low = val & 0b11;
        if low == 0b00 {
            BGSIZE::S32x32
        } else if low == 0b01 {
            BGSIZE::S64x32
        } else if low == 0b10 {
            BGSIZE::S32x64
        } else {
            BGSIZE::S64x64
        }
    }

    #[verifier::when_used_as_spec(spec_from)]
    pub fn from(val: u8) -> (r: BGSIZE)
        ensures
            r == BGSIZE::spec_from(val),
    {
        let low = val & 0b11;
        if low == 0b00 {
            BGSIZE::S32x32
        } else if low == 0b01 {
            BGSIZE::S64x32
        } else if low == 0b10 {
            BGSIZE::S32x64
        } else {
            BGSIZE::S64x64
        }
    }
}

impl Default for BGSIZE {
    fn default() -> (r: BGSIZE)
        ensures
            r == BGSIZE::S32x32,
    {
        BGSIZE::S32x32
    }
}

/// Decoded form of one background layer's tilemap address/size byte.
#[derive(Debug, Clone, Copy, PartialEq, Eq, Structural)]
pub struct BGXSC {
    pub addr: u16,
    pub size: BGSIZE,
}

impl BGXSC {
    pub open spec fn spec_from(val: u8) -> BGXSC {
        BGXSC { addr: ((val & 0xFC) as u16) << 8, size: BGSIZE::spec_from(val) }
    }

    #[verifier::when_used_as_spec(spec_from)]
    pub fn from(val: u8) -> (r: BGXSC)
        ensures
            r == BGXSC::spec_from(val),
    {
        BGXSC { addr: ((val & 0xFC) as u16) << 8, size: BGSIZE::from(val) }
    }
}

impl Default for BGXSC {
    fn default() -> (r: BGXSC)
        ensures
            r == (BGXSC { addr: 0u16, size: BGSIZE::S32x32 }),
    {
        BGXSC { addr: 0u16, size: BGSIZE::S32x32 }
    }
}

/// Character data base addresses for a pair of background layers.
#[derive(Debug, Clone, Copy, PartialEq, Eq, Structural)]
pub struct BGNBA(pub u16, pub u16);

impl BGNBA {
    pub open spec fn spec_from(val: u8) -> BGNBA {
        BGNBA(((val as u16) & 0x0F) << 12, ((val as u16) & 0xF0) << 4)
    }

    #[verifier::when_used_as_spec(spec_from)]
    pub fn from(val: u8) -> (r: BGNBA)
        ensures
            r == BGNBA::spec_from(val),
    {
        BGNBA(((val as u16) & 0x0F) << 12, ((val as u16) & 0xF0) << 4)
    }
}

impl Default for BGNBA {
    fn default() -> (r: BGNBA)
        ensures
            r == (BGNBA(0u16, 0u16)),
    {
        BGNBA(0u16, 0u16)
    }
}

/// Screen-layer enable mask: which background layers and the object layer
/// are shown on a screen.
#[derive(Debug, Clone, Copy, PartialEq, Eq, Structural)]
pub struct SCRDES {
    pub bg1: bool,
    pub bg2: bool,
    pub bg3: bool,
    pub bg4: bool,
    pub obj: bool,
}

impl SCRDES {
    pub open spec fn spec_from(val: u8) -> SCRDES {
        SCRDES {
            bg1: val & 0b00001 == 0b00001,
            bg2: val & 0b00010 == 0b00010,
            bg3: val & 0b00100 == 0b00100,
            bg4: val & 0b01000 == 0b01000,
            obj: val & 0b10000 == 0b10000,
        }
    }

    #[verifier::when_used_as_spec(spec_from)]
    pub fn from(val: u8) -> (r: SCRDES)
        ensures
            r == SCRDES::spec_from(val),
    {
        SCRDES {
            bg1: val & 0b00001 == 0b00001,
            bg2: val & 0b00010 == 0b00010,
            bg3: val & 0b00100 == 0b00100,
            bg4: val & 0b01000 == 0b01000,
            obj: val & 0b10000 == 0b10000,
        }
    }
}

impl Default for SCRDES {
    fn default() -> (r: SCRDES)
        ensures
            r == (SCRDES { bg1: false, bg2: false, bg3: false, bg4: false, obj: false }),
    {
        SCRDES { bg1: false, bg2: false, bg3: false, bg4: false, obj: false }
    }
}

/// One DMA channel's configuration, as assembled by writes to its seven
/// consecutive register bytes.
#[derive(Debug, Clone, Copy, PartialEq, Eq, Structural)]
pub struct DmaChannel {
    /// decoded control byte
    pub control: DMAControl,
    /// low byte of the destination register on the controller bus
    pub dest: u8,
    /// source address within the source bank
    pub addr: u16,
    /// source bank
    pub bank: u8,
    /// transfer size in bytes
    pub size: u16,
}

impl DmaChannel {
    /// The zeroed configuration every channel holds at reset.
    pub open spec fn spec_cleared() -> DmaChannel {
        DmaChannel {
            control: DMAControl {
                transfer: DMATransfer::Adjusted,
                increment: DMAIncrement::Increment,
                hdma_mode: HDMAAddressing::Direct,
                direction: DMADirection::To,
                mode: DMATransferMode::RW,
            },
            dest: 0u8,
            addr: 0u16,
            bank: 0u8,
            size: 0u16,
        }
    }

    #[verifier::when_used_as_spec(spec_cleared)]
    pub fn cleared() -> (r: DmaChannel)
        ensures
            r == DmaChannel::spec_cleared(),
    {
        DmaChannel {
            control: DMAControl {
                transfer: DMATransfer::Adjusted,
                increment: DMAIncrement::Increment,
                hdma_mode: HDMAAddressing::Direct,
                direction: DMADirection::To,
                mode: DMATransferMode::RW,
            },
            dest: 0u8,
            addr: 0u16,
            bank: 0u8,
            size: 0u16,
        }
    }
}

} // verus!

//! Error conditions surfaced by the core. Every failure of a bus access,
//! of instruction decode or of execution is reported to the caller of
//! `step`; nothing is retried or swallowed inside the core.

use vstd::prelude::*;
use crate::inst::Opcode;
use crate::inst::Value;

verus! {

/// Why a step, bus access or DMA trigger failed.
#[derive(Debug, Clone, Copy, PartialEq, Eq, Structural)]
pub enum EmuError {
    /// The decoder could not classify the fetched opcode byte.
    UnknownOpcode(u8),
    /// The opcode/addressing-mode pair is recognized but has no executor.
    UnimplementedInstruction(Opcode, Value),
    /// Address decoding matched neither RAM, ROM nor a hardware register.
    UnmappedAccess(u16),
    /// A DMA channel was triggered with a direction or transfer pattern
    /// the core deliberately does not implement.
    UnsupportedDmaMode,
    /// A VRAM write was attempted with an address-remapping mode the core
    /// deliberately does not implement.
    UnsupportedRemap,
    /// An explicit stop instruction was executed.
    Halted,
}

} // verus!

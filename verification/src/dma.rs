//! The DMA engine: on a write to the trigger register, each enabled
//! channel synchronously moves its configured byte range from the plain
//! bus into the controller register window, before the triggering write
//! returns. Only the "CPU to controller" direction with the one- and
//! two-register-once patterns is implemented; any other configuration
//! fails with `UnsupportedDmaMode` before anything is written.

use vstd::prelude::*;
use vstd::pervasive::unreached;
use crate::cpu::CpuView;
use crate::cpu::Ricoh5A22;
use crate::cpu::bb_apply;
use crate::cpu::bb_err;
use crate::cpu::bb_ok;
use crate::cpu::bus_ok;
use crate::cpu::bus_val;
use crate::cpu::lemma_bb_apply_frame;
use crate::cpu::lemma_bb_ok_preserved;
use crate::err::EmuError;
use crate::mem::MemV;
use crate::mem::Memory;
use crate::regs::DMAControl;
use crate::regs::DMADirection;
use crate::regs::DMATransfer;
use crate::regs::DMATransferMode;
use crate::regs::DmaChannel;

verus! {

/// The only channel configurations the core implements: transfers toward
/// the controller registers, with the one-register-once or
/// two-registers-once pattern.
pub open spec fn dma_mode_supported(ctl: DMAControl) -> bool {
    &&& ctl.direction == DMADirection::To
    &&& (ctl.mode == DMATransferMode::RW || ctl.mode == DMATransferMode::RRW)
}

/// First destination register of a channel: its destination low byte
/// inside the controller window.
pub open spec fn dma_dest_a(chan: DmaChannel) -> u16 {
    0x2100u16 | (chan.dest as u16)
}

/// Second destination register for the two-register pattern: the next
/// register, wrapping to the bottom of the window at its top.
pub open spec fn dma_dest_b(chan: DmaChannel) -> u16 {
    if dma_dest_a(chan) == 0x21FF {
        0x2100u16
    } else {
        (dma_dest_a(chan) + 1) as u16
    }
}

/// Source address of the `k`-th byte of a one-register transfer: fixed,
/// or advancing one per byte.
pub open spec fn rw_src(chan: DmaChannel, k: int) -> u16 {
    if chan.control.transfer == DMATransfer::Fixed {
        chan.addr
    } else {
        chan.addr.wrapping_add(k as u16)
    }
}

/// First source address of the `j`-th pair of a two-register transfer.
pub open spec fn rrw_src1(chan: DmaChannel, j: int) -> u16 {
    if chan.control.transfer == DMATransfer::Fixed {
        chan.addr
    } else {
        chan.addr.wrapping_add((2 * j) as u16)
    }
}

/// Second source address of the `j`-th pair of a two-register transfer.
pub open spec fn rrw_src2(chan: DmaChannel, j: int) -> u16 {
    if chan.control.transfer == DMATransfer::Fixed {
        chan.addr.wrapping_add(1)
    } else {
        chan.addr.wrapping_add((2 * j + 1) as u16)
    }
}

/// Scan the sources of a one-register transfer from byte `k` on: the
/// error of the first unreadable source address, if any.
#[verifier::opaque]
pub open spec fn dma_rw_scan(m: MemV, chan: DmaChannel, k: int) -> Result<(), EmuError>
    decreases chan.size - k,
{
    if k < 0 || k >= chan.size {
        Ok(())
    } else if !bus_ok(m, rw_src(chan, k), chan.bank) {
        Err(EmuError::UnmappedAccess(rw_src(chan, k)))
    } else {
        dma_rw_scan(m, chan, k + 1)
    }
}

/// Scan the sources of a two-register transfer from pair `j` on.
#[verifier::opaque]
pub open spec fn dma_rrw_scan(m: MemV, chan: DmaChannel, j: int) -> Result<(), EmuError>
    decreases chan.size / 2 - j,
{
    if j < 0 || j >= chan.size / 2 {
        Ok(())
    } else if !bus_ok(m, rrw_src1(chan, j), chan.bank) {
        Err(EmuError::UnmappedAccess(rrw_src1(chan, j)))
    } else if !bus_ok(m, rrw_src2(chan, j), chan.bank) {
        Err(EmuError::UnmappedAccess(rrw_src2(chan, j)))
    } else {
        dma_rrw_scan(m, chan, j + 1)
    }
}

/// One byte of a one-register transfer: read the current source byte,
/// write it to the destination register, and advance the source address
/// if the channel is so configured.
pub open spec fn dma_rw_step(c: CpuView, m: MemV, ch: int) -> CpuView {
    let chan = c.dma[ch];
    let c1 = bb_apply(c, dma_dest_a(chan), bus_val(m, chan.addr, chan.bank));
    if chan.control.transfer == DMATransfer::Adjusted {
        CpuView {
            dma: c1.dma.update(ch, (DmaChannel { addr: chan.addr.wrapping_add(1), ..chan })),
            ..c1
        }
    } else {
        c1
    }
}

/// The state after `k` bytes of a one-register transfer.
pub open spec fn dma_rw_run(c: CpuView, m: MemV, ch: int, k: nat) -> CpuView
    decreases k,
{
    if k == 0 {
        c
    } else {
        dma_rw_step(dma_rw_run(c, m, ch, (k - 1) as nat), m, ch)
    }
}

/// One pair of a two-register transfer: two source bytes go to the two
/// consecutive destination registers; the source address advances by two
/// if the channel is so configured.
pub open spec fn dma_rrw_step(c: CpuView, m: MemV, ch: int) -> CpuView {
    let chan = c.dma[ch];
    let c1 = bb_apply(c, dma_dest_a(chan), bus_val(m, chan.addr, chan.bank));
    let c2 = bb_apply(c1, dma_dest_b(chan), bus_val(m, chan.addr.wrapping_add(1), chan.bank));
    if chan.control.transfer == DMATransfer::Adjusted {
        CpuView {
            dma: c2.dma.update(ch, (DmaChannel { addr: chan.addr.wrapping_add(2), ..chan })),
            ..c2
        }
    } else {
        c2
    }
}

/// The state after `j` pairs of a two-register transfer.
pub open spec fn dma_rrw_run(c: CpuView, m: MemV, ch: int, j: nat) -> CpuView
    decreases j,
{
    if j == 0 {
        c
    } else {
        dma_rrw_step(dma_rrw_run(c, m, ch, (j - 1) as nat), m, ch)
    }
}

/// Everything validated before a channel transfers a single byte: the
/// configuration must be supported, the destination registers writable,
/// and every source address readable. The first violation's error.
#[verifier::opaque]
pub open spec fn dma_chan_check(c: CpuView, m: MemV, ch: int) -> Result<(), EmuError> {
    let chan = c.dma[ch];
    if !dma_mode_supported(chan.control) {
        Err(EmuError::UnsupportedDmaMode)
    } else if chan.control.mode == DMATransferMode::RW {
        if !bb_ok(c, dma_dest_a(chan)) {
            Err(bb_err(c, dma_dest_a(chan)))
        } else {
            dma_rw_scan(m, chan, 0)
        }
    } else {
        if !bb_ok(c, dma_dest_a(chan)) {
            Err(bb_err(c, dma_dest_a(chan)))
        } else if !bb_ok(c, dma_dest_b(chan)) {
            Err(bb_err(c, dma_dest_b(chan)))
        } else {
            dma_rrw_scan(m, chan, 0)
        }
    }
}

/// The state after one channel's whole transfer: `size` bytes for the
/// one-register pattern, `size / 2` pairs for the two-register pattern.
#[verifier::opaque]
pub open spec fn dma_chan_run(c: CpuView, m: MemV, ch: int) -> CpuView {
    let chan = c.dma[ch];
    if chan.control.mode == DMATransferMode::RW {
        dma_rw_run(c, m, ch, chan.size as nat)
    } else {
        dma_rrw_run(c, m, ch, (chan.size / 2) as nat)
    }
}

/// The trigger write, from channel `ch` up: each channel whose bit is
/// set in `val` is validated and run in channel order. A channel that
/// fails validation stops the sequence with its error and transfers
/// nothing itself; earlier channels have already completed.
#[verifier::opaque]
pub open spec fn dma_chans(c: CpuView, m: MemV, val: u8, ch: int) -> (CpuView, Result<
    (),
    EmuError,
>)
    decreases 7 - ch,
{
    if ch < 0 || ch >= 7 {
        (c, Ok(()))
    } else if (val >> (ch as u8)) & 1 != 1 {
        dma_chans(c, m, val, ch + 1)
    } else {
        match dma_chan_check(c, m, ch) {
            Err(e) => (c, Err(e)),
            Ok(u) => dma_chans(dma_chan_run(c, m, ch), m, val, ch + 1),
        }
    }
}

/// A clean scan of a one-register transfer makes every byte's source
/// readable.
proof fn lemma_rw_scan_ok(m: MemV, chan: DmaChannel, j: int, k: int)
    requires
        0 <= j <= k < chan.size,
        dma_rw_scan(m, chan, j) is Ok,
    ensures
        bus_ok(m, rw_src(chan, k), chan.bank),
    decreases k - j,
{
    reveal(dma_rw_scan);
    if j < k {
        lemma_rw_scan_ok(m, chan, j + 1, k);
    }
}

/// A clean scan of a two-register transfer makes both source addresses
/// of every pair readable.
proof fn lemma_rrw_scan_ok(m: MemV, chan: DmaChannel, i: int, j: int)
    requires
        0 <= i <= j < chan.size / 2,
        dma_rrw_scan(m, chan, i) is Ok,
    ensures
        bus_ok(m, rrw_src1(chan, j), chan.bank),
        bus_ok(m, rrw_src2(chan, j), chan.bank),
    decreases j - i,
{
    reveal(dma_rrw_scan);
    if i < j {
        lemma_rrw_scan_ok(m, chan, i + 1, j);
    }
}

impl Ricoh5A22 {
    /// Check every source byte of a one-register transfer without
    /// touching anything.
    fn dma_scan_rw(&self, mem: &Memory, chan: DmaChannel) -> (r: Result<(), EmuError>)
        requires
            mem.wf(),
        ensures
            r == dma_rw_scan(mem@, chan, 0),
    {
        proof {
            reveal(dma_rw_scan);
        }
        let n = chan.size;
        let mut k: u16 = 0;
        while k < n
            invariant
                mem.wf(),
                k <= n,
                n == chan.size,
                dma_rw_scan(mem@, chan, 0) == dma_rw_scan(mem@, chan, k as int),
            decreases n - k,
        {
            proof {
                reveal(dma_rw_scan);
            }
            let a = if chan.control.transfer == DMATransfer::Fixed {
                chan.addr
            } else {
                chan.addr.wrapping_add(k)
            };
            proof {
                assert(a == rw_src(chan, k as int));
            }
            match self.read_u8(mem, a, chan.bank) {
                Ok(_) => {},
                Err(e) => {
                    return Err(e);
                },
            }
            k += 1;
        }
        proof {
            reveal(dma_rw_scan);
        }
        Ok(())
    }

    /// Check both source bytes of every pair of a two-register transfer
    /// without touching anything.
    fn dma_scan_rrw(&self, mem: &Memory, chan: DmaChannel) -> (r: Result<(), EmuError>)
        requires
            mem.wf(),
        ensures
            r == dma_rrw_scan(mem@, chan, 0),
    {
        proof {
            reveal(dma_rrw_scan);
        }
        let n = chan.size / 2;
        let mut j: u16 = 0;
        while j < n
            invariant
                mem.wf(),
                j <= n,
                n == chan.size / 2,
                dma_rrw_scan(mem@, chan, 0) == dma_rrw_scan(mem@, chan, j as int),
            decreases n - j,
        {
            proof {
                reveal(dma_rrw_scan);
            }
            let a1 = if chan.control.transfer == DMATransfer::Fixed {
                chan.addr
            } else {
                chan.addr.wrapping_add(2 * j)
            };
            let a2 = if chan.control.transfer == DMATransfer::Fixed {
                chan.addr.wrapping_add(1)
            } else {
                chan.addr.wrapping_add(2 * j + 1)
            };
            proof {
                assert(a1 == rrw_src1(chan, j as int));
                assert(a2 == rrw_src2(chan, j as int));
            }
            match self.read_u8(mem, a1, chan.bank) {
                Ok(_) => {},
                Err(e) => {
                    return Err(e);
                },
            }
            match self.read_u8(mem, a2, chan.bank) {
                Ok(_) => {},
                Err(e) => {
                    return Err(e);
                },
            }
            j += 1;
        }
        proof {
            reveal(dma_rrw_scan);
        }
        Ok(())
    }

    /// Run a fully validated one-register transfer to completion.
    #[verifier::rlimit(100)]
    #[verifier::spinoff_prover]
    fn dma_run_rw(&mut self, mem: &Memory, ch: usize)
        requires
            old(self)@.wf(),
            mem.wf(),
            ch < 7,
            bb_ok(old(self)@, dma_dest_a(old(self)@.dma[ch as int])),
            dma_rw_scan(mem@, old(self)@.dma[ch as int], 0) is Ok,
        ensures
            final(self)@.wf(),
            final(self)@ == dma_rw_run(
                old(self)@,
                mem@,
                ch as int,
                old(self)@.dma[ch as int].size as nat,
            ),
    {
        let ghost chan0 = old(self)@.dma[ch as int];
        let n = self.dma[ch].size;
        let mut k: u16 = 0;
        while k < n
            invariant
                self@.wf(),
                mem.wf(),
                ch < 7,
                k <= n,
                chan0 == old(self)@.dma[ch as int],
                n == chan0.size,
                dma_rw_scan(mem@, chan0, 0) is Ok,
                self@ == dma_rw_run(old(self)@, mem@, ch as int, k as nat),
                self@.dma[ch as int] == (DmaChannel { addr: rw_src(chan0, k as int), ..chan0 }),
                bb_ok(self@, dma_dest_a(chan0)),
            decreases n - k,
        {
            let ghost cpre = self@;
            let chan = self.dma[ch];
            proof {
                lemma_rw_scan_ok(mem@, chan0, 0, k as int);
            }
            let b = match self.read_u8(mem, chan.addr, chan.bank) {
                Ok(v) => v,
                Err(_) => unreached(),
            };
            let d = chan.dest;
            let dest = 0x2100u16 | (d as u16);
            proof {
                assert(0x2100u16 <= (0x2100u16 | (d as u16)) && (0x2100u16 | (d as u16))
                    <= 0x21FF) by (bit_vector);
                assert(dest == dma_dest_a(chan0));
            }
            let _wr = self.write_b(dest, b);
            if chan.control.transfer == DMATransfer::Adjusted {
                let mut chan2 = self.dma[ch];
                chan2.addr = chan.addr.wrapping_add(1);
                self.dma.set(ch, chan2);
            }
            proof {
                lemma_bb_apply_frame(cpre, dest, b);
                lemma_bb_ok_preserved(cpre, dest, b, dma_dest_a(chan0));
                assert(dma_rw_run(old(self)@, mem@, ch as int, (k + 1) as nat) == dma_rw_step(
                    dma_rw_run(old(self)@, mem@, ch as int, k as nat),
                    mem@,
                    ch as int,
                ));
                assert(self@ == dma_rw_step(cpre, mem@, ch as int));
            }
            k += 1;
        }
    }

    /// Run a fully validated two-register transfer to completion.
    #[verifier::rlimit(100)]
    #[verifier::spinoff_prover]
    fn dma_run_rrw(&mut self, mem: &Memory, ch: usize)
        requires
            old(self)@.wf(),
            mem.wf(),
            ch < 7,
            bb_ok(old(self)@, dma_dest_a(old(self)@.dma[ch as int])),
            bb_ok(old(self)@, dma_dest_b(old(self)@.dma[ch as int])),
            dma_rrw_scan(mem@, old(self)@.dma[ch as int], 0) is Ok,
        ensures
            final(self)@.wf(),
            final(self)@ == dma_rrw_run(
                old(self)@,
                mem@,
                ch as int,
                (old(self)@.dma[ch as int].size / 2) as nat,
            ),
    {
        let ghost chan0 = old(self)@.dma[ch as int];
        let n = self.dma[ch].size / 2;
        let mut j: u16 = 0;
        while j < n
            invariant
                self@.wf(),
                mem.wf(),
                ch < 7,
                j <= n,
                chan0 == old(self)@.dma[ch as int],
                n == chan0.size / 2,
                dma_rrw_scan(mem@, chan0, 0) is Ok,
                self@ == dma_rrw_run(old(self)@, mem@, ch as int, j as nat),
                self@.dma[ch as int] == (DmaChannel { addr: rrw_src1(chan0, j as int), ..chan0 }),
                bb_ok(self@, dma_dest_a(chan0)),
                bb_ok(self@, dma_dest_b(chan0)),
            decreases n - j,
        {
            let ghost cpre = self@;
            let chan = self.dma[ch];
            proof {
                lemma_rrw_scan_ok(mem@, chan0, 0, j as int);
            }
            let b1 = match self.read_u8(mem, chan.addr, chan.bank) {
                Ok(v) => v,
                Err(_) => unreached(),
            };
            let b2 = match self.read_u8(mem, chan.addr.wrapping_add(1), chan.bank) {
                Ok(v) => v,
                Err(_) => unreached(),
            };
            let d = chan.dest;
            let desta = 0x2100u16 | (d as u16);
            proof {
                assert(0x2100u16 <= (0x2100u16 | (d as u16)) && (0x2100u16 | (d as u16))
                    <= 0x21FF) by (bit_vector);
                assert(desta == dma_dest_a(chan0));
            }
            let destb = if desta == 0x21FF {
                0x2100u16
            } else {
                desta + 1
            };
            proof {
                assert(destb == dma_dest_b(chan0));
            }
            let _w1 = self.write_b(desta, b1);
            let ghost cmid = self@;
            proof {
                lemma_bb_apply_frame(cpre, desta, b1);
                lemma_bb_ok_preserved(cpre, desta, b1, dma_dest_a(chan0));
                lemma_bb_ok_preserved(cpre, desta, b1, dma_dest_b(chan0));
            }
            let _w2 = self.write_b(destb, b2);
            if chan.control.transfer == DMATransfer::Adjusted {
                let mut chan2 = self.dma[ch];
                chan2.addr = chan.addr.wrapping_add(2);
                self.dma.set(ch, chan2);
            }
            proof {
                lemma_bb_apply_frame(cmid, destb, b2);
                lemma_bb_ok_preserved(cmid, destb, b2, dma_dest_a(chan0));
                lemma_bb_ok_preserved(cmid, destb, b2, dma_dest_b(chan0));
                assert(dma_rrw_run(old(self)@, mem@, ch as int, (j + 1) as nat) == dma_rrw_step(
                    dma_rrw_run(old(self)@, mem@, ch as int, j as nat),
                    mem@,
                    ch as int,
                ));
                assert(self@ == dma_rrw_step(cpre, mem@, ch as int));
            }
            j += 1;
        }
    }

    /// Validate and run each enabled channel in channel order,
    /// synchronously. The first channel that fails validation reports
    /// its error having written nothing itself; channels before it have
    /// completed. The public trigger below wraps this so that even
    /// those earlier transfers are rolled back on failure.
    #[verifier::rlimit(100)]
    #[verifier::spinoff_prover]
    fn dma_channels_run(&mut self, mem: &Memory, val: u8) -> (r: Result<(), EmuError>)
        requires
            old(self)@.wf(),
            mem.wf(),
        ensures
            final(self)@.wf(),
            (final(self)@, r) == dma_chans(old(self)@, mem@, val, 0),
    {
        proof {
            reveal(dma_chans);
            reveal(dma_chan_check);
            reveal(dma_chan_run);
        }
        let mut ch: usize = 0;
        while ch < 7
            invariant
                self@.wf(),
                mem.wf(),
                ch <= 7,
                dma_chans(old(self)@, mem@, val, 0) == dma_chans(self@, mem@, val, ch as int),
            decreases 7 - ch,
        {
            proof {
                reveal(dma_chans);
                reveal(dma_chan_check);
                reveal(dma_chan_run);
            }
            if (val >> (ch as u8)) & 1 == 1 {
                let ghost cpre = self@;
                let chan = self.dma[ch];
                let supported = chan.control.direction == DMADirection::To
                    && (chan.control.mode == DMATransferMode::RW || chan.control.mode
                    == DMATransferMode::RRW);
                if !supported {
                    return Err(EmuError::UnsupportedDmaMode);
                }
                let d = chan.dest;
                let desta = 0x2100u16 | (d as u16);
                proof {
                    assert(0x2100u16 <= (0x2100u16 | (d as u16)) && (0x2100u16 | (d as u16))
                        <= 0x21FF) by (bit_vector);
                    assert(desta == dma_dest_a(chan));
                }
                if chan.control.mode == DMATransferMode::RW {
                    if !self.bb_writable(desta) {
                        return Err(self.bb_error(desta));
                    }
                    match self.dma_scan_rw(mem, chan) {
                        Err(e) => {
                            return Err(e);
                        },
                        Ok(_) => {},
                    }
                    self.dma_run_rw(mem, ch);
                } else {
                    let destb = if desta == 0x21FF {
                        0x2100u16
                    } else {
                        desta + 1
                    };
                    proof {
                        assert(destb == dma_dest_b(chan));
                    }
                    if !self.bb_writable(desta) {
                        return Err(self.bb_error(desta));
                    }
                    if !self.bb_writable(destb) {
                        return Err(self.bb_error(destb));
                    }
                    match self.dma_scan_rrw(mem, chan) {
                        Err(e) => {
                            return Err(e);
                        },
                        Ok(_) => {},
                    }
                    self.dma_run_rrw(mem, ch);
                }
                proof {
                    assert(dma_chan_check(cpre, mem@, ch as int) is Ok);
                    assert(self@ == dma_chan_run(cpre, mem@, ch as int));
                }
            }
            ch += 1;
        }
        Ok(())
    }
    /// A write to the DMA trigger register: validate and run each
    /// enabled channel in channel order, synchronously, all or nothing.
    /// If any enabled channel fails validation, its error is reported
    /// and the machine is exactly as it was before the trigger — the
    /// transfers of earlier channels are rolled back, so a failing
    /// trigger performs no writes at all.
    pub fn dma_trigger(&mut self, mem: &Memory, val: u8) -> (r: Result<(), EmuError>)
        requires
            old(self)@.wf(),
            mem.wf(),
        ensures
            final(self)@.wf(),
            r == dma_chans(old(self)@, mem@, val, 0).1,
            r is Ok ==> final(self)@ == dma_chans(old(self)@, mem@, val, 0).0,
            r is Err ==> final(self)@ == old(self)@,
    {
        let saved = self.snapshot();
        let r = self.dma_channels_run(mem, val);
        if r.is_err() {
            *self = saved;
        }
        r
    }
}

/// Helper for the law below: scanning the trigger mask from `k` up to
/// the first enabled channel `ch`.
proof fn lemma_unsupported_prefix(c: CpuView, m: MemV, val: u8, ch: int, k: int)
    requires
        0 <= k <= ch < 7,
        (val >> (ch as u8)) & 1 == 1,
        forall|j: int| 0 <= j < ch ==> #[trigger] ((val >> (j as u8)) & 1) != 1,
        !dma_mode_supported(c.dma[ch].control),
    ensures
        dma_chans(c, m, val, k) == (c, Err::<(), EmuError>(EmuError::UnsupportedDmaMode)),
    decreases ch - k,
{
    reveal(dma_chans);
    reveal(dma_chan_check);
    if k < ch {
        lemma_unsupported_prefix(c, m, val, ch, k + 1);
    }
}

/// Triggering a DMA transfer whose first enabled channel is configured
/// with an unsupported direction or transfer pattern fails with
/// `UnsupportedDmaMode` and performs no writes at all: the state after
/// the trigger is exactly the state before it.
pub proof fn lemma_unsupported_dma_no_writes(c: CpuView, m: MemV, val: u8, ch: int)
    requires
        0 <= ch < 7,
        (val >> (ch as u8)) & 1 == 1,
        forall|j: int| 0 <= j < ch ==> #[trigger] ((val >> (j as u8)) & 1) != 1,
        !dma_mode_supported(c.dma[ch].control),
    ensures
        dma_chans(c, m, val, 0) == (c, Err::<(), EmuError>(EmuError::UnsupportedDmaMode)),
        crate::cpu::write8_res(c, m, 0x420B, val) == (
            c,
            m,
            Err::<(), EmuError>(EmuError::UnsupportedDmaMode),
        ),
{
    lemma_unsupported_prefix(c, m, val, ch, 0);
}

} // verus!

//! The fetch/decode/execute loop: `step` fetches one instruction,
//! executes it, and returns its cycle cost. The full semantics of every
//! implemented instruction — register and flag effects, bus writes,
//! width-dependent behavior and cycle counts — is `step_res`.

use vstd::prelude::*;
use crate::cpu::CpuView;
use crate::cpu::PReg;
use crate::cpu::Ricoh5A22;
use crate::cpu::bus_read16;
use crate::cpu::bus_read8;
use crate::cpu::spec_u16_from_bytes;
use crate::cpu::u16_from_bytes;
use crate::cpu::pull16_res;
use crate::cpu::pull8_res;
use crate::cpu::push16_res;
use crate::cpu::push8_res;
use crate::cpu::write16_res;
use crate::cpu::write8_res;
use crate::err::EmuError;
use crate::inst::Instruction;
use crate::inst::Opcode;
use crate::inst::Value;
use crate::inst::decode_of;
use crate::inst::fetch_adv;
use crate::inst::fetch_ok;
use crate::mem::MemV;
use crate::mem::Memory;

verus! {

/// Flags after an 8-bit result: Zero iff the byte is zero, Negative
/// mirroring its most significant bit.
pub open spec fn nz8(p: PReg, v: u8) -> PReg {
    PReg { z: v == 0, n: v & 0x80 == 0x80, ..p }
}

/// Flags after a 16-bit result: Zero iff the word is zero, Negative
/// mirroring bit 15.
pub open spec fn nz16(p: PReg, v: u16) -> PReg {
    PReg { z: v == 0, n: v & 0x8000 == 0x8000, ..p }
}

/// Attach a cycle count to a bus-write outcome: the write's error if it
/// failed, the given cycle count if it succeeded.
pub open spec fn res_cycles(w: (CpuView, MemV, Result<(), EmuError>), n: u8) -> (CpuView, MemV, Result<
    u8,
    EmuError,
>) {
    match w.2 {
        Ok(u) => (w.0, w.1, Ok(n)),
        Err(e) => (w.0, w.1, Err(e)),
    }
}


/// SEI: set the interrupt-disable flag.
pub open spec fn sem_sei(c: CpuView) -> (CpuView, Result<u8, EmuError>) {
    ((CpuView { p_reg: (PReg { i: true, ..c.p_reg }), ..c }), Ok(2))
}

/// CLC: clear the carry flag.
pub open spec fn sem_clc(c: CpuView) -> (CpuView, Result<u8, EmuError>) {
    ((CpuView { p_reg: (PReg { c: false, ..c.p_reg }), ..c }), Ok(2))
}

/// CLI: clear the interrupt-disable flag.
pub open spec fn sem_cli(c: CpuView) -> (CpuView, Result<u8, EmuError>) {
    ((CpuView { p_reg: (PReg { i: false, ..c.p_reg }), ..c }), Ok(2))
}

/// XCE: swap the carry flag with the emulation-mode bit.
pub open spec fn sem_xce(c: CpuView) -> (CpuView, Result<u8, EmuError>) {
    ((CpuView { emulation: c.p_reg.c, p_reg: (PReg { c: c.emulation, ..c.p_reg }), ..c }), Ok(2))
}

/// REP: clear the status bits selected by the immediate mask.
pub open spec fn sem_rep(c: CpuView, f: u8) -> (CpuView, Result<u8, EmuError>) {
    ((CpuView { p_reg: PReg::spec_from_bits(c.p_reg.spec_bits() & !f), ..c }), Ok(3))
}

/// SEP: set the status bits selected by the immediate mask.
pub open spec fn sem_sep(c: CpuView, f: u8) -> (CpuView, Result<u8, EmuError>) {
    ((CpuView { p_reg: PReg::spec_from_bits(c.p_reg.spec_bits() | f), ..c }), Ok(3))
}

/// JMP absolute: unconditional jump.
pub open spec fn sem_jmp(c: CpuView, addr: u16) -> (CpuView, Result<u8, EmuError>) {
    ((CpuView { pc: addr, ..c }), Ok(3))
}

/// BNE: relative branch if the Zero flag is clear; the offset is a
/// signed 8-bit displacement from the instruction after the branch.
pub open spec fn sem_bne(c: CpuView, near: u8) -> (CpuView, Result<u8, EmuError>) {
    let taken = !c.p_reg.z;
    let pc2 = if taken {
        c.pc.wrapping_add((near as i8) as u16)
    } else {
        c.pc
    };
    let t: u8 = if taken {
        1
    } else {
        0
    };
    let e: u8 = if c.emulation {
        1
    } else {
        0
    };
    ((CpuView { pc: pc2, ..c }), Ok((2 + t + e) as u8))
}

/// LDA with an 8-bit immediate: the accumulator's high byte is kept.
pub open spec fn sem_lda_i8(c: CpuView, v: u8) -> (CpuView, Result<u8, EmuError>) {
    ((CpuView { a_reg: (c.a_reg & 0xFF00) | (v as u16), p_reg: nz8(c.p_reg, v), ..c }), Ok(2))
}

/// LDA with a 16-bit immediate: the whole accumulator is replaced.
pub open spec fn sem_lda_i16(c: CpuView, v: u16) -> (CpuView, Result<u8, EmuError>) {
    ((CpuView { a_reg: v, p_reg: nz16(c.p_reg, v), ..c }), Ok(3))
}

/// LDX with an 8-bit immediate: X's high byte is kept.
pub open spec fn sem_ldx_i8(c: CpuView, v: u8) -> (CpuView, Result<u8, EmuError>) {
    ((CpuView { x_reg: (c.x_reg & 0xFF00) | (v as u16), p_reg: nz8(c.p_reg, v), ..c }), Ok(3))
}

/// LDX with a 16-bit immediate.
pub open spec fn sem_ldx_i16(c: CpuView, v: u16) -> (CpuView, Result<u8, EmuError>) {
    ((CpuView { x_reg: v, p_reg: nz16(c.p_reg, v), ..c }), Ok(3))
}

/// LDY with an 8-bit immediate: Y's high byte is kept.
pub open spec fn sem_ldy_i8(c: CpuView, v: u8) -> (CpuView, Result<u8, EmuError>) {
    ((CpuView { y_reg: (c.y_reg & 0xFF00) | (v as u16), p_reg: nz8(c.p_reg, v), ..c }), Ok(2))
}

/// LDY with a 16-bit immediate.
pub open spec fn sem_ldy_i16(c: CpuView, v: u16) -> (CpuView, Result<u8, EmuError>) {
    ((CpuView { y_reg: v, p_reg: nz16(c.p_reg, v), ..c }), Ok(3))
}

/// LDA from an absolute address, at the accumulator's active width.
pub open spec fn sem_lda_abs(c: CpuView, m: MemV, addr: u16) -> (CpuView, Result<u8, EmuError>) {
    if c.p_reg.m {
        match bus_read8(m, addr, c.dbr) {
            Err(e) => (c, Err(e)),
            Ok(v) => {
                let a2 = (c.a_reg & 0xFF00) | (v as u16);
                (
                    (CpuView {
                        a_reg: a2,
                        p_reg: (PReg { z: a2 & 0xFF == 0, n: a2 & 0x80 == 0x80, ..c.p_reg }),
                        ..c
                    }),
                    Ok(4),
                )
            },
        }
    } else {
        match bus_read16(m, addr, c.dbr) {
            Err(e) => (c, Err(e)),
            Ok(v) => ((CpuView { a_reg: v, p_reg: nz16(c.p_reg, v), ..c }), Ok(5)),
        }
    }
}

/// LDX from an absolute address, at the index registers' active width.
pub open spec fn sem_ldx_abs(c: CpuView, m: MemV, addr: u16) -> (CpuView, Result<u8, EmuError>) {
    if c.p_reg.x {
        match bus_read8(m, addr, c.dbr) {
            Err(e) => (c, Err(e)),
            Ok(v) => (
                (CpuView { x_reg: (c.x_reg & 0xFF00) | (v as u16), p_reg: nz8(c.p_reg, v), ..c }),
                Ok(4),
            ),
        }
    } else {
        match bus_read16(m, addr, c.dbr) {
            Err(e) => (c, Err(e)),
            Ok(v) => ((CpuView { x_reg: v, p_reg: nz16(c.p_reg, v), ..c }), Ok(5)),
        }
    }
}

/// TCD: transfer the 16-bit accumulator to the Direct Page register.
pub open spec fn sem_tcd(c: CpuView) -> (CpuView, Result<u8, EmuError>) {
    ((CpuView { direct_page: c.a_reg, p_reg: nz16(c.p_reg, c.a_reg), ..c }), Ok(2))
}

/// TCS: transfer the accumulator to the stack pointer; in 8-bit
/// accumulator width the stack stays folded into page one.
pub open spec fn sem_tcs(c: CpuView) -> (CpuView, Result<u8, EmuError>) {
    let sp2 = if c.p_reg.m {
        0x0100u16 | (c.a_reg & 0xFF)
    } else {
        c.a_reg
    };
    ((CpuView { stack_ptr: sp2, ..c }), Ok(2))
}

/// TXS: transfer X to the stack pointer.
pub open spec fn sem_txs(c: CpuView) -> (CpuView, Result<u8, EmuError>) {
    ((CpuView { stack_ptr: c.x_reg, p_reg: nz16(c.p_reg, c.x_reg), ..c }), Ok(2))
}

/// INX: increment X with width-masked wraparound.
pub open spec fn sem_inx(c: CpuView) -> (CpuView, Result<u8, EmuError>) {
    if c.p_reg.x {
        let x2 = (((c.x_reg as u8).wrapping_add(1)) as u16) & 0xFF;
        (
            (CpuView {
                x_reg: x2,
                p_reg: (PReg { z: x2 & 0xFF == 0, n: x2 & 0x80 == 0x80, ..c.p_reg }),
                ..c
            }),
            Ok(2),
        )
    } else {
        let x2 = c.x_reg.wrapping_add(1);
        ((CpuView { x_reg: x2, p_reg: nz16(c.p_reg, x2), ..c }), Ok(2))
    }
}

/// DEX: decrement X with width-masked wraparound.
pub open spec fn sem_dex(c: CpuView) -> (CpuView, Result<u8, EmuError>) {
    if c.p_reg.x {
        let x2 = (((c.x_reg as u8).wrapping_sub(1)) as u16) & 0xFF;
        (
            (CpuView {
                x_reg: x2,
                p_reg: (PReg { z: x2 & 0xFF == 0, n: x2 & 0x80 == 0x80, ..c.p_reg }),
                ..c
            }),
            Ok(2),
        )
    } else {
        let x2 = c.x_reg.wrapping_sub(1);
        ((CpuView { x_reg: x2, p_reg: nz16(c.p_reg, x2), ..c }), Ok(2))
    }
}

/// INA: increment the accumulator with width-masked wraparound.
pub open spec fn sem_ina(c: CpuView) -> (CpuView, Result<u8, EmuError>) {
    if c.p_reg.m {
        let a2 = (((c.a_reg as u8).wrapping_add(1)) as u16) & 0xFF;
        (
            (CpuView {
                a_reg: a2,
                p_reg: (PReg { z: a2 & 0xFF == 0, n: a2 & 0x80 == 0x80, ..c.p_reg }),
                ..c
            }),
            Ok(2),
        )
    } else {
        let a2 = c.a_reg.wrapping_add(1);
        ((CpuView { a_reg: a2, p_reg: nz16(c.p_reg, a2), ..c }), Ok(2))
    }
}

/// XBA: swap the accumulator's high and low bytes; flags follow the new
/// low byte.
pub open spec fn sem_xba(c: CpuView) -> (CpuView, Result<u8, EmuError>) {
    let a2 = ((c.a_reg & 0xFF00) >> 8) | ((c.a_reg & 0x00FF) << 8);
    (
        (CpuView {
            a_reg: a2,
            p_reg: (PReg { z: a2 & 0xFF == 0, n: a2 & 0x80 == 0x80, ..c.p_reg }),
            ..c
        }),
        Ok(3),
    )
}

/// STA to an absolute address at the active width; Zero and Negative
/// follow the stored value.
#[verifier::opaque]
pub open spec fn sem_sta_abs(c: CpuView, m: MemV, addr: u16) -> (CpuView, MemV, Result<
    u8,
    EmuError,
>) {
    if !c.p_reg.m {
        let w = write16_res(c, m, addr, c.a_reg);
        match w.2 {
            Err(e) => (w.0, w.1, Err(e)),
            Ok(u) => ((CpuView { p_reg: nz16(w.0.p_reg, c.a_reg), ..w.0 }), w.1, Ok(5)),
        }
    } else {
        let lowa = (c.a_reg & 0xFF) as u8;
        let w = write8_res(c, m, addr, lowa);
        match w.2 {
            Err(e) => (w.0, w.1, Err(e)),
            Ok(u) => ((CpuView { p_reg: nz8(w.0.p_reg, lowa), ..w.0 }), w.1, Ok(4)),
        }
    }
}

/// STA to a direct-page offset: the Direct Page base is added, and a
/// nonzero Direct Page low byte costs one more cycle.
#[verifier::opaque]
pub open spec fn sem_sta_dp(c: CpuView, m: MemV, off: u8) -> (CpuView, MemV, Result<
    u8,
    EmuError,
>) {
    let addr = c.direct_page.wrapping_add(off as u16);
    let pen: u8 = if c.direct_page & 0xFF != 0 {
        1
    } else {
        0
    };
    if !c.p_reg.m {
        res_cycles(write16_res(c, m, addr, c.a_reg), (4 + pen) as u8)
    } else {
        res_cycles(write8_res(c, m, addr, (c.a_reg & 0xFF) as u8), (3 + pen) as u8)
    }
}

/// STX to an absolute address at the index width.
#[verifier::opaque]
pub open spec fn sem_stx_abs(c: CpuView, m: MemV, addr: u16) -> (CpuView, MemV, Result<
    u8,
    EmuError,
>) {
    if c.p_reg.x {
        let lowx = (c.x_reg & 0xFF) as u8;
        let w = write8_res(c, m, addr, lowx);
        match w.2 {
            Err(e) => (w.0, w.1, Err(e)),
            Ok(u) => (
                (CpuView {
                    p_reg: (PReg { z: lowx == 0, n: c.x_reg & 0x80 == 0x80, ..w.0.p_reg }),
                    ..w.0
                }),
                w.1,
                Ok(5),
            ),
        }
    } else {
        let w = write16_res(c, m, addr, c.x_reg);
        match w.2 {
            Err(e) => (w.0, w.1, Err(e)),
            Ok(u) => ((CpuView { p_reg: nz16(w.0.p_reg, c.x_reg), ..w.0 }), w.1, Ok(4)),
        }
    }
}

/// STY to an absolute address at the index width.
#[verifier::opaque]
pub open spec fn sem_sty_abs(c: CpuView, m: MemV, addr: u16) -> (CpuView, MemV, Result<
    u8,
    EmuError,
>) {
    if c.p_reg.x {
        let lowy = (c.y_reg & 0xFF) as u8;
        let w = write8_res(c, m, addr, lowy);
        match w.2 {
            Err(e) => (w.0, w.1, Err(e)),
            Ok(u) => (
                (CpuView {
                    p_reg: (PReg { z: lowy == 0, n: c.y_reg & 0x80 == 0x80, ..w.0.p_reg }),
                    ..w.0
                }),
                w.1,
                Ok(5),
            ),
        }
    } else {
        let w = write16_res(c, m, addr, c.y_reg);
        match w.2 {
            Err(e) => (w.0, w.1, Err(e)),
            Ok(u) => ((CpuView { p_reg: nz16(w.0.p_reg, c.y_reg), ..w.0 }), w.1, Ok(4)),
        }
    }
}

/// STX to a direct-page offset.
#[verifier::opaque]
pub open spec fn sem_stx_dp(c: CpuView, m: MemV, off: u8) -> (CpuView, MemV, Result<
    u8,
    EmuError,
>) {
    let addr = c.direct_page.wrapping_add(off as u16);
    let pen: u8 = if c.direct_page & 0xFF != 0 {
        1
    } else {
        0
    };
    if !c.p_reg.x {
        let w = write16_res(c, m, addr, c.x_reg);
        match w.2 {
            Err(e) => (w.0, w.1, Err(e)),
            Ok(u) => (
                (CpuView { p_reg: nz16(w.0.p_reg, c.x_reg), ..w.0 }),
                w.1,
                Ok((4 + pen) as u8),
            ),
        }
    } else {
        let lowx = (c.x_reg & 0xFF) as u8;
        let w = write8_res(c, m, addr, lowx);
        match w.2 {
            Err(e) => (w.0, w.1, Err(e)),
            Ok(u) => (
                (CpuView {
                    p_reg: (PReg { z: lowx == 0, n: c.x_reg & 0x80 == 0x80, ..w.0.p_reg }),
                    ..w.0
                }),
                w.1,
                Ok((3 + pen) as u8),
            ),
        }
    }
}

/// STZ to an absolute address: writes one or two zero bytes per the
/// accumulator width; no flags change.
#[verifier::opaque]
pub open spec fn sem_stz_abs(c: CpuView, m: MemV, addr: u16) -> (CpuView, MemV, Result<
    u8,
    EmuError,
>) {
    if !c.p_reg.m {
        res_cycles(write16_res(c, m, addr, 0u16), 5)
    } else {
        res_cycles(write8_res(c, m, addr, 0u8), 4)
    }
}

/// STZ to a direct-page offset indexed by X; a 16-bit index width costs
/// one more cycle.
#[verifier::opaque]
pub open spec fn sem_stz_dpx(c: CpuView, m: MemV, off: u8) -> (CpuView, MemV, Result<
    u8,
    EmuError,
>) {
    let addr = c.direct_page.wrapping_add(c.x_reg).wrapping_add(off as u16);
    let pen: u8 = if c.direct_page & 0xFF != 0 {
        1
    } else {
        0
    };
    let idx: u8 = if !c.p_reg.x {
        1
    } else {
        0
    };
    if !c.p_reg.m {
        res_cycles(write16_res(c, m, addr, 0u16), (4 + pen + idx) as u8)
    } else {
        res_cycles(write8_res(c, m, addr, 0u8), (4 + pen + idx) as u8)
    }
}

/// Compare the accumulator, at its active width, against a bus operand:
/// a subtraction without store; Carry is set exactly when the register
/// value is at least the operand.
pub open spec fn sem_cmp_abs(c: CpuView, m: MemV, addr: u16) -> (CpuView, Result<u8, EmuError>) {
    if c.p_reg.m {
        match bus_read8(m, addr, c.dbr) {
            Err(e) => (c, Err(e)),
            Ok(v) => {
                let lowa = (c.a_reg & 0xFF) as u8;
                let res = lowa.wrapping_sub(v);
                (
                    (CpuView {
                        p_reg: (PReg { z: res == 0, c: lowa >= v, n: res & 0x80 == 0x80, ..c.p_reg }),
                        ..c
                    }),
                    Ok(4),
                )
            },
        }
    } else {
        match bus_read16(m, addr, c.dbr) {
            Err(e) => (c, Err(e)),
            Ok(v) => {
                let res = c.a_reg.wrapping_sub(v);
                (
                    (CpuView {
                        p_reg: (PReg {
                            z: res == 0,
                            c: c.a_reg >= v,
                            n: res & 0x8000 == 0x8000,
                            ..c.p_reg
                        }),
                        ..c
                    }),
                    Ok(4),
                )
            },
        }
    }
}

/// Compare the X register against an 8-bit immediate.
pub open spec fn sem_cpx_i8(c: CpuView, v: u8) -> (CpuView, Result<u8, EmuError>) {
    if c.p_reg.x {
        let lowx = (c.x_reg & 0xFF) as u8;
        let res = lowx.wrapping_sub(v);
        (
            (CpuView {
                p_reg: (PReg { z: res == 0, c: lowx >= v, n: res & 0x80 == 0x80, ..c.p_reg }),
                ..c
            }),
            Ok(2),
        )
    } else {
        let res = c.x_reg.wrapping_sub(v as u16);
        (
            (CpuView {
                p_reg: (PReg {
                    z: res == 0,
                    c: c.x_reg >= (v as u16),
                    n: res & 0x8000 == 0x8000,
                    ..c.p_reg
                }),
                ..c
            }),
            Ok(3),
        )
    }
}

/// Compare the X register against a 16-bit immediate.
pub open spec fn sem_cpx_i16(c: CpuView, v: u16) -> (CpuView, Result<u8, EmuError>) {
    if c.p_reg.x {
        let res = (c.x_reg & 0xFF).wrapping_sub(v);
        (
            (CpuView {
                p_reg: (PReg {
                    z: res & 0xFF == 0,
                    c: (c.x_reg & 0xFF) >= v,
                    n: res & 0x80 == 0x80,
                    ..c.p_reg
                }),
                ..c
            }),
            Ok(2),
        )
    } else {
        let res = c.x_reg.wrapping_sub(v);
        (
            (CpuView {
                p_reg: (PReg {
                    z: res == 0,
                    c: c.x_reg >= v,
                    n: res & 0x8000 == 0x8000,
                    ..c.p_reg
                }),
                ..c
            }),
            Ok(3),
        )
    }
}

/// PHP: push the packed flag byte.
#[verifier::opaque]
pub open spec fn sem_php(c: CpuView, m: MemV) -> (CpuView, MemV, Result<u8, EmuError>) {
    res_cycles(push8_res(c, m, c.p_reg.spec_bits()), 3)
}

/// PHK: push the program bank.
#[verifier::opaque]
pub open spec fn sem_phk(c: CpuView, m: MemV) -> (CpuView, MemV, Result<u8, EmuError>) {
    res_cycles(push8_res(c, m, c.pbr), 3)
}

/// PHA: push the accumulator at its active width.
#[verifier::opaque]
pub open spec fn sem_pha(c: CpuView, m: MemV) -> (CpuView, MemV, Result<u8, EmuError>) {
    if c.p_reg.m {
        res_cycles(push8_res(c, m, (c.a_reg & 0xFF) as u8), 3)
    } else {
        res_cycles(push16_res(c, m, c.a_reg), 4)
    }
}

/// PHX: push X at the index width.
#[verifier::opaque]
pub open spec fn sem_phx(c: CpuView, m: MemV) -> (CpuView, MemV, Result<u8, EmuError>) {
    if c.p_reg.x {
        res_cycles(push8_res(c, m, (c.x_reg & 0xFF) as u8), 3)
    } else {
        res_cycles(push16_res(c, m, c.x_reg), 4)
    }
}

/// JSR absolute: push the return address, then jump.
#[verifier::opaque]
pub open spec fn sem_jsr_abs(c: CpuView, m: MemV, addr: u16) -> (CpuView, MemV, Result<
    u8,
    EmuError,
>) {
    let w = push16_res(c, m, c.pc);
    match w.2 {
        Err(e) => (w.0, w.1, Err(e)),
        Ok(u) => ((CpuView { pc: addr, ..w.0 }), w.1, Ok(6)),
    }
}

/// JSR long: push the program bank and the return address (high byte
/// first), then jump with the new bank. All or nothing: if any of the
/// three stack bytes cannot be written, nothing at all happens.
#[verifier::opaque]
pub open spec fn sem_jsr_long(c: CpuView, m: MemV, addr: u16, bank: u8) -> (CpuView, MemV, Result<
    u8,
    EmuError,
>) {
    let sp = c.stack_ptr;
    let w1 = write8_res(c, m, sp, c.pbr);
    match w1.2 {
        Err(e) => (c, m, Err(e)),
        Ok(u) => {
            let w2 = write8_res(w1.0, w1.1, sp.wrapping_sub(1), ((c.pc & 0xFF00) >> 8) as u8);
            match w2.2 {
                Err(e) => (c, m, Err(e)),
                Ok(u2) => {
                    let w3 = write8_res(w2.0, w2.1, sp.wrapping_sub(2), (c.pc & 0x00FF) as u8);
                    match w3.2 {
                        Err(e) => (c, m, Err(e)),
                        Ok(u3) => (
                            (CpuView {
                                pc: addr,
                                pbr: bank,
                                stack_ptr: sp.wrapping_sub(3),
                                ..w3.0
                            }),
                            w3.1,
                            Ok(8),
                        ),
                    }
                },
            }
        },
    }
}

/// PLP: pull the flag byte and restore every flag from it.
pub open spec fn sem_plp(c: CpuView, m: MemV) -> (CpuView, Result<u8, EmuError>) {
    let p = pull8_res(c, m);
    match p.1 {
        Err(e) => (p.0, Err(e)),
        Ok(v) => ((CpuView { p_reg: PReg::spec_from_bits(v), ..p.0 }), Ok(4)),
    }
}

/// PLB: pull the data bank.
pub open spec fn sem_plb(c: CpuView, m: MemV) -> (CpuView, Result<u8, EmuError>) {
    let p = pull8_res(c, m);
    match p.1 {
        Err(e) => (p.0, Err(e)),
        Ok(v) => ((CpuView { dbr: v, p_reg: nz8(p.0.p_reg, v), ..p.0 }), Ok(4)),
    }
}

/// PLD: pull the Direct Page register.
pub open spec fn sem_pld(c: CpuView, m: MemV) -> (CpuView, Result<u8, EmuError>) {
    let p = pull16_res(c, m);
    match p.1 {
        Err(e) => (p.0, Err(e)),
        Ok(v) => ((CpuView { direct_page: v, p_reg: nz16(p.0.p_reg, v), ..p.0 }), Ok(5)),
    }
}

/// PLA: pull into the accumulator at its active width.
pub open spec fn sem_pla(c: CpuView, m: MemV) -> (CpuView, Result<u8, EmuError>) {
    if c.p_reg.m {
        let p = pull8_res(c, m);
        match p.1 {
            Err(e) => (p.0, Err(e)),
            Ok(v) => {
                let a2 = (c.a_reg & 0xFF00) | (v as u16);
                (
                    (CpuView {
                        a_reg: a2,
                        p_reg: (PReg { z: a2 & 0xFF == 0, n: a2 & 0x80 == 0x80, ..p.0.p_reg }),
                        ..p.0
                    }),
                    Ok(4),
                )
            },
        }
    } else {
        let p = pull16_res(c, m);
        match p.1 {
            Err(e) => (p.0, Err(e)),
            Ok(v) => ((CpuView { a_reg: v, p_reg: nz16(p.0.p_reg, v), ..p.0 }), Ok(5)),
        }
    }
}

/// PLX: pull into X at the index width.
pub open spec fn sem_plx(c: CpuView, m: MemV) -> (CpuView, Result<u8, EmuError>) {
    if c.p_reg.x {
        let p = pull8_res(c, m);
        match p.1 {
            Err(e) => (p.0, Err(e)),
            Ok(v) => {
                let x2 = (c.x_reg & 0xFF00) | (v as u16);
                (
                    (CpuView {
                        x_reg: x2,
                        p_reg: (PReg { z: x2 & 0xFF == 0, n: x2 & 0x80 == 0x80, ..p.0.p_reg }),
                        ..p.0
                    }),
                    Ok(4),
                )
            },
        }
    } else {
        let p = pull16_res(c, m);
        match p.1 {
            Err(e) => (p.0, Err(e)),
            Ok(v) => ((CpuView { x_reg: v, p_reg: nz16(p.0.p_reg, v), ..p.0 }), Ok(5)),
        }
    }
}

/// RTS: pull the return address and resume there.
pub open spec fn sem_rts(c: CpuView, m: MemV) -> (CpuView, Result<u8, EmuError>) {
    let p = pull16_res(c, m);
    match p.1 {
        Err(e) => (p.0, Err(e)),
        Ok(v) => ((CpuView { pc: v, ..p.0 }), Ok(6)),
    }
}

/// RTL: pull the return address and the program bank and resume there.
/// All three stack bytes are read before the stack pointer moves: a
/// failing return has no effect at all.
pub open spec fn sem_rtl(c: CpuView, m: MemV) -> (CpuView, Result<u8, EmuError>) {
    let sp1 = c.stack_ptr.wrapping_add(1);
    let sp2 = c.stack_ptr.wrapping_add(2);
    let sp3 = c.stack_ptr.wrapping_add(3);
    match bus_read8(m, sp1, 0) {
        Err(e) => (c, Err(e)),
        Ok(lo) => match bus_read8(m, sp2, 0) {
            Err(e) => (c, Err(e)),
            Ok(hi) => match bus_read8(m, sp3, 0) {
                Err(e) => (c, Err(e)),
                Ok(b) => (
                    (CpuView {
                        pc: spec_u16_from_bytes(lo, hi),
                        pbr: b,
                        stack_ptr: sp3,
                        ..c
                    }),
                    Ok(6),
                ),
            },
        },
    }
}

/// Semantics of the flag, jump and branch instructions.
pub open spec fn sem_flags(c: CpuView, m: MemV, inst: Instruction) -> (CpuView, MemV, Result<
    u8,
    EmuError,
>) {
    match inst {
        Instruction(Opcode::SEI, _) => (sem_sei(c).0, m, sem_sei(c).1),
        Instruction(Opcode::CLC, _) => (sem_clc(c).0, m, sem_clc(c).1),
        Instruction(Opcode::CLI, Value::Implied) => (sem_cli(c).0, m, sem_cli(c).1),
        Instruction(Opcode::XCE, _) => (sem_xce(c).0, m, sem_xce(c).1),
        Instruction(Opcode::REP, Value::Immediate8(f)) => (sem_rep(c, f).0, m, sem_rep(c, f).1),
        Instruction(Opcode::SEP, Value::Immediate8(f)) => (sem_sep(c, f).0, m, sem_sep(c, f).1),
        Instruction(Opcode::JMP, Value::Absolute(addr)) => (
            sem_jmp(c, addr).0,
            m,
            sem_jmp(c, addr).1,
        ),
        Instruction(Opcode::BNE, Value::Immediate8(near)) => (
            sem_bne(c, near).0,
            m,
            sem_bne(c, near).1,
        ),
        _ => sem_loads(c, m, inst),
    }
}

/// Semantics of the load instructions: an 8-bit load replaces only the
/// low byte of its register and leaves the high byte untouched; a 16-bit
/// load replaces the whole register.
pub open spec fn sem_loads(c: CpuView, m: MemV, inst: Instruction) -> (CpuView, MemV, Result<
    u8,
    EmuError,
>) {
    match inst {
        Instruction(Opcode::LDA, Value::Immediate8(v)) => (sem_lda_i8(c, v).0, m, sem_lda_i8(c, v).1),
        Instruction(Opcode::LDA, Value::Immediate16(v)) => (
            sem_lda_i16(c, v).0,
            m,
            sem_lda_i16(c, v).1,
        ),
        Instruction(Opcode::LDX, Value::Immediate8(v)) => (sem_ldx_i8(c, v).0, m, sem_ldx_i8(c, v).1),
        Instruction(Opcode::LDX, Value::Immediate16(v)) => (
            sem_ldx_i16(c, v).0,
            m,
            sem_ldx_i16(c, v).1,
        ),
        Instruction(Opcode::LDY, Value::Immediate8(v)) => (sem_ldy_i8(c, v).0, m, sem_ldy_i8(c, v).1),
        Instruction(Opcode::LDY, Value::Immediate16(v)) => (
            sem_ldy_i16(c, v).0,
            m,
            sem_ldy_i16(c, v).1,
        ),
        Instruction(Opcode::LDA, Value::Absolute(addr)) => (
            sem_lda_abs(c, m, addr).0,
            m,
            sem_lda_abs(c, m, addr).1,
        ),
        Instruction(Opcode::LDX, Value::Absolute(addr)) => (
            sem_ldx_abs(c, m, addr).0,
            m,
            sem_ldx_abs(c, m, addr).1,
        ),
        _ => sem_xfer(c, m, inst),
    }
}

/// Semantics of the register-transfer, increment/decrement and byte-swap
/// instructions.
pub open spec fn sem_xfer(c: CpuView, m: MemV, inst: Instruction) -> (CpuView, MemV, Result<
    u8,
    EmuError,
>) {
    match inst {
        Instruction(Opcode::TCD, Value::Implied) => (sem_tcd(c).0, m, sem_tcd(c).1),
        Instruction(Opcode::TCS, Value::Implied) => (sem_tcs(c).0, m, sem_tcs(c).1),
        Instruction(Opcode::TXS, Value::Implied) => (sem_txs(c).0, m, sem_txs(c).1),
        Instruction(Opcode::INX, Value::Implied) => (sem_inx(c).0, m, sem_inx(c).1),
        Instruction(Opcode::DEX, Value::Implied) => (sem_dex(c).0, m, sem_dex(c).1),
        Instruction(Opcode::INA, Value::Implied) => (sem_ina(c).0, m, sem_ina(c).1),
        Instruction(Opcode::XBA, Value::Implied) => (sem_xba(c).0, m, sem_xba(c).1),
        _ => sem_stores(c, m, inst),
    }
}

/// Semantics of the store instructions: width-dependent bus writes, with
/// the direct-page variants adding the Direct Page base and one cycle
/// when its low byte is nonzero.
pub open spec fn sem_stores(c: CpuView, m: MemV, inst: Instruction) -> (CpuView, MemV, Result<
    u8,
    EmuError,
>) {
    match inst {
        Instruction(Opcode::STA, Value::Absolute(addr)) => sem_sta_abs(c, m, addr),
        Instruction(Opcode::STA, Value::DirectPage(off)) => sem_sta_dp(c, m, off),
        Instruction(Opcode::STX, Value::Absolute(addr)) => sem_stx_abs(c, m, addr),
        Instruction(Opcode::STY, Value::Absolute(addr)) => sem_sty_abs(c, m, addr),
        Instruction(Opcode::STX, Value::DirectPage(off)) => sem_stx_dp(c, m, off),
        Instruction(Opcode::STZ, Value::Absolute(addr)) => sem_stz_abs(c, m, addr),
        Instruction(Opcode::STZ, Value::DirectPageX(off)) => sem_stz_dpx(c, m, off),
        _ => sem_cmp(c, m, inst),
    }
}

/// Semantics of the compare instructions.
pub open spec fn sem_cmp(c: CpuView, m: MemV, inst: Instruction) -> (CpuView, MemV, Result<
    u8,
    EmuError,
>) {
    match inst {
        Instruction(Opcode::CMP, Value::Absolute(addr)) => (
            sem_cmp_abs(c, m, addr).0,
            m,
            sem_cmp_abs(c, m, addr).1,
        ),
        Instruction(Opcode::CPX, Value::Immediate8(v)) => (sem_cpx_i8(c, v).0, m, sem_cpx_i8(c, v).1),
        Instruction(Opcode::CPX, Value::Immediate16(v)) => (
            sem_cpx_i16(c, v).0,
            m,
            sem_cpx_i16(c, v).1,
        ),
        _ => sem_stack(c, m, inst),
    }
}

/// Semantics of the push and call instructions: pushes write the high
/// byte first, at descending addresses; calls push the return address
/// (and, for the long form, the program bank) before jumping.
pub open spec fn sem_stack(c: CpuView, m: MemV, inst: Instruction) -> (CpuView, MemV, Result<
    u8,
    EmuError,
>) {
    match inst {
        Instruction(Opcode::PHP, Value::Implied) => sem_php(c, m),
        Instruction(Opcode::PHK, Value::Implied) => sem_phk(c, m),
        Instruction(Opcode::PHA, Value::Implied) => sem_pha(c, m),
        Instruction(Opcode::PHX, Value::Implied) => sem_phx(c, m),
        Instruction(Opcode::JSR, Value::Absolute(addr)) => sem_jsr_abs(c, m, addr),
        Instruction(Opcode::JSR, Value::AbsoluteLong(addr, bank)) => sem_jsr_long(c, m, addr, bank),
        _ => sem_pulls(c, m, inst),
    }
}

/// Semantics of the pull and return instructions: pulls read the low
/// byte first, the exact mirror of the pushes.
pub open spec fn sem_pulls(c: CpuView, m: MemV, inst: Instruction) -> (CpuView, MemV, Result<
    u8,
    EmuError,
>) {
    match inst {
        Instruction(Opcode::PLP, Value::Implied) => (sem_plp(c, m).0, m, sem_plp(c, m).1),
        Instruction(Opcode::PLB, Value::Implied) => (sem_plb(c, m).0, m, sem_plb(c, m).1),
        Instruction(Opcode::PLD, Value::Implied) => (sem_pld(c, m).0, m, sem_pld(c, m).1),
        Instruction(Opcode::PLA, Value::Implied) => (sem_pla(c, m).0, m, sem_pla(c, m).1),
        Instruction(Opcode::PLX, Value::Implied) => (sem_plx(c, m).0, m, sem_plx(c, m).1),
        Instruction(Opcode::RTS, Value::Implied) => (sem_rts(c, m).0, m, sem_rts(c, m).1),
        Instruction(Opcode::RTL, Value::Implied) => (sem_rtl(c, m).0, m, sem_rtl(c, m).1),
        _ => sem_rest(c, m, inst),
    }
}

/// Semantics of the remaining cases: the explicit stop instruction, the
/// unclassifiable opcode bytes, and every recognized opcode/addressing
/// pair that has no executor.
pub open spec fn sem_rest(c: CpuView, m: MemV, inst: Instruction) -> (CpuView, MemV, Result<
    u8,
    EmuError,
>) {
    match inst {
        Instruction(Opcode::HLT, _) => (c, m, Err(EmuError::Halted)),
        Instruction(Opcode::Unknown(op), _) => (c, m, Err(EmuError::UnknownOpcode(op))),
        Instruction(op, val) => (c, m, Err(EmuError::UnimplementedInstruction(op, val))),
    }
}

/// The full effect of executing one already-decoded instruction.
pub open spec fn inst_res(c: CpuView, m: MemV, inst: Instruction) -> (CpuView, MemV, Result<
    u8,
    EmuError,
>) {
    sem_flags(c, m, inst)
}

/// The full effect of one step: fetch and decode the instruction at the
/// program counter (advancing it past every byte consumed), then execute
/// it. An unfetchable byte fails with its unmapped address and executes
/// nothing.
pub open spec fn step_res(c: CpuView, m: MemV) -> (CpuView, MemV, Result<u8, EmuError>) {
    let cf = CpuView { pc: c.pc.wrapping_add(fetch_adv(c, m) as u16), ..c };
    if !fetch_ok(c, m) {
        (cf, m, Err(EmuError::UnmappedAccess(c.pc.wrapping_add(fetch_adv(c, m) as u16))))
    } else {
        inst_res(cf, m, decode_of(c, m))
    }
}

impl Ricoh5A22 {
    /// Execute one instruction: fetch and decode at the program counter,
    /// apply the instruction's register, flag and bus effects, and
    /// return its cycle cost. Fails with `UnknownOpcode` when the
    /// decoder cannot classify the byte, `UnimplementedInstruction` when
    /// the pair has no executor, `Halted` on the stop instruction, and
    /// `UnmappedAccess` when a bus access misses; a failing instruction
    /// leaves no flag or register effect behind (only the program
    /// counter has moved past the fetched bytes).
    pub fn step(&mut self, mem: &mut Memory) -> (r: Result<u8, EmuError>)
        requires
            old(self)@.wf(),
            old(mem).wf(),
        ensures
            final(self)@.wf(),
            final(mem).wf(),
            ({
                let s = step_res(old(self)@, old(mem)@);
                final(self)@ == s.0 && final(mem)@ == s.1 && r == s.2
            }),
            r is Err ==> final(self)@ == (CpuView { pc: final(self)@.pc, ..old(self)@ })
                && final(mem)@ == old(mem)@,
    {
        proof {
            lemma_step_err_frame(old(self)@, old(mem)@);
        }
        let inst = match Instruction::from(self, mem) {
            Ok(i) => i,
            Err(e) => {
                return Err(e);
            },
        };
        self.run_flags(mem, inst)
    }

    /// Executor for the flag, jump and branch instructions.
    #[verifier::rlimit(100)]
    #[verifier::spinoff_prover]
    fn run_flags(&mut self, mem: &mut Memory, inst: Instruction) -> (r: Result<u8, EmuError>)
        requires
            old(self)@.wf(),
            old(mem).wf(),
        ensures
            final(self)@.wf(),
            final(mem).wf(),
            ({
                let s = sem_flags(old(self)@, old(mem)@, inst);
                final(self)@ == s.0 && final(mem)@ == s.1 && r == s.2
            }),
    {
        match inst {
            Instruction(Opcode::SEI, _) => self.op_sei(),
            Instruction(Opcode::CLC, _) => self.op_clc(),
            Instruction(Opcode::CLI, Value::Implied) => self.op_cli(),
            Instruction(Opcode::XCE, _) => self.op_xce(),
            Instruction(Opcode::REP, Value::Immediate8(f)) => self.op_rep(f),
            Instruction(Opcode::SEP, Value::Immediate8(f)) => self.op_sep(f),
            Instruction(Opcode::JMP, Value::Absolute(addr)) => self.op_jmp(addr),
            Instruction(Opcode::BNE, Value::Immediate8(near)) => self.op_bne(near),
            _ => self.run_loads(mem, inst),
        }
    }

    /// Executor for the load instructions.
    #[verifier::rlimit(100)]
    #[verifier::spinoff_prover]
    fn run_loads(&mut self, mem: &mut Memory, inst: Instruction) -> (r: Result<u8, EmuError>)
        requires
            old(self)@.wf(),
            old(mem).wf(),
        ensures
            final(self)@.wf(),
            final(mem).wf(),
            ({
                let s = sem_loads(old(self)@, old(mem)@, inst);
                final(self)@ == s.0 && final(mem)@ == s.1 && r == s.2
            }),
    {
        match inst {
            Instruction(Opcode::LDA, Value::Immediate8(v)) => self.op_lda_i8(v),
            Instruction(Opcode::LDA, Value::Immediate16(v)) => self.op_lda_i16(v),
            Instruction(Opcode::LDX, Value::Immediate8(v)) => self.op_ldx_i8(v),
            Instruction(Opcode::LDX, Value::Immediate16(v)) => self.op_ldx_i16(v),
            Instruction(Opcode::LDY, Value::Immediate8(v)) => self.op_ldy_i8(v),
            Instruction(Opcode::LDY, Value::Immediate16(v)) => self.op_ldy_i16(v),
            Instruction(Opcode::LDA, Value::Absolute(addr)) => self.op_lda_abs(mem, addr),
            Instruction(Opcode::LDX, Value::Absolute(addr)) => self.op_ldx_abs(mem, addr),
            _ => self.run_xfer(mem, inst),
        }
    }

    /// Executor for the register-transfer, increment/decrement and
    /// byte-swap instructions.
    #[verifier::rlimit(100)]
    #[verifier::spinoff_prover]
    fn run_xfer(&mut self, mem: &mut Memory, inst: Instruction) -> (r: Result<u8, EmuError>)
        requires
            old(self)@.wf(),
            old(mem).wf(),
        ensures
            final(self)@.wf(),
            final(mem).wf(),
            ({
                let s = sem_xfer(old(self)@, old(mem)@, inst);
                final(self)@ == s.0 && final(mem)@ == s.1 && r == s.2
            }),
    {
        match inst {
            Instruction(Opcode::TCD, Value::Implied) => self.op_tcd(),
            Instruction(Opcode::TCS, Value::Implied) => self.op_tcs(),
            Instruction(Opcode::TXS, Value::Implied) => self.op_txs(),
            Instruction(Opcode::INX, Value::Implied) => self.op_inx(),
            Instruction(Opcode::DEX, Value::Implied) => self.op_dex(),
            Instruction(Opcode::INA, Value::Implied) => self.op_ina(),
            Instruction(Opcode::XBA, Value::Implied) => self.op_xba(),
            _ => self.run_stores(mem, inst),
        }
    }

    /// Executor for the store instructions.
    #[verifier::rlimit(100)]
    #[verifier::spinoff_prover]
    fn run_stores(&mut self, mem: &mut Memory, inst: Instruction) -> (r: Result<u8, EmuError>)
        requires
            old(self)@.wf(),
            old(mem).wf(),
        ensures
            final(self)@.wf(),
            final(mem).wf(),
            ({
                let s = sem_stores(old(self)@, old(mem)@, inst);
                final(self)@ == s.0 && final(mem)@ == s.1 && r == s.2
            }),
    {
        match inst {
            Instruction(Opcode::STA, Value::Absolute(addr)) => self.op_sta_abs(mem, addr),
            Instruction(Opcode::STA, Value::DirectPage(off)) => self.op_sta_dp(mem, off),
            Instruction(Opcode::STX, Value::Absolute(addr)) => self.op_stx_abs(mem, addr),
            Instruction(Opcode::STY, Value::Absolute(addr)) => self.op_sty_abs(mem, addr),
            Instruction(Opcode::STX, Value::DirectPage(off)) => self.op_stx_dp(mem, off),
            Instruction(Opcode::STZ, Value::Absolute(addr)) => self.op_stz_abs(mem, addr),
            Instruction(Opcode::STZ, Value::DirectPageX(off)) => self.op_stz_dpx(mem, off),
            _ => self.run_cmp(mem, inst),
        }
    }

    /// Executor for the compare instructions.
    #[verifier::rlimit(100)]
    #[verifier::spinoff_prover]
    fn run_cmp(&mut self, mem: &mut Memory, inst: Instruction) -> (r: Result<u8, EmuError>)
        requires
            old(self)@.wf(),
            old(mem).wf(),
        ensures
            final(self)@.wf(),
            final(mem).wf(),
            ({
                let s = sem_cmp(old(self)@, old(mem)@, inst);
                final(self)@ == s.0 && final(mem)@ == s.1 && r == s.2
            }),
    {
        match inst {
            Instruction(Opcode::CMP, Value::Absolute(addr)) => self.op_cmp_abs(mem, addr),
            Instruction(Opcode::CPX, Value::Immediate8(v)) => self.op_cpx_i8(v),
            Instruction(Opcode::CPX, Value::Immediate16(v)) => self.op_cpx_i16(v),
            _ => self.run_stack(mem, inst),
        }
    }

    /// Executor for the push and call instructions.
    #[verifier::rlimit(100)]
    #[verifier::spinoff_prover]
    fn run_stack(&mut self, mem: &mut Memory, inst: Instruction) -> (r: Result<u8, EmuError>)
        requires
            old(self)@.wf(),
            old(mem).wf(),
        ensures
            final(self)@.wf(),
            final(mem).wf(),
            ({
                let s = sem_stack(old(self)@, old(mem)@, inst);
                final(self)@ == s.0 && final(mem)@ == s.1 && r == s.2
            }),
    {
        match inst {
            Instruction(Opcode::PHP, Value::Implied) => self.op_php(mem),
            Instruction(Opcode::PHK, Value::Implied) => self.op_phk(mem),
            Instruction(Opcode::PHA, Value::Implied) => self.op_pha(mem),
            Instruction(Opcode::PHX, Value::Implied) => self.op_phx(mem),
            Instruction(Opcode::JSR, Value::Absolute(addr)) => self.op_jsr_abs(mem, addr),
            Instruction(Opcode::JSR, Value::AbsoluteLong(addr, bank)) => self.op_jsr_long(
                mem,
                addr,
                bank,
            ),
            _ => self.run_pulls(mem, inst),
        }
    }

    /// Executor for the pull and return instructions.
    #[verifier::rlimit(100)]
    #[verifier::spinoff_prover]
    fn run_pulls(&mut self, mem: &mut Memory, inst: Instruction) -> (r: Result<u8, EmuError>)
        requires
            old(self)@.wf(),
            old(mem).wf(),
        ensures
            final(self)@.wf(),
            final(mem).wf(),
            ({
                let s = sem_pulls(old(self)@, old(mem)@, inst);
                final(self)@ == s.0 && final(mem)@ == s.1 && r == s.2
            }),
    {
        match inst {
            Instruction(Opcode::PLP, Value::Implied) => self.op_plp(mem),
            Instruction(Opcode::PLB, Value::Implied) => self.op_plb(mem),
            Instruction(Opcode::PLD, Value::Implied) => self.op_pld(mem),
            Instruction(Opcode::PLA, Value::Implied) => self.op_pla(mem),
            Instruction(Opcode::PLX, Value::Implied) => self.op_plx(mem),
            Instruction(Opcode::RTS, Value::Implied) => self.op_rts(mem),
            Instruction(Opcode::RTL, Value::Implied) => self.op_rtl(mem),
            _ => self.run_rest(mem, inst),
        }
    }

    /// Executor for the remaining cases: the stop instruction, unknown
    /// opcode bytes, and recognized pairs without an executor.
    fn run_rest(&mut self, mem: &mut Memory, inst: Instruction) -> (r: Result<u8, EmuError>)
        requires
            old(self)@.wf(),
            old(mem).wf(),
        ensures
            final(self)@.wf(),
            final(mem).wf(),
            ({
                let s = sem_rest(old(self)@, old(mem)@, inst);
                final(self)@ == s.0 && final(mem)@ == s.1 && r == s.2
            }),
    {
        match inst {
            Instruction(Opcode::HLT, _) => Err(EmuError::Halted),
            Instruction(Opcode::Unknown(op), _) => Err(EmuError::UnknownOpcode(op)),
            Instruction(op, val) => Err(EmuError::UnimplementedInstruction(op, val)),
        }
    }

    /// SEI.
    fn op_sei(&mut self) -> (r: Result<u8, EmuError>)
        requires
            old(self)@.wf(),
        ensures
            final(self)@.wf(),
            (final(self)@, r) == sem_sei(old(self)@),
    {
        self.p_reg.i = true;
        Ok(2)
    }

    /// CLC.
    fn op_clc(&mut self) -> (r: Result<u8, EmuError>)
        requires
            old(self)@.wf(),
        ensures
            final(self)@.wf(),
            (final(self)@, r) == sem_clc(old(self)@),
    {
        self.p_reg.c = false;
        Ok(2)
    }

    /// CLI.
    fn op_cli(&mut self) -> (r: Result<u8, EmuError>)
        requires
            old(self)@.wf(),
        ensures
            final(self)@.wf(),
            (final(self)@, r) == sem_cli(old(self)@),
    {
        self.p_reg.i = false;
        Ok(2)
    }

    /// XCE.
    fn op_xce(&mut self) -> (r: Result<u8, EmuError>)
        requires
            old(self)@.wf(),
        ensures
            final(self)@.wf(),
            (final(self)@, r) == sem_xce(old(self)@),
    {
        let e = self.emulation;
        self.emulation = self.p_reg.c;
        self.p_reg.c = e;
        Ok(2)
    }

    /// REP.
    fn op_rep(&mut self, f: u8) -> (r: Result<u8, EmuError>)
        requires
            old(self)@.wf(),
        ensures
            final(self)@.wf(),
            (final(self)@, r) == sem_rep(old(self)@, f),
    {
        self.p_reg = PReg::from_bits(self.p_reg.bits() & !f);
        Ok(3)
    }

    /// SEP.
    fn op_sep(&mut self, f: u8) -> (r: Result<u8, EmuError>)
        requires
            old(self)@.wf(),
        ensures
            final(self)@.wf(),
            (final(self)@, r) == sem_sep(old(self)@, f),
    {
        self.p_reg = PReg::from_bits(self.p_reg.bits() | f);
        Ok(3)
    }

    /// JMP absolute.
    fn op_jmp(&mut self, addr: u16) -> (r: Result<u8, EmuError>)
        requires
            old(self)@.wf(),
        ensures
            final(self)@.wf(),
            (final(self)@, r) == sem_jmp(old(self)@, addr),
    {
        self.pc = addr;
        Ok(3)
    }

    /// BNE.
    fn op_bne(&mut self, near: u8) -> (r: Result<u8, EmuError>)
        requires
            old(self)@.wf(),
        ensures
            final(self)@.wf(),
            (final(self)@, r) == sem_bne(old(self)@, near),
    {
        let mut cycles: u8 = 2;
        if !self.p_reg.z {
            self.pc = self.pc.wrapping_add((near as i8) as u16);
            cycles += 1;
        }
        if self.emulation {
            cycles += 1;
        }
        Ok(cycles)
    }

    /// LDA with an 8-bit immediate.
    fn op_lda_i8(&mut self, v: u8) -> (r: Result<u8, EmuError>)
        requires
            old(self)@.wf(),
        ensures
            final(self)@.wf(),
            (final(self)@, r) == sem_lda_i8(old(self)@, v),
    {
        self.a_reg = (self.a_reg & 0xFF00) | (v as u16);
        self.p_reg.z = v == 0;
        self.p_reg.n = v & 0x80 == 0x80;
        Ok(2)
    }

    /// LDA with a 16-bit immediate.
    fn op_lda_i16(&mut self, v: u16) -> (r: Result<u8, EmuError>)
        requires
            old(self)@.wf(),
        ensures
            final(self)@.wf(),
            (final(self)@, r) == sem_lda_i16(old(self)@, v),
    {
        self.a_reg = v;
        self.p_reg.z = v == 0;
        self.p_reg.n = v & 0x8000 == 0x8000;
        Ok(3)
    }

    /// LDX with an 8-bit immediate.
    fn op_ldx_i8(&mut self, v: u8) -> (r: Result<u8, EmuError>)
        requires
            old(self)@.wf(),
        ensures
            final(self)@.wf(),
            (final(self)@, r) == sem_ldx_i8(old(self)@, v),
    {
        self.x_reg = (self.x_reg & 0xFF00) | (v as u16);
        self.p_reg.z = v == 0;
        self.p_reg.n = v & 0x80 == 0x80;
        Ok(3)
    }

    /// LDX with a 16-bit immediate.
    fn op_ldx_i16(&mut self, v: u16) -> (r: Result<u8, EmuError>)
        requires
            old(self)@.wf(),
        ensures
            final(self)@.wf(),
            (final(self)@, r) == sem_ldx_i16(old(self)@, v),
    {
        self.x_reg = v;
        self.p_reg.z = v == 0;
        self.p_reg.n = v & 0x8000 == 0x8000;
        Ok(3)
    }

    /// LDY with an 8-bit immediate.
    fn op_ldy_i8(&mut self, v: u8) -> (r: Result<u8, EmuError>)
        requires
            old(self)@.wf(),
        ensures
            final(self)@.wf(),
            (final(self)@, r) == sem_ldy_i8(old(self)@, v),
    {
        self.y_reg = (self.y_reg & 0xFF00) | (v as u16);
        self.p_reg.z = v == 0;
        self.p_reg.n = v & 0x80 == 0x80;
        Ok(2)
    }

    /// LDY with a 16-bit immediate.
    fn op_ldy_i16(&mut self, v: u16) -> (r: Result<u8, EmuError>)
        requires
            old(self)@.wf(),
        ensures
            final(self)@.wf(),
            (final(self)@, r) == sem_ldy_i16(old(self)@, v),
    {
        self.y_reg = v;
        self.p_reg.z = v == 0;
        self.p_reg.n = v & 0x8000 == 0x8000;
        Ok(3)
    }

    /// LDA from an absolute address.
    fn op_lda_abs(&mut self, mem: &Memory, addr: u16) -> (r: Result<u8, EmuError>)
        requires
            old(self)@.wf(),
            mem.wf(),
        ensures
            final(self)@.wf(),
            (final(self)@, r) == sem_lda_abs(old(self)@, mem@, addr),
    {
        if self.p_reg.m {
            let v = match self.read_u8(mem, addr, self.dbr) {
                Ok(v) => v,
                Err(e) => {
                    return Err(e);
                },
            };
            self.a_reg = (self.a_reg & 0xFF00) | (v as u16);
            let a2 = self.a_reg;
            self.p_reg.z = a2 & 0xFF == 0;
            self.p_reg.n = a2 & 0x80 == 0x80;
            Ok(4)
        } else {
            let v = match self.read_u16(mem, addr, self.dbr) {
                Ok(v) => v,
                Err(e) => {
                    return Err(e);
                },
            };
            self.a_reg = v;
            self.p_reg.z = v == 0;
            self.p_reg.n = v & 0x8000 == 0x8000;
            Ok(5)
        }
    }

    /// LDX from an absolute address.
    fn op_ldx_abs(&mut self, mem: &Memory, addr: u16) -> (r: Result<u8, EmuError>)
        requires
            old(self)@.wf(),
            mem.wf(),
        ensures
            final(self)@.wf(),
            (final(self)@, r) == sem_ldx_abs(old(self)@, mem@, addr),
    {
        if self.p_reg.x {
            let v = match self.read_u8(mem, addr, self.dbr) {
                Ok(v) => v,
                Err(e) => {
                    return Err(e);
                },
            };
            self.x_reg = (self.x_reg & 0xFF00) | (v as u16);
            self.p_reg.z = v == 0;
            self.p_reg.n = v & 0x80 == 0x80;
            Ok(4)
        } else {
            let v = match self.read_u16(mem, addr, self.dbr) {
                Ok(v) => v,
                Err(e) => {
                    return Err(e);
                },
            };
            self.x_reg = v;
            self.p_reg.z = v == 0;
            self.p_reg.n = v & 0x8000 == 0x8000;
            Ok(5)
        }
    }

    /// TCD.
    fn op_tcd(&mut self) -> (r: Result<u8, EmuError>)
        requires
            old(self)@.wf(),
        ensures
            final(self)@.wf(),
            (final(self)@, r) == sem_tcd(old(self)@),
    {
        let a = self.a_reg;
        self.direct_page = a;
        self.p_reg.z = a == 0;
        self.p_reg.n = a & 0x8000 == 0x8000;
        Ok(2)
    }

    /// TCS.
    fn op_tcs(&mut self) -> (r: Result<u8, EmuError>)
        requires
            old(self)@.wf(),
        ensures
            final(self)@.wf(),
            (final(self)@, r) == sem_tcs(old(self)@),
    {
        if self.p_reg.m {
            self.stack_ptr = 0x0100u16 | (self.a_reg & 0xFF);
        } else {
            self.stack_ptr = self.a_reg;
        }
        Ok(2)
    }

    /// TXS.
    fn op_txs(&mut self) -> (r: Result<u8, EmuError>)
        requires
            old(self)@.wf(),
        ensures
            final(self)@.wf(),
            (final(self)@, r) == sem_txs(old(self)@),
    {
        let x = self.x_reg;
        self.stack_ptr = x;
        self.p_reg.z = x == 0;
        self.p_reg.n = x & 0x8000 == 0x8000;
        Ok(2)
    }

    /// INX.
    fn op_inx(&mut self) -> (r: Result<u8, EmuError>)
        requires
            old(self)@.wf(),
        ensures
            final(self)@.wf(),
            (final(self)@, r) == sem_inx(old(self)@),
    {
        if self.p_reg.x {
            self.x_reg = (((self.x_reg as u8).wrapping_add(1)) as u16) & 0xFF;
            let x2 = self.x_reg;
            self.p_reg.z = x2 & 0xFF == 0;
            self.p_reg.n = x2 & 0x80 == 0x80;
        } else {
            self.x_reg = self.x_reg.wrapping_add(1);
            let x2 = self.x_reg;
            self.p_reg.z = x2 == 0;
            self.p_reg.n = x2 & 0x8000 == 0x8000;
        }
        Ok(2)
    }

    /// DEX.
    fn op_dex(&mut self) -> (r: Result<u8, EmuError>)
        requires
            old(self)@.wf(),
        ensures
            final(self)@.wf(),
            (final(self)@, r) == sem_dex(old(self)@),
    {
        if self.p_reg.x {
            self.x_reg = (((self.x_reg as u8).wrapping_sub(1)) as u16) & 0xFF;
            let x2 = self.x_reg;
            self.p_reg.z = x2 & 0xFF == 0;
            self.p_reg.n = x2 & 0x80 == 0x80;
        } else {
            self.x_reg = self.x_reg.wrapping_sub(1);
            let x2 = self.x_reg;
            self.p_reg.z = x2 == 0;
            self.p_reg.n = x2 & 0x8000 == 0x8000;
        }
        Ok(2)
    }

    /// INA.
    fn op_ina(&mut self) -> (r: Result<u8, EmuError>)
        requires
            old(self)@.wf(),
        ensures
            final(self)@.wf(),
            (final(self)@, r) == sem_ina(old(self)@),
    {
        if self.p_reg.m {
            self.a_reg = (((self.a_reg as u8).wrapping_add(1)) as u16) & 0xFF;
            let a2 = self.a_reg;
            self.p_reg.z = a2 & 0xFF == 0;
            self.p_reg.n = a2 & 0x80 == 0x80;
        } else {
            self.a_reg = self.a_reg.wrapping_add(1);
            let a2 = self.a_reg;
            self.p_reg.z = a2 == 0;
            self.p_reg.n = a2 & 0x8000 == 0x8000;
        }
        Ok(2)
    }

    /// XBA.
    fn op_xba(&mut self) -> (r: Result<u8, EmuError>)
        requires
            old(self)@.wf(),
        ensures
            final(self)@.wf(),
            (final(self)@, r) == sem_xba(old(self)@),
    {
        self.a_reg = ((self.a_reg & 0xFF00) >> 8) | ((self.a_reg & 0x00FF) << 8);
        let a2 = self.a_reg;
        self.p_reg.z = a2 & 0xFF == 0;
        self.p_reg.n = a2 & 0x80 == 0x80;
        Ok(3)
    }

    /// STA to an absolute address.
    fn op_sta_abs(&mut self, mem: &mut Memory, addr: u16) -> (r: Result<u8, EmuError>)
        requires
            old(self)@.wf(),
            old(mem).wf(),
        ensures
            final(self)@.wf(),
            final(mem).wf(),
            ({
                let s = sem_sta_abs(old(self)@, old(mem)@, addr);
                final(self)@ == s.0 && final(mem)@ == s.1 && r == s.2
            }),
    {
        proof {
            reveal(sem_sta_abs);
        }
        let a = self.a_reg;
        if !self.p_reg.m {
            match self.write_u16(mem, addr, a) {
                Err(e) => Err(e),
                Ok(_) => {
                    self.p_reg.z = a == 0;
                    self.p_reg.n = a & 0x8000 == 0x8000;
                    Ok(5)
                },
            }
        } else {
            let lowa = (a & 0xFF) as u8;
            match self.write_u8(mem, addr, lowa) {
                Err(e) => Err(e),
                Ok(_) => {
                    self.p_reg.z = lowa == 0;
                    self.p_reg.n = lowa & 0x80 == 0x80;
                    Ok(4)
                },
            }
        }
    }

    /// STA to a direct-page offset.
    fn op_sta_dp(&mut self, mem: &mut Memory, off: u8) -> (r: Result<u8, EmuError>)
        requires
            old(self)@.wf(),
            old(mem).wf(),
        ensures
            final(self)@.wf(),
            final(mem).wf(),
            ({
                let s = sem_sta_dp(old(self)@, old(mem)@, off);
                final(self)@ == s.0 && final(mem)@ == s.1 && r == s.2
            }),
    {
        proof {
            reveal(sem_sta_dp);
        }
        let a = self.a_reg;
        let dp = self.direct_page;
        let addr = dp.wrapping_add(off as u16);
        let pen: u8 = if dp & 0xFF != 0 {
            1
        } else {
            0
        };
        if !self.p_reg.m {
            match self.write_u16(mem, addr, a) {
                Err(e) => Err(e),
                Ok(_) => Ok(4 + pen),
            }
        } else {
            match self.write_u8(mem, addr, (a & 0xFF) as u8) {
                Err(e) => Err(e),
                Ok(_) => Ok(3 + pen),
            }
        }
    }

    /// STX to an absolute address.
    #[verifier::rlimit(100)]
    #[verifier::spinoff_prover]
    fn op_stx_abs(&mut self, mem: &mut Memory, addr: u16) -> (r: Result<u8, EmuError>)
        requires
            old(self)@.wf(),
            old(mem).wf(),
        ensures
            final(self)@.wf(),
            final(mem).wf(),
            ({
                let s = sem_stx_abs(old(self)@, old(mem)@, addr);
                final(self)@ == s.0 && final(mem)@ == s.1 && r == s.2
            }),
    {
        proof {
            reveal(sem_stx_abs);
        }
        let x = self.x_reg;
        if self.p_reg.x {
            let lowx = (x & 0xFF) as u8;
            match self.write_u8(mem, addr, lowx) {
                Err(e) => Err(e),
                Ok(_) => {
                    self.p_reg.z = lowx == 0;
                    self.p_reg.n = x & 0x80 == 0x80;
                    Ok(5)
                },
            }
        } else {
            match self.write_u16(mem, addr, x) {
                Err(e) => Err(e),
                Ok(_) => {
                    self.p_reg.z = x == 0;
                    self.p_reg.n = x & 0x8000 == 0x8000;
                    Ok(4)
                },
            }
        }
    }

    /// STY to an absolute address.
    #[verifier::rlimit(100)]
    #[verifier::spinoff_prover]
    fn op_sty_abs(&mut self, mem: &mut Memory, addr: u16) -> (r: Result<u8, EmuError>)
        requires
            old(self)@.wf(),
            old(mem).wf(),
        ensures
            final(self)@.wf(),
            final(mem).wf(),
            ({
                let s = sem_sty_abs(old(self)@, old(mem)@, addr);
                final(self)@ == s.0 && final(mem)@ == s.1 && r == s.2
            }),
    {
        proof {
            reveal(sem_sty_abs);
        }
        let y = self.y_reg;
        if self.p_reg.x {
            let lowy = (y & 0xFF) as u8;
            match self.write_u8(mem, addr, lowy) {
                Err(e) => Err(e),
                Ok(_) => {
                    self.p_reg.z = lowy == 0;
                    self.p_reg.n = y & 0x80 == 0x80;
                    Ok(5)
                },
            }
        } else {
            match self.write_u16(mem, addr, y) {
                Err(e) => Err(e),
                Ok(_) => {
                    self.p_reg.z = y == 0;
                    self.p_reg.n = y & 0x8000 == 0x8000;
                    Ok(4)
                },
            }
        }
    }

    /// STX to a direct-page offset.
    fn op_stx_dp(&mut self, mem: &mut Memory, off: u8) -> (r: Result<u8, EmuError>)
        requires
            old(self)@.wf(),
            old(mem).wf(),
        ensures
            final(self)@.wf(),
            final(mem).wf(),
            ({
                let s = sem_stx_dp(old(self)@, old(mem)@, off);
                final(self)@ == s.0 && final(mem)@ == s.1 && r == s.2
            }),
    {
        proof {
            reveal(sem_stx_dp);
        }
        let x = self.x_reg;
        let dp = self.direct_page;
        let addr = dp.wrapping_add(off as u16);
        let pen: u8 = if dp & 0xFF != 0 {
            1
        } else {
            0
        };
        if !self.p_reg.x {
            match self.write_u16(mem, addr, x) {
                Err(e) => Err(e),
                Ok(_) => {
                    self.p_reg.z = x == 0;
                    self.p_reg.n = x & 0x8000 == 0x8000;
                    Ok(4 + pen)
                },
            }
        } else {
            let lowx = (x & 0xFF) as u8;
            match self.write_u8(mem, addr, lowx) {
                Err(e) => Err(e),
                Ok(_) => {
                    self.p_reg.z = lowx == 0;
                    self.p_reg.n = x & 0x80 == 0x80;
                    Ok(3 + pen)
                },
            }
        }
    }

    /// STZ to an absolute address.
    fn op_stz_abs(&mut self, mem: &mut Memory, addr: u16) -> (r: Result<u8, EmuError>)
        requires
            old(self)@.wf(),
            old(mem).wf(),
        ensures
            final(self)@.wf(),
            final(mem).wf(),
            ({
                let s = sem_stz_abs(old(self)@, old(mem)@, addr);
                final(self)@ == s.0 && final(mem)@ == s.1 && r == s.2
            }),
    {
        proof {
            reveal(sem_stz_abs);
        }
        if !self.p_reg.m {
            match self.write_u16(mem, addr, 0u16) {
                Err(e) => Err(e),
                Ok(_) => Ok(5),
            }
        } else {
            match self.write_u8(mem, addr, 0u8) {
                Err(e) => Err(e),
                Ok(_) => Ok(4),
            }
        }
    }

    /// STZ to a direct-page offset indexed by X.
    fn op_stz_dpx(&mut self, mem: &mut Memory, off: u8) -> (r: Result<u8, EmuError>)
        requires
            old(self)@.wf(),
            old(mem).wf(),
        ensures
            final(self)@.wf(),
            final(mem).wf(),
            ({
                let s = sem_stz_dpx(old(self)@, old(mem)@, off);
                final(self)@ == s.0 && final(mem)@ == s.1 && r == s.2
            }),
    {
        proof {
            reveal(sem_stz_dpx);
        }
        let dp = self.direct_page;
        let addr = dp.wrapping_add(self.x_reg).wrapping_add(off as u16);
        let pen: u8 = if dp & 0xFF != 0 {
            1
        } else {
            0
        };
        let idx: u8 = if !self.p_reg.x {
            1
        } else {
            0
        };
        if !self.p_reg.m {
            match self.write_u16(mem, addr, 0u16) {
                Err(e) => Err(e),
                Ok(_) => Ok(4 + pen + idx),
            }
        } else {
            match self.write_u8(mem, addr, 0u8) {
                Err(e) => Err(e),
                Ok(_) => Ok(4 + pen + idx),
            }
        }
    }

    /// CMP with an absolute operand.
    fn op_cmp_abs(&mut self, mem: &Memory, addr: u16) -> (r: Result<u8, EmuError>)
        requires
            old(self)@.wf(),
            mem.wf(),
        ensures
            final(self)@.wf(),
            (final(self)@, r) == sem_cmp_abs(old(self)@, mem@, addr),
    {
        if self.p_reg.m {
            let v = match self.read_u8(mem, addr, self.dbr) {
                Ok(v) => v,
                Err(e) => {
                    return Err(e);
                },
            };
            let lowa = (self.a_reg & 0xFF) as u8;
            let res = lowa.wrapping_sub(v);
            self.p_reg.z = res == 0;
            self.p_reg.c = lowa >= v;
            self.p_reg.n = res & 0x80 == 0x80;
            Ok(4)
        } else {
            let v = match self.read_u16(mem, addr, self.dbr) {
                Ok(v) => v,
                Err(e) => {
                    return Err(e);
                },
            };
            let a = self.a_reg;
            let res = a.wrapping_sub(v);
            self.p_reg.z = res == 0;
            self.p_reg.c = a >= v;
            self.p_reg.n = res & 0x8000 == 0x8000;
            Ok(4)
        }
    }

    /// CPX with an 8-bit immediate.
    fn op_cpx_i8(&mut self, v: u8) -> (r: Result<u8, EmuError>)
        requires
            old(self)@.wf(),
        ensures
            final(self)@.wf(),
            (final(self)@, r) == sem_cpx_i8(old(self)@, v),
    {
        if self.p_reg.x {
            let lowx = (self.x_reg & 0xFF) as u8;
            let res = lowx.wrapping_sub(v);
            self.p_reg.z = res == 0;
            self.p_reg.c = lowx >= v;
            self.p_reg.n = res & 0x80 == 0x80;
            Ok(2)
        } else {
            let x = self.x_reg;
            let res = x.wrapping_sub(v as u16);
            self.p_reg.z = res == 0;
            self.p_reg.c = x >= (v as u16);
            self.p_reg.n = res & 0x8000 == 0x8000;
            Ok(3)
        }
    }

    /// CPX with a 16-bit immediate.
    fn op_cpx_i16(&mut self, v: u16) -> (r: Result<u8, EmuError>)
        requires
            old(self)@.wf(),
        ensures
            final(self)@.wf(),
            (final(self)@, r) == sem_cpx_i16(old(self)@, v),
    {
        if self.p_reg.x {
            let lowx16 = self.x_reg & 0xFF;
            let res = lowx16.wrapping_sub(v);
            self.p_reg.z = res & 0xFF == 0;
            self.p_reg.c = lowx16 >= v;
            self.p_reg.n = res & 0x80 == 0x80;
            Ok(2)
        } else {
            let x = self.x_reg;
            let res = x.wrapping_sub(v);
            self.p_reg.z = res == 0;
            self.p_reg.c = x >= v;
            self.p_reg.n = res & 0x8000 == 0x8000;
            Ok(3)
        }
    }

    /// PHP.
    fn op_php(&mut self, mem: &mut Memory) -> (r: Result<u8, EmuError>)
        requires
            old(self)@.wf(),
            old(mem).wf(),
        ensures
            final(self)@.wf(),
            final(mem).wf(),
            ({
                let s = sem_php(old(self)@, old(mem)@);
                final(self)@ == s.0 && final(mem)@ == s.1 && r == s.2
            }),
    {
        proof {
            reveal(sem_php);
        }
        let b = self.p_reg.bits();
        match self.push_u8(mem, b) {
            Err(e) => Err(e),
            Ok(_) => Ok(3),
        }
    }

    /// PHK.
    fn op_phk(&mut self, mem: &mut Memory) -> (r: Result<u8, EmuError>)
        requires
            old(self)@.wf(),
            old(mem).wf(),
        ensures
            final(self)@.wf(),
            final(mem).wf(),
            ({
                let s = sem_phk(old(self)@, old(mem)@);
                final(self)@ == s.0 && final(mem)@ == s.1 && r == s.2
            }),
    {
        proof {
            reveal(sem_phk);
        }
        let b = self.pbr;
        match self.push_u8(mem, b) {
            Err(e) => Err(e),
            Ok(_) => Ok(3),
        }
    }

    /// PHA.
    fn op_pha(&mut self, mem: &mut Memory) -> (r: Result<u8, EmuError>)
        requires
            old(self)@.wf(),
            old(mem).wf(),
        ensures
            final(self)@.wf(),
            final(mem).wf(),
            ({
                let s = sem_pha(old(self)@, old(mem)@);
                final(self)@ == s.0 && final(mem)@ == s.1 && r == s.2
            }),
    {
        proof {
            reveal(sem_pha);
        }
        let a = self.a_reg;
        if self.p_reg.m {
            match self.push_u8(mem, (a & 0xFF) as u8) {
                Err(e) => Err(e),
                Ok(_) => Ok(3),
            }
        } else {
            match self.push_u16(mem, a) {
                Err(e) => Err(e),
                Ok(_) => Ok(4),
            }
        }
    }

    /// PHX.
    fn op_phx(&mut self, mem: &mut Memory) -> (r: Result<u8, EmuError>)
        requires
            old(self)@.wf(),
            old(mem).wf(),
        ensures
            final(self)@.wf(),
            final(mem).wf(),
            ({
                let s = sem_phx(old(self)@, old(mem)@);
                final(self)@ == s.0 && final(mem)@ == s.1 && r == s.2
            }),
    {
        proof {
            reveal(sem_phx);
        }
        let x = self.x_reg;
        if self.p_reg.x {
            match self.push_u8(mem, (x & 0xFF) as u8) {
                Err(e) => Err(e),
                Ok(_) => Ok(3),
            }
        } else {
            match self.push_u16(mem, x) {
                Err(e) => Err(e),
                Ok(_) => Ok(4),
            }
        }
    }

    /// JSR absolute.
    fn op_jsr_abs(&mut self, mem: &mut Memory, addr: u16) -> (r: Result<u8, EmuError>)
        requires
            old(self)@.wf(),
            old(mem).wf(),
        ensures
            final(self)@.wf(),
            final(mem).wf(),
            ({
                let s = sem_jsr_abs(old(self)@, old(mem)@, addr);
                final(self)@ == s.0 && final(mem)@ == s.1 && r == s.2
            }),
    {
        proof {
            reveal(sem_jsr_abs);
        }
        let pc = self.pc;
        match self.push_u16(mem, pc) {
            Err(e) => Err(e),
            Ok(_) => {
                self.pc = addr;
                Ok(6)
            },
        }
    }

    /// JSR long. All three stack bytes are checked before any is
    /// written.
    #[verifier::rlimit(100)]
    #[verifier::spinoff_prover]
    fn op_jsr_long(&mut self, mem: &mut Memory, addr: u16, bank: u8) -> (r: Result<u8, EmuError>)
        requires
            old(self)@.wf(),
            old(mem).wf(),
        ensures
            final(self)@.wf(),
            final(mem).wf(),
            ({
                let s = sem_jsr_long(old(self)@, old(mem)@, addr, bank);
                final(self)@ == s.0 && final(mem)@ == s.1 && r == s.2
            }),
    {
        proof {
            reveal(sem_jsr_long);
        }
        let sp = self.stack_ptr;
        let a2 = sp.wrapping_sub(1);
        let a3 = sp.wrapping_sub(2);
        let b1 = self.pbr;
        let b2 = ((self.pc & 0xFF00) >> 8) as u8;
        let b3 = (self.pc & 0x00FF) as u8;
        match self.can_write8(mem, sp, b1) {
            Err(e) => {
                return Err(e);
            },
            Ok(_) => {},
        }
        let chk2 = if sp == 0x420C {
            // the first write only clears the HDMA enable; judge the
            // second byte against exactly that state
            let saved = self.hdmaen;
            self.hdmaen = 0;
            let r = self.can_write8(mem, a2, b2);
            self.hdmaen = saved;
            r
        } else {
            proof {
                crate::cpu::lemma_check_stable(self@, mem@, sp, b1, a2, b2);
            }
            self.can_write8(mem, a2, b2)
        };
        match chk2 {
            Err(e) => {
                return Err(e);
            },
            Ok(_) => {},
        }
        let chk3 = if sp == 0x420D {
            // the first two writes set the ROM-speed flag and clear the
            // HDMA enable; judge the third byte against exactly that
            // state
            let sf = self.fastrom;
            let sh = self.hdmaen;
            self.fastrom = b1 & 1 == 1;
            self.hdmaen = 0;
            let r = self.can_write8(mem, a3, b3);
            self.fastrom = sf;
            self.hdmaen = sh;
            r
        } else {
            proof {
                crate::cpu::lemma_check_stable(self@, mem@, sp, b1, a3, b3);
                let w1 = crate::cpu::write8_res(self@, mem@, sp, b1);
                crate::cpu::lemma_check_stable(w1.0, w1.1, a2, b2, a3, b3);
            }
            self.can_write8(mem, a3, b3)
        };
        match chk3 {
            Err(e) => {
                return Err(e);
            },
            Ok(_) => {},
        }
        let _w1 = self.write_u8(mem, sp, b1);
        let _w2 = self.write_u8(mem, a2, b2);
        let _w3 = self.write_u8(mem, a3, b3);
        self.pc = addr;
        self.pbr = bank;
        self.stack_ptr = sp.wrapping_sub(3);
        Ok(8)
    }

    /// PLP.
    fn op_plp(&mut self, mem: &Memory) -> (r: Result<u8, EmuError>)
        requires
            old(self)@.wf(),
            mem.wf(),
        ensures
            final(self)@.wf(),
            (final(self)@, r) == sem_plp(old(self)@, mem@),
    {
        let v = match self.pull_u8(mem) {
            Ok(v) => v,
            Err(e) => {
                return Err(e);
            },
        };
        self.p_reg = PReg::from_bits(v);
        Ok(4)
    }

    /// PLB.
    fn op_plb(&mut self, mem: &Memory) -> (r: Result<u8, EmuError>)
        requires
            old(self)@.wf(),
            mem.wf(),
        ensures
            final(self)@.wf(),
            (final(self)@, r) == sem_plb(old(self)@, mem@),
    {
        let v = match self.pull_u8(mem) {
            Ok(v) => v,
            Err(e) => {
                return Err(e);
            },
        };
        self.dbr = v;
        self.p_reg.z = v == 0;
        self.p_reg.n = v & 0x80 == 0x80;
        Ok(4)
    }

    /// PLD.
    fn op_pld(&mut self, mem: &Memory) -> (r: Result<u8, EmuError>)
        requires
            old(self)@.wf(),
            mem.wf(),
        ensures
            final(self)@.wf(),
            (final(self)@, r) == sem_pld(old(self)@, mem@),
    {
        let v = match self.pull_u16(mem) {
            Ok(v) => v,
            Err(e) => {
                return Err(e);
            },
        };
        self.direct_page = v;
        self.p_reg.z = v == 0;
        self.p_reg.n = v & 0x8000 == 0x8000;
        Ok(5)
    }

    /// PLA.
    fn op_pla(&mut self, mem: &Memory) -> (r: Result<u8, EmuError>)
        requires
            old(self)@.wf(),
            mem.wf(),
        ensures
            final(self)@.wf(),
            (final(self)@, r) == sem_pla(old(self)@, mem@),
    {
        if self.p_reg.m {
            let v = match self.pull_u8(mem) {
                Ok(v) => v,
                Err(e) => {
                    return Err(e);
                },
            };
            self.a_reg = (self.a_reg & 0xFF00) | (v as u16);
            let a2 = self.a_reg;
            self.p_reg.z = a2 & 0xFF == 0;
            self.p_reg.n = a2 & 0x80 == 0x80;
            Ok(4)
        } else {
            let v = match self.pull_u16(mem) {
                Ok(v) => v,
                Err(e) => {
                    return Err(e);
                },
            };
            self.a_reg = v;
            self.p_reg.z = v == 0;
            self.p_reg.n = v & 0x8000 == 0x8000;
            Ok(5)
        }
    }

    /// PLX.
    fn op_plx(&mut self, mem: &Memory) -> (r: Result<u8, EmuError>)
        requires
            old(self)@.wf(),
            mem.wf(),
        ensures
            final(self)@.wf(),
            (final(self)@, r) == sem_plx(old(self)@, mem@),
    {
        if self.p_reg.x {
            let v = match self.pull_u8(mem) {
                Ok(v) => v,
                Err(e) => {
                    return Err(e);
                },
            };
            self.x_reg = (self.x_reg & 0xFF00) | (v as u16);
            let x2 = self.x_reg;
            self.p_reg.z = x2 & 0xFF == 0;
            self.p_reg.n = x2 & 0x80 == 0x80;
            Ok(4)
        } else {
            let v = match self.pull_u16(mem) {
                Ok(v) => v,
                Err(e) => {
                    return Err(e);
                },
            };
            self.x_reg = v;
            self.p_reg.z = v == 0;
            self.p_reg.n = v & 0x8000 == 0x8000;
            Ok(5)
        }
    }

    /// RTS.
    fn op_rts(&mut self, mem: &Memory) -> (r: Result<u8, EmuError>)
        requires
            old(self)@.wf(),
            mem.wf(),
        ensures
            final(self)@.wf(),
            (final(self)@, r) == sem_rts(old(self)@, mem@),
    {
        let v = match self.pull_u16(mem) {
            Ok(v) => v,
            Err(e) => {
                return Err(e);
            },
        };
        self.pc = v;
        Ok(6)
    }

    /// RTL. All three stack bytes are read before the stack pointer
    /// moves.
    fn op_rtl(&mut self, mem: &Memory) -> (r: Result<u8, EmuError>)
        requires
            old(self)@.wf(),
            mem.wf(),
        ensures
            final(self)@.wf(),
            (final(self)@, r) == sem_rtl(old(self)@, mem@),
    {
        let sp1 = self.stack_ptr.wrapping_add(1);
        let sp2 = self.stack_ptr.wrapping_add(2);
        let sp3 = self.stack_ptr.wrapping_add(3);
        let lo = match self.read_u8(mem, sp1, 0u8) {
            Ok(v) => v,
            Err(e) => {
                return Err(e);
            },
        };
        let hi = match self.read_u8(mem, sp2, 0u8) {
            Ok(v) => v,
            Err(e) => {
                return Err(e);
            },
        };
        let b = match self.read_u8(mem, sp3, 0u8) {
            Ok(v) => v,
            Err(e) => {
                return Err(e);
            },
        };
        self.pc = u16_from_bytes(lo, hi);
        self.pbr = b;
        self.stack_ptr = sp3;
        Ok(6)
    }
}


/// The remaining cases fail without any effect.
proof fn lemma_sem_rest_frame(c: CpuView, m: MemV, inst: Instruction)
    ensures
        ({
            let s = sem_rest(c, m, inst);
            s.2 is Err ==> s.0 == c && s.1 == m
        }),
{
}

/// A failing pull or return leaves the machine untouched.
#[verifier::rlimit(100)]
#[verifier::spinoff_prover]
proof fn lemma_sem_pulls_frame(c: CpuView, m: MemV, inst: Instruction)
    ensures
        ({
            let s = sem_pulls(c, m, inst);
            s.2 is Err ==> s.0 == c && s.1 == m
        }),
{
    lemma_sem_rest_frame(c, m, inst);
}

/// A failing PHP leaves the machine untouched.
proof fn lemma_php_frame(c: CpuView, m: MemV)
    ensures
        ({
            let s = sem_php(c, m);
            s.2 is Err ==> s.0 == c && s.1 == m
        }),
{
    reveal(sem_php);
}

/// A failing PHK leaves the machine untouched.
proof fn lemma_phk_frame(c: CpuView, m: MemV)
    ensures
        ({
            let s = sem_phk(c, m);
            s.2 is Err ==> s.0 == c && s.1 == m
        }),
{
    reveal(sem_phk);
}

/// A failing PHA leaves the machine untouched.
proof fn lemma_pha_frame(c: CpuView, m: MemV)
    ensures
        ({
            let s = sem_pha(c, m);
            s.2 is Err ==> s.0 == c && s.1 == m
        }),
{
    reveal(sem_pha);
}

/// A failing PHX leaves the machine untouched.
proof fn lemma_phx_frame(c: CpuView, m: MemV)
    ensures
        ({
            let s = sem_phx(c, m);
            s.2 is Err ==> s.0 == c && s.1 == m
        }),
{
    reveal(sem_phx);
}

/// A failing JSR leaves the machine untouched.
proof fn lemma_jsr_abs_frame(c: CpuView, m: MemV, addr: u16)
    ensures
        ({
            let s = sem_jsr_abs(c, m, addr);
            s.2 is Err ==> s.0 == c && s.1 == m
        }),
{
    reveal(sem_jsr_abs);
}

/// A failing long JSR leaves the machine untouched.
proof fn lemma_jsr_long_frame(c: CpuView, m: MemV, addr: u16, bank: u8)
    ensures
        ({
            let s = sem_jsr_long(c, m, addr, bank);
            s.2 is Err ==> s.0 == c && s.1 == m
        }),
{
    reveal(sem_jsr_long);
}

/// A failing push or call leaves the machine untouched.
proof fn lemma_sem_stack_frame(c: CpuView, m: MemV, inst: Instruction)
    ensures
        ({
            let s = sem_stack(c, m, inst);
            s.2 is Err ==> s.0 == c && s.1 == m
        }),
{
    match inst {
        Instruction(Opcode::PHP, Value::Implied) => lemma_php_frame(c, m),
        Instruction(Opcode::PHK, Value::Implied) => lemma_phk_frame(c, m),
        Instruction(Opcode::PHA, Value::Implied) => lemma_pha_frame(c, m),
        Instruction(Opcode::PHX, Value::Implied) => lemma_phx_frame(c, m),
        Instruction(Opcode::JSR, Value::Absolute(addr)) => lemma_jsr_abs_frame(c, m, addr),
        Instruction(Opcode::JSR, Value::AbsoluteLong(addr, bank)) => lemma_jsr_long_frame(
            c,
            m,
            addr,
            bank,
        ),
        _ => lemma_sem_pulls_frame(c, m, inst),
    }
}

/// A failing compare leaves the machine untouched.
#[verifier::rlimit(100)]
#[verifier::spinoff_prover]
proof fn lemma_sem_cmp_frame(c: CpuView, m: MemV, inst: Instruction)
    ensures
        ({
            let s = sem_cmp(c, m, inst);
            s.2 is Err ==> s.0 == c && s.1 == m
        }),
{
    lemma_sem_stack_frame(c, m, inst);
}

/// A failing absolute STA leaves the machine untouched.
proof fn lemma_sta_abs_frame(c: CpuView, m: MemV, addr: u16)
    ensures
        ({
            let s = sem_sta_abs(c, m, addr);
            s.2 is Err ==> s.0 == c && s.1 == m
        }),
{
    reveal(sem_sta_abs);
}

/// A failing direct-page STA leaves the machine untouched.
proof fn lemma_sta_dp_frame(c: CpuView, m: MemV, off: u8)
    ensures
        ({
            let s = sem_sta_dp(c, m, off);
            s.2 is Err ==> s.0 == c && s.1 == m
        }),
{
    reveal(sem_sta_dp);
}

/// A failing absolute STX leaves the machine untouched.
proof fn lemma_stx_abs_frame(c: CpuView, m: MemV, addr: u16)
    ensures
        ({
            let s = sem_stx_abs(c, m, addr);
            s.2 is Err ==> s.0 == c && s.1 == m
        }),
{
    reveal(sem_stx_abs);
}

/// A failing absolute STY leaves the machine untouched.
proof fn lemma_sty_abs_frame(c: CpuView, m: MemV, addr: u16)
    ensures
        ({
            let s = sem_sty_abs(c, m, addr);
            s.2 is Err ==> s.0 == c && s.1 == m
        }),
{
    reveal(sem_sty_abs);
}

/// A failing direct-page STX leaves the machine untouched.
proof fn lemma_stx_dp_frame(c: CpuView, m: MemV, off: u8)
    ensures
        ({
            let s = sem_stx_dp(c, m, off);
            s.2 is Err ==> s.0 == c && s.1 == m
        }),
{
    reveal(sem_stx_dp);
}

/// A failing absolute STZ leaves the machine untouched.
proof fn lemma_stz_abs_frame(c: CpuView, m: MemV, addr: u16)
    ensures
        ({
            let s = sem_stz_abs(c, m, addr);
            s.2 is Err ==> s.0 == c && s.1 == m
        }),
{
    reveal(sem_stz_abs);
}

/// A failing indexed direct-page STZ leaves the machine untouched.
proof fn lemma_stz_dpx_frame(c: CpuView, m: MemV, off: u8)
    ensures
        ({
            let s = sem_stz_dpx(c, m, off);
            s.2 is Err ==> s.0 == c && s.1 == m
        }),
{
    reveal(sem_stz_dpx);
}

/// A failing store leaves the machine untouched.
proof fn lemma_sem_stores_frame(c: CpuView, m: MemV, inst: Instruction)
    ensures
        ({
            let s = sem_stores(c, m, inst);
            s.2 is Err ==> s.0 == c && s.1 == m
        }),
{
    match inst {
        Instruction(Opcode::STA, Value::Absolute(addr)) => lemma_sta_abs_frame(c, m, addr),
        Instruction(Opcode::STA, Value::DirectPage(off)) => lemma_sta_dp_frame(c, m, off),
        Instruction(Opcode::STX, Value::Absolute(addr)) => lemma_stx_abs_frame(c, m, addr),
        Instruction(Opcode::STY, Value::Absolute(addr)) => lemma_sty_abs_frame(c, m, addr),
        Instruction(Opcode::STX, Value::DirectPage(off)) => lemma_stx_dp_frame(c, m, off),
        Instruction(Opcode::STZ, Value::Absolute(addr)) => lemma_stz_abs_frame(c, m, addr),
        Instruction(Opcode::STZ, Value::DirectPageX(off)) => lemma_stz_dpx_frame(c, m, off),
        _ => lemma_sem_cmp_frame(c, m, inst),
    }
}

/// A failing transfer/increment instruction leaves the machine
/// untouched (none of them can fail, so this only passes the chain on).
#[verifier::rlimit(100)]
#[verifier::spinoff_prover]
proof fn lemma_sem_xfer_frame(c: CpuView, m: MemV, inst: Instruction)
    ensures
        ({
            let s = sem_xfer(c, m, inst);
            s.2 is Err ==> s.0 == c && s.1 == m
        }),
{
    lemma_sem_stores_frame(c, m, inst);
}

/// A failing load leaves the machine untouched.
#[verifier::rlimit(100)]
#[verifier::spinoff_prover]
proof fn lemma_sem_loads_frame(c: CpuView, m: MemV, inst: Instruction)
    ensures
        ({
            let s = sem_loads(c, m, inst);
            s.2 is Err ==> s.0 == c && s.1 == m
        }),
{
    lemma_sem_xfer_frame(c, m, inst);
}

/// Whatever the instruction, a failing execution leaves the machine
/// untouched.
#[verifier::rlimit(100)]
#[verifier::spinoff_prover]
proof fn lemma_inst_err_frame(c: CpuView, m: MemV, inst: Instruction)
    ensures
        ({
            let s = inst_res(c, m, inst);
            s.2 is Err ==> s.0 == c && s.1 == m
        }),
{
    lemma_sem_loads_frame(c, m, inst);
}

/// The guarantee the error design promises of every step: an
/// instruction either fully completes its register and memory effects
/// and returns a cycle count, or fails before any of its effects are
/// applied — after a failing step the machine differs from before it
/// only in the program counter, which has moved past the fetched bytes.
pub proof fn lemma_step_err_frame(c: CpuView, m: MemV)
    ensures
        ({
            let s = step_res(c, m);
            s.2 is Err ==> s.0 == (CpuView { pc: s.0.pc, ..c }) && s.1 == m
        }),
{
    if fetch_ok(c, m) {
        let cf = CpuView { pc: c.pc.wrapping_add(fetch_adv(c, m) as u16), ..c };
        lemma_inst_err_frame(cf, m, decode_of(c, m));
    }
}

/// Every 16-bit value is rebuilt exactly from its split bytes.
proof fn lemma_split_bytes(v: u16)
    by (bit_vector)
    ensures
        ((((v & 0x00FF) as u8) as u16) | ((((v & 0xFF00) >> 8) as u8 as u16) << 8)) == v,
{
}

/// Masking in a byte below an existing high byte leaves the high byte
/// as it was.
proof fn lemma_or_low_keeps_high(a: u16, v: u8)
    by (bit_vector)
    ensures
        ((a & 0xFF00) | (v as u16)) & 0xFF00 == a & 0xFF00,
{
}

/// Every 8-bit load replaces only the low byte of its register and
/// preserves the untouched high byte; every 16-bit load replaces the
/// full register.
pub proof fn lemma_load_width(c: CpuView, m: MemV, v: u8, v16: u16, addr: u16)
    ensures
        sem_lda_i8(c, v).0.a_reg & 0xFF00 == c.a_reg & 0xFF00,
        sem_ldx_i8(c, v).0.x_reg & 0xFF00 == c.x_reg & 0xFF00,
        sem_ldy_i8(c, v).0.y_reg & 0xFF00 == c.y_reg & 0xFF00,
        c.p_reg.m ==> sem_lda_abs(c, m, addr).0.a_reg & 0xFF00 == c.a_reg & 0xFF00,
        c.p_reg.x ==> sem_ldx_abs(c, m, addr).0.x_reg & 0xFF00 == c.x_reg & 0xFF00,
        c.p_reg.m ==> sem_pla(c, m).0.a_reg & 0xFF00 == c.a_reg & 0xFF00,
        c.p_reg.x ==> sem_plx(c, m).0.x_reg & 0xFF00 == c.x_reg & 0xFF00,
        sem_lda_i16(c, v16).0.a_reg == v16,
        sem_ldx_i16(c, v16).0.x_reg == v16,
        sem_ldy_i16(c, v16).0.y_reg == v16,
        !c.p_reg.m && bus_read16(m, addr, c.dbr) is Ok ==> sem_lda_abs(c, m, addr).0.a_reg
            == bus_read16(m, addr, c.dbr).unwrap(),
        !c.p_reg.x && bus_read16(m, addr, c.dbr) is Ok ==> sem_ldx_abs(c, m, addr).0.x_reg
            == bus_read16(m, addr, c.dbr).unwrap(),
{
    lemma_or_low_keeps_high(c.a_reg, v);
    lemma_or_low_keeps_high(c.x_reg, v);
    lemma_or_low_keeps_high(c.y_reg, v);
    if c.p_reg.m {
        match bus_read8(m, addr, c.dbr) {
            Ok(b) => {
                lemma_or_low_keeps_high(c.a_reg, b);
            },
            Err(e) => {},
        }
        match pull8_res(c, m).1 {
            Ok(b) => {
                lemma_or_low_keeps_high(c.a_reg, b);
            },
            Err(e) => {},
        }
    }
    if c.p_reg.x {
        match bus_read8(m, addr, c.dbr) {
            Ok(b) => {
                lemma_or_low_keeps_high(c.x_reg, b);
            },
            Err(e) => {},
        }
        match pull8_res(c, m).1 {
            Ok(b) => {
                lemma_or_low_keeps_high(c.x_reg, b);
            },
            Err(e) => {},
        }
    }
}

/// The Zero flag is set exactly when the width-masked result is zero,
/// and the Negative flag mirrors the most significant bit of the active
/// width — bit 7 for 8-bit results, bit 15 for 16-bit results.
pub proof fn lemma_flag_width(p: PReg, v8: u8, v16: u16)
    ensures
        nz8(p, v8).z <==> v8 == 0,
        nz16(p, v16).z <==> v16 == 0,
        nz8(p, v8).n <==> (v8 >> 7) & 1 == 1,
        nz16(p, v16).n <==> (v16 >> 15) & 1 == 1,
        nz8(p, v8).c == p.c && nz8(p, v8).i == p.i && nz8(p, v8).d == p.d && nz8(p, v8).x == p.x
            && nz8(p, v8).m == p.m && nz8(p, v8).v == p.v,
        nz16(p, v16).c == p.c && nz16(p, v16).i == p.i && nz16(p, v16).d == p.d && nz16(p, v16).x
            == p.x && nz16(p, v16).m == p.m && nz16(p, v16).v == p.v,
{
    assert((v8 & 0x80 == 0x80) == ((v8 >> 7) & 1 == 1)) by (bit_vector);
    assert((v16 & 0x8000 == 0x8000) == ((v16 >> 15) & 1 == 1)) by (bit_vector);
}

/// XCE swaps the carry flag with the emulation bit and touches nothing
/// else, so two of them in a row restore the machine exactly.
pub proof fn lemma_xce_involution(c: CpuView)
    ensures
        sem_xce(c).0.emulation == c.p_reg.c,
        sem_xce(c).0.p_reg.c == c.emulation,
        sem_xce(sem_xce(c).0).0 == c,
{
}

} // verus!

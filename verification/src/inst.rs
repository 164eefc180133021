//! Instruction decoding: an opcode byte plus the CPU's current width
//! flags determine an operation and an addressing mode, consuming the
//! correct number of trailing operand bytes.

use vstd::prelude::*;
use crate::cpu::CpuView;
use crate::cpu::Ricoh5A22;
use crate::cpu::bus_ok;
use crate::cpu::bus_val;
use crate::cpu::spec_u16_from_bytes;
use crate::err::EmuError;
use crate::mem::MemV;
use crate::mem::Memory;

verus! {

/// A resolved addressing mode together with the operand bytes it
/// consumed.
#[derive(Debug, Clone, Copy, PartialEq, Eq, Structural)]
pub enum Value {
    Implied,
    Immediate8(u8),
    Immediate16(u16),
    ZeroPage(u8),
    ZeroPageX(u8),
    ZeroPageY(u8),
    Absolute(u16),
    AbsoluteX(u16),
    AbsoluteY(u16),
    IndirectX(u8),
    IndirectOffY(u8),
    DirectPage(u8),
    DirectPageX(u8),
    AbsoluteLong(u16, u8),
}

/// The operations the decoder can classify. `Unknown` carries the
/// unclassifiable opcode byte; `HLT` is the explicit stop instruction.
#[derive(Debug, Clone, Copy, PartialEq, Eq, Structural)]
pub enum Opcode {
    PHP,
    CLC,
    INA,
    TCS,
    JSR,
    PLP,
    PLD,
    PHA,
    PHK,
    JMP,
    CLI,
    TCD,
    RTS,
    PLA,
    RTL,
    SEI,
    STA,
    STX,
    STY,
    TXS,
    STZ,
    LDY,
    LDX,
    LDA,
    PLB,
    REP,
    DEX,
    CMP,
    SEP,
    BNE,
    PHX,
    CPX,
    INX,
    XBA,
    PLX,
    XCE,
    HLT,
    Unknown(u8),
}

/// A decoded instruction: operation plus resolved addressing mode.
#[derive(Debug, Clone, Copy, PartialEq, Eq, Structural)]
pub struct Instruction(pub Opcode, pub Value);

/// Opcode bytes with no operand.
pub open spec fn is_implied(b: u8) -> bool {
    ||| b == 0x08
    ||| b == 0x18
    ||| b == 0x1A
    ||| b == 0x1B
    ||| b == 0x28
    ||| b == 0x2B
    ||| b == 0x48
    ||| b == 0x4B
    ||| b == 0x58
    ||| b == 0x5B
    ||| b == 0x60
    ||| b == 0x68
    ||| b == 0x6B
    ||| b == 0x78
    ||| b == 0x9A
    ||| b == 0xAB
    ||| b == 0xCA
    ||| b == 0xDA
    ||| b == 0xDB
    ||| b == 0xE8
    ||| b == 0xEB
    ||| b == 0xFA
    ||| b == 0xFB
}

/// Opcode bytes with a two-byte absolute address operand.
pub open spec fn is_absolute(b: u8) -> bool {
    ||| b == 0x20
    ||| b == 0x4C
    ||| b == 0x8C
    ||| b == 0x8D
    ||| b == 0x8E
    ||| b == 0x9C
    ||| b == 0xAD
    ||| b == 0xAE
    ||| b == 0xCD
}

/// Opcode bytes whose immediate width follows the index-width flag.
pub open spec fn is_imm_x(b: u8) -> bool {
    b == 0xA0 || b == 0xA2 || b == 0xE0
}

/// Opcode bytes with a fixed one-byte immediate operand.
pub open spec fn is_imm8(b: u8) -> bool {
    b == 0xC2 || b == 0xD0 || b == 0xE2
}

/// Opcode bytes with a one-byte direct-page offset operand.
pub open spec fn is_dp(b: u8) -> bool {
    b == 0x85 || b == 0x86
}

/// The operation of an operand-less opcode byte.
pub open spec fn op_implied(b: u8) -> Opcode {
    if b == 0x08 {
        Opcode::PHP
    } else if b == 0x18 {
        Opcode::CLC
    } else if b == 0x1A {
        Opcode::INA
    } else if b == 0x1B {
        Opcode::TCS
    } else if b == 0x28 {
        Opcode::PLP
    } else if b == 0x2B {
        Opcode::PLD
    } else if b == 0x48 {
        Opcode::PHA
    } else if b == 0x4B {
        Opcode::PHK
    } else if b == 0x58 {
        Opcode::CLI
    } else if b == 0x5B {
        Opcode::TCD
    } else if b == 0x60 {
        Opcode::RTS
    } else if b == 0x68 {
        Opcode::PLA
    } else if b == 0x6B {
        Opcode::RTL
    } else if b == 0x78 {
        Opcode::SEI
    } else if b == 0x9A {
        Opcode::TXS
    } else if b == 0xAB {
        Opcode::PLB
    } else if b == 0xCA {
        Opcode::DEX
    } else if b == 0xDA {
        Opcode::PHX
    } else if b == 0xDB {
        Opcode::HLT
    } else if b == 0xE8 {
        Opcode::INX
    } else if b == 0xEB {
        Opcode::XBA
    } else if b == 0xFA {
        Opcode::PLX
    } else {
        Opcode::XCE
    }
}

/// The operation of an absolute-addressed opcode byte.
pub open spec fn op_absolute(b: u8) -> Opcode {
    if b == 0x20 {
        Opcode::JSR
    } else if b == 0x4C {
        Opcode::JMP
    } else if b == 0x8C {
        Opcode::STY
    } else if b == 0x8D {
        Opcode::STA
    } else if b == 0x8E {
        Opcode::STX
    } else if b == 0x9C {
        Opcode::STZ
    } else if b == 0xAD {
        Opcode::LDA
    } else if b == 0xAE {
        Opcode::LDX
    } else {
        Opcode::CMP
    }
}

/// The operation of an index-width immediate opcode byte.
pub open spec fn op_imm_x(b: u8) -> Opcode {
    if b == 0xA0 {
        Opcode::LDY
    } else if b == 0xA2 {
        Opcode::LDX
    } else {
        Opcode::CPX
    }
}

/// The operation of a fixed one-byte immediate opcode byte.
pub open spec fn op_imm8(b: u8) -> Opcode {
    if b == 0xC2 {
        Opcode::REP
    } else if b == 0xD0 {
        Opcode::BNE
    } else {
        Opcode::SEP
    }
}

/// The operation of a direct-page opcode byte.
pub open spec fn op_dp(b: u8) -> Opcode {
    if b == 0x85 {
        Opcode::STA
    } else {
        Opcode::STX
    }
}

/// Instruction length in bytes, opcode byte included, as determined by
/// the opcode byte and the width flags at decode time.
pub open spec fn inst_len(b: u8, mf: bool, xf: bool) -> int {
    if is_implied(b) {
        1
    } else if is_absolute(b) {
        3
    } else if b == 0x22 {
        4
    } else if b == 0xA9 {
        if mf {
            2
        } else {
            3
        }
    } else if is_imm_x(b) {
        if xf {
            2
        } else {
            3
        }
    } else if is_imm8(b) || is_dp(b) || b == 0x74 {
        2
    } else {
        1
    }
}

/// The `i`-th byte of the instruction at the program counter.
pub open spec fn opnd(c: CpuView, m: MemV, i: int) -> u8 {
    bus_val(m, c.pc.wrapping_add(i as u16), c.pbr)
}

/// Whether every byte of the instruction at the program counter can be
/// fetched.
pub open spec fn fetch_ok(c: CpuView, m: MemV) -> bool {
    &&& bus_ok(m, c.pc, c.pbr)
    &&& ({
        let len = inst_len(bus_val(m, c.pc, c.pbr), c.p_reg.m, c.p_reg.x);
        &&& (len >= 2 ==> bus_ok(m, c.pc.wrapping_add(1), c.pbr))
        &&& (len >= 3 ==> bus_ok(m, c.pc.wrapping_add(2), c.pbr))
        &&& (len >= 4 ==> bus_ok(m, c.pc.wrapping_add(3), c.pbr))
    })
}

/// How many bytes the fetch consumes before finishing or failing: the
/// whole instruction when every byte is readable, otherwise the count up
/// to the first unreadable byte.
pub open spec fn fetch_adv(c: CpuView, m: MemV) -> int {
    if !bus_ok(m, c.pc, c.pbr) {
        0
    } else {
        let len = inst_len(bus_val(m, c.pc, c.pbr), c.p_reg.m, c.p_reg.x);
        if len >= 2 && !bus_ok(m, c.pc.wrapping_add(1), c.pbr) {
            1
        } else if len >= 3 && !bus_ok(m, c.pc.wrapping_add(2), c.pbr) {
            2
        } else if len >= 4 && !bus_ok(m, c.pc.wrapping_add(3), c.pbr) {
            3
        } else {
            len
        }
    }
}

/// The instruction decoded at the program counter, given that every
/// byte of it can be fetched.
pub open spec fn decode_of(c: CpuView, m: MemV) -> Instruction {
    let b0 = bus_val(m, c.pc, c.pbr);
    if is_implied(b0) {
        Instruction(op_implied(b0), Value::Implied)
    } else if is_absolute(b0) {
        Instruction(op_absolute(b0), Value::Absolute(spec_u16_from_bytes(opnd(c, m, 1), opnd(c, m, 2))))
    } else if b0 == 0x22 {
        Instruction(
            Opcode::JSR,
            Value::AbsoluteLong(spec_u16_from_bytes(opnd(c, m, 1), opnd(c, m, 2)), opnd(c, m, 3)),
        )
    } else if b0 == 0xA9 {
        if c.p_reg.m {
            Instruction(Opcode::LDA, Value::Immediate8(opnd(c, m, 1)))
        } else {
            Instruction(
                Opcode::LDA,
                Value::Immediate16(spec_u16_from_bytes(opnd(c, m, 1), opnd(c, m, 2))),
            )
        }
    } else if is_imm_x(b0) {
        if c.p_reg.x {
            Instruction(op_imm_x(b0), Value::Immediate8(opnd(c, m, 1)))
        } else {
            Instruction(
                op_imm_x(b0),
                Value::Immediate16(spec_u16_from_bytes(opnd(c, m, 1), opnd(c, m, 2))),
            )
        }
    } else if is_imm8(b0) {
        Instruction(op_imm8(b0), Value::Immediate8(opnd(c, m, 1)))
    } else if is_dp(b0) {
        Instruction(op_dp(b0), Value::DirectPage(opnd(c, m, 1)))
    } else if b0 == 0x74 {
        Instruction(Opcode::STZ, Value::DirectPageX(opnd(c, m, 1)))
    } else {
        Instruction(Opcode::Unknown(b0), Value::Implied)
    }
}

impl Instruction {
    /// Decode the instruction at the program counter, advancing the
    /// program counter past every byte consumed. Unknown leading bytes
    /// decode to `Unknown` rather than failing; only an unfetchable byte
    /// fails, with the unmapped address, leaving the program counter on
    /// it.
    pub fn from(cpu: &mut Ricoh5A22, mem: &Memory) -> (r: Result<Instruction, EmuError>)
        requires
            mem.wf(),
        ensures
            final(cpu)@ == (CpuView {
                pc: old(cpu).pc.wrapping_add(fetch_adv(old(cpu)@, mem@) as u16),
                ..old(cpu)@
            }),
            fetch_ok(old(cpu)@, mem@) ==> r == Ok::<Instruction, EmuError>(
                decode_of(old(cpu)@, mem@),
            ),
            !fetch_ok(old(cpu)@, mem@) ==> r == Err::<Instruction, EmuError>(
                EmuError::UnmappedAccess(
                    old(cpu).pc.wrapping_add(fetch_adv(old(cpu)@, mem@) as u16),
                ),
            ),
    {
        let b0 = match cpu.read_u8_pc(mem) {
            Ok(v) => v,
            Err(e) => {
                return Err(e);
            },
        };
        if b0 < 0x85 {
            Instruction::from_low(cpu, mem, b0, Ghost(old(cpu)@))
        } else if b0 < 0xC2 {
            Instruction::from_mid(cpu, mem, b0, Ghost(old(cpu)@))
        } else {
            Instruction::from_high(cpu, mem, b0, Ghost(old(cpu)@))
        }
    }

    /// Decode continuation for opcode bytes below 0x85.
    #[verifier::rlimit(100)]
    #[verifier::spinoff_prover]
    fn from_low(cpu: &mut Ricoh5A22, mem: &Memory, b0: u8, Ghost(c0): Ghost<CpuView>) -> (r:
        Result<Instruction, EmuError>)
        requires
            mem.wf(),
            bus_ok(mem@, c0.pc, c0.pbr),
            b0 == bus_val(mem@, c0.pc, c0.pbr),
            old(cpu)@ == (CpuView { pc: c0.pc.wrapping_add(1), ..c0 }),
            b0 < 0x85,
        ensures
            final(cpu)@ == (CpuView { pc: c0.pc.wrapping_add(fetch_adv(c0, mem@) as u16), ..c0 }),
            fetch_ok(c0, mem@) ==> r == Ok::<Instruction, EmuError>(decode_of(c0, mem@)),
            !fetch_ok(c0, mem@) ==> r == Err::<Instruction, EmuError>(
                EmuError::UnmappedAccess(c0.pc.wrapping_add(fetch_adv(c0, mem@) as u16)),
            ),
    {
        if b0 == 0x08 {
            Ok(Instruction(Opcode::PHP, Value::Implied))
        } else if b0 == 0x18 {
            Ok(Instruction(Opcode::CLC, Value::Implied))
        } else if b0 == 0x1A {
            Ok(Instruction(Opcode::INA, Value::Implied))
        } else if b0 == 0x1B {
            Ok(Instruction(Opcode::TCS, Value::Implied))
        } else if b0 == 0x20 {
            let a = match cpu.read_u16_pc(mem) {
                Ok(v) => v,
                Err(e) => {
                    return Err(e);
                },
            };
            Ok(Instruction(Opcode::JSR, Value::Absolute(a)))
        } else if b0 == 0x22 {
            let a = match cpu.read_u16_pc(mem) {
                Ok(v) => v,
                Err(e) => {
                    return Err(e);
                },
            };
            let bank = match cpu.read_u8_pc(mem) {
                Ok(v) => v,
                Err(e) => {
                    return Err(e);
                },
            };
            Ok(Instruction(Opcode::JSR, Value::AbsoluteLong(a, bank)))
        } else if b0 == 0x28 {
            Ok(Instruction(Opcode::PLP, Value::Implied))
        } else if b0 == 0x2B {
            Ok(Instruction(Opcode::PLD, Value::Implied))
        } else if b0 == 0x48 {
            Ok(Instruction(Opcode::PHA, Value::Implied))
        } else if b0 == 0x4B {
            Ok(Instruction(Opcode::PHK, Value::Implied))
        } else if b0 == 0x4C {
            let a = match cpu.read_u16_pc(mem) {
                Ok(v) => v,
                Err(e) => {
                    return Err(e);
                },
            };
            Ok(Instruction(Opcode::JMP, Value::Absolute(a)))
        } else if b0 == 0x58 {
            Ok(Instruction(Opcode::CLI, Value::Implied))
        } else if b0 == 0x5B {
            Ok(Instruction(Opcode::TCD, Value::Implied))
        } else if b0 == 0x60 {
            Ok(Instruction(Opcode::RTS, Value::Implied))
        } else if b0 == 0x68 {
            Ok(Instruction(Opcode::PLA, Value::Implied))
        } else if b0 == 0x6B {
            Ok(Instruction(Opcode::RTL, Value::Implied))
        } else if b0 == 0x74 {
            let off = match cpu.read_u8_pc(mem) {
                Ok(v) => v,
                Err(e) => {
                    return Err(e);
                },
            };
            Ok(Instruction(Opcode::STZ, Value::DirectPageX(off)))
        } else if b0 == 0x78 {
            Ok(Instruction(Opcode::SEI, Value::Implied))
        } else {
            Ok(Instruction(Opcode::Unknown(b0), Value::Implied))
        }
    }

    /// Decode continuation for opcode bytes 0x85..=0xC1.
    #[verifier::rlimit(100)]
    #[verifier::spinoff_prover]
    fn from_mid(cpu: &mut Ricoh5A22, mem: &Memory, b0: u8, Ghost(c0): Ghost<CpuView>) -> (r:
        Result<Instruction, EmuError>)
        requires
            mem.wf(),
            bus_ok(mem@, c0.pc, c0.pbr),
            b0 == bus_val(mem@, c0.pc, c0.pbr),
            old(cpu)@ == (CpuView { pc: c0.pc.wrapping_add(1), ..c0 }),
            0x85 <= b0 && b0 < 0xC2,
        ensures
            final(cpu)@ == (CpuView { pc: c0.pc.wrapping_add(fetch_adv(c0, mem@) as u16), ..c0 }),
            fetch_ok(c0, mem@) ==> r == Ok::<Instruction, EmuError>(decode_of(c0, mem@)),
            !fetch_ok(c0, mem@) ==> r == Err::<Instruction, EmuError>(
                EmuError::UnmappedAccess(c0.pc.wrapping_add(fetch_adv(c0, mem@) as u16)),
            ),
    {
        if b0 == 0x85 {
            let off = match cpu.read_u8_pc(mem) {
                Ok(v) => v,
                Err(e) => {
                    return Err(e);
                },
            };
            Ok(Instruction(Opcode::STA, Value::DirectPage(off)))
        } else if b0 == 0x86 {
            let off = match cpu.read_u8_pc(mem) {
                Ok(v) => v,
                Err(e) => {
                    return Err(e);
                },
            };
            Ok(Instruction(Opcode::STX, Value::DirectPage(off)))
        } else if b0 == 0x8C {
            let a = match cpu.read_u16_pc(mem) {
                Ok(v) => v,
                Err(e) => {
                    return Err(e);
                },
            };
            Ok(Instruction(Opcode::STY, Value::Absolute(a)))
        } else if b0 == 0x8D {
            let a = match cpu.read_u16_pc(mem) {
                Ok(v) => v,
                Err(e) => {
                    return Err(e);
                },
            };
            Ok(Instruction(Opcode::STA, Value::Absolute(a)))
        } else if b0 == 0x8E {
            let a = match cpu.read_u16_pc(mem) {
                Ok(v) => v,
                Err(e) => {
                    return Err(e);
                },
            };
            Ok(Instruction(Opcode::STX, Value::Absolute(a)))
        } else if b0 == 0x9A {
            Ok(Instruction(Opcode::TXS, Value::Implied))
        } else if b0 == 0x9C {
            let a = match cpu.read_u16_pc(mem) {
                Ok(v) => v,
                Err(e) => {
                    return Err(e);
                },
            };
            Ok(Instruction(Opcode::STZ, Value::Absolute(a)))
        } else if b0 == 0xA0 || b0 == 0xA2 {
            let op = if b0 == 0xA0 {
                Opcode::LDY
            } else {
                Opcode::LDX
            };
            if self_x_flag(cpu) {
                let v = match cpu.read_u8_pc(mem) {
                    Ok(v) => v,
                    Err(e) => {
                        return Err(e);
                    },
                };
                Ok(Instruction(op, Value::Immediate8(v)))
            } else {
                let v = match cpu.read_u16_pc(mem) {
                    Ok(v) => v,
                    Err(e) => {
                        return Err(e);
                    },
                };
                Ok(Instruction(op, Value::Immediate16(v)))
            }
        } else if b0 == 0xA9 {
            if self_m_flag(cpu) {
                let v = match cpu.read_u8_pc(mem) {
                    Ok(v) => v,
                    Err(e) => {
                        return Err(e);
                    },
                };
                Ok(Instruction(Opcode::LDA, Value::Immediate8(v)))
            } else {
                let v = match cpu.read_u16_pc(mem) {
                    Ok(v) => v,
                    Err(e) => {
                        return Err(e);
                    },
                };
                Ok(Instruction(Opcode::LDA, Value::Immediate16(v)))
            }
        } else if b0 == 0xAB {
            Ok(Instruction(Opcode::PLB, Value::Implied))
        } else if b0 == 0xAD {
            let a = match cpu.read_u16_pc(mem) {
                Ok(v) => v,
                Err(e) => {
                    return Err(e);
                },
            };
            Ok(Instruction(Opcode::LDA, Value::Absolute(a)))
        } else if b0 == 0xAE {
            let a = match cpu.read_u16_pc(mem) {
                Ok(v) => v,
                Err(e) => {
                    return Err(e);
                },
            };
            Ok(Instruction(Opcode::LDX, Value::Absolute(a)))
        } else {
            Ok(Instruction(Opcode::Unknown(b0), Value::Implied))
        }
    }

    /// Decode continuation for opcode bytes 0xC2 and above.
    #[verifier::rlimit(100)]
    #[verifier::spinoff_prover]
    fn from_high(cpu: &mut Ricoh5A22, mem: &Memory, b0: u8, Ghost(c0): Ghost<CpuView>) -> (r:
        Result<Instruction, EmuError>)
        requires
            mem.wf(),
            bus_ok(mem@, c0.pc, c0.pbr),
            b0 == bus_val(mem@, c0.pc, c0.pbr),
            old(cpu)@ == (CpuView { pc: c0.pc.wrapping_add(1), ..c0 }),
            0xC2 <= b0,
        ensures
            final(cpu)@ == (CpuView { pc: c0.pc.wrapping_add(fetch_adv(c0, mem@) as u16), ..c0 }),
            fetch_ok(c0, mem@) ==> r == Ok::<Instruction, EmuError>(decode_of(c0, mem@)),
            !fetch_ok(c0, mem@) ==> r == Err::<Instruction, EmuError>(
                EmuError::UnmappedAccess(c0.pc.wrapping_add(fetch_adv(c0, mem@) as u16)),
            ),
    {
        if b0 == 0xC2 {
            let v = match cpu.read_u8_pc(mem) {
                Ok(v) => v,
                Err(e) => {
                    return Err(e);
                },
            };
            Ok(Instruction(Opcode::REP, Value::Immediate8(v)))
        } else if b0 == 0xCA {
            Ok(Instruction(Opcode::DEX, Value::Implied))
        } else if b0 == 0xCD {
            let a = match cpu.read_u16_pc(mem) {
                Ok(v) => v,
                Err(e) => {
                    return Err(e);
                },
            };
            Ok(Instruction(Opcode::CMP, Value::Absolute(a)))
        } else if b0 == 0xD0 {
            let v = match cpu.read_u8_pc(mem) {
                Ok(v) => v,
                Err(e) => {
                    return Err(e);
                },
            };
            Ok(Instruction(Opcode::BNE, Value::Immediate8(v)))
        } else if b0 == 0xDA {
            Ok(Instruction(Opcode::PHX, Value::Implied))
        } else if b0 == 0xDB {
            Ok(Instruction(Opcode::HLT, Value::Implied))
        } else if b0 == 0xE0 {
            if self_x_flag(cpu) {
                let v = match cpu.read_u8_pc(mem) {
                    Ok(v) => v,
                    Err(e) => {
                        return Err(e);
                    },
                };
                Ok(Instruction(Opcode::CPX, Value::Immediate8(v)))
            } else {
                let v = match cpu.read_u16_pc(mem) {
                    Ok(v) => v,
                    Err(e) => {
                        return Err(e);
                    },
                };
                Ok(Instruction(Opcode::CPX, Value::Immediate16(v)))
            }
        } else if b0 == 0xE2 {
            let v = match cpu.read_u8_pc(mem) {
                Ok(v) => v,
                Err(e) => {
                    return Err(e);
                },
            };
            Ok(Instruction(Opcode::SEP, Value::Immediate8(v)))
        } else if b0 == 0xE8 {
            Ok(Instruction(Opcode::INX, Value::Implied))
        } else if b0 == 0xEB {
            Ok(Instruction(Opcode::XBA, Value::Implied))
        } else if b0 == 0xFA {
            Ok(Instruction(Opcode::PLX, Value::Implied))
        } else if b0 == 0xFB {
            Ok(Instruction(Opcode::XCE, Value::Implied))
        } else {
            Ok(Instruction(Opcode::Unknown(b0), Value::Implied))
        }
    }
}

/// The index-width flag, read without borrowing trouble inside decode.
fn self_x_flag(cpu: &Ricoh5A22) -> (r: bool)
    ensures
        r == cpu@.p_reg.x,
{
    cpu.p_reg.x
}

/// The accumulator-width flag, read the same way.
fn self_m_flag(cpu: &Ricoh5A22) -> (r: bool)
    ensures
        r == cpu@.p_reg.m,
{
    cpu.p_reg.m
}

} // verus!

//! The opcode dispatcher: the recognizers of the instruction forms, tried in
//! a fixed order on the next byte of the cursor.

use vstd::prelude::*;
use crate::cursor::CountingIterator;
use crate::fields::{
    consume_i8, consume_u16, consume_u8, parse_r_m_loc, parse_reg_field, parsed, spec_i8,
    spec_r_m_loc, spec_reg_field, spec_u16, spec_u8, unsigned_word, DecodeError, Parsed,
};
use crate::model::{
    binop_to_instruction, spec_binop_to_instruction, BinOpCode, BinopParams, EABase, Instruction,
    Jump, JumpType, Loc, Mov, RegIndex, EAC,
};

verus! {

/// The seven bits that start a move of an immediate to a register or memory.
pub const MOV_OPCODE: u8 = 0b_110_0011;

/// The number of leading bits of a first byte that `MOV_OPCODE` is compared with.
pub const MOV_OPCODE_LEN: u8 = 7;

/// The six bits that start an arithmetic operation with an immediate.
pub const IMM_TO_R_M_OPCODE: u8 = 0b_10_0000;

/// The number of leading bits of a first byte that `IMM_TO_R_M_OPCODE` is
/// compared with.
pub const IMM_TO_R_M_OPCODE_LEN: u8 = 6;

/// The width bit of a first byte: its lowest bit.
pub open spec fn w_bit(b: u8) -> bool {
    b % 2 == 1
}

/// The second lowest bit of a first byte: the direction, or the sign extension.
pub open spec fn d_bit(b: u8) -> bool {
    (b / 2) % 2 == 1
}

/// The two highest bits of a byte.
pub open spec fn mod_field(b: u8) -> u8 {
    b / 64
}

/// The three middle bits of a byte.
pub open spec fn reg_field(b: u8) -> u8 {
    (b / 8) % 8
}

/// The three lowest bits of a byte.
pub open spec fn r_m_field(b: u8) -> u8 {
    b % 8
}

/// `1100_011w`: a move of an immediate to a register or memory.
pub open spec fn is_mov_imm_to_r_m(b: u8) -> bool {
    b / 2 == 0b110_0011
}

/// `1100_011w`, or `1000_00sw`: an operation with an immediate.
pub open spec fn is_imm_to_r_m(b: u8) -> bool {
    is_mov_imm_to_r_m(b) || b / 4 == 0b10_0000
}

/// `1000_10dw`: a move between a register and a register or memory.
pub open spec fn is_mov_r_m_to_r_m(b: u8) -> bool {
    b / 4 == 0b1000_10
}

/// `1000_10dw`, or `00xxx0dw` where `xxx` selects an operation.
pub open spec fn is_r_m_to_r_m(b: u8) -> bool {
    is_mov_r_m_to_r_m(b) || (b / 64 == 0 && (b / 4) % 2 == 0 && BinOpCode::spec_find(
        reg_field(b),
    ) is Some)
}

/// `00xxx10w` where `xxx` selects an operation.
pub open spec fn is_imm_to_acc(b: u8) -> bool {
    b / 64 == 0 && (b / 2) % 4 == 0b10 && BinOpCode::spec_find(reg_field(b)) is Some
}

/// One of the twenty first bytes of a conditional jump or loop.
pub open spec fn is_jump(b: u8) -> bool {
    JumpType::spec_find(b) is Some
}

/// `1011wrrr`: a move of an immediate to a register.
pub open spec fn is_imm_to_reg(b: u8) -> bool {
    b / 16 == 0b1011
}

/// `1010000w`: a move from a fixed address to the accumulator.
pub open spec fn is_mem_to_acc(b: u8) -> bool {
    b / 2 == 0b101_0000
}

/// `1010001w`: a move from the accumulator to a fixed address.
pub open spec fn is_acc_to_mem(b: u8) -> bool {
    b / 2 == 0b101_0001
}

/// One of the three short moves.
pub open spec fn is_short_mov(b: u8) -> bool {
    is_imm_to_reg(b) || is_mem_to_acc(b) || is_acc_to_mem(b)
}

/// A recognizer that was shown the byte at `before` returned `r` and left
/// the cursor at `now`: where the byte is not its own (`matches` is false) it
/// took nothing and returned `None`, else `expected` says what it did.
pub open spec fn recognized<T>(
    before: CountingIterator,
    now: CountingIterator,
    r: Result<Option<T>, DecodeError>,
    matches: bool,
    expected: Parsed<T>,
) -> bool {
    if matches {
        match expected {
            Ok((v, n)) => r == Ok::<Option<T>, DecodeError>(Some(v)) && now.after(before, n),
            Err(e) => r == Err::<Option<T>, DecodeError>(e) && now.after(
                before,
                e.taken(before.remaining().len()),
            ),
        }
    } else {
        r == Ok::<Option<T>, DecodeError>(None) && now == before
    }
}

/// The shifts and masks that take a byte apart, as divisions and remainders.
proof fn lemma_bit_fields(b: u8)
    by (bit_vector)
    ensures
        b >> 1 == b / 2,
        b >> 2 == b / 4,
        b >> 4 == b / 16,
        (b & 0b1100_0000) >> 6 == b / 64,
        (b & 0b0011_1000) >> 3 == (b / 8) % 8,
        (b >> 3) & 0b111 == (b / 8) % 8,
        ((b >> 2) >> 1) & 0b111 == (b / 8) % 8,
        b & 0b0000_0111 == b % 8,
        (b & 0b0000_0001 != 0) == (b % 2 == 1),
        (b & 0b0000_0010 != 0) == ((b / 2) % 2 == 1),
        (b & 0b0000_1000 != 0) == ((b / 8) % 2 == 1),
        (b & 0b1100_0110 == 0b0000_0100) == (b / 64 == 0 && (b / 2) % 4 == 2),
        (0b11_0001 & (b >> 2) == 0) == (b / 64 == 0 && (b / 4) % 2 == 0),
{
}

/// An immediate operand: a word when `w` is set and `s` is clear, a byte
/// extended to a word with its sign when both are set, else a byte.
pub open spec fn spec_immediate(w: bool, s: bool, bytes: Seq<u8>) -> Parsed<Loc> {
    if w && !s {
        match spec_u16(bytes) {
            Ok((v, n)) => Ok((Loc::Imm16(v), n)),
            Err(e) => Err(e),
        }
    } else if w && s {
        match spec_i8(bytes) {
            Ok((v, n)) => Ok((Loc::Imm16(unsigned_word(v as i16)), n)),
            Err(e) => Err(e),
        }
    } else {
        match spec_u8(bytes) {
            Ok((v, n)) => Ok((Loc::Imm8(v), n)),
            Err(e) => Err(e),
        }
    }
}

/// Reads an immediate operand.
pub fn consume_immediate(bs: &mut CountingIterator, w: bool, s: bool) -> (r: Result<
    Loc,
    DecodeError,
>)
    ensures
        parsed(*old(bs), *final(bs), r, spec_immediate(w, s, old(bs).remaining())),
        r matches Ok(loc) ==> loc.wf(),
{
    if w && !s {
        match consume_u16(bs) {
            Ok(v) => Ok(Loc::Imm16(v)),
            Err(e) => Err(e),
        }
    } else if w && s {
        match consume_i8(bs) {
            Ok(v) => Ok(
                Loc::Imm16(
                    if v >= 0 {
                        v as u16
                    } else {
                        (v as i32 + 65536) as u16
                    },
                ),
            ),
            Err(e) => Err(e),
        }
    } else {
        match consume_u8(bs) {
            Ok(v) => Ok(Loc::Imm8(v)),
            Err(e) => Err(e),
        }
    }
}

/// An operation with an immediate source: the first byte gives the width
/// and the sign extension, the second the operation and the destination; the
/// destination's displacement and then the immediate follow. A move has no
/// sign extension, whatever its second lowest bit, and takes any operation
/// field.
pub open spec fn spec_imm_to_r_m(s: Seq<u8>) -> Parsed<Instruction> {
    if s.len() < 2 {
        Err(DecodeError::UnexpectedEnd)
    } else {
        let is_mov = is_mov_imm_to_r_m(s[0]);
        let w = w_bit(s[0]);
        let sign = !is_mov && d_bit(s[0]);
        let binop = BinOpCode::spec_find(reg_field(s[1]));
        if !is_mov && binop is None {
            Err(DecodeError::UnknownOperation(s[1]))
        } else {
            match spec_r_m_loc(mod_field(s[1]), r_m_field(s[1]), w, s.skip(2)) {
                Err(e) => Err(e),
                Ok((dst, m)) => match spec_immediate(w, sign, s.skip(2 + m as int)) {
                    Err(e) => Err(e),
                    Ok((src, n)) => Ok(
                        (
                            spec_binop_to_instruction(
                                BinopParams::spec_from(is_mov, binop),
                                src,
                                dst,
                            ),
                            2 + m + n,
                        ),
                    ),
                },
            }
        }
    }
}

/// Recognizes an operation with an immediate source, `1000_00sw` or
/// `1100_011w`, and reads it.
pub fn parse_imm_to_r_m(b: u8, bs: &mut CountingIterator) -> (r: Result<
    Option<Instruction>,
    DecodeError,
>)
    requires
        old(bs).peeked() == Some(b),
    ensures
        recognized(
            *old(bs),
            *final(bs),
            r,
            is_imm_to_r_m(b),
            spec_imm_to_r_m(old(bs).remaining()),
        ),
        r matches Ok(Some(inst)) ==> inst.wf(),
{
    proof {
        lemma_bit_fields(b);
    }
    let is_mov = b >> (8 - MOV_OPCODE_LEN) == MOV_OPCODE;
    let is_other_imm_to_r_m = b >> (8 - IMM_TO_R_M_OPCODE_LEN) == IMM_TO_R_M_OPCODE;
    if !is_mov && !is_other_imm_to_r_m {
        return Ok(None);
    }
    let ghost start = *bs;
    let b0 = match consume_u8(bs) {
        Ok(x) => x,
        Err(e) => {
            return Err(e);
        },
    };
    let ghost c1 = *bs;
    let b1 = match consume_u8(bs) {
        Ok(x) => x,
        Err(e) => {
            proof {
                bs.lemma_after_after(c1, start, 1, c1.remaining().len());
            }
            return Err(e);
        },
    };
    let ghost c2 = *bs;
    proof {
        bs.lemma_after_after(c1, start, 1, 1);
        lemma_bit_fields(b1);
    }
    let w = b0 & 0b_0000_0001 != 0;
    let s = !is_mov && (b0 & 0b_0000_0010 != 0);
    let binop = BinOpCode::find((b1 >> 3) & 0b111);
    if !is_mov && binop.is_none() {
        return Err(DecodeError::UnknownOperation(b1));
    }
    let mod_bits = (b1 & 0b_1100_0000) >> 6;
    let r_m_bits = b1 & 0b_0000_0111;
    let r_m_loc = match parse_r_m_loc(bs, mod_bits, r_m_bits, w) {
        Ok(loc) => loc,
        Err(e) => {
            proof {
                bs.lemma_after_after(c2, start, 2, c2.remaining().len());
            }
            return Err(e);
        },
    };
    let ghost c3 = *bs;
    let ghost m = spec_r_m_loc(mod_bits, r_m_bits, w, c2.remaining())->Ok_0.1;
    proof {
        bs.lemma_after_after(c2, start, 2, m);
    }
    let src = match consume_immediate(bs, w, s) {
        Ok(loc) => loc,
        Err(e) => {
            proof {
                bs.lemma_after_after(c3, start, 2 + m, c3.remaining().len());
            }
            return Err(e);
        },
    };
    proof {
        let n = spec_immediate(w, s, c3.remaining())->Ok_0.1;
        bs.lemma_after_after(c3, start, 2 + m, n);
    }
    let params = BinopParams::from(is_mov, binop);
    Ok(Some(binop_to_instruction(params, src, r_m_loc)))
}

/// A move or an operation between a register and a register or memory: the
/// first byte gives the operation, the direction and the width, the second
/// the register and the other operand, whose displacement follows. With the
/// direction bit set the register is the destination.
pub open spec fn spec_r_m_to_r_m(s: Seq<u8>) -> Parsed<Instruction> {
    if s.len() < 2 {
        Err(DecodeError::UnexpectedEnd)
    } else {
        let is_mov = is_mov_r_m_to_r_m(s[0]);
        let w = w_bit(s[0]);
        let reg = Loc::Reg(spec_reg_field(reg_field(s[1]), w));
        match spec_r_m_loc(mod_field(s[1]), r_m_field(s[1]), w, s.skip(2)) {
            Err(e) => Err(e),
            Ok((r_m, m)) => Ok(
                (
                    spec_binop_to_instruction(
                        BinopParams::spec_from(is_mov, BinOpCode::spec_find(reg_field(s[0]))),
                        if d_bit(s[0]) {
                            r_m
                        } else {
                            reg
                        },
                        if d_bit(s[0]) {
                            reg
                        } else {
                            r_m
                        },
                    ),
                    2 + m,
                ),
            ),
        }
    }
}

/// Recognizes a move or an operation between a register and a register or
/// memory, `1000_10dw` or `00xxx0dw`, and reads it.
pub fn parse_r_m_to_r_m(b: u8, bs: &mut CountingIterator) -> (r: Result<
    Option<Instruction>,
    DecodeError,
>)
    requires
        old(bs).peeked() == Some(b),
    ensures
        recognized(
            *old(bs),
            *final(bs),
            r,
            is_r_m_to_r_m(b),
            spec_r_m_to_r_m(old(bs).remaining()),
        ),
        r matches Ok(Some(inst)) ==> inst.wf(),
{
    proof {
        lemma_bit_fields(b);
    }
    let opcode = b >> 2;
    let is_mov = opcode == 0b_1000_10;
    let binop = if 0b_11_000_1 & opcode == 0 {
        BinOpCode::find((opcode >> 1) & 0b111)
    } else {
        None
    };
    if !is_mov && binop.is_none() {
        return Ok(None);
    }
    let ghost start = *bs;
    let b0 = match consume_u8(bs) {
        Ok(x) => x,
        Err(e) => {
            return Err(e);
        },
    };
    let ghost c1 = *bs;
    let b1 = match consume_u8(bs) {
        Ok(x) => x,
        Err(e) => {
            proof {
                bs.lemma_after_after(c1, start, 1, c1.remaining().len());
            }
            return Err(e);
        },
    };
    let ghost c2 = *bs;
    proof {
        bs.lemma_after_after(c1, start, 1, 1);
        lemma_bit_fields(b1);
    }
    let w = b0 & 0b_0000_0001 != 0;
    let mod_bits = (b1 & 0b_1100_0000) >> 6;
    let reg_bits = (b1 & 0b_0011_1000) >> 3;
    let r_m_bits = b1 & 0b_0000_0111;
    let d_bit = b0 & 0b_0000_0010 != 0;
    let reg_register = parse_reg_field(reg_bits, w);
    let r_m_loc = match parse_r_m_loc(bs, mod_bits, r_m_bits, w) {
        Ok(loc) => loc,
        Err(e) => {
            proof {
                bs.lemma_after_after(c2, start, 2, c2.remaining().len());
            }
            return Err(e);
        },
    };
    proof {
        let m = spec_r_m_loc(mod_bits, r_m_bits, w, c2.remaining())->Ok_0.1;
        bs.lemma_after_after(c2, start, 2, m);
    }
    let (src, dst) = if d_bit {
        (r_m_loc, Loc::Reg(reg_register))
    } else {
        (Loc::Reg(reg_register), r_m_loc)
    };
    let params = BinopParams::from(is_mov, binop);
    Ok(Some(binop_to_instruction(params, src, dst)))
}

/// An operation on the accumulator with an immediate source: the first byte
/// gives the operation and the width, the immediate follows.
pub open spec fn spec_imm_to_acc(s: Seq<u8>) -> Parsed<Instruction> {
    if s.len() < 1 {
        Err(DecodeError::UnexpectedEnd)
    } else {
        let w = w_bit(s[0]);
        match spec_immediate(w, false, s.skip(1)) {
            Err(e) => Err(e),
            Ok((src, n)) => Ok(
                (
                    spec_binop_to_instruction(
                        BinopParams::Op(BinOpCode::spec_find(reg_field(s[0]))->0),
                        src,
                        Loc::Reg(RegIndex::spec_acc(w)),
                    ),
                    1 + n,
                ),
            ),
        }
    }
}

/// Recognizes an operation on the accumulator with an immediate source,
/// `00xxx10w`, and reads it.
pub fn parse_imm_to_acc(b: u8, bs: &mut CountingIterator) -> (r: Result<
    Option<Instruction>,
    DecodeError,
>)
    requires
        old(bs).peeked() == Some(b),
    ensures
        recognized(
            *old(bs),
            *final(bs),
            r,
            is_imm_to_acc(b),
            spec_imm_to_acc(old(bs).remaining()),
        ),
        r matches Ok(Some(inst)) ==> inst.wf(),
{
    proof {
        lemma_bit_fields(b);
    }
    if b & 0b11_000_110 != 0b00_000_100 {
        return Ok(None);
    }
    let binop = match BinOpCode::find((b >> 3) & 0b111) {
        Some(op) => op,
        None => {
            return Ok(None);
        },
    };
    let ghost start = *bs;
    let b0 = match consume_u8(bs) {
        Ok(x) => x,
        Err(e) => {
            return Err(e);
        },
    };
    let ghost c1 = *bs;
    let w = b0 & 0b_0000_0001 != 0;
    let src = match consume_immediate(bs, w, false) {
        Ok(loc) => loc,
        Err(e) => {
            proof {
                bs.lemma_after_after(c1, start, 1, c1.remaining().len());
            }
            return Err(e);
        },
    };
    proof {
        let n = spec_immediate(w, false, c1.remaining())->Ok_0.1;
        bs.lemma_after_after(c1, start, 1, n);
    }
    let dst = Loc::Reg(RegIndex::acc(w));
    Ok(Some(binop_to_instruction(BinopParams::Op(binop), src, dst)))
}

/// A conditional jump or loop: the first byte names it, the second is its
/// signed displacement.
pub open spec fn spec_jump(s: Seq<u8>) -> Parsed<Jump> {
    if s.len() < 1 {
        Err(DecodeError::UnexpectedEnd)
    } else {
        match spec_i8(s.skip(1)) {
            Err(e) => Err(e),
            Ok((offset, n)) => Ok((Jump { typ: JumpType::spec_find(s[0])->0, offset }, 1 + n)),
        }
    }
}

/// Recognizes a conditional jump or loop and reads it.
pub fn try_parse_jump(b: u8, bs: &mut CountingIterator) -> (r: Result<Option<Jump>, DecodeError>)
    requires
        old(bs).peeked() == Some(b),
    ensures
        recognized(*old(bs), *final(bs), r, is_jump(b), spec_jump(old(bs).remaining())),
{
    let typ = match JumpType::find(b) {
        Some(t) => t,
        None => {
            return Ok(None);
        },
    };
    let ghost start = *bs;
    match consume_u8(bs) {
        Ok(_) => {},
        Err(e) => {
            return Err(e);
        },
    }
    let ghost c1 = *bs;
    let offset = match consume_i8(bs) {
        Ok(x) => x,
        Err(e) => {
            proof {
                bs.lemma_after_after(c1, start, 1, c1.remaining().len());
            }
            return Err(e);
        },
    };
    proof {
        bs.lemma_after_after(c1, start, 1, 1);
    }
    Ok(Some(Jump { typ, offset }))
}

/// A move of an immediate to a register, `1011wrrr`: the first byte gives
/// the width and the register, the immediate follows.
pub open spec fn spec_imm_to_reg_mov(s: Seq<u8>) -> Parsed<Mov> {
    if s.len() < 1 {
        Err(DecodeError::UnexpectedEnd)
    } else {
        let w = (s[0] / 8) % 2 == 1;
        match spec_immediate(w, false, s.skip(1)) {
            Err(e) => Err(e),
            Ok((src, n)) => Ok(
                (Mov { src, dst: Loc::Reg(spec_reg_field(r_m_field(s[0]), w)) }, 1 + n),
            ),
        }
    }
}

/// Reads a move of an immediate to a register.
pub fn parse_imm_to_reg_mov(bs: &mut CountingIterator) -> (r: Result<Mov, DecodeError>)
    ensures
        parsed(*old(bs), *final(bs), r, spec_imm_to_reg_mov(old(bs).remaining())),
        r matches Ok(mov) ==> Instruction::Mov(mov).wf(),
{
    let ghost start = *bs;
    let b0 = match consume_u8(bs) {
        Ok(x) => x,
        Err(e) => {
            return Err(e);
        },
    };
    let ghost c1 = *bs;
    proof {
        lemma_bit_fields(b0);
    }
    let w = (b0 & 0b_0000_1000) != 0;
    let reg = b0 & 0b_0000_0111;
    let dst = parse_reg_field(reg, w);
    let src = match consume_immediate(bs, w, false) {
        Ok(loc) => loc,
        Err(e) => {
            proof {
                bs.lemma_after_after(c1, start, 1, c1.remaining().len());
            }
            return Err(e);
        },
    };
    proof {
        let n = spec_immediate(w, false, c1.remaining())->Ok_0.1;
        bs.lemma_after_after(c1, start, 1, n);
    }
    Ok(Mov { src, dst: Loc::Reg(dst) })
}

/// A move from a fixed address to the accumulator, `1010000w`: the first
/// byte gives the width, the address follows as a word.
pub open spec fn spec_mem_to_acc_mov(s: Seq<u8>) -> Parsed<Mov> {
    if s.len() < 1 {
        Err(DecodeError::UnexpectedEnd)
    } else {
        match spec_u16(s.skip(1)) {
            Err(e) => Err(e),
            Ok((addr, n)) => Ok(
                (
                    Mov {
                        src: Loc::EAC(EAC { base: EABase::DirectAddr(addr), displacement: None }),
                        dst: Loc::Reg(RegIndex::spec_acc(w_bit(s[0]))),
                    },
                    1 + n,
                ),
            ),
        }
    }
}

/// Reads a move from a fixed address to the accumulator.
pub fn parse_mem_to_acc_mov(bs: &mut CountingIterator) -> (r: Result<Mov, DecodeError>)
    ensures
        parsed(*old(bs), *final(bs), r, spec_mem_to_acc_mov(old(bs).remaining())),
        r matches Ok(mov) ==> Instruction::Mov(mov).wf(),
{
    let ghost start = *bs;
    let b0 = match consume_u8(bs) {
        Ok(x) => x,
        Err(e) => {
            return Err(e);
        },
    };
    let ghost c1 = *bs;
    let addr = match consume_u16(bs) {
        Ok(x) => x,
        Err(e) => {
            proof {
                bs.lemma_after_after(c1, start, 1, c1.remaining().len());
            }
            return Err(e);
        },
    };
    proof {
        bs.lemma_after_after(c1, start, 1, 2);
        lemma_bit_fields(b0);
    }
    let w = b0 & 0b_0000_0001 != 0;
    let dst = Loc::Reg(RegIndex::acc(w));
    let src = Loc::EAC(EAC::new(EABase::DirectAddr(addr), None));
    Ok(Mov { src, dst })
}

/// A move from the accumulator to a fixed address, `1010001w`: the first
/// byte gives the width, the address follows as a word.
pub open spec fn spec_acc_to_mem_mov(s: Seq<u8>) -> Parsed<Mov> {
    if s.len() < 1 {
        Err(DecodeError::UnexpectedEnd)
    } else {
        match spec_u16(s.skip(1)) {
            Err(e) => Err(e),
            Ok((addr, n)) => Ok(
                (
                    Mov {
                        src: Loc::Reg(RegIndex::spec_acc(w_bit(s[0]))),
                        dst: Loc::EAC(EAC { base: EABase::DirectAddr(addr), displacement: None }),
                    },
                    1 + n,
                ),
            ),
        }
    }
}

/// Reads a move from the accumulator to a fixed address.
pub fn parse_acc_to_mem_mov(bs: &mut CountingIterator) -> (r: Result<Mov, DecodeError>)
    ensures
        parsed(*old(bs), *final(bs), r, spec_acc_to_mem_mov(old(bs).remaining())),
        r matches Ok(mov) ==> Instruction::Mov(mov).wf(),
{
    let ghost start = *bs;
    let b0 = match consume_u8(bs) {
        Ok(x) => x,
        Err(e) => {
            return Err(e);
        },
    };
    let ghost c1 = *bs;
    let addr = match consume_u16(bs) {
        Ok(x) => x,
        Err(e) => {
            proof {
                bs.lemma_after_after(c1, start, 1, c1.remaining().len());
            }
            return Err(e);
        },
    };
    proof {
        bs.lemma_after_after(c1, start, 1, 2);
        lemma_bit_fields(b0);
    }
    let w = b0 & 0b_0000_0001 != 0;
    let src = Loc::Reg(RegIndex::acc(w));
    let dst = Loc::EAC(EAC::new(EABase::DirectAddr(addr), None));
    Ok(Mov { src, dst })
}

/// One of the three short moves, by its first byte.
pub open spec fn spec_mov(s: Seq<u8>) -> Parsed<Mov> {
    if s.len() < 1 {
        Err(DecodeError::UnexpectedEnd)
    } else if is_imm_to_reg(s[0]) {
        spec_imm_to_reg_mov(s)
    } else if is_mem_to_acc(s[0]) {
        spec_mem_to_acc_mov(s)
    } else {
        spec_acc_to_mem_mov(s)
    }
}

/// Recognizes one of the three short moves and reads it.
pub fn decode_mov(byte: u8, bytes: &mut CountingIterator) -> (r: Result<Option<Mov>, DecodeError>)
    requires
        old(bytes).peeked() == Some(byte),
    ensures
        recognized(
            *old(bytes),
            *final(bytes),
            r,
            is_short_mov(byte),
            spec_mov(old(bytes).remaining()),
        ),
        r matches Ok(Some(mov)) ==> Instruction::Mov(mov).wf(),
{
    proof {
        lemma_bit_fields(byte);
    }
    if byte >> 4 == 0b_1011 {
        match parse_imm_to_reg_mov(bytes) {
            Ok(mov) => Ok(Some(mov)),
            Err(e) => Err(e),
        }
    } else if byte >> 1 == 0b_101_0000 {
        match parse_mem_to_acc_mov(bytes) {
            Ok(mov) => Ok(Some(mov)),
            Err(e) => Err(e),
        }
    } else if byte >> 1 == 0b_101_0001 {
        match parse_acc_to_mem_mov(bytes) {
            Ok(mov) => Ok(Some(mov)),
            Err(e) => Err(e),
        }
    } else {
        Ok(None)
    }
}

/// The instruction at the start of `s` and its length in bytes. The forms
/// are tried in a fixed order on the first byte, and the first one that the
/// byte belongs to decides.
pub open spec fn spec_decode(s: Seq<u8>) -> Parsed<Instruction> {
    if s.len() < 1 {
        Err(DecodeError::UnexpectedEnd)
    } else if is_imm_to_r_m(s[0]) {
        spec_imm_to_r_m(s)
    } else if is_r_m_to_r_m(s[0]) {
        spec_r_m_to_r_m(s)
    } else if is_imm_to_acc(s[0]) {
        spec_imm_to_acc(s)
    } else if is_jump(s[0]) {
        match spec_jump(s) {
            Ok((jump, n)) => Ok((Instruction::Jump(jump), n)),
            Err(e) => Err(e),
        }
    } else if is_short_mov(s[0]) {
        match spec_mov(s) {
            Ok((mov, n)) => Ok((Instruction::Mov(mov), n)),
            Err(e) => Err(e),
        }
    } else {
        Err(DecodeError::UnknownOpcode(s[0]))
    }
}

/// Reads the next instruction from the cursor; `None` at the end of the
/// stream.
pub fn decode_next(bytes: &mut CountingIterator) -> (r: Result<Option<Instruction>, DecodeError>)
    ensures
        recognized(
            *old(bytes),
            *final(bytes),
            r,
            old(bytes).remaining().len() > 0,
            spec_decode(old(bytes).remaining()),
        ),
        r matches Ok(Some(inst)) ==> inst.wf(),
{
    let byte = match bytes.peek() {
        Some(b) => b,
        None => {
            return Ok(None);
        },
    };
    match parse_imm_to_r_m(byte, bytes) {
        Ok(Some(inst)) => {
            return Ok(Some(inst));
        },
        Ok(None) => {},
        Err(e) => {
            return Err(e);
        },
    }
    match parse_r_m_to_r_m(byte, bytes) {
        Ok(Some(inst)) => {
            return Ok(Some(inst));
        },
        Ok(None) => {},
        Err(e) => {
            return Err(e);
        },
    }
    match parse_imm_to_acc(byte, bytes) {
        Ok(Some(inst)) => {
            return Ok(Some(inst));
        },
        Ok(None) => {},
        Err(e) => {
            return Err(e);
        },
    }
    match try_parse_jump(byte, bytes) {
        Ok(Some(jump)) => {
            return Ok(Some(Instruction::Jump(jump)));
        },
        Ok(None) => {},
        Err(e) => {
            return Err(e);
        },
    }
    match decode_mov(byte, bytes) {
        Ok(Some(mov)) => Ok(Some(Instruction::Mov(mov))),
        Ok(None) => {
            assert(bytes.remaining().skip(0) =~= bytes.remaining());
            Err(DecodeError::UnknownOpcode(byte))
        },
        Err(e) => Err(e),
    }
}

/// The number of displacement bytes that follow a second byte with the
/// given MOD and R/M fields.
pub open spec fn displacement_len(mod_bits: u8, r_m_bits: u8) -> nat {
    if mod_bits == 0b01 {
        1
    } else if mod_bits == 0b10 {
        2
    } else if mod_bits == 0b00 && r_m_bits == 0b110 {
        2
    } else {
        0
    }
}

/// The number of bytes of an immediate: two for a word that is not made
/// from a byte by sign extension, else one.
pub open spec fn immediate_len(w: bool, s: bool) -> nat {
    if w && !s {
        2
    } else {
        1
    }
}

/// The length in bytes of the encoding that starts with the bytes `b0` and
/// `b1`, where `b0` starts one.
pub open spec fn encoding_len(b0: u8, b1: u8) -> nat {
    if is_imm_to_r_m(b0) {
        2 + displacement_len(mod_field(b1), r_m_field(b1)) + immediate_len(
            w_bit(b0),
            !is_mov_imm_to_r_m(b0) && d_bit(b0),
        )
    } else if is_r_m_to_r_m(b0) {
        2 + displacement_len(mod_field(b1), r_m_field(b1))
    } else if is_imm_to_acc(b0) {
        1 + immediate_len(w_bit(b0), false)
    } else if is_jump(b0) {
        2
    } else if is_imm_to_reg(b0) {
        1 + immediate_len((b0 / 8) % 2 == 1, false)
    } else {
        3
    }
}

/// Whether some instruction form starts with the byte.
pub open spec fn is_opcode(b: u8) -> bool {
    is_imm_to_r_m(b) || is_r_m_to_r_m(b) || is_imm_to_acc(b) || is_jump(b) || is_short_mov(b)
}

/// Whether the second byte of an encoding lacks a valid operation field:
/// only an arithmetic operation with an immediate can, as a move ignores the
/// field.
pub open spec fn lacks_operation(b0: u8, b1: u8) -> bool {
    is_imm_to_r_m(b0) && !is_mov_imm_to_r_m(b0) && BinOpCode::spec_find(reg_field(b1)) is None
}

/// The length of a decoded instruction is that of its encoding: between two
/// and six bytes, all of which the sequence holds.
pub proof fn lemma_decode_length(s: Seq<u8>)
    ensures
        spec_decode(s) matches Ok((_, n)) ==> n == encoding_len(s[0], s[1]) && 2 <= n <= 6 && n
            <= s.len(),
{
    if s.len() >= 2 {
        assert(s.skip(1).len() == s.len() - 1);
        assert(s.skip(2).len() == s.len() - 2);
        assert(s.skip(1)[0] == s[1]);
        if is_imm_to_r_m(s[0]) {
            let w = w_bit(s[0]);
            if let Ok((_, m)) = spec_r_m_loc(mod_field(s[1]), r_m_field(s[1]), w, s.skip(2)) {
                assert(s.skip(2 + m as int).len() == s.len() - 2 - m);
            }
        }
    } else if s.len() == 1 {
        assert(s.skip(1).len() == 0);
    }
}

/// Exactly when a byte sequence starts with an instruction, and which error
/// it gives when it does not: the end of the image comes first where fewer
/// than two bytes are there, then an unknown first byte, then an unknown
/// operation, then the end of the image again where the encoding is longer
/// than the sequence.
pub proof fn lemma_decode_outcome(s: Seq<u8>)
    ensures
        spec_decode(s) is Ok <==> s.len() >= 2 && is_opcode(s[0]) && !lacks_operation(s[0], s[1])
            && s.len() >= encoding_len(s[0], s[1]),
        spec_decode(s) == Err::<(Instruction, nat), DecodeError>(DecodeError::UnknownOpcode(s[0]))
            <==> s.len() >= 1 && !is_opcode(s[0]),
        forall|b: u8|
            spec_decode(s) == Err::<(Instruction, nat), DecodeError>(
                DecodeError::UnknownOperation(b),
            ) <==> s.len() >= 2 && lacks_operation(s[0], s[1]) && b == s[1],
{
    if s.len() >= 2 {
        assert(s.skip(1).len() == s.len() - 1);
        assert(s.skip(2).len() == s.len() - 2);
        assert(s.skip(1)[0] == s[1]);
        if is_imm_to_r_m(s[0]) {
            let w = w_bit(s[0]);
            if let Ok((_, m)) = spec_r_m_loc(mod_field(s[1]), r_m_field(s[1]), w, s.skip(2)) {
                assert(s.skip(2 + m as int).len() == s.len() - 2 - m);
            }
        }
    } else if s.len() == 1 {
        assert(s.skip(1).len() == 0);
    }
}

/// Every instruction of the image in order, up to its end or to the first
/// place where no instruction can be read, and the error met there.
pub open spec fn spec_decode_all(s: Seq<u8>) -> (Seq<Instruction>, Option<DecodeError>)
    decreases s.len(),
    via spec_decode_all_decreases
{
    if s.len() == 0 {
        (Seq::empty(), None)
    } else {
        match spec_decode(s) {
            Err(e) => (Seq::empty(), Some(e)),
            Ok((inst, n)) => {
                let (rest, error) = spec_decode_all(s.skip(n as int));
                (seq![inst] + rest, error)
            },
        }
    }
}

#[via_fn]
proof fn spec_decode_all_decreases(s: Seq<u8>) {
    lemma_decode_length(s);
}

} // verus!

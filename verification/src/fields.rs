//! The field parsers: integers, register fields and MOD/R/M operands read
//! from the byte cursor.

use vstd::prelude::*;
use crate::cursor::CountingIterator;
use crate::model::{EABase, Loc, Reg, RegIndex, Region, EAC};

verus! {

/// Why a byte sequence is not an instruction.
#[derive(Clone, Copy, Debug, PartialEq, Eq, Structural)]
pub enum DecodeError {
    /// The image ended where a byte of the instruction was expected.
    UnexpectedEnd,
    /// No instruction form starts with this byte.
    UnknownOpcode(u8),
    /// The operation field of this second byte selects no operation.
    UnknownOperation(u8),
}

impl DecodeError {
    /// How many bytes the cursor has handed out when a parser that started
    /// with `available` bytes reports the error: all of them when it ran dry,
    /// the two bytes that hold the operation field, or none.
    pub open spec fn taken(self, available: nat) -> nat {
        match self {
            DecodeError::UnexpectedEnd => available,
            DecodeError::UnknownOperation(_) => 2,
            DecodeError::UnknownOpcode(_) => 0,
        }
    }
}

/// What a parser makes of the remaining bytes: a value and the number of
/// bytes it is made of, or the reason why there is none.
pub type Parsed<T> = Result<(T, nat), DecodeError>;

/// The parser that started at `before` returned `r` and left the cursor at
/// `now`, as `expected` asks.
pub open spec fn parsed<T>(
    before: CountingIterator,
    now: CountingIterator,
    r: Result<T, DecodeError>,
    expected: Parsed<T>,
) -> bool {
    match expected {
        Ok((v, n)) => r == Ok::<T, DecodeError>(v) && now.after(before, n),
        Err(e) => r == Err::<T, DecodeError>(e) && now.after(
            before,
            e.taken(before.remaining().len()),
        ),
    }
}

/// The 16-bit word with the given low and high bytes.
pub open spec fn word_le(lo: u8, hi: u8) -> u16 {
    (lo + 256 * hi) as u16
}

/// The byte read as a two's complement number.
pub open spec fn signed_byte(b: u8) -> i8 {
    if b < 128 {
        b as i8
    } else {
        (b - 256) as i8
    }
}

/// The word read as a two's complement number.
pub open spec fn signed_word(w: u16) -> i16 {
    if w < 32768 {
        w as i16
    } else {
        (w - 65536) as i16
    }
}

/// The two's complement encoding of a signed word.
pub open spec fn unsigned_word(i: i16) -> u16 {
    if i >= 0 {
        i as u16
    } else {
        (i + 65536) as u16
    }
}

/// One byte.
pub open spec fn spec_u8(s: Seq<u8>) -> Parsed<u8> {
    if s.len() >= 1 {
        Ok((s[0], 1))
    } else {
        Err(DecodeError::UnexpectedEnd)
    }
}

/// One byte, signed.
pub open spec fn spec_i8(s: Seq<u8>) -> Parsed<i8> {
    if s.len() >= 1 {
        Ok((signed_byte(s[0]), 1))
    } else {
        Err(DecodeError::UnexpectedEnd)
    }
}

/// Two bytes, low byte first.
pub open spec fn spec_u16(s: Seq<u8>) -> Parsed<u16> {
    if s.len() >= 2 {
        Ok((word_le(s[0], s[1]), 2))
    } else {
        Err(DecodeError::UnexpectedEnd)
    }
}

/// Two bytes, low byte first, signed.
pub open spec fn spec_i16(s: Seq<u8>) -> Parsed<i16> {
    if s.len() >= 2 {
        Ok((signed_word(word_le(s[0], s[1])), 2))
    } else {
        Err(DecodeError::UnexpectedEnd)
    }
}

/// Takes one byte.
pub fn consume_u8(bs: &mut CountingIterator) -> (r: Result<u8, DecodeError>)
    ensures
        parsed(*old(bs), *final(bs), r, spec_u8(old(bs).remaining())),
{
    match bs.next() {
        Some(b) => Ok(b),
        None => {
            assert(bs.remaining().skip(0) =~= bs.remaining());
            Err(DecodeError::UnexpectedEnd)
        },
    }
}

/// Takes one byte and reads it as a signed number.
pub fn consume_i8(bs: &mut CountingIterator) -> (r: Result<i8, DecodeError>)
    ensures
        parsed(*old(bs), *final(bs), r, spec_i8(old(bs).remaining())),
{
    match consume_u8(bs) {
        Ok(b) => Ok(
            if b < 128 {
                b as i8
            } else {
                (b as i16 - 256) as i8
            },
        ),
        Err(e) => Err(e),
    }
}

/// Takes two bytes and reads them as a word, low byte first.
pub fn consume_u16(bs: &mut CountingIterator) -> (r: Result<u16, DecodeError>)
    ensures
        parsed(*old(bs), *final(bs), r, spec_u16(old(bs).remaining())),
{
    let ghost start = *bs;
    let lo = match consume_u8(bs) {
        Ok(b) => b,
        Err(e) => {
            return Err(e);
        },
    };
    let ghost middle = *bs;
    let hi = match consume_u8(bs) {
        Ok(b) => b,
        Err(e) => {
            proof {
                bs.lemma_after_after(middle, start, 1, 0);
            }
            return Err(e);
        },
    };
    proof {
        bs.lemma_after_after(middle, start, 1, 1);
    }
    Ok(lo as u16 + 256 * (hi as u16))
}

/// Takes two bytes and reads them as a signed word, low byte first.
pub fn consume_i16(bs: &mut CountingIterator) -> (r: Result<i16, DecodeError>)
    ensures
        parsed(*old(bs), *final(bs), r, spec_i16(old(bs).remaining())),
{
    match consume_u16(bs) {
        Ok(w) => Ok(
            if w < 32768 {
                w as i16
            } else {
                (w as i32 - 65536) as i16
            },
        ),
        Err(e) => Err(e),
    }
}

/// The register that a 3-bit register field names, by operand width.
pub open spec fn spec_reg_field(reg: u8, w: bool) -> RegIndex {
    if w {
        RegIndex {
            region: Region::Xtended,
            register: if reg == 0 {
                Reg::A
            } else if reg == 1 {
                Reg::C
            } else if reg == 2 {
                Reg::D
            } else if reg == 3 {
                Reg::B
            } else if reg == 4 {
                Reg::SP
            } else if reg == 5 {
                Reg::BP
            } else if reg == 6 {
                Reg::SI
            } else {
                Reg::DI
            },
        }
    } else {
        RegIndex {
            region: if reg < 4 {
                Region::Low
            } else {
                Region::High
            },
            register: if reg % 4 == 0 {
                Reg::A
            } else if reg % 4 == 1 {
                Reg::C
            } else if reg % 4 == 2 {
                Reg::D
            } else {
                Reg::B
            },
        }
    }
}

/// The register that a 3-bit register field names: a byte register when `w`
/// is clear, a word register when it is set.
pub fn parse_reg_field(reg: u8, w: bool) -> (r: RegIndex)
    requires
        reg < 8,
    ensures
        r == spec_reg_field(reg, w),
        r.wf(),
        r.register != Reg::IP,
{
    match (reg, w) {
        (0b000, _) => RegIndex::acc(w),
        (0b001, false) => RegIndex::new(Reg::C, Region::Low),
        (0b001, true) => RegIndex::new(Reg::C, Region::Xtended),
        (0b010, false) => RegIndex::new(Reg::D, Region::Low),
        (0b010, true) => RegIndex::new(Reg::D, Region::Xtended),
        (0b011, false) => RegIndex::new(Reg::B, Region::Low),
        (0b011, true) => RegIndex::new(Reg::B, Region::Xtended),
        (0b100, false) => RegIndex::new(Reg::A, Region::High),
        (0b100, true) => RegIndex::new(Reg::SP, Region::Xtended),
        (0b101, false) => RegIndex::new(Reg::C, Region::High),
        (0b101, true) => RegIndex::new(Reg::BP, Region::Xtended),
        (0b110, false) => RegIndex::new(Reg::D, Region::High),
        (0b110, true) => RegIndex::new(Reg::SI, Region::Xtended),
        (_, false) => RegIndex::new(Reg::B, Region::High),
        (_, true) => RegIndex::new(Reg::DI, Region::Xtended),
    }
}

/// The base that a 3-bit R/M field names when the operand is in memory and
/// is no direct address.
pub open spec fn spec_base(r_m_bits: u8) -> EABase {
    if r_m_bits == 0 {
        EABase::BxSi
    } else if r_m_bits == 1 {
        EABase::BxDi
    } else if r_m_bits == 2 {
        EABase::BpSi
    } else if r_m_bits == 3 {
        EABase::BpDi
    } else if r_m_bits == 4 {
        EABase::Si
    } else if r_m_bits == 5 {
        EABase::Di
    } else if r_m_bits == 6 {
        EABase::Bp
    } else {
        EABase::Bx
    }
}

/// The memory operand that a 3-bit R/M field names, with the displacement
/// that was read for it. The field 110 without a displacement is a direct
/// address and has no base.
pub fn parse_r_m_field(r_m_bits: u8, displacement: Option<i16>) -> (e: EAC)
    requires
        r_m_bits < 8,
        r_m_bits == 6 ==> displacement is Some,
    ensures
        e == (EAC { base: spec_base(r_m_bits), displacement }),
        e.wf(),
{
    match r_m_bits {
        0b000 => EAC::new(EABase::BxSi, displacement),
        0b001 => EAC::new(EABase::BxDi, displacement),
        0b010 => EAC::new(EABase::BpSi, displacement),
        0b011 => EAC::new(EABase::BpDi, displacement),
        0b100 => EAC::new(EABase::Si, displacement),
        0b101 => EAC::new(EABase::Di, displacement),
        0b110 => EAC::new(EABase::Bp, displacement),
        _ => EAC::new(EABase::Bx, displacement),
    }
}

/// The memory operand at a fixed address.
pub fn parse_r_m_direct_addr(direct_addr: u16) -> (e: EAC)
    ensures
        e == (EAC { base: EABase::DirectAddr(direct_addr), displacement: None }),
        e.wf(),
{
    EAC::new(EABase::DirectAddr(direct_addr), None)
}

/// The operand that the MOD and R/M fields select, read from the bytes that
/// follow them: a register for MOD 11, a direct address for MOD 00 with R/M
/// 110, else a base with no displacement (MOD 00), a sign-extended byte (MOD
/// 01) or a word (MOD 10).
pub open spec fn spec_r_m_loc(mod_bits: u8, r_m_bits: u8, w: bool, s: Seq<u8>) -> Parsed<Loc> {
    if mod_bits == 0b11 {
        Ok((Loc::Reg(spec_reg_field(r_m_bits, w)), 0))
    } else if mod_bits == 0b00 && r_m_bits == 0b110 {
        match spec_u16(s) {
            Ok((addr, n)) => Ok(
                (Loc::EAC(EAC { base: EABase::DirectAddr(addr), displacement: None }), n),
            ),
            Err(e) => Err(e),
        }
    } else if mod_bits == 0b00 {
        Ok((Loc::EAC(EAC { base: spec_base(r_m_bits), displacement: None }), 0))
    } else if mod_bits == 0b01 {
        match spec_i8(s) {
            Ok((d, n)) => Ok(
                (Loc::EAC(EAC { base: spec_base(r_m_bits), displacement: Some(d as i16) }), n),
            ),
            Err(e) => Err(e),
        }
    } else {
        match spec_i16(s) {
            Ok((d, n)) => Ok(
                (Loc::EAC(EAC { base: spec_base(r_m_bits), displacement: Some(d) }), n),
            ),
            Err(e) => Err(e),
        }
    }
}

/// Reads the operand that the MOD and R/M fields select.
pub fn parse_r_m_loc(bs: &mut CountingIterator, mod_bits: u8, r_m_bits: u8, w: bool) -> (r: Result<
    Loc,
    DecodeError,
>)
    requires
        mod_bits < 4,
        r_m_bits < 8,
    ensures
        parsed(*old(bs), *final(bs), r, spec_r_m_loc(mod_bits, r_m_bits, w, old(bs).remaining())),
        r matches Ok(loc) ==> loc.wf() && !loc.is_immediate(),
{
    if mod_bits == 0b11 {
        assert(bs.remaining().skip(0) =~= bs.remaining());
        Ok(Loc::Reg(parse_reg_field(r_m_bits, w)))
    } else if mod_bits == 0b00 && r_m_bits == 0b110 {
        match consume_u16(bs) {
            Ok(addr) => Ok(Loc::EAC(parse_r_m_direct_addr(addr))),
            Err(e) => Err(e),
        }
    } else if mod_bits == 0b00 {
        assert(bs.remaining().skip(0) =~= bs.remaining());
        Ok(Loc::EAC(parse_r_m_field(r_m_bits, None)))
    } else if mod_bits == 0b01 {
        match consume_i8(bs) {
            Ok(d) => Ok(Loc::EAC(parse_r_m_field(r_m_bits, Some(d as i16)))),
            Err(e) => Err(e),
        }
    } else {
        match consume_i16(bs) {
            Ok(d) => Ok(Loc::EAC(parse_r_m_field(r_m_bits, Some(d)))),
            Err(e) => Err(e),
        }
    }
}

} // verus!

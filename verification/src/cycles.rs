//! The cycle estimator: the clock cycles of an instruction by its operation
//! and the shape of its operands.

use vstd::prelude::*;
use crate::model::{EABase, Instruction, Loc, Reg, EAC};

verus! {

/// The cycles that computing an effective address costs: 6 for a direct
/// address; 5 for one register, 9 with a displacement that is not zero; 7 for
/// BP+DI and BX+SI, 8 for BP+SI and BX+DI, and 4 more with any displacement.
pub open spec fn spec_estimate_eac(eac: EAC) -> nat {
    match eac.base {
        EABase::DirectAddr(_) => 6,
        EABase::Bx | EABase::Bp | EABase::Si | EABase::Di => match eac.displacement {
            None => 5,
            Some(d) => if d == 0 {
                5
            } else {
                9
            },
        },
        EABase::BpDi | EABase::BxSi => if eac.displacement is None {
            7
        } else {
            11
        },
        EABase::BpSi | EABase::BxDi => if eac.displacement is None {
            8
        } else {
            12
        },
    }
}

/// The cycles of a move by the shape of its operands; `None` where the
/// table has no entry. A move between the accumulator and memory costs 10
/// whatever the address.
pub open spec fn spec_estimate_mov(dst: Loc, src: Loc) -> Option<nat> {
    match (dst, src) {
        (Loc::EAC(e), Loc::Reg(r)) => Some(
            if r.register == Reg::A {
                10
            } else {
                9 + spec_estimate_eac(e)
            },
        ),
        (Loc::Reg(r), Loc::EAC(e)) => Some(
            if r.register == Reg::A {
                10
            } else {
                8 + spec_estimate_eac(e)
            },
        ),
        (Loc::Reg(_), Loc::Reg(_)) => Some(2),
        (Loc::Reg(_), Loc::Imm8(_)) => Some(4),
        (Loc::Reg(_), Loc::Imm16(_)) => Some(4),
        (Loc::EAC(e), Loc::Imm8(_)) => Some(10 + spec_estimate_eac(e)),
        (Loc::EAC(e), Loc::Imm16(_)) => Some(10 + spec_estimate_eac(e)),
        _ => None,
    }
}

/// The cycles of an addition, subtraction or comparison by the shape of its
/// operands; `None` where the table has no entry.
pub open spec fn spec_estimate_arithmetic(dst: Loc, src: Loc) -> Option<nat> {
    match (dst, src) {
        (Loc::Reg(_), Loc::Reg(_)) => Some(3),
        (Loc::Reg(_), Loc::EAC(e)) => Some(9 + spec_estimate_eac(e)),
        (Loc::EAC(e), Loc::Reg(_)) => Some(16 + spec_estimate_eac(e)),
        (Loc::Reg(_), Loc::Imm8(_)) => Some(4),
        (Loc::Reg(_), Loc::Imm16(_)) => Some(4),
        (Loc::EAC(e), Loc::Imm8(_)) => Some(17 + spec_estimate_eac(e)),
        (Loc::EAC(e), Loc::Imm16(_)) => Some(17 + spec_estimate_eac(e)),
        _ => None,
    }
}

/// The estimated cycles of an instruction; `None` for a jump and for a shape
/// of operands that the table does not hold.
pub open spec fn spec_estimate(inst: Instruction) -> Option<nat> {
    match inst {
        Instruction::Mov(m) => spec_estimate_mov(m.dst, m.src),
        Instruction::Add(a) => spec_estimate_arithmetic(a.dst, a.src),
        Instruction::Sub(s) => spec_estimate_arithmetic(s.dst, s.src),
        Instruction::Cmp(c) => spec_estimate_arithmetic(c.dst, c.src),
        Instruction::Jump(_) => None,
    }
}

/// The largest estimate of the table.
pub const MAX_ESTIMATE: usize = 29;

/// The cycles that computing an effective address costs.
pub fn estimate_8086_eac(eac: EAC) -> (n: usize)
    requires
        eac.wf(),
    ensures
        n == spec_estimate_eac(eac),
        5 <= n <= 12,
{
    match (eac.base, eac.displacement) {
        (EABase::DirectAddr(_), _) => 6,
        (EABase::Bx | EABase::Bp | EABase::Si | EABase::Di, None | Some(0)) => 5,
        (EABase::Bx | EABase::Bp | EABase::Si | EABase::Di, Some(_)) => 9,
        (EABase::BpDi | EABase::BxSi, None) => 7,
        (EABase::BpSi | EABase::BxDi, None) => 8,
        (EABase::BpDi, Some(_)) => 11,
        (EABase::BxSi, Some(_)) => 11,
        (EABase::BpSi, Some(_)) => 12,
        (EABase::BxDi, Some(_)) => 12,
    }
}

fn estimate_mov(dst: Loc, src: Loc) -> (r: Option<usize>)
    requires
        dst.wf(),
        src.wf(),
    ensures
        r matches Some(n) ==> spec_estimate_mov(dst, src) == Some(n as nat) && n <= MAX_ESTIMATE,
        r is None ==> spec_estimate_mov(dst, src) is None,
{
    match (dst, src) {
        (Loc::EAC(eac), Loc::Reg(reg)) => {
            if reg.is_acc() {
                Some(10)
            } else {
                Some(9 + estimate_8086_eac(eac))
            }
        },
        (Loc::Reg(reg), Loc::EAC(eac)) => {
            if reg.is_acc() {
                Some(10)
            } else {
                Some(8 + estimate_8086_eac(eac))
            }
        },
        (Loc::Reg(_), Loc::Reg(_)) => Some(2),
        (Loc::Reg(_), Loc::Imm8(_) | Loc::Imm16(_)) => Some(4),
        (Loc::EAC(eac), Loc::Imm8(_) | Loc::Imm16(_)) => Some(10 + estimate_8086_eac(eac)),
        _ => None,
    }
}

fn estimate_arithmetic(dst: Loc, src: Loc) -> (r: Option<usize>)
    requires
        dst.wf(),
        src.wf(),
    ensures
        r matches Some(n) ==> spec_estimate_arithmetic(dst, src) == Some(n as nat) && n
            <= MAX_ESTIMATE,
        r is None ==> spec_estimate_arithmetic(dst, src) is None,
{
    match (dst, src) {
        (Loc::Reg(_), Loc::Reg(_)) => Some(3),
        (Loc::Reg(_), Loc::EAC(eac)) => Some(9 + estimate_8086_eac(eac)),
        (Loc::EAC(eac), Loc::Reg(_)) => Some(16 + estimate_8086_eac(eac)),
        (Loc::Reg(_), Loc::Imm8(_) | Loc::Imm16(_)) => Some(4),
        (Loc::EAC(eac), Loc::Imm8(_) | Loc::Imm16(_)) => Some(17 + estimate_8086_eac(eac)),
        _ => None,
    }
}

/// The estimated cycles of an instruction; `None` for a jump and for a shape
/// of operands that the table does not hold.
pub fn estimate_8086(inst: &Instruction) -> (r: Option<usize>)
    requires
        inst.wf(),
    ensures
        r matches Some(n) ==> spec_estimate(*inst) == Some(n as nat) && n <= MAX_ESTIMATE,
        r is None ==> spec_estimate(*inst) is None,
{
    match inst {
        Instruction::Mov(mov) => estimate_mov(mov.dst, mov.src),
        Instruction::Add(add) => estimate_arithmetic(add.dst, add.src),
        Instruction::Sub(sub) => estimate_arithmetic(sub.dst, sub.src),
        Instruction::Cmp(compare) => estimate_arithmetic(compare.dst, compare.src),
        Instruction::Jump(_) => None,
    }
}

} // verus!

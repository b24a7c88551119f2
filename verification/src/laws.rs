//! Laws of the decoder and of the simulator, each stated over the
//! specification functions that the contracts of the library use.

use vstd::prelude::*;
use crate::cpu::{spec_check_parity, wrap16, CpuView, Flag, FLAG_COUNT};
use crate::decode::{
    is_acc_to_mem, is_imm_to_acc, is_imm_to_r_m, is_imm_to_reg, is_jump, is_mem_to_acc,
    is_r_m_to_r_m, is_short_mov, lemma_decode_length, mod_field, r_m_field, reg_field,
    spec_decode, spec_decode_all, spec_imm_to_acc, spec_imm_to_r_m, spec_immediate,
    spec_r_m_to_r_m, w_bit,
};
use crate::driver::{next_ip, Step};
use crate::fields::{spec_r_m_loc, spec_reg_field, DecodeError};
use crate::model::{Add, Cmp, Instruction, JumpType, Loc, Mov, Reg, Sub};

verus! {

/// An instruction is decoded from its own bytes alone: a sequence that
/// starts with the same bytes as far as the instruction reaches gives the same
/// instruction and the same length, whatever follows in it and however much of
/// what follows has been read already.
pub proof fn lemma_decode_prefix(s: Seq<u8>, t: Seq<u8>)
    requires
        spec_decode(s) matches Ok((_, n)) && t.len() >= n && t.take(n as int) == s.take(n as int),
    ensures
        spec_decode(t) == spec_decode(s),
{
    lemma_decode_length(s);
    let n = spec_decode(s)->Ok_0.1;
    assert forall|i: int| 0 <= i < n implies t[i] == s[i] by {
        assert(t.take(n as int)[i] == s.take(n as int)[i]);
    }
    assert(t[0] == s[0] && t[1] == s[1]);
    assert(s.skip(1).len() == s.len() - 1 && t.skip(1).len() == t.len() - 1);
    assert(s.skip(2).len() == s.len() - 2 && t.skip(2).len() == t.len() - 2);
    if is_imm_to_r_m(s[0]) {
        let w = w_bit(s[0]);
        let m = spec_r_m_loc(mod_field(s[1]), r_m_field(s[1]), w, s.skip(2))->Ok_0.1;
        assert(s.skip(2 + m as int).len() == s.len() - 2 - m);
        assert(t.skip(2 + m as int).len() == t.len() - 2 - m);
    }
}

/// Decoding does not depend on how the image is handed over: an image in
/// two parts, of which the first is a whole number of instructions, decodes to
/// the instructions of the first part followed by what the second part decodes
/// to.
pub proof fn lemma_decode_all_split(a: Seq<u8>, b: Seq<u8>)
    requires
        spec_decode_all(a).1 is None,
    ensures
        spec_decode_all(a + b) == (
            spec_decode_all(a).0 + spec_decode_all(b).0,
            spec_decode_all(b).1,
        ),
    decreases a.len(),
{
    if a.len() == 0 {
        assert(a + b =~= b);
        assert(Seq::<Instruction>::empty() + spec_decode_all(b).0 =~= spec_decode_all(b).0);
    } else {
        lemma_decode_length(a);
        let (inst, n) = spec_decode(a)->Ok_0;
        assert((a + b).take(n as int) =~= a.take(n as int));
        lemma_decode_prefix(a, a + b);
        assert((a + b).skip(n as int) =~= a.skip(n as int) + b);
        lemma_decode_all_split(a.skip(n as int), b);
        let rest = spec_decode_all(a.skip(n as int)).0;
        assert(seq![inst] + (rest + spec_decode_all(b).0) =~= (seq![inst] + rest)
            + spec_decode_all(b).0);
    }
}

/// The operand that a register field names is well formed and is not the
/// instruction pointer.
pub proof fn lemma_reg_field_wf(reg: u8, w: bool)
    ensures
        spec_reg_field(reg, w).wf(),
        spec_reg_field(reg, w).register != Reg::IP,
{
}

/// The operand that the MOD and R/M fields select is well formed, can be
/// stored to, and is not the instruction pointer.
pub proof fn lemma_r_m_loc_wf(mod_bits: u8, r_m_bits: u8, w: bool, s: Seq<u8>)
    ensures
        spec_r_m_loc(mod_bits, r_m_bits, w, s) matches Ok((loc, _)) ==> loc.wf()
            && !loc.is_immediate() && !loc.names(Reg::IP),
{
    lemma_reg_field_wf(r_m_bits, w);
}

/// No byte starts two instruction forms: the order in which the forms are
/// tried on a first byte does not change which one takes it.
pub proof fn lemma_forms_disjoint(b: u8)
    ensures
        !(is_imm_to_r_m(b) && is_r_m_to_r_m(b)),
        !(is_imm_to_r_m(b) && is_imm_to_acc(b)),
        !(is_imm_to_r_m(b) && is_jump(b)),
        !(is_imm_to_r_m(b) && is_short_mov(b)),
        !(is_r_m_to_r_m(b) && is_imm_to_acc(b)),
        !(is_r_m_to_r_m(b) && is_jump(b)),
        !(is_r_m_to_r_m(b) && is_short_mov(b)),
        !(is_imm_to_acc(b) && is_jump(b)),
        !(is_imm_to_acc(b) && is_short_mov(b)),
        !(is_jump(b) && is_short_mov(b)),
        !(is_imm_to_reg(b) && is_mem_to_acc(b)),
        !(is_imm_to_reg(b) && is_acc_to_mem(b)),
        !(is_mem_to_acc(b) && is_acc_to_mem(b)),
{
    if is_jump(b) {
        let t = JumpType::spec_find(b)->0;
        assert(t.opcode() == b);
    }
}

/// A decoded instruction is well formed, and none of its operands is the
/// instruction pointer.
pub proof fn lemma_decoded_wf(s: Seq<u8>)
    ensures
        spec_decode(s) matches Ok((inst, _)) ==> inst.wf() && !inst.names(Reg::IP),
{
    if s.len() >= 2 {
        let w = w_bit(s[0]);
        lemma_r_m_loc_wf(mod_field(s[1]), r_m_field(s[1]), w, s.skip(2));
        lemma_reg_field_wf(reg_field(s[1]), w);
        lemma_reg_field_wf(r_m_field(s[0]), (s[0] / 8) % 2 == 1);
        if is_imm_to_r_m(s[0]) {
            assert(spec_decode(s) == spec_imm_to_r_m(s));
        } else if is_r_m_to_r_m(s[0]) {
            assert(spec_decode(s) == spec_r_m_to_r_m(s));
        } else if is_imm_to_acc(s[0]) {
            assert(spec_decode(s) == spec_imm_to_acc(s));
        }
    }
}

/// A byte that is extended to a word with its sign keeps its value below
/// 128 and gets a high byte of all ones from there on.
pub proof fn lemma_sign_extension(b: u8)
    ensures
        spec_immediate(true, true, seq![b]) == Ok::<(Loc, nat), DecodeError>(
            (
                Loc::Imm16(
                    if b < 128 {
                        b as u16
                    } else {
                        (0xFF00 + b) as u16
                    },
                ),
                1,
            ),
        ),
{
}

/// The flags that an arithmetic result predicts, from the integer result of
/// the operation before it is reduced to 16 bits: the low byte of the reduced
/// result has an even number of bits set; the reduced result is zero; its
/// highest bit is set; the integer result does not fit in 16 bits.
pub open spec fn predicted_flags(flags: Seq<bool>, result: int) -> bool {
    &&& flags.len() == FLAG_COUNT
    &&& flags[Flag::Parity.spec_index()] == spec_check_parity(wrap16(result))
    &&& flags[Flag::Zero.spec_index()] == (result % 65536 == 0)
    &&& flags[Flag::Sign.spec_index()] == (result % 65536 >= 32768)
    &&& flags[Flag::Carry.spec_index()] == !(0 <= result < 65536)
}

/// After an addition the four flags are those that the sum of the two
/// operands predicts, and the destination holds the sum reduced to 16 bits.
pub proof fn lemma_add_flags(cpu: CpuView, add: Add)
    requires
        cpu.wf(),
        cpu.source(add.src) is Ok,
        cpu.source(add.dst) is Ok,
    ensures
        cpu.exec(Instruction::Add(add)) matches Ok((next, offset)) && offset == 0
            && predicted_flags(next.flags, cpu.source(add.dst)->Ok_0 + cpu.source(add.src)->Ok_0),
{
}

/// After a subtraction the four flags are those that the difference of the
/// destination and the source predicts.
pub proof fn lemma_sub_flags(cpu: CpuView, sub: Sub)
    requires
        cpu.wf(),
        cpu.source(sub.src) is Ok,
        cpu.source(sub.dst) is Ok,
    ensures
        cpu.exec(Instruction::Sub(sub)) matches Ok((next, offset)) && offset == 0
            && predicted_flags(next.flags, cpu.source(sub.dst)->Ok_0 - cpu.source(sub.src)->Ok_0),
{
}

/// After a comparison the four flags are those of the subtraction, and
/// neither a register nor memory has changed.
pub proof fn lemma_cmp_flags(cpu: CpuView, compare: Cmp)
    requires
        cpu.wf(),
        cpu.source(compare.src) is Ok,
        cpu.source(compare.dst) is Ok,
    ensures
        cpu.exec(Instruction::Cmp(compare)) matches Ok((next, offset)) && offset == 0
            && predicted_flags(
            next.flags,
            cpu.source(compare.dst)->Ok_0 - cpu.source(compare.src)->Ok_0,
        ) && next.registers == cpu.registers && next.memory == cpu.memory,
{
}

/// A move touches no flag.
pub proof fn lemma_mov_keeps_flags(cpu: CpuView, mov: Mov)
    ensures
        cpu.exec(Instruction::Mov(mov)) matches Ok((next, _)) ==> next.flags == cpu.flags,
{
}

/// Executing an instruction keeps the sizes of the machine.
pub proof fn lemma_exec_wf(cpu: CpuView, inst: Instruction)
    requires
        cpu.wf(),
    ensures
        cpu.exec(inst) matches Ok((next, _)) ==> next.wf(),
{
}

/// Executing an instruction that does not name the instruction pointer
/// leaves the pointer where it is.
pub proof fn lemma_exec_keeps_ip(cpu: CpuView, inst: Instruction)
    requires
        cpu.wf(),
        !inst.names(Reg::IP),
    ensures
        cpu.exec(inst) matches Ok((next, _)) ==> next.reg(Reg::IP) == cpu.reg(Reg::IP),
{
}

/// Only a jump that is taken returns a displacement, and it returns its own.
pub proof fn lemma_exec_offset(cpu: CpuView, inst: Instruction)
    ensures
        cpu.exec(inst) matches Ok((_, offset)) ==> offset == match inst {
            Instruction::Jump(j) => if cpu.branch(j.typ)->Ok_0.1 {
                j.offset
            } else {
                0i8
            },
            _ => 0i8,
        },
{
}

/// A step that executes an instruction is made of its parts: the
/// instruction that is decoded at the instruction pointer lies within the
/// image, it is executed, and the pointer is set from where the execution left
/// it.
pub proof fn lemma_step_executed(cpu: CpuView, image: Seq<u8>)
    requires
        cpu.step(image).1 is Executed,
    ensures
        ({
            let ip = cpu.reg(Reg::IP);
            let (inst, n) = spec_decode(image.skip(ip as int))->Ok_0;
            let (executed, offset) = cpu.exec(inst)->Ok_0;
            &&& ip < image.len()
            &&& spec_decode(image.skip(ip as int)) is Ok
            &&& cpu.exec(inst) is Ok
            &&& ip + n <= image.len()
            &&& cpu.step(image) == (
                executed.with_reg(Reg::IP, next_ip(executed.reg(Reg::IP), n as int, offset)),
                Step::Executed(inst),
            )
        }),
{
    lemma_decode_length(image.skip(cpu.reg(Reg::IP) as int));
}

/// Setting the instruction pointer from where it is stores the sum of the
/// pointer, the length and the displacement, reduced to 16 bits: the sum
/// itself wherever that is a 16-bit address.
pub proof fn lemma_next_ip(state: CpuView, n: int, offset: i8)
    requires
        state.wf(),
    ensures
        ({
            let ip = state.reg(Reg::IP);
            let after = state.with_reg(Reg::IP, next_ip(ip, n, offset)).reg(Reg::IP);
            &&& after == wrap16(ip + n + offset)
            &&& 0 <= ip + n + offset < 65536 ==> after == ip + n + offset
        }),
{
}

/// How the instruction pointer moves in a step that executes an instruction
/// of `n` bytes at `ip`: to `ip + n` after anything but a jump, and after a
/// jump that is not taken; to `ip + n + offset` after a taken jump; each
/// reduced to 16 bits, and so exactly that number wherever it is a 16-bit
/// address.
pub proof fn lemma_step_ip(cpu: CpuView, image: Seq<u8>)
    requires
        cpu.wf(),
        cpu.step(image).1 is Executed,
    ensures
        ({
            let ip = cpu.reg(Reg::IP);
            let (inst, n) = spec_decode(image.skip(ip as int))->Ok_0;
            let offset = cpu.exec(inst)->Ok_0.1;
            let after = cpu.step(image).0.reg(Reg::IP);
            &&& cpu.step(image).1 == Step::Executed(inst)
            &&& offset == match inst {
                Instruction::Jump(j) => if cpu.branch(j.typ)->Ok_0.1 {
                    j.offset
                } else {
                    0i8
                },
                _ => 0i8,
            }
            &&& after == wrap16(ip + n + offset)
            &&& 0 <= ip + n + offset < 65536 ==> after == ip + n + offset
        }),
{
    let ip = cpu.reg(Reg::IP);
    let (inst, n) = spec_decode(image.skip(ip as int))->Ok_0;
    let (executed, offset) = cpu.exec(inst)->Ok_0;
    lemma_step_executed(cpu, image);
    assert(!inst.names(Reg::IP)) by {
        lemma_decoded_wf(image.skip(ip as int));
    }
    assert(executed.reg(Reg::IP) == ip) by {
        lemma_exec_keeps_ip(cpu, inst);
    }
    assert(executed.wf()) by {
        lemma_exec_wf(cpu, inst);
    }
    lemma_exec_offset(cpu, inst);
    lemma_next_ip(executed, n as int, offset);
}

/// A step that does not execute an instruction changes nothing.
pub proof fn lemma_step_failure_keeps_state(cpu: CpuView, image: Seq<u8>)
    ensures
        !(cpu.step(image).1 is Executed) ==> cpu.step(image).0 == cpu,
{
}

} // verus!

//! The simulated processor: nine word registers, four flags and 64 KiB of
//! flat memory, and the execution of one instruction on them.

use vstd::prelude::*;
use crate::fields::word_le;
use crate::model::{EABase, Instruction, JumpType, Loc, Reg, EAC, REG_COUNT};

verus! {

/// The number of bytes of memory.
pub const MEMORY_SIZE: usize = 65536;

/// The number of flags.
pub const FLAG_COUNT: usize = 4;

/// The condition flags that the arithmetic operations set.
#[derive(Clone, Copy, Debug, PartialEq, Eq, Structural)]
pub enum Flag {
    Parity,
    Zero,
    Carry,
    Sign,
}

impl Flag {
    /// The number of flags.
    pub fn num() -> (n: usize)
        ensures
            n == FLAG_COUNT,
    {
        FLAG_COUNT
    }

    /// The slot of the flag in the flag file.
    pub open spec fn spec_index(self) -> int {
        match self {
            Flag::Parity => 0,
            Flag::Zero => 1,
            Flag::Carry => 2,
            Flag::Sign => 3,
        }
    }

    /// The slot of the flag in the flag file.
    pub fn index(self) -> (i: usize)
        ensures
            i == self.spec_index(),
            i < FLAG_COUNT,
    {
        match self {
            Flag::Parity => 0,
            Flag::Zero => 1,
            Flag::Carry => 2,
            Flag::Sign => 3,
        }
    }

    /// The letter that stands for the flag in a register dump.
    pub fn format(&self) -> (c: char)
        ensures
            c == match *self {
                Flag::Parity => 'P',
                Flag::Zero => 'Z',
                Flag::Carry => 'C',
                Flag::Sign => 'S',
            },
    {
        match self {
            Flag::Parity => 'P',
            Flag::Zero => 'Z',
            Flag::Carry => 'C',
            Flag::Sign => 'S',
        }
    }
}

/// Why an instruction cannot be executed.
#[derive(Clone, Copy, Debug, PartialEq, Eq, Structural)]
pub enum ExecError {
    /// The jump's condition reads the overflow flag, which the machine does
    /// not keep.
    NotImplemented,
    /// The word of a memory operand does not lie within the memory.
    OutOfBounds,
}

/// The integer reduced to 16 bits.
pub open spec fn wrap16(x: int) -> u16 {
    (x % 65536) as u16
}

/// The low byte of a word.
pub open spec fn low_byte(v: u16) -> u8 {
    (v % 256) as u8
}

/// The high byte of a word.
pub open spec fn high_byte(v: u16) -> u8 {
    (v / 256) as u8
}

/// The number of bits that are set among the low eight bits of `n`.
pub open spec fn ones_in_low_byte(n: u16) -> int {
    (n % 2) + (n / 2 % 2) + (n / 4 % 2) + (n / 8 % 2) + (n / 16 % 2) + (n / 32 % 2) + (n / 64 % 2)
        + (n / 128 % 2)
}

/// The parity flag of a result: set when the low byte has an even number of
/// bits set.
pub open spec fn spec_check_parity(n: u16) -> bool {
    ones_in_low_byte(n) % 2 == 0
}

/// The sign flag of a result: its highest bit.
pub open spec fn spec_check_sign(n: u16) -> bool {
    n >= 0x8000
}

/// Whether the low byte of `n` has an even number of bits set.
pub fn check_parity(n: u16) -> (b: bool)
    ensures
        b == spec_check_parity(n),
{
    let lsb = n & 0xff;
    assert((n & 0xff) & 1 == n % 2 && (((n & 0xff) >> 1) & 1) == n / 2 % 2 && (((n & 0xff) >> 2)
        & 1) == n / 4 % 2 && (((n & 0xff) >> 3) & 1) == n / 8 % 2 && (((n & 0xff) >> 4) & 1) == n
        / 16 % 2 && (((n & 0xff) >> 5) & 1) == n / 32 % 2 && (((n & 0xff) >> 6) & 1) == n / 64 % 2
        && (((n & 0xff) >> 7) & 1) == n / 128 % 2) by (bit_vector);
    let ones = (lsb & 1) + ((lsb >> 1) & 1) + ((lsb >> 2) & 1) + ((lsb >> 3) & 1) + ((lsb >> 4) & 1)
        + ((lsb >> 5) & 1) + ((lsb >> 6) & 1) + ((lsb >> 7) & 1);
    ones % 2 == 0
}

/// Whether the highest bit of `n` is set.
pub fn check_sign(n: u16) -> (b: bool)
    ensures
        b == spec_check_sign(n),
{
    n >= 0x8000
}

/// The state of the processor as mathematical sequences: the registers by
/// their slots, the flags by theirs, and the bytes of memory by address.
pub struct CpuView {
    pub registers: Seq<u16>,
    pub flags: Seq<bool>,
    pub memory: Seq<u8>,
}

impl CpuView {
    /// The sequences have the sizes of the machine.
    pub open spec fn wf(self) -> bool {
        &&& self.registers.len() == REG_COUNT
        &&& self.flags.len() == FLAG_COUNT
        &&& self.memory.len() == MEMORY_SIZE
    }

    /// The value of a register.
    pub open spec fn reg(self, r: Reg) -> u16 {
        self.registers[r.spec_index()]
    }

    /// The value of a flag.
    pub open spec fn flag(self, f: Flag) -> bool {
        self.flags[f.spec_index()]
    }

    /// The state with one register replaced.
    pub open spec fn with_reg(self, r: Reg, v: u16) -> CpuView {
        CpuView { registers: self.registers.update(r.spec_index(), v), ..self }
    }

    /// The state with one flag replaced.
    pub open spec fn with_flag(self, f: Flag, v: bool) -> CpuView {
        CpuView { flags: self.flags.update(f.spec_index(), v), ..self }
    }

    /// The value that a base stands for: the fixed address, a register, or
    /// the sum of two registers reduced to 16 bits.
    pub open spec fn base_value(self, base: EABase) -> u16 {
        match base {
            EABase::DirectAddr(n) => n,
            EABase::Bx => self.reg(Reg::B),
            EABase::Bp => self.reg(Reg::BP),
            EABase::Si => self.reg(Reg::SI),
            EABase::Di => self.reg(Reg::DI),
            EABase::BxSi => wrap16(self.reg(Reg::B) + self.reg(Reg::SI)),
            EABase::BxDi => wrap16(self.reg(Reg::B) + self.reg(Reg::DI)),
            EABase::BpSi => wrap16(self.reg(Reg::BP) + self.reg(Reg::SI)),
            EABase::BpDi => wrap16(self.reg(Reg::BP) + self.reg(Reg::DI)),
        }
    }

    /// The address of a memory operand: the value of its base plus its
    /// displacement.
    pub open spec fn address(self, eac: EAC) -> int {
        self.base_value(eac.base) + match eac.displacement {
            Some(d) => d as int,
            None => 0,
        }
    }

    /// Whether the two bytes of a word at address `a` lie within the memory.
    pub open spec fn holds_word(a: int) -> bool {
        0 <= a && a + 2 <= MEMORY_SIZE
    }

    /// The word at address `a`, low byte first.
    pub open spec fn read_word(self, a: int) -> u16 {
        word_le(self.memory[a], self.memory[a + 1])
    }

    /// The state with the word at address `a` replaced, low byte first.
    pub open spec fn write_word(self, a: int, v: u16) -> CpuView {
        CpuView { memory: self.memory.update(a, low_byte(v)).update(a + 1, high_byte(v)), ..self }
    }

    /// The value of a source operand: a register's word whatever the region,
    /// an immediate (a byte extended with zeros), or the word in memory at the
    /// operand's address.
    pub open spec fn source(self, loc: Loc) -> Result<u16, ExecError> {
        match loc {
            Loc::Imm8(n) => Ok(n as u16),
            Loc::Imm16(n) => Ok(n),
            Loc::Reg(reg) => Ok(self.reg(reg.register)),
            Loc::EAC(eac) => if Self::holds_word(self.address(eac)) {
                Ok(self.read_word(self.address(eac)))
            } else {
                Err(ExecError::OutOfBounds)
            },
        }
    }

    /// The state after `val` is stored to a destination operand. An
    /// immediate is no destination, and the state is kept.
    pub open spec fn store(self, loc: Loc, val: u16) -> Result<CpuView, ExecError> {
        match loc {
            Loc::Reg(reg) => Ok(self.with_reg(reg.register, val)),
            Loc::EAC(eac) => if Self::holds_word(self.address(eac)) {
                Ok(self.write_word(self.address(eac), val))
            } else {
                Err(ExecError::OutOfBounds)
            },
            Loc::Imm8(_) => Ok(self),
            Loc::Imm16(_) => Ok(self),
        }
    }

    /// The state with the four flags set from the result of an arithmetic
    /// operation and from whether it carried or borrowed.
    pub open spec fn with_result_flags(self, result: u16, carry: bool) -> CpuView {
        self.with_flag(Flag::Parity, spec_check_parity(result)).with_flag(
            Flag::Carry,
            carry,
        ).with_flag(Flag::Zero, result == 0).with_flag(Flag::Sign, spec_check_sign(result))
    }

    /// What a jump decides on the state: the state after the jump has
    /// counted CX down, where it is a loop, and whether the jump is taken. The
    /// jumps that read the overflow flag are not implemented.
    pub open spec fn branch(self, typ: JumpType) -> Result<(CpuView, bool), ExecError> {
        let counted = self.with_reg(Reg::C, wrap16(self.reg(Reg::C) - 1));
        match typ {
            JumpType::Jo => Err(ExecError::NotImplemented),
            JumpType::Jno => Err(ExecError::NotImplemented),
            JumpType::Jl => Err(ExecError::NotImplemented),
            JumpType::Jnl => Err(ExecError::NotImplemented),
            JumpType::Jle => Err(ExecError::NotImplemented),
            JumpType::Jg => Err(ExecError::NotImplemented),
            JumpType::Jb => Ok((self, self.flag(Flag::Carry))),
            JumpType::Jnb => Ok((self, !self.flag(Flag::Carry))),
            JumpType::Je => Ok((self, self.flag(Flag::Zero))),
            JumpType::Jnz => Ok((self, !self.flag(Flag::Zero))),
            JumpType::Jbe => Ok((self, self.flag(Flag::Carry) || self.flag(Flag::Zero))),
            JumpType::Ja => Ok((self, !self.flag(Flag::Carry) && !self.flag(Flag::Zero))),
            JumpType::Js => Ok((self, self.flag(Flag::Sign))),
            JumpType::Jns => Ok((self, !self.flag(Flag::Sign))),
            JumpType::Jp => Ok((self, self.flag(Flag::Parity))),
            JumpType::Jnp => Ok((self, !self.flag(Flag::Parity))),
            JumpType::Loopnz => Ok(
                (counted, counted.reg(Reg::C) != 0 && !self.flag(Flag::Zero)),
            ),
            JumpType::Loopz => Ok((counted, counted.reg(Reg::C) != 0 && self.flag(Flag::Zero))),
            JumpType::Loop => Ok((counted, counted.reg(Reg::C) != 0)),
            JumpType::Jcxz => Ok((self, self.reg(Reg::C) == 0)),
        }
    }

    /// The state after an addition to `dst`: the sum reduced to 16 bits is
    /// stored, and the flags tell of it; the carry is set when the sum did not
    /// fit.
    pub open spec fn add_to(self, dst: Loc, src: Loc) -> Result<CpuView, ExecError> {
        match (self.source(src), self.source(dst)) {
            (Ok(s), Ok(d)) => match self.store(dst, wrap16(d + s)) {
                Ok(next) => Ok(next.with_result_flags(wrap16(d + s), d + s > 0xFFFF)),
                Err(e) => Err(e),
            },
            (Err(e), _) => Err(e),
            (_, Err(e)) => Err(e),
        }
    }

    /// The state after a subtraction from `dst`, or after a comparison, which
    /// does not keep the difference: the flags tell of the difference reduced to
    /// 16 bits; the carry is set when the subtraction borrowed.
    pub open spec fn sub_from(self, dst: Loc, src: Loc, keep: bool) -> Result<
        CpuView,
        ExecError,
    > {
        match (self.source(src), self.source(dst)) {
            (Ok(s), Ok(d)) => match (if keep {
                self.store(dst, wrap16(d - s))
            } else {
                Ok(self)
            }) {
                Ok(next) => Ok(next.with_result_flags(wrap16(d - s), d < s)),
                Err(e) => Err(e),
            },
            (Err(e), _) => Err(e),
            (_, Err(e)) => Err(e),
        }
    }

    /// The state after one instruction, and the displacement of the jump
    /// that it takes: zero for any instruction but a jump whose condition
    /// holds.
    pub open spec fn exec(self, inst: Instruction) -> Result<(CpuView, i8), ExecError> {
        match inst {
            Instruction::Mov(m) => match self.source(m.src) {
                Ok(v) => match self.store(m.dst, v) {
                    Ok(next) => Ok((next, 0i8)),
                    Err(e) => Err(e),
                },
                Err(e) => Err(e),
            },
            Instruction::Add(a) => match self.add_to(a.dst, a.src) {
                Ok(next) => Ok((next, 0i8)),
                Err(e) => Err(e),
            },
            Instruction::Sub(s) => match self.sub_from(s.dst, s.src, true) {
                Ok(next) => Ok((next, 0i8)),
                Err(e) => Err(e),
            },
            Instruction::Cmp(c) => match self.sub_from(c.dst, c.src, false) {
                Ok(next) => Ok((next, 0i8)),
                Err(e) => Err(e),
            },
            Instruction::Jump(j) => match self.branch(j.typ) {
                Ok((next, taken)) => Ok(
                    (
                        next,
                        if taken {
                            j.offset
                        } else {
                            0i8
                        },
                    ),
                ),
                Err(e) => Err(e),
            },
        }
    }
}

/// The processor.
pub struct CPU {
    /// The memory, by address.
    pub memory: [u8; 65536],
    /// The registers, by `Reg::index`.
    pub registers: [u16; 9],
    /// The flags, by `Flag::index`.
    pub flags: [bool; 4],
}

impl View for CPU {
    type V = CpuView;

    open spec fn view(&self) -> CpuView {
        CpuView { registers: self.registers@, flags: self.flags@, memory: self.memory@ }
    }
}

impl CPU {
    /// A processor with every register, flag and byte of memory at zero.
    pub fn new() -> (cpu: Self)
        ensures
            cpu@.wf(),
            forall|i: int| 0 <= i < REG_COUNT ==> cpu@.registers[i] == 0,
            forall|i: int| 0 <= i < FLAG_COUNT ==> !cpu@.flags[i],
            forall|i: int| 0 <= i < MEMORY_SIZE ==> cpu@.memory[i] == 0,
    {
        CPU { memory: [0; 65536], registers: [0; 9], flags: [false; 4] }
    }

    /// The value of a flag.
    pub fn get_flag(&self, flag: Flag) -> (b: bool)
        ensures
            b == self@.flag(flag),
    {
        self.flags[flag.index()]
    }

    /// Sets a flag.
    pub fn set_flag(&mut self, flag: Flag, val: bool)
        ensures
            final(self)@ == old(self)@.with_flag(flag, val),
    {
        self.flags[flag.index()] = val;
    }

    /// The value that a base stands for.
    pub fn get_offset(&self, base: EABase) -> (v: u16)
        ensures
            v == self@.base_value(base),
    {
        match base {
            EABase::DirectAddr(n) => n,
            EABase::Bx => self.registers[Reg::B.index()],
            EABase::Bp => self.registers[Reg::BP.index()],
            EABase::Si => self.registers[Reg::SI.index()],
            EABase::Di => self.registers[Reg::DI.index()],
            EABase::BxSi => add16(self.registers[Reg::B.index()], self.registers[Reg::SI.index()]).0,
            EABase::BxDi => add16(self.registers[Reg::B.index()], self.registers[Reg::DI.index()]).0,
            EABase::BpSi => add16(self.registers[Reg::BP.index()], self.registers[Reg::SI.index()]).0,
            EABase::BpDi => add16(self.registers[Reg::BP.index()], self.registers[Reg::DI.index()]).0,
        }
    }

    /// The address of a memory operand, where its word lies within the memory.
    fn word_address(&self, eac: EAC) -> (r: Result<usize, ExecError>)
        ensures
            match r {
                Ok(a) => CpuView::holds_word(self@.address(eac)) && a == self@.address(eac),
                Err(e) => !CpuView::holds_word(self@.address(eac)) && e == ExecError::OutOfBounds,
            },
    {
        let base: i32 = self.get_offset(eac.base) as i32;
        let displacement: i32 = match eac.displacement {
            Some(d) => d as i32,
            None => 0,
        };
        let offset: i32 = base + displacement;
        if 0 <= offset && offset <= 65534 {
            Ok(offset as usize)
        } else {
            Err(ExecError::OutOfBounds)
        }
    }

    /// The value of a source operand.
    pub fn get_src(&self, loc: Loc) -> (r: Result<u16, ExecError>)
        ensures
            r == self@.source(loc),
    {
        match loc {
            Loc::Imm8(n) => Ok(n as u16),
            Loc::Imm16(n) => Ok(n),
            Loc::Reg(reg) => Ok(self.registers[reg.register.index()]),
            Loc::EAC(eac) => match self.word_address(eac) {
                Ok(offset) => Ok(
                    self.memory[offset] as u16 + 256 * (self.memory[offset + 1] as u16),
                ),
                Err(e) => Err(e),
            },
        }
    }

    /// Stores `val` to a destination operand; on an error nothing changes.
    pub fn set_dest(&mut self, loc: Loc, val: u16) -> (r: Result<(), ExecError>)
        requires
            !loc.is_immediate(),
        ensures
            match old(self)@.store(loc, val) {
                Ok(next) => r is Ok && final(self)@ == next,
                Err(e) => r == Err::<(), ExecError>(e) && final(self)@ == old(self)@,
            },
    {
        match loc {
            Loc::Reg(reg) => {
                self.registers[reg.register.index()] = val;
                Ok(())
            },
            Loc::EAC(eac) => match self.word_address(eac) {
                Ok(offset) => {
                    self.memory[offset] = (val % 256) as u8;
                    self.memory[offset + 1] = (val / 256) as u8;
                    Ok(())
                },
                Err(e) => Err(e),
            },
            Loc::Imm8(_) => Ok(()),
            Loc::Imm16(_) => Ok(()),
        }
    }

    /// Sets the four flags from the result of an arithmetic operation.
    fn set_result_flags(&mut self, result: u16, carry: bool)
        ensures
            final(self)@ == old(self)@.with_result_flags(result, carry),
    {
        self.set_flag(Flag::Parity, check_parity(result));
        self.set_flag(Flag::Carry, carry);
        self.set_flag(Flag::Zero, result == 0);
        self.set_flag(Flag::Sign, check_sign(result));
    }

    /// Counts CX down by one, around zero.
    fn count_down(&mut self) -> (cx: u16)
        ensures
            final(self)@ == old(self)@.with_reg(Reg::C, wrap16(old(self)@.reg(Reg::C) - 1)),
            cx == final(self)@.reg(Reg::C),
    {
        let cx = self.registers[Reg::C.index()];
        let next: u16 = if cx == 0 {
            0xFFFF
        } else {
            cx - 1
        };
        self.registers[Reg::C.index()] = next;
        next
    }

    /// Decides a jump: counts CX down where the jump is a loop, and says
    /// whether the jump is taken.
    fn decide(&mut self, typ: JumpType) -> (r: Result<bool, ExecError>)
        ensures
            match old(self)@.branch(typ) {
                Ok((next, taken)) => r == Ok::<bool, ExecError>(taken) && final(self)@ == next,
                Err(e) => r == Err::<bool, ExecError>(e) && final(self)@ == old(self)@,
            },
    {
        match typ {
            JumpType::Jo | JumpType::Jno | JumpType::Jl | JumpType::Jnl | JumpType::Jle
            | JumpType::Jg => Err(ExecError::NotImplemented),
            JumpType::Jb => Ok(self.get_flag(Flag::Carry)),
            JumpType::Jnb => Ok(!self.get_flag(Flag::Carry)),
            JumpType::Je => Ok(self.get_flag(Flag::Zero)),
            JumpType::Jnz => Ok(!self.get_flag(Flag::Zero)),
            JumpType::Jbe => Ok(self.get_flag(Flag::Carry) || self.get_flag(Flag::Zero)),
            JumpType::Ja => Ok(!self.get_flag(Flag::Carry) && !self.get_flag(Flag::Zero)),
            JumpType::Js => Ok(self.get_flag(Flag::Sign)),
            JumpType::Jns => Ok(!self.get_flag(Flag::Sign)),
            JumpType::Jp => Ok(self.get_flag(Flag::Parity)),
            JumpType::Jnp => Ok(!self.get_flag(Flag::Parity)),
            JumpType::Loopnz => {
                let cx = self.count_down();
                Ok(cx != 0 && !self.get_flag(Flag::Zero))
            },
            JumpType::Loopz => {
                let cx = self.count_down();
                Ok(cx != 0 && self.get_flag(Flag::Zero))
            },
            JumpType::Loop => {
                let cx = self.count_down();
                Ok(cx != 0)
            },
            JumpType::Jcxz => Ok(self.registers[Reg::C.index()] == 0),
        }
    }

    /// Adds the source to the destination and sets the flags.
    fn add_to(&mut self, dst: Loc, src: Loc) -> (r: Result<(), ExecError>)
        requires
            !dst.is_immediate(),
        ensures
            match old(self)@.add_to(dst, src) {
                Ok(next) => r is Ok && final(self)@ == next,
                Err(e) => r == Err::<(), ExecError>(e) && final(self)@ == old(self)@,
            },
    {
        let s = match self.get_src(src) {
            Ok(v) => v,
            Err(e) => {
                return Err(e);
            },
        };
        let d = match self.get_src(dst) {
            Ok(v) => v,
            Err(e) => {
                return Err(e);
            },
        };
        let (sum, carry) = add16(d, s);
        match self.set_dest(dst, sum) {
            Ok(()) => {},
            Err(e) => {
                return Err(e);
            },
        }
        assert(old(self)@.store(dst, sum) == Ok::<CpuView, ExecError>(self@));
        self.set_result_flags(sum, carry);
        Ok(())
    }

    /// Subtracts the source from the destination and sets the flags; the
    /// difference is stored only where `keep` is set.
    fn sub_from(&mut self, dst: Loc, src: Loc, keep: bool) -> (r: Result<(), ExecError>)
        requires
            keep ==> !dst.is_immediate(),
        ensures
            match old(self)@.sub_from(dst, src, keep) {
                Ok(next) => r is Ok && final(self)@ == next,
                Err(e) => r == Err::<(), ExecError>(e) && final(self)@ == old(self)@,
            },
    {
        let s = match self.get_src(src) {
            Ok(v) => v,
            Err(e) => {
                return Err(e);
            },
        };
        let d = match self.get_src(dst) {
            Ok(v) => v,
            Err(e) => {
                return Err(e);
            },
        };
        let (diff, borrow) = sub16(d, s);
        if keep {
            match self.set_dest(dst, diff) {
                Ok(()) => {},
                Err(e) => {
                    return Err(e);
                },
            }
            assert(old(self)@.store(dst, diff) == Ok::<CpuView, ExecError>(self@));
        }
        self.set_result_flags(diff, borrow);
        Ok(())
    }

    /// Executes one instruction and returns the displacement of the jump
    /// that it takes, zero where it takes none. On an error nothing changes.
    /// The instruction pointer is left to the caller.
    pub fn exec(&mut self, inst: Instruction) -> (r: Result<i8, ExecError>)
        requires
            inst.writable(),
        ensures
            match old(self)@.exec(inst) {
                Ok((next, offset)) => r == Ok::<i8, ExecError>(offset) && final(self)@ == next,
                Err(e) => r == Err::<i8, ExecError>(e) && final(self)@ == old(self)@,
            },
    {
        match inst {
            Instruction::Mov(mov) => {
                let src = match self.get_src(mov.src) {
                    Ok(v) => v,
                    Err(e) => {
                        return Err(e);
                    },
                };
                match self.set_dest(mov.dst, src) {
                    Ok(()) => Ok(0),
                    Err(e) => Err(e),
                }
            },
            Instruction::Jump(jump) => {
                match self.decide(jump.typ) {
                    Ok(should_jump) => Ok(
                        if should_jump {
                            jump.offset
                        } else {
                            0
                        },
                    ),
                    Err(e) => Err(e),
                }
            },
            Instruction::Add(add) => {
                match self.add_to(add.dst, add.src) {
                    Ok(()) => Ok(0),
                    Err(e) => Err(e),
                }
            },
            Instruction::Sub(sub) => {
                match self.sub_from(sub.dst, sub.src, true) {
                    Ok(()) => Ok(0),
                    Err(e) => Err(e),
                }
            },
            Instruction::Cmp(compare) => {
                match self.sub_from(compare.dst, compare.src, false) {
                    Ok(()) => Ok(0),
                    Err(e) => Err(e),
                }
            },
        }
    }

    /// The instruction pointer.
    pub fn ip(&self) -> (v: u16)
        ensures
            v == self@.reg(Reg::IP),
    {
        self.registers[Reg::IP.index()]
    }

    /// Sets the instruction pointer.
    pub fn set_ip(&mut self, ip: u16)
        ensures
            final(self)@ == old(self)@.with_reg(Reg::IP, ip),
    {
        self.registers[Reg::IP.index()] = ip;
    }
}

/// The sum of two words reduced to 16 bits, and whether it did not fit.
fn add16(a: u16, b: u16) -> (r: (u16, bool))
    ensures
        r.0 == wrap16(a + b),
        r.1 == (a + b > 0xFFFF),
{
    let total: u32 = a as u32 + b as u32;
    if total > 0xFFFF {
        ((total - 0x1_0000) as u16, true)
    } else {
        (total as u16, false)
    }
}

/// The difference of two words reduced to 16 bits, and whether it borrowed.
fn sub16(a: u16, b: u16) -> (r: (u16, bool))
    ensures
        r.0 == wrap16(a - b),
        r.1 == (a < b),
{
    if a < b {
        ((a as u32 + 0x1_0000 - b as u32) as u16, true)
    } else {
        (a - b, false)
    }
}

} // verus!

//! The instruction model: registers, operand locations and the five
//! instruction variants.

use vstd::prelude::*;

verus! {

/// The number of architectural registers, the instruction pointer included.
pub const REG_COUNT: usize = 9;

/// The part of a register that an operand names.
#[derive(Clone, Copy, Debug, PartialEq, Eq, Structural)]
pub enum Region {
    /// The whole 16-bit register.
    Xtended,
    /// The low byte.
    Low,
    /// The high byte.
    High,
}

/// The storage identity of a register.
#[derive(Clone, Copy, Debug, PartialEq, Eq, Structural)]
pub enum Reg {
    A,
    B,
    C,
    D,
    DI,
    SI,
    SP,
    BP,
    IP,
}

impl Reg {
    /// The number of registers.
    pub fn num() -> (n: usize)
        ensures
            n == REG_COUNT,
    {
        REG_COUNT
    }

    /// The slot of the register in the register file.
    pub open spec fn spec_index(self) -> int {
        match self {
            Reg::A => 0,
            Reg::B => 1,
            Reg::C => 2,
            Reg::D => 3,
            Reg::DI => 4,
            Reg::SI => 5,
            Reg::SP => 6,
            Reg::BP => 7,
            Reg::IP => 8,
        }
    }

    /// Whether the register has byte halves that can be named on their own.
    pub open spec fn has_halves(self) -> bool {
        self == Reg::A || self == Reg::B || self == Reg::C || self == Reg::D
    }

    /// The slot of the register in the register file.
    pub fn index(self) -> (i: usize)
        ensures
            i == self.spec_index(),
            i < REG_COUNT,
    {
        match self {
            Reg::A => 0,
            Reg::B => 1,
            Reg::C => 2,
            Reg::D => 3,
            Reg::DI => 4,
            Reg::SI => 5,
            Reg::SP => 6,
            Reg::BP => 7,
            Reg::IP => 8,
        }
    }
}

/// A register operand: which register, and which part of it the text names.
///
/// The region only affects how the operand is printed; the simulator reads
/// and writes the whole register whatever the region.
#[derive(Clone, Copy, Debug, PartialEq, Eq, Structural)]
pub struct RegIndex {
    pub region: Region,
    pub register: Reg,
}

impl RegIndex {
    /// Only A, B, C and D have byte halves.
    pub open spec fn wf(self) -> bool {
        self.region == Region::Xtended || self.register.has_halves()
    }

    /// The mnemonic of the operand, in upper case.
    pub open spec fn mnemonic(self) -> Seq<char> {
        match (self.register, self.region) {
            (Reg::A, Region::Low) => "AL"@,
            (Reg::A, Region::High) => "AH"@,
            (Reg::A, Region::Xtended) => "AX"@,
            (Reg::B, Region::Low) => "BL"@,
            (Reg::B, Region::High) => "BH"@,
            (Reg::B, Region::Xtended) => "BX"@,
            (Reg::C, Region::Low) => "CL"@,
            (Reg::C, Region::High) => "CH"@,
            (Reg::C, Region::Xtended) => "CX"@,
            (Reg::D, Region::Low) => "DL"@,
            (Reg::D, Region::High) => "DH"@,
            (Reg::D, Region::Xtended) => "DX"@,
            (Reg::DI, _) => "DI"@,
            (Reg::SI, _) => "SI"@,
            (Reg::SP, _) => "SP"@,
            (Reg::BP, _) => "BP"@,
            (Reg::IP, _) => "IP"@,
        }
    }

    /// A register operand from its two parts.
    pub fn new(register: Reg, region: Region) -> (r: Self)
        ensures
            r == (RegIndex { region, register }),
    {
        RegIndex { region, register }
    }

    /// Whether the operand is well formed.
    pub fn is_wf(&self) -> (b: bool)
        ensures
            b == self.wf(),
    {
        match (self.region, self.register) {
            (Region::Xtended, _) => true,
            (_, Reg::A) | (_, Reg::B) | (_, Reg::C) | (_, Reg::D) => true,
            _ => false,
        }
    }

    /// The whole 16-bit register.
    pub fn word(register: Reg) -> (r: Self)
        ensures
            r == (RegIndex { region: Region::Xtended, register }),
            r.wf(),
    {
        RegIndex { region: Region::Xtended, register }
    }

    /// The accumulator: AX when `w` is set, AL otherwise.
    pub open spec fn spec_acc(w: bool) -> Self {
        RegIndex { region: if w { Region::Xtended } else { Region::Low }, register: Reg::A }
    }

    /// The accumulator: AX when `w` is set, AL otherwise.
    pub fn acc(w: bool) -> (r: Self)
        ensures
            r == Self::spec_acc(w),
            r.wf(),
    {
        if w {
            RegIndex { region: Region::Xtended, register: Reg::A }
        } else {
            RegIndex { region: Region::Low, register: Reg::A }
        }
    }

    /// Whether the operand is the accumulator, in any of its regions.
    pub fn is_acc(&self) -> (b: bool)
        ensures
            b == (self.register == Reg::A),
    {
        match self.register {
            Reg::A => true,
            _ => false,
        }
    }

    /// The mnemonic of the operand, in upper case.
    pub fn to_asm(&self) -> (s: &'static str)
        ensures
            s@ == self.mnemonic(),
    {
        match (self.register, self.region) {
            (Reg::A, Region::Low) => "AL",
            (Reg::A, Region::High) => "AH",
            (Reg::A, Region::Xtended) => "AX",
            (Reg::B, Region::Low) => "BL",
            (Reg::B, Region::High) => "BH",
            (Reg::B, Region::Xtended) => "BX",
            (Reg::C, Region::Low) => "CL",
            (Reg::C, Region::High) => "CH",
            (Reg::C, Region::Xtended) => "CX",
            (Reg::D, Region::Low) => "DL",
            (Reg::D, Region::High) => "DH",
            (Reg::D, Region::Xtended) => "DX",
            (Reg::DI, _) => "DI",
            (Reg::SI, _) => "SI",
            (Reg::SP, _) => "SP",
            (Reg::BP, _) => "BP",
            (Reg::IP, _) => "IP",
        }
    }
}

/// The registers, or the fixed address, that a memory operand starts from.
#[derive(Clone, Copy, Debug, PartialEq, Eq, Structural)]
pub enum EABase {
    BxSi,
    BxDi,
    BpSi,
    BpDi,
    Si,
    Di,
    DirectAddr(u16),
    Bx,
    Bp,
}

/// An effective address calculation: a base and an optional signed displacement.
#[derive(Clone, Copy, Debug, PartialEq, Eq, Structural)]
pub struct EAC {
    pub base: EABase,
    pub displacement: Option<i16>,
}

impl EAC {
    /// A direct address never carries a displacement.
    pub open spec fn wf(self) -> bool {
        self.base is DirectAddr ==> self.displacement is None
    }

    /// A memory operand from its two parts.
    pub fn new(base: EABase, displacement: Option<i16>) -> (e: Self)
        ensures
            e == (EAC { base, displacement }),
    {
        EAC { base, displacement }
    }

    /// Whether the operand is well formed.
    pub fn is_wf(&self) -> (b: bool)
        ensures
            b == self.wf(),
    {
        match (self.base, self.displacement) {
            (EABase::DirectAddr(_), Some(_)) => false,
            _ => true,
        }
    }
}

/// Where an operand lives.
#[derive(Clone, Copy, Debug, PartialEq, Eq, Structural)]
pub enum Loc {
    Reg(RegIndex),
    EAC(EAC),
    /// An 8-bit immediate; only ever a source.
    Imm8(u8),
    /// A 16-bit immediate; only ever a source.
    Imm16(u16),
}

impl Loc {
    /// Whether the operand is an immediate.
    pub open spec fn is_immediate(self) -> bool {
        self is Imm8 || self is Imm16
    }

    /// A register or memory operand is well formed in itself; an immediate
    /// always is.
    pub open spec fn wf(self) -> bool {
        match self {
            Loc::Reg(r) => r.wf(),
            Loc::EAC(e) => e.wf(),
            Loc::Imm8(_) => true,
            Loc::Imm16(_) => true,
        }
    }

    /// Whether the operand is well formed.
    pub fn is_wf(&self) -> (b: bool)
        ensures
            b == self.wf(),
    {
        match self {
            Loc::Reg(r) => r.is_wf(),
            Loc::EAC(e) => e.is_wf(),
            Loc::Imm8(_) => true,
            Loc::Imm16(_) => true,
        }
    }

    /// Whether the operand can be stored to: whether it is well formed and
    /// no immediate.
    fn is_destination(&self) -> (b: bool)
        ensures
            b == (self.wf() && !self.is_immediate()),
    {
        match self {
            Loc::Reg(r) => r.is_wf(),
            Loc::EAC(e) => e.is_wf(),
            Loc::Imm8(_) => false,
            Loc::Imm16(_) => false,
        }
    }
}

/// A move: the destination takes the value of the source.
#[derive(Clone, Copy, Debug, PartialEq, Eq, Structural)]
pub struct Mov {
    pub src: Loc,
    pub dst: Loc,
}

/// An addition of the source to the destination.
#[derive(Clone, Copy, Debug, PartialEq, Eq, Structural)]
pub struct Add {
    pub src: Loc,
    pub dst: Loc,
}

/// A subtraction of the source from the destination.
#[derive(Clone, Copy, Debug, PartialEq, Eq, Structural)]
pub struct Sub {
    pub src: Loc,
    pub dst: Loc,
}

/// A comparison: a subtraction that only sets the flags.
#[derive(Clone, Copy, Debug, PartialEq, Eq, Structural)]
pub struct Cmp {
    pub src: Loc,
    pub dst: Loc,
}

/// The conditional jumps and loop instructions.
#[derive(Clone, Copy, Debug, PartialEq, Eq, Structural)]
pub enum JumpType {
    Jnz,
    Je,
    Jl,
    Jle,
    Jb,
    Jbe,
    Jp,
    Jo,
    Js,
    Jnl,
    Jg,
    Jnb,
    Ja,
    Jnp,
    Jno,
    Jns,
    Loop,
    Loopz,
    Loopnz,
    Jcxz,
}

impl JumpType {
    /// The first byte of the jump's encoding.
    pub open spec fn opcode(self) -> u8 {
        match self {
            JumpType::Jo => 0x70,
            JumpType::Jno => 0x71,
            JumpType::Jb => 0x72,
            JumpType::Jnb => 0x73,
            JumpType::Je => 0x74,
            JumpType::Jnz => 0x75,
            JumpType::Jbe => 0x76,
            JumpType::Ja => 0x77,
            JumpType::Js => 0x78,
            JumpType::Jns => 0x79,
            JumpType::Jp => 0x7A,
            JumpType::Jnp => 0x7B,
            JumpType::Jl => 0x7C,
            JumpType::Jnl => 0x7D,
            JumpType::Jle => 0x7E,
            JumpType::Jg => 0x7F,
            JumpType::Loopnz => 0xE0,
            JumpType::Loopz => 0xE1,
            JumpType::Loop => 0xE2,
            JumpType::Jcxz => 0xE3,
        }
    }

    /// The jump that `inst` is the first byte of, if any.
    pub open spec fn spec_find(inst: u8) -> Option<JumpType> {
        if exists|t: JumpType| t.opcode() == inst {
            Some(choose|t: JumpType| t.opcode() == inst)
        } else {
            None
        }
    }

    /// The jump that `inst` is the first byte of, if any.
    pub fn find(inst: u8) -> (r: Option<JumpType>)
        ensures
            r == Self::spec_find(inst),
            r matches Some(t) ==> t.opcode() == inst,
            r is None ==> forall|t: JumpType| t.opcode() != inst,
    {
        let r = match inst {
            0x70 => Some(JumpType::Jo),
            0x71 => Some(JumpType::Jno),
            0x72 => Some(JumpType::Jb),
            0x73 => Some(JumpType::Jnb),
            0x74 => Some(JumpType::Je),
            0x75 => Some(JumpType::Jnz),
            0x76 => Some(JumpType::Jbe),
            0x77 => Some(JumpType::Ja),
            0x78 => Some(JumpType::Js),
            0x79 => Some(JumpType::Jns),
            0x7A => Some(JumpType::Jp),
            0x7B => Some(JumpType::Jnp),
            0x7C => Some(JumpType::Jl),
            0x7D => Some(JumpType::Jnl),
            0x7E => Some(JumpType::Jle),
            0x7F => Some(JumpType::Jg),
            0xE0 => Some(JumpType::Loopnz),
            0xE1 => Some(JumpType::Loopz),
            0xE2 => Some(JumpType::Loop),
            0xE3 => Some(JumpType::Jcxz),
            _ => None,
        };
        proof {
            Self::lemma_opcode_injective();
            if r is Some {
                assert(r->0.opcode() == inst);
            }
        }
        r
    }

    /// Two different jumps never share a first byte, so that each jump is
    /// found again from its own.
    pub proof fn lemma_opcode_injective()
        ensures
            forall|s: JumpType, t: JumpType| s.opcode() == t.opcode() ==> s == t,
            forall|t: JumpType| #[trigger] Self::spec_find(t.opcode()) == Some(t),
    {
    }
}

/// A conditional jump with its signed 8-bit displacement.
#[derive(Clone, Copy, Debug, PartialEq, Eq, Structural)]
pub struct Jump {
    pub typ: JumpType,
    pub offset: i8,
}

impl Jump {
    /// Every jump of the model is encoded in two bytes.
    pub fn instruction_size() -> (n: usize)
        ensures
            n == 2,
    {
        2
    }
}

/// A decoded instruction.
#[derive(Clone, Copy, Debug, PartialEq, Eq, Structural)]
pub enum Instruction {
    Mov(Mov),
    Jump(Jump),
    Add(Add),
    Sub(Sub),
    Cmp(Cmp),
}

impl Instruction {
    /// Operands are well formed, and no immediate is written to.
    pub open spec fn wf(self) -> bool {
        match self {
            Instruction::Mov(m) => m.src.wf() && m.dst.wf() && !m.dst.is_immediate(),
            Instruction::Add(a) => a.src.wf() && a.dst.wf() && !a.dst.is_immediate(),
            Instruction::Sub(s) => s.src.wf() && s.dst.wf() && !s.dst.is_immediate(),
            Instruction::Cmp(c) => c.src.wf() && c.dst.wf() && !c.dst.is_immediate(),
            Instruction::Jump(_) => true,
        }
    }

    /// Whether the instruction is well formed.
    pub fn is_wf(&self) -> (b: bool)
        ensures
            b == self.wf(),
    {
        match self {
            Instruction::Mov(m) => m.src.is_wf() && m.dst.is_destination(),
            Instruction::Add(a) => a.src.is_wf() && a.dst.is_destination(),
            Instruction::Sub(s) => s.src.is_wf() && s.dst.is_destination(),
            Instruction::Cmp(c) => c.src.is_wf() && c.dst.is_destination(),
            Instruction::Jump(_) => true,
        }
    }
}

impl Loc {
    /// Whether the operand is the register `r`, in any region.
    pub open spec fn names(self, r: Reg) -> bool {
        self matches Loc::Reg(reg) && reg.register == r
    }
}

impl Instruction {
    /// Whether an operand of the instruction is the register `r`.
    pub open spec fn names(self, r: Reg) -> bool {
        match self {
            Instruction::Mov(m) => m.src.names(r) || m.dst.names(r),
            Instruction::Add(a) => a.src.names(r) || a.dst.names(r),
            Instruction::Sub(s) => s.src.names(r) || s.dst.names(r),
            Instruction::Cmp(c) => c.src.names(r) || c.dst.names(r),
            Instruction::Jump(_) => false,
        }
    }

    /// The instruction stores to no immediate.
    pub open spec fn writable(self) -> bool {
        match self {
            Instruction::Mov(m) => !m.dst.is_immediate(),
            Instruction::Add(a) => !a.dst.is_immediate(),
            Instruction::Sub(s) => !s.dst.is_immediate(),
            Instruction::Cmp(_) => true,
            Instruction::Jump(_) => true,
        }
    }
}

/// The arithmetic operations that share their encodings.
#[derive(Clone, Copy, Debug, PartialEq, Eq, Structural)]
pub enum BinOpCode {
    Add,
    Sub,
    Cmp,
}

impl BinOpCode {
    /// The operation that a 3-bit operation field selects, if any.
    pub open spec fn spec_find(binop: u8) -> Option<BinOpCode> {
        if binop == 0b000 {
            Some(BinOpCode::Add)
        } else if binop == 0b101 {
            Some(BinOpCode::Sub)
        } else if binop == 0b111 {
            Some(BinOpCode::Cmp)
        } else {
            None
        }
    }

    /// The operation that a 3-bit operation field selects, if any.
    pub fn find(binop: u8) -> (r: Option<BinOpCode>)
        ensures
            r == Self::spec_find(binop),
    {
        match binop {
            0b000 => Some(BinOpCode::Add),
            0b101 => Some(BinOpCode::Sub),
            0b111 => Some(BinOpCode::Cmp),
            _ => None,
        }
    }
}

/// Which of the two-operand instructions an encoding stands for.
#[derive(Clone, Copy, Debug, PartialEq, Eq, Structural)]
pub enum BinopParams {
    Mov,
    Op(BinOpCode),
}

impl BinopParams {
    /// A move when `is_mov` is set, else the operation `code`.
    pub open spec fn spec_from(is_mov: bool, code: Option<BinOpCode>) -> BinopParams {
        if is_mov {
            BinopParams::Mov
        } else {
            BinopParams::Op(code->0)
        }
    }

    /// A move when `is_mov` is set, else the operation `code`.
    pub fn from(is_mov: bool, code: Option<BinOpCode>) -> (p: Self)
        requires
            is_mov || code is Some,
        ensures
            p == Self::spec_from(is_mov, code),
    {
        if is_mov {
            BinopParams::Mov
        } else {
            match code {
                Some(c) => BinopParams::Op(c),
                None => BinopParams::Mov,
            }
        }
    }
}

/// The instruction that `params` selects, on the two operands.
pub open spec fn spec_binop_to_instruction(params: BinopParams, src: Loc, dst: Loc) -> Instruction {
    match params {
        BinopParams::Mov => Instruction::Mov(Mov { src, dst }),
        BinopParams::Op(BinOpCode::Add) => Instruction::Add(Add { src, dst }),
        BinopParams::Op(BinOpCode::Sub) => Instruction::Sub(Sub { src, dst }),
        BinopParams::Op(BinOpCode::Cmp) => Instruction::Cmp(Cmp { src, dst }),
    }
}

/// The instruction that `params` selects, on the two operands.
pub fn binop_to_instruction(params: BinopParams, src: Loc, dst: Loc) -> (inst: Instruction)
    ensures
        inst == spec_binop_to_instruction(params, src, dst),
{
    match params {
        BinopParams::Mov => Instruction::Mov(Mov { src, dst }),
        BinopParams::Op(BinOpCode::Add) => Instruction::Add(Add { src, dst }),
        BinopParams::Op(BinOpCode::Sub) => Instruction::Sub(Sub { src, dst }),
        BinopParams::Op(BinOpCode::Cmp) => Instruction::Cmp(Cmp { src, dst }),
    }
}

} // verus!

//! The assembly printer: one line of lower-case NASM text per instruction.

use vstd::prelude::*;
use vstd::string::*;
use crate::model::{
    Add, BinopParams, Cmp, EABase, Instruction, Jump, JumpType, Loc, Mov, Reg, RegIndex, Region,
    Sub, EAC, spec_binop_to_instruction, binop_to_instruction,
};
use crate::text::{decimal, push_decimal};

verus! {

/// The lower-case form of an ASCII letter; any other character is kept.
pub open spec fn lower_char(c: char) -> char {
    if 'A' <= c && c <= 'Z' {
        ((c as u8) + 32) as char
    } else {
        c
    }
}

/// The text with each ASCII capital replaced by its lower-case letter.
pub open spec fn ascii_lowercase(s: Seq<char>) -> Seq<char> {
    Seq::new(s.len(), |i: int| lower_char(s[i]))
}

/// The text of a signed displacement after a base: nothing for zero, else
/// a sign between spaces and the magnitude.
pub open spec fn displacement_text(d: int) -> Seq<char> {
    if d > 0 {
        " + "@ + decimal(d as nat)
    } else if d < 0 {
        " - "@ + decimal((-d) as nat)
    } else {
        Seq::empty()
    }
}

/// The text of a jump target relative to the start of the instruction: `$+N`
/// for a target at or after it, `$-N` for a target before it.
pub open spec fn target_text(n: int) -> Seq<char> {
    if n >= 0 {
        "$+"@ + decimal(n as nat)
    } else {
        "$-"@ + decimal((-n) as nat)
    }
}

proof fn lemma_lowercase_pair(upper: Seq<char>, lower: Seq<char>)
    requires
        upper.len() == 2,
        lower.len() == 2,
        lower[0] == lower_char(upper[0]),
        lower[1] == lower_char(upper[1]),
    ensures
        lower == ascii_lowercase(upper),
{
    assert(lower =~= ascii_lowercase(upper));
}

impl RegIndex {
    /// The operand as it is printed: the mnemonic in lower case.
    pub open spec fn text(self) -> Seq<char> {
        ascii_lowercase(self.mnemonic())
    }

    /// The operand as it is printed: the mnemonic in lower case.
    pub fn lower(&self) -> (s: &'static str)
        ensures
            s@ == self.text(),
    {
        match (self.register, self.region) {
            (Reg::A, Region::Low) => {
                proof {
                    reveal_strlit("AL");
                    reveal_strlit("al");
                    lemma_lowercase_pair("AL"@, "al"@);
                }
                "al"
            },
            (Reg::A, Region::High) => {
                proof {
                    reveal_strlit("AH");
                    reveal_strlit("ah");
                    lemma_lowercase_pair("AH"@, "ah"@);
                }
                "ah"
            },
            (Reg::A, Region::Xtended) => {
                proof {
                    reveal_strlit("AX");
                    reveal_strlit("ax");
                    lemma_lowercase_pair("AX"@, "ax"@);
                }
                "ax"
            },
            (Reg::B, Region::Low) => {
                proof {
                    reveal_strlit("BL");
                    reveal_strlit("bl");
                    lemma_lowercase_pair("BL"@, "bl"@);
                }
                "bl"
            },
            (Reg::B, Region::High) => {
                proof {
                    reveal_strlit("BH");
                    reveal_strlit("bh");
                    lemma_lowercase_pair("BH"@, "bh"@);
                }
                "bh"
            },
            (Reg::B, Region::Xtended) => {
                proof {
                    reveal_strlit("BX");
                    reveal_strlit("bx");
                    lemma_lowercase_pair("BX"@, "bx"@);
                }
                "bx"
            },
            (Reg::C, Region::Low) => {
                proof {
                    reveal_strlit("CL");
                    reveal_strlit("cl");
                    lemma_lowercase_pair("CL"@, "cl"@);
                }
                "cl"
            },
            (Reg::C, Region::High) => {
                proof {
                    reveal_strlit("CH");
                    reveal_strlit("ch");
                    lemma_lowercase_pair("CH"@, "ch"@);
                }
                "ch"
            },
            (Reg::C, Region::Xtended) => {
                proof {
                    reveal_strlit("CX");
                    reveal_strlit("cx");
                    lemma_lowercase_pair("CX"@, "cx"@);
                }
                "cx"
            },
            (Reg::D, Region::Low) => {
                proof {
                    reveal_strlit("DL");
                    reveal_strlit("dl");
                    lemma_lowercase_pair("DL"@, "dl"@);
                }
                "dl"
            },
            (Reg::D, Region::High) => {
                proof {
                    reveal_strlit("DH");
                    reveal_strlit("dh");
                    lemma_lowercase_pair("DH"@, "dh"@);
                }
                "dh"
            },
            (Reg::D, Region::Xtended) => {
                proof {
                    reveal_strlit("DX");
                    reveal_strlit("dx");
                    lemma_lowercase_pair("DX"@, "dx"@);
                }
                "dx"
            },
            (Reg::DI, _) => {
                proof {
                    reveal_strlit("DI");
                    reveal_strlit("di");
                    lemma_lowercase_pair("DI"@, "di"@);
                }
                "di"
            },
            (Reg::SI, _) => {
                proof {
                    reveal_strlit("SI");
                    reveal_strlit("si");
                    lemma_lowercase_pair("SI"@, "si"@);
                }
                "si"
            },
            (Reg::SP, _) => {
                proof {
                    reveal_strlit("SP");
                    reveal_strlit("sp");
                    lemma_lowercase_pair("SP"@, "sp"@);
                }
                "sp"
            },
            (Reg::BP, _) => {
                proof {
                    reveal_strlit("BP");
                    reveal_strlit("bp");
                    lemma_lowercase_pair("BP"@, "bp"@);
                }
                "bp"
            },
            (Reg::IP, _) => {
                proof {
                    reveal_strlit("IP");
                    reveal_strlit("ip");
                    lemma_lowercase_pair("IP"@, "ip"@);
                }
                "ip"
            },
        }
    }
}

impl EABase {
    /// The base as it is printed inside the brackets of a memory operand.
    pub open spec fn text(self) -> Seq<char> {
        match self {
            EABase::BxSi => "bx + si"@,
            EABase::BxDi => "bx + di"@,
            EABase::BpSi => "bp + si"@,
            EABase::BpDi => "bp + di"@,
            EABase::Si => "si"@,
            EABase::Di => "di"@,
            EABase::Bx => "bx"@,
            EABase::Bp => "bp"@,
            EABase::DirectAddr(n) => decimal(n as nat),
        }
    }

    /// The base as it is printed inside the brackets of a memory operand.
    pub fn to_asm(&self) -> (s: String)
        ensures
            s@ == self.text(),
    {
        let mut out = String::new();
        match self {
            EABase::BxSi => out.append("bx + si"),
            EABase::BxDi => out.append("bx + di"),
            EABase::BpSi => out.append("bp + si"),
            EABase::BpDi => out.append("bp + di"),
            EABase::Si => out.append("si"),
            EABase::Di => out.append("di"),
            EABase::Bx => out.append("bx"),
            EABase::Bp => out.append("bp"),
            EABase::DirectAddr(n) => push_decimal(&mut out, *n as u64),
        }
        out
    }
}

impl EAC {
    /// The memory operand: the base in brackets, followed inside them by the
    /// displacement where it is not zero.
    pub open spec fn text(self) -> Seq<char> {
        "["@ + self.base.text() + (match self.displacement {
            None => Seq::empty(),
            Some(d) => displacement_text(d as int),
        }) + "]"@
    }

    /// The memory operand as NASM text.
    pub fn to_asm(&self) -> (s: String)
        ensures
            s@ == self.text(),
    {
        let mut out = String::new();
        out.append("[");
        let base = self.base.to_asm();
        out.append(base.as_str());
        match self.displacement {
            None => {},
            Some(d) => {
                if d > 0 {
                    out.append(" + ");
                    push_decimal(&mut out, d as u64);
                } else if d < 0 {
                    let magnitude: i32 = -(d as i32);
                    out.append(" - ");
                    push_decimal(&mut out, magnitude as u64);
                }
            },
        }
        out.append("]");
        out
    }
}

impl Loc {
    /// The operand as NASM text; an immediate carries its size.
    pub open spec fn text(self) -> Seq<char> {
        match self {
            Loc::Reg(reg) => reg.text(),
            Loc::Imm8(n) => "byte "@ + decimal(n as nat),
            Loc::Imm16(n) => "word "@ + decimal(n as nat),
            Loc::EAC(eac) => eac.text(),
        }
    }

    /// The operand as NASM text.
    pub fn to_asm(&self) -> (s: String)
        ensures
            s@ == self.text(),
    {
        match self {
            Loc::Reg(reg) => {
                let mut out = String::new();
                out.append(reg.lower());
                out
            },
            Loc::Imm8(n) => {
                let mut out = String::new();
                out.append("byte ");
                push_decimal(&mut out, *n as u64);
                out
            },
            Loc::Imm16(n) => {
                let mut out = String::new();
                out.append("word ");
                push_decimal(&mut out, *n as u64);
                out
            },
            Loc::EAC(eac) => eac.to_asm(),
        }
    }
}

/// A two-operand line: the mnemonic, the destination, a comma, the source.
pub open spec fn binop_text(mnemonic: Seq<char>, dst: Loc, src: Loc) -> Seq<char> {
    mnemonic + " "@ + dst.text() + ", "@ + src.text()
}

fn binop_line(mnemonic: &str, dst: &Loc, src: &Loc) -> (s: String)
    ensures
        s@ == binop_text(mnemonic@, *dst, *src),
{
    let mut out = String::new();
    out.append(mnemonic);
    out.append(" ");
    let d = dst.to_asm();
    out.append(d.as_str());
    out.append(", ");
    let r = src.to_asm();
    out.append(r.as_str());
    out
}

impl Mov {
    pub open spec fn text(self) -> Seq<char> {
        binop_text("mov"@, self.dst, self.src)
    }

    /// `mov dst, src`
    pub fn to_asm(&self) -> (s: String)
        ensures
            s@ == self.text(),
    {
        binop_line("mov", &self.dst, &self.src)
    }
}

impl Add {
    pub open spec fn text(self) -> Seq<char> {
        binop_text("add"@, self.dst, self.src)
    }

    /// `add dst, src`
    pub fn to_asm(&self) -> (s: String)
        ensures
            s@ == self.text(),
    {
        binop_line("add", &self.dst, &self.src)
    }
}

impl Sub {
    pub open spec fn text(self) -> Seq<char> {
        binop_text("sub"@, self.dst, self.src)
    }

    /// `sub dst, src`
    pub fn to_asm(&self) -> (s: String)
        ensures
            s@ == self.text(),
    {
        binop_line("sub", &self.dst, &self.src)
    }
}

impl Cmp {
    pub open spec fn text(self) -> Seq<char> {
        binop_text("cmp"@, self.dst, self.src)
    }

    /// `cmp dst, src`
    pub fn to_asm(&self) -> (s: String)
        ensures
            s@ == self.text(),
    {
        binop_line("cmp", &self.dst, &self.src)
    }
}

impl JumpType {
    /// The lower-case mnemonic of the jump.
    pub open spec fn mnemonic(self) -> Seq<char> {
        match self {
            JumpType::Jnz => "jnz"@,
            JumpType::Je => "je"@,
            JumpType::Jl => "jl"@,
            JumpType::Jle => "jle"@,
            JumpType::Jb => "jb"@,
            JumpType::Jbe => "jbe"@,
            JumpType::Jp => "jp"@,
            JumpType::Jo => "jo"@,
            JumpType::Js => "js"@,
            JumpType::Jnl => "jnl"@,
            JumpType::Jg => "jg"@,
            JumpType::Jnb => "jnb"@,
            JumpType::Ja => "ja"@,
            JumpType::Jnp => "jnp"@,
            JumpType::Jno => "jno"@,
            JumpType::Jns => "jns"@,
            JumpType::Loop => "loop"@,
            JumpType::Loopz => "loopz"@,
            JumpType::Loopnz => "loopnz"@,
            JumpType::Jcxz => "jcxz"@,
        }
    }

    /// The lower-case mnemonic of the jump.
    pub fn name(&self) -> (s: &'static str)
        ensures
            s@ == self.mnemonic(),
    {
        match self {
            JumpType::Jnz => "jnz",
            JumpType::Je => "je",
            JumpType::Jl => "jl",
            JumpType::Jle => "jle",
            JumpType::Jb => "jb",
            JumpType::Jbe => "jbe",
            JumpType::Jp => "jp",
            JumpType::Jo => "jo",
            JumpType::Js => "js",
            JumpType::Jnl => "jnl",
            JumpType::Jg => "jg",
            JumpType::Jnb => "jnb",
            JumpType::Ja => "ja",
            JumpType::Jnp => "jnp",
            JumpType::Jno => "jno",
            JumpType::Jns => "jns",
            JumpType::Loop => "loop",
            JumpType::Loopz => "loopz",
            JumpType::Loopnz => "loopnz",
            JumpType::Jcxz => "jcxz",
        }
    }
}

impl Jump {
    /// The jump line: the mnemonic and the target, which NASM counts from the
    /// start of the two-byte instruction.
    pub open spec fn text(self) -> Seq<char> {
        self.typ.mnemonic() + " "@ + target_text(2 + self.offset)
    }

    /// The jump as NASM text.
    pub fn to_asm(&self) -> (s: String)
        ensures
            s@ == self.text(),
    {
        let target: i32 = Self::instruction_size() as i32 + self.offset as i32;
        let mut out = String::new();
        out.append(self.typ.name());
        out.append(" ");
        if target >= 0 {
            out.append("$+");
            push_decimal(&mut out, target as u64);
        } else {
            let magnitude: i32 = -target;
            out.append("$-");
            push_decimal(&mut out, magnitude as u64);
        }
        out
    }
}

impl Instruction {
    /// The instruction as one line of NASM text.
    pub open spec fn text(self) -> Seq<char> {
        match self {
            Instruction::Mov(m) => m.text(),
            Instruction::Jump(j) => j.text(),
            Instruction::Add(a) => a.text(),
            Instruction::Sub(s) => s.text(),
            Instruction::Cmp(c) => c.text(),
        }
    }

    /// The instruction as one line of NASM text.
    pub fn to_asm(&self) -> (s: String)
        ensures
            s@ == self.text(),
    {
        match self {
            Instruction::Mov(m) => m.to_asm(),
            Instruction::Jump(j) => j.to_asm(),
            Instruction::Add(a) => a.to_asm(),
            Instruction::Sub(s) => s.to_asm(),
            Instruction::Cmp(c) => c.to_asm(),
        }
    }
}

/// The line of the instruction that `params` selects on the two operands.
pub fn print_binop_asm(params: BinopParams, src: Loc, dst: Loc) -> (s: String)
    ensures
        s@ == spec_binop_to_instruction(params, src, dst).text(),
{
    binop_to_instruction(params, src, dst).to_asm()
}

} // verus!

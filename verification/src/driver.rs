//! The driver: decoding a whole image, and the fetch-decode-execute step of
//! the simulator.

use vstd::prelude::*;
use vstd::slice::*;
use crate::cpu::{wrap16, CpuView, ExecError, CPU};
use crate::cursor::CountingIterator;
use crate::decode::{decode_next, lemma_decode_length, spec_decode, spec_decode_all};
use crate::fields::{DecodeError, Parsed};
use crate::model::{Instruction, Reg};

verus! {

/// The instruction at offset `ip` of the image, and its length in bytes.
pub open spec fn spec_decode_at(image: Seq<u8>, ip: int) -> Parsed<Instruction> {
    if 0 <= ip <= image.len() {
        spec_decode(image.skip(ip))
    } else {
        Err(DecodeError::UnexpectedEnd)
    }
}

/// Decodes the instruction at offset `ip` of the image and returns it with
/// the number of bytes that it takes.
pub fn decode_first_at(bytes: &[u8], ip: usize) -> (r: Result<(Instruction, usize), DecodeError>)
    ensures
        match spec_decode_at(bytes@, ip as int) {
            Ok((inst, n)) => r == Ok::<(Instruction, usize), DecodeError>((inst, n as usize)),
            Err(e) => r == Err::<(Instruction, usize), DecodeError>(e),
        },
        r matches Ok((inst, n)) ==> inst.wf() && 2 <= n <= 6 && ip + n <= bytes@.len(),
{
    if ip > bytes.len() {
        return Err(DecodeError::UnexpectedEnd);
    }
    let rest = slice_subrange(bytes, ip, bytes.len());
    assert(rest@ =~= bytes@.skip(ip as int));
    proof {
        lemma_decode_length(rest@);
    }
    let mut cursor = CountingIterator::new(rest);
    match decode_next(&mut cursor) {
        Ok(Some(inst)) => Ok((inst, cursor.num_consumed())),
        Ok(None) => Err(DecodeError::UnexpectedEnd),
        Err(e) => Err(e),
    }
}

/// Decodes the image from its start to its end. Returns the instructions
/// read, in order, and the error that stopped the decoding before the end, if
/// one did.
pub fn decode_stream(bytes: &[u8]) -> (r: (Vec<Instruction>, Option<DecodeError>))
    ensures
        (r.0@, r.1) == spec_decode_all(bytes@),
        forall|i: int| 0 <= i < r.0@.len() ==> (#[trigger] r.0@[i]).wf(),
{
    let mut cursor = CountingIterator::new(bytes);
    let mut out: Vec<Instruction> = Vec::new();
    loop
        invariant
            spec_decode_all(bytes@) == (
                out@ + spec_decode_all(cursor.remaining()).0,
                spec_decode_all(cursor.remaining()).1,
            ),
            forall|i: int| 0 <= i < out@.len() ==> (#[trigger] out@[i]).wf(),
        decreases cursor.remaining().len(),
    {
        let ghost before = cursor;
        proof {
            lemma_decode_length(cursor.remaining());
        }
        match decode_next(&mut cursor) {
            Ok(Some(inst)) => {
                proof {
                    let rest = spec_decode_all(cursor.remaining()).0;
                    assert(out@ + (seq![inst] + rest) =~= out@.push(inst) + rest);
                }
                out.push(inst);
            },
            Ok(None) => {
                assert(out@ + Seq::<Instruction>::empty() =~= out@);
                return (out, None);
            },
            Err(e) => {
                assert(out@ + Seq::<Instruction>::empty() =~= out@);
                return (out, Some(e));
            },
        }
    }
}

/// What one step of the simulator did.
#[derive(Clone, Copy, Debug, PartialEq, Eq, Structural)]
pub enum Step {
    /// The instruction pointer is at or behind the end of the image.
    Halted,
    /// The instruction was executed and the instruction pointer moved.
    Executed(Instruction),
    /// No instruction can be read at the instruction pointer.
    Undecodable(DecodeError),
    /// The instruction was read but cannot be executed.
    Failed(Instruction, ExecError),
}

/// The instruction pointer after an instruction of `length` bytes at `ip`
/// that jumps by `offset`: their sum, reduced to 16 bits.
pub open spec fn next_ip(ip: u16, length: int, offset: i8) -> u16 {
    wrap16(ip + length + offset)
}

impl CpuView {
    /// The state after one step on the image, and what the step did: where
    /// the instruction pointer is inside the image, the instruction there is
    /// decoded and executed, and the pointer moves by the instruction's length
    /// and the jump's displacement. A step that fails changes nothing.
    pub open spec fn step(self, image: Seq<u8>) -> (CpuView, Step) {
        let ip = self.reg(Reg::IP);
        if ip >= image.len() {
            (self, Step::Halted)
        } else {
            match spec_decode(image.skip(ip as int)) {
                Err(e) => (self, Step::Undecodable(e)),
                Ok((inst, n)) => match self.exec(inst) {
                    Err(e) => (self, Step::Failed(inst, e)),
                    Ok((next, offset)) => (
                        next.with_reg(Reg::IP, next_ip(next.reg(Reg::IP), n as int, offset)),
                        Step::Executed(inst),
                    ),
                },
            }
        }
    }
}

impl CPU {
    /// Moves the instruction pointer past an instruction of `length` bytes
    /// and by the displacement of the jump that it took.
    pub fn advance(&mut self, length: usize, jump_offset: i8)
        ensures
            final(self)@ == old(self)@.with_reg(
                Reg::IP,
                next_ip(old(self)@.reg(Reg::IP), length as int, jump_offset),
            ),
    {
        let reduced: i32 = (length % 65536) as i32;
        let sum: i32 = self.ip() as i32 + reduced + jump_offset as i32;
        let next: u16 = if sum < 0 {
            (sum + 65536) as u16
        } else if sum >= 131072 {
            (sum - 131072) as u16
        } else if sum >= 65536 {
            (sum - 65536) as u16
        } else {
            sum as u16
        };
        assert(next == next_ip(self@.reg(Reg::IP), length as int, jump_offset));
        self.set_ip(next);
    }

    /// One step of the simulator: fetches the instruction at the instruction
    /// pointer, executes it and moves the pointer.
    pub fn step(&mut self, image: &[u8]) -> (s: Step)
        ensures
            (final(self)@, s) == old(self)@.step(image@),
    {
        let ip = self.ip() as usize;
        if ip >= image.len() {
            return Step::Halted;
        }
        let (inst, num_bytes) = match decode_first_at(image, ip) {
            Ok(decoded) => decoded,
            Err(e) => {
                return Step::Undecodable(e);
            },
        };
        match self.exec(inst) {
            Ok(jump_offset) => {
                self.advance(num_bytes, jump_offset);
                Step::Executed(inst)
            },
            Err(e) => Step::Failed(inst, e),
        }
    }
}

} // verus!

//! The listing of decode mode: one line of text per instruction, with the
//! cycle estimate and the running total behind it where they are asked for.

use vstd::prelude::*;
use vstd::string::*;
use crate::cycles::{estimate_8086, spec_estimate, MAX_ESTIMATE};
use crate::decode::spec_decode_all;
use crate::driver::decode_stream;
use crate::fields::DecodeError;
use crate::model::Instruction;
use crate::text::{decimal, push_decimal};

verus! {

/// The estimated cycles of all the instructions together; one without an
/// estimate counts as nothing.
pub open spec fn total_cycles(instructions: Seq<Instruction>) -> nat
    decreases instructions.len(),
{
    if instructions.len() == 0 {
        0
    } else {
        total_cycles(instructions.drop_last()) + match spec_estimate(instructions.last()) {
            Some(n) => n,
            None => 0,
        }
    }
}

/// What follows an instruction in a listing with cycles: its estimate and
/// the total so far.
pub open spec fn cycle_note(cycles: nat, total: nat) -> Seq<char> {
    " ; +"@ + decimal(cycles) + " = "@ + decimal(total)
}

/// The lines of the instructions of an image, in order, and the error that
/// stopped the decoding before the end of the image, if one did.
pub fn disassemble(bytes: &[u8]) -> (r: (Vec<String>, Option<DecodeError>))
    ensures
        r.1 == spec_decode_all(bytes@).1,
        r.0@.len() == spec_decode_all(bytes@).0.len(),
        forall|i: int|
            0 <= i < r.0@.len() ==> (#[trigger] r.0@[i])@ == spec_decode_all(bytes@).0[i].text(),
{
    let (instructions, error) = decode_stream(bytes);
    let mut lines: Vec<String> = Vec::new();
    let mut i: usize = 0;
    while i < instructions.len()
        invariant
            i <= instructions@.len(),
            lines@.len() == i,
            forall|j: int| 0 <= j < i ==> (#[trigger] lines@[j])@ == instructions@[j].text(),
        decreases instructions@.len() - i,
    {
        lines.push(instructions[i].to_asm());
        i = i + 1;
    }
    (lines, error)
}

/// The lines of a listing with cycles, and the total of the estimates: each
/// line is the instruction's text, its estimate and the total up to it. The
/// listing ends before the first instruction that has no estimate.
pub fn cycle_listing(instructions: &Vec<Instruction>) -> (r: (Vec<String>, usize))
    requires
        forall|i: int| 0 <= i < instructions@.len() ==> (#[trigger] instructions@[i]).wf(),
        instructions@.len() * MAX_ESTIMATE <= usize::MAX,
    ensures
        r.0@.len() <= instructions@.len(),
        forall|i: int|
            0 <= i < r.0@.len() ==> spec_estimate(#[trigger] instructions@[i]) is Some,
        r.0@.len() < instructions@.len() ==> spec_estimate(instructions@[r.0@.len() as int])
            is None,
        forall|i: int|
            0 <= i < r.0@.len() ==> (#[trigger] r.0@[i])@ == instructions@[i].text() + cycle_note(
                spec_estimate(instructions@[i])->0,
                total_cycles(instructions@.take(i + 1)),
            ),
        r.1 == total_cycles(instructions@.take(r.0@.len() as int)),
{
    let mut lines: Vec<String> = Vec::new();
    let mut total: usize = 0;
    let mut i: usize = 0;
    assert(instructions@.take(0) =~= Seq::<Instruction>::empty());
    while i < instructions.len()
        invariant
            i <= instructions@.len(),
            instructions@.len() * MAX_ESTIMATE <= usize::MAX,
            forall|j: int| 0 <= j < instructions@.len() ==> (#[trigger] instructions@[j]).wf(),
            lines@.len() == i,
            total == total_cycles(instructions@.take(i as int)),
            total <= i * MAX_ESTIMATE,
            forall|j: int| 0 <= j < i ==> spec_estimate(#[trigger] instructions@[j]) is Some,
            forall|j: int|
                0 <= j < i ==> (#[trigger] lines@[j])@ == instructions@[j].text() + cycle_note(
                    spec_estimate(instructions@[j])->0,
                    total_cycles(instructions@.take(j + 1)),
                ),
        decreases instructions@.len() - i,
    {
        let cycles = match estimate_8086(&instructions[i]) {
            Some(n) => n,
            None => {
                return (lines, total);
            },
        };
        proof {
            let upto = instructions@.take(i + 1);
            assert(upto.drop_last() =~= instructions@.take(i as int));
            assert(upto.last() == instructions@[i as int]);
            assert((i + 1) * MAX_ESTIMATE <= instructions@.len() * MAX_ESTIMATE)
                by (nonlinear_arith)
                requires
                    i + 1 <= instructions@.len(),
            ;
        }
        total = total + cycles;
        let mut line = instructions[i].to_asm();
        line.append(" ; +");
        push_decimal(&mut line, cycles as u64);
        line.append(" = ");
        push_decimal(&mut line, total as u64);
        assert(line@ =~= instructions@[i as int].text() + cycle_note(
            cycles as nat,
            total as nat,
        ));
        lines.push(line);
        i = i + 1;
    }
    (lines, total)
}

} // verus!

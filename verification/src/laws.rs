//! Machine-wide laws, proved once over the reference interpreter
//! `spec_step` rather than per call site.

use vstd::prelude::*;

use crate::machine::MachineView;
use crate::machine::STACK_SIZE;
use crate::machine::StepError;
use crate::machine::spec_step;
use crate::machine::spec_word_add;
use crate::machine::spec_word_sub;
use crate::memory::MEMORY_SIZE;
use crate::memory::spec_encode;
use crate::memory::spec_load;
use crate::operations::Instruction;
use crate::operations::Operation1;
use crate::operations::Operation2;
use crate::operations::instruction_wf;
use crate::operations::spec_decode;
use crate::utils::spec_is_negative;

verus! {

/// Decoding never stores an out-of-range register number: every register
/// field of a successfully decoded instruction is 0 through 7.  Stores into
/// the register file themselves demand such a number, so no out-of-range
/// store succeeds.
pub proof fn lemma_decode_registers_in_range(word: u16)
    ensures
        spec_decode(word) matches Ok(ins) ==> instruction_wf(ins),
{
}

/// The step about to run would pop a word off the stack (POP or RET).
pub open spec fn step_pops(m: MachineView) -> bool {
    &&& m.pending is None
    &&& (spec_decode(m.mem[m.pr as int]) matches Ok(Instruction::OneWord(w1)) && (w1.operation
        == Operation1::Pop || w1.operation == Operation1::Return))
}

/// The step about to run would push a word onto the stack (a latched PUSH
/// or CALL executing).
pub open spec fn step_pushes(m: MachineView) -> bool {
    m.pending matches Some(w2) && (w2.operation == Operation2::Push || w2.operation
        == Operation2::Call)
}

/// SP stays within [0, STACK_SIZE] across any step, as long as the step does
/// not pop from an empty stack (SP = STACK_SIZE) or push onto a full one
/// (SP = 0).  Those two stack faults wrap SP around, as 16-bit stack
/// arithmetic must; from the initial state they can only be reached by a
/// program that pops more than it pushed or pushes more than the stack
/// holds.
pub proof fn lemma_step_preserves_sp_bound(m: MachineView, m2: MachineView)
    requires
        m.wf(),
        m.sp <= STACK_SIZE,
        spec_step(m) == Some(Ok::<MachineView, StepError>(m2)),
        step_pops(m) ==> m.sp < STACK_SIZE,
        step_pushes(m) ==> m.sp > 0,
    ensures
        m2.sp <= STACK_SIZE,
{
    lemma_step_sp_change(m, m2);
}

/// How a step may move SP at all: only a pop (POP or RET) raises it, by
/// exactly one, and only a push (a latched PUSH or CALL) lowers it, by
/// exactly one; every other step leaves it alone.
pub proof fn lemma_step_sp_change(m: MachineView, m2: MachineView)
    requires
        m.wf(),
        spec_step(m) == Some(Ok::<MachineView, StepError>(m2)),
    ensures
        step_pops(m) ==> m2.sp == spec_word_add(m.sp, 1),
        step_pushes(m) ==> m2.sp == spec_word_sub(m.sp, 1),
        !step_pops(m) && !step_pushes(m) ==> m2.sp == m.sp,
{
}

/// The one-word operations that store an ALU result and set SF and ZF from
/// it.
pub open spec fn one_word_sets_result_flags(op: Operation1) -> bool {
    ||| op == Operation1::Load1
    ||| op == Operation1::AddArithmetic1
    ||| op == Operation1::SubtractArithmetic1
    ||| op == Operation1::AddLogical1
    ||| op == Operation1::SubtractLogical1
    ||| op == Operation1::And1
    ||| op == Operation1::Or1
    ||| op == Operation1::Xor1
}

/// The two-word operations that store an ALU result and set SF and ZF from
/// it.
pub open spec fn two_word_sets_result_flags(op: Operation2) -> bool {
    ||| op == Operation2::Load
    ||| op == Operation2::AddArithmetic
    ||| op == Operation2::SubtractArithmetic
    ||| op == Operation2::AddLogical
    ||| op == Operation2::SubtractLogical
    ||| op == Operation2::And
    ||| op == Operation2::Or
    ||| op == Operation2::Xor
}

/// After any step that executes a result-storing ALU instruction, SF equals
/// bit 15 of the stored result and ZF says the stored result is zero.
pub proof fn lemma_alu_sets_sf_zf(m: MachineView, m2: MachineView)
    requires
        m.wf(),
        spec_step(m) == Some(Ok::<MachineView, StepError>(m2)),
    ensures
        (match m.pending {
            Some(w2) => two_word_sets_result_flags(w2.operation) ==> m2.sf == spec_is_negative(
                m2.gr[w2.r.0 as int],
            ) && m2.zf == (m2.gr[w2.r.0 as int] == 0),
            None => (match spec_decode(m.mem[m.pr as int]) {
                Ok(Instruction::OneWord(w1)) => one_word_sets_result_flags(w1.operation) ==> m2.sf
                    == spec_is_negative(m2.gr[w1.r1.0 as int]) && m2.zf == (m2.gr[w1.r1.0 as int]
                    == 0),
                _ => true,
            }),
        }),
{
}

/// The one-word operations documented "flags preserved".
pub open spec fn one_word_preserves_flags(op: Operation1) -> bool {
    ||| op == Operation1::NoOperation
    ||| op == Operation1::Pop
    ||| op == Operation1::Return
}

/// The two-word operations documented "flags preserved": ST, LAD, PUSH,
/// CALL and all the jumps.
pub open spec fn two_word_preserves_flags(op: Operation2) -> bool {
    ||| op == Operation2::Store
    ||| op == Operation2::LoadAddress
    ||| op == Operation2::Push
    ||| op == Operation2::Call
    ||| op == Operation2::JumpOnMinus
    ||| op == Operation2::JumpOnNonZero
    ||| op == Operation2::JumpOnZero
    ||| op == Operation2::UnconditionalJump
    ||| op == Operation2::JumpOnPlus
    ||| op == Operation2::JumpOnOverflow
}

/// A step that executes a "flags preserved" instruction — or that merely
/// latches the first word of a two-word instruction — leaves OF, SF and ZF
/// exactly as they were.
pub proof fn lemma_flags_preserved(m: MachineView, m2: MachineView)
    requires
        m.wf(),
        spec_step(m) == Some(Ok::<MachineView, StepError>(m2)),
    ensures
        (match m.pending {
            Some(w2) => two_word_preserves_flags(w2.operation) ==> m2.of == m.of && m2.sf == m.sf
                && m2.zf == m.zf,
            None => (match spec_decode(m.mem[m.pr as int]) {
                Ok(Instruction::OneWord(w1)) => one_word_preserves_flags(w1.operation) ==> m2.of
                    == m.of && m2.sf == m.sf && m2.zf == m.zf,
                Ok(Instruction::TwoWord(_)) => m2.of == m.of && m2.sf == m.sf && m2.zf == m.zf,
                _ => true,
            }),
        }),
{
}

/// The first fetch of a two-word instruction changes nothing but PR, which
/// advances by one word, and the pending latch, which records the decoded
/// word: registers, memory, flags and SP are untouched.
pub proof fn lemma_two_word_first_fetch(m: MachineView, w2: crate::operations::Word2)
    requires
        m.wf(),
        m.pending is None,
        spec_decode(m.mem[m.pr as int]) == Ok::<Instruction, crate::operations::NewError>(
            Instruction::TwoWord(w2),
        ),
    ensures
        spec_step(m) == Some(
            Ok::<MachineView, StepError>(
                MachineView { pr: spec_word_add(m.pr, 1), pending: Some(w2), ..m },
            ),
        ),
{
}

/// The second fetch of a two-word instruction always clears the pending
/// latch.
pub proof fn lemma_second_fetch_clears_latch(m: MachineView, m2: MachineView)
    requires
        m.wf(),
        m.pending is Some,
        spec_step(m) == Some(Ok::<MachineView, StepError>(m2)),
    ensures
        m2.pending is None,
{
}

/// Round trip: loading the encoding of a word sequence places exactly those
/// words at addresses STACK_SIZE, STACK_SIZE + 1, ... of the image.
pub proof fn lemma_load_encode_round_trip(words: Seq<u16>)
    requires
        words.len() <= MEMORY_SIZE - STACK_SIZE,
    ensures
        forall|i: int|
            0 <= i < words.len() ==> spec_load(spec_encode(words))[STACK_SIZE + i] == words[i],
{
    let bytes = spec_encode(words);
    assert(bytes.len() == 2 * words.len());
    assert forall|i: int|
        0 <= i < words.len() implies spec_load(bytes)[STACK_SIZE + i] == words[i] by {
        assert(bytes[2 * i] == (words[i] / 256) as u8);
        assert(bytes[2 * i + 1] == (words[i] % 256) as u8);
        assert(words[i] / 256 * 256 + words[i] % 256 == words[i]);
    }
}

} // verus!

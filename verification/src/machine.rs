//! The machine: registers, flags, memory, stack pointer, program register,
//! and the stepper that advances a loaded program one word-fetch at a time.
//!
//! Every state transition is specified against `MachineView`, a mathematical
//! image of the machine.  `spec_step` is the reference interpreter: it says,
//! for any machine state, what one call of `clock` must produce — including
//! exactly which decode errors come out and when.  Two-word instructions
//! thread their state through the `previous_word` latch: the first fetch only
//! records the decoded word, the second fetch supplies the address operand
//! and executes.
//!
//! The shift instructions are decoded but their execution is left undefined
//! until checked against an architecture reference; `spec_step` is partial
//! (`Option`) for exactly that case, and `clock` requires that the pending
//! instruction is not a shift.

use vstd::prelude::*;

use crate::memory::GetError;
use crate::memory::LoadProgramError;
use crate::memory::MEMORY_SIZE;
use crate::memory::Memory;
use crate::memory::spec_load;
use crate::operations::Instruction;
use crate::operations::NewError;
use crate::operations::Operation1;
use crate::operations::Operation2;
use crate::operations::RegisterNumber;
use crate::operations::Word1;
use crate::operations::Word2;
use crate::operations::ope;
use crate::operations::spec_decode;
use crate::register::GeneralRegister;
use crate::utils::is_negative;
use crate::utils::spec_is_negative;
use crate::utils::spec_signed;

verus! {

/// Number of words reserved at the bottom of memory for the stack; also the
/// address where program text is loaded and where PR and SP start.
pub const STACK_SIZE: usize = 256;

/// The mathematical image of a machine state.
#[verifier::ext_equal]
pub ghost struct MachineView {
    /// All 65,536 memory words.
    pub mem: Seq<u16>,
    /// The eight general registers, GR0 first.
    pub gr: Seq<u16>,
    /// Stack pointer.
    pub sp: u16,
    /// Program register.
    pub pr: u16,
    /// Overflow flag.
    pub of: bool,
    /// Sign flag.
    pub sf: bool,
    /// Zero flag.
    pub zf: bool,
    /// The latched first word of a two-word instruction, if one is waiting
    /// for its address operand.
    pub pending: Option<Word2>,
}

impl MachineView {
    /// Memory and register file have their fixed sizes and any latched word
    /// carries register numbers in range.
    pub open spec fn wf(self) -> bool {
        &&& self.mem.len() == MEMORY_SIZE
        &&& self.gr.len() == 8
        &&& (self.pending matches Some(w2) ==> w2.r.wf() && w2.x.wf())
    }
}

/// 16-bit wrapping addition.
pub open spec fn spec_word_add(a: u16, b: u16) -> u16 {
    if a + b > 0xFFFF {
        (a + b - 0x10000) as u16
    } else {
        (a + b) as u16
    }
}

/// 16-bit wrapping subtraction.
pub open spec fn spec_word_sub(a: u16, b: u16) -> u16 {
    if a < b {
        (a - b + 0x10000) as u16
    } else {
        (a - b) as u16
    }
}

/// Unsigned addition: the wrapped sum and the carry out of bit 15.
pub open spec fn spec_add_logical(a: u16, b: u16) -> (u16, bool) {
    (spec_word_add(a, b), a + b > 0xFFFF)
}

/// Unsigned subtraction: the wrapped difference and the borrow.
pub open spec fn spec_sub_logical(a: u16, b: u16) -> (u16, bool) {
    (spec_word_sub(a, b), a < b)
}

/// Signed addition: the same wrapped bits, with overflow judged on the
/// two's-complement readings.
pub open spec fn spec_add_arithmetic(a: u16, b: u16) -> (u16, bool) {
    (
        spec_word_add(a, b),
        spec_signed(a) + spec_signed(b) > 0x7FFF || spec_signed(a) + spec_signed(b) < -0x8000,
    )
}

/// Signed subtraction, as `spec_add_arithmetic`.
pub open spec fn spec_sub_arithmetic(a: u16, b: u16) -> (u16, bool) {
    (
        spec_word_sub(a, b),
        spec_signed(a) - spec_signed(b) > 0x7FFF || spec_signed(a) - spec_signed(b) < -0x8000,
    )
}

/// Store `value` into `GR[r]` and set the flags an ALU result defines:
/// SF from bit 15, ZF from equality with zero, OF as given.
pub open spec fn spec_with_result_flags(
    m: MachineView,
    r: RegisterNumber,
    value: u16,
    of: bool,
) -> MachineView {
    MachineView {
        gr: m.gr.update(r.0 as int, value),
        of,
        sf: spec_is_negative(value),
        zf: value == 0,
        ..m
    }
}

/// Comparison flags over the mathematical readings of the operands:
/// SF says less, ZF says equal, OF is cleared.
pub open spec fn spec_compare_flags(m: MachineView, a: int, b: int) -> MachineView {
    MachineView { of: false, sf: a < b, zf: a == b, ..m }
}

/// The effective address: the operand word plus the index register,
/// wrapping.
pub open spec fn spec_effective_addr(m: MachineView, x: RegisterNumber, operand: u16) -> u16 {
    spec_word_add(operand, m.gr[x.0 as int])
}

/// Overwrite PR with `e` when `cond` holds; otherwise leave the state as it
/// is.  Flags are preserved either way.
pub open spec fn spec_jump(m: MachineView, e: u16, cond: bool) -> MachineView {
    if cond {
        MachineView { pr: e, ..m }
    } else {
        m
    }
}

/// What a one-word instruction does to the machine.
pub open spec fn spec_exec1(m: MachineView, w1: Word1) -> MachineView {
    let a = m.gr[w1.r1.0 as int];
    let b = m.gr[w1.r2.0 as int];
    match w1.operation {
        Operation1::NoOperation => m,
        Operation1::Load1 => spec_with_result_flags(m, w1.r1, b, false),
        Operation1::AddArithmetic1 => spec_with_result_flags(
            m,
            w1.r1,
            spec_add_arithmetic(a, b).0,
            spec_add_arithmetic(a, b).1,
        ),
        Operation1::SubtractArithmetic1 => spec_with_result_flags(
            m,
            w1.r1,
            spec_sub_arithmetic(a, b).0,
            spec_sub_arithmetic(a, b).1,
        ),
        Operation1::AddLogical1 => spec_with_result_flags(
            m,
            w1.r1,
            spec_add_logical(a, b).0,
            spec_add_logical(a, b).1,
        ),
        Operation1::SubtractLogical1 => spec_with_result_flags(
            m,
            w1.r1,
            spec_sub_logical(a, b).0,
            spec_sub_logical(a, b).1,
        ),
        Operation1::And1 => spec_with_result_flags(m, w1.r1, a & b, false),
        Operation1::Or1 => spec_with_result_flags(m, w1.r1, a | b, false),
        Operation1::Xor1 => spec_with_result_flags(m, w1.r1, a ^ b, false),
        Operation1::CompareArithmetic => spec_compare_flags(m, spec_signed(a), spec_signed(b)),
        Operation1::CompareLogical => spec_compare_flags(m, a as int, b as int),
        Operation1::Pop => MachineView {
            gr: m.gr.update(w1.r1.0 as int, m.mem[m.sp as int]),
            sp: spec_word_add(m.sp, 1),
            ..m
        },
        Operation1::Return => MachineView {
            pr: m.mem[m.sp as int],
            sp: spec_word_add(m.sp, 1),
            ..m
        },
    }
}

/// The operation is one of the shifts, whose execution is left undefined.
pub open spec fn spec_is_shift(op: Operation2) -> bool {
    ||| op == Operation2::ShiftLeftArithmetic
    ||| op == Operation2::ShiftLeftLogical
    ||| op == Operation2::ShiftRightArithmetic
    ||| op == Operation2::ShiftRightLogical
}

/// What a latched two-word instruction does once its address operand has
/// arrived.  The latch is cleared; `None` for the shifts, whose execution is
/// undefined.
pub open spec fn spec_exec2(m: MachineView, w2: Word2, operand: u16) -> Option<MachineView> {
    let e = spec_effective_addr(m, w2.x, operand);
    let a = m.gr[w2.r.0 as int];
    let mv = m.mem[e as int];
    match w2.operation {
        Operation2::Load => Some(
            MachineView { pending: None, ..spec_with_result_flags(m, w2.r, mv, false) },
        ),
        Operation2::Store => Some(MachineView { mem: m.mem.update(e as int, a), pending: None, ..m }),
        Operation2::LoadAddress => Some(
            MachineView { gr: m.gr.update(w2.r.0 as int, e), pending: None, ..m },
        ),
        Operation2::AddArithmetic => Some(
            MachineView {
                pending: None,
                ..spec_with_result_flags(
                    m,
                    w2.r,
                    spec_add_arithmetic(a, mv).0,
                    spec_add_arithmetic(a, mv).1,
                )
            },
        ),
        Operation2::SubtractArithmetic => Some(
            MachineView {
                pending: None,
                ..spec_with_result_flags(
                    m,
                    w2.r,
                    spec_sub_arithmetic(a, mv).0,
                    spec_sub_arithmetic(a, mv).1,
                )
            },
        ),
        Operation2::AddLogical => Some(
            MachineView {
                pending: None,
                ..spec_with_result_flags(
                    m,
                    w2.r,
                    spec_add_logical(a, mv).0,
                    spec_add_logical(a, mv).1,
                )
            },
        ),
        Operation2::SubtractLogical => Some(
            MachineView {
                pending: None,
                ..spec_with_result_flags(
                    m,
                    w2.r,
                    spec_sub_logical(a, mv).0,
                    spec_sub_logical(a, mv).1,
                )
            },
        ),
        Operation2::And => Some(
            MachineView { pending: None, ..spec_with_result_flags(m, w2.r, a & mv, false) },
        ),
        Operation2::Or => Some(
            MachineView { pending: None, ..spec_with_result_flags(m, w2.r, a | mv, false) },
        ),
        Operation2::Xor => Some(
            MachineView { pending: None, ..spec_with_result_flags(m, w2.r, a ^ mv, false) },
        ),
        Operation2::CompareArithmetic => Some(
            MachineView { pending: None, ..spec_compare_flags(m, spec_signed(a), spec_signed(mv)) },
        ),
        Operation2::CompareLogical => Some(
            MachineView { pending: None, ..spec_compare_flags(m, a as int, mv as int) },
        ),
        Operation2::ShiftLeftArithmetic => None,
        Operation2::ShiftLeftLogical => None,
        Operation2::ShiftRightArithmetic => None,
        Operation2::ShiftRightLogical => None,
        Operation2::JumpOnMinus => Some(MachineView { pending: None, ..spec_jump(m, e, m.sf) }),
        Operation2::JumpOnNonZero => Some(MachineView { pending: None, ..spec_jump(m, e, !m.zf) }),
        Operation2::JumpOnZero => Some(MachineView { pending: None, ..spec_jump(m, e, m.zf) }),
        Operation2::UnconditionalJump => Some(
            MachineView { pending: None, ..spec_jump(m, e, true) },
        ),
        Operation2::JumpOnPlus => Some(
            MachineView { pending: None, ..spec_jump(m, e, !m.sf && !m.zf) },
        ),
        Operation2::JumpOnOverflow => Some(MachineView { pending: None, ..spec_jump(m, e, m.of) }),
        Operation2::Push => Some(
            MachineView {
                sp: spec_word_sub(m.sp, 1),
                mem: m.mem.update(spec_word_sub(m.sp, 1) as int, e),
                pending: None,
                ..m
            },
        ),
        Operation2::Call => Some(
            MachineView {
                sp: spec_word_sub(m.sp, 1),
                mem: m.mem.update(spec_word_sub(m.sp, 1) as int, m.pr),
                pr: e,
                pending: None,
                ..m
            },
        ),
    }
}

/// Why executing a fetched word failed.
#[derive(Debug, Clone, Copy, PartialEq, Eq, Structural)]
pub enum ExecError {
    /// The word did not decode.
    OperationNotDefined(NewError),
    /// A memory access failed; unreachable with 16-bit addresses, kept for
    /// defensive symmetry.
    MemoryGetError(GetError),
}

/// Why a step failed.
#[derive(Debug, Clone, Copy, PartialEq, Eq, Structural)]
pub enum StepError {
    /// Executing the fetched word failed.
    ExecError(ExecError),
    /// The fetch itself failed; unreachable with 16-bit addresses, kept for
    /// defensive symmetry.
    MemoryGetError(GetError),
}

/// What executing `word` does to the machine: consume the latch if one is
/// set, otherwise decode and either execute a one-word instruction or latch
/// a two-word one.  `None` only when a latched shift would execute.
pub open spec fn spec_exec(m: MachineView, word: u16) -> Option<Result<MachineView, ExecError>> {
    match m.pending {
        Some(w2) => match spec_exec2(m, w2, word) {
            Some(m2) => Some(Ok(m2)),
            None => None,
        },
        None => match spec_decode(word) {
            Ok(Instruction::OneWord(w1)) => Some(Ok(spec_exec1(m, w1))),
            Ok(Instruction::TwoWord(w2)) => Some(Ok(MachineView { pending: Some(w2), ..m })),
            Err(e) => Some(Err(ExecError::OperationNotDefined(e))),
        },
    }
}

/// One full step: fetch the word at PR, advance PR by one word (wrapping),
/// then execute as `spec_exec` says.  Jumps, CALL and RET overwrite PR after
/// that advance.
pub open spec fn spec_step(m: MachineView) -> Option<Result<MachineView, StepError>> {
    let word = m.mem[m.pr as int];
    let fetched = MachineView { pr: spec_word_add(m.pr, 1), ..m };
    match spec_exec(fetched, word) {
        Some(Ok(m2)) => Some(Ok(m2)),
        Some(Err(e)) => Some(Err(StepError::ExecError(e))),
        None => None,
    }
}

/// The coming step is defined: the machine is not about to execute a latched
/// shift instruction.
pub open spec fn spec_step_defined(m: MachineView) -> bool {
    spec_step(m) is Some
}

/// When a step is defined, spelt out: always, except when the pending latch
/// holds a shift instruction.  A caller can therefore establish `clock`'s
/// precondition by looking at the latch alone.
pub proof fn lemma_step_defined_iff_no_pending_shift(m: MachineView)
    ensures
        spec_step_defined(m) <==> (m.pending matches Some(w2) ==> !spec_is_shift(w2.operation)),
{
}

/// The machine state: memory, register file, stack pointer, program
/// register, the three flags, and the latch for a two-word instruction
/// awaiting its address operand.
#[derive(Debug)]
pub struct Machine {
    pub mem: Memory,
    pub gr: GeneralRegister,
    pub sp: u16,
    pub pr: u16,
    pub of: bool,
    pub sf: bool,
    pub zf: bool,
    pub previous_word: Option<Word2>,
}

impl View for Machine {
    type V = MachineView;

    open spec fn view(&self) -> MachineView {
        MachineView {
            mem: self.mem@,
            gr: self.gr@,
            sp: self.sp,
            pr: self.pr,
            of: self.of,
            sf: self.sf,
            zf: self.zf,
            pending: self.previous_word,
        }
    }
}

impl Machine {
    /// The machine's image is well formed.
    pub open spec fn wf(&self) -> bool {
        self@.wf()
    }
}

/// The two's-complement reading of a word, as an `i32`.
fn signed_value(w: u16) -> (r: i32)
    ensures
        r as int == spec_signed(w),
{
    if w >= 0x8000 {
        w as i32 - 0x10000
    } else {
        w as i32
    }
}

/// Unsigned 16-bit addition with its carry.
fn alu_add_logical(a: u16, b: u16) -> (r: (u16, bool))
    ensures
        r == spec_add_logical(a, b),
{
    let s: u32 = a as u32 + b as u32;
    (a.wrapping_add(b), s > 0xFFFF)
}

/// Unsigned 16-bit subtraction with its borrow.
fn alu_sub_logical(a: u16, b: u16) -> (r: (u16, bool))
    ensures
        r == spec_sub_logical(a, b),
{
    (a.wrapping_sub(b), a < b)
}

/// Signed 16-bit addition: wrapped result bits and signed overflow.  The
/// bits agree with the unsigned wrapped sum, since the two's-complement
/// readings agree with the unsigned values modulo 2^16.
fn alu_add_arithmetic(a: u16, b: u16) -> (r: (u16, bool))
    ensures
        r == spec_add_arithmetic(a, b),
{
    let s: i32 = signed_value(a) + signed_value(b);
    (a.wrapping_add(b), s > 0x7FFF || s < -0x8000)
}

/// Signed 16-bit subtraction, as `alu_add_arithmetic`.
fn alu_sub_arithmetic(a: u16, b: u16) -> (r: (u16, bool))
    ensures
        r == spec_sub_arithmetic(a, b),
{
    let s: i32 = signed_value(a) - signed_value(b);
    (a.wrapping_sub(b), s > 0x7FFF || s < -0x8000)
}

impl Machine {
    /// An identical machine value.
    fn dup(&self) -> (m: Machine)
        ensures
            m@ == self@,
    {
        Machine {
            mem: self.mem.clone(),
            gr: self.gr,
            sp: self.sp,
            pr: self.pr,
            of: self.of,
            sf: self.sf,
            zf: self.zf,
            previous_word: self.previous_word,
        }
    }

    /// The effective address of a two-word instruction: the operand word
    /// plus the index register, wrapping.
    fn get_effective_value(&self, x: RegisterNumber, addr: u16) -> (r: u16)
        requires
            x.wf(),
        ensures
            r == spec_effective_addr(self@, x, addr),
    {
        let (_, xv) = self.gr.get(x, x);
        addr.wrapping_add(xv)
    }

    /// This machine with `GR[r1]` set to `r1_value`.
    fn mod_gr(&self, r1: RegisterNumber, r1_value: u16) -> (m: Machine)
        requires
            r1.wf(),
        ensures
            m@ == (MachineView { gr: self@.gr.update(r1.0 as int, r1_value), ..self@ }),
    {
        Machine { gr: self.gr.set(r1, r1_value), ..self.dup() }
    }

    /// This machine with SF and ZF set from an ALU result value.
    fn set_sf_zf(&self, value: u16) -> (m: Machine)
        ensures
            m@ == (MachineView {
                sf: spec_is_negative(value),
                zf: value == 0,
                ..self@
            }),
    {
        let sf = is_negative(value);
        let zf = value == 0;
        Machine { sf, zf, ..self.dup() }
    }

    /// This machine after an ALU operation targeting `GR[r1]`: the result is
    /// stored and OF, SF, ZF are set.
    fn with_result_flags(&self, r1: RegisterNumber, value: u16, of: bool) -> (m: Machine)
        requires
            r1.wf(),
        ensures
            m@ == spec_with_result_flags(self@, r1, value, of),
    {
        let m = self.mod_gr(r1, value).set_sf_zf(value);
        Machine { of, ..m }
    }

    /// ADDL r1,r2: unsigned add of `GR[r2]` into `GR[r1]`; OF is the carry,
    /// SF and ZF are set from the stored value.
    pub fn add_logical_1(&self, r1: RegisterNumber, r2: RegisterNumber) -> (m: Machine)
        requires
            r1.wf(),
            r2.wf(),
        ensures
            m@ == spec_with_result_flags(
                self@,
                r1,
                spec_add_logical(self@.gr[r1.0 as int], self@.gr[r2.0 as int]).0,
                spec_add_logical(self@.gr[r1.0 as int], self@.gr[r2.0 as int]).1,
            ),
    {
        let (a, b) = self.gr.get(r1, r2);
        let (v, of) = alu_add_logical(a, b);
        self.with_result_flags(r1, v, of)
    }

    /// SUBL r1,r2: unsigned subtract of `GR[r2]` from `GR[r1]`; OF is the
    /// borrow, SF and ZF are set from the stored value.
    pub fn subtract_logical_1(&self, r1: RegisterNumber, r2: RegisterNumber) -> (m: Machine)
        requires
            r1.wf(),
            r2.wf(),
        ensures
            m@ == spec_with_result_flags(
                self@,
                r1,
                spec_sub_logical(self@.gr[r1.0 as int], self@.gr[r2.0 as int]).0,
                spec_sub_logical(self@.gr[r1.0 as int], self@.gr[r2.0 as int]).1,
            ),
    {
        let (a, b) = self.gr.get(r1, r2);
        let (v, of) = alu_sub_logical(a, b);
        self.with_result_flags(r1, v, of)
    }

    /// ADDA r1,r2: signed add of `GR[r2]` into `GR[r1]`; OF is the signed
    /// overflow, SF and ZF are set from the stored value.
    pub fn add_arithmetic_1(&self, r1: RegisterNumber, r2: RegisterNumber) -> (m: Machine)
        requires
            r1.wf(),
            r2.wf(),
        ensures
            m@ == spec_with_result_flags(
                self@,
                r1,
                spec_add_arithmetic(self@.gr[r1.0 as int], self@.gr[r2.0 as int]).0,
                spec_add_arithmetic(self@.gr[r1.0 as int], self@.gr[r2.0 as int]).1,
            ),
    {
        let (a, b) = self.gr.get(r1, r2);
        let (v, of) = alu_add_arithmetic(a, b);
        self.with_result_flags(r1, v, of)
    }

    /// SUBA r1,r2: signed subtract of `GR[r2]` from `GR[r1]`; OF is the
    /// signed overflow, SF and ZF are set from the stored value.
    pub fn subtract_arithmetic_1(&self, r1: RegisterNumber, r2: RegisterNumber) -> (m: Machine)
        requires
            r1.wf(),
            r2.wf(),
        ensures
            m@ == spec_with_result_flags(
                self@,
                r1,
                spec_sub_arithmetic(self@.gr[r1.0 as int], self@.gr[r2.0 as int]).0,
                spec_sub_arithmetic(self@.gr[r1.0 as int], self@.gr[r2.0 as int]).1,
            ),
    {
        let (a, b) = self.gr.get(r1, r2);
        let (v, of) = alu_sub_arithmetic(a, b);
        self.with_result_flags(r1, v, of)
    }

    /// LD r1,r2: copy `GR[r2]` into `GR[r1]`; SF and ZF are set from the
    /// value, OF is cleared.
    pub fn load_1(&self, r1: RegisterNumber, r2: RegisterNumber) -> (m: Machine)
        requires
            r1.wf(),
            r2.wf(),
        ensures
            m@ == spec_with_result_flags(self@, r1, self@.gr[r2.0 as int], false),
    {
        let (_, b) = self.gr.get(r1, r2);
        self.with_result_flags(r1, b, false)
    }

    /// AND r1,r2: bitwise and of `GR[r2]` into `GR[r1]`; SF and ZF are set
    /// from the stored value, OF is cleared.
    pub fn and_1(&self, r1: RegisterNumber, r2: RegisterNumber) -> (m: Machine)
        requires
            r1.wf(),
            r2.wf(),
        ensures
            m@ == spec_with_result_flags(
                self@,
                r1,
                self@.gr[r1.0 as int] & self@.gr[r2.0 as int],
                false,
            ),
    {
        let (a, b) = self.gr.get(r1, r2);
        self.with_result_flags(r1, a & b, false)
    }

    /// OR r1,r2: bitwise or of `GR[r2]` into `GR[r1]`; SF and ZF are set
    /// from the stored value, OF is cleared.
    pub fn or_1(&self, r1: RegisterNumber, r2: RegisterNumber) -> (m: Machine)
        requires
            r1.wf(),
            r2.wf(),
        ensures
            m@ == spec_with_result_flags(
                self@,
                r1,
                self@.gr[r1.0 as int] | self@.gr[r2.0 as int],
                false,
            ),
    {
        let (a, b) = self.gr.get(r1, r2);
        self.with_result_flags(r1, a | b, false)
    }

    /// XOR r1,r2: bitwise exclusive or of `GR[r2]` into `GR[r1]`; SF and ZF
    /// are set from the stored value, OF is cleared.
    pub fn xor_1(&self, r1: RegisterNumber, r2: RegisterNumber) -> (m: Machine)
        requires
            r1.wf(),
            r2.wf(),
        ensures
            m@ == spec_with_result_flags(
                self@,
                r1,
                self@.gr[r1.0 as int] ^ self@.gr[r2.0 as int],
                false,
            ),
    {
        let (a, b) = self.gr.get(r1, r2);
        self.with_result_flags(r1, a ^ b, false)
    }

    /// POP r: `GR[r] := memory[SP]; SP := SP + 1`; flags preserved.
    pub fn pop(&self, r: RegisterNumber) -> (m: Machine)
        requires
            self.wf(),
            r.wf(),
        ensures
            m@ == (MachineView {
                gr: self@.gr.update(r.0 as int, self@.mem[self@.sp as int]),
                sp: spec_word_add(self@.sp, 1),
                ..self@
            }),
    {
        let r_value = match self.mem.get(self.sp) {
            Ok(v) => v,
            Err(_) => {
                proof {
                    assert(false);
                }
                0
            },
        };
        let m = self.mod_gr(r, r_value);
        Machine { sp: self.sp.wrapping_add(1), ..m }
    }

    /// RET: `PR := memory[SP]; SP := SP + 1`; flags preserved.
    fn return_(&self) -> (m: Machine)
        requires
            self.wf(),
        ensures
            m@ == (MachineView {
                pr: self@.mem[self@.sp as int],
                sp: spec_word_add(self@.sp, 1),
                ..self@
            }),
    {
        let pr = match self.mem.get(self.sp) {
            Ok(v) => v,
            Err(_) => {
                proof {
                    assert(false);
                }
                0
            },
        };
        Machine { pr, sp: self.sp.wrapping_add(1), ..self.dup() }
    }

    /// Jump to the effective address of `addr` and `GR[x]` when `cond`
    /// holds; flags preserved either way.
    fn jump_to(&self, x: RegisterNumber, addr: u16, cond: bool) -> (m: Machine)
        requires
            x.wf(),
        ensures
            m@ == spec_jump(self@, spec_effective_addr(self@, x, addr), cond),
    {
        let effective_addr = self.get_effective_value(x, addr);
        if cond {
            Machine { pr: effective_addr, ..self.dup() }
        } else {
            self.dup()
        }
    }

    /// Comparison flags over two mathematical values: OF cleared, SF says
    /// `a < b`, ZF says `a == b`.  Registers and memory unchanged.
    pub fn compare(&self, a: i32, b: i32) -> (m: Machine)
        ensures
            m@ == spec_compare_flags(self@, a as int, b as int),
    {
        let (sf, zf) = if a > b {
            (false, false)
        } else if a == b {
            (false, true)
        } else {
            (true, false)
        };
        Machine { of: false, sf, zf, ..self.dup() }
    }

    /// CPA r1,r2: signed compare of `GR[r1]` with `GR[r2]`.
    pub fn compare_arithmetic(&self, r1: RegisterNumber, r2: RegisterNumber) -> (m: Machine)
        requires
            r1.wf(),
            r2.wf(),
        ensures
            m@ == spec_compare_flags(
                self@,
                spec_signed(self@.gr[r1.0 as int]),
                spec_signed(self@.gr[r2.0 as int]),
            ),
    {
        let (a, b) = self.gr.get_arithmetic(r1, r2);
        self.compare(a as i32, b as i32)
    }

    /// CPL r1,r2: unsigned compare of `GR[r1]` with `GR[r2]`.
    pub fn compare_logical(&self, r1: RegisterNumber, r2: RegisterNumber) -> (m: Machine)
        requires
            r1.wf(),
            r2.wf(),
        ensures
            m@ == spec_compare_flags(
                self@,
                self@.gr[r1.0 as int] as int,
                self@.gr[r2.0 as int] as int,
            ),
    {
        let (a, b) = self.gr.get(r1, r2);
        self.compare(a as i32, b as i32)
    }

    /// Execute a latched two-word instruction, `word` being its address
    /// operand; the latch comes out cleared.
    fn exec2(&self, w2: Word2, word: u16) -> (m: Machine)
        requires
            self.wf(),
            w2.r.wf(),
            w2.x.wf(),
            spec_exec2(self@, w2, word) is Some,
        ensures
            m.wf(),
            Some(m@) == spec_exec2(self@, w2, word),
    {
        let e = self.get_effective_value(w2.x, word);
        let base = match w2.operation {
            Operation2::Load => {
                let mv = self.read_mem(e);
                self.with_result_flags(w2.r, mv, false)
            },
            Operation2::Store => {
                let (a, _) = self.gr.get(w2.r, w2.r);
                let mem = self.write_mem(e, a);
                Machine { mem, ..self.dup() }
            },
            Operation2::LoadAddress => self.mod_gr(w2.r, e),
            Operation2::AddArithmetic => {
                let (a, _) = self.gr.get(w2.r, w2.r);
                let mv = self.read_mem(e);
                let (v, of) = alu_add_arithmetic(a, mv);
                self.with_result_flags(w2.r, v, of)
            },
            Operation2::SubtractArithmetic => {
                let (a, _) = self.gr.get(w2.r, w2.r);
                let mv = self.read_mem(e);
                let (v, of) = alu_sub_arithmetic(a, mv);
                self.with_result_flags(w2.r, v, of)
            },
            Operation2::AddLogical => {
                let (a, _) = self.gr.get(w2.r, w2.r);
                let mv = self.read_mem(e);
                let (v, of) = alu_add_logical(a, mv);
                self.with_result_flags(w2.r, v, of)
            },
            Operation2::SubtractLogical => {
                let (a, _) = self.gr.get(w2.r, w2.r);
                let mv = self.read_mem(e);
                let (v, of) = alu_sub_logical(a, mv);
                self.with_result_flags(w2.r, v, of)
            },
            Operation2::And => {
                let (a, _) = self.gr.get(w2.r, w2.r);
                let mv = self.read_mem(e);
                self.with_result_flags(w2.r, a & mv, false)
            },
            Operation2::Or => {
                let (a, _) = self.gr.get(w2.r, w2.r);
                let mv = self.read_mem(e);
                self.with_result_flags(w2.r, a | mv, false)
            },
            Operation2::Xor => {
                let (a, _) = self.gr.get(w2.r, w2.r);
                let mv = self.read_mem(e);
                self.with_result_flags(w2.r, a ^ mv, false)
            },
            Operation2::CompareArithmetic => {
                let (a, _) = self.gr.get(w2.r, w2.r);
                let mv = self.read_mem(e);
                self.compare(signed_value(a), signed_value(mv))
            },
            Operation2::CompareLogical => {
                let (a, _) = self.gr.get(w2.r, w2.r);
                let mv = self.read_mem(e);
                self.compare(a as i32, mv as i32)
            },
            Operation2::ShiftLeftArithmetic
            | Operation2::ShiftLeftLogical
            | Operation2::ShiftRightArithmetic
            | Operation2::ShiftRightLogical => {
                proof {
                    assert(false);
                }
                self.dup()
            },
            Operation2::JumpOnMinus => self.jump_to(w2.x, word, self.sf),
            Operation2::JumpOnNonZero => self.jump_to(w2.x, word, !self.zf),
            Operation2::JumpOnZero => self.jump_to(w2.x, word, self.zf),
            Operation2::UnconditionalJump => self.jump_to(w2.x, word, true),
            Operation2::JumpOnPlus => self.jump_to(w2.x, word, !self.sf && !self.zf),
            Operation2::JumpOnOverflow => self.jump_to(w2.x, word, self.of),
            Operation2::Push => {
                let sp = self.sp.wrapping_sub(1);
                let mem = self.write_mem(sp, e);
                Machine { mem, sp, ..self.dup() }
            },
            Operation2::Call => {
                let sp = self.sp.wrapping_sub(1);
                let mem = self.write_mem(sp, self.pr);
                Machine { mem, sp, pr: e, ..self.dup() }
            },
        };
        Machine { previous_word: None, ..base }
    }

    /// The word at `addr`; total, since every 16-bit address is in range.
    fn read_mem(&self, addr: u16) -> (r: u16)
        requires
            self.wf(),
        ensures
            r == self@.mem[addr as int],
    {
        match self.mem.get(addr) {
            Ok(v) => v,
            Err(_) => {
                proof {
                    assert(false);
                }
                0
            },
        }
    }

    /// This memory with the word at `addr` replaced; total, since every
    /// 16-bit address is in range.
    fn write_mem(&self, addr: u16, value: u16) -> (r: Memory)
        requires
            self.wf(),
        ensures
            r@ == self@.mem.update(addr as int, value),
    {
        match self.mem.set(addr, value) {
            Ok(m) => m,
            Err(_) => {
                proof {
                    assert(false);
                }
                self.mem.clone()
            },
        }
    }

    /// Execute one fetched word, as `spec_exec` lays it out: consume the
    /// latch if one is set, otherwise decode and either execute or latch.
    fn exec(&self, word: u16) -> (r: Result<Machine, ExecError>)
        requires
            self.wf(),
            spec_exec(self@, word) is Some,
        ensures
            r matches Ok(m) ==> m.wf() && Some(Ok::<MachineView, ExecError>(m@)) == spec_exec(self@, word),
            r matches Err(e) ==> Some(Err::<MachineView, ExecError>(e)) == spec_exec(self@, word),
    {
        if let Some(w2) = self.previous_word {
            return Ok(self.exec2(w2, word));
        }
        match ope(word) {
            Err(e) => Err(ExecError::OperationNotDefined(e)),
            Ok(Instruction::OneWord(w1)) => Ok(
                match w1.operation {
                    Operation1::NoOperation => self.dup(),
                    Operation1::Load1 => self.load_1(w1.r1, w1.r2),
                    Operation1::AddArithmetic1 => self.add_arithmetic_1(w1.r1, w1.r2),
                    Operation1::SubtractArithmetic1 => self.subtract_arithmetic_1(w1.r1, w1.r2),
                    Operation1::AddLogical1 => self.add_logical_1(w1.r1, w1.r2),
                    Operation1::SubtractLogical1 => self.subtract_logical_1(w1.r1, w1.r2),
                    Operation1::And1 => self.and_1(w1.r1, w1.r2),
                    Operation1::Or1 => self.or_1(w1.r1, w1.r2),
                    Operation1::Xor1 => self.xor_1(w1.r1, w1.r2),
                    Operation1::CompareArithmetic => self.compare_arithmetic(w1.r1, w1.r2),
                    Operation1::CompareLogical => self.compare_logical(w1.r1, w1.r2),
                    Operation1::Pop => self.pop(w1.r1),
                    Operation1::Return => self.return_(),
                },
            ),
            Ok(Instruction::TwoWord(w2)) => Ok(Machine { previous_word: Some(w2), ..self.dup() }),
        }
    }

    /// One step: fetch the word at PR, advance PR by one (wrapping), then
    /// execute.  On an error the machine is unchanged — the caller keeps
    /// `self` — and the error says exactly which word refused to decode.
    pub fn clock(&self) -> (r: Result<Machine, StepError>)
        requires
            self.wf(),
            spec_step_defined(self@),
        ensures
            r matches Ok(m) ==> m.wf() && Some(Ok::<MachineView, StepError>(m@)) == spec_step(self@),
            r matches Err(e) ==> Some(Err::<MachineView, StepError>(e)) == spec_step(self@),
    {
        let word = self.read_mem(self.pr);
        let fetched = Machine { pr: self.pr.wrapping_add(1), ..self.dup() };
        match fetched.exec(word) {
            Ok(m) => Ok(m),
            Err(e) => Err(StepError::ExecError(e)),
        }
    }
}

/// Why a machine could not be built from a byte stream.
#[derive(Debug, Clone, Copy, PartialEq, Eq, Structural)]
pub enum MachineInitError {
    MemoryInitFailed(LoadProgramError),
}

/// The machine state a freshly loaded program starts in: the loaded memory
/// image, all registers zero, PR and SP at `STACK_SIZE`, flags clear, no
/// latched word.
pub open spec fn spec_init(bytes: Seq<u8>) -> MachineView {
    MachineView {
        mem: spec_load(bytes),
        gr: Seq::new(8, |i: int| 0u16),
        sp: STACK_SIZE as u16,
        pr: STACK_SIZE as u16,
        of: false,
        sf: false,
        zf: false,
        pending: None,
    }
}

impl Machine {
    /// Build the initial machine for a program byte stream; rejected only
    /// when the stream is too large for the memory above the stack region.
    pub fn init(bytes: &Vec<u8>) -> (r: Result<Machine, MachineInitError>)
        ensures
            r is Ok <==> bytes@.len() <= (MEMORY_SIZE - STACK_SIZE) * 2,
            r matches Ok(m) ==> m.wf() && m@ == spec_init(bytes@),
            r matches Err(e) ==> e == MachineInitError::MemoryInitFailed(
                LoadProgramError::TooLarge(bytes@.len() as usize),
            ),
    {
        match Memory::load_program(bytes) {
            Err(e) => Err(MachineInitError::MemoryInitFailed(e)),
            Ok(mem) => {
                let gr = GeneralRegister::new([0, 0, 0, 0, 0, 0, 0, 0]);
                proof {
                    assert(gr@ =~= Seq::new(8, |i: int| 0u16));
                }
                Ok(
                    Machine {
                        mem,
                        gr,
                        sp: STACK_SIZE as u16,
                        pr: STACK_SIZE as u16,
                        of: false,
                        sf: false,
                        zf: false,
                        previous_word: None,
                    },
                )
            },
        }
    }

    /// The stack region of memory — the first `STACK_SIZE` words — for
    /// inspection.
    pub fn mem_info(&self) -> (r: Vec<u16>)
        requires
            self.wf(),
        ensures
            r@ == self@.mem.subrange(0, STACK_SIZE as int),
    {
        let (stack, _) = self.mem.info();
        stack
    }

    /// The word PR points at.
    pub fn pr_at(&self) -> (r: u16)
        requires
            self.wf(),
        ensures
            r == self@.mem[self@.pr as int],
    {
        self.read_mem(self.pr)
    }

    /// The register file, PR and SP, for inspection.
    pub fn r_info(&self) -> (r: (GeneralRegister, u16, u16))
        ensures
            r.0@ == self@.gr,
            r.1 == self@.pr,
            r.2 == self@.sp,
    {
        (self.gr, self.pr, self.sp)
    }
}

} // verus!

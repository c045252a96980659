//! Decoding a fetched word into an instruction.
//!
//! A fetched word has the shape `OP[15:8] | R1[7:4] | R2[3:0]`.  The high
//! byte selects the operation; the table distinguishes one-word
//! (register-register) instructions from two-word instructions whose address
//! operand arrives with the next fetch.  A register field above 7 or a high
//! byte outside the table is a decode error.

use vstd::prelude::*;

verus! {

/// Operations whose encoding takes two words: the word holding the operation
/// and the register fields, then an address operand word.
#[derive(Debug, Clone, Copy, PartialEq, Eq, Structural)]
pub enum Operation2 {
    /// `GR[r] := memory[E]`; sets SF/ZF, clears OF.
    Load,
    /// `memory[E] := GR[r]`; flags preserved.
    Store,
    /// `GR[r] := E`; flags preserved.
    LoadAddress,
    /// Signed add of `memory[E]` into `GR[r]`; OF is the signed overflow.
    AddArithmetic,
    /// Signed subtract of `memory[E]` from `GR[r]`; OF is the signed overflow.
    SubtractArithmetic,
    /// Unsigned add of `memory[E]` into `GR[r]`; OF is the carry.
    AddLogical,
    /// Unsigned subtract of `memory[E]` from `GR[r]`; OF is the borrow.
    SubtractLogical,
    /// Bitwise and with `memory[E]`; sets SF/ZF, clears OF.
    And,
    /// Bitwise or with `memory[E]`; sets SF/ZF, clears OF.
    Or,
    /// Bitwise exclusive or with `memory[E]`; sets SF/ZF, clears OF.
    Xor,
    /// Signed compare of `GR[r]` with `memory[E]`; registers unchanged.
    CompareArithmetic,
    /// Unsigned compare of `GR[r]` with `memory[E]`; registers unchanged.
    CompareLogical,
    /// Decoded but with execution left undefined pending a reference.
    ShiftLeftArithmetic,
    /// Decoded but with execution left undefined pending a reference.
    ShiftLeftLogical,
    /// Decoded but with execution left undefined pending a reference.
    ShiftRightArithmetic,
    /// Decoded but with execution left undefined pending a reference.
    ShiftRightLogical,
    /// `PR := E` when SF is set; flags preserved.
    JumpOnMinus,
    /// `PR := E` when ZF is clear; flags preserved.
    JumpOnNonZero,
    /// `PR := E` when ZF is set; flags preserved.
    JumpOnZero,
    /// `PR := E` always; flags preserved.
    UnconditionalJump,
    /// `PR := E` when both SF and ZF are clear; flags preserved.
    JumpOnPlus,
    /// `PR := E` when OF is set; flags preserved.
    JumpOnOverflow,
    /// `SP := SP - 1; memory[SP] := E`; flags preserved.
    Push,
    /// `SP := SP - 1; memory[SP] := PR; PR := E`; flags preserved.
    Call,
}

/// Operations whose encoding is a single word holding two register fields.
#[derive(Debug, Clone, Copy, PartialEq, Eq, Structural)]
pub enum Operation1 {
    /// No state change; flags preserved.
    NoOperation,
    /// `GR[r1] := GR[r2]`; sets SF/ZF, clears OF.
    Load1,
    /// Signed add of `GR[r2]` into `GR[r1]`; OF is the signed overflow.
    AddArithmetic1,
    /// Signed subtract of `GR[r2]` from `GR[r1]`; OF is the signed overflow.
    SubtractArithmetic1,
    /// Unsigned add of `GR[r2]` into `GR[r1]`; OF is the carry.
    AddLogical1,
    /// Unsigned subtract of `GR[r2]` from `GR[r1]`; OF is the borrow.
    SubtractLogical1,
    /// Bitwise and of `GR[r2]` into `GR[r1]`; sets SF/ZF, clears OF.
    And1,
    /// Bitwise or of `GR[r2]` into `GR[r1]`; sets SF/ZF, clears OF.
    Or1,
    /// Bitwise exclusive or of `GR[r2]` into `GR[r1]`; sets SF/ZF, clears OF.
    Xor1,
    /// Signed compare of `GR[r1]` with `GR[r2]`; registers unchanged.
    CompareArithmetic,
    /// Unsigned compare of `GR[r1]` with `GR[r2]`; registers unchanged.
    CompareLogical,
    /// `GR[r1] := memory[SP]; SP := SP + 1`; flags preserved.
    Pop,
    /// `PR := memory[SP]; SP := SP + 1`; flags preserved.
    Return,
}

/// The number of a general register, 0 through 7.
#[derive(Debug, Clone, Copy, PartialEq, Eq, Structural)]
pub struct RegisterNumber(pub u8);

impl RegisterNumber {
    /// The number designates one of the eight general registers.
    pub open spec fn wf(&self) -> bool {
        self.0 <= 7
    }
}

/// A decode failure: the register fields of the rejected word, as the
/// architecture's 4-bit encoding gives them; at least one exceeds 7.
#[derive(Debug, Clone, Copy, PartialEq, Eq, Structural)]
pub struct RegisterOutOfIndex(pub u16, pub u16);

/// Why a word failed to decode.
#[derive(Debug, Clone, Copy, PartialEq, Eq, Structural)]
pub enum NewError {
    /// The high byte of the word, which the opcode table does not list.
    OperationNotDefined(u16),
    /// A register field exceeded 7.
    RegisterOutOfIndex(RegisterOutOfIndex),
}

/// A decoded one-word instruction.
#[derive(Debug, Clone, Copy, PartialEq, Eq, Structural)]
pub struct Word1 {
    pub operation: Operation1,
    pub r1: RegisterNumber,
    pub r2: RegisterNumber,
}

/// The decoded first word of a two-word instruction, latched while the
/// machine waits for the address operand.
#[derive(Debug, Clone, Copy, PartialEq, Eq, Structural)]
pub struct Word2 {
    pub operation: Operation2,
    pub r: RegisterNumber,
    pub x: RegisterNumber,
}

/// A decoded instruction: the tagged variant over the two encoding forms.
#[derive(Debug, Clone, Copy, PartialEq, Eq, Structural)]
pub enum Instruction {
    OneWord(Word1),
    TwoWord(Word2),
}

/// The operation selector of a fetched word: its high byte, kept in place
/// (`word & 0xFF00`).
pub open spec fn spec_op_field(word: u16) -> u16 {
    ((word / 256) * 256) as u16
}

/// The first register field of a fetched word: bits 7..4.
pub open spec fn spec_r1_field(word: u16) -> u16 {
    ((word / 16) % 16) as u16
}

/// The second register field of a fetched word: bits 3..0.
pub open spec fn spec_r2_field(word: u16) -> u16 {
    (word % 16) as u16
}

/// The one-word opcode table.
pub open spec fn spec_decode1(word: u16) -> Option<Operation1> {
    let op = spec_op_field(word);
    if op == 0x0000 {
        Some(Operation1::NoOperation)
    } else if op == 0x1400 {
        Some(Operation1::Load1)
    } else if op == 0x2400 {
        Some(Operation1::AddArithmetic1)
    } else if op == 0x2500 {
        Some(Operation1::SubtractArithmetic1)
    } else if op == 0x2600 {
        Some(Operation1::AddLogical1)
    } else if op == 0x2700 {
        Some(Operation1::SubtractLogical1)
    } else if op == 0x3400 {
        Some(Operation1::And1)
    } else if op == 0x3500 {
        Some(Operation1::Or1)
    } else if op == 0x3600 {
        Some(Operation1::Xor1)
    } else if op == 0x4400 {
        Some(Operation1::CompareArithmetic)
    } else if op == 0x4500 {
        Some(Operation1::CompareLogical)
    } else if op == 0x7100 {
        Some(Operation1::Pop)
    } else if op == 0x8100 {
        Some(Operation1::Return)
    } else {
        None
    }
}

/// The two-word opcode table.
pub open spec fn spec_decode2(word: u16) -> Option<Operation2> {
    let op = spec_op_field(word);
    if op == 0x1000 {
        Some(Operation2::Load)
    } else if op == 0x1100 {
        Some(Operation2::Store)
    } else if op == 0x1200 {
        Some(Operation2::LoadAddress)
    } else if op == 0x2000 {
        Some(Operation2::AddArithmetic)
    } else if op == 0x2100 {
        Some(Operation2::SubtractArithmetic)
    } else if op == 0x2200 {
        Some(Operation2::AddLogical)
    } else if op == 0x2300 {
        Some(Operation2::SubtractLogical)
    } else if op == 0x3000 {
        Some(Operation2::And)
    } else if op == 0x3100 {
        Some(Operation2::Or)
    } else if op == 0x3200 {
        Some(Operation2::Xor)
    } else if op == 0x4000 {
        Some(Operation2::CompareArithmetic)
    } else if op == 0x4100 {
        Some(Operation2::CompareLogical)
    } else if op == 0x5000 {
        Some(Operation2::ShiftLeftArithmetic)
    } else if op == 0x5100 {
        Some(Operation2::ShiftLeftLogical)
    } else if op == 0x5200 {
        Some(Operation2::ShiftRightArithmetic)
    } else if op == 0x5300 {
        Some(Operation2::ShiftRightLogical)
    } else if op == 0x6100 {
        Some(Operation2::JumpOnMinus)
    } else if op == 0x6200 {
        Some(Operation2::JumpOnNonZero)
    } else if op == 0x6300 {
        Some(Operation2::JumpOnZero)
    } else if op == 0x6400 {
        Some(Operation2::UnconditionalJump)
    } else if op == 0x6500 {
        Some(Operation2::JumpOnPlus)
    } else if op == 0x6600 {
        Some(Operation2::JumpOnOverflow)
    } else if op == 0x7000 {
        Some(Operation2::Push)
    } else if op == 0x8000 {
        Some(Operation2::Call)
    } else {
        None
    }
}

/// Full decoding of a fetched word: the register fields are checked first,
/// then the high byte is looked up, one-word forms before two-word forms.
pub open spec fn spec_decode(word: u16) -> Result<Instruction, NewError> {
    let r1 = spec_r1_field(word);
    let r2 = spec_r2_field(word);
    if r1 > 7 || r2 > 7 {
        Err(NewError::RegisterOutOfIndex(RegisterOutOfIndex(r1, r2)))
    } else {
        match spec_decode1(word) {
            Some(op) => Ok(
                Instruction::OneWord(
                    Word1 {
                        operation: op,
                        r1: RegisterNumber(r1 as u8),
                        r2: RegisterNumber(r2 as u8),
                    },
                ),
            ),
            None => match spec_decode2(word) {
                Some(op) => Ok(
                    Instruction::TwoWord(
                        Word2 {
                            operation: op,
                            r: RegisterNumber(r1 as u8),
                            x: RegisterNumber(r2 as u8),
                        },
                    ),
                ),
                None => Err(NewError::OperationNotDefined(spec_op_field(word))),
            },
        }
    }
}

/// Both register fields of a decoded instruction are in range.
pub open spec fn instruction_wf(ins: Instruction) -> bool {
    match ins {
        Instruction::OneWord(w1) => w1.r1.wf() && w1.r2.wf(),
        Instruction::TwoWord(w2) => w2.r.wf() && w2.x.wf(),
    }
}

impl Operation1 {
    /// Look the word's high byte up in the one-word opcode table.
    pub fn new(word: u16) -> (r: Result<Operation1, NewError>)
        ensures
            r is Ok <==> spec_decode1(word) is Some,
            r matches Ok(op) ==> spec_decode1(word) == Some(op),
            r matches Err(e) ==> e == NewError::OperationNotDefined(spec_op_field(word)),
    {
        let op = word & 0xFF00;
        proof {
            assert((word & 0xFF00) == (word / 256) * 256) by (bit_vector);
        }
        match op {
            0x0000 => Ok(Operation1::NoOperation),
            0x1400 => Ok(Operation1::Load1),
            0x2400 => Ok(Operation1::AddArithmetic1),
            0x2500 => Ok(Operation1::SubtractArithmetic1),
            0x2600 => Ok(Operation1::AddLogical1),
            0x2700 => Ok(Operation1::SubtractLogical1),
            0x3400 => Ok(Operation1::And1),
            0x3500 => Ok(Operation1::Or1),
            0x3600 => Ok(Operation1::Xor1),
            0x4400 => Ok(Operation1::CompareArithmetic),
            0x4500 => Ok(Operation1::CompareLogical),
            0x7100 => Ok(Operation1::Pop),
            0x8100 => Ok(Operation1::Return),
            _ => Err(NewError::OperationNotDefined(op)),
        }
    }
}

impl Operation2 {
    /// Look the word's high byte up in the two-word opcode table.
    pub fn new(word: u16) -> (r: Result<Operation2, NewError>)
        ensures
            r is Ok <==> spec_decode2(word) is Some,
            r matches Ok(op) ==> spec_decode2(word) == Some(op),
            r matches Err(e) ==> e == NewError::OperationNotDefined(spec_op_field(word)),
    {
        let op = word & 0xFF00;
        proof {
            assert((word & 0xFF00) == (word / 256) * 256) by (bit_vector);
        }
        match op {
            0x1000 => Ok(Operation2::Load),
            0x1100 => Ok(Operation2::Store),
            0x1200 => Ok(Operation2::LoadAddress),
            0x2000 => Ok(Operation2::AddArithmetic),
            0x2100 => Ok(Operation2::SubtractArithmetic),
            0x2200 => Ok(Operation2::AddLogical),
            0x2300 => Ok(Operation2::SubtractLogical),
            0x3000 => Ok(Operation2::And),
            0x3100 => Ok(Operation2::Or),
            0x3200 => Ok(Operation2::Xor),
            0x4000 => Ok(Operation2::CompareArithmetic),
            0x4100 => Ok(Operation2::CompareLogical),
            0x5000 => Ok(Operation2::ShiftLeftArithmetic),
            0x5100 => Ok(Operation2::ShiftLeftLogical),
            0x5200 => Ok(Operation2::ShiftRightArithmetic),
            0x5300 => Ok(Operation2::ShiftRightLogical),
            0x6100 => Ok(Operation2::JumpOnMinus),
            0x6200 => Ok(Operation2::JumpOnNonZero),
            0x6300 => Ok(Operation2::JumpOnZero),
            0x6400 => Ok(Operation2::UnconditionalJump),
            0x6500 => Ok(Operation2::JumpOnPlus),
            0x6600 => Ok(Operation2::JumpOnOverflow),
            0x7000 => Ok(Operation2::Push),
            0x8000 => Ok(Operation2::Call),
            _ => Err(NewError::OperationNotDefined(op)),
        }
    }
}

impl RegisterNumber {
    /// A register number from a field value, refused above 7.
    pub fn new(n: u16) -> (r: Option<RegisterNumber>)
        ensures
            r is Some <==> n <= 7,
            r matches Some(rn) ==> rn.0 as u16 == n && rn.wf(),
    {
        if n <= 7 {
            Some(RegisterNumber(n as u8))
        } else {
            None
        }
    }

    /// Extract and check both register fields of a fetched word.
    pub fn new_pair(word: u16) -> (r: Result<(RegisterNumber, RegisterNumber), RegisterOutOfIndex>)
        ensures
            r is Ok <==> spec_r1_field(word) <= 7 && spec_r2_field(word) <= 7,
            r matches Ok((a, b)) ==> a.0 as u16 == spec_r1_field(word) && b.0 as u16
                == spec_r2_field(word) && a.wf() && b.wf(),
            r matches Err(e) ==> e == RegisterOutOfIndex(spec_r1_field(word), spec_r2_field(word)),
    {
        let r1_r = (word & 0x00F0) >> 4u16;
        let r2_x = word & 0x000F;
        proof {
            assert(((word & 0x00F0) >> 4u16) == (word / 16) % 16 && (word & 0x000F) == word % 16)
                by (bit_vector);
        }
        match (RegisterNumber::new(r1_r), RegisterNumber::new(r2_x)) {
            (Some(a), Some(b)) => Ok((a, b)),
            _ => Err(RegisterOutOfIndex(r1_r, r2_x)),
        }
    }
}

/// Decode a fetched word into an instruction, as `spec_decode` lays it out.
pub fn ope(word: u16) -> (r: Result<Instruction, NewError>)
    ensures
        r == spec_decode(word),
        r matches Ok(ins) ==> instruction_wf(ins),
{
    match RegisterNumber::new_pair(word) {
        Err(e) => Err(NewError::RegisterOutOfIndex(e)),
        Ok((r1, r2)) => match Operation1::new(word) {
            Ok(op) => Ok(Instruction::OneWord(Word1 { operation: op, r1, r2 })),
            Err(_) => match Operation2::new(word) {
                Ok(op) => Ok(Instruction::TwoWord(Word2 { operation: op, r: r1, x: r2 })),
                Err(e) => Err(e),
            },
        },
    }
}

/// A pair of general-register numbers, for operations of the shape
/// `R1 := f(R1, R2)`.
#[derive(Debug, Clone, Copy, PartialEq, Eq, Structural)]
pub struct TwoRegisters {
    pub r1: u16,
    pub r2: u16,
}

impl TwoRegisters {
    /// Both numbers, in order.
    pub fn get_pair(&self) -> (r: (&u16, &u16))
        ensures
            *r.0 == self.r1,
            *r.1 == self.r2,
    {
        let TwoRegisters { r1, r2 } = self;
        (r1, r2)
    }
}

} // verus!

//! The eight general registers GR0 through GR7.
//!
//! Any general register may serve as an index register; no register is
//! special-cased.

use vstd::prelude::*;

use crate::operations::RegisterNumber;
use crate::operations::TwoRegisters;
use crate::utils::lemma_u16_as_i16;
use crate::utils::spec_signed;

verus! {

/// The register file: one word per general register.
#[derive(Debug, Clone, Copy)]
pub struct GeneralRegister(pub [u16; 8]);

impl View for GeneralRegister {
    type V = Seq<u16>;

    open spec fn view(&self) -> Seq<u16> {
        self.0@
    }
}

impl GeneralRegister {
    /// A register file holding the given words, GR0 first.
    pub fn new(gr: [u16; 8]) -> (r: GeneralRegister)
        ensures
            r@ == gr@,
    {
        GeneralRegister(gr)
    }

    /// The index register that the second number of `two` designates.
    pub fn index(&self, two: TwoRegisters) -> (r: IndexRegister)
        requires
            two.r2 < 8,
        ensures
            r.0 == self@[two.r2 as int],
    {
        let (_, num_of_index_register) = two.get_pair();
        IndexRegister(self.0[*num_of_index_register as usize])
    }

    /// The unsigned values of the two designated registers.
    pub fn get(&self, r1: RegisterNumber, r2: RegisterNumber) -> (r: (u16, u16))
        requires
            r1.wf(),
            r2.wf(),
        ensures
            r.0 == self@[r1.0 as int],
            r.1 == self@[r2.0 as int],
    {
        (self.0[r1.0 as usize], self.0[r2.0 as usize])
    }

    /// The two designated registers reinterpreted as signed 16-bit values,
    /// for the arithmetic operations.
    pub fn get_arithmetic(&self, r1: RegisterNumber, r2: RegisterNumber) -> (r: (i16, i16))
        requires
            r1.wf(),
            r2.wf(),
        ensures
            r.0 as int == spec_signed(self@[r1.0 as int]),
            r.1 as int == spec_signed(self@[r2.0 as int]),
    {
        let a = self.0[r1.0 as usize];
        let b = self.0[r2.0 as usize];
        proof {
            lemma_u16_as_i16(a);
            lemma_u16_as_i16(b);
        }
        (a as i16, b as i16)
    }

    /// A register file equal to this one but with `GR[r1]` set to
    /// `r1_value`.
    pub fn set(&self, r1: RegisterNumber, r1_value: u16) -> (r: GeneralRegister)
        requires
            r1.wf(),
        ensures
            r@ == self@.update(r1.0 as int, r1_value),
    {
        let mut gr = self.0;
        gr[r1.0 as usize] = r1_value;
        GeneralRegister(gr)
    }
}

/// The value of the register picked as index register.
#[derive(Debug, Clone, Copy)]
pub struct IndexRegister(pub u16);

impl IndexRegister {
    /// An index-register value.
    pub fn new(gr: u16) -> (r: IndexRegister)
        ensures
            r.0 == gr,
    {
        IndexRegister(gr)
    }

    /// The held word.
    pub fn value(&self) -> (r: u16)
        ensures
            r == self.0,
    {
        self.0
    }
}

} // verus!

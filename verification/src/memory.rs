//! COMET2 memory: 65,536 words of 16 bits each.
//!
//! A program image arrives as a big-endian byte stream: every two bytes form
//! one word (first byte high), and a trailing unpaired byte is dropped.  The
//! words are placed starting at address `STACK_SIZE`; the addresses below are
//! reserved for the stack and start out zeroed, as does everything past the
//! image.

use vstd::prelude::*;

use crate::machine::STACK_SIZE;
use crate::to_pairs::spec_pairs;
use crate::to_pairs::to_pairs;

verus! {

/// Number of words in memory: one for every 16-bit address.
pub const MEMORY_SIZE: usize = 65536;

/// The word formed by a byte pair, first byte high: `hi * 256 + lo`.
pub open spec fn spec_word_of_bytes(hi: u8, lo: u8) -> u16 {
    (hi * 256 + lo) as u16
}

/// Pack a byte pair into a word, the first byte occupying the high 8 bits.
pub fn u8u8_2_u16(pair: (u8, u8)) -> (r: u16)
    ensures
        r == spec_word_of_bytes(pair.0, pair.1),
{
    let x: u16 = pair.0 as u16;
    let y: u16 = pair.1 as u16;
    assert((x << 8u16) == x * 256 && (x << 8u16) <= 0xFF00) by (bit_vector)
        requires
            x <= 255,
    ;
    (x << 8u16) + y
}

/// The memory image that loading the byte stream `bytes` produces: words of
/// consecutive byte pairs from address `STACK_SIZE` up, zero elsewhere.
pub open spec fn spec_load(bytes: Seq<u8>) -> Seq<u16> {
    Seq::new(
        MEMORY_SIZE as nat,
        |a: int|
            if STACK_SIZE <= a < STACK_SIZE + bytes.len() / 2 {
                spec_word_of_bytes(bytes[2 * (a - STACK_SIZE)], bytes[2 * (a - STACK_SIZE) + 1])
            } else {
                0u16
            },
    )
}

/// The big-endian byte stream that denotes `words`: each word contributes its
/// high byte and then its low byte.
pub open spec fn spec_encode(words: Seq<u16>) -> Seq<u8> {
    Seq::new(
        2 * words.len(),
        |i: int|
            if i % 2 == 0 {
                (words[i / 2] / 256) as u8
            } else {
                (words[i / 2] % 256) as u8
            },
    )
}

/// A full 65,536-word memory.
#[derive(Debug)]
pub struct Memory(pub Vec<u16>);

impl View for Memory {
    type V = Seq<u16>;

    open spec fn view(&self) -> Seq<u16> {
        self.0@
    }
}

impl Memory {
    /// Every 16-bit address has a cell.
    pub open spec fn wf(&self) -> bool {
        self@.len() == MEMORY_SIZE
    }
}

impl Clone for Memory {
    fn clone(&self) -> (r: Self)
        ensures
            r@ == self@,
    {
        let cells = self.0.clone();
        proof {
            assert(cells@ =~= self.0@);
        }
        Memory(cells)
    }
}

/// Why a byte stream was rejected.
#[derive(Debug, Clone, Copy, PartialEq, Eq, Structural)]
pub enum LoadProgramError {
    /// The stream holds more bytes than fit above the stack region; the
    /// payload is the offending length.
    TooLarge(usize),
}

/// Why a memory access failed.  With 16-bit addresses over a 65,536-word
/// array no access is ever out of range; the kind is kept for defensive
/// symmetry.
#[derive(Debug, Clone, Copy, PartialEq, Eq, Structural)]
pub enum GetError {
    /// The payload is the offending address.
    OutOfIndex(usize),
}

impl Memory {
    /// Build the memory image for a program byte stream: words at
    /// `STACK_SIZE` and up, zero elsewhere.  Streams longer than the space
    /// above the stack region are rejected.
    pub fn load_program(bytes: &Vec<u8>) -> (r: Result<Memory, LoadProgramError>)
        ensures
            r is Ok <==> bytes@.len() <= (MEMORY_SIZE - STACK_SIZE) * 2,
            r matches Ok(m) ==> m.wf() && m@ == spec_load(bytes@),
            r matches Err(e) ==> e == LoadProgramError::TooLarge(bytes@.len() as usize),
    {
        if bytes.len() > (MEMORY_SIZE - STACK_SIZE) * 2 {
            return Err(LoadProgramError::TooLarge(bytes.len()));
        }
        let pairs = to_pairs(bytes);
        let mut cells: Vec<u16> = Vec::new();
        while cells.len() < STACK_SIZE
        invariant
            cells@.len() <= STACK_SIZE,
            forall|j: int| 0 <= j < cells@.len() ==> cells@[j] == 0u16,
        decreases STACK_SIZE - cells@.len(),
        {
            cells.push(0);
        }
        let mut i: usize = 0;
        while i < pairs.len()
        invariant
            pairs@ == spec_pairs(bytes@),
            pairs@.len() <= MEMORY_SIZE - STACK_SIZE,
            i <= pairs@.len(),
            cells@.len() == STACK_SIZE + i,
            forall|j: int| 0 <= j < STACK_SIZE ==> cells@[j] == 0u16,
            forall|j: int|
                0 <= j < i ==> #[trigger] cells@[STACK_SIZE + j] == spec_word_of_bytes(
                    bytes@[2 * j],
                    bytes@[2 * j + 1],
                ),
        decreases pairs@.len() - i,
        {
            let w = u8u8_2_u16(pairs[i]);
            cells.push(w);
            i = i + 1;
        }
        while cells.len() < MEMORY_SIZE
        invariant
            pairs@.len() == bytes@.len() / 2,
            STACK_SIZE + pairs@.len() <= cells@.len() <= MEMORY_SIZE,
            forall|j: int| 0 <= j < STACK_SIZE ==> cells@[j] == 0u16,
            forall|j: int|
                0 <= j < pairs@.len() ==> #[trigger] cells@[STACK_SIZE + j] == spec_word_of_bytes(
                    bytes@[2 * j],
                    bytes@[2 * j + 1],
                ),
            forall|j: int| STACK_SIZE + pairs@.len() <= j < cells@.len() ==> cells@[j] == 0u16,
        decreases MEMORY_SIZE - cells@.len(),
        {
            cells.push(0);
        }
        let m = Memory(cells);
        proof {
            assert forall|a: int| 0 <= a < MEMORY_SIZE implies m@[a] == spec_load(bytes@)[a] by {
                if STACK_SIZE <= a < STACK_SIZE + bytes@.len() / 2 {
                    let j = a - STACK_SIZE;
                    assert(m@[STACK_SIZE + j] == spec_word_of_bytes(
                        bytes@[2 * j],
                        bytes@[2 * j + 1],
                    ));
                }
            }
            assert(m@ =~= spec_load(bytes@));
        }
        Ok(m)
    }

    /// The word at `index`; never actually out of range for a well-formed
    /// memory, since every 16-bit address is valid.
    pub fn get(&self, index: u16) -> (r: Result<u16, GetError>)
        ensures
            r matches Ok(v) ==> (index as int) < self@.len() && v == self@[index as int],
            r matches Err(e) ==> self@.len() <= index as int && e == GetError::OutOfIndex(
                index as usize,
            ),
    {
        let index = index as usize;
        if index < self.0.len() {
            Ok(self.0[index])
        } else {
            Err(GetError::OutOfIndex(index))
        }
    }

    /// A copy of this memory with the cell at `index` set to `value`; the
    /// same out-of-range contract as `get`.
    pub fn set(&self, index: u16, value: u16) -> (r: Result<Memory, GetError>)
        ensures
            r matches Ok(m) ==> (index as int) < self@.len() && m@ == self@.update(
                index as int,
                value,
            ),
            r matches Err(e) ==> self@.len() <= index as int && e == GetError::OutOfIndex(
                index as usize,
            ),
    {
        let idx = index as usize;
        if idx < self.0.len() {
            let mut cells = self.clone().0;
            cells[idx] = value;
            Ok(Memory(cells))
        } else {
            Err(GetError::OutOfIndex(idx))
        }
    }

    /// The stack region (addresses up to `STACK_SIZE`) and the first
    /// `STACK_SIZE` words of the program region, for inspection.
    pub fn info(&self) -> (r: (Vec<u16>, Vec<u16>))
        requires
            self.wf(),
        ensures
            r.0@ == self@.subrange(0, STACK_SIZE as int),
            r.1@ == self@.subrange(STACK_SIZE as int, 2 * STACK_SIZE as int),
    {
        let stack = copy_range(&self.0, 0, STACK_SIZE);
        let program = copy_range(&self.0, STACK_SIZE, 2 * STACK_SIZE);
        (stack, program)
    }
}

/// Encode words as the big-endian byte stream that `load_program` reads back:
/// high byte first for every word.
pub fn encode_words(words: &Vec<u16>) -> (r: Vec<u8>)
    ensures
        r@ == spec_encode(words@),
{
    let mut r: Vec<u8> = Vec::new();
    let mut i: usize = 0;
    while i < words.len()
        invariant
            i <= words@.len(),
            r@.len() == 2 * i,
            forall|j: int| 0 <= j < i ==> r@[2 * j] == (words@[j] / 256) as u8,
            forall|j: int| 0 <= j < i ==> r@[2 * j + 1] == (words@[j] % 256) as u8,
        decreases words@.len() - i,
    {
        let w = words[i];
        r.push((w / 256) as u8);
        r.push((w % 256) as u8);
        i = i + 1;
    }
    proof {
        assert(r@ =~= spec_encode(words@));
    }
    r
}

/// The words of `v` with indices in `from..to`.
fn copy_range(v: &Vec<u16>, from: usize, to: usize) -> (r: Vec<u16>)
    requires
        from <= to <= v@.len(),
    ensures
        r@ == v@.subrange(from as int, to as int),
{
    let mut r: Vec<u16> = Vec::new();
    let mut i: usize = from;
    while i < to
        invariant
            from <= i <= to <= v@.len(),
            r@.len() == i - from,
            forall|j: int| 0 <= j < r@.len() ==> r@[j] == v@[from + j],
        decreases to - i,
    {
        r.push(v[i]);
        i = i + 1;
    }
    proof {
        assert(r@ =~= v@.subrange(from as int, to as int));
    }
    r
}

} // verus!

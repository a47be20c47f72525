//! Hardware accesses and the steps of a hardware procedure.
//!
//! A procedure is called with the replies to the accesses it has asked for so
//! far, oldest first. A write is an access too and also has a reply, whose
//! value is never looked at. The call answers with the next access, or with
//! the result and the number of replies that the procedure has used.

use vstd::prelude::*;
use vstd::slice::slice_subrange;

verus! {

/// One access to the hardware.
#[derive(Debug, Clone, Copy, PartialEq, Eq, Structural)]
pub enum Access {
    /// Read the 32-bit register at `offset` from the BAR0 mapping at `bar0`.
    ReadRegister { bar0: u64, offset: u32 },
    /// Write the 32-bit register at `offset` from the BAR0 mapping at `bar0`.
    WriteRegister { bar0: u64, offset: u32, value: u32 },
    /// Read the PCI configuration dword that `address` selects.
    ReadConfig { address: u32 },
    /// Write the PCI configuration dword that `address` selects.
    WriteConfig { address: u32, value: u32 },
    /// Read the 32-bit word at a CPU virtual address.
    ReadMemory { va: u64 },
    /// Read the byte at a CPU virtual address.
    ReadByte { va: u64 },
    /// Write the byte at a CPU virtual address.
    WriteByte { va: u64, byte: u8 },
    /// Write the 32-bit word at a physical address of VRAM.
    WriteVram { phys_addr: u64, word: u32 },
}

/// What a hardware procedure does next.
#[derive(Debug, PartialEq, Eq)]
pub enum Step<T> {
    /// Perform this access and call again with its reply appended.
    Next(Access),
    /// The procedure is over. It has used the first `used` replies.
    Done { result: T, used: usize },
}

impl<T: DeepView> DeepView for Step<T> {
    type V = Step<T::V>;

    open spec fn deep_view(&self) -> Step<T::V> {
        match self {
            Step::Next(access) => Step::Next(*access),
            Step::Done { result, used } => Step::Done { result: result.deep_view(), used: *used },
        }
    }
}

/// The step of a procedure that performs `accesses` in order and then ends
/// with `result`.
pub open spec fn perform<T>(accesses: Seq<Access>, replies: Seq<u32>, result: T) -> Step<T> {
    if replies.len() < accesses.len() {
        Step::Next(accesses[replies.len() as int])
    } else {
        Step::Done { result, used: accesses.len() as usize }
    }
}

/// The replies from position `at` on.
pub fn tail(replies: &[u32], at: usize) -> (rest: &[u32])
    requires
        at <= replies@.len(),
    ensures
        rest@ == replies@.skip(at as int),
{
    slice_subrange(replies, at, replies.len())
}

/// A 64-bit word from its two halves.
pub open spec fn word64(hi: u32, lo: u32) -> u64 {
    (hi * 0x1_0000_0000 + lo) as u64
}

/// Joins two 32-bit halves.
pub fn join_halves(hi: u32, lo: u32) -> (word: u64)
    ensures
        word == word64(hi, lo),
        word == hi * 0x1_0000_0000 + lo,
{
    hi as u64 * 0x1_0000_0000 + lo as u64
}

/// The high 32 bits of a word.
pub open spec fn high_half(word: u64) -> u32 {
    (word / 0x1_0000_0000) as u32
}

/// The low 32 bits of a word.
pub open spec fn low_half(word: u64) -> u32 {
    (word % 0x1_0000_0000) as u32
}

/// Splits a word into its high and low 32 bits.
pub fn split_word(word: u64) -> (halves: (u32, u32))
    ensures
        halves.0 == high_half(word),
        halves.1 == low_half(word),
{
    ((word / 0x1_0000_0000) as u32, (word % 0x1_0000_0000) as u32)
}

/// Splitting a word and joining the halves again gives the word back, and
/// joining two halves and splitting gives them back.
pub proof fn split_join_round_trip(word: u64, hi: u32, lo: u32)
    ensures
        word64(high_half(word), low_half(word)) == word,
        high_half(word64(hi, lo)) == hi,
        low_half(word64(hi, lo)) == lo,
{
}

/// The halves of a word are its digits to the base 2^32, the high half first.
pub proof fn halves_are_digits(word: u64, hi: u32, lo: u32)
    ensures
        high_half(word) * 0x1_0000_0000 + low_half(word) == word,
        word64(hi, lo) - lo == hi * 0x1_0000_0000,
{
}

/// A procedure that performs accesses in order asks for each once all before it
/// have been answered, and ends when the last has been.
pub proof fn performs_each_access_once<T>(accesses: Seq<Access>, replies: Seq<u32>, result: T)
    requires
        replies.len() <= usize::MAX,
    ensures
        forall|k: int|
            0 <= k < accesses.len() && replies.len() == k ==> perform(accesses, replies, result)
                == Step::<T>::Next(#[trigger] accesses[k]),
        replies.len() >= accesses.len() ==> perform(accesses, replies, result) == (Step::Done {
            result,
            used: accesses.len() as usize,
        }),
{
}

/// The model of a step is the same access, or the same number of replies with
/// the model of the result.
pub proof fn step_model_keeps_the_step<T: DeepView>(step: Step<T>)
    ensures
        match step {
            Step::Next(access) => step.deep_view() == Step::<T::V>::Next(access),
            Step::Done { result, used } => step.deep_view() == (Step::Done {
                result: result.deep_view(),
                used,
            }),
        },
{
}

} // verus!

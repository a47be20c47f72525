//! Copies between system memory and memory that the CPU has mapped.

use vstd::prelude::*;
use crate::access::{perform, Access, Step};

verus! {

/// The accesses that copy `bytes` to the CPU address `va`, byte by byte.
pub open spec fn copy_in_accesses(va: u64, bytes: Seq<u8>) -> Seq<Access> {
    Seq::new(
        bytes.len(),
        |i: int| Access::WriteByte { va: (va + i) as u64, byte: bytes[i] },
    )
}

/// The accesses that read `len` bytes from the CPU address `va`.
pub open spec fn copy_out_accesses(va: u64, len: nat) -> Seq<Access> {
    Seq::new(len, |i: int| Access::ReadByte { va: (va + i) as u64 })
}

/// The bytes that the first `len` replies hold.
pub open spec fn received(replies: Seq<u32>, len: nat) -> Seq<u8> {
    Seq::new(len, |i: int| (replies[i] % 0x100) as u8)
}

/// Whether `len` bytes from `va` on have addresses.
pub open spec fn addressable(va: u64, len: int) -> bool {
    va + len <= u64::MAX + 1
}

/// Whether `len` bytes from `va` on have addresses.
pub fn is_addressable(va: u64, len: usize) -> (has: bool)
    ensures
        has == addressable(va, len as int),
{
    len == 0 || (len - 1) as u64 <= u64::MAX - va
}

/// Copies bytes to a CPU address.
pub fn copy_in(va: u64, bytes: &[u8], replies: &[u32]) -> (step: Step<()>)
    requires
        addressable(va, bytes@.len() as int),
    ensures
        step == perform(copy_in_accesses(va, bytes@), replies@, ()),
{
    let n: usize = replies.len();
    if n < bytes.len() {
        Step::Next(Access::WriteByte { va: va + n as u64, byte: bytes[n] })
    } else {
        Step::Done { result: (), used: bytes.len() }
    }
}

/// Copies bytes from a CPU address into a buffer, which is filled once all of
/// them have been read.
pub fn copy_out(va: u64, buffer: &mut [u8], replies: &[u32]) -> (step: Step<()>)
    requires
        addressable(va, old(buffer)@.len() as int),
    ensures
        step == perform(copy_out_accesses(va, old(buffer)@.len()), replies@, ()),
        step is Done ==> final(buffer)@ == received(replies@, old(buffer)@.len()),
        step is Next ==> final(buffer)@ == old(buffer)@,
{
    let n: usize = replies.len();
    let len: usize = buffer.len();
    if n < len {
        return Step::Next(Access::ReadByte { va: va + n as u64 });
    }
    let mut i: usize = 0;
    while i < len
        invariant
            i <= len <= replies@.len(),
            buffer@.len() == len,
            forall|j: int| 0 <= j < i ==> buffer@[j] == #[trigger] received(replies@, len as nat)[j],
        decreases len - i,
    {
        buffer[i] = (replies[i] % 0x100) as u8;
        i = i + 1;
    }
    assert(buffer@ =~= received(replies@, len as nat));
    Step::Done { result: (), used: len }
}

/// What the memory that the CPU has mapped holds after an access.
pub open spec fn memory_after(memory: spec_fn(int) -> u8, access: Access) -> spec_fn(int) -> u8 {
    match access {
        Access::WriteByte { va, byte } => |at: int|
            if at == va {
                byte
            } else {
                memory(at)
            },
        _ => memory,
    }
}

/// What the memory that the CPU has mapped holds after a series of accesses.
pub open spec fn memory_after_all(
    memory: spec_fn(int) -> u8,
    accesses: Seq<Access>,
) -> spec_fn(int) -> u8
    decreases accesses.len(),
{
    if accesses.len() == 0 {
        memory
    } else {
        memory_after(memory_after_all(memory, accesses.drop_last()), accesses.last())
    }
}

/// Whether `replies` are what reading bytes from such a memory gives.
pub open spec fn reads_from(
    memory: spec_fn(int) -> u8,
    accesses: Seq<Access>,
    replies: Seq<u32>,
) -> bool {
    replies.len() == accesses.len() && forall|i: int|
        0 <= i < accesses.len() ==> (#[trigger] accesses[i] matches Access::ReadByte { va }
            ==> replies[i] == memory(va as int))
}

/// A copy writes its bytes where it is told and leaves every other byte of
/// memory as it was.
pub proof fn copy_in_writes_only_its_bytes(
    memory: spec_fn(int) -> u8,
    va: u64,
    bytes: Seq<u8>,
    at: int,
)
    requires
        addressable(va, bytes.len() as int),
    ensures
        memory_after_all(memory, copy_in_accesses(va, bytes))(at) == if va <= at < va
            + bytes.len() {
            bytes[at - va]
        } else {
            memory(at)
        },
    decreases bytes.len(),
{
    if bytes.len() > 0 {
        copy_in_writes_only_its_bytes(memory, va, bytes.drop_last(), at);
        assert(copy_in_accesses(va, bytes).drop_last() =~= copy_in_accesses(
            va,
            bytes.drop_last(),
        ));
    }
}

/// Copying bytes in and reading as many back from the same address gives the
/// bytes back.
pub proof fn copy_round_trip(
    memory: spec_fn(int) -> u8,
    va: u64,
    bytes: Seq<u8>,
    replies: Seq<u32>,
)
    requires
        addressable(va, bytes.len() as int),
        reads_from(
            memory_after_all(memory, copy_in_accesses(va, bytes)),
            copy_out_accesses(va, bytes.len()),
            replies,
        ),
    ensures
        received(replies, bytes.len()) == bytes,
{
    let after = memory_after_all(memory, copy_in_accesses(va, bytes));
    assert forall|i: int| 0 <= i < bytes.len() implies received(replies, bytes.len())[i]
        == bytes[i] by {
        copy_in_writes_only_its_bytes(memory, va, bytes, va + i);
        assert(copy_out_accesses(va, bytes.len())[i] is ReadByte);
    }
    assert(received(replies, bytes.len()) =~= bytes);
}

/// Bytes are copied one by one in order: byte `i` at `i` bytes from the start.
pub proof fn copies_run_byte_by_byte(va: u64, bytes: Seq<u8>, replies: Seq<u32>, i: int)
    requires
        addressable(va, bytes.len() as int),
        0 <= i < bytes.len(),
    ensures
        copy_in_accesses(va, bytes).len() == bytes.len(),
        copy_in_accesses(va, bytes)[i] matches Access::WriteByte { va: at, byte } && at == va + i
            && byte == bytes[i],
        copy_out_accesses(va, bytes.len()).len() == bytes.len(),
        copy_out_accesses(va, bytes.len())[i] matches Access::ReadByte { va: at } && at == va + i,
        received(replies, bytes.len())[i] as int == replies[i] - replies[i] / 0x100 * 0x100,
{
}

/// A range is addressable if its last byte has an address.
pub proof fn addressable_ranges_end_in_memory(va: u64, len: int)
    requires
        len > 0,
    ensures
        addressable(va, len) <==> va + (len - 1) < 0x1_0000_0000_0000_0000,
        addressable(va, 0),
{
}

} // verus!

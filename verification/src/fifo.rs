//! Command submission: method headers, GPFIFO entries, channels and runlists.
//!
//! Commands are written to a channel's push buffer. A GPFIFO entry points the
//! GPU at each segment of it, and a doorbell write tells the GPU how far the
//! GPFIFO ring has been filled.

use vstd::prelude::*;
use crate::access::{high_half, low_half, perform, split_word, Access, Step};
use crate::memory::{
    allocate_keeps_wf, allocation_is_placed, GpuAllocation, VramAllocator, VramView,
};
use crate::mmio::{GpuRegs, NV_PFIFO_INTR_0, NV_PFIFO_INTR_EN_0};

verus! {

/// A method command header: operation from bit 28 on, word count in bits
/// [28:16], subchannel in [15:13], method number (in words) in [12:0]. Bit 28
/// is both the lowest of the operation and the highest of the count, so that it
/// belongs to the count alone where the operation is even.
pub open spec fn method_header(operation: u32, subchannel: u32, method: u32, count: u32) -> u32 {
    (operation << 28) | ((count & 0x1FFF) << 16) | ((subchannel & 0x7) << 13) | (method >> 2)
}

/// Operation of an incrementing method.
pub const METHOD_INCR: u32 = 0x1;

/// Operation of a non-incrementing method.
pub const METHOD_NONINCR: u32 = 0x2;

/// Encodes a non-incrementing method header: all data words go to `method`.
pub fn gpu_method_nonincr(subchannel: u32, method: u32, count: u32) -> (header: u32)
    ensures
        header == method_header(METHOD_NONINCR, subchannel, method, count),
{
    (METHOD_NONINCR << 28) | ((count & 0x1FFF) << 16) | ((subchannel & 0x7) << 13) | (method >> 2)
}

/// Encodes an incrementing method header: the data words go to `method`,
/// `method + 4` and so on.
pub fn gpu_method_incr(subchannel: u32, method: u32, count: u32) -> (header: u32)
    ensures
        header == method_header(METHOD_INCR, subchannel, method, count),
{
    (METHOD_INCR << 28) | ((count & 0x1FFF) << 16) | ((subchannel & 0x7) << 13) | (method >> 2)
}

/// Encodes a header for a single data word.
pub fn gpu_method_1(subchannel: u32, method: u32) -> (header: u32)
    ensures
        header == method_header(METHOD_INCR, subchannel, method, 1),
{
    gpu_method_incr(subchannel, method, 1)
}

/// A GPFIFO entry: points to a segment of the push buffer.
#[derive(Debug, Clone, Copy, PartialEq, Eq, Structural)]
pub struct GpfifoEntry {
    /// Address bits [31:0].
    pub lo: u32,
    /// Address bits [39:32] in [7:0], length in [30:8], flags in [31].
    pub hi: u32,
}

impl GpfifoEntry {
    /// The entry for a segment, with its no-prefetch flag.
    pub open spec fn encoded(gpu_va: u64, length_dwords: u32, no_prefetch: bool) -> GpfifoEntry {
        GpfifoEntry {
            lo: low_half(gpu_va),
            hi: (gpu_va / 0x1_0000_0000 % 0x100 + length_dwords % 0x80_0000 * 0x100 + (
            if no_prefetch {
                0x8000_0000int
            } else {
                0
            })) as u32,
        }
    }

    /// The segment address that the entry holds.
    pub open spec fn address(self) -> int {
        self.hi % 0x100 * 0x1_0000_0000 + self.lo
    }

    /// The segment length in dwords that the entry holds.
    pub open spec fn length(self) -> int {
        (self.hi / 0x100 % 0x80_0000) as int
    }

    /// The no-prefetch flag that the entry holds.
    pub open spec fn no_prefetch(self) -> bool {
        self.hi / 0x8000_0000 == 1
    }

    /// An entry for a push buffer segment.
    pub fn new(gpu_va: u64, length_dwords: u32) -> (entry: Self)
        ensures
            entry == GpfifoEntry::encoded(gpu_va, length_dwords, false),
    {
        let (high, lo) = split_word(gpu_va);
        GpfifoEntry { lo, hi: high % 0x100 + length_dwords % 0x80_0000 * 0x100 }
    }

    /// An entry for a push buffer segment with the no-prefetch flag set.
    pub fn new_no_prefetch(gpu_va: u64, length_dwords: u32) -> (entry: Self)
        ensures
            entry == GpfifoEntry::encoded(gpu_va, length_dwords, true),
    {
        let (high, lo) = split_word(gpu_va);
        GpfifoEntry { lo, hi: high % 0x100 + length_dwords % 0x80_0000 * 0x100 + 0x8000_0000 }
    }
}

/// Number of GPFIFO entries per channel.
pub const DEFAULT_GPFIFO_ENTRIES: u32 = 1024;

/// Push buffer size per channel.
pub const DEFAULT_PUSH_BUFFER_SIZE: u64 = 256 * 1024;

/// Size of the GPFIFO ring of a channel: 8 bytes per entry.
pub const GPFIFO_RING_SIZE: u64 = 8 * 1024;

/// BAR0 offset of the doorbell of channel 0; each channel has 8 bytes.
pub const DOORBELL_BASE: u32 = 0x90000;

/// A GPU FIFO channel: one submission context with its own push buffer.
#[derive(Debug, PartialEq, Eq, Structural)]
pub struct Channel {
    /// Channel ID.
    pub id: u32,
    /// GPFIFO ring in VRAM.
    pub gpfifo: GpuAllocation,
    /// Push buffer in VRAM.
    pub push_buffer: GpuAllocation,
    /// Number of GPFIFO entries.
    pub gpfifo_entries: u32,
    /// GPFIFO write index.
    pub gpfifo_put: u32,
    /// Push buffer write offset in bytes.
    pub push_offset: u32,
    /// Push buffer size in bytes.
    pub push_size: u32,
    /// GPU engine this channel is bound to (0 is PGRAPH).
    pub engine_id: u32,
    /// BAR0 offset of this channel's doorbell.
    pub doorbell_offset: u32,
}

/// A submission: the commands belong at `push_offset` in the push buffer, the
/// entry at `gpfifo_index` in the ring, and the doorbell is rung last, as
/// [`Channel::place`] does.
#[derive(Debug, Clone, Copy, PartialEq, Eq, Structural)]
pub struct Submission {
    /// GPU virtual address of the command segment.
    pub gpu_va: u64,
    /// Offset of the segment in the push buffer, in bytes.
    pub push_offset: u32,
    /// Index of the entry in the GPFIFO ring.
    pub gpfifo_index: u32,
    /// The GPFIFO entry for the segment.
    pub entry: GpfifoEntry,
    /// The doorbell write.
    pub doorbell: Access,
}

/// The channel whose ring and push buffer are the given allocations.
pub open spec fn fresh_channel(
    channel_id: u32,
    engine_id: u32,
    gpfifo: GpuAllocation,
    push_buffer: GpuAllocation,
) -> Channel {
    Channel {
        id: channel_id,
        gpfifo,
        push_buffer,
        gpfifo_entries: DEFAULT_GPFIFO_ENTRIES,
        gpfifo_put: 0,
        push_offset: 0,
        push_size: DEFAULT_PUSH_BUFFER_SIZE as u32,
        engine_id,
        doorbell_offset: (DOORBELL_BASE + channel_id * 8) as u32,
    }
}

/// The channel that `vram` has room for: the ring is allocated first, then the
/// push buffer.
pub open spec fn allocated_channel(vram: VramView, channel_id: u32, engine_id: u32) -> Option<
    Channel,
> {
    match (
        vram.allocation(GPFIFO_RING_SIZE),
        vram.after_allocate(GPFIFO_RING_SIZE).allocation(DEFAULT_PUSH_BUFFER_SIZE),
    ) {
        (Some(gpfifo), Some(push_buffer)) => Some(
            fresh_channel(channel_id, engine_id, gpfifo, push_buffer),
        ),
        _ => None,
    }
}

/// The allocator after a channel was allocated. A ring whose push buffer does
/// not fit stays allocated.
pub open spec fn after_channel(vram: VramView) -> VramView {
    if vram.allocation(GPFIFO_RING_SIZE) is Some {
        vram.after_allocate(GPFIFO_RING_SIZE).after_allocate(DEFAULT_PUSH_BUFFER_SIZE)
    } else {
        vram
    }
}

/// Whether the GPU virtual address space has room for the allocations of a
/// channel.
pub open spec fn channel_va_has_room(vram: VramView) -> bool {
    vram.fit(GPFIFO_RING_SIZE) is Some ==> {
        let between = vram.after_allocate(GPFIFO_RING_SIZE);
        &&& vram.va_has_room(GPFIFO_RING_SIZE)
        &&& between.fit(DEFAULT_PUSH_BUFFER_SIZE) is Some ==> between.va_has_room(
            DEFAULT_PUSH_BUFFER_SIZE,
        )
    }
}

impl Channel {
    /// Whether a submission of `dwords` command words fits the push buffer.
    pub open spec fn fits(self, dwords: int) -> bool {
        self.push_offset + 4 * dwords <= self.push_size
    }

    /// The channel after a submission of `dwords` command words.
    pub open spec fn after_submit(self, dwords: int) -> Channel {
        if self.fits(dwords) {
            Channel {
                push_offset: (self.push_offset + 4 * dwords) as u32,
                gpfifo_put: ((self.gpfifo_put + 1) % self.gpfifo_entries as int) as u32,
                ..self
            }
        } else {
            self
        }
    }

    /// What a submission of `dwords` command words returns.
    pub open spec fn submission(self, regs: GpuRegs, dwords: int) -> Option<Submission> {
        if self.fits(dwords) {
            let gpu_va = (self.push_buffer.gpu_va + self.push_offset) as u64;
            Some(
                Submission {
                    gpu_va,
                    push_offset: self.push_offset,
                    gpfifo_index: self.gpfifo_put,
                    entry: GpfifoEntry::encoded(gpu_va, dwords as u32, false),
                    doorbell: regs.write_at(
                        self.doorbell_offset,
                        ((self.gpfifo_put + 1) % self.gpfifo_entries as int) as u32,
                    ),
                },
            )
        } else {
            None
        }
    }

    /// Whether the sums of a submission stay in range.
    pub open spec fn submit_in_range(self, dwords: int) -> bool {
        self.fits(dwords) ==> {
            &&& self.push_buffer.gpu_va + self.push_offset <= u64::MAX
            &&& self.gpfifo_put < u32::MAX
            &&& self.gpfifo_entries > 0
        }
    }

    /// Whether a submission of `dwords` command words can be made.
    pub fn can_submit(&self, dwords: u64) -> (in_range: bool)
        ensures
            in_range == self.submit_in_range(dwords as int),
    {
        if self.push_offset > self.push_size || dwords > ((self.push_size - self.push_offset)
            / 4) as u64 {
            return true;
        }
        self.push_buffer.gpu_va <= u64::MAX - self.push_offset as u64 && self.gpfifo_put < u32::MAX
            && self.gpfifo_entries > 0
    }

    /// The accesses that carry out a submission: the command words go to the
    /// push buffer, the entry to the ring, and the doorbell is rung.
    pub open spec fn place_accesses(self, submission: Submission, commands: Seq<u32>) -> Seq<
        Access,
    > {
        let segment = self.push_buffer.phys_addr + submission.push_offset;
        let slot = self.gpfifo.phys_addr + 8 * submission.gpfifo_index;
        Seq::new(
            commands.len(),
            |i: int| Access::WriteVram { phys_addr: (segment + 4 * i) as u64, word: commands[i] },
        ) + seq![
            Access::WriteVram { phys_addr: slot as u64, word: submission.entry.lo },
            Access::WriteVram { phys_addr: (slot + 4) as u64, word: submission.entry.hi },
            submission.doorbell,
        ]
    }

    /// Whether the addresses of carrying out a submission stay in range.
    pub open spec fn place_in_range(self, submission: Submission, dwords: int) -> bool {
        &&& self.push_buffer.phys_addr + submission.push_offset + 4 * dwords <= u64::MAX
        &&& self.gpfifo.phys_addr + 8 * submission.gpfifo_index + 4 <= u64::MAX
        &&& dwords + 3 <= usize::MAX
    }

    /// Whether the addresses of carrying out a submission stay in range.
    pub fn can_place(&self, submission: &Submission, dwords: usize) -> (in_range: bool)
        ensures
            in_range == self.place_in_range(*submission, dwords as int),
    {
        let room: u64 = u64::MAX - self.push_buffer.phys_addr;
        submission.push_offset as u64 <= room && dwords as u64 <= (room
            - submission.push_offset as u64) / 4 && 8 * submission.gpfifo_index as u64 + 4
            <= u64::MAX - self.gpfifo.phys_addr && dwords <= usize::MAX - 3
    }

    /// Carries out a submission of this channel: writes its commands to the
    /// push buffer and its entry to the GPFIFO ring, and rings the doorbell.
    pub fn place(&self, submission: &Submission, commands: &[u32], replies: &[u32]) -> (step: Step<
        (),
    >)
        requires
            self.place_in_range(*submission, commands@.len() as int),
        ensures
            step == perform(self.place_accesses(*submission, commands@), replies@, ()),
    {
        let n: usize = replies.len();
        let words: usize = commands.len();
        if n < words {
            let segment: u64 = self.push_buffer.phys_addr + submission.push_offset as u64;
            return Step::Next(
                Access::WriteVram { phys_addr: segment + 4 * n as u64, word: commands[n] },
            );
        }
        let slot: u64 = self.gpfifo.phys_addr + 8 * submission.gpfifo_index as u64;
        if n == words {
            Step::Next(Access::WriteVram { phys_addr: slot, word: submission.entry.lo })
        } else if n == words + 1 {
            Step::Next(Access::WriteVram { phys_addr: slot + 4, word: submission.entry.hi })
        } else if n == words + 2 {
            Step::Next(submission.doorbell)
        } else {
            Step::Done { result: (), used: words + 3 }
        }
    }

    /// Whether a channel is sure to find GPU virtual addresses and a doorbell.
    pub open spec fn allocate_in_range(vram: VramView, channel_id: u32) -> bool {
        &&& vram.in_address_space((GPFIFO_RING_SIZE + DEFAULT_PUSH_BUFFER_SIZE) as u64)
        &&& DOORBELL_BASE + channel_id * 8 <= u32::MAX
    }

    /// Whether a channel is sure to find GPU virtual addresses and a doorbell, so
    /// that it can be allocated.
    pub fn can_allocate(allocator: &VramAllocator, channel_id: u32) -> (in_range: bool)
        ensures
            in_range == Channel::allocate_in_range(allocator.model(), channel_id),
            in_range ==> channel_va_has_room(allocator.model()),
    {
        channel_id <= (u32::MAX - DOORBELL_BASE) / 8 && allocator.has_va_room(
            GPFIFO_RING_SIZE + DEFAULT_PUSH_BUFFER_SIZE,
        )
    }

    /// Allocates a channel with its GPFIFO ring and push buffer in VRAM.
    pub fn allocate(allocator: &mut VramAllocator, channel_id: u32, engine_id: u32) -> (channel:
        Option<Self>)
        requires
            channel_va_has_room(old(allocator).model()),
            allocated_channel(old(allocator).model(), channel_id, engine_id) is Some
                ==> DOORBELL_BASE + channel_id * 8 <= u32::MAX,
        ensures
            channel == allocated_channel(old(allocator).model(), channel_id, engine_id),
            final(allocator).model() == after_channel(old(allocator).model()),
    {
        let gpfifo: GpuAllocation = match allocator.allocate(GPFIFO_RING_SIZE) {
            Some(alloc) => alloc,
            None => {
                return None;
            },
        };
        let push_buffer: GpuAllocation = match allocator.allocate(DEFAULT_PUSH_BUFFER_SIZE) {
            Some(alloc) => alloc,
            None => {
                return None;
            },
        };
        Some(
            Channel {
                id: channel_id,
                gpfifo,
                push_buffer,
                gpfifo_entries: DEFAULT_GPFIFO_ENTRIES,
                gpfifo_put: 0,
                push_offset: 0,
                push_size: DEFAULT_PUSH_BUFFER_SIZE as u32,
                engine_id,
                doorbell_offset: DOORBELL_BASE + channel_id * 8,
            },
        )
    }

    /// Submits commands: gives them a segment of the push buffer and an entry of
    /// the GPFIFO ring, which [`Channel::place`] then writes. Returns `None`,
    /// and changes nothing, if the push buffer is full.
    pub fn submit(&mut self, regs: &GpuRegs, commands: &[u32]) -> (submission: Option<Submission>)
        requires
            old(self).submit_in_range(commands@.len() as int),
        ensures
            submission == old(self).submission(*regs, commands@.len() as int),
            *final(self) == old(self).after_submit(commands@.len() as int),
    {
        let push_offset: u32 = self.push_offset;
        if push_offset > self.push_size || commands.len() as u64 > ((self.push_size - push_offset)
            / 4) as u64 {
            return None;
        }
        let dword_len: u32 = commands.len() as u32;
        let byte_len: u32 = 4 * dword_len;
        let gpu_va: u64 = self.push_buffer.gpu_va + push_offset as u64;
        self.push_offset = push_offset + byte_len;
        let gpfifo_index: u32 = self.gpfifo_put;
        let entry = GpfifoEntry::new(gpu_va, dword_len);
        let new_index: u32 = (gpfifo_index + 1) % self.gpfifo_entries;
        self.gpfifo_put = new_index;
        let doorbell = regs.write32(self.doorbell_offset, new_index);
        Some(Submission { gpu_va, push_offset, gpfifo_index, entry, doorbell })
    }

    /// Resets the push buffer write offset, for reuse once the GPU has consumed
    /// all commands.
    pub fn reset_push_buffer(&mut self)
        ensures
            *final(self) == (Channel { push_offset: 0, ..*old(self) }),
    {
        self.push_offset = 0;
    }
}

/// A runlist: the channels that the PFIFO scheduler cycles through.
pub struct Runlist {
    /// Runlist ID.
    pub id: u32,
    /// Channels in this runlist, ordered by scheduling priority.
    pub channels: Vec<u32>,
    /// Runlist allocation in VRAM.
    pub allocation: Option<GpuAllocation>,
}

/// A committed runlist, whose entries and base address are still to be written,
/// as [`RunlistUpdate::place`] does.
#[derive(Debug)]
pub struct RunlistUpdate {
    /// Physical address of the runlist in VRAM.
    pub phys_addr: u64,
    /// The runlist entries: the channel ID in bits [11:0], type 0 (channel).
    pub entries: Vec<u64>,
    /// The write of the low half of the base register.
    pub base_low: Access,
    /// The write of the high half of the base register.
    pub base_high: Access,
}

impl RunlistUpdate {
    /// The accesses that put a runlist in place: its entries go to VRAM, low
    /// half first, and then the base address to its register.
    pub open spec fn place_accesses(self) -> Seq<Access> {
        let entries = self.entries@;
        Seq::new(
            2 * entries.len(),
            |j: int|
                Access::WriteVram {
                    phys_addr: (self.phys_addr + 4 * j) as u64,
                    word: if j % 2 == 0 {
                        low_half(entries[j / 2])
                    } else {
                        high_half(entries[j / 2])
                    },
                },
        ) + seq![self.base_low, self.base_high]
    }

    /// Whether the addresses of putting the runlist in place stay in range.
    pub open spec fn place_in_range(self) -> bool {
        &&& self.phys_addr + 8 * self.entries@.len() <= u64::MAX
        &&& 2 * self.entries@.len() + 2 <= usize::MAX
    }

    /// Puts the runlist in place: writes its entries to VRAM and its base
    /// address to the runlist's base register. The register that holds the
    /// length of a runlist is not written here.
    pub fn place(&self, replies: &[u32]) -> (step: Step<()>)
        requires
            self.place_in_range(),
        ensures
            step == perform(self.place_accesses(), replies@, ()),
    {
        let n: usize = replies.len();
        let words: usize = 2 * self.entries.len();
        if n < words {
            let (high, low) = split_word(self.entries[n / 2]);
            Step::Next(
                Access::WriteVram {
                    phys_addr: self.phys_addr + 4 * n as u64,
                    word: if n % 2 == 0 {
                        low
                    } else {
                        high
                    },
                },
            )
        } else if n == words {
            Step::Next(self.base_low)
        } else if n == words + 1 {
            Step::Next(self.base_high)
        } else {
            Step::Done { result: (), used: words + 2 }
        }
    }
}

/// The channels of a list other than `channel_id`.
pub open spec fn without_channel(channels: Seq<u32>, channel_id: u32) -> Seq<u32> {
    channels.filter(|c: u32| c != channel_id)
}

/// The runlist entries of a list of channels.
pub open spec fn runlist_entries(channels: Seq<u32>) -> Seq<u64> {
    Seq::new(channels.len(), |i: int| (channels[i] % 0x1000) as u64)
}

/// BAR0 offset of the base register of runlist 0; each runlist has 16 bytes.
pub const RUNLIST_BASE_REGISTER: u32 = 0x002270;

impl Runlist {
    /// Bytes of VRAM that a runlist of `channels` takes: 8 per channel.
    pub open spec fn bytes(channels: Seq<u32>) -> u64 {
        (channels.len() * 8) as u64
    }

    /// The allocation that a commit makes. An empty runlist takes none.
    pub open spec fn commit_allocation(self, vram: VramView) -> Option<GpuAllocation> {
        if self.channels@.len() > 0 {
            vram.allocation(Runlist::bytes(self.channels@))
        } else {
            None
        }
    }

    /// BAR0 offset of the base register of this runlist, which is 64 bits wide.
    pub open spec fn base_register(self) -> u32 {
        (RUNLIST_BASE_REGISTER + self.id * 0x10) as u32
    }

    /// Whether the sums of a commit stay in range.
    pub open spec fn commit_in_range(self, vram: VramView) -> bool {
        &&& self.channels@.len() * 8 + 0xFFF <= u64::MAX
        &&& self.commit_allocation(vram) is Some ==> {
            &&& vram.va_has_room(Runlist::bytes(self.channels@))
            &&& RUNLIST_BASE_REGISTER + self.id * 0x10 <= u32::MAX
        }
    }

    /// Whether a commit of this runlist leaves `after` and returns `update`: the
    /// runlist gets its allocation, and the update holds its entries and the
    /// writes of its base address.
    pub open spec fn commits_to(
        self,
        vram: VramView,
        regs: GpuRegs,
        after: Runlist,
        update: Option<RunlistUpdate>,
    ) -> bool {
        &&& after.id == self.id
        &&& after.channels@ == self.channels@
        &&& match (self.commit_allocation(vram), update) {
            (Some(alloc), Some(update)) => {
                &&& after.allocation == Some(alloc)
                &&& update.phys_addr == alloc.phys_addr
                &&& update.entries@ == runlist_entries(self.channels@)
                &&& update.base_low == regs.write_at(self.base_register(), low_half(alloc.gpu_va))
                &&& update.base_high == regs.write_at(
                    (self.base_register() + 4) as u32,
                    high_half(alloc.gpu_va),
                )
                &&& alloc.phys_addr + 8 * update.entries@.len() <= u64::MAX
            },
            (None, None) => after.allocation == self.allocation,
            _ => false,
        }
    }

    /// Whether the runlist can be committed.
    pub fn can_commit(&self, allocator: &VramAllocator) -> (in_range: bool)
        ensures
            in_range == self.commit_in_range(allocator.model()),
    {
        let count: u64 = self.channels.len() as u64;
        if count > (u64::MAX - 0xFFF) / 8 {
            return false;
        }
        if count == 0 {
            return true;
        }
        match allocator.preview(count * 8) {
            Some(_) => allocator.has_va_room(count * 8) && self.id <= (u32::MAX
                - RUNLIST_BASE_REGISTER) / 0x10,
            None => true,
        }
    }

    /// A new empty runlist.
    pub fn new(id: u32) -> (runlist: Self)
        ensures
            runlist.id == id,
            runlist.channels@ == Seq::<u32>::empty(),
            runlist.allocation is None,
    {
        Runlist { id, channels: Vec::new(), allocation: None }
    }

    /// Adds a channel at the end of this runlist.
    pub fn add_channel(&mut self, channel_id: u32)
        ensures
            final(self).channels@ == old(self).channels@.push(channel_id),
            final(self).id == old(self).id,
            final(self).allocation == old(self).allocation,
    {
        self.channels.push(channel_id);
    }

    /// Removes every occurrence of a channel from this runlist.
    pub fn remove_channel(&mut self, channel_id: u32)
        ensures
            final(self).channels@ == without_channel(old(self).channels@, channel_id),
            final(self).id == old(self).id,
            final(self).allocation == old(self).allocation,
    {
        let mut kept: Vec<u32> = Vec::new();
        let mut i: usize = 0;
        let ghost channels = self.channels@;
        proof {
            reveal(Seq::filter);
        }
        while i < self.channels.len()
            invariant
                self.channels@ == channels,
                self.id == old(self).id,
                self.allocation == old(self).allocation,
                i <= channels.len(),
                kept@ == without_channel(channels.take(i as int), channel_id),
            decreases channels.len() - i,
        {
            proof {
                reveal(Seq::filter);
                assert(channels.take(i + 1).drop_last() == channels.take(i as int));
            }
            if self.channels[i] != channel_id {
                kept.push(self.channels[i]);
            }
            i = i + 1;
        }
        assert(channels.take(channels.len() as int) == channels);
        self.channels = kept;
    }

    /// Commits the runlist to VRAM.
    ///
    /// Allocates room for the entries and keeps the allocation. The update that
    /// it returns is then put in place. An empty runlist, or one that VRAM has no
    /// room for, is left as it is.
    pub fn commit(&mut self, regs: &GpuRegs, allocator: &mut VramAllocator) -> (update: Option<
        RunlistUpdate,
    >)
        requires
            old(self).commit_in_range(old(allocator).model()),
        ensures
            old(self).commits_to(old(allocator).model(), *regs, *final(self), update),
            final(allocator).model() == if old(self).channels@.len() > 0 {
                old(allocator).model().after_allocate(Runlist::bytes(old(self).channels@))
            } else {
                old(allocator).model()
            },
    {
        let count: usize = self.channels.len();
        if count == 0 {
            return None;
        }
        match allocator.allocate(count as u64 * 8) {
            Some(alloc) => {
                let base_register: u32 = RUNLIST_BASE_REGISTER + self.id * 0x10;
                let mut entries: Vec<u64> = Vec::new();
                let mut i: usize = 0;
                while i < count
                    invariant
                        count == self.channels@.len(),
                        i <= count,
                        entries@ == runlist_entries(self.channels@).take(i as int),
                    decreases count - i,
                {
                    entries.push((self.channels[i] % 0x1000) as u64);
                    i = i + 1;
                }
                let (high, low) = split_word(alloc.gpu_va);
                assert(entries@ =~= runlist_entries(self.channels@));
                let update = RunlistUpdate {
                    phys_addr: alloc.phys_addr,
                    entries,
                    base_low: regs.write32(base_register, low),
                    base_high: regs.write32(base_register + 4, high),
                };
                proof {
                    allocation_is_placed(old(allocator).model(), (count * 8) as u64);
                }
                self.allocation = Some(alloc);
                Some(update)
            },
            None => None,
        }
    }
}

/// Initializes the PFIFO engine: reads its interrupt status, clears all
/// pending interrupts and enables them.
pub fn init_fifo(regs: &GpuRegs, replies: &[u32]) -> (step: Step<()>)
    ensures
        step == perform(init_fifo_accesses(*regs), replies@, ()),
{
    let n: usize = replies.len();
    if n == 0 {
        Step::Next(regs.read32(NV_PFIFO_INTR_0))
    } else if n == 1 {
        Step::Next(regs.write32(NV_PFIFO_INTR_0, 0xFFFF_FFFF))
    } else if n == 2 {
        Step::Next(regs.write32(NV_PFIFO_INTR_EN_0, 0xFFFF_FFFF))
    } else {
        Step::Done { result: (), used: 3 }
    }
}

/// The accesses that initialize the PFIFO engine.
pub open spec fn init_fifo_accesses(regs: GpuRegs) -> Seq<Access> {
    seq![
        regs.read_at(NV_PFIFO_INTR_0),
        regs.write_at(NV_PFIFO_INTR_0, 0xFFFF_FFFF),
        regs.write_at(NV_PFIFO_INTR_EN_0, 0xFFFF_FFFF),
    ]
}

/// The parts of a method header can be read back. Where the operation is even,
/// like that of a non-incrementing method, the count has all of its 13 bits.
/// Where it is odd, like that of an incrementing method, the count has 12: a
/// larger one falls into the operation.
pub proof fn method_header_parts(operation: u32, subchannel: u32, method: u32, count: u32)
    requires
        operation < 16,
        subchannel < 8,
        method < 0x8000,
        count < 0x1000 || count < 0x2000 && operation % 2 == 0,
    ensures
        ({
            let header = method_header(operation, subchannel, method, count);
            &&& count < 0x1000 ==> {
                &&& header / 0x1000_0000 == operation
                &&& header / 0x1_0000 % 0x1000 == count
            }
            &&& operation % 2 == 0 ==> {
                &&& header / 0x2000_0000 == operation / 2
                &&& header / 0x1_0000 % 0x2000 == count
            }
            &&& header / 0x2000 % 8 == subchannel
            &&& header % 0x2000 == method / 4
        }),
{
    assert((operation << 28) | ((count & 0x1FFF) << 16) | ((subchannel & 0x7) << 13) | (method >> 2)
        == operation * 0x1000_0000 + count * 0x1_0000 + subchannel * 0x2000 + method / 4)
        by (bit_vector)
        requires
            operation < 16,
            subchannel < 8,
            method < 0x8000,
            count < 0x1000 || count < 0x2000 && operation % 2 == 0,
    ;
}

/// A non-incrementing method header gives back every part: its operation above
/// the 13 bits of its count, its count, its subchannel and its method.
pub proof fn nonincrementing_header_parts(subchannel: u32, method: u32, count: u32)
    requires
        subchannel < 8,
        method < 0x8000,
        count < 0x2000,
    ensures
        ({
            let header = method_header(METHOD_NONINCR, subchannel, method, count);
            &&& header / 0x2000_0000 == 1
            &&& header / 0x1_0000 % 0x2000 == count
            &&& header / 0x2000 % 8 == subchannel
            &&& header % 0x2000 == method / 4
        }),
{
    method_header_parts(METHOD_NONINCR, subchannel, method, count);
}

/// A GPFIFO entry gives back the 40-bit address, the 23-bit length and the
/// flag that it was made from.
pub proof fn gpfifo_entry_round_trip(gpu_va: u64, length_dwords: u32, no_prefetch: bool)
    requires
        gpu_va < 0x100_0000_0000,
        length_dwords < 0x80_0000,
    ensures
        ({
            let entry = GpfifoEntry::encoded(gpu_va, length_dwords, no_prefetch);
            &&& entry.address() == gpu_va
            &&& entry.length() == length_dwords
            &&& entry.no_prefetch() == no_prefetch
        }),
{
}

impl Channel {
    /// The write offset stays within the push buffer, which lies in its
    /// allocation, and the write index within the ring.
    pub open spec fn wf(self) -> bool {
        &&& self.push_offset <= self.push_size <= self.push_buffer.size
        &&& self.push_buffer.gpu_va + self.push_buffer.size <= u64::MAX
        &&& self.push_buffer.phys_addr + self.push_buffer.size <= u64::MAX
        &&& self.gpfifo.phys_addr + self.gpfifo.size <= u64::MAX
        &&& self.gpfifo_put < self.gpfifo_entries
        &&& self.gpfifo_entries * 8 <= self.gpfifo.size
    }

    /// The channel after a series of submissions, given by their lengths.
    pub open spec fn after_submits(self, lengths: Seq<int>) -> Channel
        decreases lengths.len(),
    {
        if lengths.len() == 0 {
            self
        } else {
            self.after_submits(lengths.drop_last()).after_submit(lengths.last())
        }
    }
}

/// An allocated channel is well formed and empty.
pub proof fn allocated_channel_is_wf(vram: VramView, channel_id: u32, engine_id: u32)
    requires
        channel_va_has_room(vram),
        allocated_channel(vram, channel_id, engine_id) is Some,
        vram.wf(),
    ensures
        allocated_channel(vram, channel_id, engine_id)->0.wf(),
        allocated_channel(vram, channel_id, engine_id)->0.push_offset == 0,
        allocated_channel(vram, channel_id, engine_id)->0.gpfifo_put == 0,
{
    allocate_keeps_wf(vram, GPFIFO_RING_SIZE);
    allocation_is_placed(vram, GPFIFO_RING_SIZE);
    allocation_is_placed(vram.after_allocate(GPFIFO_RING_SIZE), DEFAULT_PUSH_BUFFER_SIZE);
}

/// A well-formed channel takes any submission and stays well formed, and what it
/// takes can be placed: the words within the push buffer, the entry within the
/// ring.
pub proof fn submit_keeps_wf(channel: Channel, regs: GpuRegs, dwords: int)
    requires
        channel.wf(),
        dwords >= 0,
    ensures
        channel.after_submit(dwords).wf(),
        channel.submit_in_range(dwords),
        channel.submission(regs, dwords) is Some ==> ({
            let submission = channel.submission(regs, dwords)->0;
            &&& channel.place_in_range(submission, dwords)
            &&& submission.push_offset + 4 * dwords <= channel.push_buffer.size
            &&& 8 * submission.gpfifo_index + 8 <= channel.gpfifo.size
        }),
{
}

proof fn lemma_submits_advance(channel: Channel, lengths: Seq<int>)
    requires
        channel.wf(),
        forall|i: int| 0 <= i < lengths.len() ==> 0 <= #[trigger] lengths[i],
    ensures
        channel.after_submits(lengths).wf(),
        channel.after_submits(lengths).push_offset >= channel.push_offset,
        channel.after_submits(lengths).push_buffer == channel.push_buffer,
        channel.after_submits(lengths).push_size == channel.push_size,
    decreases lengths.len(),
{
    if lengths.len() > 0 {
        lemma_submits_advance(channel, lengths.drop_last());
        assert(0 <= lengths[lengths.len() - 1]);
        submit_keeps_wf(
            channel.after_submits(lengths.drop_last()),
            GpuRegs { bar0: 0 },
            lengths.last(),
        );
    }
}

/// The segments of two submissions do not overlap, whatever is submitted in
/// between, and both lie within the push buffer.
pub proof fn segments_are_disjoint(
    channel: Channel,
    regs: GpuRegs,
    first: int,
    lengths: Seq<int>,
    second: int,
)
    requires
        channel.wf(),
        0 <= first,
        0 <= second,
        forall|i: int| 0 <= i < lengths.len() ==> 0 <= #[trigger] lengths[i],
        channel.submission(regs, first) is Some,
        channel.after_submit(first).after_submits(lengths).submission(regs, second) is Some,
    ensures
        ({
            let a = channel.submission(regs, first)->0;
            let b = channel.after_submit(first).after_submits(lengths).submission(regs, second)->0;
            &&& channel.push_buffer.gpu_va <= a.gpu_va
            &&& a.gpu_va + 4 * first <= b.gpu_va
            &&& b.gpu_va + 4 * second <= channel.push_buffer.gpu_va + channel.push_buffer.size
        }),
{
    submit_keeps_wf(channel, regs, first);
    lemma_submits_advance(channel.after_submit(first), lengths);
}

/// The doorbell announces the ring index at which the next submission will
/// place its entry, and the ring wraps around.
pub proof fn doorbell_announces_next_index(
    channel: Channel,
    regs: GpuRegs,
    first: int,
    second: int,
)
    requires
        channel.wf(),
        0 <= first,
        0 <= second,
        channel.submission(regs, first) is Some,
        channel.after_submit(first).submission(regs, second) is Some,
    ensures
        ({
            let a = channel.submission(regs, first)->0;
            let b = channel.after_submit(first).submission(regs, second)->0;
            &&& a.doorbell == regs.write_at(channel.doorbell_offset, b.gpfifo_index)
            &&& b.gpfifo_index == if a.gpfifo_index + 1 == channel.gpfifo_entries {
                0int
            } else {
                a.gpfifo_index + 1
            }
        }),
{
    if channel.gpfifo_put + 1 < channel.gpfifo_entries {
        vstd::arithmetic::div_mod::lemma_small_mod(
            (channel.gpfifo_put + 1) as nat,
            channel.gpfifo_entries as nat,
        );
    } else {
        vstd::arithmetic::div_mod::lemma_mod_self_0(channel.gpfifo_entries as int);
    }
}

/// Resetting the push buffer makes the next submission start at its beginning.
pub proof fn reset_reuses_push_buffer(channel: Channel, regs: GpuRegs, dwords: int)
    requires
        channel.wf(),
        0 <= dwords,
        4 * dwords <= channel.push_size,
    ensures
        ({
            let reset = Channel { push_offset: 0, ..channel };
            &&& reset.wf()
            &&& reset.submission(regs, dwords) is Some
            &&& reset.submission(regs, dwords)->0.gpu_va == channel.push_buffer.gpu_va
        }),
{
}

/// Removing a channel leaves none of its entries and keeps every other channel
/// as often as it occurred.
pub proof fn remove_channel_removes_only_it(channels: Seq<u32>, channel_id: u32, other: u32)
    ensures
        !without_channel(channels, channel_id).contains(channel_id),
        other != channel_id ==> without_channel(channels, channel_id).to_multiset().count(other)
            == channels.to_multiset().count(other),
    decreases channels.len(),
{
    reveal(Seq::filter);
    broadcast use vstd::seq_lib::group_to_multiset_ensures;

    if channels.len() > 0 {
        let rest = channels.drop_last();
        remove_channel_removes_only_it(rest, channel_id, other);
        assert(channels == rest.push(channels.last()));
        assert(without_channel(channels, channel_id) == if channels.last() != channel_id {
            without_channel(rest, channel_id).push(channels.last())
        } else {
            without_channel(rest, channel_id)
        });
    }
}

/// Adding a channel that a runlist does not hold and removing it again gives
/// the runlist back.
pub proof fn add_then_remove_channel(channels: Seq<u32>, channel_id: u32)
    requires
        !channels.contains(channel_id),
    ensures
        without_channel(channels.push(channel_id), channel_id) == channels,
    decreases channels.len(),
{
    reveal(Seq::filter);
    assert(channels.push(channel_id).drop_last() == channels);
    assert(without_channel(channels.push(channel_id), channel_id) == without_channel(
        channels,
        channel_id,
    ));
    if channels.len() > 0 {
        let rest = channels.drop_last();
        assert(!rest.contains(channel_id)) by {
            assert forall|i: int| 0 <= i < rest.len() implies rest[i] != channel_id by {
                assert(channels[i] == rest[i]);
            }
        }
        add_then_remove_channel(rest, channel_id);
        assert(rest.push(channel_id).drop_last() == rest);
        assert(without_channel(rest.push(channel_id), channel_id) == without_channel(
            rest,
            channel_id,
        ));
        assert(channels[channels.len() - 1] == channels.last());
        assert(without_channel(channels, channel_id) == without_channel(rest, channel_id).push(
            channels.last(),
        ));
        assert(channels == rest.push(channels.last()));
    }
}

/// For every argument a header keeps the low 13 bits of the method's dword
/// index. What is above them, and bit 12 of the count, falls into the fields
/// above and is joined with them.
pub proof fn method_header_fields(operation: u32, subchannel: u32, method: u32, count: u32)
    ensures
        ({
            let header = method_header(operation, subchannel, method, count);
            &&& header & 0x1FFF == (method >> 2) & 0x1FFF
            &&& (header >> 13) & 0x7 == (subchannel & 0x7) | ((method >> 15) & 0x7)
            &&& (header >> 16) & 0xFFF == (count & 0xFFF) | ((method >> 18) & 0xFFF)
            &&& header >> 28 == (operation & 0xF) | ((count >> 12) & 0x1) | (method >> 30)
        }),
{
    assert({
        let header = (operation << 28) | ((count & 0x1FFF) << 16) | ((subchannel & 0x7) << 13) | (
        method >> 2);
        &&& header & 0x1FFF == (method >> 2) & 0x1FFF
        &&& (header >> 13) & 0x7 == (subchannel & 0x7) | ((method >> 15) & 0x7)
        &&& (header >> 16) & 0xFFF == (count & 0xFFF) | ((method >> 18) & 0xFFF)
        &&& header >> 28 == (operation & 0xF) | ((count >> 12) & 0x1) | (method >> 30)
    }) by (bit_vector);
}

/// An incrementing header has operation 1 in its top four bits. Below them
/// stand the count, the subchannel and the method's dword index.
pub proof fn incrementing_header_parts(subchannel: u32, method: u32, count: u32)
    requires
        subchannel < 8,
        method < 0x8000,
        count < 0x1000,
    ensures
        ({
            let header = method_header(METHOD_INCR, subchannel, method, count);
            &&& header / 0x1000_0000 == 1
            &&& header / 0x1_0000 % 0x1000 == count
            &&& header / 0x2000 % 8 == subchannel
            &&& header % 0x2000 == method / 4
        }),
{
    method_header_parts(METHOD_INCR, subchannel, method, count);
}

/// The header of a method with one argument, for any subchannel.
pub proof fn single_method_header(subchannel: u32, method: u32)
    requires
        method < 0x8000,
    ensures
        method_header(METHOD_INCR, subchannel, method, 1) == 0x1001_0000 + subchannel % 8 * 0x2000
            + method / 4,
{
    assert((1u32 << 28) | ((1u32 & 0x1FFF) << 16) | ((subchannel & 0x7) << 13) | (method >> 2)
        == 0x1001_0000 + subchannel % 8 * 0x2000 + method / 4) by (bit_vector)
        requires
            method < 0x8000,
    ;
}

/// A GPFIFO entry holds the low 40 bits of its address, the low 23 bits of its
/// length and the prefetch bit, each in its own place.
pub proof fn gpfifo_entry_fields(gpu_va: u64, length_dwords: u32, no_prefetch: bool)
    ensures
        ({
            let entry = GpfifoEntry::encoded(gpu_va, length_dwords, no_prefetch);
            &&& entry.lo == gpu_va % 0x1_0000_0000
            &&& entry.hi % 0x100 == gpu_va / 0x1_0000_0000 % 0x100
            &&& entry.hi / 0x100 % 0x80_0000 == length_dwords % 0x80_0000
            &&& entry.hi >= 0x8000_0000 <==> no_prefetch
            &&& entry.address() == gpu_va % 0x100_0000_0000
            &&& entry.length() == length_dwords % 0x80_0000
            &&& entry.no_prefetch() == no_prefetch
        }),
{
}

/// A fresh channel has a ring of 1024 entries and 256 KiB of push buffer, both
/// empty, and its doorbell is the dword at 0x90000 plus 8 for each channel
/// before it.
pub proof fn fresh_channel_is_empty(
    channel_id: u32,
    engine_id: u32,
    gpfifo: GpuAllocation,
    push_buffer: GpuAllocation,
)
    requires
        0x9_0000 + 8 * channel_id <= u32::MAX,
    ensures
        ({
            let channel = fresh_channel(channel_id, engine_id, gpfifo, push_buffer);
            &&& channel.id == channel_id && channel.engine_id == engine_id
            &&& channel.gpfifo == gpfifo && channel.push_buffer == push_buffer
            &&& channel.gpfifo_entries == 1024 && channel.gpfifo_put == 0
            &&& channel.push_size == 256 * 1024 && channel.push_offset == 0
            &&& channel.doorbell_offset - 0x9_0000 == 8 * channel_id
        }),
{
}

/// A channel is allocated exactly if VRAM has room for the 8 KiB of its ring
/// and then for the 256 KiB of its push buffer. Both are taken, and the ring
/// stays taken where the push buffer finds no room.
pub proof fn channel_takes_ring_and_buffer(vram: VramView, channel_id: u32, engine_id: u32)
    ensures
        ({
            let ring = vram.allocation(8192);
            let between = vram.after_allocate(8192);
            let buffer = between.allocation(262144);
            let channel = allocated_channel(vram, channel_id, engine_id);
            &&& channel is Some <==> ring is Some && buffer is Some
            &&& channel is Some ==> channel == Some(
                fresh_channel(channel_id, engine_id, ring->0, buffer->0),
            )
            &&& ring is None ==> after_channel(vram) == vram
            &&& ring is Some && buffer is None ==> after_channel(vram) == between
            &&& channel is Some ==> after_channel(vram) == between.after_allocate(262144)
        }),
{
}

/// Commands are accepted exactly if the push buffer has room for them. They go
/// to where the push buffer has been filled, the next ring entry points at
/// them, and the doorbell gives the index after that entry, which is 0 behind
/// the last. Commands that are refused change nothing.
pub proof fn submission_appends(channel: Channel, regs: GpuRegs, dwords: int)
    requires
        channel.submit_in_range(dwords),
        0 <= dwords,
    ensures
        channel.submission(regs, dwords) is Some <==> dwords * 4 <= channel.push_size
            - channel.push_offset,
        channel.submission(regs, dwords) is None ==> channel.after_submit(dwords) == channel,
        channel.submission(regs, dwords) is Some ==> {
            let submission = channel.submission(regs, dwords)->0;
            let after = channel.after_submit(dwords);
            &&& submission.gpu_va - channel.push_buffer.gpu_va == channel.push_offset
            &&& submission.push_offset == channel.push_offset
            &&& submission.gpfifo_index == channel.gpfifo_put
            &&& submission.entry.lo == submission.gpu_va % 0x1_0000_0000
            &&& submission.entry.hi % 0x100 == submission.gpu_va / 0x1_0000_0000 % 0x100
            &&& submission.entry.hi / 0x100 == dwords % 0x80_0000
            &&& submission.doorbell matches Access::WriteRegister { bar0, offset, value } && bar0
                == regs.bar0 && offset == channel.doorbell_offset && value == after.gpfifo_put
            &&& after.push_offset == channel.push_offset + 4 * dwords
            &&& after.gpfifo_put < channel.gpfifo_entries
            &&& channel.gpfifo_put + 1 < channel.gpfifo_entries ==> after.gpfifo_put
                == channel.gpfifo_put + 1
            &&& channel.gpfifo_put + 1 == channel.gpfifo_entries ==> after.gpfifo_put == 0
            &&& after == (Channel {
                push_offset: after.push_offset,
                gpfifo_put: after.gpfifo_put,
                ..channel
            })
        },
{
    if channel.fits(dwords) {
        if channel.gpfifo_put + 1 < channel.gpfifo_entries {
            vstd::arithmetic::div_mod::lemma_small_mod(
                (channel.gpfifo_put + 1) as nat,
                channel.gpfifo_entries as nat,
            );
        } else if channel.gpfifo_put + 1 == channel.gpfifo_entries {
            vstd::arithmetic::div_mod::lemma_mod_self_0(channel.gpfifo_entries as int);
        }
        vstd::arithmetic::div_mod::lemma_mod_bound(
            channel.gpfifo_put + 1,
            channel.gpfifo_entries as int,
        );
        gpfifo_entry_fields(
            (channel.push_buffer.gpu_va + channel.push_offset) as u64,
            dwords as u32,
            false,
        );
    }
}

/// Commands that are submitted one after the other lie next to each other.
pub proof fn segments_are_adjacent(channel: Channel, regs: GpuRegs, first: int, second: int)
    requires
        channel.wf(),
        0 <= first,
        0 <= second,
        channel.submission(regs, first) is Some,
        channel.after_submit(first).submission(regs, second) is Some,
    ensures
        channel.after_submit(first).submission(regs, second)->0.gpu_va - channel.submission(
            regs,
            first,
        )->0.gpu_va == 4 * first,
{
}

/// Placing a submission writes each command at the physical address that
/// stands for its GPU virtual address, then the two words of the ring entry
/// into the entry's slot, and rings the doorbell last.
pub proof fn placed_commands_lie_where_the_entry_points(
    channel: Channel,
    submission: Submission,
    commands: Seq<u32>,
    i: int,
)
    requires
        channel.place_in_range(submission, commands.len() as int),
        submission.gpu_va == channel.push_buffer.gpu_va + submission.push_offset,
    ensures
        ({
            let accesses = channel.place_accesses(submission, commands);
            let end = commands.len() as int;
            &&& accesses.len() == end + 3
            &&& 0 <= i < end ==> (accesses[i] matches Access::WriteVram { phys_addr, word } && word
                == commands[i] && phys_addr - channel.push_buffer.phys_addr == submission.gpu_va + 4
                * i - channel.push_buffer.gpu_va)
            &&& accesses[end] matches Access::WriteVram { phys_addr, word } && word
                == submission.entry.lo && phys_addr == channel.gpfifo.phys_addr + 8
                * submission.gpfifo_index
            &&& accesses[end + 1] matches Access::WriteVram { phys_addr, word } && word
                == submission.entry.hi && phys_addr == channel.gpfifo.phys_addr + 8
                * submission.gpfifo_index + 4
            &&& accesses[end + 2] == submission.doorbell
        }),
{
}

/// Removing a channel keeps the order of the others.
pub proof fn remove_channel_keeps_order(channels: Seq<u32>, last: u32, channel_id: u32)
    ensures
        without_channel(seq![], channel_id) == Seq::<u32>::empty(),
        last == channel_id ==> without_channel(channels.push(last), channel_id) == without_channel(
            channels,
            channel_id,
        ),
        last != channel_id ==> without_channel(channels.push(last), channel_id) == without_channel(
            channels,
            channel_id,
        ).push(last),
{
    reveal(Seq::filter);
    assert(channels.push(last).drop_last() == channels);
}

/// A runlist entry is the low 12 bits of its channel's ID.
pub proof fn runlist_entries_hold_channel_ids(channels: Seq<u32>, i: int)
    requires
        0 <= i < channels.len(),
    ensures
        runlist_entries(channels).len() == channels.len(),
        runlist_entries(channels)[i] < 0x1000,
        (channels[i] - runlist_entries(channels)[i]) % 0x1000 == 0,
{
}

/// A runlist without channels is not committed. One with channels takes 8 bytes
/// of VRAM for each. Placing the update writes for each channel its ID and then
/// a zero word, and then the two halves of the list's GPU virtual address, the
/// low one first, to the registers at 0x2270 and 0x2274 plus 16 for each
/// runlist before this one.
pub proof fn commit_places_the_list(
    runlist: Runlist,
    vram: VramView,
    regs: GpuRegs,
    after: Runlist,
    update: Option<RunlistUpdate>,
    i: int,
)
    requires
        runlist.commits_to(vram, regs, after, update),
        runlist.commit_in_range(vram),
    ensures
        after.id == runlist.id && after.channels@ == runlist.channels@,
        runlist.channels@.len() == 0 ==> update is None && after.allocation == runlist.allocation,
        runlist.channels@.len() > 0 ==> {
            let alloc = vram.allocation((8 * runlist.channels@.len()) as u64);
            &&& update is Some <==> alloc is Some
            &&& update is None ==> after.allocation == runlist.allocation
            &&& update is Some ==> {
                let accesses = update->0.place_accesses();
                let end = 2 * runlist.channels@.len() as int;
                &&& after.allocation == alloc
                &&& accesses.len() == end + 2
                &&& 0 <= i < runlist.channels@.len() ==> {
                    &&& accesses[2 * i] == (Access::WriteVram {
                        phys_addr: (alloc->0.phys_addr + 8 * i) as u64,
                        word: runlist.channels@[i] % 0x1000,
                    })
                    &&& accesses[2 * i + 1] == (Access::WriteVram {
                        phys_addr: (alloc->0.phys_addr + 8 * i + 4) as u64,
                        word: 0,
                    })
                }
                &&& accesses[end] matches Access::WriteRegister { bar0, offset, value } && bar0
                    == regs.bar0 && offset == 0x2270 + 16 * runlist.id && value
                    == alloc->0.gpu_va % 0x1_0000_0000
                &&& accesses[end + 1] matches Access::WriteRegister { bar0, offset, value } && bar0
                    == regs.bar0 && offset == 0x2274 + 16 * runlist.id && value == alloc->0.gpu_va
                    / 0x1_0000_0000
            }
        },
{
}

/// The FIFO engine is initialized by reading its interrupt register at 0x2100,
/// clearing all of it, and enabling all interrupts at 0x2140.
pub proof fn fifo_init_order(regs: GpuRegs)
    ensures
        ({
            let accesses = init_fifo_accesses(regs);
            let bar0 = regs.bar0;
            &&& accesses.len() == 3
            &&& accesses[0] == (Access::ReadRegister { bar0, offset: 0x2100 })
            &&& accesses[1] == (Access::WriteRegister { bar0, offset: 0x2100, value: 0xFFFF_FFFF })
            &&& accesses[2] == (Access::WriteRegister { bar0, offset: 0x2140, value: 0xFFFF_FFFF })
        }),
{
}

/// The sizes and registers that channels and runlists are laid out by.
pub proof fn channel_layout()
    ensures
        METHOD_INCR == 1 && METHOD_NONINCR == 2,
        DEFAULT_GPFIFO_ENTRIES == 1024,
        DEFAULT_PUSH_BUFFER_SIZE == 262144,
        GPFIFO_RING_SIZE == 8 * 1024,
        DOORBELL_BASE == 0x9_0000,
        RUNLIST_BASE_REGISTER == 0x2270,
{
}

/// A channel can be allocated if there are addresses for its 264 KiB and its
/// doorbell has a register.
pub proof fn channel_range(vram: VramView, channel_id: u32)
    ensures
        Channel::allocate_in_range(vram, channel_id) <==> vram.in_address_space(0x4_2000)
            && channel_id <= 0x1FFE_DFFF,
{
}

/// A runlist without channels, or one that finds no room in VRAM, can always be
/// committed. Any other needs addresses for its entries, and a register.
pub proof fn commit_range(runlist: Runlist, vram: VramView)
    requires
        runlist.channels@.len() <= 0x1FFF_FFFF_FFFF_FE00,
    ensures
        ({
            let bytes = (8 * runlist.channels@.len()) as u64;
            &&& runlist.channels@.len() == 0 || vram.allocation(bytes) is None
                ==> runlist.commit_in_range(vram)
            &&& runlist.channels@.len() > 0 && vram.allocation(bytes) is Some ==> (
            runlist.commit_in_range(vram) <==> vram.va_has_room(bytes) && runlist.id
                <= 0x0FFF_FDD8)
        }),
{
}

} // verus!

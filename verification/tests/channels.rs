use gpu_compute::access::{Access, Step};
use gpu_compute::fifo::{
    gpu_method_1, gpu_method_incr, gpu_method_nonincr, init_fifo, Channel, GpfifoEntry, Runlist,
};
use gpu_compute::memory::{MemoryType, VramAllocator, VramInfo, GPU_VA_BASE, RESERVED_BYTES};
use gpu_compute::mmio::{GpuRegs, NV_PFIFO_INTR_0, NV_PFIFO_INTR_EN_0};

fn allocator(total_bytes: u64) -> VramAllocator {
    let info = VramInfo {
        total_bytes,
        mem_type: MemoryType::Gddr6,
        bus_width: 256,
        partitions: 8,
        description: String::from("test"),
    };
    VramAllocator::new(info, 0, 0)
}

fn run(procedure: impl Fn(&[u32]) -> Step<()>) -> Vec<Access> {
    let mut replies: Vec<u32> = Vec::new();
    let mut accesses: Vec<Access> = Vec::new();
    loop {
        match procedure(&replies) {
            Step::Next(access) => {
                accesses.push(access);
                replies.push(0);
            }
            Step::Done { result: (), used } => {
                assert_eq!(used, replies.len());
                return accesses;
            }
        }
    }
}

#[test]
fn method_headers() {
    assert_eq!(gpu_method_1(0, 0x0000), 0x1001_0000);
    assert_eq!(gpu_method_incr(1, 0x2080, 3), 0x1003_2820);
    assert_eq!(gpu_method_nonincr(7, 0x2388, 16), 0x2010_E8E2);
    // The subchannel is cut to three bits and the count to thirteen.
    assert_eq!(gpu_method_incr(9, 0, 1), gpu_method_incr(1, 0, 1));
    assert_eq!(gpu_method_incr(0, 0, 0x2001), gpu_method_incr(0, 0, 1));
    // All thirteen bits of a count can be read back beside an even operation.
    assert_eq!(gpu_method_nonincr(0, 0, 0x1000), 0x3000_0000);
    assert_eq!(gpu_method_nonincr(5, 0x10, 0x1FFF), 0x3FFF_A004);
    assert_eq!(0x3FFF_A004u32 >> 29, 1);
    assert_eq!(0x3FFF_A004u32 >> 16 & 0x1FFF, 0x1FFF);
    // Beside an odd one, the highest bit falls into the operation.
    assert_eq!(gpu_method_incr(0, 0, 0x1000), gpu_method_incr(0, 0, 0));
}

#[test]
fn gpfifo_entries() {
    let entry = GpfifoEntry::new(0x12_3456_7890, 0x22);
    assert_eq!((entry.lo, entry.hi), (0x3456_7890, 0x0000_2212));
    let entry = GpfifoEntry::new_no_prefetch(0x12_3456_7890, 0x22);
    assert_eq!((entry.lo, entry.hi), (0x3456_7890, 0x8000_2212));
    // Address bits above 40 and length bits above 23 are cut off.
    let entry = GpfifoEntry::new(0xFFFF_0000_0000_0001, 0xFF80_0001);
    assert_eq!((entry.lo, entry.hi), (1, 0x0000_0100));
}

#[test]
fn a_channel_owns_its_ring_and_push_buffer() {
    let mut vram = allocator(16 << 20);
    let channel = Channel::allocate(&mut vram, 3, 1).unwrap();
    assert_eq!((channel.id, channel.engine_id), (3, 1));
    assert_eq!(channel.gpfifo.gpu_va, GPU_VA_BASE);
    assert_eq!(channel.gpfifo.size, 8192);
    assert_eq!(channel.push_buffer.gpu_va, GPU_VA_BASE + 0x2000);
    assert_eq!(channel.push_buffer.size, 256 * 1024);
    assert_eq!(channel.gpfifo_entries, 1024);
    assert_eq!((channel.gpfifo_put, channel.push_offset), (0, 0));
    assert_eq!(channel.push_size, 256 * 1024);
    assert_eq!(channel.doorbell_offset, 0x90018);
}

#[test]
fn a_channel_needs_room_for_both() {
    assert!(Channel::allocate(&mut allocator(1 << 20), 0, 0).is_none());
    // The ring fits, the push buffer does not.
    assert!(Channel::allocate(&mut allocator((1 << 20) + 0x4000), 0, 0).is_none());
    assert!(Channel::allocate(&mut allocator((1 << 20) + 0x42000), 0, 0).is_some());
}

#[test]
fn submissions_advance_the_channel() {
    let regs = GpuRegs::new(0x5000);
    let mut vram = allocator(16 << 20);
    let mut channel = Channel::allocate(&mut vram, 1, 0).unwrap();
    let base = channel.push_buffer.gpu_va;
    let first = channel.submit(&regs, &[1, 2, 3]).unwrap();
    assert_eq!((first.gpu_va, first.push_offset, first.gpfifo_index), (base, 0, 0));
    assert_eq!(first.entry, GpfifoEntry::new(base, 3));
    assert_eq!(
        first.doorbell,
        Access::WriteRegister { bar0: 0x5000, offset: 0x90008, value: 1 }
    );
    let second = channel.submit(&regs, &[4]).unwrap();
    assert_eq!((second.gpu_va, second.push_offset, second.gpfifo_index), (base + 12, 12, 1));
    assert_eq!((channel.push_offset, channel.gpfifo_put), (16, 2));
    channel.reset_push_buffer();
    let third = channel.submit(&regs, &[5]).unwrap();
    assert_eq!((third.gpu_va, third.gpfifo_index), (base, 2));
}

#[test]
fn the_ring_wraps_around() {
    let regs = GpuRegs::new(0);
    let mut vram = allocator(16 << 20);
    let mut channel = Channel::allocate(&mut vram, 0, 0).unwrap();
    for i in 0..1024u32 {
        assert_eq!(channel.submit(&regs, &[i]).unwrap().gpfifo_index, i);
    }
    let wrapped = channel.submit(&regs, &[0]).unwrap();
    assert_eq!(wrapped.gpfifo_index, 0);
    assert_eq!(
        wrapped.doorbell,
        Access::WriteRegister { bar0: 0, offset: 0x90000, value: 1 }
    );
}

#[test]
fn a_full_push_buffer_refuses() {
    let regs = GpuRegs::new(0);
    let mut vram = allocator(16 << 20);
    let mut channel = Channel::allocate(&mut vram, 0, 0).unwrap();
    let all = vec![0u32; 65536];
    assert!(channel.submit(&regs, &all).is_some());
    assert!(channel.submit(&regs, &[1]).is_none());
    assert_eq!((channel.push_offset, channel.gpfifo_put), (256 * 1024, 1));
    // Nothing takes no room.
    assert!(channel.submit(&regs, &[]).is_some());
}

#[test]
fn a_submission_is_placed_before_the_doorbell() {
    let regs = GpuRegs::new(0x5000);
    let mut vram = allocator(16 << 20);
    let mut channel = Channel::allocate(&mut vram, 1, 0).unwrap();
    channel.submit(&regs, &[9]);
    let commands = [7, 8];
    let submission = channel.submit(&regs, &commands).unwrap();
    let ring = channel.gpfifo.phys_addr;
    let push = channel.push_buffer.phys_addr;
    assert!(channel.can_place(&submission, commands.len()));
    assert_eq!(
        run(|replies| channel.place(&submission, &commands, replies)),
        vec![
            Access::WriteVram { phys_addr: push + 4, word: 7 },
            Access::WriteVram { phys_addr: push + 8, word: 8 },
            Access::WriteVram { phys_addr: ring + 8, word: submission.entry.lo },
            Access::WriteVram { phys_addr: ring + 12, word: submission.entry.hi },
            Access::WriteRegister { bar0: 0x5000, offset: 0x90008, value: 2 },
        ]
    );
    channel.push_buffer.phys_addr = u64::MAX - 11;
    assert!(!channel.can_place(&submission, 2));
}

#[test]
fn a_list_of_any_length_is_measured_in_full() {
    let mut vram = allocator(16 << 20);
    let mut channel = Channel::allocate(&mut vram, 1, 0).unwrap();
    // What does not fit is refused, so nothing can go out of range.
    channel.gpfifo_entries = 0;
    assert!(channel.can_submit(65537));
    assert!(channel.can_submit(1 << 30));
    assert!(channel.can_submit(u64::MAX));
    assert!(!channel.can_submit(65536));
    channel.push_offset = u32::MAX;
    assert!(channel.submit(&GpuRegs::new(0), &[1]).is_none());
}

#[test]
fn runlists_add_and_remove_channels() {
    let mut runlist = Runlist::new(2);
    assert_eq!(runlist.id, 2);
    for channel in [5, 6, 5, 7] {
        runlist.add_channel(channel);
    }
    assert_eq!(runlist.channels, vec![5, 6, 5, 7]);
    runlist.remove_channel(5);
    assert_eq!(runlist.channels, vec![6, 7]);
    runlist.remove_channel(9);
    assert_eq!(runlist.channels, vec![6, 7]);
    runlist.add_channel(9);
    runlist.remove_channel(9);
    assert_eq!(runlist.channels, vec![6, 7]);
}

#[test]
fn committing_a_runlist() {
    let regs = GpuRegs::new(0);
    let mut vram = allocator(16 << 20);
    let mut runlist = Runlist::new(1);
    assert!(runlist.commit(&regs, &mut vram).is_none());
    assert!(runlist.allocation.is_none());
    runlist.add_channel(3);
    runlist.add_channel(0x1004);
    assert!(runlist.can_commit(&vram));
    let update = runlist.commit(&regs, &mut vram).unwrap();
    assert_eq!(update.phys_addr, RESERVED_BYTES);
    assert_eq!(update.entries, vec![3, 4]);
    assert_eq!(
        run(|replies| update.place(replies)),
        vec![
            Access::WriteVram { phys_addr: RESERVED_BYTES, word: 3 },
            Access::WriteVram { phys_addr: RESERVED_BYTES + 4, word: 0 },
            Access::WriteVram { phys_addr: RESERVED_BYTES + 8, word: 4 },
            Access::WriteVram { phys_addr: RESERVED_BYTES + 12, word: 0 },
            Access::WriteRegister { bar0: 0, offset: 0x2280, value: 0 },
            Access::WriteRegister { bar0: 0, offset: 0x2284, value: 1 },
        ]
    );
    assert_eq!(runlist.allocation.as_ref().unwrap().gpu_va, GPU_VA_BASE);
    assert_eq!(runlist.channels, vec![3, 0x1004]);
    let mut tiny = allocator(1 << 20);
    assert!(runlist.commit(&regs, &mut tiny).is_none());
}

#[test]
fn fifo_initialization() {
    let regs = GpuRegs::new(0x10);
    let write = |offset: u32| Access::WriteRegister { bar0: 0x10, offset, value: 0xFFFF_FFFF };
    assert_eq!(
        init_fifo(&regs, &[]),
        Step::Next(Access::ReadRegister { bar0: 0x10, offset: NV_PFIFO_INTR_0 })
    );
    assert_eq!(init_fifo(&regs, &[0]), Step::Next(write(NV_PFIFO_INTR_0)));
    assert_eq!(init_fifo(&regs, &[0, 0]), Step::Next(write(NV_PFIFO_INTR_EN_0)));
    assert_eq!(init_fifo(&regs, &[0, 0, 0]), Step::Done { result: (), used: 3 });
}

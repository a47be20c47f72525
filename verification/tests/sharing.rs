use gpu_compute::access::{Access, Step};
use gpu_compute::compute::{BlockDim, ComputeEngine, GridDim};
use gpu_compute::fifo::Runlist;
use gpu_compute::memory::{
    Bar1Aperture, GpuAllocation, MemoryType, VramAllocator, VramInfo, GPU_VA_BASE, RESERVED_BYTES,
};
use gpu_compute::mmio::GpuRegs;
use gpu_compute::pci_config::GpuFamily;
use gpu_compute::shared::SharedVramAllocator;
use gpu_compute::tensor::{DType, TensorEngine};

fn shared(total_bytes: u64) -> SharedVramAllocator {
    let info = VramInfo {
        total_bytes,
        mem_type: MemoryType::Gddr6,
        bus_width: 256,
        partitions: 8,
        description: String::from("test"),
    };
    SharedVramAllocator::new(VramAllocator::new(info, 0xE000_0000, 0x1000_0000))
}

#[test]
fn a_shared_allocator_keeps_its_state_between_calls() {
    let vram = shared(0x100_0000);
    let a: GpuAllocation = vram.allocate(1).unwrap();
    let b: GpuAllocation = vram.allocate(1).unwrap();
    assert_eq!((a.phys_addr, a.gpu_va), (RESERVED_BYTES, GPU_VA_BASE));
    assert_eq!((b.phys_addr, b.gpu_va), (RESERVED_BYTES + 0x1000, GPU_VA_BASE + 0x1000));
    assert_eq!(vram.map_system_memory(0, 0x1000), Some(GPU_VA_BASE + 0x2000));
    assert_eq!(vram.map_system_memory(0, 0x1000), Some(GPU_VA_BASE + 0x3000));
    vram.free(&a);
    assert_eq!(vram.allocate(1).unwrap().phys_addr, RESERVED_BYTES + 0x2000);
}

#[test]
fn a_shared_allocator_maps_to_the_cpu() {
    let vram = shared(0x100_0000);
    let mut a = vram.allocate(1).unwrap();
    assert_eq!(vram.map_to_cpu(&mut a), Some(0xE010_0000));
    assert!(a.cpu_mapped);
    assert_eq!(vram.map_to_cpu(&mut a), Some(0xE010_0000));
}

#[test]
fn a_shared_allocator_runs_out() {
    let vram = shared(0x20_0000);
    assert!(vram.allocate(0x10_0001).is_none());
    assert!(vram.allocate(0x10_0000).is_some());
    assert!(vram.allocate(1).is_none());
    assert!(vram.allocate(u64::MAX).is_none());
    assert!(vram.map_system_memory(0, u64::MAX).is_none());
}

#[test]
fn a_shared_allocator_has_the_aperture_it_was_made_with() {
    let info = VramInfo {
        total_bytes: 0x100_0000,
        mem_type: MemoryType::Gddr6,
        bus_width: 256,
        partitions: 8,
        description: String::from("test"),
    };
    let vram = VramAllocator::new(info, u64::MAX - RESERVED_BYTES, 0x20_0000);
    let aperture = vram.aperture();
    assert_eq!((aperture.cpu_base, aperture.size), (u64::MAX - RESERVED_BYTES, 0x20_0000));
    let vram = SharedVramAllocator::new(vram);
    let mut first = vram.allocate(1).unwrap();
    assert_eq!(vram.map_to_cpu(&mut first), Some(u64::MAX));
    // The next page would lie past the end of the address space.
    let mut second = vram.allocate(1).unwrap();
    assert_eq!(vram.map_to_cpu(&mut second), None);
    assert!(!second.cpu_mapped);
    // This one ends past the aperture.
    let mut third = vram.allocate(0x10_0000).unwrap();
    assert_eq!(vram.map_to_cpu(&mut third), None);
    assert!(!third.cpu_mapped);
}

#[test]
fn everything_can_be_allocated_from_a_shared_allocator() {
    let vram = shared(0x100_0000);
    let regs = GpuRegs::new(0);
    let mut channel = vram.allocate_channel(2, 0).unwrap();
    assert_eq!(channel.gpfifo.phys_addr, RESERVED_BYTES);
    assert_eq!(channel.push_buffer.phys_addr, RESERVED_BYTES + 0x2000);
    let fence = vram.allocate_fence(7).unwrap();
    assert_eq!(fence.allocation.phys_addr, RESERVED_BYTES + 0x42000);
    let mut compute = ComputeEngine::new(GpuFamily::Pascal);
    let shader = vram.load_shader(&compute, &[1, 2, 3], 0, 0, 0).unwrap();
    assert_eq!(shader.allocation.phys_addr, RESERVED_BYTES + 0x43000);
    assert_eq!(shader.allocation.cpu_va, 0xE014_3000);
    let mut runlist = Runlist::new(0);
    assert!(vram.commit_runlist(&mut runlist, &regs).is_none());
    runlist.add_channel(2);
    let update = vram.commit_runlist(&mut runlist, &regs).unwrap();
    assert_eq!(update.phys_addr, RESERVED_BYTES + 0x44000);
    let mut tensors = TensorEngine::new();
    let tensor = vram.allocate_tensor(&mut tensors, "t", &[4], DType::Float32).unwrap();
    assert_eq!(tensor.allocation.phys_addr, RESERVED_BYTES + 0x45000);
    assert_eq!(tensors.tensor_count, 1);
    let grid = GridDim { x: 1, y: 1, z: 1 };
    let block = BlockDim { x: 1, y: 1, z: 1 };
    let dispatch = vram
        .dispatch(&mut compute, &regs, &mut channel, &shader, grid, block, &[], true)
        .unwrap();
    assert_eq!(dispatch.commands.len(), 30);
    let fence = dispatch.fence.unwrap();
    assert_eq!(fence.allocation.phys_addr, RESERVED_BYTES + 0x46000);
    assert_eq!(fence.allocation.cpu_va, 0xE014_6000);
    assert_eq!(channel.push_offset, 120);
}

#[test]
fn a_shared_allocator_refuses_what_is_out_of_range() {
    let vram = shared(0x100_0000);
    let regs = GpuRegs::new(0);
    assert!(vram.allocate_channel(u32::MAX, 0).is_none());
    let mut tensors = TensorEngine::new();
    assert!(vram.allocate_tensor(&mut tensors, "t", &[usize::MAX, 2], DType::Int8).is_none());
    assert_eq!(tensors, TensorEngine::new());
    let mut runlist = Runlist::new(u32::MAX);
    runlist.add_channel(1);
    assert!(vram.commit_runlist(&mut runlist, &regs).is_none());
    assert!(runlist.allocation.is_none());
    let mut channel = vram.allocate_channel(0, 0).unwrap();
    let mut compute = ComputeEngine::new(GpuFamily::Pascal);
    compute.next_fence_value = u32::MAX;
    let shader = vram.load_shader(&compute, &[1], 0, 0, 0).unwrap();
    let grid = GridDim { x: 1, y: 1, z: 1 };
    let block = BlockDim { x: 1, y: 1, z: 1 };
    assert!(vram
        .dispatch(&mut compute, &regs, &mut channel, &shader, grid, block, &[], true)
        .is_none());
    assert_eq!(channel.push_offset, 0);
    let tiny = shared(0x10_0000);
    assert!(tiny.allocate_channel(0, 0).is_none());
    assert!(tiny.allocate_fence(1).is_none());
    assert!(tiny.load_shader(&compute, &[1], 0, 0, 0).is_none());
}

#[test]
fn a_shared_allocator_tells_what_it_was_made_with() {
    let vram = shared(0x100_0000);
    assert_eq!(vram.info().total_bytes, 0x100_0000);
    assert_eq!((vram.info().bus_width, vram.info().partitions), (256, 8));
    assert_eq!(vram.info().mem_type, MemoryType::Gddr6);
    assert_eq!(vram.info().description, "test");
    assert_eq!(
        vram.aperture(),
        Bar1Aperture { cpu_base: 0xE000_0000, size: 0x1000_0000 }
    );
}

#[test]
fn tensors_of_a_shared_allocator_are_transferred_and_freed() {
    let vram = shared(0x100_0000);
    let mut tensors = TensorEngine::new();
    let mut t = vram.allocate_tensor(&mut tensors, "t", &[2], DType::Int8).unwrap();
    let data = [7u8, 8];
    for i in 0..2 {
        assert_eq!(
            vram.upload(&tensors, &mut t, &data, &vec![0; i]),
            Step::Next(Access::WriteByte { va: 0xE010_0000 + i as u64, byte: data[i] })
        );
    }
    let done = Step::Done { result: true, used: 2 };
    assert_eq!(vram.upload(&tensors, &mut t, &data, &[0, 0]), done);
    assert_eq!(t.allocation.cpu_va, 0xE010_0000);
    let mut buffer = [0u8; 2];
    assert_eq!(
        vram.download(&tensors, &mut t, &mut buffer, &[7]),
        Step::Next(Access::ReadByte { va: 0xE010_0001 })
    );
    assert_eq!(buffer, [0, 0]);
    assert_eq!(vram.download(&tensors, &mut t, &mut buffer, &[7, 8]), done);
    assert_eq!(buffer, data);
    // A size that does not match, and an address out of range.
    let refused = Step::Done { result: false, used: 0 };
    assert_eq!(vram.upload(&tensors, &mut t, &[1], &[]), refused);
    t.allocation.cpu_va = u64::MAX;
    assert_eq!(vram.upload(&tensors, &mut t, &data, &[]), refused);
    assert_eq!(vram.download(&tensors, &mut t, &mut buffer, &[]), refused);
    vram.free_tensor(&mut tensors, t);
    assert_eq!(tensors, TensorEngine::new());
}

#[test]
fn a_fence_of_a_shared_allocator_is_prepared() {
    let vram = shared(0x100_0000);
    let mut fence = vram.allocate_fence(3).unwrap();
    let clear = Access::WriteVram { phys_addr: RESERVED_BYTES, word: 0 };
    assert_eq!(vram.prepare_fence(&mut fence, &[]), Step::Next(clear));
    assert_eq!(vram.prepare_fence(&mut fence, &[0]), Step::Done { result: true, used: 1 });
    assert_eq!(fence.allocation.cpu_va, 0xE010_0000);
    fence.allocation.cpu_mapped = false;
    fence.allocation.phys_addr = u64::MAX;
    assert_eq!(vram.prepare_fence(&mut fence, &[]), Step::Done { result: false, used: 0 });
    assert!(!fence.allocation.cpu_mapped);
}

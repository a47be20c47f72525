use gpu_compute::access::{Access, Step};
use gpu_compute::compute::{
    compute_class_for_family, BlockDim, ComputeEngine, ConstantBufferBinding, Dispatch, GpuFence, GridDim,
    ShaderProgram, ADA_COMPUTE_A, AMPERE_COMPUTE_A, KEPLER_COMPUTE_A, MAXWELL_COMPUTE_A,
    NVC6C0_LAUNCH, NVC6C0_SET_PROGRAM_REGION_A, PASCAL_COMPUTE_A, TURING_COMPUTE_A,
    VOLTA_COMPUTE_A,
};
use gpu_compute::fifo::{gpu_method_1, Channel};
use gpu_compute::memory::{GpuAllocation, MemoryType, VramAllocator, VramInfo, GPU_VA_BASE};
use gpu_compute::mmio::GpuRegs;
use gpu_compute::pci_config::GpuFamily;

const GRID: GridDim = GridDim { x: 4, y: 5, z: 6 };
const BLOCK: BlockDim = BlockDim { x: 32, y: 2, z: 1 };

fn allocator(total_bytes: u64) -> VramAllocator {
    let info = VramInfo {
        total_bytes,
        mem_type: MemoryType::Gddr6,
        bus_width: 256,
        partitions: 8,
        description: String::from("test"),
    };
    VramAllocator::new(info, 0xE000_0000, 0x20_0000)
}

fn shader() -> ShaderProgram {
    ShaderProgram {
        allocation: GpuAllocation {
            gpu_va: 0x1_0000_3000,
            phys_addr: 0x10_3000,
            size: 0x1000,
            cpu_mapped: false,
            cpu_va: 0,
        },
        size: 16,
        entry_offset: 0x80,
        shared_mem_size: 1024,
        num_registers: 32,
        num_const_buffers: 0,
    }
}

#[test]
fn compute_classes() {
    assert_eq!(compute_class_for_family(GpuFamily::Kepler), KEPLER_COMPUTE_A);
    assert_eq!(compute_class_for_family(GpuFamily::Maxwell), MAXWELL_COMPUTE_A);
    assert_eq!(compute_class_for_family(GpuFamily::Pascal), PASCAL_COMPUTE_A);
    assert_eq!(compute_class_for_family(GpuFamily::Volta), VOLTA_COMPUTE_A);
    assert_eq!(compute_class_for_family(GpuFamily::Turing), TURING_COMPUTE_A);
    assert_eq!(compute_class_for_family(GpuFamily::Ampere), AMPERE_COMPUTE_A);
    assert_eq!(compute_class_for_family(GpuFamily::Ada), ADA_COMPUTE_A);
    assert_eq!(compute_class_for_family(GpuFamily::Unknown), AMPERE_COMPUTE_A);
    assert_eq!(AMPERE_COMPUTE_A, 0xC6C0);
}

#[test]
fn threads_of_a_block() {
    assert_eq!(BlockDim { x: 32, y: 4, z: 2 }.total_threads(), 256);
    assert_eq!(BlockDim { x: 32, y: 0, z: 2 }.total_threads(), 0);
}

#[test]
fn binding_submits_the_class() {
    let regs = GpuRegs::new(0);
    let mut vram = allocator(16 << 20);
    let mut channel = Channel::allocate(&mut vram, 0, 0).unwrap();
    let engine = ComputeEngine::new(GpuFamily::Pascal);
    let batch = engine.bind_to_channel(&mut channel, &regs);
    assert_eq!(batch.commands, vec![0x1001_0000, 0xC0C0]);
    assert_eq!(batch.submission.unwrap().gpu_va, channel.push_buffer.gpu_va);
    assert_eq!((channel.push_offset, channel.gpfifo_put), (8, 1));
}

#[test]
fn loading_a_shader() {
    let mut vram = allocator(16 << 20);
    let engine = ComputeEngine::new(GpuFamily::Ampere);
    let shader = engine.load_shader(&mut vram, &[0u8; 100], 0x40, 512, 24).unwrap();
    assert_eq!(shader.allocation.gpu_va, GPU_VA_BASE);
    assert_eq!(shader.allocation.cpu_va, 0xE010_0000);
    assert!(shader.allocation.cpu_mapped);
    assert_eq!((shader.size, shader.entry_offset), (100, 0x40));
    assert_eq!((shader.shared_mem_size, shader.num_registers), (512, 24));
    assert_eq!(shader.num_const_buffers, 0);
    // Beyond the aperture it is loaded without a mapping.
    let far = engine.load_shader(&mut vram, &[0u8; 0x100000], 0, 0, 0).unwrap();
    assert!(!far.allocation.cpu_mapped);
    assert!(engine.load_shader(&mut allocator(1 << 20), &[1], 0, 0, 0).is_none());
}

#[test]
fn dispatch_commands_word_by_word() {
    let engine = ComputeEngine::new(GpuFamily::Ampere);
    let buffers = [ConstantBufferBinding { slot: 3, gpu_va: 0x1_0000_0000, size: 0x2_0100 }];
    let commands = engine.build_dispatch_commands(&shader(), GRID, BLOCK, &buffers, None);
    let expected = [
        (NVC6C0_SET_PROGRAM_REGION_A, 0x1),
        (0x160C, 0x0000_3000),
        (0x2000, 0x80),
        (0x204C, 1024),
        (0x2380, 3),
        (0x0AB0, 0x1001),
        (0x2040, 32),
        (0x2044, 2),
        (0x2048, 1),
        (0x2074, 4),
        (0x2078, 5),
        (0x207C, 6),
        (NVC6C0_LAUNCH, 0),
    ];
    let words: Vec<u32> =
        expected.iter().flat_map(|(method, data)| [gpu_method_1(0, *method), *data]).collect();
    assert_eq!(commands, words);
}

#[test]
fn a_fence_is_released_after_the_launch() {
    let engine = ComputeEngine::new(GpuFamily::Ampere);
    let mut vram = allocator(16 << 20);
    let fence = GpuFence::new(&mut vram, 77).unwrap();
    assert_eq!(fence.allocation.size, 0x1000);
    let commands = engine.build_dispatch_commands(&shader(), GRID, BLOCK, &[], Some(&fence));
    assert_eq!(commands.len(), 30);
    assert_eq!(&commands[20..22], &[gpu_method_1(0, NVC6C0_LAUNCH), 0]);
    let release = [(0x1B00, 1), (0x1B04, 0), (0x1B08, 77), (0x1B0C, 0x10004)];
    let words: Vec<u32> =
        release.iter().flat_map(|(method, data)| [gpu_method_1(0, *method), *data]).collect();
    assert_eq!(&commands[22..], &words[..]);
    assert!(GpuFence::new(&mut allocator(1 << 20), 1).is_none());
}

fn mapped_fence(signal_value: u32) -> GpuFence {
    GpuFence {
        allocation: GpuAllocation {
            gpu_va: GPU_VA_BASE,
            phys_addr: 0x10_0000,
            size: 0x1000,
            cpu_mapped: true,
            cpu_va: 0xE010_0000,
        },
        signal_value,
    }
}

#[test]
fn a_fence_is_signaled_by_its_value() {
    let fence = mapped_fence(5);
    let read = Access::ReadMemory { va: 0xE010_0000 };
    assert_eq!(fence.is_signaled(&[]), Step::Next(read));
    assert_eq!(fence.is_signaled(&[5]), Step::Done { result: true, used: 1 });
    assert_eq!(fence.is_signaled(&[4]), Step::Done { result: false, used: 1 });
}

#[test]
fn a_fence_without_a_mapping_is_never_signaled() {
    let mut vram = allocator(16 << 20);
    let fence = GpuFence::new(&mut vram, 5).unwrap();
    assert_eq!(fence.is_signaled(&[]), Step::Done { result: false, used: 0 });
    assert_eq!(fence.wait(10, &[]), Step::Done { result: false, used: 0 });
}

#[test]
fn preparing_a_fence_maps_and_clears_it() {
    let mut vram = allocator(16 << 20);
    let mut fence = GpuFence::new(&mut vram, 5).unwrap();
    let clear = Access::WriteVram { phys_addr: fence.allocation.phys_addr, word: 0 };
    assert_eq!(fence.prepare(&vram, &[]), Step::Next(clear));
    assert_eq!(fence.prepare(&vram, &[0]), Step::Done { result: true, used: 1 });
    assert_eq!(fence.allocation.cpu_va, 0xE010_0000);
    let read = Access::ReadMemory { va: 0xE010_0000 };
    assert_eq!(fence.is_signaled(&[]), Step::Next(read));
    assert_eq!(fence.is_signaled(&[5]), Step::Done { result: true, used: 1 });
    assert_eq!(fence.wait(3, &[0, 5]), Step::Done { result: true, used: 2 });
    // Beyond the aperture a fence is cleared but cannot be read.
    vram.allocate(0x10_0000);
    let mut far = GpuFence::new(&mut vram, 6).unwrap();
    assert_eq!(far.prepare(&vram, &[0]), Step::Done { result: false, used: 1 });
    assert!(!far.allocation.cpu_mapped);
}

#[test]
fn waiting_on_a_fence() {
    let fence = mapped_fence(5);
    let read = Access::ReadMemory { va: 0xE010_0000 };
    assert_eq!(fence.wait(3, &[]), Step::Next(read));
    assert_eq!(fence.wait(3, &[0, 1]), Step::Next(read));
    assert_eq!(fence.wait(3, &[0, 5]), Step::Done { result: true, used: 2 });
    assert_eq!(fence.wait(3, &[0, 1, 5]), Step::Done { result: true, used: 3 });
    assert_eq!(fence.wait(3, &[0, 1, 2]), Step::Done { result: false, used: 3 });
    assert_eq!(fence.wait(0, &[]), Step::Done { result: false, used: 0 });
}

fn run(
    dispatch: &Dispatch,
    channel: &Channel,
    mut hardware: impl FnMut(Access) -> u32,
) -> (bool, Vec<Access>) {
    let mut replies: Vec<u32> = Vec::new();
    let mut accesses: Vec<Access> = Vec::new();
    loop {
        match dispatch.run(channel, &replies) {
            Step::Next(access) => {
                accesses.push(access);
                replies.push(hardware(access));
            }
            Step::Done { result, used } => {
                assert_eq!(used, replies.len());
                return (result, accesses);
            }
        }
    }
}

#[test]
fn dispatching_without_waiting() {
    let regs = GpuRegs::new(0x100);
    let mut vram = allocator(16 << 20);
    let mut channel = Channel::allocate(&mut vram, 0, 0).unwrap();
    let mut engine = ComputeEngine::new(GpuFamily::Pascal);
    assert!(engine.can_dispatch(&channel, &vram, 0, false));
    let dispatch =
        engine.dispatch(&regs, &mut channel, &shader(), GRID, BLOCK, &[], &mut vram, false);
    assert_eq!(dispatch.commands.len(), 22);
    assert!(dispatch.fence.is_none());
    assert_eq!(engine.next_fence_value, 1);
    assert_eq!(channel.push_offset, 88);
    let (done, accesses) = run(&dispatch, &channel, |_| 0);
    assert!(done);
    assert_eq!(accesses.len(), 25);
    let push = channel.push_buffer.phys_addr;
    assert_eq!(
        accesses[21],
        Access::WriteVram { phys_addr: push + 84, word: dispatch.commands[21] }
    );
    assert_eq!(
        accesses[24],
        Access::WriteRegister { bar0: 0x100, offset: 0x90000, value: 1 }
    );
}

#[test]
fn dispatching_with_a_fence_waits() {
    let regs = GpuRegs::new(0x100);
    let mut vram = allocator(16 << 20);
    let mut channel = Channel::allocate(&mut vram, 0, 0).unwrap();
    let mut engine = ComputeEngine::new(GpuFamily::Pascal);
    assert!(engine.can_dispatch(&channel, &vram, 0, true));
    let first =
        engine.dispatch(&regs, &mut channel, &shader(), GRID, BLOCK, &[], &mut vram, true);
    let second =
        engine.dispatch(&regs, &mut channel, &shader(), GRID, BLOCK, &[], &mut vram, true);
    let fence = first.fence.as_ref().unwrap();
    assert_eq!(fence.signal_value, 1);
    assert_eq!(second.fence.as_ref().unwrap().signal_value, 2);
    assert_eq!(engine.next_fence_value, 3);
    assert!(fence.allocation.cpu_mapped);
    assert_eq!(fence.allocation.cpu_va, 0xE000_0000 + fence.allocation.phys_addr);
    let read = Access::ReadMemory { va: fence.allocation.cpu_va };
    let mut polls = 0;
    let (done, accesses) = run(&first, &channel, |access| {
        if access == read {
            polls += 1;
        }
        if polls == 3 {
            1
        } else {
            0
        }
    });
    assert!(done);
    // The semaphore is cleared first and read after the doorbell.
    assert_eq!(
        accesses[0],
        Access::WriteVram { phys_addr: fence.allocation.phys_addr, word: 0 }
    );
    assert_eq!(accesses.len(), 1 + 30 + 3 + 3);
    assert_eq!(&accesses[34..], &[read, read, read]);
}

#[test]
fn a_fence_outside_the_aperture_cannot_be_seen() {
    let regs = GpuRegs::new(0x100);
    let mut vram = allocator(16 << 20);
    let mut channel = Channel::allocate(&mut vram, 0, 0).unwrap();
    vram.allocate(0x10_0000);
    let mut engine = ComputeEngine::new(GpuFamily::Pascal);
    let dispatch =
        engine.dispatch(&regs, &mut channel, &shader(), GRID, BLOCK, &[], &mut vram, true);
    assert!(!dispatch.fence.as_ref().unwrap().allocation.cpu_mapped);
    let (done, accesses) = run(&dispatch, &channel, |_| 1);
    assert!(!done);
    assert_eq!(accesses.len(), 34);
}

#[test]
fn dispatches_out_of_range_are_known_beforehand() {
    let mut vram = allocator(16 << 20);
    let mut channel = Channel::allocate(&mut vram, 0, 0).unwrap();
    let mut engine = ComputeEngine::new(GpuFamily::Pascal);
    engine.next_fence_value = u32::MAX;
    assert!(!engine.can_dispatch(&channel, &vram, 0, true));
    assert!(engine.can_dispatch(&channel, &vram, 0, false));
    assert!(engine.can_dispatch(&channel, &vram, usize::MAX, false));
    channel.gpfifo_put = u32::MAX;
    assert!(!engine.can_dispatch(&channel, &vram, 0, false));
    assert!(engine.can_load_shader(&vram, 100));
    assert!(!engine.can_load_shader(&vram, usize::MAX));
}

#[test]
fn a_shader_binary_is_copied_to_its_place() {
    let mut vram = allocator(16 << 20);
    let engine = ComputeEngine::new(GpuFamily::Ampere);
    let binary = [5u8, 6, 7];
    let shader = engine.load_shader(&mut vram, &binary, 0, 0, 0).unwrap();
    for i in 0..3 {
        assert_eq!(
            shader.upload(&binary, &vec![0; i]),
            Step::Next(Access::WriteByte { va: 0xE010_0000 + i as u64, byte: binary[i] })
        );
    }
    assert_eq!(shader.upload(&binary, &[0, 0, 0]), Step::Done { result: true, used: 3 });
    let far = engine.load_shader(&mut vram, &[0u8; 0x100000], 0, 0, 0).unwrap();
    assert_eq!(far.upload(&[1], &[]), Step::Done { result: false, used: 0 });
}

#[test]
fn a_dispatch_that_does_not_fit_fails() {
    let regs = GpuRegs::new(0x100);
    let mut vram = allocator(16 << 20);
    let mut channel = Channel::allocate(&mut vram, 0, 0).unwrap();
    channel.push_offset = channel.push_size - 4;
    let mut engine = ComputeEngine::new(GpuFamily::Pascal);
    let dispatch =
        engine.dispatch(&regs, &mut channel, &shader(), GRID, BLOCK, &[], &mut vram, false);
    assert!(dispatch.submission.is_none());
    assert_eq!(dispatch.run(&channel, &[]), Step::Done { result: false, used: 0 });
}

use std::collections::HashMap;

use gpu_compute::access::{Access, Step};
use gpu_compute::compute::{BlockDim, ComputeEngine, GridDim};
use gpu_compute::fifo::Channel;
use gpu_compute::memory::{
    GpuAllocation, MemoryType, VramAllocator, VramInfo, GPU_VA_BASE, RESERVED_BYTES,
};
use gpu_compute::mmio::GpuRegs;
use gpu_compute::pci_config::GpuFamily;
use gpu_compute::tensor::{
    plan_elementwise, plan_matmul, plan_softmax, DType, TensorDescriptor, TensorEngine,
    TensorError,
};

const MIB: u64 = 0x10_0000;

fn allocator(total_bytes: u64, bar1_size: u64) -> VramAllocator {
    let info = VramInfo {
        total_bytes,
        mem_type: MemoryType::Gddr6,
        bus_width: 256,
        partitions: 8,
        description: String::from("test"),
    };
    VramAllocator::new(info, 0xE000_0000, bar1_size)
}

fn tensor(shape: &[usize]) -> TensorDescriptor {
    let mut engine = TensorEngine::new();
    let mut vram = allocator(256 * MIB, 0);
    engine.allocate_tensor(&mut vram, "t", shape, DType::Int8).unwrap()
}

#[test]
fn element_types() {
    let sizes: Vec<usize> =
        [DType::Float32, DType::Float16, DType::BFloat16, DType::Int8, DType::Int4]
            .iter()
            .map(|dtype| dtype.element_size())
            .collect();
    assert_eq!(sizes, vec![4, 2, 2, 1, 1]);
    assert_eq!(DType::Float32.name(), "fp32");
    assert_eq!(DType::Float16.name(), "fp16");
    assert_eq!(DType::BFloat16.name(), "bf16");
    assert_eq!(DType::Int8.name(), "int8");
    assert_eq!(DType::Int4.name(), "int4");
}

#[test]
fn strides_of_a_shape() {
    assert_eq!(TensorDescriptor::compute_strides(&[2, 3, 4]), vec![12, 4, 1]);
    assert_eq!(TensorDescriptor::compute_strides(&[7]), vec![1]);
    assert_eq!(TensorDescriptor::compute_strides(&[]), vec![] as Vec<usize>);
    assert_eq!(TensorDescriptor::compute_strides(&[5, 0, 3]), vec![0, 3, 1]);
}

#[test]
fn offsets_of_elements_cover_the_tensor_once() {
    let shape = [2usize, 3, 4];
    let strides = TensorDescriptor::compute_strides(&shape);
    let mut seen = vec![false; TensorDescriptor::total_elements(&shape)];
    for i in 0..2 {
        for j in 0..3 {
            for k in 0..4 {
                let offset = i * strides[0] + j * strides[1] + k * strides[2];
                assert!(!seen[offset]);
                seen[offset] = true;
            }
        }
    }
    assert!(seen.iter().all(|element| *element));
}

#[test]
fn elements_of_a_shape() {
    assert_eq!(TensorDescriptor::total_elements(&[2, 3, 4]), 24);
    assert_eq!(TensorDescriptor::total_elements(&[]), 1);
    assert_eq!(TensorDescriptor::total_elements(&[3, 0]), 0);
}

#[test]
fn allocating_a_weight_matrix() {
    let mut engine = TensorEngine::new();
    let mut vram = allocator(256 * MIB, 0);
    let weights =
        engine.allocate_tensor(&mut vram, "attn_qkv", &[4096, 4096], DType::Float16).unwrap();
    assert_eq!(weights.name, "attn_qkv");
    assert_eq!(weights.shape, vec![4096, 4096]);
    assert_eq!(weights.strides, vec![4096, 1]);
    assert_eq!(weights.dtype, DType::Float16);
    assert_eq!(weights.num_elements, 16_777_216);
    assert_eq!(weights.size_bytes, 33_554_432);
    assert_eq!(weights.allocation.phys_addr, RESERVED_BYTES);
    assert_eq!(
        weights.describe(),
        "Tensor 'attn_qkv' [4096, 4096] fp16 (16777216 elements, 33554432 bytes) @ GPU va=0x0000000100000000"
    );
    assert_eq!((engine.tensor_count, engine.total_allocated), (1, 33_554_432));
    assert_eq!(engine.status(), "gpu/tensor: 1 tensors allocated, 32 MiB total VRAM usage");
    engine.free_tensor(&mut vram, weights);
    assert_eq!(engine, TensorEngine::new());
    assert_eq!(engine.status(), "gpu/tensor: 0 tensors allocated, 0 MiB total VRAM usage");
}

#[test]
fn four_bit_elements_are_packed() {
    let mut engine = TensorEngine::new();
    let mut vram = allocator(256 * MIB, 0);
    let even = engine.allocate_tensor(&mut vram, "e", &[10], DType::Int4).unwrap();
    let odd = engine.allocate_tensor(&mut vram, "o", &[3, 3], DType::Int4).unwrap();
    assert_eq!((even.num_elements, even.size_bytes), (10, 5));
    assert_eq!((odd.num_elements, odd.size_bytes), (9, 5));
    assert_eq!(odd.allocation.gpu_va, GPU_VA_BASE + 0x1000);
    assert_eq!((engine.tensor_count, engine.total_allocated), (2, 10));
}

#[test]
fn a_tensor_that_does_not_fit_is_not_counted() {
    let mut engine = TensorEngine::new();
    let mut vram = allocator(2 * MIB, 0);
    assert!(engine.allocate_tensor(&mut vram, "big", &[1024, 1024], DType::Float32).is_none());
    assert_eq!(engine, TensorEngine::new());
    assert!(engine.allocate_tensor(&mut vram, "fits", &[1024, 1024], DType::Int8).is_some());
}

/// Runs a procedure on a memory of bytes.
fn run(
    memory: &mut HashMap<u64, u8>,
    mut procedure: impl FnMut(&[u32]) -> Step<bool>,
) -> bool {
    let mut replies: Vec<u32> = Vec::new();
    loop {
        match procedure(&replies) {
            Step::Next(Access::WriteByte { va, byte }) => {
                memory.insert(va, byte);
                replies.push(0);
            }
            Step::Next(Access::ReadByte { va }) => replies.push(memory[&va] as u32),
            Step::Next(access) => panic!("unexpected access {:?}", access),
            Step::Done { result, used } => {
                assert_eq!(used, replies.len());
                return result;
            }
        }
    }
}

#[test]
fn a_download_gives_back_what_was_uploaded() {
    let mut engine = TensorEngine::new();
    let mut vram = allocator(256 * MIB, 2 * MIB);
    let mut t = engine.allocate_tensor(&mut vram, "t", &[2, 3], DType::Int8).unwrap();
    let mut memory = HashMap::new();
    let data = [1u8, 0xFF, 3, 0, 5, 6];
    assert!(engine.check_transfer(&vram, &t, 6));
    assert!(run(&mut memory, |replies| engine.upload(&vram, &mut t, &data, replies)));
    assert!(t.allocation.cpu_mapped);
    assert_eq!(t.allocation.cpu_va, 0xE010_0000);
    assert_eq!(memory.len(), 6);
    assert_eq!(memory[&0xE010_0001], 0xFF);
    let mut buffer = [9u8; 6];
    assert!(run(&mut memory, |replies| engine.download(&vram, &mut t, &mut buffer, replies)));
    assert_eq!(buffer, data);
}

#[test]
fn transfers_need_the_exact_size_and_a_mapping() {
    let mut engine = TensorEngine::new();
    let mut vram = allocator(256 * MIB, 2 * MIB);
    let mut memory = HashMap::new();
    let mut near = engine.allocate_tensor(&mut vram, "near", &[8], DType::Int8).unwrap();
    assert!(!run(&mut memory, |replies| engine.upload(&vram, &mut near, &[0u8; 7], replies)));
    let mut buffer = [9u8; 9];
    assert!(!run(&mut memory, |replies| engine.download(&vram, &mut near, &mut buffer, replies)));
    assert_eq!(buffer, [9u8; 9]);
    assert!(!near.allocation.cpu_mapped);
    let mut far =
        engine.allocate_tensor(&mut vram, "far", &[2, 1 << 20], DType::Int8).unwrap();
    let data = vec![0u8; 2 << 20];
    assert!(!run(&mut memory, |replies| engine.upload(&vram, &mut far, &data, replies)));
    assert!(!far.allocation.cpu_mapped);
    assert!(memory.is_empty());
    near.allocation.cpu_mapped = true;
    near.allocation.cpu_va = u64::MAX - 7;
    assert!(engine.check_transfer(&vram, &near, 8));
    near.allocation.cpu_va = u64::MAX - 6;
    assert!(!engine.check_transfer(&vram, &near, 8));
    assert!(engine.check_transfer(&vram, &near, 7));
}

#[test]
fn tensors_out_of_range_are_known_beforehand() {
    let mut engine = TensorEngine::new();
    let vram = allocator(256 * MIB, 0);
    assert!(engine.can_allocate_tensor(&vram, &[4096, 4096], DType::Float16));
    assert!(engine.can_allocate_tensor(&vram, &[], DType::Int4));
    // Too large for VRAM, but not for the sums.
    assert!(engine.can_allocate_tensor(&vram, &[1 << 40], DType::Int8));
    assert!(!engine.can_allocate_tensor(&vram, &[usize::MAX, 2], DType::Int8));
    assert!(!engine.can_allocate_tensor(&vram, &[usize::MAX], DType::Float16));
    assert!(!engine.can_allocate_tensor(&vram, &[usize::MAX], DType::Int4));
    assert!(!engine.can_allocate_tensor(&vram, &[0, usize::MAX, 2], DType::Int8));
    engine.tensor_count = u32::MAX;
    assert!(!engine.can_allocate_tensor(&vram, &[1], DType::Int8));
}

#[test]
fn matmul_plans_cover_the_result_with_tiles() {
    let plan = plan_matmul(&tensor(&[200, 64]), &tensor(&[64, 129]), &tensor(&[200, 129]));
    let plan = plan.unwrap();
    assert_eq!(plan.grid, GridDim { x: 2, y: 2, z: 1 });
    assert_eq!(plan.block, BlockDim { x: 256, y: 1, z: 1 });
    let exact = plan_matmul(&tensor(&[128, 1]), &tensor(&[1, 256]), &tensor(&[128, 256]));
    assert_eq!(exact.unwrap().grid, GridDim { x: 2, y: 1, z: 1 });
}

#[test]
fn matmul_shapes_are_checked() {
    let square = || tensor(&[4, 4]);
    assert_eq!(
        plan_matmul(&tensor(&[4]), &square(), &square()),
        Err(TensorError::NotTwoDimensional)
    );
    assert_eq!(
        plan_matmul(&square(), &square(), &tensor(&[4, 4, 1])),
        Err(TensorError::NotTwoDimensional)
    );
    assert_eq!(
        plan_matmul(&square(), &tensor(&[3, 4]), &square()),
        Err(TensorError::ShapeMismatch)
    );
    assert_eq!(
        plan_matmul(&square(), &square(), &tensor(&[3, 4])),
        Err(TensorError::ShapeMismatch)
    );
    assert_eq!(
        plan_matmul(&square(), &square(), &tensor(&[4, 3])),
        Err(TensorError::ShapeMismatch)
    );
}

#[test]
fn softmax_plans_one_block_per_row() {
    let plan = plan_softmax(&tensor(&[2, 3, 100]), &tensor(&[2, 3, 100])).unwrap();
    assert_eq!(plan.grid, GridDim { x: 6, y: 1, z: 1 });
    assert_eq!(plan.block, BlockDim { x: 100, y: 1, z: 1 });
    let wide = plan_softmax(&tensor(&[5000]), &tensor(&[5000])).unwrap();
    assert_eq!((wide.grid.x, wide.block.x), (1, 1024));
    let scalar = plan_softmax(&tensor(&[]), &tensor(&[])).unwrap();
    assert_eq!((scalar.grid.x, scalar.block.x), (1, 1));
    assert_eq!(
        plan_softmax(&tensor(&[2, 3]), &tensor(&[3, 2])),
        Err(TensorError::ShapeMismatch)
    );
    assert_eq!(plan_softmax(&tensor(&[2]), &tensor(&[2, 1])), Err(TensorError::ShapeMismatch));
}

#[test]
fn elementwise_plans_one_thread_per_element() {
    assert_eq!(plan_elementwise(&tensor(&[256])).grid.x, 1);
    assert_eq!(plan_elementwise(&tensor(&[257])).grid.x, 2);
    assert_eq!(plan_elementwise(&tensor(&[0])).grid.x, 0);
    assert_eq!(plan_elementwise(&tensor(&[1])).block, BlockDim { x: 256, y: 1, z: 1 });
}

#[test]
fn operations_without_a_kernel_report_failure() {
    let regs = GpuRegs::new(0);
    let mut vram = allocator(256 * MIB, 0);
    let channel = Channel::allocate(&mut vram, 0, 0).unwrap();
    let mut compute = ComputeEngine::new(GpuFamily::Pascal);
    let mut engine = TensorEngine::new();
    let t = engine.allocate_tensor(&mut vram, "t", &[4, 4], DType::Float32).unwrap();
    assert!(!engine.matmul(&regs, &channel, &mut compute, &vram, &t, &t, &t));
    assert!(!engine.softmax(&regs, &channel, &mut compute, &t, &t));
    assert!(!engine.gelu(&regs, &channel, &mut compute, &t, &t));
    assert!(!engine.silu(&regs, &channel, &mut compute, &t, &t));
    let epsilon = 1e-5f32.to_bits();
    assert!(!engine.layernorm(&regs, &channel, &mut compute, &t, &t, &t, &t, epsilon));
    assert!(!engine.rope(&regs, &channel, &mut compute, &t, &t, 0, 10000.0f32.to_bits()));
    assert_eq!(compute, ComputeEngine::new(GpuFamily::Pascal));
}

#[test]
fn descriptions_name_the_address() {
    let t = TensorDescriptor {
        name: String::from("w"),
        shape: vec![3],
        strides: vec![1],
        dtype: DType::Int4,
        allocation: GpuAllocation {
            gpu_va: 0xABC,
            phys_addr: 0,
            size: 0,
            cpu_mapped: false,
            cpu_va: 0,
        },
        num_elements: 3,
        size_bytes: 2,
    };
    assert_eq!(
        t.describe(),
        "Tensor 'w' [3] int4 (3 elements, 2 bytes) @ GPU va=0x0000000000000ABC"
    );
}

use gpu_compute::access::{Access, Step};
use gpu_compute::memory::{
    GpuAllocation, GpuPte, MemoryType, VramAllocator, VramInfo, GPU_VA_BASE, RESERVED_BYTES,
};
use gpu_compute::mmio::{GpuRegs, NV_PFB_CFG0, NV_PFB_NPARTS, NV_PFB_VRAM_SIZE};

const MIB: u64 = 0x10_0000;

fn allocator(total_bytes: u64, bar1_cpu_base: u64, bar1_size: u64) -> VramAllocator {
    let info = VramInfo {
        total_bytes,
        mem_type: MemoryType::Gddr6,
        bus_width: 256,
        partitions: 8,
        description: String::from("test"),
    };
    VramAllocator::new(info, bar1_cpu_base, bar1_size)
}

#[test]
fn page_table_entries() {
    assert_eq!(GpuPte::vram(0x1234_5678).raw, 0x1234_5001);
    assert_eq!(GpuPte::system_memory(0x1234_5678).raw, 0x1234_5003);
    assert!(GpuPte::vram(0).is_valid());
    assert!(GpuPte::system_memory(u64::MAX).is_valid());
    assert!(!GpuPte::invalid().is_valid());
    assert_eq!(GpuPte::invalid().raw, 0);
    assert_eq!(GpuPte::APERTURE_SYS_MEM_NONCOHERENT, 4);
}

#[test]
fn vram_size_register() {
    assert_eq!(VramAllocator::decode_vram_size(0), 8 * 1024 * MIB);
    assert_eq!(VramAllocator::decode_vram_size(8192), 8 * 1024 * MIB);
    assert_eq!(VramAllocator::decode_vram_size(0x2_0000), 128 * 1024 * MIB);
    assert_eq!(VramAllocator::decode_vram_size(0x2_0001), 0);
}

fn detect(cfg0: u32, size: u32, nparts: u32) -> VramAllocator {
    let regs = GpuRegs::new(0x1000);
    match VramAllocator::detect_and_init(&regs, 0xE000_0000, 0x1000_0000, &[cfg0, size, nparts]) {
        Step::Done { result, used } => {
            assert_eq!(used, 3);
            result
        }
        Step::Next(access) => panic!("unexpected access {:?}", access),
    }
}

#[test]
fn detection_reads_three_registers() {
    let regs = GpuRegs::new(0x1000);
    let offsets = [NV_PFB_CFG0, NV_PFB_VRAM_SIZE, NV_PFB_NPARTS];
    for n in 0..3 {
        let replies = vec![0u32; n];
        match VramAllocator::detect_and_init(&regs, 0, 0, &replies) {
            Step::Next(access) => {
                assert_eq!(access, Access::ReadRegister { bar0: 0x1000, offset: offsets[n] })
            }
            Step::Done { .. } => panic!("ended early"),
        }
    }
}

#[test]
fn detection_describes_the_memory() {
    let vram = detect(0x500, 8192, 8);
    let info = vram.info();
    assert_eq!(info.total_bytes, 8_589_934_592);
    assert_eq!(info.mem_type, MemoryType::Gddr6x);
    assert_eq!((info.partitions, info.bus_width), (8, 256));
    assert_eq!(info.description, "8192 MiB GDDR6X (256-bit, 8 partitions)");
    let hbm = detect(0x8FF, 16384, 0x1_0004);
    assert_eq!(hbm.info().mem_type, MemoryType::Hbm2);
    assert_eq!((hbm.info().partitions, hbm.info().bus_width), (4, 512));
    assert_eq!(detect(0x300, 1, 1).info().mem_type, MemoryType::Gddr6);
    assert_eq!(detect(0xC00, 1, 1).info().mem_type, MemoryType::Unknown);
    assert_eq!(detect(0xC00, 1, 1).info().description, "1 MiB Unknown (32-bit, 1 partitions)");
}

#[test]
fn memory_type_names() {
    assert_eq!(MemoryType::Gddr6.name(), "GDDR6");
    assert_eq!(MemoryType::Gddr6x.name(), "GDDR6X");
    assert_eq!(MemoryType::Hbm2.name(), "HBM2");
    assert_eq!(MemoryType::Unknown.name(), "Unknown");
}

#[test]
fn allocations_are_whole_pages_side_by_side() {
    let mut vram = allocator(16 * MIB, 0, 0);
    let a = vram.allocate(1).unwrap();
    let b = vram.allocate(0x1001).unwrap();
    let c = vram.allocate(0x1000).unwrap();
    assert_eq!((a.phys_addr, a.gpu_va, a.size), (RESERVED_BYTES, GPU_VA_BASE, 0x1000));
    assert_eq!(
        (b.phys_addr, b.gpu_va, b.size),
        (RESERVED_BYTES + 0x1000, GPU_VA_BASE + 0x1000, 0x2000)
    );
    assert_eq!(
        (c.phys_addr, c.gpu_va, c.size),
        (RESERVED_BYTES + 0x3000, GPU_VA_BASE + 0x3000, 0x1000)
    );
    assert!(!a.cpu_mapped);
    assert_eq!(a.cpu_va, 0);
}

#[test]
fn an_empty_allocation_takes_nothing() {
    let mut vram = allocator(16 * MIB, 0, 0);
    assert_eq!(vram.allocate(0).unwrap().size, 0);
    assert_eq!(vram.allocate(1).unwrap().phys_addr, RESERVED_BYTES);
}

#[test]
fn allocation_fails_when_vram_is_exhausted() {
    let mut vram = allocator(2 * MIB, 0, 0);
    assert!(vram.allocate(MIB + 1).is_none());
    assert!(vram.allocate(MIB).is_some());
    assert!(vram.allocate(1).is_none());
}

#[test]
fn freed_memory_is_not_reclaimed() {
    let mut vram = allocator(2 * MIB, 0, 0);
    let a = vram.allocate(MIB).unwrap();
    vram.free(&a);
    assert!(vram.allocate(MIB).is_none());
}

#[test]
fn vram_below_the_reserve_is_never_handed_out() {
    let mut vram = allocator(MIB / 2, 0, 0);
    assert!(vram.allocate(1).is_none());
}

#[test]
fn cpu_mapping_reaches_the_aperture_only() {
    let mut vram = allocator(16 * MIB, 0xE000_0000, 2 * MIB);
    let mut a = vram.allocate(0x1000).unwrap();
    assert_eq!(vram.map_to_cpu(&mut a), Some(0xE010_0000));
    assert!(a.cpu_mapped);
    assert_eq!(a.cpu_va, 0xE010_0000);
    // Mapping again gives the same address.
    assert_eq!(vram.map_to_cpu(&mut a), Some(0xE010_0000));
    let mut b = vram.allocate(MIB).unwrap();
    assert_eq!(vram.map_to_cpu(&mut b), None);
    assert!(!b.cpu_mapped);
    let mut c = vram.allocate(3 * MIB).unwrap();
    assert_eq!(vram.map_to_cpu(&mut c), None);
}

#[test]
fn system_memory_takes_addresses_but_no_vram() {
    let mut vram = allocator(16 * MIB, 0, 0);
    assert_eq!(vram.map_system_memory(0xDEAD_B000, 0x1801), Some(GPU_VA_BASE));
    let a = vram.allocate(1).unwrap();
    assert_eq!(a.gpu_va, GPU_VA_BASE + 0x2000);
    assert_eq!(a.phys_addr, RESERVED_BYTES);
}

#[test]
fn checked_operations_refuse_what_does_not_fit_the_address_space() {
    let mut vram = allocator(16 * MIB, u64::MAX - MIB, 16 * MIB);
    assert!(vram.has_va_room(1));
    assert!(!vram.has_va_room(u64::MAX));
    assert!(vram.try_allocate(u64::MAX).is_none());
    assert!(vram.try_map_system_memory(0, u64::MAX - 0xFFF).is_none());
    assert_eq!(vram.try_map_system_memory(0, 1), Some(GPU_VA_BASE));
    let mut a = vram.try_allocate(1).unwrap();
    assert_eq!(a.gpu_va, GPU_VA_BASE + 0x1000);
    assert!(vram.can_map(&a));
    assert_eq!(vram.try_map_to_cpu(&mut a), Some(u64::MAX));
    let mut b = vram.try_allocate(1).unwrap();
    assert!(!vram.can_map(&b));
    assert_eq!(vram.try_map_to_cpu(&mut b), None);
    let wild = GpuAllocation {
        gpu_va: 0,
        phys_addr: u64::MAX,
        size: 0x1000,
        cpu_mapped: false,
        cpu_va: 0,
    };
    assert!(!vram.can_map(&wild));
}

#[test]
fn an_allocation_succeeds_exactly_while_its_pages_are_left() {
    let mut vram = allocator(2 * MIB, 0, 0);
    let mut left = MIB;
    for size in [1u64, 0x1000, 0x1001, 0x80000, 0x7D000, 0x7C000, 1] {
        let need = (size + 0xFFF) / 0x1000 * 0x1000;
        let preview = vram.preview(size);
        let allocated = vram.allocate(size);
        assert_eq!(preview, allocated);
        assert_eq!(allocated.is_some(), need <= left);
        if allocated.is_some() {
            left -= need;
        }
    }
    assert_eq!(left, 0);
}

//! GPU memory: VRAM detection and allocation, page table entries, and CPU and
//! DMA mappings.

use vstd::prelude::*;
use vstd::string::*;
use crate::access::{perform, Access, Step};
use crate::mmio::{GpuRegs, NV_PFB_CFG0, NV_PFB_NPARTS, NV_PFB_VRAM_SIZE};
use crate::text::{all_digits, append_decimal, decimal, decimal_reads_back, number_of};

verus! {

/// Size of a GPU page in bytes.
pub const PAGE_SIZE: u64 = 0x1000;

/// Bytes at the start of VRAM that are kept for page tables and firmware.
pub const RESERVED_BYTES: u64 = 0x10_0000;

/// Where the GPU virtual address space starts.
pub const GPU_VA_BASE: u64 = 0x0001_0000_0000;

/// GPU memory types.
#[derive(Debug, Clone, Copy, PartialEq, Eq, Structural)]
pub enum MemoryType {
    /// GDDR6
    Gddr6,
    /// GDDR6X
    Gddr6x,
    /// HBM2 or HBM2e
    Hbm2,
    /// Unknown memory type
    Unknown,
}

impl MemoryType {
    /// The display name of the memory type.
    pub open spec fn display_name(self) -> Seq<char> {
        match self {
            MemoryType::Gddr6 => "GDDR6"@,
            MemoryType::Gddr6x => "GDDR6X"@,
            MemoryType::Hbm2 => "HBM2"@,
            MemoryType::Unknown => "Unknown"@,
        }
    }

    /// The display name of the memory type.
    pub fn name(&self) -> (name: &'static str)
        ensures
            name@ == self.display_name(),
    {
        match self {
            MemoryType::Gddr6 => "GDDR6",
            MemoryType::Gddr6x => "GDDR6X",
            MemoryType::Hbm2 => "HBM2",
            MemoryType::Unknown => "Unknown",
        }
    }
}

/// Information about the GPU's VRAM.
#[derive(Debug)]
pub struct VramInfo {
    /// Total VRAM size in bytes.
    pub total_bytes: u64,
    /// Memory type.
    pub mem_type: MemoryType,
    /// Memory bus width in bits.
    pub bus_width: u32,
    /// Number of memory partitions.
    pub partitions: u32,
    /// Human-readable description.
    pub description: String,
}

/// The model of [`VramInfo`].
pub struct VramInfoView {
    pub total_bytes: u64,
    pub mem_type: MemoryType,
    pub bus_width: u32,
    pub partitions: u32,
    pub description: Seq<char>,
}

impl DeepView for VramInfo {
    type V = VramInfoView;

    open spec fn deep_view(&self) -> VramInfoView {
        VramInfoView {
            total_bytes: self.total_bytes,
            mem_type: self.mem_type,
            bus_width: self.bus_width,
            partitions: self.partitions,
            description: self.description@,
        }
    }
}

/// A GPU page table entry: bit 0 is the valid bit, bits [4:1] the aperture,
/// bits [63:12] the physical page.
#[derive(Debug, Clone, Copy, PartialEq, Eq, Structural)]
pub struct GpuPte {
    /// Raw entry value.
    pub raw: u64,
}

impl GpuPte {
    /// Aperture bits: VRAM.
    pub const APERTURE_VRAM: u64 = 0x0;

    /// Aperture bits: coherent system memory.
    pub const APERTURE_SYS_MEM_COHERENT: u64 = 0x2;

    /// Aperture bits: non-coherent system memory.
    pub const APERTURE_SYS_MEM_NONCOHERENT: u64 = 0x4;

    /// The valid bit of the entry.
    pub open spec fn valid(self) -> bool {
        self.raw % 2 == 1
    }

    /// The aperture bits of the entry.
    pub open spec fn aperture(self) -> u64 {
        (self.raw % 32 - self.raw % 2) as u64
    }

    /// The physical address of the page that the entry names.
    pub open spec fn page_address(self) -> u64 {
        (self.raw / PAGE_SIZE * PAGE_SIZE) as u64
    }

    /// The valid entry for the page of `phys_addr` in an aperture.
    pub open spec fn entry(phys_addr: u64, aperture: u64) -> GpuPte {
        GpuPte { raw: (phys_addr / PAGE_SIZE * PAGE_SIZE + aperture + 1) as u64 }
    }

    /// A valid entry for a VRAM physical address.
    pub fn vram(phys_addr: u64) -> (pte: Self)
        ensures
            pte == GpuPte::entry(phys_addr, GpuPte::APERTURE_VRAM),
    {
        GpuPte { raw: phys_addr / 0x1000 * 0x1000 + GpuPte::APERTURE_VRAM + 1 }
    }

    /// A valid entry for a system memory address (for DMA).
    pub fn system_memory(phys_addr: u64) -> (pte: Self)
        ensures
            pte == GpuPte::entry(phys_addr, GpuPte::APERTURE_SYS_MEM_COHERENT),
    {
        GpuPte { raw: phys_addr / 0x1000 * 0x1000 + GpuPte::APERTURE_SYS_MEM_COHERENT + 1 }
    }

    /// An invalid (unmapped) entry.
    pub fn invalid() -> (pte: Self)
        ensures
            pte == (GpuPte { raw: 0 }),
    {
        GpuPte { raw: 0 }
    }

    /// Whether this entry is valid.
    pub fn is_valid(&self) -> (valid: bool)
        ensures
            valid == self.valid(),
    {
        self.raw % 2 == 1
    }
}

/// An entry made for an address is valid and names its aperture and its page.
pub proof fn pte_round_trip(phys_addr: u64)
    ensures
        GpuPte::entry(phys_addr, GpuPte::APERTURE_VRAM).valid(),
        GpuPte::entry(phys_addr, GpuPte::APERTURE_VRAM).aperture() == GpuPte::APERTURE_VRAM,
        GpuPte::entry(phys_addr, GpuPte::APERTURE_VRAM).page_address() == phys_addr / PAGE_SIZE
            * PAGE_SIZE,
        GpuPte::entry(phys_addr, GpuPte::APERTURE_SYS_MEM_COHERENT).valid(),
        GpuPte::entry(phys_addr, GpuPte::APERTURE_SYS_MEM_COHERENT).aperture()
            == GpuPte::APERTURE_SYS_MEM_COHERENT,
        GpuPte::entry(phys_addr, GpuPte::APERTURE_SYS_MEM_COHERENT).page_address() == phys_addr
            / PAGE_SIZE * PAGE_SIZE,
        !(GpuPte { raw: 0 }).valid(),
{
}

/// A block of allocated GPU memory.
#[derive(Debug, PartialEq, Eq, Structural)]
pub struct GpuAllocation {
    /// GPU virtual address of this allocation.
    pub gpu_va: u64,
    /// Physical address in VRAM.
    pub phys_addr: u64,
    /// Size in bytes (always page-aligned).
    pub size: u64,
    /// Whether this allocation is mapped to the CPU through BAR1.
    pub cpu_mapped: bool,
    /// CPU virtual address if mapped, otherwise 0.
    pub cpu_va: u64,
}

/// A free region of VRAM.
#[derive(Debug, Clone, Copy, PartialEq, Eq, Structural)]
pub struct FreeRegion {
    /// Physical address of the first free byte.
    pub start: u64,
    /// Number of free bytes.
    pub size: u64,
}

impl FreeRegion {
    /// Whether `byte` is a byte of this region.
    pub open spec fn covers(self, byte: int) -> bool {
        self.start <= byte < self.start + self.size
    }

    /// The region without its first `taken` bytes.
    pub open spec fn without_front(self, taken: int) -> FreeRegion {
        FreeRegion { start: (self.start + taken) as u64, size: (self.size - taken) as u64 }
    }
}

/// `size` rounded up to whole pages.
pub open spec fn page_round_up(size: int) -> int {
    (size + (PAGE_SIZE - 1)) / PAGE_SIZE as int * PAGE_SIZE
}

/// The index of the first region from `from` on that has room for `need`
/// bytes.
pub open spec fn first_fit(regions: Seq<FreeRegion>, need: int, from: int) -> Option<int>
    decreases regions.len() - from,
{
    if from >= regions.len() {
        None
    } else if regions[from].size >= need {
        Some(from)
    } else {
        first_fit(regions, need, from + 1)
    }
}

proof fn lemma_first_fit(regions: Seq<FreeRegion>, need: int, from: int)
    requires
        0 <= from,
    ensures
        match first_fit(regions, need, from) {
            Some(i) => {
                &&& from <= i < regions.len()
                &&& regions[i].size >= need
                &&& forall|j: int| from <= j < i ==> #[trigger] regions[j].size < need
            },
            None => forall|j: int| from <= j < regions.len() ==> #[trigger] regions[j].size < need,
        },
    decreases regions.len() - from,
{
    if from < regions.len() && regions[from].size < need {
        lemma_first_fit(regions, need, from + 1);
    }
}

/// The BAR1 aperture: the CPU reaches the first `size` bytes of VRAM at
/// `cpu_base`.
#[derive(Debug, Clone, Copy, PartialEq, Eq, Structural)]
pub struct Bar1Aperture {
    /// CPU address of the aperture.
    pub cpu_base: u64,
    /// Size of the aperture in bytes.
    pub size: u64,
}

impl Bar1Aperture {
    /// The CPU address of an allocation that the aperture reaches.
    pub open spec fn cpu_address(self, alloc: GpuAllocation) -> Option<u64> {
        if alloc.cpu_mapped {
            Some(alloc.cpu_va)
        } else if alloc.phys_addr + alloc.size <= self.size {
            Some((self.cpu_base + alloc.phys_addr) as u64)
        } else {
            None
        }
    }

    /// Whether the sums of mapping an allocation to the CPU stay in range.
    pub open spec fn mapping_in_range(self, alloc: GpuAllocation) -> bool {
        !alloc.cpu_mapped && alloc.size <= self.size ==> {
            &&& alloc.phys_addr + alloc.size <= u64::MAX
            &&& alloc.phys_addr + alloc.size <= self.size ==> self.cpu_base + alloc.phys_addr
                <= u64::MAX
        }
    }

    /// An allocation after it was mapped to the CPU.
    pub open spec fn mapped(self, alloc: GpuAllocation) -> GpuAllocation {
        match self.cpu_address(alloc) {
            Some(cpu_va) => GpuAllocation { cpu_mapped: true, cpu_va, ..alloc },
            None => alloc,
        }
    }

    /// The CPU address of an allocation, or `None` if the aperture does not
    /// reach it.
    pub fn reach(&self, alloc: &GpuAllocation) -> (cpu_va: Option<u64>)
        requires
            self.mapping_in_range(*alloc),
        ensures
            cpu_va == self.cpu_address(*alloc),
    {
        if alloc.cpu_mapped {
            return Some(alloc.cpu_va);
        }
        if alloc.size > self.size {
            return None;
        }
        if alloc.phys_addr + alloc.size <= self.size {
            Some(self.cpu_base + alloc.phys_addr)
        } else {
            None
        }
    }

    /// Maps an allocation to the CPU. Returns its CPU address, or `None` if the
    /// aperture does not reach it.
    pub fn map(&self, alloc: &mut GpuAllocation) -> (cpu_va: Option<u64>)
        requires
            self.mapping_in_range(*old(alloc)),
        ensures
            cpu_va == self.cpu_address(*old(alloc)),
            *final(alloc) == self.mapped(*old(alloc)),
    {
        let reached: Option<u64> = self.reach(alloc);
        if let Some(cpu_va) = reached {
            alloc.cpu_mapped = true;
            alloc.cpu_va = cpu_va;
        }
        reached
    }

    /// Whether the addresses of mapping an allocation to the CPU stay in range.
    pub fn can_map(&self, alloc: &GpuAllocation) -> (in_range: bool)
        ensures
            in_range == self.mapping_in_range(*alloc),
    {
        if alloc.cpu_mapped || alloc.size > self.size {
            return true;
        }
        if alloc.phys_addr > u64::MAX - alloc.size {
            return false;
        }
        alloc.phys_addr + alloc.size > self.size || self.cpu_base <= u64::MAX - alloc.phys_addr
    }
}

/// The model of a VRAM allocator.
#[verifier::ext_equal]
pub struct VramView {
    /// What is known of the VRAM.
    pub info: VramInfoView,
    /// The free regions, in the order in which they are tried.
    pub free: Seq<FreeRegion>,
    /// The next GPU virtual address to hand out.
    pub next_gpu_va: int,
    /// CPU address of the BAR1 aperture.
    pub bar1_cpu_base: u64,
    /// Size of the BAR1 aperture.
    pub bar1_size: u64,
}

impl VramView {
    /// Every free region starts on a page above the reserved bytes and ends
    /// within VRAM, no byte is free twice, and GPU virtual addresses are handed
    /// out page by page.
    pub open spec fn wf(self) -> bool {
        &&& forall|i: int|
            0 <= i < self.free.len() ==> {
                &&& #[trigger] self.free[i].start % PAGE_SIZE == 0
                &&& self.free[i].start >= RESERVED_BYTES
                &&& self.free[i].size > 0 ==> self.free[i].start + self.free[i].size
                    <= self.info.total_bytes
            }
        &&& forall|i: int, j: int, byte: int|
            0 <= i < j < self.free.len() && #[trigger] self.free[i].covers(byte)
                ==> !#[trigger] self.free[j].covers(byte)
        &&& self.next_gpu_va % PAGE_SIZE as int == 0
        &&& self.next_gpu_va >= GPU_VA_BASE
    }

    /// Whether `byte` of VRAM is free.
    pub open spec fn is_free(self, byte: int) -> bool {
        exists|i: int| 0 <= i < self.free.len() && #[trigger] self.free[i].covers(byte)
    }

    /// The region that an allocation of `size` bytes comes from.
    pub open spec fn fit(self, size: u64) -> Option<int> {
        first_fit(self.free, page_round_up(size as int), 0)
    }

    /// Whether the GPU virtual address space has room for `size` more bytes.
    pub open spec fn va_has_room(self, size: u64) -> bool {
        self.next_gpu_va + page_round_up(size as int) <= u64::MAX
    }

    /// What an allocation of `size` bytes returns.
    pub open spec fn allocation(self, size: u64) -> Option<GpuAllocation> {
        match self.fit(size) {
            Some(i) => Some(
                GpuAllocation {
                    gpu_va: self.next_gpu_va as u64,
                    phys_addr: self.free[i].start,
                    size: page_round_up(size as int) as u64,
                    cpu_mapped: false,
                    cpu_va: 0,
                },
            ),
            None => None,
        }
    }

    /// The allocator after an allocation of `size` bytes: the pages are taken
    /// from the front of the first region with room for them.
    pub open spec fn after_allocate(self, size: u64) -> VramView {
        let taken = page_round_up(size as int);
        match self.fit(size) {
            Some(i) => VramView {
                free: self.free.update(i, self.free[i].without_front(taken)),
                next_gpu_va: self.next_gpu_va + taken,
                ..self
            },
            None => self,
        }
    }

    /// The allocator after `size` bytes of system memory were mapped.
    pub open spec fn after_map_system(self, size: u64) -> VramView {
        VramView { next_gpu_va: self.next_gpu_va + page_round_up(size as int), ..self }
    }

    /// The BAR1 aperture of this VRAM.
    pub open spec fn aperture(self) -> Bar1Aperture {
        Bar1Aperture { cpu_base: self.bar1_cpu_base, size: self.bar1_size }
    }

    /// This VRAM seen through the given aperture.
    pub open spec fn with_aperture(self, aperture: Bar1Aperture) -> VramView {
        VramView { bar1_cpu_base: aperture.cpu_base, bar1_size: aperture.size, ..self }
    }

    /// The CPU address of an allocation that BAR1 reaches: the aperture maps
    /// the first `bar1_size` bytes of VRAM.
    pub open spec fn cpu_address(self, alloc: GpuAllocation) -> Option<u64> {
        self.aperture().cpu_address(alloc)
    }

    /// Whether `size` bytes can be rounded up to whole pages and given a GPU
    /// virtual address.
    pub open spec fn in_address_space(self, size: u64) -> bool {
        size + 0xFFF <= u64::MAX && self.va_has_room(size)
    }

    /// Whether the sums of mapping an allocation to the CPU stay in range.
    pub open spec fn mapping_in_range(self, alloc: GpuAllocation) -> bool {
        self.aperture().mapping_in_range(alloc)
    }

    /// An allocation after it was mapped to the CPU.
    pub open spec fn mapped(self, alloc: GpuAllocation) -> GpuAllocation {
        self.aperture().mapped(alloc)
    }
}

/// VRAM size in bytes from the size register: in MiB up to 128 GiB, with 8 GiB
/// for a register that reads 0.
pub open spec fn vram_size_of(reg: u32) -> u64 {
    if reg == 0 {
        0x2_0000_0000
    } else if reg <= 0x2_0000 {
        (reg * 0x10_0000) as u64
    } else {
        0
    }
}

/// Memory type from bits [11:8] of the memory configuration register.
pub open spec fn memory_type_of(cfg0: u32) -> MemoryType {
    let kind = (cfg0 / 0x100) % 16;
    if kind <= 0x3 {
        MemoryType::Gddr6
    } else if kind <= 0x7 {
        MemoryType::Gddr6x
    } else if kind <= 0xB {
        MemoryType::Hbm2
    } else {
        MemoryType::Unknown
    }
}

/// Bus width in bits: 128 per HBM partition, 32 per partition otherwise.
pub open spec fn bus_width_of(mem_type: MemoryType, partitions: u32) -> u32 {
    (partitions * if mem_type is Hbm2 {
        128int
    } else {
        32
    }) as u32
}

/// The VRAM that the three memory controller registers describe.
pub open spec fn detected_info(cfg0: u32, vram_size: u32, nparts: u32) -> VramInfoView {
    let total_bytes = vram_size_of(vram_size);
    let mem_type = memory_type_of(cfg0);
    let partitions = nparts % 0x100;
    let bus_width = bus_width_of(mem_type, partitions);
    VramInfoView {
        total_bytes,
        mem_type,
        bus_width,
        partitions,
        description: decimal((total_bytes / 0x10_0000) as nat) + " MiB "@ + mem_type.display_name()
            + " ("@ + decimal(bus_width as nat) + "-bit, "@ + decimal(partitions as nat)
            + " partitions)"@,
    }
}

/// A fresh allocator: everything above the reserved bytes is free.
pub open spec fn fresh_vram(info: VramInfoView, bar1_cpu_base: u64, bar1_size: u64) -> VramView {
    VramView {
        info,
        free: seq![
            FreeRegion {
                start: RESERVED_BYTES,
                size: if info.total_bytes >= RESERVED_BYTES {
                    (info.total_bytes - RESERVED_BYTES) as u64
                } else {
                    0
                },
            },
        ],
        next_gpu_va: GPU_VA_BASE as int,
        bar1_cpu_base,
        bar1_size,
    }
}

/// The accesses that read the memory controller registers.
pub open spec fn detect_accesses(regs: GpuRegs) -> Seq<Access> {
    seq![
        regs.read_at(NV_PFB_CFG0),
        regs.read_at(NV_PFB_VRAM_SIZE),
        regs.read_at(NV_PFB_NPARTS),
    ]
}

/// Bump allocator for VRAM. Freed memory is not reclaimed.
pub struct VramAllocator {
    info: VramInfo,
    free_list: Vec<FreeRegion>,
    next_gpu_va: u64,
    bar1_cpu_base: u64,
    bar1_size: u64,
}

impl DeepView for VramAllocator {
    type V = VramView;

    open spec fn deep_view(&self) -> VramView {
        self.model()
    }
}

impl VramAllocator {
    /// The model of this allocator.
    pub closed spec fn model(&self) -> VramView {
        VramView {
            info: self.info.deep_view(),
            free: self.free_list@,
            next_gpu_va: self.next_gpu_va as int,
            bar1_cpu_base: self.bar1_cpu_base,
            bar1_size: self.bar1_size,
        }
    }

    #[verifier::type_invariant]
    closed spec fn inv(self) -> bool {
        self.model().wf()
    }

    /// An allocator for the VRAM that `info` describes.
    pub fn new(info: VramInfo, bar1_cpu_base: u64, bar1_size: u64) -> (vram: Self)
        ensures
            vram.model() == fresh_vram(info.deep_view(), bar1_cpu_base, bar1_size),
    {
        let size: u64 = info.total_bytes.saturating_sub(RESERVED_BYTES);
        let mut free_list: Vec<FreeRegion> = Vec::new();
        free_list.push(FreeRegion { start: RESERVED_BYTES, size });
        VramAllocator { info, free_list, next_gpu_va: GPU_VA_BASE, bar1_cpu_base, bar1_size }
    }

    /// Detects the VRAM parameters from the memory controller registers and
    /// creates an allocator.
    pub fn detect_and_init(
        regs: &GpuRegs,
        bar1_cpu_base: u64,
        bar1_size: u64,
        replies: &[u32],
    ) -> (step: Step<Self>)
        ensures
            step.deep_view() == perform(
                detect_accesses(*regs),
                replies@,
                fresh_vram(
                    detected_info(replies@[0], replies@[1], replies@[2]),
                    bar1_cpu_base,
                    bar1_size,
                ),
            ),
    {
        let n: usize = replies.len();
        if n == 0 {
            return Step::Next(regs.read32(NV_PFB_CFG0));
        }
        if n == 1 {
            return Step::Next(regs.read32(NV_PFB_VRAM_SIZE));
        }
        if n == 2 {
            return Step::Next(regs.read32(NV_PFB_NPARTS));
        }
        let total_bytes: u64 = Self::decode_vram_size(replies[1]);
        let partitions: u32 = replies[2] % 0x100;
        let mem_type: MemoryType = match (replies[0] / 0x100) % 16 {
            0x0..=0x3 => MemoryType::Gddr6,
            0x4..=0x7 => MemoryType::Gddr6x,
            0x8..=0xB => MemoryType::Hbm2,
            _ => MemoryType::Unknown,
        };
        let bus_width: u32 = match mem_type {
            MemoryType::Hbm2 => partitions * 128,
            _ => partitions * 32,
        };
        let mut description = String::new();
        append_decimal(&mut description, total_bytes / 0x10_0000);
        description.append(" MiB ");
        description.append(mem_type.name());
        description.append(" (");
        append_decimal(&mut description, bus_width as u64);
        description.append("-bit, ");
        append_decimal(&mut description, partitions as u64);
        description.append(" partitions)");
        let info = VramInfo { total_bytes, mem_type, bus_width, partitions, description };
        assert(info.deep_view().description =~= detected_info(
            replies@[0],
            replies@[1],
            replies@[2],
        ).description);
        Step::Done { result: VramAllocator::new(info, bar1_cpu_base, bar1_size), used: 3 }
    }

    /// Decodes the VRAM size register.
    pub fn decode_vram_size(reg: u32) -> (size: u64)
        ensures
            size == vram_size_of(reg),
    {
        if reg == 0 {
            return 8 * 1024 * 1024 * 1024;
        }
        let size: u64 = reg as u64 * 0x10_0000;
        if size <= 128 * 1024 * 1024 * 1024 {
            return size;
        }
        0
    }

    /// What is known of the VRAM.
    pub fn info(&self) -> (info: &VramInfo)
        ensures
            info.deep_view() == self.model().info,
    {
        &self.info
    }

    /// The BAR1 aperture through which the CPU reaches VRAM.
    pub fn aperture(&self) -> (aperture: Bar1Aperture)
        ensures
            aperture == self.model().aperture(),
            self.model().wf(),
    {
        proof {
            use_type_invariant(self);
        }
        Bar1Aperture { cpu_base: self.bar1_cpu_base, size: self.bar1_size }
    }

    /// Allocates a page-aligned block of VRAM, or returns `None` if no free
    /// region has room for it.
    pub fn allocate(&mut self, size: u64) -> (alloc: Option<GpuAllocation>)
        requires
            size + 0xFFF <= u64::MAX,
            old(self).model().fit(size) is Some ==> old(self).model().va_has_room(size),
        ensures
            alloc == old(self).model().allocation(size),
            final(self).model() == old(self).model().after_allocate(size),
            old(self).model().wf(),
            final(self).model().wf(),
    {
        proof {
            use_type_invariant(&*self);
        }
        let aligned_size: u64 = (size + 0xFFF) / 0x1000 * 0x1000;
        let mut i: usize = 0;
        while i < self.free_list.len()
            invariant
                *self == *old(self),
                i <= self.free_list@.len(),
                aligned_size == page_round_up(size as int),
                self.model().wf(),
                old(self).model().fit(size) is Some ==> old(self).model().va_has_room(size),
                self.model().fit(size) == first_fit(
                    self.free_list@,
                    aligned_size as int,
                    i as int,
                ),
            decreases self.free_list@.len() - i,
        {
            let region: FreeRegion = self.free_list[i];
            if region.size >= aligned_size {
                let gpu_va: u64 = self.next_gpu_va;
                let mut free_list: Vec<FreeRegion> = Vec::new();
                std::mem::swap(&mut free_list, &mut self.free_list);
                free_list[i] = FreeRegion {
                    start: region.start + aligned_size,
                    size: region.size - aligned_size,
                };
                proof {
                    allocate_keeps_wf(old(self).model(), size);
                    assert(free_list@ == old(self).model().after_allocate(size).free);
                }
                self.next_gpu_va = gpu_va + aligned_size;
                self.free_list = free_list;
                return Some(
                    GpuAllocation {
                        gpu_va,
                        phys_addr: region.start,
                        size: aligned_size,
                        cpu_mapped: false,
                        cpu_va: 0,
                    },
                );
            }
            i = i + 1;
        }
        None
    }

    /// Gives the allocator the aperture through which the CPU reaches VRAM.
    pub(crate) fn set_aperture(&mut self, aperture: Bar1Aperture)
        ensures
            final(self).model() == old(self).model().with_aperture(aperture),
            final(self).model().wf(),
    {
        proof {
            use_type_invariant(&*self);
        }
        self.bar1_cpu_base = aperture.cpu_base;
        self.bar1_size = aperture.size;
    }

    /// The block that an allocation of `size` bytes would return, without
    /// taking it.
    pub fn preview(&self, size: u64) -> (alloc: Option<GpuAllocation>)
        requires
            size + 0xFFF <= u64::MAX,
        ensures
            alloc == self.model().allocation(size),
            self.model().wf(),
    {
        proof {
            use_type_invariant(self);
        }
        let aligned_size: u64 = (size + 0xFFF) / 0x1000 * 0x1000;
        let mut i: usize = 0;
        while i < self.free_list.len()
            invariant
                i <= self.free_list@.len(),
                aligned_size == page_round_up(size as int),
                self.model().wf(),
                self.model().fit(size) == first_fit(
                    self.free_list@,
                    aligned_size as int,
                    i as int,
                ),
            decreases self.free_list@.len() - i,
        {
            if self.free_list[i].size >= aligned_size {
                return Some(
                    GpuAllocation {
                        gpu_va: self.next_gpu_va,
                        phys_addr: self.free_list[i].start,
                        size: aligned_size,
                        cpu_mapped: false,
                        cpu_va: 0,
                    },
                );
            }
            i = i + 1;
        }
        None
    }

    /// Whether `size` more bytes, rounded up to whole pages, fit in the GPU
    /// virtual address space.
    pub fn has_va_room(&self, size: u64) -> (room: bool)
        ensures
            room == self.model().in_address_space(size),
            self.model().wf(),
    {
        proof {
            use_type_invariant(self);
        }
        size <= u64::MAX - 0xFFF && (size + 0xFFF) / 0x1000 * 0x1000 <= u64::MAX - self.next_gpu_va
    }

    /// Frees a VRAM allocation. The bump allocator does not reclaim memory.
    pub fn free(&mut self, _alloc: &GpuAllocation)
        ensures
            final(self).model() == old(self).model(),
    {
    }

    /// Maps a VRAM allocation for CPU access through the BAR1 aperture.
    ///
    /// Returns its CPU address, or `None` if the allocation lies outside the
    /// part of VRAM that the aperture reaches.
    pub fn map_to_cpu(&self, alloc: &mut GpuAllocation) -> (cpu_va: Option<u64>)
        requires
            self.model().mapping_in_range(*old(alloc)),
        ensures
            cpu_va == self.model().cpu_address(*old(alloc)),
            *final(alloc) == self.model().mapped(*old(alloc)),
    {
        self.aperture().map(alloc)
    }

    /// Whether the addresses of mapping an allocation to the CPU stay in range.
    pub fn can_map(&self, alloc: &GpuAllocation) -> (in_range: bool)
        ensures
            in_range == self.model().mapping_in_range(*alloc),
            self.model().wf(),
    {
        proof {
            use_type_invariant(self);
        }
        self.aperture().can_map(alloc)
    }

    /// Sets up a DMA mapping through which the GPU reaches system memory, and
    /// returns its GPU virtual address.
    pub fn map_system_memory(&mut self, _system_phys_addr: u64, size: u64) -> (gpu_va: Option<u64>)
        requires
            size + 0xFFF <= u64::MAX,
            old(self).model().va_has_room(size),
        ensures
            gpu_va == Some(old(self).model().next_gpu_va as u64),
            final(self).model() == old(self).model().after_map_system(size),
    {
        proof {
            use_type_invariant(&*self);
        }
        let aligned_size: u64 = (size + 0xFFF) / 0x1000 * 0x1000;
        let gpu_va: u64 = self.next_gpu_va;
        self.next_gpu_va = gpu_va + aligned_size;
        Some(gpu_va)
    }

    /// Allocates like [`VramAllocator::allocate`], and returns `None` and changes
    /// nothing if the GPU virtual address space has no room.
    pub fn try_allocate(&mut self, size: u64) -> (alloc: Option<GpuAllocation>)
        ensures
            old(self).model().wf(),
            old(self).model().in_address_space(size) ==> {
                &&& alloc == old(self).model().allocation(size)
                &&& final(self).model() == old(self).model().after_allocate(size)
            },
            !old(self).model().in_address_space(size) ==> {
                &&& alloc is None
                &&& final(self).model() == old(self).model()
            },
    {
        if self.has_va_room(size) {
            self.allocate(size)
        } else {
            None
        }
    }

    /// Maps like [`VramAllocator::map_to_cpu`], and returns `None` and changes
    /// nothing if the address is out of range.
    pub fn try_map_to_cpu(&self, alloc: &mut GpuAllocation) -> (cpu_va: Option<u64>)
        ensures
            self.model().wf(),
            self.model().mapping_in_range(*old(alloc)) ==> {
                &&& cpu_va == self.model().cpu_address(*old(alloc))
                &&& *final(alloc) == self.model().mapped(*old(alloc))
            },
            !self.model().mapping_in_range(*old(alloc)) ==> {
                &&& cpu_va is None
                &&& *final(alloc) == *old(alloc)
            },
    {
        if self.can_map(alloc) {
            self.map_to_cpu(alloc)
        } else {
            None
        }
    }

    /// Maps like [`VramAllocator::map_system_memory`], and returns `None` and
    /// changes nothing if the GPU virtual address space has no room.
    pub fn try_map_system_memory(&mut self, system_phys_addr: u64, size: u64) -> (gpu_va: Option<
        u64,
    >)
        ensures
            old(self).model().wf(),
            old(self).model().in_address_space(size) ==> {
                &&& gpu_va == Some(old(self).model().next_gpu_va as u64)
                &&& final(self).model() == old(self).model().after_map_system(size)
            },
            !old(self).model().in_address_space(size) ==> {
                &&& gpu_va is None
                &&& final(self).model() == old(self).model()
            },
    {
        if self.has_va_room(size) {
            self.map_system_memory(system_phys_addr, size)
        } else {
            None
        }
    }
}

/// Allocating keeps an allocator well formed.
pub proof fn allocate_keeps_wf(vram: VramView, size: u64)
    requires
        vram.wf(),
    ensures
        vram.after_allocate(size).wf(),
{
    let taken = page_round_up(size as int);
    lemma_first_fit(vram.free, taken, 0);
    if vram.fit(size) is Some {
        let i = vram.fit(size)->0;
        let after = vram.after_allocate(size);
        let region = vram.free[i];
        assert(region.start % PAGE_SIZE == 0);
        assert(after.free[i].start == region.start + taken);
        assert forall|j: int, byte: int|
            0 <= j < after.free.len() && #[trigger] after.free[j].covers(
                byte,
            ) implies vram.free[j].covers(byte) by {}
    }
}

/// A fresh allocator for any detected VRAM is well formed.
pub proof fn fresh_vram_is_wf(info: VramInfoView, bar1_cpu_base: u64, bar1_size: u64)
    ensures
        fresh_vram(info, bar1_cpu_base, bar1_size).wf(),
{
}

/// Mapping system memory keeps an allocator well formed.
pub proof fn map_system_keeps_wf(vram: VramView, size: u64)
    requires
        vram.wf(),
    ensures
        vram.after_map_system(size).wf(),
{
}

/// An allocation has at least the requested size, is made of whole pages, lies
/// above the reserved bytes and, unless it is empty, within VRAM.
pub proof fn allocation_is_placed(vram: VramView, size: u64)
    requires
        vram.wf(),
        size + 0xFFF <= u64::MAX,
        vram.allocation(size) is Some,
        vram.va_has_room(size),
    ensures
        ({
            let alloc = vram.allocation(size)->0;
            &&& size <= alloc.size < size + PAGE_SIZE
            &&& alloc.size % PAGE_SIZE == 0
            &&& alloc.phys_addr % PAGE_SIZE == 0
            &&& alloc.gpu_va % PAGE_SIZE == 0
            &&& alloc.gpu_va >= GPU_VA_BASE
            &&& alloc.phys_addr >= RESERVED_BYTES
            &&& size > 0 ==> alloc.phys_addr + alloc.size <= vram.info.total_bytes
            &&& !alloc.cpu_mapped
        }),
{
    lemma_first_fit(vram.free, page_round_up(size as int), 0);
    let i = vram.fit(size)->0;
    assert(vram.free[i].start % PAGE_SIZE == 0);
}

/// An allocation fails only if no free region is large enough.
pub proof fn allocation_fails_when_exhausted(vram: VramView, size: u64)
    ensures
        vram.allocation(size) is None <==> forall|i: int|
            0 <= i < vram.free.len() ==> (#[trigger] vram.free[i]).size < page_round_up(
                size as int,
            ),
{
    lemma_first_fit(vram.free, page_round_up(size as int), 0);
}

/// Whether `byte` of VRAM belongs to an allocation.
pub open spec fn owns(alloc: GpuAllocation, byte: int) -> bool {
    alloc.phys_addr <= byte < alloc.phys_addr + alloc.size
}

/// The bytes of an allocation were free before and are not free afterwards,
/// and no other byte changes.
pub proof fn allocate_takes_its_bytes(vram: VramView, size: u64, byte: int)
    requires
        vram.wf(),
        vram.allocation(size) is Some,
        size + 0xFFF <= u64::MAX,
    ensures
        owns(vram.allocation(size)->0, byte) ==> vram.is_free(byte),
        vram.after_allocate(size).is_free(byte) <==> vram.is_free(byte) && !owns(
            vram.allocation(size)->0,
            byte,
        ),
{
    let taken = page_round_up(size as int);
    lemma_first_fit(vram.free, taken, 0);
    let i = vram.fit(size)->0;
    let after = vram.after_allocate(size);
    let region = vram.free[i];
    assert(region.size > 0 ==> region.start + region.size <= vram.info.total_bytes) by {
        assert(region.start % PAGE_SIZE == 0);
    }
    if owns(vram.allocation(size)->0, byte) {
        assert(vram.free[i].covers(byte));
    }
    if vram.is_free(byte) {
        let j = choose|j: int| 0 <= j < vram.free.len() && #[trigger] vram.free[j].covers(byte);
        if !owns(vram.allocation(size)->0, byte) {
            assert(after.free[j].covers(byte));
        } else {
            assert(vram.free[i].covers(byte));
            assert forall|k: int| 0 <= k < after.free.len() implies !#[trigger] after.free[k].covers(
                byte,
            ) by {
                assert(k != i ==> !vram.free[k].covers(byte));
            }
        }
    }
    if after.is_free(byte) {
        let j = choose|j: int| 0 <= j < after.free.len() && #[trigger] after.free[j].covers(byte);
        assert(vram.free[j].covers(byte));
    }
}

/// An operation on an allocator.
pub enum VramOp {
    Allocate(u64),
    MapSystem(u64),
    Free(GpuAllocation),
}

impl VramView {
    /// The allocator after one operation.
    pub open spec fn apply(self, op: VramOp) -> VramView {
        match op {
            VramOp::Allocate(size) => self.after_allocate(size),
            VramOp::MapSystem(size) => self.after_map_system(size),
            VramOp::Free(_) => self,
        }
    }

    /// The allocator after a series of operations.
    pub open spec fn apply_all(self, ops: Seq<VramOp>) -> VramView
        decreases ops.len(),
    {
        if ops.len() == 0 {
            self
        } else {
            self.apply_all(ops.drop_last()).apply(ops.last())
        }
    }
}

/// Over any series of operations an allocator stays well formed, no byte
/// becomes free again, and the next GPU virtual address never goes back.
pub proof fn operations_only_consume(vram: VramView, ops: Seq<VramOp>, byte: int)
    requires
        vram.wf(),
        sizes_in_range(ops),
    ensures
        vram.apply_all(ops).wf(),
        vram.apply_all(ops).is_free(byte) ==> vram.is_free(byte),
        vram.apply_all(ops).next_gpu_va >= vram.next_gpu_va,
        vram.apply_all(ops).info == vram.info,
    decreases ops.len(),
{
    if ops.len() > 0 {
        let before = vram.apply_all(ops.drop_last());
        operations_only_consume(vram, ops.drop_last(), byte);
        match ops.last() {
            VramOp::Allocate(size) => {
                assert(ops[ops.len() - 1] == ops.last());
                allocate_keeps_wf(before, size);
                if before.allocation(size) is Some {
                    allocate_takes_its_bytes(before, size, byte);
                }
            },
            VramOp::MapSystem(size) => {
                map_system_keeps_wf(before, size);
                if before.after_map_system(size).is_free(byte) {
                    let j = choose|j: int|
                        0 <= j < before.free.len() && #[trigger] before.free[j].covers(byte);
                    assert(before.free[j].covers(byte));
                }
            },
            VramOp::Free(_) => {},
        }
    }
}

/// Whether every allocation of a series can be rounded up to whole pages.
pub open spec fn sizes_in_range(ops: Seq<VramOp>) -> bool {
    forall|i: int|
        0 <= i < ops.len() ==> (#[trigger] ops[i] matches VramOp::Allocate(size) ==> size + 0xFFF
            <= u64::MAX)
}

/// An allocator that began with all of its VRAM free has one free region, which
/// reaches to the end of VRAM, whatever it has been asked for. An allocation
/// then succeeds exactly when its whole pages fit the bytes that are left, and
/// takes them from these.
pub proof fn free_bytes_decide_allocation(
    info: VramInfoView,
    bar1_cpu_base: u64,
    bar1_size: u64,
    ops: Seq<VramOp>,
    size: u64,
)
    requires
        sizes_in_range(ops),
    ensures
        ({
            let vram = fresh_vram(info, bar1_cpu_base, bar1_size).apply_all(ops);
            let need = page_round_up(size as int);
            &&& vram.free.len() == 1
            &&& vram.free[0].start + vram.free[0].size == if info.total_bytes >= RESERVED_BYTES {
                info.total_bytes
            } else {
                RESERVED_BYTES
            }
            &&& vram.allocation(size) is Some <==> need <= vram.free[0].size
            &&& vram.allocation(size) is Some ==> vram.after_allocate(size).free[0].size
                == vram.free[0].size - need
        }),
    decreases ops.len(),
{
    reveal_with_fuel(first_fit, 2);
    if ops.len() > 0 {
        let before = ops.drop_last();
        assert(ops[ops.len() - 1] == ops.last());
        let last: u64 = match ops.last() {
            VramOp::Allocate(size) => size,
            _ => 0,
        };
        free_bytes_decide_allocation(info, bar1_cpu_base, bar1_size, before, last);
    }
}

/// Two allocations of one allocator share no byte of VRAM and no GPU virtual
/// address, whatever happens in between.
pub proof fn allocations_are_disjoint(vram: VramView, size1: u64, ops: Seq<VramOp>, size2: u64)
    requires
        vram.wf(),
        size1 + 0xFFF <= u64::MAX,
        size2 + 0xFFF <= u64::MAX,
        vram.allocation(size1) is Some,
        vram.va_has_room(size1),
        sizes_in_range(ops),
        vram.after_allocate(size1).apply_all(ops).allocation(size2) is Some,
        vram.after_allocate(size1).apply_all(ops).va_has_room(size2),
    ensures
        ({
            let first = vram.allocation(size1)->0;
            let second = vram.after_allocate(size1).apply_all(ops).allocation(size2)->0;
            &&& forall|byte: int| !(#[trigger] owns(first, byte) && owns(second, byte))
            &&& first.gpu_va + first.size <= second.gpu_va
        }),
{
    let first = vram.allocation(size1)->0;
    let between = vram.after_allocate(size1);
    let later = between.apply_all(ops);
    let second = later.allocation(size2)->0;
    allocate_keeps_wf(vram, size1);
    operations_only_consume(between, ops, 0);
    assert forall|byte: int| !(#[trigger] owns(first, byte) && owns(second, byte)) by {
        allocate_takes_its_bytes(vram, size1, byte);
        operations_only_consume(between, ops, byte);
        allocate_takes_its_bytes(later, size2, byte);
    }
}

/// Mapping an allocation that is already mapped changes nothing and gives the
/// same address again.
pub proof fn map_to_cpu_is_idempotent(vram: VramView, alloc: GpuAllocation)
    requires
        vram.cpu_address(alloc) is Some,
    ensures
        vram.cpu_address(vram.mapped(alloc)) == vram.cpu_address(alloc),
        vram.mapped(vram.mapped(alloc)) == vram.mapped(alloc),
{
}

/// Two mapped allocations that are disjoint in VRAM are disjoint for the CPU.
pub proof fn cpu_mappings_are_disjoint(vram: VramView, a: GpuAllocation, b: GpuAllocation)
    requires
        !a.cpu_mapped,
        !b.cpu_mapped,
        vram.cpu_address(a) is Some,
        vram.cpu_address(b) is Some,
        vram.bar1_cpu_base + vram.bar1_size <= u64::MAX,
        a.phys_addr + a.size <= b.phys_addr,
    ensures
        vram.mapped(a).cpu_va + a.size <= vram.mapped(b).cpu_va,
        vram.bar1_cpu_base <= vram.mapped(a).cpu_va,
        vram.mapped(b).cpu_va + b.size <= vram.bar1_cpu_base + vram.bar1_size,
{
}

/// The VRAM size register counts mebibytes, up to 128 GiB. A register of 0
/// stands for 8 GiB, and one beyond 128 GiB for none.
pub proof fn vram_size_counts_mebibytes(reg: u32)
    ensures
        1 <= reg <= 0x2_0000 ==> vram_size_of(reg) / 0x10_0000 == reg,
        1 <= reg <= 0x2_0000 ==> vram_size_of(reg) % 0x10_0000 == 0,
        reg == 0 ==> vram_size_of(reg) == 8 * 1024 * 1024 * 1024,
        reg > 0x2_0000 ==> vram_size_of(reg) == 0,
{
}

/// The memory type stands in bits 8 to 11 of the configuration register,
/// whatever its other bits are: four codes for each type in turn, and the last
/// four for none.
pub proof fn memory_type_codes(above: u32, code: u32, below: u32)
    requires
        above < 0x10_0000,
        code < 16,
        below < 0x100,
    ensures
        ({
            let mem_type = memory_type_of((above * 0x1000 + code * 0x100 + below) as u32);
            &&& code == 0 || code == 1 || code == 2 || code == 3 ==> mem_type == MemoryType::Gddr6
            &&& code == 4 || code == 5 || code == 6 || code == 7 ==> mem_type == MemoryType::Gddr6x
            &&& code == 8 || code == 9 || code == 10 || code == 11 ==> mem_type == MemoryType::Hbm2
            &&& code >= 12 ==> mem_type == MemoryType::Unknown
        }),
{
    let cfg0 = above * 0x1000 + code * 0x100 + below;
    assert(cfg0 / 0x100 == above * 16 + code);
}

/// Each memory type is called by its own name.
pub proof fn memory_type_names()
    ensures
        MemoryType::Gddr6.display_name() == "GDDR6"@,
        MemoryType::Gddr6x.display_name() == "GDDR6X"@,
        MemoryType::Hbm2.display_name() == "HBM2"@,
        MemoryType::Unknown.display_name() == "Unknown"@,
{
}

/// Detection reads the registers at 0x100200, 0x10020C and 0x10022C in this
/// order.
pub proof fn detection_order(regs: GpuRegs)
    ensures
        detect_accesses(regs).len() == 3,
        detect_accesses(regs)[0] == (Access::ReadRegister { bar0: regs.bar0, offset: 0x10_0200 }),
        detect_accesses(regs)[1] == (Access::ReadRegister { bar0: regs.bar0, offset: 0x10_020C }),
        detect_accesses(regs)[2] == (Access::ReadRegister { bar0: regs.bar0, offset: 0x10_022C }),
{
}

/// What was detected follows from the registers. The low byte of the third
/// counts the partitions, each of which adds 128 bits to the bus of HBM2 memory
/// and 32 bits to any other. The description gives the size in mebibytes, the
/// type, the width and the partitions.
pub proof fn detected_memory(cfg0: u32, vram_size: u32, nparts: u32)
    ensures
        ({
            let info = detected_info(cfg0, vram_size, nparts);
            &&& info.total_bytes == vram_size_of(vram_size)
            &&& info.mem_type == memory_type_of(cfg0)
            &&& info.partitions < 0x100 && (nparts - info.partitions) % 0x100 == 0
            &&& info.mem_type == MemoryType::Hbm2 ==> info.bus_width == 128 * info.partitions
            &&& info.mem_type != MemoryType::Hbm2 ==> info.bus_width == 32 * info.partitions
            &&& exists|size: Seq<char>, width: Seq<char>, count: Seq<char>|
                #![trigger number_of(size, 10), number_of(width, 10), number_of(count, 10)]
                {
                    &&& info.description == size + " MiB "@ + info.mem_type.display_name() + " ("@
                        + width + "-bit, "@ + count + " partitions)"@
                    &&& number_of(size, 10) * 0x10_0000 == info.total_bytes
                    &&& number_of(width, 10) == info.bus_width
                    &&& number_of(count, 10) == info.partitions
                    &&& all_digits(size, 10) && all_digits(width, 10) && all_digits(count, 10)
                }
        }),
{
    let info = detected_info(cfg0, vram_size, nparts);
    let size = decimal((info.total_bytes / 0x10_0000) as nat);
    let width = decimal(info.bus_width as nat);
    let count = decimal(info.partitions as nat);
    decimal_reads_back((info.total_bytes / 0x10_0000) as nat);
    decimal_reads_back(info.bus_width as nat);
    decimal_reads_back(info.partitions as nat);
    vram_size_counts_mebibytes(vram_size);
    assert(info.total_bytes % 0x10_0000 == 0);
    assert(number_of(size, 10) * 0x10_0000 == info.total_bytes);
    assert(number_of(width, 10) == info.bus_width);
    assert(number_of(count, 10) == info.partitions);
}

/// A fresh allocator has every byte free from the first mebibyte to the end of
/// VRAM, and none below. Its GPU virtual addresses start at 4 GiB.
pub proof fn fresh_vram_is_free(info: VramInfoView, bar1_cpu_base: u64, bar1_size: u64, byte: int)
    ensures
        ({
            let vram = fresh_vram(info, bar1_cpu_base, bar1_size);
            &&& vram.is_free(byte) <==> 0x10_0000 <= byte < info.total_bytes
            &&& vram.next_gpu_va == 0x1_0000_0000
            &&& vram.info == info
            &&& vram.bar1_cpu_base == bar1_cpu_base
            &&& vram.bar1_size == bar1_size
        }),
{
    let vram = fresh_vram(info, bar1_cpu_base, bar1_size);
    if 0x10_0000 <= byte < info.total_bytes {
        assert(vram.free[0].covers(byte));
    }
}

/// A size is rounded up to the least multiple of 4 KiB that holds it.
pub proof fn page_round_up_is_least(size: int)
    ensures
        page_round_up(size) % 0x1000 == 0,
        size <= page_round_up(size) < size + 0x1000,
        forall|pages: int| size <= pages * 0x1000 ==> page_round_up(size) <= #[trigger] (pages
            * 0x1000),
{
}

/// An allocation lies at the start of the first free region that holds it. It
/// takes the next GPU virtual addresses, and the addresses after it are next.
/// All other regions stay as they are, and a region that is taken from loses
/// its front.
pub proof fn allocation_takes_first_fit(vram: VramView, size: u64, i: int)
    requires
        size + 0xFFF <= u64::MAX,
        0 <= vram.next_gpu_va <= u64::MAX,
        0 <= i < vram.free.len(),
        vram.free[i].size >= page_round_up(size as int),
        vram.free[i].start + vram.free[i].size <= u64::MAX,
        forall|j: int| 0 <= j < i ==> #[trigger] vram.free[j].size < page_round_up(size as int),
    ensures
        vram.allocation(size) is Some,
        ({
            let alloc = vram.allocation(size)->0;
            let after = vram.after_allocate(size);
            &&& alloc.phys_addr == vram.free[i].start
            &&& alloc.size == page_round_up(size as int)
            &&& alloc.gpu_va == vram.next_gpu_va
            &&& !alloc.cpu_mapped && alloc.cpu_va == 0
            &&& after.next_gpu_va == alloc.gpu_va + alloc.size
            &&& after.free.len() == vram.free.len()
            &&& after.free[i].start == alloc.phys_addr + alloc.size
            &&& after.free[i].start + after.free[i].size == vram.free[i].start + vram.free[i].size
            &&& forall|j: int| 0 <= j < vram.free.len() && j != i ==> after.free[j] == vram.free[j]
            &&& after.info == vram.info
            &&& after.bar1_cpu_base == vram.bar1_cpu_base && after.bar1_size == vram.bar1_size
        }),
{
    lemma_first_fit(vram.free, page_round_up(size as int), 0);
}

/// An allocation that fails changes nothing.
pub proof fn failed_allocation_changes_nothing(vram: VramView, size: u64)
    requires
        vram.allocation(size) is None,
    ensures
        vram.after_allocate(size) == vram,
{
}

/// Mapping system memory takes GPU virtual addresses as an allocation of that
/// size does, and no VRAM.
pub proof fn map_system_takes_addresses_only(vram: VramView, size: u64)
    ensures
        ({
            let after = vram.after_map_system(size);
            &&& size <= after.next_gpu_va - vram.next_gpu_va < size + 0x1000
            &&& (after.next_gpu_va - vram.next_gpu_va) % 0x1000 == 0
            &&& after == (VramView { next_gpu_va: after.next_gpu_va, ..vram })
        }),
{
    page_round_up_is_least(size as int);
}

/// Whether addresses are left for a size: the rounded range ends at or before
/// the last address.
pub proof fn address_room_is_a_bound(vram: VramView, size: u64)
    ensures
        vram.va_has_room(size) <==> vram.after_map_system(size).next_gpu_va
            <= 0xFFFF_FFFF_FFFF_FFFF,
        vram.in_address_space(size) <==> size <= 0xFFFF_FFFF_FFFF_F000 && vram.va_has_room(size),
{
}

/// The aperture shows VRAM in order: an allocation that ends inside it is
/// mapped at its distance from the start of VRAM. One that does not is left as
/// it is, and so is one that has been mapped.
pub proof fn aperture_shows_vram_in_order(vram: VramView, alloc: GpuAllocation)
    requires
        vram.mapping_in_range(alloc),
    ensures
        !alloc.cpu_mapped && alloc.phys_addr + alloc.size <= vram.bar1_size ==> {
            let mapped = vram.mapped(alloc);
            &&& mapped.cpu_va - vram.bar1_cpu_base == alloc.phys_addr
            &&& vram.cpu_address(alloc) == Some(mapped.cpu_va)
            &&& mapped.cpu_mapped
            &&& mapped.gpu_va == alloc.gpu_va
            &&& mapped.phys_addr == alloc.phys_addr
            &&& mapped.size == alloc.size
        },
        !alloc.cpu_mapped && alloc.phys_addr + alloc.size > vram.bar1_size ==> {
            &&& vram.cpu_address(alloc) is None
            &&& vram.mapped(alloc) == alloc
        },
        alloc.cpu_mapped ==> {
            &&& vram.cpu_address(alloc) == Some(alloc.cpu_va)
            &&& vram.mapped(alloc) == alloc
        },
{
}

/// A page table entry is its page's address with bit 0 set. An entry for
/// system memory has bit 1 set as well.
pub proof fn pte_bits(phys_addr: u64)
    ensures
        GpuPte::entry(phys_addr, GpuPte::APERTURE_VRAM).raw == phys_addr - phys_addr % 0x1000 + 1,
        GpuPte::entry(phys_addr, GpuPte::APERTURE_SYS_MEM_COHERENT).raw == phys_addr - phys_addr
            % 0x1000 + 3,
        GpuPte::APERTURE_VRAM == 0,
        GpuPte::APERTURE_SYS_MEM_COHERENT == 2,
        GpuPte::APERTURE_SYS_MEM_NONCOHERENT == 4,
{
}

/// An entry is valid exactly if bit 0 is set.
pub proof fn pte_validity_is_bit_zero(rest: u64, bit: u64)
    requires
        rest < 0x8000_0000_0000_0000,
        bit < 2,
    ensures
        (GpuPte { raw: (2 * rest + bit) as u64 }).valid() <==> bit == 1,
{
}

/// Mapping stays in range unless the allocation could lie in the aperture and
/// its end, or its address on the CPU's side, is beyond 64 bits.
pub proof fn mapping_range_is_64_bits(vram: VramView, alloc: GpuAllocation)
    ensures
        alloc.cpu_mapped || alloc.size > vram.bar1_size ==> vram.mapping_in_range(alloc),
        !alloc.cpu_mapped && alloc.size <= vram.bar1_size ==> (vram.mapping_in_range(alloc) <==> {
            &&& alloc.phys_addr + alloc.size < 0x1_0000_0000_0000_0000
            &&& alloc.phys_addr + alloc.size > vram.bar1_size || vram.bar1_cpu_base
                + alloc.phys_addr < 0x1_0000_0000_0000_0000
        }),
{
}

/// The model of the memory that was detected has its fields.
pub proof fn vram_info_model_shows_the_fields(info: VramInfo)
    ensures
        ({
            let model = info.deep_view();
            &&& model.total_bytes == info.total_bytes
            &&& model.mem_type == info.mem_type
            &&& model.bus_width == info.bus_width
            &&& model.partitions == info.partitions
            &&& model.description == info.description@
        }),
{
}

/// The aperture that an allocator maps through is the BAR1 that it was given.
pub proof fn aperture_is_bar1(vram: VramView, aperture: Bar1Aperture)
    ensures
        vram.aperture().cpu_base == vram.bar1_cpu_base,
        vram.aperture().size == vram.bar1_size,
        vram.with_aperture(aperture).aperture() == aperture,
        vram.with_aperture(aperture).info == vram.info,
        vram.with_aperture(aperture).free == vram.free,
        vram.with_aperture(aperture).next_gpu_va == vram.next_gpu_va,
{
}

/// The sizes and addresses that memory is laid out by.
pub proof fn memory_layout()
    ensures
        PAGE_SIZE == 0x1000,
        RESERVED_BYTES == 0x10_0000,
        GPU_VA_BASE == 0x1_0000_0000,
{
}

} // verus!

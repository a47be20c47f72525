//! Compute dispatch: compute classes, shader loading, launch commands and
//! fences.

use vstd::prelude::*;
use crate::access::{high_half, low_half, perform, split_word, tail, Access, Step};
use crate::fifo::{
    gpu_method_1, method_header, single_method_header, Channel, Submission, METHOD_INCR,
};
use crate::memory::{Bar1Aperture, GpuAllocation, VramAllocator, VramView};
use crate::mmio::GpuRegs;
use crate::pci_config::GpuFamily;
use crate::transfer::{addressable, copy_in, copy_in_accesses};

verus! {

/// Compute class of Kepler.
pub const KEPLER_COMPUTE_A: u32 = 0xA0C0;

/// Compute class of Maxwell.
pub const MAXWELL_COMPUTE_A: u32 = 0xB0C0;

/// Compute class of Pascal.
pub const PASCAL_COMPUTE_A: u32 = 0xC0C0;

/// Compute class of Volta.
pub const VOLTA_COMPUTE_A: u32 = 0xC3C0;

/// Compute class of Turing.
pub const TURING_COMPUTE_A: u32 = 0xC5C0;

/// Compute class of Ampere.
pub const AMPERE_COMPUTE_A: u32 = 0xC6C0;

/// Compute class of Ada Lovelace.
pub const ADA_COMPUTE_A: u32 = 0xC9C0;

/// Set the shader program address (low 32 bits).
pub const NVC6C0_SET_SHADER_LOCAL_MEMORY_A: u32 = 0x0790;

/// Set the shader program address (high 32 bits).
pub const NVC6C0_SET_SHADER_LOCAL_MEMORY_B: u32 = 0x0794;

/// Bind a constant buffer.
pub const NVC6C0_SET_CONSTANT_BUFFER_BIND: u32 = 0x0AB0;

/// Select the constant buffer slot to configure.
pub const NVC6C0_CB_SELECTOR: u32 = 0x2380;

/// Position within the selected constant buffer.
pub const NVC6C0_CB_POS: u32 = 0x2384;

/// Constant buffer data.
pub const NVC6C0_CB_DATA: u32 = 0x2388;

/// Program region address (high).
pub const NVC6C0_SET_PROGRAM_REGION_A: u32 = 0x1608;

/// Program region address (low).
pub const NVC6C0_SET_PROGRAM_REGION_B: u32 = 0x160C;

/// Shader program offset within the program region.
pub const NVC6C0_SET_SHADER_PROGRAM: u32 = 0x2000;

/// Grid size in X.
pub const NVC6C0_LAUNCH_DIM_X: u32 = 0x2074;

/// Grid size in Y.
pub const NVC6C0_LAUNCH_DIM_Y: u32 = 0x2078;

/// Grid size in Z.
pub const NVC6C0_LAUNCH_DIM_Z: u32 = 0x207C;

/// Block size in X.
pub const NVC6C0_SET_BLOCK_DIM_X: u32 = 0x2040;

/// Block size in Y.
pub const NVC6C0_SET_BLOCK_DIM_Y: u32 = 0x2044;

/// Block size in Z.
pub const NVC6C0_SET_BLOCK_DIM_Z: u32 = 0x2048;

/// Shared memory size per block.
pub const NVC6C0_SET_SHARED_MEMORY_SIZE: u32 = 0x204C;

/// Launch the compute kernel.
pub const NVC6C0_LAUNCH: u32 = 0x2080;

/// Semaphore address (high).
pub const NVC6C0_SET_REPORT_SEMAPHORE_A: u32 = 0x1B00;

/// Semaphore address (low).
pub const NVC6C0_SET_REPORT_SEMAPHORE_B: u32 = 0x1B04;

/// Semaphore payload.
pub const NVC6C0_SET_REPORT_SEMAPHORE_C: u32 = 0x1B08;

/// Semaphore operation.
pub const NVC6C0_SET_REPORT_SEMAPHORE_D: u32 = 0x1B0C;

/// Bytes of VRAM that a fence takes: one cache line.
pub const FENCE_SIZE: u64 = 64;

/// How many times a dispatch polls its fence.
pub const DISPATCH_POLLS: u64 = 10_000_000;

/// The compute class of a GPU family. An unknown family is taken for Ampere.
pub open spec fn class_of(family: GpuFamily) -> u32 {
    match family {
        GpuFamily::Kepler => KEPLER_COMPUTE_A,
        GpuFamily::Maxwell => MAXWELL_COMPUTE_A,
        GpuFamily::Pascal => PASCAL_COMPUTE_A,
        GpuFamily::Volta => VOLTA_COMPUTE_A,
        GpuFamily::Turing => TURING_COMPUTE_A,
        GpuFamily::Ampere => AMPERE_COMPUTE_A,
        GpuFamily::Ada => ADA_COMPUTE_A,
        GpuFamily::Unknown => AMPERE_COMPUTE_A,
    }
}

/// The compute class ID for a GPU family.
pub fn compute_class_for_family(family: GpuFamily) -> (class: u32)
    ensures
        class == class_of(family),
{
    match family {
        GpuFamily::Kepler => KEPLER_COMPUTE_A,
        GpuFamily::Maxwell => MAXWELL_COMPUTE_A,
        GpuFamily::Pascal => PASCAL_COMPUTE_A,
        GpuFamily::Volta => VOLTA_COMPUTE_A,
        GpuFamily::Turing => TURING_COMPUTE_A,
        GpuFamily::Ampere => AMPERE_COMPUTE_A,
        GpuFamily::Ada => ADA_COMPUTE_A,
        GpuFamily::Unknown => AMPERE_COMPUTE_A,
    }
}

/// A compiled shader program with its place in VRAM.
#[derive(Debug, PartialEq, Eq, Structural)]
pub struct ShaderProgram {
    /// Allocation that holds the shader binary.
    pub allocation: GpuAllocation,
    /// Size of the shader binary in bytes.
    pub size: u64,
    /// Entry point offset within the binary.
    pub entry_offset: u32,
    /// Shared memory that the shader needs, in bytes.
    pub shared_mem_size: u32,
    /// Number of registers used per thread.
    pub num_registers: u32,
    /// Number of constant buffer slots used.
    pub num_const_buffers: u32,
}

impl ShaderProgram {
    /// The step of copying a binary to the shader's place: it fails at once if
    /// the CPU does not reach that place.
    pub open spec fn upload_step(self, binary: Seq<u8>, replies: Seq<u32>) -> Step<bool> {
        if self.allocation.cpu_mapped {
            perform(copy_in_accesses(self.allocation.cpu_va, binary), replies, true)
        } else {
            Step::Done { result: false, used: 0 }
        }
    }

    /// Copies the shader binary to its place in VRAM. Returns whether it is
    /// there: `false` if the BAR1 aperture does not reach it.
    pub fn upload(&self, binary: &[u8], replies: &[u32]) -> (step: Step<bool>)
        requires
            self.allocation.cpu_mapped ==> addressable(
                self.allocation.cpu_va,
                binary@.len() as int,
            ),
        ensures
            step == self.upload_step(binary@, replies@),
    {
        if !self.allocation.cpu_mapped {
            return Step::Done { result: false, used: 0 };
        }
        match copy_in(self.allocation.cpu_va, binary, replies) {
            Step::Next(access) => Step::Next(access),
            Step::Done { result: _, used } => Step::Done { result: true, used },
        }
    }
}

/// Grid dimensions (number of thread blocks to launch).
#[derive(Debug, Clone, Copy, PartialEq, Eq, Structural)]
pub struct GridDim {
    pub x: u32,
    pub y: u32,
    pub z: u32,
}

/// Block dimensions (threads per block).
#[derive(Debug, Clone, Copy, PartialEq, Eq, Structural)]
pub struct BlockDim {
    pub x: u32,
    pub y: u32,
    pub z: u32,
}

impl BlockDim {
    /// Total number of threads per block.
    pub fn total_threads(&self) -> (threads: u32)
        requires
            self.x * self.y <= u32::MAX,
            self.x * self.y * self.z <= u32::MAX,
        ensures
            threads == self.x * self.y * self.z,
    {
        self.x * self.y * self.z
    }
}

/// A constant buffer binding: maps a GPU address to a constant buffer slot.
#[derive(Debug, Clone, Copy, PartialEq, Eq, Structural)]
pub struct ConstantBufferBinding {
    /// Constant buffer slot index.
    pub slot: u32,
    /// GPU virtual address of the constant buffer data.
    pub gpu_va: u64,
    /// Size of the constant buffer in bytes.
    pub size: u32,
}

/// A GPU fence for synchronization between CPU and GPU.
#[derive(Debug, PartialEq, Eq, Structural)]
pub struct GpuFence {
    /// Allocation for the semaphore value.
    pub allocation: GpuAllocation,
    /// Value that the GPU writes on completion.
    pub signal_value: u32,
}

/// The fence that `vram` has room for.
pub open spec fn allocated_fence(vram: VramView, signal_value: u32) -> Option<GpuFence> {
    match vram.allocation(FENCE_SIZE) {
        Some(allocation) => Some(GpuFence { allocation, signal_value }),
        None => None,
    }
}

impl GpuFence {
    /// The access that reads the semaphore.
    pub open spec fn read_semaphore(self) -> Access {
        Access::ReadMemory { va: self.allocation.cpu_va }
    }

    /// The step of checking the fence once. A semaphore without a CPU mapping
    /// cannot be read and counts as not signaled.
    pub open spec fn signaled_step(self, replies: Seq<u32>) -> Step<bool> {
        if !self.allocation.cpu_mapped {
            Step::Done { result: false, used: 0 }
        } else if replies.len() == 0 {
            Step::Next(self.read_semaphore())
        } else {
            Step::Done { result: replies[0] == self.signal_value, used: 1 }
        }
    }

    /// The step of polling the fence up to `timeout` times: it has been
    /// signaled if the latest poll found the signal value.
    pub open spec fn wait_step(self, timeout: u64, replies: Seq<u32>) -> Step<bool> {
        if !self.allocation.cpu_mapped {
            Step::Done { result: false, used: 0 }
        } else if 0 < replies.len() <= timeout && replies.last() == self.signal_value {
            Step::Done { result: true, used: replies.len() as usize }
        } else if replies.len() >= timeout {
            Step::Done { result: false, used: timeout as usize }
        } else {
            Step::Next(self.read_semaphore())
        }
    }

    /// Allocates a new fence.
    ///
    /// Its semaphore is not mapped to the CPU and holds what VRAM held before.
    /// Until [`GpuFence::prepare`] has mapped and cleared it, the fence cannot be
    /// read and counts as not signaled.
    pub fn new(allocator: &mut VramAllocator, signal_value: u32) -> (fence: Option<Self>)
        requires
            old(allocator).model().fit(FENCE_SIZE) is Some ==> old(allocator).model().va_has_room(
                FENCE_SIZE,
            ),
        ensures
            fence == allocated_fence(old(allocator).model(), signal_value),
            final(allocator).model() == old(allocator).model().after_allocate(FENCE_SIZE),
    {
        match allocator.allocate(FENCE_SIZE) {
            Some(allocation) => Some(GpuFence { allocation, signal_value }),
            None => None,
        }
    }

    /// The fence after its allocation was mapped to the CPU.
    pub open spec fn mapped(self, vram: VramView) -> GpuFence {
        GpuFence { allocation: vram.mapped(self.allocation), ..self }
    }

    /// The accesses that clear the semaphore.
    pub open spec fn clear_accesses(self) -> Seq<Access> {
        seq![Access::WriteVram { phys_addr: self.allocation.phys_addr, word: 0 }]
    }

    /// Prepares a fence for use: maps its semaphore to the CPU and clears it.
    /// Returns whether the fence can be read: `false` if the BAR1 aperture does
    /// not reach it.
    pub fn prepare(&mut self, allocator: &VramAllocator, replies: &[u32]) -> (step: Step<bool>)
        requires
            allocator.model().mapping_in_range(old(self).allocation),
        ensures
            step == perform(
                old(self).clear_accesses(),
                replies@,
                allocator.model().cpu_address(old(self).allocation) is Some,
            ),
            *final(self) == old(self).mapped(allocator.model()),
    {
        self.prepare_through(&allocator.aperture(), replies)
    }

    /// Prepares a fence like [`GpuFence::prepare`], through the given aperture.
    pub fn prepare_through(&mut self, aperture: &Bar1Aperture, replies: &[u32]) -> (step: Step<
        bool,
    >)
        requires
            aperture.mapping_in_range(old(self).allocation),
        ensures
            step == perform(
                old(self).clear_accesses(),
                replies@,
                aperture.cpu_address(old(self).allocation) is Some,
            ),
            *final(self) == (GpuFence {
                allocation: aperture.mapped(old(self).allocation),
                ..*old(self)
            }),
    {
        let cpu_va: Option<u64> = aperture.map(&mut self.allocation);
        if replies.len() == 0 {
            Step::Next(Access::WriteVram { phys_addr: self.allocation.phys_addr, word: 0 })
        } else {
            Step::Done { result: cpu_va.is_some(), used: 1 }
        }
    }

    /// Whether the GPU has signaled this fence: the semaphore holds the signal
    /// value. A fence that is not mapped to the CPU counts as not signaled.
    pub fn is_signaled(&self, replies: &[u32]) -> (step: Step<bool>)
        ensures
            step == self.signaled_step(replies@),
    {
        if !self.allocation.cpu_mapped {
            Step::Done { result: false, used: 0 }
        } else if replies.len() == 0 {
            Step::Next(Access::ReadMemory { va: self.allocation.cpu_va })
        } else {
            Step::Done { result: replies[0] == self.signal_value, used: 1 }
        }
    }

    /// Polls until the GPU signals this fence, at most `timeout_iters` times. A
    /// fence that is not mapped to the CPU is not polled and counts as not
    /// signaled.
    pub fn wait(&self, timeout_iters: u64, replies: &[u32]) -> (step: Step<bool>)
        ensures
            step == self.wait_step(timeout_iters, replies@),
    {
        let n: usize = replies.len();
        if !self.allocation.cpu_mapped {
            Step::Done { result: false, used: 0 }
        } else if 0 < n && n as u64 <= timeout_iters && replies[n - 1] == self.signal_value {
            Step::Done { result: true, used: n }
        } else if n as u64 >= timeout_iters {
            Step::Done { result: false, used: timeout_iters as usize }
        } else {
            Step::Next(Access::ReadMemory { va: self.allocation.cpu_va })
        }
    }
}

/// Commands that were submitted and that [`Channel::place`] puts in place.
pub struct CommandBatch {
    /// The command words.
    pub commands: Vec<u32>,
    /// Where they belong, unless the push buffer was full.
    pub submission: Option<Submission>,
}

/// A kernel dispatch.
pub struct Dispatch {
    /// The command words.
    pub commands: Vec<u32>,
    /// Where they belong, unless the push buffer was full.
    pub submission: Option<Submission>,
    /// The fence to wait for.
    pub fence: Option<GpuFence>,
}

/// A single-word method: its header and its data.
pub open spec fn method(subchannel: u32, method: u32, data: u32) -> Seq<u32> {
    seq![method_header(METHOD_INCR, subchannel, method, 1), data]
}

/// The commands that select a shader.
pub open spec fn shader_commands(sc: u32, shader: ShaderProgram) -> Seq<u32> {
    method(sc, NVC6C0_SET_PROGRAM_REGION_A, high_half(shader.allocation.gpu_va)) + method(
        sc,
        NVC6C0_SET_PROGRAM_REGION_B,
        low_half(shader.allocation.gpu_va),
    ) + method(sc, NVC6C0_SET_SHADER_PROGRAM, shader.entry_offset) + method(
        sc,
        NVC6C0_SET_SHARED_MEMORY_SIZE,
        shader.shared_mem_size,
    )
}

/// The bind word of a constant buffer: valid (bit 0) and its size from bit 4.
pub open spec fn bind_word(size: u32) -> u32 {
    (1 + size % 0x2_0000 * 16) as u32
}

/// The commands that bind constant buffers, in order.
pub open spec fn bind_commands(sc: u32, buffers: Seq<ConstantBufferBinding>) -> Seq<u32>
    decreases buffers.len(),
{
    if buffers.len() == 0 {
        seq![]
    } else {
        bind_commands(sc, buffers.drop_last()) + method(
            sc,
            NVC6C0_CB_SELECTOR,
            buffers.last().slot,
        ) + method(sc, NVC6C0_SET_CONSTANT_BUFFER_BIND, bind_word(buffers.last().size))
    }
}

/// The commands that set the dimensions and launch.
pub open spec fn launch_commands(sc: u32, grid: GridDim, block: BlockDim) -> Seq<u32> {
    method(sc, NVC6C0_SET_BLOCK_DIM_X, block.x) + method(sc, NVC6C0_SET_BLOCK_DIM_Y, block.y)
        + method(sc, NVC6C0_SET_BLOCK_DIM_Z, block.z) + method(sc, NVC6C0_LAUNCH_DIM_X, grid.x)
        + method(sc, NVC6C0_LAUNCH_DIM_Y, grid.y) + method(sc, NVC6C0_LAUNCH_DIM_Z, grid.z)
        + method(sc, NVC6C0_LAUNCH, 0)
}

/// The commands that release a fence once the kernel has completed.
pub open spec fn fence_commands(sc: u32, fence: Option<GpuFence>) -> Seq<u32> {
    match fence {
        Some(fence) => method(
            sc,
            NVC6C0_SET_REPORT_SEMAPHORE_A,
            high_half(fence.allocation.gpu_va),
        ) + method(sc, NVC6C0_SET_REPORT_SEMAPHORE_B, low_half(fence.allocation.gpu_va)) + method(
            sc,
            NVC6C0_SET_REPORT_SEMAPHORE_C,
            fence.signal_value,
        ) + method(sc, NVC6C0_SET_REPORT_SEMAPHORE_D, 0x10004),
        None => seq![],
    }
}

/// The commands of a dispatch.
pub open spec fn dispatch_commands(
    sc: u32,
    shader: ShaderProgram,
    grid: GridDim,
    block: BlockDim,
    buffers: Seq<ConstantBufferBinding>,
    fence: Option<GpuFence>,
) -> Seq<u32> {
    shader_commands(sc, shader) + bind_commands(sc, buffers) + launch_commands(sc, grid, block)
        + fence_commands(sc, fence)
}

/// The number of command words of a dispatch: 22, 4 for each constant buffer
/// and 8 for a fence.
pub open spec fn dispatch_words(buffers: int, fenced: bool) -> int {
    22 + 4 * buffers + if fenced {
        8int
    } else {
        0
    }
}

/// The fence behind an optional reference.
pub open spec fn fence_value(fence: Option<&GpuFence>) -> Option<GpuFence> {
    match fence {
        Some(fence) => Some(*fence),
        None => None,
    }
}

fn push_method(cmds: &mut Vec<u32>, sc: u32, method_number: u32, data: u32)
    ensures
        final(cmds)@ == old(cmds)@ + method(sc, method_number, data),
{
    cmds.push(gpu_method_1(sc, method_number));
    cmds.push(data);
}

/// The shader that `vram` has room for.
pub open spec fn loaded_shader(
    vram: VramView,
    size: u64,
    entry_offset: u32,
    shared_mem_size: u32,
    num_registers: u32,
) -> Option<ShaderProgram> {
    match vram.allocation(size) {
        Some(allocation) => Some(
            ShaderProgram {
                allocation: vram.mapped(allocation),
                size,
                entry_offset,
                shared_mem_size,
                num_registers,
                num_const_buffers: 0,
            },
        ),
        None => None,
    }
}

/// Whether the sums of loading a shader of `len` bytes stay in range.
pub open spec fn load_in_range(vram: VramView, len: int) -> bool {
    &&& len + 0xFFF <= u64::MAX
    &&& vram.allocation(len as u64) matches Some(alloc) ==> vram.va_has_room(len as u64)
        && vram.mapping_in_range(alloc)
}

/// The compute engine of a GPU family before its first dispatch.
pub open spec fn fresh_engine(family: GpuFamily) -> ComputeEngine {
    ComputeEngine { class_id: class_of(family), family, subchannel: 0, next_fence_value: 1 }
}

/// The compute engine: manages shader dispatch.
#[derive(Debug, PartialEq, Eq, Structural)]
pub struct ComputeEngine {
    /// Compute class ID for this GPU.
    pub class_id: u32,
    /// GPU family.
    pub family: GpuFamily,
    /// FIFO subchannel bound to the compute class.
    pub subchannel: u32,
    /// Next fence value to use.
    pub next_fence_value: u32,
}

impl ComputeEngine {
    /// The commands that bind the compute class to the subchannel: method 0 is
    /// SET_OBJECT.
    pub open spec fn class_commands(self) -> Seq<u32> {
        method(self.subchannel, 0x0000, self.class_id)
    }

    /// The fence that a dispatch uses: a new one, mapped to the CPU where the
    /// BAR1 aperture reaches it.
    pub open spec fn dispatch_fence(self, vram: VramView, wait: bool) -> Option<GpuFence> {
        match allocated_fence(vram, self.next_fence_value) {
            Some(fence) if wait => Some(fence.mapped(vram)),
            _ => None,
        }
    }

    /// Whether the sums of a dispatch with `buffers` constant buffers stay in
    /// range.
    pub open spec fn dispatch_in_range(
        self,
        channel: Channel,
        vram: VramView,
        buffers: int,
        wait: bool,
    ) -> bool {
        &&& wait ==> self.next_fence_value < u32::MAX
        &&& wait ==> (vram.allocation(FENCE_SIZE) matches Some(alloc) ==> vram.va_has_room(
            FENCE_SIZE,
        ) && vram.mapping_in_range(alloc))
        &&& channel.submit_in_range(
            dispatch_words(buffers, self.dispatch_fence(vram, wait) is Some),
        )
    }

    /// The engine after a dispatch: each fence takes a new value.
    pub open spec fn after_dispatch(self, wait: bool) -> ComputeEngine {
        let taken: int = if wait {
            1
        } else {
            0
        };
        ComputeEngine { next_fence_value: (self.next_fence_value + taken) as u32, ..self }
    }

    /// A new compute engine for the given GPU family.
    pub fn new(family: GpuFamily) -> (engine: Self)
        ensures
            engine == fresh_engine(family),
    {
        ComputeEngine {
            class_id: compute_class_for_family(family),
            family,
            subchannel: 0,
            next_fence_value: 1,
        }
    }

    /// Binds the compute class to a FIFO subchannel. This must be done once per
    /// channel before kernels are dispatched.
    pub fn bind_to_channel(&self, channel: &mut Channel, regs: &GpuRegs) -> (batch: CommandBatch)
        requires
            old(channel).submit_in_range(2),
        ensures
            batch.commands@ == self.class_commands(),
            batch.submission == old(channel).submission(*regs, 2),
            *final(channel) == old(channel).after_submit(2),
    {
        let mut commands: Vec<u32> = Vec::new();
        push_method(&mut commands, self.subchannel, 0x0000, self.class_id);
        let submission = channel.submit(regs, commands.as_slice());
        CommandBatch { commands, submission }
    }

    /// Whether a shader of `len` bytes can be loaded.
    pub fn can_load_shader(&self, allocator: &VramAllocator, len: usize) -> (in_range: bool)
        ensures
            in_range == load_in_range(allocator.model(), len as int),
    {
        let size: u64 = len as u64;
        if size > u64::MAX - 0xFFF {
            return false;
        }
        match allocator.preview(size) {
            Some(alloc) => allocator.has_va_room(size) && allocator.can_map(&alloc),
            None => true,
        }
    }

    /// Gives a compiled shader binary a place in VRAM and maps it to the CPU
    /// where the BAR1 aperture reaches it. [`ShaderProgram::upload`] copies the
    /// binary there.
    pub fn load_shader(
        &self,
        allocator: &mut VramAllocator,
        binary: &[u8],
        entry_offset: u32,
        shared_mem_size: u32,
        num_registers: u32,
    ) -> (shader: Option<ShaderProgram>)
        requires
            load_in_range(old(allocator).model(), binary@.len() as int),
        ensures
            shader == loaded_shader(
                old(allocator).model(),
                binary@.len() as u64,
                entry_offset,
                shared_mem_size,
                num_registers,
            ),
            final(allocator).model() == old(allocator).model().after_allocate(
                binary@.len() as u64,
            ),
    {
        let size: u64 = binary.len() as u64;
        let mut allocation: GpuAllocation = match allocator.allocate(size) {
            Some(allocation) => allocation,
            None => {
                return None;
            },
        };
        let _ = allocator.map_to_cpu(&mut allocation);
        Some(
            ShaderProgram {
                allocation,
                size,
                entry_offset,
                shared_mem_size,
                num_registers,
                num_const_buffers: 0,
            },
        )
    }

    /// Builds the push buffer commands that dispatch a compute kernel.
    pub fn build_dispatch_commands(
        &self,
        shader: &ShaderProgram,
        grid: GridDim,
        block: BlockDim,
        const_buffers: &[ConstantBufferBinding],
        fence: Option<&GpuFence>,
    ) -> (cmds: Vec<u32>)
        ensures
            cmds@ == dispatch_commands(
                self.subchannel,
                *shader,
                grid,
                block,
                const_buffers@,
                fence_value(fence),
            ),
    {
        let mut cmds: Vec<u32> = Vec::with_capacity(64);
        let sc: u32 = self.subchannel;
        let (region_hi, region_lo) = split_word(shader.allocation.gpu_va);
        push_method(&mut cmds, sc, NVC6C0_SET_PROGRAM_REGION_A, region_hi);
        push_method(&mut cmds, sc, NVC6C0_SET_PROGRAM_REGION_B, region_lo);
        push_method(&mut cmds, sc, NVC6C0_SET_SHADER_PROGRAM, shader.entry_offset);
        push_method(&mut cmds, sc, NVC6C0_SET_SHARED_MEMORY_SIZE, shader.shared_mem_size);
        let ghost selected = cmds@;
        assert(selected =~= shader_commands(sc, *shader));
        let mut i: usize = 0;
        while i < const_buffers.len()
            invariant
                i <= const_buffers@.len(),
                cmds@ == selected + bind_commands(sc, const_buffers@.take(i as int)),
            decreases const_buffers@.len() - i,
        {
            let ghost before = cmds@;
            let cb: ConstantBufferBinding = const_buffers[i];
            push_method(&mut cmds, sc, NVC6C0_CB_SELECTOR, cb.slot);
            push_method(
                &mut cmds,
                sc,
                NVC6C0_SET_CONSTANT_BUFFER_BIND,
                1 + cb.size % 0x2_0000 * 16,
            );
            proof {
                assert(const_buffers@.take(i + 1).drop_last() == const_buffers@.take(i as int));
                assert(cmds@ =~= selected + bind_commands(sc, const_buffers@.take(i + 1)));
            }
            i = i + 1;
        }
        assert(const_buffers@.take(const_buffers@.len() as int) == const_buffers@);
        let ghost bound = cmds@;
        push_method(&mut cmds, sc, NVC6C0_SET_BLOCK_DIM_X, block.x);
        push_method(&mut cmds, sc, NVC6C0_SET_BLOCK_DIM_Y, block.y);
        push_method(&mut cmds, sc, NVC6C0_SET_BLOCK_DIM_Z, block.z);
        push_method(&mut cmds, sc, NVC6C0_LAUNCH_DIM_X, grid.x);
        push_method(&mut cmds, sc, NVC6C0_LAUNCH_DIM_Y, grid.y);
        push_method(&mut cmds, sc, NVC6C0_LAUNCH_DIM_Z, grid.z);
        push_method(&mut cmds, sc, NVC6C0_LAUNCH, 0);
        assert(cmds@ =~= bound + launch_commands(sc, grid, block));
        let ghost launched = cmds@;
        if let Some(fence) = fence {
            let (fence_hi, fence_lo) = split_word(fence.allocation.gpu_va);
            push_method(&mut cmds, sc, NVC6C0_SET_REPORT_SEMAPHORE_A, fence_hi);
            push_method(&mut cmds, sc, NVC6C0_SET_REPORT_SEMAPHORE_B, fence_lo);
            push_method(&mut cmds, sc, NVC6C0_SET_REPORT_SEMAPHORE_C, fence.signal_value);
            push_method(&mut cmds, sc, NVC6C0_SET_REPORT_SEMAPHORE_D, 0x10004);
        }
        assert(cmds@ =~= launched + fence_commands(sc, fence_value(fence)));
        cmds
    }

    /// Whether a dispatch with `buffers` constant buffers can be made.
    pub fn can_dispatch(
        &self,
        channel: &Channel,
        allocator: &VramAllocator,
        buffers: usize,
        wait: bool,
    ) -> (in_range: bool)
        ensures
            in_range == self.dispatch_in_range(
                *channel,
                allocator.model(),
                buffers as int,
                wait,
            ),
    {
        let mut fence_words: u64 = 0;
        if wait {
            if self.next_fence_value == u32::MAX {
                return false;
            }
            if let Some(allocation) = allocator.preview(FENCE_SIZE) {
                if !allocator.has_va_room(FENCE_SIZE) || !allocator.can_map(&allocation) {
                    return false;
                }
                fence_words = 8;
            }
        }
        if buffers as u64 > u32::MAX as u64 {
            return true;
        }
        channel.can_submit(22 + 4 * buffers as u64 + fence_words)
    }

    /// Dispatches a compute kernel: builds its commands and submits them. If
    /// `wait` is set, a fence is allocated for it and mapped to the CPU.
    /// [`Dispatch::run`] then carries the dispatch out and waits for the fence.
    pub fn dispatch(
        &mut self,
        regs: &GpuRegs,
        channel: &mut Channel,
        shader: &ShaderProgram,
        grid: GridDim,
        block: BlockDim,
        const_buffers: &[ConstantBufferBinding],
        allocator: &mut VramAllocator,
        wait: bool,
    ) -> (dispatch: Dispatch)
        requires
            old(self).dispatch_in_range(
                *old(channel),
                old(allocator).model(),
                const_buffers@.len() as int,
                wait,
            ),
        ensures
            dispatch.fence == old(self).dispatch_fence(old(allocator).model(), wait),
            dispatch.commands@ == dispatch_commands(
                old(self).subchannel,
                *shader,
                grid,
                block,
                const_buffers@,
                dispatch.fence,
            ),
            dispatch.submission == old(channel).submission(
                *regs,
                dispatch.commands@.len() as int,
            ),
            *final(channel) == old(channel).after_submit(dispatch.commands@.len() as int),
            final(allocator).model() == if wait {
                old(allocator).model().after_allocate(FENCE_SIZE)
            } else {
                old(allocator).model()
            },
            *final(self) == old(self).after_dispatch(wait),
    {
        let fence: Option<GpuFence> = if wait {
            let value: u32 = self.next_fence_value;
            self.next_fence_value = value + 1;
            match GpuFence::new(allocator, value) {
                Some(mut fence) => {
                    let _ = allocator.map_to_cpu(&mut fence.allocation);
                    Some(fence)
                },
                None => None,
            }
        } else {
            None
        };
        proof {
            dispatch_command_count(
                self.subchannel,
                *shader,
                grid,
                block,
                const_buffers@,
                fence,
            );
        }
        let commands = self.build_dispatch_commands(
            shader,
            grid,
            block,
            const_buffers,
            fence.as_ref(),
        );
        assert(fence_value(match fence {
            Some(ref f) => Some(f),
            None => None,
        }) == fence);
        let submission = channel.submit(regs, commands.as_slice());
        Dispatch { commands, submission, fence }
    }
}

impl Dispatch {
    /// The accesses that put the kernel on its way: the semaphore of the fence
    /// is cleared, and the submission is carried out.
    pub open spec fn launch_accesses(self, channel: Channel) -> Seq<Access> {
        (match self.fence {
            Some(fence) => fence.clear_accesses(),
            None => seq![],
        }) + channel.place_accesses(self.submission->0, self.commands@)
    }

    /// The step of carrying out a dispatch: launch the kernel, then wait for
    /// the fence if there is one. A dispatch that did not fit the push buffer
    /// has failed.
    pub open spec fn run_step(self, channel: Channel, replies: Seq<u32>) -> Step<bool> {
        let launch = self.launch_accesses(channel);
        match self.submission {
            None => Step::Done { result: false, used: 0 },
            Some(_) => if replies.len() < launch.len() {
                Step::Next(launch[replies.len() as int])
            } else {
                match self.fence {
                    None => Step::Done { result: true, used: launch.len() as usize },
                    Some(fence) => match fence.wait_step(
                        DISPATCH_POLLS,
                        replies.skip(launch.len() as int),
                    ) {
                        Step::Next(access) => Step::Next(access),
                        Step::Done { result, used } => Step::Done {
                            result,
                            used: (launch.len() + used) as usize,
                        },
                    },
                }
            },
        }
    }

    /// Carries out a dispatch on its channel. Returns whether the kernel was
    /// submitted and, if it is to be waited for, has completed.
    pub fn run(&self, channel: &Channel, replies: &[u32]) -> (step: Step<bool>)
        requires
            self.submission matches Some(submission) ==> channel.place_in_range(
                submission,
                self.commands@.len() as int,
            ),
        ensures
            step == self.run_step(*channel, replies@),
    {
        let n: usize = replies.len();
        let submission: Submission = match self.submission {
            Some(submission) => submission,
            None => {
                return Step::Done { result: false, used: 0 };
            },
        };
        let ghost launch = self.launch_accesses(*channel);
        let ghost place = channel.place_accesses(submission, self.commands@);
        let mut at: usize = 0;
        if let Some(fence) = &self.fence {
            if n == 0 {
                return Step::Next(
                    Access::WriteVram { phys_addr: fence.allocation.phys_addr, word: 0 },
                );
            }
            at = 1;
        }
        at = match channel.place(&submission, self.commands.as_slice(), tail(replies, at)) {
            Step::Next(access) => {
                assert(launch[n as int] == place[n - at]);
                return Step::Next(access);
            },
            Step::Done { result: _, used } => at + used,
        };
        assert(at == launch.len());
        match &self.fence {
            None => Step::Done { result: true, used: at },
            Some(fence) => match fence.wait(DISPATCH_POLLS, tail(replies, at)) {
                Step::Next(access) => Step::Next(access),
                Step::Done { result, used } => Step::Done { result, used: at + used },
            },
        }
    }
}

/// Each recognized family has a compute class of its own.
pub proof fn families_have_distinct_classes(a: GpuFamily, b: GpuFamily)
    requires
        !(a is Unknown),
        !(b is Unknown),
        class_of(a) == class_of(b),
    ensures
        a == b,
{
}

proof fn lemma_bind_commands_len(sc: u32, buffers: Seq<ConstantBufferBinding>)
    ensures
        bind_commands(sc, buffers).len() == 4 * buffers.len(),
    decreases buffers.len(),
{
    if buffers.len() > 0 {
        lemma_bind_commands_len(sc, buffers.drop_last());
    }
}

/// A dispatch takes 22 command words, 4 for each constant buffer and 8 for a
/// fence.
pub proof fn dispatch_command_count(
    sc: u32,
    shader: ShaderProgram,
    grid: GridDim,
    block: BlockDim,
    buffers: Seq<ConstantBufferBinding>,
    fence: Option<GpuFence>,
)
    ensures
        dispatch_commands(sc, shader, grid, block, buffers, fence).len() == dispatch_words(
            buffers.len() as int,
            fence is Some,
        ),
{
    lemma_bind_commands_len(sc, buffers);
}

/// The launch comes after everything that configures the kernel and right
/// before the fence release, which ends the commands.
pub proof fn fence_release_follows_launch(
    sc: u32,
    shader: ShaderProgram,
    grid: GridDim,
    block: BlockDim,
    buffers: Seq<ConstantBufferBinding>,
    fence: GpuFence,
)
    ensures
        ({
            let commands = dispatch_commands(sc, shader, grid, block, buffers, Some(fence));
            let launch = 20 + 4 * buffers.len() as int;
            &&& commands.subrange(launch, launch + 2) == method(sc, NVC6C0_LAUNCH, 0)
            &&& commands.skip(launch + 2) == fence_commands(sc, Some(fence))
        }),
{
    lemma_bind_commands_len(sc, buffers);
    let commands = dispatch_commands(sc, shader, grid, block, buffers, Some(fence));
    let launch = 20 + 4 * buffers.len() as int;
    assert(commands.subrange(launch, launch + 2) =~= method(sc, NVC6C0_LAUNCH, 0));
    assert(commands.skip(launch + 2) =~= fence_commands(sc, Some(fence)));
}

/// The engine after a series of dispatches, each of which waits or not.
pub open spec fn after_dispatches(engine: ComputeEngine, waits: Seq<bool>) -> ComputeEngine
    decreases waits.len(),
{
    if waits.len() == 0 {
        engine
    } else {
        after_dispatches(engine, waits.drop_last()).after_dispatch(waits.last())
    }
}

proof fn lemma_fence_values_grow(engine: ComputeEngine, waits: Seq<bool>)
    requires
        engine.next_fence_value + waits.len() <= u32::MAX,
    ensures
        engine.next_fence_value <= after_dispatches(engine, waits).next_fence_value
            <= engine.next_fence_value + waits.len(),
    decreases waits.len(),
{
    if waits.len() > 0 {
        lemma_fence_values_grow(engine, waits.drop_last());
    }
}

/// The fences of any two dispatches have different signal values, whatever is
/// dispatched in between: the later value is the larger.
pub proof fn fences_have_distinct_values(
    engine: ComputeEngine,
    first: VramView,
    between: Seq<bool>,
    second: VramView,
)
    requires
        engine.next_fence_value + 1 + between.len() <= u32::MAX,
        engine.dispatch_fence(first, true) is Some,
        after_dispatches(engine.after_dispatch(true), between).dispatch_fence(second, true) is Some,
    ensures
        engine.dispatch_fence(first, true)->0.signal_value < after_dispatches(
            engine.after_dispatch(true),
            between,
        ).dispatch_fence(second, true)->0.signal_value,
{
    lemma_fence_values_grow(engine.after_dispatch(true), between);
}

/// Once a fence has been prepared, preparing it again asks for the same and
/// changes nothing. If the aperture reaches it, it is signaled exactly when its
/// semaphore reads as the signal value.
pub proof fn prepared_fence_follows_semaphore(
    fence: GpuFence,
    vram: VramView,
    replies: Seq<u32>,
)
    requires
        replies.len() > 0,
    ensures
        ({
            let prepared = fence.mapped(vram);
            &&& prepared.mapped(vram) == prepared
            &&& prepared.clear_accesses() == fence.clear_accesses()
            &&& vram.cpu_address(fence.allocation) is Some ==> {
                &&& prepared.signaled_step(seq![]) == Step::<bool>::Next(prepared.read_semaphore())
                &&& prepared.signaled_step(replies) == (Step::Done {
                    result: replies[0] == fence.signal_value,
                    used: 1,
                })
            }
        }),
{
}

/// A dispatch whose fence is mapped waits: once the kernel is launched it reads
/// the semaphore as long as that holds another value, and succeeds as soon as
/// it holds the signal value.
pub proof fn waited_dispatch_waits(dispatch: Dispatch, channel: Channel, replies: Seq<u32>)
    requires
        dispatch.submission is Some,
        dispatch.fence matches Some(fence) && fence.allocation.cpu_mapped,
        ({
            let launched = dispatch.launch_accesses(channel).len();
            &&& launched <= replies.len() < launched + DISPATCH_POLLS
            &&& forall|i: int|
                launched <= i < replies.len() ==> #[trigger] replies[i]
                    != dispatch.fence->0.signal_value
        }),
        replies.len() < usize::MAX,
    ensures
        dispatch.run_step(channel, replies) == Step::<bool>::Next(
            dispatch.fence->0.read_semaphore(),
        ),
        dispatch.run_step(channel, replies.push(dispatch.fence->0.signal_value)) == (Step::Done {
            result: true,
            used: (replies.len() + 1) as usize,
        }),
{
    let launched = dispatch.launch_accesses(channel).len() as int;
    let answered = replies.push(dispatch.fence->0.signal_value);
    if replies.len() > launched {
        assert(replies.skip(launched).last() == replies[replies.len() - 1]);
    }
    assert(answered.skip(launched).last() == dispatch.fence->0.signal_value);
}

/// Waiting on a mapped fence polls until the semaphore first holds the signal
/// value.
pub proof fn wait_ends_at_first_signal(fence: GpuFence, timeout: u64, replies: Seq<u32>, k: int)
    requires
        fence.allocation.cpu_mapped,
        0 <= k < replies.len(),
        k < timeout,
        forall|i: int| 0 <= i < k ==> #[trigger] replies[i] != fence.signal_value,
        replies[k] == fence.signal_value,
    ensures
        forall|i: int|
            0 <= i <= k ==> #[trigger] fence.wait_step(timeout, replies.take(i))
                == Step::<bool>::Next(fence.read_semaphore()),
        fence.wait_step(timeout, replies.take(k + 1)) == (Step::Done {
            result: true,
            used: (k + 1) as usize,
        }),
{
}

/// Waiting on a mapped fence that is never signaled fails after `timeout`
/// polls.
pub proof fn wait_times_out(fence: GpuFence, timeout: u64, replies: Seq<u32>)
    requires
        fence.allocation.cpu_mapped,
        replies.len() == timeout,
        forall|i: int| 0 <= i < replies.len() ==> #[trigger] replies[i] != fence.signal_value,
    ensures
        forall|i: int|
            0 <= i < timeout ==> #[trigger] fence.wait_step(timeout, replies.take(i))
                == Step::<bool>::Next(fence.read_semaphore()),
        fence.wait_step(timeout, replies) == (Step::Done {
            result: false,
            used: timeout as usize,
        }),
{
}

/// The compute class of each family. An unknown family is driven as Ampere.
pub proof fn compute_classes()
    ensures
        class_of(GpuFamily::Kepler) == 0xA0C0,
        class_of(GpuFamily::Maxwell) == 0xB0C0,
        class_of(GpuFamily::Pascal) == 0xC0C0,
        class_of(GpuFamily::Volta) == 0xC3C0,
        class_of(GpuFamily::Turing) == 0xC5C0,
        class_of(GpuFamily::Ampere) == 0xC6C0,
        class_of(GpuFamily::Ada) == 0xC9C0,
        class_of(GpuFamily::Unknown) == 0xC6C0,
{
}

/// Whether two words of a command list at `at` set a method of the subchannel:
/// an incrementing header with one argument, and the argument.
pub open spec fn sets_method(commands: Seq<u32>, at: int, sc: u32, method: u32, data: u32) -> bool {
    &&& commands[at] == 0x1001_0000 + sc % 8 * 0x2000 + method / 4
    &&& commands[at + 1] == data
}

/// A method with one argument takes two words, header first.
proof fn lemma_method(sc: u32, number: u32, data: u32)
    requires
        number < 0x8000,
    ensures
        method(sc, number, data).len() == 2,
        sets_method(method(sc, number, data), 0, sc, number, data),
{
    single_method_header(sc, number);
}

proof fn lemma_bind_words(sc: u32, buffers: Seq<ConstantBufferBinding>, i: int)
    requires
        0 <= i < buffers.len(),
    ensures
        ({
            let words = bind_commands(sc, buffers);
            &&& words.len() == 4 * buffers.len()
            &&& sets_method(words, 4 * i, sc, 0x2380, buffers[i].slot)
            &&& sets_method(words, 4 * i + 2, sc, 0x0AB0, bind_word(buffers[i].size))
        }),
    decreases buffers.len(),
{
    let rest = buffers.drop_last();
    lemma_bind_commands_len(sc, buffers);
    lemma_bind_commands_len(sc, rest);
    if i < rest.len() {
        lemma_bind_words(sc, rest, i);
    } else {
        lemma_method(sc, 0x2380, buffers.last().slot);
        lemma_method(sc, 0x0AB0, bind_word(buffers.last().size));
    }
}

/// A dispatch binds every constant buffer in turn, four words each behind the
/// first eight: the selector (0x2380) with the buffer's own slot, and the bind
/// method (0x0AB0) with a word that has bit 0 set, bits 1 to 3 clear and from
/// bit 4 on the low 17 bits of the buffer's own size.
pub proof fn dispatch_binds_each_buffer(
    sc: u32,
    shader: ShaderProgram,
    grid: GridDim,
    block: BlockDim,
    buffers: Seq<ConstantBufferBinding>,
    fence: Option<GpuFence>,
    i: int,
)
    requires
        0 <= i < buffers.len(),
    ensures
        ({
            let commands = dispatch_commands(sc, shader, grid, block, buffers, fence);
            let bind = commands[8 + 4 * i + 3];
            &&& commands[8 + 4 * i] == 0x1001_0000 + sc % 8 * 0x2000 + 0x2380int / 4
            &&& commands[8 + 4 * i + 1] == buffers[i].slot
            &&& commands[8 + 4 * i + 2] == 0x1001_0000 + sc % 8 * 0x2000 + 0x0AB0int / 4
            &&& bind % 16 == 1
            &&& bind / 16 == buffers[i].size % 0x2_0000
        }),
{
    let commands = dispatch_commands(sc, shader, grid, block, buffers, fence);
    let words = bind_commands(sc, buffers);
    lemma_bind_words(sc, buffers, i);
    assert(shader_commands(sc, shader).len() == 8);
    assert(commands[8 + 4 * i] == words[4 * i]);
    assert(commands[8 + 4 * i + 1] == words[4 * i + 1]);
    assert(commands[8 + 4 * i + 2] == words[4 * i + 2]);
    assert(commands[8 + 4 * i + 3] == words[4 * i + 3]);
}

/// A dispatch first gives the shader: its address in two halves (0x1608 and
/// 0x160C), its entry offset (0x2000) and its shared memory (0x204C).
pub proof fn dispatch_selects_the_shader(
    sc: u32,
    shader: ShaderProgram,
    grid: GridDim,
    block: BlockDim,
    buffers: Seq<ConstantBufferBinding>,
    fence: Option<GpuFence>,
)
    ensures
        ({
            let commands = dispatch_commands(sc, shader, grid, block, buffers, fence);
            &&& sets_method(commands, 0, sc, 0x1608, commands[1])
            &&& sets_method(commands, 2, sc, 0x160C, commands[3])
            &&& commands[1] * 0x1_0000_0000 + commands[3] == shader.allocation.gpu_va
            &&& sets_method(commands, 4, sc, 0x2000, shader.entry_offset)
            &&& sets_method(commands, 6, sc, 0x204C, shader.shared_mem_size)
        }),
{
    let words = shader_commands(sc, shader);
    let va = shader.allocation.gpu_va;
    lemma_method(sc, 0x1608, high_half(va));
    lemma_method(sc, 0x160C, low_half(va));
    lemma_method(sc, 0x2000, shader.entry_offset);
    lemma_method(sc, 0x204C, shader.shared_mem_size);
    assert(words.len() == 8);
    let commands = dispatch_commands(sc, shader, grid, block, buffers, fence);
    assert forall|k: int| 0 <= k < 8 implies commands[k] == words[k] by {}
}

/// Behind the buffers a dispatch gives the block's dimensions (0x2040 to
/// 0x2048), the grid's (0x2074 to 0x207C) and the launch (0x2080).
pub proof fn dispatch_launches_the_grid(
    sc: u32,
    shader: ShaderProgram,
    grid: GridDim,
    block: BlockDim,
    buffers: Seq<ConstantBufferBinding>,
    fence: Option<GpuFence>,
)
    ensures
        ({
            let commands = dispatch_commands(sc, shader, grid, block, buffers, fence);
            let at = 8 + 4 * buffers.len() as int;
            &&& sets_method(commands, at, sc, 0x2040, block.x)
            &&& sets_method(commands, at + 2, sc, 0x2044, block.y)
            &&& sets_method(commands, at + 4, sc, 0x2048, block.z)
            &&& sets_method(commands, at + 6, sc, 0x2074, grid.x)
            &&& sets_method(commands, at + 8, sc, 0x2078, grid.y)
            &&& sets_method(commands, at + 10, sc, 0x207C, grid.z)
            &&& sets_method(commands, at + 12, sc, 0x2080, 0)
            &&& fence is None ==> commands.len() == at + 14
        }),
{
    let commands = dispatch_commands(sc, shader, grid, block, buffers, fence);
    let at = 8 + 4 * buffers.len() as int;
    lemma_bind_commands_len(sc, buffers);
    let words = launch_commands(sc, grid, block);
    lemma_method(sc, 0x2040, block.x);
    lemma_method(sc, 0x2044, block.y);
    lemma_method(sc, 0x2048, block.z);
    lemma_method(sc, 0x2074, grid.x);
    lemma_method(sc, 0x2078, grid.y);
    lemma_method(sc, 0x207C, grid.z);
    lemma_method(sc, 0x2080, 0);
    assert(shader_commands(sc, shader).len() == 8);
    assert(words.len() == 14);
    assert forall|k: int| 0 <= k < 14 implies commands[at + k] == #[trigger] words[k] by {}
    assert(words[0] == commands[at] && words[1] == commands[at + 1]);
    assert(words[2] == commands[at + 2] && words[3] == commands[at + 3]);
    assert(words[4] == commands[at + 4] && words[5] == commands[at + 5]);
    assert(words[6] == commands[at + 6] && words[7] == commands[at + 7]);
    assert(words[8] == commands[at + 8] && words[9] == commands[at + 9]);
    assert(words[10] == commands[at + 10] && words[11] == commands[at + 11]);
    assert(words[12] == commands[at + 12] && words[13] == commands[at + 13]);
}

/// A fenced dispatch ends with the release: the fence's address in two halves
/// (0x1B00 and 0x1B04), its value (0x1B08) and a release of one word (0x1B0C).
pub proof fn dispatch_releases_the_fence(
    sc: u32,
    shader: ShaderProgram,
    grid: GridDim,
    block: BlockDim,
    buffers: Seq<ConstantBufferBinding>,
    fence: GpuFence,
)
    ensures
        ({
            let commands = dispatch_commands(sc, shader, grid, block, buffers, Some(fence));
            let at = 22 + 4 * buffers.len() as int;
            &&& commands.len() == at + 8
            &&& sets_method(commands, at, sc, 0x1B00, commands[at + 1])
            &&& sets_method(commands, at + 2, sc, 0x1B04, commands[at + 3])
            &&& commands[at + 1] * 0x1_0000_0000 + commands[at + 3] == fence.allocation.gpu_va
            &&& sets_method(commands, at + 4, sc, 0x1B08, fence.signal_value)
            &&& sets_method(commands, at + 6, sc, 0x1B0C, 0x1_0004)
        }),
{
    let commands = dispatch_commands(sc, shader, grid, block, buffers, Some(fence));
    let at = 22 + 4 * buffers.len() as int;
    lemma_bind_commands_len(sc, buffers);
    let words = fence_commands(sc, Some(fence));
    let va = fence.allocation.gpu_va;
    lemma_method(sc, 0x1B00, high_half(va));
    lemma_method(sc, 0x1B04, low_half(va));
    lemma_method(sc, 0x1B08, fence.signal_value);
    lemma_method(sc, 0x1B0C, 0x1_0004);
    assert(shader_commands(sc, shader).len() == 8);
    assert(launch_commands(sc, grid, block).len() == 14);
    assert(words.len() == 8);
    assert forall|k: int| 0 <= k < 8 implies commands[at + k] == #[trigger] words[k] by {}
    assert(words[0] == commands[at] && words[1] == commands[at + 1]);
    assert(words[2] == commands[at + 2] && words[3] == commands[at + 3]);
    assert(words[4] == commands[at + 4] && words[5] == commands[at + 5]);
    assert(words[6] == commands[at + 6] && words[7] == commands[at + 7]);
}

/// Two dispatches whose commands are the same launch the same shader on the
/// same grid and block, with the same slots bound.
pub proof fn commands_determine_the_launch(
    sc: u32,
    shader1: ShaderProgram,
    grid1: GridDim,
    block1: BlockDim,
    buffers1: Seq<ConstantBufferBinding>,
    shader2: ShaderProgram,
    grid2: GridDim,
    block2: BlockDim,
    buffers2: Seq<ConstantBufferBinding>,
)
    requires
        dispatch_commands(sc, shader1, grid1, block1, buffers1, None) == dispatch_commands(
            sc,
            shader2,
            grid2,
            block2,
            buffers2,
            None,
        ),
    ensures
        shader1.allocation.gpu_va == shader2.allocation.gpu_va,
        shader1.entry_offset == shader2.entry_offset,
        shader1.shared_mem_size == shader2.shared_mem_size,
        grid1 == grid2,
        block1 == block2,
        buffers1.len() == buffers2.len(),
        forall|i: int|
            0 <= i < buffers1.len() ==> #[trigger] buffers1[i].slot == buffers2[i].slot
                && buffers1[i].size % 0x2_0000 == buffers2[i].size % 0x2_0000,
{
    dispatch_selects_the_shader(sc, shader1, grid1, block1, buffers1, None);
    dispatch_selects_the_shader(sc, shader2, grid2, block2, buffers2, None);
    dispatch_launches_the_grid(sc, shader1, grid1, block1, buffers1, None);
    dispatch_launches_the_grid(sc, shader2, grid2, block2, buffers2, None);
    assert forall|i: int| 0 <= i < buffers1.len() implies #[trigger] buffers1[i].slot
        == buffers2[i].slot && buffers1[i].size % 0x2_0000 == buffers2[i].size % 0x2_0000 by {
        dispatch_binds_each_buffer(sc, shader1, grid1, block1, buffers1, None, i);
        dispatch_binds_each_buffer(sc, shader2, grid2, block2, buffers2, None, i);
    }
}

/// Binding an engine to a channel sets method 0 of its subchannel to its class.
pub proof fn binding_sets_the_class(engine: ComputeEngine)
    ensures
        engine.class_commands().len() == 2,
        engine.class_commands()[0] == 0x1001_0000 + engine.subchannel % 8 * 0x2000,
        engine.class_commands()[1] == engine.class_id,
{
    lemma_method(engine.subchannel, 0, engine.class_id);
}

/// A fresh engine drives its family's class on subchannel 0, and its fences
/// count from 1.
pub proof fn fresh_engine_counts_from_one(family: GpuFamily)
    ensures
        fresh_engine(family).class_id == class_of(family),
        fresh_engine(family).family == family,
        fresh_engine(family).subchannel == 0,
        fresh_engine(family).next_fence_value == 1,
{
}

/// A dispatch has a fence exactly if it waits and VRAM has room for one. The
/// fence has the engine's next value, which is then used up. Nothing else of
/// the engine changes, and without a wait nothing at all.
pub proof fn waiting_takes_a_fence_value(engine: ComputeEngine, vram: VramView)
    requires
        engine.next_fence_value < u32::MAX,
    ensures
        engine.dispatch_fence(vram, false) is None,
        engine.after_dispatch(false) == engine,
        engine.dispatch_fence(vram, true) is Some <==> vram.allocation(64) is Some,
        engine.dispatch_fence(vram, true) is Some ==> {
            let fence = engine.dispatch_fence(vram, true)->0;
            &&& fence.signal_value == engine.next_fence_value
            &&& fence.allocation == vram.mapped(vram.allocation(64)->0)
        },
        engine.after_dispatch(true).next_fence_value == engine.next_fence_value + 1,
        engine.after_dispatch(true) == (ComputeEngine {
            next_fence_value: engine.after_dispatch(true).next_fence_value,
            ..engine
        }),
{
}

/// A fence is allocated exactly if VRAM has room for 64 bytes, and carries the
/// value that it was given.
pub proof fn fence_carries_its_value(vram: VramView, signal_value: u32)
    ensures
        allocated_fence(vram, signal_value) is Some <==> vram.allocation(64) is Some,
        allocated_fence(vram, signal_value) matches Some(fence) ==> {
            &&& fence.signal_value == signal_value
            &&& Some(fence.allocation) == vram.allocation(64)
        },
{
}

/// A fence is cleared at its physical address and read where the CPU sees it.
/// It is signaled exactly if it reads its own value, and a fence that the CPU
/// cannot see never is.
pub proof fn fence_is_told_by_its_value(fence: GpuFence, timeout: u64, read: u32)
    ensures
        fence.clear_accesses() == seq![
            Access::WriteVram { phys_addr: fence.allocation.phys_addr, word: 0 },
        ],
        fence.read_semaphore() == (Access::ReadMemory { va: fence.allocation.cpu_va }),
        fence.allocation.cpu_mapped ==> {
            &&& fence.signaled_step(seq![]) == Step::<bool>::Next(fence.read_semaphore())
            &&& fence.signaled_step(seq![read]) == (Step::Done {
                result: read == fence.signal_value,
                used: 1,
            })
        },
        !fence.allocation.cpu_mapped ==> {
            &&& fence.signaled_step(seq![]) == (Step::Done { result: false, used: 0 })
            &&& fence.wait_step(timeout, seq![]) == (Step::Done { result: false, used: 0 })
        },
{
}

/// Mapping a fence changes its allocation only.
pub proof fn mapped_fence_keeps_its_value(fence: GpuFence, vram: VramView)
    ensures
        fence.mapped(vram).signal_value == fence.signal_value,
        fence.mapped(vram).allocation == vram.mapped(fence.allocation),
{
}

/// A dispatch that found no room in the push buffer fails at once. Any other
/// clears its fence, places its commands and rings the doorbell. Without a
/// fence it has then succeeded.
pub proof fn launch_order(dispatch: Dispatch, channel: Channel, replies: Seq<u32>, k: int)
    ensures
        dispatch.submission is None ==> dispatch.run_step(channel, replies) == (Step::Done {
            result: false,
            used: 0,
        }),
        dispatch.submission matches Some(submission) ==> {
            let place = channel.place_accesses(submission, dispatch.commands@);
            let launch = dispatch.launch_accesses(channel);
            let start: int = if dispatch.fence is Some {
                1
            } else {
                0
            };
            &&& launch.len() == start + place.len()
            &&& dispatch.fence matches Some(fence) ==> launch[0] == (Access::WriteVram {
                phys_addr: fence.allocation.phys_addr,
                word: 0,
            })
            &&& 0 <= k < place.len() ==> launch[start + k] == place[k]
            &&& replies.len() == k && 0 <= k < launch.len() ==> dispatch.run_step(channel, replies)
                == Step::<bool>::Next(launch[k])
            &&& dispatch.fence is None && replies.len() >= launch.len() ==> dispatch.run_step(
                channel,
                replies,
            ) == (Step::Done { result: true, used: launch.len() as usize })
        },
{
}

/// A fenced dispatch gives up once ten million reads did not give its value.
pub proof fn waited_dispatch_times_out(dispatch: Dispatch, channel: Channel, replies: Seq<u32>)
    requires
        dispatch.submission is Some,
        dispatch.fence matches Some(fence) && fence.allocation.cpu_mapped,
        replies.len() == dispatch.launch_accesses(channel).len() + 10_000_000,
        replies.len() <= usize::MAX,
        replies.last() != dispatch.fence->0.signal_value,
    ensures
        dispatch.run_step(channel, replies) == (Step::Done {
            result: false,
            used: replies.len() as usize,
        }),
{
    let launched = dispatch.launch_accesses(channel).len() as int;
    assert(replies.skip(launched).last() == replies.last());
}

/// A shader is loaded exactly if VRAM has room for its binary, and carries what
/// it was loaded with.
pub proof fn loaded_shader_carries_its_arguments(
    vram: VramView,
    size: u64,
    entry_offset: u32,
    shared_mem_size: u32,
    num_registers: u32,
)
    ensures
        ({
            let loaded = loaded_shader(vram, size, entry_offset, shared_mem_size, num_registers);
            &&& loaded is Some <==> vram.allocation(size) is Some
            &&& loaded matches Some(shader) ==> {
                &&& shader.allocation == vram.mapped(vram.allocation(size)->0)
                &&& shader.size == size
                &&& shader.entry_offset == entry_offset
                &&& shader.shared_mem_size == shared_mem_size
                &&& shader.num_registers == num_registers
                &&& shader.num_const_buffers == 0
            }
        }),
{
}

/// A shader's binary is written byte by byte to where the CPU sees it, and not
/// at all where the CPU does not.
pub proof fn shader_upload_writes_the_binary(
    shader: ShaderProgram,
    binary: Seq<u8>,
    replies: Seq<u32>,
)
    requires
        shader.allocation.cpu_mapped ==> addressable(
            shader.allocation.cpu_va,
            binary.len() as int,
        ),
    ensures
        !shader.allocation.cpu_mapped ==> shader.upload_step(binary, replies) == (Step::Done {
            result: false,
            used: 0,
        }),
        shader.allocation.cpu_mapped && replies.len() < binary.len() ==> shader.upload_step(
            binary,
            replies,
        ) == Step::<bool>::Next(
            Access::WriteByte {
                va: (shader.allocation.cpu_va + replies.len()) as u64,
                byte: binary[replies.len() as int],
            },
        ),
        shader.allocation.cpu_mapped && replies.len() >= binary.len() ==> shader.upload_step(
            binary,
            replies,
        ) == (Step::Done { result: true, used: binary.len() as usize }),
{
}

/// The numbers of the compute class's methods, and how a fence is waited for.
pub proof fn compute_method_map()
    ensures
        NVC6C0_SET_SHADER_LOCAL_MEMORY_A == 0x0790 && NVC6C0_SET_SHADER_LOCAL_MEMORY_B == 0x0794,
        NVC6C0_SET_CONSTANT_BUFFER_BIND == 0x0AB0,
        NVC6C0_CB_SELECTOR == 0x2380 && NVC6C0_CB_POS == 0x2384 && NVC6C0_CB_DATA == 0x2388,
        NVC6C0_SET_PROGRAM_REGION_A == 0x1608 && NVC6C0_SET_PROGRAM_REGION_B == 0x160C,
        NVC6C0_SET_SHADER_PROGRAM == 0x2000 && NVC6C0_SET_SHARED_MEMORY_SIZE == 0x204C,
        NVC6C0_SET_BLOCK_DIM_X == 0x2040 && NVC6C0_SET_BLOCK_DIM_Y == 0x2044,
        NVC6C0_SET_BLOCK_DIM_Z == 0x2048,
        NVC6C0_LAUNCH_DIM_X == 0x2074 && NVC6C0_LAUNCH_DIM_Y == 0x2078,
        NVC6C0_LAUNCH_DIM_Z == 0x207C && NVC6C0_LAUNCH == 0x2080,
        NVC6C0_SET_REPORT_SEMAPHORE_A == 0x1B00 && NVC6C0_SET_REPORT_SEMAPHORE_B == 0x1B04,
        NVC6C0_SET_REPORT_SEMAPHORE_C == 0x1B08 && NVC6C0_SET_REPORT_SEMAPHORE_D == 0x1B0C,
        FENCE_SIZE == 64 && DISPATCH_POLLS == 10_000_000,
{
}

/// A dispatch is in range if the engine has a fence value left, the fence can
/// be allocated and mapped, and the channel can take the commands. Without a
/// wait only the channel counts.
pub proof fn dispatch_range(
    engine: ComputeEngine,
    channel: Channel,
    vram: VramView,
    buffers: nat,
    wait: bool,
)
    requires
        channel.wf(),
    ensures
        !wait ==> engine.dispatch_in_range(channel, vram, buffers as int, wait),
        wait && engine.next_fence_value < u32::MAX && vram.allocation(64) is None
            ==> engine.dispatch_in_range(channel, vram, buffers as int, wait),
        wait && engine.next_fence_value < u32::MAX && vram.allocation(64) is Some
            && vram.va_has_room(64) && vram.mapping_in_range(vram.allocation(64)->0)
            ==> engine.dispatch_in_range(channel, vram, buffers as int, wait),
{
}

/// A shader can be loaded if VRAM has no room for it, or has room with
/// addresses left and a mapping in range.
pub proof fn load_range(vram: VramView, len: nat)
    ensures
        load_in_range(vram, len as int) <==> {
            &&& len <= 0xFFFF_FFFF_FFFF_F000
            &&& vram.allocation(len as u64) is None || vram.va_has_room(len as u64)
                && vram.mapping_in_range(vram.allocation(len as u64)->0)
        },
{
}

} // verus!

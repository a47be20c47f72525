//! A VRAM allocator that several users share behind a spin lock.
//!
//! What an operation finds under the lock depends on what the other users have
//! done before, so its contract speaks of some well-formed allocator that it
//! found there. The operations themselves are those of [`VramAllocator`]. What
//! is known of the VRAM and its BAR1 aperture never change and are kept outside
//! the lock, so that what rests on them alone is stated exactly.

use vstd::prelude::*;
use crate::access::{perform, Step};
use crate::compute::{
    allocated_fence, dispatch_commands, load_in_range, loaded_shader, BlockDim, ComputeEngine,
    ConstantBufferBinding, Dispatch, GpuFence, GridDim, ShaderProgram, FENCE_SIZE,
};
use crate::fifo::{allocated_channel, Channel, Runlist, RunlistUpdate};
use crate::memory::{Bar1Aperture, GpuAllocation, VramAllocator, VramInfo, VramView};
use crate::mmio::GpuRegs;
use crate::tensor::{
    after_transfer, download_step, filled, transfer_in_range, upload_step, DType,
    TensorDescriptor, TensorEngine,
};

verus! {

/// The relax strategy of the `spin` crate's mutex, which only marks its type.
#[verifier::external_type_specification]
#[verifier::external_body]
pub struct ExSpin(spin::relax::Spin);

/// The mutex of the `spin` crate. Verus sees nothing inside it.
#[verifier::external_type_specification]
#[verifier::external_body]
#[verifier::reject_recursive_types(T)]
#[verifier::reject_recursive_types(R)]
pub struct ExMutex<T: ?Sized, R>(spin::mutex::Mutex<T, R>);

/// The guard of the `spin` crate's mutex. Verus sees nothing inside it.
#[verifier::external_type_specification]
#[verifier::external_body]
#[verifier::reject_recursive_types(T)]
pub struct ExMutexGuard<'a, T: 'a + ?Sized>(spin::mutex::MutexGuard<'a, T>);

/// The allocator that a mutex held when it was made. What it holds later is
/// another matter: this name says nothing of it.
pub uninterp spec fn made_with(mutex: spin::mutex::Mutex<VramAllocator>) -> VramView;

/// Wraps an allocator in a mutex with `spin::mutex::Mutex::new`, which makes a
/// mutex that holds its argument.
#[verifier::external_body]
fn new_mutex(vram: VramAllocator) -> (mutex: spin::mutex::Mutex<VramAllocator>)
    ensures
        made_with(mutex) == vram.model(),
{
    spin::mutex::Mutex::new(vram)
}

/// Locks a mutex with `spin::mutex::Mutex::lock`, which spins until whoever
/// holds the lock has dropped its guard. Nothing is claimed of what is found
/// under the lock.
#[verifier::external_body]
fn lock_mutex<'a>(mutex: &'a spin::mutex::Mutex<VramAllocator>) -> (guard:
    spin::mutex::MutexGuard<'a, VramAllocator>) {
    mutex.lock()
}

/// Borrows the allocator behind a guard with the `deref_mut` of
/// `spin::mutex::MutexGuard`. Nothing is claimed of the allocator.
#[verifier::external_body]
fn locked<'a, 'b>(guard: &'a mut spin::mutex::MutexGuard<'b, VramAllocator>) -> (vram:
    &'a mut VramAllocator) {
    &mut *guard
}

/// Borrows the allocator behind a guard, which is well formed like every other,
/// and has it use the aperture that is kept outside the lock.
fn found<'a, 'b>(
    guard: &'a mut spin::mutex::MutexGuard<'b, VramAllocator>,
    aperture: Bar1Aperture,
) -> (vram: &'a mut VramAllocator)
    ensures
        vram.model().wf(),
        vram.model().aperture() == aperture,
{
    let vram = locked(guard);
    vram.set_aperture(aperture);
    vram
}

/// A VRAM allocator behind a spin lock.
pub struct SharedVramAllocator {
    mutex: spin::mutex::Mutex<VramAllocator>,
    info: VramInfo,
    aperture: Bar1Aperture,
}

impl SharedVramAllocator {
    /// The allocator as it was when sharing began.
    pub closed spec fn initial(&self) -> VramView {
        made_with(self.mutex)
    }

    /// Whether an operation may come upon the allocator `vram`: a well-formed one
    /// with the aperture that sharing began with.
    pub open spec fn may_find(&self, vram: VramView) -> bool {
        vram.wf() && vram.aperture() == self.initial().aperture()
    }

    #[verifier::type_invariant]
    closed spec fn inv(self) -> bool {
        &&& self.info.deep_view() == self.initial().info
        &&& self.aperture == self.initial().aperture()
    }

    /// Shares an allocator.
    pub fn new(vram: VramAllocator) -> (shared: Self)
        ensures
            shared.initial() == vram.model(),
    {
        let info = VramInfo {
            total_bytes: vram.info().total_bytes,
            mem_type: vram.info().mem_type,
            bus_width: vram.info().bus_width,
            partitions: vram.info().partitions,
            description: vram.info().description.clone(),
        };
        let aperture = vram.aperture();
        SharedVramAllocator { mutex: new_mutex(vram), info, aperture }
    }

    /// What is known of the VRAM.
    pub fn info(&self) -> (info: &VramInfo)
        ensures
            info.deep_view() == self.initial().info,
    {
        proof {
            use_type_invariant(self);
        }
        &self.info
    }

    /// The BAR1 aperture through which the CPU reaches VRAM.
    pub fn aperture(&self) -> (aperture: Bar1Aperture)
        ensures
            aperture == self.initial().aperture(),
    {
        proof {
            use_type_invariant(self);
        }
        self.aperture
    }

    /// Allocates a page-aligned block of VRAM. Returns `None` if no free region
    /// has room for it, or if the GPU virtual address space has not.
    pub fn allocate(&self, size: u64) -> (alloc: Option<GpuAllocation>)
        ensures
            exists|found: VramView| #[trigger]
                self.may_find(found) && alloc == if found.in_address_space(size) {
                    found.allocation(size)
                } else {
                    None
                },
    {
        let mut guard = lock_mutex(&self.mutex);
        let vram = found(&mut guard, self.aperture());
        assert(self.may_find(vram.model()));
        vram.try_allocate(size)
    }

    /// Frees a VRAM allocation. The bump allocator does not reclaim memory.
    pub fn free(&self, alloc: &GpuAllocation) {
        let mut guard = lock_mutex(&self.mutex);
        found(&mut guard, self.aperture()).free(alloc);
    }

    /// Maps a VRAM allocation for CPU access through the BAR1 aperture. Returns
    /// `None`, and leaves the allocation as it is, if the aperture does not
    /// reach it or its address is out of range.
    pub fn map_to_cpu(&self, alloc: &mut GpuAllocation) -> (cpu_va: Option<u64>)
        ensures
            self.initial().mapping_in_range(*old(alloc)) ==> {
                &&& cpu_va == self.initial().cpu_address(*old(alloc))
                &&& *final(alloc) == self.initial().mapped(*old(alloc))
            },
            !self.initial().mapping_in_range(*old(alloc)) ==> {
                &&& cpu_va is None
                &&& *final(alloc) == *old(alloc)
            },
    {
        let aperture = self.aperture();
        if aperture.can_map(alloc) {
            aperture.map(alloc)
        } else {
            None
        }
    }

    /// Sets up a DMA mapping through which the GPU reaches system memory. Returns
    /// its GPU virtual address, or `None` if the address space has no room.
    pub fn map_system_memory(&self, system_phys_addr: u64, size: u64) -> (gpu_va: Option<u64>)
        ensures
            exists|found: VramView| #[trigger]
                self.may_find(found) && gpu_va == if found.in_address_space(size) {
                    Some(found.next_gpu_va as u64)
                } else {
                    None
                },
    {
        let mut guard = lock_mutex(&self.mutex);
        let vram = found(&mut guard, self.aperture());
        assert(self.may_find(vram.model()));
        vram.try_map_system_memory(system_phys_addr, size)
    }

    /// Allocates a channel with its GPFIFO ring and push buffer in VRAM. Returns
    /// `None` if there is no room for them, or no doorbell for the channel.
    pub fn allocate_channel(&self, channel_id: u32, engine_id: u32) -> (channel: Option<Channel>)
        ensures
            exists|found: VramView| #[trigger]
                self.may_find(found) && channel == if Channel::allocate_in_range(found, channel_id) {
                    allocated_channel(found, channel_id, engine_id)
                } else {
                    None
                },
    {
        let mut guard = lock_mutex(&self.mutex);
        let vram = found(&mut guard, self.aperture());
        assert(self.may_find(vram.model()));
        if Channel::can_allocate(vram, channel_id) {
            Channel::allocate(vram, channel_id, engine_id)
        } else {
            None
        }
    }

    /// Allocates a new fence. Returns `None` if there is no room for it.
    pub fn allocate_fence(&self, signal_value: u32) -> (fence: Option<GpuFence>)
        ensures
            exists|found: VramView| #[trigger]
                self.may_find(found) && fence == if found.in_address_space(FENCE_SIZE) {
                    allocated_fence(found, signal_value)
                } else {
                    None
                },
    {
        let mut guard = lock_mutex(&self.mutex);
        let vram = found(&mut guard, self.aperture());
        assert(self.may_find(vram.model()));
        if vram.has_va_room(FENCE_SIZE) {
            GpuFence::new(vram, signal_value)
        } else {
            None
        }
    }

    /// Gives a compiled shader binary a place in VRAM. Returns `None` if there is
    /// no room for it, or if its address is out of range.
    pub fn load_shader(
        &self,
        compute: &ComputeEngine,
        binary: &[u8],
        entry_offset: u32,
        shared_mem_size: u32,
        num_registers: u32,
    ) -> (shader: Option<ShaderProgram>)
        ensures
            exists|found: VramView| #[trigger]
                self.may_find(found) && shader == if load_in_range(found, binary@.len() as int) {
                    loaded_shader(
                        found,
                        binary@.len() as u64,
                        entry_offset,
                        shared_mem_size,
                        num_registers,
                    )
                } else {
                    None
                },
    {
        let mut guard = lock_mutex(&self.mutex);
        let vram = found(&mut guard, self.aperture());
        assert(self.may_find(vram.model()));
        if compute.can_load_shader(vram, binary.len()) {
            compute.load_shader(vram, binary, entry_offset, shared_mem_size, num_registers)
        } else {
            None
        }
    }

    /// Commits a runlist to VRAM. Returns `None`, and leaves the runlist as it
    /// is, if it is empty, if there is no room for it, or if an address is out of
    /// range.
    pub fn commit_runlist(&self, runlist: &mut Runlist, regs: &GpuRegs) -> (update: Option<
        RunlistUpdate,
    >)
        ensures
            exists|found: VramView| #[trigger]
                self.may_find(found) && if old(runlist).commit_in_range(found) {
                    old(runlist).commits_to(found, *regs, *final(runlist), update)
                } else {
                    update is None && *final(runlist) == *old(runlist)
                },
    {
        let mut guard = lock_mutex(&self.mutex);
        let vram = found(&mut guard, self.aperture());
        assert(self.may_find(vram.model()));
        if runlist.can_commit(vram) {
            runlist.commit(regs, vram)
        } else {
            None
        }
    }

    /// Allocates a tensor in VRAM. Returns `None`, and leaves the engine as it
    /// is, if there is no room for it, or if a size is out of range.
    pub fn allocate_tensor(
        &self,
        tensors: &mut TensorEngine,
        name: &str,
        shape: &[usize],
        dtype: DType,
    ) -> (tensor: Option<TensorDescriptor>)
        ensures
            exists|found: VramView| #[trigger]
                self.may_find(found) && if old(tensors).allocate_in_range(found, shape@, dtype) {
                    old(tensors).allocates(found, name@, shape@, dtype, *final(tensors), tensor)
                } else {
                    tensor is None && *final(tensors) == *old(tensors)
                },
    {
        let mut guard = lock_mutex(&self.mutex);
        let vram = found(&mut guard, self.aperture());
        assert(self.may_find(vram.model()));
        if tensors.can_allocate_tensor(vram, shape, dtype) {
            tensors.allocate_tensor(vram, name, shape, dtype)
        } else {
            None
        }
    }

    /// Frees a tensor and releases its VRAM.
    pub fn free_tensor(&self, tensors: &mut TensorEngine, tensor: TensorDescriptor)
        requires
            old(tensors).total_allocated >= tensor.size_bytes,
            old(tensors).tensor_count >= 1,
        ensures
            *final(tensors) == old(tensors).without_tensor(tensor.size_bytes),
    {
        let mut guard = lock_mutex(&self.mutex);
        tensors.free_tensor(found(&mut guard, self.aperture()), tensor);
    }

    /// Uploads data from system RAM to a tensor in VRAM, like
    /// [`TensorEngine::upload`]. An address that is out of range makes it fail.
    pub fn upload(
        &self,
        tensors: &TensorEngine,
        tensor: &mut TensorDescriptor,
        data: &[u8],
        replies: &[u32],
    ) -> (step: Step<bool>)
        ensures
            ({
                let aperture = self.initial().aperture();
                let before = old(tensor).deep_view();
                let len = data@.len() as int;
                &&& transfer_in_range(aperture, before, len) ==> {
                    &&& step == upload_step(aperture, before, data@, replies@)
                    &&& final(tensor).deep_view() == after_transfer(aperture, before, len)
                }
                &&& !transfer_in_range(aperture, before, len) ==> {
                    &&& step == (Step::Done { result: false, used: 0 })
                    &&& final(tensor).deep_view() == before
                }
            }),
    {
        let aperture = self.aperture();
        if tensors.check_transfer_through(&aperture, tensor, data.len()) {
            tensors.upload_through(&aperture, tensor, data, replies)
        } else {
            Step::Done { result: false, used: 0 }
        }
    }

    /// Downloads data from a tensor in VRAM to system RAM, like
    /// [`TensorEngine::download`]. An address that is out of range makes it fail.
    pub fn download(
        &self,
        tensors: &TensorEngine,
        tensor: &mut TensorDescriptor,
        buffer: &mut [u8],
        replies: &[u32],
    ) -> (step: Step<bool>)
        ensures
            ({
                let aperture = self.initial().aperture();
                let before = old(tensor).deep_view();
                let len = old(buffer)@.len();
                &&& transfer_in_range(aperture, before, len as int) ==> {
                    &&& step == download_step(aperture, before, len, replies@)
                    &&& final(buffer)@ == filled(step, old(buffer)@, replies@)
                    &&& final(tensor).deep_view() == after_transfer(aperture, before, len as int)
                }
                &&& !transfer_in_range(aperture, before, len as int) ==> {
                    &&& step == (Step::Done { result: false, used: 0 })
                    &&& final(buffer)@ == old(buffer)@
                    &&& final(tensor).deep_view() == before
                }
            }),
    {
        let aperture = self.aperture();
        if tensors.check_transfer_through(&aperture, tensor, buffer.len()) {
            tensors.download_through(&aperture, tensor, buffer, replies)
        } else {
            Step::Done { result: false, used: 0 }
        }
    }

    /// Maps a fence to the CPU and clears its semaphore, like
    /// [`GpuFence::prepare`]. An address that is out of range makes it fail.
    pub fn prepare_fence(&self, fence: &mut GpuFence, replies: &[u32]) -> (step: Step<bool>)
        ensures
            self.initial().mapping_in_range(old(fence).allocation) ==> {
                &&& step == perform(
                    old(fence).clear_accesses(),
                    replies@,
                    self.initial().cpu_address(old(fence).allocation) is Some,
                )
                &&& *final(fence) == old(fence).mapped(self.initial())
            },
            !self.initial().mapping_in_range(old(fence).allocation) ==> {
                &&& step == (Step::Done { result: false, used: 0 })
                &&& *final(fence) == *old(fence)
            },
    {
        let aperture = self.aperture();
        if aperture.can_map(&fence.allocation) {
            fence.prepare_through(&aperture, replies)
        } else {
            Step::Done { result: false, used: 0 }
        }
    }

    /// Dispatches a compute kernel, with a fence of this allocator if `wait` is
    /// set. Returns `None`, and changes nothing, if a sum is out of range.
    pub fn dispatch(
        &self,
        compute: &mut ComputeEngine,
        regs: &GpuRegs,
        channel: &mut Channel,
        shader: &ShaderProgram,
        grid: GridDim,
        block: BlockDim,
        const_buffers: &[ConstantBufferBinding],
        wait: bool,
    ) -> (dispatch: Option<Dispatch>)
        ensures
            exists|found: VramView| #[trigger]
                self.may_find(found) && if old(compute).dispatch_in_range(
                    *old(channel),
                    found,
                    const_buffers@.len() as int,
                    wait,
                ) {
                    &&& dispatch is Some
                    &&& dispatch->0.fence == old(compute).dispatch_fence(found, wait)
                    &&& dispatch->0.commands@ == dispatch_commands(
                        old(compute).subchannel,
                        *shader,
                        grid,
                        block,
                        const_buffers@,
                        dispatch->0.fence,
                    )
                    &&& dispatch->0.submission == old(channel).submission(
                        *regs,
                        dispatch->0.commands@.len() as int,
                    )
                    &&& *final(channel) == old(channel).after_submit(
                        dispatch->0.commands@.len() as int,
                    )
                    &&& *final(compute) == old(compute).after_dispatch(wait)
                } else {
                    &&& dispatch is None
                    &&& *final(channel) == *old(channel)
                    &&& *final(compute) == *old(compute)
                },
    {
        let mut guard = lock_mutex(&self.mutex);
        let vram = found(&mut guard, self.aperture());
        assert(self.may_find(vram.model()));
        if compute.can_dispatch(channel, vram, const_buffers.len(), wait) {
            Some(compute.dispatch(regs, channel, shader, grid, block, const_buffers, vram, wait))
        } else {
            None
        }
    }
}

} // verus!

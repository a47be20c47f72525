//! Tensors in VRAM and the launch geometry of the operations on them.

use vstd::prelude::*;
use vstd::string::*;
use crate::access::{perform, Access, Step};
use crate::compute::{BlockDim, ComputeEngine, GridDim};
use crate::fifo::Channel;
use crate::memory::{Bar1Aperture, GpuAllocation, VramAllocator, VramView};
use crate::mmio::GpuRegs;
use crate::text::{
    all_digits, append_decimal, append_hex, append_list, decimal, decimal_list, decimal_reads_back,
    hex, hex_reads_back, number_of,
};
use crate::transfer::{
    addressable, copy_in, copy_in_accesses, copy_out, copy_out_accesses, copy_round_trip,
    is_addressable, memory_after_all, reads_from, received,
};

verus! {

/// Data type for tensor elements.
#[derive(Debug, Clone, Copy, PartialEq, Eq, Structural)]
pub enum DType {
    /// 32-bit floating point (4 bytes)
    Float32,
    /// 16-bit floating point (2 bytes)
    Float16,
    /// Brain float 16 (2 bytes)
    BFloat16,
    /// 8-bit signed integer (1 byte)
    Int8,
    /// 4-bit integer (packed, 2 elements per byte)
    Int4,
}

impl DType {
    /// Size in bytes per element. Int4 counts as 1, though it is packed.
    pub open spec fn bytes_per_element(self) -> usize {
        match self {
            DType::Float32 => 4,
            DType::Float16 => 2,
            DType::BFloat16 => 2,
            DType::Int8 => 1,
            DType::Int4 => 1,
        }
    }

    /// Bytes that `elements` elements take.
    pub open spec fn size_of(self, elements: int) -> int {
        if self is Int4 {
            (elements + 1) / 2
        } else {
            elements * self.bytes_per_element()
        }
    }

    /// The display name of the type.
    pub open spec fn display_name(self) -> Seq<char> {
        match self {
            DType::Float32 => "fp32"@,
            DType::Float16 => "fp16"@,
            DType::BFloat16 => "bf16"@,
            DType::Int8 => "int8"@,
            DType::Int4 => "int4"@,
        }
    }

    /// Size in bytes per element. Int4 returns 1, though it is packed.
    pub fn element_size(&self) -> (size: usize)
        ensures
            size == self.bytes_per_element(),
    {
        match self {
            DType::Float32 => 4,
            DType::Float16 => 2,
            DType::BFloat16 => 2,
            DType::Int8 => 1,
            DType::Int4 => 1,
        }
    }

    /// The display name of the type.
    pub fn name(&self) -> (name: &'static str)
        ensures
            name@ == self.display_name(),
    {
        match self {
            DType::Float32 => "fp32",
            DType::Float16 => "fp16",
            DType::BFloat16 => "bf16",
            DType::Int8 => "int8",
            DType::Int4 => "int4",
        }
    }
}

/// The product of all dimensions.
pub open spec fn product(shape: Seq<usize>) -> int
    decreases shape.len(),
{
    if shape.len() == 0 {
        1
    } else {
        product(shape.drop_last()) * shape.last()
    }
}

/// The product of the dimensions from `from` on.
pub open spec fn product_from(shape: Seq<usize>, from: int) -> int
    decreases shape.len() - from,
{
    if from >= shape.len() {
        1
    } else {
        product_from(shape, from + 1) * shape[from]
    }
}

/// Row-major strides: the stride of a dimension is the product of the
/// dimensions after it.
pub open spec fn row_major_strides(shape: Seq<usize>) -> Seq<usize> {
    Seq::new(shape.len(), |i: int| product_from(shape, i + 1) as usize)
}

/// Whether multiplying up the dimensions from the first on stays in range.
pub open spec fn leading_products_fit(shape: Seq<usize>) -> bool {
    forall|k: int| 0 <= k <= shape.len() ==> #[trigger] product(shape.take(k)) <= usize::MAX
}

/// Whether multiplying up the dimensions from the last on stays in range.
pub open spec fn trailing_products_fit(shape: Seq<usize>) -> bool {
    forall|k: int| 0 <= k <= shape.len() ==> #[trigger] product_from(shape, k) <= usize::MAX
}

/// A tensor stored in VRAM.
#[derive(Debug)]
pub struct TensorDescriptor {
    /// Human-readable name.
    pub name: String,
    /// Shape dimensions.
    pub shape: Vec<usize>,
    /// Strides in elements (row-major).
    pub strides: Vec<usize>,
    /// Data type.
    pub dtype: DType,
    /// Allocation that backs this tensor.
    pub allocation: GpuAllocation,
    /// Total number of elements.
    pub num_elements: usize,
    /// Total size in bytes.
    pub size_bytes: u64,
}

/// The model of a tensor.
pub struct TensorView {
    pub name: Seq<char>,
    pub shape: Seq<usize>,
    pub strides: Seq<usize>,
    pub dtype: DType,
    pub allocation: GpuAllocation,
    pub num_elements: usize,
    pub size_bytes: u64,
}

impl DeepView for TensorDescriptor {
    type V = TensorView;

    open spec fn deep_view(&self) -> TensorView {
        TensorView {
            name: self.name@,
            shape: self.shape@,
            strides: self.strides@,
            dtype: self.dtype,
            allocation: self.allocation,
            num_elements: self.num_elements,
            size_bytes: self.size_bytes,
        }
    }
}

/// The tensor of the given name, shape and type in an allocation.
pub open spec fn described_tensor(
    name: Seq<char>,
    shape: Seq<usize>,
    dtype: DType,
    allocation: GpuAllocation,
) -> TensorView {
    TensorView {
        name,
        shape,
        strides: row_major_strides(shape),
        dtype,
        allocation,
        num_elements: product(shape) as usize,
        size_bytes: dtype.size_of(product(shape)) as u64,
    }
}

impl TensorDescriptor {
    /// Row-major strides for a shape.
    pub fn compute_strides(shape: &[usize]) -> (strides: Vec<usize>)
        requires
            trailing_products_fit(shape@),
        ensures
            strides@ == row_major_strides(shape@),
    {
        let n: usize = shape.len();
        let mut strides: Vec<usize> = vec![1usize; n];
        let mut stride: usize = 1;
        let mut i: usize = n;
        while i > 0
            invariant
                n == shape@.len(),
                i <= n,
                strides@.len() == n,
                trailing_products_fit(shape@),
                stride == product_from(shape@, i as int),
                forall|j: int|
                    i <= j < n ==> #[trigger] strides@[j] == product_from(shape@, j + 1) as usize,
            decreases i,
        {
            i = i - 1;
            strides[i] = stride;
            assert(product_from(shape@, i as int) <= usize::MAX);
            stride = stride * shape[i];
        }
        strides
    }

    /// Total number of elements of a shape.
    pub fn total_elements(shape: &[usize]) -> (elements: usize)
        requires
            leading_products_fit(shape@),
        ensures
            elements == product(shape@),
    {
        let mut elements: usize = 1;
        let mut i: usize = 0;
        while i < shape.len()
            invariant
                i <= shape@.len(),
                leading_products_fit(shape@),
                elements == product(shape@.take(i as int)),
            decreases shape@.len() - i,
        {
            assert(shape@.take(i + 1).drop_last() == shape@.take(i as int));
            assert(product(shape@.take(i + 1)) <= usize::MAX);
            elements = elements * shape[i];
            i = i + 1;
        }
        assert(shape@.take(shape@.len() as int) == shape@);
        elements
    }

    /// The text that describes a tensor.
    pub open spec fn description(self) -> Seq<char> {
        "Tensor '"@ + self.name@ + "' ["@ + decimal_list(self.shape@) + "] "@
            + self.dtype.display_name() + " ("@ + decimal(self.num_elements as nat)
            + " elements, "@ + decimal(self.size_bytes as nat) + " bytes) @ GPU va=0x"@ + hex(
            self.allocation.gpu_va as nat,
            16,
        )
    }

    /// Describes the tensor: its name, shape, type, size and address.
    pub fn describe(&self) -> (text: String)
        ensures
            text@ == self.description(),
    {
        proof {
            reveal_strlit("' ");
            reveal_strlit("' [");
            reveal_strlit("] ");
            reveal_strlit(" ");
        }
        let mut text = "Tensor '".to_owned();
        text.append(self.name.as_str());
        text.append("' ");
        append_list(&mut text, self.shape.as_slice());
        text.append(" ");
        text.append(self.dtype.name());
        text.append(" (");
        append_decimal(&mut text, self.num_elements as u64);
        text.append(" elements, ");
        append_decimal(&mut text, self.size_bytes);
        text.append(" bytes) @ GPU va=0x");
        append_hex(&mut text, self.allocation.gpu_va, 16);
        assert("' "@ + seq!['['] =~= "' ["@);
        assert(seq![']'] + " "@ =~= "] "@);
        assert(text@ =~= self.description());
        text
    }
}

/// Tensor manager: allocates tensors in VRAM and plans operations.
#[derive(Debug, PartialEq, Eq, Structural)]
pub struct TensorEngine {
    /// Total bytes allocated for tensors.
    pub total_allocated: u64,
    /// Number of tensors currently alive.
    pub tensor_count: u32,
}

impl TensorEngine {
    /// A new tensor engine.
    pub fn new() -> (engine: Self)
        ensures
            engine == (TensorEngine { total_allocated: 0, tensor_count: 0 }),
    {
        TensorEngine { total_allocated: 0, tensor_count: 0 }
    }

    /// The engine with one more tensor of `size` bytes.
    pub open spec fn with_tensor(self, size: u64) -> TensorEngine {
        TensorEngine {
            total_allocated: (self.total_allocated + size) as u64,
            tensor_count: (self.tensor_count + 1) as u32,
        }
    }

    /// The engine with one tensor of `size` bytes less.
    pub open spec fn without_tensor(self, size: u64) -> TensorEngine {
        TensorEngine {
            total_allocated: (self.total_allocated - size) as u64,
            tensor_count: (self.tensor_count - 1) as u32,
        }
    }

    /// Whether the sums of allocating a tensor stay in range.
    pub open spec fn allocate_in_range(self, vram: VramView, shape: Seq<usize>, dtype: DType) -> bool {
        let size = dtype.size_of(product(shape));
        &&& leading_products_fit(shape)
        &&& if dtype is Int4 {
            product(shape) < usize::MAX
        } else {
            size <= usize::MAX
        }
        &&& size + 0xFFF <= u64::MAX
        &&& vram.fit(size as u64) is Some ==> {
            &&& vram.va_has_room(size as u64)
            &&& trailing_products_fit(shape)
            &&& self.total_allocated + size <= u64::MAX
            &&& self.tensor_count < u32::MAX
        }
    }

    /// Whether an allocation of a tensor leaves the engine `after` and returns
    /// `tensor`: the tensor that VRAM has room for is described and counted.
    pub open spec fn allocates(
        self,
        vram: VramView,
        name: Seq<char>,
        shape: Seq<usize>,
        dtype: DType,
        after: TensorEngine,
        tensor: Option<TensorDescriptor>,
    ) -> bool {
        let size = dtype.size_of(product(shape)) as u64;
        match (vram.allocation(size), tensor) {
            (Some(allocation), Some(tensor)) => {
                &&& tensor.deep_view() == described_tensor(name, shape, dtype, allocation)
                &&& after == self.with_tensor(size)
            },
            (None, None) => after == self,
            _ => false,
        }
    }

    /// Allocates a new tensor in VRAM, or returns `None` if there is no room.
    pub fn allocate_tensor(
        &mut self,
        allocator: &mut VramAllocator,
        name: &str,
        shape: &[usize],
        dtype: DType,
    ) -> (tensor: Option<TensorDescriptor>)
        requires
            old(self).allocate_in_range(old(allocator).model(), shape@, dtype),
        ensures
            old(self).allocates(
                old(allocator).model(),
                name@,
                shape@,
                dtype,
                *final(self),
                tensor,
            ),
            final(allocator).model() == old(allocator).model().after_allocate(
                dtype.size_of(product(shape@)) as u64,
            ),
    {
        let num_elements: usize = TensorDescriptor::total_elements(shape);
        let size_bytes: u64 = if dtype == DType::Int4 {
            ((num_elements + 1) / 2) as u64
        } else {
            (num_elements * dtype.element_size()) as u64
        };
        let allocation: GpuAllocation = match allocator.allocate(size_bytes) {
            Some(allocation) => allocation,
            None => {
                return None;
            },
        };
        let strides: Vec<usize> = TensorDescriptor::compute_strides(shape);
        self.total_allocated = self.total_allocated + size_bytes;
        self.tensor_count = self.tensor_count + 1;
        Some(
            TensorDescriptor {
                name: name.to_owned(),
                shape: vstd::slice::slice_to_vec(shape),
                strides,
                dtype,
                allocation,
                num_elements,
                size_bytes,
            },
        )
    }

    /// Whether a tensor can be allocated.
    pub fn can_allocate_tensor(&self, allocator: &VramAllocator, shape: &[usize], dtype: DType) -> (
    in_range: bool)
        ensures
            in_range == self.allocate_in_range(allocator.model(), shape@, dtype),
    {
        let num_elements: usize = match checked_elements(shape) {
            Some(elements) => elements,
            None => {
                return false;
            },
        };
        let size: u64 = if dtype == DType::Int4 {
            if num_elements == usize::MAX {
                return false;
            }
            ((num_elements + 1) / 2) as u64
        } else {
            match num_elements.checked_mul(dtype.element_size()) {
                Some(size) => size as u64,
                None => {
                    return false;
                },
            }
        };
        if size > u64::MAX - 0xFFF {
            return false;
        }
        match allocator.preview(size) {
            Some(_) => allocator.has_va_room(size) && strides_fit(shape) && size <= u64::MAX
                - self.total_allocated && self.tensor_count < u32::MAX,
            None => true,
        }
    }

    /// Whether the addresses of a transfer of `len` bytes stay in range.
    pub fn check_transfer(
        &self,
        allocator: &VramAllocator,
        tensor: &TensorDescriptor,
        len: usize,
    ) -> (in_range: bool)
        ensures
            in_range == transfer_in_range(
                allocator.model().aperture(),
                tensor.deep_view(),
                len as int,
            ),
    {
        self.check_transfer_through(&allocator.aperture(), tensor, len)
    }

    /// Whether the addresses of a transfer of `len` bytes through an aperture
    /// stay in range.
    pub fn check_transfer_through(
        &self,
        aperture: &Bar1Aperture,
        tensor: &TensorDescriptor,
        len: usize,
    ) -> (in_range: bool)
        ensures
            in_range == transfer_in_range(*aperture, tensor.deep_view(), len as int),
    {
        if len as u64 != tensor.size_bytes {
            return true;
        }
        if !aperture.can_map(&tensor.allocation) {
            return false;
        }
        match aperture.reach(&tensor.allocation) {
            Some(cpu_va) => is_addressable(cpu_va, len),
            None => true,
        }
    }

    /// Prepares a transfer of `len` bytes between system memory and a tensor:
    /// maps the tensor to the CPU. Returns the CPU address of its bytes if they
    /// can be reached. `len` must be the tensor's size.
    fn prepare_transfer(
        &self,
        aperture: &Bar1Aperture,
        tensor: &mut TensorDescriptor,
        len: usize,
    ) -> (cpu_va: Option<u64>)
        requires
            transfer_in_range(*aperture, old(tensor).deep_view(), len as int),
        ensures
            cpu_va == if len == old(tensor).size_bytes {
                aperture.cpu_address(old(tensor).allocation)
            } else {
                None
            },
            final(tensor).deep_view() == after_transfer(
                *aperture,
                old(tensor).deep_view(),
                len as int,
            ),
    {
        if len as u64 != tensor.size_bytes {
            return None;
        }
        aperture.map(&mut tensor.allocation)
    }

    /// Uploads data from system RAM to a tensor in VRAM.
    ///
    /// `data` must be exactly as long as the tensor, and the BAR1 aperture must
    /// reach the tensor. It is then mapped to the CPU, and the data is copied
    /// there. Otherwise the result is `false`.
    pub fn upload(
        &self,
        allocator: &VramAllocator,
        tensor: &mut TensorDescriptor,
        data: &[u8],
        replies: &[u32],
    ) -> (step: Step<bool>)
        requires
            transfer_in_range(
                allocator.model().aperture(),
                old(tensor).deep_view(),
                data@.len() as int,
            ),
        ensures
            step == upload_step(
                allocator.model().aperture(),
                old(tensor).deep_view(),
                data@,
                replies@,
            ),
            final(tensor).deep_view() == after_transfer(
                allocator.model().aperture(),
                old(tensor).deep_view(),
                data@.len() as int,
            ),
    {
        self.upload_through(&allocator.aperture(), tensor, data, replies)
    }

    /// Uploads like [`TensorEngine::upload`], through the given aperture.
    pub fn upload_through(
        &self,
        aperture: &Bar1Aperture,
        tensor: &mut TensorDescriptor,
        data: &[u8],
        replies: &[u32],
    ) -> (step: Step<bool>)
        requires
            transfer_in_range(*aperture, old(tensor).deep_view(), data@.len() as int),
        ensures
            step == upload_step(*aperture, old(tensor).deep_view(), data@, replies@),
            final(tensor).deep_view() == after_transfer(
                *aperture,
                old(tensor).deep_view(),
                data@.len() as int,
            ),
    {
        match self.prepare_transfer(aperture, tensor, data.len()) {
            None => Step::Done { result: false, used: 0 },
            Some(cpu_va) => match copy_in(cpu_va, data, replies) {
                Step::Next(access) => Step::Next(access),
                Step::Done { result: _, used } => Step::Done { result: true, used },
            },
        }
    }

    /// Downloads data from a tensor in VRAM to system RAM.
    ///
    /// `buffer` must be exactly as long as the tensor, and the BAR1 aperture
    /// must reach the tensor. It is then mapped to the CPU, its bytes are read,
    /// and the buffer is filled with them in the end. Otherwise the result is
    /// `false`, and the buffer stays as it is.
    pub fn download(
        &self,
        allocator: &VramAllocator,
        tensor: &mut TensorDescriptor,
        buffer: &mut [u8],
        replies: &[u32],
    ) -> (step: Step<bool>)
        requires
            transfer_in_range(
                allocator.model().aperture(),
                old(tensor).deep_view(),
                old(buffer)@.len() as int,
            ),
        ensures
            step == download_step(
                allocator.model().aperture(),
                old(tensor).deep_view(),
                old(buffer)@.len(),
                replies@,
            ),
            final(buffer)@ == filled(step, old(buffer)@, replies@),
            final(tensor).deep_view() == after_transfer(
                allocator.model().aperture(),
                old(tensor).deep_view(),
                old(buffer)@.len() as int,
            ),
    {
        self.download_through(&allocator.aperture(), tensor, buffer, replies)
    }

    /// Downloads like [`TensorEngine::download`], through the given aperture.
    pub fn download_through(
        &self,
        aperture: &Bar1Aperture,
        tensor: &mut TensorDescriptor,
        buffer: &mut [u8],
        replies: &[u32],
    ) -> (step: Step<bool>)
        requires
            transfer_in_range(*aperture, old(tensor).deep_view(), old(buffer)@.len() as int),
        ensures
            step == download_step(
                *aperture,
                old(tensor).deep_view(),
                old(buffer)@.len(),
                replies@,
            ),
            final(buffer)@ == filled(step, old(buffer)@, replies@),
            final(tensor).deep_view() == after_transfer(
                *aperture,
                old(tensor).deep_view(),
                old(buffer)@.len() as int,
            ),
    {
        match self.prepare_transfer(aperture, tensor, buffer.len()) {
            None => Step::Done { result: false, used: 0 },
            Some(cpu_va) => match copy_out(cpu_va, buffer, replies) {
                Step::Next(access) => Step::Next(access),
                Step::Done { result: _, used } => Step::Done { result: true, used },
            },
        }
    }

    /// Frees a tensor and releases its VRAM.
    pub fn free_tensor(&mut self, allocator: &mut VramAllocator, tensor: TensorDescriptor)
        requires
            old(self).total_allocated >= tensor.size_bytes,
            old(self).tensor_count >= 1,
        ensures
            *final(self) == old(self).without_tensor(tensor.size_bytes),
            final(allocator).model() == old(allocator).model(),
    {
        self.total_allocated = self.total_allocated - tensor.size_bytes;
        self.tensor_count = self.tensor_count - 1;
        allocator.free(&tensor.allocation);
    }

    /// Matrix multiplication C = A @ B, with A of shape [M, K], B of [K, N] and
    /// C of [M, N].
    ///
    /// Checks the shapes and plans the launch. There is no kernel to launch,
    /// so the result is always `false`.
    pub fn matmul(
        &self,
        _regs: &GpuRegs,
        _channel: &Channel,
        _compute: &mut ComputeEngine,
        _allocator: &VramAllocator,
        a: &TensorDescriptor,
        b: &TensorDescriptor,
        c: &TensorDescriptor,
    ) -> (done: bool)
        requires
            matmul_in_range(a.shape@, b.shape@, c.shape@),
        ensures
            !done,
            *final(_compute) == *old(_compute),
    {
        let _ = plan_matmul(a, b, c);
        false
    }

    /// Softmax along the last dimension.
    ///
    /// Checks the shapes and plans the launch. There is no kernel to launch,
    /// so the result is always `false`.
    pub fn softmax(
        &self,
        _regs: &GpuRegs,
        _channel: &Channel,
        _compute: &mut ComputeEngine,
        input: &TensorDescriptor,
        output: &TensorDescriptor,
    ) -> (done: bool)
        requires
            softmax_in_range(input.shape@, output.shape@),
        ensures
            !done,
            *final(_compute) == *old(_compute),
    {
        let _ = plan_softmax(input, output);
        false
    }

    /// Layer normalization along the last dimension, with the bit pattern of
    /// the epsilon. There is no kernel to launch, so the result is always
    /// `false`.
    pub fn layernorm(
        &self,
        _regs: &GpuRegs,
        _channel: &Channel,
        _compute: &mut ComputeEngine,
        _input: &TensorDescriptor,
        _output: &TensorDescriptor,
        _gamma: &TensorDescriptor,
        _beta: &TensorDescriptor,
        _epsilon_bits: u32,
    ) -> (done: bool)
        ensures
            !done,
            *final(_compute) == *old(_compute),
    {
        false
    }

    /// GELU activation, element by element.
    ///
    /// Plans the launch. There is no kernel to launch, so the result is always
    /// `false`.
    pub fn gelu(
        &self,
        _regs: &GpuRegs,
        _channel: &Channel,
        _compute: &mut ComputeEngine,
        input: &TensorDescriptor,
        _output: &TensorDescriptor,
    ) -> (done: bool)
        requires
            elementwise_in_range(input.num_elements),
        ensures
            !done,
            *final(_compute) == *old(_compute),
    {
        let _ = plan_elementwise(input);
        false
    }

    /// SiLU activation, element by element. There is no kernel to launch, so
    /// the result is always `false`.
    pub fn silu(
        &self,
        _regs: &GpuRegs,
        _channel: &Channel,
        _compute: &mut ComputeEngine,
        _input: &TensorDescriptor,
        _output: &TensorDescriptor,
    ) -> (done: bool)
        ensures
            !done,
            *final(_compute) == *old(_compute),
    {
        false
    }

    /// Rotary position embedding of a query or key tensor, with the bit pattern
    /// of the base theta. There is no kernel to launch, so the result is always
    /// `false`.
    pub fn rope(
        &self,
        _regs: &GpuRegs,
        _channel: &Channel,
        _compute: &mut ComputeEngine,
        _input: &TensorDescriptor,
        _output: &TensorDescriptor,
        _seq_offset: usize,
        _theta_bits: u32,
    ) -> (done: bool)
        ensures
            !done,
            *final(_compute) == *old(_compute),
    {
        false
    }

    /// The text that sums up the state of this engine.
    pub open spec fn summary(self) -> Seq<char> {
        "gpu/tensor: "@ + decimal(self.tensor_count as nat) + " tensors allocated, "@ + decimal(
            (self.total_allocated / 0x10_0000) as nat,
        ) + " MiB total VRAM usage"@
    }

    /// Sums up the state of this engine: the number of live tensors and the MiB
    /// of VRAM that they take.
    pub fn status(&self) -> (text: String)
        ensures
            text@ == self.summary(),
    {
        let mut text = "gpu/tensor: ".to_owned();
        append_decimal(&mut text, self.tensor_count as u64);
        text.append(" tensors allocated, ");
        append_decimal(&mut text, self.total_allocated / 0x10_0000);
        text.append(" MiB total VRAM usage");
        text
    }
}

/// Whether `len` bytes can be copied to or from a tensor: they are its size,
/// and the BAR1 aperture reaches it.
pub open spec fn can_transfer(aperture: Bar1Aperture, tensor: TensorView, len: int) -> bool {
    len == tensor.size_bytes && aperture.cpu_address(tensor.allocation) is Some
}

/// A tensor after a transfer of `len` bytes was prepared.
pub open spec fn after_transfer(
    aperture: Bar1Aperture,
    tensor: TensorView,
    len: int,
) -> TensorView {
    if len == tensor.size_bytes {
        TensorView { allocation: aperture.mapped(tensor.allocation), ..tensor }
    } else {
        tensor
    }
}

/// The accesses of an upload of `data` to a tensor.
pub open spec fn upload_accesses(
    aperture: Bar1Aperture,
    tensor: TensorView,
    data: Seq<u8>,
) -> Seq<Access> {
    copy_in_accesses(aperture.cpu_address(tensor.allocation)->0, data)
}

/// The accesses of a download of `len` bytes from a tensor.
pub open spec fn download_accesses(
    aperture: Bar1Aperture,
    tensor: TensorView,
    len: nat,
) -> Seq<Access> {
    copy_out_accesses(aperture.cpu_address(tensor.allocation)->0, len)
}

/// The step of an upload of `data` to a tensor.
pub open spec fn upload_step(
    aperture: Bar1Aperture,
    tensor: TensorView,
    data: Seq<u8>,
    replies: Seq<u32>,
) -> Step<bool> {
    if can_transfer(aperture, tensor, data.len() as int) {
        perform(upload_accesses(aperture, tensor, data), replies, true)
    } else {
        Step::Done { result: false, used: 0 }
    }
}

/// The step of a download of `len` bytes from a tensor.
pub open spec fn download_step(
    aperture: Bar1Aperture,
    tensor: TensorView,
    len: nat,
    replies: Seq<u32>,
) -> Step<bool> {
    if can_transfer(aperture, tensor, len as int) {
        perform(download_accesses(aperture, tensor, len), replies, true)
    } else {
        Step::Done { result: false, used: 0 }
    }
}

/// The buffer of a download after a step: filled with the bytes that were read
/// once the download has succeeded, and before that as it was.
pub open spec fn filled(step: Step<bool>, buffer: Seq<u8>, replies: Seq<u32>) -> Seq<u8> {
    if step is Done && step->result {
        received(replies, buffer.len())
    } else {
        buffer
    }
}

/// Whether the addresses of a transfer of `len` bytes stay in range.
pub open spec fn transfer_in_range(aperture: Bar1Aperture, tensor: TensorView, len: int) -> bool {
    len == tensor.size_bytes ==> {
        &&& aperture.mapping_in_range(tensor.allocation)
        &&& aperture.cpu_address(tensor.allocation) matches Some(cpu_va) ==> addressable(cpu_va, len)
    }
}

/// A transfer can be taken up again: once the tensor is mapped, its steps are
/// those that they were before, and it stays as it is.
pub proof fn mapped_transfer_continues(
    aperture: Bar1Aperture,
    tensor: TensorView,
    data: Seq<u8>,
    replies: Seq<u32>,
)
    ensures
        ({
            let mapped = after_transfer(aperture, tensor, data.len() as int);
            &&& upload_step(aperture, mapped, data, replies) == upload_step(
                aperture,
                tensor,
                data,
                replies,
            )
            &&& download_step(aperture, mapped, data.len(), replies) == download_step(
                aperture,
                tensor,
                data.len(),
                replies,
            )
            &&& after_transfer(aperture, mapped, data.len() as int) == mapped
        }),
{
}

/// A download gives back what was uploaded: after an upload that succeeded, a
/// download of as many bytes from the tensor succeeds, and the bytes that it
/// reads from memory as the upload left it are the uploaded data.
pub proof fn download_gives_back_upload(
    aperture: Bar1Aperture,
    tensor: TensorView,
    data: Seq<u8>,
    memory: spec_fn(int) -> u8,
    replies: Seq<u32>,
)
    requires
        transfer_in_range(aperture, tensor, data.len() as int),
        can_transfer(aperture, tensor, data.len() as int),
        ({
            let uploaded = after_transfer(aperture, tensor, data.len() as int);
            reads_from(
                memory_after_all(memory, upload_accesses(aperture, tensor, data)),
                download_accesses(aperture, uploaded, data.len()),
                replies,
            )
        }),
    ensures
        ({
            let uploaded = after_transfer(aperture, tensor, data.len() as int);
            &&& download_step(aperture, uploaded, data.len(), replies) == (Step::Done {
                result: true,
                used: data.len() as usize,
            })
            &&& received(replies, data.len()) == data
        }),
{
    copy_round_trip(memory, aperture.cpu_address(tensor.allocation)->0, data, replies);
}

/// The number of elements of a shape, or `None` if multiplying up its
/// dimensions from the first on goes out of range.
fn checked_elements(shape: &[usize]) -> (elements: Option<usize>)
    ensures
        elements is Some <==> leading_products_fit(shape@),
        elements is Some ==> elements->0 == product(shape@),
{
    let mut elements: usize = 1;
    let mut i: usize = 0;
    while i < shape.len()
        invariant
            i <= shape@.len(),
            elements == product(shape@.take(i as int)),
            forall|k: int| 0 <= k <= i ==> #[trigger] product(shape@.take(k)) <= usize::MAX,
        decreases shape@.len() - i,
    {
        assert(shape@.take(i + 1).drop_last() == shape@.take(i as int));
        assert(shape@.take(i + 1).last() == shape@[i as int]);
        elements = match elements.checked_mul(shape[i]) {
            Some(product) => product,
            None => {
                assert(product(shape@.take(i + 1)) > usize::MAX);
                return None;
            },
        };
        i = i + 1;
    }
    assert(shape@.take(shape@.len() as int) == shape@);
    Some(elements)
}

/// Whether multiplying up the dimensions from the last on stays in range.
fn strides_fit(shape: &[usize]) -> (fit: bool)
    ensures
        fit == trailing_products_fit(shape@),
{
    let mut stride: usize = 1;
    let mut i: usize = shape.len();
    while i > 0
        invariant
            i <= shape@.len(),
            stride == product_from(shape@, i as int),
            forall|k: int|
                i <= k <= shape@.len() ==> #[trigger] product_from(shape@, k) <= usize::MAX,
        decreases i,
    {
        i = i - 1;
        stride = match stride.checked_mul(shape[i]) {
            Some(product) => product,
            None => {
                assert(product_from(shape@, i as int) > usize::MAX);
                return false;
            },
        };
    }
    true
}

/// Launch dimensions of a kernel.
#[derive(Debug, Clone, Copy, PartialEq, Eq, Structural)]
pub struct LaunchPlan {
    pub grid: GridDim,
    pub block: BlockDim,
}

/// Why an operation cannot be launched.
#[derive(Debug, Clone, Copy, PartialEq, Eq, Structural)]
pub enum TensorError {
    /// The operation needs tensors of two dimensions.
    NotTwoDimensional,
    /// The shapes of the tensors do not go together.
    ShapeMismatch,
}

/// Rows and columns of the tile that one block of a matrix multiplication
/// computes.
pub const MATMUL_TILE: usize = 128;

/// Threads per block of an element-wise kernel.
pub const ELEMENTWISE_THREADS: u32 = 256;

/// Most threads per block of a row kernel.
pub const MAX_ROW_THREADS: usize = 1024;

/// `n` divided by `unit`, rounded up.
pub open spec fn blocks_of(n: int, unit: int) -> int {
    (n + unit - 1) / unit
}

/// The low 32 bits of a count.
pub open spec fn count32(n: int) -> u32 {
    (n % 0x1_0000_0000) as u32
}

fn to_count32(n: usize) -> (count: u32)
    ensures
        count == count32(n as int),
{
    (n as u64 % 0x1_0000_0000) as u32
}

/// Whether all three tensors of a matrix multiplication have two dimensions.
pub open spec fn all_2d(a: Seq<usize>, b: Seq<usize>, c: Seq<usize>) -> bool {
    a.len() == 2 && b.len() == 2 && c.len() == 2
}

/// Whether the shapes of a matrix multiplication go together.
pub open spec fn matmul_shapes(a: Seq<usize>, b: Seq<usize>, c: Seq<usize>) -> bool {
    all_2d(a, b, c) && b[0] == a[1] && c[0] == a[0] && c[1] == b[1]
}

/// Whether the sums of planning a matrix multiplication stay in range.
pub open spec fn matmul_in_range(a: Seq<usize>, b: Seq<usize>, c: Seq<usize>) -> bool {
    matmul_shapes(a, b, c) ==> a[0] + 127 <= usize::MAX && b[1] + 127 <= usize::MAX
}

/// The plan of a matrix multiplication: a block of 256 threads for each tile.
pub open spec fn matmul_plan(a: Seq<usize>, b: Seq<usize>, c: Seq<usize>) -> Result<
    LaunchPlan,
    TensorError,
> {
    if !all_2d(a, b, c) {
        Err(TensorError::NotTwoDimensional)
    } else if !matmul_shapes(a, b, c) {
        Err(TensorError::ShapeMismatch)
    } else {
        Ok(
            LaunchPlan {
                grid: GridDim {
                    x: count32(blocks_of(b[1] as int, MATMUL_TILE as int)),
                    y: count32(blocks_of(a[0] as int, MATMUL_TILE as int)),
                    z: 1,
                },
                block: BlockDim { x: 256, y: 1, z: 1 },
            },
        )
    }
}

/// Plans the launch of a matrix multiplication.
pub fn plan_matmul(a: &TensorDescriptor, b: &TensorDescriptor, c: &TensorDescriptor) -> (plan:
    Result<LaunchPlan, TensorError>)
    requires
        matmul_in_range(a.shape@, b.shape@, c.shape@),
    ensures
        plan == matmul_plan(a.shape@, b.shape@, c.shape@),
{
    if a.shape.len() != 2 || b.shape.len() != 2 || c.shape.len() != 2 {
        return Err(TensorError::NotTwoDimensional);
    }
    let m: usize = a.shape[0];
    let k: usize = a.shape[1];
    let n: usize = b.shape[1];
    if b.shape[0] != k || c.shape[0] != m || c.shape[1] != n {
        return Err(TensorError::ShapeMismatch);
    }
    let grid = GridDim {
        x: to_count32((n + (MATMUL_TILE - 1)) / MATMUL_TILE),
        y: to_count32((m + (MATMUL_TILE - 1)) / MATMUL_TILE),
        z: 1,
    };
    Ok(LaunchPlan { grid, block: BlockDim { x: 256, y: 1, z: 1 } })
}

/// Whether the products of planning a softmax stay in range.
pub open spec fn softmax_in_range(input: Seq<usize>, output: Seq<usize>) -> bool {
    input == output && input.len() > 0 ==> trailing_products_fit(input.drop_last())
}

/// The plan of a softmax: one block for each row, with a thread for each
/// column up to 1024. A shape without dimensions counts as one row of one.
pub open spec fn softmax_plan(input: Seq<usize>, output: Seq<usize>) -> Result<
    LaunchPlan,
    TensorError,
> {
    if input != output {
        Err(TensorError::ShapeMismatch)
    } else {
        let columns: int = if input.len() > 0 {
            input.last() as int
        } else {
            1
        };
        let rows: int = if input.len() > 0 {
            product_from(input.drop_last(), 0)
        } else {
            1
        };
        Ok(
            LaunchPlan {
                grid: GridDim { x: count32(rows), y: 1, z: 1 },
                block: BlockDim {
                    x: (if columns < MAX_ROW_THREADS {
                        columns
                    } else {
                        MAX_ROW_THREADS as int
                    }) as u32,
                    y: 1,
                    z: 1,
                },
            },
        )
    }
}

fn same_shape(a: &Vec<usize>, b: &Vec<usize>) -> (same: bool)
    ensures
        same == (a@ == b@),
{
    if a.len() != b.len() {
        return false;
    }
    let mut i: usize = 0;
    while i < a.len()
        invariant
            a@.len() == b@.len(),
            i <= a@.len(),
            forall|j: int| 0 <= j < i ==> a@[j] == b@[j],
        decreases a@.len() - i,
    {
        if a[i] != b[i] {
            return false;
        }
        i = i + 1;
    }
    assert(a@ =~= b@);
    true
}

/// Plans the launch of a softmax along the last dimension.
pub fn plan_softmax(input: &TensorDescriptor, output: &TensorDescriptor) -> (plan: Result<
    LaunchPlan,
    TensorError,
>)
    requires
        softmax_in_range(input.shape@, output.shape@),
    ensures
        plan == softmax_plan(input.shape@, output.shape@),
{
    if !same_shape(&input.shape, &output.shape) {
        return Err(TensorError::ShapeMismatch);
    }
    let n: usize = input.shape.len();
    let mut columns: usize = 1;
    let mut rows: usize = 1;
    if n > 0 {
        let ghost outer = input.shape@.drop_last();
        columns = input.shape[n - 1];
        let mut i: usize = n - 1;
        while i > 0
            invariant
                n == input.shape@.len(),
                i < n,
                outer == input.shape@.drop_last(),
                trailing_products_fit(outer),
                rows == product_from(outer, i as int),
            decreases i,
        {
            i = i - 1;
            assert(product_from(outer, i as int) <= usize::MAX);
            assert(outer[i as int] == input.shape@[i as int]);
            rows = rows * input.shape[i];
        }
    }
    let threads: usize = if columns < MAX_ROW_THREADS {
        columns
    } else {
        MAX_ROW_THREADS
    };
    Ok(
        LaunchPlan {
            grid: GridDim { x: to_count32(rows), y: 1, z: 1 },
            block: BlockDim { x: threads as u32, y: 1, z: 1 },
        },
    )
}

/// Whether the sums of planning an element-wise kernel stay in range.
pub open spec fn elementwise_in_range(num_elements: usize) -> bool {
    count32(num_elements as int) + 255 <= u32::MAX
}

/// The plan of an element-wise kernel: one thread for each element.
pub open spec fn elementwise_plan(num_elements: usize) -> LaunchPlan {
    LaunchPlan {
        grid: GridDim {
            x: blocks_of(
                count32(num_elements as int) as int,
                ELEMENTWISE_THREADS as int,
            ) as u32,
            y: 1,
            z: 1,
        },
        block: BlockDim { x: ELEMENTWISE_THREADS, y: 1, z: 1 },
    }
}

/// Plans the launch of an element-wise kernel.
pub fn plan_elementwise(input: &TensorDescriptor) -> (plan: LaunchPlan)
    requires
        elementwise_in_range(input.num_elements),
    ensures
        plan == elementwise_plan(input.num_elements),
{
    let total: u32 = to_count32(input.num_elements);
    LaunchPlan {
        grid: GridDim {
            x: (total + (ELEMENTWISE_THREADS - 1)) / ELEMENTWISE_THREADS,
            y: 1,
            z: 1,
        },
        block: BlockDim { x: ELEMENTWISE_THREADS, y: 1, z: 1 },
    }
}

/// Whether `index` names an element of a tensor of the given shape.
pub open spec fn in_bounds(shape: Seq<usize>, index: Seq<usize>) -> bool {
    index.len() == shape.len() && forall|i: int|
        0 <= i < shape.len() ==> #[trigger] index[i] < #[trigger] shape[i]
}

/// The element offset of `index` along the dimensions from `from` on: each
/// coordinate times its stride.
pub open spec fn offset_from(strides: Seq<usize>, index: Seq<usize>, from: int) -> int
    decreases strides.len() - from,
{
    if from >= strides.len() {
        0
    } else {
        index[from] * strides[from] + offset_from(strides, index, from + 1)
    }
}

/// The offset of an element, in elements from the start of the tensor.
pub open spec fn element_offset(strides: Seq<usize>, index: Seq<usize>) -> int {
    offset_from(strides, index, 0)
}

proof fn product_from_is_nonnegative(shape: Seq<usize>, from: int)
    requires
        0 <= from,
    ensures
        product_from(shape, from) >= 0,
    decreases shape.len() - from,
{
    if from < shape.len() {
        product_from_is_nonnegative(shape, from + 1);
        assert(product_from(shape, from + 1) * shape[from] >= 0) by (nonlinear_arith)
            requires
                product_from(shape, from + 1) >= 0,
                shape[from] >= 0,
        ;
    }
}

proof fn product_from_splits(shape: Seq<usize>, from: int)
    requires
        0 <= from < shape.len(),
    ensures
        product_from(shape, from) == product_from(shape.drop_last(), from) * shape.last(),
    decreases shape.len() - from,
{
    let front = shape.drop_last();
    if from + 1 < shape.len() {
        product_from_splits(shape, from + 1);
        assert(front[from] == shape[from]);
        assert((product_from(front, from + 1) * shape.last()) * shape[from] == (product_from(
            front,
            from + 1,
        ) * shape[from]) * shape.last()) by (nonlinear_arith);
    } else {
        assert(product_from(shape, from + 1) == 1);
        assert(product_from(front, from) == 1);
    }
}

/// Multiplying up the dimensions from the first on or from the last on gives
/// the same number of elements.
pub proof fn element_count_has_one_value(shape: Seq<usize>)
    ensures
        product(shape) == product_from(shape, 0),
    decreases shape.len(),
{
    if shape.len() > 0 {
        element_count_has_one_value(shape.drop_last());
        product_from_splits(shape, 0);
    }
}

/// The stride of the last dimension is 1, and that of every other dimension is
/// the stride of the next times the extent of the next.
pub proof fn strides_are_row_major(shape: Seq<usize>, i: int)
    requires
        trailing_products_fit(shape),
        0 <= i < shape.len(),
    ensures
        i == shape.len() - 1 ==> row_major_strides(shape)[i] == 1,
        i < shape.len() - 1 ==> row_major_strides(shape)[i] == row_major_strides(shape)[i + 1]
            * shape[i + 1],
{
    product_from_is_nonnegative(shape, i + 1);
    assert(product_from(shape, i + 1) <= usize::MAX);
    if i < shape.len() - 1 {
        product_from_is_nonnegative(shape, i + 2);
        assert(product_from(shape, i + 2) <= usize::MAX);
    }
}

proof fn offset_bounds(shape: Seq<usize>, index: Seq<usize>, from: int)
    requires
        trailing_products_fit(shape),
        in_bounds(shape, index),
        0 <= from <= shape.len(),
    ensures
        0 <= offset_from(row_major_strides(shape), index, from) < product_from(shape, from),
    decreases shape.len() - from,
{
    if from < shape.len() {
        offset_bounds(shape, index, from + 1);
        product_from_is_nonnegative(shape, from + 1);
        let inner = product_from(shape, from + 1);
        assert(inner <= usize::MAX);
        assert(row_major_strides(shape)[from] == inner);
        let i = index[from] as int;
        let n = shape[from] as int;
        assert(0 <= i * inner && i * inner + inner <= inner * n) by (nonlinear_arith)
            requires
                0 <= i < n,
                inner >= 0,
        ;
    }
}

/// Every element of a tensor has an offset below the number of elements.
pub proof fn element_offset_is_in_range(shape: Seq<usize>, index: Seq<usize>)
    requires
        trailing_products_fit(shape),
        in_bounds(shape, index),
    ensures
        0 <= element_offset(row_major_strides(shape), index) < product(shape),
{
    offset_bounds(shape, index, 0);
    element_count_has_one_value(shape);
}

proof fn offsets_differ_from(shape: Seq<usize>, a: Seq<usize>, b: Seq<usize>, from: int)
    requires
        trailing_products_fit(shape),
        in_bounds(shape, a),
        in_bounds(shape, b),
        0 <= from <= shape.len(),
        offset_from(row_major_strides(shape), a, from) == offset_from(
            row_major_strides(shape),
            b,
            from,
        ),
    ensures
        forall|i: int| from <= i < shape.len() ==> a[i] == b[i],
    decreases shape.len() - from,
{
    if from < shape.len() {
        let strides = row_major_strides(shape);
        offset_bounds(shape, a, from + 1);
        offset_bounds(shape, b, from + 1);
        let inner = product_from(shape, from + 1);
        assert(inner <= usize::MAX);
        assert(strides[from] == inner);
        let x = a[from] as int;
        let y = b[from] as int;
        let p = offset_from(strides, a, from + 1);
        let q = offset_from(strides, b, from + 1);
        assert(x == y) by (nonlinear_arith)
            requires
                x * inner + p == y * inner + q,
                0 <= p < inner,
                0 <= q < inner,
        ;
        offsets_differ_from(shape, a, b, from + 1);
    }
}

/// Different elements of a tensor have different offsets.
pub proof fn element_offsets_are_distinct(shape: Seq<usize>, a: Seq<usize>, b: Seq<usize>)
    requires
        trailing_products_fit(shape),
        in_bounds(shape, a),
        in_bounds(shape, b),
        a != b,
    ensures
        element_offset(row_major_strides(shape), a) != element_offset(row_major_strides(shape), b),
{
    if element_offset(row_major_strides(shape), a) == element_offset(row_major_strides(shape), b) {
        offsets_differ_from(shape, a, b, 0);
        assert(a =~= b);
    }
}

/// The first byte of the element at `offset`.
pub open spec fn element_byte(dtype: DType, offset: int) -> int {
    if dtype is Int4 {
        offset / 2
    } else {
        offset * dtype.bytes_per_element()
    }
}

/// The bytes of every element lie inside the allocation that a tensor is given.
pub proof fn elements_lie_in_allocation(
    engine: TensorEngine,
    vram: VramView,
    shape: Seq<usize>,
    dtype: DType,
    index: Seq<usize>,
)
    requires
        engine.allocate_in_range(vram, shape, dtype),
        vram.allocation(dtype.size_of(product(shape)) as u64) is Some,
        in_bounds(shape, index),
    ensures
        ({
            let allocation = vram.allocation(dtype.size_of(product(shape)) as u64)->0;
            let byte = element_byte(dtype, element_offset(row_major_strides(shape), index));
            0 <= byte && byte + dtype.bytes_per_element() <= allocation.size
        }),
{
    element_offset_is_in_range(shape, index);
}

/// Freeing a tensor right after allocating it gives the engine's counters back.
pub proof fn allocate_then_free_tensor(engine: TensorEngine, size: u64)
    requires
        engine.total_allocated + size <= u64::MAX,
        engine.tensor_count < u32::MAX,
    ensures
        engine.with_tensor(size).without_tensor(size) == engine,
{
}

/// Packed 4-bit elements take half a byte each, rounded up as a whole.
pub proof fn int4_packs_two_per_byte(elements: nat)
    ensures
        DType::Int4.size_of(elements as int) * 2 - 1 <= elements <= DType::Int4.size_of(
            elements as int,
        ) * 2,
{
}

/// The tiles of a matrix multiplication cover the result, and the last row and
/// column of tiles are needed.
pub proof fn matmul_tiles_cover_result(a: Seq<usize>, b: Seq<usize>, c: Seq<usize>)
    requires
        matmul_shapes(a, b, c),
        blocks_of(a[0] as int, MATMUL_TILE as int) <= u32::MAX,
        blocks_of(b[1] as int, MATMUL_TILE as int) <= u32::MAX,
    ensures
        ({
            let grid = matmul_plan(a, b, c)->Ok_0.grid;
            &&& (grid.y - 1) * MATMUL_TILE < c[0] <= grid.y * MATMUL_TILE || c[0] == 0 == grid.y
            &&& (grid.x - 1) * MATMUL_TILE < c[1] <= grid.x * MATMUL_TILE || c[1] == 0 == grid.x
        }),
{
}

/// An element-wise launch has a thread for every element, and no block is idle.
pub proof fn elementwise_launch_covers_elements(num_elements: usize)
    requires
        elementwise_in_range(num_elements),
        num_elements <= u32::MAX,
    ensures
        ({
            let plan = elementwise_plan(num_elements);
            &&& num_elements <= plan.grid.x * plan.block.x
            &&& plan.grid.x > 0 ==> (plan.grid.x - 1) * plan.block.x < num_elements
        }),
{
}

/// The number of elements of a shape: its dimensions multiplied up in order.
pub open spec fn element_count(shape: Seq<usize>) -> int {
    shape.fold_left(1int, |count: int, dimension: usize| count * dimension)
}

proof fn lemma_product_is_count(shape: Seq<usize>)
    ensures
        product(shape) == element_count(shape),
    decreases shape.len(),
{
    if shape.len() > 0 {
        lemma_product_is_count(shape.drop_last());
    }
}

proof fn lemma_product_of_rest(shape: Seq<usize>, from: int, k: int)
    requires
        0 <= from <= shape.len(),
        0 <= k <= shape.len() - from,
    ensures
        product_from(shape.skip(from), k) == product_from(shape, from + k),
    decreases shape.len() - from - k,
{
    if k < shape.len() - from {
        lemma_product_of_rest(shape, from, k + 1);
        assert(shape.skip(from)[k] == shape[from + k]);
    }
}

/// The element count multiplies: that of no dimension is 1, that of one
/// dimension is the dimension, and that of two shapes joined is the product of
/// theirs.
pub proof fn element_counts_multiply(a: Seq<usize>, b: Seq<usize>, dimension: usize)
    ensures
        product(seq![]) == 1,
        product(seq![dimension]) == dimension,
        product(a + b) == product(a) * product(b),
        product(a) == element_count(a),
    decreases b.len(),
{
    lemma_product_is_count(a);
    assert(product(Seq::<usize>::empty()) == 1);
    assert(seq![dimension].drop_last() =~= Seq::<usize>::empty());
    if b.len() == 0 {
        assert(a + b =~= a);
        assert(product(b) == 1);
        assert(product(a) * 1 == product(a)) by (nonlinear_arith);
    } else {
        let front = b.drop_last();
        element_counts_multiply(a, front, dimension);
        assert((a + b).drop_last() =~= a + front);
        assert((product(a) * product(front)) * b.last() == product(a) * (product(front)
            * b.last())) by (nonlinear_arith);
    }
}

/// The stride of a dimension is the element count of the dimensions behind it.
pub proof fn strides_count_what_is_behind(shape: Seq<usize>, i: int)
    requires
        trailing_products_fit(shape),
        0 <= i < shape.len(),
    ensures
        row_major_strides(shape).len() == shape.len(),
        row_major_strides(shape)[i] == element_count(shape.skip(i + 1)),
{
    let rest = shape.skip(i + 1);
    lemma_product_of_rest(shape, i + 1, 0);
    element_count_has_one_value(rest);
    lemma_product_is_count(rest);
    product_from_is_nonnegative(shape, i + 1);
    assert(product_from(shape, i + 1) <= usize::MAX);
}

/// How many bytes an element of each type takes, and how a type is called.
pub proof fn element_sizes_and_names()
    ensures
        DType::Float32.bytes_per_element() == 4,
        DType::Float16.bytes_per_element() == 2,
        DType::BFloat16.bytes_per_element() == 2,
        DType::Int8.bytes_per_element() == 1,
        DType::Int4.bytes_per_element() == 1,
        DType::Float32.display_name() == "fp32"@,
        DType::Float16.display_name() == "fp16"@,
        DType::BFloat16.display_name() == "bf16"@,
        DType::Int8.display_name() == "int8"@,
        DType::Int4.display_name() == "int4"@,
{
}

/// The bytes that elements take: 4 each for 32-bit floats, 2 each for both
/// kinds of 16-bit floats, 1 each for 8-bit integers. Of 4-bit integers two
/// share a byte, and an odd one has a byte of its own.
pub proof fn bytes_of_elements(elements: int)
    ensures
        DType::Float32.size_of(elements) == 4 * elements,
        DType::Float16.size_of(elements) == 2 * elements,
        DType::BFloat16.size_of(elements) == 2 * elements,
        DType::Int8.size_of(elements) == elements,
        elements % 2 == 0 ==> 2 * DType::Int4.size_of(elements) == elements,
        elements % 2 == 1 ==> 2 * DType::Int4.size_of(elements) == elements + 1,
{
    let float32 = DType::Float32.bytes_per_element() as int;
    let float16 = DType::Float16.bytes_per_element() as int;
    let bfloat16 = DType::BFloat16.bytes_per_element() as int;
    let int8 = DType::Int8.bytes_per_element() as int;
    assert(elements * float32 == 4 * elements && elements * float16 == 2 * elements && elements
        * bfloat16 == 2 * elements && elements * int8 == elements) by (nonlinear_arith)
        requires
            float32 == 4,
            float16 == 2,
            bfloat16 == 2,
            int8 == 1,
    ;
}

/// A tensor that was allocated has the name, shape and type that it was asked
/// for, as many elements as its dimensions multiplied, and the bytes that so
/// many elements of its type take. Its allocation is the one that VRAM has for
/// that size, and the engine counts the tensor and its bytes.
pub proof fn allocated_tensor_has_its_size(
    engine: TensorEngine,
    vram: VramView,
    name: Seq<char>,
    shape: Seq<usize>,
    dtype: DType,
    after: TensorEngine,
    tensor: TensorDescriptor,
)
    requires
        engine.allocate_in_range(vram, shape, dtype),
        engine.allocates(vram, name, shape, dtype, after, Some(tensor)),
    ensures
        tensor.name@ == name,
        tensor.shape@ == shape,
        tensor.dtype == dtype,
        tensor.num_elements == element_count(shape),
        dtype == DType::Float32 ==> tensor.size_bytes == 4 * element_count(shape),
        dtype == DType::Float16 ==> tensor.size_bytes == 2 * element_count(shape),
        dtype == DType::BFloat16 ==> tensor.size_bytes == 2 * element_count(shape),
        dtype == DType::Int8 ==> tensor.size_bytes == element_count(shape),
        dtype == DType::Int4 ==> 2 * tensor.size_bytes - 1 <= element_count(shape) <= 2
            * tensor.size_bytes,
        vram.allocation(tensor.size_bytes) == Some(tensor.allocation),
        after.total_allocated == engine.total_allocated + tensor.size_bytes,
        after.tensor_count == engine.tensor_count + 1,
{
    lemma_product_is_count(shape);
    element_count_has_one_value(shape);
    product_from_is_nonnegative(shape, 0);
    assert(shape.take(shape.len() as int) =~= shape);
    assert(product(shape.take(shape.len() as int)) <= usize::MAX);
    let size = dtype.size_of(product(shape));
    bytes_of_elements(product(shape));
    assert(vram.fit(size as u64) is Some);
    assert(tensor.deep_view().size_bytes == size as u64);
}

/// A tensor is refused exactly if VRAM has no room for its bytes. The engine
/// then counts nothing.
pub proof fn refused_tensor_is_not_counted(
    engine: TensorEngine,
    vram: VramView,
    name: Seq<char>,
    shape: Seq<usize>,
    dtype: DType,
    after: TensorEngine,
    tensor: Option<TensorDescriptor>,
)
    requires
        engine.allocates(vram, name, shape, dtype, after, tensor),
    ensures
        dtype == DType::Float32 ==> (tensor is None <==> vram.allocation(
            (4 * element_count(shape)) as u64,
        ) is None),
        dtype == DType::Float16 || dtype == DType::BFloat16 ==> (tensor is None
            <==> vram.allocation((2 * element_count(shape)) as u64) is None),
        dtype == DType::Int8 ==> (tensor is None <==> vram.allocation(
            element_count(shape) as u64,
        ) is None),
        tensor is None ==> after == engine,
{
    lemma_product_is_count(shape);
    bytes_of_elements(product(shape));
}

proof fn lemma_parts_divide(shape: Seq<usize>, k: int)
    requires
        0 <= k <= shape.len(),
        forall|i: int| 0 <= i < shape.len() ==> #[trigger] shape[i] > 0,
    ensures
        1 <= product(shape.take(k)) <= product(shape),
        1 <= product_from(shape, k) <= product(shape),
{
    let front = shape.take(k);
    let rest = shape.skip(k);
    lemma_product_is_positive(front);
    lemma_product_is_positive(rest);
    element_counts_multiply(front, rest, 0);
    assert(front + rest =~= shape);
    lemma_product_of_rest(shape, k, 0);
    element_count_has_one_value(rest);
    let (p, q) = (product(front), product(rest));
    assert(p <= p * q && q <= p * q) by (nonlinear_arith)
        requires
            p >= 1,
            q >= 1,
    ;
}

proof fn lemma_product_is_positive(shape: Seq<usize>)
    requires
        forall|i: int| 0 <= i < shape.len() ==> #[trigger] shape[i] > 0,
    ensures
        product(shape) >= 1,
    decreases shape.len(),
{
    if shape.len() > 0 {
        let front = shape.drop_last();
        assert forall|i: int| 0 <= i < front.len() implies #[trigger] front[i] > 0 by {
            assert(shape[i] > 0);
        }
        lemma_product_is_positive(front);
        assert(shape[shape.len() - 1] > 0);
        assert(product(front) * shape.last() >= 1) by (nonlinear_arith)
            requires
                product(front) >= 1,
                shape.last() >= 1,
        ;
    }
}

/// A shape without a zero dimension whose bytes can be counted is in range for
/// every type, as long as the engine can count it and VRAM has addresses for it.
pub proof fn countable_tensors_are_in_range(
    engine: TensorEngine,
    vram: VramView,
    shape: Seq<usize>,
    dtype: DType,
)
    requires
        forall|i: int| 0 <= i < shape.len() ==> #[trigger] shape[i] > 0,
        4 * element_count(shape) + 0xFFF <= usize::MAX,
        engine.total_allocated + 4 * element_count(shape) <= u64::MAX,
        engine.tensor_count < u32::MAX,
        vram.in_address_space(dtype.size_of(element_count(shape)) as u64),
    ensures
        engine.allocate_in_range(vram, shape, dtype),
{
    lemma_product_is_count(shape);
    lemma_product_is_positive(shape);
    bytes_of_elements(product(shape));
    assert(dtype.size_of(product(shape)) <= 4 * product(shape)) by {
        match dtype {
            DType::Float32 => {},
            DType::Float16 => {},
            DType::BFloat16 => {},
            DType::Int8 => {},
            DType::Int4 => {},
        }
    }
    assert forall|k: int| 0 <= k <= shape.len() implies #[trigger] product(shape.take(k))
        <= usize::MAX by {
        lemma_parts_divide(shape, k);
    }
    assert forall|k: int| 0 <= k <= shape.len() implies #[trigger] product_from(shape, k)
        <= usize::MAX by {
        lemma_parts_divide(shape, k);
    }
}

/// Allocating adds a tensor and its bytes to what is counted, and freeing takes
/// one tensor and its bytes away.
pub proof fn engine_counts_tensors_and_bytes(engine: TensorEngine, size: u64)
    ensures
        engine.total_allocated + size <= u64::MAX && engine.tensor_count < u32::MAX ==> {
            let more = engine.with_tensor(size);
            &&& more.total_allocated - engine.total_allocated == size
            &&& more.tensor_count - engine.tensor_count == 1
        },
        engine.total_allocated >= size && engine.tensor_count >= 1 ==> {
            let less = engine.without_tensor(size);
            &&& engine.total_allocated - less.total_allocated == size
            &&& engine.tensor_count - less.tensor_count == 1
        },
{
}

/// A transfer is refused at once if the buffer does not have the tensor's size
/// or the CPU cannot reach the tensor. Otherwise byte after byte of the data is
/// written from the tensor's CPU address on.
pub proof fn upload_writes_the_data(
    aperture: Bar1Aperture,
    tensor: TensorView,
    data: Seq<u8>,
    replies: Seq<u32>,
)
    requires
        transfer_in_range(aperture, tensor, data.len() as int),
    ensures
        ({
            let step = upload_step(aperture, tensor, data, replies);
            let reach = aperture.cpu_address(tensor.allocation);
            &&& data.len() != tensor.size_bytes || reach is None ==> step == (Step::Done {
                result: false,
                used: 0,
            })
            &&& data.len() == tensor.size_bytes && reach is Some ==> {
                &&& replies.len() < data.len() ==> step == Step::<bool>::Next(
                    Access::WriteByte {
                        va: (reach->0 + replies.len()) as u64,
                        byte: data[replies.len() as int],
                    },
                )
                &&& replies.len() >= data.len() ==> step == (Step::Done {
                    result: true,
                    used: data.len() as usize,
                })
            }
        }),
{
}

/// A download reads byte after byte from the tensor's CPU address on, and fills
/// the buffer once all have been read. Until then, and where it is refused, the
/// buffer stays as it is.
pub proof fn download_fills_the_buffer(
    aperture: Bar1Aperture,
    tensor: TensorView,
    buffer: Seq<u8>,
    replies: Seq<u32>,
)
    requires
        transfer_in_range(aperture, tensor, buffer.len() as int),
    ensures
        ({
            let step = download_step(aperture, tensor, buffer.len(), replies);
            let reach = aperture.cpu_address(tensor.allocation);
            let after = filled(step, buffer, replies);
            &&& after.len() == buffer.len()
            &&& buffer.len() != tensor.size_bytes || reach is None ==> {
                &&& step == (Step::Done { result: false, used: 0 })
                &&& after == buffer
            }
            &&& buffer.len() == tensor.size_bytes && reach is Some ==> {
                &&& replies.len() < buffer.len() ==> {
                    &&& step == Step::<bool>::Next(
                        Access::ReadByte { va: (reach->0 + replies.len()) as u64 },
                    )
                    &&& after == buffer
                }
                &&& replies.len() >= buffer.len() ==> {
                    &&& step == (Step::Done { result: true, used: buffer.len() as usize })
                    &&& forall|i: int|
                        0 <= i < buffer.len() ==> #[trigger] after[i] == replies[i] % 0x100
                }
            }
        }),
{
}

/// A transfer of the tensor's size maps the tensor, and changes nothing else of
/// it. Any other changes nothing.
pub proof fn transfer_maps_the_tensor(aperture: Bar1Aperture, tensor: TensorView, len: int)
    ensures
        len != tensor.size_bytes ==> after_transfer(aperture, tensor, len) == tensor,
        len == tensor.size_bytes ==> after_transfer(aperture, tensor, len) == (TensorView {
            allocation: aperture.mapped(tensor.allocation),
            ..tensor
        }),
{
}

/// A transfer is in range if it is refused, or if the tensor can be mapped and
/// its last byte has an address.
pub proof fn transfer_range_is_64_bits(aperture: Bar1Aperture, tensor: TensorView, len: int)
    ensures
        len != tensor.size_bytes ==> transfer_in_range(aperture, tensor, len),
        len == tensor.size_bytes ==> (transfer_in_range(aperture, tensor, len) <==> {
            &&& aperture.mapping_in_range(tensor.allocation)
            &&& aperture.cpu_address(tensor.allocation) is None || aperture.cpu_address(
                tensor.allocation,
            )->0 + len <= 0x1_0000_0000_0000_0000
        }),
{
}

/// A matrix product needs three two-dimensional tensors, and shapes that go
/// together: (m, k) times (k, n) is (m, n). It is launched in tiles of 128 by
/// 128 with 256 threads each, as many tiles to the right as cover the columns
/// of the result and as many down as cover its rows.
pub proof fn matmul_plan_tiles_the_result(
    a: Seq<usize>,
    b: Seq<usize>,
    c: Seq<usize>,
    across: int,
    down: int,
)
    ensures
        a.len() != 2 || b.len() != 2 || c.len() != 2 ==> matmul_plan(a, b, c) == Err::<
            LaunchPlan,
            _,
        >(TensorError::NotTwoDimensional),
        a.len() == 2 && b.len() == 2 && c.len() == 2 ==> {
            let plan = matmul_plan(a, b, c);
            let (m, k, n) = (a[0] as int, a[1] as int, b[1] as int);
            &&& b[0] != k || c[0] != m || c[1] != n ==> plan == Err::<LaunchPlan, _>(
                TensorError::ShapeMismatch,
            )
            &&& b[0] == k && c[0] == m && c[1] == n ==> {
                &&& plan is Ok
                &&& 128 * across - 128 < n <= 128 * across ==> plan->Ok_0.grid.x == across
                    % 0x1_0000_0000
                &&& 128 * down - 128 < m <= 128 * down ==> plan->Ok_0.grid.y == down
                    % 0x1_0000_0000
                &&& plan->Ok_0.grid.z == 1
                &&& plan->Ok_0.block == (BlockDim { x: 256, y: 1, z: 1 })
            }
        },
{
}

/// A softmax needs two tensors of one shape. It is launched with one block for
/// each row, that is for each index into all dimensions but the last, and with
/// one thread for each column up to 1024.
pub proof fn softmax_plan_takes_rows(input: Seq<usize>, output: Seq<usize>)
    requires
        softmax_in_range(input, output),
    ensures
        input != output ==> softmax_plan(input, output) == Err::<LaunchPlan, _>(
            TensorError::ShapeMismatch,
        ),
        input == output ==> {
            let plan = softmax_plan(input, output);
            &&& plan is Ok
            &&& plan->Ok_0.grid.y == 1 && plan->Ok_0.grid.z == 1
            &&& plan->Ok_0.block.y == 1 && plan->Ok_0.block.z == 1
            &&& input.len() == 0 ==> plan->Ok_0.grid.x == 1 && plan->Ok_0.block.x == 1
            &&& input.len() > 0 ==> {
                &&& plan->Ok_0.grid.x == element_count(input.drop_last()) % 0x1_0000_0000
                &&& input.last() <= 1024 ==> plan->Ok_0.block.x == input.last()
                &&& input.last() > 1024 ==> plan->Ok_0.block.x == 1024
            }
        },
{
    if input.len() > 0 {
        element_count_has_one_value(input.drop_last());
        lemma_product_is_count(input.drop_last());
    }
}

/// An elementwise operation is launched with 256 threads a block, and with as
/// many blocks as cover the low 32 bits of the element count.
pub proof fn elementwise_plan_covers_elements(num_elements: usize, blocks: int)
    requires
        elementwise_in_range(num_elements),
        256 * blocks - 256 < num_elements as int % 0x1_0000_0000 <= 256 * blocks,
    ensures
        elementwise_plan(num_elements).grid == (GridDim { x: blocks as u32, y: 1, z: 1 }),
        elementwise_plan(num_elements).grid.x == blocks,
        elementwise_plan(num_elements).block == (BlockDim { x: 256, y: 1, z: 1 }),
{
}

/// Which sizes can be planned: those whose rounding up to whole tiles, rows or
/// blocks has a number.
pub proof fn plan_ranges(a: Seq<usize>, b: Seq<usize>, c: Seq<usize>, num_elements: usize)
    ensures
        elementwise_in_range(num_elements) <==> num_elements as int % 0x1_0000_0000 <= 0xFFFF_FF00,
        matmul_in_range(a, b, c) <==> matmul_plan(a, b, c) is Err || a[0] <= usize::MAX - 127
            && b[1] <= usize::MAX - 127,
{
}

/// A tensor's description gives its name, dimensions, type, element count,
/// size in bytes and, in 16 hexadecimal digits, its GPU virtual address.
pub proof fn description_gives_the_numbers(tensor: TensorDescriptor)
    ensures
        exists|count: Seq<char>, size: Seq<char>, va: Seq<char>|
            #![trigger number_of(count, 10), number_of(size, 10), number_of(va, 16)]
            {
                &&& tensor.description() == "Tensor '"@ + tensor.name@ + "' ["@ + decimal_list(
                    tensor.shape@,
                ) + "] "@ + tensor.dtype.display_name() + " ("@ + count + " elements, "@ + size
                    + " bytes) @ GPU va=0x"@ + va
                &&& number_of(count, 10) == tensor.num_elements && all_digits(count, 10)
                &&& number_of(size, 10) == tensor.size_bytes && all_digits(size, 10)
                &&& number_of(va, 16) == tensor.allocation.gpu_va && all_digits(va, 16)
                &&& va.len() == 16
            },
{
    let count = decimal(tensor.num_elements as nat);
    let size = decimal(tensor.size_bytes as nat);
    let va = hex(tensor.allocation.gpu_va as nat, 16);
    decimal_reads_back(tensor.num_elements as nat);
    decimal_reads_back(tensor.size_bytes as nat);
    hex_reads_back(tensor.allocation.gpu_va as nat, 16);
    assert(va.len() == 16) by {
        reveal_with_fuel(hex, 17);
    }
    assert(number_of(count, 10) == tensor.num_elements);
    assert(number_of(size, 10) == tensor.size_bytes);
    assert(number_of(va, 16) == tensor.allocation.gpu_va);
}

/// An engine's status gives the tensors that are allocated and their bytes in
/// whole mebibytes.
pub proof fn summary_gives_the_numbers(engine: TensorEngine)
    ensures
        exists|count: Seq<char>, size: Seq<char>|
            #![trigger number_of(count, 10), number_of(size, 10)]
            {
                &&& engine.summary() == "gpu/tensor: "@ + count + " tensors allocated, "@ + size
                    + " MiB total VRAM usage"@
                &&& number_of(count, 10) == engine.tensor_count && all_digits(count, 10)
                &&& number_of(size, 10) * 0x10_0000 <= engine.total_allocated < (number_of(size, 10)
                    + 1) * 0x10_0000
                &&& all_digits(size, 10)
            },
{
    let count = decimal(engine.tensor_count as nat);
    let size = decimal((engine.total_allocated / 0x10_0000) as nat);
    decimal_reads_back(engine.tensor_count as nat);
    decimal_reads_back((engine.total_allocated / 0x10_0000) as nat);
    assert(number_of(count, 10) == engine.tensor_count);
    assert(number_of(size, 10) == engine.total_allocated / 0x10_0000);
}

/// The model of a tensor has the tensor's fields.
pub proof fn tensor_model_shows_the_fields(tensor: TensorDescriptor)
    ensures
        ({
            let model = tensor.deep_view();
            &&& model.name == tensor.name@
            &&& model.shape == tensor.shape@ && model.strides == tensor.strides@
            &&& model.dtype == tensor.dtype && model.allocation == tensor.allocation
            &&& model.num_elements == tensor.num_elements
            &&& model.size_bytes == tensor.size_bytes
        }),
{
}

} // verus!

//! GPU compute driver core, written without I/O.
//!
//! Every hardware procedure is a function from the replies received so far to
//! the next [`access::Step`]: either one more [`access::Access`] to perform or
//! the procedure's result. The host performs the accesses and hands the
//! replies back, so the whole driver logic can be stated and proved here.

pub mod access;
pub mod compute;
pub mod driver;
pub mod falcon;
pub mod fifo;
pub mod memory;
pub mod mmio;
pub mod pci_config;
pub mod shared;
pub mod tensor;
pub mod text;
pub mod transfer;

pub use compute::ComputeEngine;
pub use driver::GpuDevice;
pub use memory::VramAllocator;
pub use pci_config::{GpuFamily, GpuPciDevice};
pub use tensor::{DType, TensorDescriptor};

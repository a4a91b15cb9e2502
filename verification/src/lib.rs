//! Typed buffers and kernel invocations for a compute backend.
//!
//! The library decides what the backend is asked to do (which device to
//! bind, how many elements to allocate, which arguments a kernel is built
//! with) and what each of its answers means. It never talks to a backend
//! itself: every step hands out a request as a plain value and takes the
//! backend's answer as an argument, so the same code serves an OpenCL queue
//! or any other runtime.

use vstd::prelude::*;

pub mod accelerator;
pub mod buffer;
pub mod buffer_type;
pub mod dimensions;
pub mod error;
pub mod kernel;
pub mod kernels;

pub use accelerator::{ContextRequest, MathAccelerator, DEFAULT_WORK_ITEMS};
pub use buffer::{BufferRequest, ConstantBuffer, MemoryAccess, PendingBuffer};
pub use buffer_type::BufferType;
pub use dimensions::{allocation_len, checked_product, product, Dimensions, WorkSize};
pub use error::{AcceleratorError, BuildFailure, InitFailure};
pub use kernel::{
    bound_arguments, Kernel, KernelArgument, KernelArgumentValue, KernelRequest,
    ToKernelArgumentValue,
};
pub use kernels::add::{
    AddAllocation, AddBuild, AddEnqueue, KernelFunctionAdd, INPUT_1, INPUT_2, KERNEL_ADD, OUTPUT,
};
pub use kernels::KERNELS_SRC;

verus! {

/// Sum of two sizes.
pub fn add(left: usize, right: usize) -> (sum: usize)
    requires
        left + right <= usize::MAX,
    ensures
        sum == left + right,
{
    left + right
}

} // verus!

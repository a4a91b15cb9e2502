//! Elementwise addition of two buffers of one shape, step by step: allocate
//! the output, build the kernel, enqueue it.

use crate::accelerator::MathAccelerator;
use crate::buffer::{BufferRequest, ConstantBuffer, PendingBuffer};
use crate::buffer_type::BufferType;
use crate::dimensions::Dimensions;
use crate::error::{AcceleratorError, BuildFailure};
use crate::kernel::{
    Kernel, KernelArgument, KernelArgumentValue, KernelRequest, ToKernelArgumentValue,
};
use vstd::prelude::*;

verus! {

/// Name of the kernel function that adds.
pub const KERNEL_ADD: &'static str = "kernel_add";

/// Name under which the first input is bound.
pub const INPUT_1: &'static str = "input_1";

/// Name under which the second input is bound.
pub const INPUT_2: &'static str = "input_2";

/// Name under which the output is bound.
pub const OUTPUT: &'static str = "output";

/// An addition: its two inputs and the buffer that takes their sum.
#[derive(Debug)]
pub struct KernelFunctionAdd<'a, T, D, C, M> where T: BufferType, D: Dimensions {
    /// The first input.
    pub input_1: &'a ConstantBuffer<'a, T, D, C, M>,
    /// The second input.
    pub input_2: &'a ConstantBuffer<'a, T, D, C, M>,
    /// The buffer that takes the sum.
    pub output: ConstantBuffer<'a, T, D, C, M>,
}

/// An addition whose output is yet to be allocated.
#[derive(Debug)]
pub struct AddAllocation<'a, T, D, C, M> where T: BufferType, D: Dimensions {
    accelerator: &'a MathAccelerator<C>,
    input_1: &'a ConstantBuffer<'a, T, D, C, M>,
    input_2: &'a ConstantBuffer<'a, T, D, C, M>,
    output: PendingBuffer<'a, T, D, C>,
}

/// An addition whose kernel is yet to be built.
#[derive(Debug)]
pub struct AddBuild<'a, T, D, C, M> where T: BufferType, D: Dimensions {
    accelerator: &'a MathAccelerator<C>,
    addition: KernelFunctionAdd<'a, T, D, C, M>,
}

/// An addition whose kernel is yet to be enqueued.
#[derive(Debug)]
pub struct AddEnqueue<'a, T, D, C, M, K> where T: BufferType, D: Dimensions {
    addition: KernelFunctionAdd<'a, T, D, C, M>,
    kernel: Kernel<K>,
}

impl<C> MathAccelerator<C> {
    /// Starts the addition of `input_1` and `input_2`: the output is a
    /// duplicate of the second input, to be allocated first.
    pub fn kernel_add<'a, T, D, M>(
        &'a self,
        input_1: &'a ConstantBuffer<'a, T, D, C, M>,
        input_2: &'a ConstantBuffer<'a, T, D, C, M>,
    ) -> (step: AddAllocation<'a, T, D, C, M>) where T: BufferType, D: Dimensions + Copy
        requires
            input_1.dimensions() == input_2.dimensions(),
        ensures
            step.accelerator() == self,
            step.input_1() == input_1,
            step.input_2() == input_2,
            step.output().accelerator() == input_2.accelerator(),
            step.output().dimensions() == input_2.dimensions(),
    {
        AddAllocation { accelerator: self, input_1, input_2, output: input_2.duplicate() }
    }
}

impl<'a, T, D, C, M> AddAllocation<'a, T, D, C, M> where T: BufferType, D: Dimensions + Copy {
    /// The context that builds the kernel.
    pub closed spec fn accelerator(&self) -> &'a MathAccelerator<C> {
        self.accelerator
    }

    /// The first input.
    pub closed spec fn input_1(&self) -> &'a ConstantBuffer<'a, T, D, C, M> {
        self.input_1
    }

    /// The second input.
    pub closed spec fn input_2(&self) -> &'a ConstantBuffer<'a, T, D, C, M> {
        self.input_2
    }

    /// The output, not allocated yet.
    pub closed spec fn spec_output(&self) -> &PendingBuffer<'a, T, D, C> {
        &self.output
    }

    /// The output, not allocated yet.
    #[verifier::when_used_as_spec(spec_output)]
    pub fn output(&self) -> (output: &PendingBuffer<'a, T, D, C>)
        ensures
            output == self.output(),
    {
        &self.output
    }

    /// The allocation to ask the backend for: that of the output.
    pub fn request(&self) -> (request: BufferRequest)
        ensures
            request == self.output().request(),
    {
        self.output.request()
    }

    /// The next step, once the backend has answered the request: `outcome`
    /// is the memory it allocated, or its diagnostic.
    pub fn allocated(self, outcome: Result<M, String>) -> (step: Result<
        AddBuild<'a, T, D, C, M>,
        AcceleratorError,
    >)
        ensures
            match outcome {
                Ok(memory) => step matches Ok(s) && s.accelerator() == self.accelerator()
                    && s.addition().input_1 == self.input_1()
                    && s.addition().input_2 == self.input_2()
                    && s.addition().output.accelerator() == self.output().accelerator()
                    && s.addition().output.dimensions() == self.output().dimensions()
                    && s.addition().output.memory() == memory,
                Err(diagnostic) => step matches Err(e) && e
                    == AcceleratorError::BackendOperationError(diagnostic),
            },
    {
        let output = self.output.allocated(outcome)?;
        Ok(
            AddBuild {
                accelerator: self.accelerator,
                addition: KernelFunctionAdd {
                    input_1: self.input_1,
                    input_2: self.input_2,
                    output,
                },
            },
        )
    }
}

impl<'a, T, D, C, M> AddBuild<'a, T, D, C, M> where T: BufferType, D: Dimensions + Copy {
    /// The context that builds the kernel.
    pub closed spec fn accelerator(&self) -> &'a MathAccelerator<C> {
        self.accelerator
    }

    /// The addition.
    pub closed spec fn addition(&self) -> &KernelFunctionAdd<'a, T, D, C, M> {
        &self.addition
    }

    /// The kernel to ask the backend for: the adding function, one work item
    /// per element of the output, and the three buffers under their names.
    pub fn request<'s>(&'s self) -> (request: KernelRequest<'s, T, C, M>)
        ensures
            request.accelerator == self.accelerator(),
            request.name == KERNEL_ADD,
            request.global_work_size.extents() == self.addition().output.dimensions().extents(),
            request.arguments@ == seq![
                (INPUT_1, KernelArgument::<T, M>::Buffer(self.addition().input_1.memory())),
                (INPUT_2, KernelArgument::<T, M>::Buffer(self.addition().input_2.memory())),
                (OUTPUT, KernelArgument::<T, M>::Buffer(self.addition().output.memory())),
            ],
    {
        let arguments: [(&'static str, KernelArgumentValue<'s, T, M>); 3] = [
            (INPUT_1, self.addition.input_1.to_kernel_argument_value()),
            (INPUT_2, self.addition.input_2.to_kernel_argument_value()),
            (OUTPUT, self.addition.output.to_kernel_argument_value()),
        ];
        let request = self.accelerator.create_kernel(
            KERNEL_ADD,
            *self.addition.output.dimensions(),
            arguments.as_slice(),
        );
        assert(request.arguments@ =~= seq![
            (INPUT_1, KernelArgument::<T, M>::Buffer(self.addition().input_1.memory())),
            (INPUT_2, KernelArgument::<T, M>::Buffer(self.addition().input_2.memory())),
            (OUTPUT, KernelArgument::<T, M>::Buffer(self.addition().output.memory())),
        ]);
        request
    }

    /// The next step, once the backend has answered the request: `outcome`
    /// is what it built, or how it failed.
    pub fn built<K>(self, outcome: Result<K, BuildFailure>) -> (step: Result<
        AddEnqueue<'a, T, D, C, M, K>,
        AcceleratorError,
    >)
        ensures
            match outcome {
                Ok(handle) => step matches Ok(s) && s.addition() == self.addition()
                    && s.kernel().handle() == handle,
                Err(BuildFailure::Kernel(diagnostic)) => step matches Err(e) && e
                    == AcceleratorError::KernelBuildError(diagnostic),
                Err(BuildFailure::Argument(diagnostic)) => step matches Err(e) && e
                    == AcceleratorError::ArgumentBindError(diagnostic),
            },
    {
        let kernel = self.request().built(outcome)?;
        Ok(AddEnqueue { addition: self.addition, kernel })
    }
}

impl<'a, T, D, C, M, K> AddEnqueue<'a, T, D, C, M, K> where
    T: BufferType,
    D: Dimensions + Copy,
 {
    /// The addition.
    pub closed spec fn addition(&self) -> &KernelFunctionAdd<'a, T, D, C, M> {
        &self.addition
    }

    /// The kernel that was built.
    pub closed spec fn spec_kernel(&self) -> &Kernel<K> {
        &self.kernel
    }

    /// The kernel to enqueue.
    #[verifier::when_used_as_spec(spec_kernel)]
    pub fn kernel(&self) -> (kernel: &Kernel<K>)
        ensures
            kernel == self.kernel(),
    {
        &self.kernel
    }

    /// The addition, once the backend has answered the enqueue: `outcome` is
    /// nothing on success, or its diagnostic. The output stays in the
    /// backend's memory.
    pub fn enqueued(self, outcome: Result<(), String>) -> (done: Result<
        KernelFunctionAdd<'a, T, D, C, M>,
        AcceleratorError,
    >)
        ensures
            match outcome {
                Ok(_) => done matches Ok(sum) && sum == self.addition(),
                Err(diagnostic) => done matches Err(e) && e
                    == AcceleratorError::BackendOperationError(diagnostic),
            },
    {
        self.kernel.enq(outcome)?;
        Ok(self.addition)
    }
}

} // verus!


//! Kernel arguments, kernel requests and built kernels.

use crate::accelerator::MathAccelerator;
use crate::buffer::ConstantBuffer;
use crate::buffer_type::BufferType;
use crate::dimensions::{Dimensions, WorkSize};
use crate::error::{AcceleratorError, BuildFailure};
use vstd::prelude::*;

verus! {

/// What a kernel argument is bound to: a buffer's memory or a scalar.
#[derive(Debug, PartialEq, Eq)]
pub enum KernelArgument<'a, T, M> {
    Buffer(&'a M),
    Scalar(T),
}

/// What a value offers as a kernel argument: the memory of a buffer or a
/// scalar of the element type, one of the two and never both.
#[derive(Debug)]
pub struct KernelArgumentValue<'a, T, M> where T: BufferType {
    buffer: Option<&'a M>,
    value: Option<T>,
}

impl<'a, T, M> KernelArgumentValue<'a, T, M> where T: BufferType {
    #[verifier::type_invariant]
    spec fn exactly_one(self) -> bool {
        self.buffer.is_some() != self.value.is_some()
    }

    /// The argument that the value stands for.
    pub closed spec fn argument(self) -> KernelArgument<'a, T, M> {
        match self.buffer {
            Some(memory) => KernelArgument::Buffer(memory),
            None => KernelArgument::Scalar(self.value.unwrap()),
        }
    }

    /// Tells the two kinds of argument apart.
    pub fn resolve(&self) -> (argument: KernelArgument<'a, T, M>)
        ensures
            argument == self.argument(),
    {
        proof {
            use_type_invariant(self);
        }
        match self.buffer {
            Some(memory) => KernelArgument::Buffer(memory),
            None => match self.value {
                Some(scalar) => KernelArgument::Scalar(scalar),
                None => vstd::pervasive::unreached(),
            },
        }
    }
}

/// A value that can be passed to a kernel under a name.
pub trait ToKernelArgumentValue<T, M> where T: BufferType {
    /// The argument that the value is passed as.
    spec fn kernel_argument(&self) -> KernelArgument<'_, T, M>;

    /// What the value offers as a kernel argument.
    fn to_kernel_argument_value(&self) -> (value: KernelArgumentValue<'_, T, M>)
        ensures
            value.argument() == self.kernel_argument(),
    ;
}

/// A buffer is passed as its memory.
impl<'a, T, D, C, M> ToKernelArgumentValue<T, M> for ConstantBuffer<'a, T, D, C, M> where
    T: BufferType,
    D: Dimensions,
 {
    open spec fn kernel_argument(&self) -> KernelArgument<'_, T, M> {
        KernelArgument::Buffer(self.memory())
    }

    fn to_kernel_argument_value(&self) -> (value: KernelArgumentValue<'_, T, M>) {
        KernelArgumentValue { buffer: Some(self.memory()), value: None }
    }
}

/// A scalar of the element type is passed by value.
impl<T, M> ToKernelArgumentValue<T, M> for T where T: BufferType {
    open spec fn kernel_argument(&self) -> KernelArgument<'_, T, M> {
        KernelArgument::Scalar(*self)
    }

    fn to_kernel_argument_value(&self) -> (value: KernelArgumentValue<'_, T, M>) {
        KernelArgumentValue { buffer: None, value: Some(*self) }
    }
}

/// What the backend is asked to build: a kernel function of the context's
/// program, sized and with its arguments bound by name.
#[derive(Debug)]
pub struct KernelRequest<'a, T, C, M> {
    /// The context whose program and queue the kernel is built with.
    pub accelerator: &'a MathAccelerator<C>,
    /// Name of the kernel function.
    pub name: &'static str,
    /// One work item per element of the shape that the kernel works on.
    pub global_work_size: WorkSize,
    /// The arguments in the order in which they are bound, each under its name.
    pub arguments: Vec<(&'static str, KernelArgument<'a, T, M>)>,
}

/// A kernel that the backend has built. `K` is whatever the backend hands
/// out for it.
#[derive(Debug)]
pub struct Kernel<K> {
    handle: K,
}

/// The named arguments of a request: each value resolved, names and order kept.
pub open spec fn bound_arguments<'a, T: BufferType, M>(
    arguments: Seq<(&'static str, KernelArgumentValue<'a, T, M>)>,
) -> Seq<(&'static str, KernelArgument<'a, T, M>)> {
    Seq::new(arguments.len(), |i: int| (arguments[i].0, arguments[i].1.argument()))
}

impl<C> MathAccelerator<C> {
    /// The request for the kernel function `kernel_function_name`, with one
    /// work item per element of `workers` and with `arguments` bound in their
    /// order, each under its name.
    pub fn create_kernel<'a, T, D, M>(
        &'a self,
        kernel_function_name: &'static str,
        workers: D,
        arguments: &[(&'static str, KernelArgumentValue<'a, T, M>)],
    ) -> (request: KernelRequest<'a, T, C, M>) where T: BufferType, D: Dimensions
        ensures
            request.accelerator == self,
            request.name == kernel_function_name,
            request.global_work_size.extents() == workers.extents(),
            request.arguments@ == bound_arguments(arguments@),
    {
        let mut bound: Vec<(&'static str, KernelArgument<'a, T, M>)> = Vec::new();
        let mut index: usize = 0;
        while index < arguments.len()
            invariant
                index <= arguments@.len(),
                bound@.len() == index,
                forall|i: int|
                    0 <= i < index ==> bound@[i] == (arguments@[i].0, arguments@[i].1.argument()),
            decreases arguments@.len() - index,
        {
            let named = &arguments[index];
            bound.push((named.0, named.1.resolve()));
            index = index + 1;
        }
        assert(bound@ =~= bound_arguments(arguments@));
        KernelRequest {
            accelerator: self,
            name: kernel_function_name,
            global_work_size: workers.global_work_size(),
            arguments: bound,
        }
    }
}

impl<'a, T, C, M> KernelRequest<'a, T, C, M> {
    /// The kernel, once the backend has answered the request: `outcome` is
    /// what it built, or how it failed. A failed build leaves no kernel, so
    /// nothing of it can be enqueued.
    pub fn built<K>(self, outcome: Result<K, BuildFailure>) -> (kernel: Result<
        Kernel<K>,
        AcceleratorError,
    >)
        ensures
            match outcome {
                Ok(handle) => kernel matches Ok(k) && k.handle() == handle,
                Err(BuildFailure::Kernel(diagnostic)) => kernel matches Err(e) && e
                    == AcceleratorError::KernelBuildError(diagnostic),
                Err(BuildFailure::Argument(diagnostic)) => kernel matches Err(e) && e
                    == AcceleratorError::ArgumentBindError(diagnostic),
            },
    {
        match outcome {
            Ok(handle) => Ok(Kernel { handle }),
            Err(BuildFailure::Kernel(diagnostic)) => Err(
                AcceleratorError::KernelBuildError(diagnostic),
            ),
            Err(BuildFailure::Argument(diagnostic)) => Err(
                AcceleratorError::ArgumentBindError(diagnostic),
            ),
        }
    }
}

impl<K> Kernel<K> {
    /// What the backend built.
    pub closed spec fn spec_handle(&self) -> &K {
        &self.handle
    }

    /// What the backend built: the thing to enqueue.
    #[verifier::when_used_as_spec(spec_handle)]
    pub fn handle(&self) -> (handle: &K)
        ensures
            handle == self.handle(),
    {
        &self.handle
    }

    /// Settles one enqueue of the kernel: `outcome` is the backend's answer,
    /// nothing on success or its diagnostic.
    pub fn enq(&self, outcome: Result<(), String>) -> (enqueued: Result<(), AcceleratorError>)
        ensures
            match outcome {
                Ok(_) => enqueued is Ok,
                Err(diagnostic) => enqueued matches Err(e) && e
                    == AcceleratorError::BackendOperationError(diagnostic),
            },
    {
        match outcome {
            Ok(_) => Ok(()),
            Err(diagnostic) => Err(AcceleratorError::BackendOperationError(diagnostic)),
        }
    }
}

} // verus!

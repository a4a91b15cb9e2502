//! Typed buffers: a shape, an element type and the backend's memory.

use crate::accelerator::MathAccelerator;
use crate::buffer_type::BufferType;
use crate::dimensions::{allocation_len, checked_product, product, Dimensions};
use crate::error::AcceleratorError;
use core::marker::PhantomData;
use vstd::prelude::*;

verus! {

/// How kernels may use a buffer's memory.
#[derive(Clone, Copy, Debug, PartialEq, Eq, Structural)]
pub enum MemoryAccess {
    ReadWrite,
    ReadOnly,
    WriteOnly,
}

/// What the backend is asked to allocate for a buffer.
#[derive(Clone, Copy, Debug, PartialEq, Eq, Structural)]
pub struct BufferRequest {
    /// Number of elements, never zero.
    pub len: usize,
    /// Access that kernels get.
    pub access: MemoryAccess,
}

/// A buffer whose shape is settled and whose memory the backend has not
/// handed out yet.
#[derive(Debug)]
pub struct PendingBuffer<'a, T, D, C> where T: BufferType, D: Dimensions {
    math_accelerator: &'a MathAccelerator<C>,
    dimensions: D,
    element: PhantomData<T>,
}

/// A typed array in the backend's memory. `M` is whatever the backend hands
/// out for an allocation; the library carries it and never looks inside.
#[derive(Debug)]
pub struct ConstantBuffer<'a, T, D, C, M> where T: BufferType, D: Dimensions {
    math_accelerator: &'a MathAccelerator<C>,
    dimensions: D,
    memory: M,
    element: PhantomData<T>,
}

impl<C> MathAccelerator<C> {
    /// A buffer of one axis, as long as `vec`.
    ///
    /// The contents of `vec` are not uploaded: the buffer's memory starts out
    /// in whatever state the backend allocates it in.
    pub fn create_constant_buffer<T>(&self, vec: &[T]) -> (pending: Result<
        PendingBuffer<'_, T, usize, C>,
        AcceleratorError,
    >) where T: BufferType
        ensures
            pending matches Ok(p) && p.accelerator() == self && *p.dimensions() == vec@.len(),
    {
        proof {
            crate::dimensions::lemma_product_one(vec@.len());
        }
        self.create_constant_buffer_with_dimensions(vec, vec.len())
    }

    /// A buffer of shape `dimensions` for data of the length of `vec`. The
    /// two must agree; where they do not, nothing is asked of the backend.
    ///
    /// The contents of `vec` are not uploaded: the buffer's memory starts out
    /// in whatever state the backend allocates it in.
    pub fn create_constant_buffer_with_dimensions<T, D>(
        &self,
        vec: &[T],
        dimensions: D,
    ) -> (pending: Result<PendingBuffer<'_, T, D, C>, AcceleratorError>) where
        T: BufferType,
        D: Dimensions,
        ensures
            product(dimensions.extents()) == vec@.len() ==> (pending matches Ok(p)
                && p.accelerator() == self && p.dimensions() == dimensions),
            product(dimensions.extents()) != vec@.len() ==> (pending matches Err(e) && e == (
                AcceleratorError::ShapeMismatchError {
                    declared: checked_product(dimensions.extents()),
                    supplied: vec@.len() as usize,
                }
            )),
    {
        let declared = dimensions.checked_multiply();
        match declared {
            Some(len) => {
                if len == vec.len() {
                    Ok(PendingBuffer { math_accelerator: self, dimensions, element: PhantomData })
                } else {
                    Err(AcceleratorError::ShapeMismatchError { declared, supplied: vec.len() })
                }
            },
            None => Err(AcceleratorError::ShapeMismatchError { declared, supplied: vec.len() }),
        }
    }
}

impl<'a, T, D, C> PendingBuffer<'a, T, D, C> where T: BufferType, D: Dimensions {
    #[verifier::type_invariant]
    spec fn countable(self) -> bool {
        product(self.dimensions.extents()) <= usize::MAX
    }

    /// The context that the buffer belongs to.
    pub closed spec fn spec_accelerator(&self) -> &'a MathAccelerator<C> {
        self.math_accelerator
    }

    /// The buffer's shape.
    pub closed spec fn spec_dimensions(&self) -> &D {
        &self.dimensions
    }

    /// The context that the buffer belongs to.
    #[verifier::when_used_as_spec(spec_accelerator)]
    pub fn accelerator(&self) -> (accelerator: &'a MathAccelerator<C>)
        ensures
            accelerator == self.accelerator(),
    {
        self.math_accelerator
    }

    /// The buffer's shape.
    #[verifier::when_used_as_spec(spec_dimensions)]
    pub fn dimensions(&self) -> (dimensions: &D)
        ensures
            dimensions == self.dimensions(),
    {
        &self.dimensions
    }

    /// The allocation to ask the backend for: one element per element of the
    /// shape, one element for an empty shape, open to reads and writes.
    pub open spec fn spec_request(&self) -> BufferRequest {
        (BufferRequest {
            len: allocation_len(self.dimensions().extents()) as usize,
            access: MemoryAccess::ReadWrite,
        })
    }

    /// The allocation to ask the backend for: one element per element of the
    /// shape, one element for an empty shape, open to reads and writes.
    #[verifier::when_used_as_spec(spec_request)]
    pub fn request(&self) -> (request: BufferRequest)
        ensures
            request == self.request(),
            request.len == allocation_len(self.dimensions().extents()),
            request.len >= 1,
    {
        proof {
            use_type_invariant(self);
        }
        let len = self.dimensions.multiply();
        BufferRequest { len: if len == 0 { 1 } else { len }, access: MemoryAccess::ReadWrite }
    }

    /// The buffer, once the backend has answered the request: `outcome` is
    /// the memory it allocated, or its diagnostic.
    pub fn allocated<M>(self, outcome: Result<M, String>) -> (buffer: Result<
        ConstantBuffer<'a, T, D, C, M>,
        AcceleratorError,
    >)
        ensures
            match outcome {
                Ok(memory) => buffer matches Ok(b) && b.accelerator() == self.accelerator()
                    && b.dimensions() == self.dimensions() && b.memory() == memory,
                Err(diagnostic) => buffer matches Err(e) && e
                    == AcceleratorError::BackendOperationError(diagnostic),
            },
    {
        proof {
            use_type_invariant(&self);
        }
        match outcome {
            Ok(memory) => Ok(
                ConstantBuffer {
                    math_accelerator: self.math_accelerator,
                    dimensions: self.dimensions,
                    memory,
                    element: PhantomData,
                },
            ),
            Err(diagnostic) => Err(AcceleratorError::BackendOperationError(diagnostic)),
        }
    }
}

impl<'a, T, D, C, M> ConstantBuffer<'a, T, D, C, M> where T: BufferType, D: Dimensions {
    #[verifier::type_invariant]
    spec fn countable(self) -> bool {
        product(self.dimensions.extents()) <= usize::MAX
    }

    /// The context that the buffer belongs to.
    pub closed spec fn spec_accelerator(&self) -> &'a MathAccelerator<C> {
        self.math_accelerator
    }

    /// The buffer's shape.
    pub closed spec fn spec_dimensions(&self) -> &D {
        &self.dimensions
    }

    /// The backend's memory.
    pub closed spec fn spec_memory(&self) -> &M {
        &self.memory
    }

    /// The context that the buffer belongs to.
    #[verifier::when_used_as_spec(spec_accelerator)]
    pub fn accelerator(&self) -> (accelerator: &'a MathAccelerator<C>)
        ensures
            accelerator == self.accelerator(),
    {
        self.math_accelerator
    }

    /// The buffer's shape.
    #[verifier::when_used_as_spec(spec_dimensions)]
    pub fn dimensions(&self) -> (dimensions: &D)
        ensures
            dimensions == self.dimensions(),
    {
        &self.dimensions
    }

    /// The backend's memory.
    #[verifier::when_used_as_spec(spec_memory)]
    pub fn memory(&self) -> (memory: &M)
        ensures
            memory == self.memory(),
    {
        &self.memory
    }

    /// The number of elements that the buffer holds: the element count of
    /// its shape, zero for an empty shape.
    pub fn len(&self) -> (len: usize)
        ensures
            len == product(self.dimensions().extents()),
    {
        proof {
            use_type_invariant(self);
        }
        self.dimensions.multiply()
    }

    /// A new buffer of the same shape and element type in the same context.
    /// Nothing is copied.
    pub fn duplicate(&self) -> (pending: PendingBuffer<'a, T, D, C>) where D: Copy
        ensures
            pending.accelerator() == self.accelerator(),
            pending.dimensions() == self.dimensions(),
    {
        proof {
            use_type_invariant(self);
        }
        self.duplicate_with_dimensions(self.dimensions)
    }

    /// A new buffer of shape `dimensions` and the same element type in the
    /// same context, whatever this buffer's shape is. Nothing is copied.
    pub fn duplicate_with_dimensions<D2>(&self, dimensions: D2) -> (pending: PendingBuffer<
        'a,
        T,
        D2,
        C,
    >) where D2: Dimensions
        requires
            product(dimensions.extents()) <= usize::MAX,
        ensures
            pending.accelerator() == self.accelerator(),
            pending.dimensions() == dimensions,
    {
        PendingBuffer { math_accelerator: self.math_accelerator, dimensions, element: PhantomData }
    }
}

} // verus!

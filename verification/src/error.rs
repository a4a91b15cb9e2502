//! What can go wrong, and what the backend reports when it does.

use vstd::prelude::*;

verus! {

/// Why no accelerator context could be set up.
#[derive(Debug, PartialEq, Eq)]
pub enum InitFailure {
    /// The backend enumerated no compute device.
    NoDevices,
    /// The backend failed while it enumerated devices, compiled the kernel
    /// source or created the queue; the text is its diagnostic, unchanged.
    Backend(String),
}

/// How the backend failed to build a kernel; the text is its diagnostic.
#[derive(Debug, PartialEq, Eq)]
pub enum BuildFailure {
    /// The compiled program could not provide the named kernel function.
    Kernel(String),
    /// An argument does not fit the kernel function's signature.
    Argument(String),
}

/// The library's errors. Backend diagnostics are carried unchanged.
#[derive(Debug, PartialEq, Eq)]
pub enum AcceleratorError {
    /// No device was found, or the context could not be built.
    BackendInitError(InitFailure),
    /// The data handed in does not have the length that the shape declares.
    /// `declared` is the shape's element count, `None` where it exceeds the
    /// machine's word; `supplied` is the length of the data.
    ShapeMismatchError { declared: Option<usize>, supplied: usize },
    /// The named kernel function is not in the compiled program.
    KernelBuildError(String),
    /// A named argument does not fit the kernel function's signature.
    ArgumentBindError(String),
    /// The backend failed during an allocation or an enqueue.
    BackendOperationError(String),
}

} // verus!

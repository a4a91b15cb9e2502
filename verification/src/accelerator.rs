//! The accelerator context: one bound device, one compiled program, one queue.

use crate::dimensions::WorkSize;
use crate::error::{AcceleratorError, InitFailure};
use crate::kernels::KERNELS_SRC;
use vstd::prelude::*;

verus! {

/// Work items that a fresh context is dimensioned for by default.
pub const DEFAULT_WORK_ITEMS: usize = 0x4000_0000;

/// What the backend is asked to set up for a context.
#[derive(Clone, Copy, Debug, PartialEq, Eq)]
pub struct ContextRequest {
    /// Index of the device to bind, in the order of enumeration.
    pub device: usize,
    /// Default work size of the context.
    pub work_size: WorkSize,
    /// Kernel source to compile for that device.
    pub source: &'static str,
}

impl ContextRequest {
    /// Chooses the device once the backend has enumerated its devices, or
    /// failed to: `devices` is their number, or the backend's diagnostic.
    ///
    /// The policy is fixed: the device enumerated last is bound. With no
    /// device there is nothing to bind.
    pub fn select(devices: Result<usize, String>) -> (request: Result<
        ContextRequest,
        AcceleratorError,
    >)
        ensures
            match devices {
                Ok(count) => if count == 0 {
                    request == Err::<ContextRequest, AcceleratorError>(
                        AcceleratorError::BackendInitError(InitFailure::NoDevices),
                    )
                } else {
                    request == Ok::<ContextRequest, AcceleratorError>(
                        (ContextRequest {
                            device: (count - 1) as usize,
                            work_size: WorkSize::One(DEFAULT_WORK_ITEMS),
                            source: KERNELS_SRC,
                        }),
                    )
                },
                Err(diagnostic) => request == Err::<ContextRequest, AcceleratorError>(
                    AcceleratorError::BackendInitError(InitFailure::Backend(diagnostic)),
                ),
            },
    {
        match devices {
            Ok(count) => {
                if count == 0 {
                    Err(AcceleratorError::BackendInitError(InitFailure::NoDevices))
                } else {
                    Ok(
                        ContextRequest {
                            device: count - 1,
                            work_size: WorkSize::One(DEFAULT_WORK_ITEMS),
                            source: KERNELS_SRC,
                        },
                    )
                }
            },
            Err(diagnostic) => Err(
                AcceleratorError::BackendInitError(InitFailure::Backend(diagnostic)),
            ),
        }
    }
}

/// The accelerator context. `C` is whatever the backend hands out for a
/// bound device with its compiled program and queue; the library carries it
/// and never looks inside.
#[derive(Debug)]
pub struct MathAccelerator<C> {
    device: usize,
    context: C,
}

impl<C> MathAccelerator<C> {
    /// Index of the bound device, in the order of enumeration.
    pub closed spec fn spec_device(&self) -> usize {
        self.device
    }

    /// The backend's context.
    pub closed spec fn spec_context(&self) -> &C {
        &self.context
    }

    /// The context for `request`, once the backend has answered it: `built`
    /// is what it set up, or its diagnostic.
    pub fn new(request: ContextRequest, built: Result<C, String>) -> (accelerator: Result<
        Self,
        AcceleratorError,
    >)
        ensures
            match built {
                Ok(context) => accelerator matches Ok(a) && a.device() == request.device
                    && a.context() == context,
                Err(diagnostic) => accelerator matches Err(e) && e
                    == AcceleratorError::BackendInitError(InitFailure::Backend(diagnostic)),
            },
    {
        match built {
            Ok(context) => Ok(MathAccelerator { device: request.device, context }),
            Err(diagnostic) => Err(
                AcceleratorError::BackendInitError(InitFailure::Backend(diagnostic)),
            ),
        }
    }

    /// Index of the bound device, in the order of enumeration.
    #[verifier::when_used_as_spec(spec_device)]
    pub fn device(&self) -> (device: usize)
        ensures
            device == self.device(),
    {
        self.device
    }

    /// The backend's context.
    #[verifier::when_used_as_spec(spec_context)]
    pub fn context(&self) -> (context: &C)
        ensures
            context == self.context(),
    {
        &self.context
    }
}

} // verus!

//! Failures that the runtime reports to its caller rather than terminating.
use vstd::prelude::*;

verus! {

/// Out of memory.
pub const ENOMEM: i32 = 12;

/// Invalid argument.
pub const EINVAL: i32 = 22;

/// A failure of one stage of system setup, with the OS error code behind it.
#[derive(Clone, Copy, Debug, PartialEq, Eq, Structural)]
pub enum VmplError {
    /// A call into the driver failed.
    Io(i32),
    /// A system resource could not be had.
    Sys(i32),
    ApicSetupFailed(i32),
    SeimiSetupFailed(i32),
    SyscallSetupFailed(i32),
    VsyscallSetupFailed(i32),
    MemorySetupFailed(i32),
    SafeStackSetupFailed(i32),
    CpusetSetupFailed(i32),
    SignalSetupFailed(i32),
    IdtSetupFailed(i32),
}

impl VmplError {
    /// The OS error code carried by the failure.
    pub fn code(&self) -> (r: i32)
        ensures
            r == self.code_spec(),
    {
        match *self {
            VmplError::Io(e) => e,
            VmplError::Sys(e) => e,
            VmplError::ApicSetupFailed(e) => e,
            VmplError::SeimiSetupFailed(e) => e,
            VmplError::SyscallSetupFailed(e) => e,
            VmplError::VsyscallSetupFailed(e) => e,
            VmplError::MemorySetupFailed(e) => e,
            VmplError::SafeStackSetupFailed(e) => e,
            VmplError::CpusetSetupFailed(e) => e,
            VmplError::SignalSetupFailed(e) => e,
            VmplError::IdtSetupFailed(e) => e,
        }
    }

    pub open spec fn code_spec(&self) -> i32 {
        match *self {
            VmplError::Io(e) => e,
            VmplError::Sys(e) => e,
            VmplError::ApicSetupFailed(e) => e,
            VmplError::SeimiSetupFailed(e) => e,
            VmplError::SyscallSetupFailed(e) => e,
            VmplError::VsyscallSetupFailed(e) => e,
            VmplError::MemorySetupFailed(e) => e,
            VmplError::SafeStackSetupFailed(e) => e,
            VmplError::CpusetSetupFailed(e) => e,
            VmplError::SignalSetupFailed(e) => e,
            VmplError::IdtSetupFailed(e) => e,
        }
    }
}

impl From<i32> for VmplError {
    fn from(e: i32) -> (r: VmplError)
        ensures
            r == VmplError::Sys(e),
    {
        VmplError::Sys(e)
    }
}

impl vstd::std_specs::convert::FromSpecImpl<i32> for VmplError {
    open spec fn obeys_from_spec() -> bool {
        true
    }

    open spec fn from_spec(e: i32) -> VmplError {
        VmplError::Sys(e)
    }
}

} // verus!

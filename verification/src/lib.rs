//! Core of an Intel VT-x (VMX) based per-CPU hypervisor runtime.
//!
//! The crate models the decision logic of the runtime over plain machine
//! words: per-CPU VMX enablement, construction and configuration of a
//! Virtual Machine Control Structure (VMCS), the guest entry/exit state
//! machine, the built-in VM-exit handlers, and the intercept bitmaps.
//! Privileged instructions (VMX instructions, MSR and control-register
//! access, the entry/exit trampolines) are performed by an unverified
//! embedding that feeds their results to the functions here.

use vstd::prelude::*;

pub mod regs;
pub mod cpuid;
pub mod exit;
pub mod ept;
pub mod vmx;

verus! {

/// Error taxonomy of the runtime.
#[derive(Clone, Copy, Debug, PartialEq, Eq, Structural)]
pub enum VmxError {
    /// CPU or BIOS capability missing, or a request uses a feature that the
    /// VMX fixed-bit masks do not permit.
    Unsupported,
    /// VMX is already turned on for a core being enabled.
    ResourceBusy,
    /// Host control registers are not VMX-legal, a VMX instruction failed,
    /// or a precondition (enabled/bound) is violated.
    BadState,
    /// The guest issued a malformed request (for example a bad `XSETBV`).
    InvalidInput,
}

/// Result type carrying a [`VmxError`].
pub type VmxResult<T> = Result<T, VmxError>;

} // verus!

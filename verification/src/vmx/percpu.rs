//! Per-CPU VMX enablement.
//!
//! `hardware_enable` and `hardware_disable` decide, from a snapshot of
//! the host CPU taken by the embedding, whether the core may enter or
//! leave VMX root operation and what must be written back: the feature
//! control MSR, the new CR4 value, and the stamped VMXON region. The
//! embedding performs the privileged writes and the VMXON/VMXOFF
//! instructions themselves.

use vstd::prelude::*;
use crate::{VmxError, VmxResult};
use crate::vmx::definitions::{
    CR4_VMXE, CR4_OSXSAVE, FEATURE_CONTROL_LOCKED, FEATURE_CONTROL_VMXON_OUTSIDE_SMX,
};
use crate::vmx::structs::{VmxBasic, VmxRegion, VMX_MEMORY_TYPE_WRITE_BACK, PAGE_SIZE};

verus! {

/// Snapshot of the host state that VMX enablement depends on, read by
/// the embedding on the core being enabled.
#[derive(Clone, Copy, Debug, PartialEq, Eq, Structural)]
pub struct HostVmxFeatures {
    /// Whether CPUID advertises VMX (leaf 1 ECX bit 5).
    pub has_vmx: bool,
    /// Whether CPUID advertises XSAVE (leaf 1 ECX bit 26).
    pub has_xsave: bool,
    /// Current IA32_FEATURE_CONTROL.
    pub feature_control: u64,
    /// Current host CR0.
    pub cr0: u64,
    /// Current host CR4.
    pub cr4: u64,
    /// IA32_VMX_CR0_FIXED0: CR0 bits that must be 1 in VMX operation.
    pub cr0_fixed0: u64,
    /// IA32_VMX_CR0_FIXED1: CR0 bits that may be 1 in VMX operation.
    pub cr0_fixed1: u64,
    /// IA32_VMX_CR4_FIXED0: CR4 bits that must be 1 in VMX operation.
    pub cr4_fixed0: u64,
    /// IA32_VMX_CR4_FIXED1: CR4 bits that may be 1 in VMX operation.
    pub cr4_fixed1: u64,
    /// Raw IA32_VMX_BASIC.
    pub vmx_basic: u64,
}

/// What the embedding must do to finish a successful enablement, in
/// order: optionally write IA32_FEATURE_CONTROL, load CR4, then execute
/// VMXON on the stamped region.
#[derive(Clone, Copy, Debug, PartialEq, Eq, Structural)]
pub struct EnablePlan {
    /// Value to write to IA32_FEATURE_CONTROL, when the BIOS left it
    /// unlocked.
    pub feature_control_write: Option<u64>,
    /// The CR4 value to load: the current one, with OSXSAVE set when the
    /// CPU has XSAVE, and VMXE set.
    pub new_cr4: u64,
}

/// A control-register value is VMX-legal when every must-be-1 bit is set
/// and every may-not-be-1 bit is clear (SDM Vol. 3C, Appendix A.7, A.8).
pub open spec fn cr_vmx_legal(value: u64, fixed0: u64, fixed1: u64) -> bool {
    value & fixed0 == fixed0 && value & !fixed1 == 0
}

/// Check that a control-register value is VMX-legal.
pub fn check_cr_vmx_legal(value: u64, fixed0: u64, fixed1: u64) -> (r: bool)
    ensures
        r == cr_vmx_legal(value, fixed0, fixed1),
{
    value & fixed0 == fixed0 && value & !fixed1 == 0
}

/// The CR4 value against which legality is checked and from which the
/// final CR4 is built: the snapshot value, with OSXSAVE set first when
/// the CPU has XSAVE.
pub open spec fn cr4_after_osxsave(host: HostVmxFeatures) -> u64 {
    if host.has_xsave {
        host.cr4 | CR4_OSXSAVE
    } else {
        host.cr4
    }
}

/// The checks of VMX enablement in order, each with the error it fails
/// with: no VMX, already enabled, locked out by the BIOS, an illegal
/// host CR0 or CR4, and an unusable IA32_VMX_BASIC report.
pub open spec fn enable_error_spec(host: HostVmxFeatures) -> Option<VmxError> {
    let basic = VmxBasic::decode_spec(host.vmx_basic);
    if !host.has_vmx {
        Some(VmxError::Unsupported)
    } else if host.cr4 & CR4_VMXE != 0 {
        Some(VmxError::ResourceBusy)
    } else if host.feature_control & FEATURE_CONTROL_LOCKED != 0
        && host.feature_control & FEATURE_CONTROL_VMXON_OUTSIDE_SMX == 0 {
        Some(VmxError::Unsupported)
    } else if !cr_vmx_legal(host.cr0, host.cr0_fixed0, host.cr0_fixed1) {
        Some(VmxError::BadState)
    } else if !cr_vmx_legal(cr4_after_osxsave(host), host.cr4_fixed0, host.cr4_fixed1) {
        Some(VmxError::BadState)
    } else if basic.region_size != PAGE_SIZE as u16 {
        Some(VmxError::Unsupported)
    } else if basic.mem_type != VMX_MEMORY_TYPE_WRITE_BACK {
        Some(VmxError::Unsupported)
    } else if basic.is_32bit_address {
        Some(VmxError::Unsupported)
    } else if !basic.io_exit_info {
        Some(VmxError::Unsupported)
    } else if !basic.vmx_flex_controls {
        Some(VmxError::Unsupported)
    } else {
        None
    }
}

/// Per-CPU VMX state: the VMCS revision identifier the CPU reported and
/// the VMXON region of this core.
pub struct VmxPerCpuState {
    /// The VMCS revision identifier, valid after a successful
    /// `hardware_enable`.
    pub vmcs_revision_id: u32,
    /// The VMXON region of this core.
    pub vmx_region: VmxRegion,
}

impl VmxPerCpuState {
    /// Fresh state for one core: no revision, no region.
    pub fn new(cpu_id: usize) -> (r: Self)
        ensures
            r.vmcs_revision_id == 0,
            !r.vmx_region.initialized(),
    {
        let _ = cpu_id;
        VmxPerCpuState { vmcs_revision_id: 0, vmx_region: VmxRegion::uninit() }
    }

    /// Whether VMX is on for the core whose CR4 is given: CR4.VMXE.
    pub fn is_enabled(&self, cr4: u64) -> (r: bool)
        ensures
            r == (cr4 & CR4_VMXE != 0),
    {
        cr4 & CR4_VMXE != 0
    }

    /// Decide whether this core may enter VMX root operation and build
    /// the plan for it.
    ///
    /// The checks run in the order of [`enable_error_spec`] and the
    /// first failing one decides the error; nothing is changed then. On
    /// success the reported revision identifier is recorded, the VMXON
    /// region is a freshly stamped page, the feature-control write is
    /// prescribed exactly when the BIOS left the MSR unlocked, and the
    /// new CR4 has VMXE set on top of the checked value.
    pub fn hardware_enable(&mut self, host: &HostVmxFeatures) -> (r: VmxResult<EnablePlan>)
        ensures
            r.is_ok() <==> enable_error_spec(*host) is None,
            r.is_err() ==> {
                &&& Some(r.unwrap_err()) == enable_error_spec(*host)
                &&& *final(self) == *old(self)
            },
            r.is_ok() ==> {
                &&& final(self).vmcs_revision_id == VmxBasic::decode_spec(host.vmx_basic).revision_id
                &&& final(self).vmx_region.stamped(final(self).vmcs_revision_id, false)
                &&& r.unwrap().feature_control_write == (
                    if host.feature_control & FEATURE_CONTROL_LOCKED == 0 {
                        Some((host.feature_control | FEATURE_CONTROL_LOCKED
                            | FEATURE_CONTROL_VMXON_OUTSIDE_SMX) as u64)
                    } else {
                        None::<u64>
                    })
                &&& r.unwrap().new_cr4 == cr4_after_osxsave(*host) | CR4_VMXE
            },
    {
        if !host.has_vmx {
            return Err(VmxError::Unsupported);
        }
        if self.is_enabled(host.cr4) {
            return Err(VmxError::ResourceBusy);
        }

        let locked = host.feature_control & FEATURE_CONTROL_LOCKED != 0;
        let vmxon_outside = host.feature_control & FEATURE_CONTROL_VMXON_OUTSIDE_SMX != 0;
        if locked && !vmxon_outside {
            return Err(VmxError::Unsupported);
        }
        let feature_control_write = if !locked {
            Some(host.feature_control | FEATURE_CONTROL_LOCKED | FEATURE_CONTROL_VMXON_OUTSIDE_SMX)
        } else {
            None
        };

        if !check_cr_vmx_legal(host.cr0, host.cr0_fixed0, host.cr0_fixed1) {
            return Err(VmxError::BadState);
        }
        let cr4_checked = if host.has_xsave { host.cr4 | CR4_OSXSAVE } else { host.cr4 };
        if !check_cr_vmx_legal(cr4_checked, host.cr4_fixed0, host.cr4_fixed1) {
            return Err(VmxError::BadState);
        }

        let basic = VmxBasic::decode(host.vmx_basic);
        if basic.region_size as usize != PAGE_SIZE {
            return Err(VmxError::Unsupported);
        }
        if basic.mem_type != VMX_MEMORY_TYPE_WRITE_BACK {
            return Err(VmxError::Unsupported);
        }
        if basic.is_32bit_address {
            return Err(VmxError::Unsupported);
        }
        if !basic.io_exit_info {
            return Err(VmxError::Unsupported);
        }
        if !basic.vmx_flex_controls {
            return Err(VmxError::Unsupported);
        }

        proof {
            let raw = host.vmx_basic;
            let rid = basic.revision_id;
            assert(rid < 0x8000_0000) by (bit_vector)
                requires rid == (raw & 0x7fff_ffff) as u32;
        }
        self.vmcs_revision_id = basic.revision_id;
        self.vmx_region = VmxRegion::new(basic.revision_id, false);

        Ok(EnablePlan { feature_control_write, new_cr4: cr4_checked | CR4_VMXE })
    }

    /// Decide whether this core may leave VMX root operation: fails with
    /// `BadState` when VMX is not on; otherwise the region is released
    /// and the returned CR4 is the current one with VMXE cleared. The
    /// embedding executes VMXOFF before loading it.
    pub fn hardware_disable(&mut self, cr4: u64) -> (r: VmxResult<u64>)
        ensures
            r.is_ok() <==> cr4 & CR4_VMXE != 0,
            r.is_err() ==> {
                &&& r == VmxResult::<u64>::Err(VmxError::BadState)
                &&& *final(self) == *old(self)
            },
            r.is_ok() ==> {
                &&& r.unwrap() == cr4 & !CR4_VMXE
                &&& !final(self).vmx_region.initialized()
                &&& final(self).vmcs_revision_id == old(self).vmcs_revision_id
            },
    {
        if cr4 & CR4_VMXE == 0 {
            return Err(VmxError::BadState);
        }
        self.vmx_region = VmxRegion::uninit();
        Ok(cr4 & !CR4_VMXE)
    }
}

/// Enabling and then disabling VMX leaves CR4.VMXE as it was before the
/// pair (enable demands it clear, disable clears it again), and
/// afterwards VMX reads as off. The two steps are described by the
/// contracts of [`VmxPerCpuState::hardware_enable`] and
/// [`VmxPerCpuState::hardware_disable`].
pub proof fn lemma_enable_disable_round_trip(host: HostVmxFeatures, plan: EnablePlan, cr4_after: u64)
    requires
        enable_error_spec(host) is None,
        plan.new_cr4 == cr4_after_osxsave(host) | CR4_VMXE,
        cr4_after == plan.new_cr4 & !CR4_VMXE,
    ensures
        cr4_after & CR4_VMXE == 0,
        host.cr4 & CR4_VMXE == 0,
        cr4_after & CR4_VMXE == host.cr4 & CR4_VMXE,
{
    assert(host.cr4 & CR4_VMXE == 0);
    let c = cr4_after_osxsave(host);
    assert((c | CR4_VMXE) & !CR4_VMXE & CR4_VMXE == 0) by (bit_vector);
}

} // verus!

//! The virtual CPU: construction, VMCS configuration, the entry/exit
//! state machine, and the built-in VM-exit handlers.
//!
//! All decisions are made here over the modeled VMCS and register file;
//! the embedding runs the privileged instructions (VMX entry and exit,
//! MSR, XCR0 and control-register access) and moves values between the
//! hardware and this model.

use vstd::prelude::*;
use std::collections::VecDeque;
use crate::{VmxError, VmxResult};
use crate::regs::GeneralRegisters;
use crate::cpuid::{CpuidValues, cpuid_adjust_spec, cpuid_adjust, cpuid_needs_guest_xstate,
    host_supports_xsave, host_supports_xsaves, host_supports_rdtscp, host_supports_invpcid,
    LEAF_EXTENDED_STATE};
use crate::ept::GuestPageWalkInfo;
use crate::exit::{AccessWidth, ExitReason};
use crate::vmx::definitions::{
    VmxExitReason, vector_has_error_code_spec, CR0_PE, CR0_ET, CR0_WP, CR0_NW, CR0_CD, CR0_PG,
    CR4_PSE, CR4_PAE, CR4_VMXE, CR4_OSXSAVE, CR4_SMEP, CR4_SMAP,
    EFER_LME, EFER_LMA, EFER_NXE, RFLAGS_IF,
    XCR0_FPU_MMX, XCR0_SSE, XCR0_AVX, XCR0_BNDREG, XCR0_BNDCSR,
    XCR0_OPMASK, XCR0_ZMM_HI256, XCR0_HI16_ZMM, XCR0_KNOWN_MASK,
};
use crate::vmx::structs::{VmxRegion, IOBitmap, MsrBitmap, msr_in_bitmap_range};
use crate::vmx::vmcs::{
    Vmcs, GuestState, GuestSegment, HostState, ControlState, VmxExitInfo, VmxInterruptInfo,
    VmxIoExitInfo, NestedPageFaultInfo, ApicAccessExitInfo, ApicAccessExitType,
    control_value, control_value_spec, control_request_allowed, allowed0, ept_pointer,
    ept_pointer_spec,
    get_tr_base, tr_base_spec,
    PIN_EXTERNAL_INTERRUPT_EXITING, PIN_NMI_EXITING,
    PRIMARY_INTERRUPT_WINDOW_EXITING, PRIMARY_CR3_LOAD_EXITING, PRIMARY_CR3_STORE_EXITING,
    PRIMARY_CR8_LOAD_EXITING, PRIMARY_CR8_STORE_EXITING, PRIMARY_USE_IO_BITMAPS,
    PRIMARY_USE_MSR_BITMAPS, PRIMARY_SECONDARY_CONTROLS,
    SECONDARY_ENABLE_EPT, SECONDARY_ENABLE_RDTSCP, SECONDARY_UNRESTRICTED_GUEST,
    SECONDARY_ENABLE_INVPCID, SECONDARY_ENABLE_XSAVES_XRSTORS,
    EXIT_HOST_ADDRESS_SPACE_SIZE, EXIT_ACK_INTERRUPT_ON_EXIT, EXIT_SAVE_IA32_PAT,
    EXIT_LOAD_IA32_PAT, EXIT_SAVE_IA32_EFER, EXIT_LOAD_IA32_EFER,
    ENTRY_IA32E_MODE_GUEST, ENTRY_LOAD_IA32_PAT, ENTRY_LOAD_IA32_EFER,
};

verus! {

/// Initial value of the VMX-preemption timer, rearmed on every timer
/// exit.
pub const VMX_PREEMPTION_TIMER_SET_VALUE: u32 = 1_000_000;

/// Port through which the guest asks the platform to power down.
pub const QEMU_EXIT_PORT: u16 = 0x604;
/// Magic word that must be in RAX for the power-down request.
pub const QEMU_EXIT_MAGIC: u64 = 0x2000;

/// Exception-bitmap bit of `#UD` (vector 6), the only exception
/// intercepted.
pub const EXCEPTION_BITMAP_UD: u32 = 0x40;

/// First x2APIC MSR routed to the emulated local APIC.
pub const X2APIC_MSR_BASE: u32 = 0x800;
/// Last x2APIC MSR routed to the emulated local APIC. The SDM reserves
/// up to 0x8ff although the defined registers end at 0x83f.
pub const X2APIC_MSR_END: u32 = 0x8ff;
/// Last x2APIC MSR intercepted in the MSR bitmap.
pub const X2APIC_MSR_BITMAP_END: u32 = 0x83f;
/// The IA32_UMWAIT_CONTROL MSR, intercepted in both directions.
pub const MSR_IA32_UMWAIT_CONTROL: u32 = 0xe1;

/// Host and guest extended state: XCR0 and IA32_XSS on both sides of a
/// world switch.
pub struct XState {
    host_xcr0: u64,
    guest_xcr0: u64,
    host_xss: u64,
    guest_xss: u64,
    xsave_available: bool,
    xsaves_available: bool,
}

/// The values an extended-state switch asks the embedding to load.
#[derive(Clone, Copy, Debug, PartialEq, Eq, Structural)]
pub struct XStateLoad {
    /// Value to load into XCR0, when XSAVE is available.
    pub xcr0: Option<u64>,
    /// Value to load into IA32_XSS, when XSAVES is available.
    pub xss: Option<u64>,
}

impl XState {
    /// Build the extended state from what the executing CPU reports:
    /// `host_xcr0` is honoured only with XSAVE available, `host_xss`
    /// only with XSAVES available on top of XSAVE, and the guest starts
    /// with the host values.
    pub fn new(xsave_available: bool, xsaves_available: bool, host_xcr0: u64, host_xss: u64)
        -> (r: Self)
        ensures
            r.has_xsave() == xsave_available,
            r.has_xsaves() == (xsave_available && xsaves_available),
            r.host_xcr0() == (if xsave_available { host_xcr0 } else { 0 }),
            r.guest_xcr0() == r.host_xcr0(),
            r.host_xss() == (if xsave_available && xsaves_available { host_xss } else { 0 }),
            r.guest_xss() == r.host_xss(),
    {
        let xsaves = if xsave_available { xsaves_available } else { false };
        let xcr0 = if xsave_available { host_xcr0 } else { 0 };
        let xss = if xsaves { host_xss } else { 0 };
        XState {
            host_xcr0: xcr0,
            guest_xcr0: xcr0,
            host_xss: xss,
            guest_xss: xss,
            xsave_available,
            xsaves_available: xsaves,
        }
    }

    /// The host XCR0 snapshot.
    pub closed spec fn host_xcr0(&self) -> u64 {
        self.host_xcr0
    }

    /// The guest XCR0.
    pub closed spec fn guest_xcr0(&self) -> u64 {
        self.guest_xcr0
    }

    /// The host IA32_XSS snapshot.
    pub closed spec fn host_xss(&self) -> u64 {
        self.host_xss
    }

    /// The guest IA32_XSS.
    pub closed spec fn guest_xss(&self) -> u64 {
        self.guest_xss
    }

    /// Whether XSAVE is available.
    pub closed spec fn has_xsave(&self) -> bool {
        self.xsave_available
    }

    /// Whether XSAVES is available.
    pub closed spec fn has_xsaves(&self) -> bool {
        self.xsaves_available
    }

    /// The guest XCR0, readable.
    pub fn get_guest_xcr0(&self) -> (r: u64)
        ensures
            r == self.guest_xcr0(),
    {
        self.guest_xcr0
    }

    /// The host XCR0 snapshot, readable.
    pub fn get_host_xcr0(&self) -> (r: u64)
        ensures
            r == self.host_xcr0(),
    {
        self.host_xcr0
    }

    /// Whether the executing CPU advertises XSAVE.
    pub fn xsave_available() -> bool {
        host_supports_xsave()
    }

    /// Whether the executing CPU advertises XSAVES/XRSTORS.
    pub fn xsaves_available() -> bool {
        host_supports_xsaves()
    }

    /// The CR4 value that enables XSAVE instructions: OSXSAVE is set
    /// when the CPU has XSAVE, and CR4 is left alone otherwise.
    pub fn enable_xsave(cr4: u64, xsave_available: bool) -> (r: u64)
        ensures
            r == (if xsave_available { cr4 | CR4_OSXSAVE } else { cr4 }),
    {
        if xsave_available {
            cr4 | CR4_OSXSAVE
        } else {
            cr4
        }
    }

    /// Record the current host XCR0 and IA32_XSS and ask for the guest
    /// values to be loaded. Without XSAVE nothing is touched; without
    /// XSAVES the IA32_XSS half is skipped.
    pub fn switch_to_guest(&mut self, current_xcr0: u64, current_xss: u64) -> (r: XStateLoad)
        ensures
            final(self).has_xsave() == old(self).has_xsave(),
            final(self).has_xsaves() == old(self).has_xsaves(),
            final(self).guest_xcr0() == old(self).guest_xcr0(),
            final(self).guest_xss() == old(self).guest_xss(),
            old(self).has_xsave() ==> {
                &&& final(self).host_xcr0() == current_xcr0
                &&& r.xcr0 == Some(old(self).guest_xcr0())
            },
            !old(self).has_xsave() ==> {
                &&& final(self).host_xcr0() == old(self).host_xcr0()
                &&& r.xcr0 is None
            },
            old(self).has_xsaves() ==> {
                &&& final(self).host_xss() == current_xss
                &&& r.xss == Some(old(self).guest_xss())
            },
            !old(self).has_xsaves() ==> {
                &&& final(self).host_xss() == old(self).host_xss()
                &&& r.xss is None
            },
    {
        let mut load = XStateLoad { xcr0: None, xss: None };
        if self.xsave_available {
            self.host_xcr0 = current_xcr0;
            load.xcr0 = Some(self.guest_xcr0);
        }
        if self.xsaves_available {
            self.host_xss = current_xss;
            load.xss = Some(self.guest_xss);
        }
        load
    }

    /// Record the current guest XCR0 and IA32_XSS and ask for the host
    /// values to be loaded back; the mirror image of
    /// [`Self::switch_to_guest`].
    pub fn switch_to_host(&mut self, current_xcr0: u64, current_xss: u64) -> (r: XStateLoad)
        ensures
            final(self).has_xsave() == old(self).has_xsave(),
            final(self).has_xsaves() == old(self).has_xsaves(),
            final(self).host_xcr0() == old(self).host_xcr0(),
            final(self).host_xss() == old(self).host_xss(),
            old(self).has_xsave() ==> {
                &&& final(self).guest_xcr0() == current_xcr0
                &&& r.xcr0 == Some(old(self).host_xcr0())
            },
            !old(self).has_xsave() ==> {
                &&& final(self).guest_xcr0() == old(self).guest_xcr0()
                &&& r.xcr0 is None
            },
            old(self).has_xsaves() ==> {
                &&& final(self).guest_xss() == current_xss
                &&& r.xss == Some(old(self).host_xss())
            },
            !old(self).has_xsaves() ==> {
                &&& final(self).guest_xss() == old(self).guest_xss()
                &&& r.xss is None
            },
    {
        let mut load = XStateLoad { xcr0: None, xss: None };
        if self.xsave_available {
            self.guest_xcr0 = current_xcr0;
            load.xcr0 = Some(self.host_xcr0);
        }
        if self.xsaves_available {
            self.guest_xss = current_xss;
            load.xss = Some(self.host_xss);
        }
        load
    }
}

/// Operating mode of the guest CPU.
#[derive(Clone, Copy, Debug, PartialEq, Eq, Structural)]
pub enum VmCpuMode {
    Real,
    Protected,
    /// IA-32e mode with CS.L = 0.
    Compatibility,
    /// IA-32e mode with CS.L = 1.
    Mode64,
}

/// Snapshot of the VMX capability MSRs that VMCS configuration and
/// control-register coercion depend on, read once by the embedding.
#[derive(Clone, Copy, Debug, PartialEq, Eq, Structural)]
pub struct VmxCaps {
    /// IA32_VMX_TRUE_PINBASED_CTLS.
    pub true_pinbased_ctls: u64,
    /// Low 32 bits of IA32_VMX_PINBASED_CTLS, the legacy default value.
    pub pinbased_ctls: u32,
    /// IA32_VMX_TRUE_PROCBASED_CTLS.
    pub true_procbased_ctls: u64,
    /// Low 32 bits of IA32_VMX_PROCBASED_CTLS.
    pub procbased_ctls: u32,
    /// IA32_VMX_PROCBASED_CTLS2.
    pub procbased_ctls2: u64,
    /// IA32_VMX_TRUE_EXIT_CTLS.
    pub true_exit_ctls: u64,
    /// Low 32 bits of IA32_VMX_EXIT_CTLS.
    pub exit_ctls: u32,
    /// IA32_VMX_TRUE_ENTRY_CTLS.
    pub true_entry_ctls: u64,
    /// Low 32 bits of IA32_VMX_ENTRY_CTLS.
    pub entry_ctls: u32,
    /// IA32_VMX_CR0_FIXED0.
    pub cr0_fixed0: u64,
    /// IA32_VMX_CR0_FIXED1.
    pub cr0_fixed1: u64,
    /// IA32_VMX_CR4_FIXED0.
    pub cr4_fixed0: u64,
    /// IA32_VMX_CR4_FIXED1.
    pub cr4_fixed1: u64,
}

impl VmxCaps {
    /// No bit is both must-be-1 and must-be-0; every real CPU reports
    /// fixed masks of this shape.
    pub open spec fn wf(self) -> bool {
        self.cr0_fixed0 & !self.cr0_fixed1 == 0 && self.cr4_fixed0 & !self.cr4_fixed1 == 0
    }

    /// All-zero capabilities, the state before `setup` provides real
    /// ones.
    pub open spec fn zeroed_spec() -> VmxCaps {
        VmxCaps {
            true_pinbased_ctls: 0, pinbased_ctls: 0, true_procbased_ctls: 0,
            procbased_ctls: 0, procbased_ctls2: 0, true_exit_ctls: 0, exit_ctls: 0,
            true_entry_ctls: 0, entry_ctls: 0, cr0_fixed0: 0, cr0_fixed1: 0,
            cr4_fixed0: 0, cr4_fixed1: 0,
        }
    }

    /// Check the shape of the fixed masks.
    pub fn check_wf(&self) -> (r: bool)
        ensures
            r == self.wf(),
    {
        self.cr0_fixed0 & !self.cr0_fixed1 == 0 && self.cr4_fixed0 & !self.cr4_fixed1 == 0
    }
}

/// CR0 bits the guest may control: the may-be-1 mask, with NW and CD
/// removed because they are forced off while in VMX non-root operation.
pub open spec fn cr0_allowed_mask(caps: VmxCaps) -> u64 {
    caps.cr0_fixed1 & !(CR0_NW | CR0_CD)
}

/// CR0 bits forced on: the must-be-1 mask, with PE and PG removed
/// because unrestricted guest mode leaves them to the guest.
pub open spec fn cr0_forced_mask(caps: VmxCaps) -> u64 {
    caps.cr0_fixed0 & !(CR0_PG | CR0_PE)
}

/// The CR0 value stored in the guest VMCS field for a requested value.
pub open spec fn cr0_guest_value(caps: VmxCaps, val: u64) -> u64 {
    (val & cr0_allowed_mask(caps)) | cr0_forced_mask(caps)
}

/// The CR0 guest/host mask: bits the hypervisor owns; a guest write to
/// any of them causes a CR-access exit.
pub open spec fn cr0_host_mask(caps: VmxCaps) -> u64 {
    cr0_forced_mask(caps) | !cr0_allowed_mask(caps)
}

/// The CR4 value the coercion starts from: the request with VMXE forced
/// on.
pub open spec fn cr4_requested(val: u64) -> u64 {
    val | CR4_VMXE
}

/// The CR4 value stored in the guest VMCS field for a requested value.
pub open spec fn cr4_guest_value(caps: VmxCaps, val: u64) -> u64 {
    (cr4_requested(val) & caps.cr4_fixed1) | caps.cr4_fixed0
}

/// The CR4 guest/host mask.
pub open spec fn cr4_host_mask(caps: VmxCaps) -> u64 {
    caps.cr4_fixed0 | !caps.cr4_fixed1
}

/// The value a control register stored through `set_cr` takes respects
/// the fixed masks: every must-be-1 bit is set (for CR0: outside the
/// PE/PG relaxation of unrestricted guest), every may-not-be-1 bit is
/// clear, and CR0.NW and CR0.CD are forced off. The read shadow keeps
/// the requested value, with CR4.VMXE forced on.
pub proof fn lemma_set_cr_fixed_bits(caps: VmxCaps, val: u64)
    requires
        caps.wf(),
        caps.cr0_fixed0 & (CR0_NW | CR0_CD) == 0,
    ensures
        cr4_guest_value(caps, val) & caps.cr4_fixed0 == caps.cr4_fixed0,
        cr4_guest_value(caps, val) & !caps.cr4_fixed1 == 0,
        cr4_requested(val) & CR4_VMXE == CR4_VMXE,
        cr0_guest_value(caps, val) & cr0_forced_mask(caps) == cr0_forced_mask(caps),
        cr0_guest_value(caps, val) & !caps.cr0_fixed1 == 0,
        cr0_guest_value(caps, val) & (CR0_NW | CR0_CD) == 0,
{
    let f0 = caps.cr0_fixed0;
    let f1 = caps.cr0_fixed1;
    let g0 = caps.cr4_fixed0;
    let g1 = caps.cr4_fixed1;
    assert(((val | 0x2000u64) & g1 | g0) & g0 == g0) by (bit_vector);
    assert(g0 & !g1 == 0 ==> (((val | 0x2000u64) & g1 | g0) & !g1 == 0)) by (bit_vector);
    assert((val | 0x2000u64) & 0x2000u64 == 0x2000u64) by (bit_vector);
    let forced = f0 & !(0x8000_0000u64 | 0x1u64);
    let allowed = f1 & !(0x2000_0000u64 | 0x4000_0000u64);
    assert(((val & allowed) | forced) & forced == forced) by (bit_vector);
    assert(f0 & !f1 == 0 ==> (((val & allowed) | forced) & !f1 == 0)) by (bit_vector)
        requires forced == f0 & !(0x8000_0000u64 | 0x1u64) && allowed == f1 & !(0x2000_0000u64 | 0x4000_0000u64);
    assert(f0 & (0x2000_0000u64 | 0x4000_0000u64) == 0 ==>
        (((val & allowed) | forced) & (0x2000_0000u64 | 0x4000_0000u64) == 0)) by (bit_vector)
        requires forced == f0 & !(0x8000_0000u64 | 0x1u64) && allowed == f1 & !(0x2000_0000u64 | 0x4000_0000u64);
}

/// Features the secondary execution controls enable only when the host
/// CPU advertises them.
#[derive(Clone, Copy, Debug, PartialEq, Eq, Structural)]
pub struct SecondaryFeatures {
    pub rdtscp: bool,
    pub invpcid: bool,
    pub xsaves: bool,
}

/// Physical addresses of the intercept bitmaps, installed into the VMCS
/// control fields.
#[derive(Clone, Copy, Debug, PartialEq, Eq, Structural)]
pub struct BitmapAddrs {
    pub io_bitmap_a: u64,
    pub io_bitmap_b: u64,
    pub msr_bitmap: u64,
}

/// Snapshot of the live host state written to the VMCS host fields at
/// every bind, read by the embedding on the executing CPU.
#[derive(Clone, Copy, Debug, PartialEq, Eq, Structural)]
pub struct HostStateSnapshot {
    /// IA32_PAT.
    pub ia32_pat: u64,
    /// IA32_EFER.
    pub ia32_efer: u64,
    /// CR0, CR3 and CR4.
    pub cr0: u64,
    pub cr3: u64,
    pub cr4: u64,
    /// Live segment selectors.
    pub es_selector: u16,
    pub cs_selector: u16,
    pub ss_selector: u16,
    pub ds_selector: u16,
    pub fs_selector: u16,
    pub gs_selector: u16,
    pub tr_selector: u16,
    /// IA32_FS_BASE and IA32_GS_BASE.
    pub fs_base: u64,
    pub gs_base: u64,
    /// The GDT entry the TR selector indexes, and the following slot.
    pub tr_gdt_entry: u64,
    pub tr_gdt_entry_next: u64,
    /// GDTR and IDTR bases as reported by SGDT and SIDT.
    pub gdtr_base: u64,
    pub idtr_base: u64,
    /// Address of the exit trampoline, loaded into host RIP.
    pub exit_trampoline: u64,
}


/// Equality of two extended states, field by field.
pub open spec fn xstate_eq(a: &XState, b: &XState) -> bool {
    &&& a.host_xcr0() == b.host_xcr0()
    &&& a.guest_xcr0() == b.guest_xcr0()
    &&& a.host_xss() == b.host_xss()
    &&& a.guest_xss() == b.guest_xss()
    &&& a.has_xsave() == b.has_xsave()
    &&& a.has_xsaves() == b.has_xsaves()
}

/// A virtual CPU within a guest.
///
/// `guest_regs` first and `host_stack_top` immediately after is the
/// layout the entry/exit trampolines of the embedding rely on; the
/// embedding mirrors these two into its hand-laid-out register image.
pub struct VmxVcpu {
    /// Guest general-purpose registers.
    pub guest_regs: GeneralRegisters,
    /// Where the trampolines stash the host stack pointer.
    pub host_stack_top: u64,
    /// Whether the VMCS has been launched: false selects VMLAUNCH for
    /// the next entry, true selects VMRESUME.
    pub launched: bool,
    /// The guest entry point, once set.
    pub entry: Option<u64>,
    /// The EPT root, once set.
    pub ept_root: Option<u64>,
    /// The VMCS region page of this vCPU.
    pub vmcs_region: VmxRegion,
    /// The I/O intercept bitmaps.
    pub io_bitmap: IOBitmap,
    /// The MSR intercept bitmap.
    pub msr_bitmap: MsrBitmap,
    /// Events queued for injection, oldest first.
    pub pending_events: VecDeque<(u8, Option<u32>)>,
    /// Host and guest extended state.
    pub xstate: XState,
    /// The modeled VMCS of this vCPU.
    pub vmcs: Vmcs,
    /// Snapshot of the VMX capability MSRs, set at `setup`.
    pub caps: VmxCaps,
}

/// Everything of two vCPUs is equal except possibly the modeled VMCS.
pub open spec fn same_but_vmcs(a: &VmxVcpu, b: &VmxVcpu) -> bool {
    &&& a.guest_regs == b.guest_regs
    &&& a.host_stack_top == b.host_stack_top
    &&& a.launched == b.launched
    &&& a.entry == b.entry
    &&& a.ept_root == b.ept_root
    &&& a.vmcs_region == b.vmcs_region
    &&& a.io_bitmap == b.io_bitmap
    &&& a.msr_bitmap == b.msr_bitmap
    &&& a.pending_events == b.pending_events
    &&& a.xstate == b.xstate
    &&& a.caps == b.caps
}

impl VmxVcpu {
    /// The bitmaps hold whole pages and the capability masks have the
    /// shape every real CPU reports.
    pub open spec fn wf(&self) -> bool {
        &&& self.io_bitmap.wf()
        &&& self.msr_bitmap.wf()
        &&& self.caps.wf()
    }

    /// A fresh vCPU: zeroed registers, not launched, no entry point or
    /// EPT root, a stamped VMCS region, pass-through bitmaps, no pending
    /// events, the given extended state, and a zeroed VMCS model.
    pub fn new(revision_id: u32, xstate: XState) -> (r: Self)
        requires
            revision_id < 0x8000_0000,
        ensures
            r.wf(),
            r.guest_regs == GeneralRegisters::zero_spec(),
            r.host_stack_top == 0,
            r.launched == false,
            r.entry is None,
            r.ept_root is None,
            r.vmcs_region.stamped(revision_id, false),
            forall|p: u16| !r.io_bitmap.intercepted(p),
            forall|m: u32, w: bool| msr_in_bitmap_range(m) ==> !r.msr_bitmap.intercepted(m, w),
            r.pending_events@.len() == 0,
            xstate_eq(&r.xstate, &xstate),
            r.vmcs == Vmcs::zeroed_spec(),
            r.caps == VmxCaps::zeroed_spec(),
    {
        let r = VmxVcpu {
            guest_regs: GeneralRegisters::zero(),
            host_stack_top: 0,
            launched: false,
            entry: None,
            ept_root: None,
            vmcs_region: VmxRegion::new(revision_id, false),
            io_bitmap: IOBitmap::passthrough_all(),
            msr_bitmap: MsrBitmap::passthrough_all(),
            pending_events: VecDeque::with_capacity(8),
            xstate,
            vmcs: Vmcs::zeroed(),
            caps: VmxCaps {
                true_pinbased_ctls: 0, pinbased_ctls: 0, true_procbased_ctls: 0,
                procbased_ctls: 0, procbased_ctls2: 0, true_exit_ctls: 0, exit_ctls: 0,
                true_entry_ctls: 0, entry_ctls: 0, cr0_fixed0: 0, cr0_fixed1: 0,
                cr4_fixed0: 0, cr4_fixed1: 0,
            },
        };
        proof {
            let a = r.caps.cr0_fixed1;
            let b = r.caps.cr4_fixed1;
            assert(0u64 & !a == 0 && 0u64 & !b == 0) by (bit_vector);
        }
        r
    }

    /// Record the guest entry point for the first run.
    pub fn set_entry(&mut self, entry: u64)
        ensures
            final(self).entry == Some(entry),
            *final(self) == (VmxVcpu { entry: Some(entry), ..*old(self) }),
    {
        self.entry = Some(entry);
    }

    /// Record the EPT root for the first run.
    pub fn set_ept_root(&mut self, ept_root: u64)
        ensures
            final(self).ept_root == Some(ept_root),
            *final(self) == (VmxVcpu { ept_root: Some(ept_root), ..*old(self) }),
    {
        self.ept_root = Some(ept_root);
    }

    /// Guest general-purpose registers.
    pub fn regs(&self) -> (r: &GeneralRegisters)
        ensures
            *r == self.guest_regs,
    {
        &self.guest_regs
    }

    /// Mutable reference to the guest general-purpose registers.
    pub fn regs_mut(&mut self) -> (r: &mut GeneralRegisters)
        ensures
            *r == old(self).guest_regs,
            *final(self) == (VmxVcpu { guest_regs: *final(r), ..*old(self) }),
    {
        &mut self.guest_regs
    }

    /// Guest stack pointer.
    pub fn stack_pointer(&self) -> (r: u64)
        ensures
            r == self.vmcs.guest.rsp,
    {
        self.vmcs.guest.rsp
    }

    /// Set the guest stack pointer.
    pub fn set_stack_pointer(&mut self, rsp: u64)
        ensures
            same_but_vmcs(old(self), final(self)),
            final(self).vmcs == (Vmcs {
                guest: (GuestState { rsp, ..old(self).vmcs.guest }),
                ..old(self).vmcs
            }),
    {
        self.vmcs.guest.rsp = rsp;
    }

    /// Guest instruction pointer.
    pub fn rip(&self) -> (r: u64)
        ensures
            r == self.vmcs.guest.rip,
    {
        self.vmcs.guest.rip
    }

    /// Guest code-segment selector.
    pub fn cs(&self) -> (r: u16)
        ensures
            r == self.vmcs.guest.cs.selector,
    {
        self.vmcs.guest.cs.selector
    }

    /// Advance the guest instruction pointer over a handled
    /// instruction.
    pub fn advance_rip(&mut self, instr_len: u8)
        requires
            old(self).vmcs.guest.rip + instr_len <= u64::MAX,
        ensures
            same_but_vmcs(old(self), final(self)),
            final(self).vmcs == (Vmcs {
                guest: (GuestState {
                    rip: (old(self).vmcs.guest.rip + instr_len) as u64,
                    ..old(self).vmcs.guest
                }),
                ..old(self).vmcs
            }),
    {
        self.vmcs.guest.rip = self.vmcs.guest.rip + instr_len as u64;
    }

    /// Queue a virtual interrupt or exception for injection before a
    /// later VM entry.
    pub fn queue_event(&mut self, vector: u8, err_code: Option<u32>)
        ensures
            final(self).pending_events@ == old(self).pending_events@.push((vector, err_code)),
            *final(self) == (VmxVcpu {
                pending_events: final(self).pending_events,
                ..*old(self)
            }),
    {
        self.pending_events.push_back((vector, err_code));
    }

    /// Queue an interrupt by vector. Vector 0 is a hypervisor bug and is
    /// excluded.
    pub fn inject_interrupt(&mut self, vector: u8)
        requires
            vector != 0,
        ensures
            final(self).pending_events@ == old(self).pending_events@.push((vector, None::<u32>)),
            *final(self) == (VmxVcpu {
                pending_events: final(self).pending_events,
                ..*old(self)
            }),
    {
        self.queue_event(vector, None);
    }

    /// Write one guest general-purpose register by hardware index.
    pub fn set_gpr(&mut self, reg: u8, val: u64)
        requires
            reg < 16,
            reg != 4,
        ensures
            *final(self) == (VmxVcpu {
                guest_regs: old(self).guest_regs.with_reg_of_index_spec(reg, val),
                ..*old(self)
            }),
    {
        self.guest_regs.set_reg_of_index(reg, val);
    }

    /// Place a value in the guest RAX, the return-value register.
    pub fn set_return_value(&mut self, val: u64)
        ensures
            *final(self) == (VmxVcpu {
                guest_regs: (GeneralRegisters { rax: val, ..old(self).guest_regs }),
                ..*old(self)
            }),
    {
        self.guest_regs.rax = val;
    }

    /// Turn interrupt-window exiting on or off: with it on, a VM exit
    /// occurs as soon as the guest can accept an interrupt.
    pub fn set_interrupt_window(&mut self, enable: bool)
        ensures
            same_but_vmcs(old(self), final(self)),
            final(self).vmcs == (Vmcs {
                control: (ControlState {
                    primary: (if enable {
                        old(self).vmcs.control.primary | PRIMARY_INTERRUPT_WINDOW_EXITING
                    } else {
                        old(self).vmcs.control.primary & !PRIMARY_INTERRUPT_WINDOW_EXITING
                    }) as u32,
                    ..old(self).vmcs.control
                }),
                ..old(self).vmcs
            }),
    {
        if enable {
            self.vmcs.control.primary = self.vmcs.control.primary | PRIMARY_INTERRUPT_WINDOW_EXITING;
        } else {
            self.vmcs.control.primary = self.vmcs.control.primary & !PRIMARY_INTERRUPT_WINDOW_EXITING;
        }
    }

    /// Set or clear the I/O intercept of a range of ports.
    pub fn set_io_intercept_of_range(&mut self, port_base: u32, count: u32, intercept: bool)
        requires
            old(self).wf(),
            port_base + count <= 0x1_0000,
        ensures
            final(self).wf(),
            forall|q: u16| final(self).io_bitmap.intercepted(q) == (
                if port_base <= q < port_base + count { intercept }
                else { old(self).io_bitmap.intercepted(q) }
            ),
            final(self).io_bitmap.wf(),
            *final(self) == (VmxVcpu { io_bitmap: final(self).io_bitmap, ..*old(self) }),
    {
        self.io_bitmap.set_intercept_of_range(port_base, count, intercept);
    }

    /// Set or clear the MSR intercept of one MSR, in both directions.
    pub fn set_msr_intercept_of_range(&mut self, msr: u32, intercept: bool)
        requires
            old(self).wf(),
            msr_in_bitmap_range(msr),
        ensures
            final(self).wf(),
            forall|m: u32, w: bool| msr_in_bitmap_range(m) ==>
                final(self).msr_bitmap.intercepted(m, w) == (
                    if m == msr { intercept } else { old(self).msr_bitmap.intercepted(m, w) }
                ),
            *final(self) == (VmxVcpu { msr_bitmap: final(self).msr_bitmap, ..*old(self) }),
    {
        self.msr_bitmap.set_read_intercept(msr, intercept);
        self.msr_bitmap.set_write_intercept(msr, intercept);
    }

    /// Basic information about the latched VM exit.
    pub fn exit_info(&self) -> (r: VmxExitInfo)
        ensures
            r == self.vmcs.exit_info_spec(),
    {
        self.vmcs.exit_info()
    }

    /// Raw interruption information of the latched VM exit.
    pub fn raw_interrupt_exit_info(&self) -> (r: u32)
        ensures
            r == self.vmcs.exits.interruption_info,
    {
        self.vmcs.raw_interrupt_exit_info()
    }

    /// Decoded interruption information of the latched VM exit.
    pub fn interrupt_exit_info(&self) -> (r: VmxInterruptInfo)
        ensures
            r == self.vmcs.interrupt_exit_info_spec(),
    {
        self.vmcs.interrupt_exit_info()
    }

    /// Decoded I/O information of the latched VM exit.
    pub fn io_exit_info(&self) -> (r: VmxIoExitInfo)
        ensures
            r == self.vmcs.io_exit_info_spec(),
    {
        self.vmcs.io_exit_info()
    }

    /// Decoded EPT-violation information of the latched VM exit.
    pub fn nested_page_fault_info(&self) -> (r: NestedPageFaultInfo)
        ensures
            r == self.vmcs.ept_violation_info_spec(),
    {
        self.vmcs.ept_violation_info()
    }

    /// Decoded APIC-access information of the latched VM exit.
    pub fn apic_access_exit_info(&self) -> (r: ApicAccessExitInfo)
        ensures
            r == self.vmcs.apic_access_exit_info_spec(),
    {
        self.vmcs.apic_access_exit_info()
    }

    /// The guest CPU mode, from IA-32e activity and CS.L, then CR0.PE.
    /// The IA32_EFER consulted is the host one, as loaded on VM exit.
    pub open spec fn cpu_mode_spec(&self) -> VmCpuMode {
        if self.vmcs.host.ia32_efer & EFER_LMA != 0 {
            if self.vmcs.guest.cs.access_rights & 0x2000 != 0 {
                VmCpuMode::Mode64
            } else {
                VmCpuMode::Compatibility
            }
        } else if self.vmcs.guest.cr0 & CR0_PE != 0 {
            VmCpuMode::Protected
        } else {
            VmCpuMode::Real
        }
    }

    /// Get the guest CPU mode.
    pub fn get_cpu_mode(&self) -> (r: VmCpuMode)
        ensures
            r == self.cpu_mode_spec(),
    {
        if self.vmcs.host.ia32_efer & EFER_LMA != 0 {
            if self.vmcs.guest.cs.access_rights & 0x2000 != 0 {
                VmCpuMode::Mode64
            } else {
                VmCpuMode::Compatibility
            }
        } else if self.vmcs.guest.cr0 & CR0_PE != 0 {
            VmCpuMode::Protected
        } else {
            VmCpuMode::Real
        }
    }

    /// Translate a guest virtual address to a guest linear address: in
    /// 64-bit mode segmentation is flat; otherwise the CS base is added.
    pub fn gla2gva(&self, guest_rip: u64) -> (r: u64)
        requires
            self.cpu_mode_spec() != VmCpuMode::Mode64 ==>
                guest_rip + self.vmcs.guest.cs.base <= u64::MAX,
        ensures
            self.cpu_mode_spec() == VmCpuMode::Mode64 ==> r == guest_rip,
            self.cpu_mode_spec() != VmCpuMode::Mode64 ==>
                r == guest_rip + self.vmcs.guest.cs.base,
    {
        let cpu_mode = self.get_cpu_mode();
        let seg_base = if cpu_mode == VmCpuMode::Mode64 { 0 } else { self.vmcs.guest.cs.base };
        guest_rip + seg_base
    }

    /// The guest paging level: 0 without paging, 2 for 32-bit paging,
    /// 3 for PAE, 4 for four-level paging.
    pub open spec fn paging_level_spec(&self) -> u64 {
        if self.vmcs.guest.cr0 & CR0_PG != 0 {
            if self.vmcs.guest.cr4 & CR4_PAE != 0 {
                if self.vmcs.guest.ia32_efer & EFER_LMA != 0 {
                    4
                } else {
                    3
                }
            } else {
                2
            }
        } else {
            0
        }
    }

    /// Get the guest paging level.
    pub fn get_paging_level(&self) -> (r: u64)
        ensures
            r == self.paging_level_spec(),
    {
        if self.vmcs.guest.cr0 & CR0_PG != 0 {
            if self.vmcs.guest.cr4 & CR4_PAE != 0 {
                if self.vmcs.guest.ia32_efer & EFER_LMA != 0 {
                    4
                } else {
                    3
                }
            } else {
                2
            }
        } else {
            0
        }
    }

    /// The page-walk snapshot for the current guest paging
    /// configuration.
    pub open spec fn ptw_info_spec(&self) -> GuestPageWalkInfo {
        let level = self.paging_level_spec();
        GuestPageWalkInfo {
            top_entry: self.vmcs.guest.cr3,
            level,
            width: if level == 4 || level == 3 { 9 } else if level == 2 { 10 } else { 0 },
            is_user_mode_access: (self.vmcs.guest.ss.access_rights >> 5) & 0x3 == 3,
            is_write_access: false,
            is_inst_fetch: false,
            pse: if level == 2 { self.vmcs.guest.cr4 & CR4_PSE != 0 } else { true },
            wp: self.vmcs.guest.cr0 & CR0_WP != 0,
            nxe: if level == 2 { false } else { self.vmcs.guest.ia32_efer & EFER_NXE != 0 },
            is_smap_on: self.vmcs.guest.cr4 & CR4_SMAP != 0,
            is_smep_on: self.vmcs.guest.cr4 & CR4_SMEP != 0,
        }
    }

    /// Take the page-walk snapshot used to walk the guest page tables.
    pub fn get_ptw_info(&self) -> (r: GuestPageWalkInfo)
        ensures
            r == self.ptw_info_spec(),
    {
        let level = self.get_paging_level();
        let mut pse = true;
        let mut nxe = self.vmcs.guest.ia32_efer & EFER_NXE != 0;
        let width: u32;
        if level == 4 || level == 3 {
            width = 9;
        } else if level == 2 {
            width = 10;
            pse = self.vmcs.guest.cr4 & CR4_PSE != 0;
            nxe = false;
        } else {
            width = 0;
        }
        GuestPageWalkInfo {
            top_entry: self.vmcs.guest.cr3,
            level,
            width,
            is_user_mode_access: (self.vmcs.guest.ss.access_rights >> 5) & 0x3 == 3,
            is_write_access: false,
            is_inst_fetch: false,
            pse,
            wp: self.vmcs.guest.cr0 & CR0_WP != 0,
            nxe,
            is_smap_on: self.vmcs.guest.cr4 & CR4_SMAP != 0,
            is_smep_on: self.vmcs.guest.cr4 & CR4_SMEP != 0,
        }
    }

    /// What a guest read of CR0, CR3 or CR4 observes: CR4 combines the
    /// read shadow for hypervisor-owned bits with the live field for the
    /// rest.
    pub open spec fn cr_spec(&self, cr_idx: u64) -> u64 {
        if cr_idx == 0 {
            self.vmcs.guest.cr0
        } else if cr_idx == 3 {
            self.vmcs.guest.cr3
        } else {
            (self.vmcs.control.cr4_read_shadow & self.vmcs.control.cr4_guest_host_mask)
                | (self.vmcs.guest.cr4 & !self.vmcs.control.cr4_guest_host_mask)
        }
    }

    /// Read a guest control register.
    pub fn cr(&self, cr_idx: u64) -> (r: u64)
        requires
            cr_idx == 0 || cr_idx == 3 || cr_idx == 4,
        ensures
            r == self.cr_spec(cr_idx),
    {
        if cr_idx == 0 {
            self.vmcs.guest.cr0
        } else if cr_idx == 3 {
            self.vmcs.guest.cr3
        } else {
            (self.vmcs.control.cr4_read_shadow & self.vmcs.control.cr4_guest_host_mask)
                | (self.vmcs.guest.cr4 & !self.vmcs.control.cr4_guest_host_mask)
        }
    }

    /// Write a guest control register under the VMX fixed-bit contract:
    /// the stored CR0/CR4 is coerced through the fixed masks (with NW
    /// and CD forced off and PE/PG left to the guest for CR0, and VMXE
    /// forced on for CR4), the read shadow keeps the requested value,
    /// and the guest/host mask covers every hypervisor-owned bit. CR3 is
    /// stored unchanged.
    pub fn set_cr(&mut self, cr_idx: u64, val: u64)
        requires
            cr_idx == 0 || cr_idx == 3 || cr_idx == 4,
        ensures
            same_but_vmcs(old(self), final(self)),
            cr_idx == 0 ==> final(self).vmcs == (Vmcs {
                guest: (GuestState {
                    cr0: cr0_guest_value(old(self).caps, val),
                    ..old(self).vmcs.guest
                }),
                control: (ControlState {
                    cr0_read_shadow: val,
                    cr0_guest_host_mask: cr0_host_mask(old(self).caps),
                    ..old(self).vmcs.control
                }),
                ..old(self).vmcs
            }),
            cr_idx == 3 ==> final(self).vmcs == (Vmcs {
                guest: (GuestState { cr3: val, ..old(self).vmcs.guest }),
                ..old(self).vmcs
            }),
            cr_idx == 4 ==> final(self).vmcs == (Vmcs {
                guest: (GuestState {
                    cr4: cr4_guest_value(old(self).caps, val),
                    ..old(self).vmcs.guest
                }),
                control: (ControlState {
                    cr4_read_shadow: cr4_requested(val),
                    cr4_guest_host_mask: cr4_host_mask(old(self).caps),
                    ..old(self).vmcs.control
                }),
                ..old(self).vmcs
            }),
    {
        if cr_idx == 0 {
            let must0 = self.caps.cr0_fixed1 & !(CR0_NW | CR0_CD);
            let must1 = self.caps.cr0_fixed0 & !(CR0_PG | CR0_PE);
            self.vmcs.guest.cr0 = (val & must0) | must1;
            self.vmcs.control.cr0_read_shadow = val;
            self.vmcs.control.cr0_guest_host_mask = must1 | !must0;
        } else if cr_idx == 3 {
            self.vmcs.guest.cr3 = val;
        } else {
            let must0 = self.caps.cr4_fixed1;
            let must1 = self.caps.cr4_fixed0;
            let requested = val | CR4_VMXE;
            self.vmcs.guest.cr4 = (requested & must0) | must1;
            self.vmcs.control.cr4_read_shadow = requested;
            self.vmcs.control.cr4_guest_host_mask = must1 | !must0;
        }
    }
}


/// Pin-based control bits requested: intercept NMIs and external
/// interrupts.
pub const PIN_SET_BITS: u32 = PIN_NMI_EXITING | PIN_EXTERNAL_INTERRUPT_EXITING;

/// Primary control bits requested: use both bitmaps and the secondary
/// controls.
pub const PRIMARY_SET_BITS: u32 =
    PRIMARY_USE_IO_BITMAPS | PRIMARY_USE_MSR_BITMAPS | PRIMARY_SECONDARY_CONTROLS;

/// Primary control bits refused: no CR3 or CR8 access interception.
pub const PRIMARY_CLEAR_BITS: u32 = PRIMARY_CR3_LOAD_EXITING | PRIMARY_CR3_STORE_EXITING
    | PRIMARY_CR8_LOAD_EXITING | PRIMARY_CR8_STORE_EXITING;

/// VM-exit control bits requested: 64-bit host, acknowledge interrupts
/// on exit, and switch IA32_PAT and IA32_EFER.
pub const EXIT_SET_BITS: u32 = EXIT_HOST_ADDRESS_SPACE_SIZE | EXIT_ACK_INTERRUPT_ON_EXIT
    | EXIT_SAVE_IA32_PAT | EXIT_LOAD_IA32_PAT | EXIT_SAVE_IA32_EFER | EXIT_LOAD_IA32_EFER;

/// Secondary control bits requested: EPT and unrestricted guest always,
/// RDTSCP, INVPCID and XSAVES as the host advertises them.
pub open spec fn secondary_set_bits_spec(features: SecondaryFeatures) -> u32 {
    SECONDARY_ENABLE_EPT | SECONDARY_UNRESTRICTED_GUEST
        | (if features.rdtscp { SECONDARY_ENABLE_RDTSCP } else { 0 })
        | (if features.invpcid { SECONDARY_ENABLE_INVPCID } else { 0 })
        | (if features.xsaves { SECONDARY_ENABLE_XSAVES_XRSTORS } else { 0 })
}

/// Compute the requested secondary control bits.
pub fn secondary_set_bits(features: SecondaryFeatures) -> (r: u32)
    ensures
        r == secondary_set_bits_spec(features),
{
    SECONDARY_ENABLE_EPT | SECONDARY_UNRESTRICTED_GUEST
        | (if features.rdtscp { SECONDARY_ENABLE_RDTSCP } else { 0 })
        | (if features.invpcid { SECONDARY_ENABLE_INVPCID } else { 0 })
        | (if features.xsaves { SECONDARY_ENABLE_XSAVES_XRSTORS } else { 0 })
}

/// VM-entry control bits requested: load IA32_PAT and IA32_EFER; for an
/// entry that does not model a guest, also IA-32e mode.
pub open spec fn entry_set_bits_spec(is_guest: bool) -> u32 {
    ENTRY_LOAD_IA32_PAT | ENTRY_LOAD_IA32_EFER
        | (if is_guest { 0 } else { ENTRY_IA32E_MODE_GUEST })
}

/// Compute the requested VM-entry control bits.
pub fn entry_set_bits(is_guest: bool) -> (r: u32)
    ensures
        r == entry_set_bits_spec(is_guest),
{
    ENTRY_LOAD_IA32_PAT | ENTRY_LOAD_IA32_EFER
        | (if is_guest { 0 } else { ENTRY_IA32E_MODE_GUEST })
}

/// Whether the capability MSRs allow every control this configuration
/// requests.
pub open spec fn control_plan_allowed(caps: VmxCaps, features: SecondaryFeatures, is_guest: bool)
    -> bool {
    &&& control_request_allowed(caps.true_pinbased_ctls, PIN_SET_BITS, 0)
    &&& control_request_allowed(caps.true_procbased_ctls, PRIMARY_SET_BITS, PRIMARY_CLEAR_BITS)
    &&& control_request_allowed(caps.procbased_ctls2, secondary_set_bits_spec(features), 0)
    &&& control_request_allowed(caps.true_exit_ctls, EXIT_SET_BITS, 0)
    &&& control_request_allowed(caps.true_entry_ctls, entry_set_bits_spec(is_guest), 0)
}

/// The control fields of a configured VMCS, over the previous control
/// state.
pub open spec fn configured_controls(
    caps: VmxCaps,
    features: SecondaryFeatures,
    is_guest: bool,
    ept_root: u64,
    addrs: BitmapAddrs,
    prev: ControlState,
) -> ControlState {
    ControlState {
        pinbased: control_value_spec(caps.true_pinbased_ctls, caps.pinbased_ctls, PIN_SET_BITS, 0),
        primary: control_value_spec(
            caps.true_procbased_ctls, caps.procbased_ctls, PRIMARY_SET_BITS, PRIMARY_CLEAR_BITS),
        secondary: control_value_spec(
            caps.procbased_ctls2, allowed0(caps.procbased_ctls2),
            secondary_set_bits_spec(features), 0),
        vmexit_ctls: control_value_spec(caps.true_exit_ctls, caps.exit_ctls, EXIT_SET_BITS, 0),
        vmentry_ctls: control_value_spec(
            caps.true_entry_ctls, caps.entry_ctls, entry_set_bits_spec(is_guest), 0),
        exception_bitmap: EXCEPTION_BITMAP_UD,
        io_bitmap_a_addr: addrs.io_bitmap_a,
        io_bitmap_b_addr: addrs.io_bitmap_b,
        msr_bitmap_addr: addrs.msr_bitmap,
        ept_pointer: ept_pointer_spec(ept_root),
        vmexit_msr_store_count: 0,
        vmexit_msr_load_count: 0,
        vmentry_msr_load_count: 0,
        cr3_target_count: 0,
        ..prev
    }
}

/// The guest state programmed at reset: a real-mode CPU ready to start
/// under unrestricted guest mode, with the entry point in RIP, the host
/// IA32_PAT, and CR0/CR4 coerced through the fixed masks.
pub open spec fn reset_guest_state(caps: VmxCaps, entry: u64, host_pat: u64) -> GuestState {
    GuestState {
        es: GuestSegment::reset_spec(0x93),
        cs: GuestSegment::reset_spec(0x9b),
        ss: GuestSegment::reset_spec(0x93),
        ds: GuestSegment::reset_spec(0x93),
        fs: GuestSegment::reset_spec(0x93),
        gs: GuestSegment::reset_spec(0x93),
        tr: GuestSegment::reset_spec(0x8b),
        ldtr: GuestSegment::reset_spec(0x82),
        gdtr_base: 0,
        gdtr_limit: 0xffff,
        idtr_base: 0,
        idtr_limit: 0xffff,
        cr0: cr0_guest_value(caps, CR0_NW | CR0_CD | CR0_ET),
        cr3: 0,
        cr4: cr4_guest_value(caps, 0),
        dr7: 0x400,
        rsp: 0,
        rip: entry,
        rflags: 0x2,
        pending_dbg_exceptions: 0,
        sysenter_esp: 0,
        sysenter_eip: 0,
        sysenter_cs: 0,
        interruptibility_state: 0,
        activity_state: 0,
        preemption_timer: VMX_PREEMPTION_TIMER_SET_VALUE,
        link_ptr: 0xffff_ffff_ffff_ffff,
        ia32_debugctl: 0,
        ia32_pat: host_pat,
        ia32_efer: 0,
    }
}

/// The host state written at every bind, over a live snapshot; host RSP
/// keeps its previous value, it is written at launch.
pub open spec fn host_state_from(h: HostStateSnapshot, prev_rsp: u64) -> HostState {
    HostState {
        ia32_pat: h.ia32_pat,
        ia32_efer: h.ia32_efer,
        cr0: h.cr0,
        cr3: h.cr3,
        cr4: h.cr4,
        es_selector: h.es_selector,
        cs_selector: h.cs_selector,
        ss_selector: h.ss_selector,
        ds_selector: h.ds_selector,
        fs_selector: h.fs_selector,
        gs_selector: h.gs_selector,
        tr_selector: h.tr_selector,
        fs_base: h.fs_base,
        gs_base: h.gs_base,
        tr_base: tr_base_spec(h.tr_gdt_entry, h.tr_gdt_entry_next),
        gdtr_base: h.gdtr_base,
        idtr_base: h.idtr_base,
        rip: h.exit_trampoline,
        rsp: prev_rsp,
        sysenter_esp: 0,
        sysenter_eip: 0,
        sysenter_cs: 0,
    }
}

impl VmxVcpu {
    /// Install the default I/O intercepts: only the platform power-down
    /// port.
    pub fn setup_io_bitmap(&mut self)
        requires
            old(self).wf(),
        ensures
            final(self).wf(),
            forall|q: u16| final(self).io_bitmap.intercepted(q) == (
                q == QEMU_EXIT_PORT || old(self).io_bitmap.intercepted(q)
            ),
            *final(self) == (VmxVcpu { io_bitmap: final(self).io_bitmap, ..*old(self) }),
    {
        self.io_bitmap.set_intercept_of_range(QEMU_EXIT_PORT as u32, 1, true);
    }

    /// Install the default MSR intercepts: IA32_UMWAIT_CONTROL and the
    /// x2APIC register range, in both directions.
    pub fn setup_msr_bitmap(&mut self)
        requires
            old(self).wf(),
        ensures
            final(self).wf(),
            forall|m: u32, w: bool| msr_in_bitmap_range(m) ==>
                final(self).msr_bitmap.intercepted(m, w) == (
                    m == MSR_IA32_UMWAIT_CONTROL
                    || (X2APIC_MSR_BASE <= m <= X2APIC_MSR_BITMAP_END)
                    || old(self).msr_bitmap.intercepted(m, w)
                ),
            *final(self) == (VmxVcpu { msr_bitmap: final(self).msr_bitmap, ..*old(self) }),
    {
        self.msr_bitmap.set_write_intercept(MSR_IA32_UMWAIT_CONTROL, true);
        self.msr_bitmap.set_read_intercept(MSR_IA32_UMWAIT_CONTROL, true);
        let mut msr: u32 = X2APIC_MSR_BASE;
        while msr <= X2APIC_MSR_BITMAP_END
            invariant
                self.wf(),
                X2APIC_MSR_BASE <= msr <= X2APIC_MSR_BITMAP_END + 1,
                forall|m: u32, w: bool| msr_in_bitmap_range(m) ==>
                    self.msr_bitmap.intercepted(m, w) == (
                        m == MSR_IA32_UMWAIT_CONTROL
                        || (X2APIC_MSR_BASE <= m < msr)
                        || old(self).msr_bitmap.intercepted(m, w)
                    ),
                *self == (VmxVcpu { msr_bitmap: self.msr_bitmap, ..*old(self) }),
            decreases X2APIC_MSR_BITMAP_END + 1 - msr,
        {
            self.msr_bitmap.set_read_intercept(msr, true);
            self.msr_bitmap.set_write_intercept(msr, true);
            msr = msr + 1;
        }
    }

    /// Program the guest VMCS state to the real-mode reset configuration
    /// of [`reset_guest_state`], with the CR0/CR4 shadows and masks of a
    /// `set_cr` of the seed values.
    pub fn setup_vmcs_guest(&mut self, entry: u64, host_pat: u64)
        ensures
            same_but_vmcs(old(self), final(self)),
            final(self).vmcs == (Vmcs {
                guest: reset_guest_state(old(self).caps, entry, host_pat),
                control: (ControlState {
                    cr0_read_shadow: (CR0_NW | CR0_CD | CR0_ET) as u64,
                    cr0_guest_host_mask: cr0_host_mask(old(self).caps),
                    cr4_read_shadow: cr4_requested(0),
                    cr4_guest_host_mask: cr4_host_mask(old(self).caps),
                    ..old(self).vmcs.control
                }),
                ..old(self).vmcs
            }),
    {
        self.set_cr(0, CR0_NW | CR0_CD | CR0_ET);
        self.set_cr(4, 0);

        self.vmcs.guest.es = GuestSegment { selector: 0, base: 0, limit: 0xffff, access_rights: 0x93 };
        self.vmcs.guest.cs = GuestSegment { selector: 0, base: 0, limit: 0xffff, access_rights: 0x9b };
        self.vmcs.guest.ss = GuestSegment { selector: 0, base: 0, limit: 0xffff, access_rights: 0x93 };
        self.vmcs.guest.ds = GuestSegment { selector: 0, base: 0, limit: 0xffff, access_rights: 0x93 };
        self.vmcs.guest.fs = GuestSegment { selector: 0, base: 0, limit: 0xffff, access_rights: 0x93 };
        self.vmcs.guest.gs = GuestSegment { selector: 0, base: 0, limit: 0xffff, access_rights: 0x93 };
        self.vmcs.guest.tr = GuestSegment { selector: 0, base: 0, limit: 0xffff, access_rights: 0x8b };
        self.vmcs.guest.ldtr = GuestSegment { selector: 0, base: 0, limit: 0xffff, access_rights: 0x82 };

        self.vmcs.guest.gdtr_base = 0;
        self.vmcs.guest.gdtr_limit = 0xffff;
        self.vmcs.guest.idtr_base = 0;
        self.vmcs.guest.idtr_limit = 0xffff;

        self.vmcs.guest.cr3 = 0;
        self.vmcs.guest.dr7 = 0x400;
        self.vmcs.guest.rsp = 0;
        self.vmcs.guest.rip = entry;
        self.vmcs.guest.rflags = 0x2;
        self.vmcs.guest.pending_dbg_exceptions = 0;
        self.vmcs.guest.sysenter_esp = 0;
        self.vmcs.guest.sysenter_eip = 0;
        self.vmcs.guest.sysenter_cs = 0;

        self.vmcs.guest.interruptibility_state = 0;
        self.vmcs.guest.activity_state = 0;
        self.vmcs.guest.preemption_timer = VMX_PREEMPTION_TIMER_SET_VALUE;

        self.vmcs.guest.link_ptr = 0xffff_ffff_ffff_ffff;
        self.vmcs.guest.ia32_debugctl = 0;
        self.vmcs.guest.ia32_pat = host_pat;
        self.vmcs.guest.ia32_efer = 0;
    }

    /// Program the VMCS control fields: the four capability-checked
    /// control words, the secondary controls with the advertised
    /// features, the EPT pointer, the bitmap addresses, an exception
    /// bitmap intercepting only `#UD`, zero MSR switch lists, and the
    /// default I/O intercepts. Fails with `Unsupported`, changing
    /// nothing, exactly when a capability refuses a request.
    pub fn setup_vmcs_control(
        &mut self,
        ept_root: u64,
        is_guest: bool,
        features: SecondaryFeatures,
        addrs: BitmapAddrs,
    ) -> (r: VmxResult<()>)
        requires
            old(self).wf(),
        ensures
            final(self).wf(),
            r.is_ok() <==> control_plan_allowed(old(self).caps, features, is_guest),
            r.is_err() ==> {
                &&& r == VmxResult::<()>::Err(VmxError::Unsupported)
                &&& *final(self) == *old(self)
            },
            r.is_ok() ==> {
                &&& final(self).vmcs == (Vmcs {
                    control: configured_controls(
                        old(self).caps, features, is_guest, ept_root, addrs,
                        old(self).vmcs.control),
                    ..old(self).vmcs
                })
                &&& forall|q: u16| final(self).io_bitmap.intercepted(q) == (
                    q == QEMU_EXIT_PORT || old(self).io_bitmap.intercepted(q))
                &&& final(self).guest_regs == old(self).guest_regs
                &&& final(self).host_stack_top == old(self).host_stack_top
                &&& final(self).launched == old(self).launched
                &&& final(self).entry == old(self).entry
                &&& final(self).ept_root == old(self).ept_root
                &&& final(self).vmcs_region == old(self).vmcs_region
                &&& final(self).msr_bitmap == old(self).msr_bitmap
                &&& final(self).pending_events == old(self).pending_events
                &&& final(self).xstate == old(self).xstate
                &&& final(self).caps == old(self).caps
            },
    {
        proof {
            let s3 = secondary_set_bits_spec(features);
            assert(PIN_SET_BITS & 0 == 0 && s3 & 0 == 0 && EXIT_SET_BITS & 0 == 0
                && entry_set_bits_spec(is_guest) & 0 == 0
                && PRIMARY_SET_BITS & PRIMARY_CLEAR_BITS == 0) by (bit_vector);
        }
        let pinbased = match control_value(self.caps.true_pinbased_ctls, self.caps.pinbased_ctls,
            PIN_SET_BITS, 0) {
            Ok(v) => v,
            Err(e) => { return Err(e); }
        };
        let primary = match control_value(self.caps.true_procbased_ctls, self.caps.procbased_ctls,
            PRIMARY_SET_BITS, PRIMARY_CLEAR_BITS) {
            Ok(v) => v,
            Err(e) => { return Err(e); }
        };
        let secondary = match control_value(self.caps.procbased_ctls2,
            self.caps.procbased_ctls2 as u32, secondary_set_bits(features), 0) {
            Ok(v) => v,
            Err(e) => { return Err(e); }
        };
        let vmexit_ctls = match control_value(self.caps.true_exit_ctls, self.caps.exit_ctls,
            EXIT_SET_BITS, 0) {
            Ok(v) => v,
            Err(e) => { return Err(e); }
        };
        let vmentry_ctls = match control_value(self.caps.true_entry_ctls, self.caps.entry_ctls,
            entry_set_bits(is_guest), 0) {
            Ok(v) => v,
            Err(e) => { return Err(e); }
        };

        self.vmcs.control.pinbased = pinbased;
        self.vmcs.control.primary = primary;
        self.vmcs.control.secondary = secondary;
        self.vmcs.control.vmexit_ctls = vmexit_ctls;
        self.vmcs.control.vmentry_ctls = vmentry_ctls;

        self.vmcs.control.ept_pointer = ept_pointer(ept_root);

        self.vmcs.control.vmexit_msr_store_count = 0;
        self.vmcs.control.vmexit_msr_load_count = 0;
        self.vmcs.control.vmentry_msr_load_count = 0;
        self.vmcs.control.cr3_target_count = 0;

        self.setup_io_bitmap();

        self.vmcs.control.exception_bitmap = EXCEPTION_BITMAP_UD;
        self.vmcs.control.io_bitmap_a_addr = addrs.io_bitmap_a;
        self.vmcs.control.io_bitmap_b_addr = addrs.io_bitmap_b;
        self.vmcs.control.msr_bitmap_addr = addrs.msr_bitmap;

        Ok(())
    }

    /// Write the VMCS host fields from the live host snapshot: control
    /// registers, segment state, the resolved TR base, descriptor-table
    /// bases, the exit trampoline as host RIP, and zeroed SYSENTER
    /// state.
    pub fn setup_vmcs_host(&mut self, host: &HostStateSnapshot)
        ensures
            same_but_vmcs(old(self), final(self)),
            final(self).vmcs == (Vmcs {
                host: host_state_from(*host, old(self).vmcs.host.rsp),
                ..old(self).vmcs
            }),
    {
        self.vmcs.host.ia32_pat = host.ia32_pat;
        self.vmcs.host.ia32_efer = host.ia32_efer;
        self.vmcs.host.cr0 = host.cr0;
        self.vmcs.host.cr3 = host.cr3;
        self.vmcs.host.cr4 = host.cr4;
        self.vmcs.host.es_selector = host.es_selector;
        self.vmcs.host.cs_selector = host.cs_selector;
        self.vmcs.host.ss_selector = host.ss_selector;
        self.vmcs.host.ds_selector = host.ds_selector;
        self.vmcs.host.fs_selector = host.fs_selector;
        self.vmcs.host.gs_selector = host.gs_selector;
        self.vmcs.host.tr_selector = host.tr_selector;
        self.vmcs.host.fs_base = host.fs_base;
        self.vmcs.host.gs_base = host.gs_base;
        self.vmcs.host.tr_base = get_tr_base(host.tr_gdt_entry, host.tr_gdt_entry_next);
        self.vmcs.host.gdtr_base = host.gdtr_base;
        self.vmcs.host.idtr_base = host.idtr_base;
        self.vmcs.host.rip = host.exit_trampoline;
        self.vmcs.host.sysenter_esp = 0;
        self.vmcs.host.sysenter_eip = 0;
        self.vmcs.host.sysenter_cs = 0;
    }

    /// Bind this vCPU to the executing processor: the embedding runs
    /// VMPTRLD on the VMCS region first, then the host fields are
    /// written from the live snapshot.
    pub fn bind_to_current_processor(&mut self, host: &HostStateSnapshot)
        ensures
            same_but_vmcs(old(self), final(self)),
            final(self).vmcs == (Vmcs {
                host: host_state_from(*host, old(self).vmcs.host.rsp),
                ..old(self).vmcs
            }),
    {
        self.setup_vmcs_host(host);
    }

    /// Unbind this vCPU from the executing processor: the next entry
    /// must use VMLAUNCH again. The embedding runs VMCLEAR on the VMCS
    /// region.
    pub fn unbind_from_current_processor(&mut self)
        ensures
            final(self).launched == false,
            *final(self) == (VmxVcpu { launched: false, ..*old(self) }),
    {
        self.launched = false;
    }

    /// Configure the vCPU for its first run: record the capability
    /// snapshot, bind, install the MSR intercepts, program the guest
    /// reset state with `entry`, and program the controls with
    /// `ept_root`, probing the executing CPU for the optional secondary
    /// features. Fails with `Unsupported`, leaving the controls
    /// untouched, when a capability refuses a request.
    pub fn setup(
        &mut self,
        ept_root: u64,
        entry: u64,
        caps: VmxCaps,
        host: &HostStateSnapshot,
        addrs: BitmapAddrs,
    ) -> (r: VmxResult<()>)
        requires
            old(self).wf(),
            caps.wf(),
        ensures
            final(self).wf(),
            final(self).caps == caps,
            final(self).guest_regs == old(self).guest_regs,
            final(self).host_stack_top == old(self).host_stack_top,
            final(self).entry == old(self).entry,
            final(self).ept_root == old(self).ept_root,
            final(self).vmcs_region == old(self).vmcs_region,
            final(self).xstate == old(self).xstate,
            r.is_ok() ==> final(self).launched == false,
            r.is_err() ==> final(self).launched == old(self).launched,
            final(self).pending_events == old(self).pending_events,
            forall|m: u32, w: bool| msr_in_bitmap_range(m) ==>
                final(self).msr_bitmap.intercepted(m, w) == (
                    m == MSR_IA32_UMWAIT_CONTROL
                    || (X2APIC_MSR_BASE <= m <= X2APIC_MSR_BITMAP_END)
                    || old(self).msr_bitmap.intercepted(m, w)
                ),
            final(self).vmcs.guest == reset_guest_state(caps, entry, host.ia32_pat),
            final(self).vmcs.host == host_state_from(*host, old(self).vmcs.host.rsp),
            r.is_ok() ==> {
                &&& final(self).vmcs.control.pinbased == control_value_spec(
                    caps.true_pinbased_ctls, caps.pinbased_ctls, PIN_SET_BITS, 0)
                &&& final(self).vmcs.control.primary == control_value_spec(
                    caps.true_procbased_ctls, caps.procbased_ctls, PRIMARY_SET_BITS,
                    PRIMARY_CLEAR_BITS)
                &&& (exists|f: SecondaryFeatures| final(self).vmcs.control.secondary
                    == control_value_spec(caps.procbased_ctls2, allowed0(caps.procbased_ctls2),
                        #[trigger] secondary_set_bits_spec(f), 0))
                &&& final(self).vmcs.control.vmexit_ctls == control_value_spec(
                    caps.true_exit_ctls, caps.exit_ctls, EXIT_SET_BITS, 0)
                &&& final(self).vmcs.control.vmentry_ctls == control_value_spec(
                    caps.true_entry_ctls, caps.entry_ctls, entry_set_bits_spec(true), 0)
                &&& final(self).vmcs.control.exception_bitmap == EXCEPTION_BITMAP_UD
                &&& final(self).vmcs.control.ept_pointer == ept_pointer_spec(ept_root)
                &&& final(self).vmcs.control.io_bitmap_a_addr == addrs.io_bitmap_a
                &&& final(self).vmcs.control.io_bitmap_b_addr == addrs.io_bitmap_b
                &&& final(self).vmcs.control.msr_bitmap_addr == addrs.msr_bitmap
                &&& final(self).vmcs.control.vmexit_msr_store_count == 0
                &&& final(self).vmcs.control.vmexit_msr_load_count == 0
                &&& final(self).vmcs.control.vmentry_msr_load_count == 0
                &&& final(self).vmcs.control.cr3_target_count == 0
                &&& final(self).vmcs.control.cr0_read_shadow == (CR0_NW | CR0_CD | CR0_ET) as u64
                &&& final(self).vmcs.control.cr0_guest_host_mask == cr0_host_mask(caps)
                &&& final(self).vmcs.control.cr4_read_shadow == cr4_requested(0)
                &&& final(self).vmcs.control.cr4_guest_host_mask == cr4_host_mask(caps)
                &&& final(self).vmcs.control.vmentry_interruption_info
                    == old(self).vmcs.control.vmentry_interruption_info
                &&& final(self).vmcs.control.vmentry_exception_err_code
                    == old(self).vmcs.control.vmentry_exception_err_code
                &&& forall|q: u16| final(self).io_bitmap.intercepted(q) == (
                    q == QEMU_EXIT_PORT || old(self).io_bitmap.intercepted(q))
            },
            r.is_err() ==> {
                &&& r == VmxResult::<()>::Err(VmxError::Unsupported)
                &&& final(self).io_bitmap.bytes_a() == old(self).io_bitmap.bytes_a()
                &&& final(self).io_bitmap.bytes_b() == old(self).io_bitmap.bytes_b()
            },
    {
        self.caps = caps;
        self.bind_to_current_processor(host);
        self.setup_msr_bitmap();
        self.setup_vmcs_guest(entry, host.ia32_pat);
        let features = SecondaryFeatures {
            rdtscp: host_supports_rdtscp(),
            invpcid: host_supports_invpcid(),
            xsaves: host_supports_xsaves(),
        };
        let r = self.setup_vmcs_control(ept_root, true, features, addrs);
        match r {
            Ok(()) => {
                self.unbind_from_current_processor();
                Ok(())
            }
            Err(e) => Err(e),
        }
    }
}


/// Everything of two vCPUs is equal except possibly the launched flag,
/// the pending-event queue, the extended state and the modeled VMCS.
pub open spec fn same_static_state(a: &VmxVcpu, b: &VmxVcpu) -> bool {
    &&& a.guest_regs == b.guest_regs
    &&& a.host_stack_top == b.host_stack_top
    &&& a.entry == b.entry
    &&& a.ept_root == b.ept_root
    &&& a.vmcs_region == b.vmcs_region
    &&& a.io_bitmap == b.io_bitmap
    &&& a.msr_bitmap == b.msr_bitmap
    &&& a.caps == b.caps
}

/// What the embedding must do for the next guest entry.
#[derive(Clone, Copy, Debug, PartialEq, Eq, Structural)]
pub struct EntryPlan {
    /// Use VMRESUME; with false, write the host stack top into the VMCS
    /// host RSP and use VMLAUNCH.
    pub resume: bool,
    /// Extended-state values to load before the entry.
    pub xstate_load: XStateLoad,
}

/// What the built-in handling of one VM exit asks of the embedding.
#[derive(Clone, Copy, Debug, PartialEq, Eq, Structural)]
pub enum BuiltinOutcome {
    /// The exit is not handled here; map it for the supervisor.
    NotBuiltin,
    /// The exit is fully handled.
    Done,
    /// Query the host CPUID and hand the result to `complete_cpuid`;
    /// with `under_guest_xstate`, bracket the query in
    /// `load_guest_xstate` and `load_host_xstate`.
    CpuidQuery { leaf: u32, subleaf: u32, under_guest_xstate: bool },
    /// Read the emulated local APIC register behind `msr` and hand the
    /// value to `complete_vlapic_read`.
    VlapicRead { msr: u32, width: AccessWidth },
    /// Write `value` to the emulated local APIC register behind `msr`.
    VlapicWrite { msr: u32, width: AccessWidth, value: u64 },
    /// The exit should have been handled here but cannot be; the
    /// embedding must treat this as fatal.
    Failed(VmxError),
}

/// An XCR0 value the guest may set: only known bits, x87 state on, AVX
/// only on top of SSE, the two MPX halves together, and the three
/// AVX-512 pieces either all present with AVX or all absent.
pub open spec fn xcr0_valid(value: u64) -> bool {
    &&& value & !XCR0_KNOWN_MASK == 0
    &&& value & XCR0_FPU_MMX != 0
    &&& (value & XCR0_AVX != 0 ==> value & XCR0_SSE != 0)
    &&& ((value & XCR0_BNDCSR != 0) <==> (value & XCR0_BNDREG != 0))
    &&& {
        let op = value & XCR0_OPMASK != 0;
        let zmm = value & XCR0_ZMM_HI256 != 0;
        let hi = value & XCR0_HI16_ZMM != 0;
        (op && zmm && hi && value & XCR0_AVX != 0) || (!op && !zmm && !hi)
    }
}

/// The 64-bit value in EDX:EAX, as RDMSR/WRMSR and XSETBV use it.
pub open spec fn edx_eax_spec(regs: GeneralRegisters) -> u64 {
    ((regs.rdx & 0xffff_ffff) << 32) | (regs.rax & 0xffff_ffff)
}

impl VmxVcpu {
    /// Whether the guest can accept an interrupt now: RFLAGS.IF is set
    /// and nothing blocks interrupts.
    pub open spec fn allow_interrupt_spec(&self) -> bool {
        self.vmcs.guest.rflags & RFLAGS_IF != 0 && self.vmcs.guest.interruptibility_state == 0
    }

    /// Check whether the guest can accept an interrupt now.
    pub fn allow_interrupt(&self) -> (r: bool)
        ensures
            r == self.allow_interrupt_spec(),
    {
        self.vmcs.guest.rflags & RFLAGS_IF != 0 && self.vmcs.guest.interruptibility_state == 0
    }

    /// Whether an event is queued.
    pub open spec fn has_pending_event(&self) -> bool {
        self.pending_events@.len() > 0
    }

    /// Whether the queued head event may be injected now: exceptions
    /// (vector below 32) always, interrupts only when the guest accepts
    /// them.
    pub open spec fn pending_injectable(&self) -> bool {
        self.has_pending_event()
            && (self.pending_events@[0].0 < 32 || self.allow_interrupt_spec())
    }

    /// Try to arm the injection of the oldest pending event before the
    /// next VM entry. An injectable head is armed in the VM-entry
    /// interruption information and dequeued; a blocked one stays
    /// queued and interrupt-window exiting is turned on instead. An
    /// event leaves the queue only when its vector is below 32 or the
    /// guest accepts interrupts at that moment.
    pub fn inject_pending_events(&mut self)
        ensures
            same_static_state(old(self), final(self)),
            final(self).launched == old(self).launched,
            final(self).xstate == old(self).xstate,
            !old(self).has_pending_event() ==> *final(self) == *old(self),
            old(self).pending_injectable() ==> {
                &&& final(self).pending_events@ == old(self).pending_events@.drop_first()
                &&& final(self).vmcs == (Vmcs {
                    control: (ControlState {
                        vmentry_interruption_info: Vmcs::interruption_info_word_spec(
                            old(self).pending_events@[0].0,
                            vector_has_error_code_spec(old(self).pending_events@[0].0)
                                && old(self).pending_events@[0].1 is Some,
                        ),
                        vmentry_exception_err_code:
                            if vector_has_error_code_spec(old(self).pending_events@[0].0)
                                && old(self).pending_events@[0].1 is Some {
                                old(self).pending_events@[0].1.unwrap()
                            } else {
                                old(self).vmcs.control.vmentry_exception_err_code
                            },
                        ..old(self).vmcs.control
                    }),
                    ..old(self).vmcs
                })
            },
            old(self).has_pending_event() && !old(self).pending_injectable() ==> {
                &&& final(self).pending_events == old(self).pending_events
                &&& final(self).vmcs == (Vmcs {
                    control: (ControlState {
                        primary: (old(self).vmcs.control.primary
                            | PRIMARY_INTERRUPT_WINDOW_EXITING) as u32,
                        ..old(self).vmcs.control
                    }),
                    ..old(self).vmcs
                })
            },
            final(self).pending_events@.len() < old(self).pending_events@.len() ==> (
                old(self).pending_events@[0].0 < 32 || old(self).allow_interrupt_spec()
            ),
    {
        if self.pending_events.len() > 0 {
            let event = self.pending_events[0];
            if event.0 < 32 || self.allow_interrupt() {
                self.vmcs.inject_event(event.0, event.1);
                let _ = self.pending_events.pop_front();
            } else {
                self.set_interrupt_window(true);
            }
        }
    }

    /// Hand the guest extended state to the hardware, recording the
    /// current host values.
    pub fn load_guest_xstate(&mut self, current_xcr0: u64, current_xss: u64) -> (r: XStateLoad)
        ensures
            same_static_state(old(self), final(self)),
            final(self).launched == old(self).launched,
            final(self).pending_events == old(self).pending_events,
            final(self).vmcs == old(self).vmcs,
            final(self).xstate.guest_xcr0() == old(self).xstate.guest_xcr0(),
            final(self).xstate.guest_xss() == old(self).xstate.guest_xss(),
            final(self).xstate.has_xsave() == old(self).xstate.has_xsave(),
            final(self).xstate.has_xsaves() == old(self).xstate.has_xsaves(),
            old(self).xstate.has_xsave() ==> {
                &&& final(self).xstate.host_xcr0() == current_xcr0
                &&& r.xcr0 == Some(old(self).xstate.guest_xcr0())
            },
            !old(self).xstate.has_xsave() ==> {
                &&& final(self).xstate.host_xcr0() == old(self).xstate.host_xcr0()
                &&& r.xcr0 is None
            },
            old(self).xstate.has_xsaves() ==> {
                &&& final(self).xstate.host_xss() == current_xss
                &&& r.xss == Some(old(self).xstate.guest_xss())
            },
            !old(self).xstate.has_xsaves() ==> {
                &&& final(self).xstate.host_xss() == old(self).xstate.host_xss()
                &&& r.xss is None
            },
    {
        self.xstate.switch_to_guest(current_xcr0, current_xss)
    }

    /// Restore the host extended state, recording the current guest
    /// values.
    pub fn load_host_xstate(&mut self, current_xcr0: u64, current_xss: u64) -> (r: XStateLoad)
        ensures
            same_static_state(old(self), final(self)),
            final(self).launched == old(self).launched,
            final(self).pending_events == old(self).pending_events,
            final(self).vmcs == old(self).vmcs,
            final(self).xstate.host_xcr0() == old(self).xstate.host_xcr0(),
            final(self).xstate.host_xss() == old(self).xstate.host_xss(),
            final(self).xstate.has_xsave() == old(self).xstate.has_xsave(),
            final(self).xstate.has_xsaves() == old(self).xstate.has_xsaves(),
            old(self).xstate.has_xsave() ==> {
                &&& final(self).xstate.guest_xcr0() == current_xcr0
                &&& r.xcr0 == Some(old(self).xstate.host_xcr0())
            },
            !old(self).xstate.has_xsave() ==> {
                &&& final(self).xstate.guest_xcr0() == old(self).xstate.guest_xcr0()
                &&& r.xcr0 is None
            },
            old(self).xstate.has_xsaves() ==> {
                &&& final(self).xstate.guest_xss() == current_xss
                &&& r.xss == Some(old(self).xstate.host_xss())
            },
            !old(self).xstate.has_xsaves() ==> {
                &&& final(self).xstate.guest_xss() == old(self).xstate.guest_xss()
                &&& r.xss is None
            },
    {
        self.xstate.switch_to_host(current_xcr0, current_xss)
    }

    /// Get ready for the next guest entry: try to inject a pending
    /// event, switch the extended state to the guest, and pick VMLAUNCH
    /// or VMRESUME. After this call the vCPU counts as launched; the
    /// guest registers are untouched.
    pub fn prepare_entry(&mut self, current_xcr0: u64, current_xss: u64) -> (r: EntryPlan)
        ensures
            same_static_state(old(self), final(self)),
            r.resume == old(self).launched,
            final(self).launched == true,
            final(self).guest_regs == old(self).guest_regs,
            !old(self).has_pending_event() ==> {
                &&& final(self).pending_events@ == old(self).pending_events@
                &&& final(self).vmcs == old(self).vmcs
            },
            old(self).pending_injectable() ==> {
                &&& final(self).pending_events@ == old(self).pending_events@.drop_first()
                &&& final(self).vmcs == (Vmcs {
                    control: (ControlState {
                        vmentry_interruption_info: Vmcs::interruption_info_word_spec(
                            old(self).pending_events@[0].0,
                            vector_has_error_code_spec(old(self).pending_events@[0].0)
                                && old(self).pending_events@[0].1 is Some,
                        ),
                        vmentry_exception_err_code:
                            if vector_has_error_code_spec(old(self).pending_events@[0].0)
                                && old(self).pending_events@[0].1 is Some {
                                old(self).pending_events@[0].1.unwrap()
                            } else {
                                old(self).vmcs.control.vmentry_exception_err_code
                            },
                        ..old(self).vmcs.control
                    }),
                    ..old(self).vmcs
                })
            },
            old(self).has_pending_event() && !old(self).pending_injectable() ==> {
                &&& final(self).pending_events@ == old(self).pending_events@
                &&& final(self).vmcs == (Vmcs {
                    control: (ControlState {
                        primary: (old(self).vmcs.control.primary
                            | PRIMARY_INTERRUPT_WINDOW_EXITING) as u32,
                        ..old(self).vmcs.control
                    }),
                    ..old(self).vmcs
                })
            },
            final(self).pending_events@.len() < old(self).pending_events@.len() ==> (
                old(self).pending_events@[0].0 < 32 || old(self).allow_interrupt_spec()
            ),
            old(self).xstate.has_xsave()
                ==> r.xstate_load.xcr0 == Some(old(self).xstate.guest_xcr0())
                    && final(self).xstate.host_xcr0() == current_xcr0,
            !old(self).xstate.has_xsave() ==> r.xstate_load.xcr0 is None
                && final(self).xstate.host_xcr0() == old(self).xstate.host_xcr0(),
            old(self).xstate.has_xsaves()
                ==> r.xstate_load.xss == Some(old(self).xstate.guest_xss())
                    && final(self).xstate.host_xss() == current_xss,
            !old(self).xstate.has_xsaves() ==> r.xstate_load.xss is None
                && final(self).xstate.host_xss() == old(self).xstate.host_xss(),
            final(self).xstate.guest_xcr0() == old(self).xstate.guest_xcr0(),
            final(self).xstate.guest_xss() == old(self).xstate.guest_xss(),
            final(self).xstate.has_xsave() == old(self).xstate.has_xsave(),
            final(self).xstate.has_xsaves() == old(self).xstate.has_xsaves(),
    {
        self.inject_pending_events();
        let load = self.xstate.switch_to_guest(current_xcr0, current_xss);
        let resume = self.launched;
        if !resume {
            self.launched = true;
        }
        EntryPlan { resume, xstate_load: load }
    }

    /// Rearm the VMX-preemption timer for the next quantum.
    pub fn handle_vmx_preemption_timer(&mut self)
        ensures
            same_but_vmcs(old(self), final(self)),
            final(self).vmcs == (Vmcs {
                guest: (GuestState {
                    preemption_timer: VMX_PREEMPTION_TIMER_SET_VALUE,
                    ..old(self).vmcs.guest
                }),
                ..old(self).vmcs
            }),
    {
        self.vmcs.guest.preemption_timer = VMX_PREEMPTION_TIMER_SET_VALUE;
    }

    /// Handle a guest XSETBV: only XCR0 (index 0) is supported, and the
    /// requested value must satisfy [`xcr0_valid`]. On success the
    /// guest XCR0 is replaced and RIP advances over the instruction; on
    /// failure nothing changes, with `Unsupported` for another index
    /// and `InvalidInput` for a malformed value.
    pub fn handle_xsetbv(&mut self) -> (r: VmxResult<()>)
        requires
            old(self).vmcs.guest.rip + 3 <= u64::MAX,
        ensures
            same_static_state(old(self), final(self)),
            final(self).launched == old(self).launched,
            final(self).pending_events == old(self).pending_events,
            r.is_ok() <==> (old(self).guest_regs.rcx & 0xffff_ffff == 0
                && xcr0_valid(edx_eax_spec(old(self).guest_regs))),
            r.is_err() ==> *final(self) == *old(self),
            old(self).guest_regs.rcx & 0xffff_ffff != 0
                ==> r == VmxResult::<()>::Err(VmxError::Unsupported),
            old(self).guest_regs.rcx & 0xffff_ffff == 0
                && !xcr0_valid(edx_eax_spec(old(self).guest_regs))
                ==> r == VmxResult::<()>::Err(VmxError::InvalidInput),
            r.is_ok() ==> {
                &&& final(self).xstate.guest_xcr0() == edx_eax_spec(old(self).guest_regs)
                &&& final(self).xstate.host_xcr0() == old(self).xstate.host_xcr0()
                &&& final(self).xstate.guest_xss() == old(self).xstate.guest_xss()
                &&& final(self).xstate.host_xss() == old(self).xstate.host_xss()
                &&& final(self).xstate.has_xsave() == old(self).xstate.has_xsave()
                &&& final(self).xstate.has_xsaves() == old(self).xstate.has_xsaves()
                &&& final(self).vmcs == (Vmcs {
                    guest: (GuestState {
                        rip: (old(self).vmcs.guest.rip + 3) as u64,
                        ..old(self).vmcs.guest
                    }),
                    ..old(self).vmcs
                })
            },
    {
        let index = self.guest_regs.rcx & 0xffff_ffff;
        let value = ((self.guest_regs.rdx & 0xffff_ffff) << 32)
            | (self.guest_regs.rax & 0xffff_ffff);

        if index != 0 {
            return Err(VmxError::Unsupported);
        }

        let known = value & !XCR0_KNOWN_MASK == 0;
        let x87 = value & XCR0_FPU_MMX != 0;
        let avx_ok = value & XCR0_AVX == 0 || value & XCR0_SSE != 0;
        let mpx_ok = (value & XCR0_BNDCSR != 0) == (value & XCR0_BNDREG != 0);
        let op = value & XCR0_OPMASK != 0;
        let zmm = value & XCR0_ZMM_HI256 != 0;
        let hi = value & XCR0_HI16_ZMM != 0;
        let avx512_ok = (op && zmm && hi && value & XCR0_AVX != 0) || (!op && !zmm && !hi);

        if !(known && x87 && avx_ok && mpx_ok && avx512_ok) {
            return Err(VmxError::InvalidInput);
        }

        self.xstate.guest_xcr0 = value;
        self.vmcs.guest.rip = self.vmcs.guest.rip + 3;
        Ok(())
    }

    /// The VMCS after a tolerated "mov to CR0/CR4" exit is handled:
    /// RIP advanced over the instruction, the moved value coerced
    /// through `set_cr`, and, when a CR0 write turns paging on while
    /// IA32_EFER.LME is set, long mode activated.
    pub open spec fn handled_cr_vmcs_spec(s: VmxVcpu) -> Vmcs {
        let info = s.vmcs.cr_access_info_spec();
        let val = if info.gpr == 4 {
            s.vmcs.guest.rsp
        } else {
            s.guest_regs.reg_of_index_spec(info.gpr)
        };
        if info.cr_number == 4 {
            Vmcs {
                guest: GuestState {
                    cr4: cr4_guest_value(s.caps, val),
                    rip: (s.vmcs.guest.rip + 3) as u64,
                    ..s.vmcs.guest
                },
                control: ControlState {
                    cr4_read_shadow: cr4_requested(val),
                    cr4_guest_host_mask: cr4_host_mask(s.caps),
                    ..s.vmcs.control
                },
                ..s.vmcs
            }
        } else if val & CR0_PG != 0 && s.vmcs.guest.ia32_efer & EFER_LME != 0 {
            Vmcs {
                guest: GuestState {
                    cr0: cr0_guest_value(s.caps, val),
                    rip: (s.vmcs.guest.rip + 3) as u64,
                    ia32_efer: (s.vmcs.guest.ia32_efer | EFER_LMA) as u64,
                    ..s.vmcs.guest
                },
                control: ControlState {
                    cr0_read_shadow: val,
                    cr0_guest_host_mask: cr0_host_mask(s.caps),
                    vmentry_ctls: (s.vmcs.control.vmentry_ctls | ENTRY_IA32E_MODE_GUEST) as u32,
                    ..s.vmcs.control
                },
                ..s.vmcs
            }
        } else {
            Vmcs {
                guest: GuestState {
                    cr0: cr0_guest_value(s.caps, val),
                    rip: (s.vmcs.guest.rip + 3) as u64,
                    ..s.vmcs.guest
                },
                control: ControlState {
                    cr0_read_shadow: val,
                    cr0_guest_host_mask: cr0_host_mask(s.caps),
                    ..s.vmcs.control
                },
                ..s.vmcs
            }
        }
    }

    /// Handle a guest control-register access: only "mov to CR0" and
    /// "mov to CR4" are tolerated; RIP advances over the instruction,
    /// the value moves through [`Self::set_cr`], and a CR0 write that
    /// turns paging on updates IA32_EFER.LMA. Anything else fails with
    /// `BadState`, which the embedding must treat as fatal.
    pub fn handle_cr(&mut self) -> (r: VmxResult<()>)
        requires
            old(self).vmcs.guest.rip + 3 <= u64::MAX,
        ensures
            same_static_but_regs(old(self), final(self)),
            final(self).guest_regs == old(self).guest_regs,
            final(self).launched == old(self).launched,
            final(self).pending_events == old(self).pending_events,
            final(self).xstate == old(self).xstate,
            r.is_ok() <==> (old(self).vmcs.cr_access_info_spec().access_type == 0
                && (old(self).vmcs.cr_access_info_spec().cr_number == 0
                    || old(self).vmcs.cr_access_info_spec().cr_number == 4)),
            r.is_err() ==> {
                &&& r == VmxResult::<()>::Err(VmxError::BadState)
                &&& *final(self) == *old(self)
            },
            r.is_ok() ==> final(self).vmcs == Self::handled_cr_vmcs_spec(*old(self)),
    {
        let info = self.vmcs.cr_access_info();
        proof {
            let q = self.vmcs.exits.exit_qualification;
            assert((q >> 8) & 0xf < 16 && (q & 0xf) < 16) by (bit_vector);
        }
        if info.access_type == 0 && (info.cr_number == 0 || info.cr_number == 4) {
            let val = if info.gpr == 4 {
                self.vmcs.guest.rsp
            } else {
                self.guest_regs.get_reg_of_index(info.gpr)
            };
            self.vmcs.guest.rip = self.vmcs.guest.rip + 3;
            self.set_cr(info.cr_number as u64, val);
            if info.cr_number == 0 && val & CR0_PG != 0 {
                self.vmcs.update_efer();
            }
            Ok(())
        } else {
            Err(VmxError::BadState)
        }
    }

    /// Finish a CPUID exit with the host query result: the guest EAX,
    /// EBX, ECX and EDX take the rewritten values of
    /// [`cpuid_adjust_spec`] and RIP advances over the instruction.
    pub fn complete_cpuid(&mut self, host: CpuidValues)
        requires
            old(self).vmcs.guest.rip + 2 <= u64::MAX,
        ensures
            same_static_but_regs(old(self), final(self)),
            final(self).launched == old(self).launched,
            final(self).pending_events == old(self).pending_events,
            final(self).xstate == old(self).xstate,
            final(self).guest_regs == ({
                let res = cpuid_adjust_spec(
                    (old(self).guest_regs.rax & 0xffff_ffff) as u32,
                    (old(self).guest_regs.rcx & 0xffff_ffff) as u32,
                    host,
                );
                GeneralRegisters {
                    rax: res.eax as u64,
                    rbx: res.ebx as u64,
                    rcx: res.ecx as u64,
                    rdx: res.edx as u64,
                    ..old(self).guest_regs
                }
            }),
            final(self).vmcs == (Vmcs {
                guest: (GuestState {
                    rip: (old(self).vmcs.guest.rip + 2) as u64,
                    ..old(self).vmcs.guest
                }),
                ..old(self).vmcs
            }),
    {
        let function = (self.guest_regs.rax & 0xffff_ffff) as u32;
        let index = (self.guest_regs.rcx & 0xffff_ffff) as u32;
        let res = cpuid_adjust(function, index, host);
        self.guest_regs.rax = res.eax as u64;
        self.guest_regs.rbx = res.ebx as u64;
        self.guest_regs.rcx = res.ecx as u64;
        self.guest_regs.rdx = res.edx as u64;
        self.vmcs.guest.rip = self.vmcs.guest.rip + 2;
    }

    /// Finish an x2APIC MSR read with the value the emulated local APIC
    /// returned: it lands in EDX:EAX.
    pub fn complete_vlapic_read(&mut self, value: u64)
        ensures
            same_static_but_regs(old(self), final(self)),
            final(self).launched == old(self).launched,
            final(self).pending_events == old(self).pending_events,
            final(self).xstate == old(self).xstate,
            final(self).vmcs == old(self).vmcs,
            final(self).guest_regs == (GeneralRegisters {
                rax: (value & 0xffff_ffff) as u64,
                rdx: (value >> 32) as u64,
                ..old(self).guest_regs
            }),
    {
        self.guest_regs.rax = value & 0xffff_ffff;
        self.guest_regs.rdx = value >> 32;
    }

    /// Try the built-in handling of the latched VM exit: the interrupt
    /// window and the preemption timer are absorbed, XSETBV and CR
    /// accesses are applied, a CPUID exit asks for a host query, and an
    /// x2APIC MSR access (ECX in 0x800..=0x8ff) advances RIP and asks
    /// for the emulated local APIC. An APIC-access exit is not
    /// implemented and fails; every other exit is left for the
    /// supervisor mapping.
    pub fn builtin_vmexit_handler(&mut self) -> (r: BuiltinOutcome)
        requires
            old(self).vmcs.guest.rip + 3 <= u64::MAX,
        ensures
            same_static_but_regs(old(self), final(self)),
            final(self).guest_regs == old(self).guest_regs,
            final(self).launched == old(self).launched,
            final(self).pending_events == old(self).pending_events,
            ({
                let reason = old(self).vmcs.exit_info_spec().exit_reason;
                let msr = (old(self).guest_regs.rcx & 0xffff_ffff) as u32;
                &&& (reason == VmxExitReason::InterruptWindow ==> {
                    &&& r == BuiltinOutcome::Done
                    &&& final(self).xstate == old(self).xstate
                    &&& final(self).vmcs == (Vmcs {
                        control: (ControlState {
                            primary: (old(self).vmcs.control.primary
                                & !PRIMARY_INTERRUPT_WINDOW_EXITING) as u32,
                            ..old(self).vmcs.control
                        }),
                        ..old(self).vmcs
                    })
                })
                &&& (reason == VmxExitReason::PreemptionTimer ==> {
                    &&& r == BuiltinOutcome::Done
                    &&& final(self).xstate == old(self).xstate
                    &&& final(self).vmcs == (Vmcs {
                        guest: (GuestState {
                            preemption_timer: VMX_PREEMPTION_TIMER_SET_VALUE,
                            ..old(self).vmcs.guest
                        }),
                        ..old(self).vmcs
                    })
                })
                &&& (reason == VmxExitReason::Cpuid ==> {
                    &&& r == (BuiltinOutcome::CpuidQuery {
                        leaf: (old(self).guest_regs.rax & 0xffff_ffff) as u32,
                        subleaf: (old(self).guest_regs.rcx & 0xffff_ffff) as u32,
                        under_guest_xstate: (old(self).guest_regs.rax & 0xffff_ffff) as u32
                            == LEAF_EXTENDED_STATE,
                    })
                    &&& *final(self) == *old(self)
                })
                &&& (reason == VmxExitReason::MsrRead && X2APIC_MSR_BASE <= msr <= X2APIC_MSR_END
                    ==> {
                    &&& r == (BuiltinOutcome::VlapicRead { msr, width: AccessWidth::Qword })
                    &&& final(self).xstate == old(self).xstate
                    &&& final(self).vmcs == (Vmcs {
                        guest: (GuestState {
                            rip: (old(self).vmcs.guest.rip + 2) as u64,
                            ..old(self).vmcs.guest
                        }),
                        ..old(self).vmcs
                    })
                })
                &&& (reason == VmxExitReason::MsrWrite && X2APIC_MSR_BASE <= msr <= X2APIC_MSR_END
                    ==> {
                    &&& r == (BuiltinOutcome::VlapicWrite {
                        msr,
                        width: AccessWidth::Qword,
                        value: edx_eax_spec(old(self).guest_regs),
                    })
                    &&& final(self).xstate == old(self).xstate
                    &&& final(self).vmcs == (Vmcs {
                        guest: (GuestState {
                            rip: (old(self).vmcs.guest.rip + 2) as u64,
                            ..old(self).vmcs.guest
                        }),
                        ..old(self).vmcs
                    })
                })
                &&& ((reason == VmxExitReason::MsrRead || reason == VmxExitReason::MsrWrite)
                    && !(X2APIC_MSR_BASE <= msr <= X2APIC_MSR_END) ==> {
                    &&& r == BuiltinOutcome::NotBuiltin
                    &&& *final(self) == *old(self)
                })
                &&& (reason == VmxExitReason::Xsetbv ==> {
                    &&& (old(self).guest_regs.rcx & 0xffff_ffff == 0
                        && xcr0_valid(edx_eax_spec(old(self).guest_regs))) ==> {
                        &&& r == BuiltinOutcome::Done
                        &&& final(self).xstate.guest_xcr0()
                            == edx_eax_spec(old(self).guest_regs)
                        &&& final(self).xstate.host_xcr0() == old(self).xstate.host_xcr0()
                        &&& final(self).xstate.guest_xss() == old(self).xstate.guest_xss()
                        &&& final(self).xstate.host_xss() == old(self).xstate.host_xss()
                        &&& final(self).xstate.has_xsave() == old(self).xstate.has_xsave()
                        &&& final(self).xstate.has_xsaves() == old(self).xstate.has_xsaves()
                        &&& final(self).vmcs == (Vmcs {
                            guest: (GuestState {
                                rip: (old(self).vmcs.guest.rip + 3) as u64,
                                ..old(self).vmcs.guest
                            }),
                            ..old(self).vmcs
                        })
                    }
                    &&& (old(self).guest_regs.rcx & 0xffff_ffff != 0 ==> {
                        &&& r == BuiltinOutcome::Failed(VmxError::Unsupported)
                        &&& *final(self) == *old(self)
                    })
                    &&& (old(self).guest_regs.rcx & 0xffff_ffff == 0
                        && !xcr0_valid(edx_eax_spec(old(self).guest_regs)) ==> {
                        &&& r == BuiltinOutcome::Failed(VmxError::InvalidInput)
                        &&& *final(self) == *old(self)
                    })
                })
                &&& (reason == VmxExitReason::CrAccess ==> {
                    &&& final(self).xstate == old(self).xstate
                    &&& (old(self).vmcs.cr_access_info_spec().access_type == 0
                        && (old(self).vmcs.cr_access_info_spec().cr_number == 0
                            || old(self).vmcs.cr_access_info_spec().cr_number == 4)
                        ==> r == BuiltinOutcome::Done
                            && final(self).vmcs == Self::handled_cr_vmcs_spec(*old(self)))
                    &&& (!(old(self).vmcs.cr_access_info_spec().access_type == 0
                        && (old(self).vmcs.cr_access_info_spec().cr_number == 0
                            || old(self).vmcs.cr_access_info_spec().cr_number == 4))
                        ==> r == BuiltinOutcome::Failed(VmxError::BadState)
                            && *final(self) == *old(self))
                })
                &&& (reason == VmxExitReason::ApicAccess ==> {
                    &&& *final(self) == *old(self)
                    &&& ((old(self).vmcs.apic_access_type_spec()
                            == ApicAccessExitType::LinearDataRead
                        || old(self).vmcs.apic_access_type_spec()
                            == ApicAccessExitType::LinearDataWrite)
                        ==> r == BuiltinOutcome::Failed(VmxError::Unsupported))
                    &&& (!(old(self).vmcs.apic_access_type_spec()
                            == ApicAccessExitType::LinearDataRead
                        || old(self).vmcs.apic_access_type_spec()
                            == ApicAccessExitType::LinearDataWrite)
                        ==> r == BuiltinOutcome::Failed(VmxError::BadState))
                })
                &&& (!(reason == VmxExitReason::InterruptWindow
                    || reason == VmxExitReason::PreemptionTimer
                    || reason == VmxExitReason::Cpuid
                    || reason == VmxExitReason::MsrRead
                    || reason == VmxExitReason::MsrWrite
                    || reason == VmxExitReason::Xsetbv
                    || reason == VmxExitReason::CrAccess
                    || reason == VmxExitReason::ApicAccess) ==> {
                    &&& r == BuiltinOutcome::NotBuiltin
                    &&& *final(self) == *old(self)
                })
            }),
    {
        let exit_info = self.exit_info();
        match exit_info.exit_reason {
            VmxExitReason::InterruptWindow => {
                self.set_interrupt_window(false);
                BuiltinOutcome::Done
            }
            VmxExitReason::PreemptionTimer => {
                self.handle_vmx_preemption_timer();
                BuiltinOutcome::Done
            }
            VmxExitReason::Xsetbv => {
                match self.handle_xsetbv() {
                    Ok(()) => BuiltinOutcome::Done,
                    Err(e) => BuiltinOutcome::Failed(e),
                }
            }
            VmxExitReason::CrAccess => {
                match self.handle_cr() {
                    Ok(()) => BuiltinOutcome::Done,
                    Err(e) => BuiltinOutcome::Failed(e),
                }
            }
            VmxExitReason::Cpuid => {
                let leaf = (self.guest_regs.rax & 0xffff_ffff) as u32;
                let subleaf = (self.guest_regs.rcx & 0xffff_ffff) as u32;
                BuiltinOutcome::CpuidQuery {
                    leaf,
                    subleaf,
                    under_guest_xstate: cpuid_needs_guest_xstate(leaf),
                }
            }
            VmxExitReason::MsrRead => {
                let msr = (self.guest_regs.rcx & 0xffff_ffff) as u32;
                if X2APIC_MSR_BASE <= msr && msr <= X2APIC_MSR_END {
                    self.vmcs.guest.rip = self.vmcs.guest.rip + 2;
                    BuiltinOutcome::VlapicRead { msr, width: AccessWidth::Qword }
                } else {
                    BuiltinOutcome::NotBuiltin
                }
            }
            VmxExitReason::MsrWrite => {
                let msr = (self.guest_regs.rcx & 0xffff_ffff) as u32;
                if X2APIC_MSR_BASE <= msr && msr <= X2APIC_MSR_END {
                    let value = ((self.guest_regs.rdx & 0xffff_ffff) << 32)
                        | (self.guest_regs.rax & 0xffff_ffff);
                    self.vmcs.guest.rip = self.vmcs.guest.rip + 2;
                    BuiltinOutcome::VlapicWrite { msr, width: AccessWidth::Qword, value }
                } else {
                    BuiltinOutcome::NotBuiltin
                }
            }
            VmxExitReason::ApicAccess => {
                // Only the decode is done here; delegation to the
                // emulated local APIC page is an open item, so a data
                // access fails as unsupported and any other access type
                // as a bad state, both fatal to the embedding.
                let info = self.apic_access_exit_info();
                match info.access_type {
                    ApicAccessExitType::LinearDataRead => {
                        BuiltinOutcome::Failed(VmxError::Unsupported)
                    }
                    ApicAccessExitType::LinearDataWrite => {
                        BuiltinOutcome::Failed(VmxError::Unsupported)
                    }
                    _ => BuiltinOutcome::Failed(VmxError::BadState),
                }
            }
            _ => BuiltinOutcome::NotBuiltin,
        }
    }

    /// Map a VM exit that no built-in handler consumed to the
    /// supervisor-facing reason: an entry failure, a hypercall with its
    /// six arguments, a decoded port access (with the power-down port
    /// turned into a shutdown request), an external interrupt, an MSR
    /// access outside the emulated range, and `Halt` for everything
    /// else. VMCALL and port accesses advance RIP over the instruction.
    pub fn map_unhandled_exit(&mut self) -> (r: ExitReason)
        requires
            old(self).vmcs.guest.rip + old(self).vmcs.exits.exit_instruction_length <= u64::MAX,
            !old(self).vmcs.exit_info_spec().entry_failure
                && old(self).vmcs.exit_info_spec().exit_reason == VmxExitReason::ExternalInterrupt
                ==> old(self).vmcs.interrupt_exit_info_spec().valid,
        ensures
            same_static_but_regs(old(self), final(self)),
            final(self).guest_regs == old(self).guest_regs,
            final(self).launched == old(self).launched,
            final(self).pending_events == old(self).pending_events,
            final(self).xstate == old(self).xstate,
            ({
                let info = old(self).vmcs.exit_info_spec();
                let regs = old(self).guest_regs;
                let advanced = (Vmcs {
                    guest: (GuestState {
                        rip: (old(self).vmcs.guest.rip
                            + old(self).vmcs.exits.exit_instruction_length) as u64,
                        ..old(self).vmcs.guest
                    }),
                    ..old(self).vmcs
                });
                &&& (info.entry_failure ==> r == (ExitReason::FailEntry {
                        hardware_entry_failure_reason: 0,
                    }) && *final(self) == *old(self))
                &&& (!info.entry_failure ==> {
                    &&& (info.exit_reason == VmxExitReason::Vmcall ==> {
                        &&& r == (ExitReason::Hypercall {
                            nr: regs.rax,
                            args: [regs.rdi, regs.rsi, regs.rdx, regs.rcx, regs.r8, regs.r9],
                        })
                        &&& final(self).vmcs == advanced
                    })
                    &&& (info.exit_reason == VmxExitReason::IoInstruction ==> {
                        let io = old(self).vmcs.io_exit_info_spec();
                        &&& final(self).vmcs == advanced
                        &&& (io.is_repeat || io.is_string ==> r == ExitReason::Halt)
                        &&& (!(io.is_repeat || io.is_string) ==> {
                            match AccessWidth::from_size_spec(io.access_size) {
                                None => r == ExitReason::Halt,
                                Some(width) => {
                                    &&& (io.is_in ==> r == (ExitReason::IoRead {
                                        port: io.port, width }))
                                    &&& (!io.is_in && io.port == QEMU_EXIT_PORT
                                        && width == AccessWidth::Word
                                        && regs.rax == QEMU_EXIT_MAGIC
                                        ==> r == ExitReason::SystemDown)
                                    &&& (!io.is_in && !(io.port == QEMU_EXIT_PORT
                                        && width == AccessWidth::Word
                                        && regs.rax == QEMU_EXIT_MAGIC)
                                        ==> r == (ExitReason::IoWrite {
                                            port: io.port,
                                            width,
                                            data: regs.rax & width.mask_spec(),
                                        }))
                                }
                            }
                        })
                    })
                    &&& (info.exit_reason == VmxExitReason::ExternalInterrupt ==> {
                        &&& r == (ExitReason::ExternalInterrupt {
                            vector: old(self).vmcs.interrupt_exit_info_spec().vector as u64,
                        })
                        &&& *final(self) == *old(self)
                    })
                    &&& (info.exit_reason == VmxExitReason::MsrRead ==> {
                        &&& r == (ExitReason::SysRegRead { addr: regs.rcx })
                        &&& *final(self) == *old(self)
                    })
                    &&& (info.exit_reason == VmxExitReason::MsrWrite ==> {
                        &&& r == (ExitReason::SysRegWrite {
                            addr: regs.rcx,
                            value: edx_eax_spec(regs),
                        })
                        &&& *final(self) == *old(self)
                    })
                    &&& (!(info.exit_reason == VmxExitReason::Vmcall
                        || info.exit_reason == VmxExitReason::IoInstruction
                        || info.exit_reason == VmxExitReason::ExternalInterrupt
                        || info.exit_reason == VmxExitReason::MsrRead
                        || info.exit_reason == VmxExitReason::MsrWrite) ==> {
                        &&& r == ExitReason::Halt
                        &&& *final(self) == *old(self)
                    })
                })
            }),
    {
        let exit_info = self.exit_info();
        if exit_info.entry_failure {
            return ExitReason::FailEntry { hardware_entry_failure_reason: 0 };
        }
        match exit_info.exit_reason {
            VmxExitReason::Vmcall => {
                self.vmcs.guest.rip =
                    self.vmcs.guest.rip + exit_info.exit_instruction_length as u64;
                ExitReason::Hypercall {
                    nr: self.guest_regs.rax,
                    args: [
                        self.guest_regs.rdi,
                        self.guest_regs.rsi,
                        self.guest_regs.rdx,
                        self.guest_regs.rcx,
                        self.guest_regs.r8,
                        self.guest_regs.r9,
                    ],
                }
            }
            VmxExitReason::IoInstruction => {
                let io = self.io_exit_info();
                self.vmcs.guest.rip =
                    self.vmcs.guest.rip + exit_info.exit_instruction_length as u64;
                if io.is_repeat || io.is_string {
                    ExitReason::Halt
                } else {
                    match AccessWidth::try_from_size(io.access_size) {
                        None => ExitReason::Halt,
                        Some(width) => {
                            if io.is_in {
                                ExitReason::IoRead { port: io.port, width }
                            } else if io.port == QEMU_EXIT_PORT
                                && width == AccessWidth::Word
                                && self.guest_regs.rax == QEMU_EXIT_MAGIC {
                                ExitReason::SystemDown
                            } else {
                                let mask = width.mask();
                                ExitReason::IoWrite {
                                    port: io.port,
                                    width,
                                    data: self.guest_regs.rax & mask,
                                }
                            }
                        }
                    }
                }
            }
            VmxExitReason::ExternalInterrupt => {
                let int_info = self.interrupt_exit_info();
                ExitReason::ExternalInterrupt { vector: int_info.vector as u64 }
            }
            VmxExitReason::MsrRead => {
                ExitReason::SysRegRead { addr: self.guest_regs.rcx }
            }
            VmxExitReason::MsrWrite => {
                let value = ((self.guest_regs.rdx & 0xffff_ffff) << 32)
                    | (self.guest_regs.rax & 0xffff_ffff);
                ExitReason::SysRegWrite { addr: self.guest_regs.rcx, value }
            }
            _ => ExitReason::Halt,
        }
    }
}

/// Everything of two vCPUs is equal except possibly the guest
/// registers, the launched flag, the pending events, the extended state
/// and the modeled VMCS.
pub open spec fn same_static_but_regs(a: &VmxVcpu, b: &VmxVcpu) -> bool {
    &&& a.host_stack_top == b.host_stack_top
    &&& a.entry == b.entry
    &&& a.ept_root == b.ept_root
    &&& a.vmcs_region == b.vmcs_region
    &&& a.io_bitmap == b.io_bitmap
    &&& a.msr_bitmap == b.msr_bitmap
    &&& a.caps == b.caps
}


/// A VM exit followed immediately by a VM entry with no state changes
/// in between leaves the guest general-purpose registers bitwise
/// identical: restoring the host extended state and preparing the next
/// entry never touch them, as the contracts of
/// [`VmxVcpu::load_host_xstate`] and [`VmxVcpu::prepare_entry`] state,
/// so the register file the next entry loads is the one the exit
/// saved.
pub proof fn lemma_exit_entry_preserves_regs(after_exit: VmxVcpu, restored: VmxVcpu, entered: VmxVcpu)
    requires
        restored.guest_regs == after_exit.guest_regs,
        entered.guest_regs == restored.guest_regs,
    ensures
        entered.guest_regs == after_exit.guest_regs,
{
}
} // verus!

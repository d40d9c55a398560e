//! Model of the Virtual Machine Control Structure.
//!
//! The guest, host, control and exit-information fields that the runtime
//! reads or writes are held here as plain machine words. The embedding
//! moves them between this model and the hardware VMCS with VMREAD and
//! VMWRITE around guest entries and exits.

use vstd::prelude::*;
use crate::{VmxError, VmxResult};
use crate::vmx::definitions::{
    VmxExitReason, interruption_type, interruption_type_spec, vector_has_error_code,
    vector_has_error_code_spec, EFER_LME, EFER_LMA,
};

verus! {

// Pin-based execution controls.
pub const PIN_EXTERNAL_INTERRUPT_EXITING: u32 = 0x1;
pub const PIN_NMI_EXITING: u32 = 0x8;

// Primary processor-based execution controls.
pub const PRIMARY_INTERRUPT_WINDOW_EXITING: u32 = 0x4;
pub const PRIMARY_CR3_LOAD_EXITING: u32 = 0x8000;
pub const PRIMARY_CR3_STORE_EXITING: u32 = 0x1_0000;
pub const PRIMARY_CR8_LOAD_EXITING: u32 = 0x8_0000;
pub const PRIMARY_CR8_STORE_EXITING: u32 = 0x10_0000;
pub const PRIMARY_USE_IO_BITMAPS: u32 = 0x200_0000;
pub const PRIMARY_USE_MSR_BITMAPS: u32 = 0x1000_0000;
pub const PRIMARY_SECONDARY_CONTROLS: u32 = 0x8000_0000;

// Secondary processor-based execution controls.
pub const SECONDARY_ENABLE_EPT: u32 = 0x2;
pub const SECONDARY_ENABLE_RDTSCP: u32 = 0x8;
pub const SECONDARY_UNRESTRICTED_GUEST: u32 = 0x80;
pub const SECONDARY_ENABLE_INVPCID: u32 = 0x1000;
pub const SECONDARY_ENABLE_XSAVES_XRSTORS: u32 = 0x10_0000;

// VM-exit controls.
pub const EXIT_HOST_ADDRESS_SPACE_SIZE: u32 = 0x200;
pub const EXIT_ACK_INTERRUPT_ON_EXIT: u32 = 0x8000;
pub const EXIT_SAVE_IA32_PAT: u32 = 0x4_0000;
pub const EXIT_LOAD_IA32_PAT: u32 = 0x8_0000;
pub const EXIT_SAVE_IA32_EFER: u32 = 0x10_0000;
pub const EXIT_LOAD_IA32_EFER: u32 = 0x20_0000;

// VM-entry controls.
pub const ENTRY_IA32E_MODE_GUEST: u32 = 0x200;
pub const ENTRY_LOAD_IA32_PAT: u32 = 0x4000;
pub const ENTRY_LOAD_IA32_EFER: u32 = 0x8000;

/// One guest segment register as held in the VMCS.
#[derive(Clone, Copy, Debug, PartialEq, Eq, Structural)]
pub struct GuestSegment {
    pub selector: u16,
    pub base: u64,
    pub limit: u32,
    pub access_rights: u32,
}

impl GuestSegment {
    /// A segment with the given access rights and the real-mode reset
    /// shape: selector 0, base 0, limit 0xffff.
    pub open spec fn reset_spec(access_rights: u32) -> GuestSegment {
        GuestSegment { selector: 0, base: 0, limit: 0xffff, access_rights }
    }
}

/// Guest-state fields of the VMCS.
#[derive(Clone, Copy, Debug, PartialEq, Eq, Structural)]
pub struct GuestState {
    pub es: GuestSegment,
    pub cs: GuestSegment,
    pub ss: GuestSegment,
    pub ds: GuestSegment,
    pub fs: GuestSegment,
    pub gs: GuestSegment,
    pub tr: GuestSegment,
    pub ldtr: GuestSegment,
    pub gdtr_base: u64,
    pub gdtr_limit: u32,
    pub idtr_base: u64,
    pub idtr_limit: u32,
    pub cr0: u64,
    pub cr3: u64,
    pub cr4: u64,
    pub dr7: u64,
    pub rsp: u64,
    pub rip: u64,
    pub rflags: u64,
    pub pending_dbg_exceptions: u64,
    pub sysenter_esp: u64,
    pub sysenter_eip: u64,
    pub sysenter_cs: u32,
    pub interruptibility_state: u32,
    pub activity_state: u32,
    pub preemption_timer: u32,
    pub link_ptr: u64,
    pub ia32_debugctl: u64,
    pub ia32_pat: u64,
    pub ia32_efer: u64,
}

/// Host-state fields of the VMCS, loaded by the CPU on every VM exit.
#[derive(Clone, Copy, Debug, PartialEq, Eq, Structural)]
pub struct HostState {
    pub ia32_pat: u64,
    pub ia32_efer: u64,
    pub cr0: u64,
    pub cr3: u64,
    pub cr4: u64,
    pub es_selector: u16,
    pub cs_selector: u16,
    pub ss_selector: u16,
    pub ds_selector: u16,
    pub fs_selector: u16,
    pub gs_selector: u16,
    pub tr_selector: u16,
    pub fs_base: u64,
    pub gs_base: u64,
    pub tr_base: u64,
    pub gdtr_base: u64,
    pub idtr_base: u64,
    pub rip: u64,
    pub rsp: u64,
    pub sysenter_esp: u64,
    pub sysenter_eip: u64,
    pub sysenter_cs: u32,
}

/// Control fields of the VMCS.
#[derive(Clone, Copy, Debug, PartialEq, Eq, Structural)]
pub struct ControlState {
    pub pinbased: u32,
    pub primary: u32,
    pub secondary: u32,
    pub vmexit_ctls: u32,
    pub vmentry_ctls: u32,
    pub exception_bitmap: u32,
    pub io_bitmap_a_addr: u64,
    pub io_bitmap_b_addr: u64,
    pub msr_bitmap_addr: u64,
    pub ept_pointer: u64,
    pub vmexit_msr_store_count: u32,
    pub vmexit_msr_load_count: u32,
    pub vmentry_msr_load_count: u32,
    pub cr3_target_count: u32,
    pub cr0_read_shadow: u64,
    pub cr0_guest_host_mask: u64,
    pub cr4_read_shadow: u64,
    pub cr4_guest_host_mask: u64,
    pub vmentry_interruption_info: u32,
    pub vmentry_exception_err_code: u32,
}

/// Read-only exit-information fields, latched from the hardware VMCS
/// after each VM exit.
#[derive(Clone, Copy, Debug, PartialEq, Eq, Structural)]
pub struct ExitState {
    pub exit_reason: u32,
    pub exit_qualification: u64,
    pub exit_instruction_length: u32,
    pub guest_physical_address: u64,
    pub interruption_info: u32,
    pub interruption_err_code: u32,
}

/// The modeled VMCS.
#[derive(Clone, Copy, Debug, PartialEq, Eq, Structural)]
pub struct Vmcs {
    pub guest: GuestState,
    pub host: HostState,
    pub control: ControlState,
    pub exits: ExitState,
}

impl Vmcs {
    /// A VMCS model with every field zero.
    pub open spec fn zeroed_spec() -> Vmcs {
        Vmcs {
            guest: GuestState {
                es: GuestSegment { selector: 0, base: 0, limit: 0, access_rights: 0 },
                cs: GuestSegment { selector: 0, base: 0, limit: 0, access_rights: 0 },
                ss: GuestSegment { selector: 0, base: 0, limit: 0, access_rights: 0 },
                ds: GuestSegment { selector: 0, base: 0, limit: 0, access_rights: 0 },
                fs: GuestSegment { selector: 0, base: 0, limit: 0, access_rights: 0 },
                gs: GuestSegment { selector: 0, base: 0, limit: 0, access_rights: 0 },
                tr: GuestSegment { selector: 0, base: 0, limit: 0, access_rights: 0 },
                ldtr: GuestSegment { selector: 0, base: 0, limit: 0, access_rights: 0 },
                gdtr_base: 0, gdtr_limit: 0, idtr_base: 0, idtr_limit: 0,
                cr0: 0, cr3: 0, cr4: 0, dr7: 0, rsp: 0, rip: 0, rflags: 0,
                pending_dbg_exceptions: 0, sysenter_esp: 0, sysenter_eip: 0, sysenter_cs: 0,
                interruptibility_state: 0, activity_state: 0, preemption_timer: 0,
                link_ptr: 0, ia32_debugctl: 0, ia32_pat: 0, ia32_efer: 0,
            },
            host: HostState {
                ia32_pat: 0, ia32_efer: 0, cr0: 0, cr3: 0, cr4: 0,
                es_selector: 0, cs_selector: 0, ss_selector: 0, ds_selector: 0,
                fs_selector: 0, gs_selector: 0, tr_selector: 0,
                fs_base: 0, gs_base: 0, tr_base: 0, gdtr_base: 0, idtr_base: 0,
                rip: 0, rsp: 0, sysenter_esp: 0, sysenter_eip: 0, sysenter_cs: 0,
            },
            control: ControlState {
                pinbased: 0, primary: 0, secondary: 0, vmexit_ctls: 0, vmentry_ctls: 0,
                exception_bitmap: 0, io_bitmap_a_addr: 0, io_bitmap_b_addr: 0,
                msr_bitmap_addr: 0, ept_pointer: 0,
                vmexit_msr_store_count: 0, vmexit_msr_load_count: 0,
                vmentry_msr_load_count: 0, cr3_target_count: 0,
                cr0_read_shadow: 0, cr0_guest_host_mask: 0,
                cr4_read_shadow: 0, cr4_guest_host_mask: 0,
                vmentry_interruption_info: 0, vmentry_exception_err_code: 0,
            },
            exits: ExitState {
                exit_reason: 0, exit_qualification: 0, exit_instruction_length: 0,
                guest_physical_address: 0, interruption_info: 0, interruption_err_code: 0,
            },
        }
    }

    /// A VMCS model with every field zero.
    pub fn zeroed() -> (r: Vmcs)
        ensures
            r == Self::zeroed_spec(),
    {
        Vmcs {
            guest: GuestState {
                es: GuestSegment { selector: 0, base: 0, limit: 0, access_rights: 0 },
                cs: GuestSegment { selector: 0, base: 0, limit: 0, access_rights: 0 },
                ss: GuestSegment { selector: 0, base: 0, limit: 0, access_rights: 0 },
                ds: GuestSegment { selector: 0, base: 0, limit: 0, access_rights: 0 },
                fs: GuestSegment { selector: 0, base: 0, limit: 0, access_rights: 0 },
                gs: GuestSegment { selector: 0, base: 0, limit: 0, access_rights: 0 },
                tr: GuestSegment { selector: 0, base: 0, limit: 0, access_rights: 0 },
                ldtr: GuestSegment { selector: 0, base: 0, limit: 0, access_rights: 0 },
                gdtr_base: 0, gdtr_limit: 0, idtr_base: 0, idtr_limit: 0,
                cr0: 0, cr3: 0, cr4: 0, dr7: 0, rsp: 0, rip: 0, rflags: 0,
                pending_dbg_exceptions: 0, sysenter_esp: 0, sysenter_eip: 0, sysenter_cs: 0,
                interruptibility_state: 0, activity_state: 0, preemption_timer: 0,
                link_ptr: 0, ia32_debugctl: 0, ia32_pat: 0, ia32_efer: 0,
            },
            host: HostState {
                ia32_pat: 0, ia32_efer: 0, cr0: 0, cr3: 0, cr4: 0,
                es_selector: 0, cs_selector: 0, ss_selector: 0, ds_selector: 0,
                fs_selector: 0, gs_selector: 0, tr_selector: 0,
                fs_base: 0, gs_base: 0, tr_base: 0, gdtr_base: 0, idtr_base: 0,
                rip: 0, rsp: 0, sysenter_esp: 0, sysenter_eip: 0, sysenter_cs: 0,
            },
            control: ControlState {
                pinbased: 0, primary: 0, secondary: 0, vmexit_ctls: 0, vmentry_ctls: 0,
                exception_bitmap: 0, io_bitmap_a_addr: 0, io_bitmap_b_addr: 0,
                msr_bitmap_addr: 0, ept_pointer: 0,
                vmexit_msr_store_count: 0, vmexit_msr_load_count: 0,
                vmentry_msr_load_count: 0, cr3_target_count: 0,
                cr0_read_shadow: 0, cr0_guest_host_mask: 0,
                cr4_read_shadow: 0, cr4_guest_host_mask: 0,
                vmentry_interruption_info: 0, vmentry_exception_err_code: 0,
            },
            exits: ExitState {
                exit_reason: 0, exit_qualification: 0, exit_instruction_length: 0,
                guest_physical_address: 0, interruption_info: 0, interruption_err_code: 0,
            },
        }
    }
}

/// Basic information about one VM exit.
#[derive(Clone, Copy, Debug, PartialEq, Eq, Structural)]
pub struct VmxExitInfo {
    /// The decoded basic exit reason.
    pub exit_reason: VmxExitReason,
    /// Whether the exit reports a VM-entry failure.
    pub entry_failure: bool,
    /// Length in bytes of the exiting instruction, for instruction-caused
    /// exits.
    pub exit_instruction_length: u32,
    /// Guest RIP at the exit.
    pub guest_rip: u64,
}

/// Information about a VM exit caused by a vectored event.
#[derive(Clone, Copy, Debug, PartialEq, Eq, Structural)]
pub struct VmxInterruptInfo {
    /// Vector of the event.
    pub vector: u8,
    /// Raw interruption type, bits 10:8 of the interruption information.
    pub int_type: u32,
    /// Error code, when the event delivered one.
    pub err_code: Option<u32>,
    /// Whether the interruption information is valid.
    pub valid: bool,
}

/// Information about a VM exit caused by an I/O instruction.
#[derive(Clone, Copy, Debug, PartialEq, Eq, Structural)]
pub struct VmxIoExitInfo {
    /// Size of the access in bytes: 1, 2 or 4.
    pub access_size: u8,
    /// Whether the instruction is a string instruction (INS/OUTS).
    pub is_string: bool,
    /// Whether the access is a read (IN).
    pub is_in: bool,
    /// Whether the instruction carries a REP prefix.
    pub is_repeat: bool,
    /// The accessed port.
    pub port: u16,
}

/// Information about a VM exit caused by a control-register access.
#[derive(Clone, Copy, Debug, PartialEq, Eq, Structural)]
pub struct CrAccessInfo {
    /// The accessed control register number.
    pub cr_number: u8,
    /// Access type: 0 mov-to-CR, 1 mov-from-CR, 2 CLTS, 3 LMSW.
    pub access_type: u8,
    /// The general-purpose register of a mov access, in hardware
    /// encoding.
    pub gpr: u8,
}

/// Information about a VM exit caused by an EPT violation.
#[derive(Clone, Copy, Debug, PartialEq, Eq, Structural)]
pub struct NestedPageFaultInfo {
    /// Whether the guest attempted a read.
    pub read: bool,
    /// Whether the guest attempted a write.
    pub write: bool,
    /// Whether the guest attempted an instruction fetch.
    pub execute: bool,
    /// Faulting guest-physical address.
    pub fault_guest_paddr: u64,
}

/// Kind of access behind an APIC-access VM exit.
#[derive(Clone, Copy, Debug, PartialEq, Eq, Structural)]
pub enum ApicAccessExitType {
    /// 0: linear access for a data read.
    LinearDataRead,
    /// 1: linear access for a data write.
    LinearDataWrite,
    /// 2: linear access for an instruction fetch.
    LinearInstFetch,
    /// 3: linear access during event delivery.
    LinearEventDelivery,
    /// 10: guest-physical access during event delivery.
    GuestPhysEventDelivery,
    /// 15: guest-physical access for an instruction fetch or during
    /// instruction execution.
    GuestPhysAccess,
    /// Any other reported access type.
    Other,
}

/// Information about a VM exit caused by an APIC access.
#[derive(Clone, Copy, Debug, PartialEq, Eq, Structural)]
pub struct ApicAccessExitInfo {
    /// Kind of the access.
    pub access_type: ApicAccessExitType,
    /// Offset of the access within the APIC page, for linear accesses.
    pub offset: u16,
}

impl Vmcs {
    /// The decoded basic exit information: basic reason in bits 15:0 of
    /// the exit reason, entry failure in bit 31.
    pub open spec fn exit_info_spec(self) -> VmxExitInfo {
        VmxExitInfo {
            exit_reason: VmxExitReason::from_basic_spec((self.exits.exit_reason & 0xffff) as u16),
            entry_failure: self.exits.exit_reason & 0x8000_0000 != 0,
            exit_instruction_length: self.exits.exit_instruction_length,
            guest_rip: self.guest.rip,
        }
    }

    /// Decode the basic exit information.
    pub fn exit_info(&self) -> (r: VmxExitInfo)
        ensures
            r == self.exit_info_spec(),
    {
        VmxExitInfo {
            exit_reason: VmxExitReason::from_basic((self.exits.exit_reason & 0xffff) as u16),
            entry_failure: self.exits.exit_reason & 0x8000_0000 != 0,
            exit_instruction_length: self.exits.exit_instruction_length,
            guest_rip: self.guest.rip,
        }
    }

    /// The raw VM-exit interruption information.
    pub fn raw_interrupt_exit_info(&self) -> (r: u32)
        ensures
            r == self.exits.interruption_info,
    {
        self.exits.interruption_info
    }

    /// The decoded interruption information of a vectored-event exit:
    /// vector in bits 7:0, type in bits 10:8, error code delivered when
    /// bit 11 is set, valid when bit 31 is set.
    pub open spec fn interrupt_exit_info_spec(self) -> VmxInterruptInfo {
        VmxInterruptInfo {
            vector: (self.exits.interruption_info & 0xff) as u8,
            int_type: (self.exits.interruption_info >> 8) & 0x7,
            err_code: if self.exits.interruption_info & 0x800 != 0 {
                Some(self.exits.interruption_err_code)
            } else {
                None
            },
            valid: self.exits.interruption_info & 0x8000_0000 != 0,
        }
    }

    /// Decode the interruption information of a vectored-event exit.
    pub fn interrupt_exit_info(&self) -> (r: VmxInterruptInfo)
        ensures
            r == self.interrupt_exit_info_spec(),
    {
        let info = self.exits.interruption_info;
        VmxInterruptInfo {
            vector: (info & 0xff) as u8,
            int_type: (info >> 8) & 0x7,
            err_code: if info & 0x800 != 0 { Some(self.exits.interruption_err_code) } else { None },
            valid: info & 0x8000_0000 != 0,
        }
    }

    /// The decoded exit qualification of an I/O-instruction exit: size
    /// minus one in bits 2:0, direction in bit 3, string flag in bit 4,
    /// REP flag in bit 5, port in bits 31:16.
    pub open spec fn io_exit_info_spec(self) -> VmxIoExitInfo {
        VmxIoExitInfo {
            access_size: ((self.exits.exit_qualification & 0x7) + 1) as u8,
            is_string: self.exits.exit_qualification & 0x10 != 0,
            is_in: self.exits.exit_qualification & 0x8 != 0,
            is_repeat: self.exits.exit_qualification & 0x20 != 0,
            port: ((self.exits.exit_qualification >> 16) & 0xffff) as u16,
        }
    }

    /// Decode the exit qualification of an I/O-instruction exit.
    pub fn io_exit_info(&self) -> (r: VmxIoExitInfo)
        ensures
            r == self.io_exit_info_spec(),
    {
        let q = self.exits.exit_qualification;
        proof {
            assert((q & 0x7) + 1 <= 8) by (bit_vector);
        }
        VmxIoExitInfo {
            access_size: ((q & 0x7) + 1) as u8,
            is_string: q & 0x10 != 0,
            is_in: q & 0x8 != 0,
            is_repeat: q & 0x20 != 0,
            port: ((q >> 16) & 0xffff) as u16,
        }
    }

    /// The decoded exit qualification of a control-register access:
    /// register number in bits 3:0, access type in bits 5:4, moved
    /// general-purpose register in bits 11:8.
    pub open spec fn cr_access_info_spec(self) -> CrAccessInfo {
        CrAccessInfo {
            cr_number: (self.exits.exit_qualification & 0xf) as u8,
            access_type: ((self.exits.exit_qualification >> 4) & 0x3) as u8,
            gpr: ((self.exits.exit_qualification >> 8) & 0xf) as u8,
        }
    }

    /// Decode the exit qualification of a control-register access.
    pub fn cr_access_info(&self) -> (r: CrAccessInfo)
        ensures
            r == self.cr_access_info_spec(),
    {
        let q = self.exits.exit_qualification;
        CrAccessInfo {
            cr_number: (q & 0xf) as u8,
            access_type: ((q >> 4) & 0x3) as u8,
            gpr: ((q >> 8) & 0xf) as u8,
        }
    }

    /// The decoded exit qualification of an EPT violation: attempted
    /// read in bit 0, write in bit 1, instruction fetch in bit 2; the
    /// faulting address is the latched guest-physical address.
    pub open spec fn ept_violation_info_spec(self) -> NestedPageFaultInfo {
        NestedPageFaultInfo {
            read: self.exits.exit_qualification & 0x1 != 0,
            write: self.exits.exit_qualification & 0x2 != 0,
            execute: self.exits.exit_qualification & 0x4 != 0,
            fault_guest_paddr: self.exits.guest_physical_address,
        }
    }

    /// Decode an EPT-violation exit.
    pub fn ept_violation_info(&self) -> (r: NestedPageFaultInfo)
        ensures
            r == self.ept_violation_info_spec(),
    {
        let q = self.exits.exit_qualification;
        NestedPageFaultInfo {
            read: q & 0x1 != 0,
            write: q & 0x2 != 0,
            execute: q & 0x4 != 0,
            fault_guest_paddr: self.exits.guest_physical_address,
        }
    }

    /// The access type of an APIC-access exit, from bits 15:12 of the
    /// qualification.
    pub open spec fn apic_access_type_spec(self) -> ApicAccessExitType {
        let t = (self.exits.exit_qualification >> 12) & 0xf;
        if t == 0 {
            ApicAccessExitType::LinearDataRead
        } else if t == 1 {
            ApicAccessExitType::LinearDataWrite
        } else if t == 2 {
            ApicAccessExitType::LinearInstFetch
        } else if t == 3 {
            ApicAccessExitType::LinearEventDelivery
        } else if t == 10 {
            ApicAccessExitType::GuestPhysEventDelivery
        } else if t == 15 {
            ApicAccessExitType::GuestPhysAccess
        } else {
            ApicAccessExitType::Other
        }
    }

    /// The decoded qualification of an APIC-access exit: offset within
    /// the page in bits 11:0, access type in bits 15:12.
    pub open spec fn apic_access_exit_info_spec(self) -> ApicAccessExitInfo {
        ApicAccessExitInfo {
            access_type: self.apic_access_type_spec(),
            offset: (self.exits.exit_qualification & 0xfff) as u16,
        }
    }

    /// Decode an APIC-access exit.
    pub fn apic_access_exit_info(&self) -> (r: ApicAccessExitInfo)
        ensures
            r == self.apic_access_exit_info_spec(),
    {
        let q = self.exits.exit_qualification;
        let t = (q >> 12) & 0xf;
        let access_type = if t == 0 {
            ApicAccessExitType::LinearDataRead
        } else if t == 1 {
            ApicAccessExitType::LinearDataWrite
        } else if t == 2 {
            ApicAccessExitType::LinearInstFetch
        } else if t == 3 {
            ApicAccessExitType::LinearEventDelivery
        } else if t == 10 {
            ApicAccessExitType::GuestPhysEventDelivery
        } else if t == 15 {
            ApicAccessExitType::GuestPhysAccess
        } else {
            ApicAccessExitType::Other
        };
        ApicAccessExitInfo { access_type, offset: (q & 0xfff) as u16 }
    }

    /// The VM-entry interruption information word for an event: vector
    /// in bits 7:0, type in bits 10:8, deliver-error-code in bit 11,
    /// valid in bit 31.
    pub open spec fn interruption_info_word_spec(vector: u8, deliver_err: bool) -> u32 {
        (vector as u32) | (interruption_type_spec(vector) << 8)
            | (if deliver_err { 0x800u32 } else { 0u32 }) | 0x8000_0000u32
    }

    /// Arm the VM-entry interruption-information field to inject an
    /// event on the next entry. The error code is delivered only for the
    /// exception vectors that push one.
    pub fn inject_event(&mut self, vector: u8, err_code: Option<u32>)
        ensures
            final(self).control.vmentry_interruption_info
                == Self::interruption_info_word_spec(
                    vector,
                    vector_has_error_code_spec(vector) && err_code.is_some(),
                ),
            (vector_has_error_code_spec(vector) && err_code.is_some()) ==>
                final(self).control.vmentry_exception_err_code == err_code.unwrap(),
            !(vector_has_error_code_spec(vector) && err_code.is_some()) ==>
                final(self).control.vmentry_exception_err_code
                    == old(self).control.vmentry_exception_err_code,
            final(self).guest == old(self).guest,
            final(self).host == old(self).host,
            final(self).exits == old(self).exits,
            final(self).control == (ControlState {
                vmentry_interruption_info: final(self).control.vmentry_interruption_info,
                vmentry_exception_err_code: final(self).control.vmentry_exception_err_code,
                ..old(self).control
            }),
    {
        let deliver_err = vector_has_error_code(vector) && err_code.is_some();
        if deliver_err {
            match err_code {
                Some(code) => { self.control.vmentry_exception_err_code = code; }
                None => {}
            }
        }
        let word: u32 = (vector as u32) | (interruption_type(vector) << 8)
            | (if deliver_err { 0x800u32 } else { 0u32 }) | 0x8000_0000u32;
        self.control.vmentry_interruption_info = word;
    }

    /// Update IA32_EFER.LMA after the guest turned paging on: when
    /// IA32_EFER.LME is set, long mode becomes active, so LMA and the
    /// IA-32e-mode-guest entry control are set.
    pub fn update_efer(&mut self)
        ensures
            old(self).guest.ia32_efer & EFER_LME != 0 ==> {
                &&& final(self).guest == (GuestState {
                    ia32_efer: (old(self).guest.ia32_efer | EFER_LMA) as u64,
                    ..old(self).guest
                })
                &&& final(self).control == (ControlState {
                    vmentry_ctls: (old(self).control.vmentry_ctls | ENTRY_IA32E_MODE_GUEST) as u32,
                    ..old(self).control
                })
            },
            old(self).guest.ia32_efer & EFER_LME == 0 ==> *final(self) == *old(self),
            final(self).host == old(self).host,
            final(self).exits == old(self).exits,
    {
        if self.guest.ia32_efer & EFER_LME != 0 {
            self.guest.ia32_efer = self.guest.ia32_efer | EFER_LMA;
            self.control.vmentry_ctls = self.control.vmentry_ctls | ENTRY_IA32E_MODE_GUEST;
        }
    }
}

/// Low 32 bits of a capability MSR: bits that must be 1 in the control.
pub open spec fn allowed0(cap: u64) -> u32 {
    cap as u32
}

/// High 32 bits of a capability MSR: bits that may be 1 in the control.
pub open spec fn allowed1(cap: u64) -> u32 {
    (cap >> 32) as u32
}

/// The value written to a control field: must-1 bits, plus the requested
/// set bits, plus those flexible bits that the previous value had and the
/// request leaves free.
pub open spec fn control_value_spec(cap: u64, old_val: u32, set: u32, clear: u32) -> u32 {
    allowed0(cap) | (old_val & allowed1(cap) & !allowed0(cap) & !(set | clear)) | set
}

/// Whether a control request fits the capability: every requested set
/// bit may be 1, and no requested clear bit must be 1.
pub open spec fn control_request_allowed(cap: u64, set: u32, clear: u32) -> bool {
    (set & allowed1(cap)) == set && (clear & allowed0(cap)) == 0
}

/// Compute a VMCS control-field value from a capability MSR value, the
/// field's previous value, and the bits the caller wants set and
/// cleared. Fails with `Unsupported` exactly when the capability does
/// not allow the request.
pub fn control_value(cap: u64, old_val: u32, set: u32, clear: u32) -> (r: VmxResult<u32>)
    requires
        set & clear == 0,
    ensures
        r.is_ok() <==> control_request_allowed(cap, set, clear),
        r.is_ok() ==> r.unwrap() == control_value_spec(cap, old_val, set, clear),
        r.is_err() ==> r == VmxResult::<u32>::Err(VmxError::Unsupported),
{
    let a0: u32 = cap as u32;
    let a1: u32 = (cap >> 32) as u32;
    if (set & a1) != set || (clear & a0) != 0 {
        return Err(VmxError::Unsupported);
    }
    Ok(a0 | (old_val & a1 & !a0 & !(set | clear)) | set)
}

/// The extended-page-table pointer for a 4-level table rooted at
/// `pml4_paddr`: memory type write-back (6) and walk length 4 (3 << 3).
pub open spec fn ept_pointer_spec(pml4_paddr: u64) -> u64 {
    pml4_paddr | 0x1e
}

/// Build the EPT pointer for a 4-level table rooted at `pml4_paddr`.
pub fn ept_pointer(pml4_paddr: u64) -> (r: u64)
    ensures
        r == ept_pointer_spec(pml4_paddr),
{
    pml4_paddr | 0x1e
}

/// The base address stored in a 16-byte system-segment descriptor:
/// low 24 bits from bits 39:16 of the entry, bits 31:24 from bits 63:56,
/// and the upper 32 bits from the following table slot; 0 when the
/// present bit (bit 47) is clear.
pub open spec fn tr_base_spec(entry: u64, next_entry: u64) -> u64 {
    if entry & 0x8000_0000_0000 != 0 {
        (((entry >> 16) & 0xff_ffff) | (((entry >> 56) & 0xff) << 24))
            | ((next_entry & 0xffff_ffff) << 32)
    } else {
        0
    }
}

/// Resolve the base of the task register from the GDT descriptor pair
/// that its selector indexes.
pub fn get_tr_base(entry: u64, next_entry: u64) -> (r: u64)
    ensures
        r == tr_base_spec(entry, next_entry),
{
    if entry & 0x8000_0000_0000u64 != 0 {
        (((entry >> 16) & 0xff_ffff) | (((entry >> 56) & 0xff) << 24))
            | ((next_entry & 0xffff_ffff) << 32)
    } else {
        0
    }
}

} // verus!

//! Architectural constants and VM-exit reason numbers.

use vstd::prelude::*;

verus! {

// CR0 bits.
pub const CR0_PE: u64 = 0x1;
pub const CR0_ET: u64 = 0x10;
pub const CR0_WP: u64 = 0x1_0000;
pub const CR0_NW: u64 = 0x2000_0000;
pub const CR0_CD: u64 = 0x4000_0000;
pub const CR0_PG: u64 = 0x8000_0000;

// CR4 bits.
pub const CR4_PSE: u64 = 0x10;
pub const CR4_PAE: u64 = 0x20;
pub const CR4_VMXE: u64 = 0x2000;
pub const CR4_OSXSAVE: u64 = 0x4_0000;
pub const CR4_SMEP: u64 = 0x10_0000;
pub const CR4_SMAP: u64 = 0x20_0000;

// IA32_EFER bits.
pub const EFER_LME: u64 = 0x100;
pub const EFER_LMA: u64 = 0x400;
pub const EFER_NXE: u64 = 0x800;

// RFLAGS bits.
pub const RFLAGS_IF: u64 = 0x200;

// IA32_FEATURE_CONTROL bits.
pub const FEATURE_CONTROL_LOCKED: u64 = 0x1;
pub const FEATURE_CONTROL_VMXON_OUTSIDE_SMX: u64 = 0x4;

// XCR0 bits, as defined for XSETBV.
pub const XCR0_FPU_MMX: u64 = 0x1;
pub const XCR0_SSE: u64 = 0x2;
pub const XCR0_AVX: u64 = 0x4;
pub const XCR0_BNDREG: u64 = 0x8;
pub const XCR0_BNDCSR: u64 = 0x10;
pub const XCR0_OPMASK: u64 = 0x20;
pub const XCR0_ZMM_HI256: u64 = 0x40;
pub const XCR0_HI16_ZMM: u64 = 0x80;
pub const XCR0_PKRU: u64 = 0x200;
/// All XCR0 bits the runtime knows; XSETBV rejects anything outside.
pub const XCR0_KNOWN_MASK: u64 = 0x2ff;

/// Reasons for a VM exit that the runtime tells apart. Every number the
/// hardware may report that is not one of these maps to [`Self::Other`].
#[derive(Clone, Copy, Debug, PartialEq, Eq, Structural)]
pub enum VmxExitReason {
    /// 0: exception or non-maskable interrupt.
    ExceptionNmi,
    /// 1: external interrupt.
    ExternalInterrupt,
    /// 2: triple fault.
    TripleFault,
    /// 7: interrupt window open.
    InterruptWindow,
    /// 10: CPUID instruction.
    Cpuid,
    /// 12: HLT instruction.
    Hlt,
    /// 18: VMCALL instruction.
    Vmcall,
    /// 28: control-register access.
    CrAccess,
    /// 30: I/O instruction.
    IoInstruction,
    /// 31: RDMSR instruction.
    MsrRead,
    /// 32: WRMSR instruction.
    MsrWrite,
    /// 44: access to the virtual-APIC page.
    ApicAccess,
    /// 48: EPT violation.
    EptViolation,
    /// 52: VMX-preemption timer expired.
    PreemptionTimer,
    /// 55: XSETBV instruction.
    Xsetbv,
    /// Any basic exit reason not listed above.
    Other,
}

impl VmxExitReason {
    /// The exit reason for a basic exit-reason number.
    pub open spec fn from_basic_spec(basic: u16) -> VmxExitReason {
        match basic {
            0u16 => VmxExitReason::ExceptionNmi,
            1u16 => VmxExitReason::ExternalInterrupt,
            2u16 => VmxExitReason::TripleFault,
            7u16 => VmxExitReason::InterruptWindow,
            10u16 => VmxExitReason::Cpuid,
            12u16 => VmxExitReason::Hlt,
            18u16 => VmxExitReason::Vmcall,
            28u16 => VmxExitReason::CrAccess,
            30u16 => VmxExitReason::IoInstruction,
            31u16 => VmxExitReason::MsrRead,
            32u16 => VmxExitReason::MsrWrite,
            44u16 => VmxExitReason::ApicAccess,
            48u16 => VmxExitReason::EptViolation,
            52u16 => VmxExitReason::PreemptionTimer,
            55u16 => VmxExitReason::Xsetbv,
            _ => VmxExitReason::Other,
        }
    }

    /// Decode a basic exit-reason number.
    pub fn from_basic(basic: u16) -> (r: VmxExitReason)
        ensures
            r == Self::from_basic_spec(basic),
    {
        match basic {
            0u16 => VmxExitReason::ExceptionNmi,
            1u16 => VmxExitReason::ExternalInterrupt,
            2u16 => VmxExitReason::TripleFault,
            7u16 => VmxExitReason::InterruptWindow,
            10u16 => VmxExitReason::Cpuid,
            12u16 => VmxExitReason::Hlt,
            18u16 => VmxExitReason::Vmcall,
            28u16 => VmxExitReason::CrAccess,
            30u16 => VmxExitReason::IoInstruction,
            31u16 => VmxExitReason::MsrRead,
            32u16 => VmxExitReason::MsrWrite,
            44u16 => VmxExitReason::ApicAccess,
            48u16 => VmxExitReason::EptViolation,
            52u16 => VmxExitReason::PreemptionTimer,
            55u16 => VmxExitReason::Xsetbv,
            _ => VmxExitReason::Other,
        }
    }
}

/// Classification of an injected event, SDM Vol. 3C, VM-entry
/// interruption-information field.
pub open spec fn interruption_type_spec(vector: u8) -> u32 {
    if vector == 2 {
        2u32
    } else if vector == 3 || vector == 4 {
        6u32
    } else if vector < 32 {
        3u32
    } else {
        0u32
    }
}

/// Whether the exception with this vector pushes an error code.
pub open spec fn vector_has_error_code_spec(vector: u8) -> bool {
    vector == 8 || vector == 10 || vector == 11 || vector == 12 || vector == 13
        || vector == 14 || vector == 17
}

/// Classify an event for the VM-entry interruption-information field:
/// NMI (2) for vector 2, software exception (6) for vectors 3 and 4,
/// hardware exception (3) for other vectors below 32, external
/// interrupt (0) otherwise.
pub fn interruption_type(vector: u8) -> (r: u32)
    ensures
        r == interruption_type_spec(vector),
{
    if vector == 2 {
        2
    } else if vector == 3 || vector == 4 {
        6
    } else if vector < 32 {
        3
    } else {
        0
    }
}

/// Whether the exception with this vector pushes an error code.
pub fn vector_has_error_code(vector: u8) -> (r: bool)
    ensures
        r == vector_has_error_code_spec(vector),
{
    vector == 8 || vector == 10 || vector == 11 || vector == 12 || vector == 13
        || vector == 14 || vector == 17
}

} // verus!

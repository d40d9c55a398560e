//! Host CPUID queries and the guest-visible CPUID rewrite.

use vstd::prelude::*;

verus! {

/// The four registers returned by one CPUID query.
#[derive(Clone, Copy, Debug, PartialEq, Eq, Structural)]
pub struct CpuidValues {
    pub eax: u32,
    pub ebx: u32,
    pub ecx: u32,
    pub edx: u32,
}

/// Relies on `raw_cpuid::native_cpuid::cpuid_count`: executes the CPUID
/// instruction with the given leaf in EAX and subleaf in ECX and returns
/// the four result registers. The result depends on the executing CPU and,
/// for some leaves, on its current extended state, so nothing is promised
/// of it.
#[verifier::external_body]
pub fn cpuid_query(leaf: u32, subleaf: u32) -> CpuidValues {
    let r = raw_cpuid::native_cpuid::cpuid_count(leaf, subleaf);
    CpuidValues { eax: r.eax, ebx: r.ebx, ecx: r.ecx, edx: r.edx }
}

/// CPUID leaf 1 ECX bit 26: the CPU supports XSAVE/XRSTOR and XCR0.
pub fn leaf1_has_xsave(ecx: u32) -> (r: bool)
    ensures
        r == (ecx & 0x0400_0000u32 != 0),
{
    ecx & 0x0400_0000u32 != 0
}

/// CPUID leaf 0xD subleaf 1 EAX bit 3: the CPU supports XSAVES/XRSTORS
/// and IA32_XSS.
pub fn leaf_d_1_has_xsaves(eax: u32) -> (r: bool)
    ensures
        r == (eax & 0x8u32 != 0),
{
    eax & 0x8u32 != 0
}

/// CPUID leaf 0x8000_0001 EDX bit 27: the CPU supports RDTSCP.
pub fn ext_leaf1_has_rdtscp(edx: u32) -> (r: bool)
    ensures
        r == (edx & 0x0800_0000u32 != 0),
{
    edx & 0x0800_0000u32 != 0
}

/// CPUID leaf 7 subleaf 0 EBX bit 10: the CPU supports INVPCID.
pub fn leaf7_has_invpcid(ebx: u32) -> (r: bool)
    ensures
        r == (ebx & 0x400u32 != 0),
{
    ebx & 0x400u32 != 0
}

/// Whether the executing CPU advertises XSAVE (CPUID.1:ECX.XSAVE).
pub fn host_supports_xsave() -> bool {
    let max = cpuid_query(0, 0);
    if max.eax >= 1 {
        let f = cpuid_query(1, 0);
        leaf1_has_xsave(f.ecx)
    } else {
        false
    }
}

/// Whether the executing CPU advertises XSAVES/XRSTORS
/// (CPUID.(EAX=0DH,ECX=1):EAX.XSS).
pub fn host_supports_xsaves() -> bool {
    let max = cpuid_query(0, 0);
    if max.eax >= 0xd {
        let f = cpuid_query(0xd, 1);
        leaf_d_1_has_xsaves(f.eax)
    } else {
        false
    }
}

/// Whether the executing CPU advertises RDTSCP
/// (CPUID.80000001H:EDX.RDTSCP).
pub fn host_supports_rdtscp() -> bool {
    let max = cpuid_query(0x8000_0000, 0);
    if max.eax >= 0x8000_0001 {
        let f = cpuid_query(0x8000_0001, 0);
        ext_leaf1_has_rdtscp(f.edx)
    } else {
        false
    }
}

/// Whether the executing CPU advertises INVPCID
/// (CPUID.(EAX=07H,ECX=0):EBX.INVPCID).
pub fn host_supports_invpcid() -> bool {
    let max = cpuid_query(0, 0);
    if max.eax >= 7 {
        let f = cpuid_query(7, 0);
        leaf7_has_invpcid(f.ebx)
    } else {
        false
    }
}

/// Leaf number of the basic feature-information leaf.
pub const LEAF_FEATURE_INFO: u32 = 0x1;
/// Leaf number of the structured extended feature flags.
pub const LEAF_EXTENDED_FEATURE_FLAGS: u32 = 0x7;
/// Leaf number of the processor extended state enumeration.
pub const LEAF_EXTENDED_STATE: u32 = 0xd;
/// Leaf number of the processor frequency information.
pub const LEAF_FREQUENCY_INFO: u32 = 0x16;
/// Leaf number of the hypervisor identification leaf.
pub const LEAF_HYPERVISOR_INFO: u32 = 0x4000_0000;
/// Leaf number of the hypervisor feature leaf.
pub const LEAF_HYPERVISOR_FEATURE: u32 = 0x4000_0001;

/// Fallback TSC frequency, in MHz, reported when the host leaves
/// the frequency leaf empty.
pub const FALLBACK_FREQUENCY_MHZ: u32 = 3000;

/// What the guest sees for a CPUID query, given what the host CPU
/// returned for the same leaf and subleaf:
///
/// - leaf 1: ECX.VMX (bit 5) cleared, ECX.HYPERVISOR (bit 31) set,
///   EAX.MCE (bit 7) cleared;
/// - leaf 7, subleaf 0: ECX.WAITPKG (bit 5) and ECX.LA57 (bit 16) cleared;
/// - leaf 0x4000_0000: EAX names the top hypervisor leaf and EBX/ECX/EDX
///   spell the vendor string;
/// - leaf 0x4000_0001: all zeroes;
/// - leaf 0x16: a host EAX of 0 is replaced by a fallback frequency;
/// - every other leaf: the host values unchanged.
pub open spec fn cpuid_adjust_spec(function: u32, index: u32, host: CpuidValues) -> CpuidValues {
    if function == LEAF_FEATURE_INFO {
        CpuidValues {
            eax: host.eax & !0x80u32,
            ecx: (host.ecx & !0x20u32) | 0x8000_0000u32,
            ..host
        }
    } else if function == LEAF_EXTENDED_FEATURE_FLAGS {
        if index == 0 {
            CpuidValues { ecx: host.ecx & !0x20u32 & !0x1_0000u32, ..host }
        } else {
            host
        }
    } else if function == LEAF_HYPERVISOR_INFO {
        CpuidValues {
            eax: LEAF_HYPERVISOR_FEATURE,
            ebx: 0x524d_5652,
            ecx: 0x5652_4d56,
            edx: 0x4d56_524d,
        }
    } else if function == LEAF_HYPERVISOR_FEATURE {
        CpuidValues { eax: 0, ebx: 0, ecx: 0, edx: 0 }
    } else if function == LEAF_FREQUENCY_INFO {
        if host.eax == 0 {
            CpuidValues { eax: FALLBACK_FREQUENCY_MHZ, ..host }
        } else {
            host
        }
    } else {
        host
    }
}

/// Rewrite one host CPUID result into the guest-visible one.
/// See [`cpuid_adjust_spec`] for the exact rules.
pub fn cpuid_adjust(function: u32, index: u32, host: CpuidValues) -> (r: CpuidValues)
    ensures
        r == cpuid_adjust_spec(function, index, host),
{
    if function == LEAF_FEATURE_INFO {
        CpuidValues {
            eax: host.eax & !0x80u32,
            ecx: (host.ecx & !0x20u32) | 0x8000_0000u32,
            ..host
        }
    } else if function == LEAF_EXTENDED_FEATURE_FLAGS {
        if index == 0 {
            CpuidValues { ecx: host.ecx & !0x20u32 & !0x1_0000u32, ..host }
        } else {
            host
        }
    } else if function == LEAF_HYPERVISOR_INFO {
        CpuidValues {
            eax: LEAF_HYPERVISOR_FEATURE,
            ebx: 0x524d_5652,
            ecx: 0x5652_4d56,
            edx: 0x4d56_524d,
        }
    } else if function == LEAF_HYPERVISOR_FEATURE {
        CpuidValues { eax: 0, ebx: 0, ecx: 0, edx: 0 }
    } else if function == LEAF_FREQUENCY_INFO {
        if host.eax == 0 {
            CpuidValues { eax: FALLBACK_FREQUENCY_MHZ, ..host }
        } else {
            host
        }
    } else {
        host
    }
}

/// Whether the host query for a guest CPUID must run under the guest's
/// extended state: true exactly for the extended-state enumeration leaf,
/// whose sub-leaves depend on the enabled XCR0 features.
pub fn cpuid_needs_guest_xstate(function: u32) -> (r: bool)
    ensures
        r == (function == LEAF_EXTENDED_STATE),
{
    function == LEAF_EXTENDED_STATE
}

} // verus!

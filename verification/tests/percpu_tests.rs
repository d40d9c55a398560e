use x86_vcpu::VmxError;
use x86_vcpu::vmx::percpu::{VmxPerCpuState, HostVmxFeatures};
use x86_vcpu::vmx::structs::VmxBasic;

// A VMX basic report of a usable CPU: revision 0x1234, 4 KiB regions,
// write-back memory type, 64-bit addresses, I/O exit info and flexible
// controls.
fn good_vmx_basic() -> u64 {
    0x1234u64
        | (4096u64 << 32)
        | (6u64 << 50)
        | (1u64 << 54)
        | (1u64 << 55)
}

fn good_host() -> HostVmxFeatures {
    HostVmxFeatures {
        has_vmx: true,
        has_xsave: false,
        feature_control: 0x5,
        cr0: 0x8005_0033,
        cr4: 0x7406a0,
        cr0_fixed0: 0x33,
        cr0_fixed1: 0xffff_ffff_ffff_ffff,
        cr4_fixed0: 0x2000,
        cr4_fixed1: 0xffff_ffff_ffff_ffff,
        vmx_basic: good_vmx_basic(),
    }
}

#[test]
fn vmx_basic_decode_fields() {
    let b = VmxBasic::decode(good_vmx_basic());
    assert_eq!(b.revision_id, 0x1234);
    assert_eq!(b.region_size, 4096);
    assert_eq!(b.mem_type, 6);
    assert!(!b.is_32bit_address);
    assert!(b.io_exit_info);
    assert!(b.vmx_flex_controls);
}

#[test]
fn vmx_basic_decode_revision_drops_bit31() {
    let b = VmxBasic::decode(0xffff_ffffu64);
    assert_eq!(b.revision_id, 0x7fff_ffff);
}

#[test]
fn enable_happy_path() {
    let mut pcpu = VmxPerCpuState::new(0);
    let mut host = good_host();
    // CR4 must already be legal: the fixed0 mask demands VMXE in the
    // stored value, but the checked value is the current CR4, which
    // must not have VMXE yet; use masks that allow it.
    host.cr4_fixed0 = 0;
    let plan = pcpu.hardware_enable(&host).expect("enable should succeed");
    assert_eq!(plan.feature_control_write, None);
    assert_eq!(plan.new_cr4, host.cr4 | 0x2000);
    assert_eq!(pcpu.vmcs_revision_id, 0x1234);
    // The VMXON region is stamped with the revision, little endian,
    // and otherwise zero.
    assert_eq!(pcpu.vmx_region.len(), 4096);
    assert_eq!(pcpu.vmx_region.read_byte(0), 0x34);
    assert_eq!(pcpu.vmx_region.read_byte(1), 0x12);
    assert_eq!(pcpu.vmx_region.read_byte(2), 0);
    assert_eq!(pcpu.vmx_region.read_byte(3), 0);
    assert_eq!(pcpu.vmx_region.read_byte(4), 0);
    assert_eq!(pcpu.vmx_region.read_byte(4095), 0);
}

#[test]
fn enable_unlocked_bios_writes_feature_control() {
    let mut pcpu = VmxPerCpuState::new(0);
    let mut host = good_host();
    host.cr4_fixed0 = 0;
    host.feature_control = 0;
    let plan = pcpu.hardware_enable(&host).expect("enable should succeed");
    assert_eq!(plan.feature_control_write, Some(0x5));
}

#[test]
fn enable_rejects_missing_vmx() {
    let mut pcpu = VmxPerCpuState::new(0);
    let mut host = good_host();
    host.has_vmx = false;
    assert_eq!(pcpu.hardware_enable(&host), Err(VmxError::Unsupported));
}

#[test]
fn enable_rejects_already_enabled() {
    let mut pcpu = VmxPerCpuState::new(0);
    let mut host = good_host();
    host.cr4 |= 0x2000;
    assert_eq!(pcpu.hardware_enable(&host), Err(VmxError::ResourceBusy));
}

#[test]
fn enable_rejects_bios_lockout() {
    let mut pcpu = VmxPerCpuState::new(0);
    let mut host = good_host();
    host.feature_control = 0x1; // locked, VMXON outside SMX disallowed
    assert_eq!(pcpu.hardware_enable(&host), Err(VmxError::Unsupported));
}

#[test]
fn enable_rejects_illegal_cr0() {
    let mut pcpu = VmxPerCpuState::new(0);
    let mut host = good_host();
    host.cr4_fixed0 = 0;
    host.cr0_fixed0 = 0x33;
    host.cr0 = 0x1; // misses must-be-1 bits
    assert_eq!(pcpu.hardware_enable(&host), Err(VmxError::BadState));
}

#[test]
fn enable_rejects_illegal_cr4() {
    let mut pcpu = VmxPerCpuState::new(0);
    let mut host = good_host();
    host.cr4_fixed0 = 0x40; // a must-be-1 bit the host CR4 lacks
    host.cr4 = 0x20;
    assert_eq!(pcpu.hardware_enable(&host), Err(VmxError::BadState));
}

#[test]
fn enable_rejects_wrong_region_size() {
    let mut pcpu = VmxPerCpuState::new(0);
    let mut host = good_host();
    host.cr4_fixed0 = 0;
    host.vmx_basic = (good_vmx_basic() & !(0x1fffu64 << 32)) | (2048u64 << 32);
    assert_eq!(pcpu.hardware_enable(&host), Err(VmxError::Unsupported));
}

#[test]
fn enable_rejects_non_writeback() {
    let mut pcpu = VmxPerCpuState::new(0);
    let mut host = good_host();
    host.cr4_fixed0 = 0;
    host.vmx_basic = (good_vmx_basic() & !(0xfu64 << 50)) | (0u64 << 50);
    assert_eq!(pcpu.hardware_enable(&host), Err(VmxError::Unsupported));
}

#[test]
fn enable_rejects_missing_flex_controls() {
    let mut pcpu = VmxPerCpuState::new(0);
    let mut host = good_host();
    host.cr4_fixed0 = 0;
    host.vmx_basic = good_vmx_basic() & !(1u64 << 55);
    assert_eq!(pcpu.hardware_enable(&host), Err(VmxError::Unsupported));
}

#[test]
fn enable_then_disable_restores_vmxe() {
    let mut pcpu = VmxPerCpuState::new(0);
    let mut host = good_host();
    host.cr4_fixed0 = 0;
    assert_eq!(host.cr4 & 0x2000, 0);
    let plan = pcpu.hardware_enable(&host).expect("enable should succeed");
    assert!(pcpu.is_enabled(plan.new_cr4));
    let cr4_after = pcpu.hardware_disable(plan.new_cr4).expect("disable should succeed");
    assert_eq!(cr4_after & 0x2000, host.cr4 & 0x2000);
    assert!(!pcpu.is_enabled(cr4_after));
    assert_eq!(pcpu.vmx_region.len(), 0);
}

#[test]
fn disable_requires_enabled() {
    let mut pcpu = VmxPerCpuState::new(0);
    assert_eq!(pcpu.hardware_disable(0x640), Err(VmxError::BadState));
}

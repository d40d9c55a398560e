use x86_vcpu::VmxError;
use x86_vcpu::vmx::definitions::VmxExitReason;
use x86_vcpu::vmx::vmcs::{
    ApicAccessExitType, Vmcs, control_value, ept_pointer, get_tr_base,
};

#[test]
fn control_value_keeps_flexible_bits_and_applies_request() {
    // Bits 0-1 must be 1; bits 0-7 may be 1.
    let cap: u64 = 0x3 | (0xffu64 << 32);
    // The previous value holds flexible bits 2 and 3; the request sets
    // bit 4 and clears bit 3.
    let r = control_value(cap, 0b1100, 0b1_0000, 0b1000).unwrap();
    // must-1 bits, surviving flexible bit 2, requested bit 4.
    assert_eq!(r, 0b1_0111);
}

#[test]
fn control_value_rejects_unsupported_set_bit() {
    let cap: u64 = 0x3 | (0xffu64 << 32);
    assert_eq!(control_value(cap, 0, 0x100, 0), Err(VmxError::Unsupported));
}

#[test]
fn control_value_rejects_clearing_mandatory_bit() {
    let cap: u64 = 0x3 | (0xffu64 << 32);
    assert_eq!(control_value(cap, 0, 0, 0x1), Err(VmxError::Unsupported));
}

#[test]
fn ept_pointer_sets_writeback_and_walk_length() {
    assert_eq!(ept_pointer(0x12345000), 0x12345000 | 0x1e);
}

#[test]
fn tr_base_of_absent_descriptor_is_zero() {
    assert_eq!(get_tr_base(0, 0xffff_ffff), 0);
}

#[test]
fn tr_base_combines_descriptor_pair() {
    // Present, base 23:0 = 0x345678 in bits 39:16, base 31:24 = 0x12 in
    // bits 63:56; upper half from the next slot.
    let entry = (1u64 << 47) | (0x345678u64 << 16) | (0x12u64 << 56);
    let next = 0xdead_beef_0000_00aa;
    assert_eq!(get_tr_base(entry, next), 0x0000_00aa_1234_5678);
}

#[test]
fn exit_info_decodes_reason_and_entry_failure() {
    let mut m = Vmcs::zeroed();
    m.exits.exit_reason = 10;
    m.exits.exit_instruction_length = 2;
    m.guest.rip = 0x1234;
    let info = m.exit_info();
    assert_eq!(info.exit_reason, VmxExitReason::Cpuid);
    assert!(!info.entry_failure);
    assert_eq!(info.exit_instruction_length, 2);
    assert_eq!(info.guest_rip, 0x1234);

    m.exits.exit_reason = 0x8000_0000 | 33;
    let failed = m.exit_info();
    assert!(failed.entry_failure);
    assert_eq!(failed.exit_reason, VmxExitReason::from_basic(33));
}

#[test]
fn unknown_reason_maps_to_other() {
    assert_eq!(VmxExitReason::from_basic(63), VmxExitReason::Other);
    assert_eq!(VmxExitReason::from_basic(48), VmxExitReason::EptViolation);
}

#[test]
fn interrupt_exit_info_decodes_error_code() {
    let mut m = Vmcs::zeroed();
    m.exits.interruption_info = 0x8000_0000 | (1 << 11) | (3 << 8) | 14;
    m.exits.interruption_err_code = 0x6;
    let info = m.interrupt_exit_info();
    assert!(info.valid);
    assert_eq!(info.vector, 14);
    assert_eq!(info.int_type, 3);
    assert_eq!(info.err_code, Some(0x6));

    m.exits.interruption_info = 33;
    let quiet = m.interrupt_exit_info();
    assert!(!quiet.valid);
    assert_eq!(quiet.err_code, None);
}

#[test]
fn io_exit_info_decodes_qualification() {
    let mut m = Vmcs::zeroed();
    // Port 0x3f8, dword, IN, REP.
    m.exits.exit_qualification = (0x3f8u64 << 16) | 0x20 | 0x8 | 0x3;
    let io = m.io_exit_info();
    assert_eq!(io.port, 0x3f8);
    assert_eq!(io.access_size, 4);
    assert!(io.is_in);
    assert!(io.is_repeat);
    assert!(!io.is_string);
}

#[test]
fn cr_access_info_decodes_qualification() {
    let mut m = Vmcs::zeroed();
    m.exits.exit_qualification = 4 | (0 << 4) | (7 << 8);
    let info = m.cr_access_info();
    assert_eq!(info.cr_number, 4);
    assert_eq!(info.access_type, 0);
    assert_eq!(info.gpr, 7);
}

#[test]
fn ept_violation_info_decodes_flags_and_address() {
    let mut m = Vmcs::zeroed();
    m.exits.exit_qualification = 0x3; // read and write attempted
    m.exits.guest_physical_address = 0xcafe_b000;
    let f = m.ept_violation_info();
    assert!(f.read);
    assert!(f.write);
    assert!(!f.execute);
    assert_eq!(f.fault_guest_paddr, 0xcafe_b000);
}

#[test]
fn apic_access_info_decodes_type_and_offset() {
    let mut m = Vmcs::zeroed();
    m.exits.exit_qualification = (1u64 << 12) | 0x380;
    let a = m.apic_access_exit_info();
    assert_eq!(a.access_type, ApicAccessExitType::LinearDataWrite);
    assert_eq!(a.offset, 0x380);
    m.exits.exit_qualification = 10u64 << 12;
    assert_eq!(m.apic_access_exit_info().access_type, ApicAccessExitType::GuestPhysEventDelivery);
}

#[test]
fn inject_event_encodes_interruption_word() {
    let mut m = Vmcs::zeroed();
    // An external interrupt carries no error code even if one is given.
    m.inject_event(33, Some(7));
    assert_eq!(m.control.vmentry_interruption_info, 0x8000_0000 | 33);
    assert_eq!(m.control.vmentry_exception_err_code, 0);
    // A double fault (vector 8) delivers its error code.
    m.inject_event(8, Some(0));
    assert_eq!(m.control.vmentry_interruption_info, 0x8000_0000 | (1 << 11) | (3 << 8) | 8);
    // NMI is type 2, breakpoint is a software exception (type 6).
    m.inject_event(2, None);
    assert_eq!(m.control.vmentry_interruption_info, 0x8000_0000 | (2 << 8) | 2);
    m.inject_event(3, None);
    assert_eq!(m.control.vmentry_interruption_info, 0x8000_0000 | (6 << 8) | 3);
}

#[test]
fn update_efer_activates_long_mode_only_with_lme() {
    let mut m = Vmcs::zeroed();
    m.update_efer();
    assert_eq!(m.guest.ia32_efer, 0);
    assert_eq!(m.control.vmentry_ctls, 0);
    m.guest.ia32_efer = 0x100;
    m.update_efer();
    assert_eq!(m.guest.ia32_efer, 0x500);
    assert_eq!(m.control.vmentry_ctls, 0x200);
}

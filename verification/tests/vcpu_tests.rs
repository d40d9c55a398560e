use x86_vcpu::VmxError;
use x86_vcpu::cpuid::CpuidValues;
use x86_vcpu::exit::{AccessWidth, ExitReason};
use x86_vcpu::vmx::vcpu::{
    VmxVcpu, VmxCaps, XState, BuiltinOutcome, HostStateSnapshot, BitmapAddrs, VmCpuMode,
};

const EXIT_CPUID: u32 = 10;
const EXIT_VMCALL: u32 = 18;
const EXIT_CR_ACCESS: u32 = 28;
const EXIT_IO: u32 = 30;
const EXIT_MSR_READ: u32 = 31;
const EXIT_MSR_WRITE: u32 = 32;
const EXIT_INTERRUPT_WINDOW: u32 = 7;
const EXIT_EXTERNAL_INTERRUPT: u32 = 1;
const EXIT_PREEMPTION_TIMER: u32 = 52;
const EXIT_XSETBV: u32 = 55;

fn permissive_caps() -> VmxCaps {
    let all: u64 = 0xffff_ffff_0000_0000;
    VmxCaps {
        true_pinbased_ctls: all,
        pinbased_ctls: 0,
        true_procbased_ctls: all,
        procbased_ctls: 0,
        procbased_ctls2: all,
        true_exit_ctls: all,
        exit_ctls: 0,
        true_entry_ctls: all,
        entry_ctls: 0,
        cr0_fixed0: 0,
        cr0_fixed1: u64::MAX,
        cr4_fixed0: 0,
        cr4_fixed1: u64::MAX,
    }
}

fn host_snapshot() -> HostStateSnapshot {
    HostStateSnapshot {
        ia32_pat: 0x0007_0406_0007_0406,
        ia32_efer: 0xd01,
        cr0: 0x8005_0033,
        cr3: 0x1000,
        cr4: 0x7406a0,
        es_selector: 0x10,
        cs_selector: 0x08,
        ss_selector: 0x10,
        ds_selector: 0x10,
        fs_selector: 0,
        gs_selector: 0,
        tr_selector: 0x20,
        fs_base: 0,
        gs_base: 0xffff_8000_0000_0000,
        tr_gdt_entry: (1u64 << 47) | (0xbeef00u64 << 16),
        tr_gdt_entry_next: 0xffff_8123,
        gdtr_base: 0xffff_8000_1000_0000,
        idtr_base: 0xffff_8000_2000_0000,
        exit_trampoline: 0xffff_8000_3000_0000,
    }
}

fn fresh_vcpu() -> VmxVcpu {
    let xstate = XState::new(true, true, 0x7, 0x0);
    let mut vcpu = VmxVcpu::new(0x1234, xstate);
    let addrs = BitmapAddrs { io_bitmap_a: 0x5000, io_bitmap_b: 0x6000, msr_bitmap: 0x7000 };
    vcpu.setup(0x8000, 0x400000, permissive_caps(), &host_snapshot(), addrs)
        .expect("setup should succeed with permissive capabilities");
    vcpu
}

#[test]
fn setup_programs_reset_state() {
    let vcpu = fresh_vcpu();
    assert_eq!(vcpu.rip(), 0x400000);
    assert_eq!(vcpu.vmcs.guest.rflags, 0x2);
    assert_eq!(vcpu.vmcs.guest.dr7, 0x400);
    assert_eq!(vcpu.vmcs.guest.cr0, 0x10); // ET alone: NW and CD forced off
    assert_eq!(vcpu.vmcs.guest.cr4, 0x2000); // VMXE forced on
    assert_eq!(vcpu.vmcs.control.cr0_read_shadow, 0x6000_0010);
    assert_eq!(vcpu.vmcs.control.cr4_read_shadow, 0x2000);
    assert_eq!(vcpu.vmcs.guest.preemption_timer, 1_000_000);
    assert_eq!(vcpu.vmcs.guest.link_ptr, u64::MAX);
    assert_eq!(vcpu.vmcs.guest.ia32_efer, 0);
    assert_eq!(vcpu.vmcs.guest.ia32_pat, host_snapshot().ia32_pat);
    assert_eq!(vcpu.vmcs.guest.cs.access_rights, 0x9b);
    assert_eq!(vcpu.vmcs.guest.cs.limit, 0xffff);
    assert_eq!(vcpu.vmcs.guest.tr.access_rights, 0x8b);
    assert_eq!(vcpu.vmcs.guest.ldtr.access_rights, 0x82);
    assert_eq!(vcpu.vmcs.guest.gdtr_limit, 0xffff);
    // Controls: nothing was previously set, so exactly the requested bits.
    assert_eq!(vcpu.vmcs.control.pinbased, 0x9);
    assert_eq!(vcpu.vmcs.control.primary, 0x9200_0000);
    assert_eq!(vcpu.vmcs.control.exception_bitmap, 1 << 6);
    assert_eq!(vcpu.vmcs.control.ept_pointer, 0x8000 | 0x1e);
    assert_eq!(vcpu.vmcs.control.io_bitmap_a_addr, 0x5000);
    assert_eq!(vcpu.vmcs.control.msr_bitmap_addr, 0x7000);
    assert_eq!(vcpu.vmcs.control.vmexit_msr_store_count, 0);
    assert_eq!(vcpu.vmcs.control.cr3_target_count, 0);
    // Host fields, including the TR base resolved from the GDT pair.
    assert_eq!(vcpu.vmcs.host.rip, host_snapshot().exit_trampoline);
    assert_eq!(vcpu.vmcs.host.tr_base, 0xffff_8123_00be_ef00);
    assert_eq!(vcpu.vmcs.host.sysenter_cs, 0);
    // The default intercepts.
    assert!(vcpu.io_bitmap.get_intercept(0x604));
    assert!(!vcpu.io_bitmap.get_intercept(0x603));
    assert!(vcpu.msr_bitmap.get_intercept(0xe1, false));
    assert!(vcpu.msr_bitmap.get_intercept(0xe1, true));
    assert!(vcpu.msr_bitmap.get_intercept(0x800, false));
    assert!(vcpu.msr_bitmap.get_intercept(0x83f, true));
    assert!(!vcpu.msr_bitmap.get_intercept(0x840, false));
    assert!(!vcpu.launched);
}

#[test]
fn setup_rejects_refused_capability() {
    let xstate = XState::new(false, false, 0, 0);
    let mut vcpu = VmxVcpu::new(0x1234, xstate);
    let mut caps = permissive_caps();
    // Forbid the use of I/O bitmaps: the primary controls request must fail.
    caps.true_procbased_ctls = 0;
    let addrs = BitmapAddrs { io_bitmap_a: 0, io_bitmap_b: 0, msr_bitmap: 0 };
    let r = vcpu.setup(0x8000, 0x1000, caps, &host_snapshot(), addrs);
    assert_eq!(r, Err(VmxError::Unsupported));
}

#[test]
fn out_to_exit_port_becomes_system_down() {
    let mut vcpu = fresh_vcpu();
    // OUT 0x604, AX with a 16-bit operand: size-1 = 1, direction out,
    // port in bits 31:16.
    vcpu.vmcs.exits.exit_reason = EXIT_IO;
    vcpu.vmcs.exits.exit_qualification = (0x604u64 << 16) | 0x1;
    vcpu.vmcs.exits.exit_instruction_length = 2;
    vcpu.guest_regs.rax = 0x2000;
    assert_eq!(vcpu.builtin_vmexit_handler(), BuiltinOutcome::NotBuiltin);
    assert_eq!(vcpu.map_unhandled_exit(), ExitReason::SystemDown);
}

#[test]
fn out_with_other_value_is_io_write() {
    let mut vcpu = fresh_vcpu();
    vcpu.vmcs.exits.exit_reason = EXIT_IO;
    vcpu.vmcs.exits.exit_qualification = (0x604u64 << 16) | 0x1;
    vcpu.vmcs.exits.exit_instruction_length = 2;
    vcpu.guest_regs.rax = 0xdead_3456;
    let rip = vcpu.rip();
    let r = vcpu.map_unhandled_exit();
    assert_eq!(r, ExitReason::IoWrite { port: 0x604, width: AccessWidth::Word, data: 0x3456 });
    assert_eq!(vcpu.rip(), rip + 2);
}

#[test]
fn in_becomes_io_read() {
    let mut vcpu = fresh_vcpu();
    // IN AL, 0x71: byte access, direction in (bit 3).
    vcpu.vmcs.exits.exit_reason = EXIT_IO;
    vcpu.vmcs.exits.exit_qualification = (0x71u64 << 16) | 0x8;
    vcpu.vmcs.exits.exit_instruction_length = 2;
    let r = vcpu.map_unhandled_exit();
    assert_eq!(r, ExitReason::IoRead { port: 0x71, width: AccessWidth::Byte });
}

#[test]
fn string_io_surfaces_halt() {
    let mut vcpu = fresh_vcpu();
    vcpu.vmcs.exits.exit_reason = EXIT_IO;
    vcpu.vmcs.exits.exit_qualification = (0x3f8u64 << 16) | 0x10; // string bit
    vcpu.vmcs.exits.exit_instruction_length = 2;
    assert_eq!(vcpu.map_unhandled_exit(), ExitReason::Halt);
}

#[test]
fn cpuid_leaf1_rewrite() {
    let mut vcpu = fresh_vcpu();
    vcpu.vmcs.exits.exit_reason = EXIT_CPUID;
    vcpu.guest_regs.rax = 1;
    vcpu.guest_regs.rcx = 0;
    let rip = vcpu.rip();
    let outcome = vcpu.builtin_vmexit_handler();
    assert_eq!(
        outcome,
        BuiltinOutcome::CpuidQuery { leaf: 1, subleaf: 0, under_guest_xstate: false }
    );
    // A host that advertises VMX (bit 5), MCE (EAX bit 7) and no
    // hypervisor bit.
    let host = CpuidValues { eax: 0xff, ebx: 0x42, ecx: 1 << 5, edx: 0x99 };
    vcpu.complete_cpuid(host);
    assert_eq!(vcpu.guest_regs.rcx & (1 << 5), 0);
    assert_ne!(vcpu.guest_regs.rcx & (1 << 31), 0);
    assert_eq!(vcpu.guest_regs.rax & (1 << 7), 0);
    assert_eq!(vcpu.guest_regs.rax, 0xff & !(1u64 << 7));
    assert_eq!(vcpu.guest_regs.rbx, 0x42);
    assert_eq!(vcpu.guest_regs.rdx, 0x99);
    assert_eq!(vcpu.rip(), rip + 2);
}

#[test]
fn cpuid_hypervisor_leaf_spells_vendor() {
    let mut vcpu = fresh_vcpu();
    vcpu.vmcs.exits.exit_reason = EXIT_CPUID;
    vcpu.guest_regs.rax = 0x4000_0000;
    vcpu.guest_regs.rcx = 0;
    let outcome = vcpu.builtin_vmexit_handler();
    assert_eq!(
        outcome,
        BuiltinOutcome::CpuidQuery { leaf: 0x4000_0000, subleaf: 0, under_guest_xstate: false }
    );
    vcpu.complete_cpuid(CpuidValues { eax: 1, ebx: 2, ecx: 3, edx: 4 });
    let mut spelled = Vec::new();
    spelled.extend_from_slice(&(vcpu.guest_regs.rbx as u32).to_le_bytes());
    spelled.extend_from_slice(&(vcpu.guest_regs.rcx as u32).to_le_bytes());
    spelled.extend_from_slice(&(vcpu.guest_regs.rdx as u32).to_le_bytes());
    assert_eq!(&spelled, b"RVMRVMRVMRVM");
    assert_eq!(vcpu.guest_regs.rax, 0x4000_0001);
}

#[test]
fn cpuid_extended_state_leaf_runs_under_guest_xstate() {
    let mut vcpu = fresh_vcpu();
    vcpu.vmcs.exits.exit_reason = EXIT_CPUID;
    vcpu.guest_regs.rax = 0xd;
    vcpu.guest_regs.rcx = 1;
    let outcome = vcpu.builtin_vmexit_handler();
    assert_eq!(
        outcome,
        BuiltinOutcome::CpuidQuery { leaf: 0xd, subleaf: 1, under_guest_xstate: true }
    );
}

#[test]
fn x2apic_msr_write_goes_to_vlapic() {
    let mut vcpu = fresh_vcpu();
    vcpu.vmcs.exits.exit_reason = EXIT_MSR_WRITE;
    vcpu.guest_regs.rcx = 0x830; // x2APIC ICR
    vcpu.guest_regs.rax = 0x0000_4321;
    vcpu.guest_regs.rdx = 0x0000_00ab;
    let rip = vcpu.rip();
    let outcome = vcpu.builtin_vmexit_handler();
    assert_eq!(
        outcome,
        BuiltinOutcome::VlapicWrite {
            msr: 0x830,
            width: AccessWidth::Qword,
            value: (0xabu64 << 32) | 0x4321,
        }
    );
    assert_eq!(vcpu.rip(), rip + 2);
}

#[test]
fn x2apic_msr_read_returns_through_edx_eax() {
    let mut vcpu = fresh_vcpu();
    vcpu.vmcs.exits.exit_reason = EXIT_MSR_READ;
    vcpu.guest_regs.rcx = 0x802;
    let rip = vcpu.rip();
    let outcome = vcpu.builtin_vmexit_handler();
    assert_eq!(outcome, BuiltinOutcome::VlapicRead { msr: 0x802, width: AccessWidth::Qword });
    assert_eq!(vcpu.rip(), rip + 2);
    vcpu.complete_vlapic_read(0xdead_beef_1234_5678);
    assert_eq!(vcpu.guest_regs.rax, 0x1234_5678);
    assert_eq!(vcpu.guest_regs.rdx, 0xdead_beef);
}

#[test]
fn non_apic_msr_access_surfaces_to_supervisor() {
    let mut vcpu = fresh_vcpu();
    vcpu.vmcs.exits.exit_reason = EXIT_MSR_READ;
    vcpu.guest_regs.rcx = 0x1a0;
    assert_eq!(vcpu.builtin_vmexit_handler(), BuiltinOutcome::NotBuiltin);
    assert_eq!(vcpu.map_unhandled_exit(), ExitReason::SysRegRead { addr: 0x1a0 });

    vcpu.vmcs.exits.exit_reason = EXIT_MSR_WRITE;
    vcpu.guest_regs.rax = 0x1;
    vcpu.guest_regs.rdx = 0x2;
    assert_eq!(vcpu.builtin_vmexit_handler(), BuiltinOutcome::NotBuiltin);
    assert_eq!(
        vcpu.map_unhandled_exit(),
        ExitReason::SysRegWrite { addr: 0x1a0, value: (0x2u64 << 32) | 0x1 }
    );
}

#[test]
fn vmcall_becomes_hypercall() {
    let mut vcpu = fresh_vcpu();
    vcpu.vmcs.exits.exit_reason = EXIT_VMCALL;
    vcpu.vmcs.exits.exit_instruction_length = 3;
    vcpu.guest_regs.rax = 7;
    vcpu.guest_regs.rdi = 1;
    vcpu.guest_regs.rsi = 2;
    vcpu.guest_regs.rdx = 3;
    vcpu.guest_regs.rcx = 4;
    vcpu.guest_regs.r8 = 5;
    vcpu.guest_regs.r9 = 6;
    let rip = vcpu.rip();
    assert_eq!(vcpu.builtin_vmexit_handler(), BuiltinOutcome::NotBuiltin);
    let r = vcpu.map_unhandled_exit();
    assert_eq!(r, ExitReason::Hypercall { nr: 7, args: [1, 2, 3, 4, 5, 6] });
    assert_eq!(vcpu.rip(), rip + 3);
}

#[test]
fn entry_failure_is_reported() {
    let mut vcpu = fresh_vcpu();
    vcpu.vmcs.exits.exit_reason = 0x8000_0000 | 33; // entry failure bit
    assert_eq!(
        vcpu.map_unhandled_exit(),
        ExitReason::FailEntry { hardware_entry_failure_reason: 0 }
    );
}

#[test]
fn xsetbv_avx_without_sse_is_invalid_and_keeps_rip() {
    let mut vcpu = fresh_vcpu();
    vcpu.vmcs.exits.exit_reason = EXIT_XSETBV;
    vcpu.guest_regs.rcx = 0;
    vcpu.guest_regs.rax = 0x5; // x87 | AVX, no SSE
    vcpu.guest_regs.rdx = 0;
    let rip = vcpu.rip();
    let xcr0 = vcpu.xstate.get_guest_xcr0();
    assert_eq!(vcpu.builtin_vmexit_handler(), BuiltinOutcome::Failed(VmxError::InvalidInput));
    assert_eq!(vcpu.rip(), rip);
    assert_eq!(vcpu.xstate.get_guest_xcr0(), xcr0);
}

#[test]
fn xsetbv_valid_value_is_stored() {
    let mut vcpu = fresh_vcpu();
    vcpu.vmcs.exits.exit_reason = EXIT_XSETBV;
    vcpu.guest_regs.rcx = 0;
    vcpu.guest_regs.rax = 0x7; // x87 | SSE | AVX
    vcpu.guest_regs.rdx = 0;
    let rip = vcpu.rip();
    assert_eq!(vcpu.builtin_vmexit_handler(), BuiltinOutcome::Done);
    assert_eq!(vcpu.xstate.get_guest_xcr0(), 0x7);
    assert_eq!(vcpu.rip(), rip + 3);
}

#[test]
fn xsetbv_other_xcr_is_unsupported() {
    let mut vcpu = fresh_vcpu();
    vcpu.vmcs.exits.exit_reason = EXIT_XSETBV;
    vcpu.guest_regs.rcx = 1;
    vcpu.guest_regs.rax = 0x3;
    assert_eq!(vcpu.builtin_vmexit_handler(), BuiltinOutcome::Failed(VmxError::Unsupported));
}

#[test]
fn xsetbv_rejects_unknown_bits_and_split_mpx() {
    let mut vcpu = fresh_vcpu();
    vcpu.vmcs.exits.exit_reason = EXIT_XSETBV;
    vcpu.guest_regs.rcx = 0;
    vcpu.guest_regs.rax = 0x1;
    vcpu.guest_regs.rdx = 0x1; // bit 32: unknown
    assert_eq!(vcpu.builtin_vmexit_handler(), BuiltinOutcome::Failed(VmxError::InvalidInput));
    vcpu.guest_regs.rdx = 0;
    vcpu.guest_regs.rax = 0x1 | 0x8; // BNDREG without BNDCSR
    assert_eq!(vcpu.builtin_vmexit_handler(), BuiltinOutcome::Failed(VmxError::InvalidInput));
    // All three AVX-512 pieces with AVX and SSE are accepted.
    vcpu.guest_regs.rax = 0x1 | 0x2 | 0x4 | 0xe0;
    assert_eq!(vcpu.builtin_vmexit_handler(), BuiltinOutcome::Done);
    assert_eq!(vcpu.xstate.get_guest_xcr0(), 0xe7);
}

#[test]
fn mov_to_cr0_applies_fixed_bits_and_updates_efer() {
    let mut vcpu = fresh_vcpu();
    vcpu.vmcs.guest.ia32_efer = 0x100; // LME set by the guest
    vcpu.vmcs.exits.exit_reason = EXIT_CR_ACCESS;
    // mov cr0, rbx (gpr 3), access type 0, cr 0.
    vcpu.vmcs.exits.exit_qualification = 3 << 8;
    vcpu.guest_regs.rbx = 0x8000_0011 | 0x6000_0000; // PG | PE | ET | NW | CD
    let rip = vcpu.rip();
    assert_eq!(vcpu.builtin_vmexit_handler(), BuiltinOutcome::Done);
    // NW and CD are forced off; the rest of the request survives under
    // permissive masks.
    assert_eq!(vcpu.vmcs.guest.cr0, 0x8000_0011);
    assert_eq!(vcpu.vmcs.control.cr0_read_shadow, 0xe000_0011);
    assert_eq!(vcpu.rip(), rip + 3);
    // Paging turned on with LME: long mode becomes active.
    assert_eq!(vcpu.vmcs.guest.ia32_efer, 0x100 | 0x400);
    assert_ne!(vcpu.vmcs.control.vmentry_ctls & 0x200, 0);
}

#[test]
fn mov_to_cr4_forces_vmxe() {
    let mut vcpu = fresh_vcpu();
    vcpu.vmcs.exits.exit_reason = EXIT_CR_ACCESS;
    // mov cr4, rax (gpr 0), access type 0, cr 4.
    vcpu.vmcs.exits.exit_qualification = 4;
    vcpu.guest_regs.rax = 0x620;
    assert_eq!(vcpu.builtin_vmexit_handler(), BuiltinOutcome::Done);
    assert_eq!(vcpu.vmcs.guest.cr4, 0x620 | 0x2000);
    assert_eq!(vcpu.vmcs.control.cr4_read_shadow, 0x620 | 0x2000);
}

#[test]
fn mov_from_cr_is_fatal() {
    let mut vcpu = fresh_vcpu();
    vcpu.vmcs.exits.exit_reason = EXIT_CR_ACCESS;
    vcpu.vmcs.exits.exit_qualification = 1 << 4; // access type 1: mov from cr
    assert_eq!(vcpu.builtin_vmexit_handler(), BuiltinOutcome::Failed(VmxError::BadState));
}

#[test]
fn preemption_timer_is_rearmed() {
    let mut vcpu = fresh_vcpu();
    vcpu.vmcs.guest.preemption_timer = 3;
    vcpu.vmcs.exits.exit_reason = EXIT_PREEMPTION_TIMER;
    assert_eq!(vcpu.builtin_vmexit_handler(), BuiltinOutcome::Done);
    assert_eq!(vcpu.vmcs.guest.preemption_timer, 1_000_000);
}

#[test]
fn external_interrupt_reports_vector() {
    let mut vcpu = fresh_vcpu();
    vcpu.vmcs.exits.exit_reason = EXIT_EXTERNAL_INTERRUPT;
    vcpu.vmcs.exits.interruption_info = 0x8000_0000 | 0x21;
    assert_eq!(vcpu.builtin_vmexit_handler(), BuiltinOutcome::NotBuiltin);
    assert_eq!(vcpu.map_unhandled_exit(), ExitReason::ExternalInterrupt { vector: 0x21 });
}

#[test]
fn blocked_interrupt_opens_window_then_injects() {
    let mut vcpu = fresh_vcpu();
    // RFLAGS.IF = 0 after reset (rflags == 0x2): interrupts blocked.
    vcpu.queue_event(33, None);
    let plan = vcpu.prepare_entry(0x7, 0x0);
    assert!(!plan.resume); // first entry launches
    assert!(vcpu.launched);
    // Not injected: still queued, interrupt-window exiting armed.
    assert_eq!(vcpu.pending_events.len(), 1);
    assert_ne!(vcpu.vmcs.control.primary & 0x4, 0);
    assert_eq!(vcpu.vmcs.control.vmentry_interruption_info, 0);

    // The interrupt-window exit arrives: the handler disarms the window.
    vcpu.vmcs.exits.exit_reason = EXIT_INTERRUPT_WINDOW;
    assert_eq!(vcpu.builtin_vmexit_handler(), BuiltinOutcome::Done);
    assert_eq!(vcpu.vmcs.control.primary & 0x4, 0);

    // The guest can now accept interrupts: the event is injected.
    vcpu.vmcs.guest.rflags = 0x202;
    let plan2 = vcpu.prepare_entry(0x7, 0x0);
    assert!(plan2.resume);
    assert_eq!(vcpu.pending_events.len(), 0);
    // External interrupt, vector 33, valid.
    assert_eq!(vcpu.vmcs.control.vmentry_interruption_info, 0x8000_0000 | 33);
}

#[test]
fn exceptions_inject_even_with_interrupts_blocked() {
    let mut vcpu = fresh_vcpu();
    assert_eq!(vcpu.vmcs.guest.rflags & 0x200, 0);
    // A page fault (vector 14) with an error code.
    vcpu.queue_event(14, Some(0x2));
    vcpu.prepare_entry(0x7, 0x0);
    assert_eq!(vcpu.pending_events.len(), 0);
    // Hardware exception (type 3), deliver error code (bit 11), valid.
    assert_eq!(
        vcpu.vmcs.control.vmentry_interruption_info,
        14 | (3 << 8) | (1 << 11) | 0x8000_0000
    );
    assert_eq!(vcpu.vmcs.control.vmentry_exception_err_code, 0x2);
}

#[test]
fn events_are_injected_in_fifo_order() {
    let mut vcpu = fresh_vcpu();
    vcpu.vmcs.guest.rflags = 0x202;
    vcpu.queue_event(40, None);
    vcpu.queue_event(6, None);
    vcpu.prepare_entry(0x7, 0x0);
    assert_eq!(vcpu.vmcs.control.vmentry_interruption_info & 0xff, 40);
    assert_eq!(vcpu.pending_events.len(), 1);
    vcpu.prepare_entry(0x7, 0x0);
    assert_eq!(vcpu.vmcs.control.vmentry_interruption_info & 0xff, 6);
    assert_eq!(vcpu.pending_events.len(), 0);
}

#[test]
fn unbind_clears_launched() {
    let mut vcpu = fresh_vcpu();
    vcpu.prepare_entry(0x7, 0x0);
    assert!(vcpu.launched);
    vcpu.unbind_from_current_processor();
    assert!(!vcpu.launched);
}

#[test]
fn prepare_entry_leaves_registers_alone() {
    let mut vcpu = fresh_vcpu();
    vcpu.guest_regs.rax = 0x1111;
    vcpu.guest_regs.r15 = 0x2222;
    vcpu.queue_event(3, None);
    let plan = vcpu.prepare_entry(0x7, 0x0);
    assert_eq!(plan.xstate_load.xcr0, Some(0x7));
    assert_eq!(vcpu.guest_regs.rax, 0x1111);
    assert_eq!(vcpu.guest_regs.r15, 0x2222);
}

#[test]
fn xstate_switch_round_trip() {
    let mut xs = XState::new(true, true, 0x7, 0x100);
    // To the guest: the host values are recorded, the guest values are
    // requested.
    let to_guest = xs.switch_to_guest(0x3, 0x0);
    assert_eq!(to_guest.xcr0, Some(0x7));
    assert_eq!(to_guest.xss, Some(0x100));
    assert_eq!(xs.get_host_xcr0(), 0x3);
    // Back to the host: symmetric.
    let to_host = xs.switch_to_host(0x7, 0x100);
    assert_eq!(to_host.xcr0, Some(0x3));
    assert_eq!(xs.get_guest_xcr0(), 0x7);
}

#[test]
fn xstate_without_xsave_is_inert() {
    let mut xs = XState::new(false, true, 0x7, 0x100);
    assert_eq!(xs.get_guest_xcr0(), 0);
    let load = xs.switch_to_guest(0x3, 0x0);
    assert_eq!(load.xcr0, None);
    assert_eq!(load.xss, None);
}

#[test]
fn cpu_mode_and_paging_level() {
    let mut vcpu = fresh_vcpu();
    // The mode check consults the host EFER as loaded on VM exit;
    // clear its IA-32e bits to model a 32-bit host first.
    vcpu.vmcs.host.ia32_efer = 0;
    assert_eq!(vcpu.get_cpu_mode(), VmCpuMode::Real);
    assert_eq!(vcpu.get_paging_level(), 0);
    vcpu.vmcs.guest.cr0 |= 0x1; // PE
    assert_eq!(vcpu.get_cpu_mode(), VmCpuMode::Protected);
    vcpu.vmcs.guest.cr0 |= 0x8000_0000; // PG
    assert_eq!(vcpu.get_paging_level(), 2);
    vcpu.vmcs.guest.cr4 |= 0x20; // PAE
    assert_eq!(vcpu.get_paging_level(), 3);
    vcpu.vmcs.guest.ia32_efer |= 0x400; // LMA
    assert_eq!(vcpu.get_paging_level(), 4);
    // The mode check consults the host EFER, as loaded on exit.
    vcpu.vmcs.host.ia32_efer = 0x400;
    vcpu.vmcs.guest.cs.access_rights = 0x2000;
    assert_eq!(vcpu.get_cpu_mode(), VmCpuMode::Mode64);
    vcpu.vmcs.guest.cs.access_rights = 0;
    assert_eq!(vcpu.get_cpu_mode(), VmCpuMode::Compatibility);
}

#[test]
fn gla2gva_adds_cs_base_outside_long_mode() {
    let mut vcpu = fresh_vcpu();
    vcpu.vmcs.host.ia32_efer = 0;
    vcpu.vmcs.guest.cs.base = 0x1000;
    assert_eq!(vcpu.gla2gva(0x234), 0x1234);
    vcpu.vmcs.host.ia32_efer = 0x400;
    vcpu.vmcs.guest.cs.access_rights = 0x2000;
    assert_eq!(vcpu.gla2gva(0x234), 0x234);
}

#[test]
fn ptw_info_reflects_guest_paging() {
    let mut vcpu = fresh_vcpu();
    vcpu.vmcs.guest.cr3 = 0x5000;
    vcpu.vmcs.guest.cr0 |= 0x8000_0001 | 0x1_0000; // PE | PG | WP
    vcpu.vmcs.guest.cr4 |= 0x20; // PAE
    vcpu.vmcs.guest.ia32_efer = 0x400 | 0x800; // LMA | NXE
    vcpu.vmcs.guest.ss.access_rights = 3 << 5; // DPL 3
    let info = vcpu.get_ptw_info();
    assert_eq!(info.top_entry, 0x5000);
    assert_eq!(info.level, 4);
    assert_eq!(info.width, 9);
    assert!(info.is_user_mode_access);
    assert!(info.wp);
    assert!(info.nxe);
    assert!(info.pse);
    // 32-bit paging: width 10, PSE from CR4, NXE forced off.
    vcpu.vmcs.guest.cr4 = 0x2000 | 0x10; // VMXE | PSE
    vcpu.vmcs.guest.ia32_efer = 0x800;
    let info2 = vcpu.get_ptw_info();
    assert_eq!(info2.level, 2);
    assert_eq!(info2.width, 10);
    assert!(info2.pse);
    assert!(!info2.nxe);
}

#[test]
fn cr_read_composes_cr4_shadow() {
    let mut vcpu = fresh_vcpu();
    assert_eq!(vcpu.cr(0), vcpu.vmcs.guest.cr0);
    vcpu.vmcs.guest.cr3 = 0x9000;
    assert_eq!(vcpu.cr(3), 0x9000);
    // Hypervisor-owned bits read from the shadow, the rest from the
    // live field.
    vcpu.vmcs.control.cr4_guest_host_mask = 0x2000;
    vcpu.vmcs.control.cr4_read_shadow = 0;
    vcpu.vmcs.guest.cr4 = 0x2020;
    assert_eq!(vcpu.cr(4), 0x20);
}

#[test]
fn set_gpr_and_return_value() {
    let mut vcpu = fresh_vcpu();
    vcpu.set_gpr(3, 0x77);
    assert_eq!(vcpu.guest_regs.rbx, 0x77);
    vcpu.set_gpr(15, 0x88);
    assert_eq!(vcpu.guest_regs.r15, 0x88);
    vcpu.set_return_value(0x99);
    assert_eq!(vcpu.guest_regs.rax, 0x99);
    assert_eq!(vcpu.regs().rbx, 0x77);
    vcpu.regs_mut().rsi = 0x55;
    assert_eq!(vcpu.guest_regs.rsi, 0x55);
}

#[test]
fn stack_pointer_and_rip_accessors() {
    let mut vcpu = fresh_vcpu();
    vcpu.set_stack_pointer(0x7000);
    assert_eq!(vcpu.stack_pointer(), 0x7000);
    assert_eq!(vcpu.cs(), 0);
    let rip = vcpu.rip();
    vcpu.advance_rip(2);
    assert_eq!(vcpu.rip(), rip + 2);
}

#[test]
fn set_cr_respects_fixed_masks() {
    let xstate = XState::new(false, false, 0, 0);
    let mut vcpu = VmxVcpu::new(0x1234, xstate);
    let mut caps = permissive_caps();
    caps.cr0_fixed0 = 0x21; // PE and NE must be 1 (PE left to the guest)
    caps.cr0_fixed1 = !0x1000_0000u64; // bit 28 may not be 1
    caps.cr4_fixed0 = 0x2000; // VMXE must be 1
    caps.cr4_fixed1 = 0x37_ffff;
    let addrs = BitmapAddrs { io_bitmap_a: 0, io_bitmap_b: 0, msr_bitmap: 0 };
    vcpu.setup(0x8000, 0x1000, caps, &host_snapshot(), addrs)
        .expect("permissive controls still succeed");

    // Request bit 28 (refused), NW and CD (forced off), and leave PE
    // and NE (forced on) out.
    vcpu.set_cr(0, 0x1000_0000 | 0x6000_0000 | 0x2);
    let cr0 = vcpu.vmcs.guest.cr0;
    assert_eq!(cr0 & 0x1000_0000, 0); // may-not-be-1 bit cleared
    assert_eq!(cr0 & 0x6000_0000, 0); // NW and CD forced off
    assert_eq!(cr0 & 0x20, 0x20); // must-be-1 bit forced on
    assert_eq!(cr0 & 0x1, 0); // PE stays with the guest
    assert_eq!(cr0 & 0x2, 0x2); // an allowed requested bit survives
    // The shadow keeps the request untouched.
    assert_eq!(vcpu.vmcs.control.cr0_read_shadow, 0x1000_0000 | 0x6000_0000 | 0x2);

    // CR4: VMXE forced on, bits outside the may-be-1 mask dropped.
    vcpu.set_cr(4, 0x40_0000);
    assert_eq!(vcpu.vmcs.guest.cr4, 0x2000);
    assert_eq!(vcpu.vmcs.control.cr4_read_shadow, 0x40_0000 | 0x2000);
}

#[test]
fn mov_to_cr4_from_rsp_uses_stack_pointer() {
    let mut vcpu = fresh_vcpu();
    vcpu.set_stack_pointer(0x660);
    vcpu.vmcs.exits.exit_reason = EXIT_CR_ACCESS;
    vcpu.vmcs.exits.exit_qualification = 4 | (4 << 8); // cr 4, gpr 4 (RSP)
    assert_eq!(vcpu.builtin_vmexit_handler(), BuiltinOutcome::Done);
    assert_eq!(vcpu.vmcs.guest.cr4, 0x660 | 0x2000);
}

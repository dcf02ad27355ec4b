use la64_core::context::TrapFrame;
use la64_core::trap::{
    apply_syscall_result, classify_trap, handle_breakpoint, lowest_set_bit, page_fault_access_flags,
    page_fault_outcome, syscall_number, FaultOutcome, TrapAction, TrapCause,
};

// A handled breakpoint advances the saved program counter by the trap
// instruction width, so it is never re-executed.
#[test]
fn breakpoint_advances_pc() {
    let mut era = 0x1200usize;
    handle_breakpoint(&mut era);
    assert_eq!(era, 0x1204);
}

// A syscall's result lands in the return-value register and the program
// counter moves past the syscall instruction.
#[test]
fn syscall_result_applied() {
    let mut tf = TrapFrame::default();
    tf.era = 0x3000;
    tf.regs[11] = 64; // syscall number register
    assert_eq!(syscall_number(&tf), 64);
    apply_syscall_result(&mut tf, 42);
    assert_eq!(tf.regs[4], 42);
    assert_eq!(tf.era, 0x3004);
}

// A load faults as a read, a store as a write, an instruction fetch as an
// execute access; the user flag follows the originating mode.
#[test]
fn page_fault_flags() {
    let f = page_fault_access_flags(TrapCause::LoadPageFault, true);
    assert!(f.read && !f.write && !f.execute && f.user);
    let f = page_fault_access_flags(TrapCause::FetchPageFault, false);
    assert!(!f.read && !f.write && f.execute && !f.user);
    let f = page_fault_access_flags(TrapCause::StorePageFault, true);
    assert!(!f.read && f.write && !f.execute && f.user);
}

// An unresolved page fault is fatal; a resolved one resumes.
#[test]
fn page_fault_outcomes() {
    assert_eq!(page_fault_outcome(true), FaultOutcome::Resume);
    assert_eq!(page_fault_outcome(false), FaultOutcome::Fatal);
}

// The interrupt source is the lowest set bit of the pending mask.
#[test]
fn lowest_pending_bit() {
    assert_eq!(lowest_set_bit(1), 0);
    assert_eq!(lowest_set_bit(0b1000), 3);
    assert_eq!(lowest_set_bit(0b101000), 3);
    assert_eq!(lowest_set_bit(1 << 11), 11);
    assert_eq!(lowest_set_bit(usize::MAX), 0);
}

// Every recognized cause routes to its handler; an unknown cause is fatal.
#[test]
fn classify_all_causes() {
    assert_eq!(classify_trap(TrapCause::Syscall, 0, true), TrapAction::Syscall);
    assert_eq!(
        classify_trap(TrapCause::StorePageFault, 0, true),
        TrapAction::PageFault(page_fault_access_flags(TrapCause::StorePageFault, true))
    );
    assert_eq!(classify_trap(TrapCause::Breakpoint, 0, false), TrapAction::Breakpoint);
    assert_eq!(classify_trap(TrapCause::Interrupt, 1 << 11, false), TrapAction::Irq(11));
    assert_eq!(classify_trap(TrapCause::Unknown, 0, false), TrapAction::Fatal);
}

//! Trap classification and the register-frame updates the dispatcher
//! performs: syscall return-value injection, breakpoint skipping, page-fault
//! access-flag construction, and interrupt-source extraction.
//!
//! Reading the hardware cause and fault-address registers, and the final
//! fatal halt, happen outside this crate; the dispatcher logic here is a
//! function of the values read.

use vstd::prelude::*;
use vstd::std_specs::bits::u64_trailing_zeros;

use crate::context::TrapFrame;

verus! {

/// Width in bytes of the instruction that raised a syscall or breakpoint;
/// the saved program counter is advanced by this much so the instruction is
/// never re-executed.
pub const TRAP_INSN_WIDTH: usize = 4;

/// Access permissions of a memory mapping, as the page-fault handler reports
/// them to the address-space manager.
#[derive(Debug, Clone, Copy, PartialEq, Eq, Structural)]
pub struct MappingFlags {
    /// The access reads memory.
    pub read: bool,
    /// The access writes memory.
    pub write: bool,
    /// The access executes memory.
    pub execute: bool,
    /// The access comes from user mode.
    pub user: bool,
}

/// Hardware trap cause, after decoding the exception-status register.
#[derive(Debug, Clone, Copy, PartialEq, Eq, Structural)]
pub enum TrapCause {
    /// System call instruction.
    Syscall,
    /// Page fault on a load.
    LoadPageFault,
    /// Page fault on an instruction fetch.
    FetchPageFault,
    /// Page fault on a store.
    StorePageFault,
    /// Breakpoint instruction.
    Breakpoint,
    /// Asynchronous interrupt; its source is in the pending-interrupt mask.
    Interrupt,
    /// Any cause this dispatcher does not recognize.
    Unknown,
}

/// What the dispatcher decided for one trap: either a concrete handling step
/// or a fatal halt with full frame diagnostics.
#[derive(Debug, Clone, Copy, PartialEq, Eq, Structural)]
pub enum TrapAction {
    /// Invoke the syscall handler, then apply its result to the frame.
    Syscall,
    /// Ask the address-space manager to resolve a fault with these flags.
    PageFault(MappingFlags),
    /// Skip the breakpoint instruction.
    Breakpoint,
    /// Route this interrupt source through the IRQ table.
    Irq(usize),
    /// Unrecognized cause: halt the core with diagnostics.
    Fatal,
}

impl TrapCause {
    /// The cause is one of the three page-fault kinds.
    pub open spec fn is_page_fault(&self) -> bool {
        self is LoadPageFault || self is FetchPageFault || self is StorePageFault
    }
}

/// Access-flag set of the failing operation: a load faults as a read, a
/// store as a write, an instruction fetch as an execute access; the user
/// flag is added when the trap arrived from user mode.
pub open spec fn fault_access_spec(cause: TrapCause, is_user: bool) -> MappingFlags {
    MappingFlags {
        read: cause is LoadPageFault,
        write: cause is StorePageFault,
        execute: cause is FetchPageFault,
        user: is_user,
    }
}

/// Builds the access-flag set handed to the address-space manager for a page
/// fault.
pub fn page_fault_access_flags(cause: TrapCause, is_user: bool) -> (flags: MappingFlags)
    requires
        cause.is_page_fault(),
    ensures
        flags == fault_access_spec(cause, is_user),
{
    MappingFlags {
        read: matches!(cause, TrapCause::LoadPageFault),
        write: matches!(cause, TrapCause::StorePageFault),
        execute: matches!(cause, TrapCause::FetchPageFault),
        user: is_user,
    }
}

/// Advances the saved program counter past a handled breakpoint, so the
/// breakpoint is never re-executed.
pub fn handle_breakpoint(era: &mut usize)
    requires
        *old(era) + TRAP_INSN_WIDTH <= usize::MAX,
    ensures
        *final(era) == *old(era) + TRAP_INSN_WIDTH,
{
    *era = *era + TRAP_INSN_WIDTH;
}

/// Writes a syscall's result into the return-value register (general
/// register 4) and advances the saved program counter past the syscall
/// instruction, guaranteeing forward progress. No other field changes.
pub fn apply_syscall_result(tf: &mut TrapFrame, ret: usize)
    requires
        old(tf).era + TRAP_INSN_WIDTH <= usize::MAX,
    ensures
        final(tf).regs@ == old(tf).regs@.update(4, ret),
        final(tf).era == old(tf).era + TRAP_INSN_WIDTH,
        final(tf).prmd == old(tf).prmd,
        final(tf).badv == old(tf).badv,
        final(tf).crmd == old(tf).crmd,
{
    tf.regs[4] = ret;
    tf.era = tf.era + TRAP_INSN_WIDTH;
}

/// The register holding the syscall number (general register 11).
pub fn syscall_number(tf: &TrapFrame) -> (r: usize)
    ensures
        r == tf.regs[11],
{
    tf.regs[11]
}

/// The bit at `r` is the lowest one set in `mask`: it is set, and every bit
/// below it is clear.
pub open spec fn is_lowest_set_bit(mask: u64, r: usize) -> bool {
    &&& r < 64
    &&& (mask >> (r as u64)) & 1 == 1
    &&& forall|j: u64| j < r ==> (mask >> j) & 1 == 0
}

/// Index of the lowest pending interrupt in the interrupt-status mask: the
/// interrupt source the dispatcher routes first.
pub fn lowest_set_bit(mask: usize) -> (r: usize)
    requires
        mask != 0,
    ensures
        r == u64_trailing_zeros(mask as u64),
        is_lowest_set_bit(mask as u64, r),
{
    let wide: u64 = mask as u64;
    let tz = wide.trailing_zeros();
    proof {
        vstd::std_specs::bits::axiom_u64_trailing_zeros(wide);
        let r64 = tz as u64;
        let s = vstd::prelude::sub(64u64, r64);
        assert forall|j: u64| j < r64 implies ((wide >> j) & 1) == 0 by {
            assert((wide << s == 0 && s + r64 == 64 && r64 < 64 && j < r64) ==> ((wide >> j) & 1)
                == 0) by (bit_vector);
        }
    }
    tz as usize
}

/// Classifies one trap: the dispatcher's single decision from (cause,
/// pending-interrupt mask, origin mode) to the handling step. Every
/// recognized cause maps to its handler; anything else is fatal.
pub fn classify_trap(cause: TrapCause, pending_mask: usize, from_user: bool) -> (action: TrapAction)
    requires
        cause is Interrupt ==> pending_mask != 0,
    ensures
        cause is Syscall ==> action is Syscall,
        cause.is_page_fault() ==> action == TrapAction::PageFault(
            fault_access_spec(cause, from_user),
        ),
        cause is Breakpoint ==> action is Breakpoint,
        cause is Interrupt ==> action == TrapAction::Irq(
            u64_trailing_zeros(pending_mask as u64) as usize,
        ),
        cause is Interrupt ==> (action matches TrapAction::Irq(n) && is_lowest_set_bit(
            pending_mask as u64,
            n,
        )),
        cause is Unknown ==> action is Fatal,
{
    match cause {
        TrapCause::Syscall => TrapAction::Syscall,
        TrapCause::LoadPageFault | TrapCause::FetchPageFault | TrapCause::StorePageFault => {
            TrapAction::PageFault(page_fault_access_flags(cause, from_user))
        },
        TrapCause::Breakpoint => TrapAction::Breakpoint,
        TrapCause::Interrupt => TrapAction::Irq(lowest_set_bit(pending_mask)),
        TrapCause::Unknown => TrapAction::Fatal,
    }
}

/// Outcome of a page fault after the address-space manager was consulted.
#[derive(Debug, Clone, Copy, PartialEq, Eq, Structural)]
pub enum FaultOutcome {
    /// The fault was resolved; restore the frame and resume.
    Resume,
    /// The fault could not be resolved: halt the core with diagnostics.
    Fatal,
}

/// Decides what follows a page fault from the address-space manager's
/// answer: an unresolved fault is fatal, a resolved one resumes the frame.
pub fn page_fault_outcome(handled: bool) -> (r: FaultOutcome)
    ensures
        r is Fatal <==> !handled,
{
    if handled {
        FaultOutcome::Resume
    } else {
        FaultOutcome::Fatal
    }
}

} // verus!

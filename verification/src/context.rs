//! Register-frame and context state: the frame saved on every trap, the
//! context entered when returning to user mode, and the callee-saved state
//! kept across kernel task switches.

use vstd::prelude::*;

verus! {

/// Saved registers when a trap (interrupt or exception) occurs.
///
/// The field order mirrors the fixed frame layout the trap-entry stub stores:
/// the 32 general registers, then the status registers.
#[derive(Debug, Clone, Copy)]
pub struct TrapFrame {
    /// All general registers.
    pub regs: [usize; 32],
    /// Pre-exception mode information.
    pub prmd: usize,
    /// Exception return address.
    pub era: usize,
    /// Accessed memory address when the exception occurred.
    pub badv: usize,
    /// Current mode information.
    pub crmd: usize,
}

impl TrapFrame {
    /// All general registers and status fields are zero.
    pub open spec fn is_zeroed(&self) -> bool {
        &&& forall|i: int| 0 <= i < 32 ==> self.regs[i] == 0
        &&& self.prmd == 0
        &&& self.era == 0
        &&& self.badv == 0
        &&& self.crmd == 0
    }

    /// Gets the 0th syscall argument.
    pub fn arg0(&self) -> (r: usize)
        ensures
            r == self.regs[4],
    {
        self.regs[4]
    }

    /// Gets the 1st syscall argument.
    pub fn arg1(&self) -> (r: usize)
        ensures
            r == self.regs[5],
    {
        self.regs[5]
    }

    /// Gets the 2nd syscall argument.
    pub fn arg2(&self) -> (r: usize)
        ensures
            r == self.regs[6],
    {
        self.regs[6]
    }

    /// Gets the 3rd syscall argument.
    pub fn arg3(&self) -> (r: usize)
        ensures
            r == self.regs[7],
    {
        self.regs[7]
    }

    /// Gets the 4th syscall argument.
    pub fn arg4(&self) -> (r: usize)
        ensures
            r == self.regs[8],
    {
        self.regs[8]
    }

    /// Gets the 5th syscall argument.
    pub fn arg5(&self) -> (r: usize)
        ensures
            r == self.regs[9],
    {
        self.regs[9]
    }
}

impl Default for TrapFrame {
    /// A frame with every register and status field zero.
    fn default() -> (r: Self)
        ensures
            r.is_zeroed(),
    {
        TrapFrame { regs: [0; 32], prmd: 0, era: 0, badv: 0, crmd: 0 }
    }
}

/// Privilege level field of `prmd` encoding user mode (PPLV = 3).
pub const PRMD_PPLV_UMODE: usize = 3;

/// Interrupt-enable bit of `prmd` (PIE, bit 2).
pub const PRMD_PIE: usize = 4;

/// `prmd` value for entering user mode with interrupts enabled. The two
/// fields occupy disjoint bits, so their sum equals their bitwise or.
pub const PRMD_USER: usize = PRMD_PPLV_UMODE + PRMD_PIE;

/// Context used to enter user space: exactly one trap frame whose `prmd`
/// always encodes user privilege with interrupts enabled.
pub struct UspaceContext(pub TrapFrame);

impl UspaceContext {
    /// The saved instruction pointer.
    pub open spec fn ip_spec(&self) -> usize {
        self.0.era
    }

    /// The saved user stack pointer (general register 3).
    pub open spec fn sp_spec(&self) -> usize {
        self.0.regs[3]
    }

    /// The saved 0th argument register (general register 4).
    pub open spec fn arg0_spec(&self) -> usize {
        self.0.regs[4]
    }

    /// Creates an empty context with all registers set to zero.
    pub fn empty() -> (r: Self)
        ensures
            r.0.is_zeroed(),
    {
        UspaceContext(TrapFrame { regs: [0; 32], prmd: 0, era: 0, badv: 0, crmd: 0 })
    }

    /// The context is exactly what construction from `(entry, ustack_top,
    /// arg0)` produces: those three values in their registers, user-mode
    /// `prmd` with interrupts enabled, and everything else zero.
    pub open spec fn is_new_with(&self, entry: usize, ustack_top: usize, arg0: usize) -> bool {
        &&& self.ip_spec() == entry
        &&& self.sp_spec() == ustack_top
        &&& self.arg0_spec() == arg0
        &&& self.0.prmd == PRMD_USER
        &&& forall|i: int| 0 <= i < 32 && i != 3 && i != 4 ==> self.0.regs[i] == 0
        &&& self.0.badv == 0
        &&& self.0.crmd == 0
    }

    /// Creates a new context with the given entry point, user stack pointer,
    /// and the argument.
    pub fn new(entry: usize, ustack_top: usize, arg0: usize) -> (r: Self)
        ensures
            r.is_new_with(entry, ustack_top, arg0),
    {
        let mut trap_frame = TrapFrame { regs: [0; 32], prmd: 0, era: 0, badv: 0, crmd: 0 };
        trap_frame.regs[3] = ustack_top;
        trap_frame.era = entry;
        trap_frame.prmd = PRMD_USER;
        trap_frame.regs[4] = arg0;
        UspaceContext(trap_frame)
    }

    /// Creates a new context from the given [`TrapFrame`].
    pub fn from(trap_frame: &TrapFrame) -> (r: Self)
        ensures
            r.0 == *trap_frame,
    {
        UspaceContext(*trap_frame)
    }

    /// Gets the instruction pointer.
    pub fn get_ip(&self) -> (r: usize)
        ensures
            r == self.ip_spec(),
    {
        self.0.era
    }

    /// Gets the stack pointer.
    pub fn get_sp(&self) -> (r: usize)
        ensures
            r == self.sp_spec(),
    {
        self.0.regs[3]
    }

    /// Sets the instruction pointer; every other field is kept.
    pub fn set_ip(&mut self, pc: usize)
        ensures
            final(self).0.era == pc,
            final(self).0.regs == old(self).0.regs,
            final(self).0.prmd == old(self).0.prmd,
            final(self).0.badv == old(self).0.badv,
            final(self).0.crmd == old(self).0.crmd,
    {
        self.0.era = pc;
    }

    /// Sets the stack pointer; every other field is kept.
    pub fn set_sp(&mut self, sp: usize)
        ensures
            final(self).0.regs@ == old(self).0.regs@.update(3, sp),
            final(self).0.era == old(self).0.era,
            final(self).0.prmd == old(self).0.prmd,
            final(self).0.badv == old(self).0.badv,
            final(self).0.crmd == old(self).0.crmd,
    {
        self.0.regs[3] = sp;
    }

    /// Sets the return value register; every other field is kept.
    pub fn set_retval(&mut self, a0: usize)
        ensures
            final(self).0.regs@ == old(self).0.regs@.update(4, a0),
            final(self).0.era == old(self).0.era,
            final(self).0.prmd == old(self).0.prmd,
            final(self).0.badv == old(self).0.badv,
            final(self).0.crmd == old(self).0.crmd,
    {
        self.0.regs[4] = a0;
    }
}

/// Round trip: a user context constructed with `(entry, ustack_top, arg0)`
/// reads back exactly those three values as its instruction pointer, stack
/// pointer and argument register.
pub proof fn lemma_uspace_roundtrip(c: UspaceContext, entry: usize, ustack_top: usize, arg0: usize)
    requires
        c.is_new_with(entry, ustack_top, arg0),
    ensures
        c.ip_spec() == entry,
        c.sp_spec() == ustack_top,
        c.arg0_spec() == arg0,
{
}

/// The per-core trap-entry save slots: the one channel through which the
/// trap-entry path learns which kernel stack to switch onto after a trap
/// from user mode.
///
/// The slot of a core is written immediately before every entry into user
/// mode on that core, and read by the next trap taken from user mode there;
/// in hardware each slot is one scratch control register. A slot holding 0
/// has not been written yet.
pub struct KstackSlots {
    slots: Vec<usize>,
}

impl KstackSlots {
    /// The recorded kernel stack tops, indexed by core.
    pub closed spec fn slots_spec(&self) -> Seq<usize> {
        self.slots@
    }

    /// One empty slot per core.
    pub fn new(num_cpus: usize) -> (r: Self)
        ensures
            r.slots_spec().len() == num_cpus,
            forall|i: int| 0 <= i < num_cpus ==> r.slots_spec()[i] == 0,
    {
        let mut slots: Vec<usize> = Vec::new();
        let mut i: usize = 0;
        while i < num_cpus
            invariant
                i <= num_cpus,
                slots@.len() == i,
                forall|j: int| 0 <= j < i ==> slots@[j] == 0,
            decreases num_cpus - i,
        {
            slots.push(0);
            i = i + 1;
        }
        KstackSlots { slots }
    }

    /// Records, just before an entry into user mode on `cpu`, the kernel
    /// stack top the next trap from user mode must switch onto. No other
    /// core's slot changes.
    pub fn record(&mut self, cpu: usize, kstack_top: usize)
        requires
            cpu < old(self).slots_spec().len(),
        ensures
            final(self).slots_spec() == old(self).slots_spec().update(cpu as int, kstack_top),
    {
        self.slots.set(cpu, kstack_top);
    }

    /// The kernel stack top the trap-entry path on `cpu` switches onto.
    pub fn current(&self, cpu: usize) -> (r: usize)
        requires
            cpu < self.slots_spec().len(),
        ensures
            r == self.slots_spec()[cpu as int],
    {
        self.slots[cpu]
    }
}

/// Saved hardware state of a kernel task: return address, stack pointer, the
/// ten callee-saved static registers, the thread pointer, and the user page
/// table root.
///
/// It is mutated only while switching tasks; the low-level register
/// save/restore happens outside this crate against this same field order.
#[derive(Debug, Clone, Copy)]
pub struct TaskContext {
    /// Return address.
    pub ra: usize,
    /// Stack pointer.
    pub sp: usize,
    /// Static (callee-saved) registers `$r22` to `$r31`.
    pub s: [usize; 10],
    /// Thread pointer, for thread-local storage.
    pub tp: usize,
    /// User page table root (the `pgdl` register).
    pub pgdl: usize,
}

/// What a task switch must do to the hardware besides the register
/// save/restore: the thread pointer to load, and the page table root to
/// write, present only when it differs from the outgoing task's root.
pub struct SwitchPlan {
    /// Value for the thread-pointer register.
    pub tp_to_write: usize,
    /// New `pgdl` value, or `None` when the incoming root is already active.
    pub pgdl_to_write: Option<usize>,
}

impl TaskContext {
    /// Creates a new context with all fields zero.
    pub fn new() -> (r: Self)
        ensures
            r.ra == 0,
            r.sp == 0,
            forall|i: int| 0 <= i < 10 ==> r.s[i] == 0,
            r.tp == 0,
            r.pgdl == 0,
    {
        TaskContext { ra: 0, sp: 0, s: [0; 10], tp: 0, pgdl: 0 }
    }

    /// Initializes the context for a new task, with the given entry point,
    /// kernel stack top and thread-local-storage area.
    pub fn init(&mut self, entry: usize, kstack_top: usize, tls_area: usize)
        ensures
            final(self).sp == kstack_top,
            final(self).ra == entry,
            final(self).tp == tls_area,
            final(self).s == old(self).s,
            final(self).pgdl == old(self).pgdl,
    {
        self.sp = kstack_top;
        self.ra = entry;
        self.tp = tls_area;
    }

    /// Changes the page table root (the `pgdl` register value to load when
    /// the owning task runs).
    pub fn set_page_table_root(&mut self, pgdl: usize)
        ensures
            final(self).pgdl == pgdl,
            final(self).ra == old(self).ra,
            final(self).sp == old(self).sp,
            final(self).s == old(self).s,
            final(self).tp == old(self).tp,
    {
        self.pgdl = pgdl;
    }

    /// Decides a switch from the current task to `next_ctx`: saves the live
    /// hardware thread pointer into this context and reports what to load.
    /// The page table root is written only when the two contexts disagree;
    /// rewriting an identical root would be a correct no-op.
    pub fn prepare_switch(&mut self, next_ctx: &TaskContext, hw_tp: usize) -> (plan: SwitchPlan)
        ensures
            final(self).tp == hw_tp,
            final(self).ra == old(self).ra,
            final(self).sp == old(self).sp,
            final(self).s == old(self).s,
            final(self).pgdl == old(self).pgdl,
            plan.tp_to_write == next_ctx.tp,
            plan.pgdl_to_write == if old(self).pgdl != next_ctx.pgdl {
                Some(next_ctx.pgdl)
            } else {
                None::<usize>
            },
    {
        self.tp = hw_tp;
        let pgdl_to_write = if self.pgdl != next_ctx.pgdl {
            Some(next_ctx.pgdl)
        } else {
            None
        };
        SwitchPlan { tp_to_write: next_ctx.tp, pgdl_to_write }
    }
}

} // verus!

//! IRQ routing: the dedicated single-slot timer registration, the general
//! handler table for every other interrupt source, and the bit arithmetic
//! that enables the timer's interrupt line.
//!
//! Invoking a handler and touching the interrupt controller happen outside
//! this crate; dispatch here decides which handler runs and whether the
//! timer's pending bit must be cleared first.

use vstd::prelude::*;

use crate::handler_table::HandlerTable;
use crate::handler_table::lookup_spec;
use crate::handler_table::register_spec;
use crate::handler_table::unregister_spec;

verus! {

/// The maximum number of IRQs.
pub const MAX_IRQ_COUNT: usize = 256;

/// The extended-interrupt-controller IRQ number.
pub const EXT_IRQ_NUM: usize = 2;

/// The timer IRQ number.
pub const TIMER_IRQ_NUM: usize = 11;

/// Bit of the line-based-interrupt enable field that carries the timer
/// interrupt.
pub const TIMER_LINE: usize = 2048;

/// New value for the line-based-interrupt enable field when the timer line
/// is switched on or off; every other line is kept.
pub fn timer_line_update(lie: usize, enabled: bool) -> (r: usize)
    ensures
        enabled ==> r == (lie | TIMER_LINE),
        !enabled ==> r == (lie & !TIMER_LINE),
{
    if enabled {
        lie | TIMER_LINE
    } else {
        lie & !TIMER_LINE
    }
}

/// Decides what enabling or disabling `irq_num` does to the line-based
/// enable field `lie`: only the timer line is configurable here, so any
/// other number leaves the hardware untouched (`None`).
pub fn set_enable(irq_num: usize, enabled: bool, lie: usize) -> (r: Option<usize>)
    ensures
        irq_num == TIMER_IRQ_NUM && enabled ==> r == Some(lie | TIMER_LINE),
        irq_num == TIMER_IRQ_NUM && !enabled ==> r == Some(lie & !TIMER_LINE),
        irq_num != TIMER_IRQ_NUM ==> r is None,
{
    if irq_num == TIMER_IRQ_NUM {
        Some(timer_line_update(lie, enabled))
    } else {
        None
    }
}

/// One dispatch decision: what the caller must do for the interrupt.
#[derive(Debug, PartialEq, Eq, Structural)]
pub enum IrqDispatch<H> {
    /// Clear the timer's pending bit at the controller, then invoke the
    /// handler — in that order, so a timer interrupt re-raised while the
    /// handler runs is not lost.
    Timer(H),
    /// Invoke this handler for an external source.
    External(H),
    /// No handler is installed for the cause: nothing may be invoked.
    NotHandled,
}

/// The IRQ routing state of the platform: the latency-critical timer cause
/// has a dedicated slot, known at build time; all other sources go through
/// the general table.
pub struct IrqRouting<H> {
    timer_handler: Option<H>,
    table: HandlerTable<H, MAX_IRQ_COUNT>,
}

impl<H> IrqRouting<H> {
    /// The dedicated timer handler slot.
    pub closed spec fn timer_spec(&self) -> Option<H> {
        self.timer_handler
    }

    /// The general table's slots.
    pub closed spec fn table_spec(&self) -> Seq<Option<H>> {
        self.table.slots()
    }
}

impl<H: Copy> IrqRouting<H> {
    /// Creates the routing state with no handler installed anywhere.
    pub fn new() -> (r: Self)
        ensures
            r.timer_spec() is None,
            r.table_spec().len() == MAX_IRQ_COUNT,
            forall|i: int| 0 <= i < MAX_IRQ_COUNT ==> r.table_spec()[i] is None,
    {
        IrqRouting { timer_handler: None, table: HandlerTable::new() }
    }

    /// Registers an IRQ handler for the given IRQ.
    ///
    /// The timer cause installs into its dedicated slot, anything else into
    /// the general table. Registration succeeds exactly when the cause is in
    /// range and no handler is installed yet; a failure has no side effect.
    pub fn register_handler(&mut self, irq_num: usize, handler: H) -> (ok: bool)
        ensures
            irq_num == TIMER_IRQ_NUM ==> {
                &&& final(self).table_spec() == old(self).table_spec()
                &&& ok == (old(self).timer_spec() is None)
                &&& final(self).timer_spec() == if old(self).timer_spec() is None {
                    Some(handler)
                } else {
                    old(self).timer_spec()
                }
            },
            irq_num != TIMER_IRQ_NUM ==> {
                &&& final(self).timer_spec() == old(self).timer_spec()
                &&& final(self).table_spec() == register_spec(
                    old(self).table_spec(),
                    irq_num,
                    handler,
                ).0
                &&& ok == register_spec(old(self).table_spec(), irq_num, handler).1
            },
    {
        if irq_num == TIMER_IRQ_NUM {
            if self.timer_handler.is_none() {
                self.timer_handler = Some(handler);
                true
            } else {
                false
            }
        } else {
            self.table.register_handler(irq_num, handler)
        }
    }

    /// Unregisters the handler for the given IRQ, returning the handler that
    /// was installed, or `None` if none was.
    pub fn unregister_handler(&mut self, irq_num: usize) -> (prior: Option<H>)
        ensures
            irq_num == TIMER_IRQ_NUM ==> {
                &&& final(self).table_spec() == old(self).table_spec()
                &&& prior == old(self).timer_spec()
                &&& final(self).timer_spec() is None
            },
            irq_num != TIMER_IRQ_NUM ==> {
                &&& final(self).timer_spec() == old(self).timer_spec()
                &&& final(self).table_spec() == unregister_spec(old(self).table_spec(), irq_num).0
                &&& prior == unregister_spec(old(self).table_spec(), irq_num).1
            },
    {
        if irq_num == TIMER_IRQ_NUM {
            let prior = self.timer_handler;
            self.timer_handler = None;
            prior
        } else {
            self.table.unregister_handler(irq_num)
        }
    }

    /// Decides the dispatch of one interrupt: which handler the caller must
    /// invoke, and — for the timer — that its pending bit is cleared before
    /// the handler runs. A cause with no handler is reported as not handled,
    /// with nothing to invoke.
    pub fn dispatch_irq(&self, irq_num: usize) -> (r: IrqDispatch<H>)
        ensures
            irq_num == TIMER_IRQ_NUM ==> r == match self.timer_spec() {
                Some(h) => IrqDispatch::Timer(h),
                None => IrqDispatch::NotHandled,
            },
            irq_num != TIMER_IRQ_NUM ==> r == match lookup_spec(self.table_spec(), irq_num) {
                Some(h) => IrqDispatch::External(h),
                None => IrqDispatch::NotHandled,
            },
    {
        if irq_num == TIMER_IRQ_NUM {
            match self.timer_handler {
                Some(h) => IrqDispatch::Timer(h),
                None => IrqDispatch::NotHandled,
            }
        } else {
            match self.table.handle(irq_num) {
                Some(h) => IrqDispatch::External(h),
                None => IrqDispatch::NotHandled,
            }
        }
    }
}

} // verus!

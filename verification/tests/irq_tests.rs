use la64_core::handler_table::HandlerTable;
use la64_core::irq::{
    set_enable, timer_line_update, IrqDispatch, IrqRouting, EXT_IRQ_NUM, MAX_IRQ_COUNT,
    TIMER_IRQ_NUM, TIMER_LINE,
};

// Registering the same cause twice succeeds, then fails, for the dedicated
// timer slot and for the general table alike.
#[test]
fn register_twice_succeeds_then_fails() {
    let mut routing: IrqRouting<usize> = IrqRouting::new();
    assert!(routing.register_handler(TIMER_IRQ_NUM, 100));
    assert!(!routing.register_handler(TIMER_IRQ_NUM, 101));
    assert!(routing.register_handler(EXT_IRQ_NUM, 200));
    assert!(!routing.register_handler(EXT_IRQ_NUM, 201));
}

// Unregistering an unregistered cause reports that no handler was present.
#[test]
fn unregister_absent_returns_none() {
    let mut routing: IrqRouting<usize> = IrqRouting::new();
    assert_eq!(routing.unregister_handler(TIMER_IRQ_NUM), None);
    assert_eq!(routing.unregister_handler(7), None);
    assert!(routing.register_handler(7, 300));
    assert_eq!(routing.unregister_handler(7), Some(300));
    assert_eq!(routing.unregister_handler(7), None);
}

// Dispatch on a cause with no handler reports it unhandled, with nothing to
// invoke.
#[test]
fn dispatch_absent_not_handled() {
    let routing: IrqRouting<usize> = IrqRouting::new();
    assert_eq!(routing.dispatch_irq(TIMER_IRQ_NUM), IrqDispatch::NotHandled);
    assert_eq!(routing.dispatch_irq(EXT_IRQ_NUM), IrqDispatch::NotHandled);
    assert_eq!(routing.dispatch_irq(99), IrqDispatch::NotHandled);
}

// The timer dispatch clears the pending bit before its handler runs; other
// causes go through the general table.
#[test]
fn dispatch_routes_to_handlers() {
    let mut routing: IrqRouting<usize> = IrqRouting::new();
    assert!(routing.register_handler(TIMER_IRQ_NUM, 100));
    assert!(routing.register_handler(EXT_IRQ_NUM, 200));
    assert_eq!(routing.dispatch_irq(TIMER_IRQ_NUM), IrqDispatch::Timer(100));
    assert_eq!(routing.dispatch_irq(EXT_IRQ_NUM), IrqDispatch::External(200));
}

// Registration fails outside the table's range, without side effects.
#[test]
fn register_out_of_range_fails() {
    let mut routing: IrqRouting<usize> = IrqRouting::new();
    assert!(!routing.register_handler(MAX_IRQ_COUNT, 1));
    assert!(!routing.register_handler(MAX_IRQ_COUNT + 5, 1));
    assert_eq!(routing.dispatch_irq(MAX_IRQ_COUNT), IrqDispatch::NotHandled);
}

// The plain handler table: compare-and-install, removal, and lookup.
#[test]
fn handler_table_operations() {
    let mut table: HandlerTable<u32, 8> = HandlerTable::new();
    assert!(table.register_handler(3, 33));
    assert!(!table.register_handler(3, 34));
    assert!(!table.register_handler(8, 1)); // out of range
    assert_eq!(table.handle(3), Some(33));
    assert_eq!(table.handle(4), None);
    assert_eq!(table.handle(100), None);
    assert_eq!(table.unregister_handler(3), Some(33));
    assert_eq!(table.unregister_handler(3), None);
    assert_eq!(table.handle(3), None);
}

// Only the timer line of the interrupt-enable field is switched, and only
// for the timer cause.
#[test]
fn timer_line_enable_bits() {
    assert_eq!(timer_line_update(0, true), TIMER_LINE);
    assert_eq!(timer_line_update(TIMER_LINE | 0b11, false), 0b11);
    assert_eq!(TIMER_LINE, 1 << 11);
    assert_eq!(set_enable(TIMER_IRQ_NUM, true, 0b1), Some(0b1 | TIMER_LINE));
    assert_eq!(set_enable(TIMER_IRQ_NUM, false, TIMER_LINE), Some(0));
    assert_eq!(set_enable(EXT_IRQ_NUM, true, 0), None);
}

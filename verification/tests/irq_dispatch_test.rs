use std::cell::RefCell;
use std::rc::Rc;

use rpi_kernel::bcm2837_interrupt::arm_domain;
use rpi_kernel::bcm2837_interrupt::mask_interrupt;
use rpi_kernel::bcm2837_interrupt::peripheral_domain;
use rpi_kernel::bcm2837_interrupt::serve_interrupt;
use rpi_kernel::bcm2837_interrupt::unmask_interrupt;
use rpi_kernel::bcm2837_interrupt::valid_irq_peripheral_number;
use rpi_kernel::bcm2837_interrupt::IRQ_BASIC_PENDING;
use rpi_kernel::bcm2837_interrupt::IRQ_DI_1;
use rpi_kernel::bcm2837_interrupt::IRQ_DI_BASIC;
use rpi_kernel::bcm2837_interrupt::IRQ_EN_BASIC;
use rpi_kernel::bcm2837_interrupt::IRQ_PENDING_2;
use rpi_kernel::irq::IrqChannel;
use rpi_kernel::irq::IrqRegistry;
use rpi_kernel::mmio::MockMmio;

// Masking twice leaves the channel masked: the disable register holds the
// channel's bit, with no double-toggle.
#[test]
fn mask_interrupt_idempotent() {
    let mut m = MockMmio::new();
    let ch = IrqChannel { domain: arm_domain(), number: 3 };
    mask_interrupt(&mut m, ch);
    let after_once = m.reg(IRQ_DI_BASIC);
    mask_interrupt(&mut m, ch);
    assert_eq!(after_once, 1 << 3);
    assert_eq!(m.reg(IRQ_DI_BASIC), 1 << 3);

    let mut m2 = MockMmio::new();
    let p = IrqChannel { domain: peripheral_domain(), number: 9 };
    mask_interrupt(&mut m2, p);
    mask_interrupt(&mut m2, p);
    assert_eq!(m2.reg(IRQ_DI_1), 1 << 9);
}

// Unmasking twice leaves the channel unmasked in the same way.
#[test]
fn unmask_interrupt_idempotent() {
    let mut m = MockMmio::new();
    let ch = IrqChannel { domain: arm_domain(), number: 0 };
    unmask_interrupt(&mut m, ch);
    unmask_interrupt(&mut m, ch);
    assert_eq!(m.reg(IRQ_EN_BASIC), 1 << 0);
}

// A pending channel nobody registered makes dispatch fail loudly, naming
// the channel.
#[test]
fn unregistered_pending_channel_faults() {
    let mut m = MockMmio::new();
    // ARM timer (basic bit 0) pending, nothing registered.
    m.set_reg(IRQ_BASIC_PENDING, 1 << 0);
    let handlers: IrqRegistry<fn() -> ()> = IrqRegistry::new();
    let r = serve_interrupt(&mut m, &handlers);
    let faulted = r.expect_err("an unhandled pending interrupt must not pass silently");
    assert_eq!(faulted.domain.get(), 0);
    assert_eq!(faulted.number, 0);
}

// Registering the UART receive channel (peripheral 57) and firing only its
// pending bits invokes exactly that handler once.
#[test]
fn uart_rx_dispatch_invokes_handler_once() {
    let mut m = MockMmio::new();
    // Aggregate bit for peripheral register 2 in the basic register, and
    // the UART bit (25) in pending register 2.
    m.set_reg(IRQ_BASIC_PENDING, 1 << 9);
    m.set_reg(IRQ_PENDING_2, 1 << 25);

    let count = Rc::new(RefCell::new(0));
    let count_in_handler = Rc::clone(&count);
    let handler = move || {
        *count_in_handler.borrow_mut() += 1;
    };
    let mut handlers = IrqRegistry::new();
    let uart_rx = IrqChannel { domain: peripheral_domain(), number: 57 };
    handlers.set_handler(uart_rx, handler);

    let r = serve_interrupt(&mut m, &handlers);
    assert!(r.is_ok());
    assert_eq!(*count.borrow(), 1);
}

// Dispatch runs the first registration for a channel: a second one is
// unreachable.
#[test]
fn first_registration_wins() {
    let mut m = MockMmio::new();
    m.set_reg(IRQ_BASIC_PENDING, 1 << 9);
    m.set_reg(IRQ_PENDING_2, 1 << 25);

    let hits = Rc::new(RefCell::new(Vec::new()));
    let first_hits = Rc::clone(&hits);
    let second_hits = Rc::clone(&hits);
    let uart_rx = IrqChannel { domain: peripheral_domain(), number: 57 };
    let mut handlers = IrqRegistry::new();
    handlers.set_handler(uart_rx, Box::new(move || first_hits.borrow_mut().push(1)) as Box<dyn Fn()>);
    handlers.set_handler(uart_rx, Box::new(move || second_hits.borrow_mut().push(2)) as Box<dyn Fn()>);

    let r = serve_interrupt(&mut m, &handlers);
    assert!(r.is_ok());
    assert_eq!(*hits.borrow(), vec![1]);
}

// The wired peripheral numbers, and nothing else.
#[test]
fn peripheral_number_validity() {
    assert!(valid_irq_peripheral_number(1));
    assert!(valid_irq_peripheral_number(3));
    assert!(valid_irq_peripheral_number(9));
    assert!(valid_irq_peripheral_number(29));
    assert!(valid_irq_peripheral_number(43));
    assert!(valid_irq_peripheral_number(45));
    assert!(valid_irq_peripheral_number(46));
    for n in 48..=55 {
        assert!(valid_irq_peripheral_number(n));
    }
    assert!(valid_irq_peripheral_number(57));
    assert!(!valid_irq_peripheral_number(0));
    assert!(!valid_irq_peripheral_number(2));
    assert!(!valid_irq_peripheral_number(44));
    assert!(!valid_irq_peripheral_number(47));
    assert!(!valid_irq_peripheral_number(56));
    assert!(!valid_irq_peripheral_number(58));
}

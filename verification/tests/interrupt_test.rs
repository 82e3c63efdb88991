use rpi_kernel::interrupt_ctrl::timer_handler;
use rpi_kernel::interrupt_ctrl::uart_handler;
use rpi_kernel::interrupt_ctrl::InterruptController;
use rpi_kernel::interrupt_ctrl::InterruptError;
use rpi_kernel::interrupt_ctrl::InterruptResult;
use rpi_kernel::interrupt_ctrl::InterruptType;

#[test]
fn test_interrupt_registration() {
    let mut controller = InterruptController::new();

    // Test successful registration
    assert!(controller
        .register_handler(InterruptType::Timer, timer_handler)
        .is_ok());

    // Test duplicate registration
    assert_eq!(
        controller.register_handler(InterruptType::Timer, timer_handler),
        Err(InterruptError::HandlerExists)
    );

    // Test unknown interrupt
    assert_eq!(
        controller.register_handler(InterruptType::Unknown, timer_handler),
        Err(InterruptError::UnknownInterrupt)
    );
}

#[test]
fn test_interrupt_handling() {
    let mut controller: InterruptController<fn() -> InterruptResult> = InterruptController::new();

    // Register handlers
    controller
        .register_handler(InterruptType::Timer, timer_handler)
        .unwrap();
    controller
        .register_handler(InterruptType::Uart, uart_handler)
        .unwrap();

    // Test with interrupts disabled
    assert!(controller.handle_interrupt(InterruptType::Timer).is_ok());

    // Enable interrupts and test
    controller.enable_interrupts();
    assert!(controller.handle_interrupt(InterruptType::Timer).is_ok());
    assert!(controller.handle_interrupt(InterruptType::Uart).is_ok());

    // Test unknown interrupt
    assert_eq!(
        controller.handle_interrupt(InterruptType::Unknown),
        Err(InterruptError::UnknownInterrupt)
    );
}

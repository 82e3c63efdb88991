use std::cell::RefCell;
use std::rc::Rc;

use rpi_kernel::bcm2837_interrupt::peripheral_domain;
use rpi_kernel::error::ErrorKind;
use rpi_kernel::irq::IrqChannel;
use rpi_kernel::mmio::MockMmio;
use rpi_kernel::timer::Timer;
use rpi_kernel::timer::ST_C1;
use rpi_kernel::timer::ST_CLO;
use rpi_kernel::timer::ST_CS;
use rpi_kernel::timer::ST_CS_M1;

fn timer_channel() -> IrqChannel {
    // System timer compare 1 interrupts on peripheral source 1.
    IrqChannel {
        domain: peripheral_domain(),
        number: 1,
    }
}

// Arming a timer while one is pending is rejected as busy, never
// overwritten.
#[test]
fn second_timer_while_pending_is_busy() {
    let mut m = MockMmio::new();
    let mut timer = Timer::initialize(timer_channel());
    let fired = Rc::new(RefCell::new(0));
    let first = Rc::clone(&fired);
    let second = Rc::clone(&fired);

    assert!(timer
        .set_timer(&mut m, 500, Box::new(move || *first.borrow_mut() += 1) as Box<dyn Fn()>)
        .is_ok());
    assert_eq!(
        timer.set_timer(&mut m, 500, Box::new(move || *second.borrow_mut() += 10) as Box<dyn Fn()>),
        Err(ErrorKind::ResourceBusy)
    );
    // The pending callback is the first one.
    timer.handle_irq(&mut m);
    assert_eq!(*fired.borrow(), 1);
}

// Arming programs the compare register one delay past the counter, and
// serving acknowledges the match bit and runs the callback once.
#[test]
fn timer_fires_once_and_rearms() {
    let mut m = MockMmio::new();
    m.set_reg(ST_CLO, 1000);
    let mut timer = Timer::initialize(timer_channel());
    let fired = Rc::new(RefCell::new(0));
    let cb = Rc::clone(&fired);

    timer
        .set_timer(&mut m, 500, Box::new(move || *cb.borrow_mut() += 1) as Box<dyn Fn()>)
        .expect("Not OK");
    assert_eq!(m.reg(ST_C1), 1500);

    timer.handle_irq(&mut m);
    assert_eq!(*fired.borrow(), 1);
    assert_eq!(m.reg(ST_CS), ST_CS_M1);

    // Disarmed again: a new one-shot may be set.
    let cb2 = Rc::clone(&fired);
    assert!(timer
        .set_timer(&mut m, 500, Box::new(move || *cb2.borrow_mut() += 1) as Box<dyn Fn()>)
        .is_ok());
}

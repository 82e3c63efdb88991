use arrayvec::ArrayVec;

use rpi_kernel::mmio::MockMmio;
use rpi_kernel::pl011::on_rx_fifo;
use rpi_kernel::pl011::pl011_putc;
use rpi_kernel::pl011::PL011_DR;
use rpi_kernel::pl011::PL011_FR;
use rpi_kernel::syscall::sys_uart_read;
use rpi_kernel::uart::puts;
use rpi_kernel::uart::uart_on_receive;
use rpi_kernel::uart::MockUart;
use rpi_kernel::uart::Payload;

#[test]
fn mock_uart_reads_input_in_order() {
    let mut u = MockUart::setup();
    u.set_mock_input("abc");
    assert_eq!(sys_uart_read(&mut u, 0, 0), Ok('a' as u64));
    assert_eq!(sys_uart_read(&mut u, 0, 0), Ok('b' as u64));
    assert_eq!(sys_uart_read(&mut u, 0, 0), Ok('c' as u64));
    // Exhausted input reads as zero.
    assert_eq!(sys_uart_read(&mut u, 0, 0), Ok(0));
}

#[test]
fn puts_writes_every_byte() {
    let mut u = MockUart::setup();
    puts(&mut u, "Hello, kernel World!");
    assert_eq!(u.get_output(), b"Hello, kernel World!");
}

// A received payload is echoed back byte for byte, in order.
#[test]
fn on_receive_echoes_payload() {
    let mut u = MockUart::setup();
    let mut payload: Payload = ArrayVec::new();
    payload.push(b'h');
    payload.push(b'i');
    payload.push(b'!');
    uart_on_receive(&mut u, &payload);
    assert_eq!(u.get_output(), b"hi!");
}

// The polled transmit path lands the byte in the data register.
#[test]
fn pl011_putc_writes_data_register() {
    let mut m = MockMmio::new();
    pl011_putc(&mut m, b'x');
    assert_eq!(m.reg(PL011_DR), b'x' as u32);
}

// The receive drain pulls bytes while the FIFO shows data, up to the
// payload's capacity.
#[test]
fn on_rx_fifo_drains_to_capacity() {
    let mut m = MockMmio::new();
    // FIFO never reports empty; the data register always shows one byte.
    m.set_reg(PL011_DR, 'A' as u32);
    let payload = on_rx_fifo(&mut m);
    assert_eq!(payload.as_slice(), [b'A'; 16]);

    // An empty FIFO yields an empty payload.
    let mut m2 = MockMmio::new();
    m2.set_reg(PL011_FR, 1 << 4);
    let empty = on_rx_fifo(&mut m2);
    assert!(empty.is_empty());
}

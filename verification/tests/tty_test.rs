use rpi_kernel::tty::Tty;
use rpi_kernel::tty::TtyError;
use rpi_kernel::uart::MockUart;

// Test helper: a fresh mock stream for the TTY to sit on.
fn make_mock() -> MockUart {
    MockUart::setup()
}

#[test]
fn test_tty_write() {
    let mut tty = Tty::new(make_mock());
    tty.write("Hello, Tty!").expect("Write should succeed");

    assert_eq!(tty.stream_impl.get_output(), b"Hello, Tty!");
}

#[test]
fn test_tty_write_fmt() {
    let mut tty = Tty::new(make_mock());
    let formatted = format!("Value: {}", 42);
    tty.write(&formatted).expect("Write formatting should succeed");

    assert_eq!(tty.stream_impl.get_output(), b"Value: 42");
}

#[test]
fn test_tty_read_line() {
    let mut tty = Tty::new(make_mock());

    tty.stream_impl.set_mock_input("Hello\n");

    let line = tty.read_line().expect("Read line should succeed");
    assert_eq!(line, "Hello");

    assert_eq!(tty.stream_impl.get_output(), b"Hello\n");
}

#[test]
fn test_tty_ctrl_c() {
    let mut tty = Tty::new(make_mock());

    tty.stream_impl.set_mock_input("\x03");

    let result = tty.read_line();
    assert!(matches!(result, Err(TtyError::ReadError)));
}

#[test]
fn test_tty_empty_line() {
    let mut tty = Tty::new(make_mock());

    tty.stream_impl.set_mock_input("\n");

    let line = tty.read_line().expect("Read line should succeed");
    assert_eq!(line, "");

    assert_eq!(tty.stream_impl.get_output(), b"\n");
}

#[test]
fn test_tty_multiple_backspaces() {
    let mut tty = Tty::new(make_mock());

    tty.stream_impl.set_mock_input("\x08Hello\x08\x08\n");

    let line = tty.read_line().expect("Read line should succeed");
    assert_eq!(line, "Hel");

    let output = tty.stream_impl.get_output();
    assert!(output.ends_with(b"\n"));
}

#[test]
fn test_tty_echo_disable() {
    let mut tty = Tty::new(make_mock());
    tty.set_echo(false);

    tty.stream_impl.set_mock_input("Hello\n");

    let line = tty.read_line().expect("Read line should succeed");
    assert_eq!(line, "Hello");

    assert_eq!(tty.stream_impl.get_output(), b"");
}

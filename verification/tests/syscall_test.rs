use rpi_kernel::syscall::SyscallError;
use rpi_kernel::syscall::SyscallID;
use rpi_kernel::syscall::SyscallTable;
use rpi_kernel::uart::MockUart;

#[test]
fn test_uart_read_syscall() {
    let mut uart = MockUart::setup();
    uart.set_mock_input("H");

    let syscall_table = SyscallTable::new();
    let result = syscall_table.dispatch(&mut uart, SyscallID::UartRead, 0, 0);

    assert_eq!(result, Ok('H' as u64));
}

#[test]
fn test_uart_write_syscall() {
    let mut uart = MockUart::setup();

    let syscall_table = SyscallTable::new();
    let result = syscall_table.dispatch(&mut uart, SyscallID::UartWrite, 'A' as u64, 0);

    assert_eq!(result, Ok(0));
    assert_eq!(uart.get_output(), vec!['A' as u8]);
}

#[test]
fn test_invalid_syscall() {
    let mut uart = MockUart::setup();
    let syscall_table = SyscallTable::new();
    let invalid_syscall_id = SyscallID::try_from(99).unwrap_or(SyscallID::Invalid);
    let result = syscall_table.dispatch(&mut uart, invalid_syscall_id, 0, 0);

    assert_eq!(result, Err(SyscallError::InvalidSyscall));
}

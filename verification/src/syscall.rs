use vstd::prelude::*;

use crate::uart::Uart;

verus! {

// The syscall surface: a small dispatch table from syscall identifiers to
// the UART read and write services.

/// The syscall identifiers; every unassigned code maps to `Invalid`.
#[derive(Clone, Copy, Debug, PartialEq, Eq, Structural)]
pub enum SyscallID {
    UartRead,
    UartWrite,
    Invalid,
}

impl SyscallID {
    /// The syscall a raw code names.
    pub fn try_from(value: u32) -> (r: Result<SyscallID, ()>)
        ensures
            r == Ok::<SyscallID, ()>(spec_syscall_of(value)),
    {
        match value {
            0 => Ok(SyscallID::UartRead),
            1 => Ok(SyscallID::UartWrite),
            _ => Ok(SyscallID::Invalid),
        }
    }
}

/// The syscall a raw code names.
pub open spec fn spec_syscall_of(value: u32) -> SyscallID {
    if value == 0 {
        SyscallID::UartRead
    } else if value == 1 {
        SyscallID::UartWrite
    } else {
        SyscallID::Invalid
    }
}

#[derive(Debug, PartialEq, Eq, Structural)]
pub enum SyscallError {
    InvalidSyscall,
    WriteError,
    ReadError,
}

pub type SyscallResult = Result<u64, SyscallError>;

/// Which service occupies a table slot.
#[derive(Clone, Copy, Debug, PartialEq, Eq, Structural)]
enum SyscallSlot {
    UartRead,
    UartWrite,
}

/// The dispatch table: one slot per syscall identifier.
pub struct SyscallTable {
    table: Vec<Option<SyscallSlot>>,
}

impl SyscallTable {
    /// The table holds the two UART services in their slots.
    pub closed spec fn wf(&self) -> bool {
        self.table@ == seq![Some(SyscallSlot::UartRead), Some(SyscallSlot::UartWrite)]
    }

    /// The table with the UART read and write services installed.
    pub fn new() -> (r: SyscallTable)
        ensures
            r.wf(),
    {
        let mut table: Vec<Option<SyscallSlot>> = Vec::new();
        table.push(Some(SyscallSlot::UartRead));
        table.push(Some(SyscallSlot::UartWrite));
        proof {
            assert(table@ =~= seq![Some(SyscallSlot::UartRead), Some(SyscallSlot::UartWrite)]);
        }
        SyscallTable { table }
    }

    /// Dispatches one syscall against the UART: an invalid identifier is
    /// rejected; a read hands back the next input byte (zero when input is
    /// exhausted); a write emits the argument's low byte and yields zero.
    pub fn dispatch<U: Uart>(&self, uart: &mut U, id: SyscallID, arg1: u64, arg2: u64) -> (r:
        SyscallResult)
        requires
            self.wf(),
        ensures
            id == SyscallID::Invalid ==> r == Err::<u64, SyscallError>(
                SyscallError::InvalidSyscall,
            ) && final(uart).input() == old(uart).input() && final(uart).output()
                == old(uart).output(),
            id == SyscallID::UartRead ==> final(uart).output() == old(uart).output() && (
            if old(uart).input().len() == 0 {
                r == Ok::<u64, SyscallError>(0) && final(uart).input() == old(uart).input()
            } else {
                r == Ok::<u64, SyscallError>(old(uart).input().first() as u64)
                    && final(uart).input() == old(uart).input().drop_first()
            }),
            id == SyscallID::UartWrite ==> r == Ok::<u64, SyscallError>(0)
                && final(uart).output() == old(uart).output().push((arg1 & 0xFF) as u8)
                && final(uart).input() == old(uart).input(),
    {
        if matches!(id, SyscallID::Invalid) {
            return Err(SyscallError::InvalidSyscall);
        }
        let idx: usize = match id {
            SyscallID::UartRead => 0,
            SyscallID::UartWrite => 1,
            SyscallID::Invalid => 1,
        };
        match self.table[idx] {
            Some(SyscallSlot::UartRead) => sys_uart_read(uart, arg1, arg2),
            Some(SyscallSlot::UartWrite) => sys_uart_write(uart, arg1, arg2),
            None => Err(SyscallError::InvalidSyscall),
        }
    }
}

/// The UART read service: the next input byte as a 64-bit value.
pub fn sys_uart_read<U: Uart>(uart: &mut U, _arg1: u64, _arg2: u64) -> (r: SyscallResult)
    ensures
        final(uart).output() == old(uart).output(),
        old(uart).input().len() == 0 ==> r == Ok::<u64, SyscallError>(0) && final(uart).input()
            == old(uart).input(),
        old(uart).input().len() > 0 ==> r == Ok::<u64, SyscallError>(
            old(uart).input().first() as u64,
        ) && final(uart).input() == old(uart).input().drop_first(),
{
    let byte: u8 = uart.getc();
    Ok(byte as u64)
}

/// The UART write service: emits the first argument's low byte.
pub fn sys_uart_write<U: Uart>(uart: &mut U, byte: u64, _arg2: u64) -> (r: SyscallResult)
    ensures
        r == Ok::<u64, SyscallError>(0),
        final(uart).output() == old(uart).output().push((byte & 0xFF) as u8),
        final(uart).input() == old(uart).input(),
{
    let b: u8 = #[verifier::truncate] (byte as u8);
    proof {
        assert(byte as u8 == (byte & 0xFF) as u8) by (bit_vector);
    }
    uart.putc(b);
    Ok(0)
}

} // verus!

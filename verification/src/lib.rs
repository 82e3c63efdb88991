//! Verified core of a bare-metal Raspberry Pi 3 (BCM2837) kernel: the
//! VideoCore mailbox property protocol, the interrupt subsystem with its
//! domain/channel abstraction, and the small utilities they rest on.

pub mod bcm2837_interrupt;
pub mod bit;
pub mod board_info;
pub mod clock;
pub mod error;
pub mod gpio;
pub mod interrupt_ctrl;
pub mod irq;
pub mod mailbox;
pub mod meta;
pub mod mmio;
pub mod pl011;
pub mod queue;
pub mod stack;
pub mod synchronization;
pub mod syscall;
pub mod timer;
pub mod tty;
pub mod uart;

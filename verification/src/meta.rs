//! Board and CPU metadata: the mailbox-backed board survey and the cache
//! topology decoded from the CPU's identification registers.

pub mod board_info;
pub mod cpu_info;

//! VideoCore firmware mailbox property protocol: fixed-layout messages made
//! of self-describing tags, exchanged with the firmware over a hardware FIFO
//! channel.

pub mod message;
pub mod mock;
pub mod port;
pub mod tag;

pub use message::Message;
pub use message::MessageBuilder;
pub use message::MessageView;
pub use message::ResponseCode;
pub use port::send;

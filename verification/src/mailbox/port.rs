use vstd::prelude::*;

use crate::mailbox::message::Message;

verus! {

// The hardware FIFO channel that carries mailbox messages. A request is
// delivered by writing one word -- the buffer's physical address with the
// channel number in the low four bits -- to the write register; the firmware
// mutates the buffer in place and echoes the same composed word back on the
// read register.

pub const CHANNEL_MASK: u32 = 0xF;

/// Channel 8: ARM-to-VideoCore property tags, the only channel in use.
pub const CHANNEL_ARM_TO_VC: u32 = 0x8;

/// Status bit 31: the write-side FIFO is full.
pub const MAIL_STATUS_FULL: u32 = 0x8000_0000;

/// Status bit 30: the read-side FIFO is empty.
pub const MAIL_STATUS_EMPTY: u32 = 0x4000_0000;

/// The word posted to the write register: the buffer address with the
/// channel selector forced into the low four bits.
pub fn channel_word(buffer_addr: u32) -> (r: u32)
    ensures
        r == (buffer_addr & !0xFu32) | 0x8u32,
{
    buffer_addr & !CHANNEL_MASK | CHANNEL_ARM_TO_VC
}

/// On a 16-byte aligned buffer address the composed word keeps the address
/// intact and carries exactly the channel number in its low bits.
pub proof fn lemma_channel_word_aligned(addr: u32)
    requires
        addr % 16 == 0,
    ensures
        ((addr & !0xFu32) | 0x8u32) & !0xFu32 == addr,
        ((addr & !0xFu32) | 0x8u32) & 0xFu32 == 8,
{
    assert(((addr & !0xFu32) | 0x8u32) & !0xFu32 == addr && ((addr & !0xFu32) | 0x8u32) & 0xFu32
        == 8) by (bit_vector)
        requires
            addr % 16 == 0,
    ;
}

/// One mailbox channel as the send path consumes it: a backend posts the
/// request buffer into the memory the firmware reads, exposes the FIFO's
/// registers, and re-reads the buffer once the firmware has replied.
/// [`crate::mailbox::mock::MockFirmware`] is the in-tree backend; on real
/// hardware the registers sit behind memory-mapped I/O.
///
/// The two ghost measures state the liveness this single-core system relies
/// on: the hardware FIFO is eight entries deep, so only finitely many polls
/// see the write side full, and only finitely many queued words belong to
/// other channels before the firmware's echo of this exchange surfaces.
pub trait MailboxPort {
    /// Polls that will still find the write-side FIFO full.
    spec fn write_busy(&self) -> nat;

    /// Queued read-side words that do not belong to this exchange.
    spec fn foreign_mails(&self) -> nat;

    /// The word the firmware echoes back for the posted exchange.
    spec fn echo(&self) -> u32;

    /// Length in words of the posted buffer. The firmware mutates the buffer
    /// in place, so the exchange leaves its extent unchanged.
    spec fn buffer_len(&self) -> nat;

    /// Places the request buffer where the firmware will read it.
    fn post(&mut self, message: &Message)
        ensures
            final(self).buffer_len() == message@.len(),
    ;

    /// Physical address of the posted buffer. The hardware transmits only
    /// 16-byte aligned addresses: the low four bits carry the channel.
    fn buffer_address(&mut self) -> (r: u32)
        ensures
            r % 16 == 0,
            final(self).buffer_len() == old(self).buffer_len(),
    ;

    /// The mailbox status register.
    fn read_status(&mut self) -> (r: u32)
        ensures
            final(self).write_busy() <= old(self).write_busy(),
            old(self).write_busy() > 0 ==> final(self).write_busy() < old(self).write_busy(),
            old(self).write_busy() == 0 ==> r & 0x8000_0000u32 == 0,
            final(self).buffer_len() == old(self).buffer_len(),
    ;

    /// Writes one word to the ARM-to-VideoCore write register.
    fn write_mail(&mut self, word: u32)
        ensures
            final(self).echo() == word,
            final(self).buffer_len() == old(self).buffer_len(),
    ;

    /// Pops the next word from the read side, blocking while it is empty.
    /// Once the foreign traffic ahead of this exchange has drained, the word
    /// popped is the firmware's echo.
    fn read_mail(&mut self) -> (r: u32)
        ensures
            final(self).echo() == old(self).echo(),
            final(self).foreign_mails() <= old(self).foreign_mails(),
            r == old(self).echo() || final(self).foreign_mails() < old(self).foreign_mails(),
            final(self).buffer_len() == old(self).buffer_len(),
    ;

    /// Re-reads the shared buffer, which the firmware mutates in place.
    fn collect(&mut self) -> (r: Message)
        ensures
            r@.len() == old(self).buffer_len(),
    ;
}

/// Sends a message through the mailbox and hands back the buffer as the
/// firmware left it. Busy-waits until the write side has room, posts the
/// composed channel word, then reads mail until exactly that word comes
/// back: the hardware echoes traffic of unrelated channels too, and only an
/// exact match confirms this message was processed. What the returned buffer
/// holds is the firmware's to decide; the response readers state exactly
/// what each well-formed reply yields.
pub fn send<P: MailboxPort>(port: &mut P, message: Message) -> (r: Message)
    ensures
        r@.len() == message@.len(),
{
    port.post(&message);
    let addr: u32 = port.buffer_address();
    let word: u32 = channel_word(addr);
    let mut can_write: bool = false;
    while !can_write
        invariant
            port.buffer_len() == message@.len(),
        decreases port.write_busy(), (if can_write { 0int } else { 1int }),
    {
        can_write = port.read_status() & MAIL_STATUS_FULL == 0;
    }
    port.write_mail(word);
    let mut confirmed: bool = false;
    while !confirmed
        invariant
            port.echo() == word,
            port.buffer_len() == message@.len(),
        decreases port.foreign_mails(), (if confirmed { 0int } else { 1int }),
    {
        confirmed = port.read_mail() == word;
    }
    port.collect()
}

} // verus!

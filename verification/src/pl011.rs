use vstd::prelude::*;

use crate::gpio;
use crate::mmio::Mmio;
use crate::mmio::MmioOp;
use crate::uart::payload_bytes;
use crate::uart::payload_is_full;
use crate::uart::payload_new;
use crate::uart::payload_push;
use crate::uart::Payload;
use vstd::string::StringSliceAdditionalSpecFns;

verus! {

// The PL011 UART register driver: board bring-up, polled transmit and
// receive, and the receive-interrupt path that drains the FIFO into a
// payload.

pub const PL011_BASE: u64 = 0x0020_1000;

pub const PL011_DR: u64 = PL011_BASE + 0x00;

pub const PL011_FR: u64 = PL011_BASE + 0x18;

pub const PL011_IBRD: u64 = PL011_BASE + 0x24;

pub const PL011_FBRD: u64 = PL011_BASE + 0x28;

pub const PL011_LCRH: u64 = PL011_BASE + 0x2C;

pub const PL011_CR: u64 = PL011_BASE + 0x30;

pub const PL011_IFLS: u64 = PL011_BASE + 0x34;

pub const PL011_IMSC: u64 = PL011_BASE + 0x38;

pub const PL011_RIS: u64 = PL011_BASE + 0x3C;

pub const PL011_MIS: u64 = PL011_BASE + 0x40;

pub const PL011_ICR: u64 = PL011_BASE + 0x44;

// Control register bits.
pub const CR_UARTEN: u32 = 1 << 0;

pub const CR_TXE: u32 = 1 << 8;

pub const CR_RXE: u32 = 1 << 9;

// Line control bits.
pub const LCRH_FEN: u32 = 1 << 4;

pub const LCRH_WLEN_8: u32 = 0b11 << 5;

// Interrupt clear bits, and all of them together.
pub const ICR_RXIC: u32 = 1 << 4;

pub const ICR_ALL: u32 = (1 << 1) | (1 << 4) | (1 << 5) | (1 << 6) | (1 << 7) | (1 << 8) | (1 << 9)
    | (1 << 10);

// Interrupt mask bits: only receive is handled.
pub const IMSC_RXIM: u32 = 1 << 4;

// Flag register bits.
pub const FR_RXFE: u32 = 1 << 4;

pub const FR_TXFF: u32 = 1 << 5;

// Raw interrupt status bits; the reserved mask covers everything the
// hardware does not define.
pub const RIS_RXRIS: u32 = 1 << 4;

pub const RIS_RESERVED: u32 = 0xFFFF_F800 | (1 << 3) | (1 << 2) | (1 << 0);

/// The bytes written to the data register over the course of `ops`, in
/// order: the PL011's transmitted output as the log shows it.
pub open spec fn spec_dr_data(ops: Seq<MmioOp>) -> Seq<u32>
    decreases ops.len(),
{
    if ops.len() == 0 {
        seq![]
    } else {
        let rest = spec_dr_data(ops.drop_last());
        match ops.last() {
            MmioOp::Write(a, v) => if a == PL011_DR {
                rest.push(v)
            } else {
                rest
            },
            MmioOp::Read(a, v) => rest,
        }
    }
}

/// Reads transmit nothing: a log extended by reads only keeps its data
/// writes.
pub proof fn lemma_dr_data_reads_only(pre: Seq<MmioOp>, ops: Seq<MmioOp>)
    requires
        ops.len() >= pre.len(),
        ops.subrange(0, pre.len() as int) == pre,
        forall|j: int| pre.len() <= j < ops.len() ==> (#[trigger] ops[j]) is Read,
    ensures
        spec_dr_data(ops) == spec_dr_data(pre),
    decreases ops.len() - pre.len(),
{
    if ops.len() == pre.len() {
        assert(ops =~= pre);
    } else {
        assert(ops.drop_last().subrange(0, pre.len() as int) =~= ops.subrange(
            0,
            pre.len() as int,
        ));
        lemma_dr_data_reads_only(pre, ops.drop_last());
    }
}

/// Board bring-up for the polled console: pins 14 and 15 to their UART
/// function with pulls disabled, the controller disabled and cleared, FIFOs
/// on with 8-bit words, every interrupt unmasked in the mask register, and
/// the controller enabled for both directions. The contract pins the five
/// controller writes; the pin setup is [`gpio::set_function`] and
/// [`gpio::set_pull_mode`] traffic.
pub fn pl011_init<M: Mmio>(m: &mut M)
    ensures
        ({
            let ops = final(m).ops();
            let n = ops.len() as int;
            &&& ops.len() == old(m).ops().len() + 23
            &&& ops.subrange(0, old(m).ops().len() as int) == old(m).ops()
            &&& ops[n - 5] == MmioOp::Write(PL011_CR, 0)
            &&& ops[n - 4] == MmioOp::Write(PL011_ICR, ICR_ALL)
            &&& ops[n - 3] == MmioOp::Write(PL011_LCRH, LCRH_FEN | LCRH_WLEN_8)
            &&& ops[n - 2] == MmioOp::Write(PL011_IMSC, ICR_ALL)
            &&& ops[n - 1] == MmioOp::Write(PL011_CR, CR_UARTEN | CR_RXE | CR_TXE)
        }),
{
    gpio::set_function(m, (1 << 14) | (1 << 15), gpio::Function::Func0);
    gpio::set_pull_mode(m, (1 << 14) | (1 << 15), gpio::PullMode::Disabled);
    m.write(PL011_CR, 0x00);
    m.write(PL011_ICR, ICR_ALL);
    m.write(PL011_LCRH, LCRH_FEN | LCRH_WLEN_8);
    m.write(PL011_IMSC, ICR_ALL);
    m.write(PL011_CR, CR_UARTEN | CR_RXE | CR_TXE);
    proof {
        assert(m.ops().subrange(0, old(m).ops().len() as int) =~= old(m).ops());
    }
}

/// Board bring-up for the interrupt-driven console: as [`pl011_init`], but
/// with every interrupt masked off until the receive interrupt is chosen.
pub fn controller_setup<M: Mmio>(m: &mut M)
    ensures
        ({
            let ops = final(m).ops();
            let n = ops.len() as int;
            &&& ops.len() == old(m).ops().len() + 23
            &&& ops.subrange(0, old(m).ops().len() as int) == old(m).ops()
            &&& ops[n - 5] == MmioOp::Write(PL011_CR, 0)
            &&& ops[n - 4] == MmioOp::Write(PL011_ICR, ICR_ALL)
            &&& ops[n - 3] == MmioOp::Write(PL011_LCRH, LCRH_FEN | LCRH_WLEN_8)
            &&& ops[n - 2] == MmioOp::Write(PL011_IMSC, 0)
            &&& ops[n - 1] == MmioOp::Write(PL011_CR, CR_UARTEN | CR_RXE | CR_TXE)
        }),
{
    gpio::set_function(m, (1 << 14) | (1 << 15), gpio::Function::Func0);
    gpio::set_pull_mode(m, (1 << 14) | (1 << 15), gpio::PullMode::Disabled);
    m.write(PL011_CR, 0x00);
    m.write(PL011_ICR, ICR_ALL);
    m.write(PL011_LCRH, LCRH_FEN | LCRH_WLEN_8);
    m.write(PL011_IMSC, 0);
    m.write(PL011_CR, CR_UARTEN | CR_RXE | CR_TXE);
    proof {
        assert(m.ops().subrange(0, old(m).ops().len() as int) =~= old(m).ops());
    }
}

/// Selects the receive interrupt in the mask register.
pub fn interrupt_setup<M: Mmio>(m: &mut M)
    ensures
        final(m).ops() == old(m).ops().push(MmioOp::Write(PL011_IMSC, IMSC_RXIM)),
{
    m.write(PL011_IMSC, IMSC_RXIM);
}

/// Reads one byte: waits until the receive FIFO shows data, then reads the
/// data register and keeps its low byte.
pub fn pl011_getc<M: Mmio>(m: &mut M) -> (r: u8)
    ensures
        ({
            let ops = final(m).ops();
            &&& ops.len() >= old(m).ops().len() + 2
            &&& ops.subrange(0, old(m).ops().len() as int) == old(m).ops()
            &&& ops.last() is Read && ops.last()->Read_0 == PL011_DR
            &&& r == ops.last()->Read_1 & 0xFF
            &&& forall|j: int|
                old(m).ops().len() <= j < ops.len() - 1 ==> (#[trigger] ops[j]) is Read
                    && ops[j]->Read_0 == PL011_FR
        }),
{
    let _status: u32 = m.read_until_clear(PL011_FR, FR_RXFE);
    let ghost mid = m.ops();
    let v: u32 = m.read(PL011_DR);
    proof {
        assert(m.ops() == mid.push(MmioOp::Read(PL011_DR, v)));
        assert forall|j: int|
            old(m).ops().len() <= j < m.ops().len() - 1 implies (#[trigger] m.ops()[j]) is Read
            && m.ops()[j]->Read_0 == PL011_FR by {
            assert(m.ops()[j] == mid[j]);
        }
        assert(m.ops().subrange(0, old(m).ops().len() as int) =~= old(m).ops());
        assert(v & 0xFF < 256) by (bit_vector);
    }
    (v & 0xFF) as u8
}

/// Writes one byte: waits until the transmit FIFO has room, then writes the
/// data register.
pub fn pl011_putc<M: Mmio>(m: &mut M, c: u8)
    ensures
        ({
            let ops = final(m).ops();
            &&& ops.len() >= old(m).ops().len() + 2
            &&& ops.subrange(0, old(m).ops().len() as int) == old(m).ops()
            &&& ops.last() == MmioOp::Write(PL011_DR, c as u32)
            &&& spec_dr_data(ops) == spec_dr_data(old(m).ops()).push(c as u32)
            &&& forall|j: int|
                old(m).ops().len() <= j < ops.len() - 1 ==> (#[trigger] ops[j]) is Read
                    && ops[j]->Read_0 == PL011_FR
        }),
{
    let ghost pre = old(m).ops();
    let _status: u32 = m.read_until_clear(PL011_FR, FR_TXFF);
    let ghost mid = m.ops();
    m.write(PL011_DR, c as u32);
    proof {
        assert(m.ops().subrange(0, old(m).ops().len() as int) =~= old(m).ops());
        lemma_dr_data_reads_only(pre, mid);
        assert(m.ops().drop_last() =~= mid);
    }
}

/// Writes a string, byte by byte: the data-register traffic appended is
/// exactly the string's bytes, in order.
pub fn pl011_puts<M: Mmio>(m: &mut M, s: &str)
    ensures
        final(m).ops().len() >= old(m).ops().len(),
        final(m).ops().subrange(0, old(m).ops().len() as int) == old(m).ops(),
        spec_dr_data(final(m).ops()) == spec_dr_data(old(m).ops()) + s.spec_bytes().map_values(
            |b: u8| b as u32,
        ),
{
    let bytes: &[u8] = s.as_bytes();
    let n: usize = bytes.len();
    let mut i: usize = 0;
    while i < n
        invariant
            i <= n,
            n == bytes@.len(),
            bytes@ == s.spec_bytes(),
            m.ops().len() >= old(m).ops().len(),
            m.ops().subrange(0, old(m).ops().len() as int) == old(m).ops(),
            spec_dr_data(m.ops()) == spec_dr_data(old(m).ops()) + bytes@.subrange(
                0,
                i as int,
            ).map_values(|b: u8| b as u32),
        decreases n - i,
    {
        let b: u8 = bytes[i];
        pl011_putc(m, b);
        i += 1;
        proof {
            assert(m.ops().subrange(0, old(m).ops().len() as int) =~= old(m).ops());
            assert(bytes@.subrange(0, i as int).map_values(|x: u8| x as u32) =~= bytes@.subrange(
                0,
                i as int - 1,
            ).map_values(|x: u8| x as u32).push(bytes@[i as int - 1] as u32));
        }
    }
    proof {
        assert(bytes@.subrange(0, n as int) =~= bytes@);
        assert(spec_dr_data(m.ops()) =~= spec_dr_data(old(m).ops()) + s.spec_bytes().map_values(
            |b: u8| b as u32,
        ));
    }
}

/// Drains the receive FIFO into one payload: at most its capacity, stopping
/// as soon as the FIFO shows empty.
pub fn on_rx_fifo<M: Mmio>(m: &mut M) -> (r: Payload)
    ensures
        final(m).ops().len() >= old(m).ops().len(),
        final(m).ops().subrange(0, old(m).ops().len() as int) == old(m).ops(),
        payload_bytes(r).len() <= 16,
{
    let mut payload: Payload = payload_new();
    let mut done: bool = false;
    while !done
        invariant
            payload_bytes(payload).len() <= 16,
            m.ops().subrange(0, old(m).ops().len() as int) == old(m).ops(),
            m.ops().len() >= old(m).ops().len(),
        decreases 16 - payload_bytes(payload).len(), (if done { 0int } else { 1int }),
    {
        if payload_is_full(&payload) {
            done = true;
        } else {
            let fr: u32 = m.read(PL011_FR);
            if fr & FR_RXFE != 0 {
                done = true;
            } else {
                let v: u32 = m.read(PL011_DR);
                payload_push(&mut payload, (v & 0xFF) as u8);
            }
            proof {
                assert(m.ops().subrange(0, old(m).ops().len() as int) =~= old(m).ops());
            }
        }
    }
    payload
}

/// Serves one UART interrupt: reads the masked and raw status, clears and
/// drains a pending receive, and reports any interrupt this driver does not
/// handle -- the caller must treat that as fatal. The payload holds whatever
/// the receive FIFO yielded, possibly nothing.
pub fn handle_irq<M: Mmio>(m: &mut M) -> (r: Result<Payload, u32>)
    ensures
        ({
            let pre = old(m).ops();
            let ops = final(m).ops();
            &&& ops.len() >= pre.len() + 2
            &&& ops.subrange(0, pre.len() as int) == pre
            &&& ops[pre.len() as int] is Read && ops[pre.len() as int]->Read_0 == PL011_MIS
            &&& ops[pre.len() as int + 1] is Read && ops[pre.len() as int + 1]->Read_0 == PL011_RIS
            &&& ({
                let unmasked = !RIS_RESERVED & ops[pre.len() as int]->Read_1 & ops[pre.len() as int
                    + 1]->Read_1;
                &&& (r is Err <==> unmasked != 0 && unmasked != RIS_RXRIS)
                &&& (r matches Err(u) ==> u == unmasked)
                &&& (unmasked == 0 ==> (r matches Ok(p) && payload_bytes(p).len() == 0))
            })
        }),
{
    let ghost pre = old(m).ops();
    let masked_interrupts: u32 = m.read(PL011_MIS);
    let raw_interrupts: u32 = m.read(PL011_RIS);
    let interrupts_unmasked: u32 = !RIS_RESERVED & masked_interrupts & raw_interrupts;
    let ghost after2 = m.ops();
    proof {
        assert(after2[pre.len() as int] == MmioOp::Read(PL011_MIS, masked_interrupts));
        assert(after2[pre.len() as int + 1] == MmioOp::Read(PL011_RIS, raw_interrupts));
        assert(after2.subrange(0, pre.len() as int) =~= pre);
    }
    if interrupts_unmasked == 0 {
        let empty: Payload = payload_new();
        return Ok(empty);
    }
    let mut payload: Payload = payload_new();
    if interrupts_unmasked & RIS_RXRIS > 0 {
        // Clear first, then pull whatever the FIFO holds.
        m.write(PL011_ICR, ICR_RXIC);
        let ghost afterw = m.ops();
        payload = on_rx_fifo(m);
        proof {
            assert(m.ops().subrange(0, afterw.len() as int) == afterw);
            assert forall|j: int| 0 <= j < after2.len() implies #[trigger] m.ops()[j]
                == after2[j] by {
                assert(m.ops().subrange(0, afterw.len() as int)[j] == m.ops()[j]);
                assert(afterw[j] == after2[j]);
            }
            assert(m.ops().subrange(0, after2.len() as int) =~= after2);
            assert(m.ops().subrange(0, pre.len() as int) =~= pre);
        }
    }
    if interrupts_unmasked != RIS_RXRIS {
        return Err(interrupts_unmasked);
    }
    Ok(payload)
}

} // verus!

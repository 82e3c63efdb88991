use vstd::prelude::*;

use crate::bcm2837_interrupt::mask_interrupt;
use crate::bcm2837_interrupt::spec_mask_op;
use crate::bcm2837_interrupt::spec_unmask_op;
use crate::bcm2837_interrupt::spec_valid_channel;
use crate::bcm2837_interrupt::unmask_interrupt;
use crate::error::ErrorKind;
use crate::irq::IrqChannel;
use crate::mmio::Mmio;
use crate::mmio::MmioOp;

verus! {

// The one-shot timer over the system timer's compare channel 1: at most one
// callback is pending at a time; arming a second while one waits is
// rejected, never silently overwritten.

pub const ST_BASE: u64 = 0x3000;

/// Control/status: writing a one to a match bit clears it and its interrupt.
pub const ST_CS: u64 = ST_BASE + 0x00;

/// Free-running counter, low word.
pub const ST_CLO: u64 = ST_BASE + 0x4;

/// Free-running counter, high word.
pub const ST_CHI: u64 = ST_BASE + 0x8;

/// Compare register of channel 1.
pub const ST_C1: u64 = ST_BASE + 0x10;

/// Match status bit of channel 1.
pub const ST_CS_M1: u32 = 1 << 1;

/// The one-shot timer: the interrupt channel it is wired to, and the pending
/// callback, if one waits.
pub struct Timer<F> {
    irq_channel: IrqChannel,
    callback: Option<F>,
}

impl<F: Fn() -> ()> Timer<F> {
    /// The channel this timer interrupts on.
    pub closed spec fn spec_channel(&self) -> IrqChannel {
        self.irq_channel
    }

    /// The callback waiting to fire, if any.
    pub closed spec fn spec_callback(&self) -> Option<F> {
        self.callback
    }

    /// Whether a callback is pending.
    pub open spec fn pending(&self) -> bool {
        self.spec_callback() is Some
    }

    /// The channel is one the controller wires, and a pending callback may
    /// be called.
    pub open spec fn wf(&self) -> bool {
        &&& spec_valid_channel(self.spec_channel())
        &&& (self.spec_callback() matches Some(cb) ==> call_requires(cb, ()))
    }

    /// A disarmed timer on the given interrupt channel.
    pub fn initialize(irq_channel: IrqChannel) -> (r: Timer<F>)
        requires
            spec_valid_channel(irq_channel),
        ensures
            r.wf(),
            !r.pending(),
            r.spec_channel() == irq_channel,
    {
        Timer { irq_channel, callback: None }
    }

    /// Arms the timer `jiffies` counter ticks from now, unless a callback is
    /// already pending: then nothing changes and the caller hears
    /// `ResourceBusy`. Arming masks the channel, reads the free-running
    /// counter, programs the compare register (the counter wraps, so the sum
    /// is taken modulo its width), and unmasks again.
    pub fn set_timer<M: Mmio>(&mut self, m: &mut M, jiffies: u32, callback: F) -> (r: Result<
        (),
        ErrorKind,
    >)
        requires
            old(self).wf(),
            call_requires(callback, ()),
        ensures
            final(self).wf(),
            final(self).spec_channel() == old(self).spec_channel(),
            old(self).pending() ==> r == Err::<(), ErrorKind>(ErrorKind::ResourceBusy)
                && final(self).spec_callback() == old(self).spec_callback()
                && final(m).ops() == old(m).ops(),
            !old(self).pending() ==> r == Ok::<(), ErrorKind>(()) && final(self).pending() && ({
                let pre = old(m).ops();
                let ops = final(m).ops();
                let n = pre.len() as int;
                &&& ops.len() == pre.len() + 4
                &&& ops.subrange(0, n) == pre
                &&& ops[n] == spec_mask_op(old(self).spec_channel())
                &&& ops[n + 1] is Read && ops[n + 1]->Read_0 == ST_CLO
                &&& ops[n + 2] == MmioOp::Write(ST_C1, ((ops[n + 1]->Read_1 + jiffies) as u32))
                &&& ops[n + 3] == spec_unmask_op(old(self).spec_channel())
            }),
    {
        if self.callback.is_some() {
            return Err(ErrorKind::ResourceBusy);
        }
        self.callback = Some(callback);
        mask_interrupt(m, self.irq_channel);
        let current_counter: u32 = m.read(ST_CLO);
        let deadline: u32 = #[verifier::truncate] ((current_counter as u64 + jiffies as u64)
            as u32);
        proof {
            assert(((current_counter as u64 + jiffies as u64) as u64) as u32 == ((current_counter
                + jiffies) as u32)) by (bit_vector);
        }
        m.write(ST_C1, deadline);
        unmask_interrupt(m, self.irq_channel);
        proof {
            assert(m.ops().subrange(0, old(m).ops().len() as int) =~= old(m).ops());
        }
        Ok(())
    }

    /// Serves the timer interrupt: masks the channel, acknowledges the match
    /// bit, and runs the pending callback, disarming first so the timer can
    /// be armed again. Serving with nothing pending is an initialisation
    /// bug, excluded by precondition.
    pub fn handle_irq<M: Mmio>(&mut self, m: &mut M)
        requires
            old(self).wf(),
            old(self).pending(),
        ensures
            final(self).wf(),
            !final(self).pending(),
            final(self).spec_channel() == old(self).spec_channel(),
            ({
                let pre = old(m).ops();
                let ops = final(m).ops();
                let n = pre.len() as int;
                &&& ops.len() == pre.len() + 2
                &&& ops.subrange(0, n) == pre
                &&& ops[n] == spec_mask_op(old(self).spec_channel())
                &&& ops[n + 1] == MmioOp::Write(ST_CS, ST_CS_M1)
            }),
    {
        mask_interrupt(m, self.irq_channel);
        m.write(ST_CS, ST_CS_M1);
        self.do_callback();
        proof {
            assert(m.ops().subrange(0, old(m).ops().len() as int) =~= old(m).ops());
        }
    }

    /// Disarms the timer and runs the callback that was pending: cleared
    /// first, then executed, so the system is ready for a new one-shot the
    /// moment the callback runs.
    pub fn do_callback(&mut self)
        requires
            old(self).wf(),
            old(self).pending(),
        ensures
            final(self).wf(),
            !final(self).pending(),
            final(self).spec_channel() == old(self).spec_channel(),
    {
        let taken: Option<F> = self.callback.take();
        match taken {
            Some(callback) => {
                callback();
            },
            None => {
                proof {
                    assert(false);
                }
            },
        }
    }
}

} // verus!

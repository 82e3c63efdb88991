use vstd::prelude::*;

verus! {

// An "IRQ domain" is a group of interrupt sources sharing one numbering
// space; a controller can expose several. The pair of a domain and a number
// -- an "IRQ channel" -- identifies one interrupt source. Handlers are bound
// to channels in a bounded, append-only table; registration happens before
// interrupts are enabled and never races with dispatch.

/// The handler table's capacity.
pub const HANDLER_CAPACITY: usize = 128;

/// An opaque identity naming one interrupt domain. Domains are allocated once
/// at initialisation and distinguished by identity, never by arithmetic.
#[derive(Clone, Copy, Debug, PartialEq, Eq, Structural)]
pub struct IrqDomain(u8);

impl IrqDomain {
    /// The domain's identity.
    pub closed spec fn spec_get(&self) -> u8 {
        self.0
    }

    /// The domain value with identity `id`; [`Self::allocate`] returns it.
    pub closed spec fn spec_new(id: u8) -> IrqDomain {
        IrqDomain(id)
    }

    /// Distinct identities make distinct domains, and a domain keeps its
    /// identity.
    pub proof fn lemma_spec_new(a: u8, b: u8)
        ensures
            IrqDomain::spec_new(a).spec_get() == a,
            (IrqDomain::spec_new(a) == IrqDomain::spec_new(b)) <==> a == b,
    {
    }

    /// Allocates the domain with the given identity; the crate's controller
    /// backends hand out the domains they own.
    pub(crate) fn allocate(id: u8) -> (r: IrqDomain)
        ensures
            r.spec_get() == id,
            r == IrqDomain::spec_new(id),
    {
        IrqDomain(id)
    }

    /// The domain's identity.
    pub fn get(&self) -> (r: u8)
        ensures
            r == self.spec_get(),
    {
        self.0
    }
}

/// One interrupt source: a domain and a number within it.
#[derive(Clone, Copy, Debug, PartialEq, Eq, Structural)]
pub struct IrqChannel {
    pub domain: IrqDomain,
    pub number: u32,
}

/// One handler binding: the channel it serves and the zero-argument handler
/// to run when that channel is pending.
pub struct HandlerMeta<F> {
    pub channel: IrqChannel,
    pub handler: F,
}

/// The channels bound by a handler table, in registration order.
pub open spec fn spec_channels<F>(handlers: Seq<HandlerMeta<F>>) -> Seq<IrqChannel> {
    handlers.map_values(|m: HandlerMeta<F>| m.channel)
}

/// Whether some binding in `channels` serves `ch`.
pub open spec fn spec_has_handler(channels: Seq<IrqChannel>, ch: IrqChannel) -> bool {
    exists|i: int| 0 <= i < channels.len() && channels[i] == ch
}

/// The append-only handler table: registrations bind a channel to a handler,
/// and dispatch scans in registration order, so the first registration for a
/// channel is the one that serves it.
pub struct IrqRegistry<F> {
    handlers: Vec<HandlerMeta<F>>,
}

impl<F: Fn() -> ()> IrqRegistry<F> {
    /// The registered bindings, oldest first.
    pub closed spec fn spec_handlers(&self) -> Seq<HandlerMeta<F>> {
        self.handlers@
    }

    /// The registered channels, oldest first.
    pub open spec fn channels(&self) -> Seq<IrqChannel> {
        spec_channels(self.spec_handlers())
    }

    /// The table is within capacity and every registered handler may be
    /// called.
    pub open spec fn wf(&self) -> bool {
        &&& self.spec_handlers().len() <= HANDLER_CAPACITY
        &&& forall|i: int|
            0 <= i < self.spec_handlers().len() ==> call_requires(
                #[trigger] self.spec_handlers()[i].handler,
                (),
            )
    }

    /// An empty table.
    pub fn new() -> (r: IrqRegistry<F>)
        ensures
            r.wf(),
            r.spec_handlers() == Seq::<HandlerMeta<F>>::empty(),
    {
        IrqRegistry { handlers: Vec::new() }
    }

    /// How many handlers are registered.
    pub fn len(&self) -> (r: usize)
        ensures
            r == self.spec_handlers().len(),
    {
        self.handlers.len()
    }

    /// Appends one binding. Exhausting the table's capacity is an
    /// initialisation bug, excluded by precondition.
    pub fn set_handler(&mut self, channel: IrqChannel, handler: F)
        requires
            old(self).wf(),
            old(self).spec_handlers().len() < HANDLER_CAPACITY,
            call_requires(handler, ()),
        ensures
            final(self).wf(),
            final(self).spec_handlers() == old(self).spec_handlers().push(
                HandlerMeta { channel, handler },
            ),
            final(self).channels() == old(self).channels().push(channel),
    {
        self.handlers.push(HandlerMeta { channel, handler });
        proof {
            assert(self.channels() =~= old(self).channels().push(channel));
        }
    }

    /// A copy of the registered channels, in registration order.
    pub fn channel_list(&self) -> (r: Vec<IrqChannel>)
        ensures
            r@ == self.channels(),
    {
        let mut out: Vec<IrqChannel> = Vec::new();
        let mut i: usize = 0;
        while i < self.handlers.len()
            invariant
                i <= self.spec_handlers().len(),
                out@ == self.channels().subrange(0, i as int),
            decreases self.spec_handlers().len() - i,
        {
            out.push(self.handlers[i].channel);
            i += 1;
            proof {
                assert(self.channels().subrange(0, i as int) =~= self.channels().subrange(
                    0,
                    i as int - 1,
                ).push(self.channels()[i as int - 1]));
            }
        }
        proof {
            assert(self.channels().subrange(0, self.channels().len() as int) =~= self.channels());
        }
        out
    }

    /// Runs the first handler registered for `channel`, and reports whether
    /// one was found: an enabled interrupt with no handler is a configuration
    /// fault the dispatcher must not pass over.
    pub fn handle(&self, channel: IrqChannel) -> (r: bool)
        requires
            self.wf(),
        ensures
            r == spec_has_handler(self.channels(), channel),
    {
        let mut i: usize = 0;
        while i < self.handlers.len()
            invariant
                self.wf(),
                i <= self.spec_handlers().len(),
                forall|j: int| 0 <= j < i ==> self.channels()[j] != channel,
            decreases self.spec_handlers().len() - i,
        {
            let meta = &self.handlers[i];
            if meta.channel == channel {
                proof {
                    assert(self.channels()[i as int] == channel);
                    assert(call_requires(self.spec_handlers()[i as int].handler, ()));
                }
                (meta.handler)();
                return true;
            }
            proof {
                assert(self.channels()[i as int] == self.spec_handlers()[i as int].channel);
            }
            i += 1;
        }
        proof {
            assert(!spec_has_handler(self.channels(), channel));
        }
        false
    }
}

} // verus!

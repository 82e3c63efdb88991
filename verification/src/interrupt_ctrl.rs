use vstd::prelude::*;

verus! {

// A small typed interrupt controller: two interrupt types, one optional
// handler slot each, and a global enable flag. Registration is
// first-come-only; dispatch runs the registered handler when interrupts are
// enabled and quietly succeeds when they are not.

/// The interrupt types this controller distinguishes.
#[derive(Clone, Copy, Debug, PartialEq, Eq, Structural)]
pub enum InterruptType {
    Timer,
    Uart,
    Unknown,
}

impl InterruptType {
    /// The interrupt type a raw code names; every unassigned code maps to
    /// `Unknown`.
    pub fn try_from(value: u32) -> (r: Result<InterruptType, ()>)
        ensures
            r == Ok::<InterruptType, ()>(spec_interrupt_type_of(value)),
    {
        match value {
            0 => Ok(InterruptType::Timer),
            1 => Ok(InterruptType::Uart),
            _ => Ok(InterruptType::Unknown),
        }
    }
}

/// The interrupt type a raw code names.
pub open spec fn spec_interrupt_type_of(value: u32) -> InterruptType {
    if value == 0 {
        InterruptType::Timer
    } else if value == 1 {
        InterruptType::Uart
    } else {
        InterruptType::Unknown
    }
}

/// The handler slot a known interrupt type occupies.
pub open spec fn spec_interrupt_index(t: InterruptType) -> int {
    match t {
        InterruptType::Timer => 0,
        InterruptType::Uart => 1,
        InterruptType::Unknown => 2,
    }
}

#[derive(Debug, PartialEq, Eq, Structural)]
pub enum InterruptError {
    InvalidHandler,
    HandlerExists,
    UnknownInterrupt,
}

pub type InterruptResult = Result<(), InterruptError>;

/// The controller: one optional handler per known interrupt type, and a
/// global enable flag, off at construction.
pub struct InterruptController<H> {
    handlers: Vec<Option<H>>,
    interrupts_enabled: bool,
}

impl<H: Fn() -> InterruptResult> InterruptController<H> {
    /// The handler slots, one per known interrupt type.
    pub closed spec fn spec_handlers(&self) -> Seq<Option<H>> {
        self.handlers@
    }

    /// Whether interrupts are enabled.
    pub closed spec fn spec_enabled(&self) -> bool {
        self.interrupts_enabled
    }

    /// One slot per known type, every registered handler callable.
    pub open spec fn wf(&self) -> bool {
        &&& self.spec_handlers().len() == 2
        &&& forall|i: int|
            0 <= i < 2 ==> (#[trigger] self.spec_handlers()[i] matches Some(h) ==> call_requires(
                h,
                (),
            ))
    }

    /// A controller with no handlers and interrupts disabled.
    pub fn new() -> (r: InterruptController<H>)
        ensures
            r.wf(),
            r.spec_handlers() == seq![Option::<H>::None, Option::<H>::None],
            !r.spec_enabled(),
    {
        let mut handlers: Vec<Option<H>> = Vec::new();
        handlers.push(None);
        handlers.push(None);
        proof {
            assert(handlers@ =~= seq![Option::<H>::None, Option::<H>::None]);
        }
        InterruptController { handlers, interrupts_enabled: false }
    }

    /// Registers a handler for an interrupt type: rejected for `Unknown` and
    /// for a slot already taken, so the first registration wins.
    pub fn register_handler(&mut self, int_type: InterruptType, handler: H) -> (r: InterruptResult)
        requires
            old(self).wf(),
            call_requires(handler, ()),
        ensures
            final(self).wf(),
            final(self).spec_enabled() == old(self).spec_enabled(),
            ({
                let idx = spec_interrupt_index(int_type);
                if int_type == InterruptType::Unknown {
                    r == Err::<(), InterruptError>(InterruptError::UnknownInterrupt)
                        && final(self).spec_handlers() == old(self).spec_handlers()
                } else if old(self).spec_handlers()[idx] is Some {
                    r == Err::<(), InterruptError>(InterruptError::HandlerExists)
                        && final(self).spec_handlers() == old(self).spec_handlers()
                } else {
                    r == Ok::<(), InterruptError>(())
                        && final(self).spec_handlers()
                        == old(self).spec_handlers().update(idx, Some(handler))
                }
            }),
    {
        if matches!(int_type, InterruptType::Unknown) {
            return Err(InterruptError::UnknownInterrupt);
        }
        let idx: usize = match int_type {
            InterruptType::Timer => 0,
            InterruptType::Uart => 1,
            InterruptType::Unknown => 1,
        };
        if self.handlers[idx].is_some() {
            return Err(InterruptError::HandlerExists);
        }
        self.handlers[idx] = Some(handler);
        Ok(())
    }

    /// Dispatches one interrupt: quietly succeeds while interrupts are
    /// disabled or the slot is empty, rejects `Unknown`, and otherwise runs
    /// the registered handler and hands back its result.
    pub fn handle_interrupt(&self, int_type: InterruptType) -> (r: InterruptResult)
        requires
            self.wf(),
        ensures
            ({
                let idx = spec_interrupt_index(int_type);
                if !self.spec_enabled() {
                    r == Ok::<(), InterruptError>(())
                } else if int_type == InterruptType::Unknown {
                    r == Err::<(), InterruptError>(InterruptError::UnknownInterrupt)
                } else {
                    match self.spec_handlers()[idx] {
                        Some(h) => call_ensures(h, (), r),
                        None => r == Ok::<(), InterruptError>(()),
                    }
                }
            }),
    {
        if !self.interrupts_enabled {
            return Ok(());
        }
        if matches!(int_type, InterruptType::Unknown) {
            return Err(InterruptError::UnknownInterrupt);
        }
        let idx: usize = match int_type {
            InterruptType::Timer => 0,
            InterruptType::Uart => 1,
            InterruptType::Unknown => 1,
        };
        match &self.handlers[idx] {
            Some(handler) => handler(),
            None => Ok(()),
        }
    }

    /// Enables interrupts globally.
    pub fn enable_interrupts(&mut self)
        requires
            old(self).wf(),
        ensures
            final(self).wf(),
            final(self).spec_enabled(),
            final(self).spec_handlers() == old(self).spec_handlers(),
    {
        self.interrupts_enabled = true;
    }

    /// Disables interrupts globally.
    pub fn disable_interrupts(&mut self)
        requires
            old(self).wf(),
        ensures
            final(self).wf(),
            !final(self).spec_enabled(),
            final(self).spec_handlers() == old(self).spec_handlers(),
    {
        self.interrupts_enabled = false;
    }

    /// Whether interrupts are enabled.
    pub fn are_interrupts_enabled(&self) -> (r: bool)
        ensures
            r == self.spec_enabled(),
    {
        self.interrupts_enabled
    }
}

/// The stock timer handler: nothing to do yet.
pub fn timer_handler() -> (r: InterruptResult)
    ensures
        r == Ok::<(), InterruptError>(()),
{
    Ok(())
}

/// The stock UART handler: nothing to do yet.
pub fn uart_handler() -> (r: InterruptResult)
    ensures
        r == Ok::<(), InterruptError>(()),
{
    Ok(())
}

} // verus!

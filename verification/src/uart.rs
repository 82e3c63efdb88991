use vstd::prelude::*;
use vstd::string::StringSliceAdditionalSpecFns;

verus! {

// The UART capability: a byte-stream backend behind a small interface, with
// an in-tree mock for tests and diagnostics. The interrupt-driven receive
// path hands payloads over in a fixed-capacity vector.

/// Capacity of one receive payload, in bytes.
pub const PAYLOAD_SIZE: usize = 16;

/// A received chunk of input: up to [`PAYLOAD_SIZE`] bytes pulled out of the
/// receive FIFO in one interrupt.
pub type Payload = arrayvec::ArrayVec<u8, 16>;

#[verifier::external_type_specification]
#[verifier::external_body]
#[verifier::reject_recursive_types(T)]
pub struct ExArrayVec<T, const CAP: usize>(arrayvec::ArrayVec<T, CAP>);

/// The bytes a payload holds, in order.
pub uninterp spec fn payload_bytes(p: Payload) -> Seq<u8>;

/// Relies on `arrayvec::ArrayVec::new`: a fresh vector holds nothing.
#[verifier::external_body]
pub(crate) fn payload_new() -> (r: Payload)
    ensures
        payload_bytes(r) == Seq::<u8>::empty(),
{
    arrayvec::ArrayVec::new()
}

/// Relies on `arrayvec::ArrayVec::push`: appends the element; panics only
/// on a full vector, which the precondition excludes.
#[verifier::external_body]
pub(crate) fn payload_push(p: &mut Payload, b: u8)
    requires
        payload_bytes(*old(p)).len() < 16,
    ensures
        payload_bytes(*final(p)) == payload_bytes(*old(p)).push(b),
{
    p.push(b);
}

/// Relies on `arrayvec::ArrayVec::len`: the number of held elements.
#[verifier::external_body]
pub(crate) fn payload_len(p: &Payload) -> (r: usize)
    ensures
        r == payload_bytes(*p).len(),
{
    p.len()
}

/// Relies on `arrayvec::ArrayVec::is_full`: full exactly at capacity.
#[verifier::external_body]
pub(crate) fn payload_is_full(p: &Payload) -> (r: bool)
    ensures
        r == (payload_bytes(*p).len() == 16),
{
    p.is_full()
}

/// Relies on `arrayvec::ArrayVec::is_empty`: empty exactly at length zero.
#[verifier::external_body]
pub(crate) fn payload_is_empty(p: &Payload) -> (r: bool)
    ensures
        r == (payload_bytes(*p).len() == 0),
{
    p.is_empty()
}

/// Relies on `arrayvec::ArrayVec::as_slice`: the held elements in order.
#[verifier::external_body]
pub(crate) fn payload_get(p: &Payload, i: usize) -> (r: u8)
    requires
        i < payload_bytes(*p).len(),
    ensures
        r == payload_bytes(*p)[i as int],
{
    p.as_slice()[i]
}

/// A UART backend: a source of input bytes and a sink of output bytes.
/// [`MockUart`] is the in-tree backend; the PL011 register driver lives in
/// [`crate::pl011`], behind memory-mapped I/O.
pub trait Uart {
    /// The input bytes still to be read.
    spec fn input(&self) -> Seq<u8>;

    /// The output bytes written so far.
    spec fn output(&self) -> Seq<u8>;

    /// Reads one byte: the next input byte, or zero when the input is
    /// exhausted.
    fn getc(&mut self) -> (r: u8)
        ensures
            old(self).input().len() == 0 ==> r == 0 && final(self).input() == old(self).input(),
            old(self).input().len() > 0 ==> r == old(self).input().first() && final(self).input()
                == old(self).input().drop_first(),
            final(self).output() == old(self).output(),
    ;

    /// Writes one byte.
    fn putc(&mut self, ch: u8)
        ensures
            final(self).output() == old(self).output().push(ch),
            final(self).input() == old(self).input(),
    ;
}

/// Writes a string, byte by byte.
pub fn puts<U: Uart>(u: &mut U, s: &str)
    ensures
        final(u).output() == old(u).output() + s.spec_bytes(),
        final(u).input() == old(u).input(),
{
    let bytes: &[u8] = s.as_bytes();
    let n: usize = bytes.len();
    let mut i: usize = 0;
    while i < n
        invariant
            i <= n,
            n == bytes@.len(),
            bytes@ == s.spec_bytes(),
            u.output() == old(u).output() + bytes@.subrange(0, i as int),
            u.input() == old(u).input(),
        decreases n - i,
    {
        let b: u8 = bytes[i];
        u.putc(b);
        i += 1;
        proof {
            assert(bytes@.subrange(0, i as int) =~= bytes@.subrange(0, i as int - 1).push(
                bytes@[i as int - 1],
            ));
        }
    }
    proof {
        assert(bytes@.subrange(0, n as int) =~= bytes@);
    }
}

/// Echoes one received payload back out through the UART: the interrupt
/// test's receive callback.
pub fn uart_on_receive<U: Uart>(u: &mut U, payload: &Payload)
    ensures
        final(u).output() == old(u).output() + payload_bytes(*payload),
        final(u).input() == old(u).input(),
{
    let n: usize = payload_len(payload);
    let mut i: usize = 0;
    while i < n
        invariant
            i <= n,
            n == payload_bytes(*payload).len(),
            u.output() == old(u).output() + payload_bytes(*payload).subrange(0, i as int),
            u.input() == old(u).input(),
        decreases n - i,
    {
        let b: u8 = payload_get(payload, i);
        u.putc(b);
        i += 1;
        proof {
            assert(payload_bytes(*payload).subrange(0, i as int) =~= payload_bytes(
                *payload,
            ).subrange(0, i as int - 1).push(payload_bytes(*payload)[i as int - 1]));
        }
    }
    proof {
        assert(payload_bytes(*payload).subrange(0, n as int) =~= payload_bytes(*payload));
    }
}

/// The mock UART backend: input preloaded by a test, output collected for a
/// test to inspect. Reading past the preloaded input yields zero, as a real
/// line with nothing to say would never return.
pub struct MockUart {
    input: Vec<u8>,
    output: Vec<u8>,
}

impl MockUart {
    /// A mock with no input and no output.
    pub fn setup() -> (r: MockUart)
        ensures
            r.input() == Seq::<u8>::empty(),
            r.output() == Seq::<u8>::empty(),
    {
        MockUart { input: Vec::new(), output: Vec::new() }
    }

    /// Replaces the pending input with the bytes of `input`.
    pub fn set_mock_input(&mut self, input: &str)
        ensures
            final(self).input() == input.spec_bytes(),
            final(self).output() == old(self).output(),
    {
        let bytes: &[u8] = input.as_bytes();
        let n: usize = bytes.len();
        let mut rev: Vec<u8> = Vec::new();
        let mut i: usize = n;
        while i > 0
            invariant
                i <= n,
                n == bytes@.len(),
                rev@ == bytes@.subrange(i as int, n as int).reverse(),
            decreases i,
        {
            i -= 1;
            rev.push(bytes[i]);
            proof {
                assert(rev@ =~= bytes@.subrange(i as int, n as int).reverse());
            }
        }
        proof {
            assert(rev@ =~= bytes@.reverse());
        }
        self.input = rev;
        proof {
            assert(self.input@.reverse() =~= bytes@);
        }
    }

    /// The output written so far.
    pub fn get_output(&self) -> (r: Vec<u8>)
        ensures
            r@ == self.output(),
    {
        let mut out: Vec<u8> = Vec::new();
        let mut i: usize = 0;
        while i < self.output.len()
            invariant
                i <= self.output@.len(),
                out@ == self.output@.subrange(0, i as int),
            decreases self.output@.len() - i,
        {
            out.push(self.output[i]);
            i += 1;
            proof {
                assert(self.output@.subrange(0, i as int) =~= self.output@.subrange(
                    0,
                    i as int - 1,
                ).push(self.output@[i as int - 1]));
            }
        }
        proof {
            assert(self.output@.subrange(0, self.output@.len() as int) =~= self.output@);
        }
        out
    }

    /// Reads one byte, as [`Uart::getc`] of this mock.
    pub fn mock_getc(&mut self) -> (r: u8)
        ensures
            old(self).input().len() == 0 ==> r == 0 && final(self).input() == old(self).input(),
            old(self).input().len() > 0 ==> r == old(self).input().first() && final(self).input()
                == old(self).input().drop_first(),
            final(self).output() == old(self).output(),
    {
        let popped: Option<u8> = self.input.pop();
        match popped {
            Some(b) => {
                proof {
                    assert(b == old(self).input@.last());
                    assert(old(self).input@.reverse().first() == old(self).input@.last());
                    assert(self.input@.reverse() =~= old(self).input@.reverse().drop_first());
                }
                b
            },
            None => 0,
        }
    }

    /// Writes one byte, as [`Uart::putc`] of this mock.
    pub fn mock_putc(&mut self, c: u8)
        ensures
            final(self).output() == old(self).output().push(c),
            final(self).input() == old(self).input(),
    {
        self.output.push(c);
    }
}

impl Uart for MockUart {
    closed spec fn input(&self) -> Seq<u8> {
        self.input@.reverse()
    }

    closed spec fn output(&self) -> Seq<u8> {
        self.output@
    }

    fn getc(&mut self) -> (r: u8) {
        self.mock_getc()
    }

    fn putc(&mut self, ch: u8) {
        self.mock_putc(ch);
    }
}

} // verus!

use vstd::prelude::*;
use vstd::string::StringSliceAdditionalSpecFns;

use crate::uart::MockUart;

verus! {

// The TTY line layer: buffered output over a raw character stream, and line
// input with echo, backspace editing and control-C cancellation.

pub const INPUT_BUFFER_SIZE: usize = 256;

pub const OUTPUT_BUFFER_SIZE: usize = 256;

pub const BACKSPACE: u8 = 0x08;

pub const CARRIAGE_RETURN: u8 = 0x0D;

pub const LINE_FEED: u8 = 0x0A;

pub const CTRL_C: u8 = 0x03;

pub const DELETE: u8 = 0x7F;

#[derive(Debug, PartialEq, Eq, Structural)]
pub enum TtyError {
    WriteError,
    ReadError,
}

/// The raw character stream a TTY sits on: one byte in, one byte out.
/// [`crate::uart::MockUart`] implements it for tests; on hardware the PL011
/// driver plays this role.
pub trait TtyStream {
    /// The input bytes still to be read.
    spec fn input(&self) -> Seq<u8>;

    /// The output bytes written so far.
    spec fn output(&self) -> Seq<u8>;

    /// Reads one byte: the next input byte, or zero when input is exhausted.
    fn read_char(&mut self) -> (r: u8)
        ensures
            old(self).input().len() == 0 ==> r == 0 && final(self).input() == old(self).input(),
            old(self).input().len() > 0 ==> r == old(self).input().first() && final(self).input()
                == old(self).input().drop_first(),
            final(self).output() == old(self).output(),
    ;

    /// Writes one byte.
    fn write_char(&mut self, ch: u8)
        ensures
            final(self).output() == old(self).output().push(ch),
            final(self).input() == old(self).input(),
    ;
}

impl TtyStream for MockUart {
    closed spec fn input(&self) -> Seq<u8> {
        crate::uart::Uart::input(self)
    }

    closed spec fn output(&self) -> Seq<u8> {
        crate::uart::Uart::output(self)
    }

    fn read_char(&mut self) -> (r: u8) {
        self.mock_getc()
    }

    fn write_char(&mut self, ch: u8) {
        self.mock_putc(ch);
    }
}

/// The line a stream of raw input resolves to, and the input left after it:
/// a line feed finishes the line; control-C, or input running dry, cancels
/// it; backspace and delete take back the last held byte; bytes beyond the
/// line buffer's capacity are dropped.
pub open spec fn spec_line_result(input: Seq<u8>, acc: Seq<u8>) -> (Option<Seq<u8>>, Seq<u8>)
    decreases input.len(),
{
    if input.len() == 0 {
        (None, input)
    } else {
        let c = input.first();
        let rest = input.drop_first();
        if c == 0 || c == CTRL_C {
            (None, rest)
        } else if c == LINE_FEED {
            (Some(acc), rest)
        } else if c == BACKSPACE || c == DELETE {
            spec_line_result(rest, if acc.len() > 0 {
                acc.drop_last()
            } else {
                acc
            })
        } else if acc.len() >= INPUT_BUFFER_SIZE {
            spec_line_result(rest, acc)
        } else {
            spec_line_result(rest, acc.push(c))
        }
    }
}

/// The bytes line input echoes while resolving: each held byte and the
/// closing line feed as themselves, each effective backspace as one
/// backspace; nothing when echo is off.
pub open spec fn spec_line_echo(input: Seq<u8>, acc_len: int, echo: bool) -> Seq<u8>
    decreases input.len(),
{
    if !echo || input.len() == 0 {
        seq![]
    } else {
        let c = input.first();
        let rest = input.drop_first();
        if c == 0 || c == CTRL_C {
            seq![]
        } else if c == LINE_FEED {
            seq![c]
        } else if c == BACKSPACE || c == DELETE {
            if acc_len > 0 {
                seq![BACKSPACE] + spec_line_echo(rest, acc_len - 1, echo)
            } else {
                spec_line_echo(rest, acc_len, echo)
            }
        } else if acc_len >= INPUT_BUFFER_SIZE {
            spec_line_echo(rest, acc_len, echo)
        } else {
            seq![c] + spec_line_echo(rest, acc_len + 1, echo)
        }
    }
}

/// Relies on `String::push`: appends one character to the string.
#[verifier::external_body]
fn string_push(s: &mut String, c: char)
    ensures
        final(s)@ == old(s)@.push(c),
{
    s.push(c);
}

/// The TTY: a raw stream, a buffered output stage, and the echo switch.
pub struct Tty<S> {
    pub stream_impl: S,
    pub output_buffer: Vec<u8>,
    pub echo_enabled: bool,
}

impl<S: TtyStream> Tty<S> {
    /// The bytes buffered but not yet flushed to the stream.
    pub open spec fn buffered(&self) -> Seq<u8> {
        self.output_buffer@
    }

    /// Whether input is echoed.
    pub open spec fn echo(&self) -> bool {
        self.echo_enabled
    }

    /// Everything written through this TTY: the stream's output plus the
    /// bytes still buffered.
    pub open spec fn total_output(&self) -> Seq<u8> {
        self.stream_impl.output() + self.buffered()
    }

    /// The output buffer never exceeds its capacity.
    pub open spec fn wf(&self) -> bool {
        self.buffered().len() <= OUTPUT_BUFFER_SIZE
    }

    /// A TTY over the given stream, with echo on and nothing buffered.
    pub fn new(stream_impl: S) -> (r: Tty<S>)
        ensures
            r.wf(),
            r.stream_impl == stream_impl,
            r.buffered() == Seq::<u8>::empty(),
            r.echo(),
    {
        Tty { stream_impl, output_buffer: Vec::new(), echo_enabled: true }
    }

    /// Switches echo on or off.
    pub fn set_echo(&mut self, enabled: bool)
        requires
            old(self).wf(),
        ensures
            final(self).wf(),
            final(self).echo() == enabled,
            final(self).stream_impl == old(self).stream_impl,
            final(self).buffered() == old(self).buffered(),
    {
        self.echo_enabled = enabled;
    }

    /// Buffers one byte, flushing first if the buffer is full.
    pub fn write_char(&mut self, ch: u8)
        requires
            old(self).wf(),
        ensures
            final(self).wf(),
            final(self).total_output() == old(self).total_output().push(ch),
            final(self).stream_impl.input() == old(self).stream_impl.input(),
            final(self).echo() == old(self).echo(),
            final(self).buffered().len() > 0,
    {
        if self.output_buffer.len() >= OUTPUT_BUFFER_SIZE {
            self.flush();
        }
        self.output_buffer.push(ch);
    }

    /// Writes the buffered bytes to the stream and empties the buffer.
    pub fn flush(&mut self)
        requires
            old(self).wf(),
        ensures
            final(self).wf(),
            final(self).stream_impl.output() == old(self).total_output(),
            final(self).buffered() == Seq::<u8>::empty(),
            final(self).total_output() == old(self).total_output(),
            final(self).stream_impl.input() == old(self).stream_impl.input(),
            final(self).echo() == old(self).echo(),
    {
        let n: usize = self.output_buffer.len();
        let mut i: usize = 0;
        while i < n
            invariant
                i <= n,
                n == self.output_buffer@.len(),
                self.output_buffer@ == old(self).output_buffer@,
                self.echo_enabled == old(self).echo_enabled,
                self.stream_impl.output() == old(self).stream_impl.output()
                    + self.output_buffer@.subrange(0, i as int),
                self.stream_impl.input() == old(self).stream_impl.input(),
            decreases n - i,
        {
            let ch: u8 = self.output_buffer[i];
            self.stream_impl.write_char(ch);
            i += 1;
            proof {
                assert(self.output_buffer@.subrange(0, i as int) =~= self.output_buffer@.subrange(
                    0,
                    i as int - 1,
                ).push(self.output_buffer@[i as int - 1]));
            }
        }
        proof {
            assert(self.output_buffer@.subrange(0, n as int) =~= self.output_buffer@);
        }
        self.output_buffer.clear();
    }

    /// Writes a string through the buffer and flushes it.
    pub fn write(&mut self, output: &str) -> (r: Result<(), TtyError>)
        requires
            old(self).wf(),
        ensures
            r == Ok::<(), TtyError>(()),
            final(self).wf(),
            final(self).stream_impl.output() == old(self).total_output()
                + output.spec_bytes(),
            final(self).buffered() == Seq::<u8>::empty(),
            final(self).stream_impl.input() == old(self).stream_impl.input(),
            final(self).echo() == old(self).echo(),
    {
        let bytes: &[u8] = output.as_bytes();
        let n: usize = bytes.len();
        let mut i: usize = 0;
        while i < n
            invariant
                i <= n,
                n == bytes@.len(),
                bytes@ == output.spec_bytes(),
                self.wf(),
                self.total_output() == old(self).total_output() + bytes@.subrange(0, i as int),
                self.stream_impl.input() == old(self).stream_impl.input(),
                self.echo() == old(self).echo(),
            decreases n - i,
        {
            let ch: u8 = bytes[i];
            self.write_char(ch);
            i += 1;
            proof {
                assert(bytes@.subrange(0, i as int) =~= bytes@.subrange(0, i as int - 1).push(
                    bytes@[i as int - 1],
                ));
            }
        }
        proof {
            assert(bytes@.subrange(0, n as int) =~= bytes@);
        }
        self.flush();
        Ok(())
    }

    /// Reads one byte from the stream; a zero byte means the line is dead.
    pub fn read_char(&mut self) -> (r: Result<u8, TtyError>)
        requires
            old(self).wf(),
        ensures
            final(self).wf(),
            final(self).total_output() == old(self).total_output(),
            final(self).echo() == old(self).echo(),
            old(self).stream_impl.input().len() == 0 ==> r == Err::<u8, TtyError>(
                TtyError::ReadError,
            ) && final(self).stream_impl.input() == old(self).stream_impl.input(),
            old(self).stream_impl.input().len() > 0 ==> final(self).stream_impl.input() == old(
                self,
            ).stream_impl.input().drop_first() && (if old(self).stream_impl.input().first() == 0 {
                r == Err::<u8, TtyError>(TtyError::ReadError)
            } else {
                r == Ok::<u8, TtyError>(old(self).stream_impl.input().first())
            }),
    {
        let c: u8 = self.stream_impl.read_char();
        if c == 0 {
            Err(TtyError::ReadError)
        } else {
            Ok(c)
        }
    }

    /// Reads one line: accumulates bytes until a line feed, honouring
    /// backspace and delete, echoing as [`spec_line_echo`] states when echo
    /// is on, and cancelling on control-C or dead input. The echo is flushed
    /// whether the line completes or not.
    pub fn read_line(&mut self) -> (r: Result<String, TtyError>)
        requires
            old(self).wf(),
        ensures
            final(self).wf(),
            final(self).echo() == old(self).echo(),
            final(self).buffered() == Seq::<u8>::empty(),
            ({
                let (line, rest) = spec_line_result(old(self).stream_impl.input(), seq![]);
                let echoed = spec_line_echo(old(self).stream_impl.input(), 0, old(self).echo());
                &&& final(self).stream_impl.input() == rest
                &&& final(self).stream_impl.output() == old(self).total_output() + echoed
                &&& (match line {
                    Some(l) => r matches Ok(s) && s@ == l.map_values(|b: u8| b as char),
                    None => r == Err::<String, TtyError>(TtyError::ReadError),
                })
            }),
    {
        let ghost orig_input = self.stream_impl.input();
        let ghost orig_total = self.total_output();
        let mut line: Vec<u8> = Vec::new();
        loop
            invariant
                self.wf(),
                self.echo() == old(self).echo(),
                line@.len() <= INPUT_BUFFER_SIZE,
                spec_line_result(self.stream_impl.input(), line@) == spec_line_result(
                    orig_input,
                    seq![],
                ),
                orig_total + spec_line_echo(orig_input, 0, old(self).echo()) == self.total_output()
                    + spec_line_echo(
                    self.stream_impl.input(),
                    line@.len() as int,
                    old(self).echo(),
                ),
                orig_input == old(self).stream_impl.input(),
                orig_total == old(self).total_output(),
            decreases self.stream_impl.input().len(),
        {
            let c: u8 = self.stream_impl.read_char();
            if c == 0 || c == CTRL_C {
                self.flush();
                return Err(TtyError::ReadError);
            }
            if c == LINE_FEED {
                if self.echo_enabled {
                    self.write_char(c);
                }
                self.flush();
                let mut s: String = String::new();
                let mut k: usize = 0;
                while k < line.len()
                    invariant
                        k <= line@.len(),
                        s@ == line@.subrange(0, k as int).map_values(|b: u8| b as char),
                    decreases line@.len() - k,
                {
                    let b: u8 = line[k];
                    string_push(&mut s, b as char);
                    k += 1;
                    proof {
                        assert(line@.subrange(0, k as int).map_values(|b: u8| b as char)
                            =~= line@.subrange(0, k as int - 1).map_values(
                            |b: u8| b as char,
                        ).push(line@[k as int - 1] as char));
                    }
                }
                proof {
                    assert(line@.subrange(0, line@.len() as int) =~= line@);
                }
                return Ok(s);
            }
            if c == BACKSPACE || c == DELETE {
                if line.len() > 0 {
                    let _ = line.pop();
                    if self.echo_enabled {
                        self.write_char(BACKSPACE);
                    }
                }
                continue ;
            }
            if line.len() < INPUT_BUFFER_SIZE {
                line.push(c);
                if self.echo_enabled {
                    self.write_char(c);
                }
            }
        }
    }
}

} // verus!

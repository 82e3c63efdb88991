use vstd::prelude::*;

use crate::mailbox::message::copy_words;
use crate::mailbox::message::spec_padded_words;
use crate::mailbox::message::splice;
use crate::mailbox::message::write_words;
use crate::mailbox::message::Message;
use crate::mailbox::port::MailboxPort;

verus! {

// A firmware simulation for the mailbox channel: it answers every known
// property tag from a set of injected values, exactly as
// [`respond_words`] states, and plays the FIFO protocol with no
// foreign traffic. Tests and diagnostics exchange messages with it in place
// of the VideoCore.

/// The payload the simulated firmware writes for a known tag: `req0` is the
/// first request payload word (the clock identifier for the clock tags,
/// which the firmware echoes).
pub open spec fn fill_words(fw: MockFirmware, id: u32, req0: u32) -> Seq<u32> {
    if id == 0x0000_0001 {
        seq![fw.firmware_rev]
    } else if id == 0x0001_0001 {
        seq![fw.board_model]
    } else if id == 0x0001_0002 {
        seq![fw.board_rev]
    } else if id == 0x0001_0003 {
        seq![fw.mac_w0, fw.mac_w1]
    } else if id == 0x0001_0004 {
        seq![fw.serial_lo, fw.serial_hi]
    } else if id == 0x0001_0005 {
        seq![fw.arm_mem_base, fw.arm_mem_size]
    } else if id == 0x0001_0006 {
        seq![fw.vc_mem_base, fw.vc_mem_size]
    } else if id == 0x0003_0001 {
        seq![req0, fw.state_bits]
    } else if id == 0x0003_0002 {
        seq![req0, fw.rate_hz]
    } else {
        seq![]
    }
}

/// The message words from tag offset `q` on, as the simulated firmware
/// rewrites them: each tag's code word gains the response bit over its
/// declared size, and a known tag of the expected extent has its payload
/// replaced by the injected values. Malformed remainders are left as they
/// are.
pub open spec fn respond_from(words: Seq<u32>, fw: MockFirmware, q: int) -> Seq<u32>
    recommends
        2 <= q,
    decreases words.len() - q,
    when 0 <= q
{
    if q + 3 > words.len() - 1 {
        words
    } else if words[q] == 0 {
        words
    } else {
        let id = words[q];
        let size = words[q + 1];
        let size_w = spec_padded_words(size);
        let next = q + 3 + size_w;
        if next > words.len() - 1 {
            words
        } else {
            let coded = words.update(q + 2, size | 0x8000_0000u32);
            let filled = if fill_words(fw, id, words[q + 3]).len() > 0 && size_w == fill_words(
                fw,
                id,
                words[q + 3],
            ).len() {
                splice(coded, q + 3, fill_words(fw, id, words[q + 3]))
            } else {
                coded
            };
            respond_from(filled, fw, next)
        }
    }
}

/// A whole request buffer as the simulated firmware answers it: the message
/// code word becomes the success code, and the tag area is rewritten by
/// [`respond_from`]. A buffer too short to be a message comes back untouched.
pub open spec fn respond_words(words: Seq<u32>, fw: MockFirmware) -> Seq<u32> {
    if words.len() < 3 {
        words
    } else {
        respond_from(words.update(1, 0x8000_0000u32), fw, 2)
    }
}

/// The rewrite touches neither the buffer's extent nor its length word.
pub proof fn lemma_respond_from_len(words: Seq<u32>, fw: MockFirmware, q: int)
    requires
        2 <= q,
    ensures
        respond_from(words, fw, q).len() == words.len(),
        words.len() > 0 ==> respond_from(words, fw, q)[0] == words[0],
    decreases words.len() - q,
{
    if q + 3 > words.len() - 1 || words[q] == 0 {
    } else {
        let size = words[q + 1];
        let size_w = spec_padded_words(size);
        let next = q + 3 + size_w;
        if next > words.len() - 1 {
        } else {
            let coded = words.update(q + 2, size | 0x8000_0000u32);
            let fill = fill_words(fw, words[q], words[q + 3]);
            if fill.len() > 0 && size_w == fill.len() {
                let filled = splice(coded, q + 3, fill);
                assert(filled.len() == words.len());
                assert(filled[0] == words[0]);
                lemma_respond_from_len(filled, fw, next);
            } else {
                lemma_respond_from_len(coded, fw, next);
            }
        }
    }
}

/// The simulated firmware: the values it answers with, and the state of one
/// in-flight exchange.
pub struct MockFirmware {
    pub rate_hz: u32,
    pub state_bits: u32,
    pub firmware_rev: u32,
    pub board_model: u32,
    pub board_rev: u32,
    pub mac_w0: u32,
    pub mac_w1: u32,
    pub serial_lo: u32,
    pub serial_hi: u32,
    pub arm_mem_base: u32,
    pub arm_mem_size: u32,
    pub vc_mem_base: u32,
    pub vc_mem_size: u32,
    /// The posted request buffer of the exchange in flight.
    pub buffer: Vec<u32>,
    /// The last word written to the FIFO, which the channel echoes back.
    pub mail: u32,
}

impl MockFirmware {
    /// A firmware simulation answering zero for every property.
    pub fn new() -> (r: MockFirmware)
        ensures
            r.rate_hz == 0,
            r.state_bits == 0,
            r.firmware_rev == 0,
            r.board_model == 0,
            r.board_rev == 0,
            r.mac_w0 == 0,
            r.mac_w1 == 0,
            r.serial_lo == 0,
            r.serial_hi == 0,
            r.arm_mem_base == 0,
            r.arm_mem_size == 0,
            r.vc_mem_base == 0,
            r.vc_mem_size == 0,
    {
        MockFirmware {
            rate_hz: 0,
            state_bits: 0,
            firmware_rev: 0,
            board_model: 0,
            board_rev: 0,
            mac_w0: 0,
            mac_w1: 0,
            serial_lo: 0,
            serial_hi: 0,
            arm_mem_base: 0,
            arm_mem_size: 0,
            vc_mem_base: 0,
            vc_mem_size: 0,
            buffer: Vec::new(),
            mail: 0,
        }
    }

    /// The injected payload for a known tag identifier, or an empty vector
    /// for one this simulation does not answer.
    fn fill_for(&self, id: u32, req0: u32) -> (r: Vec<u32>)
        ensures
            r@ == fill_words(*self, id, req0),
    {
        let mut fill: Vec<u32> = Vec::new();
        if id == 0x0000_0001 {
            fill.push(self.firmware_rev);
        } else if id == 0x0001_0001 {
            fill.push(self.board_model);
        } else if id == 0x0001_0002 {
            fill.push(self.board_rev);
        } else if id == 0x0001_0003 {
            fill.push(self.mac_w0);
            fill.push(self.mac_w1);
        } else if id == 0x0001_0004 {
            fill.push(self.serial_lo);
            fill.push(self.serial_hi);
        } else if id == 0x0001_0005 {
            fill.push(self.arm_mem_base);
            fill.push(self.arm_mem_size);
        } else if id == 0x0001_0006 {
            fill.push(self.vc_mem_base);
            fill.push(self.vc_mem_size);
        } else if id == 0x0003_0001 {
            fill.push(req0);
            fill.push(self.state_bits);
        } else if id == 0x0003_0002 {
            fill.push(req0);
            fill.push(self.rate_hz);
        }
        proof {
            assert(fill@ =~= fill_words(*self, id, req0));
        }
        fill
    }

    /// Answers one request buffer, exactly as [`respond_words`] states.
    pub fn respond(&self, words: &Vec<u32>) -> (r: Vec<u32>)
        ensures
            r@ == respond_words(words@, *self),
    {
        let n: usize = words.len();
        let mut out: Vec<u32> = copy_words(words);
        if n < 3 {
            return out;
        }
        out[1] = 0x8000_0000;
        let ghost target = respond_from(words@.update(1, 0x8000_0000u32), *self, 2);
        proof {
            assert(out@ =~= words@.update(1, 0x8000_0000u32));
        }
        let mut q: usize = 2;
        loop
            invariant
                2 <= q <= n - 1,
                out@.len() == n,
                n >= 3,
                n == words@.len(),
                target == respond_words(words@, *self),
                respond_from(out@, *self, q as int) == target,
            decreases n - q,
        {
            if n - 1 - q < 3 {
                proof {
                    assert(respond_from(out@, *self, q as int) == out@);
                }
                return out;
            }
            let id: u32 = out[q];
            if id == 0 {
                proof {
                    assert(respond_from(out@, *self, q as int) == out@);
                }
                return out;
            }
            let size: u32 = out[q + 1];
            let size_w: usize = ((size as u64 + 3) / 4) as usize;
            let next_128: u128 = q as u128 + 3 + size_w as u128;
            if next_128 > (n - 1) as u128 {
                proof {
                    assert(respond_from(out@, *self, q as int) == out@);
                }
                return out;
            }
            let ghost before = out@;
            out[q + 2] = size | 0x8000_0000;
            let req0: u32 = out[q + 3];
            proof {
                assert(out@ == before.update(q + 2 as int, size | 0x8000_0000u32));
                assert(before[q + 3] == out@[q + 3]);
            }
            let fill: Vec<u32> = self.fill_for(id, req0);
            if fill.len() > 0 && fill.len() == size_w {
                write_words(&mut out, q + 3, &fill);
            }
            proof {
                let coded = before.update(q + 2 as int, size | 0x8000_0000u32);
                let f = fill_words(*self, id, before[q + 3]);
                if f.len() > 0 && spec_padded_words(size) == f.len() {
                    assert(out@ == splice(coded, q + 3, f));
                } else {
                    assert(out@ == coded);
                }
                assert(respond_from(before, *self, q as int) == respond_from(
                    out@,
                    *self,
                    q + 3 + spec_padded_words(size),
                ));
            }
            q = next_128 as usize;
        }
    }
}

impl MailboxPort for MockFirmware {
    open spec fn write_busy(&self) -> nat {
        0
    }

    open spec fn foreign_mails(&self) -> nat {
        0
    }

    open spec fn echo(&self) -> u32 {
        self.mail
    }

    open spec fn buffer_len(&self) -> nat {
        self.buffer@.len()
    }

    fn post(&mut self, message: &Message) {
        proof {
            message.lemma_view();
        }
        self.buffer = copy_words(&message.words);
    }

    fn buffer_address(&mut self) -> (r: u32) {
        16
    }

    fn read_status(&mut self) -> (r: u32) {
        proof {
            assert(0u32 & 0x8000_0000u32 == 0) by (bit_vector);
        }
        0
    }

    fn write_mail(&mut self, word: u32) {
        self.mail = word;
    }

    fn read_mail(&mut self) -> (r: u32) {
        self.mail
    }

    fn collect(&mut self) -> (r: Message) {
        let words: Vec<u32> = self.respond(&self.buffer);
        proof {
            if self.buffer@.len() >= 3 {
                lemma_respond_from_len(self.buffer@.update(1, 0x8000_0000u32), *self, 2);
            }
        }
        let m = Message { words };
        proof {
            m.lemma_view();
        }
        m
    }
}

} // verus!

use vstd::prelude::*;

use crate::error::ErrorKind;
use crate::mailbox::tag::MessageTag;
use crate::mailbox::tag::Tag;

verus! {

// A mailbox message is a 16-byte aligned buffer of 32-bit words:
//
//   word 0            buffer length in bytes, always 4 * (3 + N)
//   word 1            request/response code (0 on a request)
//   words 2 .. 2+N    N words of concatenated tags
//   word 2+N          terminating zero word
//
// This module holds the message model, the builder that fills the tag area,
// and the scan that finds a tag's response again in a buffer the firmware has
// written back.

/// Response codes the firmware writes into a message's code word.
pub struct ResponseCode {}

impl ResponseCode {
    pub const CODE_REQUEST_SUCCESS: u32 = 0x8000_0000;

    pub const CODE_PARSE_ERROR: u32 = 0x8000_0010;
}

/// `s` with `new` written over the words starting at `at`.
pub open spec fn splice(s: Seq<u32>, at: int, new: Seq<u32>) -> Seq<u32>
    recommends
        0 <= at,
        at + new.len() <= s.len(),
{
    s.subrange(0, at) + new + s.subrange(at + new.len(), s.len() as int)
}

/// The words of a freshly built, empty message with `n` tag words.
pub open spec fn empty_message_words(n: nat) -> Seq<u32> {
    seq![(4 * (n + 3)) as u32, 0u32] + Seq::new(n, |i: int| 0u32) + seq![0u32]
}

/// The tag area of a message: everything between the two header words and
/// the terminating word.
pub open spec fn tag_area(words: Seq<u32>) -> Seq<u32>
    recommends
        words.len() >= 3,
{
    words.subrange(2, words.len() - 1)
}

/// A declared tag payload size in bytes, as the number of words it occupies.
pub open spec fn spec_padded_words(size_bytes: u32) -> int {
    (size_bytes + 3) / 4
}

/// The scan that finds the tag `tag_id` in the tag area `t`, starting at word
/// `i`: at each position a three-word header is read and either matches, ends
/// the walk (a zero identifier), or skips this tag's declared extent.
///
/// `Ok` carries the word offset of the matching tag's header. `NotFound`
/// reports a buffer without the tag; `InvalidInput` reports a tag area too
/// ragged to hold the header or extent it declares.
pub open spec fn scan_tags(t: Seq<u32>, tag_id: u32, i: int) -> Result<int, ErrorKind>
    recommends
        0 <= i,
    decreases t.len() - i,
    when 0 <= i
{
    if i >= t.len() {
        Err(ErrorKind::NotFound)
    } else if i + 3 > t.len() {
        Err(ErrorKind::InvalidInput)
    } else {
        let id = t[i];
        let next = i + 3 + spec_padded_words(t[i + 1]);
        if id == tag_id {
            if next > t.len() {
                Err(ErrorKind::InvalidInput)
            } else {
                Ok(i)
            }
        } else if id == 0 {
            Err(ErrorKind::NotFound)
        } else if next >= t.len() {
            Err(ErrorKind::NotFound)
        } else {
            scan_tags(t, tag_id, next)
        }
    }
}

/// A successful scan yields an in-bounds offset holding the wanted identifier
/// and a payload extent inside the tag area.
pub proof fn lemma_scan_ok(t: Seq<u32>, tag_id: u32, i: int, j: int)
    requires
        0 <= i,
        scan_tags(t, tag_id, i) == Ok::<int, ErrorKind>(j),
    ensures
        i <= j,
        j + 3 <= t.len(),
        t[j] == tag_id,
        j + 3 + spec_padded_words(t[j + 1]) <= t.len(),
    decreases t.len() - i,
{
    if i >= t.len() || i + 3 > t.len() {
    } else {
        let next = i + 3 + spec_padded_words(t[i + 1]);
        if t[i] == tag_id || t[i] == 0 || next >= t.len() {
        } else {
            lemma_scan_ok(t, tag_id, next, j);
        }
    }
}

/// The payload words that reading the response for `tag_id` out of a message
/// yields, or the error: the tag is located by [`scan_tags`]; its declared
/// size must equal the response size, its code word must carry the response
/// bit and restate that size.
pub open spec fn spec_tag_payload(words: Seq<u32>, tag_id: u32, resp_words: nat) -> Result<
    Seq<u32>,
    ErrorKind,
>
    recommends
        words.len() >= 3,
{
    let area = tag_area(words);
    match scan_tags(area, tag_id, 0) {
        Err(e) => Err(e),
        Ok(j) => {
            let size = area[j + 1];
            let code = area[j + 2];
            if size != 4 * resp_words {
                Err(ErrorKind::InvalidInput)
            } else if code >> 31u32 != 1 {
                Err(ErrorKind::InvalidInput)
            } else if (code & 0x7FFF_FFFFu32) != 4 * resp_words {
                Err(ErrorKind::InvalidInput)
            } else {
                Ok(area.subrange(j + 3, j + 3 + resp_words))
            }
        },
    }
}

/// A fixed-capacity mailbox message buffer.
pub struct Message {
    pub(crate) words: Vec<u32>,
}

impl View for Message {
    type V = Seq<u32>;

    closed spec fn view(&self) -> Seq<u32> {
        self.words@
    }
}

impl Message {
    /// The view is exactly the buffer's words.
    pub(crate) proof fn lemma_view(&self)
        ensures
            self@ == self.words@,
    {
    }

    /// The buffer declares its own length, ends in the terminating zero word,
    /// and is of a size whose byte count fits the length field.
    pub open spec fn wf(&self) -> bool {
        &&& 3 <= self@.len() <= 0x0FFF_FFF3
        &&& self@[0] == 4 * self@.len()
        &&& self@.last() == 0
    }

    /// The buffer is large enough for the message framing and small enough
    /// that its byte count fits the length field. This much holds of every
    /// buffer this crate builds, and a reply read back from the firmware
    /// keeps the posted buffer's extent.
    pub open spec fn sized(&self) -> bool {
        3 <= self@.len() <= 0x0FFF_FFF3
    }

    /// A copy of the buffer's words.
    pub fn to_words(&self) -> (r: Vec<u32>)
        ensures
            r@ == self@,
    {
        copy_words(&self.words)
    }

    /// Starts a message that can hold `capacity_words` words of tag data.
    pub fn builder(capacity_words: usize) -> (r: MessageBuilder)
        requires
            capacity_words <= 0x0FFF_FFF0,
        ensures
            r.wf(),
            r.capacity_words() == capacity_words,
            r.spec_fill_bytes() == 0,
            r.spec_words() == empty_message_words(capacity_words as nat),
    {
        let total: usize = capacity_words + 3;
        let mut words: Vec<u32> = Vec::new();
        words.push((total as u32) * 4);
        words.push(0);
        let mut k: usize = 0;
        while k < capacity_words
            invariant
                k <= capacity_words,
                capacity_words <= 0x0FFF_FFF0,
                words@ == seq![(4 * (capacity_words + 3)) as u32, 0u32] + Seq::new(
                    k as nat,
                    |i: int| 0u32,
                ),
            decreases capacity_words - k,
        {
            words.push(0);
            k += 1;
            proof {
                assert(Seq::new(k as nat, |i: int| 0u32) == Seq::new(
                    (k - 1) as nat,
                    |i: int| 0u32,
                ).push(0u32));
            }
        }
        words.push(0);
        proof {
            assert(words@ =~= empty_message_words(capacity_words as nat));
        }
        MessageBuilder { data: Message { words }, fill_count_bytes: 0 }
    }
}

/// A uniform read-only face over a message buffer: its declared size, its
/// request/response code, and the scan for one tag.
pub trait MessageView {
    /// The buffer's words.
    spec fn view_words(&self) -> Seq<u32>;

    /// The buffer is large enough to carry the message framing: the two
    /// header words and the terminating word. A firmware reply is read back
    /// through this interface, so no more than the extent is assumed of it.
    spec fn mwf(&self) -> bool;

    proof fn mwf_facts(&self)
        requires
            self.mwf(),
        ensures
            3 <= self.view_words().len() <= 0x0FFF_FFF3,
    ;

    /// The buffer length in bytes, as the message declares it.
    fn size(&self) -> (r: usize)
        requires
            self.mwf(),
        ensures
            r == self.view_words()[0],
    ;

    /// The request/response code word.
    fn code(&self) -> (r: u32)
        requires
            self.mwf(),
        ensures
            r == self.view_words()[1],
    ;

    /// Finds the tag `tag_id` in the tag area and hands back a copy of its
    /// header fields and payload extent; errors exactly as [`scan_tags`].
    fn tag_buffer_lookup(&self, tag_id: u32) -> (r: Result<Tag, ErrorKind>)
        requires
            self.mwf(),
        ensures
            ({
                let area = tag_area(self.view_words());
                match r {
                    Ok(tag) => {
                        &&& scan_tags(area, tag_id, 0) matches Ok(j) && tag.id == area[j]
                            && tag.payload_size_bytes == area[j + 1] && tag.code == area[j + 2]
                            && tag.payload@ == area.subrange(
                            j + 3,
                            j + 3 + spec_padded_words(area[j + 1]),
                        )
                        &&& tag.id == tag_id
                    },
                    Err(e) => scan_tags(area, tag_id, 0) == Err::<int, ErrorKind>(e),
                }
            }),
    ;
}

impl MessageView for Message {
    open spec fn view_words(&self) -> Seq<u32> {
        self@
    }

    open spec fn mwf(&self) -> bool {
        self.sized()
    }

    proof fn mwf_facts(&self) {
    }

    fn size(&self) -> (r: usize) {
        let r: u32 = self.words[0];
        r as usize
    }

    fn code(&self) -> (r: u32) {
        self.words[1]
    }

    fn tag_buffer_lookup(&self, tag_id: u32) -> (r: Result<Tag, ErrorKind>) {
        let ghost area = tag_area(self@);
        let n: usize = self.words.len();
        let area_len: usize = n - 3;
        let mut i: usize = 0;
        loop
            invariant
                self.sized(),
                area == tag_area(self@),
                area.len() == n - 3,
                n == self@.len(),
                area_len == n - 3,
                i <= area.len(),
                scan_tags(area, tag_id, i as int) == scan_tags(area, tag_id, 0),
            decreases area.len() - i,
        {
            proof {
                assert(forall|j: int|
                    0 <= j < area.len() ==> area[j] == self@[j + 2]);
            }
            if i >= area_len {
                proof {
                    assert(scan_tags(area, tag_id, i as int) == Err::<int, ErrorKind>(
                        ErrorKind::NotFound,
                    ));
                }
                return Err(ErrorKind::NotFound);
            }
            if i + 3 > area_len {
                proof {
                    assert(scan_tags(area, tag_id, i as int) == Err::<int, ErrorKind>(
                        ErrorKind::InvalidInput,
                    ));
                }
                return Err(ErrorKind::InvalidInput);
            }
            let id: u32 = self.words[2 + i];
            let size: u32 = self.words[2 + i + 1];
            let size_w: usize = ((size as u64 + 3) / 4) as usize;
            proof {
                assert(id == area[i as int]);
                assert(size == area[i as int + 1]);
                assert(size_w == spec_padded_words(size));
            }
            let next_64: u64 = i as u64 + 3 + size_w as u64;
            if id == tag_id {
                if next_64 > area_len as u64 {
                    proof {
                        assert(scan_tags(area, tag_id, i as int) == Err::<int, ErrorKind>(
                            ErrorKind::InvalidInput,
                        ));
                    }
                    return Err(ErrorKind::InvalidInput);
                }
                proof {
                    assert(scan_tags(area, tag_id, i as int) == Ok::<int, ErrorKind>(i as int));
                }
                let code: u32 = self.words[2 + i + 2];
                let mut payload: Vec<u32> = Vec::new();
                let mut k: usize = 0;
                while k < size_w
                    invariant
                        k <= size_w,
                        i + 3 + size_w <= area.len(),
                        area.len() == n - 3,
                        n == self@.len(),
                        area == tag_area(self@),
                        payload@ == area.subrange(i as int + 3, i as int + 3 + k as int),
                    decreases size_w - k,
                {
                    proof {
                        assert(area[i + 3 + k] == self@[2 + i + 3 + k]);
                    }
                    payload.push(self.words[2 + i + 3 + k]);
                    k += 1;
                    proof {
                        assert(area.subrange(i as int + 3, i as int + 3 + k as int)
                            =~= area.subrange(i as int + 3, i as int + 3 + k as int - 1).push(
                            area[i + 3 + k - 1],
                        ));
                    }
                }
                return Ok(Tag { id, payload_size_bytes: size, code, payload });
            }
            if id == 0 {
                proof {
                    assert(scan_tags(area, tag_id, i as int) == Err::<int, ErrorKind>(
                        ErrorKind::NotFound,
                    ));
                }
                return Err(ErrorKind::NotFound);
            }
            if next_64 >= area_len as u64 {
                proof {
                    assert(scan_tags(area, tag_id, i as int) == Err::<int, ErrorKind>(
                        ErrorKind::NotFound,
                    ));
                }
                return Err(ErrorKind::NotFound);
            }
            proof {
                assert(scan_tags(area, tag_id, i as int) == scan_tags(
                    area,
                    tag_id,
                    i + 3 + spec_padded_words(size),
                ));
            }
            i = next_64 as usize;
        }
    }
}

/// Reads the payload of the response tag `tag_id` out of `message`, checking
/// the declared size and the response code exactly as [`spec_tag_payload`]
/// states.
pub fn read_response_payload(message: &Message, tag_id: u32, resp_words: usize) -> (r: Result<
    Vec<u32>,
    ErrorKind,
>)
    requires
        message.sized(),
        resp_words <= 0x100,
    ensures
        r matches Ok(v) ==> v@.len() == resp_words,
        ({
            match spec_tag_payload(message@, tag_id, resp_words as nat) {
                Ok(s) => r matches Ok(v) && v@ == s,
                Err(e) => r == Err::<Vec<u32>, ErrorKind>(e),
            }
        }),
{
    match message.tag_buffer_lookup(tag_id) {
        Err(e) => Err(e),
        Ok(tag) => {
            let expected: u32 = (resp_words as u32) * 4;
            if tag.payload_size_bytes != expected {
                Err(ErrorKind::InvalidInput)
            } else if tag.code >> 31 != 1 {
                Err(ErrorKind::InvalidInput)
            } else if tag.code & 0x7FFF_FFFF != expected {
                Err(ErrorKind::InvalidInput)
            } else {
                proof {
                    let area = tag_area(message@);
                    let j = scan_tags(area, tag_id, 0)->Ok_0;
                    lemma_scan_ok(area, tag_id, 0, j);
                    assert(tag.payload_size_bytes == area[j + 1]);
                    assert(area[j + 1] == 4 * resp_words);
                    assert((4 * (resp_words as int) + 3) / 4 == resp_words as int)
                        by (nonlinear_arith)
                        requires 0 <= resp_words;
                    assert(spec_padded_words(area[j + 1]) == resp_words);
                    assert(tag.payload@ == area.subrange(
                        j + 3,
                        j + 3 + spec_padded_words(area[j + 1]),
                    ));
                    assert(tag.payload@.len() == resp_words);
                }
                Ok(tag.payload)
            }
        },
    }
}

/// Fills a message's tag area one tag at a time, tracking the fill offset.
pub struct MessageBuilder {
    data: Message,
    fill_count_bytes: usize,
}

impl MessageBuilder {
    /// The words of the message under construction.
    pub closed spec fn spec_words(&self) -> Seq<u32> {
        self.data@
    }

    /// How many bytes of the tag area are filled.
    pub closed spec fn spec_fill_bytes(&self) -> int {
        self.fill_count_bytes as int
    }

    /// The tag capacity in words.
    pub open spec fn capacity_words(&self) -> int {
        self.spec_words().len() - 3
    }

    pub open spec fn wf(&self) -> bool {
        &&& 3 <= self.spec_words().len() <= 0x0FFF_FFF3
        &&& self.spec_words()[0] == 4 * self.spec_words().len()
        &&& self.spec_words().last() == 0
        &&& self.spec_fill_bytes() % 4 == 0
        &&& 0 <= self.spec_fill_bytes()
        &&& self.spec_fill_bytes() <= 4 * self.capacity_words()
    }

    /// Appends one tag's words at the fill offset. Overflowing the declared
    /// capacity is a capacity-planning bug, excluded by precondition; see
    /// [`Self::add_tag_checked`] for the guarded form.
    pub fn add_tag<T: MessageTag>(self, tag: &T) -> (r: MessageBuilder)
        requires
            self.wf(),
            tag.twf(),
            self.spec_fill_bytes() + 4 * tag.spec_words().len() <= 4 * self.capacity_words(),
        ensures
            r.wf(),
            r.capacity_words() == self.capacity_words(),
            r.spec_fill_bytes() == self.spec_fill_bytes() + 4 * tag.spec_words().len(),
            r.spec_words() == splice(
                self.spec_words(),
                2 + self.spec_fill_bytes() / 4,
                tag.spec_words(),
            ),
    {
        proof {
            tag.twf_facts();
        }
        let mut out = self;
        let size: usize = tag.size_bytes();
        let tw: Vec<u32> = tag.words();
        let at: usize = 2 + out.fill_count_bytes / 4;
        write_words(&mut out.data.words, at, &tw);
        out.fill_count_bytes = out.fill_count_bytes + size;
        proof {
            assert(out.spec_words()[0] == self.spec_words()[0]);
            assert(out.spec_words().last() == self.spec_words().last());
        }
        out
    }

    /// Appends one tag if it fits, and reports a full message otherwise.
    pub fn add_tag_checked<T: MessageTag>(self, tag: &T) -> (r: Option<MessageBuilder>)
        requires
            self.wf(),
            tag.twf(),
        ensures
            ({
                if self.spec_fill_bytes() + 4 * tag.spec_words().len() <= 4
                    * self.capacity_words() {
                    r matches Some(b) && b.wf() && b.capacity_words() == self.capacity_words()
                        && b.spec_fill_bytes() == self.spec_fill_bytes() + 4
                        * tag.spec_words().len() && b.spec_words() == splice(
                        self.spec_words(),
                        2 + self.spec_fill_bytes() / 4,
                        tag.spec_words(),
                    )
                } else {
                    r is None
                }
            }),
    {
        proof {
            tag.twf_facts();
        }
        let size: usize = tag.size_bytes();
        let cap_bytes: usize = (self.data.words.len() - 3) * 4;
        if self.fill_count_bytes + size > cap_bytes {
            None
        } else {
            Some(self.add_tag(tag))
        }
    }

    /// Finishes the message.
    pub fn build(self) -> (r: Message)
        requires
            self.wf(),
        ensures
            r.wf(),
            r@ == self.spec_words(),
    {
        self.data
    }
}

/// An added tag stands whole at its offset: the words a splice lays down at
/// `at` are exactly the tag's own, its identifier first and its declared
/// payload size second.
pub proof fn lemma_spliced_tag_words(s: Seq<u32>, at: int, tag: Seq<u32>)
    requires
        0 <= at,
        at + tag.len() <= s.len(),
    ensures
        forall|k: int| 0 <= k < tag.len() ==> splice(s, at, tag)[at + k] == tag[k],
{
    assert forall|k: int| 0 <= k < tag.len() implies splice(s, at, tag)[at + k] == tag[k] by {
        assert(splice(s, at, tag)[at + k] == (s.subrange(0, at) + tag)[at + k]);
    }
}

/// A fresh copy of a word buffer.
pub(crate) fn copy_words(src: &Vec<u32>) -> (r: Vec<u32>)
    ensures
        r@ == src@,
{
    let mut out: Vec<u32> = Vec::new();
    let mut k: usize = 0;
    while k < src.len()
        invariant
            k <= src@.len(),
            out@ == src@.subrange(0, k as int),
        decreases src@.len() - k,
    {
        out.push(src[k]);
        k += 1;
        proof {
            assert(src@.subrange(0, k as int) =~= src@.subrange(0, k as int - 1).push(
                src@[k as int - 1],
            ));
        }
    }
    proof {
        assert(src@.subrange(0, src@.len() as int) =~= src@);
    }
    out
}

/// Writes `src` over `dst` starting at `at`.
pub(crate) fn write_words(dst: &mut Vec<u32>, at: usize, src: &Vec<u32>)
    requires
        at + src@.len() <= old(dst)@.len(),
    ensures
        final(dst)@ == splice(old(dst)@, at as int, src@),
{
    let dlen: usize = dst.len();
    let mut k: usize = 0;
    while k < src.len()
        invariant
            k <= src@.len(),
            at + src@.len() <= dst@.len(),
            dst@.len() == old(dst)@.len(),
            dlen == dst@.len(),
            forall|j: int|
                0 <= j < dst@.len() ==> dst@[j] == if at <= j < at + k {
                    src@[j - at]
                } else {
                    old(dst)@[j]
                },
        decreases src@.len() - k,
    {
        let v: u32 = src[k];
        dst[at + k] = v;
        k += 1;
    }
    proof {
        assert(dst@ =~= splice(old(dst)@, at as int, src@));
    }
}

} // verus!

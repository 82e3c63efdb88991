use vstd::prelude::*;

use crate::error::ErrorKind;
use crate::mailbox::message::read_response_payload;
use crate::mailbox::message::spec_tag_payload;
use crate::mailbox::message::Message;

verus! {

// A mailbox tag is one property request (or the firmware's response to it)
// inside a message buffer. On the wire a tag is three 32-bit header words --
// identifier, declared payload size in bytes, request/response code -- then
// the payload, padded to whole words.

/// The property identifiers this kernel knows.
#[derive(Clone, Copy, Debug, PartialEq, Eq, Structural)]
pub enum TagId {
    VideocoreGetFirmwareRevision,
    HwGetBoardModel,
    HwGetBoardRevision,
    HwGetBoardMacAddress,
    HwGetBoardSerial,
    HwGetArmMemory,
    HwGetVideocoreMemory,
    HwGetClocks,
    GetClockState,
    SetClockState,
    GetClockRate,
}

/// The wire opcode of each tag identifier.
pub open spec fn spec_tag_id_value(t: TagId) -> u32 {
    match t {
        TagId::VideocoreGetFirmwareRevision => 0x0000_0001,
        TagId::HwGetBoardModel => 0x0001_0001,
        TagId::HwGetBoardRevision => 0x0001_0002,
        TagId::HwGetBoardMacAddress => 0x0001_0003,
        TagId::HwGetBoardSerial => 0x0001_0004,
        TagId::HwGetArmMemory => 0x0001_0005,
        TagId::HwGetVideocoreMemory => 0x0001_0006,
        TagId::HwGetClocks => 0x0001_0007,
        TagId::GetClockState => 0x0003_0001,
        TagId::SetClockState => 0x0003_8001,
        TagId::GetClockRate => 0x0003_0002,
    }
}

impl TagId {
    /// The wire opcode of this tag identifier.
    pub fn value(&self) -> (r: u32)
        ensures
            r == spec_tag_id_value(*self),
    {
        match self {
            TagId::VideocoreGetFirmwareRevision => 0x0000_0001,
            TagId::HwGetBoardModel => 0x0001_0001,
            TagId::HwGetBoardRevision => 0x0001_0002,
            TagId::HwGetBoardMacAddress => 0x0001_0003,
            TagId::HwGetBoardSerial => 0x0001_0004,
            TagId::HwGetArmMemory => 0x0001_0005,
            TagId::HwGetVideocoreMemory => 0x0001_0006,
            TagId::HwGetClocks => 0x0001_0007,
            TagId::GetClockState => 0x0003_0001,
            TagId::SetClockState => 0x0003_8001,
            TagId::GetClockRate => 0x0003_0002,
        }
    }
}

/// The serialised form of a request tag: header words `[id, payload bytes, 0]`
/// followed by the payload words (the request fields, zero-padded up to the
/// payload size, which covers both the request and the response layout).
pub open spec fn spec_request_tag_words(id: u32, payload: Seq<u32>) -> Seq<u32> {
    seq![id, (4 * payload.len()) as u32, 0u32] + payload
}

/// One mailbox tag held as plain words: the three header fields and the
/// payload, one 32-bit word each.
pub struct Tag {
    pub id: u32,
    pub payload_size_bytes: u32,
    pub code: u32,
    pub payload: Vec<u32>,
}

impl Tag {
    /// The declared payload size agrees with the payload actually held.
    pub open spec fn wf(&self) -> bool {
        &&& self.payload@.len() <= 0x100
        &&& self.payload_size_bytes == 4 * self.payload@.len()
    }
}

/// What a message builder needs of a tag: its serialised words. The single
/// in-tree implementation is [`Tag`]; the trait keeps the builder independent
/// of how a particular tag chose to lay out its fields.
pub trait MessageTag {
    /// The tag as it appears on the wire, one 32-bit word per element.
    spec fn spec_words(&self) -> Seq<u32>;

    /// The tag is internally consistent and of a size a message can hold.
    spec fn twf(&self) -> bool;

    proof fn twf_facts(&self)
        requires
            self.twf(),
        ensures
            3 <= self.spec_words().len() <= 0x103,
            self.spec_words()[1] == 4 * (self.spec_words().len() - 3),
    ;

    /// Size of the whole tag in bytes, header included.
    fn size_bytes(&self) -> (r: usize)
        requires
            self.twf(),
        ensures
            r == self.spec_words().len() * 4,
    ;

    /// Size of the payload alone in bytes.
    fn payload_size_bytes(&self) -> (r: usize)
        requires
            self.twf(),
        ensures
            r == (self.spec_words().len() - 3) * 4,
    ;

    /// The serialised tag.
    fn words(&self) -> (r: Vec<u32>)
        requires
            self.twf(),
        ensures
            r@ == self.spec_words(),
    ;
}

impl MessageTag for Tag {
    open spec fn spec_words(&self) -> Seq<u32> {
        seq![self.id, self.payload_size_bytes, self.code] + self.payload@
    }

    open spec fn twf(&self) -> bool {
        self.wf()
    }

    proof fn twf_facts(&self) {
    }

    fn size_bytes(&self) -> (r: usize) {
        12 + self.payload.len() * 4
    }

    fn payload_size_bytes(&self) -> (r: usize) {
        self.payload.len() * 4
    }

    fn words(&self) -> (r: Vec<u32>) {
        let mut out: Vec<u32> = Vec::new();
        out.push(self.id);
        out.push(self.payload_size_bytes);
        out.push(self.code);
        let mut i: usize = 0;
        while i < self.payload.len()
            invariant
                i <= self.payload@.len(),
                out@ == seq![self.id, self.payload_size_bytes, self.code] + self.payload@.subrange(
                    0,
                    i as int,
                ),
            decreases self.payload@.len() - i,
        {
            out.push(self.payload[i]);
            i += 1;
            proof {
                assert(self.payload@.subrange(0, i as int) == self.payload@.subrange(
                    0,
                    i as int - 1,
                ).push(self.payload@[i as int - 1]));
            }
        }
        proof {
            assert(self.payload@.subrange(0, self.payload@.len() as int) == self.payload@);
        }
        out
    }
}

/// Builds a request tag: code word zero, payload as given.
pub fn request_tag(id: u32, payload: Vec<u32>) -> (t: Tag)
    requires
        payload@.len() <= 0x100,
    ensures
        t.wf(),
        t.spec_words() == spec_request_tag_words(id, payload@),
{
    Tag { id, payload_size_bytes: (payload.len() * 4) as u32, code: 0, payload }
}

/// Request for the VideoCore firmware revision; no request fields.
pub struct VideocoreGetFirmwareRevisionRequest {}

impl VideocoreGetFirmwareRevisionRequest {
    pub fn to_tag(self) -> (t: Tag)
        ensures
            t.wf(),
            t.spec_words() == spec_request_tag_words(
                spec_tag_id_value(TagId::VideocoreGetFirmwareRevision),
                seq![0u32],
            ),
    {
        let mut payload: Vec<u32> = Vec::new();
        payload.push(0);
        proof {
            assert(payload@ =~= seq![0u32]);
        }
        request_tag(TagId::VideocoreGetFirmwareRevision.value(), payload)
    }
}

/// Response carrying the VideoCore firmware revision.
pub struct VideocoreGetFirmwareRevisionResponse {
    pub firmware_rev: u32,
}

impl VideocoreGetFirmwareRevisionResponse {
    /// Decodes this tag's response out of a reply buffer.
    pub fn read_response(message: &Message) -> (r: Result<VideocoreGetFirmwareRevisionResponse, ErrorKind>)
        requires
            message.sized(),
        ensures
            ({
                match spec_tag_payload(message@, spec_tag_id_value(TagId::VideocoreGetFirmwareRevision), 1) {
                    Ok(p) => r matches Ok(resp) && resp.firmware_rev == p[0],
                    Err(e) => r == Err::<VideocoreGetFirmwareRevisionResponse, ErrorKind>(e),
                }
            }),
    {
        match read_response_payload(message, TagId::VideocoreGetFirmwareRevision.value(), 1) {
            Err(e) => Err(e),
            Ok(p) => Ok(VideocoreGetFirmwareRevisionResponse { firmware_rev: p[0] }),
        }
    }
}

/// Request for the board model word; no request fields.
pub struct HwGetBoardModelRequest {}

impl HwGetBoardModelRequest {
    pub fn to_tag(self) -> (t: Tag)
        ensures
            t.wf(),
            t.spec_words() == spec_request_tag_words(
                spec_tag_id_value(TagId::HwGetBoardModel),
                seq![0u32],
            ),
    {
        let mut payload: Vec<u32> = Vec::new();
        payload.push(0);
        proof {
            assert(payload@ =~= seq![0u32]);
        }
        request_tag(TagId::HwGetBoardModel.value(), payload)
    }
}

/// Response carrying the board model word.
pub struct HwGetBoardModelResponse {
    pub board_model: u32,
}

impl HwGetBoardModelResponse {
    /// Decodes this tag's response out of a reply buffer.
    pub fn read_response(message: &Message) -> (r: Result<HwGetBoardModelResponse, ErrorKind>)
        requires
            message.sized(),
        ensures
            ({
                match spec_tag_payload(message@, spec_tag_id_value(TagId::HwGetBoardModel), 1) {
                    Ok(p) => r matches Ok(resp) && resp.board_model == p[0],
                    Err(e) => r == Err::<HwGetBoardModelResponse, ErrorKind>(e),
                }
            }),
    {
        match read_response_payload(message, TagId::HwGetBoardModel.value(), 1) {
            Err(e) => Err(e),
            Ok(p) => Ok(HwGetBoardModelResponse { board_model: p[0] }),
        }
    }
}

/// Request for the board revision word; no request fields.
pub struct HwGetBoardRevisionRequest {}

impl HwGetBoardRevisionRequest {
    pub fn to_tag(self) -> (t: Tag)
        ensures
            t.wf(),
            t.spec_words() == spec_request_tag_words(
                spec_tag_id_value(TagId::HwGetBoardRevision),
                seq![0u32],
            ),
    {
        let mut payload: Vec<u32> = Vec::new();
        payload.push(0);
        proof {
            assert(payload@ =~= seq![0u32]);
        }
        request_tag(TagId::HwGetBoardRevision.value(), payload)
    }
}

/// Response carrying the board revision word.
pub struct HwGetBoardRevisionResponse {
    pub board_rev: u32,
}

impl HwGetBoardRevisionResponse {
    /// Decodes this tag's response out of a reply buffer.
    pub fn read_response(message: &Message) -> (r: Result<HwGetBoardRevisionResponse, ErrorKind>)
        requires
            message.sized(),
        ensures
            ({
                match spec_tag_payload(message@, spec_tag_id_value(TagId::HwGetBoardRevision), 1) {
                    Ok(p) => r matches Ok(resp) && resp.board_rev == p[0],
                    Err(e) => r == Err::<HwGetBoardRevisionResponse, ErrorKind>(e),
                }
            }),
    {
        match read_response_payload(message, TagId::HwGetBoardRevision.value(), 1) {
            Err(e) => Err(e),
            Ok(p) => Ok(HwGetBoardRevisionResponse { board_rev: p[0] }),
        }
    }
}

/// Request for the ARM memory region; no request fields.
pub struct HwGetArmMemoryRequest {}

impl HwGetArmMemoryRequest {
    pub fn to_tag(self) -> (t: Tag)
        ensures
            t.wf(),
            t.spec_words() == spec_request_tag_words(
                spec_tag_id_value(TagId::HwGetArmMemory),
                seq![0u32, 0u32],
            ),
    {
        let mut payload: Vec<u32> = Vec::new();
        payload.push(0);
        payload.push(0);
        proof {
            assert(payload@ =~= seq![0u32, 0u32]);
        }
        request_tag(TagId::HwGetArmMemory.value(), payload)
    }
}

/// Response describing the ARM memory region: base address and size in bytes.
pub struct HwGetArmMemoryResponse {
    pub base_address: u32,
    pub size_bytes: u32,
}

impl HwGetArmMemoryResponse {
    /// Decodes this tag's response out of a reply buffer.
    pub fn read_response(message: &Message) -> (r: Result<HwGetArmMemoryResponse, ErrorKind>)
        requires
            message.sized(),
        ensures
            ({
                match spec_tag_payload(message@, spec_tag_id_value(TagId::HwGetArmMemory), 2) {
                    Ok(p) => r matches Ok(resp) && resp.base_address == p[0] && resp.size_bytes
                        == p[1],
                    Err(e) => r == Err::<HwGetArmMemoryResponse, ErrorKind>(e),
                }
            }),
    {
        match read_response_payload(message, TagId::HwGetArmMemory.value(), 2) {
            Err(e) => Err(e),
            Ok(p) => Ok(HwGetArmMemoryResponse { base_address: p[0], size_bytes: p[1] }),
        }
    }
}

/// Request for the VideoCore memory region; no request fields.
pub struct HwGetVideocoreMemoryRequest {}

impl HwGetVideocoreMemoryRequest {
    pub fn to_tag(self) -> (t: Tag)
        ensures
            t.wf(),
            t.spec_words() == spec_request_tag_words(
                spec_tag_id_value(TagId::HwGetVideocoreMemory),
                seq![0u32, 0u32],
            ),
    {
        let mut payload: Vec<u32> = Vec::new();
        payload.push(0);
        payload.push(0);
        proof {
            assert(payload@ =~= seq![0u32, 0u32]);
        }
        request_tag(TagId::HwGetVideocoreMemory.value(), payload)
    }
}

/// Response describing the VideoCore memory region: base address and size in bytes.
pub struct HwGetVideocoreMemoryResponse {
    pub base_address: u32,
    pub size_bytes: u32,
}

impl HwGetVideocoreMemoryResponse {
    /// Decodes this tag's response out of a reply buffer.
    pub fn read_response(message: &Message) -> (r: Result<HwGetVideocoreMemoryResponse, ErrorKind>)
        requires
            message.sized(),
        ensures
            ({
                match spec_tag_payload(message@, spec_tag_id_value(TagId::HwGetVideocoreMemory), 2) {
                    Ok(p) => r matches Ok(resp) && resp.base_address == p[0] && resp.size_bytes
                        == p[1],
                    Err(e) => r == Err::<HwGetVideocoreMemoryResponse, ErrorKind>(e),
                }
            }),
    {
        match read_response_payload(message, TagId::HwGetVideocoreMemory.value(), 2) {
            Err(e) => Err(e),
            Ok(p) => Ok(HwGetVideocoreMemoryResponse { base_address: p[0], size_bytes: p[1] }),
        }
    }
}

/// Request for a clock's state bits (bit 0: active, bit 1: exists), by clock identifier.
pub struct GetClockStateRequest {
    pub clock_id: u32,
}

impl GetClockStateRequest {
    pub fn to_tag(self) -> (t: Tag)
        ensures
            t.wf(),
            t.spec_words() == spec_request_tag_words(
                spec_tag_id_value(TagId::GetClockState),
                seq![self.clock_id, 0u32],
            ),
    {
        let mut payload: Vec<u32> = Vec::new();
        payload.push(self.clock_id);
        payload.push(0);
        proof {
            assert(payload@ =~= seq![self.clock_id, 0u32]);
        }
        request_tag(TagId::GetClockState.value(), payload)
    }
}

/// Response echoing the clock identifier and carrying a clock's state bits (bit 0: active, bit 1: exists).
pub struct GetClockStateResponse {
    pub clock_id: u32,
    pub state_bits: u32,
}

impl GetClockStateResponse {
    /// Decodes this tag's response out of a reply buffer.
    pub fn read_response(message: &Message) -> (r: Result<GetClockStateResponse, ErrorKind>)
        requires
            message.sized(),
        ensures
            ({
                match spec_tag_payload(message@, spec_tag_id_value(TagId::GetClockState), 2) {
                    Ok(p) => r matches Ok(resp) && resp.clock_id == p[0] && resp.state_bits == p[1],
                    Err(e) => r == Err::<GetClockStateResponse, ErrorKind>(e),
                }
            }),
    {
        match read_response_payload(message, TagId::GetClockState.value(), 2) {
            Err(e) => Err(e),
            Ok(p) => Ok(GetClockStateResponse { clock_id: p[0], state_bits: p[1] }),
        }
    }
}

/// Request for a clock's rate in hertz, by clock identifier.
pub struct GetClockRateRequest {
    pub clock_id: u32,
}

impl GetClockRateRequest {
    pub fn to_tag(self) -> (t: Tag)
        ensures
            t.wf(),
            t.spec_words() == spec_request_tag_words(
                spec_tag_id_value(TagId::GetClockRate),
                seq![self.clock_id, 0u32],
            ),
    {
        let mut payload: Vec<u32> = Vec::new();
        payload.push(self.clock_id);
        payload.push(0);
        proof {
            assert(payload@ =~= seq![self.clock_id, 0u32]);
        }
        request_tag(TagId::GetClockRate.value(), payload)
    }
}

/// Response echoing the clock identifier and carrying a clock's rate in hertz.
pub struct GetClockRateResponse {
    pub clock_id: u32,
    pub rate_hz: u32,
}

impl GetClockRateResponse {
    /// Decodes this tag's response out of a reply buffer.
    pub fn read_response(message: &Message) -> (r: Result<GetClockRateResponse, ErrorKind>)
        requires
            message.sized(),
        ensures
            ({
                match spec_tag_payload(message@, spec_tag_id_value(TagId::GetClockRate), 2) {
                    Ok(p) => r matches Ok(resp) && resp.clock_id == p[0] && resp.rate_hz == p[1],
                    Err(e) => r == Err::<GetClockRateResponse, ErrorKind>(e),
                }
            }),
    {
        match read_response_payload(message, TagId::GetClockRate.value(), 2) {
            Err(e) => Err(e),
            Ok(p) => Ok(GetClockRateResponse { clock_id: p[0], rate_hz: p[1] }),
        }
    }
}

/// Request for the board's MAC address; no request fields.
pub struct HwGetBoardMacAddressRequest {}

impl HwGetBoardMacAddressRequest {
    pub fn to_tag(self) -> (t: Tag)
        ensures
            t.wf(),
            t.spec_words() == spec_request_tag_words(
                spec_tag_id_value(TagId::HwGetBoardMacAddress),
                seq![0u32, 0u32],
            ),
    {
        let mut payload: Vec<u32> = Vec::new();
        payload.push(0);
        payload.push(0);
        proof {
            assert(payload@ =~= seq![0u32, 0u32]);
        }
        request_tag(TagId::HwGetBoardMacAddress.value(), payload)
    }
}

/// Response carrying the board's MAC address in network byte order.
pub struct HwGetBoardMacAddressResponse {
    pub mac_address: [u8; 6],
}

impl HwGetBoardMacAddressResponse {
    /// Decodes this tag's response out of a reply buffer. The six address
    /// bytes sit in the low bytes of the two payload words, least significant
    /// byte first.
    pub fn read_response(message: &Message) -> (r: Result<
        HwGetBoardMacAddressResponse,
        ErrorKind,
    >)
        requires
            message.sized(),
        ensures
            ({
                match spec_tag_payload(message@, spec_tag_id_value(TagId::HwGetBoardMacAddress), 2) {
                    Ok(p) => r matches Ok(resp) && resp.mac_address@ == seq![
                        (p[0] & 0xFF) as u8,
                        ((p[0] >> 8u32) & 0xFF) as u8,
                        ((p[0] >> 16u32) & 0xFF) as u8,
                        ((p[0] >> 24u32) & 0xFF) as u8,
                        (p[1] & 0xFF) as u8,
                        ((p[1] >> 8u32) & 0xFF) as u8,
                    ],
                    Err(e) => r == Err::<HwGetBoardMacAddressResponse, ErrorKind>(e),
                }
            }),
    {
        match read_response_payload(message, TagId::HwGetBoardMacAddress.value(), 2) {
            Err(e) => Err(e),
            Ok(p) => {
                let w0: u32 = p[0];
                let w1: u32 = p[1];
                let mac: [u8; 6] = [
                    (w0 & 0xFF) as u8,
                    ((w0 >> 8) & 0xFF) as u8,
                    ((w0 >> 16) & 0xFF) as u8,
                    ((w0 >> 24) & 0xFF) as u8,
                    (w1 & 0xFF) as u8,
                    ((w1 >> 8) & 0xFF) as u8,
                ];
                proof {
                    assert(mac@ =~= seq![
                        (w0 & 0xFF) as u8,
                        ((w0 >> 8u32) & 0xFF) as u8,
                        ((w0 >> 16u32) & 0xFF) as u8,
                        ((w0 >> 24u32) & 0xFF) as u8,
                        (w1 & 0xFF) as u8,
                        ((w1 >> 8u32) & 0xFF) as u8,
                    ]);
                }
                Ok(HwGetBoardMacAddressResponse { mac_address: mac })
            },
        }
    }
}

/// Request for the board's serial number; no request fields.
pub struct HwGetBoardSerialRequest {}

impl HwGetBoardSerialRequest {
    pub fn to_tag(self) -> (t: Tag)
        ensures
            t.wf(),
            t.spec_words() == spec_request_tag_words(
                spec_tag_id_value(TagId::HwGetBoardSerial),
                seq![0u32, 0u32],
            ),
    {
        let mut payload: Vec<u32> = Vec::new();
        payload.push(0);
        payload.push(0);
        proof {
            assert(payload@ =~= seq![0u32, 0u32]);
        }
        request_tag(TagId::HwGetBoardSerial.value(), payload)
    }
}

/// Response carrying the board's 64-bit serial number.
pub struct HwGetBoardSerialResponse {
    pub serial: u64,
}

impl HwGetBoardSerialResponse {
    /// Decodes this tag's response out of a reply buffer: the low word first,
    /// then the high word.
    pub fn read_response(message: &Message) -> (r: Result<HwGetBoardSerialResponse, ErrorKind>)
        requires
            message.sized(),
        ensures
            ({
                match spec_tag_payload(message@, spec_tag_id_value(TagId::HwGetBoardSerial), 2) {
                    Ok(p) => r matches Ok(resp) && resp.serial == p[0] + 0x1_0000_0000u64 * p[1],
                    Err(e) => r == Err::<HwGetBoardSerialResponse, ErrorKind>(e),
                }
            }),
    {
        match read_response_payload(message, TagId::HwGetBoardSerial.value(), 2) {
            Err(e) => Err(e),
            Ok(p) => {
                let lo: u32 = p[0];
                let hi: u32 = p[1];
                let serial: u64 = (lo as u64) | ((hi as u64) << 32);
                proof {
                    assert((lo as u64) | ((hi as u64) << 32u64) == (lo as u64) + 0x1_0000_0000u64
                        * (hi as u64)) by (bit_vector);
                }
                Ok(HwGetBoardSerialResponse { serial })
            },
        }
    }
}

} // verus!

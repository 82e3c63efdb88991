use vstd::prelude::*;

use crate::error::ErrorKind;
use crate::mailbox::message::spec_tag_payload;
use crate::mailbox::message::Message;
use crate::mailbox::message::splice;
use crate::mailbox::mock::fill_words;
use crate::mailbox::mock::respond_from;
use crate::mailbox::mock::respond_words;
use crate::mailbox::mock::MockFirmware;
use crate::mailbox::port::send;
use crate::mailbox::port::MailboxPort;
use crate::mailbox::tag::GetClockRateRequest;
use crate::mailbox::tag::GetClockRateResponse;
use crate::mailbox::tag::GetClockStateRequest;
use crate::mailbox::tag::GetClockStateResponse;

verus! {

// Clock queries over the mailbox: one message carrying a rate request and a
// state request for the same clock, answered by the firmware in place.

/// The clocks the firmware knows.
#[derive(Clone, Copy, Debug, PartialEq, Eq, Structural)]
pub enum ClockId {
    Emmc,
    Uart,
    Arm,
    Core,
    V3d,
    H264,
    Isp,
    Sdram,
    Pixel,
    Pwm,
    Hevc,
    Emmc2,
    M2mc,
    PixelBvb,
}

/// The wire identifier of each clock.
pub open spec fn spec_clock_id_value(c: ClockId) -> u32 {
    match c {
        ClockId::Emmc => 0x1,
        ClockId::Uart => 0x2,
        ClockId::Arm => 0x3,
        ClockId::Core => 0x4,
        ClockId::V3d => 0x5,
        ClockId::H264 => 0x6,
        ClockId::Isp => 0x7,
        ClockId::Sdram => 0x8,
        ClockId::Pixel => 0x9,
        ClockId::Pwm => 0xa,
        ClockId::Hevc => 0xb,
        ClockId::Emmc2 => 0xc,
        ClockId::M2mc => 0xd,
        ClockId::PixelBvb => 0xe,
    }
}

/// The name of each clock.
pub open spec fn spec_clock_name(c: ClockId) -> Seq<char> {
    match c {
        ClockId::Emmc => "Emmc"@,
        ClockId::Uart => "Uart"@,
        ClockId::Arm => "Arm"@,
        ClockId::Core => "Core"@,
        ClockId::V3d => "V3d"@,
        ClockId::H264 => "H264"@,
        ClockId::Isp => "Isp"@,
        ClockId::Sdram => "Sdram"@,
        ClockId::Pixel => "Pixel"@,
        ClockId::Pwm => "Pwm"@,
        ClockId::Hevc => "Hevc"@,
        ClockId::Emmc2 => "Emmc2"@,
        ClockId::M2mc => "M2mc"@,
        ClockId::PixelBvb => "PixelBvb"@,
    }
}

impl ClockId {
    /// The wire identifier of this clock.
    pub fn value(&self) -> (r: u32)
        ensures
            r == spec_clock_id_value(*self),
    {
        match self {
            ClockId::Emmc => 0x1,
            ClockId::Uart => 0x2,
            ClockId::Arm => 0x3,
            ClockId::Core => 0x4,
            ClockId::V3d => 0x5,
            ClockId::H264 => 0x6,
            ClockId::Isp => 0x7,
            ClockId::Sdram => 0x8,
            ClockId::Pixel => 0x9,
            ClockId::Pwm => 0xa,
            ClockId::Hevc => 0xb,
            ClockId::Emmc2 => 0xc,
            ClockId::M2mc => 0xd,
            ClockId::PixelBvb => 0xe,
        }
    }

    /// The clock's name.
    pub fn as_str(&self) -> (r: &'static str)
        ensures
            r@ == spec_clock_name(*self),
    {
        match self {
            ClockId::Emmc => "Emmc",
            ClockId::Uart => "Uart",
            ClockId::Arm => "Arm",
            ClockId::Core => "Core",
            ClockId::V3d => "V3d",
            ClockId::H264 => "H264",
            ClockId::Isp => "Isp",
            ClockId::Sdram => "Sdram",
            ClockId::Pixel => "Pixel",
            ClockId::Pwm => "Pwm",
            ClockId::Hevc => "Hevc",
            ClockId::Emmc2 => "Emmc2",
            ClockId::M2mc => "M2mc",
            ClockId::PixelBvb => "PixelBvb",
        }
    }
}

/// One clock's queried state: whether it exists and runs, and its rate.
pub struct ClockInfo {
    pub id: ClockId,
    pub active: bool,
    pub exists: bool,
    pub rate_hz: u32,
}

/// The request buffer a clock query builds: a rate tag and a state tag for
/// `cid`, in a message of ten tag words.
pub open spec fn spec_clock_request_words(cid: u32) -> Seq<u32> {
    seq![
        52u32,
        0u32,
        0x0003_0002u32,
        8u32,
        0u32,
        cid,
        0u32,
        0x0003_0001u32,
        8u32,
        0u32,
        cid,
        0u32,
        0u32,
    ]
}

/// Decodes a clock query's reply: the rate response and the state response
/// for `clock_id`, with the state word's bit 0 as `active` and bit 1 as
/// `exists`. Fails exactly where either tag's response fails to decode.
pub fn parse_clock_info(message: &Message, clock_id: ClockId) -> (r: Result<ClockInfo, ErrorKind>)
    requires
        message.sized(),
    ensures
        ({
            match spec_tag_payload(message@, 0x0003_0002, 2) {
                Err(e) => r == Err::<ClockInfo, ErrorKind>(e),
                Ok(p) => match spec_tag_payload(message@, 0x0003_0001, 2) {
                    Err(e) => r == Err::<ClockInfo, ErrorKind>(e),
                    Ok(q) => r matches Ok(info) && info.id == clock_id && info.rate_hz == p[1]
                        && info.active == ((q[1] & 1) != 0) && info.exists == ((q[1] & 2) != 0),
                },
            }
        }),
{
    let rate_hz: u32;
    match GetClockRateResponse::read_response(message) {
        Ok(response) => {
            rate_hz = response.rate_hz;
        },
        Err(e) => {
            return Err(e);
        },
    }
    match GetClockStateResponse::read_response(message) {
        Ok(response) => {
            let state_bits: u32 = response.state_bits;
            let active: bool = (state_bits & 1) != 0;
            let exists: bool = (state_bits & 2) != 0;
            Ok(ClockInfo { id: clock_id, active, exists, rate_hz })
        },
        Err(e) => Err(e),
    }
}

/// Queries one clock over the mailbox: builds the two-tag request, exchanges
/// it with the firmware, and decodes the reply with [`parse_clock_info`],
/// which states exactly what each reply yields.
pub fn get_clock_info<P: MailboxPort>(port: &mut P, clock_id: ClockId) -> (r: Result<
    ClockInfo,
    ErrorKind,
>)
    ensures
        r matches Ok(info) ==> info.id == clock_id,
{
    let cid: u32 = clock_id.value();
    let clock_rate_tag = GetClockRateRequest { clock_id: cid }.to_tag();
    let clock_state_tag = GetClockStateRequest { clock_id: cid }.to_tag();
    let message: Message = Message::builder(10).add_tag(&clock_rate_tag).add_tag(
        &clock_state_tag,
    ).build();
    proof {
        assert(message@ =~= spec_clock_request_words(cid));
    }
    let message: Message = send(port, message);
    parse_clock_info(&message, clock_id)
}

/// The clock round trip: a rate-and-state request for any clock, answered by
/// the simulated firmware, decodes back to the requested clock identifier
/// with exactly the injected rate and state bits.
pub proof fn lemma_clock_round_trip(fw: MockFirmware, cid: u32)
    ensures
        spec_tag_payload(respond_words(spec_clock_request_words(cid), fw), 0x0003_0002, 2) == Ok::<
            Seq<u32>,
            ErrorKind,
        >(seq![cid, fw.rate_hz]),
        spec_tag_payload(respond_words(spec_clock_request_words(cid), fw), 0x0003_0001, 2) == Ok::<
            Seq<u32>,
            ErrorKind,
        >(seq![cid, fw.state_bits]),
{
    let req = spec_clock_request_words(cid);
    let resp = respond_words(req, fw);
    let expected = seq![
        52u32,
        0x8000_0000u32,
        0x0003_0002u32,
        8u32,
        0x8000_0008u32,
        cid,
        fw.rate_hz,
        0x0003_0001u32,
        8u32,
        0x8000_0008u32,
        cid,
        fw.state_bits,
        0u32,
    ];
    assert(8u32 | 0x8000_0000u32 == 0x8000_0008u32) by (bit_vector);
    let w1 = req.update(1, 0x8000_0000u32);
    assert(resp == respond_from(w1, fw, 2));
    assert(w1[2] == 0x0003_0002u32 && w1[3] == 8u32 && w1[5] == cid);
    assert(fill_words(fw, 0x0003_0002u32, cid) == seq![cid, fw.rate_hz]);
    let c1 = w1.update(4, 0x8000_0008u32);
    let f1 = splice(c1, 5, seq![cid, fw.rate_hz]);
    assert(respond_from(w1, fw, 2) == respond_from(f1, fw, 7));
    assert(f1[7] == 0x0003_0001u32 && f1[8] == 8u32 && f1[10] == cid);
    assert(fill_words(fw, 0x0003_0001u32, cid) == seq![cid, fw.state_bits]);
    let c2 = f1.update(9, 0x8000_0008u32);
    let f2 = splice(c2, 10, seq![cid, fw.state_bits]);
    assert(respond_from(f1, fw, 7) == respond_from(f2, fw, 12));
    assert(respond_from(f2, fw, 12) == f2);
    assert(f2 =~= expected);
    assert(0x8000_0008u32 >> 31u32 == 1) by (bit_vector);
    assert(0x8000_0008u32 & 0x7FFF_FFFFu32 == 8) by (bit_vector);
    let area = crate::mailbox::message::tag_area(expected);
    assert(area =~= seq![
        0x0003_0002u32,
        8u32,
        0x8000_0008u32,
        cid,
        fw.rate_hz,
        0x0003_0001u32,
        8u32,
        0x8000_0008u32,
        cid,
        fw.state_bits,
    ]);
    assert(crate::mailbox::message::scan_tags(area, 0x0003_0002, 0) == Ok::<int, ErrorKind>(0));
    assert(crate::mailbox::message::scan_tags(area, 0x0003_0001, 0)
        == crate::mailbox::message::scan_tags(area, 0x0003_0001, 5));
    assert(crate::mailbox::message::scan_tags(area, 0x0003_0001, 5) == Ok::<int, ErrorKind>(5));
    assert(area.subrange(3, 5) =~= seq![cid, fw.rate_hz]);
    assert(area.subrange(8, 10) =~= seq![cid, fw.state_bits]);
}

} // verus!

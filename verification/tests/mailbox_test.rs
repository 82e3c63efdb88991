use rpi_kernel::clock::ClockId;
use rpi_kernel::clock::get_clock_info;
use rpi_kernel::mailbox::message::Message;
use rpi_kernel::mailbox::MessageView;
use rpi_kernel::mailbox::mock::MockFirmware;
use rpi_kernel::mailbox::port::channel_word;
use rpi_kernel::mailbox::port::send;
use rpi_kernel::mailbox::tag::GetClockRateRequest;
use rpi_kernel::mailbox::tag::GetClockRateResponse;
use rpi_kernel::mailbox::tag::GetClockStateRequest;
use rpi_kernel::mailbox::tag::GetClockStateResponse;
use rpi_kernel::error::ErrorKind;

// An empty message declares its full length and ends in the zero word.
#[test]
fn build_empty_message_layout() {
    let message = Message::builder(6).build();
    let words = message.to_words();
    assert_eq!(words.len(), 9);
    assert_eq!(words[0], 4 * (3 + 6));
    assert_eq!(words[8], 0);
    assert_eq!(message.size(), 36);
    assert_eq!(message.code(), 0);
}

// An added tag's header stands at its offset with its id and payload size.
#[test]
fn added_tag_header_at_offset() {
    let rate_tag = GetClockRateRequest { clock_id: 2 }.to_tag();
    let state_tag = GetClockStateRequest { clock_id: 7 }.to_tag();
    let message = Message::builder(10)
        .add_tag(&rate_tag)
        .add_tag(&state_tag)
        .build();
    let words = message.to_words();
    assert_eq!(words[0], 4 * (3 + 10));
    // First tag at word 2: id, payload bytes, request code, payload.
    assert_eq!(words[2], 0x0003_0002);
    assert_eq!(words[3], 8);
    assert_eq!(words[4], 0);
    assert_eq!(words[5], 2);
    // Second tag right behind it.
    assert_eq!(words[7], 0x0003_0001);
    assert_eq!(words[8], 8);
    assert_eq!(words[10], 7);
    // Trailing word still zero.
    assert_eq!(words[12], 0);
}

// A tag that would overflow the declared capacity is refused; the message
// is full.
#[test]
fn add_tag_checked_refuses_overflow() {
    let rate_tag = GetClockRateRequest { clock_id: 2 }.to_tag();
    let state_tag = GetClockStateRequest { clock_id: 2 }.to_tag();
    let builder = Message::builder(6);
    let builder = match builder.add_tag_checked(&rate_tag) {
        Some(b) => b,
        None => panic!("first tag must fit"),
    };
    // Five of six words are filled; a second five-word tag cannot fit.
    assert!(builder.add_tag_checked(&state_tag).is_none());
}

// A buffer holding only the request must never decode as a response: the
// response bit is not set.
#[test]
fn read_response_rejects_plain_request() {
    let rate_tag = GetClockRateRequest { clock_id: 2 }.to_tag();
    let message = Message::builder(5).add_tag(&rate_tag).build();
    assert!(matches!(
        GetClockRateResponse::read_response(&message),
        Err(ErrorKind::InvalidInput)
    ));
}

// A buffer without the queried tag decodes to NotFound.
#[test]
fn read_response_absent_tag_not_found() {
    let state_tag = GetClockStateRequest { clock_id: 2 }.to_tag();
    let message = Message::builder(5).add_tag(&state_tag).build();
    assert!(matches!(
        GetClockRateResponse::read_response(&message),
        Err(ErrorKind::NotFound)
    ));
}

// Round trip: a request sent through the simulated firmware decodes back to
// the requested clock with the injected rate and state.
#[test]
fn clock_round_trip_through_mock() {
    let mut fw = MockFirmware::new();
    fw.rate_hz = 48_000_000;
    fw.state_bits = 0b11;
    let rate_tag = GetClockRateRequest { clock_id: 5 }.to_tag();
    let state_tag = GetClockStateRequest { clock_id: 5 }.to_tag();
    let message = Message::builder(10)
        .add_tag(&rate_tag)
        .add_tag(&state_tag)
        .build();
    let reply = send(&mut fw, message);
    assert_eq!(reply.code(), 0x8000_0000);
    let rate = GetClockRateResponse::read_response(&reply).expect("rate response");
    assert_eq!(rate.clock_id, 5);
    assert_eq!(rate.rate_hz, 48_000_000);
    let state = GetClockStateResponse::read_response(&reply).expect("state response");
    assert_eq!(state.clock_id, 5);
    assert_eq!(state.state_bits, 0b11);
}

// The UART clock query: clock 2, simulated rate 3000000.
#[test]
fn uart_clock_rate_query() {
    let mut fw = MockFirmware::new();
    fw.rate_hz = 3_000_000;
    fw.state_bits = 1;
    let info = get_clock_info(&mut fw, ClockId::Uart).expect("clock info");
    assert_eq!(info.rate_hz, 3_000_000);
    assert!(info.active);
    assert!(!info.exists);
    assert!(matches!(info.id, ClockId::Uart));
}

// The composed channel word keeps an aligned address and carries channel 8.
#[test]
fn channel_word_carries_channel_eight() {
    let word = channel_word(0x1234_5670);
    assert_eq!(word & 0xF, 0x8);
    assert_eq!(word & !0xF, 0x1234_5670);
    // A low-bit-dirty address is forced onto the channel.
    assert_eq!(channel_word(0x1234_5677), 0x1234_5678);
}

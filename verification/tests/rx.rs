use pico_gnss::frame::{build_udp_frame, crc32, Ipv4Addr, MacAddr, UdpFrameSpec};
use pico_gnss::phy::{encode_frame, SYMBOL_HIGH, SYMBOL_IDLE, SYMBOL_LOW};
use pico_gnss::rx::{symbols_of, FrameDecoder, RxEvent, State};


const MAX_FRAME: usize = 128;
const MAX_WORDS: usize = MAX_FRAME + 9;

fn receive(words: &[u32], out: &mut [u8]) -> (usize, bool) {
    let mut decoder = FrameDecoder::new();
    let mut len = 0;
    let mut started = false;
    let mut ended = false;
    let stream = core::iter::repeat_n(SYMBOL_IDLE, 8)
        .chain(words.iter().flat_map(|w| symbols_of(*w)))
        .chain(core::iter::repeat_n(SYMBOL_IDLE, 8));
    for symbol in stream {
        match decoder.push(symbol) {
            RxEvent::Start => started = true,
            RxEvent::Byte(b) => {
                out[len] = b;
                len += 1;
            }
            RxEvent::End => ended = true,
            RxEvent::Nothing => {}
        }
    }
    assert!(started, "the decoder never found the SFD");
    (len, ended)
}

fn ntp_sized(frame: &mut [u8; MAX_FRAME], symbols: &mut [u32; MAX_WORDS]) -> (usize, usize) {
    let spec = UdpFrameSpec {
        src_mac: MacAddr([0x02, 0x00, 0x00, 0xC0, 0xFF, 0xEE]),
        dst_mac: MacAddr::broadcast(),
        src_ip: Ipv4Addr::new(192, 168, 0, 200),
        dst_ip: Ipv4Addr::broadcast(),
        src_port: 123,
        dst_port: 123,
        ip_id: 1,
        ttl: 1,
        payload: &[0xA5; 48],
    };
    let len = build_udp_frame(&spec, frame).expect("frame fits");
    let words = encode_frame(&frame[..len], symbols).expect("encodes");
    (len, words)
}

#[test]
fn what_the_transmitter_sent_is_what_the_receiver_reads() {
    let mut frame = [0u8; MAX_FRAME];
    let mut symbols = [0u32; MAX_WORDS];
    let (len, words) = ntp_sized(&mut frame, &mut symbols);
    let mut got = [0u8; MAX_FRAME];
    let (got_len, ended) = receive(&symbols[..words], &mut got);
    assert_eq!(
        &got[..got_len],
        &frame[..len],
        "the bytes come back unchanged"
    );
    assert!(ended, "returning to idle has to end the frame");
}

#[test]
fn the_frame_that_comes_back_still_checks_out() {
    let mut frame = [0u8; MAX_FRAME];
    let mut symbols = [0u32; MAX_WORDS];
    let (_, words) = ntp_sized(&mut frame, &mut symbols);
    let mut got = [0u8; MAX_FRAME];
    let (got_len, _) = receive(&symbols[..words], &mut got);
    let split = got_len - 4;
    let carried = u32::from_le_bytes(got[split..got_len].try_into().expect("four bytes"));
    assert_eq!(crc32(&got[..split]), carried, "FCS must verify");
}

#[test]
fn a_line_that_never_leaves_idle_yields_nothing() {
    let mut decoder = FrameDecoder::new();
    for _ in 0..1000 {
        assert_eq!(decoder.push(SYMBOL_IDLE), RxEvent::Nothing);
    }
}

#[test]
fn the_two_half_bits_of_a_bit_are_what_decides_it() {
    let mut zero = FrameDecoder::new();
    let mut one = FrameDecoder::new();
    assert_eq!(zero.push(SYMBOL_HIGH), RxEvent::Nothing);
    assert_eq!(zero.push(SYMBOL_LOW), RxEvent::Nothing);
    assert_eq!(one.push(SYMBOL_LOW), RxEvent::Nothing);
    assert_eq!(one.push(SYMBOL_HIGH), RxEvent::Nothing);
    assert_ne!(zero.state, State::Idle);
    assert_ne!(one.state, State::Idle);
}

/// Every event but `Nothing` that a stretch of symbols gives.
fn events_of(decoder: &mut FrameDecoder, symbols: &[u32]) -> Vec<RxEvent> {
    symbols
        .iter()
        .map(|&s| decoder.push(s))
        .filter(|&e| e != RxEvent::Nothing)
        .collect()
}

/// The symbols of a short frame, and the events that it gives.
fn short_frame() -> (Vec<u32>, Vec<RxEvent>) {
    let mut out = [0u32; 32];
    let n = encode_frame(&[0x5A, 0xFF], &mut out).expect("encodes");
    let symbols = out[..n].iter().flat_map(|w| symbols_of(*w)).collect();
    let events = vec![
        RxEvent::Start,
        RxEvent::Byte(0x5A),
        RxEvent::Byte(0xFF),
        RxEvent::End,
    ];
    (symbols, events)
}

#[test]
fn a_broken_pair_silences_the_rest_of_the_burst() {
    let (symbols, events) = short_frame();
    // Everything before the line goes idle at the end of the frame.
    let burst: Vec<u32> = symbols.iter().copied().take_while(|&s| s != SYMBOL_IDLE).collect();
    for broken in [[SYMBOL_HIGH, SYMBOL_HIGH], [SYMBOL_LOW, SYMBOL_LOW]] {
        let mut decoder = FrameDecoder::new();
        assert_eq!(events_of(&mut decoder, &broken), vec![]);
        assert_eq!(decoder.state, State::Adrift);
        // A whole frame in the same burst goes unread.
        assert_eq!(events_of(&mut decoder, &burst), vec![]);
        assert_eq!(decoder.push(SYMBOL_IDLE), RxEvent::Nothing);
        assert_eq!(events_of(&mut decoder, &symbols), events);
    }
}

#[test]
fn a_broken_pair_in_a_frame_ends_it_once() {
    let (symbols, events) = short_frame();
    let mut decoder = FrameDecoder::new();
    // The preamble and the SFD are eight bytes, of sixteen symbols each.
    assert_eq!(events_of(&mut decoder, &symbols[..144]), events[..2]);
    assert_eq!(events_of(&mut decoder, &[SYMBOL_LOW, SYMBOL_LOW]), vec![RxEvent::End]);
    assert_eq!(events_of(&mut decoder, &symbols[..160]), vec![]);
    assert_eq!(decoder.push(SYMBOL_IDLE), RxEvent::Nothing);
    assert_eq!(events_of(&mut decoder, &symbols), events);
}

#[test]
fn a_reset_decoder_waits_for_the_line_to_go_idle() {
    let (symbols, events) = short_frame();
    let mut decoder = FrameDecoder::new();
    assert_eq!(events_of(&mut decoder, &symbols[..144]), events[..2]);
    decoder.reset();
    assert_eq!(events_of(&mut decoder, &symbols[..160]), vec![]);
    assert_eq!(decoder.push(SYMBOL_IDLE), RxEvent::Nothing);
    assert_eq!(events_of(&mut decoder, &symbols), events);
}

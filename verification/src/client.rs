//! The time client: it asks rather than listens.
//!
//! A broadcast can only be believed. A question and its answer carry four timestamps, which
//! separate how far the clocks differ from how long the path took. One question is outstanding at a
//! time, and its answer is told by the transmit timestamp that the server echoes.

use vstd::prelude::*;
use crate::frame::{parse_udp_frame, Ipv4Addr, MacAddr, UdpDatagram, UdpFrameSpec};
use crate::link::{hold, lateness_ns, prepare, worth_logging, Hold, PrepareError, Prepared};
use crate::packet::Mode;

verus! {

use crate::arith::in_i64;
use crate::frame::{be16_at, datagram_of, has_udp_datagram, udp_at};
use crate::link::{lateness, prepares, slack};

/// The port that questions are asked from.
pub const CLIENT_PORT: u16 = 50123;

/// How often a question is asked (s).
pub const POLL_INTERVAL_S: u64 = 1;

/// The same as NTP counts it (log2 s).
pub const POLL_LOG2: i8 = 0;

/// How far ahead the departure of a question is set when it is built (ns).
pub const REQ_LAG_NS: i64 = 1_000_000;

/// Width of the 1PPS (ns).
pub const PPS_PULSE_NS: u32 = 100_000_000;

/// How early the word for the next edge of the 1PPS is pushed (ns), against the edge before it: the
/// word that is pulled before an edge is the interval that follows.
pub const PUSH_LEAD_NS: i64 = 200_000_000;

/// Our MAC: locally administered, and not the server's.
pub fn client_mac() -> (m: MacAddr)
    ensures
        m.0@ == seq![0x02u8, 0x00, 0x00, 0xC0, 0xFF, 0xEF],
{
    MacAddr([0x02, 0x00, 0x00, 0xC0, 0xFF, 0xEF])
}

/// Our address.
pub fn client_ip() -> (a: Ipv4Addr)
    ensures
        a.0@ == seq![192u8, 168, 0, 201],
{
    Ipv4Addr::new(192, 168, 0, 201)
}

/// Why a capture was dropped.
#[derive(Debug, Clone, Copy, PartialEq, Eq, Structural)]
pub enum DropReason {
    /// It held no frame.
    NoFrame,
    /// The frame held no sound datagram.
    NotUdp,
    /// The datagram was to neither of our ports.
    WrongPort,
    /// It was an answer, and nothing had been asked.
    ReplyToNothing,
    /// It was neither an answer nor a broadcast.
    NotAnAnswer,
}

/// Takes the datagram out of a frame, if it is to one of our ports: a broadcast goes to the port of
/// the service, an answer to the port that the question left from.
pub fn accept(frame: &[u8], ntp_port: u16) -> (r: Result<UdpDatagram<'_>, DropReason>)
    ensures
        !has_udp_datagram(frame@) <==> r == Err::<UdpDatagram, _>(DropReason::NotUdp),
        r is Ok <==> has_udp_datagram(frame@) && is_ours(
            be16_at(frame@, udp_at(frame@) + 2),
            ntp_port as int,
        ),
        r matches Err(why) ==> why is NotUdp || why is WrongPort,
        r matches Ok(d) ==> datagram_of(frame@, d),
{
    match parse_udp_frame(frame) {
        None => Err(DropReason::NotUdp),
        Some(d) => if d.dst_port != ntp_port && d.dst_port != CLIENT_PORT {
            Err(DropReason::WrongPort)
        } else {
            Ok(d)
        },
    }
}

/// Whether a port is one of ours.
pub open spec fn is_ours(port: int, ntp_port: int) -> bool {
    port == ntp_port || port == CLIENT_PORT
}

/// What is done with a packet.
#[derive(Debug, Clone, Copy, PartialEq, Eq, Structural)]
pub enum Dispatch {
    /// Measure it against the outstanding question.
    Measure,
    /// Take the broadcast at its word.
    Believe,
    /// Count the broadcast and leave it.
    Count,
    /// Drop it.
    Drop(DropReason),
}

/// Decides what is done with a packet of a mode, given whether a question is outstanding and
/// whether this client runs on broadcasts.
pub open spec fn dispatched(mode: Mode, outstanding: bool, broadcast_client: bool) -> Dispatch {
    match mode {
        Mode::Server => if outstanding {
            Dispatch::Measure
        } else {
            Dispatch::Drop(DropReason::ReplyToNothing)
        },
        Mode::Broadcast => if broadcast_client {
            Dispatch::Believe
        } else {
            Dispatch::Count
        },
        _ => Dispatch::Drop(DropReason::NotAnAnswer),
    }
}

/// Counts what became of the captures.
#[derive(Debug, Clone, Copy, PartialEq, Eq, Structural)]
pub struct LinkCounters {
    /// Captures. It wraps.
    pub seen: u32,
    /// Measurements that were used. It wraps.
    pub used: u32,
    /// Captures that were dropped. It wraps.
    pub dropped: u32,
    /// Broadcasts. It wraps.
    pub broadcasts: u32,
}

impl LinkCounters {
    /// Nothing seen.
    pub fn new() -> (r: Self)
        ensures
            r == (LinkCounters { seen: 0, used: 0, dropped: 0, broadcasts: 0 }),
    {
        LinkCounters { seen: 0, used: 0, dropped: 0, broadcasts: 0 }
    }

    /// Counts a capture. Says whether to report how much of it was busy.
    pub fn on_capture(&mut self) -> (report: bool)
        ensures
            *final(self) == (LinkCounters {
                seen: ((old(self).seen + 1) % 0x1_0000_0000) as u32,
                ..*old(self)
            }),
            report == (final(self).seen % 64 == 1),
    {
        self.seen = self.seen.wrapping_add(1);
        self.seen % 64 == 1
    }

    /// Counts a capture that went nowhere. Says whether to report it: there is one every second,
    /// and a line for each would bury everything else.
    pub fn note(&mut self) -> (report: bool)
        ensures
            *final(self) == (LinkCounters {
                dropped: ((old(self).dropped + 1) % 0x1_0000_0000) as u32,
                ..*old(self)
            }),
            report == (final(self).dropped <= 3 || final(self).dropped % 64 == 0),
    {
        self.dropped = self.dropped.wrapping_add(1);
        worth_logging(self.dropped, 3, 64)
    }

    /// Decides what is done with a packet, and counts it if it is a broadcast.
    pub fn dispatch(&mut self, mode: Mode, outstanding: bool, broadcast_client: bool) -> (d: Dispatch)
        ensures
            d == dispatched(mode, outstanding, broadcast_client),
            *final(self) == (if mode is Broadcast {
                LinkCounters {
                    broadcasts: ((old(self).broadcasts + 1) % 0x1_0000_0000) as u32,
                    ..*old(self)
                }
            } else {
                *old(self)
            }),
    {
        match mode {
            Mode::Server => if outstanding {
                Dispatch::Measure
            } else {
                Dispatch::Drop(DropReason::ReplyToNothing)
            },
            Mode::Broadcast => {
                self.broadcasts = self.broadcasts.wrapping_add(1);
                if broadcast_client {
                    Dispatch::Believe
                } else {
                    Dispatch::Count
                }
            },
            _ => Dispatch::Drop(DropReason::NotAnAnswer),
        }
    }

    /// Counts a measurement that was used. Says whether to report it.
    pub fn on_used(&mut self, stepped: bool) -> (report: bool)
        ensures
            *final(self) == (LinkCounters {
                used: ((old(self).used + 1) % 0x1_0000_0000) as u32,
                ..*old(self)
            }),
            report == (stepped || final(self).used % 16 == 0),
    {
        self.used = self.used.wrapping_add(1);
        stepped || self.used % 16 == 0
    }
}

/// The question that is outstanding, if any. A second one asked before the first is answered would
/// make the first one's answer unmatchable, so there is never more than one.
#[derive(Debug, Clone, Copy)]
pub struct Outstanding<P> {
    /// The question as it was sent.
    pub question: Option<P>,
}

impl<P: Copy> Outstanding<P> {
    /// Nothing was asked.
    pub fn new() -> (r: Self)
        ensures
            r.question is None,
    {
        Outstanding { question: None }
    }

    /// A question goes out; any older one is given up.
    pub fn ask(&mut self, question: P)
        ensures
            final(self).question == Some(question),
    {
        self.question = Some(question);
    }

    /// The question to measure an answer against. Looking at it does not spend it: a packet of the
    /// right mode need not be our answer, and a stray one must not cost the real one its question.
    pub fn peek(&self) -> (r: Option<P>)
        ensures
            r == self.question,
    {
        self.question
    }

    /// An answer was measured: the question is spent only if it matched.
    pub fn on_measured(&mut self, matched: bool)
        ensures
            final(self).question == (if matched {
                None
            } else {
                old(self).question
            }),
    {
        if matched {
            self.question = None;
        }
    }
}

/// The offset of the server against local time (ns), given the offset that was measured against the
/// hint at which the answer was said to have arrived.
pub fn offset_to_local(measured_ns: i64, hint_ns: i64, arrived_ns: i64) -> (r: i64)
    requires
        in_i64(hint_ns - arrived_ns),
        in_i64(measured_ns + (hint_ns - arrived_ns)),
    ensures
        r == measured_ns + (hint_ns - arrived_ns),
{
    measured_ns + (hint_ns - arrived_ns)
}

/// When a question built now says that it departs (ns): by the clock, if there is one yet, else by
/// local time, which is as good a tag to tell its answer by.
pub fn request_departure(utc_ns: Option<i64>, local_ns: i64) -> (d: i64)
    requires
        local_ns <= i64::MAX - REQ_LAG_NS,
        utc_ns matches Some(u) ==> u <= i64::MAX - REQ_LAG_NS,
    ensures
        d == (match utc_ns {
            Some(u) => u,
            None => local_ns,
        }) + REQ_LAG_NS,
{
    match utc_ns {
        Some(u) => u + REQ_LAG_NS,
        None => local_ns + REQ_LAG_NS,
    }
}

/// How long to hold a question that took `spent_ns` to prepare.
pub fn hold_request(spent_ns: i64) -> (h: Hold)
    requires
        i64::MIN < slack(REQ_LAG_NS as int, spent_ns as int) <= i64::MAX,
    ensures
        h.slack_ns == slack(REQ_LAG_NS as int, spent_ns as int),
        h.wait_us == (if h.slack_ns > 0 {
            Some((h.slack_ns / 1000) as u64)
        } else {
            None
        }),
        h.late_ns == (if h.slack_ns > 0 {
            None
        } else {
            Some((-h.slack_ns) as i64)
        }),
{
    hold(REQ_LAG_NS, spent_ns)
}

/// The datagram of a question.
pub open spec fn is_request_spec(spec: UdpFrameSpec, payload: Seq<u8>, port: u16, ip_id: u16) -> bool {
    &&& spec.src_mac.0@ == seq![0x02u8, 0x00, 0x00, 0xC0, 0xFF, 0xEF]
    &&& spec.dst_mac.0@ == seq![0x02u8, 0x00, 0x00, 0xC0, 0xFF, 0xEE]
    &&& spec.src_ip.0@ == seq![192u8, 168, 0, 201]
    &&& spec.dst_ip.0@ == seq![192u8, 168, 0, 200]
    &&& spec.src_port == CLIENT_PORT
    &&& spec.dst_port == port
    &&& spec.ip_id == ip_id
    &&& spec.ttl == 1
    &&& spec.payload@ == payload
}

/// Builds the frame of a question and its symbols.
pub fn build_request(
    payload: &[u8],
    port: u16,
    ip_id: u16,
    frame: &mut [u8],
    symbols: &mut [u32],
) -> (r: Result<Prepared, PrepareError>)
    ensures
        exists|spec: UdpFrameSpec|
            #[trigger] is_request_spec(spec, payload@, port, ip_id) && prepares(
                spec,
                old(frame)@,
                old(symbols)@,
                r,
                final(frame)@,
                final(symbols)@,
            ),
{
    let spec = UdpFrameSpec {
        src_mac: client_mac(),
        dst_mac: crate::beacon::src_mac(),
        src_ip: client_ip(),
        dst_ip: crate::beacon::src_ip(),
        src_port: CLIENT_PORT,
        dst_port: port,
        ip_id,
        ttl: 1,
        payload,
    };
    assert(is_request_spec(spec, payload@, port, ip_id));
    prepare(&spec, frame, symbols)
}

/// The estimate at the next edge of the 1PPS.
#[derive(Debug, Clone, Copy, PartialEq, Eq, Structural)]
pub struct EdgeEstimate {
    /// The time at the edge (ns).
    pub utc_ns: i64,
    /// Drift of the local clock (ppb).
    pub drift_ppb: i64,
    /// Whether there is enough to steer by.
    pub locked: bool,
}

/// How the 1PPS goes on.
#[derive(Debug, Clone, Copy, PartialEq, Eq, Structural)]
pub enum ClientSteer {
    /// At the nominal second: nothing has arrived yet.
    FreeRun,
    /// At the estimated frequency, without touching the phase.
    Coast { freq_mppb: i64 },
    /// At the estimated frequency, towards the boundary that it is `late_ns` past.
    Advance { freq_mppb: i64, late_ns: i64 },
}

/// Decides how the 1PPS goes on.
pub fn steer_client_pps(estimate: Option<EdgeEstimate>) -> (s: ClientSteer)
    requires
        estimate matches Some(e) ==> in_i64(e.drift_ppb * 1000),
    ensures
        s == (match estimate {
            None => ClientSteer::FreeRun,
            Some(e) => if e.locked {
                ClientSteer::Advance {
                    freq_mppb: (e.drift_ppb * 1000) as i64,
                    late_ns: lateness(e.utc_ns as int) as i64,
                }
            } else {
                ClientSteer::Coast { freq_mppb: (e.drift_ppb * 1000) as i64 }
            },
        }),
{
    match estimate {
        None => ClientSteer::FreeRun,
        Some(e) => {
            let freq_mppb: i64 = e.drift_ppb * 1000;
            if e.locked {
                ClientSteer::Advance { freq_mppb, late_ns: lateness_ns(e.utc_ns) }
            } else {
                ClientSteer::Coast { freq_mppb }
            }
        },
    }
}

/// Only an answer is measured, and only against an outstanding question; only a broadcast is ever
/// believed, and only by a client that runs on broadcasts.
pub proof fn law_only_answers_are_measured(mode: Mode, outstanding: bool, broadcast_client: bool)
    ensures
        dispatched(mode, outstanding, broadcast_client) is Measure <==> mode is Server
            && outstanding,
        dispatched(mode, outstanding, broadcast_client) is Believe <==> mode is Broadcast
            && broadcast_client,
{
}

/// What is not measured or believed: an answer to nothing is dropped, a broadcast is counted, and
/// anything else is dropped as no answer.
pub proof fn law_other_packets_go_nowhere(mode: Mode, outstanding: bool, broadcast_client: bool)
    ensures
        dispatched(Mode::Server, false, broadcast_client) == Dispatch::Drop(
            DropReason::ReplyToNothing,
        ),
        dispatched(Mode::Broadcast, outstanding, false) == Dispatch::Count,
        !(mode is Server) && !(mode is Broadcast) ==> dispatched(mode, outstanding, broadcast_client)
            == Dispatch::Drop(DropReason::NotAnAnswer),
{
}

/// Our ports are that of the service and the one that questions leave from.
pub proof fn law_our_ports_are_two(port: int, ntp_port: int)
    ensures
        is_ours(port, ntp_port) <==> port == ntp_port || port == 50_123,
{
}

/// A question goes from the client to the server, and its answer comes back to the port that it
/// left from: the one end is .201, the other .200, and their MACs differ in the last byte alone.
pub proof fn law_question_goes_to_the_server(
    spec: UdpFrameSpec,
    payload: Seq<u8>,
    port: u16,
    ip_id: u16,
)
    requires
        is_request_spec(spec, payload, port, ip_id),
    ensures
        spec.src_ip.0@ == seq![192u8, 168, 0, 201] && spec.dst_ip.0@ == seq![192u8, 168, 0, 200],
        spec.src_mac.0@ == seq![0x02u8, 0, 0, 0xC0, 0xFF, 0xEF],
        spec.dst_mac.0@ == seq![0x02u8, 0, 0, 0xC0, 0xFF, 0xEE],
        spec.src_port == 50_123 && spec.dst_port == port,
        is_ours(spec.src_port as int, port as int),
        spec.ip_id == ip_id && spec.ttl == 1 && spec.payload@ == payload,
{
}

/// Whatever hint an answer is measured against, the offset comes out the same: the server's time at
/// the arrival less local time.
pub proof fn law_offset_does_not_depend_on_the_hint(
    server_ns: int,
    arrived_ns: i64,
    hint_ns: i64,
    measured_ns: i64,
    r: i64,
)
    requires
        measured_ns == server_ns - hint_ns,
        call_ensures(offset_to_local, (measured_ns, hint_ns, arrived_ns), r),
    ensures
        r == server_ns - arrived_ns,
{
}

/// A question departs a millisecond after it is built, by the clock if there is one.
pub proof fn law_question_departs_a_millisecond_on(utc_ns: i64, local_ns: i64, a: i64, b: i64)
    requires
        call_ensures(request_departure, (Some(utc_ns), local_ns), a),
        call_ensures(request_departure, (None::<i64>, local_ns), b),
    ensures
        a == utc_ns + 1_000_000,
        b == local_ns + 1_000_000,
{
}

/// A client without an estimate runs free, one that is not locked keeps its phase, and a locked one
/// makes for the nearest second; the frequency is the drift in milli-ppb.
pub proof fn law_client_steers_by_its_estimate(e: EdgeEstimate, s: ClientSteer, free: ClientSteer)
    requires
        call_ensures(steer_client_pps, (Some(e),), s),
        call_ensures(steer_client_pps, (None::<EdgeEstimate>,), free),
        in_i64(e.drift_ppb * 1000),
    ensures
        free is FreeRun,
        e.locked <==> s is Advance,
        !e.locked ==> s == (ClientSteer::Coast { freq_mppb: (1000 * e.drift_ppb) as i64 }),
        s matches ClientSteer::Advance { freq_mppb, late_ns } ==> freq_mppb == 1000 * e.drift_ppb && (
        e.utc_ns - late_ns) % 1_000_000_000 == 0 && -500_000_000 < late_ns <= 500_000_000,
{
    crate::link::law_lateness_is_to_the_nearest_second(e.utc_ns as int, 0);
}

} // verus!

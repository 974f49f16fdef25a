//! The time server: one broadcast per second, and answers to questions in between.
//!
//! One task owns the transmitter. It answers a pending question first; otherwise it keeps the link
//! up with link pulses until the next second is less than one link-pulse interval away, builds the
//! packet for it, sleeps to the boundary and hands the frame over. What the packet claims is the
//! boundary plus the measured lag from there to the first bit on the pair.

use vstd::prelude::*;
use crate::frame::{parse_udp_frame, Ipv4Addr, MacAddr, UdpFrameSpec};
use crate::link::{
    hold, lateness_ns, prepare, Hold, PrepareError, Prepared, NTP_PORT, SECOND_NS, WIRE_LAG_NS,
};
use crate::phy::NLP_INTERVAL_US;
use crate::server::{broadcast, silent_reason, ClockState, ServeDecision, ServerConfig, SilentReason};

verus! {

use crate::arith::in_i64;
use crate::frame::{be16_at, datagram_of, has_udp_datagram, udp_at, UdpDatagram};
use crate::link::{lateness, prepares, slack};
use crate::server::{is_broadcast, silence};

/// From the second boundary to the handover of the frame (ns), as measured.
pub const HANDOVER_LAG_NS: i64 = 118_400;

/// From the second boundary to the first bit on the pair (ns).
pub const TX_LAG_NS: i64 = HANDOVER_LAG_NS + WIRE_LAG_NS;

/// How far ahead the departure of a reply is set when it is built (ns): more than the longest
/// build takes.
pub const REPLY_LAG_NS: i64 = 1_000_000;

/// How many of the first frames are dumped to the log.
pub const FRAME_DUMPS: u32 = 3;

/// Width of the 1PPS that shows the served time (ns).
pub const PPS_OUT_PULSE_NS: u32 = 100_000_000;

/// How early the word for the next edge of that 1PPS is pushed (ns).
pub const PPS_OUT_LEAD_NS: i64 = 200_000_000;

/// Our MAC: locally administered, so that it collides with no assigned one.
pub fn src_mac() -> (m: MacAddr)
    ensures
        m.0@ == seq![0x02u8, 0x00, 0x00, 0xC0, 0xFF, 0xEE],
{
    MacAddr([0x02, 0x00, 0x00, 0xC0, 0xFF, 0xEE])
}

/// Our address, by which a client identifies the source.
pub fn src_ip() -> (a: Ipv4Addr)
    ensures
        a.0@ == seq![192u8, 168, 0, 200],
{
    Ipv4Addr::new(192, 168, 0, 200)
}

/// How this server describes its clock: a GPS reference timestamped to 30.5 us, an uncertainty of a
/// millisecond that grows by 1 ppm without a pulse, and silence after an hour without one.
pub fn server_config() -> (c: ServerConfig)
    ensures
        c.precision == -15,
        c.poll == 0,
        c.reference_id@ == seq![0x47u8, 0x50, 0x53, 0x00],
        c.base_dispersion_ns == 1_000_000,
        c.holdover_drift_ppb == 1_000,
        c.max_holdover_ns == 3_600_000_000_000,
{
    ServerConfig {
        precision: -15,
        poll: 0,
        reference_id: [0x47, 0x50, 0x53, 0x00],
        base_dispersion_ns: 1_000_000,
        holdover_drift_ppb: 1_000,
        max_holdover_ns: 3_600_000_000_000,
    }
}

/// A software time on the scale of the capture counter, which started at `origin_ns`; there is
/// none before it started.
pub fn capture_ns(origin_ns: Option<i64>, software_ns: i64) -> (r: Option<u64>)
    ensures
        r is Some <==> origin_ns is Some && in_i64(software_ns - origin_ns->0),
        r matches Some(c) ==> c == (software_ns - origin_ns->0) % 0x1_0000_0000_0000_0000,
{
    match origin_ns {
        None => None,
        Some(origin) => match software_ns.checked_sub(origin) {
            None => None,
            Some(d) => if d >= 0 {
                Some(d as u64)
            } else {
                Some(u64::MAX - ((-1 - d) as u64))
            },
        },
    }
}

/// What the server policy needs to know of the clock. The clock was last set as long ago as it has
/// been extrapolating.
pub fn clock_state(now_unix_ns: Option<i64>, holdover_ns: u64, frequency_locked: bool) -> (s:
    ClockState)
    requires
        holdover_ns <= i64::MAX,
        now_unix_ns matches Some(n) ==> in_i64(n - holdover_ns),
    ensures
        s.last_update_unix_ns == (match now_unix_ns {
            Some(n) => Some((n - holdover_ns) as i64),
            None => None,
        }),
        s.holdover_ns == holdover_ns,
        s.frequency_locked == frequency_locked,
{
    let last_update_unix_ns: Option<i64> = match now_unix_ns {
        Some(n) => Some(n - holdover_ns as i64),
        None => None,
    };
    ClockState { last_update_unix_ns, holdover_ns, frequency_locked }
}

/// What the transmitter does next.
#[derive(Debug, Clone, Copy, PartialEq, Eq, Structural)]
pub enum BeaconPlan {
    /// Emit a link pulse and wait one link-pulse interval.
    LinkPulse,
    /// Build the packet for a second that is about to begin.
    Build {
        /// The second (ns).
        target_unix_ns: i64,
        /// The departure that the packet claims (ns).
        claimed_unix_ns: i64,
    },
}

/// The broadcast of one packet per second.
#[derive(Debug, Clone, Copy, PartialEq, Eq, Structural)]
pub struct Beacon {
    /// The last second that was aimed at (ns).
    pub last_target_ns: Option<i64>,
    /// Identification of the last datagram. It wraps.
    pub ip_id: u16,
    /// Packets sent. It wraps.
    pub sent: u32,
}

impl Beacon {
    /// The second to aim at: the next whole one, or the one after the last that was aimed at. A
    /// frame may be handed over shortly before its boundary, which would otherwise come up again.
    pub open spec fn target(self, now: int) -> int {
        let next = (now / 1_000_000_000 + 1) * 1_000_000_000;
        match self.last_target_ns {
            Some(last) => if next <= last {
                last + 1_000_000_000
            } else {
                next
            },
            None => next,
        }
    }

    /// What holds of every beacon: it aims at whole seconds.
    pub open spec fn wf(self) -> bool {
        self.last_target_ns matches Some(t) ==> t % 1_000_000_000 == 0
    }

    /// Whether a time can be planned for.
    pub open spec fn plannable(self, now: i64) -> bool {
        in_i64(self.target(now as int) + TX_LAG_NS) && in_i64(self.target(now as int) - now)
            && in_i64((now as int / 1_000_000_000 + 1) * 1_000_000_000)
    }

    /// Whether the boundary is near enough to build for: the sleep to it is at most one link-pulse
    /// interval, so that it is never stepped over.
    pub open spec fn near(self, now: int) -> bool {
        self.target(now) - now <= NLP_INTERVAL_US * 1000
    }

    /// Whether to build for a second: the source is trusted, the time is known, and the boundary is
    /// near.
    pub open spec fn builds(self, trusted: bool, now: Option<i64>) -> bool {
        trusted && (now matches Some(n) && self.near(n as int))
    }

    /// A beacon that has sent nothing.
    pub fn new() -> (r: Self)
        ensures
            r == (Beacon { last_target_ns: None, ip_id: 0, sent: 0 }),
            r.wf(),
    {
        Beacon { last_target_ns: None, ip_id: 0, sent: 0 }
    }

    /// The next datagram's identification.
    pub fn next_id(&mut self) -> (id: u16)
        ensures
            *final(self) == (Beacon {
                ip_id: ((old(self).ip_id + 1) % 0x1_0000) as u16,
                ..*old(self)
            }),
            id == final(self).ip_id,
    {
        self.ip_id = self.ip_id.wrapping_add(1);
        self.ip_id
    }

    /// The second to aim at.
    fn aim(&self, now: i64) -> (t: i64)
        requires
            self.plannable(now),
        ensures
            t == self.target(now as int),
    {
        let rem: i64 = now % SECOND_NS;
        let whole: i64 = now / SECOND_NS;
        proof {
            lemma_floor_division(now as int, rem as int, whole as int);
        }
        let floor: i64 = if rem < 0 {
            whole - 1
        } else {
            whole
        };
        let next: i64 = (floor + 1) * SECOND_NS;
        match self.last_target_ns {
            Some(last) => if next <= last {
                last + SECOND_NS
            } else {
                next
            },
            None => next,
        }
    }

    /// Decides whether to build for the next second. `trusted` says whether the receiver runs at
    /// the rate that the pairing of pulses and seconds depends on; without it the second may be
    /// wrong, and silence is better.
    pub fn plan(&mut self, trusted: bool, now_unix_ns: Option<i64>) -> (p: BeaconPlan)
        requires
            old(self).wf(),
            now_unix_ns matches Some(n) ==> old(self).plannable(n),
        ensures
            final(self).wf(),
            old(self).builds(trusted, now_unix_ns) ==> {
                let t = old(self).target(now_unix_ns->0 as int);
                &&& p == (BeaconPlan::Build {
                    target_unix_ns: t as i64,
                    claimed_unix_ns: (t + TX_LAG_NS) as i64,
                })
                &&& *final(self) == (Beacon { last_target_ns: Some(t as i64), ..*old(self) })
            },
            !old(self).builds(trusted, now_unix_ns) ==> p is LinkPulse && *final(self)
                == *old(self),
            p matches BeaconPlan::Build { target_unix_ns, claimed_unix_ns } ==> claimed_unix_ns
                == target_unix_ns + 236_200,
    {
        if !trusted {
            return BeaconPlan::LinkPulse;
        }
        match now_unix_ns {
            None => BeaconPlan::LinkPulse,
            Some(now) => {
                let target: i64 = self.aim(now);
                if target - now > NLP_INTERVAL_US as i64 * 1000 {
                    return BeaconPlan::LinkPulse;
                }
                proof {
                    lemma_target_is_whole(*self, now as int);
                }
                self.last_target_ns = Some(target);
                BeaconPlan::Build { target_unix_ns: target, claimed_unix_ns: target + TX_LAG_NS }
            },
        }
    }

    /// A frame went out. Says whether to dump it to the log.
    pub fn on_sent(&mut self) -> (dump: bool)
        ensures
            *final(self) == (Beacon {
                sent: ((old(self).sent + 1) % 0x1_0000_0000) as u32,
                ..*old(self)
            }),
            dump == (final(self).sent <= FRAME_DUMPS),
    {
        self.sent = self.sent.wrapping_add(1);
        self.sent <= FRAME_DUMPS
    }
}

/// Truncated division, moved into range, is the floored one.
proof fn lemma_floor_division(x: int, rem: int, quot: int)
    requires
        rem == crate::arith::trem(x, 1_000_000_000),
        quot == crate::arith::tdiv(x, 1_000_000_000),
    ensures
        x / 1_000_000_000 == (if rem < 0 { quot - 1 } else { quot }),
{
}

/// Every second that is aimed at is whole.
proof fn lemma_target_is_whole(b: Beacon, now: int)
    requires
        b.wf(),
    ensures
        b.target(now) % 1_000_000_000 == 0,
{
    let q = now / 1_000_000_000 + 1;
    assert((q * 1_000_000_000) % 1_000_000_000 == 0);
}

/// The clock to build from: as it is now, unless it has lost its epoch since the second was aimed
/// at.
pub fn fresher(now: ClockState, before: ClockState) -> (s: ClockState)
    ensures
        s == (if now.last_update_unix_ns is Some { now } else { before }),
{
    if now.last_update_unix_ns.is_some() {
        now
    } else {
        before
    }
}

/// Decides on the packet for a second: what to send, or why to keep silent.
pub fn decide(
    cfg: &ServerConfig,
    state_now: ClockState,
    state_before: ClockState,
    claimed_unix_ns: i64,
) -> (d: ServeDecision)
    ensures
        ({
            let state = if state_now.last_update_unix_ns is Some {
                state_now
            } else {
                state_before
            };
            match d {
                ServeDecision::Silent(reason) => silence(*cfg, state) == Some(reason),
                ServeDecision::Serve(p) => silence(*cfg, state) is None && is_broadcast(
                    *cfg,
                    state,
                    claimed_unix_ns,
                    p,
                ),
            }
        }),
{
    let state = fresher(state_now, state_before);
    broadcast(cfg, &state, claimed_unix_ns)
}

/// How long to sleep to the boundary (us), by the clock as it is after the build.
pub fn remaining_us(target_unix_ns: i64, now_unix_ns: i64) -> (r: u64)
    requires
        in_i64(target_unix_ns - now_unix_ns),
    ensures
        r == (if target_unix_ns > now_unix_ns {
            (target_unix_ns - now_unix_ns) / 1000
        } else {
            0
        }),
{
    let remaining: i64 = target_unix_ns - now_unix_ns;
    if remaining > 0 {
        (remaining / 1000) as u64
    } else {
        0
    }
}

/// Says whether a frame that is ready may still go out. Whether the clock may be served is a
/// question about the moment of transmission, not about that of the build.
pub fn veto(cfg: &ServerConfig, state_at_handover: &ClockState) -> (r: Option<SilentReason>)
    ensures
        r == silence(*cfg, *state_at_handover),
{
    silent_reason(cfg, state_at_handover)
}

/// How far the handover is from where the measured lag puts it (ns).
pub fn residual_ns(handover_unix_ns: i64, target_unix_ns: i64) -> (r: i64)
    requires
        in_i64(handover_unix_ns - target_unix_ns),
        in_i64(handover_unix_ns - target_unix_ns - HANDOVER_LAG_NS),
    ensures
        r == handover_unix_ns - target_unix_ns - HANDOVER_LAG_NS,
{
    handover_unix_ns - target_unix_ns - HANDOVER_LAG_NS
}

/// The datagram of a broadcast: to everyone on the link, from the service's port, and not beyond
/// one hop.
pub open spec fn is_beacon_spec(spec: UdpFrameSpec, payload: Seq<u8>, dst_port: u16, ip_id: u16) -> bool {
    &&& spec.src_mac.0@ == seq![0x02u8, 0x00, 0x00, 0xC0, 0xFF, 0xEE]
    &&& spec.dst_mac.0@ == seq![0xffu8, 0xff, 0xff, 0xff, 0xff, 0xff]
    &&& spec.src_ip.0@ == seq![192u8, 168, 0, 200]
    &&& spec.dst_ip.0@ == seq![255u8, 255, 255, 255]
    &&& spec.src_port == NTP_PORT
    &&& spec.dst_port == dst_port
    &&& spec.ip_id == ip_id
    &&& spec.ttl == 1
    &&& spec.payload@ == payload
}

/// Describes the datagram of a broadcast.
pub fn beacon_spec<'a>(payload: &'a [u8], dst_port: u16, ip_id: u16) -> (spec: UdpFrameSpec<'a>)
    ensures
        is_beacon_spec(spec, payload@, dst_port, ip_id),
{
    UdpFrameSpec {
        src_mac: src_mac(),
        dst_mac: MacAddr::broadcast(),
        src_ip: src_ip(),
        dst_ip: Ipv4Addr::broadcast(),
        src_port: NTP_PORT,
        dst_port,
        ip_id,
        ttl: 1,
        payload,
    }
}

/// Builds the frame of a broadcast and its symbols.
pub fn build_beacon(
    payload: &[u8],
    dst_port: u16,
    ip_id: u16,
    frame: &mut [u8],
    symbols: &mut [u32],
) -> (r: Result<Prepared, PrepareError>)
    ensures
        exists|spec: UdpFrameSpec|
            #[trigger] is_beacon_spec(spec, payload@, dst_port, ip_id) && prepares(
                spec,
                old(frame)@,
                old(symbols)@,
                r,
                final(frame)@,
                final(symbols)@,
            ),
{
    let spec = beacon_spec(payload, dst_port, ip_id);
    prepare(&spec, frame, symbols)
}

/// A question that arrived, and when. The moment cannot be recovered later; the answer can wait
/// for the transmitter.
#[derive(Debug)]
pub struct PendingRequest {
    /// The packet.
    pub payload: Vec<u8>,
    /// When it arrived (ns).
    pub receive_unix_ns: i64,
    /// Who asked.
    pub src_mac: MacAddr,
    /// Their address.
    pub src_ip: Ipv4Addr,
    /// The port to answer to.
    pub src_port: u16,
}

/// Takes a question out of a frame that arrived at `receive_unix_ns`: a sound datagram to the port
/// of the service. What the packet in it says is not looked at here.
pub fn take_request(frame: &[u8], port: u16, receive_unix_ns: i64) -> (r: Option<PendingRequest>)
    ensures
        r is Some <==> has_udp_datagram(frame@) && be16_at(frame@, udp_at(frame@) + 2) == port,
        r matches Some(q) ==> q.receive_unix_ns == receive_unix_ns && exists|d: UdpDatagram|
            #[trigger]
            datagram_of(frame@, d) && q.payload@ == d.payload@ && q.src_mac == d.src_mac && q.src_ip
                == d.src_ip && q.src_port == d.src_port,
{
    let datagram = match parse_udp_frame(frame) {
        Some(d) => d,
        None => {
            return None;
        },
    };
    if datagram.dst_port != port {
        return None;
    }
    let mut payload: Vec<u8> = Vec::new();
    let mut i: usize = 0;
    while i < datagram.payload.len()
        invariant
            i <= datagram.payload@.len(),
            payload@ == datagram.payload@.take(i as int),
        decreases datagram.payload@.len() - i,
    {
        payload.push(datagram.payload[i]);
        i = i + 1;
        assert(payload@ =~= datagram.payload@.take(i as int));
    }
    assert(payload@ =~= datagram.payload@);
    Some(
        PendingRequest {
            payload,
            receive_unix_ns,
            src_mac: datagram.src_mac,
            src_ip: datagram.src_ip,
            src_port: datagram.src_port,
        },
    )
}

/// When a reply built at `now_unix_ns` says that it departs (ns).
pub fn reply_departure(now_unix_ns: i64) -> (d: i64)
    requires
        now_unix_ns <= i64::MAX - REPLY_LAG_NS,
    ensures
        d == now_unix_ns + REPLY_LAG_NS,
{
    now_unix_ns + REPLY_LAG_NS
}

/// How long to hold a reply that took `spent_ns` to prepare.
pub fn hold_reply(spent_ns: i64) -> (h: Hold)
    requires
        i64::MIN < slack(REPLY_LAG_NS as int, spent_ns as int) <= i64::MAX,
    ensures
        h.slack_ns == slack(REPLY_LAG_NS as int, spent_ns as int),
        h.wait_us == (if h.slack_ns > 0 {
            Some((h.slack_ns / 1000) as u64)
        } else {
            None
        }),
        h.late_ns == (if h.slack_ns > 0 {
            None
        } else {
            Some((-h.slack_ns) as i64)
        }),
{
    hold(REPLY_LAG_NS, spent_ns)
}

/// The datagram of a reply: back to whoever asked.
pub open spec fn is_reply_spec(
    spec: UdpFrameSpec,
    request: PendingRequest,
    payload: Seq<u8>,
    port: u16,
    ip_id: u16,
) -> bool {
    &&& spec.src_mac.0@ == seq![0x02u8, 0x00, 0x00, 0xC0, 0xFF, 0xEE]
    &&& spec.dst_mac == request.src_mac
    &&& spec.src_ip.0@ == seq![192u8, 168, 0, 200]
    &&& spec.dst_ip == request.src_ip
    &&& spec.src_port == port
    &&& spec.dst_port == request.src_port
    &&& spec.ip_id == ip_id
    &&& spec.ttl == 1
    &&& spec.payload@ == payload
}

/// Builds the frame of a reply and its symbols.
pub fn build_reply(
    request: &PendingRequest,
    payload: &[u8],
    port: u16,
    ip_id: u16,
    frame: &mut [u8],
    symbols: &mut [u32],
) -> (r: Result<Prepared, PrepareError>)
    ensures
        exists|spec: UdpFrameSpec|
            #[trigger] is_reply_spec(spec, *request, payload@, port, ip_id) && prepares(
                spec,
                old(frame)@,
                old(symbols)@,
                r,
                final(frame)@,
                final(symbols)@,
            ),
{
    let spec = UdpFrameSpec {
        src_mac: src_mac(),
        dst_mac: request.src_mac,
        src_ip: src_ip(),
        dst_ip: request.src_ip,
        src_port: port,
        dst_port: request.src_port,
        ip_id,
        ttl: 1,
        payload,
    };
    assert(is_reply_spec(spec, *request, payload@, port, ip_id));
    prepare(&spec, frame, symbols)
}

/// Counts what the receive path sees.
#[derive(Debug, Clone, Copy, PartialEq, Eq, Structural)]
pub struct RequestCounter {
    /// Captures. It wraps.
    pub seen: u32,
    /// Questions among them. It wraps.
    pub taken: u32,
}

impl RequestCounter {
    /// Nothing seen.
    pub fn new() -> (r: Self)
        ensures
            r == (RequestCounter { seen: 0, taken: 0 }),
    {
        RequestCounter { seen: 0, taken: 0 }
    }

    /// Counts a capture.
    pub fn on_capture(&mut self)
        ensures
            *final(self) == (RequestCounter {
                seen: ((old(self).seen + 1) % 0x1_0000_0000) as u32,
                ..*old(self)
            }),
    {
        self.seen = self.seen.wrapping_add(1);
    }

    /// Counts a question. Says whether to report.
    pub fn on_request(&mut self) -> (report: bool)
        ensures
            *final(self) == (RequestCounter {
                taken: ((old(self).taken + 1) % 0x1_0000_0000) as u32,
                ..*old(self)
            }),
            report == (final(self).taken % 16 == 0),
    {
        self.taken = self.taken.wrapping_add(1);
        self.taken % 16 == 0
    }
}

/// How the 1PPS that shows the served time goes on.
#[derive(Debug, Clone, Copy, PartialEq, Eq, Structural)]
pub enum PpsSteer {
    /// At the nominal second: there is nothing to steer by.
    FreeRun,
    /// Towards the boundary that it is `late_ns` past.
    Advance { late_ns: i64 },
}

/// Decides how the 1PPS goes on, given the time at its next edge.
pub fn steer_pps(edge_unix_ns: Option<i64>, trusted: bool) -> (s: PpsSteer)
    ensures
        s == (match edge_unix_ns {
            Some(utc) => if trusted {
                PpsSteer::Advance { late_ns: lateness(utc as int) as i64 }
            } else {
                PpsSteer::FreeRun
            },
            None => PpsSteer::FreeRun,
        }),
{
    match edge_unix_ns {
        Some(utc) if trusted => PpsSteer::Advance { late_ns: lateness_ns(utc) },
        _ => PpsSteer::FreeRun,
    }
}

/// No second is served twice: each second that is aimed at is whole, lies ahead, is no further
/// ahead than one link-pulse interval when the packet for it is built, and comes after the last.
pub proof fn law_each_second_is_served_once(b: Beacon, now: i64)
    requires
        b.wf(),
        b.builds(true, Some(now)),
    ensures
        ({
            let t = b.target(now as int);
            &&& t % 1_000_000_000 == 0
            &&& now < t <= now + NLP_INTERVAL_US * 1000
            &&& b.last_target_ns matches Some(last) ==> t >= last + 1_000_000_000
        }),
{
    lemma_target_is_whole(b, now as int);
    let n = now as int;
    assert(n < (n / 1_000_000_000 + 1) * 1_000_000_000);
    if let Some(last) = b.last_target_ns {
        let next = (n / 1_000_000_000 + 1) * 1_000_000_000;
        if next > last {
            assert(next % 1_000_000_000 == 0);
        }
    }
}

/// No second is stepped over: however the polls fall, as long as each comes within one link-pulse
/// interval of the last, the boundary that is next at one poll is either built for at that poll or
/// still ahead at the following one.
pub proof fn law_no_second_is_stepped_over(b: Beacon, now: int, later: int)
    requires
        b.wf(),
        now <= later <= now + NLP_INTERVAL_US * 1000,
        !b.near(now),
    ensures
        later < b.target(now),
        b.target(later) == b.target(now),
{
    let t = b.target(now);
    let next = (now / 1_000_000_000 + 1) * 1_000_000_000;
    assert(now < next <= t || next <= t);
    lemma_target_is_whole(b, now);
    match b.last_target_ns {
        Some(last) => {
            if next <= last {
                let next2 = (later / 1_000_000_000 + 1) * 1_000_000_000;
                assert(next2 <= last + 1_000_000_000);
                assert(next2 % 1_000_000_000 == 0);
                assert(t == last + 1_000_000_000);
                assert(later < t);
            } else {
                assert(t == next);
                assert(later / 1_000_000_000 == now / 1_000_000_000);
            }
        },
        None => {
            assert(later / 1_000_000_000 == now / 1_000_000_000);
        },
    }
}

/// The second that is aimed at is the first that will do: a whole one, after now and after the last
/// one, with none before it that is both.
pub proof fn law_first_eligible_second_is_aimed_at(b: Beacon, now: int, t: int)
    requires
        b.wf(),
        t % 1_000_000_000 == 0,
        t > now,
        b.last_target_ns matches Some(last) ==> t > last,
    ensures
        b.target(now) <= t,
        b.target(now) > now,
        b.target(now) % 1_000_000_000 == 0,
        b.last_target_ns matches Some(last) ==> b.target(now) > last,
{
    lemma_target_is_whole(b, now);
    let next = (now / 1_000_000_000 + 1) * 1_000_000_000;
    let q = t / 1_000_000_000;
    assert(t == q * 1_000_000_000);
    assert(now / 1_000_000_000 < q);
}

/// A packet is built if and only if the source is trusted, the time is known, and the boundary is
/// no more than 16 ms ahead.
pub proof fn law_packets_are_built_just_in_time(b: Beacon, trusted: bool, now: i64)
    ensures
        b.builds(trusted, Some(now)) <==> trusted && b.target(now as int) - now <= 16_000_000,
        !b.builds(trusted, None),
{
}

/// A broadcast goes from the server to everyone, from the port of the service, one hop at most; a
/// reply goes back to whoever asked, at the port they asked from.
pub proof fn law_packets_go_where_they_belong(
    spec: UdpFrameSpec,
    request: PendingRequest,
    payload: Seq<u8>,
    port: u16,
    ip_id: u16,
)
    ensures
        is_beacon_spec(spec, payload, port, ip_id) || is_reply_spec(
            spec,
            request,
            payload,
            port,
            ip_id,
        ) ==> {
            &&& spec.src_mac.0@ == seq![0x02u8, 0, 0, 0xC0, 0xFF, 0xEE]
            &&& spec.src_ip.0@ == seq![192u8, 168, 0, 200]
            &&& spec.ip_id == ip_id && spec.ttl == 1 && spec.payload@ == payload
        },
        is_beacon_spec(spec, payload, port, ip_id) ==> {
            &&& spec.dst_mac.0@ == seq![0xFFu8, 0xFF, 0xFF, 0xFF, 0xFF, 0xFF]
            &&& spec.dst_ip.0@ == seq![255u8, 255, 255, 255]
            &&& spec.src_port == 123 && spec.dst_port == port
        },
        is_reply_spec(spec, request, payload, port, ip_id) ==> {
            &&& spec.dst_mac == request.src_mac && spec.dst_ip == request.src_ip
            &&& spec.src_port == port && spec.dst_port == request.src_port
        },
{
}

/// A time on the capture scale is the time since that scale began; there is none before it is known.
pub proof fn law_capture_scale_starts_at_its_origin(
    origin: i64,
    software_ns: i64,
    r: Option<u64>,
    none: Option<u64>,
)
    requires
        call_ensures(capture_ns, (Some(origin), software_ns), r),
        call_ensures(capture_ns, (None::<i64>, software_ns), none),
        origin <= software_ns,
        in_i64(software_ns - origin),
    ensures
        r == Some((software_ns - origin) as u64),
        none is None,
{
}

/// The clock was last set as long before now as it has been extrapolating.
pub proof fn law_last_update_is_now_less_the_holdover(
    now: i64,
    holdover_ns: u64,
    locked: bool,
    s: ClockState,
    blank: ClockState,
)
    requires
        call_ensures(clock_state, (Some(now), holdover_ns, locked), s),
        call_ensures(clock_state, (None::<i64>, holdover_ns, locked), blank),
        in_i64(now - holdover_ns),
    ensures
        s.last_update_unix_ns is Some && s.last_update_unix_ns->0 + holdover_ns == now,
        blank.last_update_unix_ns is None,
        s.holdover_ns == holdover_ns && blank.holdover_ns == holdover_ns,
        s.frequency_locked == locked && blank.frequency_locked == locked,
{
}

/// The sleep to a boundary never passes it, and falls short of it by less than a microsecond; what
/// is left of the handover is how far it was from 118.4 us after the boundary.
pub proof fn law_sleep_ends_at_the_boundary(target: i64, now: i64, us: u64, residual: i64)
    requires
        call_ensures(remaining_us, (target, now), us),
        call_ensures(residual_ns, (now, target), residual),
    ensures
        now >= target ==> us == 0,
        now < target ==> now + 1000 * us <= target < now + 1000 * us + 1000,
        now == target + 118_400 + residual,
{
}

/// A reply departs a millisecond after it is built.
pub proof fn law_reply_departs_a_millisecond_on(now: i64, d: i64)
    requires
        call_ensures(reply_departure, (now,), d),
    ensures
        d == now + 1_000_000,
{
}

/// The 1PPS makes for the nearest second where the source is trusted and the time known, and runs
/// free otherwise.
pub proof fn law_pps_steers_only_by_a_trusted_time(utc: i64, trusted: bool, s: PpsSteer, free: PpsSteer)
    requires
        call_ensures(steer_pps, (Some(utc), trusted), s),
        call_ensures(steer_pps, (None::<i64>, trusted), free),
    ensures
        free is FreeRun,
        s is Advance <==> trusted,
        s matches PpsSteer::Advance { late_ns } ==> (utc - late_ns) % 1_000_000_000 == 0
            && -500_000_000 < late_ns <= 500_000_000,
{
    crate::link::law_lateness_is_to_the_nearest_second(utc as int, 0);
}

/// A frame that is ready is held back for exactly the reasons for which none would be built.
pub proof fn law_veto_asks_again(cfg: &ServerConfig, state: &ClockState, r: Option<SilentReason>)
    requires
        call_ensures(veto, (cfg, state), r),
    ensures
        r is None <==> state.last_update_unix_ns is Some && state.frequency_locked
            && state.holdover_ns <= cfg.max_holdover_ns,
{
    crate::server::law_served_iff_disciplined(*cfg, *state);
}

/// The firmware's clock description: 1 ms of uncertainty, 1 ppm of drift and an hour of holdover, so
/// that a served packet never claims more than 4.6 ms.
pub proof fn law_firmware_claims_stay_small(c: ServerConfig, holdover_ns: u64, r: u64)
    requires
        call_ensures(server_config, (), c),
        holdover_ns <= c.max_holdover_ns,
        call_ensures(crate::server::root_dispersion_ns, (&c, holdover_ns), r),
    ensures
        1_000_000 <= r <= 4_600_000,
        1_000_000 * (r - 1_000_000) <= holdover_ns < 1_000_000 * (r - 1_000_000) + 1_000_000,
{
    crate::server::law_dispersion_counts_every_nanosecond(c, holdover_ns);
}

} // verus!

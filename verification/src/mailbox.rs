//! A question and its answer carried over the debug probe.
//!
//! The probe reads and writes RAM while the core runs. The host writes a request and then rings
//! the doorbell; the firmware answers and writes `done` last of all. Each field has one writer, and
//! the two counters are written after what they describe.

use vstd::prelude::*;
use crate::server::SilentReason;

verus! {

/// How often the doorbell is looked at (ms).
pub const POLL_MS: u64 = 2;

/// The code for a request that could not be read.
pub const UNDECODABLE: u32 = 0xffff_ffff;

/// The handshake.
#[derive(Debug)]
pub struct Mailbox {
    /// Written by the host, after `request`. The firmware acts when it differs from `done`.
    pub doorbell: u32,
    /// Written by the firmware, after everything else. The host waits for it to match.
    pub done: u32,
    /// When the firmware saw the request (ns).
    pub recv_unix_ns: i64,
    /// When the firmware finished the reply (ns).
    pub xmit_unix_ns: i64,
    /// Why there is no reply, or 0 where there is one.
    pub silent: u32,
    /// The request.
    pub request: [u8; 48],
    /// The reply.
    pub reply: [u8; 48],
}

/// What came of a request.
#[derive(Debug, Clone, Copy)]
pub enum Answer {
    /// A reply that left at `xmit_unix_ns`.
    Reply { packet: [u8; 48], xmit_unix_ns: i64 },
    /// None, because the clock may not be served.
    Silent(SilentReason),
    /// None, because the request could not be read.
    Undecodable,
}

/// The code of an answer: 0 for a reply, and otherwise why there is none.
pub open spec fn answer_code(a: Answer) -> u32 {
    match a {
        Answer::Reply { .. } => 0,
        Answer::Silent(SilentReason::NoEpoch) => 1,
        Answer::Silent(SilentReason::FrequencyUnlocked) => 2,
        Answer::Silent(SilentReason::HoldoverExceeded) => 3,
        Answer::Undecodable => UNDECODABLE,
    }
}

/// When the request was seen, by the clock if it has a time.
pub fn receive_time(now_unix_ns: Option<i64>) -> (r: i64)
    ensures
        r == (match now_unix_ns {
            Some(n) => n,
            None => 0,
        }),
{
    match now_unix_ns {
        Some(n) => n,
        None => 0,
    }
}

/// When the reply is finished, by the clock if it has a time, else when the request was seen.
pub fn transmit_time(now_unix_ns: Option<i64>, recv_unix_ns: i64) -> (r: i64)
    ensures
        r == (match now_unix_ns {
            Some(n) => n,
            None => recv_unix_ns,
        }),
{
    match now_unix_ns {
        Some(n) => n,
        None => recv_unix_ns,
    }
}

impl Mailbox {
    /// Whether a request is waiting.
    pub open spec fn rings(self) -> bool {
        self.doorbell != self.done
    }

    /// An empty mailbox.
    pub fn new() -> (m: Self)
        ensures
            !m.rings(),
            m.doorbell == 0,
            m.recv_unix_ns == 0,
            m.xmit_unix_ns == 0,
            m.silent == 0,
            m.request@ == Seq::new(48, |i: int| 0u8),
            m.reply@ == Seq::new(48, |i: int| 0u8),
    {
        let m = Mailbox {
            doorbell: 0,
            done: 0,
            recv_unix_ns: 0,
            xmit_unix_ns: 0,
            silent: 0,
            request: [0; 48],
            reply: [0; 48],
        };
        assert(m.request@ =~= Seq::new(48, |i: int| 0u8));
        assert(m.reply@ =~= Seq::new(48, |i: int| 0u8));
        m
    }

    /// Whether a request is waiting.
    pub fn is_ringing(&self) -> (b: bool)
        ensures
            b == self.rings(),
    {
        self.doorbell != self.done
    }

    /// Puts an answer to a request that was seen at `recv_unix_ns` in place. A request without a
    /// reply leaves the last reply where it is, and the two times are the same.
    pub fn put(&mut self, recv_unix_ns: i64, answer: &Answer)
        ensures
            *final(self) == (Mailbox {
                done: old(self).doorbell,
                recv_unix_ns,
                xmit_unix_ns: match *answer {
                    Answer::Reply { xmit_unix_ns, .. } => xmit_unix_ns,
                    _ => recv_unix_ns,
                },
                silent: answer_code(*answer),
                reply: match *answer {
                    Answer::Reply { packet, .. } => packet,
                    _ => old(self).reply,
                },
                ..*old(self)
            }),
    {
        match answer {
            Answer::Reply { packet, xmit_unix_ns } => {
                self.reply = *packet;
                self.xmit_unix_ns = *xmit_unix_ns;
                self.silent = 0;
            },
            Answer::Silent(reason) => {
                self.xmit_unix_ns = recv_unix_ns;
                self.silent = match reason {
                    SilentReason::NoEpoch => 1,
                    SilentReason::FrequencyUnlocked => 2,
                    SilentReason::HoldoverExceeded => 3,
                };
            },
            Answer::Undecodable => {
                self.xmit_unix_ns = recv_unix_ns;
                self.silent = UNDECODABLE;
            },
        }
        self.recv_unix_ns = recv_unix_ns;
        self.done = self.doorbell;
    }
}

/// The host can tell from the code alone whether there is a reply, and otherwise why not: no two
/// outcomes share a code.
pub proof fn law_codes_tell_answers_apart(a: Answer, b: Answer)
    requires
        answer_code(a) == answer_code(b),
    ensures
        a is Reply <==> b is Reply,
        a is Undecodable <==> b is Undecodable,
        a is Silent ==> a == b,
{
}

/// The codes that the host knows: 0 for a reply, 1 to 3 for the reasons to keep silent in the order
/// in which they are asked, and all ones for a request that could not be read.
pub proof fn law_codes_are_the_hosts(a: Answer)
    ensures
        a is Reply ==> answer_code(a) == 0,
        a == Answer::Silent(SilentReason::NoEpoch) ==> answer_code(a) == 1,
        a == Answer::Silent(SilentReason::FrequencyUnlocked) ==> answer_code(a) == 2,
        a == Answer::Silent(SilentReason::HoldoverExceeded) ==> answer_code(a) == 3,
        a is Undecodable ==> answer_code(a) == 0xffff_ffff,
{
}

/// The times of an answer are the clock's where it has one; without one, a request is seen at 0 and
/// a reply is finished when the request was seen.
pub proof fn law_times_are_the_clocks(now: i64, recv: i64, a: i64, b: i64, c: i64, d: i64)
    requires
        call_ensures(receive_time, (Some(now),), a),
        call_ensures(receive_time, (None::<i64>,), b),
        call_ensures(transmit_time, (Some(now), recv), c),
        call_ensures(transmit_time, (None::<i64>, recv), d),
    ensures
        a == now && c == now,
        b == 0 && d == recv,
{
}

} // verus!

//! The receiver: a MediaTek MT3333 on a carrier board that passes its 1PPS through an inverter.
//!
//! Everything that depends on *this* receiver is here: its baud rates, its configuration commands,
//! and how its rate is found and raised. The rest of the firmware knows only NMEA and a pulse.
//!
//! # Why the baud rate matters
//!
//! It is a matter of correctness, not of throughput. A pulse gets its UTC second from the NMEA
//! sentence that follows it. At 9600 baud the burst of sentences runs into the next pulse, and the
//! pairing becomes a coin toss; at 115200 it ends hundreds of milliseconds before.
//!
//! The command that raises the rate cannot be acknowledged, and the setting outlives a reflash of
//! the firmware. So the rate is probed before and after the command rather than assumed.

use vstd::prelude::*;
use crate::assembler::{nmea_checksum, NmeaLineAssembler, CR, DOLLAR, LF, STAR};

verus! {

use crate::assembler::{framed, hex_char, xor_all, AssemblerState};
use vstd::string::StringSliceAdditionalSpecFns;

/// The receiver's rate after power-up (baud).
pub const GNSS_BAUD: u32 = 9600;

/// The rate that it is raised to (baud).
pub const GNSS_FAST_BAUD: u32 = 115_200;

/// How long a probe listens at one rate (ms).
pub const PROBE_TIMEOUT_MS: u64 = 3_000;

/// How long the receiver is given after the command that raises its rate (ms). Nothing depends on
/// it being right: the probe that follows finds the receiver at either rate.
pub const RAISE_WAIT_MS: u64 = 500;

/// How long the receiver is given after power-up before it is configured (ms).
pub const CONFIG_START_MS: u64 = 2_000;

/// How long the receiver is given from one configuration command to the next (ms).
pub const CONFIG_STEP_MS: u64 = 600;

/// Whether the dynamic model is alternated for a measurement.
pub const DYNMODEL_AB: bool = false;

/// How long each dynamic model runs in that measurement (s).
pub const DYNMODEL_AB_SECS: u64 = 360;

/// The code for a dynamic model that was not set yet.
pub const DYN_MODE_UNSET: u32 = 255;

/// The dynamic models in the order in which the measurement runs them: each as early as it is late,
/// so that a slow drift cancels.
pub const DYNMODEL_SCHEDULE: [u32; 4] = [4, 0, 0, 4];

/// The command that raises the receiver's rate.
pub const RAISE_COMMAND: &'static str = "PMTK251,115200";

/// How many configuration commands there are.
pub const PMTK_INIT_LEN: usize = 6;

/// Longest line that can be formed for the receiver.
pub const LINE_CAPACITY: usize = 96;

/// A line for the receiver, of fixed capacity: `heapless::String<96>`. Its contents are named by
/// [`written`].
#[verifier::external_body]
#[derive(Debug)]
pub struct LineBuffer {
    text: heapless::String<LINE_CAPACITY>,
}

/// The bytes that a line holds, in order.
pub uninterp spec fn written(l: LineBuffer) -> Seq<u8>;

/// `heapless::String::new`: the new line is empty.
#[verifier::external_body]
fn line_new() -> (r: LineBuffer)
    ensures
        written(r) == Seq::<u8>::empty(),
{
    LineBuffer { text: heapless::String::new() }
}

/// `heapless::String::push_str`: appends the whole text if there is room for it, and otherwise
/// changes nothing and says so.
#[verifier::external_body]
fn line_push_str(l: &mut LineBuffer, text: &str) -> (ok: bool)
    ensures
        ok <==> (written(*old(l)).len() + text.spec_bytes().len() <= LINE_CAPACITY),
        written(*final(l)) == (if ok {
            written(*old(l)) + text.spec_bytes()
        } else {
            written(*old(l))
        }),
{
    l.text.push_str(text).is_ok()
}

/// `heapless::String::push` of an ASCII character: appends its one byte if there is room for it,
/// and otherwise changes nothing and says so.
#[verifier::external_body]
fn line_push(l: &mut LineBuffer, c: u8) -> (ok: bool)
    requires
        c < 0x80,
    ensures
        ok <==> (written(*old(l)).len() < LINE_CAPACITY),
        written(*final(l)) == (if ok {
            written(*old(l)).push(c)
        } else {
            written(*old(l))
        }),
{
    l.text.push(c as char).is_ok()
}

/// `heapless::String::as_bytes`, through its `str`: the contents, in order.
#[verifier::external_body]
fn line_bytes(l: &LineBuffer) -> (r: &[u8])
    ensures
        r@ == written(*l),
{
    l.text.as_bytes()
}

impl LineBuffer {
    /// The bytes to send.
    pub fn as_bytes(&self) -> (r: &[u8])
        ensures
            r@ == written(*self),
    {
        line_bytes(self)
    }
}

/// The uppercase hexadecimal digit of a value below 16.
fn hex_digit_of(v: u8) -> (c: u8)
    requires
        v < 16,
    ensures
        c == hex_char(v),
        c < 0x80,
{
    if v < 10 {
        0x30 + v
    } else {
        0x41 + (v - 10)
    }
}

/// A command as it goes over the line: framed with its checksum, and terminated.
pub open spec fn command_line(payload: Seq<u8>) -> Seq<u8> {
    framed(payload) + seq![CR, LF]
}

/// Forms the line `$<payload>*<checksum>` with its terminator. A line longer than `limit` is not
/// formed at all: a truncated command would only be refused.
pub fn pmtk_line(payload: &str, limit: usize) -> (r: Option<LineBuffer>)
    requires
        limit <= LINE_CAPACITY,
    ensures
        r is Some <==> payload.spec_bytes().len() + 6 <= limit,
        r matches Some(line) ==> written(line) == command_line(payload.spec_bytes()),
{
    let bytes = payload.as_bytes();
    if limit < 6 || bytes.len() > limit - 6 {
        return None;
    }
    let cs: u8 = nmea_checksum(bytes);
    let mut line = line_new();
    let _ = line_push(&mut line, DOLLAR);
    let _ = line_push_str(&mut line, payload);
    let _ = line_push(&mut line, STAR);
    let _ = line_push(&mut line, hex_digit_of(cs / 16));
    let _ = line_push(&mut line, hex_digit_of(cs % 16));
    let _ = line_push(&mut line, CR);
    let _ = line_push(&mut line, LF);
    assert(written(line) =~= command_line(payload.spec_bytes()));
    Some(line)
}

/// What the receiver is told about how it moves.
#[derive(Debug, Clone, Copy, PartialEq, Eq, Structural)]
pub enum OpMode {
    /// Not at all: a clock by the window.
    FixedTiming,
    /// As it likes.
    Mobile,
}

/// The mode of this clock. A receiver that is told it stands still holds its position through weak
/// signals, and its pulse with it.
pub fn op_mode() -> (m: OpMode)
    ensures
        m is FixedTiming,
{
    OpMode::FixedTiming
}

impl OpMode {
    /// The command that sets the dynamic model.
    pub open spec fn command(self) -> Seq<char> {
        match self {
            OpMode::FixedTiming => "PMTK886,4"@,
            OpMode::Mobile => "PMTK886,0"@,
        }
    }

    /// The command that sets the dynamic model.
    pub fn pmtk886(self) -> (r: &'static str)
        ensures
            r@ == self.command(),
    {
        match self {
            OpMode::FixedTiming => "PMTK886,4",
            OpMode::Mobile => "PMTK886,0",
        }
    }

    /// The code of the dynamic model in the log.
    pub fn code(self) -> (r: u32)
        ensures
            r == (if self is FixedTiming { 4int } else { 0 }),
    {
        match self {
            OpMode::FixedTiming => 4,
            OpMode::Mobile => 0,
        }
    }
}

/// The command that sets the dynamic model with the code `code`; every other code than that of a
/// fixed receiver means a moving one.
pub fn pmtk886_for(code: u32) -> (r: &'static str)
    ensures
        r@ == (if code == 4 { OpMode::FixedTiming.command() } else { OpMode::Mobile.command() }),
{
    if code == 4 {
        "PMTK886,4"
    } else {
        "PMTK886,0"
    }
}

/// The code of the dynamic model in the segment `i` of the measurement.
pub fn dynmodel_code(i: usize) -> (code: u32)
    ensures
        code == DYNMODEL_SCHEDULE@[i as int % 4],
        code == 4 <==> (i % 4 == 0 || i % 4 == 3),
        code == 0 <==> (i % 4 == 1 || i % 4 == 2),
{
    let at: usize = i % 4;
    assert(DYNMODEL_SCHEDULE@ =~= seq![4u32, 0, 0, 4]);
    DYNMODEL_SCHEDULE[at]
}

/// The configuration commands, in order.
pub open spec fn init_command(i: int) -> Seq<char> {
    if i == 0 {
        OpMode::FixedTiming.command()
    } else if i == 1 {
        "PMTK313,1"@
    } else if i == 2 {
        "PMTK301,2"@
    } else if i == 3 {
        "PMTK286,1"@
    } else if i == 4 {
        "PMTK314,1,1,1,1,1,1,0,1,0,0,0,0,0,0,0,0,0,1,0"@
    } else {
        "PMTK605"@
    }
}

/// The configuration command `i`: the dynamic model, the search for augmentation satellites and
/// their use, interference rejection, the choice of sentences, and the question for the firmware
/// version. There is none behind the last.
pub fn pmtk_init(i: usize) -> (r: Option<&'static str>)
    ensures
        r is Some <==> i < PMTK_INIT_LEN,
        r matches Some(cmd) ==> cmd@ == init_command(i as int),
{
    if i == 0 {
        Some(op_mode().pmtk886())
    } else if i == 1 {
        Some("PMTK313,1")
    } else if i == 2 {
        Some("PMTK301,2")
    } else if i == 3 {
        Some("PMTK286,1")
    } else if i == 4 {
        Some("PMTK314,1,1,1,1,1,1,0,1,0,0,0,0,0,0,0,0,0,1,0")
    } else if i == 5 {
        Some("PMTK605")
    } else {
        None
    }
}

/// What configuring the receiver comes to next.
#[derive(Debug, Clone, Copy)]
pub enum ConfigStep {
    /// Send a command and wait [`CONFIG_STEP_MS`].
    Send { command: &'static str },
    /// All commands are out: note the dynamic model in force.
    Configured { mode: u32 },
    /// Set another dynamic model, note it, and wait [`DYNMODEL_AB_SECS`].
    Alternate { command: &'static str, mode: u32 },
    /// Nothing is left to do.
    Finished,
}

/// The sequence of configuring the receiver.
#[derive(Debug, Clone, Copy, PartialEq, Eq, Structural)]
pub struct ConfigSequence {
    /// Commands sent.
    pub sent: usize,
    /// Whether the end of the commands was noted.
    pub noted: bool,
    /// Segments of the measurement begun.
    pub segments: usize,
    /// Whether the dynamic model is alternated afterwards.
    pub alternates: bool,
}

impl ConfigSequence {
    /// Before the first command.
    pub fn new(alternates: bool) -> (r: Self)
        ensures
            r == (ConfigSequence { sent: 0, noted: false, segments: 0, alternates }),
    {
        ConfigSequence { sent: 0, noted: false, segments: 0, alternates }
    }

    /// The next step.
    pub fn step(&mut self) -> (s: ConfigStep)
        ensures
            final(self).alternates == old(self).alternates,
            old(self).sent < PMTK_INIT_LEN ==> {
                &&& s matches ConfigStep::Send { command } && command@ == init_command(
                    old(self).sent as int,
                )
                &&& *final(self) == (ConfigSequence {
                    sent: (old(self).sent + 1) as usize,
                    ..*old(self)
                })
            },
            old(self).sent >= PMTK_INIT_LEN && !old(self).noted ==> {
                &&& s matches ConfigStep::Configured { mode } && mode == 4
                &&& *final(self) == (ConfigSequence { noted: true, ..*old(self) })
            },
            old(self).sent >= PMTK_INIT_LEN && old(self).noted && old(self).alternates ==> {
                &&& s matches ConfigStep::Alternate { command, mode } && mode
                    == DYNMODEL_SCHEDULE@[old(self).segments as int % 4] && command@ == (if mode
                    == 4 {
                    OpMode::FixedTiming.command()
                } else {
                    OpMode::Mobile.command()
                })
                &&& *final(self) == (ConfigSequence {
                    segments: ((old(self).segments + 1) % 4) as usize,
                    ..*old(self)
                })
            },
            old(self).sent >= PMTK_INIT_LEN && old(self).noted && !old(self).alternates ==> (s
                is Finished && *final(self) == *old(self)),
    {
        match pmtk_init(self.sent) {
            Some(command) => {
                self.sent = self.sent + 1;
                ConfigStep::Send { command }
            },
            None => {
                if !self.noted {
                    self.noted = true;
                    ConfigStep::Configured { mode: op_mode().code() }
                } else if self.alternates {
                    let mode: u32 = dynmodel_code(self.segments);
                    self.segments = (self.segments % 4 + 1) % 4;
                    ConfigStep::Alternate { command: pmtk886_for(mode), mode }
                } else {
                    ConfigStep::Finished
                }
            },
        }
    }
}

/// What a sentence of a GNSS talker starts with.
pub const TALKER_G: u8 = 0x47;

/// Whether a sentence comes from a GNSS talker.
pub open spec fn from_gnss(sentence: Seq<u8>) -> bool {
    sentence.len() >= 2 && sentence[0] == DOLLAR && sentence[1] == TALKER_G
}

/// Whether the byte at `i` of `bytes` completes a sentence of a GNSS talker, read from the state
/// `s` on.
pub open spec fn completes_gnss(s: AssemblerState, bytes: Seq<u8>, i: int) -> bool {
    match s.after(bytes.take(i)).emits(bytes[i]) {
        Some(sentence) => from_gnss(sentence),
        None => false,
    }
}

/// Reads bytes off the line until one completes a sentence of a GNSS talker. What the sentence says
/// is of no account: that it came through at all shows that the rate is right.
pub fn hears_nmea(assembler: &mut NmeaLineAssembler, bytes: &[u8]) -> (heard: bool)
    ensures
        heard <==> exists|i: int|
            0 <= i < bytes@.len() && #[trigger] completes_gnss(old(assembler)@, bytes@, i),
        !heard ==> final(assembler)@ == old(assembler)@.after(bytes@),
        heard ==> exists|i: int|
            {
                &&& 0 <= i < bytes@.len()
                &&& #[trigger] completes_gnss(old(assembler)@, bytes@, i)
                &&& forall|j: int|
                    0 <= j < i ==> !#[trigger] completes_gnss(old(assembler)@, bytes@, j)
                &&& final(assembler)@ == old(assembler)@.after(bytes@.take(i + 1))
            },
{
    let ghost start = assembler@;
    let mut i: usize = 0;
    while i < bytes.len()
        invariant
            i <= bytes@.len(),
            start == old(assembler)@,
            assembler@ == start.after(bytes@.take(i as int)),
            forall|j: int| 0 <= j < i ==> !#[trigger] completes_gnss(start, bytes@, j),
        decreases bytes@.len() - i,
    {
        let b: u8 = bytes[i];
        assert(bytes@.take(i as int + 1).drop_last() =~= bytes@.take(i as int));
        if let Some(sentence) = assembler.push(b) {
            if sentence.len() >= 2 && sentence[0] == DOLLAR && sentence[1] == TALKER_G {
                assert(completes_gnss(start, bytes@, i as int));
                return true;
            }
        }
        i = i + 1;
    }
    assert(bytes@.take(i as int) =~= bytes@);
    false
}

/// What a firmware version reply starts with: `$PMTK705`.
pub const FW_VERSION_PREFIX: [u8; 8] = [0x24, 0x50, 0x4d, 0x54, 0x4b, 0x37, 0x30, 0x35];

/// Whether a sentence is the receiver's reply to the question for its firmware version.
pub fn is_fw_version_response(sentence: &str) -> (r: bool)
    ensures
        r == (sentence.spec_bytes().len() >= 8 && sentence.spec_bytes().take(8)
            == FW_VERSION_PREFIX@),
{
    let b = sentence.as_bytes();
    if b.len() < 8 {
        return false;
    }
    let mut i: usize = 0;
    while i < 8
        invariant
            i <= 8,
            b@.len() >= 8,
            b@ == sentence.spec_bytes(),
            forall|j: int| 0 <= j < i ==> b@[j] == FW_VERSION_PREFIX@[j],
        decreases 8 - i,
    {
        if b[i] != FW_VERSION_PREFIX[i] {
            assert(b@.take(8)[i as int] != FW_VERSION_PREFIX@[i as int]);
            return false;
        }
        i = i + 1;
    }
    assert(b@.take(8) =~= FW_VERSION_PREFIX@);
    true
}

/// What a search for the receiver's rate comes to.
#[derive(Debug, Clone, Copy, PartialEq, Eq, Structural)]
pub enum ProbeStep {
    /// Set the port to a rate and listen for [`PROBE_TIMEOUT_MS`].
    Listen { baud: u32 },
    /// The receiver was heard; the port is at its rate.
    Found { baud: u32 },
    /// It was not heard at any rate; the port is at the last one tried.
    Nothing,
}

/// A search for the receiver's rate: first the one after power-up, then the raised one.
#[derive(Debug, Clone, Copy, PartialEq, Eq, Structural)]
pub struct BaudProbe {
    /// Whether the raised rate is being tried.
    pub fast: bool,
}

impl BaudProbe {
    /// The rate being tried.
    pub open spec fn rate(self) -> u32 {
        if self.fast {
            GNSS_FAST_BAUD
        } else {
            GNSS_BAUD
        }
    }

    /// What a probe leads to.
    pub open spec fn leads_to(self, heard: bool) -> ProbeStep {
        if heard {
            ProbeStep::Found { baud: self.rate() }
        } else if !self.fast {
            ProbeStep::Listen { baud: GNSS_FAST_BAUD }
        } else {
            ProbeStep::Nothing
        }
    }

    /// Starts with the rate after power-up.
    pub fn new() -> (r: Self)
        ensures
            !r.fast,
            r.rate() == GNSS_BAUD,
    {
        BaudProbe { fast: false }
    }

    /// The rate being tried.
    pub fn baud(&self) -> (r: u32)
        ensures
            r == self.rate(),
    {
        if self.fast {
            GNSS_FAST_BAUD
        } else {
            GNSS_BAUD
        }
    }

    /// The receiver was heard at the rate being tried, or not.
    pub fn on_listened(&mut self, heard: bool) -> (s: ProbeStep)
        ensures
            s == old(self).leads_to(heard),
            final(self).fast == (old(self).fast || s is Listen),
    {
        if heard {
            ProbeStep::Found { baud: self.baud() }
        } else if !self.fast {
            self.fast = true;
            ProbeStep::Listen { baud: GNSS_FAST_BAUD }
        } else {
            ProbeStep::Nothing
        }
    }
}

/// The rate to leave the port at after a search that only follows the receiver: where it was not
/// heard, the one it will have after power-up.
pub fn follow_port(found: Option<u32>) -> (baud: u32)
    ensures
        baud == (match found {
            Some(rate) => rate,
            None => GNSS_BAUD,
        }),
{
    match found {
        Some(rate) => rate,
        None => GNSS_BAUD,
    }
}

/// How the link to the receiver came out.
#[derive(Debug, Clone, Copy, PartialEq, Eq, Structural)]
pub enum LinkOutcome {
    /// The receiver was not heard at any rate.
    Silent,
    /// It was at the raised rate already.
    AlreadyFast,
    /// Its rate was raised.
    Raised,
    /// The command was not taken.
    NotTaken,
    /// It was lost after the command.
    Lost,
}

/// What establishing the link comes to next.
#[derive(Debug, Clone, Copy, PartialEq, Eq, Structural)]
pub enum LinkAction {
    /// Set the port to a rate and listen for [`PROBE_TIMEOUT_MS`].
    Listen { baud: u32 },
    /// Send [`RAISE_COMMAND`] and wait [`RAISE_WAIT_MS`].
    Raise,
    /// The link is at `baud`. Where `set_port` says so, the port has to be set to it still.
    Done { baud: u32, set_port: bool, outcome: LinkOutcome },
}

/// Finds the receiver, raises its rate, and makes sure of it.
#[derive(Debug, Clone, Copy, PartialEq, Eq, Structural)]
pub struct LinkSetup {
    /// The search in progress.
    pub probe: BaudProbe,
    /// Whether the command to raise the rate was sent.
    pub raised: bool,
    /// Whether the port is set back to the first rate where the receiver is silent. Without that, a
    /// receiver that is powered up later is not heard.
    pub restores: bool,
}

impl LinkSetup {
    /// What a probe leads to.
    pub open spec fn leads_to(self, heard: bool) -> LinkAction {
        match self.probe.leads_to(heard) {
            ProbeStep::Listen { baud } => LinkAction::Listen { baud },
            ProbeStep::Found { baud } => if baud == GNSS_FAST_BAUD {
                LinkAction::Done {
                    baud,
                    set_port: false,
                    outcome: if self.raised {
                        LinkOutcome::Raised
                    } else {
                        LinkOutcome::AlreadyFast
                    },
                }
            } else if self.raised {
                LinkAction::Done { baud, set_port: false, outcome: LinkOutcome::NotTaken }
            } else {
                LinkAction::Raise
            },
            ProbeStep::Nothing => if self.raised {
                LinkAction::Done { baud: GNSS_BAUD, set_port: true, outcome: LinkOutcome::Lost }
            } else {
                LinkAction::Done {
                    baud: GNSS_BAUD,
                    set_port: self.restores,
                    outcome: LinkOutcome::Silent,
                }
            },
        }
    }

    /// Starts with a search; the first action is to listen at [`GNSS_BAUD`].
    pub fn new(restores: bool) -> (r: Self)
        ensures
            r == (LinkSetup { probe: BaudProbe { fast: false }, raised: false, restores }),
    {
        LinkSetup { probe: BaudProbe::new(), raised: false, restores }
    }

    /// The receiver was heard at the rate being tried, or not.
    pub fn on_listened(&mut self, heard: bool) -> (a: LinkAction)
        ensures
            a == old(self).leads_to(heard),
            final(self).raised == old(self).raised,
            final(self).restores == old(self).restores,
            final(self).probe.fast == (old(self).probe.fast || a is Listen),
    {
        match self.probe.on_listened(heard) {
            ProbeStep::Listen { baud } => LinkAction::Listen { baud },
            ProbeStep::Found { baud } => {
                if baud == GNSS_FAST_BAUD {
                    let outcome = if self.raised {
                        LinkOutcome::Raised
                    } else {
                        LinkOutcome::AlreadyFast
                    };
                    LinkAction::Done { baud, set_port: false, outcome }
                } else if self.raised {
                    LinkAction::Done { baud, set_port: false, outcome: LinkOutcome::NotTaken }
                } else {
                    LinkAction::Raise
                }
            },
            ProbeStep::Nothing => {
                if self.raised {
                    LinkAction::Done { baud: GNSS_BAUD, set_port: true, outcome: LinkOutcome::Lost }
                } else {
                    LinkAction::Done {
                        baud: GNSS_BAUD,
                        set_port: self.restores,
                        outcome: LinkOutcome::Silent,
                    }
                }
            },
        }
    }

    /// The command was sent and the wait is over: the search starts anew.
    pub fn on_raised(&mut self) -> (a: LinkAction)
        ensures
            *final(self) == (LinkSetup {
                probe: BaudProbe { fast: false },
                raised: true,
                restores: old(self).restores,
            }),
            a == (LinkAction::Listen { baud: GNSS_BAUD }),
    {
        self.probe = BaudProbe::new();
        self.raised = true;
        LinkAction::Listen { baud: self.probe.baud() }
    }
}

/// Whether the rate of the link vouches for the pairing of pulses and sentences, which a clock that
/// others believe has to.
pub fn source_trusted(baud: u32) -> (b: bool)
    ensures
        b == (baud == GNSS_FAST_BAUD),
{
    baud == GNSS_FAST_BAUD
}

/// When the link is done, its rate is the one at which the receiver was heard last; where it was
/// not heard, the rate after power-up. Only a receiver that was heard at the raised rate gives the
/// raised rate.
pub proof fn law_link_rate_was_heard(s: LinkSetup, heard: bool)
    ensures
        s.leads_to(heard) matches LinkAction::Done { baud, set_port, outcome } ==> {
            &&& heard ==> baud == s.probe.rate() && !set_port
            &&& !heard ==> baud == GNSS_BAUD && s.probe.fast
            &&& baud == GNSS_FAST_BAUD ==> heard && s.probe.fast
            &&& baud == GNSS_FAST_BAUD <==> (outcome is AlreadyFast || outcome is Raised)
        },
{
}

/// When the link is done, the port is at the rate of the link: it was left there by the search, or
/// it is set. The one exception is a silent receiver where the port is not set back.
pub proof fn law_port_follows_the_link(s: LinkSetup, heard: bool)
    ensures
        s.leads_to(heard) matches LinkAction::Done { baud, set_port, outcome } ==> set_port
            || s.probe.rate() == baud || (outcome is Silent && !s.restores),
{
}

/// Establishing the link ends: each search tries each rate once, and the rate is raised at most
/// once.
pub proof fn law_link_setup_ends(s: LinkSetup, heard: bool)
    ensures
        s.leads_to(heard) is Listen ==> !s.probe.fast && !heard,
        s.leads_to(heard) is Raise ==> !s.raised && heard,
        s.raised && s.probe.fast ==> s.leads_to(heard) is Done,
{
}

/// A line that is formed for the receiver is read back by the assembler as the one sentence that it
/// holds, if it fits a sentence.
pub proof fn law_command_is_one_sentence(payload: Seq<u8>, s: AssemblerState)
    requires
        payload.len() + 4 <= crate::assembler::MAX_SENTENCE_LEN,
        forall|i: int|
            0 <= i < payload.len() ==> crate::assembler::is_payload(#[trigger] payload[i]),
    ensures
        s.sentences(command_line(payload)) == seq![framed(payload)],
{
    let cs = xor_all(payload);
    let tail = seq![STAR, hex_char(cs / 16), hex_char(cs % 16)];
    let inner = payload + tail;
    assert forall|i: int| 0 <= i < inner.len() implies crate::assembler::is_payload(
        #[trigger] inner[i],
    ) by {
        if i < payload.len() {
            assert(inner[i] == payload[i]);
        }
    }
    crate::assembler::law_a_sentence_comes_out(s, inner);
    assert(seq![DOLLAR] + inner =~= framed(payload));
    assert(seq![DOLLAR] + inner + seq![CR, LF] =~= command_line(payload));
}

/// The two rates, in the order in which they are tried.
pub proof fn law_rates_are_tried_in_order(p: BaudProbe, heard: bool)
    ensures
        !p.fast ==> p.rate() == 9600,
        p.fast ==> p.rate() == 115_200,
        p.leads_to(true) == (ProbeStep::Found { baud: p.rate() }),
        !p.fast ==> p.leads_to(false) == (ProbeStep::Listen { baud: 115_200 }),
        p.fast ==> p.leads_to(false) is Nothing,
{
}

/// What establishing the link comes to, by where the receiver is heard and whether the command was
/// sent.
pub proof fn law_link_is_judged_by_what_is_heard(s: LinkSetup)
    ensures
        !s.probe.fast && !s.raised ==> s.leads_to(true) is Raise,
        !s.probe.fast && s.raised ==> s.leads_to(true) == (LinkAction::Done {
            baud: 9600,
            set_port: false,
            outcome: LinkOutcome::NotTaken,
        }),
        !s.probe.fast ==> s.leads_to(false) == (LinkAction::Listen { baud: 115_200 }),
        s.probe.fast && !s.raised ==> s.leads_to(true) == (LinkAction::Done {
            baud: 115_200,
            set_port: false,
            outcome: LinkOutcome::AlreadyFast,
        }),
        s.probe.fast && s.raised ==> s.leads_to(true) == (LinkAction::Done {
            baud: 115_200,
            set_port: false,
            outcome: LinkOutcome::Raised,
        }),
        s.probe.fast && !s.raised ==> s.leads_to(false) == (LinkAction::Done {
            baud: 9600,
            set_port: s.restores,
            outcome: LinkOutcome::Silent,
        }),
        s.probe.fast && s.raised ==> s.leads_to(false) == (LinkAction::Done {
            baud: 9600,
            set_port: true,
            outcome: LinkOutcome::Lost,
        }),
{
}

/// A GNSS talker is told by `$G`.
pub proof fn law_gnss_talkers_start_with_g(sentence: Seq<u8>)
    ensures
        from_gnss(sentence) <==> sentence.len() >= 2 && sentence[0] == 36 && sentence[1] == 71,
{
}

/// A line is a framed command with its terminator: six bytes more than the payload.
pub proof fn law_line_is_six_bytes_longer(payload: Seq<u8>)
    ensures
        command_line(payload).len() == payload.len() + 6,
        command_line(payload).take((payload.len() + 4) as int) == framed(payload),
        command_line(payload).skip((payload.len() + 4) as int) == seq![13u8, 10],
{
    let l = command_line(payload);
    assert(l.take((payload.len() + 4) as int) =~= framed(payload));
    assert(l.skip((payload.len() + 4) as int) =~= seq![13u8, 10]);
}

/// Only the raised rate vouches for the pairing; a search that found nothing leaves the port at the
/// rate after power-up, and the dynamic models run in the order fixed, mobile, mobile, fixed.
pub proof fn law_rates_and_models(baud: u32, trusted: bool, port: u32, blank: u32, i: usize, code: u32)
    requires
        call_ensures(source_trusted, (baud,), trusted),
        call_ensures(follow_port, (Some(baud),), port),
        call_ensures(follow_port, (None::<u32>,), blank),
        call_ensures(dynmodel_code, (i,), code),
    ensures
        trusted <==> baud == 115_200,
        port == baud,
        blank == 9600,
        code == (if i % 4 == 0 || i % 4 == 3 { 4int } else { 0 }),
{
}

} // verus!

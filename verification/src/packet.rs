//! The fields of an NTP packet (RFC 5905 section 7.3).

use vstd::prelude::*;
use crate::timestamp::{NtpShort, NtpTimestamp};

verus! {

/// Warning of an impending leap second.
#[derive(Clone, Copy, PartialEq, Eq, Structural, Debug)]
pub enum LeapIndicator {
    /// No warning.
    NoWarning,
    /// The last minute of the day has 61 seconds.
    LastMinute61,
    /// The last minute of the day has 59 seconds.
    LastMinute59,
    /// The clock is not synchronized.
    Unsynchronized,
}

/// Association mode.
#[derive(Clone, Copy, PartialEq, Eq, Structural, Debug)]
pub enum Mode {
    /// Reserved.
    Reserved,
    /// Symmetric active.
    SymmetricActive,
    /// Symmetric passive.
    SymmetricPassive,
    /// Client.
    Client,
    /// Server.
    Server,
    /// Broadcast.
    Broadcast,
    /// NTP control message.
    Control,
    /// Reserved for private use.
    Private,
}

/// An NTP packet.
#[derive(Clone, Copy, PartialEq, Eq, Debug)]
pub struct NtpPacket {
    /// Leap-second warning.
    pub leap: LeapIndicator,
    /// Protocol version.
    pub version: u8,
    /// Association mode.
    pub mode: Mode,
    /// Distance from a reference clock.
    pub stratum: u8,
    /// log2 seconds between messages.
    pub poll: i8,
    /// log2 seconds of the clock's precision.
    pub precision: i8,
    /// Round-trip delay to the reference clock.
    pub root_delay: NtpShort,
    /// Dispersion to the reference clock.
    pub root_dispersion: NtpShort,
    /// Four-character source code.
    pub reference_id: [u8; 4],
    /// When the clock was last set.
    pub reference_timestamp: NtpTimestamp,
    /// When the request departed.
    pub origin_timestamp: NtpTimestamp,
    /// When the request arrived.
    pub receive_timestamp: NtpTimestamp,
    /// When this message departed.
    pub transmit_timestamp: NtpTimestamp,
}

} // verus!

//! A clock disciplined by the 1PPS of a GNSS receiver, and a time server and client that carry its
//! time over 10BASE-T.
//!
//! - Estimation: [`gpsdo`] keeps frequency and time, [`pps`], [`qerr`], [`timesync`] and
//!   [`assembler`] feed it.
//! - Steering: [`pll`] and [`controllers`] place the output's edges, [`servo`] decides what happens
//!   on each of them, [`loopback`] measures the offset between its counters.
//! - Serving: [`server`] decides whether the time may be served, [`beacon`] and [`client`] are the
//!   two ends, [`frame`], [`phy`] and [`rx`] are the wire.
//!
//! Everything is integers, and nothing here touches hardware.

pub mod arith;
pub mod assembler;
pub mod beacon;
pub mod bench;
pub mod client;
pub mod control;
pub mod controllers;
pub mod external_nmea;
pub mod frame;
pub mod gpsdo;
pub mod link;
pub mod loopback;
pub mod mailbox;
pub mod meter;
pub mod mt3333;
pub mod nonzero;
pub mod packet;
pub mod phy;
pub mod pll;
pub mod polarity;
pub mod pps;
pub mod ptp;
pub mod qerr;
pub mod reception;
pub mod reference;
pub mod rx;
pub mod server;
pub mod servo;
pub mod stage;
pub mod temperature;
pub mod text;
pub mod ticks;
pub mod timestamp;
pub mod timesync;

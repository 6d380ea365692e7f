//! Wi-Fi provisioning of a headless device over Bluetooth Low Energy: the
//! packet framing of commands, the decoding of status notifications, the
//! matching of advertisements, and the decisions of connecting, retried
//! writing and the configuration sequence. The caller owns the radio and the
//! timers; every step here is a verified function from plain values to plain
//! values.
use vstd::prelude::*;

pub mod codec;
pub mod status;
pub mod matcher;
pub mod gatt;
pub mod retry;
pub mod writer;
pub mod commands;
pub mod scan;
pub mod connection;

verus! {

} // verus!

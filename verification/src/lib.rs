//! Controller library for an e-ink tablet's display controller and
//! miscellaneous hardware service, reached over an inter-process message bus.
//!
//! The library holds the verified logic of the controller: the small
//! integer-coded value enumerations, their encoding and decoding, and the
//! proxies' call sequencing. Remote services are modelled by a script of
//! replies: each proxy records every bus operation it issues, in order, and
//! consumes scripted replies for its reads and waits. The runtime adapter
//! performs the same operations against the real bus.

pub mod command;
pub mod ebc;
pub mod errors;
pub mod pinenote;
pub mod remote;
pub mod toggle;
pub mod waveform;

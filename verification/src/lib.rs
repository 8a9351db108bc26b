//! Client-side session engine for the Sphero API V2 protocol over BLE GATT.
//!
//! The crate holds the parts of a session that decide and compute: the packet
//! codec, the sensor decoder, the handshake sequencer, the streaming pipeline
//! and the session controller. It performs no I/O. A driver owns the
//! transport, carries out each [`session::Action`] the controller asks for and
//! reports the outcome as a [`session::Event`].

pub mod characteristic;
pub mod checksum;
pub mod command;
pub mod frame;
pub mod handshake;
pub mod pipeline;
pub mod sensor;
pub mod session;

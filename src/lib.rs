//! Verified core of an adapter that presents a polled firmware network
//! interface (UEFI's Simple Network Protocol) as a token-based packet device.
//!
//! The firmware calls themselves are made by the caller; this crate decides
//! what happens around them: which receive outcomes yield a frame, what the
//! filler of a transmit buffer sees and what is handed on for sending, the
//! advertised maximum transmission unit, and the translation of hardware
//! addresses.

pub mod address;
pub mod capability;
pub mod rx;
pub mod tx;

pub use address::u2s_mac_address;
pub use capability::{max_transmission_unit, DEFAULT_MAX_PACKET};
pub use rx::{receive_event, RxEvent, SnpRxToken};
pub use tx::transmit_frame;

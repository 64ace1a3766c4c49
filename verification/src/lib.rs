//! Verified core of a controller for toio robot cubes.
//!
//! The crate covers the binary command/notification codec, the identity
//! catalog and discovery filter, the connected-device registry, and the
//! translation layer to the UDP message bus. All I/O (the wireless
//! transport, sockets, the terminal) lives outside this crate; the
//! functions here work on plain values and carry contracts.

pub mod codec;
pub mod update;
pub mod catalog;
pub mod ident;
pub mod discovery;
pub mod registry;
pub mod bridge;
pub mod listener;
pub mod display;

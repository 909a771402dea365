//! Driver core for DW3000-family ultra-wideband transceivers.
//!
//! The crate holds what the driver decides and what it puts on the wire,
//! and leaves the bus to the caller. An operation hands out requests, the
//! caller carries each out on its transport and reports what happened, and
//! the operation goes on from there: see [`machine`]. The framing of a bus
//! transaction by the chip-select line is decided in the same way: see
//! [`select`].

pub mod driver;
pub mod error;
pub mod idle;
pub mod init;
pub mod ll;
pub mod machine;
pub mod recv;
pub mod registers;
pub mod select;
pub mod send;

pub use driver::{HandleView, Ready, Uninitialized, DW3000};
pub use error::Error;
pub use idle::Idling;
pub use init::Initializing;
pub use ll::Transaction;
pub use machine::{Event, Request, Step};
pub use recv::Receiving;
pub use registers::Register;
pub use send::Sending;

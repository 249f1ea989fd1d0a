//! The core of a driver for the EMC2301 fan controller: the register map of
//! the device, the decoding of its tachometer counts, and a session whose
//! accessors say which registers to read and what the bytes read amount to.
//! The bus itself is the caller's.

pub mod registers;
pub mod session;
pub mod tach;

pub use crate::session::{BusError, Emc2301, ReadOutcome, Step};
pub use crate::tach::decode;

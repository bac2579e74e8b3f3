//! Discovery of DRM devices: turns the raw, bus-tagged descriptors that the
//! kernel interface hands out into owned, strongly typed `Device` records.
//!
//! The library works on plain values. A caller that talks to the kernel copies
//! each foreign descriptor into a `RawDevice` and lets the functions here
//! decide what is read, what is decoded and when the foreign buffer is
//! released.

pub mod error;
pub mod text;
pub mod raw;
pub mod bus;
pub mod nodes;
pub mod device;
pub mod catalog;

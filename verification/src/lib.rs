//! Device-level core of a temperature sensor node.
//!
//! The node drives an STTS22H temperature sensor over a two-wire serial bus and
//! offers the host a bulk loopback pipe over a vendor-specific USB interface.
//! This crate holds the decisions of both: which bus transaction or endpoint
//! transfer comes next, what a reply means, and when an operation is over.
//! The transfers themselves are made by the firmware around it, which performs
//! each requested action and reports what happened.

pub mod node;
pub mod stts22h;
pub mod usb_interface;

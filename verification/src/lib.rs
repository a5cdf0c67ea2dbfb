//! Extensions to the regular TCP APIs: socket options, and connecting from a chosen source
//! address, as verified plans.
//!
//! The library makes no system call. It decides which calls are to be made, in which order and
//! with which values, what their failures mean and what the bytes of their answers say:
//!
//! * [`ext`] has the options of a socket, [`keepalive`] those of TCP keepalive and [`tcp_info`]
//!   the kernel's account of a connection.
//! * [`connect`] plans a connection, with an optional second attempt.
//! * [`script`] is what a plan is made of: calls, each with what its failure means.
//! * [`sockopt`], [`addr`], [`bytes`], [`time`], [`error`] and [`platform`] are the values that
//!   plans speak of.
//! * [`harness`] is what a test harness for transparent proxies decides.
//! * [`laws`] is what holds of connections and options as a whole.

pub mod addr;
pub mod bytes;
pub mod connect;
pub mod error;
pub mod ext;
pub mod harness;
pub mod keepalive;
pub mod laws;
pub mod platform;
pub mod script;
pub mod sockopt;
pub mod tcp_info;
pub mod time;

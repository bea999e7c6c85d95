//! A reachability and remote-command probe for SSH hosts, without I/O of its own.
//!
//! The library decides; its caller performs. It says where to connect and for how
//! long, what to hand to the SSH client process, and what each outcome of that
//! outside work means.

pub mod client;
pub mod decimal;
pub mod notification;
pub mod outcome;
pub mod request;
pub mod runner;
pub mod secrecy;

//! Signal-to-motion pipeline of a bridge that presents an 8-bit shift-register
//! game controller as a Bluetooth Low-Energy HID mouse.
//!
//! The crate holds the decisions of the bridge and none of its effects: which
//! line operation comes next while a frame is sampled, what the sampled bits
//! mean, how a held direction accelerates the pointer, what goes into a report
//! and when it is sent. A driver performs each [`bridge::Action`] on the
//! hardware and hands the outcome back as an [`bridge::Event`].

pub mod decoder;
pub mod acceleration;
pub mod report;
pub mod reader;
pub mod bridge;
pub mod trace;

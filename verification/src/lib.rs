//! Oxy is a remote access tool designed to resist man-in-the-middle attacks
//! irrespective of user diligence.
//!
//! This crate holds the verified core of Oxy: the layout of mid-layer packets,
//! the framing of inner messages into fixed-size frames and their reassembly,
//! the Noise session steps that move frames in and out of mid packets, the
//! file-copy wire protocol, the decisions taken on inner messages and on user
//! input, and the turning of parsed command-line arguments into a
//! configuration.
#![allow(unused_imports)]

pub mod arg;
pub mod config;
pub mod config_wizard;
pub mod copy;
pub mod inner;
pub mod innermessage;
pub mod messagewatchers;
pub mod metacommand;
pub mod mid;
pub mod noise_calls;
pub mod noise;
pub mod oxy;
pub mod pty;
pub mod session;
pub mod ui;

use vstd::prelude::*;

verus! {

/// The version of the Oxy protocol spoken by this library.
pub const PROTOCOL_VERSION: u64 = 0;

} // verus!

//! The one-byte tags that the protocol sets aside for its kinds of message.

use vstd::prelude::*;

verus! {

pub const OK: u8 = 0x00;

pub const WHO_IS: u8 = 0x10;

pub const WHOAMI: u8 = 0x11;

pub const HEARTBEAT: u8 = 0xFF;

pub const SYNDICATION: u8 = 0xA0;

} // verus!

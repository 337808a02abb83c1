//! In-target flash programming agent: a streaming zlib/DEFLATE
//! decompression pipeline that reassembles compressed firmware images
//! delivered in arbitrary chunks and commits them to a serial-flash
//! target through a narrow driver interface.

use vstd::prelude::*;

pub mod agent;
pub mod chip;
pub mod efuse;
pub mod rom;
pub mod decompressor;
pub mod flash;
pub mod properties;
pub mod tinfl;

verus! {

/// Error band for caller-protocol violations (unaligned buffer,
/// out-of-sequence call, missing length prefix).
pub const ERROR_BASE_INTERNAL: i32 = -1000;

/// Error band for decompression failures (corrupt data, bad checksum).
pub const ERROR_BASE_TINFL: i32 = -2000;

/// Error band for flash-driver failures reported during a flush.
pub const ERROR_BASE_FLASH: i32 = -4000;

} // verus!

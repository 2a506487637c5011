//! Multiplexed receiver for the CAN bus: a reusable frame buffer with
//! ancillary-timestamp decoding, and a readiness multiplexer that correlates
//! OS readiness events back to registered endpoints by stable integer keys.
//!
//! The socket and readiness system calls themselves live outside this crate;
//! everything here works on plain values (descriptors, byte buffers, keys)
//! and is verified.
use vstd::prelude::*;

pub mod bytes;
pub mod endpoint;
pub mod group;
pub mod msg;
pub mod tstamp;

verus! {

/// if set, indicate 29 bit extended format
pub const EFF_FLAG: u32 = 0x80000000;
/// remote transmission request flag
pub const RTR_FLAG: u32 = 0x40000000;
/// error flag
pub const ERR_FLAG: u32 = 0x20000000;
/// valid bits in standard frame id
pub const SFF_MASK: u32 = 0x000007ff;
/// valid bits in extended frame id
pub const EFF_MASK: u32 = 0x1fffffff;
/// valid bits in error frame
pub const ERR_MASK: u32 = 0x1fffffff;
/// an error mask that will cause SocketCAN to report all errors
pub const ERR_MASK_ALL: u32 = 0x1fffffff;
/// an error mask that will cause SocketCAN to silently drop all errors
pub const ERR_MASK_NONE: u32 = 0;

/// Errors of the receive stack.  The `i32` payloads carry the OS error code
/// reported by the failing call, handed in by the unverified I/O layer.
#[derive(PartialEq, Eq, Structural, Clone, Copy, Debug)]
pub enum CanError {
    /// The interface name could not be resolved or exceeds the name limit.
    DeviceNotFound,
    /// Socket creation, option setting or binding failed.
    SocketError(i32),
    /// A wait or receive call failed.
    IoError(i32),
    /// A receive handed back fewer bytes than the frame it claims to hold.
    MalformedFrame,
    /// The ancillary data of the last receive carries no known timestamp.
    Unsupported,
}

} // verus!

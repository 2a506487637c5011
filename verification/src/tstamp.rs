//! Decoder for the ancillary (control-message) region attached to a
//! receive.
//!
//! The region is a chain of control messages, each a 16-byte header
//! (64-bit byte count, 32-bit level, 32-bit type, all little endian on the
//! platforms this layout serves) followed by its data, the next header
//! starting at the following 8-byte-aligned offset.  The scan walks the
//! chain while the messages belong to the socket level and stops at the
//! first wall-clock (`timeval`, microsecond) or hardware/software
//! (`timespec`, nanosecond) timestamp, converted to nanoseconds.
use vstd::prelude::*;

use crate::bytes::le32;
use crate::bytes::le64;
use crate::bytes::read_i64_le_widened;
use crate::bytes::read_u32_le;
use crate::bytes::read_u64_le;
use crate::bytes::signed64;
use crate::msg::CTRL_CAP;
use crate::CanError;

verus! {

/// Level of socket-level control messages; any other level ends the scan.
pub const SOL_SOCKET: u32 = 1;

/// Type of a control message holding a `timeval` wall-clock timestamp.
pub const SO_TIMESTAMP: u32 = 29;

/// Type of a control message holding `timespec` timestamps.
pub const SO_TIMESTAMPING: u32 = 37;

/// Bytes of one control-message header: 8 (count) + 4 (level) + 4 (type).
pub const CMSG_HDR: usize = 16;

/// Least multiple of 8 that is at least `n`: the distance from a control
/// message's start to the next one, for a message of `n` bytes.
pub open spec fn align8(n: int) -> int {
    ((n + 7) / 8) * 8
}

/// Nanoseconds of a `timeval` (seconds, microseconds) stored at `off`.
pub open spec fn timeval_nanos(s: Seq<u8>, off: int) -> int {
    signed64(le64(s, off)) * 1_000_000_000 + signed64(le64(s, off + 8)) * 1000
}

/// Nanoseconds of a `timespec` (seconds, nanoseconds) stored at `off`.
pub open spec fn timespec_nanos(s: Seq<u8>, off: int) -> int {
    signed64(le64(s, off)) * 1_000_000_000 + signed64(le64(s, off + 8))
}

/// The timestamp, in nanoseconds, that the control-message chain of `s`
/// carries at or after `off`: the first socket-level timestamp message,
/// `None` when the chain ends, leaves the socket level, or is malformed
/// before one is found.
pub open spec fn decode_from(s: Seq<u8>, off: int) -> Option<int>
    decreases s.len() - off,
{
    if !(0 <= off && off + CMSG_HDR as int <= s.len()) {
        None
    } else {
        let clen = le64(s, off);
        let level = le32(s, off + 8);
        let typ = le32(s, off + 12);
        if level != SOL_SOCKET as int {
            None
        } else if typ == SO_TIMESTAMP as int || typ == SO_TIMESTAMPING as int {
            if clen >= CMSG_HDR as int + 16 && off + CMSG_HDR as int + 16 <= s.len() {
                if typ == SO_TIMESTAMP as int {
                    Some(timeval_nanos(s, off + CMSG_HDR as int))
                } else {
                    Some(timespec_nanos(s, off + CMSG_HDR as int))
                }
            } else {
                None
            }
        } else if clen < CMSG_HDR as int || s.len() < off + align8(clen) + CMSG_HDR as int {
            None
        } else {
            decode_from(s, off + align8(clen))
        }
    }
}

/// What a whole ancillary region decodes to.
pub open spec fn spec_decode(s: Seq<u8>) -> Option<int> {
    decode_from(s, 0)
}

/// Scans the ancillary bytes of one receive and returns the first
/// socket-level timestamp, in nanoseconds; `Unsupported` when the region
/// carries none.
pub fn decode_timestamp(ctrl: &Vec<u8>) -> (r: Result<i128, CanError>)
    requires
        ctrl@.len() <= CTRL_CAP,
    ensures
        (match r {
            Ok(v) => spec_decode(ctrl@) == Some(v as int),
            Err(e) => e == CanError::Unsupported && spec_decode(ctrl@) is None,
        }),
{
    let n: usize = ctrl.len();
    let mut off: usize = 0;
    loop
        invariant
            off <= n,
            n == ctrl@.len(),
            n <= CTRL_CAP,
            decode_from(ctrl@, off as int) == spec_decode(ctrl@),
        decreases n - off,
    {
        if n - off < CMSG_HDR {
            return Err(CanError::Unsupported);
        }
        let clen: u64 = read_u64_le(ctrl, off);
        let level: u32 = read_u32_le(ctrl, off + 8);
        let typ: u32 = read_u32_le(ctrl, off + 12);
        if level != SOL_SOCKET {
            return Err(CanError::Unsupported);
        }
        if typ == SO_TIMESTAMP || typ == SO_TIMESTAMPING {
            if clen >= 32 && n - off >= 32 {
                let sec = read_i64_le_widened(ctrl, off + 16);
                let frac = read_i64_le_widened(ctrl, off + 24);
                let ns: i128 = if typ == SO_TIMESTAMP {
                    sec * 1_000_000_000i128 + frac * 1000i128
                } else {
                    sec * 1_000_000_000i128 + frac
                };
                return Ok(ns);
            } else {
                return Err(CanError::Unsupported);
            }
        }
        if clen < CMSG_HDR as u64 {
            return Err(CanError::Unsupported);
        }
        if clen > n as u64 {
            proof {
                assert(align8(clen as int) >= clen as int);
            }
            return Err(CanError::Unsupported);
        }
        let a8: usize = (((clen as usize) + 7) / 8) * 8;
        proof {
            assert(a8 as int == align8(clen as int));
            assert(a8 >= CMSG_HDR);
        }
        if n < off + a8 + CMSG_HDR {
            return Err(CanError::Unsupported);
        }
        proof {
            assert(decode_from(ctrl@, off as int) == decode_from(ctrl@, off as int + a8 as int));
        }
        off = off + a8;
    }
}

/// A region that begins with a whole socket-level wall-clock timestamp
/// message decodes to exactly that message's seconds and microseconds,
/// as nanoseconds — for every such region, whatever follows the message.
pub proof fn lemma_wall_clock_decodes(s: Seq<u8>)
    requires
        s.len() >= 32,
        le64(s, 0) >= 32,
        le32(s, 8) == SOL_SOCKET as int,
        le32(s, 12) == SO_TIMESTAMP as int,
    ensures
        spec_decode(s) == Some(timeval_nanos(s, 16)),
{
}

/// The same for a region that begins with a whole socket-level
/// `timespec` timestamping message: it decodes to that message's first
/// seconds-and-nanoseconds entry.
pub proof fn lemma_timestamping_decodes(s: Seq<u8>)
    requires
        s.len() >= 32,
        le64(s, 0) >= 32,
        le32(s, 8) == SOL_SOCKET as int,
        le32(s, 12) == SO_TIMESTAMPING as int,
    ensures
        spec_decode(s) == Some(timespec_nanos(s, 16)),
{
}

/// An empty ancillary region never decodes to a timestamp: there is no
/// room for even one control-message header.
pub proof fn lemma_empty_ctrl_no_timestamp(s: Seq<u8>)
    requires
        s.len() == 0,
    ensures
        spec_decode(s) is None,
{
}

} // verus!

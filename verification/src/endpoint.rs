//! The computing half of opening and waiting on a bus endpoint: interface
//! name encoding and wait-bound conversion.  The system calls that consume
//! these values live in the unverified I/O layer.
use vstd::prelude::*;

use crate::CanError;

verus! {

/// Longest interface name accepted, the platform's device-name limit.
pub const IFNAME_MAX: usize = 16;

/// Encodes an interface name for the OS name-to-index resolution call:
/// the name's bytes followed by zero padding, in a fixed nul-terminated
/// buffer of [`IFNAME_MAX`] + 1 bytes.  Exactly the names longer than the
/// limit are refused, with `DeviceNotFound`, before any call with side
/// effects is made.
pub fn encode_ifname(name: &[u8]) -> (r: Result<Vec<u8>, CanError>)
    ensures
        (r is Ok <==> name@.len() <= IFNAME_MAX as int),
        (match r {
            Ok(buf) => buf@.len() == IFNAME_MAX as int + 1 && (forall|i: int|
                0 <= i < name@.len() ==> buf@[i] == name@[i]) && (forall|i: int|
                name@.len() <= i < IFNAME_MAX as int + 1 ==> buf@[i] == 0u8),
            Err(e) => e == CanError::DeviceNotFound,
        }),
{
    let n = name.len();
    if n > IFNAME_MAX {
        return Err(CanError::DeviceNotFound);
    }
    let mut buf: Vec<u8> = Vec::new();
    let mut i: usize = 0;
    while i < n
        invariant
            i <= n,
            n == name@.len(),
            n <= IFNAME_MAX,
            buf@.len() == i,
            forall|j: int| 0 <= j < i ==> buf@[j] == name@[j],
        decreases n - i,
    {
        buf.push(name[i]);
        i = i + 1;
    }
    while i < IFNAME_MAX + 1
        invariant
            n <= i <= IFNAME_MAX + 1,
            n == name@.len(),
            buf@.len() == i,
            forall|j: int| 0 <= j < n ==> buf@[j] == name@[j],
            forall|j: int| n <= j < i ==> buf@[j] == 0u8,
        decreases IFNAME_MAX + 1 - i,
    {
        buf.push(0u8);
        i = i + 1;
    }
    Ok(buf)
}

/// Converts a millisecond wait bound to the 32-bit argument of the OS
/// readiness wait: any negative duration disables the bound (encoded as
/// -1, the infinite wait); a bound beyond the 32-bit range saturates
/// rather than wrapping into an accidental infinite wait.
pub fn epoll_timeout_ms(ms: i64) -> (r: i32)
    ensures
        ms < 0 ==> r == -1i32,
        0 <= ms <= i32::MAX as i64 ==> r as int == ms as int,
        ms > i32::MAX as i64 ==> r == i32::MAX,
{
    if ms < 0 {
        -1
    } else if ms > i32::MAX as i64 {
        i32::MAX
    } else {
        ms as i32
    }
}

} // verus!

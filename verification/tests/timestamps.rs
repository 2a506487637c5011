use canmux::msg::Msg;
use canmux::tstamp::decode_timestamp;
use canmux::CanError;

/// Appends one control message: header (length, level, type) plus data,
/// padded to the next 8-byte boundary as the kernel lays them out.
fn push_cmsg(buf: &mut Vec<u8>, level: u32, typ: u32, data: &[u8]) {
    let clen = (16 + data.len()) as u64;
    buf.extend_from_slice(&clen.to_le_bytes());
    buf.extend_from_slice(&level.to_le_bytes());
    buf.extend_from_slice(&typ.to_le_bytes());
    buf.extend_from_slice(data);
    while buf.len() % 8 != 0 {
        buf.push(0);
    }
}

fn two_i64(a: i64, b: i64) -> Vec<u8> {
    let mut d = Vec::new();
    d.extend_from_slice(&a.to_le_bytes());
    d.extend_from_slice(&b.to_le_bytes());
    d
}

#[test]
fn empty_region_is_unsupported() {
    assert_eq!(decode_timestamp(&Vec::new()), Err(CanError::Unsupported));
}

#[test]
fn wall_clock_timeval_decodes_to_nanoseconds() {
    let mut ctrl = Vec::new();
    // timeval: 5 seconds, 7 microseconds.
    push_cmsg(&mut ctrl, 1, 29, &two_i64(5, 7));
    assert_eq!(decode_timestamp(&ctrl), Ok(5_000_007_000));
}

#[test]
fn timestamping_timespec_decodes_to_nanoseconds() {
    let mut ctrl = Vec::new();
    // timespec: 5 seconds, 7 nanoseconds.
    push_cmsg(&mut ctrl, 1, 37, &two_i64(5, 7));
    assert_eq!(decode_timestamp(&ctrl), Ok(5_000_000_007));
}

#[test]
fn negative_seconds_decode_signed() {
    let mut ctrl = Vec::new();
    push_cmsg(&mut ctrl, 1, 37, &two_i64(-1, 0));
    assert_eq!(decode_timestamp(&ctrl), Ok(-1_000_000_000));
}

#[test]
fn scan_skips_other_socket_level_messages() {
    let mut ctrl = Vec::new();
    // An unrelated socket-level message first, with 4 bytes of data.
    push_cmsg(&mut ctrl, 1, 99, &[0xff; 4]);
    push_cmsg(&mut ctrl, 1, 29, &two_i64(2, 3));
    assert_eq!(decode_timestamp(&ctrl), Ok(2_000_003_000));
}

#[test]
fn other_level_terminates_the_scan() {
    let mut ctrl = Vec::new();
    // A message of another level ends the walk even though a
    // socket-level timestamp follows.
    push_cmsg(&mut ctrl, 2, 0, &[0u8; 4]);
    push_cmsg(&mut ctrl, 1, 29, &two_i64(2, 3));
    assert_eq!(decode_timestamp(&ctrl), Err(CanError::Unsupported));
}

#[test]
fn truncated_timestamp_message_is_unsupported() {
    let mut ctrl = Vec::new();
    push_cmsg(&mut ctrl, 1, 29, &two_i64(5, 7));
    // Cut the region inside the timestamp data.
    ctrl.truncate(24);
    assert_eq!(decode_timestamp(&ctrl), Err(CanError::Unsupported));
}

#[test]
fn timestamp_reaches_msg_through_load() {
    let mut frame = vec![0u8; 72];
    frame[0] = 0x42;
    let mut ctrl = Vec::new();
    push_cmsg(&mut ctrl, 1, 29, &two_i64(10, 250));
    let mut m = Msg::new();
    assert_eq!(m.load(&frame, 72, &ctrl), Ok(()));
    assert_eq!(m.timestamp(), Ok(10_000_250_000));
    // A later receive without ancillary data drops the old timestamp.
    assert_eq!(m.load(&frame, 72, &Vec::new()), Ok(()));
    assert_eq!(m.timestamp(), Err(CanError::Unsupported));
}

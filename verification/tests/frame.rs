use canmux::msg::Msg;
use canmux::CanError;

/// Builds the 72-byte wire image of a frame.
fn wire(id: u32, dlc: u8, flags: u8, payload: &[u8]) -> Vec<u8> {
    let mut f = vec![0u8; 72];
    f[0..4].copy_from_slice(&id.to_le_bytes());
    f[4] = dlc;
    f[5] = flags;
    f[8..8 + payload.len()].copy_from_slice(payload);
    f
}

#[test]
fn new_buffer_is_cleared() {
    let m = Msg::new();
    assert_eq!(m.can_id(), 0);
    assert_eq!(m.len(), 0);
    assert_eq!(m.flags(), 0);
    assert_eq!(m.timestamp(), Err(CanError::Unsupported));
}

#[test]
fn round_trip_id_len_payload() {
    let frame = wire(0x123, 8, 0, &[1, 2, 3, 4, 5, 6, 7, 8]);
    let mut m = Msg::new();
    assert_eq!(m.load(&frame, 72, &Vec::new()), Ok(()));
    assert_eq!(m.can_id(), 0x123);
    assert_eq!(m.len(), 8);
    for i in 0..8 {
        assert_eq!(m.byte_at(i), (i + 1) as u8);
    }
}

#[test]
fn classic_sized_receive_is_accepted() {
    let frame = wire(0x7ff, 8, 0, &[9, 8, 7, 6, 5, 4, 3, 2]);
    let mut m = Msg::new();
    assert_eq!(m.load(&frame, 16, &Vec::new()), Ok(()));
    assert_eq!(m.can_id(), 0x7ff);
    assert_eq!(m.len(), 8);
    assert_eq!(m.byte_at(0), 9);
    assert_eq!(m.byte_at(7), 2);
}

#[test]
fn flags_byte_carries_over() {
    let frame = wire(0x1, 1, 0x05, &[0xaa]);
    let mut m = Msg::new();
    assert_eq!(m.load(&frame, 72, &Vec::new()), Ok(()));
    assert_eq!(m.flags(), 0x05);
    assert_eq!(m.byte_at(0), 0xaa);
}

#[test]
fn extended_id_bits_pass_through_raw() {
    let id = canmux::EFF_FLAG | 0x1abcdef;
    let frame = wire(id, 0, 0, &[]);
    let mut m = Msg::new();
    assert_eq!(m.load(&frame, 72, &Vec::new()), Ok(()));
    assert_eq!(m.can_id(), id);
    assert_eq!(m.can_id() & canmux::EFF_MASK, 0x1abcdef);
}

#[test]
fn short_receive_is_malformed_and_clears() {
    let frame = wire(0x123, 8, 0, &[1, 2, 3, 4, 5, 6, 7, 8]);
    let mut m = Msg::new();
    assert_eq!(m.load(&frame, 72, &Vec::new()), Ok(()));
    // The header claims 8 payload bytes but only 12 bytes arrived.
    assert_eq!(m.load(&frame, 12, &Vec::new()), Err(CanError::MalformedFrame));
    assert_eq!(m.can_id(), 0);
    assert_eq!(m.len(), 0);
    assert_eq!(m.flags(), 0);
}

#[test]
fn oversized_receive_is_malformed() {
    let frame = wire(0x123, 8, 0, &[1, 2, 3, 4, 5, 6, 7, 8]);
    let mut m = Msg::new();
    assert_eq!(m.load(&frame, 73, &Vec::new()), Err(CanError::MalformedFrame));
}

#[test]
fn reset_exposes_no_stale_data() {
    let frame = wire(0x123, 3, 0x01, &[0xde, 0xad, 0xbe]);
    let mut m = Msg::new();
    assert_eq!(m.load(&frame, 72, &Vec::new()), Ok(()));
    assert_eq!(m.can_id(), 0x123);
    m.reset();
    assert_eq!(m.can_id(), 0);
    assert_eq!(m.len(), 0);
    assert_eq!(m.flags(), 0);
    assert_eq!(m.timestamp(), Err(CanError::Unsupported));
}

//! The reusable frame buffer: one decoded CAN frame plus the ancillary
//! bytes of the last receive.
//!
//! The kernel-facing layout (a `canfd_frame` image and a control-message
//! region) is handed in as plain byte buffers by the unverified I/O layer;
//! this type decodes and holds them.  It keeps no pointers into itself:
//! every sub-region is an inline buffer addressed by offset at access time.
use vstd::prelude::*;

use crate::bytes::le32;
use crate::CanError;

verus! {

/// Size in bytes of the wire image of a flexible-datarate frame:
/// 4 (id) + 1 (length) + 1 (flags) + 2 (padding) + 64 (payload).
pub const FRAME_WIRE_BYTES: usize = 72;

/// Greatest payload length a frame can carry.
pub const MAX_DATA: usize = 64;

/// Capacity of the ancillary (control-message) region.  The kernel needs
/// roughly 120 bytes for the timestamp messages this crate understands;
/// the unverified receive layer must size its control buffer within this.
pub const CTRL_CAP: usize = 512;

/// Mathematical content of a frame buffer.
#[verifier::ext_equal]
pub ghost struct MsgView {
    /// Raw 32-bit identifier, flag bits included.
    pub id: u32,
    /// Payload length (data length code), at most 64.
    pub dlc: u8,
    /// Flags byte of a flexible-datarate frame.
    pub flags: u8,
    /// The 64-byte payload region; bytes past `dlc` are zero.
    pub data: Seq<u8>,
    /// Ancillary bytes of the last receive.
    pub ctrl: Seq<u8>,
}

impl MsgView {
    /// Structural health of a buffer: fixed payload region, length in
    /// range, zeroes past the payload, bounded ancillary region.
    pub open spec fn wf(self) -> bool {
        &&& self.data.len() == MAX_DATA
        &&& self.dlc as int <= MAX_DATA as int
        &&& (forall|i: int| self.dlc as int <= i < MAX_DATA as int ==> self.data[i] == 0u8)
        &&& self.ctrl.len() <= CTRL_CAP
    }
}

/// Whether the first `nbytes` bytes of the wire image `frame` form a whole
/// frame: at most the full image, at least the 8-byte header plus the
/// payload length the header claims.
pub open spec fn load_accepts(frame: Seq<u8>, nbytes: int) -> bool {
    nbytes <= FRAME_WIRE_BYTES as int && 8 + frame[4] as int <= nbytes
}

/// The buffer content that decoding the wire image `frame` with ancillary
/// bytes `ctrl` produces.
pub open spec fn loaded_view(frame: Seq<u8>, ctrl: Seq<u8>) -> MsgView {
    MsgView {
        id: le32(frame, 0) as u32,
        dlc: frame[4],
        flags: frame[5],
        data: frame.subrange(8, 8 + frame[4] as int) + Seq::new(
            (MAX_DATA - frame[4] as int) as nat,
            |i: int| 0u8,
        ),
        ctrl: ctrl,
    }
}

/// The view of a buffer that holds no frame: everything zero, no
/// ancillary bytes.
pub open spec fn cleared_view() -> MsgView {
    MsgView {
        id: 0,
        dlc: 0,
        flags: 0,
        data: Seq::new(MAX_DATA as nat, |i: int| 0u8),
        ctrl: Seq::empty(),
    }
}

/// CAN message buffer, constructed once and reused across receives.
pub struct Msg {
    id: u32,
    dlc: u8,
    flags: u8,
    data: Vec<u8>,
    ctrl: Vec<u8>,
}

impl View for Msg {
    type V = MsgView;

    closed spec fn view(&self) -> MsgView {
        MsgView { id: self.id, dlc: self.dlc, flags: self.flags, data: self.data@, ctrl: self.ctrl@ }
    }
}

impl Msg {
    /// Structural health of the buffer; see [`MsgView::wf`].
    pub open spec fn wf(&self) -> bool {
        self@.wf()
    }

    /// Return an initialized empty message buffer.
    pub fn new() -> (m: Msg)
        ensures
            m.wf(),
            m@ == cleared_view(),
    {
        let mut data: Vec<u8> = Vec::new();
        let mut i: usize = 0;
        while i < MAX_DATA
            invariant
                i <= MAX_DATA,
                data@.len() == i,
                forall|j: int| 0 <= j < i ==> data@[j] == 0u8,
            decreases MAX_DATA - i,
        {
            data.push(0u8);
            i = i + 1;
        }
        let m = Msg { id: 0, dlc: 0, flags: 0, data, ctrl: Vec::new() };
        proof {
            assert(m@.data =~= cleared_view().data);
            assert(m@.ctrl =~= cleared_view().ctrl);
            assert(m@ =~= cleared_view());
        }
        m
    }

    /// Drop everything held from a prior receive, so that a partial or
    /// failed receive can never expose stale field values as current.
    pub fn reset(&mut self)
        requires
            old(self).wf(),
        ensures
            final(self).wf(),
            final(self)@ == cleared_view(),
    {
        self.id = 0;
        self.dlc = 0;
        self.flags = 0;
        self.ctrl = Vec::new();
        let mut i: usize = 0;
        while i < MAX_DATA
            invariant
                i <= MAX_DATA,
                self.data@.len() == MAX_DATA,
                forall|j: int| 0 <= j < i ==> self.data@[j] == 0u8,
                self.id == 0u32,
                self.dlc == 0u8,
                self.flags == 0u8,
                self.ctrl@.len() == 0,
            decreases MAX_DATA - i,
        {
            self.data.set(i, 0u8);
            i = i + 1;
        }
        proof {
            assert(self@.data =~= cleared_view().data);
            assert(self@.ctrl =~= cleared_view().ctrl);
            assert(self@ =~= cleared_view());
        }
    }

    /// Get CAN ID (raw, flag bits included).
    pub fn can_id(&self) -> (r: u32)
        ensures
            r == self@.id,
    {
        self.id
    }

    /// Get the payload length (data length code).
    pub fn len(&self) -> (r: u8)
        requires
            self.wf(),
        ensures
            r == self@.dlc,
            r as int <= MAX_DATA as int,
    {
        self.dlc
    }

    /// Get the flexible-datarate flags byte.
    pub fn flags(&self) -> (r: u8)
        ensures
            r == self@.flags,
    {
        self.flags
    }

    /// Get one payload byte.  Positions at or past `len()` hold no received
    /// data and may not be read.
    pub fn byte_at(&self, i: usize) -> (r: u8)
        requires
            self.wf(),
            i < self@.dlc as usize,
        ensures
            r == self@.data[i as int],
    {
        self.data[i]
    }

    /// Decode one receive: `frame` is the fixed 72-byte wire image the
    /// kernel wrote into, of which the first `nbytes` bytes are valid;
    /// `ctrl` holds exactly the ancillary bytes of this receive.
    ///
    /// Succeeds if and only if the valid bytes form a whole frame: at most
    /// the wire image, and at least the 8-byte header plus the payload
    /// length the header claims.  On failure the buffer is left cleared,
    /// never holding a half-read frame.
    pub fn load(&mut self, frame: &Vec<u8>, nbytes: usize, ctrl: &Vec<u8>) -> (r: Result<
        (),
        CanError,
    >)
        requires
            old(self).wf(),
            frame@.len() == FRAME_WIRE_BYTES,
            ctrl@.len() <= CTRL_CAP,
        ensures
            final(self).wf(),
            (r is Ok <==> load_accepts(frame@, nbytes as int)),
            r is Ok ==> final(self)@ == loaded_view(frame@, ctrl@),
            r is Err ==> r == Err::<(), CanError>(CanError::MalformedFrame) && final(self)@
                == cleared_view(),
    {
        self.reset();
        if nbytes > FRAME_WIRE_BYTES {
            return Err(CanError::MalformedFrame);
        }
        if nbytes < 8 {
            return Err(CanError::MalformedFrame);
        }
        let dlc = frame[4];
        if 8 + (dlc as usize) > nbytes {
            return Err(CanError::MalformedFrame);
        }
        let mut k: usize = 0;
        let cn = ctrl.len();
        proof {
            assert(self.ctrl@ =~= ctrl@.subrange(0, 0));
        }
        while k < cn
            invariant
                k <= cn,
                cn == ctrl@.len(),
                self.ctrl@ == ctrl@.subrange(0, k as int),
                self.data@.len() == MAX_DATA,
                forall|j: int| 0 <= j < MAX_DATA ==> self.data@[j] == 0u8,
            decreases cn - k,
        {
            self.ctrl.push(ctrl[k]);
            proof {
                assert(self.ctrl@ =~= ctrl@.subrange(0, k + 1 as int));
            }
            k = k + 1;
        }
        proof {
            assert(self.ctrl@ =~= ctrl@);
        }
        let mut i: usize = 0;
        while i < dlc as usize
            invariant
                i <= dlc as usize,
                dlc as usize <= MAX_DATA,
                frame@.len() == FRAME_WIRE_BYTES,
                self.data@.len() == MAX_DATA,
                forall|j: int| 0 <= j < i ==> self.data@[j] == frame@[8 + j],
                forall|j: int| i <= j < MAX_DATA ==> self.data@[j] == 0u8,
                self.ctrl@ == ctrl@,
            decreases dlc as usize - i,
        {
            self.data.set(i, frame[8 + i]);
            i = i + 1;
        }
        self.id = crate::bytes::read_u32_le(frame, 0);
        self.dlc = dlc;
        self.flags = frame[5];
        proof {
            let target = frame@.subrange(8, 8 + dlc as int) + Seq::new(
                (MAX_DATA - dlc as int) as nat,
                |i: int| 0u8,
            );
            assert forall|j: int| 0 <= j < MAX_DATA as int implies self@.data[j] == target[j] by {
                if j < dlc as int {
                    assert(target[j] == frame@.subrange(8, 8 + dlc as int)[j]);
                } else {
                    assert(target[j] == Seq::new((MAX_DATA - dlc as int) as nat, |i: int| 0u8)[
                    j - dlc as int]);
                }
            }
            assert(self@.data =~= target);
            assert(self@ =~= loaded_view(frame@, ctrl@));
        }
        Ok(())
    }

    /// Get the frame timestamp: the first socket-level timestamp among the
    /// ancillary messages of the last receive, in nanoseconds.
    pub fn timestamp(&self) -> (r: Result<i128, CanError>)
        requires
            self.wf(),
        ensures
            (match r {
                Ok(v) => crate::tstamp::spec_decode(self@.ctrl) == Some(v as int),
                Err(e) => e == CanError::Unsupported && crate::tstamp::spec_decode(self@.ctrl)
                    is None,
            }),
    {
        crate::tstamp::decode_timestamp(&self.ctrl)
    }
}

/// After a reset, every accessor sees only the cleared frame — zero
/// identifier, zero length, zero flags, a zero payload region, and no
/// decodable timestamp — so nothing received before the most recent
/// successful receive can be exposed as current.
pub proof fn lemma_reset_exposes_nothing(m: Msg)
    requires
        m@ == cleared_view(),
    ensures
        m@.id == 0u32,
        m@.dlc == 0u8,
        m@.flags == 0u8,
        forall|i: int| 0 <= i < MAX_DATA as int ==> m@.data[i] == 0u8,
        crate::tstamp::spec_decode(m@.ctrl) is None,
{
    crate::tstamp::lemma_empty_ctrl_no_timestamp(m@.ctrl);
}

} // verus!


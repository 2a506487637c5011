//! Bookkeeping of the readiness multiplexer: the registered endpoints,
//! their user tags, and the shared frame buffer.
//!
//! The OS readiness primitive itself (create, register, wait) is driven by
//! the unverified I/O layer.  The correlation key attached to each OS
//! readiness event is the endpoint's registration index — a stable small
//! integer, so registrations never move and adding an endpoint never
//! disturbs the keys already handed out.  This module resolves reported
//! keys back to registrations and plans one receive per reported event, in
//! the reported order.
use vstd::prelude::*;

use crate::msg::cleared_view;
use crate::msg::load_accepts;
use crate::msg::loaded_view;
use crate::msg::Msg;
use crate::msg::MsgView;
use crate::msg::CTRL_CAP;
use crate::msg::FRAME_WIRE_BYTES;
use crate::CanError;

verus! {

/// Mathematical content of a multiplexer: the registered descriptors, the
/// user tags (position-matched), and the shared frame buffer.
#[verifier::ext_equal]
#[verifier::reject_recursive_types(T)]
pub ghost struct GroupView<T> {
    /// Descriptor of each registered endpoint, in registration order.
    pub fds: Seq<i32>,
    /// User tag of each registered endpoint, in registration order.
    pub tags: Seq<T>,
    /// The shared frame buffer.
    pub frame: MsgView,
}

/// Receives from multiple CAN endpoints: holds the registrations and the
/// one frame buffer that every dispatch reuses.
pub struct CanGroup<T> {
    fds: Vec<i32>,
    tags: Vec<T>,
    msg: Msg,
}

impl<T> View for CanGroup<T> {
    type V = GroupView<T>;

    closed spec fn view(&self) -> GroupView<T> {
        GroupView { fds: self.fds@, tags: self.tags@, frame: self.msg@ }
    }
}

impl<T> CanGroup<T> {
    /// One tag per registered endpoint, and a healthy frame buffer.
    pub open spec fn wf(&self) -> bool {
        &&& self@.fds.len() == self@.tags.len()
        &&& self@.frame.wf()
    }

    /// Creates an empty multiplexer with a cleared shared buffer.
    pub fn new() -> (g: CanGroup<T>)
        ensures
            g.wf(),
            g@.fds == Seq::<i32>::empty(),
            g@.tags == Seq::<T>::empty(),
            g@.frame == cleared_view(),
    {
        CanGroup { fds: Vec::new(), tags: Vec::new(), msg: Msg::new() }
    }

    /// Registers one endpoint with its user tag and returns the stable
    /// correlation key to attach to the endpoint's readiness registration.
    /// Keys already handed out keep their meaning.
    pub fn add(&mut self, fd: i32, tag: T) -> (key: u64)
        requires
            old(self).wf(),
        ensures
            final(self).wf(),
            final(self)@.fds == old(self)@.fds.push(fd),
            final(self)@.tags == old(self)@.tags.push(tag),
            final(self)@.frame == old(self)@.frame,
            key as int == old(self)@.fds.len(),
    {
        let key: u64 = self.fds.len() as u64;
        self.fds.push(fd);
        self.tags.push(tag);
        key
    }

    /// How many endpoints are registered.
    pub fn count(&self) -> (r: usize)
        ensures
            r as int == self@.fds.len(),
    {
        self.fds.len()
    }

    /// Maps a readiness-event correlation key back to its registration
    /// index: exactly the keys handed out by `add` resolve.
    pub fn resolve(&self, key: u64) -> (r: Option<usize>)
        ensures
            (key as int) < self@.fds.len() ==> (r matches Some(i) && i as int == key as int),
            key as int >= self@.fds.len() ==> r is None,
    {
        if key < self.fds.len() as u64 {
            Some(key as usize)
        } else {
            None
        }
    }

    /// Descriptor of the endpoint registered at `i`.
    pub fn fd_at(&self, i: usize) -> (r: i32)
        requires
            (i as int) < self@.fds.len(),
        ensures
            r == self@.fds[i as int],
    {
        self.fds[i]
    }

    /// User tag of the endpoint registered at `i`.
    pub fn tag_at(&self, i: usize) -> (r: &T)
        requires
            self.wf(),
            (i as int) < self@.tags.len(),
        ensures
            *r == self@.tags[i as int],
    {
        &self.tags[i]
    }

    /// Turns the correlation keys of one readiness wait into the dispatch
    /// plan for that cycle: one receive per reported event, in the
    /// reported order.  `None` when some key matches no registration.
    pub fn plan_dispatch(&self, keys: &Vec<u64>) -> (r: Option<Vec<usize>>)
        requires
            self.wf(),
        ensures
            (match r {
                Some(plan) => plan@.len() == keys@.len() && (forall|i: int|
                    0 <= i < keys@.len() ==> plan@[i] as int == keys@[i] as int && (keys@[i] as int) < self@.fds.len()),
                None => exists|i: int|
                    0 <= i < keys@.len() && keys@[i] as int >= self@.fds.len(),
            }),
    {
        let mut plan: Vec<usize> = Vec::new();
        let mut i: usize = 0;
        let kn = keys.len();
        while i < kn
            invariant
                i <= kn,
                kn == keys@.len(),
                plan@.len() == i,
                forall|j: int|
                    0 <= j < i ==> plan@[j] as int == keys@[j] as int && (keys@[j] as int) < self@.fds.len(),
            decreases kn - i,
        {
            match self.resolve(keys[i]) {
                Some(idx) => {
                    plan.push(idx);
                },
                None => {
                    return None;
                },
            }
            i = i + 1;
        }
        Some(plan)
    }

    /// Shared access to the frame buffer, for the handler of a dispatch.
    pub fn frame(&self) -> (r: &Msg)
        ensures
            r@ == self@.frame,
    {
        &self.msg
    }

    /// Decodes one receive into the shared frame buffer; see [`Msg::load`].
    /// Registrations are untouched.
    pub fn load_frame(&mut self, frame: &Vec<u8>, nbytes: usize, ctrl: &Vec<u8>) -> (r: Result<
        (),
        CanError,
    >)
        requires
            old(self).wf(),
            frame@.len() == FRAME_WIRE_BYTES,
            ctrl@.len() <= CTRL_CAP,
        ensures
            final(self).wf(),
            final(self)@.fds == old(self)@.fds,
            final(self)@.tags == old(self)@.tags,
            (r is Ok <==> load_accepts(frame@, nbytes as int)),
            r is Ok ==> final(self)@.frame == loaded_view(frame@, ctrl@),
            r is Err ==> r == Err::<(), CanError>(CanError::MalformedFrame) && final(self)@.frame
                == cleared_view(),
    {
        self.msg.load(frame, nbytes, ctrl)
    }
}

/// Fan-in correlation law: registering two endpoints hands out the two
/// keys equal to their registration positions; each key selects exactly
/// its own endpoint's descriptor and tag, and the keys are distinct — so
/// one frame arriving on each endpoint is dispatched once per endpoint,
/// each with that endpoint's tag.
pub proof fn lemma_fan_in<T>(fds: Seq<i32>, tags: Seq<T>, fd1: i32, t1: T, fd2: i32, t2: T)
    requires
        fds.len() == tags.len(),
    ensures
        ({
            let k1 = fds.len() as int;
            let k2 = fds.len() as int + 1;
            let fds2 = fds.push(fd1).push(fd2);
            let tags2 = tags.push(t1).push(t2);
            &&& k1 != k2
            &&& fds2[k1] == fd1
            &&& tags2[k1] == t1
            &&& fds2[k2] == fd2
            &&& tags2[k2] == t2
        }),
{
}

} // verus!

//! The frame mailbox: a single-slot overwrite buffer between the asynchronous
//! capture callback (sole writer) and the pulling consumer (sole reader).
//!
//! At most one frame is buffered at a time: a new arrival unconditionally
//! replaces any frame not yet consumed, and a read always observes the most
//! recent write, never a historical one.
//!
//! Besides the slot itself the mailbox carries a ghost history: every arrival
//! gets a fresh index (`arrivals` counts them), the slot remembers the index
//! of the frame it holds, and `delivered` lists the indices of the arrivals
//! handed out so far, in delivery order. The history supports the delivery
//! laws below; it costs nothing at run time.

use vstd::prelude::*;

verus! {

/// The mathematical state of a mailbox: the slot's content together with the
/// ghost arrival history.
#[verifier::ext_equal]
pub struct MailboxView {
    /// The frame not yet consumed, if any.
    pub slot: Option<Seq<u8>>,
    /// The arrival index of the frame in the slot.
    pub slot_index: Option<nat>,
    /// How many frames have arrived so far; also the index the next arrival
    /// will get.
    pub arrivals: nat,
    /// The arrival indices delivered to the consumer, in delivery order.
    pub delivered: Seq<nat>,
}

/// The mailbox invariant: arrival indices are handed out in order, the slot
/// holds an arrival that is newer than everything already delivered, and
/// deliveries happened in arrival order.
pub open spec fn mailbox_inv(m: MailboxView) -> bool {
    &&& (m.slot is Some <==> m.slot_index is Some)
    &&& (m.slot_index matches Some(k) ==> k < m.arrivals && (forall|i: int|
        0 <= i < m.delivered.len() ==> m.delivered[i] < k))
    &&& (forall|i: int, j: int|
        0 <= i < j < m.delivered.len() ==> m.delivered[i] < m.delivered[j])
    &&& (forall|i: int| 0 <= i < m.delivered.len() ==> m.delivered[i] < m.arrivals)
}

/// A mailbox with nothing buffered and no history.
pub open spec fn empty_mailbox() -> MailboxView {
    MailboxView { slot: None, slot_index: None, arrivals: 0, delivered: Seq::empty() }
}

/// Effect of a write: the new frame replaces whatever the slot held and
/// becomes the latest arrival.
pub open spec fn put_spec(m: MailboxView, frame: Seq<u8>) -> MailboxView {
    MailboxView {
        slot: Some(frame),
        slot_index: Some(m.arrivals),
        arrivals: m.arrivals + 1,
        delivered: m.delivered,
    }
}

/// What a read hands out: the slot's content.
pub open spec fn take_out(m: MailboxView) -> Option<Seq<u8>> {
    m.slot
}

/// Effect of a read on the state: the slot is cleared, and a frame that was
/// present is recorded as delivered.
pub open spec fn take_spec(m: MailboxView) -> MailboxView {
    match m.slot_index {
        Some(k) => MailboxView {
            slot: None,
            slot_index: None,
            arrivals: m.arrivals,
            delivered: m.delivered.push(k),
        },
        None => m,
    }
}

/// Effect of emptying the slot without delivering: an undelivered frame is
/// discarded, the history of deliveries stands.
pub open spec fn clear_spec(m: MailboxView) -> MailboxView {
    MailboxView { slot: None, slot_index: None, arrivals: m.arrivals, delivered: m.delivered }
}

/// The content of an optional frame as a sequence of bytes.
pub open spec fn frame_view(o: Option<Vec<u8>>) -> Option<Seq<u8>> {
    match o {
        Some(v) => Some(v@),
        None => None,
    }
}

/// The single-slot frame mailbox.
pub struct FrameMailbox {
    slot: Option<Vec<u8>>,
    arrivals: Ghost<nat>,
    slot_index: Ghost<Option<nat>>,
    delivered: Ghost<Seq<nat>>,
}

impl View for FrameMailbox {
    type V = MailboxView;

    closed spec fn view(&self) -> MailboxView {
        MailboxView {
            slot: frame_view(self.slot),
            slot_index: self.slot_index@,
            arrivals: self.arrivals@,
            delivered: self.delivered@,
        }
    }
}

impl FrameMailbox {
    /// A fresh, empty mailbox.
    pub fn new() -> (m: FrameMailbox)
        ensures
            m@ == empty_mailbox(),
            mailbox_inv(m@),
    {
        let m = FrameMailbox {
            slot: None,
            arrivals: Ghost(0),
            slot_index: Ghost(None),
            delivered: Ghost(Seq::empty()),
        };
        proof {
            assert(m@ =~= empty_mailbox());
        }
        m
    }

    /// Write a frame: always succeeds, always overwrites. Called for every
    /// frame the capture callback receives.
    pub fn put(&mut self, frame: Vec<u8>)
        requires
            mailbox_inv(old(self)@),
        ensures
            final(self)@ == put_spec(old(self)@, frame@),
            mailbox_inv(final(self)@),
    {
        let ghost previous_arrivals = self.arrivals@;
        self.slot = Some(frame);
        self.slot_index = Ghost(Some(previous_arrivals));
        self.arrivals = Ghost(previous_arrivals + 1);
        proof {
            assert(self@ =~= put_spec(old(self)@, frame@));
        }
    }

    /// Read the slot: returns the buffered frame, if any, clearing the slot
    /// so that no frame is handed out twice.
    pub fn take(&mut self) -> (r: Option<Vec<u8>>)
        requires
            mailbox_inv(old(self)@),
        ensures
            frame_view(r) == take_out(old(self)@),
            final(self)@ == take_spec(old(self)@),
            mailbox_inv(final(self)@),
    {
        let r = self.slot.take();
        let ghost previous_index = self.slot_index@;
        self.slot_index = Ghost(None);
        if r.is_some() {
            self.delivered = Ghost(self.delivered@.push(previous_index.unwrap()));
        }
        proof {
            assert(self@ =~= take_spec(old(self)@));
        }
        r
    }

    /// Empty the slot without delivering; used on session stop so that no
    /// stale frame leaks into a later session.
    pub fn clear(&mut self)
        requires
            mailbox_inv(old(self)@),
        ensures
            final(self)@ == clear_spec(old(self)@),
            mailbox_inv(final(self)@),
    {
        self.slot = None;
        self.slot_index = Ghost(None);
        proof {
            assert(self@ =~= clear_spec(old(self)@));
        }
    }

    /// Whether nothing is buffered.
    pub fn is_empty(&self) -> (r: bool)
        ensures
            r == (self@.slot is None),
    {
        self.slot.is_none()
    }
}

/// Law (mailbox overwrite): after a write of `a` and then a write of `b` with
/// no read between them, a read hands out `b` — and it is the second arrival
/// that gets delivered, never the first.
pub proof fn lemma_mailbox_overwrite(m: MailboxView, a: Seq<u8>, b: Seq<u8>)
    ensures
        take_out(put_spec(put_spec(m, a), b)) == Some(b),
        take_spec(put_spec(put_spec(m, a), b)).delivered == m.delivered.push(m.arrivals + 1),
        put_spec(m, a).slot_index == Some(m.arrivals),
        take_spec(put_spec(put_spec(m, a), b)).delivered.last() != m.arrivals,
{
}

/// Law (at-most-one delivery): however writes and reads were interleaved, a
/// read that returns a frame returns an arrival that no earlier read returned,
/// and no two deliveries in the history are the same arrival.
pub proof fn lemma_at_most_one_delivery(m: MailboxView)
    requires
        mailbox_inv(m),
    ensures
        m.slot_index matches Some(k) ==> forall|i: int|
            0 <= i < m.delivered.len() ==> m.delivered[i] != k,
        forall|i: int, j: int|
            0 <= i < j < m.delivered.len() ==> m.delivered[i] != m.delivered[j],
{
}

/// Law (latest frame wins): whatever the slot held before, after a write the
/// slot holds exactly the written frame, so a read observes the most recent
/// write at the time of its read.
pub proof fn lemma_latest_write_observed(m: MailboxView, frame: Seq<u8>)
    ensures
        take_out(put_spec(m, frame)) == Some(frame),
{
}

} // verus!

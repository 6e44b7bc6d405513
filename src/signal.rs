//! The counting signal between request writers and the reader loop.
//!
//! Writers record each queued request; the single reader drains the count
//! and waits for a wake-up only when nothing was recorded. No record is ever
//! lost and the reader never reports an empty batch.

use vstd::prelude::*;

verus! {

/// One call on the signal, in the order the calls took effect.
#[derive(Debug, Clone, Copy, PartialEq, Eq, Structural)]
pub enum SignalEvent {
    /// A writer recorded one new request.
    Queued,
    /// The reader drained the count.
    Drained,
}

/// Requests recorded and not yet drained after `events`.
pub open spec fn pending_after(events: Seq<SignalEvent>) -> nat
    decreases events.len(),
{
    if events.len() == 0 {
        0
    } else {
        match events.last() {
            SignalEvent::Queued => pending_after(events.drop_last()) + 1,
            SignalEvent::Drained => 0,
        }
    }
}

/// What a drain reports when `pending` requests are recorded: the count, or
/// `None` (the reader must wait) when there are none.
pub open spec fn drain_result(pending: nat) -> Option<nat> {
    if pending > 0 {
        Some(pending)
    } else {
        None
    }
}

/// Sum of all counts reported by the drains among `events`.
pub open spec fn total_drained(events: Seq<SignalEvent>) -> nat
    decreases events.len(),
{
    if events.len() == 0 {
        0
    } else {
        match events.last() {
            SignalEvent::Queued => total_drained(events.drop_last()),
            SignalEvent::Drained => total_drained(events.drop_last()) + pending_after(
                events.drop_last(),
            ),
        }
    }
}

/// Number of requests recorded among `events`.
pub open spec fn queued_count(events: Seq<SignalEvent>) -> nat
    decreases events.len(),
{
    if events.len() == 0 {
        0
    } else {
        match events.last() {
            SignalEvent::Queued => queued_count(events.drop_last()) + 1,
            SignalEvent::Drained => queued_count(events.drop_last()),
        }
    }
}

/// No request is lost: whatever the interleaving, the counts reported so far
/// plus what is still pending equal the number of requests recorded, and
/// after a final drain the reported counts add up to exactly that number.
pub proof fn lemma_no_lost_requests(events: Seq<SignalEvent>)
    ensures
        total_drained(events) + pending_after(events) == queued_count(events),
        total_drained(events.push(SignalEvent::Drained)) == queued_count(events),
    decreases events.len(),
{
    if events.len() > 0 {
        lemma_no_lost_requests(events.drop_last());
    }
    let after = events.push(SignalEvent::Drained);
    assert(after.drop_last() =~= events);
}

/// A drain never reports zero: either a positive count or "wait".
pub proof fn lemma_drain_never_zero(pending: nat)
    ensures
        drain_result(pending) is None <==> pending == 0,
        drain_result(pending) matches Some(n) ==> n > 0,
{
}

/// The counter shared by writers and the reader loop.
pub struct RequestSignal {
    pending: usize,
    events: Ghost<Seq<SignalEvent>>,
}

impl View for RequestSignal {
    type V = Seq<SignalEvent>;

    /// Every call made on the signal so far.
    closed spec fn view(&self) -> Seq<SignalEvent> {
        self.events@
    }
}

impl RequestSignal {
    /// Requests recorded and not yet drained.
    pub closed spec fn pending(&self) -> nat {
        self.pending as nat
    }

    /// The pending count is the one that the history of calls gives.
    pub closed spec fn wf(&self) -> bool {
        self.pending as nat == pending_after(self.events@)
    }

    /// A signal with nothing recorded.
    pub fn new() -> (r: Self)
        ensures
            r.wf(),
            r@ == Seq::<SignalEvent>::empty(),
            r.pending() == 0,
            r.pending() == pending_after(r@),
    {
        RequestSignal { pending: 0, events: Ghost(Seq::empty()) }
    }

    /// Requests recorded and not yet drained.
    pub fn pending_count(&self) -> (r: usize)
        ensures
            r as nat == self.pending(),
    {
        self.pending
    }

    /// Records one newly queued request.
    pub fn notify_new_packet_event(&mut self)
        requires
            old(self).wf(),
            old(self).pending() < usize::MAX,
        ensures
            final(self).wf(),
            final(self)@ == old(self)@.push(SignalEvent::Queued),
            final(self).pending() == old(self).pending() + 1,
            final(self).pending() == pending_after(final(self)@),
            total_drained(final(self)@) == total_drained(old(self)@),
    {
        self.pending = self.pending + 1;
        self.events = Ghost(self.events@.push(SignalEvent::Queued));
        assert(self.events@.drop_last() =~= old(self).events@);
    }

    /// Drains the count: returns it and resets it to zero, or returns `None`
    /// when nothing was recorded, telling the reader to wait for a wake-up
    /// and try again.
    pub fn take_new_requests(&mut self) -> (r: Option<usize>)
        requires
            old(self).wf(),
        ensures
            final(self).wf(),
            final(self)@ == old(self)@.push(SignalEvent::Drained),
            final(self).pending() == 0,
            final(self).pending() == pending_after(final(self)@),
            total_drained(final(self)@) == total_drained(old(self)@) + match r {
                Some(n) => n as nat,
                None => 0,
            },
            r matches Some(n) ==> drain_result(old(self).pending()) == Some(n as nat),
            r is None ==> drain_result(old(self).pending()) is None,
    {
        let count = self.pending;
        self.pending = 0;
        self.events = Ghost(self.events@.push(SignalEvent::Drained));
        assert(self.events@.drop_last() =~= old(self).events@);
        if count > 0 {
            Some(count)
        } else {
            None
        }
    }
}

} // verus!

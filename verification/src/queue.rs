//! The hand-off from request handling to the single worker: a strictly
//! FIFO queue of jobs with a shutdown sentinel.

use vstd::prelude::*;

use crate::github::GithubPushEvent;
use crate::hook::HookConfig;

verus! {

/// One queued job: an owned copy of the matched hook and the decoded push
/// event that triggered it.
pub struct PushEvent {
    pub hook: HookConfig,
    pub content: GithubPushEvent,
}

/// What the worker receives: a job, or the sentinel that ends its loop.
pub enum Event {
    Done,
    PushEvent(PushEvent),
}

/// A strictly FIFO queue of events. Producers append at the back; the
/// single worker takes from the front. Its view is the pending sequence,
/// front first. There is no priority, no coalescing and no deduplication:
/// every sent event stays its own entry.
pub struct EventQueue {
    events: Vec<Event>,
}

impl View for EventQueue {
    type V = Seq<Event>;

    closed spec fn view(&self) -> Seq<Event> {
        self.events@
    }
}

impl EventQueue {
    /// An empty queue.
    pub fn new() -> (q: Self)
        ensures
            q@ == Seq::<Event>::empty(),
    {
        EventQueue { events: Vec::new() }
    }

    /// How many events are pending.
    pub fn len(&self) -> (n: usize)
        ensures
            n == self@.len(),
    {
        self.events.len()
    }

    /// Appends one event at the back; everything already pending stays
    /// where it was.
    pub fn send(&mut self, e: Event)
        ensures
            final(self)@ == old(self)@.push(e),
    {
        self.events.push(e);
    }

    /// Takes the event at the front — the least recently sent — or nothing
    /// when the queue is empty.
    pub fn receive(&mut self) -> (r: Option<Event>)
        ensures
            old(self)@.len() == 0 ==> r is None && final(self)@ == old(self)@,
            old(self)@.len() > 0 ==> r == Some(old(self)@[0]) && final(self)@ == old(
                self,
            )@.drop_first(),
    {
        if self.events.len() == 0 {
            None
        } else {
            let e = self.events.remove(0);
            proof {
                assert(self@ =~= old(self)@.drop_first());
            }
            Some(e)
        }
    }
}

/// Jobs are handed out in strict enqueue order. Sending J1 and then J2
/// puts J1 ahead of J2, and however many receives happen in between, J1
/// still stands ahead of J2 afterwards; since `receive` always yields the
/// front and the single worker runs each job's pipeline to completion
/// before receiving again, J1's pipeline finishes before J2's begins.
pub proof fn lemma_fifo_order(pending: Seq<Event>, j1: Event, j2: Event)
    ensures
        pending.push(j1).push(j2)[pending.len() as int] == j1,
        pending.push(j1).push(j2)[pending.len() as int + 1] == j2,
        forall|k: int|
            0 <= k <= pending.len() ==> #[trigger] pending.push(j1).push(j2).skip(k)[pending.len()
                - k] == j1 && pending.push(j1).push(j2).skip(k)[pending.len() - k + 1] == j2,
{
    let after = pending.push(j1).push(j2);
    assert forall|k: int| 0 <= k <= pending.len() implies #[trigger] after.skip(k)[pending.len()
        - k] == j1 && after.skip(k)[pending.len() - k + 1] == j2 by {
        assert(after.skip(k)[pending.len() - k] == after[pending.len() as int]);
        assert(after.skip(k)[pending.len() - k + 1] == after[pending.len() as int + 1]);
    }
}

} // verus!

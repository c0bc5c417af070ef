//! An in-memory model of the OS input queue, and the batched-submission
//! protocol that feeds it.
//!
//! The queue is a shared, process-external resource: one submission call may
//! accept fewer records than offered, for instance while another process
//! holds an input-blocking hook. [`InputQueue`] models that contention with
//! a list of per-call acceptance caps; once the list is exhausted every
//! record is accepted. [`send_events`] is the submission protocol itself: it
//! resubmits the remaining suffix while forward progress continues, and
//! fails with [`Error::Blocked`] the moment a call accepts nothing.

use vstd::prelude::*;

use super::error::Error;
use super::records::InputRecord;

verus! {

/// The abstract state of an [`InputQueue`].
#[verifier::ext_equal]
pub ghost struct QueueView {
    /// Per-call acceptance caps still pending, front first; a submission
    /// consumes one per call, and an empty list accepts everything.
    pub caps: Seq<usize>,
    /// Every record the queue has accepted so far, in order.
    pub accepted: Seq<InputRecord>,
}

/// How many of `remaining` offered records the next submission call
/// accepts.
pub open spec fn accept_count(caps: Seq<usize>, remaining: nat) -> nat {
    if caps.len() == 0 {
        remaining
    } else if caps[0] < remaining {
        caps[0] as nat
    } else {
        remaining
    }
}

/// The pending caps after one submission call.
pub open spec fn pop_cap(caps: Seq<usize>) -> Seq<usize> {
    if caps.len() == 0 {
        caps
    } else {
        caps.drop_first()
    }
}

/// Runs the submission protocol over the queue model: whether it succeeds,
/// how many records the queue takes, and how many caps are consumed — one
/// per call made.
pub open spec fn run_submit(caps: Seq<usize>, remaining: nat) -> (bool, nat, nat)
    decreases remaining,
{
    if remaining == 0 {
        (true, 0 as nat, 0 as nat)
    } else if caps.len() == 0 {
        (true, remaining, 0 as nat)
    } else {
        let n = accept_count(caps, remaining);
        if n == 0 {
            (false, 0 as nat, 1 as nat)
        } else {
            let rest = run_submit(caps.drop_first(), (remaining - n) as nat);
            (rest.0, n + rest.1, 1 + rest.2)
        }
    }
}

/// The OS input queue, modelled in memory.
pub struct InputQueue {
    caps: Vec<usize>,
    accepted: Vec<InputRecord>,
}

impl View for InputQueue {
    type V = QueueView;

    closed spec fn view(&self) -> QueueView {
        QueueView { caps: self.caps@, accepted: self.accepted@ }
    }
}

impl InputQueue {
    /// A fresh, uncontended queue: every submission accepts everything.
    pub fn new() -> (q: Self)
        ensures
            q@.caps.len() == 0,
            q@.accepted.len() == 0,
    {
        InputQueue { caps: Vec::new(), accepted: Vec::new() }
    }

    /// Appends one per-call acceptance cap, modelling contention on the
    /// queue.
    pub fn push_cap(&mut self, cap: usize)
        ensures
            final(self)@.caps == old(self)@.caps.push(cap),
            final(self)@.accepted == old(self)@.accepted,
    {
        self.caps.push(cap);
    }

    /// The records the queue has accepted so far, in order.
    pub fn accepted(&self) -> (r: &Vec<InputRecord>)
        ensures
            r@ == self@.accepted,
    {
        &self.accepted
    }

    /// The per-call acceptance caps still pending.
    pub fn caps(&self) -> (r: &Vec<usize>)
        ensures
            r@ == self@.caps,
    {
        &self.caps
    }

    /// Hands out the records accepted so far and empties the record log, so
    /// that a transport can replay each batch exactly once.
    pub fn take_accepted(&mut self) -> (r: Vec<InputRecord>)
        ensures
            r@ == old(self)@.accepted,
            final(self)@.accepted.len() == 0,
            final(self)@.caps == old(self)@.caps,
    {
        let mut taken: Vec<InputRecord> = Vec::new();
        core::mem::swap(&mut taken, &mut self.accepted);
        taken
    }

    /// One submission call: offers the suffix of `events` that starts at
    /// `start` and accepts as much of it as the next cap allows, consuming
    /// that cap.
    #[verifier::loop_isolation(false)]
    pub fn submit(&mut self, events: &Vec<InputRecord>, start: usize) -> (n: usize)
        requires
            start <= events@.len(),
        ensures
            n as nat == accept_count(old(self)@.caps, (events@.len() - start) as nat),
            final(self)@.caps == pop_cap(old(self)@.caps),
            final(self)@.accepted == old(self)@.accepted + events@.subrange(
                start as int,
                start + n,
            ),
    {
        let remaining = events.len() - start;
        let n: usize = if self.caps.len() == 0 {
            remaining
        } else {
            let cap = self.caps.remove(0);
            if cap < remaining {
                cap
            } else {
                remaining
            }
        };
        let mut j: usize = 0;
        proof {
            assert(self.accepted@ =~= old(self)@.accepted + events@.subrange(
                start as int,
                start as int,
            ));
        }
        while j < n
            invariant
                j <= n,
                n <= events@.len() - start,
                self.caps@ == pop_cap(old(self)@.caps),
                self.accepted@ == old(self)@.accepted + events@.subrange(
                    start as int,
                    start + j,
                ),
            decreases n - j,
        {
            self.accepted.push(events[start + j]);
            proof {
                assert(self.accepted@ =~= old(self)@.accepted + events@.subrange(
                    start as int,
                    start + j + 1,
                ));
            }
            j += 1;
        }
        n
    }
}

/// Sends the provided events: submits the remaining suffix of the array and
/// advances past however many records were accepted, until the whole array
/// is accepted, or until a call accepts zero records, which fails with
/// [`Error::Blocked`] at once instead of retrying forever. Order is
/// preserved across partial-acceptance retries.
#[verifier::loop_isolation(false)]
pub fn send_events(queue: &mut InputQueue, events: &Vec<InputRecord>) -> (r: Result<(), Error>)
    ensures
        ({
            let (ok, taken, steps) = run_submit(old(queue)@.caps, events@.len() as nat);
            &&& r == (if ok {
                Ok::<(), Error>(())
            } else {
                Err::<(), Error>(Error::Blocked)
            })
            &&& final(queue)@.accepted == old(queue)@.accepted + events@.take(taken as int)
            &&& final(queue)@.caps == old(queue)@.caps.skip(steps as int)
        }),
{
    let mut start: usize = 0;
    let ghost mut consumed: int = 0;
    proof {
        assert(events@.take(0) =~= Seq::<InputRecord>::empty());
        assert(old(queue)@.accepted + events@.take(0) =~= old(queue)@.accepted);
        assert(old(queue)@.caps.skip(0) =~= old(queue)@.caps);
    }
    while start < events.len()
        invariant
            start <= events@.len(),
            0 <= consumed <= old(queue)@.caps.len(),
            queue@.accepted == old(queue)@.accepted + events@.take(start as int),
            queue@.caps == old(queue)@.caps.skip(consumed),
            ({
                let full = run_submit(old(queue)@.caps, events@.len() as nat);
                let rest = run_submit(queue@.caps, (events@.len() - start) as nat);
                full.0 == rest.0 && full.1 == start + rest.1 && full.2 == consumed + rest.2
            }),
        decreases events@.len() - start,
    {
        let ghost pre = queue@;
        let n = queue.submit(events, start);
        if n == 0 {
            proof {
                assert(pre.caps.len() > 0);
                assert(queue@.caps =~= old(queue)@.caps.skip(consumed + 1));
                assert(queue@.accepted =~= old(queue)@.accepted + events@.take(start as int));
            }
            return Err(Error::Blocked);
        }
        proof {
            if pre.caps.len() > 0 {
                consumed = consumed + 1;
            }
            assert(queue@.caps =~= old(queue)@.caps.skip(consumed));
            assert(queue@.accepted =~= old(queue)@.accepted + events@.take(start + n as int));
        }
        start += n;
    }
    proof {
        assert(events@.take(events@.len() as int) =~= events@);
    }
    Ok(())
}

/// The submission protocol never takes more records than it was offered,
/// and it succeeds exactly when it has taken them all: success and a
/// partially delivered batch cannot coexist.
pub proof fn lemma_run_submit_completes(caps: Seq<usize>, remaining: nat)
    ensures
        ({
            let (ok, taken, steps) = run_submit(caps, remaining);
            &&& taken <= remaining
            &&& (ok <==> taken == remaining)
            &&& steps <= caps.len()
        }),
    decreases remaining,
{
    if remaining == 0 || caps.len() == 0 {
    } else {
        let n = accept_count(caps, remaining);
        if n != 0 {
            lemma_run_submit_completes(caps.drop_first(), (remaining - n) as nat);
        }
    }
}

/// Under contention that lets exactly one record through per call, a batch
/// of `remaining` records takes exactly `remaining` calls — one cap
/// consumed and one record accepted per call — and still succeeds as a
/// whole.
pub proof fn lemma_unit_caps_one_call_per_record(caps: Seq<usize>, remaining: nat)
    requires
        caps.len() == remaining,
        forall|i: int| 0 <= i < caps.len() ==> caps[i] == 1,
    ensures
        run_submit(caps, remaining) == (true, remaining, remaining),
    decreases remaining,
{
    if remaining != 0 {
        lemma_unit_caps_one_call_per_record(caps.drop_first(), (remaining - 1) as nat);
    }
}

/// A queue that accepts zero records on the very first call makes the
/// protocol fail with `Blocked` immediately: nothing is taken and exactly
/// one call is made — no retry beyond the first.
pub proof fn lemma_zero_first_cap_blocks(caps: Seq<usize>, remaining: nat)
    requires
        remaining > 0,
        caps.len() > 0,
        caps[0] == 0,
    ensures
        run_submit(caps, remaining) == (false, 0 as nat, 1 as nat),
{
}

} // verus!

//! The ledger gateway: the single owner of the ledger client and its queue of jobs.
//!
//! The ledger client must not be used by two operations at once. The gateway keeps the
//! jobs that wait in arrival order and hands out the next one only when none is in
//! progress. The worker that owns the ledger client takes a job with [`Gateway::start`],
//! serves it, and reports with [`Gateway::finish`].

use crate::handler::ClientRequest;
use std::collections::VecDeque;
use vstd::prelude::*;

verus! {

/// A job that waits for the ledger worker: the request and the handle on which its
/// single reply is sent. The handle moves with the job and so is used once.
#[derive(Debug)]
pub struct PendingRequest<R> {
    pub request: ClientRequest,
    pub respond: R,
}

/// The state of a gateway: the jobs that wait, oldest first, and whether a job is in
/// progress.
pub struct GatewayView<R> {
    pub waiting: Seq<PendingRequest<R>>,
    pub busy: bool,
}

/// An operation on a gateway.
pub enum GatewayOp<R> {
    /// A job arrives.
    Submit(PendingRequest<R>),
    /// The worker asks for the next job.
    Start,
    /// The worker reports that its job is done.
    Finish,
}

impl<R> GatewayView<R> {
    /// The gateway before any operation: nothing waits, nothing is in progress.
    pub open spec fn idle() -> Self {
        GatewayView { waiting: Seq::empty(), busy: false }
    }

    /// The state after `job` arrived: it waits behind all earlier jobs.
    pub open spec fn submit(self, job: PendingRequest<R>) -> Self {
        GatewayView { waiting: self.waiting.push(job), busy: self.busy }
    }

    /// The job that a request for the next job yields: the oldest that waits, unless a
    /// job is in progress or none waits.
    pub open spec fn next(self) -> Option<PendingRequest<R>> {
        if !self.busy && self.waiting.len() > 0 {
            Some(self.waiting[0])
        } else {
            None
        }
    }

    /// The state after a request for the next job.
    pub open spec fn start(self) -> Self {
        if self.next() is Some {
            GatewayView { waiting: self.waiting.drop_first(), busy: true }
        } else {
            self
        }
    }

    /// The state after the worker's report: no job is in progress.
    pub open spec fn finish(self) -> Self {
        GatewayView { waiting: self.waiting, busy: false }
    }

    /// The state after `op`.
    pub open spec fn apply(self, op: GatewayOp<R>) -> Self {
        match op {
            GatewayOp::Submit(job) => self.submit(job),
            GatewayOp::Start => self.start(),
            GatewayOp::Finish => self.finish(),
        }
    }
}

/// The state of a gateway after the operations `ops`, applied in order to a new one.
pub open spec fn state_after<R>(ops: Seq<GatewayOp<R>>) -> GatewayView<R>
    decreases ops.len(),
{
    if ops.len() == 0 {
        GatewayView::idle()
    } else {
        state_after(ops.drop_last()).apply(ops.last())
    }
}

/// The jobs that arrived during `ops`, in order of arrival.
pub open spec fn submitted<R>(ops: Seq<GatewayOp<R>>) -> Seq<PendingRequest<R>>
    decreases ops.len(),
{
    if ops.len() == 0 {
        Seq::empty()
    } else {
        match ops.last() {
            GatewayOp::Submit(job) => submitted(ops.drop_last()).push(job),
            _ => submitted(ops.drop_last()),
        }
    }
}

/// The jobs that the worker was handed during `ops`, in the order in which it got them.
pub open spec fn started<R>(ops: Seq<GatewayOp<R>>) -> Seq<PendingRequest<R>>
    decreases ops.len(),
{
    if ops.len() == 0 {
        Seq::empty()
    } else {
        let before = state_after(ops.drop_last());
        match (ops.last(), before.next()) {
            (GatewayOp::Start, Some(job)) => started(ops.drop_last()).push(job),
            _ => started(ops.drop_last()),
        }
    }
}

/// The number of jobs that the worker reported done during `ops`: the reports made
/// while a job was in progress.
pub open spec fn finished<R>(ops: Seq<GatewayOp<R>>) -> nat
    decreases ops.len(),
{
    if ops.len() == 0 {
        0
    } else {
        let before = state_after(ops.drop_last());
        match ops.last() {
            GatewayOp::Finish => if before.busy {
                finished(ops.drop_last()) + 1
            } else {
                finished(ops.drop_last())
            },
            _ => finished(ops.drop_last()),
        }
    }
}

/// Arrival order: after any operations, the jobs handed to the worker followed by the
/// jobs that still wait are the jobs that arrived, in their order of arrival. So jobs
/// are served first in, first out, and none is lost, repeated or overtaken.
pub proof fn lemma_arrival_order<R>(ops: Seq<GatewayOp<R>>)
    ensures
        started(ops) + state_after(ops).waiting == submitted(ops),
        started(ops).is_prefix_of(submitted(ops)),
    decreases ops.len(),
{
    if ops.len() == 0 {
        assert(started(ops) + state_after(ops).waiting =~= submitted(ops));
    } else {
        let earlier = ops.drop_last();
        let before = state_after(earlier);
        lemma_arrival_order(earlier);
        match ops.last() {
            GatewayOp::Submit(job) => {
                assert(started(ops) + state_after(ops).waiting =~= (started(earlier)
                    + before.waiting).push(job));
            },
            GatewayOp::Start => {
                if before.next() is Some {
                    assert(started(ops) + state_after(ops).waiting =~= started(earlier)
                        + before.waiting);
                }
            },
            GatewayOp::Finish => {},
        }
    }
}

/// One at a time: after any operations, the jobs handed to the worker and not yet
/// reported done are one if a job is in progress and none otherwise. While a job is
/// in progress a request for the next job yields none.
pub proof fn lemma_one_at_a_time<R>(ops: Seq<GatewayOp<R>>)
    ensures
        started(ops).len() - finished(ops) == if state_after(ops).busy {
            1int
        } else {
            0int
        },
        state_after(ops).busy ==> state_after(ops).next() is None,
    decreases ops.len(),
{
    if ops.len() > 0 {
        lemma_one_at_a_time(ops.drop_last());
    }
}

/// The queue of the ledger worker.
pub struct Gateway<R> {
    waiting: VecDeque<PendingRequest<R>>,
    busy: bool,
}

impl<R> View for Gateway<R> {
    type V = GatewayView<R>;

    closed spec fn view(&self) -> GatewayView<R> {
        GatewayView { waiting: self.waiting@, busy: self.busy }
    }
}

impl<R> Gateway<R> {
    /// A gateway with no job waiting and none in progress.
    pub fn new() -> (gateway: Self)
        ensures
            gateway@ == GatewayView::<R>::idle(),
    {
        Gateway { waiting: VecDeque::new(), busy: false }
    }

    /// Queues `job` behind all jobs that wait.
    pub fn submit(&mut self, job: PendingRequest<R>)
        ensures
            final(self)@ == old(self)@.submit(job),
    {
        self.waiting.push_back(job);
    }

    /// Hands out the oldest job that waits and marks it as in progress. Yields nothing
    /// while a job is in progress, and nothing when no job waits.
    pub fn start(&mut self) -> (job: Option<PendingRequest<R>>)
        ensures
            job == old(self)@.next(),
            final(self)@ == old(self)@.start(),
    {
        if self.busy {
            return None;
        }
        let job = self.waiting.pop_front();
        if job.is_some() {
            self.busy = true;
            assert(self.waiting@ =~= old(self).waiting@.drop_first());
        }
        job
    }

    /// Records that the job in progress is done.
    pub fn finish(&mut self)
        ensures
            final(self)@ == old(self)@.finish(),
    {
        self.busy = false;
    }

    /// Whether a job is in progress.
    pub fn is_busy(&self) -> (busy: bool)
        ensures
            busy == self@.busy,
    {
        self.busy
    }

    /// The number of jobs that wait.
    pub fn pending(&self) -> (n: usize)
        ensures
            n == self@.waiting.len(),
    {
        self.waiting.len()
    }
}

} // verus!

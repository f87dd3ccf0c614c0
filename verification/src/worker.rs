//! The sandbox worker's queue and correlation protocol.
//!
//! A worker is the dedicated execution context bound to one compiled module.
//! It consumes mapping requests from its queue strictly in submission order,
//! executes the matched handler, and writes exactly one response under each
//! request's correlation id. The worker is modelled here as an explicit
//! state value; the execution unit that actually runs handlers drives it by
//! taking the next request and handing back the outcome it produced.

use vstd::prelude::*;
use crate::block::DeploymentHash;
use crate::mapping::{HandlerOutcome, MappingRequest};

verus! {

/// A module already compiled and instantiated by the execution unit. A
/// module that fails to compile never yields one of these.
#[derive(Clone, Copy, PartialEq, Eq, Structural, Debug)]
pub struct CompiledModule {
    pub id: u64,
}

/// Compilation or instantiation of a module failed at worker-spawn time.
/// Fatal for the data source: it cannot be indexed.
#[derive(Debug)]
pub enum SpawnError {
    CompilationFailed(String),
    InstantiationFailed(String),
}

/// The worker's queue no longer accepts requests.
#[derive(Debug)]
pub struct QueueClosed;

/// A request as it sits in the worker's queue. The correlation id stands
/// for the request's single-use response channel: the response to this
/// request, and no other, is written under it.
#[derive(Debug)]
pub struct QueuedRequest {
    pub id: u64,
    pub request: MappingRequest,
}

/// A response written under a correlation id and not yet collected.
#[derive(Debug)]
pub struct WrittenResponse {
    pub id: u64,
    pub outcome: HandlerOutcome,
}

/// What a host observes when it looks at a response channel.
#[derive(Debug)]
pub enum ChannelRead {
    /// The worker wrote this outcome under the id.
    Value(HandlerOutcome),
    /// The worker was torn down without responding: the channel is dropped
    /// and no value will ever arrive.
    Dropped,
    /// No response yet; the worker is still alive.
    Pending,
}

/// A sandbox worker: one work queue, one compiled module, and the record of
/// every response written so far.
///
/// Correlation ids are assigned sequentially on submission, so the id order
/// is the submission order. `responded` is the (ghost) history of ids
/// responded to, in write order; `unread` holds the written responses not
/// yet collected by their hosts.
pub struct Worker {
    pub module: CompiledModule,
    pub subgraph_id: DeploymentHash,
    /// No further submissions are accepted once set.
    pub closed: bool,
    /// The worker was dropped: pending requests lost, channels dropped.
    pub torn_down: bool,
    /// Correlation id the next submission will receive.
    pub next_id: u64,
    /// Accepted requests not yet taken by the execution unit, oldest first.
    pub pending: Vec<QueuedRequest>,
    /// Request taken by the execution unit and not yet responded to.
    pub in_flight: Option<u64>,
    /// Responses written and not yet collected.
    pub unread: Vec<WrittenResponse>,
    /// History of ids accepted by the queue, in submission order.
    pub submitted: Ghost<Seq<u64>>,
    /// History of ids responded to, in write order.
    pub responded: Ghost<Seq<u64>>,
}

impl Worker {
    /// Well-formedness: ids are assigned sequentially; the responded history
    /// is exactly the ids `0 .. k` in order; the queue continues from there;
    /// a torn-down worker has lost its queue; unread responses carry
    /// distinct, already-responded ids.
    pub open spec fn wf(self) -> bool {
        let k = self.responded@.len() as int;
        &&& self.submitted@ =~= Seq::new(self.next_id as nat, |i: int| i as u64)
        &&& self.responded@ =~= Seq::new(k as nat, |i: int| i as u64)
        &&& k <= self.next_id as int
        &&& match self.in_flight {
            Some(id) => {
                &&& !self.torn_down
                &&& id as int == k
                &&& k + 1 + self.pending@.len() as int == self.next_id as int
            },
            None => !self.torn_down ==> k + self.pending@.len() as int == self.next_id as int,
        }
        &&& (forall|i: int|
            0 <= i < self.pending@.len() ==> (#[trigger] self.pending@[i].id) as int == self.next_id
                as int - self.pending@.len() as int + i)
        &&& (self.torn_down ==> self.pending@.len() == 0 && self.in_flight is None && self.closed)
        &&& (forall|i: int|
            0 <= i < self.unread@.len() ==> ((#[trigger] self.unread@[i].id) as int) < k)
        &&& (forall|i: int, j: int|
            #![trigger self.unread@[i].id, self.unread@[j].id]
            0 <= i < j < self.unread@.len() ==> self.unread@[i].id != self.unread@[j].id)
    }

    /// Submits a request to the queue. The queue assigns the correlation id
    /// under which exactly one response will be written. A closed queue
    /// accepts nothing and leaves the worker untouched.
    pub fn submit(&mut self, request: MappingRequest) -> (r: Result<u64, QueueClosed>)
        requires
            old(self).wf(),
            !old(self).closed ==> old(self).next_id < u64::MAX,
        ensures
            final(self).wf(),
            old(self).closed ==> r is Err && *final(self) == *old(self),
            !old(self).closed ==> {
                &&& r matches Ok(id) && id == old(self).next_id
                &&& final(self).pending@ == old(self).pending@.push(
                    QueuedRequest { id: old(self).next_id, request },
                )
                &&& final(self).next_id == old(self).next_id + 1
                &&& final(self).submitted@ == old(self).submitted@.push(old(self).next_id)
                &&& final(self).unread@ == old(self).unread@
                &&& final(self).responded@ == old(self).responded@
                &&& final(self).in_flight == old(self).in_flight
                &&& final(self).closed == old(self).closed
                &&& final(self).torn_down == old(self).torn_down
                &&& final(self).module == old(self).module
                &&& final(self).subgraph_id == old(self).subgraph_id
            },
    {
        if self.closed {
            Err(QueueClosed)
        } else {
            let id = self.next_id;
            self.next_id = self.next_id + 1;
            self.pending.push(QueuedRequest { id, request });
            proof {
                self.submitted@ = self.submitted@.push(id);
                assert(self.submitted@ =~= Seq::new(self.next_id as nat, |i: int| i as u64));
            }
            Ok(id)
        }
    }

    /// The execution unit takes the oldest accepted request. The worker is
    /// the sole owner of the request's state from here until it responds.
    pub fn begin_next(&mut self) -> (r: QueuedRequest)
        requires
            old(self).wf(),
            old(self).pending@.len() > 0,
            (old(self).in_flight is None),
            !old(self).torn_down,
        ensures
            final(self).wf(),
            r == old(self).pending@[0],
            r.id as int == old(self).responded@.len() as int,
            final(self).pending@ == old(self).pending@.drop_first(),
            final(self).in_flight == Some(r.id),
            final(self).next_id == old(self).next_id,
            final(self).submitted@ == old(self).submitted@,
            final(self).unread@ == old(self).unread@,
            final(self).responded@ == old(self).responded@,
            final(self).closed == old(self).closed,
            final(self).torn_down == old(self).torn_down,
            final(self).module == old(self).module,
            final(self).subgraph_id == old(self).subgraph_id,
    {
        let q = self.pending.remove(0);
        self.in_flight = Some(q.id);
        proof {
            assert(self.pending@ =~= old(self).pending@.drop_first());
        }
        q
    }

    /// The execution unit publishes the outcome of the request it took:
    /// exactly one response, written under that request's id, even when the
    /// handler failed.
    pub fn respond(&mut self, outcome: HandlerOutcome)
        requires
            old(self).wf(),
            (old(self).in_flight is Some),
        ensures
            final(self).wf(),
            final(self).unread@ == old(self).unread@.push(
                WrittenResponse { id: old(self).in_flight.unwrap(), outcome },
            ),
            final(self).responded@ == old(self).responded@.push(old(self).in_flight.unwrap()),
            (final(self).in_flight is None),
            final(self).pending@ == old(self).pending@,
            final(self).next_id == old(self).next_id,
            final(self).submitted@ == old(self).submitted@,
            final(self).closed == old(self).closed,
            final(self).torn_down == old(self).torn_down,
            final(self).module == old(self).module,
            final(self).subgraph_id == old(self).subgraph_id,
    {
        let id = self.in_flight.unwrap();
        self.in_flight = None;
        self.unread.push(WrittenResponse { id, outcome });
        proof {
            self.responded@ = self.responded@.push(id);
            let k = self.responded@.len() as int;
            assert(self.responded@ =~= Seq::new(k as nat, |i: int| i as u64));
        }
    }

    /// Closes the queue: later submissions are refused. Requests already
    /// accepted are still processed.
    pub fn close(&mut self)
        requires
            old(self).wf(),
        ensures
            final(self).wf(),
            final(self).closed,
            (*final(self) == Worker { closed: true, ..*old(self) }),
    {
        self.closed = true;
    }

    /// Tears the worker down mid-flight: accepted but unanswered requests
    /// are lost and their channels observed as dropped. Responses already
    /// written stay readable, as a value sent over a single-use channel
    /// survives the death of its sender.
    pub fn tear_down(&mut self)
        requires
            old(self).wf(),
        ensures
            final(self).wf(),
            final(self).torn_down,
            final(self).closed,
            final(self).pending@.len() == 0,
            (final(self).in_flight is None),
            final(self).unread@ == old(self).unread@,
            final(self).responded@ == old(self).responded@,
            final(self).next_id == old(self).next_id,
            final(self).submitted@ == old(self).submitted@,
            final(self).module == old(self).module,
            final(self).subgraph_id == old(self).subgraph_id,
    {
        self.pending = Vec::new();
        self.in_flight = None;
        self.closed = true;
        self.torn_down = true;
    }

    /// What the awaiting host observes for the given correlation id: the
    /// response if one was written (collecting it), a dropped channel if the
    /// worker died without responding, otherwise still pending.
    pub fn take_response(&mut self, id: u64) -> (r: ChannelRead)
        requires
            old(self).wf(),
        ensures
            final(self).wf(),
            final(self).pending@ == old(self).pending@,
            final(self).responded@ == old(self).responded@,
            final(self).next_id == old(self).next_id,
            final(self).submitted@ == old(self).submitted@,
            final(self).in_flight == old(self).in_flight,
            final(self).closed == old(self).closed,
            final(self).torn_down == old(self).torn_down,
            final(self).module == old(self).module,
            final(self).subgraph_id == old(self).subgraph_id,
            (exists|j: int|
                0 <= j < old(self).unread@.len() && (#[trigger] old(self).unread@[j]).id == id)
                ==> (exists|j: int|
                {
                    &&& 0 <= j < old(self).unread@.len()
                    &&& (#[trigger] old(self).unread@[j]).id == id
                    &&& r == ChannelRead::Value(old(self).unread@[j].outcome)
                    &&& final(self).unread@ == old(self).unread@.remove(j)
                }),
            !(exists|j: int|
                0 <= j < old(self).unread@.len() && (#[trigger] old(self).unread@[j]).id == id)
                ==> {
                &&& final(self).unread@ == old(self).unread@
                &&& (old(self).torn_down ==> r is Dropped)
                &&& (!old(self).torn_down ==> r is Pending)
            },
    {
        let n = self.unread.len();
        let mut j: usize = 0;
        while j < n
            invariant
                old(self).wf(),
                n == self.unread@.len(),
                0 <= j <= n,
                forall|m: int| 0 <= m < j ==> (#[trigger] self.unread@[m]).id != id,
                *self == *old(self),
            decreases n - j,
        {
            if self.unread[j].id == id {
                let w = self.unread.remove(j);
                proof {
                    let u = old(self).unread@;
                    let k = old(self).responded@.len() as int;
                    assert forall|m: int| 0 <= m < self.unread@.len() implies ((
                    #[trigger] self.unread@[m]).id as int) < k by {
                        if m < j {
                            assert(self.unread@[m] == u[m]);
                        } else {
                            assert(self.unread@[m] == u[m + 1]);
                        }
                    }
                    assert forall|m1: int, m2: int|
                        #![trigger self.unread@[m1].id, self.unread@[m2].id]
                        0 <= m1 < m2 < self.unread@.len() implies self.unread@[m1].id
                        != self.unread@[m2].id by {
                        let o1 = if m1 < j {
                            m1
                        } else {
                            m1 + 1
                        };
                        let o2 = if m2 < j {
                            m2
                        } else {
                            m2 + 1
                        };
                        assert(self.unread@[m1] == u[o1]);
                        assert(self.unread@[m2] == u[o2]);
                    }
                }
                return ChannelRead::Value(w.outcome);
            }
            j = j + 1;
        }
        if self.torn_down {
            ChannelRead::Dropped
        } else {
            ChannelRead::Pending
        }
    }
}

/// Every request the worker has processed received exactly one response:
/// the response history contains each consumed correlation id exactly once,
/// and contains nothing else — no duplicate and no missing response.
pub proof fn lemma_exactly_one_response(w: Worker, id: u64)
    requires
        w.wf(),
    ensures
        ((exists|i: int| 0 <= i < w.responded@.len() && #[trigger] w.responded@[i] == id) <==> (id
            as int) < w.responded@.len()),
        (forall|i: int, j: int|
            #![trigger w.responded@[i], w.responded@[j]]
            0 <= i < w.responded@.len() && 0 <= j < w.responded@.len() && w.responded@[i]
                == w.responded@[j] ==> i == j),
{
    if (id as int) < w.responded@.len() {
        assert(w.responded@[id as int] == id);
    }
}

/// Responses are written in submission order: the ids responded to so far
/// are exactly a prefix of the ids the queue accepted, in the same order,
/// so the i-th response the worker ever wrote answers the i-th request its
/// queue ever accepted.
pub proof fn lemma_responses_in_submission_order(w: Worker)
    requires
        w.wf(),
    ensures
        w.responded@ =~= w.submitted@.subrange(0, w.responded@.len() as int),
        forall|i: int| 0 <= i < w.responded@.len() ==> #[trigger] w.responded@[i] == i as u64,
{
}

} // verus!

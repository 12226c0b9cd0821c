//! The contract of a stage and the runtime that drives one.
//!
//! The runtime owns a bounded inbound queue and an outbound queue. It takes
//! one request at a time, in the order of submission, has the stage process
//! it, and queues the response before it looks at the next request. Closing
//! the inbound queue lets the runtime answer what is still pending and then
//! close the outbound queue.

use vstd::prelude::*;
use std::collections::VecDeque;
use std::sync::Arc;

verus! {

/// Something that turns one request into one response.
///
/// A stage holds no state that the runtime can see. Whatever goes wrong while
/// a request is processed is reported inside the response.
pub trait StatelessPipeline: Send + Sync {
    /// What the stage is asked.
    type Request;

    /// What the stage answers.
    type Response;

    /// The stage's name, for logs and routing.
    const NAME: &'static str;

    /// Whether `resp` is a response that the stage may give to `req`.
    /// A stage that states nothing admits every response.
    open spec fn responds(&self, req: Self::Request, resp: Self::Response) -> bool {
        true
    }

    /// Answers `req`. A failure is part of the answer.
    fn process(&self, req: Self::Request) -> (resp: Self::Response)
        ensures
            self.responds(req, resp),
    ;
}

/// Why the runtime did not take a request. The request comes back.
#[derive(Debug, PartialEq, Eq)]
pub enum SubmitError<Request> {
    /// The inbound queue holds as many requests as it may.
    Full(Request),
    /// The inbound queue was closed.
    Closed(Request),
}

/// What a runtime has seen and done since it was made.
pub struct PhaseView<Request, Response> {
    /// How many requests may wait in the inbound queue.
    pub capacity: nat,
    /// Every request that was accepted, in the order of submission.
    pub accepted: Seq<Request>,
    /// Every response that was produced, in the order of production.
    pub produced: Seq<Response>,
    /// How many responses the consumer has taken.
    pub delivered: nat,
    /// Whether the inbound queue was closed.
    pub closed: bool,
    /// Whether the outbound queue was closed.
    pub terminated: bool,
}

impl<Request, Response> PhaseView<Request, Response> {
    /// The requests that wait in the inbound queue, oldest first.
    pub open spec fn pending(self) -> Seq<Request> {
        self.accepted.skip(self.produced.len() as int)
    }

    /// The responses that wait in the outbound queue, oldest first.
    pub open spec fn ready(self) -> Seq<Response> {
        self.produced.skip(self.delivered as int)
    }

    /// The view after `req` was accepted.
    pub open spec fn accept(self, req: Request) -> Self {
        PhaseView { accepted: self.accepted.push(req), ..self }
    }

    /// The view after the oldest pending request was answered with `resp`.
    pub open spec fn answer(self, resp: Response) -> Self {
        PhaseView { produced: self.produced.push(resp), ..self }
    }

    /// The view after the consumer took the oldest ready response.
    pub open spec fn deliver(self) -> Self {
        PhaseView { delivered: self.delivered + 1, ..self }
    }

    /// Whether this view continues `earlier`: what was accepted, produced
    /// and delivered then still is, in the same places; a queue that was
    /// closed stays closed; and nothing was accepted after the inbound queue
    /// was closed.
    pub open spec fn extends(self, earlier: Self) -> bool {
        &&& self.capacity == earlier.capacity
        &&& earlier.accepted.is_prefix_of(self.accepted)
        &&& earlier.produced.is_prefix_of(self.produced)
        &&& earlier.delivered <= self.delivered
        &&& earlier.closed ==> self.closed && self.accepted == earlier.accepted
        &&& earlier.terminated ==> self.terminated && self.produced == earlier.produced
    }

    /// A view that continues one that continues `first` continues `first`.
    pub proof fn lemma_extends_transitive(self, middle: Self, first: Self)
        requires
            middle.extends(first),
            self.extends(middle),
        ensures
            self.extends(first),
    {
    }
}

/// The runtime of one stage.
pub struct PipelinePhase<T: StatelessPipeline> {
    processor: Arc<T>,
    capacity: usize,
    inbound: VecDeque<T::Request>,
    inbound_closed: bool,
    outbound: VecDeque<T::Response>,
    outbound_closed: bool,
    accepted: Ghost<Seq<T::Request>>,
    produced: Ghost<Seq<T::Response>>,
    delivered: Ghost<nat>,
}

impl<T: StatelessPipeline> View for PipelinePhase<T> {
    type V = PhaseView<T::Request, T::Response>;

    closed spec fn view(&self) -> Self::V {
        PhaseView {
            capacity: self.capacity as nat,
            accepted: self.accepted@,
            produced: self.produced@,
            delivered: self.delivered@,
            closed: self.inbound_closed,
            terminated: self.outbound_closed,
        }
    }
}

impl<T: StatelessPipeline> PipelinePhase<T> {
    /// The stage that this runtime drives.
    pub closed spec fn stage(&self) -> T {
        *self.processor
    }

    /// The runtime's invariant: the queues hold what the history says is
    /// pending and ready, the inbound queue keeps within its capacity, each
    /// response answers the request at its own position, and the outbound
    /// queue is closed only after every accepted request was answered.
    pub closed spec fn wf(&self) -> bool {
        &&& self.delivered@ <= self.produced@.len() <= self.accepted@.len()
        &&& self.inbound@ == self@.pending()
        &&& self.outbound@ == self@.ready()
        &&& self.inbound@.len() <= self.capacity
        &&& forall|i: int|
            0 <= i < self.produced@.len() ==> self.stage().responds(
                #[trigger] self.accepted@[i],
                self.produced@[i],
            )
        &&& self.outbound_closed ==> self.inbound_closed && self.produced@.len()
            == self.accepted@.len()
    }

    /// A runtime for `processor` whose inbound queue holds up to `capacity`
    /// requests.
    pub fn new(processor: Arc<T>, capacity: usize) -> (phase: Self)
        ensures
            phase.wf(),
            phase.stage() == *processor,
            phase@ == (PhaseView::<T::Request, T::Response> {
                capacity: capacity as nat,
                accepted: Seq::empty(),
                produced: Seq::empty(),
                delivered: 0,
                closed: false,
                terminated: false,
            }),
    {
        let phase = PipelinePhase {
            processor,
            capacity,
            inbound: VecDeque::new(),
            inbound_closed: false,
            outbound: VecDeque::new(),
            outbound_closed: false,
            accepted: Ghost(Seq::empty()),
            produced: Ghost(Seq::empty()),
            delivered: Ghost(0),
        };
        assert(phase.inbound@ =~= phase@.pending());
        assert(phase.outbound@ =~= phase@.ready());
        phase
    }

    /// Queues `req` behind the requests that wait. A closed or full queue
    /// takes nothing and hands the request back.
    pub fn submit(&mut self, req: T::Request) -> (result: Result<(), SubmitError<T::Request>>)
        requires
            old(self).wf(),
        ensures
            final(self).wf(),
            final(self).stage() == old(self).stage(),
            final(self)@.extends(old(self)@),
            match result {
                Ok(_) => {
                    &&& !old(self)@.closed
                    &&& old(self)@.pending().len() < old(self)@.capacity
                    &&& final(self)@ == old(self)@.accept(req)
                },
                Err(SubmitError::Closed(back)) => {
                    &&& old(self)@.closed
                    &&& back == req
                    &&& final(self)@ == old(self)@
                },
                Err(SubmitError::Full(back)) => {
                    &&& !old(self)@.closed
                    &&& old(self)@.pending().len() >= old(self)@.capacity
                    &&& back == req
                    &&& final(self)@ == old(self)@
                },
            },
    {
        if self.inbound_closed {
            return Err(SubmitError::Closed(req));
        }
        if self.inbound.len() >= self.capacity {
            return Err(SubmitError::Full(req));
        }
        proof {
            self.accepted@ = self.accepted@.push(req);
        }
        self.inbound.push_back(req);
        assert(self.inbound@ =~= self@.pending());
        Ok(())
    }

    /// Closes the inbound queue. What is pending is still answered.
    pub fn close(&mut self)
        requires
            old(self).wf(),
        ensures
            final(self).wf(),
            final(self).stage() == old(self).stage(),
            final(self)@.extends(old(self)@),
            final(self)@ == (PhaseView { closed: true, ..old(self)@ }),
    {
        self.inbound_closed = true;
    }

    /// Answers the oldest pending request, if there is one, and says whether
    /// there was. With nothing pending and the inbound queue closed, the
    /// outbound queue is closed.
    pub fn step(&mut self) -> (progressed: bool)
        requires
            old(self).wf(),
        ensures
            final(self).wf(),
            final(self).stage() == old(self).stage(),
            final(self)@.extends(old(self)@),
            progressed == (old(self)@.pending().len() > 0),
            progressed ==> {
                &&& final(self)@ == old(self)@.answer(final(self)@.produced.last())
                &&& old(self).stage().responds(
                    old(self)@.pending()[0],
                    final(self)@.produced.last(),
                )
            },
            !progressed ==> final(self)@ == (PhaseView {
                terminated: old(self)@.closed,
                ..old(self)@
            }),
    {
        match self.inbound.pop_front() {
            Some(req) => {
                let resp = self.processor.process(req);
                proof {
                    self.produced@ = self.produced@.push(resp);
                }
                self.outbound.push_back(resp);
                assert(self.inbound@ =~= self@.pending());
                assert(self.outbound@ =~= self@.ready());
                true
            },
            None => {
                if self.inbound_closed {
                    self.outbound_closed = true;
                }
                false
            },
        }
    }

    /// Answers every pending request, oldest first, and returns how many
    /// there were. If the inbound queue is closed, the outbound queue is
    /// closed once the last response is queued.
    pub fn run(&mut self) -> (count: usize)
        requires
            old(self).wf(),
        ensures
            final(self).wf(),
            final(self).stage() == old(self).stage(),
            final(self)@.extends(old(self)@),
            count == old(self)@.pending().len(),
            final(self)@.produced.len() == old(self)@.accepted.len(),
            final(self)@.produced.take(old(self)@.produced.len() as int) == old(self)@.produced,
            forall|i: int|
                #![trigger old(self)@.accepted[i]]
                #![trigger final(self)@.produced[i]]
                old(self)@.produced.len() <= i < old(self)@.accepted.len() ==> old(
                    self,
                ).stage().responds(old(self)@.accepted[i], final(self)@.produced[i]),
            final(self)@ == (PhaseView {
                produced: final(self)@.produced,
                terminated: old(self)@.closed,
                ..old(self)@
            }),
    {
        let mut count: usize = 0;
        loop
            invariant_except_break
                self@ == (PhaseView { produced: self@.produced, ..old(self)@ }),
            invariant
                self.wf(),
                self.stage() == old(self).stage(),
                self@.extends(old(self)@),
                old(self)@.pending().len() <= usize::MAX,
                count + self@.pending().len() == old(self)@.pending().len(),
                old(self)@.produced.len() <= self@.produced.len() <= old(self)@.accepted.len(),
                self@.produced.take(old(self)@.produced.len() as int) == old(self)@.produced,
            ensures
                self.wf(),
                self.stage() == old(self).stage(),
                self@.extends(old(self)@),
                count == old(self)@.pending().len(),
                self@.produced.len() == old(self)@.accepted.len(),
                self@.produced.take(old(self)@.produced.len() as int) == old(self)@.produced,
                self@ == (PhaseView {
                    produced: self@.produced,
                    terminated: old(self)@.closed,
                    ..old(self)@
                }),
            decreases self@.pending().len(),
        {
            let ghost before = self@;
            let progressed = self.step();
            proof {
                self@.lemma_extends_transitive(before, old(self)@);
            }
            if !progressed {
                break;
            }
            count = count + 1;
        }
        count
    }

    /// Takes the oldest response that waits in the outbound queue.
    pub fn receive(&mut self) -> (result: Option<T::Response>)
        requires
            old(self).wf(),
        ensures
            final(self).wf(),
            final(self).stage() == old(self).stage(),
            final(self)@.extends(old(self)@),
            match result {
                Some(resp) => {
                    &&& old(self)@.ready().len() > 0
                    &&& resp == old(self)@.ready()[0]
                    &&& final(self)@ == old(self)@.deliver()
                },
                None => {
                    &&& old(self)@.ready().len() == 0
                    &&& final(self)@ == old(self)@
                },
            },
    {
        let result = self.outbound.pop_front();
        if result.is_some() {
            proof {
                self.delivered@ = self.delivered@ + 1;
            }
            assert(self.outbound@ =~= self@.ready());
        }
        result
    }

    /// The name of the stage that this runtime drives.
    pub fn name(&self) -> (name: &'static str)
        ensures
            name == T::NAME,
    {
        T::NAME
    }

    /// How many requests the inbound queue may hold.
    pub fn capacity(&self) -> (capacity: usize)
        ensures
            capacity == self@.capacity,
    {
        self.capacity
    }

    /// How many requests wait in the inbound queue.
    pub fn pending(&self) -> (count: usize)
        requires
            self.wf(),
        ensures
            count == self@.pending().len(),
            count <= self@.capacity,
    {
        self.inbound.len()
    }

    /// Whether the inbound queue was closed.
    pub fn is_closed(&self) -> (closed: bool)
        ensures
            closed == self@.closed,
    {
        self.inbound_closed
    }

    /// Whether the outbound queue was closed: no response will be produced
    /// any more.
    pub fn is_terminated(&self) -> (terminated: bool)
        ensures
            terminated == self@.terminated,
    {
        self.outbound_closed
    }

    /// In every state of a runtime, the response at a position answers the
    /// request that was accepted at that position: responses are produced in
    /// the order of submission, one for each request and none without one.
    pub proof fn lemma_answers_in_order(&self)
        requires
            self.wf(),
        ensures
            self@.delivered <= self@.produced.len() <= self@.accepted.len(),
            forall|i: int|
                #![trigger self@.accepted[i]]
                #![trigger self@.produced[i]]
                0 <= i < self@.produced.len() ==> self.stage().responds(
                    self@.accepted[i],
                    self@.produced[i],
                ),
    {
    }

    /// In every state of a runtime, the inbound queue holds no more requests
    /// than its capacity.
    pub proof fn lemma_inbound_bounded(&self)
        requires
            self.wf(),
        ensures
            self@.pending().len() <= self@.capacity,
    {
    }

    /// Shutdown drains: from the closing of the inbound queue, with some
    /// number of requests pending, to the closing of the outbound queue,
    /// exactly that many responses are produced, one for each of those
    /// requests and in their order, and no request is accepted.
    pub proof fn lemma_shutdown_drains(&self, at_close: &Self)
        requires
            at_close.wf(),
            self.wf(),
            self.stage() == at_close.stage(),
            self@.extends(at_close@),
            at_close@.closed,
            self@.terminated,
        ensures
            self@.accepted == at_close@.accepted,
            self@.produced.len() == at_close@.produced.len() + at_close@.pending().len(),
            forall|k: int|
                #![trigger at_close@.pending()[k]]
                0 <= k < at_close@.pending().len() ==> self.stage().responds(
                    at_close@.pending()[k],
                    self@.produced[at_close@.produced.len() + k],
                ),
    {
    }

    /// The outbound queue is closed only after the inbound queue was closed
    /// and every accepted request was answered.
    pub proof fn lemma_terminated_after_drain(&self)
        requires
            self.wf(),
            self@.terminated,
        ensures
            self@.closed,
            self@.pending().len() == 0,
            self@.produced.len() == self@.accepted.len(),
    {
    }
}

} // verus!

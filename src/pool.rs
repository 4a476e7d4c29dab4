//! The worker pool: the work queue together with the life of each worker.
//!
//! Every call is one event of the pool, and its contract says which step of
//! `PoolModel` it takes.  Threads drive a shared `Pool` under a lock: a
//! request handler submits, a worker claims, runs the model outside the
//! lock, then reports how the item ended.

use vstd::prelude::*;
use crate::dispatch::DispatchError;
use crate::model::{
    Phase, PoolModel, lemma_claim_inv, lemma_close_inv, lemma_crash_inv,
    lemma_finish_inv, lemma_initial_inv, lemma_start_inv, lemma_submit_inv,
};
use crate::queue::{Dequeued, WorkQueue};

verus! {

/// What a ready worker gets when it asks for work.
pub enum Claim<T> {
    /// The earliest buffered item, now the worker's alone.
    Work(T),
    /// Nothing buffered yet: wait for a submission or for the close.
    Wait,
    /// The queue is closed and drained: the worker stops.
    Closed,
}

pub struct Pool<T> {
    queue: WorkQueue<T>,
    phases: Vec<Phase>,
    model: Ghost<PoolModel<T>>,
}

impl<T> View for Pool<T> {
    type V = PoolModel<T>;

    closed spec fn view(&self) -> PoolModel<T> {
        self.model@
    }
}

impl<T> Pool<T> {
    /// The queue and the worker phases are those of the model.
    pub closed spec fn matches_model(&self) -> bool {
        &&& self.queue@.items == self.model@.queue()
        &&& self.queue@.closed == self.model@.closed
        &&& self.phases@ == self.model@.phases
    }

    pub open spec fn wf(&self) -> bool {
        self.matches_model() && self@.inv()
    }

    /// A pool of `worker_count` workers, all loading their model, with an
    /// open, empty queue.
    pub fn new(worker_count: usize) -> (p: Self)
        requires
            worker_count > 0,
        ensures
            p.wf(),
            p@ == PoolModel::<T>::initial(worker_count as nat),
    {
        let ghost m = PoolModel::<T>::initial(worker_count as nat);
        let mut phases: Vec<Phase> = Vec::with_capacity(worker_count);
        let mut i: usize = 0;
        while i < worker_count
            invariant
                i <= worker_count,
                phases@ == m.phases.take(i as int),
                m == PoolModel::<T>::initial(worker_count as nat),
            decreases worker_count - i,
        {
            phases.push(Phase::Initializing);
            i = i + 1;
            assert(phases@ =~= m.phases.take(i as int));
        }
        assert(phases@ =~= m.phases);
        proof {
            lemma_initial_inv::<T>(worker_count as nat);
            assert(m.queue() =~= Seq::<T>::empty());
        }
        Pool { queue: WorkQueue::new(), phases, model: Ghost(m) }
    }

    pub fn worker_count(&self) -> (n: usize)
        requires
            self.wf(),
        ensures
            n == self@.worker_count(),
    {
        self.phases.len()
    }

    /// The phase of worker `w`.
    pub fn phase(&self, w: usize) -> (p: Phase)
        requires
            self.wf(),
            w < self@.worker_count(),
        ensures
            p == self@.phases[w as int],
    {
        self.phases[w]
    }

    /// Whether some worker is still loading its model.  The pool opens for
    /// requests once this is false and the queue was not closed by a failed
    /// load.
    pub fn is_loading(&self) -> (b: bool)
        requires
            self.wf(),
        ensures
            b == exists|w: int| self@.has_phase(w, Phase::Initializing),
    {
        let mut i: usize = 0;
        while i < self.phases.len()
            invariant
                self.wf(),
                i <= self.phases@.len(),
                forall|v: int| 0 <= v < i ==> self@.phases[v] != Phase::Initializing,
            decreases self.phases@.len() - i,
        {
            if self.phases[i] == Phase::Initializing {
                assert(self@.has_phase(i as int, Phase::Initializing));
                return true;
            }
            i = i + 1;
        }
        false
    }

    /// Number of items buffered and not yet claimed.
    pub fn queued(&self) -> (n: usize)
        requires
            self.wf(),
        ensures
            n == self@.queue().len(),
    {
        self.queue.len()
    }

    pub fn is_closed(&self) -> (b: bool)
        requires
            self.wf(),
        ensures
            b == self@.closed,
    {
        self.queue.is_closed()
    }

    /// Admits `item` at the back of the queue.  A closed pool refuses it at
    /// once with `QueueClosed`, and the item is dropped.
    pub fn submit(&mut self, item: T) -> (r: Result<(), DispatchError>)
        requires
            old(self).wf(),
        ensures
            final(self).wf(),
            final(self)@ == old(self)@.submit(item),
            old(self)@.closed ==> r == Err::<(), DispatchError>(DispatchError::QueueClosed),
            !old(self)@.closed ==> r == Ok::<(), DispatchError>(()),
    {
        proof {
            lemma_submit_inv(self@, item);
        }
        let ghost m2 = self@.submit(item);
        match self.queue.enqueue(item) {
            Ok(()) => {
                self.model = Ghost(m2);
                assert(self.queue@.items =~= m2.queue());
                Ok(())
            },
            Err(_) => Err(DispatchError::QueueClosed),
        }
    }

    /// Closes the queue: nothing more is admitted, and what is buffered
    /// still goes to the workers.  Closing twice is closing once.
    pub fn close(&mut self)
        requires
            old(self).wf(),
        ensures
            final(self).wf(),
            final(self)@ == old(self)@.close(),
    {
        proof {
            lemma_close_inv(self@);
        }
        self.queue.close();
        self.model = Ghost(self@.close());
    }

    /// Worker `w` finished loading its model, successfully if `ok`.  A
    /// failed load stops that worker and closes the queue: the pool does
    /// not run on with a worker it could not set up.
    pub fn start(&mut self, w: usize, ok: bool)
        requires
            old(self).wf(),
            old(self)@.has_phase(w as int, Phase::Initializing),
        ensures
            final(self).wf(),
            final(self)@ == old(self)@.start(w as int, ok),
    {
        proof {
            lemma_start_inv(self@, w as int, ok);
        }
        if ok {
            self.phases[w] = Phase::Ready;
        } else {
            self.phases[w] = Phase::Stopped;
            self.queue.close();
        }
        self.model = Ghost(self@.start(w as int, ok));
    }

    /// Ready worker `w` asks for work.  It gets the earliest buffered item
    /// and becomes busy; or, with nothing buffered, it stops if the queue is
    /// closed and waits otherwise.
    pub fn claim(&mut self, w: usize) -> (c: Claim<T>)
        requires
            old(self).wf(),
            old(self)@.has_phase(w as int, Phase::Ready),
        ensures
            final(self).wf(),
            final(self)@ == old(self)@.claim(w as int),
            c is Work <==> old(self)@.claim_step() is Work,
            c is Wait <==> old(self)@.claim_step() is Wait,
            c is Closed <==> old(self)@.claim_step() is Closed,
            c matches Claim::Work(x) ==> x == old(self)@.submitted[old(self)@.claimed() as int],
    {
        proof {
            lemma_claim_inv(self@, w as int);
        }
        let ghost m2 = self@.claim(w as int);
        match self.queue.dequeue() {
            Dequeued::Item(x) => {
                self.phases[w] = Phase::Busy;
                self.model = Ghost(m2);
                assert(self.queue@.items =~= m2.queue());
                Claim::Work(x)
            },
            Dequeued::Empty => Claim::Wait,
            Dequeued::Closed => {
                self.phases[w] = Phase::Stopped;
                self.model = Ghost(m2);
                Claim::Closed
            },
        }
    }

    /// Busy worker `w` sent the reply for the item it holds (a failure if
    /// `failed`; `delivered` is false when the caller had stopped waiting)
    /// and is ready for the next item.
    pub fn finish(&mut self, w: usize, failed: bool, delivered: bool)
        requires
            old(self).wf(),
            old(self)@.has_phase(w as int, Phase::Busy),
        ensures
            final(self).wf(),
            final(self)@ == old(self)@.finish(w as int, failed, delivered),
    {
        proof {
            lemma_finish_inv(self@, w as int, failed, delivered);
        }
        self.phases[w] = Phase::Ready;
        self.model = Ghost(self@.finish(w as int, failed, delivered));
    }

    /// Busy worker `w` died with its item in hand; the item's reply channel
    /// closed unanswered.  A replacement takes its place and starts loading.
    pub fn crash(&mut self, w: usize)
        requires
            old(self).wf(),
            old(self)@.has_phase(w as int, Phase::Busy),
        ensures
            final(self).wf(),
            final(self)@ == old(self)@.crash(w as int),
    {
        proof {
            lemma_crash_inv(self@, w as int);
        }
        self.phases[w] = Phase::Initializing;
        self.model = Ghost(self@.crash(w as int));
    }
}

} // verus!

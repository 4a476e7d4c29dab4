//! The mathematical model of a worker pool and its work queue.
//!
//! Every item admitted to the queue gets a ticket: its position in the order
//! of admission.  Because the queue is first-in first-out, the tickets that
//! workers have claimed are always the first ones, and the queue holds the
//! rest.  `claimed_by[t]` names the worker that claimed ticket `t`; a ticket
//! has exactly one such entry, which is what makes delivery exclusive.

use vstd::prelude::*;

verus! {

/// Where a worker is in its life.
#[derive(Debug, Clone, Copy, PartialEq, Eq, Structural)]
pub enum Phase {
    /// Loading its model; not yet taking work.
    Initializing,
    /// Waiting for the next item.
    Ready,
    /// Running the model on one item.
    Busy,
    /// Gone for good: the queue was closed and drained, or loading failed.
    Stopped,
}

/// How the work on a claimed item ended.
#[derive(Debug, Clone, Copy, PartialEq, Eq, Structural)]
pub enum Ending {
    /// The worker sent a reply: an output, or `failed` when the model
    /// rejected the input.  `delivered` is false when the caller had stopped
    /// waiting, in which case the reply went nowhere.
    Answered { failed: bool, delivered: bool },
    /// The worker died while running the item; no reply was sent.
    Lost,
}

/// The outcome of a claim in the model: the ticket handed out, or none.
pub enum ClaimStep {
    Work(nat),
    Wait,
    Closed,
}

/// One event of the pool: a submission, the close, the end of a worker's
/// loading, a claim, a reply, or the death of a busy worker.
pub enum Event<T> {
    Submit(T),
    Close,
    Start(nat, bool),
    Claim(nat),
    Finish(nat, bool, bool),
    Crash(nat),
}

pub struct PoolModel<T> {
    /// Every admitted item, in order of admission; ticket `t` is `submitted[t]`.
    pub submitted: Seq<T>,
    /// The worker that claimed each ticket, for the tickets claimed so far.
    pub claimed_by: Seq<nat>,
    /// The phase of each worker.
    pub phases: Seq<Phase>,
    /// The ticket each worker holds; meaningful while it is busy.
    pub holding: Seq<nat>,
    /// The tickets whose work has ended, and how.
    pub endings: Map<nat, Ending>,
    /// Whether the queue has been closed.
    pub closed: bool,
}

impl<T> PoolModel<T> {
    /// A pool of `k` workers, all loading, with an open and empty queue.
    pub open spec fn initial(k: nat) -> Self {
        PoolModel {
            submitted: Seq::empty(),
            claimed_by: Seq::empty(),
            phases: Seq::new(k, |w: int| Phase::Initializing),
            holding: Seq::new(k, |w: int| 0nat),
            endings: Map::empty(),
            closed: false,
        }
    }

    pub open spec fn worker_count(self) -> nat {
        self.phases.len()
    }

    /// Number of tickets claimed so far.
    pub open spec fn claimed(self) -> nat {
        self.claimed_by.len()
    }

    /// The items still buffered, earliest first.
    pub open spec fn queue(self) -> Seq<T> {
        self.submitted.subrange(self.claimed() as int, self.submitted.len() as int)
    }

    pub open spec fn has_phase(self, w: int, p: Phase) -> bool {
        0 <= w < self.phases.len() && self.phases[w] == p
    }

    /// Tickets claimed by a worker whose work has not ended yet.
    pub open spec fn in_flight(self) -> Set<nat> {
        Set::new(|t: nat| t < self.claimed() && !self.endings.contains_key(t))
    }

    /// The invariant of every reachable state.
    pub open spec fn inv(self) -> bool {
        &&& self.worker_count() > 0
        &&& self.holding.len() == self.phases.len()
        &&& self.claimed() <= self.submitted.len()
        // a busy worker holds a claimed ticket of its own that has not ended
        &&& forall|w: int|
            0 <= w < self.phases.len() && #[trigger] self.phases[w] == Phase::Busy ==> {
                &&& self.holding[w] < self.claimed()
                &&& self.claimed_by[self.holding[w] as int] == w
                &&& !self.endings.contains_key(self.holding[w])
            }
        // a claimed ticket has ended, or its worker is still busy with it
        &&& forall|t: int|
            0 <= t < self.claimed() ==> {
                &&& #[trigger] self.claimed_by[t] < self.worker_count()
                &&& (self.endings.contains_key(t as nat) || (self.phases[self.claimed_by[t] as int]
                    == Phase::Busy && self.holding[self.claimed_by[t] as int] == t))
            }
        // only claimed tickets end
        &&& forall|t: nat| #[trigger] self.endings.contains_key(t) ==> t < self.claimed()
    }

    /// Admission of `item`; a closed pool admits nothing.
    pub open spec fn submit(self, item: T) -> Self {
        if self.closed {
            self
        } else {
            PoolModel { submitted: self.submitted.push(item), ..self }
        }
    }

    pub open spec fn close(self) -> Self {
        PoolModel { closed: true, ..self }
    }

    /// Worker `w` finished loading: it takes work if `ok`; otherwise it
    /// stops, and the queue is closed (a failed load is a deployment error,
    /// so the pool as a whole stops admitting work).
    pub open spec fn start(self, w: int, ok: bool) -> Self {
        if ok {
            PoolModel { phases: self.phases.update(w, Phase::Ready), ..self }
        } else {
            PoolModel { phases: self.phases.update(w, Phase::Stopped), closed: true, ..self }
        }
    }

    /// What a claim by a ready worker yields.
    pub open spec fn claim_step(self) -> ClaimStep {
        if self.queue().len() > 0 {
            ClaimStep::Work(self.claimed())
        } else if self.closed {
            ClaimStep::Closed
        } else {
            ClaimStep::Wait
        }
    }

    /// Ready worker `w` asks for work: it takes the earliest buffered item,
    /// stops if the queue is closed and drained, and otherwise waits.
    pub open spec fn claim(self, w: int) -> Self {
        if self.queue().len() > 0 {
            PoolModel {
                claimed_by: self.claimed_by.push(w as nat),
                phases: self.phases.update(w, Phase::Busy),
                holding: self.holding.update(w, self.claimed()),
                ..self
            }
        } else if self.closed {
            PoolModel { phases: self.phases.update(w, Phase::Stopped), ..self }
        } else {
            self
        }
    }

    /// Busy worker `w` replied to the item it holds and is ready again.
    pub open spec fn finish(self, w: int, failed: bool, delivered: bool) -> Self {
        PoolModel {
            phases: self.phases.update(w, Phase::Ready),
            endings: self.endings.insert(
                self.holding[w],
                Ending::Answered { failed, delivered },
            ),
            ..self
        }
    }

    /// Whether event `e` can happen now: a worker loads only while
    /// initializing, claims only when ready, and replies or dies only when busy.
    pub open spec fn enabled(self, e: Event<T>) -> bool {
        match e {
            Event::Start(w, _) => self.has_phase(w as int, Phase::Initializing),
            Event::Claim(w) => self.has_phase(w as int, Phase::Ready),
            Event::Finish(w, _, _) => self.has_phase(w as int, Phase::Busy),
            Event::Crash(w) => self.has_phase(w as int, Phase::Busy),
            _ => true,
        }
    }

    /// The state after event `e`.
    pub open spec fn step(self, e: Event<T>) -> Self {
        match e {
            Event::Submit(item) => self.submit(item),
            Event::Close => self.close(),
            Event::Start(w, ok) => self.start(w as int, ok),
            Event::Claim(w) => self.claim(w as int),
            Event::Finish(w, failed, delivered) => self.finish(w as int, failed, delivered),
            Event::Crash(w) => self.crash(w as int),
        }
    }

    /// Whether the events `es` can happen one after the other from here.
    pub open spec fn valid_run(self, es: Seq<Event<T>>) -> bool
        decreases es.len(),
    {
        es.len() == 0 || (self.enabled(es[0]) && self.step(es[0]).valid_run(es.drop_first()))
    }

    /// The state after the events `es`, in order.
    pub open spec fn run(self, es: Seq<Event<T>>) -> Self
        decreases es.len(),
    {
        if es.len() == 0 {
            self
        } else {
            self.step(es[0]).run(es.drop_first())
        }
    }

    /// Ready worker `w` serves `n` items in a row: each time it claims the
    /// next one and replies to it.
    pub open spec fn serve(self, w: int, n: nat) -> Self
        decreases n,
    {
        if n == 0 {
            self
        } else {
            self.claim(w).finish(w, false, true).serve(w, (n - 1) as nat)
        }
    }

    /// Busy worker `w` died; its item is lost, and a replacement starts
    /// loading in its place.
    pub open spec fn crash(self, w: int) -> Self {
        PoolModel {
            phases: self.phases.update(w, Phase::Initializing),
            endings: self.endings.insert(self.holding[w], Ending::Lost),
            ..self
        }
    }
}

/// A fresh pool of at least one worker satisfies the invariant.
pub proof fn lemma_initial_inv<T>(k: nat)
    requires
        k > 0,
    ensures
        PoolModel::<T>::initial(k).inv(),
{
}

/// Admission keeps the invariant.
pub proof fn lemma_submit_inv<T>(m: PoolModel<T>, item: T)
    requires
        m.inv(),
    ensures
        m.submit(item).inv(),
{
}

/// Closing keeps the invariant.
pub proof fn lemma_close_inv<T>(m: PoolModel<T>)
    requires
        m.inv(),
    ensures
        m.close().inv(),
{
}

/// The end of a worker's loading keeps the invariant.
pub proof fn lemma_start_inv<T>(m: PoolModel<T>, w: int, ok: bool)
    requires
        m.inv(),
        m.has_phase(w, Phase::Initializing),
    ensures
        m.start(w, ok).inv(),
{
    let m2 = m.start(w, ok);
    assert forall|t: int| 0 <= t < m2.claimed() implies #[trigger] m2.claimed_by[t] < m2.worker_count()
        && (m2.endings.contains_key(t as nat) || (m2.phases[m2.claimed_by[t] as int] == Phase::Busy
        && m2.holding[m2.claimed_by[t] as int] == t)) by {
        if !m.endings.contains_key(t as nat) {
            assert(m.phases[m.claimed_by[t] as int] == Phase::Busy);
        }
    }
}

/// A claim by a ready worker keeps the invariant.
pub proof fn lemma_claim_inv<T>(m: PoolModel<T>, w: int)
    requires
        m.inv(),
        m.has_phase(w, Phase::Ready),
    ensures
        m.claim(w).inv(),
{
    let m2 = m.claim(w);
    assert forall|t: int| 0 <= t < m2.claimed() implies #[trigger] m2.claimed_by[t] < m2.worker_count()
        && (m2.endings.contains_key(t as nat) || (m2.phases[m2.claimed_by[t] as int] == Phase::Busy
        && m2.holding[m2.claimed_by[t] as int] == t)) by {
        if t < m.claimed() {
            assert(m.claimed_by[t] < m.worker_count());
            if !m.endings.contains_key(t as nat) {
                assert(m.phases[m.claimed_by[t] as int] == Phase::Busy);
            }
        }
    }
    assert forall|v: int| 0 <= v < m2.phases.len() && #[trigger] m2.phases[v] == Phase::Busy implies {
        &&& m2.holding[v] < m2.claimed()
        &&& m2.claimed_by[m2.holding[v] as int] == v
        &&& !m2.endings.contains_key(m2.holding[v])
    } by {
        if v != w {
            assert(m.phases[v] == Phase::Busy);
        }
    }
}

/// A reply by a busy worker keeps the invariant.
pub proof fn lemma_finish_inv<T>(m: PoolModel<T>, w: int, failed: bool, delivered: bool)
    requires
        m.inv(),
        m.has_phase(w, Phase::Busy),
    ensures
        m.finish(w, failed, delivered).inv(),
{
    let m2 = m.finish(w, failed, delivered);
    assert forall|t: int| 0 <= t < m2.claimed() implies #[trigger] m2.claimed_by[t] < m2.worker_count()
        && (m2.endings.contains_key(t as nat) || (m2.phases[m2.claimed_by[t] as int] == Phase::Busy
        && m2.holding[m2.claimed_by[t] as int] == t)) by {
        if !m.endings.contains_key(t as nat) && t != m.holding[w] {
            assert(m.phases[m.claimed_by[t] as int] == Phase::Busy);
        }
    }
    assert forall|v: int| 0 <= v < m2.phases.len() && #[trigger] m2.phases[v] == Phase::Busy implies {
        &&& m2.holding[v] < m2.claimed()
        &&& m2.claimed_by[m2.holding[v] as int] == v
        &&& !m2.endings.contains_key(m2.holding[v])
    } by {
        assert(m.phases[v] == Phase::Busy);
        assert(m.holding[v] != m.holding[w]);
    }
}

/// The death of a busy worker keeps the invariant.
pub proof fn lemma_crash_inv<T>(m: PoolModel<T>, w: int)
    requires
        m.inv(),
        m.has_phase(w, Phase::Busy),
    ensures
        m.crash(w).inv(),
{
    let m2 = m.crash(w);
    assert forall|t: int| 0 <= t < m2.claimed() implies #[trigger] m2.claimed_by[t] < m2.worker_count()
        && (m2.endings.contains_key(t as nat) || (m2.phases[m2.claimed_by[t] as int] == Phase::Busy
        && m2.holding[m2.claimed_by[t] as int] == t)) by {
        if !m.endings.contains_key(t as nat) && t != m.holding[w] {
            assert(m.phases[m.claimed_by[t] as int] == Phase::Busy);
        }
    }
    assert forall|v: int| 0 <= v < m2.phases.len() && #[trigger] m2.phases[v] == Phase::Busy implies {
        &&& m2.holding[v] < m2.claimed()
        &&& m2.claimed_by[m2.holding[v] as int] == v
        &&& !m2.endings.contains_key(m2.holding[v])
    } by {
        assert(m.phases[v] == Phase::Busy);
        assert(m.holding[v] != m.holding[w]);
    }
}

} // verus!

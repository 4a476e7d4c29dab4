//! What holds of the pool in every state and across events, stated over
//! `PoolModel` and proved.

use vstd::prelude::*;
use crate::model::{
    ClaimStep, Ending, Event, Phase, PoolModel, lemma_claim_inv, lemma_close_inv,
    lemma_crash_inv, lemma_finish_inv, lemma_initial_inv, lemma_start_inv, lemma_submit_inv,
};

verus! {

/// Every event that can happen keeps the invariant.
pub proof fn lemma_step_inv<T>(m: PoolModel<T>, e: Event<T>)
    requires
        m.inv(),
        m.enabled(e),
    ensures
        m.step(e).inv(),
{
    match e {
        Event::Submit(item) => lemma_submit_inv(m, item),
        Event::Close => lemma_close_inv(m),
        Event::Start(w, ok) => lemma_start_inv(m, w as int, ok),
        Event::Claim(w) => lemma_claim_inv(m, w as int),
        Event::Finish(w, failed, delivered) => lemma_finish_inv(m, w as int, failed, delivered),
        Event::Crash(w) => lemma_crash_inv(m, w as int),
    }
}

/// Apart from a claim, no event changes who claimed what; a claim adds at
/// most one entry.  No event changes an admitted item.
pub proof fn lemma_step_keeps_claims<T>(m: PoolModel<T>, e: Event<T>)
    requires
        m.inv(),
        m.enabled(e),
    ensures
        m.claimed_by.is_prefix_of(m.step(e).claimed_by),
        m.step(e).claimed() <= m.claimed() + 1,
        m.submitted.is_prefix_of(m.step(e).submitted),
        !(e is Claim) ==> m.step(e).claimed_by == m.claimed_by,
{
}

/// Over any run of events, the invariant holds throughout, and a ticket,
/// once claimed, keeps the one worker that claimed it: no item is ever
/// claimed a second time.  Admitted items never change either.
pub proof fn lemma_run_keeps_claims<T>(m: PoolModel<T>, es: Seq<Event<T>>)
    requires
        m.inv(),
        m.valid_run(es),
    ensures
        m.run(es).inv(),
        m.claimed_by.is_prefix_of(m.run(es).claimed_by),
        m.submitted.is_prefix_of(m.run(es).submitted),
    decreases es.len(),
{
    if es.len() > 0 {
        let m1 = m.step(es[0]);
        lemma_step_inv(m, es[0]);
        lemma_step_keeps_claims(m, es[0]);
        lemma_run_keeps_claims(m1, es.drop_first());
    }
}

/// A claim takes a ticket that nobody claimed before, and records exactly
/// one claimer for it: the worker that asked.  The item handed out is the
/// one admitted under that ticket.
pub proof fn lemma_claim_is_exclusive<T>(m: PoolModel<T>, w: int)
    requires
        m.inv(),
        m.has_phase(w, Phase::Ready),
        m.queue().len() > 0,
    ensures
        m.claim_step() == ClaimStep::Work(m.claimed()),
        m.claimed() < m.submitted.len(),
        m.submitted[m.claimed() as int] == m.queue()[0],
        m.claim(w).claimed_by == m.claimed_by.push(w as nat),
        m.claim(w).holding[w] == m.claimed(),
        m.claim(w).has_phase(w, Phase::Busy),
{
}

/// The reply of a worker is recorded under the ticket that this worker
/// claimed, and under no other: a claimed item travels with its own reply
/// channel to the one worker that took it, and comes back from there.
pub proof fn lemma_reply_matches_request<T>(
    m: PoolModel<T>,
    w: int,
    failed: bool,
    delivered: bool,
)
    requires
        m.inv(),
        m.has_phase(w, Phase::Busy),
    ensures
        m.holding[w] < m.claimed(),
        m.claimed_by[m.holding[w] as int] == w,
        !m.endings.contains_key(m.holding[w]),
        m.finish(w, failed, delivered).endings == m.endings.insert(
            m.holding[w],
            Ending::Answered { failed, delivered },
        ),
        forall|t: nat|
            t != m.holding[w] ==> #[trigger] m.finish(w, failed, delivered).endings.contains_key(t)
                == m.endings.contains_key(t),
{
}

/// A reply that nobody waits for any more leaves the pool exactly as a
/// delivered one does, apart from that one record: the worker is ready
/// again, and no other item, worker or ticket is touched.
pub proof fn lemma_abandoned_reply_is_harmless<T>(m: PoolModel<T>, w: int, failed: bool)
    requires
        m.inv(),
        m.has_phase(w, Phase::Busy),
    ensures
        m.finish(w, failed, false).inv(),
        m.finish(w, failed, false).has_phase(w, Phase::Ready),
        m.finish(w, failed, false).phases == m.finish(w, failed, true).phases,
        m.finish(w, failed, false).submitted == m.submitted,
        m.finish(w, failed, false).claimed_by == m.claimed_by,
        m.finish(w, failed, false).closed == m.closed,
        m.finish(w, failed, false).endings.remove(m.holding[w]) == m.endings.remove(m.holding[w]),
{
    lemma_finish_inv(m, w, failed, false);
    assert(m.finish(w, failed, false).endings.remove(m.holding[w]) =~= m.endings.remove(
        m.holding[w],
    ));
}

/// A worker whose model failed on an item is ready again at once, and its
/// next claim gets the next buffered item.
pub proof fn lemma_failure_is_isolated<T>(m: PoolModel<T>, w: int, delivered: bool)
    requires
        m.inv(),
        m.has_phase(w, Phase::Busy),
    ensures
        m.finish(w, true, delivered).inv(),
        m.finish(w, true, delivered).has_phase(w, Phase::Ready),
        m.finish(w, true, delivered).queue() == m.queue(),
        m.queue().len() > 0 ==> m.finish(w, true, delivered).claim(w).has_phase(w, Phase::Busy),
        m.queue().len() > 0 ==> m.finish(w, true, delivered).claim_step() == ClaimStep::Work(
            m.claimed(),
        ),
{
    lemma_finish_inv(m, w, true, delivered);
}

/// Closing keeps every buffered item, refuses every later submission, and
/// closing again changes nothing.  No claim is told `Closed` while an item
/// is still buffered.
pub proof fn lemma_close_keeps_buffer<T>(m: PoolModel<T>, item: T)
    requires
        m.inv(),
    ensures
        m.close().inv(),
        m.close().queue() == m.queue(),
        m.close().submit(item) == m.close(),
        m.close().close() == m.close(),
        m.close().claim_step() is Closed <==> m.queue().len() == 0,
{
    lemma_close_inv(m);
}

/// After the close, a ready worker that keeps serving gets the buffered
/// items one by one, in order, and then is told `Closed`: every item
/// admitted before the close reaches a worker.
pub proof fn lemma_drain_after_close<T>(m: PoolModel<T>, w: int, n: nat)
    requires
        m.inv(),
        m.closed,
        m.has_phase(w, Phase::Ready),
        n <= m.queue().len(),
    ensures
        m.serve(w, n).inv(),
        m.serve(w, n).closed,
        m.serve(w, n).has_phase(w, Phase::Ready),
        m.serve(w, n).submitted == m.submitted,
        m.serve(w, n).queue() == m.queue().subrange(n as int, m.queue().len() as int),
        m.serve(w, n).claimed_by == m.claimed_by + Seq::new(n, |i: int| w as nat),
        n == m.queue().len() ==> m.serve(w, n).claim_step() is Closed,
    decreases n,
{
    if n > 0 {
        let m1 = m.claim(w);
        lemma_claim_inv(m, w);
        let m2 = m1.finish(w, false, true);
        lemma_finish_inv(m1, w, false, true);
        assert(m2.queue() =~= m.queue().drop_first());
        lemma_drain_after_close(m2, w, (n - 1) as nat);
        assert(m.serve(w, n) == m2.serve(w, (n - 1) as nat));
        assert(m2.queue().subrange((n - 1) as int, m2.queue().len() as int) =~= m.queue().subrange(
            n as int,
            m.queue().len() as int,
        ));
        assert(m.claimed_by + Seq::new(n, |i: int| w as nat) =~= m2.claimed_by + Seq::new(
            (n - 1) as nat,
            |i: int| w as nat,
        ));
    } else {
        assert(m.claimed_by + Seq::new(0, |i: int| w as nat) =~= m.claimed_by);
        assert(m.queue().subrange(0, m.queue().len() as int) =~= m.queue());
    }
}

/// In every state, at most as many items are being worked on as there are
/// workers: each such item is held by its own busy worker.
pub proof fn lemma_in_flight_bounded<T>(m: PoolModel<T>)
    requires
        m.inv(),
    ensures
        m.in_flight().finite(),
        m.in_flight().len() <= m.worker_count(),
{
    let held = m.holding.to_set();
    assert forall|t: nat| #[trigger] m.in_flight().contains(t) implies held.contains(t) by {
        let w = m.claimed_by[t as int] as int;
        assert(m.holding[w] == t);
    }
    m.holding.lemma_cardinality_of_set();
    vstd::seq_lib::seq_to_set_is_finite(m.holding);
    vstd::set_lib::lemma_len_subset(m.in_flight(), held);
}

/// Whatever happens after a pool of `k` workers is set up, at most `k`
/// items are ever being worked on at once.
pub proof fn lemma_pool_sizing<T>(k: nat, es: Seq<Event<T>>)
    requires
        k > 0,
        PoolModel::<T>::initial(k).valid_run(es),
    ensures
        PoolModel::<T>::initial(k).run(es).worker_count() == k,
        PoolModel::<T>::initial(k).run(es).in_flight().len() <= k,
    decreases es.len(),
{
    lemma_initial_inv::<T>(k);
    lemma_run_keeps_claims(PoolModel::<T>::initial(k), es);
    lemma_run_keeps_workers(PoolModel::<T>::initial(k), es);
    lemma_in_flight_bounded(PoolModel::<T>::initial(k).run(es));
}

/// No event adds or removes a worker.
pub proof fn lemma_run_keeps_workers<T>(m: PoolModel<T>, es: Seq<Event<T>>)
    requires
        m.valid_run(es),
    ensures
        m.run(es).worker_count() == m.worker_count(),
    decreases es.len(),
{
    if es.len() > 0 {
        lemma_run_keeps_workers(m.step(es[0]), es.drop_first());
    }
}

} // verus!

use std::sync::mpsc::{sync_channel, Receiver, SyncSender};

use mnist_api::dispatch::{
    reply_for, settle, status_code, DispatchError, RequestError, WorkItem, WorkerError,
};
use mnist_api::image::DecodeError;
use mnist_api::model::Phase;
use mnist_api::pool::{Claim, Pool};

type Reply = Result<i64, WorkerError>;
type Item = WorkItem<i64, SyncSender<Reply>>;

fn started_pool(k: usize) -> Pool<Item> {
    let mut pool = Pool::new(k);
    for w in 0..k {
        pool.start(w, true);
    }
    pool
}

fn submit(pool: &mut Pool<Item>, input: i64) -> Receiver<Reply> {
    let (reply, rx) = sync_channel(1);
    pool.submit(WorkItem { input, reply }).expect("pool is open");
    rx
}

fn double(x: i64) -> Result<i64, String> {
    if x < 0 {
        Err(format!("negative input {x}"))
    } else {
        Ok(x * 2)
    }
}

/// Runs the model on the item in hand and reports the reply; returns whether
/// the reply reached a waiting caller.
fn serve(pool: &mut Pool<Item>, w: usize, item: Item) -> bool {
    let reply = reply_for(double(item.input));
    let failed = reply.is_err();
    let delivered = item.reply.send(reply).is_ok();
    pool.finish(w, failed, delivered);
    delivered
}

fn take(pool: &mut Pool<Item>, w: usize) -> Item {
    match pool.claim(w) {
        Claim::Work(item) => item,
        Claim::Wait => panic!("worker {w} found nothing to do"),
        Claim::Closed => panic!("worker {w} found the queue closed"),
    }
}

fn received(rx: &Receiver<Reply>) -> Result<i64, RequestError> {
    settle(rx.try_recv().ok())
}

#[test]
fn lib_it_works() {
    let result = 2 + 2;
    assert_eq!(result, 4);
}

#[test]
fn two_workers_double_five_inputs() {
    let mut pool = started_pool(2);
    let rxs: Vec<Receiver<Reply>> = (1..=5).map(|x| submit(&mut pool, x)).collect();
    // interleave the two workers until the queue is empty
    let a = take(&mut pool, 0);
    let b = take(&mut pool, 1);
    assert!(serve(&mut pool, 1, b));
    let c = take(&mut pool, 1);
    assert!(serve(&mut pool, 0, a));
    let d = take(&mut pool, 0);
    assert!(serve(&mut pool, 0, d));
    let e = take(&mut pool, 0);
    assert!(serve(&mut pool, 1, c));
    assert!(serve(&mut pool, 0, e));
    assert!(matches!(pool.claim(0), Claim::Wait));
    let mut outputs: Vec<i64> = rxs.iter().map(|rx| received(rx).unwrap()).collect();
    outputs.sort();
    assert_eq!(outputs, vec![2, 4, 6, 8, 10]);
    // each channel got exactly one value
    assert!(rxs.iter().all(|rx| rx.try_recv().is_err()));
}

#[test]
fn fifty_tagged_requests_get_their_own_replies() {
    let k = 3;
    let mut pool = started_pool(k);
    let rxs: Vec<(i64, Receiver<Reply>)> =
        (0..50).map(|tag| (tag, submit(&mut pool, 1000 + tag))).collect();
    let mut in_hand: Vec<Option<Item>> = (0..k).map(|_| None).collect();
    let mut round = 0usize;
    loop {
        let w = round % k;
        round += 1;
        if let Some(item) = in_hand[w].take() {
            assert!(serve(&mut pool, w, item));
        }
        match pool.claim(w) {
            Claim::Work(item) => in_hand[w] = Some(item),
            Claim::Wait => {
                if in_hand.iter().all(|i| i.is_none()) {
                    break;
                }
            }
            Claim::Closed => panic!("never closed"),
        }
    }
    for (tag, rx) in rxs.iter() {
        assert_eq!(received(rx), Ok(2 * (1000 + tag)));
    }
}

#[test]
fn items_are_claimed_in_order_and_once() {
    let mut pool = started_pool(2);
    let _rxs: Vec<Receiver<Reply>> = (10..14).map(|x| submit(&mut pool, x)).collect();
    let mut seen = Vec::new();
    for _ in 0..2 {
        for w in 0..2 {
            let item = take(&mut pool, w);
            seen.push(item.input);
            serve(&mut pool, w, item);
        }
    }
    assert_eq!(seen, vec![10, 11, 12, 13]);
    assert_eq!(pool.queued(), 0);
}

#[test]
fn abandoned_reply_does_not_hurt_the_worker() {
    let mut pool = started_pool(1);
    let gone = submit(&mut pool, 7);
    let kept = submit(&mut pool, 8);
    drop(gone);
    let first = take(&mut pool, 0);
    assert!(!serve(&mut pool, 0, first));
    assert_eq!(pool.phase(0), Phase::Ready);
    let second = take(&mut pool, 0);
    assert!(serve(&mut pool, 0, second));
    assert_eq!(received(&kept), Ok(16));
}

#[test]
fn close_drains_buffered_items_first() {
    let mut pool = started_pool(1);
    let rxs: Vec<Receiver<Reply>> = (1..=3).map(|x| submit(&mut pool, x)).collect();
    pool.close();
    assert!(pool.is_closed());
    assert_eq!(pool.queued(), 3);
    for expected in 1..=3 {
        let item = take(&mut pool, 0);
        assert_eq!(item.input, expected);
        serve(&mut pool, 0, item);
    }
    assert!(matches!(pool.claim(0), Claim::Closed));
    assert_eq!(pool.phase(0), Phase::Stopped);
    let outputs: Vec<i64> = rxs.iter().map(|rx| received(rx).unwrap()).collect();
    assert_eq!(outputs, vec![2, 4, 6]);
}

#[test]
fn submit_after_close_is_refused() {
    let mut pool = started_pool(2);
    pool.close();
    pool.close();
    let (reply, rx) = sync_channel(1);
    let r = pool.submit(WorkItem { input: 1, reply });
    assert_eq!(r, Err(DispatchError::QueueClosed));
    assert_eq!(pool.queued(), 0);
    // the item was dropped with its sender: the caller sees no reply
    assert_eq!(received(&rx), Err(RequestError::Dispatch(DispatchError::NoReply)));
}

#[test]
fn compute_failure_keeps_the_worker() {
    let mut pool = started_pool(1);
    let bad = submit(&mut pool, -1);
    let good = submit(&mut pool, 21);
    let a = take(&mut pool, 0);
    assert!(serve(&mut pool, 0, a));
    assert_eq!(pool.phase(0), Phase::Ready);
    let b = take(&mut pool, 0);
    assert!(serve(&mut pool, 0, b));
    assert_eq!(received(&bad), Err(RequestError::Worker(WorkerError::ComputeFailed)));
    assert_eq!(received(&good), Ok(42));
}

#[test]
fn busy_workers_never_exceed_pool_size() {
    let k = 2;
    let mut pool = started_pool(k);
    let _rxs: Vec<Receiver<Reply>> = (0..6).map(|x| submit(&mut pool, x)).collect();
    let _a = take(&mut pool, 0);
    let _b = take(&mut pool, 1);
    let busy = (0..k).filter(|w| pool.phase(*w) == Phase::Busy).count();
    assert_eq!(busy, 2);
    assert_eq!(pool.queued(), 4);
}

#[test]
fn crashed_worker_leaves_no_reply_and_is_replaced() {
    let mut pool = started_pool(1);
    let rx = submit(&mut pool, 5);
    let item = take(&mut pool, 0);
    drop(item);
    pool.crash(0);
    assert_eq!(pool.phase(0), Phase::Initializing);
    assert_eq!(received(&rx), Err(RequestError::Dispatch(DispatchError::NoReply)));
    pool.start(0, true);
    assert_eq!(pool.phase(0), Phase::Ready);
    let rx2 = submit(&mut pool, 6);
    let item = take(&mut pool, 0);
    assert!(serve(&mut pool, 0, item));
    assert_eq!(received(&rx2), Ok(12));
}

#[test]
fn failed_load_closes_the_pool() {
    let mut pool: Pool<Item> = Pool::new(3);
    assert_eq!(pool.worker_count(), 3);
    assert_eq!(pool.phase(2), Phase::Initializing);
    assert!(pool.is_loading());
    pool.start(0, true);
    pool.start(1, false);
    assert!(pool.is_loading());
    pool.start(2, true);
    assert!(!pool.is_loading());
    assert_eq!(pool.phase(1), Phase::Stopped);
    assert!(pool.is_closed());
    assert!(matches!(pool.claim(0), Claim::Closed));
}

#[test]
fn pool_opens_once_every_worker_loaded() {
    let mut pool: Pool<Item> = Pool::new(2);
    pool.start(1, true);
    assert!(pool.is_loading());
    pool.start(0, true);
    assert!(!pool.is_loading());
    assert!(!pool.is_closed());
}

#[test]
fn idle_worker_waits_on_open_queue() {
    let mut pool = started_pool(1);
    assert!(matches!(pool.claim(0), Claim::Wait));
    assert_eq!(pool.phase(0), Phase::Ready);
}

#[test]
fn reply_for_maps_model_errors() {
    assert_eq!(reply_for::<i64, String>(Ok(3)), Ok(3));
    assert_eq!(reply_for::<i64, String>(Err("shape".to_string())), Err(WorkerError::ComputeFailed));
}

#[test]
fn settle_maps_each_reply() {
    assert_eq!(settle::<i64>(None), Err(RequestError::Dispatch(DispatchError::NoReply)));
    assert_eq!(settle(Some(Ok(9))), Ok(9));
    assert_eq!(
        settle::<i64>(Some(Err(WorkerError::ComputeFailed))),
        Err(RequestError::Worker(WorkerError::ComputeFailed))
    );
}

#[test]
fn status_codes_by_outcome() {
    assert_eq!(status_code::<i64>(&Ok(1)), 200);
    assert_eq!(status_code::<i64>(&Err(RequestError::Decode(DecodeError::WrongSize))), 400);
    assert_eq!(status_code::<i64>(&Err(RequestError::Worker(WorkerError::ComputeFailed))), 422);
    assert_eq!(status_code::<i64>(&Err(RequestError::Dispatch(DispatchError::QueueClosed))), 503);
    assert_eq!(status_code::<i64>(&Err(RequestError::Dispatch(DispatchError::NoReply))), 503);
}

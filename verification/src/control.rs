//! The decisions of the running control loop.
//!
//! The loop alternates two kinds of events: a periodic read of every servo
//! position, and a command taken from its queue. After a periodic read it
//! keeps the positions that were last read successfully; after each event it
//! checks whether it was asked to stop, and if so serves the commands still
//! queued before it exits.
use vstd::prelude::*;
use crate::layout::TorsoValues;

verus! {

/// The positions to keep after a periodic read: the new reading when it
/// succeeded (`Some`), else the positions kept before.
pub fn position_after_read<T: Copy>(last: TorsoValues<T>, read: Option<TorsoValues<T>>) -> (kept:
    TorsoValues<T>)
    ensures
        read matches Some(r) ==> kept == r,
        read is None ==> kept == last,
{
    match read {
        Some(r) => r,
        None => last,
    }
}

/// The positions kept after a series of periodic reads, starting from
/// `initial`; `reads[k]` is `None` for a read that failed.
pub open spec fn kept_after<T>(initial: TorsoValues<T>, reads: Seq<Option<TorsoValues<T>>>) -> TorsoValues<T>
    decreases reads.len(),
{
    if reads.len() == 0 {
        initial
    } else {
        match reads.last() {
            Some(r) => r,
            None => kept_after(initial, reads.drop_last()),
        }
    }
}

/// Read `k` succeeded, and no later read did.
pub open spec fn last_success_at<T>(reads: Seq<Option<TorsoValues<T>>>, k: int) -> bool {
    &&& 0 <= k < reads.len()
    &&& reads[k] is Some
    &&& forall|j: int| k < j < reads.len() ==> #[trigger] reads[j] is None
}

/// The loop always holds the positions of the last successful read, or the
/// initial positions when no read has succeeded since.
pub proof fn lemma_keeps_last_successful_read<T>(initial: TorsoValues<T>, reads: Seq<Option<TorsoValues<T>>>)
    ensures
        (forall|j: int| 0 <= j < reads.len() ==> #[trigger] reads[j] is None) ==> kept_after(
            initial,
            reads,
        ) == initial,
        forall|k: int| #[trigger]
            last_success_at(reads, k) ==> kept_after(initial, reads) == reads[k].unwrap(),
    decreases reads.len(),
{
    if reads.len() > 0 {
        let n = reads.len() - 1;
        let prefix = reads.drop_last();
        lemma_keeps_last_successful_read(initial, prefix);
        if forall|j: int| 0 <= j < reads.len() ==> #[trigger] reads[j] is None {
            assert forall|j: int| 0 <= j < prefix.len() implies #[trigger] prefix[j] is None by {
                assert(reads[j] is None);
            }
        }
        assert forall|k: int| #[trigger] last_success_at(reads, k) implies kept_after(
            initial,
            reads,
        ) == reads[k].unwrap() by {
            if k < n {
                assert(reads[n] is None);
                assert forall|j: int| k < j < prefix.len() implies #[trigger] prefix[j] is None by {
                    assert(reads[j] is None);
                }
                assert(last_success_at(prefix, k));
            }
        }
    }
}

/// What the loop does after an event.
#[derive(Debug, Clone, Copy, PartialEq, Eq, Structural)]
pub enum LoopStep {
    /// Wait for the next read or command.
    Continue,
    /// Stop was asked, but commands are still queued: serve the next one.
    ServeQueued,
    /// Stop was asked and the queue is empty: leave the loop.
    Exit,
}

/// The loop's next step: it keeps running until asked to stop, then serves
/// every queued command before it exits.
pub fn loop_step(stop_requested: bool, queue_empty: bool) -> (step: LoopStep)
    ensures
        !stop_requested ==> step is Continue,
        stop_requested && !queue_empty ==> step is ServeQueued,
        stop_requested && queue_empty ==> step is Exit,
{
    if !stop_requested {
        LoopStep::Continue
    } else if !queue_empty {
        LoopStep::ServeQueued
    } else {
        LoopStep::Exit
    }
}

} // verus!

//! Properties of the run that hold across many calls.
use vstd::prelude::*;
use crate::range_delete::{iterator_open, Phase, RangeDelete};
use crate::keygen::{after_bytes, byte_draws, with_tag, Generator};
use crate::worker::{
    calls_after_count, planned_ops, planned_start_key, replay, stop_after, StopReason, Update,
};

verus! {

/// The live-key count never goes negative: from zero, after every prefix of
/// any sequence of inserts and range deletes, it is at least zero.
pub proof fn live_keys_never_negative(us: Seq<Update>)
    ensures
        forall|i: int| 0 <= i <= us.len() ==> #[trigger] replay(0, us.take(i)) >= 0,
{
    assert forall|i: int| 0 <= i <= us.len() implies #[trigger] replay(0, us.take(i)) >= 0 by {
        replay_from_nonnegative(us.take(i));
    }
}

proof fn replay_from_nonnegative(us: Seq<Update>)
    ensures
        replay(0, us) >= 0,
    decreases us.len(),
{
    if us.len() > 0 {
        replay_from_nonnegative(us.drop_last());
    }
}

/// A range delete deletes only keys it collected, in the order it collected
/// them: in every well-formed state the deleted keys are a prefix of the
/// collected ones; nothing is deleted while the iterator is open; and once
/// finished, exactly the collected keys have been deleted.
pub proof fn range_delete_deletes_collected(rd: RangeDelete)
    requires
        rd.wf(),
    ensures
        rd.deleted().len() <= rd.collected().len(),
        rd.deleted() == rd.collected().take(rd.deleted().len() as int),
        iterator_open(rd.phase) ==> rd.deleted().len() == 0,
        rd.phase == Phase::Finished ==> rd.deleted() == rd.collected(),
{
    if rd.phase == Phase::Finished {
        assert(rd.collected().take(rd.collected().len() as int) =~= rd.collected());
    } else if !(rd.phase == Phase::Confirming || rd.phase == Phase::Deleting || rd.phase
        == Phase::Failed) {
        assert(rd.collected().take(0) =~= Seq::<Seq<u8>>::empty());
    }
}

/// Once set, the stop flag stays set, with its first reason, whatever stop
/// is requested after.
pub proof fn stop_is_sticky(stop: Option<StopReason>, reason: StopReason)
    ensures
        stop_after(stop, reason) is Some,
        stop is Some ==> stop_after(stop, reason) == stop,
{
}

/// Runs are reproducible: two generators with the same seed and the same
/// draw history draw the same round count and start key for any budget,
/// fill any `n`-byte buffer with the same bytes whatever it held before,
/// and are left with the same history.
pub proof fn same_seed_and_history_draw_alike(g1: Generator, g2: Generator, ops_per_round: u32, n: nat)
    requires
        g1.seed() == g2.seed(),
        g1.calls() == g2.calls(),
    ensures
        planned_ops(ops_per_round, g1) == planned_ops(ops_per_round, g2),
        planned_start_key(ops_per_round, g1) == planned_start_key(ops_per_round, g2),
        calls_after_count(ops_per_round, g1) == calls_after_count(ops_per_round, g2),
        with_tag(byte_draws(g1.seed(), g1.calls(), n)) == with_tag(byte_draws(g2.seed(), g2.calls(), n)),
        after_bytes(g1.calls(), n) == after_bytes(g2.calls(), n),
{
}

} // verus!

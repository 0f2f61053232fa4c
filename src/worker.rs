//! The writer's round loop as a state machine: it plans each round's work,
//! keeps the live-key accounting, and decides when the run stops.
use vstd::prelude::*;
use crate::config::{disk_nearly_full, live_tuple_bytes, nearly_full_spec, live_bytes_spec};
use crate::keygen::{
    after_bytes, byte_draws, draw_round_ops, pcg_in_range, random_buffer, with_tag, Generator,
};

verus! {

/// Rounds that only insert before the writer turns to range deletes.
pub const INSERT_ROUNDS: u32 = 9;

/// Width of the random start key of a range delete.
pub const START_KEY_LEN: usize = 6;

/// The work of one round.
#[derive(PartialEq, Eq, Clone, Debug)]
pub enum RoundWork {
    /// Insert this many random tuples.
    Insert(u64),
    /// Delete up to `limit` keys from `start_key` on.
    RangeDelete { start_key: Vec<u8>, limit: u64 },
}

/// Why the run stopped.
#[derive(PartialEq, Eq, Structural, Clone, Copy, Debug)]
pub enum StopReason {
    /// A range delete removed at least as many keys as were believed live.
    CaughtUp,
    /// The backing file nearly filled the disk.
    DiskNearlyFull,
}

/// One change to the live-key count.
#[derive(PartialEq, Eq, Structural, Clone, Copy, Debug)]
pub enum Update {
    /// This many keys were inserted.
    Inserted(u64),
    /// A range delete removed this many keys.
    Deleted(u64),
}

/// The live-key count after `u`: a delete of at least the live keys is not
/// counted, it stops the run instead.
pub open spec fn apply_update(live: int, u: Update) -> int {
    match u {
        Update::Inserted(n) => live + n,
        Update::Deleted(n) => if n < live {
            live - n
        } else {
            live
        },
    }
}

/// The live-key count after each of `us` in turn, from `start`.
pub open spec fn replay(start: int, us: Seq<Update>) -> int
    decreases us.len(),
{
    if us.len() == 0 {
        start
    } else {
        apply_update(replay(start, us.drop_last()), us.last())
    }
}

/// The stop flag after a stop is requested for `reason`: the first reason
/// stays.
pub open spec fn stop_after(stop: Option<StopReason>, reason: StopReason) -> Option<StopReason> {
    match stop {
        Some(first) => Some(first),
        None => Some(reason),
    }
}

/// Live-key accounting and the stop flag of a run.
pub struct Stats {
    /// Keys inserted so far.
    pub keys_added: u64,
    /// Keys deleted so far.
    pub keys_deleted: u64,
    /// Set once, never cleared.
    pub stop: Option<StopReason>,
}

impl Stats {
    pub open spec fn wf(&self) -> bool {
        self.keys_deleted <= self.keys_added
    }

    /// Keys inserted and not yet deleted.
    pub open spec fn live(&self) -> int {
        self.keys_added - self.keys_deleted
    }

    /// No keys and no stop.
    pub fn new() -> (r: Stats)
        ensures
            r.wf(),
            r.keys_added == 0,
            r.keys_deleted == 0,
            r.stop is None,
    {
        Stats { keys_added: 0, keys_deleted: 0, stop: None }
    }

    /// Keys inserted and not yet deleted.
    pub fn live_keys(&self) -> (r: u64)
        requires
            self.wf(),
        ensures
            r == self.live(),
    {
        self.keys_added - self.keys_deleted
    }

    /// Counts `n` inserted keys.
    pub fn add_inserted(&mut self, n: u64)
        requires
            old(self).wf(),
            old(self).keys_added + n <= u64::MAX,
        ensures
            final(self).wf(),
            final(self).keys_added == old(self).keys_added + n,
            final(self).keys_deleted == old(self).keys_deleted,
            final(self).stop == old(self).stop,
            final(self).live() == apply_update(old(self).live(), Update::Inserted(n)),
    {
        self.keys_added = self.keys_added + n;
    }

    /// Counts `n` deleted keys where fewer than `n` are not live; otherwise
    /// leaves the counts alone, sets the stop flag, and returns `false`.
    pub fn add_deleted(&mut self, n: u64) -> (r: bool)
        requires
            old(self).wf(),
        ensures
            final(self).wf(),
            r == (n < old(self).live()),
            final(self).live() == apply_update(old(self).live(), Update::Deleted(n)),
            r ==> final(self).keys_deleted == old(self).keys_deleted + n && final(self).keys_added
                == old(self).keys_added && final(self).stop == old(self).stop,
            !r ==> final(self).keys_deleted == old(self).keys_deleted && final(self).keys_added
                == old(self).keys_added && final(self).stop == stop_after(
                old(self).stop,
                StopReason::CaughtUp,
            ),
    {
        if n < self.keys_added - self.keys_deleted {
            self.keys_deleted = self.keys_deleted + n;
            true
        } else {
            self.request_stop(StopReason::CaughtUp);
            false
        }
    }

    /// Sets the stop flag, keeping the first reason given.
    pub fn request_stop(&mut self, reason: StopReason)
        ensures
            final(self).keys_added == old(self).keys_added,
            final(self).keys_deleted == old(self).keys_deleted,
            final(self).stop == stop_after(old(self).stop, reason),
    {
        if self.stop.is_none() {
            self.stop = Some(reason);
        }
    }

    /// Whether the stop flag is set.
    pub fn should_stop(&self) -> (r: bool)
        ensures
            r == self.stop is Some,
    {
        self.stop.is_some()
    }
}

/// Whether round `round` inserts rather than deletes.
pub open spec fn insert_round(round: int) -> bool {
    round < INSERT_ROUNDS
}

/// The draw record of `g` once it has drawn a round's operation count for
/// a budget of `ops_per_round`.
pub open spec fn calls_after_count(ops_per_round: u32, g: Generator) -> Seq<(u32, u32)> {
    g.calls().push((ops_per_round / 4, ops_per_round))
}

/// The operation count that `g` draws for a budget of `ops_per_round`.
pub open spec fn planned_ops(ops_per_round: u32, g: Generator) -> u32 {
    pcg_in_range(g.seed(), g.calls(), ops_per_round / 4, ops_per_round)
}

/// The bytes of the start key that `g` draws after the operation count.
pub open spec fn planned_start_key(ops_per_round: u32, g: Generator) -> Seq<u8> {
    with_tag(byte_draws(g.seed(), calls_after_count(ops_per_round, g), START_KEY_LEN as nat))
}

/// The writer of a run.
pub struct Writer {
    /// Upper bound, exclusive, of a round's drawn operation count.
    pub ops_per_round: u32,
    /// Capacity of the disk in gibibytes.
    pub disk_gib: u8,
    /// Index of the current round.
    pub round: u32,
    pub stats: Stats,
}

impl Writer {
    pub open spec fn wf(&self) -> bool {
        &&& self.ops_per_round >= 1
        &&& self.stats.wf()
    }

    /// A writer at round zero with no live keys.
    pub fn new(ops_per_round: u32, disk_gib: u8) -> (r: Writer)
        requires
            ops_per_round >= 1,
        ensures
            r.wf(),
            r.ops_per_round == ops_per_round,
            r.disk_gib == disk_gib,
            r.round == 0,
            r.stats.keys_added == 0,
            r.stats.keys_deleted == 0,
            r.stats.stop is None,
    {
        Writer { ops_per_round, disk_gib, round: 0, stats: Stats::new() }
    }

    /// The work of this round for a drawn count of `num_ops` and a start key:
    /// the early rounds insert `num_ops` tuples, the later ones delete up to
    /// twice that many keys.
    pub fn work_for(&self, num_ops: u32, start_key: Vec<u8>) -> (r: RoundWork)
        ensures
            insert_round(self.round as int) ==> r == RoundWork::Insert(num_ops as u64),
            !insert_round(self.round as int) ==> r == (RoundWork::RangeDelete {
                start_key,
                limit: (2 * num_ops) as u64,
            }),
    {
        if self.round < INSERT_ROUNDS {
            RoundWork::Insert(num_ops as u64)
        } else {
            RoundWork::RangeDelete { start_key, limit: 2 * num_ops as u64 }
        }
    }

    /// Plans the next round from `g`: nothing once the run has stopped,
    /// otherwise a count drawn from a quarter of the budget up to the budget,
    /// and for a range delete a start key filled from fresh draws.
    pub fn plan_round(&self, g: &mut Generator) -> (r: Option<RoundWork>)
        requires
            self.wf(),
        ensures
            self.stats.stop is Some <==> r is None,
            r is None ==> *final(g) == *old(g),
            r is Some ==> final(g).seed() == old(g).seed(),
            r matches Some(RoundWork::Insert(n)) ==> insert_round(self.round as int)
                && self.ops_per_round / 4 <= n < self.ops_per_round
                && n == planned_ops(self.ops_per_round, *old(g))
                && final(g).drawn() == old(g).drawn()
                && final(g).calls() == calls_after_count(self.ops_per_round, *old(g)),
            r matches Some(RoundWork::RangeDelete { start_key, limit }) ==> !insert_round(
                self.round as int,
            ) && limit % 2 == 0 && self.ops_per_round / 4 <= limit / 2 < self.ops_per_round
                && limit == 2 * planned_ops(self.ops_per_round, *old(g))
                && start_key@ == planned_start_key(self.ops_per_round, *old(g))
                && final(g).drawn().len() == old(g).drawn().len() + START_KEY_LEN
                && final(g).calls() == after_bytes(
                calls_after_count(self.ops_per_round, *old(g)),
                START_KEY_LEN as nat,
            ),
    {
        if self.stats.should_stop() {
            return None;
        }
        let num_ops = draw_round_ops(g, self.ops_per_round);
        let start_key = if self.round < INSERT_ROUNDS {
            Vec::new()
        } else {
            random_buffer(g, START_KEY_LEN)
        };
        Some(self.work_for(num_ops, start_key))
    }

    /// Counts the keys that this round inserted.
    pub fn record_inserts(&mut self, n: u64)
        requires
            old(self).wf(),
            old(self).stats.keys_added + n <= u64::MAX,
        ensures
            final(self).wf(),
            final(self).round == old(self).round,
            final(self).ops_per_round == old(self).ops_per_round,
            final(self).disk_gib == old(self).disk_gib,
            final(self).stats.keys_added == old(self).stats.keys_added + n,
            final(self).stats.keys_deleted == old(self).stats.keys_deleted,
            final(self).stats.stop == old(self).stats.stop,
            final(self).stats.live() == apply_update(old(self).stats.live(), Update::Inserted(n)),
    {
        self.stats.add_inserted(n);
    }

    /// Counts the keys that this round's range delete removed; where they are
    /// at least the live keys, the run stops instead and `false` is returned.
    pub fn record_deletes(&mut self, n: u64) -> (r: bool)
        requires
            old(self).wf(),
        ensures
            final(self).wf(),
            final(self).round == old(self).round,
            final(self).ops_per_round == old(self).ops_per_round,
            final(self).disk_gib == old(self).disk_gib,
            r == (n < old(self).stats.live()),
            final(self).stats.keys_added == old(self).stats.keys_added,
            final(self).stats.live() == apply_update(old(self).stats.live(), Update::Deleted(n)),
            r ==> final(self).stats.keys_deleted == old(self).stats.keys_deleted + n
                && final(self).stats.stop == old(self).stats.stop,
            !r ==> final(self).stats.keys_deleted == old(self).stats.keys_deleted
                && final(self).stats.stop == stop_after(
                old(self).stats.stop,
                StopReason::CaughtUp,
            ),
    {
        self.stats.add_deleted(n)
    }

    /// Bytes the live keys should take on disk, or `None` where that does
    /// not fit in a `u64`.
    pub fn live_data_bytes(&self) -> (r: Option<u64>)
        requires
            self.wf(),
        ensures
            r.is_some() <==> live_bytes_spec(self.stats.live()) <= u64::MAX,
            r.is_some() ==> r.unwrap() == live_bytes_spec(self.stats.live()),
    {
        live_tuple_bytes(self.stats.live_keys())
    }

    /// Ends the round with the measured disk usage: the run stops where the
    /// disk is nearly full, and otherwise moves to the next round. Returns
    /// whether the run goes on.
    pub fn finish_round(&mut self, actual_bytes: u64) -> (r: bool)
        requires
            old(self).wf(),
            old(self).round < u32::MAX || nearly_full_spec(
                actual_bytes as int,
                old(self).disk_gib as int,
            ),
        ensures
            final(self).wf(),
            final(self).ops_per_round == old(self).ops_per_round,
            final(self).disk_gib == old(self).disk_gib,
            final(self).stats.keys_added == old(self).stats.keys_added,
            final(self).stats.keys_deleted == old(self).stats.keys_deleted,
            nearly_full_spec(actual_bytes as int, old(self).disk_gib as int)
                ==> final(self).stats.stop == stop_after(
                old(self).stats.stop,
                StopReason::DiskNearlyFull,
            ) && final(self).round == old(self).round,
            !nearly_full_spec(actual_bytes as int, old(self).disk_gib as int)
                ==> final(self).stats.stop == old(self).stats.stop && final(self).round == old(
                self,
            ).round + 1,
            r == (final(self).stats.stop is None),
    {
        if disk_nearly_full(actual_bytes, self.disk_gib) {
            self.stats.request_stop(StopReason::DiskNearlyFull);
            false
        } else {
            self.round = self.round + 1;
            !self.stats.should_stop()
        }
    }
}

} // verus!

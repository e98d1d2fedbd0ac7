//! The dashboard's shared state and the rules for updating it.
//!
//! One `AppState` value is shared between the polling loop (its only
//! writer) and the render loop (its only reader); the caller serializes
//! access, the library defines what each update does. The TPS history is a
//! strict FIFO window of the last `HISTORY_LIMIT` readings: one append, and
//! one eviction of the oldest entry whenever the bound would be exceeded.

use vstd::prelude::*;
use std::collections::VecDeque;
use crate::metrics::{compute_tps, tps_of};
use crate::rank::{is_ranking_of, stats_seq_of, top_validators, validator_stats_of};
use crate::rpc::{BlockProduction, PerformanceSample};

verus! {

/// Number of TPS readings kept for the trend view.
pub const HISTORY_LIMIT: usize = 30;

/// Maximum number of validators shown in the table.
pub const TOP_VALIDATORS: usize = 5;

/// One validator's leader-slot assignment versus blocks produced in the
/// current window. Replaced wholesale on every block-production update.
#[derive(Debug, Default, Clone)]
pub struct ValidatorStat {
    pub identity: String,
    pub assigned: u64,
    pub produced: u64,
}

/// A sequence of validator rows ordered by blocks produced, most
/// productive first.
pub open spec fn sorted_desc(s: Seq<ValidatorStat>) -> bool {
    forall|i: int, j: int| 0 <= i <= j < s.len() ==> s[i].produced >= s[j].produced
}

/// The history window after appending one reading: the new reading goes to
/// the back, and the oldest entry is evicted if the bound is now exceeded.
pub open spec fn push_bounded(h: Seq<u64>, tps: u64) -> Seq<u64> {
    let grown = h.push(tps);
    if grown.len() > HISTORY_LIMIT {
        grown.subrange(1, grown.len() as int)
    } else {
        grown
    }
}

/// The latest merged view of the cluster, as the render loop reads it.
#[derive(Debug, Default, Clone)]
pub struct AppState {
    pub tps: u64,
    pub slot: u64,
    pub tps_history: VecDeque<u64>,
    pub validators: Vec<ValidatorStat>,
}

impl AppState {
    /// The state invariant: the history never exceeds its window, and the
    /// validator table holds at most `TOP_VALIDATORS` rows, most
    /// productive first.
    pub open spec fn wf(self) -> bool {
        &&& self.tps_history@.len() <= HISTORY_LIMIT
        &&& self.validators@.len() <= TOP_VALIDATORS
        &&& sorted_desc(self.validators@)
    }

    /// The initial state: caller-supplied first reading, a history seeded
    /// with that reading, and no validator rows yet.
    pub fn new(initial_tps: u64, initial_slot: u64) -> (s: AppState)
        ensures
            s.tps == initial_tps,
            s.slot == initial_slot,
            s.tps_history@ == seq![initial_tps],
            s.validators@ == Seq::<ValidatorStat>::empty(),
            s.wf(),
    {
        let mut history: VecDeque<u64> = VecDeque::new();
        history.push_back(initial_tps);
        AppState { tps: initial_tps, slot: initial_slot, tps_history: history, validators: Vec::new() }
    }

    /// Fold one performance sample into the state: derive the TPS reading,
    /// take the sample's slot, and append the reading to the bounded
    /// history. The validator table is untouched.
    pub fn record_sample(&mut self, sample: &PerformanceSample)
        ensures
            final(self).tps == tps_of(sample.num_transactions, sample.sample_period_secs),
            final(self).slot == sample.slot,
            final(self).tps_history@ == push_bounded(old(self).tps_history@, final(self).tps),
            final(self).validators@ == old(self).validators@,
            old(self).wf() ==> final(self).wf(),
    {
        let tps = compute_tps(sample.num_transactions, sample.sample_period_secs);
        self.tps = tps;
        self.slot = sample.slot;
        self.tps_history.push_back(tps);
        if self.tps_history.len() > HISTORY_LIMIT {
            self.tps_history.pop_front();
        }
    }

    /// Replace the validator table with the ranking of one
    /// block-production report. The sample fields are untouched.
    pub fn record_block_production(&mut self, prod: BlockProduction)
        ensures
            is_ranking_of(final(self).validators@, stats_seq_of(prod.by_identity@)),
            sample_fields_unchanged(*old(self), *final(self)),
            old(self).wf() ==> final(self).wf(),
    {
        let stats = validator_stats_of(&prod.by_identity);
        self.validators = top_validators(stats);
    }

    /// Fold one poll cycle's results into the state. Each fetch may have
    /// failed independently: a missing (or empty) performance result
    /// leaves the sample fields and the history exactly as they were, and
    /// a missing block-production result leaves the validator table as it
    /// was — one failure never blocks the other update.
    pub fn apply_poll(
        &mut self,
        perf: Option<Vec<PerformanceSample>>,
        prod: Option<BlockProduction>,
    )
        ensures
            (match perf {
                Option::Some(samples) => {
                    if samples@.len() > 0 {
                        &&& final(self).tps == tps_of(
                            samples@[0].num_transactions,
                            samples@[0].sample_period_secs,
                        )
                        &&& final(self).slot == samples@[0].slot
                        &&& final(self).tps_history@ == push_bounded(
                            old(self).tps_history@,
                            final(self).tps,
                        )
                    } else {
                        sample_fields_unchanged(*old(self), *final(self))
                    }
                },
                Option::None => sample_fields_unchanged(*old(self), *final(self)),
            }),
            (match prod {
                Option::Some(p) => is_ranking_of(final(self).validators@, stats_seq_of(p.by_identity@)),
                Option::None => final(self).validators@ == old(self).validators@,
            }),
            old(self).wf() ==> final(self).wf(),
    {
        match perf {
            Option::Some(samples) => {
                if samples.len() > 0 {
                    let sample = samples[0];
                    self.record_sample(&sample);
                }
            },
            Option::None => {},
        }
        match prod {
            Option::Some(p) => self.record_block_production(p),
            Option::None => {},
        }
    }
}

/// The fields fed by the performance fetch — the TPS reading, the slot,
/// and the history — are the same in both states.
pub open spec fn sample_fields_unchanged(pre: AppState, post: AppState) -> bool {
    &&& post.tps == pre.tps
    &&& post.slot == pre.slot
    &&& post.tps_history@ == pre.tps_history@
}

/// The history window that a sequence of appends leaves behind, starting
/// from `init` and appending the readings of `xs` in order.
pub open spec fn run_appends(init: Seq<u64>, xs: Seq<u64>) -> Seq<u64>
    decreases xs.len(),
{
    if xs.len() == 0 {
        init
    } else {
        run_appends(push_bounded(init, xs.first()), xs.drop_first())
    }
}

/// The most recent `HISTORY_LIMIT` entries of a sequence of readings,
/// oldest first — the whole sequence if it is short enough.
pub open spec fn last_window(s: Seq<u64>) -> Seq<u64> {
    if s.len() <= HISTORY_LIMIT {
        s
    } else {
        s.subrange(s.len() - HISTORY_LIMIT, s.len() as int)
    }
}

/// Appending to a window and then taking the recent window is the same as
/// taking the recent window of everything: entries that fall out of the
/// window early could never have reached the final window anyway.
proof fn lemma_last_window_absorbs(a: Seq<u64>, b: Seq<u64>)
    ensures
        last_window(last_window(a) + b) == last_window(a + b),
{
    let aw = last_window(a);
    if a.len() <= HISTORY_LIMIT {
        assert(aw + b =~= a + b);
    } else {
        assert(last_window(aw + b) =~= last_window(a + b));
    }
}

/// Law of the bounded history: whatever readings are appended, the history
/// stays within `HISTORY_LIMIT`, and its contents are exactly the most
/// recent `HISTORY_LIMIT` readings in append order, oldest first.
pub proof fn lemma_history_is_recent_window(init: Seq<u64>, xs: Seq<u64>)
    requires
        init.len() <= HISTORY_LIMIT,
    ensures
        run_appends(init, xs).len() <= HISTORY_LIMIT,
        run_appends(init, xs) == last_window(init + xs),
    decreases xs.len(),
{
    if xs.len() == 0 {
        assert(init + xs =~= init);
    } else {
        let x0 = xs.first();
        let next = push_bounded(init, x0);
        assert(next =~= last_window(init + seq![x0]));
        lemma_history_is_recent_window(next, xs.drop_first());
        lemma_last_window_absorbs(init + seq![x0], xs.drop_first());
        assert((init + seq![x0]) + xs.drop_first() =~= init + xs);
    }
}

} // verus!

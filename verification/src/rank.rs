//! Ranking validators by blocks produced.
//!
//! A block-production report arrives as (identity, stats) pairs; the
//! dashboard shows the `TOP_VALIDATORS` most productive of them, most
//! productive first. The sort is a selection sort that always extracts the
//! earliest remaining maximum, so rows with equal `produced` keep the order
//! in which the report listed them.

use vstd::prelude::*;
use vstd::multiset::Multiset;
use crate::rpc::SlotStats;
use crate::state::{sorted_desc, ValidatorStat, TOP_VALIDATORS};

verus! {

broadcast use vstd::seq_lib::group_to_multiset_ensures, vstd::multiset::group_multiset_axioms;

/// The validator row read from one (identity, stats) pair of a
/// block-production report.
pub open spec fn stat_of(entry: (String, SlotStats)) -> ValidatorStat {
    ValidatorStat { identity: entry.0, assigned: entry.1.assigned, produced: entry.1.produced }
}

/// All rows of a report, in the report's order.
pub open spec fn stats_seq_of(entries: Seq<(String, SlotStats)>) -> Seq<ValidatorStat> {
    entries.map_values(|e: (String, SlotStats)| stat_of(e))
}

/// `top` is a correct validator table for the rows `stats`: as many rows
/// as there are validators but at most `TOP_VALIDATORS`, ordered by blocks
/// produced descending, and forming a prefix of some descending ordering
/// of all the rows (so no shown row is out-produced by a hidden one).
pub open spec fn is_ranking_of(top: Seq<ValidatorStat>, stats: Seq<ValidatorStat>) -> bool {
    &&& top.len() == if stats.len() < TOP_VALIDATORS {
        stats.len()
    } else {
        TOP_VALIDATORS as nat
    }
    &&& sorted_desc(top)
    &&& exists|full: Seq<ValidatorStat>|
        {
            &&& full.to_multiset() == stats.to_multiset()
            &&& sorted_desc(full)
            &&& top == full.subrange(0, top.len() as int)
        }
}

/// Turn a report's (identity, stats) pairs into validator rows, keeping
/// the report's order.
pub fn validator_stats_of(entries: &Vec<(String, SlotStats)>) -> (stats: Vec<ValidatorStat>)
    ensures
        stats@ == stats_seq_of(entries@),
{
    let mut stats: Vec<ValidatorStat> = Vec::new();
    let mut i: usize = 0;
    while i < entries.len()
        invariant
            i <= entries@.len(),
            stats@ == stats_seq_of(entries@.take(i as int)),
        decreases entries@.len() - i,
    {
        let entry = &entries[i];
        stats.push(ValidatorStat {
            identity: entry.0.clone(),
            assigned: entry.1.assigned,
            produced: entry.1.produced,
        });
        proof {
            assert(entries@.take(i + 1).map_values(|e: (String, SlotStats)| stat_of(e))
                =~= entries@.take(i as int).map_values(|e: (String, SlotStats)| stat_of(e)).push(
                stat_of(entries@[i as int]),
            ));
        }
        i += 1;
    }
    proof {
        assert(entries@.take(entries@.len() as int) =~= entries@);
    }
    stats
}

/// Sort validator rows by blocks produced, descending. Rows with equal
/// `produced` keep their relative input order.
pub fn sort_by_produced_desc(stats: Vec<ValidatorStat>) -> (sorted: Vec<ValidatorStat>)
    ensures
        sorted_desc(sorted@),
        sorted@.to_multiset() == stats@.to_multiset(),
        sorted@.len() == stats@.len(),
{
    let ghost orig = stats@;
    let mut rest = stats;
    let mut out: Vec<ValidatorStat> = Vec::new();
    while rest.len() > 0
        invariant
            out@.to_multiset().add(rest@.to_multiset()) == orig.to_multiset(),
            out@.len() + rest@.len() == orig.len(),
            sorted_desc(out@),
            forall|i: int, j: int|
                0 <= i < out@.len() && 0 <= j < rest@.len() ==> out@[i].produced
                    >= rest@[j].produced,
        decreases rest@.len(),
    {
        let mut m: usize = 0;
        let mut k: usize = 1;
        while k < rest.len()
            invariant
                0 < rest@.len(),
                m < rest@.len(),
                1 <= k <= rest@.len(),
                forall|t: int| 0 <= t < k ==> rest@[m as int].produced >= rest@[t].produced,
            decreases rest@.len() - k,
        {
            if rest[k].produced > rest[m].produced {
                m = k;
            }
            k += 1;
        }
        let ghost rest_before = rest@;
        let ghost out_before = out@;
        let x = rest.remove(m);
        out.push(x);
        proof {
            assert(rest_before.contains(x));
            assert(rest_before.to_multiset().count(x) > 0);
            assert(out@.to_multiset() =~= out_before.to_multiset().insert(x));
            assert(rest@.to_multiset() =~= rest_before.to_multiset().remove(x));
            assert(out@.to_multiset().add(rest@.to_multiset()) =~= orig.to_multiset()) by {
                assert forall|y: ValidatorStat|
                    out@.to_multiset().add(rest@.to_multiset()).count(y) == orig.to_multiset().count(
                    y,
                ) by {
                    assert(out_before.to_multiset().add(rest_before.to_multiset()).count(y)
                        == orig.to_multiset().count(y));
                }
            }
            assert forall|i: int, j: int|
                0 <= i < out@.len() && 0 <= j < rest@.len() implies out@[i].produced
                >= rest@[j].produced by {
                assert(rest@[j] == if j < m { rest_before[j] } else { rest_before[j + 1] });
                if i < out_before.len() {
                    assert(out@[i] == out_before[i]);
                } else {
                    assert(out@[i] == x);
                }
            }
            assert(sorted_desc(out@)) by {
                assert forall|i: int, j: int|
                    0 <= i <= j < out@.len() implies out@[i].produced >= out@[j].produced by {
                    if j < out_before.len() {
                        assert(out@[i] == out_before[i] && out@[j] == out_before[j]);
                    } else {
                        assert(out@[j] == x);
                    }
                }
            }
        }
    }
    proof {
        assert(rest@.to_multiset() =~= Multiset::<ValidatorStat>::empty());
        assert(out@.to_multiset() =~= orig.to_multiset());
    }
    out
}

/// The validator table for one block-production report: its rows ordered
/// by blocks produced descending, cut down to the `TOP_VALIDATORS` most
/// productive.
pub fn top_validators(stats: Vec<ValidatorStat>) -> (top: Vec<ValidatorStat>)
    ensures
        is_ranking_of(top@, stats@),
{
    let ghost input = stats@;
    let mut sorted = sort_by_produced_desc(stats);
    let ghost full = sorted@;
    sorted.truncate(TOP_VALIDATORS);
    proof {
        assert(full.len() == input.len());
        if TOP_VALIDATORS < full.len() {
            assert(sorted@ == full.subrange(0, TOP_VALIDATORS as int));
        } else {
            assert(sorted@ =~= full.subrange(0, sorted@.len() as int));
        }
        assert(sorted_desc(sorted@));
        assert(is_ranking_of(sorted@, input)) by {
            assert(full.to_multiset() == input.to_multiset() && sorted_desc(full) && sorted@
                == full.subrange(0, sorted@.len() as int));
        }
    }
    sorted
}

} // verus!

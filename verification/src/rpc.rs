//! Typed shapes of the telemetry the dashboard consumes.
//!
//! The remote source answers four queries: epoch info, recent performance
//! samples, block production, and vote accounts. The transport and the wire
//! encoding live outside the library; callers decode the responses into
//! these plain types and hand them in.

use vstd::prelude::*;

verus! {

/// Position within the current epoch.
#[derive(Debug, Clone, Copy)]
pub struct EpochInfo {
    pub epoch: u64,
    pub slot_index: u64,
    pub slots_in_epoch: u64,
    pub absolute_slot: u64,
}

/// One entry of the recent performance series: how many transactions the
/// cluster processed over a sample window ending at `slot`.
#[derive(Debug, Clone, Copy)]
pub struct PerformanceSample {
    pub num_transactions: u64,
    pub sample_period_secs: u64,
    pub slot: u64,
}

/// Leader-slot assignment versus blocks actually produced, for one
/// validator, over the reported slot range.
#[derive(Debug, Clone, Copy)]
pub struct SlotStats {
    pub assigned: u64,
    pub produced: u64,
}

/// First and last slot (inclusive) covered by a block production report.
#[derive(Debug, Clone, Copy)]
pub struct SlotRange {
    pub first_slot: u64,
    pub last_slot: u64,
}

/// Block production over a slot range. The source reports a mapping from
/// validator identity to its slot statistics; it is carried here as a list
/// of (identity, stats) pairs in the mapping's iteration order.
#[derive(Debug, Clone)]
pub struct BlockProduction {
    pub by_identity: Vec<(String, SlotStats)>,
    pub range: SlotRange,
}

/// One vote account as reported by the source.
#[derive(Debug, Clone)]
pub struct VoteAccount {
    pub node_pubkey: String,
    pub activated_stake: u64,
    pub commission: u8,
    pub last_vote: u64,
    pub root_slot: u64,
}

/// Vote accounts split into validators making recent progress (`current`)
/// and those that are not (`delinquent`).
#[derive(Debug, Clone)]
pub struct VoteAccountsResponse {
    pub current: Vec<VoteAccount>,
    pub delinquent: Vec<VoteAccount>,
}

/// Where a looked-up validator was found, if anywhere: the index of its
/// first occurrence in the `current` list, else the index of its first
/// occurrence in the `delinquent` list, else nothing.
#[derive(Debug, Clone, Copy, PartialEq, Eq, Structural)]
pub enum ValidatorLookup {
    Current(usize),
    Delinquent(usize),
    Missing,
}

/// The index of the first account in `accounts` whose node identity is
/// `pubkey`, if any.
pub fn find_vote_account(accounts: &Vec<VoteAccount>, pubkey: &String) -> (found: Option<usize>)
    ensures
        match found {
            Option::Some(i) => {
                &&& i < accounts@.len()
                &&& accounts@[i as int].node_pubkey@ == pubkey@
                &&& forall|j: int| 0 <= j < i ==> accounts@[j].node_pubkey@ != pubkey@
            },
            Option::None => forall|j: int|
                0 <= j < accounts@.len() ==> accounts@[j].node_pubkey@ != pubkey@,
        },
{
    let mut i: usize = 0;
    while i < accounts.len()
        invariant
            i <= accounts@.len(),
            forall|j: int| 0 <= j < i ==> accounts@[j].node_pubkey@ != pubkey@,
        decreases accounts@.len() - i,
    {
        if accounts[i].node_pubkey == *pubkey {
            return Option::Some(i);
        }
        i += 1;
    }
    Option::None
}

impl VoteAccountsResponse {
    /// Look a validator up by node identity: the `current` list is
    /// searched first, the `delinquent` list only if the identity is not
    /// current, and `Missing` is returned exactly when neither list
    /// holds it.
    pub fn lookup(&self, pubkey: &String) -> (found: ValidatorLookup)
        ensures
            match found {
                ValidatorLookup::Current(i) => {
                    &&& i < self.current@.len()
                    &&& self.current@[i as int].node_pubkey@ == pubkey@
                    &&& forall|j: int| 0 <= j < i ==> self.current@[j].node_pubkey@ != pubkey@
                },
                ValidatorLookup::Delinquent(i) => {
                    &&& forall|j: int|
                        0 <= j < self.current@.len() ==> self.current@[j].node_pubkey@ != pubkey@
                    &&& i < self.delinquent@.len()
                    &&& self.delinquent@[i as int].node_pubkey@ == pubkey@
                    &&& forall|j: int| 0 <= j < i ==> self.delinquent@[j].node_pubkey@ != pubkey@
                },
                ValidatorLookup::Missing => {
                    &&& forall|j: int|
                        0 <= j < self.current@.len() ==> self.current@[j].node_pubkey@ != pubkey@
                    &&& forall|j: int|
                        0 <= j < self.delinquent@.len() ==> self.delinquent@[j].node_pubkey@
                            != pubkey@
                },
            },
    {
        match find_vote_account(&self.current, pubkey) {
            Option::Some(i) => ValidatorLookup::Current(i),
            Option::None => match find_vote_account(&self.delinquent, pubkey) {
                Option::Some(i) => ValidatorLookup::Delinquent(i),
                Option::None => ValidatorLookup::Missing,
            },
        }
    }
}

} // verus!

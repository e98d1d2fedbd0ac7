//! The one-shot report building blocks: converting and ranking validator
//! rows, and looking a validator up among the vote accounts.

use solmon::rank::{sort_by_produced_desc, top_validators, validator_stats_of};
use solmon::rpc::{SlotStats, ValidatorLookup, VoteAccount, VoteAccountsResponse};
use solmon::state::ValidatorStat;

fn row(id: &str, assigned: u64, produced: u64) -> ValidatorStat {
    ValidatorStat { identity: String::from(id), assigned, produced }
}

fn account(pubkey: &str, stake: u64) -> VoteAccount {
    VoteAccount {
        node_pubkey: String::from(pubkey),
        activated_stake: stake,
        commission: 5,
        last_vote: 900,
        root_slot: 850,
    }
}

#[test]
fn conversion_keeps_report_order() {
    let entries = vec![
        (String::from("x"), SlotStats { assigned: 4, produced: 2 }),
        (String::from("y"), SlotStats { assigned: 8, produced: 6 }),
    ];
    let stats = validator_stats_of(&entries);
    assert_eq!(stats.len(), 2);
    assert_eq!(stats[0].identity, "x");
    assert_eq!((stats[0].assigned, stats[0].produced), (4, 2));
    assert_eq!(stats[1].identity, "y");
    assert_eq!((stats[1].assigned, stats[1].produced), (8, 6));
}

#[test]
fn sort_is_descending_and_keeps_ties_in_order() {
    let sorted = sort_by_produced_desc(vec![
        row("a", 10, 3),
        row("b", 10, 7),
        row("c", 10, 3),
        row("d", 10, 9),
    ]);
    let order: Vec<&str> = sorted.iter().map(|v| v.identity.as_str()).collect();
    assert_eq!(order, vec!["d", "b", "a", "c"]);
}

#[test]
fn top_validators_caps_at_five() {
    let top = top_validators(vec![
        row("a", 10, 1),
        row("b", 10, 2),
        row("c", 10, 3),
        row("d", 10, 4),
        row("e", 10, 5),
        row("f", 10, 6),
    ]);
    let produced: Vec<u64> = top.iter().map(|v| v.produced).collect();
    assert_eq!(produced, vec![6, 5, 4, 3, 2]);
}

#[test]
fn top_validators_short_input() {
    let top = top_validators(vec![row("a", 10, 1), row("b", 10, 2)]);
    let produced: Vec<u64> = top.iter().map(|v| v.produced).collect();
    assert_eq!(produced, vec![2, 1]);
}

#[test]
fn top_validators_empty_input() {
    let top = top_validators(Vec::new());
    assert!(top.is_empty());
}

#[test]
fn lookup_finds_current() {
    let accounts = VoteAccountsResponse {
        current: vec![account("one", 10), account("two", 20)],
        delinquent: vec![account("three", 30)],
    };
    assert_eq!(accounts.lookup(&String::from("two")), ValidatorLookup::Current(1));
}

#[test]
fn lookup_finds_delinquent() {
    let accounts = VoteAccountsResponse {
        current: vec![account("one", 10)],
        delinquent: vec![account("three", 30), account("four", 40)],
    };
    assert_eq!(accounts.lookup(&String::from("four")), ValidatorLookup::Delinquent(1));
}

#[test]
fn lookup_misses() {
    let accounts = VoteAccountsResponse {
        current: vec![account("one", 10)],
        delinquent: vec![account("three", 30)],
    };
    assert_eq!(accounts.lookup(&String::from("nobody")), ValidatorLookup::Missing);
}

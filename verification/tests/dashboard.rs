//! The dashboard's shared-state logic: TPS derivation, the bounded TPS
//! history, poll cycles with partial failures, and the render session's
//! restore guarantee.

use solmon::metrics::{compute_tps, success_percent_parts, success_tenths};
use solmon::rpc::{BlockProduction, PerformanceSample, SlotRange, SlotStats};
use solmon::session::{FrameEvent, Phase, RenderSession};
use solmon::state::AppState;

fn sample(num_transactions: u64, sample_period_secs: u64, slot: u64) -> PerformanceSample {
    PerformanceSample { num_transactions, sample_period_secs, slot }
}

fn production(entries: Vec<(&str, u64, u64)>) -> BlockProduction {
    BlockProduction {
        by_identity: entries
            .into_iter()
            .map(|(id, assigned, produced)| {
                (String::from(id), SlotStats { assigned, produced })
            })
            .collect(),
        range: SlotRange { first_slot: 0, last_slot: 100 },
    }
}

fn history_of(state: &AppState) -> Vec<u64> {
    state.tps_history.iter().copied().collect()
}

#[test]
fn tps_integer_division() {
    assert_eq!(compute_tps(1000, 60), 16);
}

#[test]
fn tps_zero_period_is_zero() {
    assert_eq!(compute_tps(1000, 0), 0);
    assert_eq!(compute_tps(0, 0), 0);
}

#[test]
fn success_percentage_basic() {
    assert_eq!(success_tenths(200, 150), 750);
    assert_eq!(success_tenths(200, 150) as f64 / 10.0, 75.0);
    assert_eq!(success_percent_parts(200, 150), (75, 0));
    assert_eq!(format!("{}.{}%", 75, 0), "75.0%");
}

#[test]
fn success_percentage_zero_assigned() {
    assert_eq!(success_tenths(0, 150), 0);
    assert_eq!(success_tenths(0, 0), 0);
    assert_eq!(success_tenths(0, 150) as f64 / 10.0, 0.0);
    assert_eq!(success_percent_parts(0, 7), (0, 0));
}

#[test]
fn success_percentage_truncates_to_tenths() {
    // 2 of 3 produced: 666.66... tenths, truncated.
    assert_eq!(success_tenths(3, 2), 666);
    assert_eq!(success_percent_parts(3, 2), (66, 6));
}

#[test]
fn initial_state_seeds_history() {
    let state = AppState::new(500, 100);
    assert_eq!(state.tps, 500);
    assert_eq!(state.slot, 100);
    assert_eq!(history_of(&state), vec![500]);
    assert!(state.validators.is_empty());
}

#[test]
fn history_bounded_fifo() {
    let mut state = AppState::new(0, 0);
    let mut appended: Vec<u64> = vec![0];
    for i in 1..100u64 {
        state.record_sample(&sample(i * 60, 60, i));
        appended.push(i);
        assert!(state.tps_history.len() <= 30);
    }
    // The history holds exactly the last 30 readings, oldest first.
    let expected: Vec<u64> = appended[appended.len() - 30..].to_vec();
    assert_eq!(history_of(&state), expected);
}

#[test]
fn poller_scenario_snapshots() {
    // Cycle 1 reports tps 500 at slot 100 and seeds the state.
    let state = AppState::new(500, 100);
    assert_eq!((state.tps, state.slot), (500, 100));
    assert_eq!(history_of(&state), vec![500]);

    // Cycle 2 reports tps 520 at slot 101.
    let mut state = state;
    state.apply_poll(Some(vec![sample(520, 1, 101)]), None);
    assert_eq!((state.tps, state.slot), (520, 101));
    assert_eq!(history_of(&state), vec![500, 520]);

    // Cycle 3: the performance fetch fails; the stale values remain and
    // no third reading is appended.
    state.apply_poll(None, None);
    assert_eq!((state.tps, state.slot), (520, 101));
    assert_eq!(state.tps_history.len(), 2);
}

#[test]
fn empty_performance_fetch_is_noop() {
    let mut state = AppState::new(500, 100);
    state.apply_poll(Some(vec![]), None);
    assert_eq!((state.tps, state.slot), (500, 100));
    assert_eq!(history_of(&state), vec![500]);
}

#[test]
fn partial_failure_independence() {
    let mut state = AppState::new(500, 100);

    // The block-production fetch succeeds while the performance fetch
    // fails: the validator table still updates.
    state.apply_poll(None, Some(production(vec![("a", 10, 9), ("b", 10, 7)])));
    assert_eq!(state.validators.len(), 2);
    assert_eq!((state.tps, state.slot), (500, 100));

    // The reverse: the sample lands, the table keeps its rows.
    state.apply_poll(Some(vec![sample(600, 1, 105)]), None);
    assert_eq!((state.tps, state.slot), (600, 105));
    assert_eq!(state.validators.len(), 2);
    assert_eq!(state.validators[0].identity, "a");
}

#[test]
fn block_production_update_replaces_table() {
    let mut state = AppState::new(1, 1);
    state.record_block_production(production(vec![
        ("v1", 100, 50),
        ("v2", 100, 90),
        ("v3", 100, 70),
        ("v4", 100, 99),
        ("v5", 100, 10),
        ("v6", 100, 80),
        ("v7", 100, 60),
    ]));
    // Top five by produced, descending.
    let produced: Vec<u64> = state.validators.iter().map(|v| v.produced).collect();
    assert_eq!(produced, vec![99, 90, 80, 70, 60]);
    let identities: Vec<&str> = state.validators.iter().map(|v| v.identity.as_str()).collect();
    assert_eq!(identities, vec!["v4", "v2", "v6", "v3", "v7"]);
    // The sample fields were untouched.
    assert_eq!((state.tps, state.slot), (1, 1));
    assert_eq!(history_of(&state), vec![1]);
}

#[test]
fn session_quit_restores_once() {
    let mut session = RenderSession::new();
    assert_eq!(session.phase, Phase::Initializing);
    session.begin();
    assert!(session.is_running());
    assert!(session.on_frame(FrameEvent::Idle));
    assert!(session.on_frame(FrameEvent::OtherKey));
    assert!(!session.on_frame(FrameEvent::QuitKey));
    assert!(!session.is_running());
    assert!(session.needs_restore());
    session.mark_restored();
    assert_eq!(session.phase, Phase::Released);
    assert!(!session.needs_restore());
    assert!(!session.is_running());
}

#[test]
fn session_draw_error_still_restores() {
    let mut session = RenderSession::new();
    session.begin();
    assert!(!session.on_frame(FrameEvent::DrawError));
    assert!(session.needs_restore());
    session.mark_restored();
    assert_eq!(session.phase, Phase::Released);
}

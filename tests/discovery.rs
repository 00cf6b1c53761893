use helium_etl_lite::backfill::{Backfill, BackfillEvent, Probe};

/// Runs discovery against a node serving `floor..=head` whose blocks hold a
/// reward-epoch transaction with the given start where `epoch` says so.
fn discover(head: u64, floor: u64, epoch: impl Fn(u64) -> Option<u64>) -> (Probe, Vec<u64>) {
    let mut state = Backfill::new(head);
    let mut probe = state.first_probe();
    let mut probed = vec![];
    while let Probe::Fetch(h) = probe {
        probed.push(h);
        assert!(probed.len() < 10_000);
        let event = if h >= floor && h <= head {
            BackfillEvent::Found(epoch(h).into_iter().collect())
        } else {
            BackfillEvent::Missing
        };
        probe = state.step(&event);
    }
    (probe, probed)
}

#[test]
fn epoch_start_is_probed_next() {
    let mut state = Backfill::new(500);
    assert_eq!(state.first_probe(), Probe::Fetch(500));
    let next = state.step(&BackfillEvent::Found(vec![470]));
    assert_eq!(next, Probe::Fetch(470));
    assert_eq!(state.last_safe, 500);
    let last_wins = state.step(&BackfillEvent::Found(vec![440, 430]));
    assert_eq!(last_wins, Probe::Fetch(430));
}

#[test]
fn plain_block_steps_down_by_one() {
    let mut state = Backfill::new(500);
    assert_eq!(state.step(&BackfillEvent::Found(vec![])), Probe::Fetch(499));
}

#[test]
fn whole_history_walks_down_to_zero() {
    let (probe, probed) = discover(5, 0, |_| None);
    assert_eq!(probe, Probe::Done(0));
    assert_eq!(probed, vec![5, 4, 3, 2, 1, 0]);
}

#[test]
fn gap_after_epoch_jump_ends_at_floor() {
    // Block 100 points back to 40, below the floor of 90: the one retry
    // lands on 99, and the walk then stops at the floor.
    let (probe, probed) = discover(100, 90, |h| if h == 100 { Some(40) } else { None });
    assert_eq!(probe, Probe::Done(90));
    assert_eq!(probed[..3], [100, 40, 99]);
    assert_eq!(*probed.last().unwrap(), 89);
}

#[test]
fn failed_retry_is_fatal() {
    let (probe, _) = discover(10, 8, |_| None);
    assert_eq!(probe, Probe::Stuck(7));
}

#[test]
fn second_gap_ends_discovery() {
    let mut state = Backfill::new(50);
    state.step(&BackfillEvent::Found(vec![10]));
    assert_eq!(state.step(&BackfillEvent::Missing), Probe::Fetch(49));
    assert_eq!(state.step(&BackfillEvent::Found(vec![])), Probe::Fetch(48));
    assert_eq!(state.step(&BackfillEvent::Missing), Probe::Done(49));
}

#[test]
fn cancellation_returns_best_floor() {
    let mut state = Backfill::new(50);
    state.step(&BackfillEvent::Found(vec![]));
    assert_eq!(state.step(&BackfillEvent::Cancelled), Probe::Done(50));
    let mut other = Backfill::new(20);
    assert_eq!(other.step(&BackfillEvent::EpochUnreadable), Probe::Done(20));
}

#[test]
fn missing_head_of_empty_chain_is_fatal() {
    let mut state = Backfill::new(0);
    assert_eq!(state.step(&BackfillEvent::Missing), Probe::Stuck(0));
}

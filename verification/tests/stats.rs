use devoter::stats::Outcome;
use devoter::stats::Stats;

#[test]
fn new_stats_are_zero() {
    let stats = Stats::new();
    assert_eq!(stats.votes, 0);
    assert_eq!(stats.errors, 0);
}

#[test]
fn only_an_acknowledged_attempt_counts_as_vote() {
    assert!(Outcome::Acknowledged.counts_as_vote());
    assert!(!Outcome::EncryptionFailed.counts_as_vote());
    assert!(!Outcome::TransportFailed.counts_as_vote());
}

#[test]
fn acknowledged_attempt_moves_votes_only() {
    let mut stats = Stats { votes: 41, errors: 7 };
    stats.record(Outcome::Acknowledged);
    assert_eq!(stats, Stats { votes: 42, errors: 7 });
}

#[test]
fn transport_failure_moves_errors_by_one_and_leaves_votes() {
    let mut stats = Stats { votes: 41, errors: 7 };
    stats.record(Outcome::TransportFailed);
    assert_eq!(stats, Stats { votes: 41, errors: 8 });
}

#[test]
fn encryption_failure_moves_errors_by_one_and_leaves_votes() {
    let mut stats = Stats::new();
    stats.record(Outcome::EncryptionFailed);
    assert_eq!(stats, Stats { votes: 0, errors: 1 });
}

#[test]
fn every_attempt_is_counted_once() {
    let mut stats = Stats::new();
    let outcomes = [
        Outcome::Acknowledged,
        Outcome::TransportFailed,
        Outcome::Acknowledged,
        Outcome::EncryptionFailed,
        Outcome::Acknowledged,
    ];
    for (done, outcome) in outcomes.iter().enumerate() {
        stats.record(*outcome);
        assert_eq!(stats.votes + stats.errors, done as u64 + 1);
    }
    assert_eq!(stats, Stats { votes: 3, errors: 2 });
}

#[test]
fn counters_wrap_at_the_largest_value() {
    let mut stats = Stats { votes: u64::MAX, errors: u64::MAX };
    stats.record(Outcome::Acknowledged);
    assert_eq!(stats, Stats { votes: 0, errors: u64::MAX });
    stats.record(Outcome::TransportFailed);
    assert_eq!(stats, Stats { votes: 0, errors: 0 });
}

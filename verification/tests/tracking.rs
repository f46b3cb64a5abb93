use cordtap::activity::{ActivityDetector, ActivityEdge, ActivityState};
use cordtap::identity::{IdentityTracker, ParticipantIdentity};

#[test]
fn last_observation_wins() {
    let u1 = ParticipantIdentity(1001);
    let u2 = ParticipantIdentity(2002);
    let mut tracker = IdentityTracker::new();
    tracker.observe(7, u1);
    assert_eq!(tracker.lookup(7), Some(u1));
    tracker.observe(7, u2);
    assert_eq!(tracker.lookup(7), Some(u2));
}

#[test]
fn lookup_on_untouched_tracker_is_absent() {
    let tracker = IdentityTracker::new();
    assert_eq!(tracker.lookup(99), None);
    assert_eq!(tracker.lookup(0), None);
}

#[test]
fn observation_leaves_other_sources_alone() {
    let mut tracker = IdentityTracker::new();
    tracker.observe(1, ParticipantIdentity(10));
    tracker.observe(2, ParticipantIdentity(20));
    tracker.observe(1, ParticipantIdentity(11));
    assert_eq!(tracker.lookup(1), Some(ParticipantIdentity(11)));
    assert_eq!(tracker.lookup(2), Some(ParticipantIdentity(20)));
    assert_eq!(tracker.lookup(3), None);
}

#[test]
fn observation_is_idempotent() {
    let mut tracker = IdentityTracker::new();
    tracker.observe(5, ParticipantIdentity(50));
    tracker.observe(5, ParticipantIdentity(50));
    assert_eq!(tracker.lookup(5), Some(ParticipantIdentity(50)));
}

#[test]
fn one_participant_may_stand_behind_two_sources() {
    let mut tracker = IdentityTracker::new();
    tracker.observe(u32::MAX, ParticipantIdentity(u64::MAX));
    tracker.observe(0, ParticipantIdentity(u64::MAX));
    assert_eq!(tracker.lookup(u32::MAX), Some(ParticipantIdentity(u64::MAX)));
    assert_eq!(tracker.lookup(0), Some(ParticipantIdentity(u64::MAX)));
}

#[test]
fn detector_starts_silent() {
    let detector = ActivityDetector::new();
    assert_eq!(detector.state(), ActivityState::Silent);
}

#[test]
fn detector_reports_each_edge_once() {
    let ticks = [false, false, true, true, false];
    let mut detector = ActivityDetector::new();
    let mut reports = Vec::new();
    for active in ticks {
        reports.push(detector.observe(active));
    }
    assert_eq!(
        reports,
        vec![None, None, Some(ActivityEdge::Started), None, Some(ActivityEdge::WentSilent)]
    );
    assert_eq!(reports.iter().filter(|r| r.is_some()).count(), 2);
    assert_eq!(detector.state(), ActivityState::Silent);
}

#[test]
fn detector_is_quiet_while_nothing_changes() {
    let mut detector = ActivityDetector::new();
    for _ in 0..10 {
        assert_eq!(detector.observe(false), None);
    }
    assert_eq!(detector.observe(true), Some(ActivityEdge::Started));
    assert_eq!(detector.state(), ActivityState::Active);
    for _ in 0..10 {
        assert_eq!(detector.observe(true), None);
    }
    assert_eq!(detector.observe(false), Some(ActivityEdge::WentSilent));
    assert_eq!(detector.observe(false), None);
}

#[test]
fn detector_reports_every_flip() {
    let mut detector = ActivityDetector::new();
    let mut count = 0;
    for i in 0..8 {
        let edge = detector.observe(i % 2 == 0);
        if i % 2 == 0 {
            assert_eq!(edge, Some(ActivityEdge::Started));
        } else {
            assert_eq!(edge, Some(ActivityEdge::WentSilent));
        }
        count += 1;
    }
    assert_eq!(count, 8);
}

use mcbe_fisher::session::{FishingSession, SessionAction, SessionConfig, SessionEvent};

use SessionAction::{Cast, Complete, Cooldown, Nothing, Poll, Reel};

fn tick(sample: u32) -> SessionEvent {
    SessionEvent::Tick { sample: Some(sample), timed_out: false }
}

/// Runs one whole cycle that ends in a bite, from the `Cast` action on.
fn bite_cycle(s: &mut FishingSession) -> Vec<SessionAction> {
    let mut acts = vec![s.on_event(SessionEvent::ActionDone)];
    for v in [1, 5, 4, 3, 2] {
        acts.push(s.on_event(tick(v)));
    }
    acts.push(s.on_event(SessionEvent::ActionDone));
    acts.push(s.on_event(SessionEvent::ActionDone));
    acts
}

#[test]
fn cast_limit_three_casts_three_times_and_completes_once() {
    let mut s = FishingSession::new(SessionConfig { cast_limit: Some(3), threshold: 0 });
    let mut acts = vec![s.on_event(SessionEvent::SetupSucceeded)];
    for _ in 0..3 {
        acts.extend(bite_cycle(&mut s));
    }
    for _ in 0..4 {
        acts.push(s.on_event(SessionEvent::ActionDone));
    }
    assert_eq!(acts.iter().filter(|a| **a == Cast).count(), 3);
    assert_eq!(acts.iter().filter(|a| **a == Reel).count(), 3);
    assert_eq!(acts.iter().filter(|a| **a == Complete).count(), 1);
    assert_eq!(s.casts(), 3);
    assert!(s.is_finished());
}

#[test]
fn one_cycle_in_order() {
    let mut s = FishingSession::new(SessionConfig { cast_limit: Some(1), threshold: 0 });
    assert_eq!(s.on_event(SessionEvent::SetupSucceeded), Cast);
    assert_eq!(
        bite_cycle(&mut s),
        vec![Poll, Poll, Poll, Poll, Poll, Reel, Cooldown, Complete]
    );
}

#[test]
fn stop_mid_cycle_completes_at_next_event() {
    let mut s = FishingSession::new(SessionConfig { cast_limit: None, threshold: 0 });
    assert_eq!(s.on_event(SessionEvent::SetupSucceeded), Cast);
    assert_eq!(s.on_event(SessionEvent::ActionDone), Poll);
    assert_eq!(s.on_event(tick(1)), Poll);
    assert_eq!(s.on_event(tick(5)), Poll);
    s.stop();
    assert!(s.is_cancelled());
    assert_eq!(s.on_event(tick(4)), Complete);
    for e in [tick(3), tick(2), SessionEvent::ActionDone, SessionEvent::SetupSucceeded] {
        assert_eq!(s.on_event(e), Nothing);
    }
    s.stop();
    assert_eq!(s.on_event(SessionEvent::ActionDone), Nothing);
}

#[test]
fn stop_when_bite_pending_does_not_reel() {
    let mut s = FishingSession::new(SessionConfig { cast_limit: None, threshold: 0 });
    s.on_event(SessionEvent::SetupSucceeded);
    s.on_event(SessionEvent::ActionDone);
    for v in [1, 5, 4, 3] {
        assert_eq!(s.on_event(tick(v)), Poll);
    }
    s.stop();
    assert_eq!(s.on_event(tick(2)), Complete);
}

#[test]
fn stop_before_setup_completes() {
    let mut s = FishingSession::new(SessionConfig { cast_limit: Some(5), threshold: 0 });
    s.stop();
    assert_eq!(s.on_event(SessionEvent::SetupSucceeded), Complete);
    assert_eq!(s.casts(), 0);
}

#[test]
fn setup_failure_completes_without_casting() {
    let mut s = FishingSession::new(SessionConfig { cast_limit: None, threshold: 2 });
    assert_eq!(s.on_event(SessionEvent::SetupFailed), Complete);
    assert!(s.is_finished());
    assert_eq!(s.on_event(SessionEvent::SetupSucceeded), Nothing);
    assert_eq!(s.casts(), 0);
}

#[test]
fn timeout_abandons_cycle_and_recasts() {
    let mut s = FishingSession::new(SessionConfig { cast_limit: None, threshold: 0 });
    s.on_event(SessionEvent::SetupSucceeded);
    s.on_event(SessionEvent::ActionDone);
    assert_eq!(s.on_event(tick(3)), Poll);
    assert_eq!(s.on_event(SessionEvent::Tick { sample: Some(4), timed_out: true }), Cooldown);
    assert_eq!(s.on_event(SessionEvent::ActionDone), Cast);
    assert_eq!(s.casts(), 2);
    assert_eq!(s.detector().peak_value(), 0);
}

#[test]
fn bite_wins_over_timeout_in_same_tick() {
    let mut s = FishingSession::new(SessionConfig { cast_limit: None, threshold: 0 });
    s.on_event(SessionEvent::SetupSucceeded);
    s.on_event(SessionEvent::ActionDone);
    for v in [1, 5, 4, 3] {
        s.on_event(tick(v));
    }
    assert_eq!(s.on_event(SessionEvent::Tick { sample: Some(2), timed_out: true }), Reel);
}

#[test]
fn failed_read_is_a_missed_sample() {
    let mut s = FishingSession::new(SessionConfig { cast_limit: None, threshold: 0 });
    s.on_event(SessionEvent::SetupSucceeded);
    s.on_event(SessionEvent::ActionDone);
    s.on_event(tick(1));
    s.on_event(tick(5));
    assert_eq!(s.on_event(SessionEvent::Tick { sample: None, timed_out: false }), Poll);
    assert_eq!(s.detector().last_value(), 5);
    assert_eq!(s.on_event(SessionEvent::Tick { sample: None, timed_out: true }), Cooldown);
}

#[test]
fn zero_limit_still_runs_one_cycle() {
    let mut s = FishingSession::new(SessionConfig { cast_limit: Some(0), threshold: 0 });
    assert_eq!(s.on_event(SessionEvent::SetupSucceeded), Cast);
    let acts = bite_cycle(&mut s);
    assert_eq!(acts.last(), Some(&Complete));
    assert_eq!(s.casts(), 1);
}

#[test]
fn no_limit_keeps_casting() {
    let mut s = FishingSession::new(SessionConfig { cast_limit: None, threshold: 0 });
    s.on_event(SessionEvent::SetupSucceeded);
    for _ in 0..10 {
        let acts = bite_cycle(&mut s);
        assert_eq!(acts.last(), Some(&Cast));
    }
    assert_eq!(s.casts(), 11);
    assert_eq!(s.config(), SessionConfig { cast_limit: None, threshold: 0 });
}

#[test]
fn unexpected_events_are_ignored() {
    let mut s = FishingSession::new(SessionConfig { cast_limit: None, threshold: 0 });
    assert_eq!(s.on_event(SessionEvent::ActionDone), Nothing);
    assert_eq!(s.on_event(tick(3)), Nothing);
    assert_eq!(s.on_event(SessionEvent::SetupSucceeded), Cast);
    assert_eq!(s.on_event(tick(3)), Nothing);
    assert_eq!(s.on_event(SessionEvent::SetupFailed), Nothing);
}

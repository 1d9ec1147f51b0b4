use backend_supervisor::readiness::{PollAction, PollEvent, ReadinessPoll};
use backend_supervisor::timing::{elapsed_ms, READY_POLL_INTERVAL_MS, READY_TIMEOUT_MS};

#[test]
fn timing_constants() {
    assert_eq!(READY_POLL_INTERVAL_MS, 120);
    assert_eq!(READY_TIMEOUT_MS, 6000);
}

#[test]
fn elapsed_is_difference_or_zero() {
    assert_eq!(elapsed_ms(1000, 1500), 500);
    assert_eq!(elapsed_ms(1000, 1000), 0);
    assert_eq!(elapsed_ms(1500, 1000), 0);
    assert_eq!(elapsed_ms(0, u64::MAX), u64::MAX);
}

#[test]
fn listening_port_is_ready_at_once() {
    let mut poll = ReadinessPoll::begin(8000, 6000, 77);
    assert_eq!(poll.target(), 8000);
    assert_eq!(poll.pending(), PollAction::Probe(8000));
    poll.step(PollEvent::Connected(true));
    assert_eq!(poll.pending(), PollAction::Done(true));
}

#[test]
fn failed_probe_is_followed_by_sleep() {
    let mut poll = ReadinessPoll::begin(8000, 6000, 0);
    poll.step(PollEvent::Connected(false));
    assert_eq!(poll.pending(), PollAction::Sleep(120));
    poll.step(PollEvent::Woke { now_ms: 120 });
    assert_eq!(poll.pending(), PollAction::Probe(8000));
    poll.step(PollEvent::Connected(true));
    assert_eq!(poll.pending(), PollAction::Done(true));
}

#[test]
fn poll_gives_up_at_deadline() {
    let mut poll = ReadinessPoll::begin(8000, 6000, 1000);
    poll.step(PollEvent::Connected(false));
    poll.step(PollEvent::Woke { now_ms: 6999 });
    assert_eq!(poll.pending(), PollAction::Probe(8000));
    poll.step(PollEvent::Connected(false));
    poll.step(PollEvent::Woke { now_ms: 7000 });
    assert_eq!(poll.pending(), PollAction::Done(false));
}

#[test]
fn zero_timeout_never_probes() {
    let poll = ReadinessPoll::begin(8000, 0, 5);
    assert_eq!(poll.pending(), PollAction::Done(false));
}

#[test]
fn clock_that_runs_backwards_counts_as_no_time() {
    let mut poll = ReadinessPoll::begin(8000, 100, 5000);
    poll.step(PollEvent::Connected(false));
    poll.step(PollEvent::Woke { now_ms: 10 });
    assert_eq!(poll.pending(), PollAction::Probe(8000));
}

#[test]
fn unexpected_poll_events_change_nothing() {
    let mut poll = ReadinessPoll::begin(8000, 6000, 0);
    poll.step(PollEvent::Woke { now_ms: 99999 });
    assert_eq!(poll.pending(), PollAction::Probe(8000));
    poll.step(PollEvent::Connected(false));
    poll.step(PollEvent::Connected(true));
    assert_eq!(poll.pending(), PollAction::Sleep(120));
    poll.step(PollEvent::Woke { now_ms: 99999 });
    assert_eq!(poll.pending(), PollAction::Done(false));
    poll.step(PollEvent::Connected(true));
    poll.step(PollEvent::Woke { now_ms: 0 });
    assert_eq!(poll.pending(), PollAction::Done(false));
}

#[test]
fn full_poll_never_probes_twice_without_sleep() {
    let mut poll = ReadinessPoll::begin(8000, 6000, 0);
    let mut now: u64 = 0;
    let mut last_was_probe = false;
    let mut probes = 0;
    loop {
        match poll.pending() {
            PollAction::Done(ready) => {
                assert!(!ready);
                break;
            }
            PollAction::Probe(port) => {
                assert_eq!(port, 8000);
                assert!(!last_was_probe);
                last_was_probe = true;
                probes += 1;
                poll.step(PollEvent::Connected(false));
            }
            PollAction::Sleep(ms) => {
                assert_eq!(ms, 120);
                last_was_probe = false;
                now += ms;
                poll.step(PollEvent::Woke { now_ms: now });
            }
        }
    }
    assert_eq!(probes, 50);
    assert_eq!(now, 6000);
}

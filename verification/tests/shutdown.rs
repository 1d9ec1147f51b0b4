use backend_supervisor::shutdown::{signal_target, Shutdown, StopAction, StopEvent};
use backend_supervisor::timing::{EXIT_POLL_INTERVAL_MS, GRACE_PERIOD_MS};

#[test]
fn shutdown_constants() {
    assert_eq!(EXIT_POLL_INTERVAL_MS, 100);
    assert_eq!(GRACE_PERIOD_MS, 2000);
}

#[test]
fn group_target_is_negated_pid() {
    assert_eq!(signal_target(4242), Some(-4242));
    assert_eq!(signal_target(2), Some(-2));
    assert_eq!(signal_target(2147483647), Some(-2147483647));
}

#[test]
fn no_group_target_for_special_ids() {
    assert_eq!(signal_target(0), None);
    assert_eq!(signal_target(1), None);
    assert_eq!(signal_target(2147483648), None);
    assert_eq!(signal_target(u32::MAX), None);
}

#[test]
fn graceful_exit_needs_no_kill() {
    let mut stop = Shutdown::begin(4242, true);
    assert_eq!(stop.pending(), StopAction::SignalGroup { target: -4242 });
    stop.step(StopEvent::Signalled { now_ms: 500 });
    assert_eq!(stop.pending(), StopAction::PollExit);
    stop.step(StopEvent::ExitStatus { exited: false });
    assert_eq!(stop.pending(), StopAction::Sleep(100));
    stop.step(StopEvent::Woke { now_ms: 600 });
    assert_eq!(stop.pending(), StopAction::PollExit);
    stop.step(StopEvent::ExitStatus { exited: true });
    assert_eq!(stop.pending(), StopAction::Done);
}

#[test]
fn stubborn_child_is_killed_after_grace_period() {
    let mut stop = Shutdown::begin(4242, true);
    stop.step(StopEvent::Signalled { now_ms: 500 });
    stop.step(StopEvent::ExitStatus { exited: false });
    stop.step(StopEvent::Woke { now_ms: 2499 });
    assert_eq!(stop.pending(), StopAction::PollExit);
    stop.step(StopEvent::ExitStatus { exited: false });
    stop.step(StopEvent::Woke { now_ms: 2500 });
    assert_eq!(stop.pending(), StopAction::Kill);
    stop.step(StopEvent::Killed);
    assert_eq!(stop.pending(), StopAction::Done);
}

#[test]
fn full_graceful_sequence_polls_twenty_times() {
    let mut stop = Shutdown::begin(77, true);
    let mut now: u64 = 10;
    let mut polls = 0;
    let mut killed = false;
    loop {
        match stop.pending() {
            StopAction::Done => break,
            StopAction::SignalGroup { target } => {
                assert_eq!(target, -77);
                stop.step(StopEvent::Signalled { now_ms: now });
            }
            StopAction::PollExit => {
                polls += 1;
                stop.step(StopEvent::ExitStatus { exited: false });
            }
            StopAction::Sleep(ms) => {
                now += ms;
                stop.step(StopEvent::Woke { now_ms: now });
            }
            StopAction::Kill => {
                killed = true;
                stop.step(StopEvent::Killed);
            }
        }
    }
    assert!(killed);
    assert_eq!(polls, 20);
    assert_eq!(now, 2010);
}

#[test]
fn forceful_policy_kills_directly() {
    let mut stop = Shutdown::begin(4242, false);
    assert_eq!(stop.pending(), StopAction::Kill);
    stop.step(StopEvent::Killed);
    assert_eq!(stop.pending(), StopAction::Done);
}

#[test]
fn child_without_group_target_is_killed_directly() {
    assert_eq!(Shutdown::begin(1, true).pending(), StopAction::Kill);
    assert_eq!(Shutdown::begin(0, true).pending(), StopAction::Kill);
    assert_eq!(Shutdown::begin(u32::MAX, true).pending(), StopAction::Kill);
}

#[test]
fn unexpected_stop_events_change_nothing() {
    let mut stop = Shutdown::begin(4242, true);
    stop.step(StopEvent::Killed);
    stop.step(StopEvent::ExitStatus { exited: true });
    stop.step(StopEvent::Woke { now_ms: 99999 });
    assert_eq!(stop.pending(), StopAction::SignalGroup { target: -4242 });
    stop.step(StopEvent::Signalled { now_ms: 0 });
    stop.step(StopEvent::Killed);
    assert_eq!(stop.pending(), StopAction::PollExit);
    stop.step(StopEvent::ExitStatus { exited: true });
    stop.step(StopEvent::Killed);
    stop.step(StopEvent::Signalled { now_ms: 0 });
    assert_eq!(stop.pending(), StopAction::Done);
}

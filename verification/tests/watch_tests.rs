use iflist::error::NetError;
use iflist::watch::RECV_BUFFER_LEN;
use iflist::watch::WatchAction;
use iflist::watch::WatchEvent;
use iflist::watch::WatchOutcome;
use iflist::watch::WatchPhase;
use iflist::watch::outcome_to_result;
use iflist::watch::watch_step;

fn step(phase: WatchPhase, event: WatchEvent) -> (WatchPhase, WatchAction) {
    watch_step(phase, event).expect("the phase must accept the event")
}

#[test]
fn successful_watch_runs_setup_then_one_receive() {
    let (p, a) = step(WatchPhase::Start, WatchEvent::OpenOk);
    assert_eq!((p, a), (WatchPhase::Opened, WatchAction::BindChannel));
    let (p, a) = step(p, WatchEvent::BindOk);
    assert_eq!((p, a), (WatchPhase::Bound, WatchAction::ArmTimeout));
    let (p, a) = step(p, WatchEvent::ArmOk);
    assert_eq!((p, a), (WatchPhase::Armed, WatchAction::Receive));
    let (p, a) = step(p, WatchEvent::RecvOk);
    assert_eq!(p, WatchPhase::Done(WatchOutcome::Changed));
    assert_eq!(a, WatchAction::CloseChannel);
    assert_eq!(outcome_to_result(WatchOutcome::Changed), Ok(()));
}

#[test]
fn elapsed_timeout_is_the_timeout_error() {
    let (p, _) = step(WatchPhase::Start, WatchEvent::OpenOk);
    let (p, _) = step(p, WatchEvent::BindOk);
    let (p, _) = step(p, WatchEvent::ArmOk);
    let (p, a) = step(p, WatchEvent::RecvTimedOut);
    assert_eq!(p, WatchPhase::Done(WatchOutcome::TimedOut));
    assert_eq!(a, WatchAction::CloseChannel);
    let r = outcome_to_result(WatchOutcome::TimedOut);
    assert_eq!(r, Err(NetError::WatchTimedOut));
    let err = r.unwrap_err();
    assert!(err.is_timeout());
    assert_ne!(err, NetError::WatchIOFailed(0));
}

#[test]
fn failed_open_reports_setup_error_without_close() {
    let (p, a) = step(WatchPhase::Start, WatchEvent::OpenFailed(13));
    assert_eq!(p, WatchPhase::Done(WatchOutcome::SetupFailed(13)));
    // No channel was ever opened, so none is released.
    assert_eq!(a, WatchAction::Finish);
    assert_eq!(
        outcome_to_result(WatchOutcome::SetupFailed(13)),
        Err(NetError::ChannelSetupFailed(13))
    );
}

#[test]
fn failed_bind_reports_setup_error_and_closes() {
    let (p, _) = step(WatchPhase::Start, WatchEvent::OpenOk);
    let (p, a) = step(p, WatchEvent::BindFailed(1));
    assert_eq!(p, WatchPhase::Done(WatchOutcome::SetupFailed(1)));
    assert_eq!(a, WatchAction::CloseChannel);
}

#[test]
fn failed_arm_reports_io_error_and_closes() {
    let (p, _) = step(WatchPhase::Start, WatchEvent::OpenOk);
    let (p, _) = step(p, WatchEvent::BindOk);
    let (p, a) = step(p, WatchEvent::ArmFailed(22));
    assert_eq!(p, WatchPhase::Done(WatchOutcome::IoFailed(22)));
    assert_eq!(a, WatchAction::CloseChannel);
    assert_eq!(
        outcome_to_result(WatchOutcome::IoFailed(22)),
        Err(NetError::WatchIOFailed(22))
    );
}

#[test]
fn failed_receive_reports_io_error_and_closes() {
    let (p, _) = step(WatchPhase::Start, WatchEvent::OpenOk);
    let (p, _) = step(p, WatchEvent::BindOk);
    let (p, _) = step(p, WatchEvent::ArmOk);
    let (p, a) = step(p, WatchEvent::RecvFailed(4));
    assert_eq!(p, WatchPhase::Done(WatchOutcome::IoFailed(4)));
    assert_eq!(a, WatchAction::CloseChannel);
}

#[test]
fn finished_watch_accepts_no_further_event() {
    assert!(watch_step(WatchPhase::Done(WatchOutcome::Changed), WatchEvent::RecvOk).is_none());
    assert!(watch_step(WatchPhase::Done(WatchOutcome::TimedOut), WatchEvent::OpenOk).is_none());
}

#[test]
fn phases_refuse_foreign_events() {
    assert!(watch_step(WatchPhase::Start, WatchEvent::BindOk).is_none());
    assert!(watch_step(WatchPhase::Opened, WatchEvent::RecvOk).is_none());
    assert!(watch_step(WatchPhase::Bound, WatchEvent::OpenOk).is_none());
    assert!(watch_step(WatchPhase::Armed, WatchEvent::ArmOk).is_none());
}

#[test]
fn timeout_is_distinguished_from_other_errors() {
    assert!(!NetError::ChannelSetupFailed(11).is_timeout());
    assert!(!NetError::WatchIOFailed(11).is_timeout());
    assert!(!NetError::EnumerationFailed(11).is_timeout());
    assert!(NetError::WatchTimedOut.is_timeout());
}

#[test]
fn receive_buffer_has_datagram_headroom() {
    assert_eq!(RECV_BUFFER_LEN, 64 * 1024);
}

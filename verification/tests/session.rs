use firezone_client::ip_addr::IpAddr;
use firezone_client::session::{
    supervise, Command, DisconnectError, PanicPayload, Session, TaskOutcome,
};
use tokio::sync::mpsc::unbounded_channel;

#[test]
fn session_forwards_each_request_as_a_command() {
    let (tx, mut rx) = unbounded_channel::<Command<u32>>();
    let session = Session::new(tx);
    session.reconnect();
    session.set_dns(vec![IpAddr::V4([1, 1, 1, 1])]);
    session.set_tun(7);
    let copy = session.clone();
    copy.reconnect();
    session.disconnect();
    assert_eq!(rx.try_recv().unwrap(), Command::Reconnect);
    assert_eq!(rx.try_recv().unwrap(), Command::SetDns(vec![IpAddr::V4([1, 1, 1, 1])]));
    assert_eq!(rx.try_recv().unwrap(), Command::SetTun(7));
    assert_eq!(rx.try_recv().unwrap(), Command::Reconnect);
    assert_eq!(rx.try_recv().unwrap(), Command::Stop);
    assert!(rx.try_recv().is_err());
}

#[test]
fn session_requests_after_the_event_loop_is_gone_are_dropped() {
    let (tx, rx) = unbounded_channel::<Command<u32>>();
    drop(rx);
    let session = Session::new(tx);
    session.reconnect();
    session.set_dns(vec![]);
    session.set_tun(1);
    session.disconnect();
}

#[test]
fn graceful_exit_reports_nothing() {
    assert_eq!(supervise::<String>(TaskOutcome::Finished(Ok(()))), None);
}

#[test]
fn failure_is_reported_unchanged() {
    assert_eq!(
        supervise(TaskOutcome::Finished(Err("portal gone".to_string()))),
        Some(DisconnectError::Failed("portal gone".to_string()))
    );
}

#[test]
fn panics_are_reported_with_their_message() {
    assert_eq!(
        supervise::<String>(TaskOutcome::Panicked(PanicPayload::Message("boom".to_string()))),
        Some(DisconnectError::Panic("boom".to_string()))
    );
    assert_eq!(
        supervise::<String>(TaskOutcome::Panicked(PanicPayload::NonString)),
        Some(DisconnectError::PanicNonStringPayload)
    );
}

#[test]
fn cancellation_is_reported() {
    assert_eq!(supervise::<u8>(TaskOutcome::Cancelled), Some(DisconnectError::Cancelled));
}

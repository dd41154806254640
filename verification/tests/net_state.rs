use rust_mqtt::client::raw::{NetState, NetStateError, RawError};
use rust_mqtt::eio::ErrorKind;
use rust_mqtt::types::reason_code::ReasonCode;

#[test]
fn default_is_terminated() {
    let s: NetState<u32> = NetState::default();
    assert!(matches!(s, NetState::Terminated));
    assert!(!s.is_ok());
}

#[test]
fn replace_installs_a_healthy_transport() {
    let mut s: NetState<u32> = NetState::Terminated;
    s.replace(7);
    assert!(s.is_ok());
    assert!(matches!(s, NetState::Connected(7)));
}

#[test]
fn get_lends_the_transport_only_when_healthy() {
    let mut s: NetState<u32> = NetState::Connected(7);
    *s.get().unwrap() = 8;
    assert!(matches!(s, NetState::Connected(8)));

    let mut s: NetState<u32> = NetState::Faulted(7, ReasonCode::ProtocolError);
    assert_eq!(s.get(), Err(NetStateError::Faulted));
    assert!(matches!(
        s,
        NetState::Faulted(7, ReasonCode::ProtocolError)
    ));

    let mut s: NetState<u32> = NetState::Terminated;
    assert_eq!(s.get(), Err(NetStateError::Terminated));
    assert!(matches!(s, NetState::Terminated));
}

#[test]
fn fail_keeps_the_transport_under_the_new_reason() {
    let mut s: NetState<u32> = NetState::Connected(7);
    s.fail(ReasonCode::MalformedPacket);
    assert!(matches!(
        s,
        NetState::Faulted(7, ReasonCode::MalformedPacket)
    ));
    assert_eq!(s.get_reason_code(), Some(ReasonCode::MalformedPacket));

    s.fail(ReasonCode::ProtocolError);
    assert!(matches!(
        s,
        NetState::Faulted(7, ReasonCode::ProtocolError)
    ));
    assert_eq!(s.get_reason_code(), Some(ReasonCode::ProtocolError));
}

#[test]
fn fail_on_terminated_is_a_no_op() {
    let mut s: NetState<u32> = NetState::Terminated;
    s.fail(ReasonCode::MalformedPacket);
    assert!(matches!(s, NetState::Terminated));
    assert_eq!(s.get_reason_code(), None);
}

#[test]
fn terminate_hands_out_the_transport() {
    let mut s: NetState<u32> = NetState::Connected(7);
    assert_eq!(s.terminate(), Some(7));
    assert!(matches!(s, NetState::Terminated));

    let mut s: NetState<u32> = NetState::Faulted(9, ReasonCode::ProtocolError);
    assert_eq!(s.terminate(), Some(9));
    assert!(matches!(s, NetState::Terminated));
    assert_eq!(s.get_reason_code(), None);
}

#[test]
fn terminate_twice_is_safe() {
    let mut s: NetState<u32> = NetState::Connected(7);
    assert_eq!(s.terminate(), Some(7));
    assert_eq!(s.terminate(), None);
    assert!(matches!(s, NetState::Terminated));
    assert_eq!(s.terminate(), None);
    assert!(matches!(s, NetState::Terminated));
}

#[test]
fn close_with_reason_fails_and_without_terminates() {
    let mut s: NetState<u32> = NetState::Connected(7);
    s.close_with(Some(ReasonCode::ImplementationSpecificError));
    assert!(matches!(
        s,
        NetState::Faulted(7, ReasonCode::ImplementationSpecificError)
    ));
    s.close_with(None);
    assert!(matches!(s, NetState::Terminated));
    s.close_with(Some(ReasonCode::MalformedPacket));
    assert!(matches!(s, NetState::Terminated));
}

#[test]
fn settle_passes_success_and_applies_failure() {
    let mut s: NetState<u32> = NetState::Connected(7);
    assert_eq!(s.settle(Ok(5u8)), Ok(5u8));
    assert!(s.is_ok());

    let r: Result<u8, RawError> =
        s.settle(Err((RawError::Server, Some(ReasonCode::ProtocolError))));
    assert_eq!(r, Err(RawError::Server));
    assert!(matches!(
        s,
        NetState::Faulted(7, ReasonCode::ProtocolError)
    ));

    let r: Result<u8, RawError> =
        s.settle(Err((RawError::Network(ErrorKind::BrokenPipe), None)));
    assert_eq!(r, Err(RawError::Network(ErrorKind::BrokenPipe)));
    assert!(matches!(s, NetState::Terminated));
}

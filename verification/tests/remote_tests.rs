use fho::errors::FhoError;
use fho::remote::{
    daemon_open_step, device_connect_step, device_locator_step, device_resolve_start,
    map_daemon_error, DaemonError, DaemonProtocol, DeviceResolve, Protocol, CONNECT_TIMEOUT_SECS,
    LOCATOR_RETRY_LIMIT,
};

struct FakeSelectorMarker;

const GOOD_SELECTOR: &str = "core/thing:out:fuchsia.test.Proto";

#[test]
fn invalid_selector_fails_before_any_locator_request() {
    let phase = device_resolve_start("not a selector");
    match phase {
        DeviceResolve::Failed { error: FhoError::SelectorSyntax { selector } } => {
            assert_eq!(selector, "not a selector");
        },
        _ => panic!("an invalid selector must fail immediately, with no locator request"),
    }
}

#[test]
fn valid_selector_requests_a_locator_first() {
    let phase = device_resolve_start(GOOD_SELECTOR);
    assert!(matches!(phase, DeviceResolve::AwaitingLocator { attempt: 1 }));
}

#[test]
fn locator_retry_succeeds_on_second_attempt() {
    let phase = device_resolve_start(GOOD_SELECTOR);
    let phase = device_locator_step(phase, false);
    assert!(matches!(phase, DeviceResolve::AwaitingLocator { attempt: 2 }));
    let phase = device_locator_step(phase, true);
    assert!(matches!(phase, DeviceResolve::Connecting));
}

#[test]
fn locator_gives_up_after_the_second_failure() {
    let phase = device_resolve_start(GOOD_SELECTOR);
    let phase = device_locator_step(phase, false);
    let phase = device_locator_step(phase, false);
    assert!(matches!(phase, DeviceResolve::Failed { error: FhoError::LocatorUnavailable }));
}

#[test]
fn retry_and_timeout_constants() {
    assert_eq!(LOCATOR_RETRY_LIMIT, 1);
    assert_eq!(CONNECT_TIMEOUT_SECS, 15);
}

#[test]
fn connection_outcome_decides_the_resolution() {
    let ok = device_connect_step(DeviceResolve::Connecting, GOOD_SELECTOR, true);
    assert!(matches!(ok, DeviceResolve::Connected));
    let bad = device_connect_step(DeviceResolve::Connecting, GOOD_SELECTOR, false);
    match bad {
        DeviceResolve::Failed { error: FhoError::ConnectionFailed { selector } } => {
            assert_eq!(selector, GOOD_SELECTOR);
        },
        _ => panic!("a failed connection must propagate as a connection failure"),
    }
}

#[test]
fn daemon_not_found_message_names_the_protocol() {
    let e = map_daemon_error(&DaemonError::ProtocolNotFound, "fuchsia.test.Proto");
    match &e {
        FhoError::DaemonProtocolNotFound { protocol } => assert_eq!(protocol, "fuchsia.test.Proto"),
        _ => panic!("a not-found code must map to the not-found category"),
    }
    let msg = e.message();
    assert!(msg.contains("fuchsia.test.Proto"));
    assert!(msg.contains("did not match any protocols"));
}

#[test]
fn daemon_categories_are_distinguishable() {
    let not_found = map_daemon_error(&DaemonError::ProtocolNotFound, "fuchsia.test.Proto");
    let open_failed = map_daemon_error(&DaemonError::ProtocolOpenError, "fuchsia.test.Proto");
    let unexpected = map_daemon_error(&DaemonError::Other { code: 42 }, "fuchsia.test.Proto");
    assert!(matches!(not_found, FhoError::DaemonProtocolNotFound { .. }));
    assert!(matches!(open_failed, FhoError::DaemonProtocolOpenFailed { .. }));
    assert!(matches!(unexpected, FhoError::DaemonUnexpected { code: 42, .. }));
    let m1 = not_found.message();
    let m2 = open_failed.message();
    let m3 = unexpected.message();
    assert_ne!(m1, m2);
    assert_ne!(m1, m3);
    assert_ne!(m2, m3);
    assert!(m2.contains("fuchsia.test.Proto"));
    assert!(m2.contains("failed to open"));
    assert!(m3.contains("fuchsia.test.Proto"));
    assert!(m3.contains("42"));
}

#[test]
fn daemon_open_step_wraps_the_proxy_on_success() {
    let r = daemon_open_step(7u32, "fuchsia.test.Proto", Ok(()));
    assert_eq!(r.unwrap().into_inner(), 7u32);
}

#[test]
fn daemon_open_step_maps_the_error_on_failure() {
    let r = daemon_open_step(7u32, "fuchsia.test.Proto", Err(DaemonError::ProtocolOpenError));
    match r {
        Err(FhoError::DaemonProtocolOpenFailed { protocol }) => {
            assert_eq!(protocol, "fuchsia.test.Proto");
        },
        _ => panic!("a daemon error must be mapped, not swallowed"),
    }
}

#[test]
fn device_resolution_wraps_the_proxy_only_when_connected() {
    let r: Result<Protocol<u32, FakeSelectorMarker>, FhoError> =
        fho::remote::device_resolve_finish(5u32, DeviceResolve::Connected);
    assert_eq!(*r.unwrap().proxy(), 5);
    let failed = device_locator_step(
        device_locator_step(device_resolve_start(GOOD_SELECTOR), false),
        false,
    );
    let r2: Result<Protocol<u32, FakeSelectorMarker>, FhoError> =
        fho::remote::device_resolve_finish(5u32, failed);
    match r2 {
        Err(FhoError::LocatorUnavailable) => {},
        _ => panic!("a failed resolution must propagate its error"),
    }
}

#[test]
fn locator_unavailable_has_its_own_message() {
    let msg = FhoError::LocatorUnavailable.message();
    assert!(msg.contains("locator"));
    let msg2 = FhoError::NoDefaultTarget.message();
    assert_eq!(msg2, "No default target is set in the environment.");
}

#[test]
fn protocol_handles_expose_their_proxy() {
    let p: Protocol<u32, FakeSelectorMarker> = Protocol::new(5);
    assert_eq!(*p.proxy(), 5);
    let d = DaemonProtocol::new(9u64);
    assert_eq!(*d.proxy(), 9);
    assert_eq!(d.into_inner(), 9);
}

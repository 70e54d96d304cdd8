//! The remote capability resolver: typed handles to remote services,
//! either device-scoped (looked up by a symbolic component selector,
//! with bounded locator retry and a connection timeout) or daemon-scoped
//! (opened by protocol name, with daemon error codes mapped to fixed
//! diagnostic categories).
//!
//! Obtaining the locator and completing the connection are network
//! operations performed by the driver; the state machines here make
//! every decision between those operations, so the retry bound, the
//! strict selector check and the error mapping are all verified. A
//! locator request is made only in the `AwaitingLocator` phase, and a
//! connection is attempted only in the `Connecting` phase, so a selector
//! that fails validation causes failure before any connection work.

use vstd::prelude::*;

use crate::errors::FhoError;
use crate::selector::is_valid_selector;
use crate::selector::validate_selector;

verus! {

/// A tool declares which remote component a proxy field connects to by
/// implementing this: a compile-time-associated selector string.
pub trait FuchsiaComponentSelector {
    /// The selector as a mathematical value.
    spec fn spec_selector() -> Seq<char>;

    /// The selector string.
    fn selector() -> (s: String)
        ensures
            s@ == Self::spec_selector(),
    ;
}

/// A typed handle to a protocol on a device-hosted component. The proxy
/// is returned only once the remote side has acknowledged routing.
#[derive(Debug)]
pub struct Protocol<P: Clone, S> {
    proxy: P,
    _s: core::marker::PhantomData<S>,
}

impl<P: Clone, S> Protocol<P, S> {
    /// The proxy this handle wraps.
    pub closed spec fn spec_proxy(&self) -> P {
        self.proxy
    }

    /// Wraps an already-connected proxy.
    pub fn new(proxy: P) -> (r: Self)
        ensures
            r.spec_proxy() == proxy,
    {
        Self { proxy, _s: core::marker::PhantomData }
    }

    /// Read access to the wrapped proxy.
    pub fn proxy(&self) -> (r: &P)
        ensures
            *r == self.spec_proxy(),
    {
        &self.proxy
    }
}

/// A typed handle to a protocol hosted on the long-lived daemon.
#[derive(Debug, Clone)]
pub struct DaemonProtocol<P: Clone> {
    proxy: P,
}

impl<P: Clone> DaemonProtocol<P> {
    /// The proxy this handle wraps.
    pub closed spec fn spec_proxy(&self) -> P {
        self.proxy
    }

    /// Wraps an already-opened proxy.
    pub fn new(proxy: P) -> (r: Self)
        ensures
            r.spec_proxy() == proxy,
    {
        Self { proxy }
    }

    /// Unwraps the handle into the proxy.
    pub fn into_inner(self) -> (r: P)
        ensures
            r == self.spec_proxy(),
    {
        self.proxy
    }

    /// Read access to the wrapped proxy.
    pub fn proxy(&self) -> (r: &P)
        ensures
            *r == self.spec_proxy(),
    {
        &self.proxy
    }
}

/// How many extra locator attempts are made after the first fails: the
/// retry exists to smooth over a narrow race in locator availability.
pub const LOCATOR_RETRY_LIMIT: u64 = 1;

/// The bound on connection establishment, in seconds.
pub const CONNECT_TIMEOUT_SECS: u64 = 15;

/// The phases of one device-scoped resolution.
#[derive(Debug)]
pub enum DeviceResolve {
    /// The driver should request a remote-instance locator; `attempt`
    /// counts this request, starting at 1.
    AwaitingLocator { attempt: u64 },
    /// The driver should complete the connection, bounded by
    /// `CONNECT_TIMEOUT_SECS`.
    Connecting,
    /// The handle may be wrapped and returned.
    Connected,
    /// Resolution failed; no further outside work happens.
    Failed { error: FhoError },
}

/// Begins a device-scoped resolution: the selector is validated
/// strictly, and an invalid one fails immediately, before any locator
/// request or connection attempt.
pub fn device_resolve_start(selector: &str) -> (r: DeviceResolve)
    ensures
        is_valid_selector(selector@) ==> r == (DeviceResolve::AwaitingLocator { attempt: 1u64 }),
        !is_valid_selector(selector@) ==> (r matches DeviceResolve::Failed {
            error: FhoError::SelectorSyntax { selector: s },
        } && s@ == selector@),
{
    if validate_selector(selector) {
        DeviceResolve::AwaitingLocator { attempt: 1 }
    } else {
        DeviceResolve::Failed { error: FhoError::SelectorSyntax { selector: selector.to_owned() } }
    }
}

/// What the locator phase does with one locator outcome: a success moves
/// on to connecting; a failure is retried up to `LOCATOR_RETRY_LIMIT`
/// further attempts and then propagates.
pub open spec fn locator_step_spec(s: DeviceResolve, obtained: bool) -> DeviceResolve {
    match s {
        DeviceResolve::AwaitingLocator { attempt } => {
            if obtained {
                DeviceResolve::Connecting
            } else if attempt <= LOCATOR_RETRY_LIMIT {
                DeviceResolve::AwaitingLocator { attempt: (attempt + 1) as u64 }
            } else {
                DeviceResolve::Failed { error: FhoError::LocatorUnavailable }
            }
        },
        _ => s,
    }
}

/// Advances the locator phase by the outcome of one locator request.
pub fn device_locator_step(s: DeviceResolve, obtained: bool) -> (r: DeviceResolve)
    requires
        s matches DeviceResolve::AwaitingLocator { attempt } && 1 <= attempt <= LOCATOR_RETRY_LIMIT
            + 1,
    ensures
        r == locator_step_spec(s, obtained),
{
    match s {
        DeviceResolve::AwaitingLocator { attempt } => {
            if obtained {
                DeviceResolve::Connecting
            } else if attempt <= LOCATOR_RETRY_LIMIT {
                DeviceResolve::AwaitingLocator { attempt: attempt + 1 }
            } else {
                DeviceResolve::Failed { error: FhoError::LocatorUnavailable }
            }
        },
        _ => s,
    }
}

/// Advances the connecting phase by the outcome of the connection
/// attempt: a timeout or remote-side failure propagates without retry.
pub fn device_connect_step(s: DeviceResolve, selector: &str, connected: bool) -> (r: DeviceResolve)
    requires
        s is Connecting,
    ensures
        connected ==> r is Connected,
        !connected ==> (r matches DeviceResolve::Failed {
            error: FhoError::ConnectionFailed { selector: sel },
        } && sel@ == selector@),
{
    if connected {
        DeviceResolve::Connected
    } else {
        DeviceResolve::Failed {
            error: FhoError::ConnectionFailed { selector: selector.to_owned() },
        }
    }
}

/// Runs the locator phase over a sequence of request outcomes: the final
/// phase, and how many locator requests were consumed.
pub open spec fn run_locator(s: DeviceResolve, outcomes: Seq<bool>) -> (DeviceResolve, nat)
    decreases outcomes.len(),
{
    if outcomes.len() == 0 || !(s is AwaitingLocator) {
        (s, 0)
    } else {
        let next = locator_step_spec(s, outcomes[0]);
        let rest = run_locator(next, outcomes.skip(1));
        (rest.0, 1 + rest.1)
    }
}

/// LAW OF BOUNDED RETRY: starting a valid resolution, at most two
/// locator requests are ever made, whatever the outcomes; and when the
/// first request fails and the second succeeds, resolution proceeds to
/// the connection using that second locator, with no third request.
pub proof fn lemma_locator_retry(outcomes: Seq<bool>)
    ensures
        run_locator(DeviceResolve::AwaitingLocator { attempt: 1u64 }, outcomes).1 <= 2,
        outcomes.len() >= 2 && !outcomes[0] && outcomes[1] ==> run_locator(
            DeviceResolve::AwaitingLocator { attempt: 1u64 },
            outcomes,
        ) == (DeviceResolve::Connecting, 2nat),
        outcomes.len() >= 1 && outcomes[0] ==> run_locator(
            DeviceResolve::AwaitingLocator { attempt: 1u64 },
            outcomes,
        ) == (DeviceResolve::Connecting, 1nat),
        outcomes.len() >= 2 && !outcomes[0] && !outcomes[1] ==> run_locator(
            DeviceResolve::AwaitingLocator { attempt: 1u64 },
            outcomes,
        ) == ((DeviceResolve::Failed { error: FhoError::LocatorUnavailable }), 2nat),
{
    let s1 = DeviceResolve::AwaitingLocator { attempt: 1u64 };
    if outcomes.len() == 0 {
        assert(run_locator(s1, outcomes) == (s1, 0nat));
    } else {
        let o1 = outcomes.skip(1);
        let s2 = locator_step_spec(s1, outcomes[0]);
        assert(run_locator(s1, outcomes) == (
            run_locator(s2, o1).0,
            1 + run_locator(s2, o1).1,
        ));
        if outcomes[0] {
            assert(s2 is Connecting);
            assert(run_locator(s2, o1) == (s2, 0nat));
        } else {
            assert(s2 == (DeviceResolve::AwaitingLocator { attempt: 2u64 }));
            if o1.len() == 0 {
                assert(run_locator(s2, o1) == (s2, 0nat));
            } else {
                assert(o1[0] == outcomes[1]);
                let o2 = o1.skip(1);
                let s3 = locator_step_spec(s2, o1[0]);
                assert(run_locator(s2, o1) == (
                    run_locator(s3, o2).0,
                    1 + run_locator(s3, o2).1,
                ));
                assert(!(s3 is AwaitingLocator));
                assert(run_locator(s3, o2) == (s3, 0nat));
            }
        }
    }
}

/// LAW OF ORDERING: connection establishment is strictly ordered after
/// locator resolution — the connecting phase is reached only when some
/// locator request succeeded, so no handle is ever produced from a
/// resolution whose locator failed to resolve.
pub proof fn lemma_connection_after_locator(outcomes: Seq<bool>)
    ensures
        run_locator(DeviceResolve::AwaitingLocator { attempt: 1u64 }, outcomes).0 is Connecting
            ==> exists|i: int| 0 <= i < outcomes.len() && outcomes[i],
{
    let s1 = DeviceResolve::AwaitingLocator { attempt: 1u64 };
    if outcomes.len() > 0 {
        let o1 = outcomes.skip(1);
        let s2 = locator_step_spec(s1, outcomes[0]);
        assert(run_locator(s1, outcomes).0 == run_locator(s2, o1).0);
        if outcomes[0] {
            assert(exists|i: int| 0 <= i < outcomes.len() && outcomes[i]);
        } else {
            if o1.len() > 0 {
                let o2 = o1.skip(1);
                let s3 = locator_step_spec(s2, o1[0]);
                assert(run_locator(s2, o1).0 == run_locator(s3, o2).0);
                if o1[0] {
                    assert(outcomes[1]);
                    assert(exists|i: int| 0 <= i < outcomes.len() && outcomes[i]);
                } else {
                    assert(s3 matches DeviceResolve::Failed { .. });
                    assert(run_locator(s3, o2).0 == s3);
                }
            }
        }
    }
}

/// Finishes a device-scoped resolution: the handle is returned only once
/// the resolution reached `Connected`, that is, only once the remote
/// side acknowledged routing; a failed resolution propagates its error.
pub fn device_resolve_finish<P: Clone, S>(proxy: P, s: DeviceResolve) -> (r: Result<
    Protocol<P, S>,
    FhoError,
>)
    requires
        s is Connected || s is Failed,
    ensures
        s is Connected ==> (r matches Ok(h) && h.spec_proxy() == proxy),
        s matches DeviceResolve::Failed { error } ==> r == Err::<Protocol<P, S>, FhoError>(error),
{
    match s {
        DeviceResolve::Connected => Ok(Protocol::new(proxy)),
        DeviceResolve::Failed { error } => Err(error),
        _ => {
            proof {
                assert(false);
            }
            unreached()
        },
    }
}

/// The error codes the daemon can report when asked to open a protocol.
#[derive(Debug, Clone, PartialEq, Eq, Structural)]
pub enum DaemonError {
    /// No protocol of the requested name exists on the daemon.
    ProtocolNotFound,
    /// The protocol exists but its daemon-side start routine failed.
    ProtocolOpenError,
    /// Any other daemon-reported code.
    Other { code: u64 },
}

/// Maps a daemon-reported error code onto one of the three fixed
/// diagnostic categories, always preserving the requested protocol name.
pub fn map_daemon_error(e: &DaemonError, protocol: &str) -> (r: FhoError)
    ensures
        e is ProtocolNotFound ==> (r matches FhoError::DaemonProtocolNotFound { protocol: p } && p@
            == protocol@),
        e is ProtocolOpenError ==> (r matches FhoError::DaemonProtocolOpenFailed { protocol: p }
            && p@ == protocol@),
        e matches DaemonError::Other { code } ==> (r matches FhoError::DaemonUnexpected {
            protocol: p,
            code: c,
        } && p@ == protocol@ && c == code),
{
    match e {
        DaemonError::ProtocolNotFound => FhoError::DaemonProtocolNotFound {
            protocol: protocol.to_owned(),
        },
        DaemonError::ProtocolOpenError => FhoError::DaemonProtocolOpenFailed {
            protocol: protocol.to_owned(),
        },
        DaemonError::Other { code } => FhoError::DaemonUnexpected {
            protocol: protocol.to_owned(),
            code: *code,
        },
    }
}

/// Finishes a daemon-scoped protocol open: a daemon success yields the
/// handle; a daemon error is mapped to its diagnostic category.
pub fn daemon_open_step<P: Clone>(
    proxy: P,
    protocol: &str,
    outcome: Result<(), DaemonError>,
) -> (r: Result<DaemonProtocol<P>, FhoError>)
    ensures
        outcome is Ok ==> (r matches Ok(h) && h.spec_proxy() == proxy),
        outcome matches Err(e) ==> {
            &&& r is Err
            &&& e is ProtocolNotFound ==> (r matches Err(FhoError::DaemonProtocolNotFound {
                protocol: p,
            }) && p@ == protocol@)
            &&& e is ProtocolOpenError ==> (r matches Err(FhoError::DaemonProtocolOpenFailed {
                protocol: p,
            }) && p@ == protocol@)
            &&& e matches DaemonError::Other { code } ==> (r matches Err(FhoError::DaemonUnexpected {
                protocol: p,
                code: c,
            }) && p@ == protocol@ && c == code)
        },
{
    match outcome {
        Ok(_) => Ok(DaemonProtocol::new(proxy)),
        Err(e) => Err(map_daemon_error(&e, protocol)),
    }
}

/// LAW OF DISTINGUISHABLE DIAGNOSTICS: the three daemon error codes map
/// to three different error categories, so a "not found" failure can
/// never be mistaken for an open failure or any other failure.
pub proof fn lemma_daemon_categories_distinct(protocol: String, code: u64)
    ensures
        forall|p1: String, p2: String|
            (FhoError::DaemonProtocolNotFound { protocol: p1 })
                != (FhoError::DaemonProtocolOpenFailed { protocol: p2 }),
        forall|p1: String, p2: String, c: u64|
            (FhoError::DaemonProtocolNotFound { protocol: p1 }) != (FhoError::DaemonUnexpected {
                protocol: p2,
                code: c,
            }),
        forall|p1: String, p2: String, c: u64|
            (FhoError::DaemonProtocolOpenFailed { protocol: p1 }) != (FhoError::DaemonUnexpected {
                protocol: p2,
                code: c,
            }),
{
}

} // verus!

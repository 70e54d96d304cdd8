//! The resolution and precondition capabilities.
//!
//! A type is resolvable when it implements `TryFromEnv`: construct a
//! value of the type from the environment, or fail. Resolution composes
//! through the common single-value ownership and optionality wrappers:
//! a boxed or shared-owner field resolves by resolving the inner type
//! and wrapping; an `Option` field absorbs the inner failure; a `Result`
//! field never fails itself and carries the inner outcome as its value.
//!
//! A `CheckEnv` value is a precondition: consumed once before a tool is
//! handed to the caller; the built-in `AvailabilityFlag` gates execution
//! behind a named boolean configuration flag.

use vstd::prelude::*;

use crate::env::{flag_lookup, FhoEnvironment};
use crate::errors::FhoError;

verus! {

/// Construct a value of the implementing type from the environment.
///
/// The three spec functions are the type's resolution model: whether the
/// environment can produce a value, which value, and which error
/// otherwise; `try_from_env` must behave exactly as they say.
pub trait TryFromEnv: Sized {
    /// Whether resolution succeeds in this environment.
    spec fn resolvable(env: &FhoEnvironment) -> bool;

    /// Which values resolution may produce when it succeeds.
    spec fn resolves_to(env: &FhoEnvironment, v: Self) -> bool;

    /// The error resolution reports when it fails.
    spec fn from_env_err(env: &FhoEnvironment) -> FhoError;

    /// Constructs the value from the environment.
    fn try_from_env(env: &FhoEnvironment) -> (r: Result<Self, FhoError>)
        ensures
            r is Ok <==> Self::resolvable(env),
            r matches Ok(v) ==> Self::resolves_to(env, v),
            r matches Err(e) ==> e == Self::from_env_err(env),
    ;
}

/// A precondition on the environment, consumed by its check.
pub trait CheckEnv: Sized {
    /// Whether the check approves construction in this environment.
    spec fn check_ok(&self, env: &FhoEnvironment) -> bool;

    /// The error the check reports when it rejects.
    spec fn check_err(&self, env: &FhoEnvironment) -> FhoError;

    /// Runs the check, consuming it.
    fn check_env(self, env: &FhoEnvironment) -> (r: Result<(), FhoError>)
        ensures
            r is Ok <==> self.check_ok(env),
            r matches Err(e) ==> e == self.check_err(env),
    ;
}

impl<T: TryFromEnv> TryFromEnv for Box<T> {
    open spec fn resolvable(env: &FhoEnvironment) -> bool {
        T::resolvable(env)
    }

    open spec fn resolves_to(env: &FhoEnvironment, v: Box<T>) -> bool {
        T::resolves_to(env, *v)
    }

    open spec fn from_env_err(env: &FhoEnvironment) -> FhoError {
        T::from_env_err(env)
    }

    /// A single-owner wrapper resolves by resolving the inner type, then
    /// wrapping.
    fn try_from_env(env: &FhoEnvironment) -> (r: Result<Box<T>, FhoError>) {
        match T::try_from_env(env) {
            Ok(v) => Ok(Box::new(v)),
            Err(e) => Err(e),
        }
    }
}

impl<T: TryFromEnv> TryFromEnv for std::rc::Rc<T> {
    open spec fn resolvable(env: &FhoEnvironment) -> bool {
        T::resolvable(env)
    }

    open spec fn resolves_to(env: &FhoEnvironment, v: std::rc::Rc<T>) -> bool {
        T::resolves_to(env, *v)
    }

    open spec fn from_env_err(env: &FhoEnvironment) -> FhoError {
        T::from_env_err(env)
    }

    /// A shared-owner wrapper resolves the same way as a single-owner one.
    fn try_from_env(env: &FhoEnvironment) -> (r: Result<std::rc::Rc<T>, FhoError>) {
        match T::try_from_env(env) {
            Ok(v) => Ok(std::rc::Rc::new(v)),
            Err(e) => Err(e),
        }
    }
}

impl<T: TryFromEnv> TryFromEnv for std::sync::Arc<T> {
    open spec fn resolvable(env: &FhoEnvironment) -> bool {
        T::resolvable(env)
    }

    open spec fn resolves_to(env: &FhoEnvironment, v: std::sync::Arc<T>) -> bool {
        T::resolves_to(env, *v)
    }

    open spec fn from_env_err(env: &FhoEnvironment) -> FhoError {
        T::from_env_err(env)
    }

    /// The multi-threaded shared-owner wrapper resolves the same way.
    fn try_from_env(env: &FhoEnvironment) -> (r: Result<std::sync::Arc<T>, FhoError>) {
        match T::try_from_env(env) {
            Ok(v) => Ok(std::sync::Arc::new(v)),
            Err(e) => Err(e),
        }
    }
}

impl<T: TryFromEnv> TryFromEnv for Option<T> {
    /// An optional field is always resolvable.
    open spec fn resolvable(env: &FhoEnvironment) -> bool {
        true
    }

    open spec fn resolves_to(env: &FhoEnvironment, v: Option<T>) -> bool {
        if T::resolvable(env) {
            v matches Some(x) && T::resolves_to(env, x)
        } else {
            v is None
        }
    }

    open spec fn from_env_err(env: &FhoEnvironment) -> FhoError {
        T::from_env_err(env)
    }

    /// An `Option` field absorbs the inner failure: the inner error is
    /// discarded, never propagated into construction failure.
    fn try_from_env(env: &FhoEnvironment) -> (r: Result<Option<T>, FhoError>) {
        match T::try_from_env(env) {
            Ok(v) => Ok(Some(v)),
            Err(_) => Ok(None),
        }
    }
}

impl<T: TryFromEnv> TryFromEnv for Result<T, FhoError> {
    /// A `Result` field is always resolvable.
    open spec fn resolvable(env: &FhoEnvironment) -> bool {
        true
    }

    open spec fn resolves_to(env: &FhoEnvironment, v: Result<T, FhoError>) -> bool {
        if T::resolvable(env) {
            v matches Ok(x) && T::resolves_to(env, x)
        } else {
            v matches Err(e) && e == T::from_env_err(env)
        }
    }

    open spec fn from_env_err(env: &FhoEnvironment) -> FhoError {
        T::from_env_err(env)
    }

    /// A `Result` field never fails itself: it carries the inner success
    /// or failure as its value, deferring error handling to the tool.
    fn try_from_env(env: &FhoEnvironment) -> (r: Result<Result<T, FhoError>, FhoError>) {
        Ok(T::try_from_env(env))
    }
}

/// LAW: resolution of an `Option`-typed field can never cause overall
/// construction failure, whatever the inner type's resolution does; a
/// `Result`-typed field likewise always resolves, carrying the inner
/// outcome as its value.
pub proof fn lemma_wrapped_resolution_never_fails<T: TryFromEnv>(
    env: &FhoEnvironment,
    o: Option<T>,
    q: Result<T, FhoError>,
)
    ensures
        <Option<T> as TryFromEnv>::resolvable(env),
        <Result<T, FhoError> as TryFromEnv>::resolvable(env),
        <Option<T> as TryFromEnv>::resolves_to(env, o) && !T::resolvable(env) ==> o is None,
        <Option<T> as TryFromEnv>::resolves_to(env, o) && T::resolvable(env) ==> (
        o matches Some(x) && T::resolves_to(env, x)),
        <Result<T, FhoError> as TryFromEnv>::resolves_to(env, q) && !T::resolvable(env) ==> (
        q matches Err(e) && e == T::from_env_err(env)),
        <Result<T, FhoError> as TryFromEnv>::resolves_to(env, q) && T::resolvable(env) ==> (
        q matches Ok(x) && T::resolves_to(env, x)),
{
}

/// The invoking process's build-version fingerprint: resolvable from
/// every environment.
#[derive(Debug)]
pub struct BuildVersion(pub String);

impl TryFromEnv for BuildVersion {
    open spec fn resolvable(env: &FhoEnvironment) -> bool {
        true
    }

    open spec fn resolves_to(env: &FhoEnvironment, v: BuildVersion) -> bool {
        v.0@ == env.context.build_version@
    }

    /// Resolution never fails, so no particular error is promised.
    open spec fn from_env_err(env: &FhoEnvironment) -> FhoError {
        arbitrary()
    }

    fn try_from_env(env: &FhoEnvironment) -> (r: Result<BuildVersion, FhoError>) {
        Ok(BuildVersion(env.context.build_version.clone()))
    }
}

/// The default target's name: resolvable only when the environment sets
/// one, so an `Option<TargetName>` or `Result<TargetName, _>` field lets
/// a tool run without a target.
#[derive(Debug)]
pub struct TargetName(pub String);

impl TryFromEnv for TargetName {
    open spec fn resolvable(env: &FhoEnvironment) -> bool {
        env.context.default_target is Some
    }

    open spec fn resolves_to(env: &FhoEnvironment, v: TargetName) -> bool {
        env.context.default_target matches Some(t) && v.0@ == t@
    }

    open spec fn from_env_err(env: &FhoEnvironment) -> FhoError {
        FhoError::NoDefaultTarget
    }

    fn try_from_env(env: &FhoEnvironment) -> (r: Result<TargetName, FhoError>) {
        match &env.context.default_target {
            Some(t) => Ok(TargetName(t.clone())),
            None => Err(FhoError::NoDefaultTarget),
        }
    }
}

/// Gates execution of a command behind a boolean configuration flag:
/// approves construction only when the flag is set to `true`, and
/// otherwise fails with a message naming the flag the user must set.
#[derive(Debug)]
pub struct AvailabilityFlag(pub String);

impl CheckEnv for AvailabilityFlag {
    /// Unset or unreadable flags count as `false`.
    open spec fn check_ok(&self, env: &FhoEnvironment) -> bool {
        flag_lookup(env.context.flags@, self.0@) == Some(true)
    }

    open spec fn check_err(&self, env: &FhoEnvironment) -> FhoError {
        FhoError::FlagDisabled { flag: self.0 }
    }

    fn check_env(self, env: &FhoEnvironment) -> (r: Result<(), FhoError>) {
        let enabled = match env.context.get_flag(self.0.as_str()) {
            Some(b) => b,
            None => false,
        };
        if enabled {
            Ok(())
        } else {
            Err(FhoError::FlagDisabled { flag: self.0 })
        }
    }
}

} // verus!

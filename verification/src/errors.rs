//! The error taxonomy of the framework, with exact, user-facing
//! diagnostic messages.
//!
//! Each variant records the data its diagnostic needs (the selector that
//! failed to parse, the protocol that could not be opened, the flag the
//! user must set), and `message` renders the diagnostic; its contract
//! pins the full text, so callers can prove the message names the thing
//! the user must act on.

use vstd::prelude::*;

use crate::strutil::{append_str, contains_seq, dec_digits, format_u64, lemma_concat_contains};

verus! {

/// A failure anywhere in tool dispatch, construction or remote resolution.
#[derive(Debug, Clone)]
pub enum FhoError {
    /// The command line did not parse; carries the usage text to show.
    Usage { usage: String },
    /// A component selector string does not satisfy the selector grammar.
    SelectorSyntax { selector: String },
    /// The remote-instance locator could not be obtained, even after retry.
    LocatorUnavailable,
    /// Connecting to a device-hosted protocol failed or timed out.
    ConnectionFailed { selector: String },
    /// The daemon reported that no protocol of this name exists.
    DaemonProtocolNotFound { protocol: String },
    /// The daemon found the protocol but its start routine failed.
    DaemonProtocolOpenFailed { protocol: String },
    /// The daemon reported an error code this framework does not know.
    DaemonUnexpected { protocol: String, code: u64 },
    /// A gating configuration flag is unset or false.
    FlagDisabled { flag: String },
    /// A field needs a default target and the environment sets none.
    NoDefaultTarget,
}

pub open spec fn usage_prefix() -> Seq<char> {
    "Usage error:\n"@
}

pub open spec fn selector_syntax_prefix() -> Seq<char> {
    "Invalid component selector '"@
}

pub open spec fn selector_syntax_suffix() -> Seq<char> {
    "': the selector does not satisfy the selector grammar."@
}

pub open spec fn locator_unavailable_text() -> Seq<char> {
    "Could not obtain a remote-instance locator from the environment after retrying."@
}

pub open spec fn connection_failed_prefix() -> Seq<char> {
    "Connecting to the component selected by '"@
}

pub open spec fn connection_failed_suffix() -> Seq<char> {
    "' failed or timed out."@
}

pub open spec fn not_found_prefix() -> Seq<char> {
    "The daemon protocol '"@
}

pub open spec fn not_found_suffix() -> Seq<char> {
    "' did not match any protocols on the daemon.\nIf you are not developing this plugin or the protocol it connects to, then this is a bug.\nPlease report it."@
}

pub open spec fn open_failed_prefix() -> Seq<char> {
    "The daemon protocol '"@
}

pub open spec fn open_failed_suffix() -> Seq<char> {
    "' failed to open on the daemon.\nIf you are developing the protocol, there may be an internal failure when invoking the start function; see the daemon log for details.\nIf you are NOT developing this plugin or the protocol it connects to, then this is a bug.\nPlease report it."@
}

pub open spec fn unexpected_prefix() -> Seq<char> {
    "While attempting to open the daemon protocol '"@
}

pub open spec fn unexpected_middle() -> Seq<char> {
    "', received an unexpected error code "@
}

pub open spec fn unexpected_suffix() -> Seq<char> {
    ".\nThis is not intended behavior and is a bug.\nPlease report it."@
}

pub open spec fn flag_disabled_prefix() -> Seq<char> {
    "This is an experimental subcommand.  To enable this subcommand run 'ffx config set "@
}

pub open spec fn flag_disabled_suffix() -> Seq<char> {
    " true'"@
}

pub open spec fn no_default_target_text() -> Seq<char> {
    "No default target is set in the environment."@
}

/// The full diagnostic text of an error.
pub open spec fn message_spec(e: FhoError) -> Seq<char> {
    match e {
        FhoError::Usage { usage } => usage_prefix() + usage@,
        FhoError::SelectorSyntax { selector } => selector_syntax_prefix() + selector@
            + selector_syntax_suffix(),
        FhoError::LocatorUnavailable => locator_unavailable_text(),
        FhoError::ConnectionFailed { selector } => connection_failed_prefix() + selector@
            + connection_failed_suffix(),
        FhoError::DaemonProtocolNotFound { protocol } => not_found_prefix() + protocol@
            + not_found_suffix(),
        FhoError::DaemonProtocolOpenFailed { protocol } => open_failed_prefix() + protocol@
            + open_failed_suffix(),
        FhoError::DaemonUnexpected { protocol, code } => unexpected_prefix() + protocol@
            + unexpected_middle() + dec_digits(code as int) + unexpected_suffix(),
        FhoError::FlagDisabled { flag } => flag_disabled_prefix() + flag@
            + flag_disabled_suffix(),
        FhoError::NoDefaultTarget => no_default_target_text(),
    }
}

impl FhoError {
    /// Renders the diagnostic message for this error.
    pub fn message(&self) -> (m: String)
        ensures
            m@ == message_spec(*self),
    {
        match self {
            FhoError::Usage { usage } => {
                let mut m = String::new();
                append_str(&mut m, "Usage error:\n");
                append_str(&mut m, usage.as_str());
                proof {
                    assert(m@ =~= message_spec(*self));
                }
                m
            },
            FhoError::SelectorSyntax { selector } => {
                let mut m = String::new();
                append_str(&mut m, "Invalid component selector '");
                append_str(&mut m, selector.as_str());
                append_str(&mut m, "': the selector does not satisfy the selector grammar.");
                proof {
                    assert(m@ =~= message_spec(*self));
                }
                m
            },
            FhoError::LocatorUnavailable => {
                let mut m = String::new();
                append_str(
                    &mut m,
                    "Could not obtain a remote-instance locator from the environment after retrying.",
                );
                proof {
                    assert(m@ =~= message_spec(*self));
                }
                m
            },
            FhoError::ConnectionFailed { selector } => {
                let mut m = String::new();
                append_str(&mut m, "Connecting to the component selected by '");
                append_str(&mut m, selector.as_str());
                append_str(&mut m, "' failed or timed out.");
                proof {
                    assert(m@ =~= message_spec(*self));
                }
                m
            },
            FhoError::DaemonProtocolNotFound { protocol } => {
                let mut m = String::new();
                append_str(&mut m, "The daemon protocol '");
                append_str(&mut m, protocol.as_str());
                append_str(
                    &mut m,
                    "' did not match any protocols on the daemon.\nIf you are not developing this plugin or the protocol it connects to, then this is a bug.\nPlease report it.",
                );
                proof {
                    assert(m@ =~= message_spec(*self));
                }
                m
            },
            FhoError::DaemonProtocolOpenFailed { protocol } => {
                let mut m = String::new();
                append_str(&mut m, "The daemon protocol '");
                append_str(&mut m, protocol.as_str());
                append_str(
                    &mut m,
                    "' failed to open on the daemon.\nIf you are developing the protocol, there may be an internal failure when invoking the start function; see the daemon log for details.\nIf you are NOT developing this plugin or the protocol it connects to, then this is a bug.\nPlease report it.",
                );
                proof {
                    assert(m@ =~= message_spec(*self));
                }
                m
            },
            FhoError::DaemonUnexpected { protocol, code } => {
                let mut m = String::new();
                append_str(&mut m, "While attempting to open the daemon protocol '");
                append_str(&mut m, protocol.as_str());
                append_str(&mut m, "', received an unexpected error code ");
                let digits = format_u64(*code);
                append_str(&mut m, digits.as_str());
                append_str(
                    &mut m,
                    ".\nThis is not intended behavior and is a bug.\nPlease report it.",
                );
                proof {
                    assert(m@ =~= message_spec(*self));
                }
                m
            },
            FhoError::FlagDisabled { flag } => {
                let mut m = String::new();
                append_str(
                    &mut m,
                    "This is an experimental subcommand.  To enable this subcommand run 'ffx config set ",
                );
                append_str(&mut m, flag.as_str());
                append_str(&mut m, " true'");
                proof {
                    assert(m@ =~= message_spec(*self));
                }
                m
            },
            FhoError::NoDefaultTarget => {
                let mut m = String::new();
                append_str(&mut m, "No default target is set in the environment.");
                proof {
                    assert(m@ =~= message_spec(*self));
                }
                m
            },
        }
    }
}

/// Every daemon-scoped diagnostic names the protocol whose resolution
/// failed, so the message is actionable whatever the error code was.
pub proof fn lemma_daemon_message_names_protocol(e: FhoError)
    requires
        e matches FhoError::DaemonProtocolNotFound { .. } || e matches FhoError::DaemonProtocolOpenFailed {
            ..
        } || e matches FhoError::DaemonUnexpected { .. },
    ensures
        e matches FhoError::DaemonProtocolNotFound { protocol } ==> contains_seq(
            message_spec(e),
            protocol@,
        ),
        e matches FhoError::DaemonProtocolOpenFailed { protocol } ==> contains_seq(
            message_spec(e),
            protocol@,
        ),
        e matches FhoError::DaemonUnexpected { protocol, .. } ==> contains_seq(
            message_spec(e),
            protocol@,
        ),
{
    match e {
        FhoError::DaemonProtocolNotFound { protocol } => {
            assert(message_spec(e) =~= not_found_prefix() + protocol@ + not_found_suffix());
            lemma_concat_contains(not_found_prefix(), protocol@, not_found_suffix());
        },
        FhoError::DaemonProtocolOpenFailed { protocol } => {
            assert(message_spec(e) =~= open_failed_prefix() + protocol@ + open_failed_suffix());
            lemma_concat_contains(open_failed_prefix(), protocol@, open_failed_suffix());
        },
        FhoError::DaemonUnexpected { protocol, code } => {
            assert(message_spec(e) =~= unexpected_prefix() + protocol@ + (unexpected_middle()
                + dec_digits(code as int) + unexpected_suffix()));
            lemma_concat_contains(
                unexpected_prefix(),
                protocol@,
                unexpected_middle() + dec_digits(code as int) + unexpected_suffix(),
            );
        },
        _ => {},
    }
}

/// The flag-gating diagnostic names the flag the user must set.
pub proof fn lemma_flag_message_names_flag(flag: String)
    ensures
        contains_seq(message_spec(FhoError::FlagDisabled { flag }), flag@),
{
    assert(message_spec(FhoError::FlagDisabled { flag }) =~= flag_disabled_prefix() + flag@
        + flag_disabled_suffix());
    lemma_concat_contains(flag_disabled_prefix(), flag@, flag_disabled_suffix());
}

} // verus!

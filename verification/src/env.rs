//! The request-scoped environment a tool is constructed from: the
//! invoking command-line identity and the resolved configuration
//! context.
//!
//! The environment is immutable for the duration of one invocation. The
//! remote factories (daemon, device target, locator) are stateful
//! collaborators outside this model; the resolver state machines in
//! `remote` consume their outcomes as events.

use vstd::prelude::*;

use crate::strutil::str_eq;

verus! {

/// One boolean configuration flag.
#[derive(Debug, Clone)]
pub struct ConfigEntry {
    pub key: String,
    pub value: bool,
}

/// The resolved configuration context: flag store, cache path, default
/// target and the invoking process's build-version fingerprint.
#[derive(Debug, Clone)]
pub struct EnvironmentContext {
    pub flags: Vec<ConfigEntry>,
    pub cache_path: String,
    pub build_version: String,
    pub default_target: Option<String>,
}

/// The invoking command-line identity.
#[derive(Debug, Clone)]
pub struct Ffx {
    pub command_path: Vec<String>,
}

/// The read-only per-invocation aggregate handed to field resolution and
/// precondition checks.
#[derive(Debug, Clone)]
pub struct FhoEnvironment {
    pub ffx: Ffx,
    pub context: EnvironmentContext,
}

/// The value of the first entry with this key, if any.
pub open spec fn flag_lookup(flags: Seq<ConfigEntry>, key: Seq<char>) -> Option<bool>
    decreases flags.len(),
{
    if flags.len() == 0 {
        None
    } else if flags[0].key@ == key {
        Some(flags[0].value)
    } else {
        flag_lookup(flags.skip(1), key)
    }
}

impl EnvironmentContext {
    /// Reads a boolean flag from the configuration context.
    pub fn get_flag(&self, key: &str) -> (r: Option<bool>)
        ensures
            r == flag_lookup(self.flags@, key@),
    {
        proof {
            assert(self.flags@.skip(0) =~= self.flags@);
        }
        let mut i: usize = 0;
        while i < self.flags.len()
            invariant
                i <= self.flags@.len(),
                flag_lookup(self.flags@, key@) == flag_lookup(self.flags@.skip(i as int), key@),
            decreases self.flags@.len() - i,
        {
            proof {
                assert(self.flags@.skip(i as int)[0] == self.flags@[i as int]);
                assert(self.flags@.skip(i as int).skip(1) =~= self.flags@.skip(i as int + 1));
            }
            if str_eq(self.flags[i].key.as_str(), key) {
                return Some(self.flags[i].value);
            }
            i = i + 1;
        }
        proof {
            assert(self.flags@.skip(i as int).len() == 0);
        }
        None
    }
}

} // verus!

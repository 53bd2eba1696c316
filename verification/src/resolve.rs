//! Credential and configuration resolution: everything one invocation
//! needs is assembled once, before its task is submitted, so that the
//! worker runs against a single consistent context.

use vstd::prelude::*;

use crate::selector::Backend;
use crate::selector::TargetSelector;

verus! {

/// A resolved credential: username and secret, as plain text.
#[derive(Debug)]
pub struct Credential {
    pub username: String,
    pub password: String,
}

/// One key/value pair of the loaded configuration.
#[derive(Debug)]
pub struct ConfigEntry {
    pub key: String,
    pub value: String,
}

/// The loaded configuration: an opaque key/value bundle. The library never
/// reads files; a collaborator loads the bundle and hands it over.
#[derive(Debug)]
pub struct Config {
    pub entries: Vec<ConfigEntry>,
}

/// The value of the first entry whose key is `key`, if any.
pub open spec fn lookup_spec(entries: Seq<ConfigEntry>, key: Seq<char>) -> Option<Seq<char>>
    decreases entries.len(),
{
    if entries.len() == 0 {
        None
    } else if entries[0].key@ == key {
        Some(entries[0].value@)
    } else {
        lookup_spec(entries.drop_first(), key)
    }
}

impl Config {
    /// Looks `key` up; the first matching entry wins.
    pub fn get(&self, key: &str) -> (r: Option<&String>)
        ensures
            r is Some <==> lookup_spec(self.entries@, key@) is Some,
            r matches Some(v) ==> Some(v@) == lookup_spec(self.entries@, key@),
    {
        let n = self.entries.len();
        let mut idx: usize = 0;
        proof {
            assert(self.entries@.subrange(0, n as int) =~= self.entries@);
        }
        while idx < n
            invariant
                0 <= idx <= n == self.entries@.len(),
                lookup_spec(self.entries@, key@) == lookup_spec(
                    self.entries@.subrange(idx as int, n as int),
                    key@,
                ),
            decreases n - idx,
        {
            proof {
                assert(self.entries@.subrange(idx as int, n as int).drop_first()
                    =~= self.entries@.subrange(idx + 1, n as int));
            }
            if crate::text::str_eq(self.entries[idx].key.as_str(), key) {
                return Some(&self.entries[idx].value);
            }
            idx = idx + 1;
        }
        None
    }
}

/// The caller's current settings: what has been loaded or typed so far.
#[derive(Debug)]
pub struct Settings {
    pub config: Option<Config>,
    pub directory_credential: Option<Credential>,
    pub cluster_credential: Option<Credential>,
}

/// Why a context could not be assembled.
#[derive(Clone, Copy, Debug, PartialEq, Eq, Structural)]
pub enum ResolutionError {
    /// No configuration has been loaded yet.
    ConfigMissing,
    /// The named backend is selected but its credential is not available.
    CredentialMissing(Backend),
}

/// The immutable bundle one invocation runs against. It is produced once
/// per invocation, moved into the worker, and never mutated.
#[derive(Debug)]
pub struct ResolvedContext {
    pub config: Config,
    pub directory_credential: Option<Credential>,
    pub cluster_credential: Option<Credential>,
}

impl ResolvedContext {
    /// The context carries a credential for every selected backend that
    /// unconditionally needs one.
    pub open spec fn covers(&self, selector: TargetSelector) -> bool {
        selector.directory ==> self.directory_credential is Some
    }
}

/// The error `resolve` reports, if any: no configuration first, then a
/// missing SSH credential, then a missing directory credential. The SSH
/// check comes before the directory check, so a missing SSH credential is
/// reported whatever the directory credential's state.
pub open spec fn resolve_err(
    settings: Settings,
    selector: TargetSelector,
    require_ssh: bool,
) -> Option<ResolutionError> {
    if settings.config is None {
        Some(ResolutionError::ConfigMissing)
    } else if require_ssh && selector.cluster && settings.cluster_credential is None {
        Some(ResolutionError::CredentialMissing(Backend::Cluster))
    } else if selector.directory && settings.directory_credential is None {
        Some(ResolutionError::CredentialMissing(Backend::Directory))
    } else {
        None
    }
}

/// Assembles the context for one invocation, or reports what is missing.
///
/// The settings are captured by value: the invocation runs against this
/// snapshot even if the caller's live settings change while the task runs.
pub fn resolve(
    settings: Settings,
    selector: &TargetSelector,
    require_ssh: bool,
) -> (r: Result<ResolvedContext, ResolutionError>)
    requires
        selector.wf(),
    ensures
        r is Err <==> resolve_err(settings, *selector, require_ssh) is Some,
        r matches Err(e) ==> Some(e) == resolve_err(settings, *selector, require_ssh),
        r matches Ok(ctx) ==> {
            &&& Some(ctx.config) == settings.config
            &&& ctx.directory_credential == settings.directory_credential
            &&& ctx.cluster_credential == settings.cluster_credential
            &&& ctx.covers(*selector)
        },
{
    match settings.config {
        None => Err(ResolutionError::ConfigMissing),
        Some(config) => {
            if require_ssh && selector.cluster && settings.cluster_credential.is_none() {
                Err(ResolutionError::CredentialMissing(Backend::Cluster))
            } else if selector.directory && settings.directory_credential.is_none() {
                Err(ResolutionError::CredentialMissing(Backend::Directory))
            } else {
                Ok(
                    ResolvedContext {
                        config,
                        directory_credential: settings.directory_credential,
                        cluster_credential: settings.cluster_credential,
                    },
                )
            }
        },
    }
}

/// Law: with the cluster selected and SSH required, a missing SSH
/// credential is reported as `CredentialMissing(Cluster)`, regardless of
/// the directory credential's presence.
pub proof fn lemma_cluster_credential_required(settings: Settings, selector: TargetSelector)
    requires
        selector.cluster,
        settings.config is Some,
        settings.cluster_credential is None,
    ensures
        resolve_err(settings, selector, true) == Some(
            ResolutionError::CredentialMissing(Backend::Cluster),
        ),
{
}

/// Prefers a value the caller has already typed over the configured
/// default, owning whichever is chosen.
pub fn field_conf_or_state(from_window: Option<&str>, from_conf: Option<&str>) -> (r: Option<
    String,
>)
    ensures
        r is Some <==> (from_window is Some || from_conf is Some),
        from_window matches Some(w) ==> r matches Some(s) && s@ == w@,
        from_window is None ==> (from_conf matches Some(c) ==> r matches Some(s) && s@ == c@),
{
    match from_window {
        Some(w) => Some(String::from_str(w)),
        None => match from_conf {
            Some(c) => Some(String::from_str(c)),
            None => None,
        },
    }
}

} // verus!

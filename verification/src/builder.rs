//! Configuration of the engine.

use crate::duration::Duration;
use crate::engine::{Engine, EngineView};
use crate::retry::{PolicyView, RetryPolicy};
use crate::run;
use vstd::prelude::*;

verus! {

/// Builder for configuring and constructing an [`Engine`].
///
/// Uses a typestate pattern: [`build`](EngineBuilder::build) is only available
/// after a store has been given.
#[derive(Debug)]
pub struct EngineBuilder<S> {
    store: S,
    default_retry: Option<RetryPolicy>,
    resume_on_start: bool,
    shutdown_timeout: Option<Duration>,
    retention: Option<Duration>,
}

/// Typestate: no store configured yet.
#[derive(Debug)]
pub struct NoStore;

/// Typestate: a store has been configured, with the given handle.
#[derive(Debug)]
pub struct HasStore<D>(pub D);

/// What an [`EngineBuilder`] says.
pub struct ConfigView<S> {
    pub store: S,
    pub default_retry: Option<PolicyView>,
    pub resume_on_start: bool,
    pub shutdown_timeout: Option<nat>,
    pub retention: Option<nat>,
}

/// What an optional policy says.
pub open spec fn opt_policy(p: Option<RetryPolicy>) -> Option<PolicyView> {
    match p {
        Some(p) => Some(p@),
        None => None,
    }
}

impl<S> View for EngineBuilder<S> {
    type V = ConfigView<S>;

    closed spec fn view(&self) -> ConfigView<S> {
        ConfigView {
            store: self.store,
            default_retry: opt_policy(self.default_retry),
            resume_on_start: self.resume_on_start,
            shutdown_timeout: run::opt_span(self.shutdown_timeout),
            retention: run::opt_span(self.retention),
        }
    }
}

/// The shutdown timeout that is used where none is configured, in seconds.
pub const DEFAULT_SHUTDOWN_TIMEOUT_SECS: u64 = 30;

/// The shutdown timeout in effect, in nanoseconds: the configured one, then
/// the one from the environment, in seconds, then the default.
pub open spec fn shutdown_timeout(configured: Option<nat>, env_secs: Option<u64>) -> nat {
    match configured {
        Some(d) => d,
        None => match env_secs {
            Some(secs) => (secs * 1_000_000_000) as nat,
            None => (DEFAULT_SHUTDOWN_TIMEOUT_SECS * 1_000_000_000) as nat,
        },
    }
}

impl EngineBuilder<NoStore> {
    /// The default configuration: no retry, resumption on start, no retention,
    /// and no store.
    #[must_use]
    pub fn new() -> (b: Self)
        ensures
            b@ == (ConfigView {
                store: NoStore,
                default_retry: None,
                resume_on_start: true,
                shutdown_timeout: None,
                retention: None,
            }),
    {
        EngineBuilder {
            store: NoStore,
            default_retry: None,
            resume_on_start: true,
            shutdown_timeout: None,
            retention: None,
        }
    }

    /// Uses the store behind the given handle.
    #[must_use]
    pub fn with_store<D>(self, handle: D) -> (b: EngineBuilder<HasStore<D>>)
        ensures
            b@ == (ConfigView {
                store: HasStore(handle),
                default_retry: self@.default_retry,
                resume_on_start: self@.resume_on_start,
                shutdown_timeout: self@.shutdown_timeout,
                retention: self@.retention,
            }),
    {
        EngineBuilder {
            store: HasStore(handle),
            default_retry: self.default_retry,
            resume_on_start: self.resume_on_start,
            shutdown_timeout: self.shutdown_timeout,
            retention: self.retention,
        }
    }
}

impl<S> EngineBuilder<S> {
    /// Sets a default retry policy for all steps.
    ///
    /// Individual steps can override or disable it.
    #[must_use]
    pub fn default_retry(self, policy: RetryPolicy) -> (b: Self)
        ensures
            b@ == (ConfigView { default_retry: Some(policy@), ..self@ }),
    {
        EngineBuilder { default_retry: Some(policy), ..self }
    }

    /// Controls whether `Running` workflow instances are automatically resumed
    /// when the engine starts. Defaults to `true`.
    #[must_use]
    pub fn resume_on_start(self, enabled: bool) -> (b: Self)
        ensures
            b@ == (ConfigView { resume_on_start: enabled, ..self@ }),
    {
        EngineBuilder { resume_on_start: enabled, ..self }
    }

    /// Sets how long the engine waits for running workflows when it stops.
    #[must_use]
    pub fn shutdown_timeout(self, timeout: Duration) -> (b: Self)
        ensures
            b@ == (ConfigView { shutdown_timeout: Some(timeout@), ..self@ }),
    {
        EngineBuilder { shutdown_timeout: Some(timeout), ..self }
    }

    /// Sets how long terminal instances are kept before they are deleted.
    #[must_use]
    pub fn retention(self, ttl: Duration) -> (b: Self)
        ensures
            b@ == (ConfigView { retention: Some(ttl@), ..self@ }),
    {
        EngineBuilder { retention: Some(ttl), ..self }
    }
}

impl<D> EngineBuilder<HasStore<D>> {
    /// Builds the engine, which is not started and has no workflows, and hands
    /// back the store. `env_secs` is the shutdown timeout from the
    /// environment, in seconds, if there is one.
    #[must_use]
    pub fn build(self, env_secs: Option<u64>) -> (r: (Engine, D))
        ensures
            r.0@ == (EngineView {
                workflows: Map::empty(),
                running: false,
                default_retry: self@.default_retry,
                resume_on_start: self@.resume_on_start,
                shutdown_timeout: shutdown_timeout(self@.shutdown_timeout, env_secs),
                retention: self@.retention,
                retentions: Map::empty(),
            }),
            self@.store == HasStore(r.1),
    {
        let timeout = match self.shutdown_timeout {
            Some(d) => d,
            None => match env_secs {
                Some(secs) => Duration::from_secs(secs),
                None => Duration::from_secs(DEFAULT_SHUTDOWN_TIMEOUT_SECS),
            },
        };
        let HasStore(handle) = self.store;
        (
            Engine::configured(
                self.default_retry,
                self.resume_on_start,
                timeout,
                self.retention,
            ),
            handle,
        )
    }
}

/// A configured shutdown timeout is used whatever the environment says, one
/// from the environment where none is configured, and half a minute where
/// there is neither.
pub proof fn configured_timeout_takes_precedence(
    configured: Option<nat>,
    env_secs: Option<u64>,
)
    ensures
        configured matches Some(d) ==> shutdown_timeout(configured, env_secs) == d,
        configured is None ==> (env_secs matches Some(secs) ==> shutdown_timeout(
            configured,
            env_secs,
        ) == secs * 1_000_000_000),
        configured is None && env_secs is None ==> shutdown_timeout(configured, env_secs)
            == 30 * 1_000_000_000,
{
}

/// An optional policy is read as it is.
pub proof fn optional_policies_are_faithful(p: RetryPolicy)
    ensures
        opt_policy(Some(p)) == Some(p@),
        opt_policy(None) is None,
{
}

} // verus!

//! Hot reload as a state machine: a signal asks for the configuration to be
//! read, the configuration read asks for its credentials to be built, and
//! only the two together replace what is live.

use crate::config::DynamicConfig;
use crate::error::StringError;
use crate::text::concat3;
use vstd::prelude::*;

verus! {

/// The routing table and the credentials that were built from it.
pub struct ConfigSnapshot<C> {
    pub config: DynamicConfig,
    pub credentials: C,
}

/// What happened outside.
pub enum ReloadEvent<C> {
    /// The reload signal arrived.
    Signal,
    /// The configuration file was read, or could not be.
    ConfigLoaded(Result<DynamicConfig, StringError>),
    /// The credentials of the configuration read last were built, or could
    /// not be.
    CredentialsBuilt(Result<C, StringError>),
}

/// What is to be done outside.
#[derive(Debug, PartialEq, Eq)]
pub enum ReloadAction {
    /// Read the configuration file and report it.
    LoadConfig,
    /// Build the credentials of the pending configuration and report them.
    BuildCredentials,
    /// Print the line.
    Report(String),
    /// Nothing.
    Ignore,
}

/// An action as a mathematical value.
pub enum ReloadOrder {
    LoadConfig,
    BuildCredentials,
    Report(Seq<char>),
    Ignore,
}

impl View for ReloadAction {
    type V = ReloadOrder;

    open spec fn view(&self) -> ReloadOrder {
        match self {
            ReloadAction::LoadConfig => ReloadOrder::LoadConfig,
            ReloadAction::BuildCredentials => ReloadOrder::BuildCredentials,
            ReloadAction::Report(line) => ReloadOrder::Report(line@),
            ReloadAction::Ignore => ReloadOrder::Ignore,
        }
    }
}

/// The live snapshot and the configuration that waits for its credentials.
pub struct Reloader<C> {
    pub live: ConfigSnapshot<C>,
    pub pending: Option<DynamicConfig>,
}

/// The line printed after a reload that succeeded.
pub open spec fn success_line() -> Seq<char> {
    "Config reloaded successfully"@
}

/// The line printed after a reload that failed for `reason`.
pub open spec fn failure_line(reason: Seq<char>) -> Seq<char> {
    "Failed to reload config: "@ + reason
}

impl<C> Reloader<C> {
    /// The state after an event. The live snapshot changes in one case
    /// only: credentials were built for a pending configuration, and the
    /// two replace it together.
    pub open spec fn after(self, event: ReloadEvent<C>) -> Self {
        match event {
            ReloadEvent::Signal => Reloader { live: self.live, pending: None },
            ReloadEvent::ConfigLoaded(Ok(config)) => Reloader {
                live: self.live,
                pending: Some(config),
            },
            ReloadEvent::ConfigLoaded(Err(_)) => Reloader { live: self.live, pending: None },
            ReloadEvent::CredentialsBuilt(Ok(credentials)) => match self.pending {
                Some(config) => Reloader {
                    live: ConfigSnapshot { config, credentials },
                    pending: None,
                },
                None => self,
            },
            ReloadEvent::CredentialsBuilt(Err(_)) => Reloader { live: self.live, pending: None },
        }
    }

    /// The action that an event calls for.
    pub open spec fn order(self, event: ReloadEvent<C>) -> ReloadOrder {
        match event {
            ReloadEvent::Signal => ReloadOrder::LoadConfig,
            ReloadEvent::ConfigLoaded(Ok(_)) => ReloadOrder::BuildCredentials,
            ReloadEvent::ConfigLoaded(Err(error)) => ReloadOrder::Report(failure_line(error@)),
            ReloadEvent::CredentialsBuilt(built) => match self.pending {
                Some(_) => match built {
                    Ok(_) => ReloadOrder::Report(success_line()),
                    Err(error) => ReloadOrder::Report(failure_line(error@)),
                },
                None => ReloadOrder::Ignore,
            },
        }
    }

    /// The state after one whole reload: the signal, the reading of the
    /// file, and, where that succeeded, the building of the credentials.
    pub open spec fn after_reload(
        self,
        loaded: Result<DynamicConfig, StringError>,
        built: Result<C, StringError>,
    ) -> Self {
        let read = self.after(ReloadEvent::Signal).after(ReloadEvent::ConfigLoaded(loaded));
        if loaded.is_ok() {
            read.after(ReloadEvent::CredentialsBuilt(built))
        } else {
            read
        }
    }

    /// A reloader that serves the given snapshot.
    pub fn new(config: DynamicConfig, credentials: C) -> (reloader: Self)
        ensures
            reloader.live.config == config,
            reloader.live.credentials == credentials,
            reloader.pending.is_none(),
    {
        Reloader { live: ConfigSnapshot { config, credentials }, pending: None }
    }

    /// Takes in an event and says what is to be done next.
    pub fn step(&mut self, event: ReloadEvent<C>) -> (action: ReloadAction)
        ensures
            *final(self) == old(self).after(event),
            action@ == old(self).order(event),
    {
        match event {
            ReloadEvent::Signal => {
                self.pending = None;
                ReloadAction::LoadConfig
            },
            ReloadEvent::ConfigLoaded(Ok(config)) => {
                self.pending = Some(config);
                ReloadAction::BuildCredentials
            },
            ReloadEvent::ConfigLoaded(Err(error)) => {
                self.pending = None;
                ReloadAction::Report(Self::failure(&error))
            },
            ReloadEvent::CredentialsBuilt(built) => {
                match self.pending.take() {
                    Some(config) => match built {
                        Ok(credentials) => {
                            self.live = ConfigSnapshot { config, credentials };
                            let line = "Config reloaded successfully".to_owned();
                            ReloadAction::Report(line)
                        },
                        Err(error) => ReloadAction::Report(Self::failure(&error)),
                    },
                    None => ReloadAction::Ignore,
                }
            },
        }
    }

    /// The line for a reload that failed.
    fn failure(error: &StringError) -> (line: String)
        ensures
            line@ == failure_line(error@),
    {
        proof {
            reveal_strlit("");
        }
        let line = concat3("Failed to reload config: ", error.description(), "");
        assert(line@ =~= failure_line(error@));
        line
    }
}

/// Every step leaves the live snapshot as it was or replaces both of its
/// halves at once, by a configuration and the credentials built for it: no
/// state holds the routing table of one load beside the credentials of
/// another.
pub proof fn lemma_snapshot_is_coherent<C>(state: Reloader<C>, event: ReloadEvent<C>)
    ensures
        state.after(event).live == state.live || (exists|config: DynamicConfig, credentials: C|
            state.pending == Some(config) && event == ReloadEvent::CredentialsBuilt(
                Ok::<C, StringError>(credentials),
            ) && state.after(event).live == (ConfigSnapshot { config, credentials })),
{
    match event {
        ReloadEvent::CredentialsBuilt(Ok(credentials)) => {
            match state.pending {
                Some(config) => {
                    assert(state.pending == Some(config) && event == ReloadEvent::CredentialsBuilt(
                        Ok::<C, StringError>(credentials),
                    ) && state.after(event).live == (ConfigSnapshot { config, credentials }));
                },
                None => {},
            }
        },
        _ => {},
    }
}

/// A reload that fails, at the file or at the credentials, leaves the live
/// snapshot as it was.
pub proof fn lemma_failed_reload_keeps_live<C>(
    state: Reloader<C>,
    loaded: Result<DynamicConfig, StringError>,
    built: Result<C, StringError>,
)
    requires
        loaded.is_err() || built.is_err(),
    ensures
        state.after_reload(loaded, built).live == state.live,
        state.after_reload(loaded, built).pending.is_none(),
{
}

/// A reload that succeeds publishes the configuration read together with
/// the credentials built for it.
pub proof fn lemma_reload_publishes_pair<C>(state: Reloader<C>, config: DynamicConfig, credentials: C)
    ensures
        state.after_reload(Ok(config), Ok(credentials)).live == (ConfigSnapshot {
            config,
            credentials,
        }),
        state.after_reload(Ok(config), Ok(credentials)).pending.is_none(),
{
}

/// Reloading twice with the same outcome of reading and building leaves the
/// state that reloading once leaves.
pub proof fn lemma_reload_twice_is_once<C>(
    state: Reloader<C>,
    loaded: Result<DynamicConfig, StringError>,
    built: Result<C, StringError>,
)
    ensures
        state.after_reload(loaded, built).after_reload(loaded, built) == state.after_reload(
            loaded,
            built,
        ),
{
}

} // verus!

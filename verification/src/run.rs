//! The run: every decision of the program's lifecycle as one state machine.
//!
//! The surrounding binary owns the outside world — the configuration file,
//! the platform queries, the default-device write, the child process and
//! the signal listener. It performs whatever `Action` the machine hands
//! back and feeds the outcome in as the next event. The machine fixes the
//! order: the configuration is loaded and validated before any platform
//! state is touched, a missing configuration stops the run before any
//! platform query, and a failed pipeline wait is downgraded so that the
//! run still winds down instead of aborting.

use vstd::prelude::*;
use crate::coordinator::Snapshot;
use crate::device::Registry;
use crate::platform::{PlatformError, PlatformQueryError, Scope};
use crate::routing::{ConfigError, ResolvedRouting, RoutingConfig, spec_validate, validate};

verus! {

/// How the wait on the supervised pipeline ended. A spawn-or-wait error is
/// reported, never thrown: the caller logs a warning and still winds down.
#[derive(Clone, Copy, PartialEq, Eq, Structural, Debug)]
pub enum ExitOutcome {
    Completed,
    SpawnOrWaitError,
}

/// Why a run aborts. Every variant is fatal: the run stops and the binary
/// exits with a descriptive message.
#[derive(Debug)]
pub enum FatalError {
    /// The configuration file is missing or malformed.
    ConfigUnavailable,
    /// The configuration was rejected by validation.
    Config(ConfigError),
    /// A platform query failed while reading defaults or enumerating.
    Query(PlatformQueryError),
    /// The default-device write was rejected.
    Platform(PlatformError),
    /// The pipeline child process could not be spawned.
    ChildSpawn,
}

/// Where a run stands, carrying the values its next step needs.
#[derive(Debug)]
pub enum RunState {
    /// Nothing has happened; the configuration is being read.
    LoadingConfig,
    /// The configuration is held; the startup defaults are being read.
    ReadingDefaults { config: RoutingConfig },
    /// Defaults are captured; the endpoints are being enumerated.
    Probing { config: RoutingConfig, snapshot: Snapshot },
    /// Validation passed; the default-device write is in flight.
    Redirecting { routing: ResolvedRouting, snapshot: Snapshot },
    /// The routing is in effect; the pipeline runs under supervision.
    Supervising { routing: ResolvedRouting, snapshot: Snapshot },
    /// The pipeline ended and the run is over.
    Finished { outcome: ExitOutcome },
    /// The run aborted.
    Failed { error: FatalError },
}

/// What the surrounding binary must do next.
#[derive(Clone, Copy, PartialEq, Eq, Structural, Debug)]
pub enum Action {
    /// Read and parse the configuration file.
    LoadConfig,
    /// Read the platform's current default input and output devices.
    ReadDefaults,
    /// Enumerate the endpoints and probe each one.
    ProbeDevices,
    /// Write `device_id` into the default pointer of `scope`.
    SetDefault { scope: Scope, device_id: u32 },
    /// Spawn the external pipeline bound to the resolved devices.
    SpawnPipeline { routing: ResolvedRouting },
    /// Block until the pipeline exits.
    AwaitPipeline,
    /// The run is over; wind down.
    Stop,
}

/// The run's state machine. Events arrive through the `on_` methods; each
/// returns the action the binary performs next.
#[derive(Debug)]
pub struct Run {
    pub state: RunState,
}

impl Run {
    /// A fresh run: the first step is always loading the configuration.
    pub fn new() -> (r: Run)
        ensures
            r.state is LoadingConfig,
    {
        Run { state: RunState::LoadingConfig }
    }

    /// The configuration file was read, or could not be. An unavailable
    /// configuration is fatal at once: the run stops before any platform
    /// query is ordered.
    pub fn on_config(&mut self, loaded: Option<RoutingConfig>) -> (a: Action)
        requires
            old(self).state is LoadingConfig,
        ensures
            loaded matches Some(config)
                ==> final(self).state == (RunState::ReadingDefaults { config })
                    && a == Action::ReadDefaults,
            loaded is None
                ==> final(self).state == (RunState::Failed { error: FatalError::ConfigUnavailable })
                    && a == Action::Stop,
    {
        match loaded {
            Some(config) => {
                self.state = RunState::ReadingDefaults { config };
                Action::ReadDefaults
            },
            None => {
                self.state = RunState::Failed { error: FatalError::ConfigUnavailable };
                Action::Stop
            },
        }
    }

    /// The startup defaults were read, or the query failed. Failure is
    /// fatal: without a trustworthy snapshot nothing may be mutated.
    pub fn on_defaults(&mut self, result: Result<Snapshot, PlatformQueryError>) -> (a: Action)
        requires
            old(self).state is ReadingDefaults,
        ensures
            result matches Ok(snapshot)
                ==> final(self).state == (RunState::Probing {
                        config: old(self).state->ReadingDefaults_config,
                        snapshot,
                    })
                    && a == Action::ProbeDevices,
            result matches Err(e)
                ==> final(self).state == (RunState::Failed { error: FatalError::Query(e) })
                    && a == Action::Stop,
    {
        let mut taken = RunState::LoadingConfig;
        core::mem::swap(&mut taken, &mut self.state);
        let config = match taken {
            RunState::ReadingDefaults { config } => config,
            _ => unreached(),
        };
        match result {
            Ok(snapshot) => {
                self.state = RunState::Probing { config, snapshot };
                Action::ProbeDevices
            },
            Err(e) => {
                self.state = RunState::Failed { error: FatalError::Query(e) };
                Action::Stop
            },
        }
    }

    /// The endpoints were enumerated, or the enumeration failed. A complete
    /// registry is validated against the held configuration: success orders
    /// the one redirecting write — the capture device becomes the default
    /// input — and any rejection stops the run with the platform untouched.
    pub fn on_registry(&mut self, result: Result<Registry, PlatformQueryError>) -> (a: Action)
        requires
            old(self).state is Probing,
        ensures
            result matches Err(e)
                ==> final(self).state == (RunState::Failed { error: FatalError::Query(e) })
                    && a == Action::Stop,
            result matches Ok(reg) ==> match spec_validate(old(self).state->Probing_config, reg) {
                Ok(routing) => final(self).state == (RunState::Redirecting {
                        routing,
                        snapshot: old(self).state->Probing_snapshot,
                    })
                    && a == (Action::SetDefault { scope: Scope::Input, device_id: routing.input_id }),
                Err(ce) => final(self).state == (RunState::Failed { error: FatalError::Config(ce) })
                    && a == Action::Stop,
            },
    {
        let mut taken = RunState::LoadingConfig;
        core::mem::swap(&mut taken, &mut self.state);
        let (config, snapshot) = match taken {
            RunState::Probing { config, snapshot } => (config, snapshot),
            _ => unreached(),
        };
        match result {
            Ok(reg) => {
                match validate(&config, &reg) {
                    Ok(routing) => {
                        self.state = RunState::Redirecting { routing, snapshot };
                        Action::SetDefault { scope: Scope::Input, device_id: routing.input_id }
                    },
                    Err(ce) => {
                        self.state = RunState::Failed { error: FatalError::Config(ce) };
                        Action::Stop
                    },
                }
            },
            Err(e) => {
                self.state = RunState::Failed { error: FatalError::Query(e) };
                Action::Stop
            },
        }
    }

    /// The redirecting write came back. Acceptance starts the pipeline; a
    /// rejected write is fatal, since every later step depends on the
    /// routing being in effect.
    pub fn on_redirected(&mut self, result: Result<(), PlatformError>) -> (a: Action)
        requires
            old(self).state is Redirecting,
        ensures
            result is Ok
                ==> final(self).state == (RunState::Supervising {
                        routing: old(self).state->Redirecting_routing,
                        snapshot: old(self).state->Redirecting_snapshot,
                    })
                    && a == (Action::SpawnPipeline {
                        routing: old(self).state->Redirecting_routing,
                    }),
            result matches Err(e)
                ==> final(self).state == (RunState::Failed { error: FatalError::Platform(e) })
                    && a == Action::Stop,
    {
        let mut taken = RunState::LoadingConfig;
        core::mem::swap(&mut taken, &mut self.state);
        let (routing, snapshot) = match taken {
            RunState::Redirecting { routing, snapshot } => (routing, snapshot),
            _ => unreached(),
        };
        match result {
            Ok(()) => {
                self.state = RunState::Supervising { routing, snapshot };
                Action::SpawnPipeline { routing }
            },
            Err(e) => {
                self.state = RunState::Failed { error: FatalError::Platform(e) };
                Action::Stop
            },
        }
    }

    /// The spawn came back. A running child is awaited; a failed spawn is
    /// fatal, since there is no pipeline to supervise.
    pub fn on_spawned(&mut self, spawned: bool) -> (a: Action)
        requires
            old(self).state is Supervising,
        ensures
            spawned
                ==> final(self).state == old(self).state
                    && a == Action::AwaitPipeline,
            !spawned
                ==> final(self).state == (RunState::Failed { error: FatalError::ChildSpawn })
                    && a == Action::Stop,
    {
        if spawned {
            Action::AwaitPipeline
        } else {
            self.state = RunState::Failed { error: FatalError::ChildSpawn };
            Action::Stop
        }
    }

    /// The wait on the pipeline ended. A wait error is downgraded to a
    /// reported outcome — never an abort — so that the wind-down always
    /// runs.
    pub fn on_pipeline_exit(&mut self, wait_ok: bool) -> (a: Action)
        requires
            old(self).state is Supervising,
        ensures
            final(self).state == (RunState::Finished {
                outcome: if wait_ok { ExitOutcome::Completed } else { ExitOutcome::SpawnOrWaitError },
            }),
            a == Action::Stop,
    {
        let outcome = if wait_ok { ExitOutcome::Completed } else { ExitOutcome::SpawnOrWaitError };
        self.state = RunState::Finished { outcome };
        Action::Stop
    }
}

} // verus!

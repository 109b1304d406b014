//! The injection lifecycle manager: one attach/detach cycle per watcher
//! transition.
//!
//! The binary performs the process-level work — module search, injection,
//! the exported start/stop entry points, unloading — and reports each
//! outcome; every decision about what to do next, and how a failure is
//! classified, is made here. A process or module that is already gone
//! counts as successfully torn down, because the desired end state already
//! holds.

use vstd::prelude::*;

use crate::scanner::SpotifyInfo;
use crate::scanner::SpotifyState;

verus! {

/// The filter configuration handed in by the resource resolver: URL
/// patterns to always allow, and URL patterns to deny.
#[derive(Debug, Clone)]
pub struct FilterConfig {
    pub allowlist: Vec<String>,
    pub denylist: Vec<String>,
}

/// The live association between one injected module instance and its
/// protocol connection: which process holds the module, and the loopback
/// port its endpoint listens on.
#[derive(Debug, Clone, Copy, PartialEq, Eq, Structural)]
pub struct Session {
    pub process_id: u32,
    pub rpc_port: u16,
}

/// Whether the manager currently holds a session.
#[derive(Debug, Clone, Copy, PartialEq, Eq, Structural)]
pub enum SpotifyHookState {
    Hooked(Session),
    Unhooked,
}

/// Why one attach attempt was abandoned. The target is left unfiltered
/// until the next running transition.
#[derive(Debug, Clone, PartialEq, Eq)]
pub enum AttachError {
    /// The target's module list could not be inspected.
    InspectFailed(String),
    /// The filter configuration could not be resolved.
    ConfigFailed(String),
    /// The interception module payload could not be resolved on disk.
    PayloadFailed(String),
    /// Injecting the payload into the target failed.
    InjectFailed(String),
    /// The module's exported start entry point failed.
    StartRpcFailed(String),
    /// The protocol handshake (logger, rulesets, enable) failed; the module
    /// stays loaded but inert.
    ProtocolFailed(String),
}

/// Where one attach attempt stands.
#[derive(Debug, Clone, PartialEq, Eq)]
pub enum AttachPhase {
    /// Looking for a previously injected module left over in the target.
    CheckingStale,
    /// Asking a stale module to stop its protocol endpoint.
    StoppingStale,
    /// Unloading the stale module.
    EjectingStale,
    /// Reading the filter configuration.
    ResolvingConfig,
    /// Resolving the interception module payload on disk.
    ResolvingPayload,
    /// Injecting the payload into the target.
    Injecting,
    /// Invoking the module's exported start entry point.
    StartingRpc,
    /// Connecting to the endpoint and running the handshake.
    RunningProtocol { rpc_port: u16 },
    /// The attach succeeded; a session on this port exists.
    Done { rpc_port: u16 },
    /// The attach was abandoned.
    Failed(AttachError),
}

/// What the binary reports back for the phase it was asked to perform.
#[derive(Debug, PartialEq, Eq)]
pub enum AttachEvent {
    /// Result of the stale-module search: found one, found none, or the
    /// process could not be inspected.
    StaleSearch(Result<bool, String>),
    /// Result of the stale module's stop entry point.
    StaleStop(Result<(), String>),
    /// Result of unloading the stale module.
    StaleEject(Result<(), String>),
    /// Result of reading the filter configuration.
    Config(Result<(), String>),
    /// Result of resolving the payload on disk.
    Payload(Result<(), String>),
    /// Result of the injection.
    Inject(Result<(), String>),
    /// Result of the start entry point: the endpoint's loopback port.
    RpcStarted(Result<u16, String>),
    /// Result of the protocol handshake.
    Protocol(Result<(), String>),
}

/// Whether an event is the one the phase waits for.
pub open spec fn spec_event_matches(phase: AttachPhase, event: AttachEvent) -> bool {
    match phase {
        AttachPhase::CheckingStale => event is StaleSearch,
        AttachPhase::StoppingStale => event is StaleStop,
        AttachPhase::EjectingStale => event is StaleEject,
        AttachPhase::ResolvingConfig => event is Config,
        AttachPhase::ResolvingPayload => event is Payload,
        AttachPhase::Injecting => event is Inject,
        AttachPhase::StartingRpc => event is RpcStarted,
        AttachPhase::RunningProtocol { .. } => event is Protocol,
        AttachPhase::Done { .. } => false,
        AttachPhase::Failed(_) => false,
    }
}

/// The attach control flow: which phase follows which outcome. A stale
/// module is stopped and unloaded first — a failure to stop it cleanly is
/// only logged and the unload proceeds — and the search repeats until the
/// target is clean. Then configuration, payload, injection, the start
/// entry point and the handshake follow in order; the first failure
/// abandons the attach with the matching error.
pub open spec fn spec_attach_step(phase: AttachPhase, event: AttachEvent) -> AttachPhase {
    match (phase, event) {
        (AttachPhase::CheckingStale, AttachEvent::StaleSearch(r)) => match r {
            Ok(true) => AttachPhase::StoppingStale,
            Ok(false) => AttachPhase::ResolvingConfig,
            Err(e) => AttachPhase::Failed(AttachError::InspectFailed(e)),
        },
        (AttachPhase::StoppingStale, AttachEvent::StaleStop(_)) => AttachPhase::EjectingStale,
        (AttachPhase::EjectingStale, AttachEvent::StaleEject(_)) => AttachPhase::CheckingStale,
        (AttachPhase::ResolvingConfig, AttachEvent::Config(r)) => match r {
            Ok(()) => AttachPhase::ResolvingPayload,
            Err(e) => AttachPhase::Failed(AttachError::ConfigFailed(e)),
        },
        (AttachPhase::ResolvingPayload, AttachEvent::Payload(r)) => match r {
            Ok(()) => AttachPhase::Injecting,
            Err(e) => AttachPhase::Failed(AttachError::PayloadFailed(e)),
        },
        (AttachPhase::Injecting, AttachEvent::Inject(r)) => match r {
            Ok(()) => AttachPhase::StartingRpc,
            Err(e) => AttachPhase::Failed(AttachError::InjectFailed(e)),
        },
        (AttachPhase::StartingRpc, AttachEvent::RpcStarted(r)) => match r {
            Ok(port) => AttachPhase::RunningProtocol { rpc_port: port },
            Err(e) => AttachPhase::Failed(AttachError::StartRpcFailed(e)),
        },
        (AttachPhase::RunningProtocol { rpc_port }, AttachEvent::Protocol(r)) => match r {
            Ok(()) => AttachPhase::Done { rpc_port },
            Err(e) => AttachPhase::Failed(AttachError::ProtocolFailed(e)),
        },
        _ => phase,
    }
}

/// Advances one attach attempt by the outcome the binary reports.
pub fn attach_step(phase: AttachPhase, event: AttachEvent) -> (r: AttachPhase)
    requires
        spec_event_matches(phase, event),
    ensures
        r == spec_attach_step(phase, event),
{
    match (phase, event) {
        (AttachPhase::CheckingStale, AttachEvent::StaleSearch(r)) => match r {
            Ok(true) => AttachPhase::StoppingStale,
            Ok(false) => AttachPhase::ResolvingConfig,
            Err(e) => AttachPhase::Failed(AttachError::InspectFailed(e)),
        },
        (AttachPhase::StoppingStale, AttachEvent::StaleStop(_)) => AttachPhase::EjectingStale,
        (AttachPhase::EjectingStale, AttachEvent::StaleEject(_)) => AttachPhase::CheckingStale,
        (AttachPhase::ResolvingConfig, AttachEvent::Config(r)) => match r {
            Ok(()) => AttachPhase::ResolvingPayload,
            Err(e) => AttachPhase::Failed(AttachError::ConfigFailed(e)),
        },
        (AttachPhase::ResolvingPayload, AttachEvent::Payload(r)) => match r {
            Ok(()) => AttachPhase::Injecting,
            Err(e) => AttachPhase::Failed(AttachError::PayloadFailed(e)),
        },
        (AttachPhase::Injecting, AttachEvent::Inject(r)) => match r {
            Ok(()) => AttachPhase::StartingRpc,
            Err(e) => AttachPhase::Failed(AttachError::InjectFailed(e)),
        },
        (AttachPhase::StartingRpc, AttachEvent::RpcStarted(r)) => match r {
            Ok(port) => AttachPhase::RunningProtocol { rpc_port: port },
            Err(e) => AttachPhase::Failed(AttachError::StartRpcFailed(e)),
        },
        (AttachPhase::RunningProtocol { rpc_port }, AttachEvent::Protocol(r)) => match r {
            Ok(()) => AttachPhase::Done { rpc_port },
            Err(e) => AttachPhase::Failed(AttachError::ProtocolFailed(e)),
        },
        (phase, _) => phase,
    }
}

/// An error reported by the process-level teardown calls.
#[derive(Debug, Clone, PartialEq, Eq)]
pub enum EjectError {
    /// The target process is gone or cannot be reached.
    ProcessInaccessible,
    /// The module is gone from the target.
    ModuleInaccessible,
    /// Anything else.
    Other(String),
}

/// Whether a teardown outcome counts as done: a clean success, or the
/// process or module being gone already — the end state (module absent)
/// already holds then.
pub open spec fn spec_teardown_done(outcome: Result<(), EjectError>) -> bool {
    match outcome {
        Ok(()) => true,
        Err(EjectError::ProcessInaccessible) => true,
        Err(EjectError::ModuleInaccessible) => true,
        Err(EjectError::Other(_)) => false,
    }
}

/// What the manager asks the binary to do on one watcher transition.
#[derive(Debug, Clone, Copy, PartialEq, Eq, Structural)]
pub enum RunAction {
    /// Tear the current session down, then attach to this target.
    ReattachTo(SpotifyInfo),
    /// Attach to this target.
    AttachTo(SpotifyInfo),
    /// Tear the current session down and keep watching.
    Detach,
    /// Tear the current session down (a no-op if none exists) and shut the
    /// host down.
    DetachAndShutdown,
    /// Nothing to do: no session exists and the host keeps watching.
    KeepWatching,
}

/// The ad blocker: the watcher's consumer, owner of at most one session.
#[derive(Debug)]
pub struct SpotifyAdBlocker {
    pub state: SpotifyHookState,
}

impl SpotifyAdBlocker {
    /// A manager with no session.
    pub fn new() -> (r: SpotifyAdBlocker)
        ensures
            r.state is Unhooked,
    {
        SpotifyAdBlocker { state: SpotifyHookState::Unhooked }
    }

    /// Whether a session currently exists.
    pub fn is_hooked(&self) -> (r: bool)
        ensures
            r == (self.state is Hooked),
    {
        match self.state {
            SpotifyHookState::Hooked(_) => true,
            SpotifyHookState::Unhooked => false,
        }
    }

    /// What to do about one watcher transition: a running target is
    /// attached to — after tearing down any session left from a previous
    /// instance — and a stopped target is detached from; if the host is
    /// configured to follow the target down, it shuts down after the
    /// detach.
    pub fn on_transition(&self, transition: SpotifyState, shutdown_with_spotify: bool) -> (r:
        RunAction)
        ensures
            r == match transition {
                SpotifyState::Running(info) => if self.state is Hooked {
                    RunAction::ReattachTo(info)
                } else {
                    RunAction::AttachTo(info)
                },
                SpotifyState::Stopped => if shutdown_with_spotify {
                    RunAction::DetachAndShutdown
                } else if self.state is Hooked {
                    RunAction::Detach
                } else {
                    RunAction::KeepWatching
                },
            },
    {
        match transition {
            SpotifyState::Running(info) => match self.state {
                SpotifyHookState::Hooked(_) => RunAction::ReattachTo(info),
                SpotifyHookState::Unhooked => RunAction::AttachTo(info),
            },
            SpotifyState::Stopped => {
                if shutdown_with_spotify {
                    RunAction::DetachAndShutdown
                } else {
                    match self.state {
                        SpotifyHookState::Hooked(_) => RunAction::Detach,
                        SpotifyHookState::Unhooked => RunAction::KeepWatching,
                    }
                }
            },
        }
    }

    /// Records a completed attach: the manager now holds the session.
    pub fn complete_attach(&mut self, target: SpotifyInfo, rpc_port: u16)
        ensures
            final(self).state == SpotifyHookState::Hooked(
                Session { process_id: target.process_id, rpc_port },
            ),
    {
        self.state = SpotifyHookState::Hooked(Session { process_id: target.process_id, rpc_port });
    }

    /// Finishes one detach. The binary has already run the teardown
    /// sequence — stop entry point, protocol shutdown, unload — and reports
    /// its outcome; if no session existed nothing was run and the outcome
    /// is not consulted. The session is dropped whatever happened, so the
    /// manager can never get stuck holding a dead one. The result is the
    /// diagnostic to log: none on success, and none when the process or
    /// module was already gone — that end state is what was wanted — but a
    /// message for any other error.
    pub fn unhook_spotify(&mut self, outcome: Result<(), EjectError>) -> (r: Option<String>)
        ensures
            final(self).state is Unhooked,
            old(self).state is Unhooked ==> r is None,
            old(self).state is Hooked ==> (r is None <==> spec_teardown_done(outcome)),
    {
        match self.state {
            SpotifyHookState::Unhooked => None,
            SpotifyHookState::Hooked(_) => {
                self.state = SpotifyHookState::Unhooked;
                match outcome {
                    Ok(()) => None,
                    Err(EjectError::ProcessInaccessible) => None,
                    Err(EjectError::ModuleInaccessible) => None,
                    Err(EjectError::Other(e)) => Some(e),
                }
            },
        }
    }

    /// Stops the manager: tears down the session if one exists. Stopping an
    /// already-stopped manager succeeds with no effect, and a teardown that
    /// found the process or module already gone succeeds too.
    pub fn stop(&mut self, outcome: Result<(), EjectError>) -> (r: Option<String>)
        ensures
            final(self).state is Unhooked,
            old(self).state is Unhooked ==> r is None,
            old(self).state is Hooked ==> (r is None <==> spec_teardown_done(outcome)),
    {
        self.unhook_spotify(outcome)
    }
}

/// Law: teardown treats "already gone" as success. For every outcome, the
/// teardown ends without a session; and it reports success exactly when the
/// outcome was clean or the process or module had already disappeared — in
/// particular, ejecting from an exited process succeeds, and a second stop
/// after a completed one succeeds with no effect.
pub proof fn lemma_teardown_idempotent(outcome: Result<(), EjectError>)
    ensures
        spec_teardown_done(Result::<(), EjectError>::Ok(())),
        spec_teardown_done(Result::<(), EjectError>::Err(EjectError::ProcessInaccessible)),
        spec_teardown_done(Result::<(), EjectError>::Err(EjectError::ModuleInaccessible)),
        outcome matches Err(EjectError::Other(_)) ==> !spec_teardown_done(outcome),
{
}

} // verus!

//! The lifecycle manager: attach control flow and idempotent teardown.

use burnt_sushi::blocker::{
    AttachError, AttachEvent, AttachPhase, EjectError, RunAction, Session, SpotifyAdBlocker,
    SpotifyHookState, attach_step,
};
use burnt_sushi::scanner::{SpotifyInfo, SpotifyState};

#[test]
fn happy_path_reaches_a_session() {
    let mut phase = AttachPhase::CheckingStale;
    phase = attach_step(phase, AttachEvent::StaleSearch(Ok(false)));
    assert_eq!(phase, AttachPhase::ResolvingConfig);
    phase = attach_step(phase, AttachEvent::Config(Ok(())));
    assert_eq!(phase, AttachPhase::ResolvingPayload);
    phase = attach_step(phase, AttachEvent::Payload(Ok(())));
    assert_eq!(phase, AttachPhase::Injecting);
    phase = attach_step(phase, AttachEvent::Inject(Ok(())));
    assert_eq!(phase, AttachPhase::StartingRpc);
    phase = attach_step(phase, AttachEvent::RpcStarted(Ok(40123)));
    assert_eq!(phase, AttachPhase::RunningProtocol { rpc_port: 40123 });
    phase = attach_step(phase, AttachEvent::Protocol(Ok(())));
    assert_eq!(phase, AttachPhase::Done { rpc_port: 40123 });
}

#[test]
fn stale_module_is_stopped_and_ejected_even_if_stop_fails() {
    let mut phase = AttachPhase::CheckingStale;
    phase = attach_step(phase, AttachEvent::StaleSearch(Ok(true)));
    assert_eq!(phase, AttachPhase::StoppingStale);
    // a failure to stop the stale endpoint is logged and unloading proceeds
    phase = attach_step(phase, AttachEvent::StaleStop(Err("no response".to_string())));
    assert_eq!(phase, AttachPhase::EjectingStale);
    phase = attach_step(phase, AttachEvent::StaleEject(Ok(())));
    // the search repeats until the target is clean
    assert_eq!(phase, AttachPhase::CheckingStale);
    phase = attach_step(phase, AttachEvent::StaleSearch(Ok(false)));
    assert_eq!(phase, AttachPhase::ResolvingConfig);
}

#[test]
fn first_failure_abandons_the_attach() {
    let phase = attach_step(AttachPhase::CheckingStale, AttachEvent::StaleSearch(Err("denied".to_string())));
    assert_eq!(phase, AttachPhase::Failed(AttachError::InspectFailed("denied".to_string())));

    let phase = attach_step(AttachPhase::Injecting, AttachEvent::Inject(Err("no access".to_string())));
    assert_eq!(phase, AttachPhase::Failed(AttachError::InjectFailed("no access".to_string())));

    // a handshake failure leaves the module loaded but the attach abandoned
    let phase = attach_step(
        AttachPhase::RunningProtocol { rpc_port: 40123 },
        AttachEvent::Protocol(Err("connection refused".to_string())),
    );
    assert_eq!(
        phase,
        AttachPhase::Failed(AttachError::ProtocolFailed("connection refused".to_string()))
    );
}

#[test]
fn transitions_drive_attach_and_detach() {
    let target = SpotifyInfo { process_id: 42, main_window: 7 };
    let mut manager = SpotifyAdBlocker::new();
    assert!(!manager.is_hooked());
    assert_eq!(
        manager.on_transition(SpotifyState::Running(target), false),
        RunAction::AttachTo(target)
    );
    assert_eq!(manager.on_transition(SpotifyState::Stopped, false), RunAction::KeepWatching);
    assert_eq!(
        manager.on_transition(SpotifyState::Stopped, true),
        RunAction::DetachAndShutdown
    );

    manager.complete_attach(target, 40123);
    assert!(manager.is_hooked());
    assert_eq!(manager.state, SpotifyHookState::Hooked(Session { process_id: 42, rpc_port: 40123 }));
    // a new instance while hooked means the old session goes first
    assert_eq!(
        manager.on_transition(SpotifyState::Running(target), false),
        RunAction::ReattachTo(target)
    );
    assert_eq!(manager.on_transition(SpotifyState::Stopped, false), RunAction::Detach);
}

#[test]
fn stopping_an_already_stopped_manager_succeeds() {
    let mut manager = SpotifyAdBlocker::new();
    // no session: nothing ran, and the stop still reports success
    assert_eq!(manager.stop(Ok(())), None);
    assert_eq!(manager.state, SpotifyHookState::Unhooked);
    // even an error report is irrelevant without a session
    assert_eq!(manager.stop(Err(EjectError::Other("ignored".to_string()))), None);
    assert_eq!(manager.state, SpotifyHookState::Unhooked);
}

#[test]
fn ejecting_from_an_exited_process_succeeds() {
    let target = SpotifyInfo { process_id: 42, main_window: 7 };

    let mut manager = SpotifyAdBlocker::new();
    manager.complete_attach(target, 40123);
    assert_eq!(manager.stop(Err(EjectError::ProcessInaccessible)), None);
    assert_eq!(manager.state, SpotifyHookState::Unhooked);

    let mut manager = SpotifyAdBlocker::new();
    manager.complete_attach(target, 40123);
    assert_eq!(manager.stop(Err(EjectError::ModuleInaccessible)), None);
    assert_eq!(manager.state, SpotifyHookState::Unhooked);
}

#[test]
fn other_teardown_errors_are_logged_but_still_drop_the_session() {
    let target = SpotifyInfo { process_id: 42, main_window: 7 };
    let mut manager = SpotifyAdBlocker::new();
    manager.complete_attach(target, 40123);
    let diagnostic = manager.stop(Err(EjectError::Other("eject failed".to_string())));
    assert_eq!(diagnostic, Some("eject failed".to_string()));
    // the manager never stays stuck holding a dead session
    assert_eq!(manager.state, SpotifyHookState::Unhooked);
}

#[test]
fn clean_teardown_succeeds() {
    let target = SpotifyInfo { process_id: 42, main_window: 7 };
    let mut manager = SpotifyAdBlocker::new();
    manager.complete_attach(target, 40123);
    assert_eq!(manager.stop(Ok(())), None);
    assert_eq!(manager.state, SpotifyHookState::Unhooked);
}

//! The control protocol: request semantics, ordering, and the end-to-end
//! behaviour of an attach handshake.

use burnt_sushi::blocker::FilterConfig;
use burnt_sushi::filters::FilterHook;
use burnt_sushi::rpc::{
    ControlRequest, NativeEntries, RpcRuntime, ServerImpl, attach_requests, format_request_line,
    hook_name,
};
use burnt_sushi::hooks::HookEngine;

fn entries_ok() -> NativeEntries {
    NativeEntries { getaddrinfo: Ok(()), cef_urlrequest_create: Ok(()) }
}

#[test]
fn fresh_server_allows_everything_and_is_disabled() {
    let server = ServerImpl::new();
    assert!(server.filters.check(FilterHook::GetAddrInfo, "anything.example"));
    assert!(server.filters.check(FilterHook::CefUrlRequestCreate, "https://x.example/y"));
    assert!(!server.engine.enabled);
    assert_eq!(server.loggers, 0);
}

#[test]
fn set_ruleset_replaces_one_hook() {
    let mut server = ServerImpl::new();
    let reply = server.set_ruleset(
        FilterHook::CefUrlRequestCreate,
        vec![],
        vec!["ads\\.".to_string()],
    );
    assert_eq!(reply, Ok(()));
    assert!(!server.filters.check(FilterHook::CefUrlRequestCreate, "https://ads.example.com/x"));
    assert!(server.filters.check(FilterHook::GetAddrInfo, "ads.example.com"));
}

#[test]
fn malformed_ruleset_is_rejected_and_prior_rules_stay() {
    let mut server = ServerImpl::new();
    server
        .set_ruleset(FilterHook::GetAddrInfo, vec![], vec!["ads\\.".to_string()])
        .unwrap();
    // a malformed replacement fails as a whole; no partial application
    let reply = server.set_ruleset(
        FilterHook::GetAddrInfo,
        vec!["good".to_string()],
        vec!["(".to_string()],
    );
    assert!(reply.is_err());
    // the prior ruleset is still in force, both sides of it
    assert!(!server.filters.check(FilterHook::GetAddrInfo, "ads.example.com"));
    assert!(server.filters.check(FilterHook::GetAddrInfo, "example.com"));
    // in particular the accepted allow side of the failed request is absent
    assert!(server.filters.check(FilterHook::GetAddrInfo, "good"));
}

#[test]
fn later_ruleset_wins_after_enable() {
    let mut server = ServerImpl::new();
    let replies = server.handle_requests(
        vec![
            ControlRequest::SetRuleset {
                hook: FilterHook::GetAddrInfo,
                whitelist: vec![],
                blacklist: vec!["first\\.example".to_string()],
            },
            ControlRequest::SetRuleset {
                hook: FilterHook::GetAddrInfo,
                whitelist: vec![],
                blacklist: vec!["second\\.example".to_string()],
            },
            ControlRequest::EnableFiltering,
        ],
        &entries_ok(),
    );
    assert_eq!(replies, vec![Ok(()), Ok(()), Ok(())]);
    assert!(server.engine.enabled);
    // evaluations after enable use the second ruleset, never the first
    assert!(server.filters.check(FilterHook::GetAddrInfo, "first.example"));
    assert!(!server.filters.check(FilterHook::GetAddrInfo, "second.example"));
}

#[test]
fn enable_failure_reports_and_stays_disabled() {
    let mut server = ServerImpl::new();
    let entries = NativeEntries {
        getaddrinfo: Err("WS2_32.dll not found".to_string()),
        cef_urlrequest_create: Ok(()),
    };
    assert!(server.enable_filtering(&entries).is_err());
    assert!(!server.engine.enabled);
    // disabling while already disabled still succeeds
    assert_eq!(server.disable_filtering(), Ok(()));
    assert!(!server.engine.enabled);
}

#[test]
fn register_logger_counts_capabilities() {
    let mut server = ServerImpl::new();
    server.register_logger();
    server.register_logger();
    assert_eq!(server.loggers, 2);
}

#[test]
fn attach_requests_map_the_config_onto_the_hooks() {
    let config = FilterConfig {
        allowlist: vec!["api\\.safe\\.com".to_string()],
        denylist: vec!["adservice\\.".to_string()],
    };
    let requests = attach_requests(config);
    assert_eq!(requests.len(), 4);
    assert_eq!(requests[0], ControlRequest::RegisterLogger);
    assert_eq!(
        requests[1],
        ControlRequest::SetRuleset {
            hook: FilterHook::GetAddrInfo,
            whitelist: vec!["api\\.safe\\.com".to_string()],
            blacklist: vec![],
        }
    );
    assert_eq!(
        requests[2],
        ControlRequest::SetRuleset {
            hook: FilterHook::CefUrlRequestCreate,
            whitelist: vec![],
            blacklist: vec!["adservice\\.".to_string()],
        }
    );
    assert_eq!(requests[3], ControlRequest::EnableFiltering);
}

#[test]
fn end_to_end_attach_filters_as_configured() {
    let config = FilterConfig {
        allowlist: vec!["api\\.safe\\.com".to_string()],
        denylist: vec!["adservice\\.".to_string()],
    };
    let mut server = ServerImpl::new();
    let replies = server.handle_requests(attach_requests(config), &entries_ok());
    assert_eq!(replies, vec![Ok(()), Ok(()), Ok(()), Ok(())]);
    assert!(server.engine.enabled);
    assert_eq!(server.loggers, 1);

    // the allowlist gates address resolution
    assert!(server.filters.check(FilterHook::GetAddrInfo, "api.safe.com"));
    assert!(!server.filters.check(FilterHook::GetAddrInfo, "tracker.io"));
    // the denylist gates request creation, everything else passes
    assert!(!server
        .filters
        .check(FilterHook::CefUrlRequestCreate, "https://adservice.example/x"));
    assert!(server.filters.check(FilterHook::CefUrlRequestCreate, "https://cdn.example/x"));
}

#[test]
fn endpoint_start_and_stop_are_idempotent() {
    let mut runtime = RpcRuntime::new();
    let mut engine = HookEngine::new();
    engine.enable(Ok(()), Ok(())).unwrap();

    assert_eq!(runtime.start_rpc(40123), 40123);
    // a second start returns the existing endpoint instead of a new one
    assert_eq!(runtime.start_rpc(50999), 40123);

    runtime.stop_rpc(&mut engine);
    assert_eq!(runtime.endpoint_port, None);
    assert!(!engine.enabled);

    // stopping again is a no-op; in particular it does not touch the engine
    engine.enable(Ok(()), Ok(())).unwrap();
    runtime.stop_rpc(&mut engine);
    assert!(engine.enabled);
}

#[test]
fn log_lines_spell_out_the_decision() {
    assert_eq!(hook_name(FilterHook::GetAddrInfo), "getaddrinfo");
    assert_eq!(hook_name(FilterHook::CefUrlRequestCreate), "cef_urlrequest_create");
    assert_eq!(
        format_request_line(FilterHook::GetAddrInfo, true, "ads.example.com"),
        "[-] (getaddrinfo) ads.example.com"
    );
    assert_eq!(
        format_request_line(FilterHook::CefUrlRequestCreate, false, "https://cdn.example/x"),
        "[+] (cef_urlrequest_create) https://cdn.example/x"
    );
}

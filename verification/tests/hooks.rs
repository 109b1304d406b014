//! Hook decisions: the failure boundary and the engine's idempotence.

use burnt_sushi::filters::{FilterHook, FilterRuleset, Filters};
use burnt_sushi::hooks::{
    CefAction, DnsAction, EnableError, HookEngine, HookInput, LogParams, cef_urlrequest_create_hook,
    getaddrinfo_hook, hook_boundary,
};

fn deny_ads_store() -> Filters {
    let mut store = Filters::empty();
    let deny = FilterRuleset::new(vec![], vec!["ads\\.".to_string()]).unwrap();
    store.replace_ruleset(FilterHook::GetAddrInfo, deny);
    let deny = FilterRuleset::new(vec![], vec!["ads\\.".to_string()]).unwrap();
    store.replace_ruleset(FilterHook::CefUrlRequestCreate, deny);
    store
}

#[test]
fn allowed_call_passes_and_is_logged() {
    let store = deny_ads_store();
    let outcome = hook_boundary(
        &store,
        FilterHook::GetAddrInfo,
        HookInput::Url("example.com".to_string()),
    );
    assert!(!outcome.block);
    assert_eq!(
        outcome.log,
        Some(LogParams::Request {
            url: "example.com".to_string(),
            blocked: false,
            hook: FilterHook::GetAddrInfo,
        })
    );
}

#[test]
fn blocked_call_is_logged_as_blocked() {
    let store = deny_ads_store();
    let outcome = hook_boundary(
        &store,
        FilterHook::GetAddrInfo,
        HookInput::Url("ads.example.com".to_string()),
    );
    assert!(outcome.block);
    assert_eq!(
        outcome.log,
        Some(LogParams::Request {
            url: "ads.example.com".to_string(),
            blocked: true,
            hook: FilterHook::GetAddrInfo,
        })
    );
}

#[test]
fn fault_fails_open_with_one_diagnostic() {
    // even under a store that would block everything, a decoding fault is
    // allowed through and produces exactly one diagnostic message
    let mut store = Filters::empty();
    let deny_all = FilterRuleset::new(vec![], vec![".".to_string()]).unwrap();
    store.replace_ruleset(FilterHook::GetAddrInfo, deny_all);

    let outcome = hook_boundary(
        &store,
        FilterHook::GetAddrInfo,
        HookInput::Fault(Some("bad utf-8 in hostname".to_string())),
    );
    assert!(!outcome.block);
    assert_eq!(
        outcome.log,
        Some(LogParams::Message("bad utf-8 in hostname".to_string()))
    );

    let outcome = hook_boundary(&store, FilterHook::GetAddrInfo, HookInput::Fault(None));
    assert!(!outcome.block);
    assert_eq!(outcome.log, Some(LogParams::Message("Unknown panic".to_string())));
}

#[test]
fn missing_candidate_passes_silently() {
    let store = deny_ads_store();
    let outcome = hook_boundary(&store, FilterHook::CefUrlRequestCreate, HookInput::Missing);
    assert!(!outcome.block);
    assert!(outcome.log.is_none());
}

#[test]
fn dns_hook_reports_host_not_found_for_blocked() {
    let store = deny_ads_store();
    let (action, _) = getaddrinfo_hook(&store, HookInput::Url("ads.example.com".to_string()));
    assert_eq!(action, DnsAction::ReturnHostNotFound);
    let (action, _) = getaddrinfo_hook(&store, HookInput::Url("example.com".to_string()));
    assert_eq!(action, DnsAction::CallOriginal);
    let (action, log) = getaddrinfo_hook(&store, HookInput::Fault(None));
    assert_eq!(action, DnsAction::CallOriginal);
    assert!(log.is_some());
}

#[test]
fn cef_hook_returns_null_request_for_blocked() {
    let store = deny_ads_store();
    let (action, _) =
        cef_urlrequest_create_hook(&store, HookInput::Url("https://ads.example.com/x".to_string()));
    assert_eq!(action, CefAction::ReturnNullRequest);
    let (action, _) =
        cef_urlrequest_create_hook(&store, HookInput::Url("https://cdn.example.com/x".to_string()));
    assert_eq!(action, CefAction::CallOriginal);
}

#[test]
fn enable_requires_both_entry_points() {
    let mut engine = HookEngine::new();
    let result = engine.enable(Err("WS2_32.dll not found".to_string()), Ok(()));
    assert_eq!(
        result,
        Err(EnableError::GetAddrInfoUnavailable("WS2_32.dll not found".to_string()))
    );
    assert!(!engine.enabled);

    let result = engine.enable(Ok(()), Err("libcef.dll not found".to_string()));
    assert_eq!(
        result,
        Err(EnableError::CefUrlRequestCreateUnavailable("libcef.dll not found".to_string()))
    );
    assert!(!engine.enabled);

    assert_eq!(engine.enable(Ok(()), Ok(())), Ok(()));
    assert!(engine.enabled);
}

#[test]
fn enable_and_disable_are_idempotent() {
    let mut engine = HookEngine::new();
    engine.disable();
    assert!(!engine.enabled);
    assert_eq!(engine.enable(Ok(()), Ok(())), Ok(()));
    // a second enable succeeds with no effect, whatever it reports
    assert_eq!(engine.enable(Err("gone".to_string()), Ok(())), Ok(()));
    assert!(engine.enabled);
    engine.disable();
    assert!(!engine.enabled);
    engine.disable();
    assert!(!engine.enabled);
}

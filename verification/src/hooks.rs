//! Decision logic of the two native hooks.
//!
//! The hook bodies themselves run inside the target process on threads this
//! system does not control; the binary decodes each intercepted call into
//! plain values and everything that decides is here. Every hook body runs
//! inside a failure boundary: a fault while decoding never reaches the rule
//! store and is converted into an "allow" decision plus one diagnostic, so
//! the target degrades gracefully instead of crashing.

use vstd::prelude::*;

use crate::filters::{FilterHook, Filters, ruleset_allows};

verus! {

/// One notification queued from a hook body to the logger task.
#[derive(Clone, Debug, PartialEq, Eq)]
pub enum LogParams {
    /// A free-text diagnostic.
    Message(String),
    /// One filtering decision: which hook fired, whether the call was
    /// blocked, and the candidate string it was judged by.
    Request { url: String, blocked: bool, hook: FilterHook },
}

/// What the boundary saw of one intercepted call once the binary decoded it.
#[derive(Debug)]
pub enum HookInput {
    /// The candidate string was decoded successfully.
    Url(String),
    /// The call carried no candidate (a null request or a null string);
    /// such a call passes through silently.
    Missing,
    /// Decoding faulted; the payload message of the caught fault, if it
    /// carried one.
    Fault(Option<String>),
}

/// The decision of one intercepted call: whether to block it, and what to
/// queue to the logger.
#[derive(Debug)]
pub struct HookOutcome {
    pub block: bool,
    pub log: Option<LogParams>,
}

/// What `hook_boundary` must decide for a given input and rule store view.
pub open spec fn spec_hook_outcome(filters: Filters, hook: FilterHook, input: HookInput, r: HookOutcome) -> bool {
    match input {
        HookInput::Url(url) => {
            &&& r.block == !ruleset_allows(filters.ruleset_of(hook), url@)
            &&& r.log matches Some(LogParams::Request { url: u, blocked, hook: h })
                && u@ == url@ && blocked == r.block && h == hook
        },
        HookInput::Missing => !r.block && r.log is None,
        HookInput::Fault(payload) => {
            &&& !r.block
            &&& r.log matches Some(LogParams::Message(m)) && m@ == (match payload {
                Some(s) => s@,
                None => "Unknown panic"@,
            })
        },
    }
}

/// The failure boundary around a hook body. A decoded candidate is judged
/// by the store's current ruleset for the hook and the decision is logged;
/// a call without a candidate passes through silently; a decoding fault
/// fails open — the call is allowed, the rule store is not consulted, and
/// exactly one diagnostic is queued.
pub fn hook_boundary(filters: &Filters, hook: FilterHook, input: HookInput) -> (r: HookOutcome)
    ensures
        spec_hook_outcome(*filters, hook, input, r),
{
    match input {
        HookInput::Url(url) => {
            let block = !filters.check(hook, url.as_str());
            HookOutcome { block, log: Some(LogParams::Request { url, blocked: block, hook }) }
        },
        HookInput::Missing => HookOutcome { block: false, log: None },
        HookInput::Fault(payload) => {
            let message = crate::logger::panic_info_to_string(payload);
            HookOutcome { block: false, log: Some(LogParams::Message(message)) }
        },
    }
}

/// Law: the boundary fails open. On a faulting input the decision does not
/// depend on the rule store at all — any two stores produce the same
/// decision, namely "allow" — and each of the two outcomes carries exactly
/// one diagnostic.
pub proof fn lemma_fail_open(
    f1: Filters,
    f2: Filters,
    hook: FilterHook,
    payload: Option<String>,
    r1: HookOutcome,
    r2: HookOutcome,
)
    requires
        spec_hook_outcome(f1, hook, HookInput::Fault(payload), r1),
        spec_hook_outcome(f2, hook, HookInput::Fault(payload), r2),
    ensures
        !r1.block,
        !r2.block,
        r1.log is Some && r2.log is Some,
        r1.log matches Some(LogParams::Message(_)),
{
}

/// What the wrapped address-resolution entry point should do.
#[derive(Clone, Copy, Debug, PartialEq, Eq, Structural)]
pub enum DnsAction {
    /// Forward the call to the original function and return its result.
    CallOriginal,
    /// Do not call through; report a host-not-found failure code.
    ReturnHostNotFound,
}

/// What the wrapped request constructor should do.
#[derive(Clone, Copy, Debug, PartialEq, Eq, Structural)]
pub enum CefAction {
    /// Forward the call to the original function and return its result.
    CallOriginal,
    /// Do not call through; hand the engine a null request object.
    ReturnNullRequest,
}

/// Body of the address-resolution hook: judge the queried hostname by the
/// `GetAddrInfo` ruleset; a blocked call is answered with a host-not-found
/// failure instead of calling through.
pub fn getaddrinfo_hook(filters: &Filters, input: HookInput) -> (r: (DnsAction, Option<LogParams>))
    ensures
        spec_hook_outcome(
            *filters,
            FilterHook::GetAddrInfo,
            input,
            HookOutcome { block: r.0 == DnsAction::ReturnHostNotFound, log: r.1 },
        ),
{
    let outcome = hook_boundary(filters, FilterHook::GetAddrInfo, input);
    let action = if outcome.block {
        DnsAction::ReturnHostNotFound
    } else {
        DnsAction::CallOriginal
    };
    (action, outcome.log)
}

/// Body of the request-construction hook: judge the request's URL by the
/// `CefUrlRequestCreate` ruleset; a blocked call yields a null request,
/// which the engine tolerates as a failed creation.
pub fn cef_urlrequest_create_hook(filters: &Filters, input: HookInput) -> (r: (
    CefAction,
    Option<LogParams>,
))
    ensures
        spec_hook_outcome(
            *filters,
            FilterHook::CefUrlRequestCreate,
            input,
            HookOutcome { block: r.0 == CefAction::ReturnNullRequest, log: r.1 },
        ),
{
    let outcome = hook_boundary(filters, FilterHook::CefUrlRequestCreate, input);
    let action = if outcome.block {
        CefAction::ReturnNullRequest
    } else {
        CefAction::CallOriginal
    };
    (action, outcome.log)
}

/// Why installing the hooks failed; filtering then stays disabled.
#[derive(Clone, Debug, PartialEq, Eq)]
pub enum EnableError {
    /// The module exporting the address-resolution entry point, or that
    /// entry point itself, was not found.
    GetAddrInfoUnavailable(String),
    /// The embedded browser engine's module, or its request constructor,
    /// was not found.
    CefUrlRequestCreateUnavailable(String),
}

/// Which native entry points the engine has interposed. Both are installed
/// by one enable request and removed by one disable request.
#[derive(Clone, Copy, Debug, PartialEq, Eq, Structural)]
pub struct HookEngine {
    pub enabled: bool,
}

impl HookEngine {
    /// An engine with no hooks installed.
    pub fn new() -> (r: HookEngine)
        ensures
            !r.enabled,
    {
        HookEngine { enabled: false }
    }

    /// Installs both hooks. The caller reports whether each native entry
    /// point resolved (module found and symbol found); on the first failure
    /// nothing is considered installed and filtering stays as it was.
    /// Enabling an already-enabled engine succeeds with no effect.
    pub fn enable(
        &mut self,
        getaddrinfo_entry: Result<(), String>,
        cef_entry: Result<(), String>,
    ) -> (r: Result<(), EnableError>)
        ensures
            r is Ok <==> (getaddrinfo_entry is Ok && cef_entry is Ok) || old(self).enabled,
            final(self).enabled == (old(self).enabled || (getaddrinfo_entry is Ok
                && cef_entry is Ok)),
            !old(self).enabled ==> (getaddrinfo_entry matches Err(e) ==> r == Result::<
                (),
                EnableError,
            >::Err(EnableError::GetAddrInfoUnavailable(e))),
            !old(self).enabled && getaddrinfo_entry is Ok ==> (cef_entry matches Err(e) ==> r
                == Result::<(), EnableError>::Err(EnableError::CefUrlRequestCreateUnavailable(e))),
    {
        if self.enabled {
            return Ok(());
        }
        match getaddrinfo_entry {
            Err(e) => {
                return Err(EnableError::GetAddrInfoUnavailable(e));
            },
            Ok(()) => {},
        }
        match cef_entry {
            Err(e) => {
                return Err(EnableError::CefUrlRequestCreateUnavailable(e));
            },
            Ok(()) => {},
        }
        self.enabled = true;
        Ok(())
    }

    /// Removes both hooks, restoring the original call targets. Disabling
    /// an already-disabled engine succeeds with no effect.
    pub fn disable(&mut self)
        ensures
            !final(self).enabled,
    {
        self.enabled = false;
    }
}

} // verus!

//! The control protocol between the host and the injected module.
//!
//! One loopback connection per session carries the host's requests —
//! register a logger, replace a ruleset, enable or disable filtering — and
//! the injected side's logger calls travel back over the same connection.
//! The transport and the event loop live in the binary; the meaning of each
//! request, and the order in which a batch of them takes effect, is decided
//! and proved here. Requests issued by one side are processed in the order
//! sent, so a later ruleset replacement always wins over an earlier one.

use vstd::prelude::*;
use vstd::string::StringExecFns;

use crate::blocker::FilterConfig;
use crate::filters::{
    FilterHook, FilterRuleset, Filters, RulesetView, patterns_accepted, spec_views_of,
};
use crate::hooks::HookEngine;

verus! {

/// One request on the control interface the injected side exposes.
#[derive(Debug, PartialEq, Eq)]
pub enum ControlRequest {
    /// Hand the injected side a callable reference to the host's logger.
    RegisterLogger,
    /// Replace the ruleset for one hook, wholesale.
    SetRuleset { hook: FilterHook, whitelist: Vec<String>, blacklist: Vec<String> },
    /// Install the native hooks for all hook points.
    EnableFiltering,
    /// Remove the installed hooks.
    DisableFiltering,
}

/// Whether both pattern lists of a replacement compile; an empty list
/// always does.
pub open spec fn spec_set_accepted(whitelist: Seq<String>, blacklist: Seq<String>) -> bool {
    (whitelist.len() == 0 || patterns_accepted(spec_views_of(whitelist))) && (blacklist.len() == 0
        || patterns_accepted(spec_views_of(blacklist)))
}

/// The ruleset a replacement request installs.
pub open spec fn spec_set_view(whitelist: Seq<String>, blacklist: Seq<String>) -> RulesetView {
    RulesetView { allow: spec_views_of(whitelist), deny: spec_views_of(blacklist) }
}

/// The ruleset in force for `h` after a batch of requests, processed in
/// order from an initial ruleset: the last accepted replacement for `h`
/// wins; rejected replacements and all other requests leave it untouched.
pub open spec fn spec_ruleset_after(
    init: RulesetView,
    requests: Seq<ControlRequest>,
    h: FilterHook,
) -> RulesetView
    decreases requests.len(),
{
    if requests.len() == 0 {
        init
    } else {
        let prev = spec_ruleset_after(init, requests.drop_last(), h);
        match requests.last() {
            ControlRequest::SetRuleset { hook, whitelist, blacklist } => {
            if hook == h && spec_set_accepted(whitelist@, blacklist@) {
                spec_set_view(whitelist@, blacklist@)
            } else {
                prev
            }
            },
            _ => prev,
        }
    }
}

/// One request's effect on the ruleset in force for `h`.
proof fn lemma_ruleset_after_one(init: RulesetView, request: ControlRequest, h: FilterHook)
    ensures
        spec_ruleset_after(init, seq![request], h) == (match request {
            ControlRequest::SetRuleset { hook, whitelist, blacklist } => {
                if hook == h && spec_set_accepted(whitelist@, blacklist@) {
                    spec_set_view(whitelist@, blacklist@)
                } else {
                    init
                }
            },
            _ => init,
        }),
{
    let s = seq![request];
    assert(s.drop_last() =~= Seq::<ControlRequest>::empty());
    assert(s.last() == request);
    assert(spec_ruleset_after(init, Seq::<ControlRequest>::empty(), h) == init);
}

/// Extending a batch by one request: the new request decides, or the batch
/// before it does.
proof fn lemma_ruleset_after_push(
    init: RulesetView,
    s: Seq<ControlRequest>,
    m: ControlRequest,
    h: FilterHook,
)
    ensures
        spec_ruleset_after(init, s.push(m), h) == (match m {
            ControlRequest::SetRuleset { hook, whitelist, blacklist } => {
                if hook == h && spec_set_accepted(whitelist@, blacklist@) {
                    spec_set_view(whitelist@, blacklist@)
                } else {
                    spec_ruleset_after(init, s, h)
                }
            },
            _ => spec_ruleset_after(init, s, h),
        }),
{
    assert(s.push(m).drop_last() =~= s);
    assert(s.push(m).last() == m);
}

/// Whether the native entry points resolved inside the target: what the
/// module and symbol lookups for each hook point reported.
#[derive(Debug, PartialEq, Eq)]
pub struct NativeEntries {
    pub getaddrinfo: Result<(), String>,
    pub cef_urlrequest_create: Result<(), String>,
}

/// The injected side's server: the rule store the hooks read, the engine
/// holding the hooks, and how many logger capabilities were registered.
pub struct ServerImpl {
    pub filters: Filters,
    pub engine: HookEngine,
    pub loggers: usize,
}

impl ServerImpl {
    /// A fresh server: an all-allow store, no hooks installed, no loggers.
    pub fn new() -> (r: ServerImpl)
        ensures
            forall|h: FilterHook|
                #![auto]
                r.filters.ruleset_of(h).allow.len() == 0 && r.filters.ruleset_of(h).deny.len()
                    == 0,
            !r.engine.enabled,
            r.loggers == 0,
    {
        ServerImpl { filters: Filters::empty(), engine: HookEngine::new(), loggers: 0 }
    }

    /// Registers one more logger capability.
    pub fn register_logger(&mut self)
        requires
            old(self).loggers < usize::MAX,
        ensures
            final(self).loggers == old(self).loggers + 1,
            final(self).filters == old(self).filters,
            final(self).engine == old(self).engine,
    {
        self.loggers = self.loggers + 1;
    }

    /// Replaces the ruleset for `hook`. The whole replacement is compiled
    /// first; if any pattern is malformed the request fails with that error
    /// and nothing changes — the prior ruleset stays in force entire. On
    /// success the new ruleset is published wholesale and the other hook is
    /// untouched.
    pub fn set_ruleset(&mut self, hook: FilterHook, whitelist: Vec<String>, blacklist: Vec<String>)
        -> (r: Result<(), String>)
        ensures
            r is Ok <==> spec_set_accepted(whitelist@, blacklist@),
            r is Ok ==> final(self).filters.ruleset_of(hook) == spec_set_view(
                whitelist@,
                blacklist@,
            ),
            r is Ok ==> forall|h: FilterHook|
                h != hook ==> final(self).filters.ruleset_of(h) == old(self).filters.ruleset_of(h),
            r is Err ==> forall|h: FilterHook|
                #![auto]
                final(self).filters.ruleset_of(h) == old(self).filters.ruleset_of(h),
            final(self).engine == old(self).engine,
            final(self).loggers == old(self).loggers,
    {
        match FilterRuleset::new(whitelist, blacklist) {
            Ok(ruleset) => {
                self.filters.replace_ruleset(hook, ruleset);
                Ok(())
            },
            Err(e) => Err(e),
        }
    }

    /// Installs the hooks for all hook points, given what the native
    /// lookups reported; on failure the error goes back to the caller and
    /// filtering stays disabled. Enabling twice succeeds with no effect.
    pub fn enable_filtering(&mut self, entries: &NativeEntries) -> (r: Result<(), String>)
        ensures
            r is Ok <==> (entries.getaddrinfo is Ok && entries.cef_urlrequest_create is Ok) || old(
                self,
            ).engine.enabled,
            final(self).engine.enabled == (old(self).engine.enabled || (entries.getaddrinfo is Ok
                && entries.cef_urlrequest_create is Ok)),
            forall|h: FilterHook|
                #![auto]
                final(self).filters.ruleset_of(h) == old(self).filters.ruleset_of(h),
            final(self).loggers == old(self).loggers,
    {
        let getaddrinfo: Result<(), String> = match &entries.getaddrinfo {
            Ok(()) => Ok(()),
            Err(e) => Err(e.clone()),
        };
        let cef: Result<(), String> = match &entries.cef_urlrequest_create {
            Ok(()) => Ok(()),
            Err(e) => Err(e.clone()),
        };
        match self.engine.enable(getaddrinfo, cef) {
            Ok(()) => Ok(()),
            Err(crate::hooks::EnableError::GetAddrInfoUnavailable(e)) => Err(e),
            Err(crate::hooks::EnableError::CefUrlRequestCreateUnavailable(e)) => Err(e),
        }
    }

    /// Removes the hooks; removing already-removed hooks succeeds with no
    /// effect.
    pub fn disable_filtering(&mut self) -> (r: Result<(), String>)
        ensures
            r is Ok,
            !final(self).engine.enabled,
            forall|h: FilterHook|
                #![auto]
                final(self).filters.ruleset_of(h) == old(self).filters.ruleset_of(h),
            final(self).loggers == old(self).loggers,
    {
        self.engine.disable();
        Ok(())
    }

    /// Dispatches one request, with the native lookup results at hand for
    /// an enable.
    pub fn handle_request(&mut self, request: ControlRequest, entries: &NativeEntries) -> (r: Result<
        (),
        String,
    >)
        requires
            old(self).loggers < usize::MAX,
        ensures
            forall|h: FilterHook|
                #![auto]
                final(self).filters.ruleset_of(h) == spec_ruleset_after(
                    old(self).filters.ruleset_of(h),
                    seq![request],
                    h,
                ),
            request is RegisterLogger ==> final(self).loggers == old(self).loggers + 1,
            !(request is RegisterLogger) ==> final(self).loggers == old(self).loggers,
            request is EnableFiltering ==> final(self).engine.enabled == (old(self).engine.enabled
                || (entries.getaddrinfo is Ok && entries.cef_urlrequest_create is Ok)),
            request is DisableFiltering ==> !final(self).engine.enabled,
            request is RegisterLogger || request is SetRuleset ==> final(self).engine == old(
                self,
            ).engine,
            request matches ControlRequest::SetRuleset { whitelist, blacklist, .. } ==> (r is Ok
                <==> spec_set_accepted(whitelist@, blacklist@)),
    {
        let ghost req = request;
        proof {
            assert forall|h: FilterHook| #![auto]
                spec_ruleset_after(old(self).filters.ruleset_of(h), seq![req], h) == (match req {
                    ControlRequest::SetRuleset { hook, whitelist, blacklist } => {
                        if hook == h && spec_set_accepted(whitelist@, blacklist@) {
                            spec_set_view(whitelist@, blacklist@)
                        } else {
                            old(self).filters.ruleset_of(h)
                        }
                    },
                    _ => old(self).filters.ruleset_of(h),
                }) by {
                lemma_ruleset_after_one(old(self).filters.ruleset_of(h), req, h);
            }
        }
        match request {
            ControlRequest::RegisterLogger => {
                self.register_logger();
                Ok(())
            },
            ControlRequest::SetRuleset { hook, whitelist, blacklist } => self.set_ruleset(
                hook,
                whitelist,
                blacklist,
            ),
            ControlRequest::EnableFiltering => self.enable_filtering(entries),
            ControlRequest::DisableFiltering => self.disable_filtering(),
        }
    }

    /// Handles a batch of requests in the order sent, returning each
    /// request's reply in the same order.
    pub fn handle_requests(&mut self, requests: Vec<ControlRequest>, entries: &NativeEntries)
        -> (r: Vec<Result<(), String>>)
        requires
            old(self).loggers + requests@.len() <= usize::MAX,
        ensures
            r@.len() == requests@.len(),
            forall|h: FilterHook|
                #![auto]
                final(self).filters.ruleset_of(h) == spec_ruleset_after(
                    old(self).filters.ruleset_of(h),
                    requests@,
                    h,
                ),
    {
        let ghost all = requests@;
        let ghost init = *old(self);
        let mut requests = requests;
        let mut replies: Vec<Result<(), String>> = Vec::new();
        let n = requests.len();
        let mut i: usize = 0;
        proof {
            assert(all.take(0) =~= Seq::<ControlRequest>::empty());
        }
        while i < n
            invariant
                n == all.len(),
                i <= n,
                requests@ == all.skip(i as int),
                replies@.len() == i,
                self.loggers <= init.loggers + i,
                init.loggers + n <= usize::MAX,
                forall|h: FilterHook|
                    #![auto]
                    self.filters.ruleset_of(h) == spec_ruleset_after(
                        init.filters.ruleset_of(h),
                        all.take(i as int),
                        h,
                    ),
            decreases n - i,
        {
            proof {
                assert(all.skip(i as int)[0] == all[i as int]);
                assert(all.skip(i as int).remove(0) =~= all.skip(i as int + 1));
            }
            let request = requests.remove(0);
            let ghost req = request;
            let ghost pre = *self;
            let reply = self.handle_request(request, entries);
            replies.push(reply);
            proof {
                assert forall|h: FilterHook| #![auto]
                    self.filters.ruleset_of(h) == spec_ruleset_after(
                        init.filters.ruleset_of(h),
                        all.take(i as int + 1),
                        h,
                    ) by {
                    lemma_ruleset_after_one(pre.filters.ruleset_of(h), req, h);
                    lemma_ruleset_after_push(
                        init.filters.ruleset_of(h),
                        all.take(i as int),
                        req,
                        h,
                    );
                    assert(all.take(i as int).push(req) =~= all.take(i as int + 1));
                }
            }
            i += 1;
        }
        proof {
            assert(all.take(n as int) =~= all);
        }
        replies
    }
}

/// Law: requests take effect in the order sent, so a later ruleset
/// replacement for a hook supersedes an earlier one. After any batch that
/// replaces the ruleset for `h` with `r1` and later with `r2` (accepted),
/// with anything but further replacements for `h` in between and after,
/// the ruleset in force for `h` is exactly `r2`'s — an evaluation after the
/// batch, for instance one following its enable request, never sees `r1`.
pub proof fn lemma_protocol_ordering(
    init: RulesetView,
    h: FilterHook,
    w1: Vec<String>,
    b1: Vec<String>,
    w2: Vec<String>,
    b2: Vec<String>,
)
    ensures
        spec_set_accepted(w2@, b2@) ==> spec_ruleset_after(
            init,
            seq![
                ControlRequest::SetRuleset { hook: h, whitelist: w1, blacklist: b1 },
                ControlRequest::SetRuleset { hook: h, whitelist: w2, blacklist: b2 },
                ControlRequest::EnableFiltering,
            ],
            h,
        ) == spec_set_view(w2@, b2@),
{
    let s1 = ControlRequest::SetRuleset { hook: h, whitelist: w1, blacklist: b1 };
    let s2 = ControlRequest::SetRuleset { hook: h, whitelist: w2, blacklist: b2 };
    let e = ControlRequest::EnableFiltering;
    let batch = seq![s1, s2, e];
    lemma_ruleset_after_one(init, s1, h);
    lemma_ruleset_after_push(init, seq![s1], s2, h);
    lemma_ruleset_after_push(init, seq![s1].push(s2), e, h);
    assert(seq![s1].push(s2) =~= seq![s1, s2]);
    assert(seq![s1].push(s2).push(e) =~= batch);
}

/// The handshake a host runs right after connecting, in order: register the
/// logger, push the allowlist as the address-resolution hook's allow
/// patterns (no deny patterns), push the denylist as the request hook's
/// deny patterns (no allow patterns), then enable filtering. This mapping
/// of the configuration onto the two hooks is fixed.
pub fn attach_requests(config: FilterConfig) -> (r: Vec<ControlRequest>)
    ensures
        r@.len() == 4,
        r@[0] == ControlRequest::RegisterLogger,
        r@[1] matches ControlRequest::SetRuleset { hook, whitelist, blacklist } && hook
            == FilterHook::GetAddrInfo && whitelist@ == config.allowlist@ && blacklist@.len() == 0,
        r@[2] matches ControlRequest::SetRuleset { hook, whitelist, blacklist } && hook
            == FilterHook::CefUrlRequestCreate && whitelist@.len() == 0 && blacklist@
            == config.denylist@,
        r@[3] == ControlRequest::EnableFiltering,
{
    let mut requests: Vec<ControlRequest> = Vec::new();
    requests.push(ControlRequest::RegisterLogger);
    requests.push(
        ControlRequest::SetRuleset {
            hook: FilterHook::GetAddrInfo,
            whitelist: config.allowlist,
            blacklist: Vec::new(),
        },
    );
    requests.push(
        ControlRequest::SetRuleset {
            hook: FilterHook::CefUrlRequestCreate,
            whitelist: Vec::new(),
            blacklist: config.denylist,
        },
    );
    requests.push(ControlRequest::EnableFiltering);
    requests
}

/// The wire name of a hook point, as it appears in log lines.
pub open spec fn spec_hook_name(hook: FilterHook) -> Seq<char> {
    match hook {
        FilterHook::GetAddrInfo => "getaddrinfo"@,
        FilterHook::CefUrlRequestCreate => "cef_urlrequest_create"@,
    }
}

/// The wire name of a hook point.
pub fn hook_name(hook: FilterHook) -> (r: &'static str)
    ensures
        r@ == spec_hook_name(hook),
{
    match hook {
        FilterHook::GetAddrInfo => "getaddrinfo",
        FilterHook::CefUrlRequestCreate => "cef_urlrequest_create",
    }
}

/// The line the host's logger prints for one filtering decision: a minus
/// sign for a blocked call and a plus sign for one that passed, the hook's
/// name, and the candidate string.
pub open spec fn spec_request_line(hook: FilterHook, blocked: bool, url: Seq<char>) -> Seq<char> {
    "["@ + (if blocked {
        "-"@
    } else {
        "+"@
    }) + "] ("@ + spec_hook_name(hook) + ") "@ + url
}

/// Formats one filtering decision for the log sinks.
pub fn format_request_line(hook: FilterHook, blocked: bool, url: &str) -> (r: String)
    ensures
        r@ == spec_request_line(hook, blocked, url@),
{
    let mut line = String::from_str("[");
    line.append(if blocked {
        "-"
    } else {
        "+"
    });
    line.append("] (");
    line.append(hook_name(hook));
    line.append(") ");
    line.append(url);
    line
}

/// The injected module's endpoint state, driven by its two exported entry
/// points. Starting is idempotent: a second start returns the existing
/// endpoint's port instead of opening another one.
pub struct RpcRuntime {
    /// The loopback port the endpoint listens on, while one exists.
    pub endpoint_port: Option<u16>,
}

impl RpcRuntime {
    /// A module with no endpoint yet.
    pub fn new() -> (r: RpcRuntime)
        ensures
            r.endpoint_port is None,
    {
        RpcRuntime { endpoint_port: None }
    }

    /// The exported start entry point: opens the endpoint — the binary has
    /// bound a listener on `fresh_port` — unless one is already open, and
    /// returns the port of the endpoint in force.
    pub fn start_rpc(&mut self, fresh_port: u16) -> (r: u16)
        ensures
            final(self).endpoint_port == Some(r),
            r == match old(self).endpoint_port {
                Some(p) => p,
                None => fresh_port,
            },
    {
        match self.endpoint_port {
            Some(p) => p,
            None => {
                self.endpoint_port = Some(fresh_port);
                fresh_port
            },
        }
    }

    /// The exported stop entry point: if an endpoint exists, the hooks are
    /// removed and the endpoint is shut down; stopping an already-stopped
    /// module succeeds with no effect, and in particular does not touch the
    /// engine.
    pub fn stop_rpc(&mut self, engine: &mut HookEngine)
        ensures
            final(self).endpoint_port is None,
            old(self).endpoint_port is Some ==> !final(engine).enabled,
            old(self).endpoint_port is None ==> *final(engine) == *old(engine),
    {
        match self.endpoint_port {
            Some(_) => {
                engine.disable();
                self.endpoint_port = None;
            },
            None => {},
        }
    }
}

} // verus!

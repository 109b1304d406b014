//! The rule store: one hot-swappable allow/deny ruleset per hook point.
//!
//! A ruleset holds two compiled pattern sets. A candidate string is allowed
//! exactly when the allow side is empty or matches it, and the deny side
//! does not match it. The store publishes one whole ruleset per hook at a
//! time through an atomically swapped reference, so a reader never sees a
//! ruleset whose two sides come from different replacements.

use vstd::prelude::*;

verus! {

/// The interception sites a ruleset can govern: the address-resolution
/// entry point, and the request constructor of the embedded browser engine.
#[derive(Clone, Copy, Debug, PartialEq, Eq, Structural)]
pub enum FilterHook {
    GetAddrInfo,
    CefUrlRequestCreate,
}

impl FilterHook {
    /// The index of this hook in any dense per-hook table.
    pub fn into_usize(self) -> (r: usize)
        ensures
            r == spec_hook_index(self),
    {
        match self {
            FilterHook::GetAddrInfo => 0,
            FilterHook::CefUrlRequestCreate => 1,
        }
    }

    /// The hook at a dense table index; indices are exactly 0 and 1.
    pub fn from_usize(value: usize) -> (r: FilterHook)
        requires
            value < 2,
        ensures
            spec_hook_index(r) == value,
    {
        if value == 0 {
            FilterHook::GetAddrInfo
        } else {
            FilterHook::CefUrlRequestCreate
        }
    }
}

pub open spec fn spec_hook_index(hook: FilterHook) -> usize {
    match hook {
        FilterHook::GetAddrInfo => 0,
        FilterHook::CefUrlRequestCreate => 1,
    }
}

/// A compiled set of regex patterns, from the regex crate; opaque here, and
/// spoken of only through the names below.
#[verifier::external_type_specification]
#[verifier::external_body]
pub struct ExRegexSet(regex::RegexSet);

/// The patterns a compiled pattern set was built from, in order.
pub uninterp spec fn patterns_of(rs: regex::RegexSet) -> Seq<Seq<char>>;

/// Relies on regex::RegexSet's derived Clone: the clone shares the original's
/// pattern list.
pub assume_specification[ <regex::RegexSet as Clone>::clone ](rs: &regex::RegexSet) -> (r:
    regex::RegexSet)
    ensures
        patterns_of(r) == patterns_of(*rs),
;

/// Whether one regex pattern matches (anywhere in) a text.
pub uninterp spec fn pattern_matches(pattern: Seq<char>, text: Seq<char>) -> bool;

/// Whether a list of patterns compiles into a pattern set.
pub uninterp spec fn patterns_accepted(patterns: Seq<Seq<char>>) -> bool;

pub open spec fn spec_views_of(patterns: Seq<String>) -> Seq<Seq<char>> {
    patterns.map_values(|p: String| p@)
}

/// Whether any pattern of the set matches the text.
pub open spec fn matches_any(patterns: Seq<Seq<char>>, text: Seq<char>) -> bool {
    exists|i: int| 0 <= i < patterns.len() && pattern_matches(patterns[i], text)
}

/// Relies on regex::RegexSet::new: it returns Ok exactly when the given
/// patterns compile into a set, and the set then reports those patterns in
/// the given order. The error is rendered to its display string.
#[verifier::external_body]
fn regex_set_new(patterns: &Vec<String>) -> (r: Result<regex::RegexSet, String>)
    ensures
        r is Ok <==> patterns_accepted(spec_views_of(patterns@)),
        r matches Ok(rs) ==> patterns_of(rs) == spec_views_of(patterns@),
{
    regex::RegexSet::new(patterns.iter()).map_err(|e| e.to_string())
}

/// Relies on regex::RegexSet::empty: a set of no patterns, which matches
/// nothing.
#[verifier::external_body]
fn regex_set_empty() -> (r: regex::RegexSet)
    ensures
        patterns_of(r) == Seq::<Seq<char>>::empty(),
{
    regex::RegexSet::empty()
}

/// Relies on regex::RegexSet::is_match: true if and only if one of the
/// set's patterns matches the haystack.
#[verifier::external_body]
fn regex_set_is_match(rs: &regex::RegexSet, haystack: &str) -> (r: bool)
    ensures
        r == (exists|i: int|
            0 <= i < patterns_of(*rs).len() && pattern_matches(patterns_of(*rs)[i], haystack@)),
{
    rs.is_match(haystack)
}

/// Relies on regex::RegexSet::is_empty: true if and only if the set holds
/// no patterns.
#[verifier::external_body]
fn regex_set_is_empty(rs: &regex::RegexSet) -> (r: bool)
    ensures
        r == (patterns_of(*rs).len() == 0),
{
    rs.is_empty()
}

/// What one ruleset amounts to: the allow patterns and the deny patterns
/// it was built from.
pub struct RulesetView {
    pub allow: Seq<Seq<char>>,
    pub deny: Seq<Seq<char>>,
}

/// The allow/deny semantics: allowed iff the allow side is empty or matches,
/// and the deny side does not match.
pub open spec fn ruleset_allows(r: RulesetView, text: Seq<char>) -> bool {
    (r.allow.len() == 0 || matches_any(r.allow, text)) && !matches_any(r.deny, text)
}

/// One hook point's rules: compiled allow patterns and deny patterns.
/// Immutable once constructed; the store replaces it wholesale.
#[derive(Clone, Debug)]
pub struct FilterRuleset {
    pub whitelist: regex::RegexSet,
    pub blacklist: regex::RegexSet,
}

impl View for FilterRuleset {
    type V = RulesetView;

    open spec fn view(&self) -> RulesetView {
        RulesetView { allow: patterns_of(self.whitelist), deny: patterns_of(self.blacklist) }
    }
}

impl FilterRuleset {
    /// Compiles a ruleset from its pattern lists. Fails, with the offending
    /// side's error text, exactly when a non-empty side does not compile;
    /// an empty side always compiles to the set that matches nothing.
    pub fn new(allow: Vec<String>, deny: Vec<String>) -> (r: Result<FilterRuleset, String>)
        ensures
            r is Ok <==> ((allow@.len() == 0 || patterns_accepted(spec_views_of(allow@)))
                && (deny@.len() == 0 || patterns_accepted(spec_views_of(deny@)))),
            r matches Ok(rs) ==> rs@.allow == spec_views_of(allow@) && rs@.deny == spec_views_of(
                deny@,
            ),
    {
        let whitelist = if allow.len() == 0 {
            proof {
                assert(spec_views_of(allow@) =~= Seq::<Seq<char>>::empty());
            }
            regex_set_empty()
        } else {
            match regex_set_new(&allow) {
                Ok(rs) => rs,
                Err(e) => {
                    return Err(e);
                },
            }
        };
        let blacklist = if deny.len() == 0 {
            proof {
                assert(spec_views_of(deny@) =~= Seq::<Seq<char>>::empty());
            }
            regex_set_empty()
        } else {
            match regex_set_new(&deny) {
                Ok(rs) => rs,
                Err(e) => {
                    return Err(e);
                },
            }
        };
        Ok(FilterRuleset { whitelist, blacklist })
    }

    /// An all-allow ruleset: no allow patterns, no deny patterns.
    pub fn empty() -> (r: FilterRuleset)
        ensures
            r@.allow.len() == 0,
            r@.deny.len() == 0,
    {
        FilterRuleset { whitelist: regex_set_empty(), blacklist: regex_set_empty() }
    }

    /// Whether this ruleset lets the candidate string through.
    pub fn check(&self, request: &str) -> (r: bool)
        ensures
            r == ruleset_allows(self@, request@),
    {
        (regex_set_is_empty(&self.whitelist) || regex_set_is_match(&self.whitelist, request))
            && !regex_set_is_match(&self.blacklist, request)
    }
}

/// One published ruleset reference. The cell wraps an atomically swapped
/// reference, so a store is a single whole-value publication and a load
/// yields one complete previously published ruleset. Verus refuses the
/// declaration of the underlying swap type (its bounds are foreign traits),
/// so the cell is held opaquely and spoken of through `cell_allow` and
/// `cell_deny`.
#[verifier::external_body]
pub struct RulesetCell {
    cell: arc_swap::ArcSwap<FilterRuleset>,
}

/// The allow patterns of the ruleset a cell currently publishes.
pub uninterp spec fn cell_allow(c: &RulesetCell) -> Seq<Seq<char>>;

/// The deny patterns of the ruleset a cell currently publishes.
pub uninterp spec fn cell_deny(c: &RulesetCell) -> Seq<Seq<char>>;

pub open spec fn cell_view(c: &RulesetCell) -> RulesetView {
    RulesetView { allow: cell_allow(c), deny: cell_deny(c) }
}

/// Relies on arc_swap::ArcSwapAny::from_pointee: the cell starts out
/// publishing exactly the given ruleset.
#[verifier::external_body]
fn cell_new(ruleset: FilterRuleset) -> (c: RulesetCell)
    ensures
        cell_allow(&c) == ruleset@.allow,
        cell_deny(&c) == ruleset@.deny,
{
    RulesetCell { cell: arc_swap::ArcSwap::from_pointee(ruleset) }
}

/// Relies on arc_swap::ArcSwapAny::store: a single atomic swap that makes
/// the cell publish the given ruleset whole.
#[verifier::external_body]
fn cell_store(c: &mut RulesetCell, ruleset: FilterRuleset)
    ensures
        cell_allow(final(c)) == ruleset@.allow,
        cell_deny(final(c)) == ruleset@.deny,
{
    c.cell.store(std::sync::Arc::new(ruleset));
}

/// Relies on arc_swap::ArcSwapAny::load_full: the value handed out is the
/// one complete ruleset the cell currently publishes.
#[verifier::external_body]
fn cell_load(c: &RulesetCell) -> (r: FilterRuleset)
    ensures
        r@.allow == cell_allow(c),
        r@.deny == cell_deny(c),
{
    FilterRuleset::clone(&c.cell.load_full())
}

/// The rule store: the currently published ruleset of each hook point.
/// Created all-allow; each control message replaces one hook's ruleset
/// wholesale.
pub struct Filters {
    getaddrinfo: RulesetCell,
    cef_urlrequest_create: RulesetCell,
}

impl Filters {
    /// The ruleset currently published for a hook.
    pub closed spec fn ruleset_of(&self, hook: FilterHook) -> RulesetView {
        match hook {
            FilterHook::GetAddrInfo => cell_view(&self.getaddrinfo),
            FilterHook::CefUrlRequestCreate => cell_view(&self.cef_urlrequest_create),
        }
    }

    /// A store that allows everything: every hook's ruleset has no allow
    /// patterns and no deny patterns.
    pub fn empty() -> (r: Filters)
        ensures
            forall|hook: FilterHook|
                #![auto]
                r.ruleset_of(hook).allow.len() == 0 && r.ruleset_of(hook).deny.len() == 0,
    {
        Filters {
            getaddrinfo: cell_new(FilterRuleset::empty()),
            cef_urlrequest_create: cell_new(FilterRuleset::empty()),
        }
    }

    /// Publishes `ruleset` for `hook` in one atomic replacement; the other
    /// hook's ruleset is untouched.
    pub fn replace_ruleset(&mut self, hook: FilterHook, ruleset: FilterRuleset)
        ensures
            final(self).ruleset_of(hook) == ruleset@,
            forall|h: FilterHook| h != hook ==> final(self).ruleset_of(h) == old(self).ruleset_of(h),
    {
        match hook {
            FilterHook::GetAddrInfo => cell_store(&mut self.getaddrinfo, ruleset),
            FilterHook::CefUrlRequestCreate => cell_store(&mut self.cef_urlrequest_create, ruleset),
        }
    }

    /// Evaluates the candidate against the ruleset currently published for
    /// `hook`: allowed iff that ruleset's allow side is empty or matches and
    /// its deny side does not match.
    pub fn check(&self, hook: FilterHook, request: &str) -> (r: bool)
        ensures
            r == ruleset_allows(self.ruleset_of(hook), request@),
    {
        let ruleset = match hook {
            FilterHook::GetAddrInfo => cell_load(&self.getaddrinfo),
            FilterHook::CefUrlRequestCreate => cell_load(&self.cef_urlrequest_create),
        };
        ruleset.check(request)
    }
}

/// Law: rulesets are replaced wholesale, never field by field. If one
/// replacement published `r1` for a hook and a later one published `r2`,
/// then what `check` observes for that hook after the later replacement is
/// `r2` on both sides; no observation pairs one replacement's allow side
/// with another's deny side.
pub proof fn lemma_replace_is_wholesale(
    f1: Filters,
    f2: Filters,
    hook: FilterHook,
    r1: FilterRuleset,
    r2: FilterRuleset,
)
    requires
        f1.ruleset_of(hook) == r1@,
        f2.ruleset_of(hook) == r2@,
    ensures
        f2.ruleset_of(hook).allow == r2@.allow && f2.ruleset_of(hook).deny == r2@.deny,
        f1.ruleset_of(hook).allow == r1@.allow && f1.ruleset_of(hook).deny == r1@.deny,
{
}

} // verus!

//! The process watcher: decides, from window titles, window classes and
//! process names, whether the target application's main window is present,
//! and tracks its appearance and disappearance as a two-state machine.
//!
//! The binary enumerates processes and windows and subscribes to the
//! system's window-creation and window-destruction feeds; every judgement
//! about what it saw is made here.

use vstd::prelude::*;
use vstd::string::StrSliceExecFns;
use vstd::string::StringSliceAdditionalSpecFns;

verus! {

/// Lowercasing of one byte, ASCII-wise: letters fold, everything else is
/// untouched.
pub open spec fn spec_lower_byte(b: u8) -> u8 {
    if 65 <= b <= 90 {
        (b + 32) as u8
    } else {
        b
    }
}

/// Whether `needle`, compared ASCII-case-insensitively, occurs in `s` at
/// position `i`.
pub open spec fn spec_lower_match_at(s: Seq<u8>, needle: Seq<u8>, i: int) -> bool {
    forall|j: int| 0 <= j < needle.len() ==> spec_lower_byte(s[i + j]) == needle[j]
}

/// Whether `needle` occurs anywhere in `s` once `s` is lowercased ASCII-wise.
pub open spec fn spec_contains_lower(s: Seq<u8>, needle: Seq<u8>) -> bool {
    exists|i: int| 0 <= i <= s.len() - needle.len() && spec_lower_match_at(s, needle, i)
}

fn lower_byte(b: u8) -> (r: u8)
    ensures
        r == spec_lower_byte(b),
{
    if 65 <= b && b <= 90 {
        b + 32
    } else {
        b
    }
}

fn lower_match_at(s: &Vec<u8>, needle: &Vec<u8>, i: usize) -> (r: bool)
    requires
        i + needle@.len() <= s@.len(),
    ensures
        r == spec_lower_match_at(s@, needle@, i as int),
{
    let nl = needle.len();
    let sl = s.len();
    let mut j: usize = 0;
    while j < nl
        invariant
            nl == needle@.len(),
            sl == s@.len(),
            i + nl <= sl,
            j <= nl,
            forall|t: int| 0 <= t < j ==> spec_lower_byte(s@[i + t]) == needle@[t],
        decreases nl - j,
    {
        if lower_byte(s[i + j]) != needle[j] {
            proof {
                assert(spec_lower_byte(s@[i + j]) != needle@[j as int]);
            }
            return false;
        }
        j += 1;
    }
    true
}

/// Whether `needle` occurs in `s` when `s` is lowercased ASCII-wise;
/// `needle` is expected to be lowercase already.
fn contains_lower(s: &Vec<u8>, needle: &Vec<u8>) -> (r: bool)
    ensures
        r == spec_contains_lower(s@, needle@),
{
    let sl = s.len();
    let nl = needle.len();
    if nl > sl {
        return false;
    }
    let mut i: usize = 0;
    while i <= sl - nl
        invariant
            nl <= sl,
            sl == s@.len(),
            nl == needle@.len(),
            i <= sl - nl + 1,
            forall|k: int| 0 <= k < i ==> !spec_lower_match_at(s@, needle@, k),
        decreases sl - nl - i + 1,
    {
        if lower_match_at(s, needle, i) {
            return true;
        }
        i += 1;
    }
    false
}

/// Whether two strings hold the same characters.
fn str_eq(a: &str, b: &str) -> (r: bool)
    ensures
        r == (a@ == b@),
{
    let al = a.unicode_len();
    let bl = b.unicode_len();
    if al != bl {
        return false;
    }
    let mut i: usize = 0;
    while i < al
        invariant
            al == a@.len(),
            al == b@.len(),
            i <= al,
            forall|j: int| 0 <= j < i ==> a@[j] == b@[j],
        decreases al - i,
    {
        if a.get_char(i) != b.get_char(i) {
            return false;
        }
        i += 1;
    }
    proof {
        assert(a@ =~= b@);
    }
    true
}

/// Whether `s` starts with the characters of `prefix`.
pub open spec fn spec_starts_with(s: Seq<char>, prefix: Seq<char>) -> bool {
    prefix.len() <= s.len() && (forall|j: int| 0 <= j < prefix.len() ==> s[j] == prefix[j])
}

fn starts_with(s: &str, prefix: &str) -> (r: bool)
    ensures
        r == spec_starts_with(s@, prefix@),
{
    let sl = s.unicode_len();
    let pl = prefix.unicode_len();
    if pl > sl {
        return false;
    }
    let mut i: usize = 0;
    while i < pl
        invariant
            sl == s@.len(),
            pl == prefix@.len(),
            pl <= sl,
            i <= pl,
            forall|j: int| 0 <= j < i ==> s@[j] == prefix@[j],
        decreases pl - i,
    {
        if s.get_char(i) != prefix.get_char(i) {
            return false;
        }
        i += 1;
    }
    true
}

/// Whether a character counts as white space for trimming.
pub uninterp spec fn char_is_whitespace(c: char) -> bool;

/// Relies on char::is_whitespace: the Unicode white-space property of one
/// character; a plain space has it.
#[verifier::external_body]
fn is_whitespace_char(c: char) -> (r: bool)
    ensures
        r == char_is_whitespace(c),
        c == ' ' ==> r,
{
    c.is_whitespace()
}

/// Whether the string trims to nothing: every character is white space.
pub open spec fn spec_blank(s: Seq<char>) -> bool {
    forall|i: int| 0 <= i < s.len() ==> char_is_whitespace(s[i])
}

fn is_blank(s: &str) -> (r: bool)
    ensures
        r == spec_blank(s@),
{
    let sl = s.unicode_len();
    let mut i: usize = 0;
    while i < sl
        invariant
            sl == s@.len(),
            i <= sl,
            forall|j: int| 0 <= j < i ==> char_is_whitespace(s@[j]),
        decreases sl - i,
    {
        if !is_whitespace_char(s.get_char(i)) {
            return false;
        }
        i += 1;
    }
    true
}

/// The fixed lowercase byte string looked for in a process name.
pub open spec fn spec_spotify_needle() -> Seq<u8> {
    seq![115u8, 112u8, 111u8, 116u8, 105u8, 102u8, 121u8]
}

/// Whether a process name names the target application: lowercased
/// ASCII-wise, it contains "spotify".
pub open spec fn spec_spotify_name(name: Seq<char>) -> bool {
    spec_contains_lower(vstd::utf8::encode_utf8(name), spec_spotify_needle())
}

/// Whether this process name belongs to the target application.
pub fn is_spotify_process(name: &str) -> (r: bool)
    ensures
        r == spec_spotify_name(name@),
{
    let bytes = name.as_bytes_vec();
    let needle: Vec<u8> = vec![115u8, 112u8, 111u8, 116u8, 105u8, 102u8, 121u8];
    proof {
        assert(needle@ =~= spec_spotify_needle());
    }
    contains_lower(&bytes, &needle)
}

/// Whether a window, judged by its title and class, is the target's main
/// window: a non-blank title that is not one of the known placeholder
/// titles, and one of the embedded browser engine's container classes.
pub open spec fn spec_main_window(title: Seq<char>, class_name: Seq<char>) -> bool {
    &&& !spec_blank(title)
    &&& title != "G"@
    &&& title != "Default IME"@
    &&& (spec_starts_with(class_name, "Chrome_WidgetWin"@) || class_name
        == "Chrome_RenderWidgetHostHWND"@ || class_name == "GDI+ Hook Window Class"@)
}

/// Whether this title and class describe the target's main window. A window
/// whose title or class cannot be read at all does not qualify; the caller
/// leaves such windows out.
pub fn is_main_spotify_window(title: &str, class_name: &str) -> (r: bool)
    ensures
        r == spec_main_window(title@, class_name@),
{
    if is_blank(title) {
        return false;
    }
    if str_eq(title, "G") || str_eq(title, "Default IME") {
        return false;
    }
    starts_with(class_name, "Chrome_WidgetWin") || str_eq(class_name, "Chrome_RenderWidgetHostHWND")
        || str_eq(class_name, "GDI+ Hook Window Class")
}

/// One window as the binary saw it during enumeration.
#[derive(Debug, Clone)]
pub struct WindowSnapshot {
    pub handle: u64,
    pub title: String,
    pub class_name: String,
}

/// What a window snapshot amounts to.
pub struct WindowView {
    pub handle: u64,
    pub title: Seq<char>,
    pub class_name: Seq<char>,
}

impl View for WindowSnapshot {
    type V = WindowView;

    open spec fn view(&self) -> WindowView {
        WindowView { handle: self.handle, title: self.title@, class_name: self.class_name@ }
    }
}

/// One process as the binary saw it during enumeration, with the windows of
/// its threads in enumeration order.
#[derive(Debug, Clone)]
pub struct ProcessSnapshot {
    pub process_id: u32,
    pub name: String,
    pub windows: Vec<WindowSnapshot>,
}

/// What a process snapshot amounts to.
pub struct ProcessView {
    pub process_id: u32,
    pub name: Seq<char>,
    pub windows: Seq<WindowView>,
}

impl View for ProcessSnapshot {
    type V = ProcessView;

    open spec fn view(&self) -> ProcessView {
        ProcessView {
            process_id: self.process_id,
            name: self.name@,
            windows: self.windows@.map_values(|w: WindowSnapshot| w@),
        }
    }
}

/// The tracked target instance: its process and its main window.
#[derive(Debug, Clone, Copy, PartialEq, Eq, Structural)]
pub struct SpotifyInfo {
    pub process_id: u32,
    pub main_window: u64,
}

/// What the watcher reports: the target is present, or it is gone.
#[derive(Debug, Clone, Copy, PartialEq, Eq, Structural)]
pub enum SpotifyState {
    Running(SpotifyInfo),
    Stopped,
}

pub open spec fn spec_window_matches(w: WindowView) -> bool {
    spec_main_window(w.title, w.class_name)
}

/// The first window of the list that qualifies as a main window.
pub open spec fn spec_first_main_window(windows: Seq<WindowView>) -> Option<u64>
    decreases windows.len(),
{
    if windows.len() == 0 {
        None
    } else if spec_window_matches(windows[0]) {
        Some(windows[0].handle)
    } else {
        spec_first_main_window(windows.skip(1))
    }
}

/// The first process of the enumeration whose name matches and that owns a
/// qualifying main window, together with that window.
pub open spec fn spec_scan(processes: Seq<ProcessView>) -> Option<SpotifyInfo>
    decreases processes.len(),
{
    if processes.len() == 0 {
        None
    } else {
        let p = processes[0];
        let rest = spec_scan(processes.skip(1));
        if spec_spotify_name(p.name) {
            match spec_first_main_window(p.windows) {
                Some(h) => Some(SpotifyInfo { process_id: p.process_id, main_window: h }),
                None => rest,
            }
        } else {
            rest
        }
    }
}

fn first_main_window(windows: &Vec<WindowSnapshot>) -> (r: Option<u64>)
    ensures
        r == spec_first_main_window(windows@.map_values(|w: WindowSnapshot| w@)),
{
    let ghost all = windows@.map_values(|w: WindowSnapshot| w@);
    let n = windows.len();
    let mut i: usize = 0;
    proof {
        assert(all.skip(0) =~= all);
    }
    while i < n
        invariant
            n == windows@.len(),
            all == windows@.map_values(|w: WindowSnapshot| w@),
            i <= n,
            spec_first_main_window(all) == spec_first_main_window(all.skip(i as int)),
        decreases n - i,
    {
        let w = &windows[i];
        proof {
            assert(all.skip(i as int)[0] == all[i as int]);
        }
        if is_main_spotify_window(w.title.as_str(), w.class_name.as_str()) {
            return Some(w.handle);
        }
        proof {
            assert(all.skip(i as int).skip(1) =~= all.skip(i as int + 1));
        }
        i += 1;
    }
    proof {
        assert(all.skip(n as int) =~= Seq::<WindowView>::empty());
    }
    None
}

/// The initial synchronous sweep: walks the enumerated processes in order
/// and reports the first one whose name matches and that owns a qualifying
/// main window. If several candidates exist, the first in enumeration order
/// wins; within one process, the first qualifying window wins.
pub fn scan(processes: &Vec<ProcessSnapshot>) -> (r: Option<SpotifyInfo>)
    ensures
        r == spec_scan(processes@.map_values(|p: ProcessSnapshot| p@)),
{
    let ghost all = processes@.map_values(|p: ProcessSnapshot| p@);
    let n = processes.len();
    let mut i: usize = 0;
    proof {
        assert(all.skip(0) =~= all);
    }
    while i < n
        invariant
            n == processes@.len(),
            all == processes@.map_values(|p: ProcessSnapshot| p@),
            i <= n,
            spec_scan(all) == spec_scan(all.skip(i as int)),
        decreases n - i,
    {
        let p = &processes[i];
        proof {
            assert(all.skip(i as int)[0] == all[i as int]);
            assert(all.skip(i as int).skip(1) =~= all.skip(i as int + 1));
        }
        if is_spotify_process(p.name.as_str()) {
            match first_main_window(&p.windows) {
                Some(h) => {
                    return Some(SpotifyInfo { process_id: p.process_id, main_window: h });
                },
                None => {},
            }
        }
        i += 1;
    }
    proof {
        assert(all.skip(n as int) =~= Seq::<ProcessView>::empty());
    }
    None
}

/// One notification from the window feeds, decoded to plain values by the
/// binary. A creation whose window or owning process could not be resolved
/// yields no event.
#[derive(Debug, Clone)]
pub enum WatcherEvent {
    /// A top-level window appeared somewhere in the system, with its owning
    /// process resolved.
    WindowShown {
        window: u64,
        process_id: u32,
        process_name: String,
        title: String,
        class_name: String,
    },
    /// A window of the watched process was destroyed.
    WindowDestroyed { window: u64 },
}

/// The subscription each watcher state keeps: exactly one at a time.
#[derive(Debug, Clone, Copy, PartialEq, Eq, Structural)]
pub enum WatcherSubscription {
    /// While stopped: all window creations system-wide, except our own
    /// process and thread.
    AllCreations,
    /// While running: window destructions scoped to the tracked process.
    DestructionsOf { process_id: u32 },
}

/// The subscription that must be live in a given state.
pub fn subscription_for(state: &SpotifyState) -> (r: WatcherSubscription)
    ensures
        r == match state {
            SpotifyState::Stopped => WatcherSubscription::AllCreations,
            SpotifyState::Running(info) => WatcherSubscription::DestructionsOf {
                process_id: info.process_id,
            },
        },
{
    match state {
        SpotifyState::Stopped => WatcherSubscription::AllCreations,
        SpotifyState::Running(info) => WatcherSubscription::DestructionsOf {
            process_id: info.process_id,
        },
    }
}

/// What one event does to the watcher: the state afterwards, and the
/// transition emitted, if any.
pub open spec fn spec_watcher_step(state: SpotifyState, event: WatcherEvent) -> (
    SpotifyState,
    Option<SpotifyState>,
) {
    match state {
        SpotifyState::Stopped => match event {
            WatcherEvent::WindowShown { window, process_id, process_name, title, class_name } => {
                if spec_spotify_name(process_name@) && spec_main_window(title@, class_name@) {
                    let info = SpotifyInfo { process_id, main_window: window };
                    (SpotifyState::Running(info), Some(SpotifyState::Running(info)))
                } else {
                    (SpotifyState::Stopped, None)
                }
            },
            WatcherEvent::WindowDestroyed { .. } => (SpotifyState::Stopped, None),
        },
        SpotifyState::Running(info) => match event {
            WatcherEvent::WindowShown { .. } => (SpotifyState::Running(info), None),
            WatcherEvent::WindowDestroyed { window } => {
                if window == info.main_window {
                    (SpotifyState::Stopped, Some(SpotifyState::Stopped))
                } else {
                    (SpotifyState::Running(info), None)
                }
            },
        },
    }
}

/// Advances the watcher by one event. While stopped, only a creation whose
/// process name and window both qualify moves it to running and emits that
/// transition; while running, only the destruction of the tracked main
/// window moves it back to stopped and emits that. Everything else — other
/// windows of the same process, creations while already running, duplicate
/// sightings of the tracked window — is a no-op.
pub fn watcher_step(state: SpotifyState, event: &WatcherEvent) -> (r: (
    SpotifyState,
    Option<SpotifyState>,
))
    ensures
        r == spec_watcher_step(state, *event),
{
    match state {
        SpotifyState::Stopped => match event {
            WatcherEvent::WindowShown { window, process_id, process_name, title, class_name } => {
                if is_spotify_process(process_name.as_str()) && is_main_spotify_window(
                    title.as_str(),
                    class_name.as_str(),
                ) {
                    let info = SpotifyInfo { process_id: *process_id, main_window: *window };
                    (SpotifyState::Running(info), Some(SpotifyState::Running(info)))
                } else {
                    (SpotifyState::Stopped, None)
                }
            },
            WatcherEvent::WindowDestroyed { .. } => (SpotifyState::Stopped, None),
        },
        SpotifyState::Running(info) => match event {
            WatcherEvent::WindowShown { .. } => (SpotifyState::Running(info), None),
            WatcherEvent::WindowDestroyed { window } => {
                if *window == info.main_window {
                    (SpotifyState::Stopped, Some(SpotifyState::Stopped))
                } else {
                    (SpotifyState::Running(info), None)
                }
            },
        },
    }
}

/// The transitions emitted when a sequence of events is fed to the watcher.
pub open spec fn spec_watcher_emissions(state: SpotifyState, events: Seq<WatcherEvent>) -> Seq<
    SpotifyState,
>
    decreases events.len(),
{
    if events.len() == 0 {
        Seq::empty()
    } else {
        let (next, emitted) = spec_watcher_step(state, events[0]);
        let rest = spec_watcher_emissions(next, events.skip(1));
        match emitted {
            Some(t) => seq![t] + rest,
            None => rest,
        }
    }
}

/// Feeds a scripted sequence of events to the watcher and collects the
/// transitions it emits, in order.
pub fn run_watcher(initial: SpotifyState, events: &Vec<WatcherEvent>) -> (r: Vec<SpotifyState>)
    ensures
        r@ == spec_watcher_emissions(initial, events@),
{
    let mut out: Vec<SpotifyState> = Vec::new();
    let mut state = initial;
    let n = events.len();
    let ghost all = events@;
    let mut i: usize = 0;
    proof {
        assert(all.skip(0) =~= all);
        assert(Seq::<SpotifyState>::empty() + spec_watcher_emissions(initial, all)
            =~= spec_watcher_emissions(initial, all));
    }
    while i < n
        invariant
            n == all.len(),
            events@ == all,
            i <= n,
            spec_watcher_emissions(initial, all) == out@ + spec_watcher_emissions(
                state,
                all.skip(i as int),
            ),
        decreases n - i,
    {
        proof {
            assert(all.skip(i as int)[0] == all[i as int]);
            assert(all.skip(i as int).skip(1) =~= all.skip(i as int + 1));
        }
        let ghost pre = state;
        let ghost pre_out = out@;
        let (next, emitted) = watcher_step(state, &events[i]);
        state = next;
        match emitted {
            Some(t) => {
                out.push(t);
            },
            None => {},
        }
        proof {
            let rest = spec_watcher_emissions(next, all.skip(i as int + 1));
            assert(spec_watcher_emissions(pre, all.skip(i as int)) == (match emitted {
                Some(t) => seq![t] + rest,
                None => rest,
            }));
            match emitted {
                Some(t) => {
                    assert(out@ =~= pre_out + seq![t]);
                    assert(pre_out + (seq![t] + rest) =~= (pre_out + seq![t]) + rest);
                },
                None => {},
            }
        }
        i += 1;
    }
    proof {
        assert(all.skip(n as int) =~= Seq::<WatcherEvent>::empty());
        assert(out@ =~= out@ + Seq::<SpotifyState>::empty());
    }
    out
}

/// Law: a sighting of a window while the watcher is already running is a
/// no-op — the state is kept and nothing is emitted — so a duplicate
/// creation of the tracked window cannot emit a second running transition.
pub proof fn lemma_running_ignores_creations(info: SpotifyInfo, event: WatcherEvent)
    requires
        event is WindowShown,
    ensures
        spec_watcher_step(SpotifyState::Running(info), event) == (
            SpotifyState::Running(info),
            Option::<SpotifyState>::None,
        ),
{
}

} // verus!

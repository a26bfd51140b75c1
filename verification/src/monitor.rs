//! Output classification: scans every chunk the supervised program writes,
//! infers a busy/idle activity state with asymmetric debouncing, and detects
//! the editor-mode cursor signatures.
//!
//! Entering Busy needs a sustained streak of busy-matching chunks
//! ([`DEBOUNCE_TO_BUSY_MS`]) because a single matching chunk can be a
//! transient render glitch; leaving Busy needs only brief silence
//! ([`DEBOUNCE_TO_IDLE_MS`]) because the absence of the spinner reliably
//! means completion. All clock readings enter through explicit millisecond
//! timestamps from a monotonic clock, so the whole state machine is a pure
//! function of its inputs.

use crate::state::{set_vim_mode, VimMode, VimModeCell};
use vstd::prelude::*;
use vstd::string::StrSliceExecFns;

verus! {

/// Minimum silence after the last busy-matching chunk before Busy -> Idle.
pub const DEBOUNCE_TO_IDLE_MS: u64 = 200;

/// Minimum uninterrupted streak of busy-matching chunks before Idle -> Busy.
pub const DEBOUNCE_TO_BUSY_MS: u64 = 1000;

// ---------------------------------------------------------------------------
// Busy indicator
// ---------------------------------------------------------------------------

/// The two hexagon spinner glyphs the supervised program renders on its
/// status line while it is generating or thinking: filled (U+2B22) and
/// hollow (U+2B21).
pub open spec fn is_spinner_glyph(c: char) -> bool {
    c == '\u{2B22}' || c == '\u{2B21}'
}

/// Whether the text contains, within one line, a spinner glyph followed
/// later by a literal period: the animation frames of a long-running
/// operation. Plain prose with ellipses has no glyph and never matches; a
/// glyph with zero following dots does not match either.
pub open spec fn busy_indicator(s: Seq<char>) -> bool {
    exists|g: int, d: int|
        0 <= g < d < s.len() && is_spinner_glyph(s[g]) && s[d] == '.' && (forall|k: int|
            g <= k <= d ==> s[k] != '\n')
}

/// Check whether the (escape-stripped) text contains a busy indicator.
pub fn is_busy(text: &str) -> (r: bool)
    ensures
        r == busy_indicator(text@),
{
    let n = text.unicode_len();
    let mut i: usize = 0;
    // Whether some spinner glyph stands before position `i` on the current line.
    let mut armed = false;
    while i < n
        invariant
            n == text@.len(),
            i <= n,
            armed <==> (exists|g: int|
                0 <= g < i && is_spinner_glyph(text@[g]) && (forall|k: int|
                    g <= k < i ==> text@[k] != '\n')),
            forall|g: int, d: int|
                0 <= g < d < i && is_spinner_glyph(text@[g]) && text@[d] == '.'
                    ==> !(forall|k: int| g <= k <= d ==> text@[k] != '\n'),
        decreases n - i,
    {
        let c = text.get_char(i);
        if c == '\n' {
            armed = false;
        } else if armed && c == '.' {
            proof {
                let g = choose|g: int|
                    0 <= g < i && is_spinner_glyph(text@[g]) && (forall|k: int|
                        g <= k < i ==> text@[k] != '\n');
                assert(forall|k: int| g <= k <= i ==> text@[k] != '\n');
            }
            return true;
        }
        if c == '\u{2B22}' || c == '\u{2B21}' {
            armed = true;
        }
        i += 1;
    }
    false
}

// ---------------------------------------------------------------------------
// Editor-mode cursor signatures
// ---------------------------------------------------------------------------

/// The Normal-mode cursor styling starts at `i`: `ESC [ 1 0 0 m`, one
/// arbitrary byte (the character under the cursor), then `ESC [ 4 9 m`.
pub open spec fn normal_sig_at(s: Seq<u8>, i: int) -> bool {
    &&& 0 <= i
    &&& i + 12 <= s.len()
    &&& s[i] == 0x1b
    &&& s[i + 1] == 0x5b
    &&& s[i + 2] == 0x31
    &&& s[i + 3] == 0x30
    &&& s[i + 4] == 0x30
    &&& s[i + 5] == 0x6d
    &&& s[i + 7] == 0x1b
    &&& s[i + 8] == 0x5b
    &&& s[i + 9] == 0x34
    &&& s[i + 10] == 0x39
    &&& s[i + 11] == 0x6d
}

/// The Insert-mode cursor styling starts at `i`: `ESC [ 7 m`, one arbitrary
/// byte, then `ESC [ 2 7 m`.
pub open spec fn insert_sig_at(s: Seq<u8>, i: int) -> bool {
    &&& 0 <= i
    &&& i + 10 <= s.len()
    &&& s[i] == 0x1b
    &&& s[i + 1] == 0x5b
    &&& s[i + 2] == 0x37
    &&& s[i + 3] == 0x6d
    &&& s[i + 5] == 0x1b
    &&& s[i + 6] == 0x5b
    &&& s[i + 7] == 0x32
    &&& s[i + 8] == 0x37
    &&& s[i + 9] == 0x6d
}

pub open spec fn contains_normal_sig(s: Seq<u8>) -> bool {
    exists|i: int| normal_sig_at(s, i)
}

pub open spec fn contains_insert_sig(s: Seq<u8>) -> bool {
    exists|i: int| insert_sig_at(s, i)
}

fn find_normal_sig(s: &[u8]) -> (r: bool)
    ensures
        r == contains_normal_sig(s@),
{
    let n = s.len();
    if n < 12 {
        return false;
    }
    let mut i: usize = 0;
    while i <= n - 12
        invariant
            n == s@.len(),
            12 <= n,
            forall|j: int| 0 <= j < i ==> !normal_sig_at(s@, j),
        decreases n - i,
    {
        if s[i] == 0x1b && s[i + 1] == 0x5b && s[i + 2] == 0x31 && s[i + 3] == 0x30 && s[i + 4]
            == 0x30 && s[i + 5] == 0x6d && s[i + 7] == 0x1b && s[i + 8] == 0x5b && s[i + 9] == 0x34
            && s[i + 10] == 0x39 && s[i + 11] == 0x6d {
            assert(normal_sig_at(s@, i as int));
            return true;
        }
        i += 1;
    }
    false
}

fn find_insert_sig(s: &[u8]) -> (r: bool)
    ensures
        r == contains_insert_sig(s@),
{
    let n = s.len();
    if n < 10 {
        return false;
    }
    let mut i: usize = 0;
    while i <= n - 10
        invariant
            n == s@.len(),
            10 <= n,
            forall|j: int| 0 <= j < i ==> !insert_sig_at(s@, j),
        decreases n - i,
    {
        if s[i] == 0x1b && s[i + 1] == 0x5b && s[i + 2] == 0x37 && s[i + 3] == 0x6d && s[i + 5]
            == 0x1b && s[i + 6] == 0x5b && s[i + 7] == 0x32 && s[i + 8] == 0x37 && s[i + 9]
            == 0x6d {
            assert(insert_sig_at(s@, i as int));
            return true;
        }
        i += 1;
    }
    false
}

/// The editor mode a chunk's cursor styling announces, if any. The two
/// signatures are disjoint in practice; when both occur in one chunk the
/// Normal signature wins, matching the order the chunk is tested in.
pub open spec fn detected_mode(raw: Seq<u8>) -> Option<VimMode> {
    if contains_normal_sig(raw) {
        Some(VimMode::Normal)
    } else if contains_insert_sig(raw) {
        Some(VimMode::Insert)
    } else {
        None
    }
}

// ---------------------------------------------------------------------------
// Trusted boundary: escape stripping and permissive decoding
// ---------------------------------------------------------------------------

/// The bytes that remain of `raw` once ANSI escape sequences are removed.
pub uninterp spec fn stripped_of(raw: Seq<u8>) -> Seq<u8>;

/// Relies on `strip_ansi_escapes::strip`: returns the input bytes with ANSI
/// escape sequences removed (printable characters and line feeds kept), a
/// function of the input bytes alone.
#[verifier::external_body]
fn strip_ansi(raw: &[u8]) -> (r: Vec<u8>)
    ensures
        r@ == stripped_of(raw@),
{
    strip_ansi_escapes::strip(raw)
}

/// The text that `bytes` decode to under permissive UTF-8 decoding.
pub uninterp spec fn lossy_of(bytes: Seq<u8>) -> Seq<char>;

/// Relies on `String::from_utf8_lossy`: decodes UTF-8, replacing invalid
/// sequences with the replacement character rather than failing, a function
/// of the input bytes alone.
#[verifier::external_body]
fn lossy_decode(bytes: &[u8]) -> (r: String)
    ensures
        r@ == lossy_of(bytes@),
{
    String::from_utf8_lossy(bytes).into_owned()
}

/// Whether a raw output chunk counts as a busy signal: the busy indicator,
/// looked for after stripping terminal styling and decoding permissively.
pub open spec fn chunk_is_busy(raw: Seq<u8>) -> bool {
    busy_indicator(lossy_of(stripped_of(raw)))
}

// ---------------------------------------------------------------------------
// The state machine
// ---------------------------------------------------------------------------

/// Inferred activity of the supervised program.
#[derive(Debug, Clone, Copy, PartialEq, Eq, Structural)]
pub enum AgentState {
    Idle,
    Busy,
}

/// Result of processing a single output chunk.
pub struct ChunkResult {
    /// `true` when the chunk made the agent enter the Busy state.
    pub entered_busy: bool,
    /// Set when the detected editor mode differs from the last one observed.
    pub vim_mode_changed: Option<VimMode>,
}

/// The output classifier. A plain value: both transition functions are
/// specified as pure steps over it ([`busy_step`], [`mode_step`],
/// [`check_step`]), with the clock passed in explicitly.
pub struct OutputMonitor {
    pub state: AgentState,
    /// When the last busy-matching chunk was seen.
    pub last_busy_seen: u64,
    /// When the current uninterrupted streak of busy-matching chunks started.
    pub busy_since: Option<u64>,
    /// The mode most recently reported as changed-to.
    pub last_vim_mode: VimMode,
}

/// Milliseconds from `since` to `now` on a monotonic clock; a reading that
/// went backwards counts as no time passed.
pub open spec fn elapsed_ms(now: u64, since: u64) -> int {
    if now >= since {
        now - since
    } else {
        0
    }
}

/// One busy-classification step: what processing a chunk whose busy signal
/// is `busy` at time `now` does to the monitor, and whether the Idle -> Busy
/// event fires. A non-matching chunk discards the streak; a matching one
/// extends it, and flips the state once the streak has lasted
/// [`DEBOUNCE_TO_BUSY_MS`].
pub open spec fn busy_step(m: OutputMonitor, busy: bool, now: u64) -> (OutputMonitor, bool) {
    if !busy {
        (OutputMonitor { busy_since: None, ..m }, false)
    } else if m.state is Busy {
        (OutputMonitor { last_busy_seen: now, ..m }, false)
    } else {
        let since = match m.busy_since {
            Some(t) => t,
            None => now,
        };
        if elapsed_ms(now, since) >= DEBOUNCE_TO_BUSY_MS {
            (
                OutputMonitor {
                    state: AgentState::Busy,
                    last_busy_seen: now,
                    busy_since: Some(since),
                    ..m
                },
                true,
            )
        } else {
            (OutputMonitor { last_busy_seen: now, busy_since: Some(since), ..m }, false)
        }
    }
}

/// One mode-detection step: what a chunk's cursor signatures do to the
/// monitor, and the changed-to mode to report, if any. A detected mode is
/// reported only when it differs from the last reported one, so a signature
/// repeated by every redraw signals once.
pub open spec fn mode_step(m: OutputMonitor, raw: Seq<u8>) -> (OutputMonitor, Option<VimMode>) {
    match detected_mode(raw) {
        Some(mode) => if mode != m.last_vim_mode {
            (OutputMonitor { last_vim_mode: mode, ..m }, Some(mode))
        } else {
            (m, None)
        },
        None => (m, None),
    }
}

/// One idle-check step: whether the Busy -> Idle event fires at time `now`,
/// which it does once no busy-matching chunk has been seen for more than
/// [`DEBOUNCE_TO_IDLE_MS`].
pub open spec fn check_step(m: OutputMonitor, now: u64) -> (OutputMonitor, bool) {
    if m.state is Busy && elapsed_ms(now, m.last_busy_seen) > DEBOUNCE_TO_IDLE_MS {
        (OutputMonitor { state: AgentState::Idle, busy_since: None, ..m }, true)
    } else {
        (m, false)
    }
}

impl OutputMonitor {
    pub fn new(now_ms: u64) -> (m: OutputMonitor)
        ensures
            m.state is Idle,
            m.last_busy_seen == now_ms,
            m.busy_since is None,
            m.last_vim_mode is Insert,
    {
        OutputMonitor {
            state: AgentState::Idle,
            last_busy_seen: now_ms,
            busy_since: None,
            last_vim_mode: VimMode::Insert,
        }
    }

    /// Scan a raw output chunk for busy patterns and editor-mode changes.
    /// Strips ANSI escape codes before busy matching; mode detection works
    /// on the raw bytes. `now_ms` is the current monotonic clock reading.
    pub fn process_chunk(&mut self, cell: &VimModeCell, raw: &[u8], now_ms: u64) -> (r: ChunkResult)
        ensures
            ({
                let (m1, changed) = mode_step(*old(self), raw@);
                let (m2, entered) = busy_step(m1, chunk_is_busy(raw@), now_ms);
                *final(self) == m2 && r.entered_busy == entered && r.vim_mode_changed == changed
            }),
    {
        let vim_mode_changed = self.detect_vim_mode(cell, raw);

        let stripped = strip_ansi(raw);
        let text = lossy_decode(stripped.as_slice());

        let entered_busy = if is_busy(text.as_str()) {
            self.last_busy_seen = now_ms;
            if self.state == AgentState::Busy {
                false
            } else {
                let since = match self.busy_since {
                    Some(t) => t,
                    None => now_ms,
                };
                self.busy_since = Some(since);
                let elapsed: u64 = if now_ms >= since {
                    now_ms - since
                } else {
                    0
                };
                if elapsed >= DEBOUNCE_TO_BUSY_MS {
                    self.state = AgentState::Busy;
                    true
                } else {
                    false
                }
            }
        } else {
            self.busy_since = None;
            false
        };

        ChunkResult { entered_busy, vim_mode_changed }
    }

    /// Detect editor-mode transitions from the raw cursor styling sequences.
    /// A detected mode is published to the shared cell immediately; it is
    /// returned only when it differs from the last mode reported.
    pub fn detect_vim_mode(&mut self, cell: &VimModeCell, raw: &[u8]) -> (r: Option<VimMode>)
        ensures
            ({
                let (m1, changed) = mode_step(*old(self), raw@);
                *final(self) == m1 && r == changed
            }),
    {
        let new_mode = if find_normal_sig(raw) {
            Some(VimMode::Normal)
        } else if find_insert_sig(raw) {
            Some(VimMode::Insert)
        } else {
            None
        };

        if let Some(mode) = new_mode {
            set_vim_mode(cell, mode);
            if mode != self.last_vim_mode {
                self.last_vim_mode = mode;
                return Some(mode);
            }
        }
        None
    }

    /// Returns `true` (once) when the agent transitions from Busy to Idle,
    /// i.e. no busy-matching chunk has been seen for the exit threshold.
    /// `now_ms` is the current monotonic clock reading.
    pub fn check_transition(&mut self, now_ms: u64) -> (r: bool)
        ensures
            ({
                let (m2, fired) = check_step(*old(self), now_ms);
                *final(self) == m2 && r == fired
            }),
    {
        if self.state == AgentState::Busy {
            let elapsed: u64 = if now_ms >= self.last_busy_seen {
                now_ms - self.last_busy_seen
            } else {
                0
            };
            if elapsed > DEBOUNCE_TO_IDLE_MS {
                self.state = AgentState::Idle;
                self.busy_since = None;
                return true;
            }
        }
        false
    }
}

// ---------------------------------------------------------------------------
// Laws of the state machine
// ---------------------------------------------------------------------------

/// The monitor after a run of busy-matching chunks at the given times.
pub open spec fn run_busy_chunks(m: OutputMonitor, ts: Seq<u64>) -> OutputMonitor
    decreases ts.len(),
{
    if ts.len() == 0 {
        m
    } else {
        run_busy_chunks(busy_step(m, true, ts[0]).0, ts.drop_first())
    }
}

/// How many Idle -> Busy events a run of busy-matching chunks at the given
/// times fires.
pub open spec fn busy_events_fired(m: OutputMonitor, ts: Seq<u64>) -> nat
    decreases ts.len(),
{
    if ts.len() == 0 {
        0
    } else {
        (if busy_step(m, true, ts[0]).1 {
            1nat
        } else {
            0nat
        }) + busy_events_fired(busy_step(m, true, ts[0]).0, ts.drop_first())
    }
}

/// Law: a chunk without the busy pattern never fires the Idle -> Busy
/// event, whatever the monitor's state and the clock say.
pub proof fn lemma_non_matching_never_enters_busy(m: OutputMonitor, now: u64)
    ensures
        !busy_step(m, false, now).1,
{
}

/// Once Busy, further busy-matching chunks fire nothing and leave the state
/// Busy: the event of one streak cannot repeat.
pub proof fn lemma_busy_run_stays_busy(m: OutputMonitor, ts: Seq<u64>)
    requires
        m.state is Busy,
    ensures
        busy_events_fired(m, ts) == 0,
        run_busy_chunks(m, ts).state is Busy,
    decreases ts.len(),
{
    if ts.len() > 0 {
        lemma_busy_run_stays_busy(busy_step(m, true, ts[0]).0, ts.drop_first());
    }
}

/// An Idle monitor mid-streak fires exactly one event over a run of
/// busy-matching chunks if some chunk arrives once the streak is at least
/// the enter threshold old, and none otherwise (the streak then simply
/// continues).
pub proof fn lemma_busy_run_from_streak(m: OutputMonitor, ts: Seq<u64>)
    requires
        m.state is Idle,
        m.busy_since is Some,
    ensures
        (exists|i: int|
            0 <= i < ts.len() && elapsed_ms(ts[i], m.busy_since->0) >= DEBOUNCE_TO_BUSY_MS) ==> {
            &&& busy_events_fired(m, ts) == 1
            &&& run_busy_chunks(m, ts).state is Busy
        },
        (forall|i: int|
            0 <= i < ts.len() ==> elapsed_ms(ts[i], m.busy_since->0) < DEBOUNCE_TO_BUSY_MS) ==> {
            &&& busy_events_fired(m, ts) == 0
            &&& run_busy_chunks(m, ts).state is Idle
            &&& run_busy_chunks(m, ts).busy_since == m.busy_since
        },
    decreases ts.len(),
{
    if ts.len() > 0 {
        let (m1, fired) = busy_step(m, true, ts[0]);
        if elapsed_ms(ts[0], m.busy_since->0) >= DEBOUNCE_TO_BUSY_MS {
            assert(fired);
            lemma_busy_run_stays_busy(m1, ts.drop_first());
        } else {
            assert(!fired && m1.state is Idle && m1.busy_since == m.busy_since);
            lemma_busy_run_from_streak(m1, ts.drop_first());
            assert(forall|i: int|
                0 <= i < ts.drop_first().len() ==> ts.drop_first()[i] == ts[i + 1]);
            let t0 = m.busy_since->0;
            if exists|i: int|
                0 <= i < ts.len() && elapsed_ms(ts[i], t0) >= DEBOUNCE_TO_BUSY_MS {
                let i = choose|i: int|
                    0 <= i < ts.len() && elapsed_ms(ts[i], t0) >= DEBOUNCE_TO_BUSY_MS;
                assert(i != 0);
                assert(ts.drop_first()[i - 1] == ts[i]);
                assert(exists|j: int|
                    0 <= j < ts.drop_first().len() && elapsed_ms(ts.drop_first()[j], t0)
                        >= DEBOUNCE_TO_BUSY_MS);
            }
        }
    }
}

/// Law: starting outside a streak, a continuous run of busy-matching chunks
/// whose clock readings span at least the enter threshold fires the
/// Idle -> Busy event exactly once; a run that stays under the threshold
/// fires none.
pub proof fn lemma_enter_busy_fires_exactly_once(m: OutputMonitor, ts: Seq<u64>)
    requires
        m.state is Idle,
        m.busy_since is None,
        ts.len() >= 1,
        forall|i: int| 0 <= i < ts.len() ==> ts[0] <= #[trigger] ts[i],
    ensures
        elapsed_ms(ts[ts.len() - 1], ts[0]) >= DEBOUNCE_TO_BUSY_MS ==> {
            &&& busy_events_fired(m, ts) == 1
            &&& run_busy_chunks(m, ts).state is Busy
        },
        (forall|i: int|
            0 <= i < ts.len() ==> elapsed_ms(ts[i], ts[0]) < DEBOUNCE_TO_BUSY_MS) ==> {
            &&& busy_events_fired(m, ts) == 0
            &&& run_busy_chunks(m, ts).state is Idle
            &&& run_busy_chunks(m, ts).busy_since == Some(ts[0])
        },
{
    let (m1, fired) = busy_step(m, true, ts[0]);
    assert(!fired && m1.state is Idle && m1.busy_since == Some(ts[0]));
    lemma_busy_run_from_streak(m1, ts.drop_first());
    assert(forall|i: int| 0 <= i < ts.drop_first().len() ==> ts.drop_first()[i] == ts[i + 1]);
    if elapsed_ms(ts[ts.len() - 1], ts[0]) >= DEBOUNCE_TO_BUSY_MS {
        assert(ts.len() >= 2);
        let j = ts.len() - 2;
        assert(ts.drop_first()[j] == ts[ts.len() - 1]);
    }
}

/// Law: one non-matching chunk discards the streak, so entering Busy needs
/// a fresh uninterrupted streak afterwards; the interrupting chunk itself
/// fires nothing.
pub proof fn lemma_interruption_restarts_streak(m: OutputMonitor, now: u64)
    ensures
        !busy_step(m, false, now).1,
        busy_step(m, false, now).0.busy_since is None,
        busy_step(m, false, now).0.state == m.state,
{
}

/// Law: while Busy, the Busy -> Idle event fires on the first idle check
/// past the exit threshold, and on no later check until Busy is entered
/// again: the first check leaves the monitor Idle, where checks fire
/// nothing.
pub proof fn lemma_exit_idle_fires_exactly_once(m: OutputMonitor, t1: u64, t2: u64)
    requires
        m.state is Busy,
        elapsed_ms(t1, m.last_busy_seen) > DEBOUNCE_TO_IDLE_MS,
    ensures
        check_step(m, t1).1,
        check_step(m, t1).0.state is Idle,
        !check_step(check_step(m, t1).0, t2).1,
        check_step(check_step(m, t1).0, t2).0 == check_step(m, t1).0,
{
}

/// Law: an idle check before the exit threshold fires nothing and changes
/// nothing.
pub proof fn lemma_exit_needs_silence(m: OutputMonitor, now: u64)
    requires
        elapsed_ms(now, m.last_busy_seen) <= DEBOUNCE_TO_IDLE_MS,
    ensures
        !check_step(m, now).1,
        check_step(m, now).0 == m,
{
}

/// Law: from the initial Insert mode, a chunk bearing the Normal signature
/// and then one bearing the Insert signature yield exactly two changed-mode
/// signals, in that order.
pub proof fn lemma_mode_changes_signal_in_order(m: OutputMonitor, c1: Seq<u8>, c2: Seq<u8>)
    requires
        m.last_vim_mode is Insert,
        detected_mode(c1) == Some(VimMode::Normal),
        detected_mode(c2) == Some(VimMode::Insert),
    ensures
        mode_step(m, c1).1 == Some(VimMode::Normal),
        mode_step(mode_step(m, c1).0, c2).1 == Some(VimMode::Insert),
{
}

/// Law: the same mode signature detected twice in a row signals at most
/// once: whatever the first chunk reported, the second reports nothing.
pub proof fn lemma_repeated_signature_signals_once(m: OutputMonitor, c1: Seq<u8>, c2: Seq<u8>)
    requires
        detected_mode(c1) is Some,
        detected_mode(c2) == detected_mode(c1),
    ensures
        mode_step(mode_step(m, c1).0, c2).1 is None,
        mode_step(m, c1).1 is Some <==> detected_mode(c1)->0 != m.last_vim_mode,
{
}

} // verus!


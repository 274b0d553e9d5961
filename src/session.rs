//! Typing sessions and words-per-minute tracking.
//!
//! Speeds are integers in hundredths of a word per minute, rounded down, with
//! five characters to the word. Times are milliseconds since the Unix epoch.

use vstd::prelude::*;

verus! {

/// The idle gap, in milliseconds, after which a session ends unless configured otherwise.
pub const DEFAULT_IDLE_TIMEOUT_MS: i64 = 5000;

/// The span, in milliseconds, of the rolling window behind the instantaneous speed.
pub const WINDOW_MS: i64 = 60000;

/// Hundredths of a word per minute for one character per millisecond:
/// 60000 ms a minute, 100 hundredths, 5 characters a word.
pub const CENTI_WPM_PER_CHAR_MS: u128 = 1200000;

/// A typing session as it is persisted.
pub struct TypingSession {
    pub id: Option<i64>,
    pub start_time: i64,
    /// Set when the session is closed.
    pub end_time: Option<i64>,
    pub char_count: u32,
    pub word_count: u32,
    /// Average speed over the session, in hundredths of a word per minute.
    pub wpm_avg: Option<u128>,
    /// Highest instantaneous speed of the session, in hundredths of a word per minute.
    pub wpm_peak: Option<u128>,
}

impl TypingSession {
    /// An open session that starts at `start_time` with no key presses.
    pub fn new(start_time: i64) -> (r: TypingSession)
        ensures
            r == (TypingSession {
                id: None,
                start_time,
                end_time: None,
                char_count: 0,
                word_count: 0,
                wpm_avg: None,
                wpm_peak: None,
            }),
    {
        TypingSession {
            id: None,
            start_time,
            end_time: None,
            char_count: 0,
            word_count: 0,
            wpm_avg: None,
            wpm_peak: None,
        }
    }
}

/// `x + y`, or the largest `u32` where that is larger.
pub open spec fn add_sat(x: u32, y: u32) -> u32 {
    if x + y <= u32::MAX {
        (x + y) as u32
    } else {
        u32::MAX
    }
}

/// The characters of a rolling window.
pub open spec fn window_sum(w: Seq<(i64, u32)>) -> int
    decreases w.len(),
{
    if w.len() == 0 {
        0
    } else {
        window_sum(w.drop_last()) + w.last().1
    }
}

/// The entries of `w` at `cutoff` or later, in order.
pub open spec fn not_before(w: Seq<(i64, u32)>, cutoff: int) -> Seq<(i64, u32)>
    decreases w.len(),
{
    if w.len() == 0 {
        Seq::empty()
    } else if w.last().0 >= cutoff {
        not_before(w.drop_last(), cutoff).push(w.last())
    } else {
        not_before(w.drop_last(), cutoff)
    }
}

/// The instantaneous speed of a window: its characters over the time from
/// its first entry to its last; zero with fewer than two entries or no time.
pub open spec fn instant_wpm(w: Seq<(i64, u32)>) -> int {
    if w.len() < 2 {
        0
    } else {
        let span = w.last().0 - w[0].0;
        if span <= 0 {
            0
        } else {
            window_sum(w) * 1200000 / span
        }
    }
}

/// The average speed of `chars` characters typed from `start` to `last`;
/// zero where no time passed.
pub open spec fn average_wpm(chars: u32, start: i64, last: i64) -> int {
    if last - start <= 0 {
        0
    } else {
        chars * 1200000 / (last - start)
    }
}

/// An open session as a value.
pub struct SessionModel {
    pub session: TypingSession,
    pub last_keystroke: i64,
    pub window: Seq<(i64, u32)>,
    pub current_wpm: u128,
    pub peak_wpm: u128,
}

/// The tracker as a value: the open session, if any, and the idle timeout.
pub struct TrackerState {
    pub active: Option<SessionModel>,
    pub idle_timeout: i64,
}

/// What a step of the tracker hands to persistence: the session it closed,
/// and the one it opened, to be stored and given an id.
pub struct SessionChange {
    pub closed: Option<TypingSession>,
    pub opened: Option<TypingSession>,
}

/// The session opened by a key press at `now`.
pub open spec fn started(now: i64, chars: u32, words: u32) -> SessionModel {
    SessionModel {
        session: TypingSession {
            id: None,
            start_time: now,
            end_time: None,
            char_count: chars,
            word_count: words,
            wpm_avg: None,
            wpm_peak: None,
        },
        last_keystroke: now,
        window: seq![(now, chars)],
        current_wpm: 0,
        peak_wpm: 0,
    }
}

/// The session after a key press at `now` within the idle window.
pub open spec fn continued(a: SessionModel, now: i64, chars: u32, words: u32) -> SessionModel {
    let w = not_before(a.window.push((now, chars)), now - WINDOW_MS);
    let cur = instant_wpm(w) as u128;
    SessionModel {
        session: TypingSession {
            char_count: add_sat(a.session.char_count, chars),
            word_count: add_sat(a.session.word_count, words),
            ..a.session
        },
        last_keystroke: now,
        window: w,
        current_wpm: cur,
        peak_wpm: if cur > a.peak_wpm {
            cur
        } else {
            a.peak_wpm
        },
    }
}

/// An open session is well formed: its window holds the last key press, and
/// the peak speed is at least the current one.
pub open spec fn session_wf(a: SessionModel) -> bool {
    &&& a.window.len() >= 1
    &&& a.window.last().0 == a.last_keystroke
    &&& a.peak_wpm >= a.current_wpm
}

pub open spec fn tracker_wf(s: TrackerState) -> bool {
    match s.active {
        Some(a) => session_wf(a),
        None => true,
    }
}

/// A new session, and any session after a key press within the idle
/// window, is well formed.
pub proof fn lemma_sessions_well_formed(a: SessionModel, now: i64, chars: u32, words: u32)
    ensures
        session_wf(started(now, chars, words)),
        session_wf(continued(a, now, chars, words)),
{
    let e = (now, chars);
    assert(a.window.push(e).drop_last() =~= a.window);
    assert(a.window.push(e).last() == e);
}

/// The session closed at `end`, with its average and peak speeds.
pub open spec fn closed_at(a: SessionModel, end: i64) -> TypingSession {
    TypingSession {
        end_time: Some(end),
        wpm_avg: Some(
            average_wpm(a.session.char_count, a.session.start_time, a.last_keystroke) as u128,
        ),
        wpm_peak: Some(a.peak_wpm),
        ..a.session
    }
}

/// Whether at `now` the session has been idle longer than `timeout`.
pub open spec fn idle(a: SessionModel, timeout: i64, now: i64) -> bool {
    now - a.last_keystroke > timeout
}

pub open spec fn no_change() -> SessionChange {
    SessionChange { closed: None, opened: None }
}

/// A key press at `now` of `chars` characters completing `words` words.
pub open spec fn on_keystroke(s: TrackerState, now: i64, chars: u32, words: u32) -> (
    TrackerState,
    SessionChange,
) {
    let fresh = started(now, chars, words);
    match s.active {
        None => (
            TrackerState { active: Some(fresh), ..s },
            SessionChange { closed: None, opened: Some(fresh.session) },
        ),
        Some(a) => if idle(a, s.idle_timeout, now) {
            (
                TrackerState { active: Some(fresh), ..s },
                SessionChange {
                    closed: Some(closed_at(a, a.last_keystroke)),
                    opened: Some(fresh.session),
                },
            )
        } else {
            (TrackerState { active: Some(continued(a, now, chars, words)), ..s }, no_change())
        },
    }
}

/// A poll at `now`: an open session idle for longer than the timeout closes
/// at its last key press.
pub open spec fn on_idle_check(s: TrackerState, now: i64) -> (TrackerState, Option<TypingSession>) {
    match s.active {
        Some(a) => if idle(a, s.idle_timeout, now) {
            (TrackerState { active: None, ..s }, Some(closed_at(a, a.last_keystroke)))
        } else {
            (s, None)
        },
        None => (s, None),
    }
}

/// An explicit stop at `now`: an open session closes at `now`.
pub open spec fn on_stop(s: TrackerState, now: i64) -> (TrackerState, Option<TypingSession>) {
    match s.active {
        Some(a) => (TrackerState { active: None, ..s }, Some(closed_at(a, now))),
        None => (s, None),
    }
}

/// A key press opens a session; a poll later than the idle timeout after it
/// closes that session at the key press, with its average and peak speeds
/// set, and leaves none open; the next key press opens a new session, which
/// starts at that key press and so not where the closed one started.
pub proof fn lemma_idle_closes_session(
    timeout: i64,
    t1: i64,
    chars1: u32,
    words1: u32,
    t2: i64,
    t3: i64,
    chars3: u32,
    words3: u32,
)
    requires
        timeout >= 0,
        t2 - t1 > timeout,
        t3 >= t2,
    ensures
        ({
            let s1 = on_keystroke(TrackerState { active: None, idle_timeout: timeout }, t1, chars1, words1).0;
            let (s2, closed) = on_idle_check(s1, t2);
            let (s3, change) = on_keystroke(s2, t3, chars3, words3);
            &&& closed is Some
            &&& closed->0.start_time == t1
            &&& closed->0.end_time == Some(t1)
            &&& closed->0.wpm_avg is Some
            &&& closed->0.wpm_peak is Some
            &&& s2.active is None
            &&& s3.active is Some
            &&& s3.active->0.session.start_time == t3
            &&& s3.active->0.session.start_time != closed->0.start_time
            &&& change.opened == Some(s3.active->0.session)
        }),
{
}

/// The open session: its persisted fields, rolling window and speeds.
pub struct ActiveSession {
    session: TypingSession,
    last_keystroke: i64,
    keystroke_times: Vec<(i64, u32)>,
    current_wpm: u128,
    peak_wpm: u128,
}

impl View for ActiveSession {
    type V = SessionModel;

    closed spec fn view(&self) -> SessionModel {
        SessionModel {
            session: self.session,
            last_keystroke: self.last_keystroke,
            window: self.keystroke_times@,
            current_wpm: self.current_wpm,
            peak_wpm: self.peak_wpm,
        }
    }
}

proof fn lemma_window_sum_bound(w: Seq<(i64, u32)>)
    ensures
        0 <= window_sum(w) <= w.len() * (u32::MAX as int),
    decreases w.len(),
{
    if w.len() > 0 {
        lemma_window_sum_bound(w.drop_last());
    }
}

fn copy_session(s: &TypingSession) -> (r: TypingSession)
    ensures
        r == *s,
{
    TypingSession {
        id: s.id,
        start_time: s.start_time,
        end_time: s.end_time,
        char_count: s.char_count,
        word_count: s.word_count,
        wpm_avg: s.wpm_avg,
        wpm_peak: s.wpm_peak,
    }
}

fn add_saturating(x: u32, y: u32) -> (r: u32)
    ensures
        r == add_sat(x, y),
{
    x.saturating_add(y)
}

/// The entries of `w` at `cutoff` or later: those at most a window old.
fn keep_recent(w: &Vec<(i64, u32)>, cutoff: i128) -> (r: Vec<(i64, u32)>)
    ensures
        r@ == not_before(w@, cutoff as int),
{
    let mut out: Vec<(i64, u32)> = Vec::new();
    let n = w.len();
    let mut i: usize = 0;
    while i < n
        invariant
            n == w.len(),
            i <= n,
            out@ == not_before(w@.subrange(0, i as int), cutoff as int),
        decreases n - i,
    {
        assert(w@.subrange(0, i + 1).drop_last() =~= w@.subrange(0, i as int));
        let e = w[i];
        if e.0 as i128 >= cutoff {
            out.push(e);
        }
        i = i + 1;
    }
    assert(w@.subrange(0, n as int) =~= w@);
    out
}

/// The instantaneous speed of a window.
fn window_wpm(w: &Vec<(i64, u32)>) -> (r: u128)
    ensures
        r == instant_wpm(w@),
{
    let n = w.len();
    if n < 2 {
        return 0;
    }
    let span = w[n - 1].0 as i128 - w[0].0 as i128;
    if span <= 0 {
        return 0;
    }
    let mut total: u128 = 0;
    let mut i: usize = 0;
    while i < n
        invariant
            n == w.len(),
            i <= n,
            total == window_sum(w@.subrange(0, i as int)),
        decreases n - i,
    {
        assert(w@.subrange(0, i + 1).drop_last() =~= w@.subrange(0, i as int));
        proof {
            lemma_window_sum_bound(w@.subrange(0, i as int));
            assert(i * (u32::MAX as int) <= 0x1_0000_0000_0000_0000 * 0x1_0000_0000) by (nonlinear_arith)
                requires
                    i <= usize::MAX,
            ;
        }
        total = total + w[i].1 as u128;
        i = i + 1;
    }
    assert(w@.subrange(0, n as int) =~= w@);
    proof {
        lemma_window_sum_bound(w@);
        assert(n * (u32::MAX as int) <= 0x1_0000_0000_0000_0000 * 0x1_0000_0000) by (nonlinear_arith)
            requires
                n <= usize::MAX,
        ;
    }
    total * CENTI_WPM_PER_CHAR_MS / (span as u128)
}

impl ActiveSession {
    /// The session opened by a key press at `now`.
    fn start(now: i64, char_count: u32, word_count: u32) -> (r: ActiveSession)
        ensures
            r@ == started(now, char_count, word_count),
    {
        let mut session = TypingSession::new(now);
        session.char_count = char_count;
        session.word_count = word_count;
        let keystroke_times = vec![(now, char_count)];
        assert(keystroke_times@ =~= seq![(now, char_count)]);
        ActiveSession {
            session,
            last_keystroke: now,
            keystroke_times,
            current_wpm: 0,
            peak_wpm: 0,
        }
    }

    /// Average speed from the start of the session to its last key press.
    fn calculate_avg_wpm(&self) -> (r: u128)
        ensures
            r == average_wpm(
                self@.session.char_count,
                self@.session.start_time,
                self@.last_keystroke,
            ),
    {
        let duration = self.last_keystroke as i128 - self.session.start_time as i128;
        if duration <= 0 {
            0
        } else {
            self.session.char_count as u128 * CENTI_WPM_PER_CHAR_MS / (duration as u128)
        }
    }

    /// Instantaneous speed over the rolling window.
    fn calculate_current_wpm(&self) -> (r: u128)
        ensures
            r == instant_wpm(self@.window),
    {
        window_wpm(&self.keystroke_times)
    }

    /// Counts a key press at `now` within the idle window.
    fn extend(&mut self, now: i64, char_count: u32, word_count: u32)
        ensures
            final(self)@ == continued(old(self)@, now, char_count, word_count),
    {
        self.session.char_count = add_saturating(self.session.char_count, char_count);
        self.session.word_count = add_saturating(self.session.word_count, word_count);
        self.last_keystroke = now;
        self.keystroke_times.push((now, char_count));
        let cutoff = now as i128 - WINDOW_MS as i128;
        self.keystroke_times = keep_recent(&self.keystroke_times, cutoff);
        self.current_wpm = self.calculate_current_wpm();
        if self.current_wpm > self.peak_wpm {
            self.peak_wpm = self.current_wpm;
        }
    }

    /// The session closed at `end`.
    fn close(&self, end: i64) -> (r: TypingSession)
        ensures
            r == closed_at(self@, end),
    {
        let mut s = copy_session(&self.session);
        s.end_time = Some(end);
        s.wpm_avg = Some(self.calculate_avg_wpm());
        s.wpm_peak = Some(self.peak_wpm);
        s
    }

    fn is_idle(&self, timeout: i64, now: i64) -> (r: bool)
        ensures
            r == idle(self@, timeout, now),
    {
        now as i128 - self.last_keystroke as i128 > timeout as i128
    }
}

/// Relies on chrono's `From<SystemTime> for DateTime<Utc>` and
/// `DateTime::timestamp_millis`, applied to std's `SystemTime::now`: the
/// current time in milliseconds since the Unix epoch, negative for a clock
/// set before 1970. Nothing is promised of the value.
#[verifier::external_body]
fn now_millis() -> (r: i64) {
    chrono::DateTime::<chrono::Utc>::from(std::time::SystemTime::now()).timestamp_millis()
}

/// Opens, extends and closes typing sessions from key presses and polls.
///
/// The tracker holds no lock of its own: every method takes it by reference,
/// so a caller that reads it from another thread than the one recording key
/// presses must guard it, for instance with a `Mutex`, for each whole call.
pub struct SessionTracker {
    current_session: Option<ActiveSession>,
    /// Idle gap in milliseconds after which a session ends.
    idle_timeout: i64,
}

impl View for SessionTracker {
    type V = TrackerState;

    closed spec fn view(&self) -> TrackerState {
        TrackerState {
            active: match self.current_session {
                Some(a) => Some(a@),
                None => None,
            },
            idle_timeout: self.idle_timeout,
        }
    }
}

impl SessionTracker {
    pub open spec fn wf(&self) -> bool {
        tracker_wf(self@)
    }

    /// A tracker with no open session and the default idle timeout.
    pub fn new() -> (r: SessionTracker)
        ensures
            r.wf(),
            r@ == (TrackerState { active: None, idle_timeout: DEFAULT_IDLE_TIMEOUT_MS }),
    {
        SessionTracker { current_session: None, idle_timeout: DEFAULT_IDLE_TIMEOUT_MS }
    }

    /// The same tracker with an idle timeout of `timeout_ms` milliseconds.
    pub fn with_idle_timeout(self, timeout_ms: i64) -> (r: SessionTracker)
        requires
            self.wf(),
        ensures
            r.wf(),
            r@ == (TrackerState { idle_timeout: timeout_ms, ..self@ }),
    {
        SessionTracker { idle_timeout: timeout_ms, ..self }
    }

    /// Records a key press at `now` of `char_count` characters completing
    /// `word_count` words.
    pub fn record_keystroke_at(&mut self, now: i64, char_count: u32, word_count: u32) -> (r:
        SessionChange)
        requires
            old(self).wf(),
        ensures
            final(self).wf(),
            (final(self)@, r) == on_keystroke(old(self)@, now, char_count, word_count),
    {
        let timeout = self.idle_timeout;
        proof {
            if let Some(a) = old(self)@.active {
                lemma_sessions_well_formed(a, now, char_count, word_count);
            } else {
                lemma_sessions_well_formed(started(now, char_count, word_count), now, char_count, word_count);
            }
        }
        match self.current_session.take() {
            None => {
                let fresh = ActiveSession::start(now, char_count, word_count);
                let opened = copy_session(&fresh.session);
                self.current_session = Some(fresh);
                SessionChange { closed: None, opened: Some(opened) }
            },
            Some(mut active) => {
                if active.is_idle(timeout, now) {
                    let closed = active.close(active.last_keystroke);
                    let fresh = ActiveSession::start(now, char_count, word_count);
                    let opened = copy_session(&fresh.session);
                    self.current_session = Some(fresh);
                    SessionChange { closed: Some(closed), opened: Some(opened) }
                } else {
                    active.extend(now, char_count, word_count);
                    self.current_session = Some(active);
                    SessionChange { closed: None, opened: None }
                }
            },
        }
    }

    /// Records a key press at the current time.
    pub fn record_keystroke(&mut self, char_count: u32, word_count: u32) -> (r: SessionChange)
        requires
            old(self).wf(),
        ensures
            final(self).wf(),
            exists|now: i64|
                (final(self)@, r) == on_keystroke(old(self)@, now, char_count, word_count),
    {
        let now = now_millis();
        self.record_keystroke_at(now, char_count, word_count)
    }

    /// Gives the open session the id that persistence assigned it.
    pub fn set_session_id(&mut self, id: i64)
        requires
            old(self).wf(),
        ensures
            final(self).wf(),
            final(self)@ == (match old(self)@.active {
                Some(a) => TrackerState {
                    active: Some(
                        SessionModel { session: TypingSession { id: Some(id), ..a.session }, ..a },
                    ),
                    ..old(self)@
                },
                None => old(self)@,
            }),
    {
        match self.current_session.take() {
            Some(mut active) => {
                active.session.id = Some(id);
                self.current_session = Some(active);
            },
            None => {},
        }
    }

    /// Drops the open session without closing it, as when persistence could
    /// not store it.
    pub fn discard_session(&mut self)
        requires
            old(self).wf(),
        ensures
            final(self).wf(),
            final(self)@ == (TrackerState { active: None, ..old(self)@ }),
    {
        self.current_session = None;
    }

    /// The instantaneous speed of the open session; zero without one.
    pub fn current_wpm(&self) -> (r: u128)
        ensures
            r == match self@.active {
                Some(a) => a.current_wpm,
                None => 0,
            },
    {
        match &self.current_session {
            Some(a) => a.current_wpm,
            None => 0,
        }
    }

    /// The peak speed of the open session; zero without one.
    pub fn peak_wpm(&self) -> (r: u128)
        ensures
            r == match self@.active {
                Some(a) => a.peak_wpm,
                None => 0,
            },
    {
        match &self.current_session {
            Some(a) => a.peak_wpm,
            None => 0,
        }
    }

    /// A copy of the open session's persisted fields.
    pub fn current_session(&self) -> (r: Option<TypingSession>)
        ensures
            r == match self@.active {
                Some(a) => Some(a.session),
                None => None,
            },
    {
        match &self.current_session {
            Some(a) => Some(copy_session(&a.session)),
            None => None,
        }
    }

    /// Closes the open session at its last key press when it has been idle
    /// longer than the timeout at `now`; returns the closed session.
    pub fn check_idle_at(&mut self, now: i64) -> (r: Option<TypingSession>)
        requires
            old(self).wf(),
        ensures
            final(self).wf(),
            (final(self)@, r) == on_idle_check(old(self)@, now),
    {
        let timeout = self.idle_timeout;
        match self.current_session.take() {
            Some(active) => {
                if active.is_idle(timeout, now) {
                    Some(active.close(active.last_keystroke))
                } else {
                    self.current_session = Some(active);
                    None
                }
            },
            None => None,
        }
    }

    /// Closes an idle session, judged at the current time.
    pub fn check_idle(&mut self) -> (r: Option<TypingSession>)
        requires
            old(self).wf(),
        ensures
            final(self).wf(),
            exists|now: i64| (final(self)@, r) == on_idle_check(old(self)@, now),
    {
        let now = now_millis();
        self.check_idle_at(now)
    }

    /// Closes the open session, if any, at `now`; returns it.
    pub fn end_session_at(&mut self, now: i64) -> (r: Option<TypingSession>)
        requires
            old(self).wf(),
        ensures
            final(self).wf(),
            (final(self)@, r) == on_stop(old(self)@, now),
    {
        match self.current_session.take() {
            Some(active) => Some(active.close(now)),
            None => None,
        }
    }

    /// Closes the open session, if any, at the current time.
    pub fn end_session(&mut self) -> (r: Option<TypingSession>)
        requires
            old(self).wf(),
        ensures
            final(self).wf(),
            exists|now: i64| (final(self)@, r) == on_stop(old(self)@, now),
    {
        let now = now_millis();
        self.end_session_at(now)
    }
}

} // verus!

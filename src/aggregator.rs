//! Grouping of key presses into one record per minute and application.

use vstd::prelude::*;
use crate::counter::{
    characters, fresh, inc, lemma_fresh_word, lemma_totals_never_decrease, KeystrokeCounter,
};
use crate::event::{boundary, browser_id, is_browser, ActiveApp, KeyEvent, KeyEventType};
use crate::record::{empty_record, KeystrokeRecord};

verus! {

/// The minute that a timestamp in milliseconds falls in, rounded down.
pub open spec fn minute_of(timestamp: i64) -> int {
    timestamp as int / 60000
}

/// The key that events of `app` are grouped under.
pub open spec fn app_key(app: Option<ActiveApp>) -> Seq<char> {
    match app {
        Some(a) => a.bundle_id@,
        None => "unknown"@,
    }
}

/// The domain and address that an event stamps on its record: only those of
/// a tracked browser that reported its active tab.
pub open spec fn browser_fields(ev: KeyEvent) -> Option<(String, String)> {
    if ev.app is Some && browser_id(ev.app->0.bundle_id@) && ev.browser is Some {
        Some((ev.browser->0.domain, ev.browser->0.url))
    } else {
        None
    }
}

/// One application's record of the current minute, with the counter that
/// its counts come from.
pub struct AppTally {
    /// The application and browser fields of the record; its counts are those of `counter`.
    pub record: KeystrokeRecord,
    pub counter: KeystrokeCounter,
}

pub open spec fn tally_key(t: AppTally) -> Seq<char> {
    match t.record.app_bundle_id {
        Some(b) => b@,
        None => "unknown"@,
    }
}

pub open spec fn with_browser(r: KeystrokeRecord, b: Option<(String, String)>) -> KeystrokeRecord {
    match b {
        Some((d, u)) => KeystrokeRecord { browser_domain: Some(d), browser_url: Some(u), ..r },
        None => r,
    }
}

/// A tally after one more event: the counter steps, and browser fields, where
/// given, replace the old ones.
pub open spec fn apply(t: AppTally, kind: KeyEventType, b: Option<(String, String)>) -> AppTally {
    AppTally { record: with_browser(t.record, b), counter: t.counter.step(kind) }
}

/// The tally that an event opens for its application.
pub open spec fn opened(ev: KeyEvent) -> AppTally {
    AppTally {
        record: KeystrokeRecord {
            app_name: match ev.app {
                Some(a) => Some(a.name),
                None => None,
            },
            app_bundle_id: match ev.app {
                Some(a) => Some(a.bundle_id),
                None => None,
            },
            ..empty_record(ev.timestamp)
        },
        counter: fresh(),
    }
}

/// The record that a tally hands on.
pub open spec fn finished(t: AppTally) -> KeystrokeRecord {
    KeystrokeRecord {
        char_count: t.counter.total_chars,
        word_count: t.counter.total_words,
        paragraph_count: t.counter.total_paragraphs,
        backspace_count: t.counter.total_backspaces,
        ..t.record
    }
}

/// The records that the tallies `ts` hand on, in order.
pub open spec fn batch(ts: Seq<AppTally>) -> Seq<KeystrokeRecord> {
    ts.map_values(|t: AppTally| finished(t))
}

/// A tally with typing in it: characters or backspaces.
pub open spec fn has_activity(t: AppTally) -> bool {
    t.counter.total_chars > 0 || t.counter.total_backspaces > 0
}

/// The records handed on when the tallies `ts` are drained, in order:
/// those with activity.
pub open spec fn emitted(ts: Seq<AppTally>) -> Seq<KeystrokeRecord>
    decreases ts.len(),
{
    if ts.len() == 0 {
        Seq::empty()
    } else if has_activity(ts.last()) {
        emitted(ts.drop_last()).push(finished(ts.last()))
    } else {
        emitted(ts.drop_last())
    }
}

/// Whether some tally of `ts` is keyed `k`.
pub open spec fn has_key(ts: Seq<AppTally>, k: Seq<char>) -> bool {
    exists|i: int| 0 <= i < ts.len() && tally_key(ts[i]) == k
}

/// Whether some event of `evs` belongs to the application keyed `k`.
pub open spec fn has_event_of(evs: Seq<KeyEvent>, k: Seq<char>) -> bool {
    exists|j: int| 0 <= j < evs.len() && app_key(evs[j].app) == k
}

pub open spec fn all_active(ts: Seq<AppTally>) -> bool {
    forall|i: int| 0 <= i < ts.len() ==> has_activity(#[trigger] ts[i])
}

pub open spec fn keys_unique(ts: Seq<AppTally>) -> bool {
    forall|i: int, j: int| 0 <= i < j < ts.len() ==> tally_key(ts[i]) != tally_key(ts[j])
}

/// The tallies after an event: the tally of its application steps, or a new
/// one is added at the end.
pub open spec fn after_event(ts: Seq<AppTally>, ev: KeyEvent) -> Seq<AppTally> {
    let k = app_key(ev.app);
    if exists|i: int| 0 <= i < ts.len() && tally_key(ts[i]) == k {
        let i = choose|i: int| 0 <= i < ts.len() && tally_key(ts[i]) == k;
        ts.update(i, apply(ts[i], ev.event_type, browser_fields(ev)))
    } else {
        ts.push(apply(opened(ev), ev.event_type, browser_fields(ev)))
    }
}

/// The tallies after the events of `evs`, in order, all within one minute.
pub open spec fn feed(ts: Seq<AppTally>, evs: Seq<KeyEvent>) -> Seq<AppTally>
    decreases evs.len(),
{
    if evs.len() == 0 {
        ts
    } else {
        after_event(feed(ts, evs.drop_last()), evs.last())
    }
}

/// An event that is typing: anything but `Other`.
pub open spec fn is_typing(ev: KeyEvent) -> bool {
    ev.event_type != KeyEventType::Other
}

proof fn lemma_step_keeps_activity(c: KeystrokeCounter, kind: KeyEventType)
    ensures
        (c.total_chars > 0 || c.total_backspaces > 0 || kind != KeyEventType::Other) ==> (
        c.step(kind).total_chars > 0 || c.step(kind).total_backspaces > 0),
{
}

/// An event keeps keys unique, keeps every tally that had activity active,
/// gives its own tally activity when it is typing, and adds no key but its own.
proof fn lemma_after_event(ts: Seq<AppTally>, ev: KeyEvent)
    requires
        keys_unique(ts),
    ensures
        keys_unique(after_event(ts, ev)),
        forall|k: Seq<char>| #[trigger] has_key(after_event(ts, ev), k) <==> (has_key(ts, k) || k == app_key(ev.app)),
        (forall|i: int| 0 <= i < ts.len() ==> has_activity(#[trigger] ts[i])) && is_typing(ev) ==> (
        forall|i: int| 0 <= i < after_event(ts, ev).len() ==> has_activity(#[trigger] after_event(ts, ev)[i])),
{
    let k = app_key(ev.app);
    let r = after_event(ts, ev);
    if exists|i: int| 0 <= i < ts.len() && tally_key(ts[i]) == k {
        let c = choose|i: int| 0 <= i < ts.len() && tally_key(ts[i]) == k;
        lemma_step_keeps_activity(ts[c].counter, ev.event_type);
        assert(tally_key(r[c]) == tally_key(ts[c]));
        assert forall|kk: Seq<char>| #[trigger] has_key(r, kk) <==> (has_key(ts, kk) || kk == k) by {
            if exists|i: int| 0 <= i < r.len() && tally_key(r[i]) == kk {
                let i = choose|i: int| 0 <= i < r.len() && tally_key(r[i]) == kk;
                assert(tally_key(ts[i]) == kk);
            }
            if kk == k {
                assert(tally_key(r[c]) == kk);
            }
            if exists|i: int| 0 <= i < ts.len() && tally_key(ts[i]) == kk {
                let i = choose|i: int| 0 <= i < ts.len() && tally_key(ts[i]) == kk;
                assert(tally_key(r[i]) == kk);
            }
        }
    } else {
        lemma_step_keeps_activity(fresh(), ev.event_type);
        assert(tally_key(r[ts.len() as int]) == k);
        assert forall|kk: Seq<char>| #[trigger] has_key(r, kk) <==> (has_key(ts, kk) || kk == k) by {
            if exists|i: int| 0 <= i < r.len() && tally_key(r[i]) == kk {
                let i = choose|i: int| 0 <= i < r.len() && tally_key(r[i]) == kk;
                if i < ts.len() {
                    assert(tally_key(ts[i]) == kk);
                }
            }
            if kk == k {
                assert(tally_key(r[ts.len() as int]) == kk);
            }
            if exists|i: int| 0 <= i < ts.len() && tally_key(ts[i]) == kk {
                let i = choose|i: int| 0 <= i < ts.len() && tally_key(ts[i]) == kk;
                assert(tally_key(r[i]) == kk);
            }
        }
    }
}

/// When every tally has activity, draining hands on each of them, in order.
proof fn lemma_emitted_all(ts: Seq<AppTally>)
    requires
        forall|i: int| 0 <= i < ts.len() ==> has_activity(#[trigger] ts[i]),
    ensures
        emitted(ts) == batch(ts),
    decreases ts.len(),
{
    if ts.len() > 0 {
        let p = ts.drop_last();
        assert forall|i: int| 0 <= i < p.len() implies has_activity(#[trigger] p[i]) by {
            assert(p[i] == ts[i]);
        }
        lemma_emitted_all(p);
        assert(batch(ts) =~= batch(p).push(
            finished(ts.last()),
        ));
    }
}

/// Typing events of several applications within one minute, fed to an
/// aggregator without tallies, leave exactly one tally per application, all
/// with activity, so a flush hands on one record per application; after the
/// flush no tally is left, so a second flush hands on nothing.
pub proof fn lemma_flush_one_record_per_app(evs: Seq<KeyEvent>)
    requires
        forall|j: int| 0 <= j < evs.len() ==> is_typing(#[trigger] evs[j]),
    ensures
        keys_unique(feed(Seq::empty(), evs)),
        all_active(feed(Seq::empty(), evs)),
        forall|k: Seq<char>| #[trigger] has_key(feed(Seq::empty(), evs), k) <==> has_event_of(evs, k),
        one_per_app(batch(feed(Seq::empty(), evs))),
        batch(Seq::<AppTally>::empty()) == Seq::<KeystrokeRecord>::empty(),
{
    lemma_feed_typing(evs);
    lemma_batch_keys_distinct(feed(Seq::empty(), evs));
    assert(batch(Seq::<AppTally>::empty()) =~= Seq::<KeystrokeRecord>::empty());
}

proof fn lemma_feed_typing(evs: Seq<KeyEvent>)
    requires
        forall|j: int| 0 <= j < evs.len() ==> is_typing(#[trigger] evs[j]),
    ensures
        keys_unique(feed(Seq::empty(), evs)),
        forall|i: int| 0 <= i < feed(Seq::empty(), evs).len() ==> has_activity(#[trigger] feed(Seq::empty(), evs)[i]),
        forall|k: Seq<char>| #[trigger] has_key(feed(Seq::empty(), evs), k) <==> has_event_of(evs, k),
    decreases evs.len(),
{
    if evs.len() > 0 {
        let p = evs.drop_last();
        assert forall|j: int| 0 <= j < p.len() implies is_typing(#[trigger] p[j]) by {
            assert(p[j] == evs[j]);
        }
        lemma_feed_typing(p);
        let q = feed(Seq::empty(), p);
        assert(is_typing(evs[evs.len() - 1]));
        lemma_after_event(q, evs.last());
        let r = feed(Seq::empty(), evs);
        assert forall|k: Seq<char>| #[trigger] has_key(r, k) <==> has_event_of(evs, k) by {
            assert(has_key(r, k) <==> (has_key(q, k) || k == app_key(evs.last().app)));
            assert(has_key(q, k) <==> has_event_of(p, k));
            if exists|j: int| 0 <= j < evs.len() && app_key(evs[j].app) == k {
                let j = choose|j: int| 0 <= j < evs.len() && app_key(evs[j].app) == k;
                if j < p.len() {
                    assert(app_key(p[j].app) == k);
                }
            }
            if exists|j: int| 0 <= j < p.len() && app_key(p[j].app) == k {
                let j = choose|j: int| 0 <= j < p.len() && app_key(p[j].app) == k;
                assert(app_key(evs[j].app) == k);
            }
        }
    }
}

/// The key of the application a record belongs to.
pub open spec fn record_key(r: KeystrokeRecord) -> Seq<char> {
    match r.app_bundle_id {
        Some(b) => b@,
        None => "unknown"@,
    }
}

/// No two records belong to the same application.
pub open spec fn one_per_app(rs: Seq<KeystrokeRecord>) -> bool {
    forall|i: int, j: int| 0 <= i < j < rs.len() ==> record_key(#[trigger] rs[i]) != record_key(#[trigger] rs[j])
}

/// The records of distinct tallies belong to distinct applications.
proof fn lemma_batch_keys_distinct(ts: Seq<AppTally>)
    requires
        keys_unique(ts),
    ensures
        one_per_app(batch(ts)),
{
    let rs = batch(ts);
    assert forall|i: int, j: int| 0 <= i < j < rs.len() implies record_key(#[trigger] rs[i]) != record_key(
        #[trigger] rs[j],
    ) by {
        assert(record_key(finished(ts[i])) == tally_key(ts[i]));
        assert(record_key(finished(ts[j])) == tally_key(ts[j]));
    }
}

/// A typing event in the minute after the one in progress closes that
/// minute: the batch handed on holds one record for every application that
/// typed in it, each application once, and nothing else; the new minute
/// starts with the event's application alone, its counter stepped once from
/// zero.
pub proof fn lemma_minute_rollover(s: AggregatorState, ev: KeyEvent)
    requires
        keys_unique(s.tallies),
        all_active(s.tallies),
        s.minute is Some,
        minute_of(ev.timestamp) == s.minute->0 + 1,
        is_typing(ev),
    ensures
        rolls_over(s, ev.timestamp),
        batch(s.tallies).len() == s.tallies.len(),
        forall|i: int| 0 <= i < s.tallies.len()
            ==> #[trigger] batch(s.tallies)[i] == finished(s.tallies[i]),
        one_per_app(batch(s.tallies)),
        after_event(Seq::empty(), ev).len() == 1,
        after_event(Seq::empty(), ev)[0].counter == fresh().step(ev.event_type),
        tally_key(after_event(Seq::empty(), ev)[0]) == app_key(ev.app),
{
    lemma_batch_keys_distinct(s.tallies);
}

/// The kinds of a sequence of events.
pub open spec fn kinds(evs: Seq<KeyEvent>) -> Seq<KeyEventType> {
    evs.map_values(|e: KeyEvent| e.event_type)
}

/// Events of one application leave one tally, whose counter has taken
/// their kinds in order.
proof fn lemma_feed_one_app(evs: Seq<KeyEvent>, k: Seq<char>)
    requires
        evs.len() >= 1,
        forall|j: int| 0 <= j < evs.len() ==> app_key(#[trigger] evs[j].app) == k,
    ensures
        feed(Seq::empty(), evs).len() == 1,
        tally_key(feed(Seq::empty(), evs)[0]) == k,
        feed(Seq::empty(), evs)[0].counter == fresh().run(kinds(evs)),
    decreases evs.len(),
{
    let p = evs.drop_last();
    let e = evs.last();
    assert(app_key(evs[evs.len() - 1].app) == k);
    assert(kinds(evs).drop_last() =~= kinds(p));
    assert(feed(Seq::empty(), evs) == after_event(feed(Seq::empty(), p), e));
    assert(kinds(evs).last() == e.event_type);
    assert(fresh().run(kinds(evs)) == fresh().run(kinds(p)).step(e.event_type));
    if p.len() == 0 {
        assert(kinds(p) =~= Seq::<KeyEventType>::empty());
        assert(feed(Seq::empty(), p) == Seq::<AppTally>::empty());
        assert(fresh().run(kinds(p)) == fresh());
        let t = apply(opened(e), e.event_type, browser_fields(e));
        assert(!exists|i: int| 0 <= i < Seq::<AppTally>::empty().len() && tally_key(Seq::<AppTally>::empty()[i]) == k);
        assert(after_event(Seq::empty(), e) == Seq::<AppTally>::empty().push(t));
        assert(tally_key(t) == k);
    } else {
        assert forall|j: int| 0 <= j < p.len() implies app_key(#[trigger] p[j].app) == k by {
            assert(p[j] == evs[j]);
        }
        lemma_feed_one_app(p, k);
        let q = feed(Seq::empty(), p);
        assert(0 <= 0 < q.len() && tally_key(q[0]) == k);
        let c = choose|i: int| 0 <= i < q.len() && tally_key(q[i]) == k;
        assert(c == 0);
    }
}

/// Within one minute, `n >= 1` characters of one application followed by a
/// space, tab or enter of the same application leave one record with
/// `n + 1` characters and one word.
pub proof fn lemma_aggregated_word(evs: Seq<KeyEvent>, n: nat)
    requires
        1 <= n < u32::MAX,
        evs.len() == n + 1,
        forall|j: int| 0 <= j < n ==> (#[trigger] evs[j]).event_type == KeyEventType::Character,
        boundary(evs[n as int].event_type),
        forall|j: int| 0 <= j < evs.len() ==> app_key(#[trigger] evs[j].app) == app_key(evs[0].app),
    ensures
        feed(Seq::empty(), evs).len() == 1,
        finished(feed(Seq::empty(), evs)[0]).char_count == n + 1,
        finished(feed(Seq::empty(), evs)[0]).word_count == 1,
{
    lemma_feed_one_app(evs, app_key(evs[0].app));
    assert(kinds(evs) =~= characters(n).push(evs[n as int].event_type));
    lemma_fresh_word(n, evs[n as int].event_type);
}

/// A typing event within the minute in progress hands on no batch; the
/// tallies afterwards are keyed by the old keys and the event's application,
/// each old tally keeps its place and key, and no count of it falls.
pub proof fn lemma_same_minute(s: AggregatorState, ev: KeyEvent)
    requires
        keys_unique(s.tallies),
        s.minute == Some(minute_of(ev.timestamp)),
    ensures
        !rolls_over(s, ev.timestamp),
        forall|k: Seq<char>| #[trigger] has_key(after_event(s.tallies, ev), k) <==> (has_key(s.tallies, k) || k
            == app_key(ev.app)),
        after_event(s.tallies, ev).len() >= s.tallies.len(),
        forall|i: int| 0 <= i < s.tallies.len() ==> {
            let t = #[trigger] after_event(s.tallies, ev)[i];
            &&& tally_key(t) == tally_key(s.tallies[i])
            &&& t.counter.total_chars >= s.tallies[i].counter.total_chars
            &&& t.counter.total_words >= s.tallies[i].counter.total_words
            &&& t.counter.total_paragraphs >= s.tallies[i].counter.total_paragraphs
            &&& t.counter.total_backspaces >= s.tallies[i].counter.total_backspaces
        },
{
    lemma_after_event(s.tallies, ev);
    lemma_totals_never_decrease_all(s.tallies, ev.event_type);
}

proof fn lemma_totals_never_decrease_all(ts: Seq<AppTally>, kind: KeyEventType)
    ensures
        forall|i: int| 0 <= i < ts.len() ==> {
            let c = #[trigger] ts[i].counter;
            &&& c.step(kind).total_chars >= c.total_chars
            &&& c.step(kind).total_words >= c.total_words
            &&& c.step(kind).total_paragraphs >= c.total_paragraphs
            &&& c.step(kind).total_backspaces >= c.total_backspaces
        },
{
    assert forall|i: int| 0 <= i < ts.len() implies {
        let c = #[trigger] ts[i].counter;
        &&& c.step(kind).total_chars >= c.total_chars
        &&& c.step(kind).total_words >= c.total_words
        &&& c.step(kind).total_paragraphs >= c.total_paragraphs
        &&& c.step(kind).total_backspaces >= c.total_backspaces
    } by {
        lemma_totals_never_decrease(ts[i].counter, kind);
    }
}

/// A backspace for an application with nothing pending keeps nothing pending,
/// counts one more backspace, and leaves its characters and words alone.
pub proof fn lemma_tally_backspace(t: AppTally, b: Option<(String, String)>)
    requires
        t.counter.pending_chars == 0,
    ensures
        apply(t, KeyEventType::Backspace, b).counter.pending_chars == 0,
        apply(t, KeyEventType::Backspace, b).counter.total_backspaces == inc(t.counter.total_backspaces),
        apply(t, KeyEventType::Backspace, b).counter.total_chars == t.counter.total_chars,
        apply(t, KeyEventType::Backspace, b).counter.total_words == t.counter.total_words,
{
}

/// The aggregator as a value: the minute in progress, if any, and its tallies.
pub struct AggregatorState {
    pub minute: Option<int>,
    pub tallies: Seq<AppTally>,
}

/// Whether an event at `timestamp` closes the minute in progress.
pub open spec fn rolls_over(s: AggregatorState, timestamp: i64) -> bool {
    s.minute is Some && s.minute->0 != minute_of(timestamp)
}

/// Groups key presses into one record per minute and application.
pub struct KeystrokeAggregator {
    current_minute: Option<i64>,
    tallies: Vec<AppTally>,
}

impl View for KeystrokeAggregator {
    type V = AggregatorState;

    closed spec fn view(&self) -> AggregatorState {
        AggregatorState {
            minute: match self.current_minute {
                Some(m) => Some(m as int),
                None => None,
            },
            tallies: self.tallies@,
        }
    }
}

fn minute_index(timestamp: i64) -> (r: i64)
    ensures
        r == minute_of(timestamp),
{
    match timestamp.checked_div_euclid(60000) {
        Some(m) => m,
        None => 0,
    }
}

fn app_key_of(app: &Option<ActiveApp>) -> (r: String)
    ensures
        r@ == app_key(*app),
{
    match app {
        Some(a) => a.bundle_id.clone(),
        None => String::from_str("unknown"),
    }
}

fn matches_key(t: &AppTally, key: &String) -> (r: bool)
    ensures
        r == (tally_key(*t) == key@),
{
    match &t.record.app_bundle_id {
        Some(b) => *b == *key,
        None => {
            let unknown = String::from_str("unknown");
            unknown == *key
        },
    }
}

fn browser_fields_of(ev: &KeyEvent) -> (r: Option<(String, String)>)
    ensures
        r == browser_fields(*ev),
{
    match &ev.app {
        Some(a) => {
            if is_browser(&a.bundle_id) {
                match &ev.browser {
                    Some(b) => Some((b.domain.clone(), b.url.clone())),
                    None => None,
                }
            } else {
                None
            }
        },
        None => None,
    }
}

fn open_tally(ev: &KeyEvent) -> (r: AppTally)
    ensures
        r == opened(*ev),
{
    let record = KeystrokeRecord::new(ev.timestamp);
    let record = match &ev.app {
        Some(a) => record.with_app(Some(a.name.clone()), Some(a.bundle_id.clone())),
        None => record,
    };
    AppTally { record, counter: KeystrokeCounter::new() }
}

fn applied(t: &AppTally, kind: KeyEventType, b: &Option<(String, String)>) -> (r: AppTally)
    ensures
        r == apply(*t, kind, *b),
{
    let mut counter = t.counter;
    counter.process(kind);
    let record = t.record.duplicate();
    let record = match b {
        Some((d, u)) => KeystrokeRecord {
            browser_domain: Some(d.clone()),
            browser_url: Some(u.clone()),
            ..record
        },
        None => record,
    };
    AppTally { record, counter }
}

fn finish(t: &AppTally) -> (r: KeystrokeRecord)
    ensures
        r == finished(*t),
{
    let record = t.record.duplicate();
    KeystrokeRecord {
        char_count: t.counter.total_chars,
        word_count: t.counter.total_words,
        paragraph_count: t.counter.total_paragraphs,
        backspace_count: t.counter.total_backspaces,
        ..record
    }
}

impl KeystrokeAggregator {
    /// Keys are unique, and every tally has activity: only typing reaches a tally.
    pub open spec fn wf(&self) -> bool {
        &&& keys_unique(self@.tallies)
        &&& all_active(self@.tallies)
    }

    pub fn new() -> (r: KeystrokeAggregator)
        ensures
            r.wf(),
            r@.minute is None,
            r@.tallies.len() == 0,
    {
        KeystrokeAggregator { current_minute: None, tallies: Vec::new() }
    }

    /// Removes every tally and returns the records of those with activity.
    fn drain(&mut self) -> (r: Vec<KeystrokeRecord>)
        ensures
            r@ == emitted(old(self)@.tallies),
            final(self)@.minute == old(self)@.minute,
            final(self)@.tallies.len() == 0,
    {
        let mut taken: Vec<AppTally> = Vec::new();
        std::mem::swap(&mut taken, &mut self.tallies);
        let mut out: Vec<KeystrokeRecord> = Vec::new();
        let n = taken.len();
        let mut i: usize = 0;
        while i < n
            invariant
                n == taken.len(),
                i <= n,
                out@ == emitted(taken@.subrange(0, i as int)),
            decreases n - i,
        {
            let t = &taken[i];
            assert(taken@.subrange(0, i + 1).drop_last() =~= taken@.subrange(0, i as int));
            if t.counter.total_chars > 0 || t.counter.total_backspaces > 0 {
                out.push(finish(t));
            }
            i = i + 1;
        }
        assert(taken@.subrange(0, n as int) =~= taken@);
        out
    }

    /// Adds an event to the tally of its application.
    fn tally_event(&mut self, event: KeyEvent)
        requires
            old(self).wf(),
            is_typing(event),
        ensures
            final(self).wf(),
            final(self)@.minute == old(self)@.minute,
            final(self)@.tallies == after_event(old(self)@.tallies, event),
    {
        let key = app_key_of(&event.app);
        let browser = browser_fields_of(&event);
        let n = self.tallies.len();
        let mut found: Option<usize> = None;
        let mut i: usize = 0;
        while i < n
            invariant
                n == self.tallies.len(),
                i <= n,
                found is None ==> forall|j: int| 0 <= j < i ==> tally_key(#[trigger] self.tallies@[j]) != key@,
                found is Some ==> found->0 < n && tally_key(self.tallies@[found->0 as int]) == key@,
            decreases n - i,
        {
            if found.is_none() && matches_key(&self.tallies[i], &key) {
                found = Some(i);
            }
            i = i + 1;
        }
        let ghost ts = self.tallies@;
        match found {
            Some(k) => {
                let t = applied(&self.tallies[k], event.event_type, &browser);
                self.tallies.set(k, t);
                proof {
                    let c = choose|c: int| 0 <= c < ts.len() && tally_key(ts[c]) == app_key(event.app);
                    assert(c == k as int);
                    assert(tally_key(t) == tally_key(ts[k as int]));
                    assert(keys_unique(self.tallies@));
                }
            },
            None => {
                let t = open_tally(&event);
                let t = applied(&t, event.event_type, &browser);
                self.tallies.push(t);
                proof {
                    assert(!exists|c: int| 0 <= c < ts.len() && tally_key(ts[c]) == app_key(event.app));
                    assert(keys_unique(self.tallies@));
                }
            },
        }
        proof {
            lemma_after_event(ts, event);
        }
    }

    /// Takes one event; returns the records of the minute it closed, if any.
    /// An `Other` event is no typing and changes nothing.
    pub fn process(&mut self, event: KeyEvent) -> (completed: Vec<KeystrokeRecord>)
        requires
            old(self).wf(),
        ensures
            final(self).wf(),
            !is_typing(event) ==> completed@ == Seq::<KeystrokeRecord>::empty() && final(self)@
                == old(self)@,
            is_typing(event) ==> completed@ == if rolls_over(old(self)@, event.timestamp) {
                batch(old(self)@.tallies)
            } else {
                Seq::empty()
            },
            is_typing(event) ==> final(self)@ == (AggregatorState {
                minute: Some(minute_of(event.timestamp)),
                tallies: after_event(
                    if rolls_over(old(self)@, event.timestamp) {
                        Seq::empty()
                    } else {
                        old(self)@.tallies
                    },
                    event,
                ),
            }),
    {
        if event.event_type == KeyEventType::Other {
            return Vec::new();
        }
        let minute = minute_index(event.timestamp);
        let rolled = match self.current_minute {
            Some(m) => m != minute,
            None => false,
        };
        let mut completed: Vec<KeystrokeRecord> = Vec::new();
        if rolled {
            proof {
                lemma_emitted_all(self@.tallies);
            }
            completed = self.drain();
            assert(self@.tallies =~= Seq::empty());
        }
        self.current_minute = Some(minute);
        self.tally_event(event);
        completed
    }

    /// Hands on every record in progress and starts over with no minute.
    pub fn flush(&mut self) -> (r: Vec<KeystrokeRecord>)
        requires
            old(self).wf(),
        ensures
            r@ == batch(old(self)@.tallies),
            final(self).wf(),
            final(self)@.minute is None,
            final(self)@.tallies.len() == 0,
    {
        proof {
            lemma_emitted_all(self@.tallies);
        }
        let r = self.drain();
        self.current_minute = None;
        r
    }
}

impl Default for KeystrokeAggregator {
    fn default() -> (r: KeystrokeAggregator)
        ensures
            r.wf(),
            r@.minute is None,
            r@.tallies.len() == 0,
    {
        KeystrokeAggregator::new()
    }
}

} // verus!

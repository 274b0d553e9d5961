//! The capture side: whether the key hook runs, and the cached foreground context.

use vstd::prelude::*;
use crate::event::ActiveApp;

verus! {

/// The interval, in milliseconds, between two lookups of the foreground application.
pub const APP_CHECK_INTERVAL_MS: i64 = 2000;

pub enum ListenerError {
    StartFailed(String),
    AlreadyRunning,
    Platform(String),
}

/// Whether the key hook runs. Starting twice fails; stopping is idempotent.
pub struct Listener {
    running: bool,
}

impl View for Listener {
    type V = bool;

    closed spec fn view(&self) -> bool {
        self.running
    }
}

impl Listener {
    pub fn new() -> (r: Listener)
        ensures
            !r@,
    {
        Listener { running: false }
    }

    pub fn is_running(&self) -> (r: bool)
        ensures
            r == self@,
    {
        self.running
    }

    /// Marks the hook as running; fails if it already runs.
    pub fn start(&mut self) -> (r: Result<(), ListenerError>)
        ensures
            old(self)@ ==> r == Err::<(), ListenerError>(ListenerError::AlreadyRunning) && final(self)@,
            !old(self)@ ==> r is Ok && final(self)@,
    {
        if self.running {
            return Err(ListenerError::AlreadyRunning);
        }
        self.running = true;
        Ok(())
    }

    /// Marks the hook as stopped, whether or not it ran.
    pub fn stop(&mut self)
        ensures
            !final(self)@,
    {
        self.running = false;
    }
}

impl Default for Listener {
    fn default() -> (r: Listener)
        ensures
            !r@,
    {
        Listener::new()
    }
}

/// The foreground application, looked up at most once per interval and
/// cached in between.
pub struct AppCache {
    /// When the last lookup was made, if ever.
    pub last_check: Option<i64>,
    /// What the last lookup found; `None` when it failed.
    pub cached: Option<ActiveApp>,
}

/// Whether a lookup is due at `now`.
pub open spec fn refresh_due(c: AppCache, now: i64) -> bool {
    match c.last_check {
        Some(t) => now - t >= APP_CHECK_INTERVAL_MS,
        None => true,
    }
}

impl AppCache {
    pub fn new() -> (r: AppCache)
        ensures
            r.last_check is None,
            r.cached is None,
    {
        AppCache { last_check: None, cached: None }
    }

    /// Whether the foreground application should be looked up again at `now`.
    pub fn needs_refresh(&self, now: i64) -> (r: bool)
        ensures
            r == refresh_due(*self, now),
    {
        match self.last_check {
            Some(t) => now as i128 - t as i128 >= APP_CHECK_INTERVAL_MS as i128,
            None => true,
        }
    }

    /// Stores the result of a lookup made at `now`; a failed lookup is `None`.
    pub fn refresh(&mut self, now: i64, app: Option<ActiveApp>)
        ensures
            final(self).last_check == Some(now),
            final(self).cached == app,
    {
        self.last_check = Some(now);
        self.cached = app;
    }

    /// A copy of the cached application.
    pub fn current(&self) -> (r: Option<ActiveApp>)
        ensures
            r == self.cached,
    {
        match &self.cached {
            Some(a) => Some(ActiveApp { name: a.name.clone(), bundle_id: a.bundle_id.clone() }),
            None => None,
        }
    }
}

} // verus!

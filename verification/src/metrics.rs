//! Startup timing: a timer anchored at process start records when the
//! server, the UI and the health check came up, and a small cache remembers
//! where the server binary was found.

use vstd::prelude::*;

verus! {

/// The recorded startup milestones, in milliseconds since the timer began.
#[derive(Clone, Copy, Debug, PartialEq, Eq, Structural)]
pub struct StartupMetrics {
    /// Time from timer start to the metrics snapshot.
    pub total_startup_time_ms: u64,
    /// When the server process was started.
    pub server_start_time_ms: u64,
    /// When the UI finished initializing.
    pub ui_init_time_ms: u64,
    /// When the first health check passed.
    pub health_check_time_ms: u64,
    /// When the server reported ready.
    pub server_ready_time_ms: u64,
}

/// Relies on `std::time::SystemTime::now` and
/// `duration_since(UNIX_EPOCH).as_millis`: the current wall-clock time in
/// milliseconds. Nothing can be promised about the value; it is read anew at
/// every call.
#[verifier::external_body]
fn now_millis() -> u64 {
    match std::time::SystemTime::now().duration_since(std::time::UNIX_EPOCH) {
        Ok(d) => d.as_millis() as u64,
        Err(_) => 0,
    }
}

/// Measures startup milestones against its own creation time. Each recorded
/// value is a wall-clock reading, so only the bookkeeping — which field a
/// recording writes and that the others stay put — is stated.
pub struct StartupTimer {
    start_ms: u64,
    server_start: u64,
    ui_init: u64,
    health_check: u64,
    server_ready: u64,
}

impl StartupTimer {
    /// Milestone: when the server process was started.
    pub closed spec fn server_start_view(&self) -> u64 {
        self.server_start
    }

    /// Milestone: when the UI finished initializing.
    pub closed spec fn ui_init_view(&self) -> u64 {
        self.ui_init
    }

    /// Milestone: when the first health check passed.
    pub closed spec fn health_check_view(&self) -> u64 {
        self.health_check
    }

    /// Milestone: when the server reported ready.
    pub closed spec fn server_ready_view(&self) -> u64 {
        self.server_ready
    }

    /// A timer anchored at the present moment, with no milestones recorded.
    pub fn new() -> (r: Self)
        ensures
            r.server_start_view() == 0,
            r.ui_init_view() == 0,
            r.health_check_view() == 0,
            r.server_ready_view() == 0,
    {
        StartupTimer {
            start_ms: now_millis(),
            server_start: 0,
            ui_init: 0,
            health_check: 0,
            server_ready: 0,
        }
    }

    /// Milliseconds elapsed since the timer began, by the wall clock; zero
    /// if the clock stepped backwards.
    fn elapsed(&self) -> u64 {
        let now = now_millis();
        if now >= self.start_ms {
            now - self.start_ms
        } else {
            0
        }
    }

    /// Records the server-start milestone; the other milestones stay put.
    pub fn record_server_start(&mut self)
        ensures
            final(self).ui_init_view() == old(self).ui_init_view(),
            final(self).health_check_view() == old(self).health_check_view(),
            final(self).server_ready_view() == old(self).server_ready_view(),
    {
        self.server_start = self.elapsed();
    }

    /// Records the UI-initialization milestone; the other milestones stay put.
    pub fn record_ui_init(&mut self)
        ensures
            final(self).server_start_view() == old(self).server_start_view(),
            final(self).health_check_view() == old(self).health_check_view(),
            final(self).server_ready_view() == old(self).server_ready_view(),
    {
        self.ui_init = self.elapsed();
    }

    /// Records the health-check milestone; the other milestones stay put.
    pub fn record_health_check(&mut self)
        ensures
            final(self).server_start_view() == old(self).server_start_view(),
            final(self).ui_init_view() == old(self).ui_init_view(),
            final(self).server_ready_view() == old(self).server_ready_view(),
    {
        self.health_check = self.elapsed();
    }

    /// Records the server-ready milestone; the other milestones stay put.
    pub fn record_server_ready(&mut self)
        ensures
            final(self).server_start_view() == old(self).server_start_view(),
            final(self).ui_init_view() == old(self).ui_init_view(),
            final(self).health_check_view() == old(self).health_check_view(),
    {
        self.server_ready = self.elapsed();
    }

    /// A snapshot of every recorded milestone, with the total read from the
    /// wall clock at this moment.
    pub fn get_metrics(&self) -> (r: StartupMetrics)
        ensures
            r.server_start_time_ms == self.server_start_view(),
            r.ui_init_time_ms == self.ui_init_view(),
            r.health_check_time_ms == self.health_check_view(),
            r.server_ready_time_ms == self.server_ready_view(),
    {
        StartupMetrics {
            total_startup_time_ms: self.elapsed(),
            server_start_time_ms: self.server_start,
            ui_init_time_ms: self.ui_init,
            health_check_time_ms: self.health_check,
            server_ready_time_ms: self.server_ready,
        }
    }
}

/// Remembers where the server binary directory was found, so the search runs
/// once.
#[derive(Debug)]
pub struct ServerDirectoryCache {
    path: Option<String>,
}

impl ServerDirectoryCache {
    /// The cached path, if one has been set.
    pub closed spec fn path_view(&self) -> Option<Seq<char>> {
        match self.path {
            Some(p) => Some(p@),
            None => None,
        }
    }

    /// An empty cache.
    pub fn new() -> (r: Self)
        ensures
            r.path_view() is None,
    {
        ServerDirectoryCache { path: None }
    }

    /// Caches a path, replacing any earlier one.
    pub fn set_path(&mut self, path: String)
        ensures
            final(self).path_view() == Some(path@),
    {
        self.path = Some(path);
    }

    /// The cached path, if one has been set.
    pub fn get_path(&self) -> (r: Option<&String>)
        ensures
            r matches Some(p) ==> self.path_view() == Some(p@),
            r is None ==> self.path_view() is None,
    {
        self.path.as_ref()
    }
}

} // verus!

//! Launch parameters of a browser session and its close-once lifecycle.

use vstd::prelude::*;

verus! {

/// Width of the page viewport and window.
pub const VIEWPORT_WIDTH: u32 = 1024;

/// Height of the page viewport and window.
pub const VIEWPORT_HEIGHT: u32 = 768;

/// Extra browser flags the runtime environment requires.
pub const LAUNCH_FLAG_SETUID: &'static str = "--disable-setuid-sandbox";

/// See `LAUNCH_FLAG_SETUID`.
pub const LAUNCH_FLAG_SHM: &'static str = "--disable-dev-shm-usage";

/// See `LAUNCH_FLAG_SETUID`.
pub const LAUNCH_FLAG_SITE_ISOLATION: &'static str = "--disable-site-isolation-trials";

/// Immutable launch parameters of one browser session.
#[derive(Debug)]
pub struct SessionConfig {
    pub headed: bool,
    pub executable_path: Option<String>,
    pub viewport_width: u32,
    pub viewport_height: u32,
}

impl SessionConfig {
    /// Parameters with the fixed viewport.
    pub fn new(headed: bool, executable_path: Option<String>) -> (r: SessionConfig)
        ensures
            r.headed == headed,
            r.executable_path == executable_path,
            r.viewport_width == VIEWPORT_WIDTH,
            r.viewport_height == VIEWPORT_HEIGHT,
    {
        SessionConfig {
            headed,
            executable_path,
            viewport_width: VIEWPORT_WIDTH,
            viewport_height: VIEWPORT_HEIGHT,
        }
    }

    /// Parameters for a session opened on behalf of a network request:
    /// always headless.
    pub fn for_service(executable_path: Option<String>) -> (r: SessionConfig)
        ensures
            !r.headed,
            r.executable_path == executable_path,
            r.viewport_width == VIEWPORT_WIDTH,
            r.viewport_height == VIEWPORT_HEIGHT,
    {
        SessionConfig::new(false, executable_path)
    }
}

/// Whether a session has been released. Closing is idempotent: only the
/// first request to close terminates the browser process.
#[derive(Clone, Copy, Debug)]
pub struct SessionLifecycle {
    pub closed: bool,
}

impl SessionLifecycle {
    /// The lifecycle after a request to close, and whether that request must
    /// terminate the browser.
    pub open spec fn after_close(self) -> (SessionLifecycle, bool) {
        (SessionLifecycle { closed: true }, !self.closed)
    }

    /// A live session.
    pub fn open() -> (r: SessionLifecycle)
        ensures
            !r.closed,
    {
        SessionLifecycle { closed: false }
    }

    /// Whether the session has been released.
    pub fn is_closed(&self) -> (r: bool)
        ensures
            r == self.closed,
    {
        self.closed
    }

    /// Marks the session closed; returns whether the caller must terminate
    /// the browser process and its event task now, which holds on the first
    /// call alone.
    pub fn begin_close(&mut self) -> (terminate: bool)
        ensures
            (*final(self), terminate) == old(self).after_close(),
    {
        let terminate = !self.closed;
        self.closed = true;
        terminate
    }
}

/// Closing is idempotent: a second close leaves the lifecycle as the first
/// left it and asks for no second termination.
pub proof fn law_close_idempotent(s: SessionLifecycle)
    ensures
        s.after_close().0.closed,
        s.after_close().0.after_close().0 == s.after_close().0,
        !s.after_close().0.after_close().1,
{
}

} // verus!

//! The directory-watcher state machine: the decisions of the event loop.
//!
//! The OS watch subscription, the filesystem events and the file reads live
//! outside the library; the caller performs them and feeds their outcomes
//! in. The machine here owns the lifecycle — idle, watching, stopped — and
//! decides which events are worth decoding. Event handling never changes
//! the phase, so a failure on one event cannot stop the watch.

use vstd::prelude::*;

verus! {

use crate::connect_code::ConnectCode;

/// The error returned when watching could not be set up at all: the
/// directory does not exist or cannot be monitored. It is the one fatal
/// failure of the pipeline.
#[derive(Debug, Clone, Copy, PartialEq, Eq, Structural)]
pub struct WatchSetupError;

/// Lifecycle phase of a watcher.
#[derive(Debug, Clone, Copy, PartialEq, Eq, Structural)]
pub enum WatcherPhase {
    /// Not yet watching.
    Idle,
    /// Subscribed, awaiting events.
    Watching,
    /// Subscription cancelled or fatally errored.
    Stopped,
}

/// A directory watcher: holds the local player's identity and the
/// lifecycle phase of the watch subscription.
#[derive(Debug)]
pub struct DirectoryWatcher {
    phase: WatcherPhase,
    local_code: ConnectCode,
}

impl DirectoryWatcher {
    /// The current lifecycle phase.
    pub closed spec fn spec_phase(&self) -> WatcherPhase {
        self.phase
    }

    /// The locally configured player identity.
    pub closed spec fn spec_local_code(&self) -> ConnectCode {
        self.local_code
    }

    /// A fresh watcher for the given local player, not yet watching.
    pub fn new(local_code: ConnectCode) -> (r: DirectoryWatcher)
        ensures
            r.spec_phase() == WatcherPhase::Idle,
            r.spec_local_code() == local_code,
    {
        DirectoryWatcher { phase: WatcherPhase::Idle, local_code }
    }

    /// The current lifecycle phase.
    pub fn phase(&self) -> (r: WatcherPhase)
        ensures
            r == self.spec_phase(),
    {
        self.phase
    }

    /// The local player's identity, for resolving opponents.
    pub fn local_code(&self) -> (r: &ConnectCode)
        ensures
            r == self.spec_local_code(),
    {
        &self.local_code
    }

    /// Records the outcome of subscribing to the directory: on success the
    /// watcher is watching; on failure it is stopped and the error
    /// propagates, since watching cannot proceed at all.
    pub fn start(&mut self, setup_ok: bool) -> (r: Result<(), WatchSetupError>)
        requires
            old(self).spec_phase() == WatcherPhase::Idle,
        ensures
            final(self).spec_local_code() == old(self).spec_local_code(),
            setup_ok ==> final(self).spec_phase() == WatcherPhase::Watching && r == Ok::<
                (),
                WatchSetupError,
            >(()),
            !setup_ok ==> final(self).spec_phase() == WatcherPhase::Stopped && r == Err::<
                (),
                WatchSetupError,
            >(WatchSetupError),
    {
        if setup_ok {
            self.phase = WatcherPhase::Watching;
            Ok(())
        } else {
            self.phase = WatcherPhase::Stopped;
            Err(WatchSetupError)
        }
    }

    /// Whether an event should be decoded: only a creation event for a
    /// regular file, and only while watching. Directories and other event
    /// kinds never reach the decoder.
    pub fn should_decode(&self, is_creation: bool, is_regular_file: bool) -> (r: bool)
        ensures
            r == (self.spec_phase() == WatcherPhase::Watching && is_creation && is_regular_file),
    {
        match self.phase {
            WatcherPhase::Watching => is_creation && is_regular_file,
            _ => false,
        }
    }

    /// Stops watching. Idempotent: stopping in any phase leaves the
    /// watcher stopped.
    pub fn stop(&mut self)
        ensures
            final(self).spec_phase() == WatcherPhase::Stopped,
            final(self).spec_local_code() == old(self).spec_local_code(),
    {
        self.phase = WatcherPhase::Stopped;
    }
}

} // verus!

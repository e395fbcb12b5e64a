//! The reload controller.
//!
//! The controller consumes reload signals, attempts to rebuild the TLS
//! context from the current contents of the certificate and key files,
//! applies exponential backoff on failure, and resubmits a signal to itself
//! after the backoff sleep so the loop is self-driving.  It is a state
//! machine with three phases — idle, reloading, backing off — driven by four
//! events: a signal was delivered, a reload attempt succeeded or failed, and
//! the backoff sleep elapsed.  The process entry point runs the loop: it
//! performs the blocking work (waiting on the queue, rebuilding the TLS
//! context, sleeping) and feeds each outcome back in here, where the next
//! phase and action are decided.
//!
//! Reload failures are never fatal: the most recent valid context keeps
//! serving while the controller retries forever.

use crate::backoff::{next_delay, BackoffState, BASE_DELAY_MILLIS};
use crate::watch::{is_content_modification, EventKind, SignalSlot};
use vstd::prelude::*;

verus! {

/// The phase of the reload controller's loop.
#[derive(Clone, Copy, Debug, PartialEq, Eq, Structural)]
pub enum Phase {
    /// Waiting for a reload signal.
    Idle,
    /// A reload attempt is in progress.
    Reloading,
    /// A reload attempt failed; sleeping before the retry.
    Backoff,
}

/// What the surrounding loop must do next.
#[derive(Clone, Copy, Debug, PartialEq, Eq, Structural)]
pub enum Action {
    /// Block until a signal is delivered.
    Wait,
    /// Rebuild the TLS context from the current file contents and report
    /// the outcome through `ReloadController::on_reload_result`.
    AttemptReload,
    /// Sleep for the given number of milliseconds, then report through
    /// `ReloadController::on_backoff_elapsed`.
    Sleep(u64),
}

/// The reload controller's state: its phase, the retry delay, and the
/// coalescing signal queue it shares with the certificate watcher.
pub struct ReloadController {
    phase: Phase,
    backoff: BackoffState,
    signal: SignalSlot,
}

impl ReloadController {
    pub closed spec fn phase(&self) -> Phase {
        self.phase
    }

    /// The delay, in milliseconds, that the next retry would sleep for.
    pub closed spec fn delay(&self) -> u64 {
        self.backoff.delay()
    }

    /// Whether a reload signal is pending in the queue.
    pub closed spec fn pending(&self) -> bool {
        self.signal.pending()
    }

    pub fn new() -> (c: Self)
        ensures
            c.phase() is Idle,
            c.delay() == BASE_DELAY_MILLIS,
            !c.pending(),
    {
        ReloadController {
            phase: Phase::Idle,
            backoff: BackoffState::new(),
            signal: SignalSlot::new(),
        }
    }

    /// The phase the controller is in.
    pub fn current_phase(&self) -> (p: Phase)
        ensures
            p == self.phase(),
    {
        self.phase
    }

    /// The delay, in milliseconds, that the next retry would sleep for.
    pub fn current_delay(&self) -> (d: u64)
        ensures
            d == self.delay(),
    {
        self.backoff.delay_millis()
    }

    /// Whether a reload signal is pending in the queue.
    pub fn has_pending_signal(&self) -> (b: bool)
        ensures
            b == self.pending(),
    {
        self.signal.is_pending()
    }

    /// The certificate watcher saw a filesystem event on one of the watched
    /// paths.  Content modifications enqueue a reload signal; everything
    /// else is ignored.  An already pending signal coalesces with the new
    /// one.  Returns whether a new signal was enqueued.
    pub fn on_fs_event(&mut self, kind: &EventKind) -> (enqueued: bool)
        ensures
            final(self).pending() == (old(self).pending() || is_content_modification(*kind)),
            final(self).phase() == old(self).phase(),
            final(self).delay() == old(self).delay(),
            enqueued == (is_content_modification(*kind) && !old(self).pending()),
    {
        if crate::watch::should_reload(kind) {
            self.signal.offer()
        } else {
            false
        }
    }

    /// Consume a pending signal, if the controller is idle and one is
    /// pending: the controller moves to the reloading phase and the loop
    /// must attempt a reload.  Otherwise nothing changes and the loop keeps
    /// waiting.
    pub fn poll_signal(&mut self) -> (a: Action)
        ensures
            final(self).delay() == old(self).delay(),
            old(self).phase() is Idle && old(self).pending() ==> ({
                &&& a is AttemptReload
                &&& final(self).phase() is Reloading
                &&& !final(self).pending()
            }),
            !(old(self).phase() is Idle && old(self).pending()) ==> ({
                &&& a is Wait
                &&& final(self).phase() == old(self).phase()
                &&& final(self).pending() == old(self).pending()
            }),
    {
        match self.phase {
            Phase::Idle => {
                if self.signal.take() {
                    self.phase = Phase::Reloading;
                    Action::AttemptReload
                } else {
                    Action::Wait
                }
            },
            _ => Action::Wait,
        }
    }

    /// A reload attempt finished.  On success the new context is already
    /// installed (the installation is a single atomic replacement performed
    /// by the TLS stack), the backoff delay resets, and the controller goes
    /// back to waiting.  On failure the delay doubles and the loop must
    /// sleep for the returned delay before resubmitting a signal.  Outside
    /// the reloading phase the call changes nothing.
    pub fn on_reload_result(&mut self, ok: bool) -> (a: Action)
        ensures
            final(self).pending() == old(self).pending(),
            old(self).phase() is Reloading && ok ==> ({
                &&& a is Wait
                &&& final(self).phase() is Idle
                &&& final(self).delay() == BASE_DELAY_MILLIS
            }),
            old(self).phase() is Reloading && !ok ==> ({
                &&& a matches Action::Sleep(d) && d == next_delay(old(self).delay())
                &&& final(self).phase() is Backoff
                &&& final(self).delay() == next_delay(old(self).delay())
            }),
            !(old(self).phase() is Reloading) ==> ({
                &&& a is Wait
                &&& final(self).phase() == old(self).phase()
                &&& final(self).delay() == old(self).delay()
            }),
    {
        match self.phase {
            Phase::Reloading => {
                if ok {
                    self.backoff.on_success();
                    self.phase = Phase::Idle;
                    Action::Wait
                } else {
                    let d = self.backoff.on_failure();
                    self.phase = Phase::Backoff;
                    Action::Sleep(d)
                }
            },
            _ => Action::Wait,
        }
    }

    /// The backoff sleep elapsed: the controller resubmits a reload signal
    /// to itself (coalescing with any signal the watcher enqueued during
    /// the sleep) and goes back to waiting for it.  Outside the backoff
    /// phase the call changes nothing.
    pub fn on_backoff_elapsed(&mut self)
        ensures
            final(self).delay() == old(self).delay(),
            old(self).phase() is Backoff ==> ({
                &&& final(self).phase() is Idle
                &&& final(self).pending()
            }),
            !(old(self).phase() is Backoff) ==> ({
                &&& final(self).phase() == old(self).phase()
                &&& final(self).pending() == old(self).pending()
            }),
    {
        match self.phase {
            Phase::Backoff => {
                self.signal.offer();
                self.phase = Phase::Idle;
            },
            _ => {},
        }
    }
}

} // verus!

//! The watch → coalesce → reload protocol, taken as a whole.
//!
//! This module describes the subsystem at one level up from the executable
//! pieces: the state is the pending-signal flag together with the installed
//! TLS context, described by the pair of file contents it was built from.
//! Filesystem events and reload attempts are transitions on that state.
//! The guarantees proved here:
//!
//! - any number of content modifications coalesce into one pending signal,
//!   and none of them touches the installed context;
//! - a reload that parses successfully installs the context built from
//!   exactly the contents read at that attempt — the latest contents on
//!   disk — however many events coalesced before it;
//! - replacement is atomic: no step yields a context mixing the contents
//!   of two different reads, and a failed attempt leaves the previous
//!   valid context serving with the retry signal still pending.

use crate::watch::{is_content_modification, EventKind};
use vstd::prelude::*;

verus! {

/// The contents of the certificate file and of the private key file, as
/// read together during one reload attempt.
pub struct FileContents {
    /// Bytes of the certificate file.
    pub cert: Seq<u8>,
    /// Bytes of the private key file.
    pub key: Seq<u8>,
}

/// An installed TLS context, described by the file contents it was built
/// from.  The serving core hands every new connection the context installed
/// at the moment the connection is accepted.
pub struct ContextModel {
    /// The pair of file contents the context was built from.
    pub material: FileContents,
}

/// The state of the reload subsystem: whether a reload signal is pending,
/// and which context is installed.
pub struct ProtocolState {
    /// Whether a reload signal is pending in the capacity-one queue.
    pub pending: bool,
    /// The context currently serving new connections.
    pub installed: ContextModel,
}

/// A filesystem event arrives from the watcher: a content modification
/// enqueues a signal (coalescing with a pending one); every other kind is
/// ignored.  The installed context is untouched.
pub open spec fn on_event(s: ProtocolState, kind: EventKind) -> ProtocolState {
    ProtocolState {
        pending: s.pending || is_content_modification(kind),
        installed: s.installed,
    }
}

/// The controller runs one reload attempt, consuming the pending signal if
/// there is one.  `read` is the pair of file contents read from disk during
/// the attempt, and `parse_ok` whether a TLS context could be built from
/// them.  Success installs the new context whole; failure leaves the
/// previous context serving and the signal pending, so the retry is never
/// lost.  Without a pending signal nothing happens.
pub open spec fn on_reload(s: ProtocolState, read: FileContents, parse_ok: bool) -> ProtocolState {
    if s.pending {
        if parse_ok {
            ProtocolState { pending: false, installed: ContextModel { material: read } }
        } else {
            ProtocolState { pending: true, installed: s.installed }
        }
    } else {
        s
    }
}

/// The state after a sequence of filesystem events.
pub open spec fn after_events(s: ProtocolState, kinds: Seq<EventKind>) -> ProtocolState
    decreases kinds.len(),
{
    if kinds.len() == 0 {
        s
    } else {
        after_events(on_event(s, kinds[0]), kinds.skip(1))
    }
}

/// Coalescing: a sequence of filesystem events never touches the installed
/// context, and leaves a signal pending exactly when one was already
/// pending or some event in the sequence modified content.  In particular,
/// one qualifying event and a thousand leave the same state.
pub proof fn lemma_events_coalesce(s: ProtocolState, kinds: Seq<EventKind>)
    ensures
        after_events(s, kinds).installed == s.installed,
        after_events(s, kinds).pending == (s.pending || exists|i: int|
            0 <= i < kinds.len() && is_content_modification(kinds[i])),
    decreases kinds.len(),
{
    if kinds.len() == 0 {
        assert(!(exists|i: int| 0 <= i < kinds.len() && is_content_modification(kinds[i])));
    } else {
        let s1 = on_event(s, kinds[0]);
        let tail = kinds.skip(1);
        lemma_events_coalesce(s1, tail);
        if is_content_modification(kinds[0]) {
            assert(exists|i: int| 0 <= i < kinds.len() && is_content_modification(kinds[i])) by {
                assert(is_content_modification(kinds[0]));
            }
        }
        if exists|i: int| 0 <= i < tail.len() && is_content_modification(tail[i]) {
            let i = choose|i: int| 0 <= i < tail.len() && is_content_modification(tail[i]);
            assert(tail[i] == kinds[i + 1]);
            assert(is_content_modification(kinds[i + 1]));
        }
        if !s1.pending && exists|i: int| 0 <= i < kinds.len() && is_content_modification(kinds[i]) {
            let i = choose|i: int| 0 <= i < kinds.len() && is_content_modification(kinds[i]);
            assert(i != 0);
            assert(tail[i - 1] == kinds[i]);
            assert(is_content_modification(tail[i - 1]));
        }
    }
}

/// After any sequence of events holding at least one content modification
/// (or with a signal already pending), a reload attempt that parses
/// successfully installs the context built from exactly the contents read
/// at that attempt, and consumes the signal — regardless of how many
/// events coalesced before it.
pub proof fn lemma_reload_installs_latest(
    s: ProtocolState,
    kinds: Seq<EventKind>,
    read: FileContents,
)
    requires
        s.pending || exists|i: int| 0 <= i < kinds.len() && is_content_modification(kinds[i]),
    ensures
        on_reload(after_events(s, kinds), read, true).installed == (ContextModel {
            material: read,
        }),
        !on_reload(after_events(s, kinds), read, true).pending,
{
    lemma_events_coalesce(s, kinds);
}

/// Atomic replacement: one reload step either leaves the installed context
/// untouched or replaces it with a context built wholly from the pair of
/// contents read in that attempt.  No reachable state holds a context
/// mixing bytes of two different reads, so a connection accepted at any
/// moment observes one fully-formed context.
pub proof fn lemma_no_torn_replacement(s: ProtocolState, read: FileContents, parse_ok: bool)
    ensures
        on_reload(s, read, parse_ok).installed == s.installed || on_reload(
            s,
            read,
            parse_ok,
        ).installed == (ContextModel { material: read }),
{
}

/// A failed reload attempt is contained: the previous valid context keeps
/// serving, and the signal stays pending, so the controller never stops
/// retrying.
pub proof fn lemma_failed_reload_contained(s: ProtocolState, read: FileContents)
    requires
        s.pending,
    ensures
        on_reload(s, read, false).installed == s.installed,
        on_reload(s, read, false).pending,
{
}

/// One step of the subsystem: a filesystem event arrives, or a reload
/// attempt runs with the contents it read and the outcome of parsing them.
pub enum ProtocolStep {
    /// A filesystem event of the given kind.
    FsEvent(EventKind),
    /// A reload attempt that read the given contents, with whether a
    /// context could be built from them.
    Reload(FileContents, bool),
}

/// The state after one step.
pub open spec fn apply_step(s: ProtocolState, step: ProtocolStep) -> ProtocolState {
    match step {
        ProtocolStep::FsEvent(kind) => on_event(s, kind),
        ProtocolStep::Reload(read, parse_ok) => on_reload(s, read, parse_ok),
    }
}

/// The state after a sequence of steps.
pub open spec fn apply_steps(s: ProtocolState, steps: Seq<ProtocolStep>) -> ProtocolState
    decreases steps.len(),
{
    if steps.len() == 0 {
        s
    } else {
        apply_steps(apply_step(s, steps[0]), steps.skip(1))
    }
}

/// At no point does the subsystem hold a context mixing the bytes of two
/// different reads: after any run, the installed context is either still
/// the starting one or was built whole from the pair of contents read by
/// one reload step of the run.
pub proof fn lemma_context_never_mixed(s: ProtocolState, steps: Seq<ProtocolStep>)
    ensures
        apply_steps(s, steps).installed == s.installed || exists|i: int|
            0 <= i < steps.len() && ((#[trigger] steps[i]) matches ProtocolStep::Reload(read, _)
                && apply_steps(s, steps).installed == ContextModel { material: read }),
    decreases steps.len(),
{
    if steps.len() == 0 {
    } else {
        let s1 = apply_step(s, steps[0]);
        let tail = steps.skip(1);
        lemma_context_never_mixed(s1, tail);
        assert(apply_steps(s, steps) == apply_steps(s1, tail));
        if apply_steps(s1, tail).installed == s1.installed {
            if s1.installed == s.installed {
            } else {
                match steps[0] {
                    ProtocolStep::Reload(read, parse_ok) => {
                        assert(s1.installed == ContextModel { material: read });
                        assert(steps[0] matches ProtocolStep::Reload(r, _)
                            && apply_steps(s, steps).installed == ContextModel { material: r });
                    },
                    ProtocolStep::FsEvent(_) => {
                        assert(false);
                    },
                }
            }
        } else {
            let i = choose|i: int|
                0 <= i < tail.len() && ((#[trigger] tail[i]) matches ProtocolStep::Reload(read, _)
                    && apply_steps(s1, tail).installed == ContextModel { material: read });
            assert(tail[i] == steps[i + 1]);
            assert(steps[i + 1] matches ProtocolStep::Reload(read, _)
                && apply_steps(s, steps).installed == ContextModel { material: read });
        }
    }
}

} // verus!

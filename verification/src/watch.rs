//! Filtering filesystem change notifications.
//!
//! The certificate watcher registers non-recursive watches on the
//! certificate file and the key file and receives low-level filesystem
//! events.  Only events that report a change of file *content* ask for a
//! reload; creations, deletions, metadata-only changes and accesses are
//! ignored (a deletion leaves the previous context serving until a later
//! valid write).  The event kinds mirror the distinctions that the watch
//! backend reports; the process entry point converts the backend's events
//! into these before handing them to the library.

use vstd::prelude::*;

verus! {

/// How the data of a file changed.
#[derive(Clone, Copy, Debug, PartialEq, Eq, Structural)]
pub enum DataChange {
    /// The kind of data change is unknown.
    Any,
    /// The size of the data changed.
    Size,
    /// The content of the data changed.
    Content,
    /// A data change of some other known kind.
    Other,
}

/// What a modification event changed.
#[derive(Clone, Copy, Debug, PartialEq, Eq, Structural)]
pub enum ModifyKind {
    /// The kind of modification is unknown.
    Any,
    /// The data of a file changed.
    Data(DataChange),
    /// Only metadata changed.
    Metadata,
    /// The name of a file or folder changed.
    Name,
    /// A modification of some other known kind.
    Other,
}

/// The kind of a filesystem event on a watched path.
#[derive(Clone, Copy, Debug, PartialEq, Eq, Structural)]
pub enum EventKind {
    /// An unsupported or unknown event.
    Any,
    /// A non-mutating access.
    Access,
    /// A file or folder was created.
    Create,
    /// A file or folder was modified.
    Modify(ModifyKind),
    /// A file or folder was removed.
    Remove,
    /// An event of some other known kind.
    Other,
}

/// The one kind of event that asks for a reload: the content of a watched
/// file changed.
pub open spec fn is_content_modification(kind: EventKind) -> bool {
    kind matches EventKind::Modify(ModifyKind::Data(DataChange::Content))
}

/// Whether a filesystem event should enqueue a reload signal.
pub fn should_reload(kind: &EventKind) -> (b: bool)
    ensures
        b == is_content_modification(*kind),
{
    match kind {
        EventKind::Modify(ModifyKind::Data(DataChange::Content)) => true,
        _ => false,
    }
}

/// The reload signal queue: a bounded queue of capacity one, carrying a
/// unit-valued signal.  Offering a signal while one is already pending
/// drops the new one (coalescing): any number of filesystem events collapse
/// into "a reload is pending", and the reload re-reads the files from disk,
/// so nothing is lost by the drop.
pub struct SignalSlot {
    pending: bool,
}

impl SignalSlot {
    /// Whether a reload signal is pending.
    pub closed spec fn pending(&self) -> bool {
        self.pending
    }

    pub fn new() -> (s: Self)
        ensures
            !s.pending(),
    {
        SignalSlot { pending: false }
    }

    /// Whether a reload signal is pending.
    pub fn is_pending(&self) -> (b: bool)
        ensures
            b == self.pending(),
    {
        self.pending
    }

    /// Enqueue a reload signal.  Returns whether the slot was empty; when it
    /// was not, the signal is dropped and the slot is left as it was.
    pub fn offer(&mut self) -> (accepted: bool)
        ensures
            final(self).pending(),
            accepted == !old(self).pending(),
    {
        let accepted = !self.pending;
        self.pending = true;
        accepted
    }

    /// Consume the pending signal, if any.  Returns whether one was pending.
    pub fn take(&mut self) -> (had: bool)
        ensures
            !final(self).pending(),
            had == old(self).pending(),
    {
        let had = self.pending;
        self.pending = false;
        had
    }
}

} // verus!

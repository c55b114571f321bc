use vstd::prelude::*;

verus! {

/// The shape of a filesystem notification, reduced to what the watcher
/// distinguishes: a completed write, or anything else.
pub enum WatchEventKind {
    /// A file was closed after being opened for writing.
    AccessCloseWrite,
    /// Any other notification: creation, renaming, metadata-only
    /// changes, reads.
    OtherEvent,
}

/// The watcher's one decision: only a completed write triggers a
/// regeneration pass; every other notification is ignored.
pub fn should_regenerate(kind: &WatchEventKind) -> (r: bool)
    ensures
        r == (kind is AccessCloseWrite),
{
    match kind {
        WatchEventKind::AccessCloseWrite => true,
        WatchEventKind::OtherEvent => false,
    }
}

} // verus!

use vstd::prelude::*;

verus! {

/// The names of the notifications that aggregator operations enqueue.
#[derive(Clone, Copy, Debug, PartialEq, Eq, Structural)]
pub enum EventName {
    /// A buffer was appended to the owned collection.
    AddSourceBuffer,
    /// A buffer left the owned collection (or the active set).
    RemoveSourceBuffer,
    /// An in-flight append on a buffer was aborted.
    Abort,
    /// An append on a buffer finished (here: by being aborted).
    UpdateEnd,
    /// The aggregator reached the ended state.
    SourceEnded,
}

/// What a queued notification is aimed at.
#[derive(Clone, Copy, Debug, PartialEq, Eq, Structural)]
pub enum NotificationTarget {
    /// The aggregator itself.
    MediaSource,
    /// The buffer with the given handle.
    Buffer(u64),
    /// The all-buffers list.
    AllBuffers,
    /// The active-buffers list.
    ActiveBuffers,
}

/// One ordered unit of deferred work: fire the named event at the target.
///
/// Mutators never deliver events synchronously; they append records like
/// this one to the aggregator's outgoing queue, and a separate drain loop
/// delivers them in submission order.
#[derive(Clone, Copy, Debug, PartialEq, Eq, Structural)]
pub struct Notification {
    /// What the event is aimed at.
    pub target: NotificationTarget,
    /// The event's name.
    pub name: EventName,
}

} // verus!

use vstd::prelude::*;

verus! {

/// One append-target media buffer, as its owning aggregator sees it.
///
/// A buffer is owned by exactly one aggregator and is identified by the
/// stable handle `id`, which the aggregator hands out on creation and never
/// reuses. The flags are maintained by collaborators outside this library
/// and only read by the aggregator's guards and views.
#[derive(Clone, Copy, Debug, PartialEq, Eq, Structural)]
pub struct SourceBuffer {
    /// The handle by which the owning aggregator knows this buffer.
    pub id: u64,
    /// True while an asynchronous append is in flight on this buffer.
    pub updating: bool,
    /// True once the buffer has contributed decodable samples at the
    /// current playback position.
    pub active: bool,
}

} // verus!

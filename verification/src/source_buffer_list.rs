use vstd::prelude::*;

use crate::media_source::MediaSource;
use crate::source_buffer::SourceBuffer;

verus! {

/// Which projection of the owned buffer collection a list presents.
#[derive(Clone, Copy, Debug, PartialEq, Eq, Structural)]
pub enum ListMode {
    /// Every owned buffer, in insertion order.
    All,
    /// Only the buffers with `active` set, in insertion order.
    Active,
}

/// The active buffers of a collection, in collection order.
pub open spec fn active_view(s: Seq<SourceBuffer>) -> Seq<SourceBuffer>
    decreases s.len(),
{
    if s.len() == 0 {
        Seq::empty()
    } else {
        let rest = active_view(s.drop_last());
        if s.last().active {
            rest.push(s.last())
        } else {
            rest
        }
    }
}

/// What a list in the given mode presents over a buffer collection.
pub open spec fn list_view(mode: ListMode, s: Seq<SourceBuffer>) -> Seq<SourceBuffer> {
    match mode {
        ListMode::All => s,
        ListMode::Active => active_view(s),
    }
}

/// A filtered view never presents more buffers than the collection owns.
pub proof fn lemma_active_view_len(s: Seq<SourceBuffer>)
    ensures
        active_view(s).len() <= s.len(),
    decreases s.len(),
{
    if s.len() > 0 {
        lemma_active_view_len(s.drop_last());
    }
}

/// A read-only aggregate view over an aggregator's buffer collection.
///
/// The list stores only its mode; its contents are recomputed from the
/// live collection on every access by a full scan, an accepted trade-off
/// favoring always-fresh results over incremental maintenance.
pub struct SourceBufferList {
    /// The projection this list presents.
    pub list_mode: ListMode,
}

/// The active buffers of a collection, collected by a full scan.
fn collect_active(buffers: &Vec<SourceBuffer>) -> (r: Vec<SourceBuffer>)
    ensures
        r@ == active_view(buffers@),
{
    let mut out: Vec<SourceBuffer> = Vec::new();
    let mut i: usize = 0;
    while i < buffers.len()
        invariant
            i <= buffers.len(),
            out@ == active_view(buffers@.take(i as int)),
        decreases buffers.len() - i,
    {
        proof {
            assert(buffers@.take(i + 1).drop_last() =~= buffers@.take(i as int));
        }
        if buffers[i].active {
            out.push(buffers[i]);
        }
        i += 1;
    }
    proof {
        assert(buffers@.take(buffers@.len() as int) =~= buffers@);
    }
    out
}

impl SourceBufferList {
    /// A list view in the given mode.
    pub fn new(list_mode: ListMode) -> (r: Self)
        ensures
            r.list_mode == list_mode,
    {
        SourceBufferList { list_mode }
    }

    /// How many buffers the list presents, recomputed by full scan.
    pub fn Length(&self, media_source: &MediaSource) -> (r: u32)
        requires
            media_source@.buffers.len() <= u32::MAX,
        ensures
            r == list_view(self.list_mode, media_source@.buffers).len(),
    {
        let buffers = media_source.source_buffers();
        match self.list_mode {
            ListMode::All => buffers.len() as u32,
            ListMode::Active => {
                let active = collect_active(buffers);
                proof {
                    lemma_active_view_len(buffers@);
                }
                active.len() as u32
            },
        }
    }

    /// A copy of the buffer the list presents at `index`, in collection
    /// order, or nothing when the index is out of range; computed by
    /// filtering on every call.
    pub fn IndexedGetter(&self, media_source: &MediaSource, index: u32) -> (r: Option<
        SourceBuffer,
    >)
        ensures
            index < list_view(self.list_mode, media_source@.buffers).len() ==> r == Some(
                list_view(self.list_mode, media_source@.buffers)[index as int],
            ),
            index >= list_view(self.list_mode, media_source@.buffers).len() ==> r is None,
    {
        let buffers = media_source.source_buffers();
        if (index as usize) >= buffers.len() {
            proof {
                lemma_active_view_len(buffers@);
            }
            return None;
        }
        match self.list_mode {
            ListMode::All => Some(buffers[index as usize]),
            ListMode::Active => {
                let active = collect_active(buffers);
                if (index as usize) < active.len() {
                    Some(active[index as usize])
                } else {
                    None
                }
            },
        }
    }
}

} // verus!

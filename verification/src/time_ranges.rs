use vstd::prelude::*;

use crate::errors::Error;

verus! {

/// A half-open interval `[start, end)` of media time, in ticks.
#[derive(Clone, Copy, Debug, PartialEq, Eq, Structural)]
pub struct TimeRange {
    /// The inclusive lower bound.
    pub start: i64,
    /// The exclusive upper bound.
    pub end: i64,
}

/// Whether a sequence of intervals forms a well-formed time-range set:
/// every interval has `start <= end`, and the intervals stand in strictly
/// increasing, non-touching order.
pub open spec fn ranges_wf(s: Seq<TimeRange>) -> bool {
    &&& forall|i: int| 0 <= i < s.len() ==> (#[trigger] s[i]).start <= s[i].end
    &&& forall|i: int| 0 <= i && i + 1 < s.len() ==> (#[trigger] s[i]).end < s[i + 1].start
}

/// An immutable snapshot of disjoint `[start, end)` intervals, used for the
/// live-seekable range and for buffered-range queries.
pub struct TimeRanges {
    ranges: Vec<TimeRange>,
}

impl View for TimeRanges {
    type V = Seq<TimeRange>;

    closed spec fn view(&self) -> Seq<TimeRange> {
        self.ranges@
    }
}

impl TimeRanges {
    /// Takes a snapshot of an already well-formed interval sequence.
    pub fn new(ranges: Vec<TimeRange>) -> (r: Self)
        requires
            ranges_wf(ranges@),
        ensures
            r@ == ranges@,
    {
        TimeRanges { ranges }
    }

    /// The intervals of the snapshot, in order.
    pub fn ranges(&self) -> (r: &Vec<TimeRange>)
        ensures
            r@ == self@,
    {
        &self.ranges
    }

    /// How many intervals the snapshot holds.
    pub fn Length(&self) -> (r: u32)
        requires
            self@.len() <= u32::MAX,
        ensures
            r == self@.len(),
    {
        self.ranges.len() as u32
    }

    /// The lower bound of the interval at `index`, or `IndexSize` when the
    /// index is out of bounds.
    pub fn Start(&self, index: u32) -> (r: Result<i64, Error>)
        ensures
            index < self@.len() ==> r == Ok::<i64, Error>(self@[index as int].start),
            index >= self@.len() ==> r == Err::<i64, Error>(Error::IndexSize),
    {
        if (index as usize) < self.ranges.len() {
            Ok(self.ranges[index as usize].start)
        } else {
            Err(Error::IndexSize)
        }
    }

    /// The upper bound of the interval at `index`, or `IndexSize` when the
    /// index is out of bounds.
    pub fn End(&self, index: u32) -> (r: Result<i64, Error>)
        ensures
            index < self@.len() ==> r == Ok::<i64, Error>(self@[index as int].end),
            index >= self@.len() ==> r == Err::<i64, Error>(Error::IndexSize),
    {
        if (index as usize) < self.ranges.len() {
            Ok(self.ranges[index as usize].end)
        } else {
            Err(Error::IndexSize)
        }
    }
}

} // verus!

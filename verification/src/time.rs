use vstd::prelude::*;

verus! {

/// A media duration value, modeled as a fixed-point count of ticks together
/// with the special values a media clock needs: the aggregator's duration is
/// meaningless while the source is closed (`Nan`), and an unbounded stream
/// has an infinite duration.
#[derive(Clone, Copy, Debug, PartialEq, Eq, Structural)]
pub enum MediaTime {
    /// Not a number: a meaningless duration.
    Nan,
    /// Below every finite time.
    NegInfinity,
    /// Above every finite time: an unbounded duration.
    Infinity,
    /// A finite time, in ticks.
    Finite(i64),
}

impl MediaTime {
    /// Whether this value lies below zero.
    pub open spec fn spec_is_negative(self) -> bool {
        match self {
            MediaTime::NegInfinity => true,
            MediaTime::Finite(t) => t < 0,
            _ => false,
        }
    }

    /// Whether this value is the not-a-number marker.
    pub open spec fn spec_is_nan(self) -> bool {
        self is Nan
    }

    /// Whether this value lies below zero.
    pub fn is_negative(&self) -> (r: bool)
        ensures
            r == self.spec_is_negative(),
    {
        match self {
            MediaTime::NegInfinity => true,
            MediaTime::Finite(t) => *t < 0,
            _ => false,
        }
    }

    /// Whether this value is the not-a-number marker.
    pub fn is_nan(&self) -> (r: bool)
        ensures
            r == self.spec_is_nan(),
    {
        match self {
            MediaTime::Nan => true,
            _ => false,
        }
    }
}

} // verus!

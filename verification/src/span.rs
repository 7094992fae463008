use vstd::prelude::*;


verus! {

/// A half-open range of source positions.
#[derive(Clone, Copy, Debug, PartialEq, Eq, Structural)]
pub struct Span {
    pub lo: u32,
    pub hi: u32,
}

impl Span {
    /// The smallest span that covers both `self` and `end`.
    pub open spec fn cover(self, end: Span) -> Span {
        Span {
            lo: if self.lo <= end.lo { self.lo } else { end.lo },
            hi: if self.hi >= end.hi { self.hi } else { end.hi },
        }
    }

    /// The smallest span that covers both `self` and `end`.
    pub fn to(self, end: Span) -> (r: Span)
        ensures
            r == self.cover(end),
    {
        Span {
            lo: if self.lo <= end.lo { self.lo } else { end.lo },
            hi: if self.hi >= end.hi { self.hi } else { end.hi },
        }
    }
}

} // verus!

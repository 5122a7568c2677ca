use vstd::prelude::*;

use core::ops::{Range, RangeFrom, RangeFull, RangeTo};

verus! {

/// A range of positions in a buffer: `start..`, `start..end` or `..end`.
pub enum RangeArgument {
    RangeFrom(usize),
    Range(usize, usize),
    RangeTo(usize),
}

impl RangeArgument {
    /// Whether the range can be read or overwritten in a buffer of `len`
    /// useful bytes. A `start..0` range selects nothing, whatever `start`.
    pub open spec fn selects_within(self, len: nat) -> bool {
        match self {
            RangeArgument::RangeFrom(start) => start <= len,
            RangeArgument::Range(start, end) => end == 0 || (start <= end && end <= len),
            RangeArgument::RangeTo(end) => end <= len,
        }
    }

    /// First position selected in a buffer of `len` useful bytes.
    pub open spec fn lower(self, len: nat) -> int {
        match self {
            RangeArgument::RangeFrom(start) => start as int,
            RangeArgument::Range(start, end) => if end == 0 {
                0
            } else {
                start as int
            },
            RangeArgument::RangeTo(_) => 0,
        }
    }

    /// Position past the last one selected in a buffer of `len` useful bytes.
    pub open spec fn upper(self, len: nat) -> int {
        match self {
            RangeArgument::RangeFrom(_) => len as int,
            RangeArgument::Range(_, end) => end as int,
            RangeArgument::RangeTo(end) => end as int,
        }
    }

    /// Whether the range is valid for a buffer of `len` useful bytes: it
    /// starts no later than it ends, and ends no later than the buffer.
    pub open spec fn removable_within(self, len: nat) -> bool {
        match self {
            RangeArgument::RangeFrom(start) => start <= len,
            RangeArgument::Range(start, end) => start <= end && end <= len,
            RangeArgument::RangeTo(end) => end <= len,
        }
    }

    /// The selected positions in a buffer of `len` useful bytes.
    pub fn bounds(&self, len: usize) -> (r: (usize, usize))
        requires
            self.selects_within(len as nat),
        ensures
            r.0 == self.lower(len as nat),
            r.1 == self.upper(len as nat),
            r.0 <= r.1 <= len,
    {
        match *self {
            RangeArgument::RangeFrom(start) => (start, len),
            RangeArgument::Range(start, end) => if end == 0 {
                (0, 0)
            } else {
                (start, end)
            },
            RangeArgument::RangeTo(end) => (0, end),
        }
    }
}

impl From<Range<usize>> for RangeArgument {
    fn from(r: Range<usize>) -> (a: RangeArgument) {
        RangeArgument::Range(r.start, r.end)
    }
}

impl vstd::std_specs::convert::FromSpecImpl<Range<usize>> for RangeArgument {
    open spec fn obeys_from_spec() -> bool {
        true
    }

    open spec fn from_spec(r: Range<usize>) -> RangeArgument {
        RangeArgument::Range(r.start, r.end)
    }
}

impl From<RangeFull> for RangeArgument {
    fn from(r: RangeFull) -> (a: RangeArgument) {
        RangeArgument::RangeFrom(0)
    }
}

impl vstd::std_specs::convert::FromSpecImpl<RangeFull> for RangeArgument {
    open spec fn obeys_from_spec() -> bool {
        true
    }

    open spec fn from_spec(r: RangeFull) -> RangeArgument {
        RangeArgument::RangeFrom(0)
    }
}

/// `RangeFull` (`..`) carries no data.
#[verifier::external_type_specification]
#[verifier::external_body]
pub struct ExRangeFull(RangeFull);


impl From<RangeFrom<usize>> for RangeArgument {
    fn from(r: RangeFrom<usize>) -> (a: RangeArgument) {
        RangeArgument::RangeFrom(r.start)
    }
}

impl vstd::std_specs::convert::FromSpecImpl<RangeFrom<usize>> for RangeArgument {
    open spec fn obeys_from_spec() -> bool {
        true
    }

    open spec fn from_spec(r: RangeFrom<usize>) -> RangeArgument {
        RangeArgument::RangeFrom(r.start)
    }
}

impl From<RangeTo<usize>> for RangeArgument {
    fn from(r: RangeTo<usize>) -> (a: RangeArgument) {
        RangeArgument::RangeTo(r.end)
    }
}

impl vstd::std_specs::convert::FromSpecImpl<RangeTo<usize>> for RangeArgument {
    open spec fn obeys_from_spec() -> bool {
        true
    }

    open spec fn from_spec(r: RangeTo<usize>) -> RangeArgument {
        RangeArgument::RangeTo(r.end)
    }
}

/// `RangeFrom` (`start..`): Verus reads its public field `start`.
#[verifier::external_type_specification]
#[verifier::reject_recursive_types(Idx)]
pub struct ExRangeFrom<Idx>(RangeFrom<Idx>);

/// `RangeTo` (`..end`): Verus reads its public field `end`.
#[verifier::external_type_specification]
#[verifier::reject_recursive_types(Idx)]
pub struct ExRangeTo<Idx>(RangeTo<Idx>);

} // verus!

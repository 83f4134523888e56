//! Connection-scoped stream identifiers.

use vstd::prelude::*;

verus! {

/// The largest value a stream identifier can hold: identifiers travel as
/// variable-length integers of at most 62 bits.
pub const MAX_STREAM_ID: u64 = 0x3fff_ffff_ffff_ffff;

/// A numeric value that cannot be a stream identifier.
#[derive(Clone, Copy, Debug, PartialEq, Eq, Structural)]
pub struct InvalidStreamId {
    pub value: u64,
}

/// An opaque identifier distinguishing one stream of a connection from the
/// others.
#[derive(Clone, Copy, Debug, PartialEq, Eq, Structural)]
pub struct StreamId {
    value: u64,
}

impl StreamId {
    /// The numeric value of this identifier.
    pub closed spec fn spec_value(self) -> u64 {
        self.value
    }

    /// Every identifier fits in 62 bits.
    pub open spec fn wf(self) -> bool {
        self.spec_value() <= MAX_STREAM_ID
    }

    /// Build an identifier from an untrusted number.
    pub fn try_from_u64(value: u64) -> (r: Result<StreamId, InvalidStreamId>)
        ensures
            value <= MAX_STREAM_ID <==> r is Ok,
            r matches Ok(id) ==> id.spec_value() == value && id.wf(),
            r matches Err(e) ==> e.value == value,
    {
        if value <= MAX_STREAM_ID {
            Ok(StreamId { value })
        } else {
            Err(InvalidStreamId { value })
        }
    }

    /// The numeric value of this identifier.
    pub fn value(&self) -> (r: u64)
        ensures
            r == self.spec_value(),
    {
        self.value
    }
}

} // verus!

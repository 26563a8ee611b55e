use vstd::prelude::*;

use crate::error::MatError;
use crate::shape::MatShape;

verus! {

/// A non-owning window onto one channel plane of a container's buffer.
///
/// It holds only where the plane starts and how many lanes carry data, both
/// in 32-bit lanes from the start of the parent's buffer. It is born from
/// [`MatShape::channel`] and never releases anything.
#[derive(Clone, Copy, Debug)]
pub struct ChannelView {
    offset: usize,
    len: usize,
}

impl ChannelView {
    #[verifier::type_invariant]
    spec fn inv(self) -> bool {
        self.offset + self.len <= isize::MAX
    }

    /// Flat lane index of the parent at which the plane starts.
    pub closed spec fn start(self) -> int {
        self.offset as int
    }

    /// Lanes of the plane that carry data.
    pub closed spec fn lanes(self) -> int {
        self.len as int
    }

    pub(crate) fn new(offset: usize, len: usize) -> (r: Self)
        requires
            offset + len <= isize::MAX,
        ensures
            r.start() == offset,
            r.lanes() == len,
    {
        ChannelView { offset, len }
    }

    /// Flat lane index of the parent at which the plane starts.
    pub fn offset(&self) -> (r: usize)
        ensures
            r == self.start(),
    {
        self.offset
    }

    /// Lanes of the plane that carry data.
    pub fn len(&self) -> (r: usize)
        ensures
            r == self.lanes(),
    {
        self.len
    }

    /// Bounds-checked index through the view: lane `idx` of the plane is
    /// lane `offset + idx` of the parent.
    pub fn checked_index(&self, idx: isize) -> (r: Result<usize, MatError>)
        ensures
            0 <= idx < self.lanes() ==> r == Ok::<usize, MatError>((self.start() + idx) as usize),
            !(0 <= idx < self.lanes()) ==> r == Err::<usize, MatError>(
                MatError::IndexOutOfRange { index: idx, len: self.lanes() as u64 },
            ),
    {
        proof {
            use_type_invariant(self);
        }
        if idx < 0 || idx as usize >= self.len {
            Err(MatError::IndexOutOfRange { index: idx, len: self.len as u64 })
        } else {
            Ok(self.offset + idx as usize)
        }
    }
}

/// Every lane reached through the view of channel `k` is a lane of the
/// parent's buffer: lane `i` of the plane is flat lane
/// `k * cstep * elempack + i`, below the parent's lane count.
pub proof fn lemma_channel_lane_in_buffer(s: MatShape, k: int, i: int)
    requires
        s.accessible(),
        0 <= k < s.c,
        0 <= i < s.channel_lanes(),
    ensures
        0 <= s.channel_start(k) + i < s.total_lanes(),
{
    let st = s.lane_stride();
    assert(0 <= s.plane_elems() * s.elempack <= st) by (nonlinear_arith)
        requires
            0 <= s.plane_elems() <= s.cstep,
            s.elempack >= 1,
            st == s.cstep * s.elempack,
    ;
    assert(0 <= k * st && k * st + st <= s.c * st) by (nonlinear_arith)
        requires
            0 <= k < s.c,
            st >= 0,
    ;
}

/// The views of two different channels share no lane: writing through one
/// never shows through the other.
pub proof fn lemma_channels_disjoint(s: MatShape, k1: int, i1: int, k2: int, i2: int)
    requires
        s.accessible(),
        0 <= k1 < s.c,
        0 <= k2 < s.c,
        k1 != k2,
        0 <= i1 < s.channel_lanes(),
        0 <= i2 < s.channel_lanes(),
    ensures
        s.channel_start(k1) + i1 != s.channel_start(k2) + i2,
{
    let st = s.lane_stride();
    assert(0 <= s.plane_elems() * s.elempack <= st) by (nonlinear_arith)
        requires
            0 <= s.plane_elems() <= s.cstep,
            s.elempack >= 1,
            st == s.cstep * s.elempack,
    ;
    assert(k1 * st + i1 != k2 * st + i2) by (nonlinear_arith)
        requires
            k1 != k2,
            0 <= i1 < st,
            0 <= i2 < st,
    ;
}

} // verus!

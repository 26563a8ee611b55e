use vstd::prelude::*;

use crate::error::MatError;
use crate::view::ChannelView;

verus! {

/// The descriptor of a container, read from the runtime as plain values.
///
/// `cstep` counts stored elements between the starts of consecutive channel
/// planes; each stored element packs `elempack` scalar lanes into `elemsize`
/// bytes. `has_data` is false for an empty container and for one whose
/// allocation failed.
#[derive(Clone, Copy, Debug, PartialEq, Eq, Structural)]
pub struct MatShape {
    pub dims: i32,
    pub w: i32,
    pub h: i32,
    pub d: i32,
    pub c: i32,
    pub elemsize: u64,
    pub elempack: i32,
    pub cstep: u64,
    pub has_data: bool,
}

impl MatShape {
    /// Whether each stored element is a pack of 32-bit float lanes.
    pub open spec fn lanes_are_f32(self) -> bool {
        self.elempack >= 1 && self.elemsize == 4 * self.elempack
    }

    /// Stored elements that carry data in one channel plane.
    pub open spec fn plane_elems(self) -> int {
        self.w * self.h * self.d
    }

    /// Lanes between the starts of consecutive channel planes.
    pub open spec fn lane_stride(self) -> int {
        self.cstep * self.elempack
    }

    /// Lanes of the whole buffer, channel padding included.
    pub open spec fn total_lanes(self) -> int {
        self.c * self.lane_stride()
    }

    /// Lanes that carry data in one channel plane.
    pub open spec fn channel_lanes(self) -> int {
        self.plane_elems() * self.elempack
    }

    /// Flat lane index at which channel `k` starts.
    pub open spec fn channel_start(self, k: int) -> int {
        k * self.lane_stride()
    }

    /// Extents that are non-negative, planes that fit their channel stride,
    /// and a buffer whose lanes can all be addressed by an `isize`.
    pub open spec fn layout_consistent(self) -> bool {
        &&& 1 <= self.dims <= 4
        &&& self.w >= 0 && self.h >= 0 && self.d >= 0 && self.c >= 0
        &&& self.plane_elems() <= self.cstep
        &&& self.total_lanes() <= isize::MAX
    }

    /// The first reason why lanes of this container cannot be addressed.
    pub open spec fn access_error(self) -> Option<MatError> {
        if !self.has_data {
            Some(MatError::InvalidContainer)
        } else if !self.lanes_are_f32() {
            Some(MatError::UnsupportedElement { elemsize: self.elemsize, elempack: self.elempack })
        } else if !self.layout_consistent() {
            Some(MatError::InconsistentLayout)
        } else {
            None
        }
    }

    /// Whether flat and per-channel lane access is admissible.
    pub open spec fn accessible(self) -> bool {
        self.access_error() is None
    }

    /// The descriptor of an empty container: no axes and no buffer.
    pub fn empty() -> (r: Self)
        ensures
            r.dims == 0 && r.w == 0 && r.h == 0 && r.d == 0 && r.c == 0,
            r.elemsize == 0 && r.elempack == 0 && r.cstep == 0,
            !r.has_data,
            r.access_error() == Some(MatError::InvalidContainer),
    {
        MatShape { dims: 0, w: 0, h: 0, d: 0, c: 0, elemsize: 0, elempack: 0, cstep: 0, has_data: false }
    }

    /// Fails with `InvalidContainer` unless the container holds a buffer.
    pub fn ensure_data(&self) -> (r: Result<(), MatError>)
        ensures
            self.has_data ==> r == Ok::<(), MatError>(()),
            !self.has_data ==> r == Err::<(), MatError>(MatError::InvalidContainer),
    {
        if self.has_data {
            Ok(())
        } else {
            Err(MatError::InvalidContainer)
        }
    }

    /// Checks the arguments of a per-channel normalization: the container
    /// must hold a buffer, and there must be exactly one mean and one scale
    /// per channel.
    pub fn check_normalize(&self, mean_len: usize, norm_len: usize) -> (r: Result<(), MatError>)
        ensures
            !self.has_data ==> r == Err::<(), MatError>(MatError::InvalidContainer),
            self.has_data && (mean_len != self.c || norm_len != self.c) ==> r == Err::<(), MatError>(
                MatError::ChannelCountMismatch { channels: self.c, mean_len, norm_len },
            ),
            self.has_data && mean_len == self.c && norm_len == self.c ==> r == Ok::<(), MatError>(()),
    {
        if !self.has_data {
            return Err(MatError::InvalidContainer);
        }
        if self.c < 0 || mean_len != self.c as usize || norm_len != self.c as usize {
            return Err(MatError::ChannelCountMismatch { channels: self.c, mean_len, norm_len });
        }
        Ok(())
    }

    /// Checks that the buffer can be addressed lane by lane and returns its
    /// number of lanes.
    pub fn validate(&self) -> (r: Result<u64, MatError>)
        ensures
            match self.access_error() {
                Some(e) => r == Err::<u64, MatError>(e),
                None => r == Ok::<u64, MatError>(self.total_lanes() as u64),
            },
    {
        if !self.has_data {
            return Err(MatError::InvalidContainer);
        }
        if self.elempack < 1 || self.elemsize != 4 * (self.elempack as u64) {
            return Err(MatError::UnsupportedElement { elemsize: self.elemsize, elempack: self.elempack });
        }
        if self.dims < 1 || self.dims > 4 || self.w < 0 || self.h < 0 || self.d < 0 || self.c < 0 {
            return Err(MatError::InconsistentLayout);
        }
        assert(self.w * self.h <= 0x7fff_ffff * 0x7fff_ffff) by (nonlinear_arith)
            requires
                0 <= self.w <= 0x7fff_ffff,
                0 <= self.h <= 0x7fff_ffff,
        ;
        let wh = (self.w as u64) * (self.h as u64);
        let plane = match wh.checked_mul(self.d as u64) {
            Some(p) => p,
            None => return Err(MatError::InconsistentLayout),
        };
        if plane > self.cstep {
            return Err(MatError::InconsistentLayout);
        }
        if self.c == 0 {
            assert(self.c * (self.cstep * self.elempack) == 0) by (nonlinear_arith)
                requires
                    self.c == 0,
            ;
            return Ok(0);
        }
        let stride = match self.cstep.checked_mul(self.elempack as u64) {
            Some(s) => s,
            None => {
                assert(self.total_lanes() > isize::MAX) by (nonlinear_arith)
                    requires
                        self.cstep * self.elempack > u64::MAX,
                        self.c >= 1,
                        self.total_lanes() == self.c * (self.cstep * self.elempack),
                ;
                return Err(MatError::InconsistentLayout);
            },
        };
        let total = match (self.c as u64).checked_mul(stride) {
            Some(t) => t,
            None => return Err(MatError::InconsistentLayout),
        };
        if total > isize::MAX as u64 {
            return Err(MatError::InconsistentLayout);
        }
        Ok(total)
    }

    /// Bounds-checked flat lane index: the lane that index `idx` addresses,
    /// measured in 32-bit lanes from the start of the buffer.
    pub fn checked_index(&self, idx: isize) -> (r: Result<usize, MatError>)
        ensures
            match self.access_error() {
                Some(e) => r == Err::<usize, MatError>(e),
                None => if 0 <= idx < self.total_lanes() {
                    r == Ok::<usize, MatError>(idx as usize)
                } else {
                    r == Err::<usize, MatError>(
                        MatError::IndexOutOfRange { index: idx, len: self.total_lanes() as u64 },
                    )
                },
            },
    {
        let total = match self.validate() {
            Ok(t) => t,
            Err(e) => return Err(e),
        };
        if idx < 0 || idx as u64 >= total {
            Err(MatError::IndexOutOfRange { index: idx, len: total })
        } else {
            Ok(idx as usize)
        }
    }

    /// The view of channel `k`: where its plane starts in the buffer and how
    /// many of its lanes carry data.
    pub fn channel(&self, k: i32) -> (r: Result<ChannelView, MatError>)
        ensures
            match self.access_error() {
                Some(e) => r == Err::<ChannelView, MatError>(e),
                None => match r {
                    Ok(v) => 0 <= k < self.c && v.start() == self.channel_start(k as int)
                        && v.lanes() == self.channel_lanes(),
                    Err(e) => !(0 <= k < self.c) && e == (MatError::ChannelOutOfRange {
                        channel: k,
                        channels: self.c,
                    }),
                },
            },
    {
        if let Err(e) = self.validate() {
            return Err(e);
        }
        if k < 0 || k >= self.c {
            return Err(MatError::ChannelOutOfRange { channel: k, channels: self.c });
        }
        proof {
            lemma_channel_bounds(*self, k as int);
        }
        let stride = self.cstep * (self.elempack as u64);
        let plane = (self.w as u64) * (self.h as u64) * (self.d as u64);
        let lanes = plane * (self.elempack as u64);
        let start = (k as u64) * stride;
        Ok(ChannelView::new(start as usize, lanes as usize))
    }
}

/// The arithmetic facts behind a channel view: its start, stride, plane and
/// lane count all lie within the buffer.
proof fn lemma_channel_bounds(s: MatShape, k: int)
    requires
        s.accessible(),
        0 <= k < s.c,
    ensures
        0 <= s.w * s.h <= 0x7fff_ffff * 0x7fff_ffff,
        0 <= s.plane_elems() <= s.cstep,
        0 <= s.lane_stride() <= s.total_lanes(),
        0 <= s.channel_lanes() <= s.lane_stride(),
        0 <= s.channel_start(k),
        s.channel_start(k) + s.channel_lanes() <= s.total_lanes(),
        s.total_lanes() <= isize::MAX,
{
    let p = s.plane_elems();
    let st = s.lane_stride();
    assert(0 <= s.w * s.h <= 0x7fff_ffff * 0x7fff_ffff) by (nonlinear_arith)
        requires
            0 <= s.w <= 0x7fff_ffff,
            0 <= s.h <= 0x7fff_ffff,
    ;
    assert(0 <= p * s.elempack <= st) by (nonlinear_arith)
        requires
            0 <= p <= s.cstep,
            s.elempack >= 1,
            st == s.cstep * s.elempack,
    ;
    assert(0 <= k * st && k * st + st <= s.c * st) by (nonlinear_arith)
        requires
            0 <= k < s.c,
            st >= 0,
    ;
}

} // verus!

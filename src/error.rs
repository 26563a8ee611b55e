use vstd::prelude::*;

verus! {

/// Every recoverable failure that the descriptor checks report.
#[derive(Clone, Copy, Debug, PartialEq, Eq, Structural)]
pub enum MatError {
    /// A pixel buffer does not hold the number of bytes its extents call for.
    LengthMismatch { expected: u64, provided: usize },
    /// A pixel buffer is too short for the rows its extents and pitch describe.
    BufferTooShort { required: u64, provided: usize },
    /// A width, height or row pitch is negative, or too large to describe.
    InvalidExtent,
    /// A row pitch is shorter than one row of pixels.
    RowStrideTooShort { stride: i32, row_bytes: u64 },
    /// A pixel or conversion code that names no known pixel format.
    UnknownPixelType { code: i32 },
    /// The container has no buffer: it is empty or its allocation failed.
    InvalidContainer,
    /// The elements are not packs of 32-bit lanes.
    UnsupportedElement { elemsize: u64, elempack: i32 },
    /// The descriptor's extents and channel stride contradict each other.
    InconsistentLayout,
    /// A channel index outside `[0, channels)`.
    ChannelOutOfRange { channel: i32, channels: i32 },
    /// A flat lane index outside `[0, len)`.
    IndexOutOfRange { index: isize, len: u64 },
    /// Per-channel parameter lists whose lengths differ from the channel count.
    ChannelCountMismatch { channels: i32, mean_len: usize, norm_len: usize },
}

} // verus!

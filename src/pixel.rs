use vstd::prelude::*;

verus! {

/// Runtime code of interleaved red-green-blue pixels.
pub const PIXEL_RGB: i32 = 1;

/// Runtime code of interleaved blue-green-red pixels.
pub const PIXEL_BGR: i32 = 2;

/// Runtime code of single-byte gray pixels.
pub const PIXEL_GRAY: i32 = 3;

/// Runtime code of interleaved red-green-blue-alpha pixels.
pub const PIXEL_RGBA: i32 = 4;

/// Runtime code of interleaved blue-green-red-alpha pixels.
pub const PIXEL_BGRA: i32 = 5;

/// Bit position of the destination format inside a conversion code.
pub const PIXEL_CONVERT_SHIFT: i32 = 16;

/// Mask that keeps the source format of a conversion code.
pub const PIXEL_FORMAT_MASK: i32 = 0xffff;

/// The interleaved byte layouts that pixel ingestion understands.
#[derive(Clone, Copy, Debug, PartialEq, Eq, Structural)]
pub enum MatPixelType {
    BGR,
    BGRA,
    GRAY,
    RGB,
    RGBA,
}

impl MatPixelType {
    /// The runtime's integer code for this layout.
    pub open spec fn code(self) -> int {
        match self {
            MatPixelType::BGR => PIXEL_BGR as int,
            MatPixelType::BGRA => PIXEL_BGRA as int,
            MatPixelType::GRAY => PIXEL_GRAY as int,
            MatPixelType::RGB => PIXEL_RGB as int,
            MatPixelType::RGBA => PIXEL_RGBA as int,
        }
    }

    /// Bytes that one pixel of this layout occupies.
    pub open spec fn bytes_per_pixel(self) -> int {
        match self {
            MatPixelType::BGR => 3,
            MatPixelType::BGRA => 4,
            MatPixelType::GRAY => 1,
            MatPixelType::RGB => 3,
            MatPixelType::RGBA => 4,
        }
    }

    /// The layout whose code is `i`, if any.
    pub open spec fn of_code(i: int) -> Option<MatPixelType> {
        if i == PIXEL_BGR as int {
            Some(MatPixelType::BGR)
        } else if i == PIXEL_BGRA as int {
            Some(MatPixelType::BGRA)
        } else if i == PIXEL_GRAY as int {
            Some(MatPixelType::GRAY)
        } else if i == PIXEL_RGB as int {
            Some(MatPixelType::RGB)
        } else if i == PIXEL_RGBA as int {
            Some(MatPixelType::RGBA)
        } else {
            None
        }
    }

    /// The composite code asking the runtime to convert from `self` to `dst`:
    /// the source code in the low bits, the destination code shifted above.
    pub open spec fn conversion_code(self, dst: MatPixelType) -> int {
        self.code() + dst.code() * 0x10000
    }

    /// The layout named by a code that is read by its low bits, whether it is
    /// a plain pixel code or a conversion code. Negative codes name none.
    pub open spec fn source_of_code(code: i32) -> Option<MatPixelType> {
        if code < 0 {
            None
        } else {
            Self::of_code(code as int % 0x10000)
        }
    }

    /// Decodes a runtime pixel code.
    pub fn from_int(i: i32) -> (r: Option<Self>)
        ensures
            r == Self::of_code(i as int),
            r matches Some(p) ==> p.code() == i,
    {
        if i == PIXEL_BGR {
            Some(MatPixelType::BGR)
        } else if i == PIXEL_BGRA {
            Some(MatPixelType::BGRA)
        } else if i == PIXEL_GRAY {
            Some(MatPixelType::GRAY)
        } else if i == PIXEL_RGB {
            Some(MatPixelType::RGB)
        } else if i == PIXEL_RGBA {
            Some(MatPixelType::RGBA)
        } else {
            None
        }
    }

    /// The runtime code of this layout; decoding it gives the layout back.
    pub fn to_int(&self) -> (r: i32)
        ensures
            r == self.code(),
            1 <= r <= 5,
            Self::of_code(r as int) == Some(*self),
    {
        match self {
            MatPixelType::BGR => PIXEL_BGR,
            MatPixelType::BGRA => PIXEL_BGRA,
            MatPixelType::GRAY => PIXEL_GRAY,
            MatPixelType::RGB => PIXEL_RGB,
            MatPixelType::RGBA => PIXEL_RGBA,
        }
    }

    /// The code that asks for conversion from `self` to `other` while decoding.
    pub fn convert(&self, other: &Self) -> (r: i32)
        ensures
            r == self.conversion_code(*other),
            Self::source_of_code(r) == Some(*self),
            Self::of_code(r as int / 0x10000) == Some(*other),
    {
        let a = self.to_int();
        let b = other.to_int();
        let r = a | (b << PIXEL_CONVERT_SHIFT);
        assert(a | (b << 16i32) == a + b * 0x10000) by (bit_vector)
            requires
                1 <= a <= 5,
                1 <= b <= 5,
        ;
        r
    }

    /// Bytes per pixel of this layout.
    pub fn stride(&self) -> (r: i32)
        ensures
            r == self.bytes_per_pixel(),
            1 <= r <= 4,
    {
        match self {
            MatPixelType::BGR => 3,
            MatPixelType::BGRA => 4,
            MatPixelType::GRAY => 1,
            MatPixelType::RGB => 3,
            MatPixelType::RGBA => 4,
        }
    }

    /// The layout whose bytes a plain or conversion code reads: the low bits
    /// of the code decoded as a pixel code.
    pub fn source_of(code: i32) -> (r: Option<Self>)
        ensures
            r == Self::source_of_code(code),
    {
        if code < 0 {
            return None;
        }
        let low = code & PIXEL_FORMAT_MASK;
        assert(code & 0xffffi32 == code % 0x10000) by (bit_vector)
            requires
                code >= 0,
        ;
        Self::from_int(low)
    }
}

} // verus!

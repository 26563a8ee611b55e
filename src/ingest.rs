use vstd::prelude::*;

use crate::error::MatError;
use crate::pixel::MatPixelType;

verus! {

/// The arguments of a pixel decode that passed validation, as the runtime
/// takes them.
#[derive(Clone, Copy, Debug, PartialEq, Eq, Structural)]
pub struct PixelDecode {
    pub type_code: i32,
    pub width: i32,
    pub height: i32,
    /// Bytes from the start of one row to the start of the next.
    pub stride: i32,
}

/// The arguments of a decode-and-resize that passed validation.
#[derive(Clone, Copy, Debug, PartialEq, Eq, Structural)]
pub struct ResizeDecode {
    pub type_code: i32,
    pub width: i32,
    pub height: i32,
    /// Bytes from the start of one source row to the start of the next.
    pub stride: i32,
    pub target_width: i32,
    pub target_height: i32,
}

/// Bytes of a tightly packed `w` by `h` image of layout `pt`.
pub open spec fn pixel_len(pt: MatPixelType, w: int, h: int) -> int {
    w * h * pt.bytes_per_pixel()
}

/// Bytes that `h` rows occupy when each row holds `row` bytes and rows start
/// `stride` bytes apart: the last row needs no padding after it.
pub open spec fn rows_len(stride: int, h: int, row: int) -> int {
    if h == 0 {
        0
    } else {
        stride * (h - 1) + row
    }
}

/// Why a tightly packed buffer of `data_len` bytes cannot be decoded as a
/// `width` by `height` image of layout `pt`, if it cannot.
pub open spec fn pixels_error(data_len: usize, pt: MatPixelType, width: i32, height: i32) -> Option<
    MatError,
> {
    if width < 0 || height < 0 || width * pt.bytes_per_pixel() > i32::MAX {
        Some(MatError::InvalidExtent)
    } else if data_len != pixel_len(pt, width as int, height as int) {
        Some(
            MatError::LengthMismatch {
                expected: pixel_len(pt, width as int, height as int) as u64,
                provided: data_len,
            },
        )
    } else {
        None
    }
}

/// Why a buffer of `data_len` bytes cannot be decoded under code
/// `pixel_type` from `width` by `height` pixels with rows `stride` bytes
/// apart, and resized to `target_width` by `target_height`, if it cannot.
pub open spec fn resize_error(
    data_len: usize,
    pixel_type: i32,
    width: i32,
    height: i32,
    stride: i32,
    target_width: i32,
    target_height: i32,
) -> Option<MatError> {
    match MatPixelType::source_of_code(pixel_type) {
        None => Some(MatError::UnknownPixelType { code: pixel_type }),
        Some(pt) => {
            let row = width * pt.bytes_per_pixel();
            if width < 0 || height < 0 || stride < 0 || target_width < 0 || target_height < 0 {
                Some(MatError::InvalidExtent)
            } else if stride < row {
                Some(MatError::RowStrideTooShort { stride, row_bytes: row as u64 })
            } else if data_len < rows_len(stride as int, height as int, row) {
                Some(
                    MatError::BufferTooShort {
                        required: rows_len(stride as int, height as int, row) as u64,
                        provided: data_len,
                    },
                )
            } else {
                None
            }
        },
    }
}

/// Validates a tightly packed pixel buffer before it is decoded: its length
/// must be exactly `width * height * stride(pixel_type)`. On success it
/// returns what the decode is handed, with rows `width * stride` bytes apart.
pub fn plan_from_pixels(data_len: usize, pixel_type: MatPixelType, width: i32, height: i32) -> (r:
    Result<PixelDecode, MatError>)
    ensures
        match pixels_error(data_len, pixel_type, width, height) {
            Some(e) => r == Err::<PixelDecode, MatError>(e),
            None => r == Ok::<PixelDecode, MatError>(
                (PixelDecode {
                    type_code: pixel_type.code() as i32,
                    width,
                    height,
                    stride: (width * pixel_type.bytes_per_pixel()) as i32,
                }),
            ),
        },
{
    let bpp = pixel_type.stride();
    if width < 0 || height < 0 {
        return Err(MatError::InvalidExtent);
    }
    assert(width * bpp <= 0x7fff_ffff * 4) by (nonlinear_arith)
        requires
            0 <= width <= 0x7fff_ffff,
            1 <= bpp <= 4,
    ;
    let row = (width as u64) * (bpp as u64);
    if row > i32::MAX as u64 {
        return Err(MatError::InvalidExtent);
    }
    assert(row * height <= 0x7fff_ffff * 0x7fff_ffff) by (nonlinear_arith)
        requires
            0 <= row <= 0x7fff_ffff,
            0 <= height <= 0x7fff_ffff,
    ;
    assert(width * height * bpp == row * height) by (nonlinear_arith)
        requires
            row == width * bpp,
    ;
    let expected = row * (height as u64);
    if data_len as u64 != expected {
        return Err(MatError::LengthMismatch { expected, provided: data_len });
    }
    Ok(PixelDecode { type_code: pixel_type.to_int(), width, height, stride: row as i32 })
}

/// A buffer one byte short of `width * height * stride(pt)` is refused as a
/// length mismatch that reports the expected and the provided length; a
/// buffer of exactly that many bytes passes.
pub proof fn lemma_pixel_length_validation(pt: MatPixelType, width: i32, height: i32, data_len: usize)
    requires
        width >= 0,
        height >= 0,
        width * pt.bytes_per_pixel() <= i32::MAX,
    ensures
        data_len + 1 == pixel_len(pt, width as int, height as int) ==> pixels_error(
            data_len,
            pt,
            width,
            height,
        ) == Some(
            MatError::LengthMismatch {
                expected: pixel_len(pt, width as int, height as int) as u64,
                provided: data_len,
            },
        ),
        data_len == pixel_len(pt, width as int, height as int) ==> pixels_error(
            data_len,
            pt,
            width,
            height,
        ) is None,
{
}

/// Validates a pixel buffer before it is decoded and resized. The code's low
/// bits must name a known layout; extents, row pitch and target must be
/// non-negative; each row must fit in the pitch; and the buffer must hold
/// every row, the last one without padding.
pub fn plan_from_pixels_resize(
    data_len: usize,
    pixel_type: i32,
    input_size: (i32, i32),
    stride: i32,
    target_size: (i32, i32),
) -> (r: Result<ResizeDecode, MatError>)
    ensures
        match resize_error(
            data_len,
            pixel_type,
            input_size.0,
            input_size.1,
            stride,
            target_size.0,
            target_size.1,
        ) {
            Some(e) => r == Err::<ResizeDecode, MatError>(e),
            None => r == Ok::<ResizeDecode, MatError>(
                (ResizeDecode {
                    type_code: pixel_type,
                    width: input_size.0,
                    height: input_size.1,
                    stride,
                    target_width: target_size.0,
                    target_height: target_size.1,
                }),
            ),
        },
{
    let (width, height) = input_size;
    let (target_width, target_height) = target_size;
    let pt = match MatPixelType::source_of(pixel_type) {
        Some(p) => p,
        None => return Err(MatError::UnknownPixelType { code: pixel_type }),
    };
    let bpp = pt.stride();
    if width < 0 || height < 0 || stride < 0 || target_width < 0 || target_height < 0 {
        return Err(MatError::InvalidExtent);
    }
    assert(width * bpp <= 0x7fff_ffff * 4) by (nonlinear_arith)
        requires
            0 <= width <= 0x7fff_ffff,
            1 <= bpp <= 4,
    ;
    let row = (width as u64) * (bpp as u64);
    if (stride as u64) < row {
        return Err(MatError::RowStrideTooShort { stride, row_bytes: row });
    }
    let required: u64 = if height == 0 {
        0
    } else {
        assert((stride as int) * (height - 1) <= 0x7fff_ffff * 0x7fff_ffff) by (nonlinear_arith)
            requires
                0 <= stride <= 0x7fff_ffff,
                0 <= height - 1 <= 0x7fff_ffff,
        ;
        (stride as u64) * ((height - 1) as u64) + row
    };
    if (data_len as u64) < required {
        return Err(MatError::BufferTooShort { required, provided: data_len });
    }
    Ok(
        ResizeDecode {
            type_code: pixel_type,
            width,
            height,
            stride,
            target_width,
            target_height,
        },
    )
}

} // verus!

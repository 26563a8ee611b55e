use ncnn_rs::{
    plan_from_pixels, plan_from_pixels_resize, MatError, MatPixelType, MatShape, PixelDecode,
    ResizeDecode,
};

fn shape_3d(w: i32, h: i32, c: i32, cstep: u64) -> MatShape {
    MatShape {
        dims: 3,
        w,
        h,
        d: 1,
        c,
        elemsize: 4,
        elempack: 1,
        cstep,
        has_data: true,
    }
}

#[test]
fn pixel_codes_round_trip() {
    let all = [
        MatPixelType::BGR,
        MatPixelType::BGRA,
        MatPixelType::GRAY,
        MatPixelType::RGB,
        MatPixelType::RGBA,
    ];
    for p in all {
        assert_eq!(MatPixelType::from_int(p.to_int()), Some(p));
    }
    assert_eq!(MatPixelType::RGB.to_int(), 1);
    assert_eq!(MatPixelType::BGR.to_int(), 2);
    assert_eq!(MatPixelType::GRAY.to_int(), 3);
    assert_eq!(MatPixelType::RGBA.to_int(), 4);
    assert_eq!(MatPixelType::BGRA.to_int(), 5);
}

#[test]
fn unknown_pixel_codes() {
    assert_eq!(MatPixelType::from_int(0), None);
    assert_eq!(MatPixelType::from_int(6), None);
    assert_eq!(MatPixelType::from_int(-2), None);
}

#[test]
fn pixel_strides() {
    assert_eq!(MatPixelType::BGR.stride(), 3);
    assert_eq!(MatPixelType::RGB.stride(), 3);
    assert_eq!(MatPixelType::BGRA.stride(), 4);
    assert_eq!(MatPixelType::RGBA.stride(), 4);
    assert_eq!(MatPixelType::GRAY.stride(), 1);
}

#[test]
fn conversion_code_packs_both_formats() {
    let code = MatPixelType::RGB.convert(&MatPixelType::BGR);
    assert_eq!(code, 1 | (2 << 16));
    assert_eq!(code, 131073);
    assert_eq!(MatPixelType::source_of(code), Some(MatPixelType::RGB));
    assert_eq!(MatPixelType::from_int(code >> 16), Some(MatPixelType::BGR));
    assert_eq!(MatPixelType::BGRA.convert(&MatPixelType::GRAY), 5 + 3 * 65536);
    assert_eq!(MatPixelType::source_of(-1), None);
}

#[test]
fn empty_descriptor_is_invalid() {
    let s = MatShape::empty();
    assert_eq!(s.dims, 0);
    assert!(!s.has_data);
    assert_eq!(s.validate(), Err(MatError::InvalidContainer));
    assert_eq!(s.checked_index(0), Err(MatError::InvalidContainer));
    assert_eq!(s.ensure_data(), Err(MatError::InvalidContainer));
}

#[test]
fn validate_counts_padded_lanes() {
    let s = shape_3d(224, 224, 3, 50176);
    assert_eq!(s.validate(), Ok(150528));
    assert_eq!(s.ensure_data(), Ok(()));
    let padded = shape_3d(3, 3, 2, 12);
    assert_eq!(padded.validate(), Ok(24));
}

#[test]
fn validate_refuses_poisoned_container() {
    let mut s = shape_3d(4, 4, 2, 16);
    s.has_data = false;
    assert_eq!(s.validate(), Err(MatError::InvalidContainer));
    assert_eq!(s.channel(0).map(|v| v.offset()), Err(MatError::InvalidContainer));
}

#[test]
fn validate_refuses_non_f32_elements() {
    let mut s = shape_3d(4, 4, 2, 16);
    s.elemsize = 2;
    assert_eq!(
        s.validate(),
        Err(MatError::UnsupportedElement {
            elemsize: 2,
            elempack: 1
        })
    );
    s.elemsize = 16;
    s.elempack = 0;
    assert_eq!(
        s.checked_index(0),
        Err(MatError::UnsupportedElement {
            elemsize: 16,
            elempack: 0
        })
    );
}

#[test]
fn validate_refuses_contradictory_layout() {
    let s = shape_3d(4, 4, 2, 15);
    assert_eq!(s.validate(), Err(MatError::InconsistentLayout));
    let mut neg = shape_3d(4, 4, 2, 16);
    neg.c = -1;
    assert_eq!(neg.validate(), Err(MatError::InconsistentLayout));
    let mut huge = shape_3d(1, 1, 2, u64::MAX);
    huge.w = 1;
    assert_eq!(huge.validate(), Err(MatError::InconsistentLayout));
}

#[test]
fn zero_channels_have_no_lanes() {
    let s = shape_3d(4, 4, 0, 16);
    assert_eq!(s.validate(), Ok(0));
    assert_eq!(
        s.checked_index(0),
        Err(MatError::IndexOutOfRange { index: 0, len: 0 })
    );
}

#[test]
fn checked_flat_index() {
    let s = shape_3d(2, 2, 2, 4);
    assert_eq!(s.checked_index(0), Ok(0));
    assert_eq!(s.checked_index(7), Ok(7));
    assert_eq!(
        s.checked_index(8),
        Err(MatError::IndexOutOfRange { index: 8, len: 8 })
    );
    assert_eq!(
        s.checked_index(-1),
        Err(MatError::IndexOutOfRange { index: -1, len: 8 })
    );
}

#[test]
fn channel_views_alias_parent_lanes() {
    let s = shape_3d(2, 2, 2, 4);
    let v0 = s.channel(0).unwrap();
    let v1 = s.channel(1).unwrap();
    assert_eq!(v0.offset(), 0);
    assert_eq!(v1.offset(), 4);
    assert_eq!(v0.len(), 4);
    assert_eq!(v1.len(), 4);
    assert_eq!(v0.checked_index(0), s.checked_index(0));
    assert_eq!(v1.checked_index(0), s.checked_index(4));
    assert_eq!(v1.checked_index(3), Ok(7));
    assert_eq!(
        v1.checked_index(4),
        Err(MatError::IndexOutOfRange { index: 4, len: 4 })
    );
}

#[test]
fn channel_views_skip_padding() {
    let s = shape_3d(3, 3, 3, 12);
    let v2 = s.channel(2).unwrap();
    assert_eq!(v2.offset(), 24);
    assert_eq!(v2.len(), 9);
    assert_eq!(v2.checked_index(8), Ok(32));
    assert!(v2.checked_index(9).is_err());
}

#[test]
fn packed_channel_views() {
    let s = MatShape {
        dims: 3,
        w: 2,
        h: 2,
        d: 1,
        c: 2,
        elemsize: 16,
        elempack: 4,
        cstep: 4,
        has_data: true,
    };
    assert_eq!(s.validate(), Ok(32));
    let v1 = s.channel(1).unwrap();
    assert_eq!(v1.offset(), 16);
    assert_eq!(v1.len(), 16);
}

#[test]
fn channel_out_of_range() {
    let s = shape_3d(2, 2, 2, 4);
    assert_eq!(
        s.channel(2).map(|v| v.offset()),
        Err(MatError::ChannelOutOfRange {
            channel: 2,
            channels: 2
        })
    );
    assert_eq!(
        s.channel(-1).map(|v| v.offset()),
        Err(MatError::ChannelOutOfRange {
            channel: -1,
            channels: 2
        })
    );
}

#[test]
fn pixel_length_one_short_is_refused() {
    let r = plan_from_pixels(4 * 3 * 3 - 1, MatPixelType::RGB, 4, 3);
    assert_eq!(
        r,
        Err(MatError::LengthMismatch {
            expected: 36,
            provided: 35
        })
    );
}

#[test]
fn pixel_length_exact_is_accepted() {
    let r = plan_from_pixels(36, MatPixelType::BGR, 4, 3);
    assert_eq!(
        r,
        Ok(PixelDecode {
            type_code: 2,
            width: 4,
            height: 3,
            stride: 12
        })
    );
    let g = plan_from_pixels(12, MatPixelType::GRAY, 4, 3);
    assert_eq!(g.map(|p| (p.type_code, p.stride)), Ok((3, 4)));
    let a = plan_from_pixels(48, MatPixelType::RGBA, 4, 3);
    assert_eq!(a.map(|p| p.stride), Ok(16));
}

#[test]
fn pixel_length_too_long_is_refused() {
    assert_eq!(
        plan_from_pixels(37, MatPixelType::RGB, 4, 3),
        Err(MatError::LengthMismatch {
            expected: 36,
            provided: 37
        })
    );
}

#[test]
fn pixel_negative_extent_is_refused() {
    assert_eq!(
        plan_from_pixels(9, MatPixelType::GRAY, -3, -3),
        Err(MatError::InvalidExtent)
    );
    assert_eq!(
        plan_from_pixels(0, MatPixelType::RGBA, i32::MAX, 0),
        Err(MatError::InvalidExtent)
    );
}

#[test]
fn pixel_empty_image() {
    assert_eq!(
        plan_from_pixels(0, MatPixelType::RGB, 0, 5).map(|p| p.stride),
        Ok(0)
    );
}

#[test]
fn resize_accepts_padded_rows() {
    let r = plan_from_pixels_resize(2 * 16 + 12, 1, (4, 3), 16, (8, 6));
    assert_eq!(
        r,
        Ok(ResizeDecode {
            type_code: 1,
            width: 4,
            height: 3,
            stride: 16,
            target_width: 8,
            target_height: 6
        })
    );
}

#[test]
fn resize_accepts_conversion_code() {
    let code = MatPixelType::BGRA.convert(&MatPixelType::RGB);
    let r = plan_from_pixels_resize(4 * 4 * 2, code, (4, 2), 16, (2, 1));
    assert_eq!(r.map(|p| p.type_code), Ok(code));
}

#[test]
fn resize_refuses_short_buffer() {
    assert_eq!(
        plan_from_pixels_resize(43, 1, (4, 3), 16, (8, 6)),
        Err(MatError::BufferTooShort {
            required: 44,
            provided: 43
        })
    );
}

#[test]
fn resize_refuses_short_pitch() {
    assert_eq!(
        plan_from_pixels_resize(100, 2, (4, 3), 11, (8, 6)),
        Err(MatError::RowStrideTooShort {
            stride: 11,
            row_bytes: 12
        })
    );
}

#[test]
fn resize_refuses_unknown_code() {
    assert_eq!(
        plan_from_pixels_resize(100, 9, (4, 3), 12, (8, 6)),
        Err(MatError::UnknownPixelType { code: 9 })
    );
}

#[test]
fn resize_refuses_negative_target() {
    assert_eq!(
        plan_from_pixels_resize(100, 3, (4, 3), 4, (-8, 6)),
        Err(MatError::InvalidExtent)
    );
}

#[test]
fn normalize_arguments() {
    let s = shape_3d(2, 2, 3, 4);
    assert_eq!(s.check_normalize(3, 3), Ok(()));
    assert_eq!(
        s.check_normalize(2, 3),
        Err(MatError::ChannelCountMismatch {
            channels: 3,
            mean_len: 2,
            norm_len: 3
        })
    );
    assert_eq!(
        MatShape::empty().check_normalize(0, 0),
        Err(MatError::InvalidContainer)
    );
}

#[test]
fn single_channel_normalize_arguments() {
    let s = shape_3d(5, 5, 1, 28);
    assert_eq!(s.check_normalize(1, 1), Ok(()));
    assert!(s.check_normalize(1, 0).is_err());
}

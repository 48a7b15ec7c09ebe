//! Text detection logic: detection modes, the shape of the detection output,
//! and how detected text regions are cut out of the image.
use image::DynamicImage;
use vstd::prelude::*;
use crate::preprocess::{crop_imm_of, image_dimensions};

verus! {

/// Detection precision mode
#[derive(Debug, Clone, Copy, PartialEq, Eq, Default)]
pub enum DetPrecisionMode {
    /// Fast mode - single detection
    #[default]
    Fast,
}

/// The crop rectangle `(x, y, width, height)` for a text box with the given
/// left/top corner and size in an image of the given size: negative
/// coordinates are moved to 0, the size is cut at the image border, and at
/// least one pixel is kept in each direction.
pub open spec fn axis_aligned_crop_of(
    left: i32,
    top: i32,
    width: u32,
    height: u32,
    image_width: u32,
    image_height: u32,
) -> (u32, u32, u32, u32) {
    let x: u32 = if left > 0 { left as u32 } else { 0 };
    let y: u32 = if top > 0 { top as u32 } else { 0 };
    let room_w: int = if image_width > x { image_width - x } else { 0 };
    let room_h: int = if image_height > y { image_height - y } else { 0 };
    let w: int = if width < room_w { width as int } else { room_w };
    let h: int = if height < room_h { height as int } else { room_h };
    (x, y, (if w > 1 { w } else { 1 }) as u32, (if h > 1 { h } else { 1 }) as u32)
}

/// The rectangle that an axis-aligned text box is cropped with.
pub fn axis_aligned_crop(
    left: i32,
    top: i32,
    width: u32,
    height: u32,
    image_width: u32,
    image_height: u32,
) -> (r: (u32, u32, u32, u32))
    ensures
        r == axis_aligned_crop_of(left, top, width, height, image_width, image_height),
{
    let x: u32 = if left > 0 { left as u32 } else { 0 };
    let y: u32 = if top > 0 { top as u32 } else { 0 };
    let w = width.min(image_width.saturating_sub(x)).max(1);
    let h = height.min(image_height.saturating_sub(y)).max(1);
    (x, y, w, h)
}

/// A crop rectangle always has at least one pixel in each direction, never
/// exceeds the requested size (unless that was zero), and, when its corner
/// lies inside the image, stays inside the image.
pub proof fn law_axis_aligned_crop_fits(
    left: i32,
    top: i32,
    width: u32,
    height: u32,
    image_width: u32,
    image_height: u32,
)
    ensures
        ({
            let (x, y, w, h) = axis_aligned_crop_of(left, top, width, height, image_width, image_height);
            &&& w >= 1 && h >= 1
            &&& width >= 1 ==> w <= width
            &&& height >= 1 ==> h <= height
            &&& x < image_width ==> x + w <= image_width
            &&& y < image_height ==> y + h <= image_height
        }),
{
}

/// The probability map size `(width, height)` of a detection output of shape
/// `[batch, channels, height, width]`, each dimension taken as `u32`.
pub fn det_output_size(shape: &[usize]) -> (r: (u32, u32))
    requires
        shape@.len() >= 4,
    ensures
        r == (shape@[3] as u32, shape@[2] as u32),
{
    (shape[3] as u32, shape[2] as u32)
}

/// A detection output needs at least three dimensions to be read as a map.
pub fn check_det_output_rank(shape: &[usize]) -> (r: Result<(), crate::error::OcrError>)
    ensures
        shape@.len() >= 3 ==> r is Ok,
        shape@.len() < 3 ==> (r matches Err(crate::error::OcrError::PostprocessError(m)) && m@
            == "Detection model output shape invalid"@),
{
    if shape.len() < 3 {
        return Err(
            crate::error::OcrError::PostprocessError(
                String::from_str("Detection model output shape invalid"),
            ),
        );
    }
    Ok(())
}

/// Crop an axis-aligned text box, given by its left/top corner and size, out
/// of the image with the rectangle of [`axis_aligned_crop`].
pub fn crop_axis_aligned_region(
    image: &DynamicImage,
    left: i32,
    top: i32,
    width: u32,
    height: u32,
) -> (r: DynamicImage)
    ensures
        ({
            let size = crate::preprocess::image_size(*image);
            let rect = axis_aligned_crop_of(left, top, width, height, size.0, size.1);
            &&& r == crate::preprocess::cropped(*image, rect.0, rect.1, rect.2, rect.3)
            &&& crate::preprocess::image_size(r) == crate::preprocess::crop_extent(
                size,
                rect.0,
                rect.1,
                rect.2,
                rect.3,
            )
        }),
{
    let (image_width, image_height) = image_dimensions(image);
    let (x, y, w, h) = axis_aligned_crop(left, top, width, height, image_width, image_height);
    crop_imm_of(image, x, y, w, h)
}

/// The image of a detected text region: the crop along its corner points
/// when one could be made (`rotated_crop`), otherwise the axis-aligned crop of
/// its rectangle.
pub fn crop_text_region(
    image: &DynamicImage,
    rotated_crop: Option<DynamicImage>,
    left: i32,
    top: i32,
    width: u32,
    height: u32,
) -> (r: DynamicImage)
    ensures
        rotated_crop matches Some(c) ==> r == c,
        rotated_crop is None ==> ({
            let size = crate::preprocess::image_size(*image);
            let rect = axis_aligned_crop_of(left, top, width, height, size.0, size.1);
            &&& r == crate::preprocess::cropped(*image, rect.0, rect.1, rect.2, rect.3)
            &&& crate::preprocess::image_size(r) == crate::preprocess::crop_extent(
                size,
                rect.0,
                rect.1,
                rect.2,
                rect.3,
            )
        }),
{
    match rotated_crop {
        Some(region) => region,
        None => crop_axis_aligned_region(image, left, top, width, height),
    }
}

} // verus!

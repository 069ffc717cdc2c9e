//! Resampling of a decoded image, done by the `image` crate.

use vstd::prelude::*;
use crate::resize_spec::ResizeTarget;

verus! {

/// A decoded image, held in memory by the `image` crate.
#[verifier::external_type_specification]
#[verifier::external_body]
pub struct ExDynamicImage(image::DynamicImage);

/// The resampling filters that the `image` crate offers.
#[verifier::external_type_specification]
pub struct ExFilterType(image::imageops::FilterType);

/// The width of a decoded image in pixels, as `image::DynamicImage::width`
/// gives it.
pub uninterp spec fn image_width(picture: image::DynamicImage) -> u32;

/// The height of a decoded image in pixels, as
/// `image::DynamicImage::height` gives it.
pub uninterp spec fn image_height(picture: image::DynamicImage) -> u32;

/// The size that `image::DynamicImage::resize` gives an image of the first
/// two dimensions when asked for the last two: the largest that keeps the
/// aspect ratio and fits. The crate computes it in floating point.
pub uninterp spec fn fitted_size(
    source_width: u32,
    source_height: u32,
    width: u32,
    height: u32,
) -> (u32, u32);

/// The most bytes that one pixel takes in memory, in any of the crate's
/// pixel formats.
pub const BYTES_PER_PIXEL: u128 = 16;

/// Whether the buffers of a resize fit into memory that can be asked for:
/// one of the source's width and the new height, one of the new width and
/// height. Each pixel is counted at the most it can take and the result at
/// the full target, so a resize whose buffers would in fact be smaller can
/// be refused where memory is narrow.
pub open spec fn buffers_fit(source_width: u32, width: u32, height: u32) -> bool {
    &&& BYTES_PER_PIXEL * source_width * height <= isize::MAX
    &&& BYTES_PER_PIXEL * width * height <= isize::MAX
}

/// Calls `image::DynamicImage::width`.
///
/// Trusted: the result is the image's width.
#[verifier::external_body]
fn width_of(picture: &image::DynamicImage) -> (w: u32)
    ensures
        w == image_width(*picture),
{
    picture.width()
}

/// Calls `image::DynamicImage::height`.
///
/// Trusted: the result is the image's height.
#[verifier::external_body]
fn height_of(picture: &image::DynamicImage) -> (h: u32)
    ensures
        h == image_height(*picture),
{
    picture.height()
}

/// Calls `image::DynamicImage::resize`.
///
/// Trusted: the size of the result depends on the two sizes alone, and it
/// fits within `width` by `height` without being empty. Nothing is said of
/// the pixels. The crate panics where a buffer would be larger than a
/// vector can be, which `requires` leaves out.
#[verifier::external_body]
fn resampled(
    picture: &image::DynamicImage,
    width: u32,
    height: u32,
    filter: image::imageops::FilterType,
) -> (r: image::DynamicImage)
    requires
        width >= 1,
        height >= 1,
        buffers_fit(image_width(*picture), width, height),
    ensures
        (image_width(r), image_height(r)) == fitted_size(
            image_width(*picture),
            image_height(*picture),
            width,
            height,
        ),
        1 <= image_width(r) <= width,
        1 <= image_height(r) <= height,
{
    picture.resize(width, height, filter)
}

/// The filter that images are resampled with: the Lanczos filter with a
/// window of three lobes, for quality rather than speed.
pub fn resampling_filter() -> (filter: image::imageops::FilterType)
    ensures
        filter == image::imageops::FilterType::Lanczos3,
{
    image::imageops::FilterType::Lanczos3
}

/// Width and height of a decoded image.
pub fn dimensions(picture: &image::DynamicImage) -> (r: (u32, u32))
    ensures
        r == (image_width(*picture), image_height(*picture)),
{
    (width_of(picture), height_of(picture))
}

/// Whether a buffer of `a` by `b` pixels fits.
fn fits(a: u32, b: u32) -> (r: bool)
    ensures
        r == (BYTES_PER_PIXEL * a * b <= isize::MAX),
{
    assert(a * b <= 0xffff_ffff * 0xffff_ffff) by (nonlinear_arith)
        requires
            a <= 0xffff_ffff,
            b <= 0xffff_ffff,
    ;
    let pixels: u128 = (a as u128) * (b as u128);
    let need: u128 = BYTES_PER_PIXEL * pixels;
    assert(need == BYTES_PER_PIXEL * a * b) by (nonlinear_arith)
        requires
            need == BYTES_PER_PIXEL * pixels,
            pixels == a * b,
    ;
    need <= isize::MAX as u128
}

/// Whether an image that is `source_width` pixels wide can be resized to
/// `width` by `height` with buffers that fit in memory.
pub fn can_hold_buffers(source_width: u32, width: u32, height: u32) -> (r: bool)
    ensures
        r == buffers_fit(source_width, width, height),
{
    fits(source_width, height) && fits(width, height)
}

/// `picture` resized to fit within `target`, resampled with
/// [`resampling_filter`]. `None` where the result or the work on it would
/// need a buffer larger than memory can hold.
pub fn resize_image(picture: &image::DynamicImage, target: &ResizeTarget) -> (r: Option<
    image::DynamicImage,
>)
    ensures
        r is Some == buffers_fit(image_width(*picture), target@.0, target@.1),
        r matches Some(resized) ==> {
            &&& (image_width(resized), image_height(resized)) == fitted_size(
                image_width(*picture),
                image_height(*picture),
                target@.0,
                target@.1,
            )
            &&& 1 <= image_width(resized) <= target@.0
            &&& 1 <= image_height(resized) <= target@.1
        },
{
    let width = target.width();
    let height = target.height();
    if can_hold_buffers(width_of(picture), width, height) {
        Some(resampled(picture, width, height, resampling_filter()))
    } else {
        None
    }
}

} // verus!

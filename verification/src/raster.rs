//! The decoded picture of the `image` crate, and what its exact
//! transformations do to the pixels.

use crate::grid::Grid;
use vstd::prelude::*;

verus! {

/// `image::DynamicImage`, a decoded picture. Nothing inside it is read
/// here; what it holds is spoken of through the five names below.
#[verifier::external_type_specification]
#[verifier::external_body]
pub struct ExDynamicImage(image::DynamicImage);

/// `image::ImageFormat`, the tag of an encoding. It is only carried from
/// the input to the output.
#[verifier::external_type_specification]
#[verifier::external_body]
pub struct ExImageFormat(image::ImageFormat);

/// The pixel layout of a picture: which of the crate's layouts (grey or
/// colour, with or without alpha, of 8 or 16 bits, and in which channel
/// order) its pixels have.
pub uninterp spec fn image_layout(img: image::DynamicImage) -> nat;

/// The number of pixel columns of a picture.
pub uninterp spec fn image_width(img: image::DynamicImage) -> nat;

/// The number of pixel rows of a picture.
pub uninterp spec fn image_height(img: image::DynamicImage) -> nat;

/// The largest value a channel of a picture can take.
pub uninterp spec fn image_depth(img: image::DynamicImage) -> nat;

/// The pixels of a picture: for column `x` and row `y` inside it, the
/// channel values of the pixel there, in the order the picture stores them.
pub uninterp spec fn image_samples(img: image::DynamicImage) -> Map<(int, int), Seq<nat>>;

/// The grid that a picture holds.
pub open spec fn grid_of(img: image::DynamicImage) -> Grid {
    Grid {
        layout: image_layout(img),
        width: image_width(img),
        height: image_height(img),
        depth: image_depth(img),
        samples: image_samples(img),
    }
}

/// The largest channel value of any picture: channels have 8 or 16 bits.
pub const DEPTH_LIMIT: i32 = 65535;

/// `image::DynamicImage::rotate90`. Not proved: the result has the sides
/// swapped, the same pixel layout, and the pixel of column `x`, row `y` in
/// column `height - 1 - y`, row `x`.
#[verifier::external_body]
pub(crate) fn rotate90(img: &image::DynamicImage) -> (r: image::DynamicImage)
    ensures
        image_layout(r) == image_layout(*img),
        image_width(r) == grid_of(*img).quarter_turn().width,
        image_height(r) == grid_of(*img).quarter_turn().height,
        image_depth(r) == image_depth(*img),
        image_samples(r) == grid_of(*img).quarter_turn().samples,
{
    img.rotate90()
}

/// `image::DynamicImage::rotate180`. Not proved: the result has the same
/// size and pixel layout, and the pixel of column `x`, row `y` in column
/// `width - 1 - x`, row `height - 1 - y`.
#[verifier::external_body]
pub(crate) fn rotate180(img: &image::DynamicImage) -> (r: image::DynamicImage)
    ensures
        image_layout(r) == image_layout(*img),
        image_width(r) == image_width(*img),
        image_height(r) == image_height(*img),
        image_depth(r) == image_depth(*img),
        image_samples(r) == grid_of(*img).half_turn().samples,
{
    img.rotate180()
}

/// `image::DynamicImage::rotate270`. Not proved: the result has the sides
/// swapped, the same pixel layout, and the pixel of column `x`, row `y` in
/// column `y`, row `width - 1 - x`.
#[verifier::external_body]
pub(crate) fn rotate270(img: &image::DynamicImage) -> (r: image::DynamicImage)
    ensures
        image_layout(r) == image_layout(*img),
        image_width(r) == grid_of(*img).three_quarter_turn().width,
        image_height(r) == grid_of(*img).three_quarter_turn().height,
        image_depth(r) == image_depth(*img),
        image_samples(r) == grid_of(*img).three_quarter_turn().samples,
{
    img.rotate270()
}

/// `image::DynamicImage::fliph`. Not proved: the result has the same size
/// and pixel layout, and the pixel of column `x`, row `y` in column
/// `width - 1 - x` of the same row.
#[verifier::external_body]
pub(crate) fn fliph(img: &image::DynamicImage) -> (r: image::DynamicImage)
    ensures
        image_layout(r) == image_layout(*img),
        image_width(r) == image_width(*img),
        image_height(r) == image_height(*img),
        image_depth(r) == image_depth(*img),
        image_samples(r) == grid_of(*img).mirrored().samples,
{
    img.fliph()
}

/// `image::DynamicImage::flipv`. Not proved: the result has the same size
/// and pixel layout, and the pixel of column `x`, row `y` in row
/// `height - 1 - y` of the same column.
#[verifier::external_body]
pub(crate) fn flipv(img: &image::DynamicImage) -> (r: image::DynamicImage)
    ensures
        image_layout(r) == image_layout(*img),
        image_width(r) == image_width(*img),
        image_height(r) == image_height(*img),
        image_depth(r) == image_depth(*img),
        image_samples(r) == grid_of(*img).flipped().samples,
{
    img.flipv()
}

/// `image::DynamicImage::brighten`. Not proved: the result has the same
/// size and pixel layout; each channel but alpha is the sum of its old
/// value and `delta`, held within the channel's range; and no channel has
/// more than 16 bits. The sum is computed in `i32`, so `delta` must leave
/// room for the largest channel value.
#[verifier::external_body]
pub(crate) fn brighten(img: &image::DynamicImage, delta: i32) -> (r: image::DynamicImage)
    requires
        delta + DEPTH_LIMIT <= i32::MAX,
    ensures
        image_layout(r) == image_layout(*img),
        image_width(r) == image_width(*img),
        image_height(r) == image_height(*img),
        image_depth(r) == image_depth(*img),
        image_depth(r) <= DEPTH_LIMIT,
        image_samples(r) == grid_of(*img).brightened(delta as int).samples,
{
    img.brighten(delta)
}

} // verus!

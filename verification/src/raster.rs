//! The raster driver: from the hits of every pixel's ray to the image.
//!
//! The image is a `DynamicImage` of the `image` crate with 8-bit RGB pixels.
//! What this module believes of that crate is stated in the contracts of
//! `new_rgb8`, `put_pixel` and `rgba` below, over four names for what an
//! image and a pixel hold.

use vstd::prelude::*;
use image::GenericImage;
use crate::data::{Color, Element, Scene};
use crate::number::Double;
use crate::trace::{lemma_no_hit_no_nearest, lemma_strictly_nearer_wins, nearest, no_hit};

verus! {

/// The image type of the `image` crate. Nothing of its inside is visible
/// here.
#[verifier::external_type_specification]
#[verifier::external_body]
pub struct ExDynamicImage(image::DynamicImage);

/// The pixel type of the `image` crate with red, green, blue and alpha
/// channels. Nothing of its inside is visible here.
#[verifier::external_type_specification]
#[verifier::external_body]
#[verifier::reject_recursive_types(T)]
pub struct ExRgba<T>(image::Rgba<T>);

/// The red, green, blue and alpha channels of a pixel, in this order.
pub uninterp spec fn rgba_channels(pixel: image::Rgba<u8>) -> (u8, u8, u8, u8);

/// The width and the height of an image, in pixels.
pub uninterp spec fn image_extent(img: image::DynamicImage) -> (u32, u32);

/// Whether an image stores its pixels as 8-bit red, green and blue.
pub uninterp spec fn image_is_rgb(img: image::DynamicImage) -> bool;

/// The red, green and blue levels that an 8-bit RGB image stores, pixel by
/// pixel and row by row: the pixel in column `x` and row `y` of an image of
/// width `w` stands at `y * w + x`.
pub uninterp spec fn image_pixels(img: image::DynamicImage) -> Seq<(u8, u8, u8)>;

/// `DynamicImage::new_rgb8` makes an 8-bit RGB image of the given width and
/// height in which every level is 0. It panics where the three bytes per
/// pixel do not fit a vector, which `requires` leaves out.
pub assume_specification[ image::DynamicImage::new_rgb8 ](w: u32, h: u32) -> (img:
    image::DynamicImage)
    requires
        3 * w * h <= isize::MAX,
    ensures
        image_is_rgb(img),
        image_extent(img) == (w, h),
        image_pixels(img) == Seq::new((w * h) as nat, |p: int| (0u8, 0u8, 0u8)),
;

/// `GenericImage::put_pixel` on a `DynamicImage` that stores 8-bit RGB: the
/// pixel at `(x, y)` takes the red, green and blue channels of `pixel`, whose
/// alpha is dropped, and nothing else changes. It panics on coordinates
/// outside the image, which `requires` leaves out.
#[verifier::external_body]
fn put_pixel(img: &mut image::DynamicImage, x: u32, y: u32, pixel: image::Rgba<u8>)
    requires
        image_is_rgb(*old(img)),
        x < image_extent(*old(img)).0,
        y < image_extent(*old(img)).1,
    ensures
        image_is_rgb(*final(img)),
        image_extent(*final(img)) == image_extent(*old(img)),
        image_pixels(*final(img)) == image_pixels(*old(img)).update(
            pixel_index(image_extent(*old(img)).0, x as int, y as int),
            stored(rgba_channels(pixel)),
        ),
{
    img.put_pixel(x, y, pixel)
}

/// The constructor of `image::Rgba`: a pixel of the four channels given.
#[verifier::external_body]
fn rgba(red: u8, green: u8, blue: u8, alpha: u8) -> (pixel: image::Rgba<u8>)
    ensures
        rgba_channels(pixel) == (red, green, blue, alpha),
{
    image::Rgba([red, green, blue, alpha])
}

/// What an 8-bit RGB image keeps of four channels: the red, green and blue.
pub open spec fn stored(channels: (u8, u8, u8, u8)) -> (u8, u8, u8) {
    (channels.0, channels.1, channels.2)
}

/// The channels of the pixel that shows a surface colour: each channel of
/// the colour as one of 256 levels, and full alpha.
pub open spec fn surface(color: Color) -> (u8, u8, u8, u8) {
    (color.red.level() as u8, color.green.level() as u8, color.blue.level() as u8, 255u8)
}

/// The channels of the pixel that shows no primitive: black, with no alpha.
pub open spec fn background() -> (u8, u8, u8, u8) {
    (0u8, 0u8, 0u8, 0u8)
}

/// The channels of the pixel whose ray has the given hits on the given
/// primitives: the colour of the nearest primitive met, or the background.
pub open spec fn shade(elements: Seq<Element>, hits: Seq<Option<Double>>) -> (u8, u8, u8, u8) {
    match nearest(hits) {
        Some(i) => surface(elements[i].spec_color()),
        None => background(),
    }
}

/// Where the pixel in column `x` and row `y` stands among the pixels of an
/// image of the given width, taken row by row.
pub open spec fn pixel_index(width: u32, x: int, y: int) -> int {
    y * width + x
}

/// The pixel that shows a surface colour.
pub fn to_rgba(color: &Color) -> (pixel: image::Rgba<u8>)
    ensures
        rgba_channels(pixel) == surface(*color),
{
    rgba(color.red.to_level(), color.green.to_level(), color.blue.to_level(), 255)
}

impl Scene {
    /// The pixel whose ray has the given hits on the scene's primitives.
    pub fn shade(&self, hits: &Vec<Option<Double>>) -> (pixel: image::Rgba<u8>)
        requires
            hits.len() == self.elements.len(),
        ensures
            rgba_channels(pixel) == shade(self.elements@, hits@),
    {
        match self.trace(hits) {
            Some((_, element)) => to_rgba(element.color()),
            None => rgba(0, 0, 0, 0),
        }
    }
}

/// A pixel whose ray meets nothing shows the background.
pub proof fn lemma_no_hit_shows_background(elements: Seq<Element>, hits: Seq<Option<Double>>)
    requires
        no_hit(hits),
    ensures
        shade(elements, hits) == background(),
{
    lemma_no_hit_no_nearest(hits);
}

/// A pixel shows the colour of the primitive that its ray meets strictly
/// before every other one that it meets.
pub proof fn lemma_strictly_nearer_shows(elements: Seq<Element>, hits: Seq<Option<Double>>, i: int)
    requires
        0 <= i < hits.len(),
        hits[i] is Some,
        forall|j: int|
            0 <= j < hits.len() && j != i && (#[trigger] hits[j]) is Some
                ==> hits[i].unwrap().spec_lt(hits[j].unwrap()),
    ensures
        shade(elements, hits) == surface(elements[i].spec_color()),
{
    lemma_strictly_nearer_wins(hits, i);
}

/// Renders a scene from the hits of its prime rays.
///
/// `hits` holds one entry for each pixel, row by row as the image holds its
/// pixels; the entry of a pixel holds, for each primitive of the scene in
/// turn, the distance at which the pixel's prime ray meets it, if it does.
/// The image has the scene's width and height, and each of its pixels shows
/// the nearest primitive that its ray meets, or the background.
///
/// Prime rays exist in landscape scenes only, so a scene that is not one can
/// be rendered only where it has no pixel at all.
pub fn render(scene: &Scene, hits: &Vec<Vec<Option<Double>>>) -> (img: image::DynamicImage)
    requires
        scene.is_landscape() || scene.width == 0,
        3 * scene.width * scene.height <= isize::MAX,
        hits.len() == scene.width * scene.height,
        forall|p: int| 0 <= p < hits.len() ==> (#[trigger] hits[p]).len() == scene.elements.len(),
    ensures
        image_is_rgb(img),
        image_extent(img) == (scene.width, scene.height),
        image_pixels(img).len() == scene.width * scene.height,
        forall|p: int|
            0 <= p < scene.width * scene.height ==> #[trigger] image_pixels(img)[p] == stored(
                shade(scene.elements@, hits[p]@),
            ),
        forall|p: int|
            0 <= p < scene.width * scene.height && no_hit(hits[p]@) ==> #[trigger] image_pixels(
                img,
            )[p] == stored(background()),
{
    let width: u32 = scene.width;
    let height: u32 = scene.height;
    let mut img: image::DynamicImage = image::DynamicImage::new_rgb8(width, height);
    let mut p: usize = 0;
    let mut y: u32 = 0;
    while y < height
        invariant
            y <= height,
            p == y * width,
            width == scene.width,
            height == scene.height,
            hits.len() == width * height,
            forall|q: int|
                0 <= q < hits.len() ==> (#[trigger] hits[q]).len() == scene.elements.len(),
            image_is_rgb(img),
            image_extent(img) == (width, height),
            image_pixels(img).len() == width * height,
            forall|q: int|
                0 <= q < p ==> #[trigger] image_pixels(img)[q] == stored(
                    shade(scene.elements@, hits[q]@),
                ),
        decreases height - y,
    {
        let mut x: u32 = 0;
        while x < width
            invariant
                x <= width,
                y < height,
                p == y * width + x,
                width == scene.width,
                height == scene.height,
                hits.len() == width * height,
                forall|q: int|
                    0 <= q < hits.len() ==> (#[trigger] hits[q]).len() == scene.elements.len(),
                image_is_rgb(img),
                image_extent(img) == (width, height),
                image_pixels(img).len() == width * height,
                forall|q: int|
                    0 <= q < p ==> #[trigger] image_pixels(img)[q] == stored(
                        shade(scene.elements@, hits[q]@),
                    ),
            decreases width - x,
        {
            assert(y * width + x < width * height) by (nonlinear_arith)
                requires
                    x < width,
                    y < height,
            ;
            let pixel: image::Rgba<u8> = scene.shade(&hits[p]);
            put_pixel(&mut img, x, y, pixel);
            x = x + 1;
            p = p + 1;
        }
        assert((y + 1) * width == y * width + width) by (nonlinear_arith);
        y = y + 1;
    }
    proof {
        assert(height * width == width * height) by (nonlinear_arith);
        assert forall|q: int| 0 <= q < width * height && no_hit(hits[q]@) implies #[trigger] image_pixels(
            img,
        )[q] == stored(background()) by {
            lemma_no_hit_shows_background(scene.elements@, hits[q]@);
        }
    }
    img
}

} // verus!

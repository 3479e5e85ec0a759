//! Decoded images: a rectangle of colours that can be looked up by pixel.
//!
//! The pixels are kept in an image buffer of the `image` crate. What this
//! module says of that buffer is stated, not proved: how it is built from
//! raw bytes, what size it reports, and which bytes it hands out for a
//! pixel.

use vstd::prelude::*;
use crate::color::Color;

verus! {

/// A decoded image with four bytes for each pixel: red, green, blue and
/// alpha. It holds an `image::RgbaImage`, of which Verus sees nothing.
#[verifier::external_body]
pub struct Texture {
    image: image::RgbaImage,
}

/// The bytes that a texture holds, row by row.
pub uninterp spec fn texture_data(texture: Texture) -> Seq<u8>;

/// The width and the height that a texture was made with.
pub uninterp spec fn texture_size(texture: Texture) -> (nat, nat);

/// What a texture holds.
pub struct TextureState {
    pub width: nat,
    pub height: nat,
    /// The bytes, four for each pixel, row by row.
    pub data: Seq<u8>,
}

/// The colour of the pixel `(x, y)` in an image `width` pixels wide that
/// holds the bytes `data`: the first three of the four bytes that start at
/// `(y * width + x) * 4`. There is none if `x` lies beyond the width, or if
/// the bytes do not reach that far.
pub open spec fn texel_of(data: Seq<u8>, width: nat, x: int, y: int) -> Option<Color> {
    let i = (y * width + x) * 4;
    if 0 <= x < width && 0 <= y && i + 4 <= data.len() {
        Some(Color { r: data[i], g: data[i + 1], b: data[i + 2] })
    } else {
        None
    }
}

impl TextureState {
    /// The colour at `(x, y)`, if the texture has such a pixel.
    pub open spec fn texel(self, x: int, y: int) -> Option<Color> {
        texel_of(self.data, self.width, x, y)
    }

    /// The colour that the texture shows at pixel `(x, y)` of a screen of
    /// the given size when it is stretched over the whole screen.
    pub open spec fn sample(self, x: int, y: int, screen_width: int, screen_height: int) -> Option<
        Color,
    > {
        self.texel((x * self.width) / screen_width, (y * self.height) / screen_height)
    }
}

impl View for Texture {
    type V = TextureState;

    open spec fn view(&self) -> TextureState {
        TextureState {
            width: texture_size(*self).0,
            height: texture_size(*self).1,
            data: texture_data(*self),
        }
    }
}

/// Calls `image::ImageBuffer::from_raw`. That function accepts the bytes
/// exactly when there are at least four for each of the `width * height`
/// pixels, and the buffer it builds keeps the size and the bytes as they
/// were given.
#[verifier::external_body]
fn buffer_from_raw(width: u32, height: u32, data: Vec<u8>) -> (texture: Option<Texture>)
    ensures
        texture.is_some() <==> 4 * width * height <= data@.len(),
        texture matches Some(t) ==> texture_size(t) == (width as nat, height as nat)
            && texture_data(t) == data@,
{
    image::RgbaImage::from_raw(width, height, data).map(|image| Texture { image })
}

/// Calls `image::ImageBuffer::width`, which reports the width that the
/// buffer was made with.
#[verifier::external_body]
fn buffer_width(texture: &Texture) -> (w: u32)
    ensures
        w == texture_size(*texture).0,
{
    texture.image.width()
}

/// Calls `image::ImageBuffer::height`, which reports the height that the
/// buffer was made with.
#[verifier::external_body]
fn buffer_height(texture: &Texture) -> (h: u32)
    ensures
        h == texture_size(*texture).1,
{
    texture.image.height()
}

/// Calls `image::ImageBuffer::get_pixel_checked`. That function turns away
/// an `x` beyond the width; otherwise it hands out the four bytes that start
/// at `(y * width + x) * 4`, if the buffer holds that many. The red, green
/// and blue bytes are passed on.
#[verifier::external_body]
fn buffer_pixel(texture: &Texture, x: u32, y: u32) -> (pixel: Option<Color>)
    ensures
        pixel == texel_of(texture_data(*texture), texture_size(*texture).0, x as int, y as int),
{
    texture.image.get_pixel_checked(x, y).map(|p| Color { r: p[0], g: p[1], b: p[2] })
}

impl Texture {
    /// Builds a texture from its size and its bytes, four for each pixel
    /// (red, green, blue, alpha), row by row; there is none if the bytes
    /// are too few for the size.
    pub fn new(width: u32, height: u32, data: Vec<u8>) -> (texture: Option<Texture>)
        ensures
            texture.is_some() <==> 4 * width * height <= data@.len(),
            texture matches Some(t) ==> t@ == (TextureState {
                width: width as nat,
                height: height as nat,
                data: data@,
            }),
    {
        buffer_from_raw(width, height, data)
    }

    /// The number of pixels in a row.
    pub fn width(&self) -> (w: u32)
        ensures
            w == self@.width,
    {
        buffer_width(self)
    }

    /// The number of rows.
    pub fn height(&self) -> (h: u32)
        ensures
            h == self@.height,
    {
        buffer_height(self)
    }

    /// Looks up the colour at `(x, y)`.
    pub fn get_pixel_checked(&self, x: u32, y: u32) -> (color: Option<Color>)
        ensures
            color == self@.texel(x as int, y as int),
    {
        buffer_pixel(self, x, y)
    }
}

/// In a texture that holds four bytes for each of its pixels, every place
/// within its size has a colour, made of the bytes at that place.
pub proof fn law_full_texture_has_every_pixel(texture: TextureState, x: int, y: int)
    requires
        4 * texture.width * texture.height <= texture.data.len(),
        0 <= x < texture.width,
        0 <= y < texture.height,
    ensures
        texture.texel(x, y) == Some(
            Color {
                r: texture.data[(y * texture.width + x) * 4],
                g: texture.data[(y * texture.width + x) * 4 + 1],
                b: texture.data[(y * texture.width + x) * 4 + 2],
            },
        ),
{
    crate::fixed::lemma_index_in_bounds(x, y, texture.width as int, texture.height as int);
    assert(4 * texture.width * texture.height == 4 * (texture.width * texture.height))
        by (nonlinear_arith);
}

} // verus!

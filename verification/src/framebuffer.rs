//! The pixel buffer and its depth test.
//!
//! Pixels are stored row by row, each as `0xRRGGBB`, beside one depth per
//! pixel. A write lands only where it is nearer than what the pixel holds.

use vstd::prelude::*;
use crate::color::Color;
use crate::fixed::lemma_index_in_bounds;
use crate::texture::{Texture, TextureState};

verus! {

/// The depth of a pixel that nothing has been drawn on.
pub const FAR: i32 = i32::MAX;

/// What a framebuffer holds.
pub struct FramebufferState {
    pub width: nat,
    pub height: nat,
    /// The colours, row by row.
    pub pixels: Seq<u32>,
    /// The depths, row by row.
    pub depths: Seq<i32>,
    pub background_color: u32,
    pub current_color: u32,
}

impl FramebufferState {
    /// Whether there is one colour and one depth for each pixel.
    pub open spec fn valid(self) -> bool {
        self.pixels.len() == self.width * self.height && self.depths.len() == self.width
            * self.height
    }

    /// Whether `(x, y)` is a pixel of the buffer.
    pub open spec fn contains(self, x: int, y: int) -> bool {
        0 <= x < self.width && 0 <= y < self.height
    }

    /// The place of pixel `(x, y)` in the rows laid end to end.
    pub open spec fn index(self, x: int, y: int) -> int {
        y * self.width + x
    }

    /// A buffer of the given size with every pixel black and far away,
    /// drawing in white.
    pub open spec fn blank(width: nat, height: nat) -> FramebufferState {
        FramebufferState {
            width,
            height,
            pixels: Seq::new(width * height, |i: int| 0u32),
            depths: Seq::new(width * height, |i: int| FAR),
            background_color: 0,
            current_color: 0xff_ffff,
        }
    }

    /// The buffer with every pixel set to the background colour and every
    /// depth to `FAR`.
    pub open spec fn cleared(self) -> FramebufferState {
        FramebufferState {
            pixels: Seq::new(self.pixels.len(), |i: int| self.background_color),
            depths: Seq::new(self.depths.len(), |i: int| FAR),
            ..self
        }
    }

    /// The buffer after the pixel at place `i` has been offered `color` at
    /// `depth`: the pixel takes both if `depth` is less than the depth it
    /// holds, and keeps what it has otherwise.
    pub open spec fn offered(self, i: int, color: u32, depth: i32) -> FramebufferState {
        if depth < self.depths[i] {
            FramebufferState {
                pixels: self.pixels.update(i, color),
                depths: self.depths.update(i, depth),
                ..self
            }
        } else {
            self
        }
    }

    /// The colour that `texture`, stretched over the whole buffer, shows at
    /// the pixel at place `i`.
    pub open spec fn stretched_color(self, texture: TextureState, i: int) -> Option<Color> {
        texture.sample(i % (self.width as int), i / (self.width as int), self.width as int, self.height as int)
    }

    /// The buffer after the pixel at place `i` has been offered what the
    /// stretched texture shows there, at `depth`; the colour offered becomes
    /// the current colour.
    pub open spec fn drawn_at(self, texture: TextureState, depth: i32, i: int) -> FramebufferState {
        match self.stretched_color(texture, i) {
            Some(c) => (FramebufferState { current_color: c.hex() as u32, ..self }).offered(
                i,
                c.hex() as u32,
                depth,
            ),
            None => self,
        }
    }

    /// The buffer after the first `n` pixels, row by row, have been offered
    /// what the stretched texture shows.
    pub open spec fn drawn_upto(self, texture: TextureState, depth: i32, n: nat) -> FramebufferState
        decreases n,
    {
        if n == 0 {
            self
        } else {
            self.drawn_upto(texture, depth, (n - 1) as nat).drawn_at(texture, depth, n - 1)
        }
    }

    /// The buffer after `texture` has been stretched over it at `depth`.
    pub open spec fn stretched(self, texture: TextureState, depth: i32) -> FramebufferState {
        self.drawn_upto(texture, depth, self.pixels.len())
    }

    /// The buffer after the current colour has been drawn at `(x, y)` with
    /// the given depth.
    pub open spec fn point(self, x: int, y: int, depth: i32) -> FramebufferState {
        self.offered(self.index(x, y), self.current_color, depth)
    }
}

/// The pixel buffer with its depth buffer.
pub struct Framebuffer {
    width: usize,
    height: usize,
    buffer: Vec<u32>,
    zbuffer: Vec<i32>,
    background_color: u32,
    current_color: u32,
}

impl View for Framebuffer {
    type V = FramebufferState;

    closed spec fn view(&self) -> FramebufferState {
        FramebufferState {
            width: self.width as nat,
            height: self.height as nat,
            pixels: self.buffer@,
            depths: self.zbuffer@,
            background_color: self.background_color,
            current_color: self.current_color,
        }
    }
}

impl Framebuffer {
    #[verifier::type_invariant]
    spec fn inv(self) -> bool {
        self@.valid()
    }

    /// Builds a buffer of `width` by `height` pixels, all black and far
    /// away, with white as the current colour.
    pub fn new(width: usize, height: usize) -> (fb: Framebuffer)
        requires
            width * height <= usize::MAX,
        ensures
            fb@ == FramebufferState::blank(width as nat, height as nat),
            fb@.valid(),
    {
        let count: usize = width * height;
        let mut buffer: Vec<u32> = Vec::new();
        let mut zbuffer: Vec<i32> = Vec::new();
        let mut i: usize = 0;
        while i < count
            invariant
                i <= count,
                buffer@ == Seq::new(i as nat, |k: int| 0u32),
                zbuffer@ == Seq::new(i as nat, |k: int| FAR),
            decreases count - i,
        {
            buffer.push(0);
            zbuffer.push(FAR);
            i = i + 1;
        }
        Framebuffer { width, height, buffer, zbuffer, background_color: 0, current_color: 0xff_ffff }
    }

    fn place(&self, x: usize, y: usize) -> (i: usize)
        requires
            self@.contains(x as int, y as int),
        ensures
            i == self@.index(x as int, y as int),
            i < self@.pixels.len(),
            i < self@.depths.len(),
    {
        proof {
            use_type_invariant(self);
            lemma_index_in_bounds(x as int, y as int, self.width as int, self.height as int);
            assert(self@.pixels.len() == self.width * self.height);
            assert(self.buffer.len() <= usize::MAX);
            assert(y * self.width + x < self.buffer@.len());
            assert(0 <= y * self.width);
        }
        y * self.width + x
    }

    /// The number of pixels in a row.
    pub fn width(&self) -> (w: usize)
        ensures
            w == self@.width,
    {
        self.width
    }

    /// The number of rows.
    pub fn height(&self) -> (h: usize)
        ensures
            h == self@.height,
    {
        self.height
    }

    /// The colours, row by row.
    pub fn buffer(&self) -> (pixels: &Vec<u32>)
        ensures
            pixels@ == self@.pixels,
            pixels@.len() == self@.width * self@.height,
    {
        proof {
            use_type_invariant(self);
        }
        &self.buffer
    }

    /// The colour of the pixel at `(x, y)`, if there is such a pixel.
    pub fn pixel(&self, x: usize, y: usize) -> (color: Option<u32>)
        ensures
            self@.contains(x as int, y as int) ==> color == Some(
                self@.pixels[self@.index(x as int, y as int)],
            ),
            !self@.contains(x as int, y as int) ==> color.is_none(),
    {
        proof {
            use_type_invariant(self);
        }
        if x < self.width && y < self.height {
            Some(self.buffer[self.place(x, y)])
        } else {
            None
        }
    }

    /// The depth of the pixel at `(x, y)`, if there is such a pixel.
    pub fn depth(&self, x: usize, y: usize) -> (depth: Option<i32>)
        ensures
            self@.contains(x as int, y as int) ==> depth == Some(
                self@.depths[self@.index(x as int, y as int)],
            ),
            !self@.contains(x as int, y as int) ==> depth.is_none(),
    {
        proof {
            use_type_invariant(self);
        }
        if x < self.width && y < self.height {
            Some(self.zbuffer[self.place(x, y)])
        } else {
            None
        }
    }

    /// Sets every pixel to the background colour and every depth to `FAR`.
    pub fn clear(&mut self)
        ensures
            final(self)@ == old(self)@.cleared(),
    {
        proof {
            use_type_invariant(&*self);
        }
        let count: usize = self.buffer.len();
        let color: u32 = self.background_color;
        let mut buffer: Vec<u32> = Vec::new();
        let mut zbuffer: Vec<i32> = Vec::new();
        let mut i: usize = 0;
        while i < count
            invariant
                i <= count,
                buffer@ == Seq::new(i as nat, |k: int| color),
                zbuffer@ == Seq::new(i as nat, |k: int| FAR),
            decreases count - i,
        {
            buffer.push(color);
            zbuffer.push(FAR);
            i = i + 1;
        }
        *self = Framebuffer {
            width: self.width,
            height: self.height,
            buffer,
            zbuffer,
            background_color: self.background_color,
            current_color: self.current_color,
        };
    }

    /// Draws the current colour at `(x, y)` if `depth` is less than the
    /// depth the pixel holds, and then records `depth` there. The caller
    /// has already turned away what lies outside the buffer.
    pub fn point(&mut self, x: usize, y: usize, depth: i32)
        requires
            old(self)@.contains(x as int, y as int),
        ensures
            final(self)@ == old(self)@.point(x as int, y as int, depth),
    {
        proof {
            use_type_invariant(&*self);
        }
        let index: usize = self.place(x, y);
        if depth < self.zbuffer[index] {
            let color: u32 = self.current_color;
            self.buffer[index] = color;
            self.zbuffer[index] = depth;
        }
    }

    /// Stretches `texture` over the whole buffer at `depth`: every pixel is
    /// offered the colour of the texture pixel that lies in the same
    /// relative place, and takes it where `depth` is less than the depth it
    /// holds. A texture without pixels draws nothing.
    pub fn draw_stretched(&mut self, texture: &Texture, depth: i32)
        ensures
            final(self)@ == old(self)@.stretched(texture@, depth),
    {
        proof {
            use_type_invariant(&*self);
        }
        let count: usize = self.buffer.len();
        let width: usize = self.width;
        let height: usize = self.height;
        let mut i: usize = 0;
        while i < count
            invariant
                i <= count,
                count == old(self)@.pixels.len(),
                width == old(self)@.width,
                height == old(self)@.height,
                self@.valid(),
                self@ == old(self)@.drawn_upto(texture@, depth, i as nat),
                self.buffer@.len() == count,
                self.zbuffer@.len() == count,
                self.width == width,
                self.height == height,
            decreases count - i,
        {
            proof {
                lemma_place_in_rows(i as int, width as int, height as int);
            }
            let x: usize = i % width;
            let y: usize = i / width;
            let tex_x: usize = scale_index(x, width, texture.width() as usize);
            let tex_y: usize = scale_index(y, height, texture.height() as usize);
            match texture.get_pixel_checked(tex_x as u32, tex_y as u32) {
                Some(c) => {
                    let color: u32 = c.to_hex();
                    self.current_color = color;
                    if depth < self.zbuffer[i] {
                        self.buffer[i] = color;
                        self.zbuffer[i] = depth;
                    }
                },
                None => {},
            }
            i = i + 1;
        }
    }

    /// Chooses the colour that `clear` fills with.
    pub fn set_background_color(&mut self, color: u32)
        ensures
            final(self)@ == (FramebufferState { background_color: color, ..old(self)@ }),
    {
        proof {
            use_type_invariant(&*self);
        }
        self.background_color = color;
    }

    /// Chooses the colour that `point` draws with.
    pub fn set_current_color(&mut self, color: u32)
        ensures
            final(self)@ == (FramebufferState { current_color: color, ..old(self)@ }),
    {
        proof {
            use_type_invariant(&*self);
        }
        self.current_color = color;
    }
}

/// The pixel at place `i` of a buffer lies in a row and a column of it.
pub proof fn lemma_place_in_rows(i: int, width: int, height: int)
    requires
        0 <= i < width * height,
        0 <= width,
        0 <= height,
    ensures
        width > 0,
        0 <= i % width < width,
        0 <= i / width < height,
        (i / width) * width + i % width == i,
{
    if width == 0 {
        assert(width * height == 0) by (nonlinear_arith)
            requires
                width == 0,
        ;
    }
    assert(0 <= i / width < height && (i / width) * width + i % width == i && 0 <= i % width
        < width) by (nonlinear_arith)
        requires
            0 <= i < width * height,
            width > 0,
    ;
}

/// Maps the index `x` of a range of `from` places onto a range of `to`
/// places that is stretched over it.
pub fn scale_index(x: usize, from: usize, to: usize) -> (r: usize)
    requires
        x < from,
    ensures
        r == (x * to) / (from as int),
        to > 0 ==> r < to,
{
    assert(x * to <= from * to && from * to <= 0xffff_ffff_ffff_ffff * 0xffff_ffff_ffff_ffff && (x
        * to) / (from as int) <= to && (to > 0 ==> (x * to) / (from as int) < to))
        by (nonlinear_arith)
        requires
            0 <= x < from <= 0xffff_ffff_ffff_ffff,
            0 <= to <= 0xffff_ffff_ffff_ffff,
    ;
    let wide: u128 = (x as u128) * (to as u128);
    (wide / (from as u128)) as usize
}

} // verus!

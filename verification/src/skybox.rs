//! The backdrop: an image stretched over the whole screen, behind
//! everything else.

use vstd::prelude::*;
use crate::framebuffer::Framebuffer;
use crate::shaders::Uniforms;
use crate::texture::{Texture, TextureState};

verus! {

/// The depth at which the backdrop is drawn: `1000.0`.
pub const SKY_DEPTH: i32 = 100_000_000;

/// The backdrop of the scene.
pub struct Skybox {
    texture: Texture,
}

impl View for Skybox {
    type V = TextureState;

    closed spec fn view(&self) -> TextureState {
        self.texture@
    }
}

impl Skybox {
    /// Builds the backdrop from its decoded image.
    pub fn new(texture: Texture) -> (skybox: Skybox)
        ensures
            skybox@ == texture@,
    {
        Skybox { texture }
    }

    /// Draws the backdrop: the image is stretched over the whole buffer at
    /// `SKY_DEPTH`, so it shows wherever nothing nearer has been drawn.
    pub fn render(&self, framebuffer: &mut Framebuffer, uniforms: &Uniforms)
        ensures
            final(framebuffer)@ == old(framebuffer)@.stretched(self@, SKY_DEPTH),
    {
        framebuffer.draw_stretched(&self.texture, SKY_DEPTH);
    }
}

} // verus!

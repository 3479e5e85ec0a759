//! The last stage of the pipeline: shaded fragments go into the buffer.

use vstd::prelude::*;
use crate::fixed::ONE;
use crate::fragment::Fragment;
use crate::framebuffer::{Framebuffer, FramebufferState};
use crate::vec3::Vec2;

verus! {

/// The pixel in which a screen position lies; none for a position left of
/// or above the screen.
pub open spec fn pixel_of(position: Vec2) -> Option<(int, int)> {
    if position.x >= 0 && position.y >= 0 {
        Some((position.x / ONE, position.y / ONE))
    } else {
        None
    }
}

/// The buffer after one shaded fragment has been offered to it: a fragment
/// outside the buffer is dropped; any other makes its colour the current
/// colour and is drawn at its pixel with its depth.
pub open spec fn composited_one(fb: FramebufferState, fragment: Fragment) -> FramebufferState {
    match pixel_of(fragment.position) {
        Some((x, y)) => if fb.contains(x, y) {
            (FramebufferState { current_color: fragment.color.hex() as u32, ..fb }).point(
                x,
                y,
                fragment.depth,
            )
        } else {
            fb
        },
        None => fb,
    }
}

/// The buffer after a sequence of shaded fragments has been offered to it,
/// first to last.
pub open spec fn composited(fb: FramebufferState, fragments: Seq<Fragment>) -> FramebufferState
    decreases fragments.len(),
{
    if fragments.len() == 0 {
        fb
    } else {
        composited_one(composited(fb, fragments.drop_last()), fragments.last())
    }
}

/// Finds the pixel of the buffer in which a screen position lies.
pub fn locate(framebuffer: &Framebuffer, position: Vec2) -> (pixel: Option<(usize, usize)>)
    ensures
        match pixel_of(position) {
            Some((x, y)) => if framebuffer@.contains(x, y) {
                pixel == Some((x as usize, y as usize))
            } else {
                pixel.is_none()
            },
            None => pixel.is_none(),
        },
{
    if position.x < 0 || position.y < 0 {
        return None;
    }
    let x: usize = (position.x / ONE) as usize;
    let y: usize = (position.y / ONE) as usize;
    if x < framebuffer.width() && y < framebuffer.height() {
        Some((x, y))
    } else {
        None
    }
}

/// Writes shaded fragments into the buffer, in order. Each fragment carries
/// the colour that its material gave it; one whose position lies outside the
/// buffer is dropped, and any other is drawn with the depth test.
pub fn render(framebuffer: &mut Framebuffer, fragments: &[Fragment])
    ensures
        final(framebuffer)@ == composited(old(framebuffer)@, fragments@),
{
    let mut i: usize = 0;
    while i < fragments.len()
        invariant
            i <= fragments@.len(),
            framebuffer@ == composited(old(framebuffer)@, fragments@.take(i as int)),
        decreases fragments@.len() - i,
    {
        let fragment = &fragments[i];
        proof {
            assert(fragments@.take(i + 1).drop_last() == fragments@.take(i as int));
            assert(fragments@.take(i + 1).last() == fragments@[i as int]);
        }
        match locate(framebuffer, fragment.position) {
            Some((x, y)) => {
                framebuffer.set_current_color(fragment.color.to_hex());
                framebuffer.point(x, y, fragment.depth);
            },
            None => {},
        }
        i = i + 1;
    }
    proof {
        assert(fragments@.take(i as int) == fragments@);
    }
}

} // verus!

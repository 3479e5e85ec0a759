//! What holds of the transform stage and of the buffer, whatever they are
//! given.

use vstd::prelude::*;
use crate::fixed::{fixed_quotient, sat, trunc_div, ONE};
use crate::fragment::Fragment;
use crate::framebuffer::FramebufferState;
use crate::matrix::{Mat3, Mat4, Vec4};
use crate::render::{composited, composited_one};
use crate::color::{scaled_channel, Color};
use crate::fixed::fixed_mul;
use crate::shaders::{attenuation, fixed_pow, positive_part, Lighting, Uniforms};
use crate::texture::TextureState;
use crate::vec3::{fixed_of_wide, Vec3};
use crate::vertex::Vertex;

verus! {

/// A scalar times `ONE`, turned back into a scalar, is the scalar itself.
pub proof fn lemma_times_one(v: int)
    requires
        i32::MIN <= v <= i32::MAX,
    ensures
        fixed_of_wide(ONE * v) == v,
        fixed_of_wide(v * ONE) == v,
        fixed_quotient(v, ONE as int) == v,
{
    assert(ONE * v == v * ONE);
    if v >= 0 {
        assert((v * 100_000) / 100_000 == v);
    } else {
        assert(((-v) * 100_000) / 100_000 == -v);
    }
}

/// The identity matrix leaves every vector as it is.
pub proof fn law_identity_applies_as_identity(v: Vec4)
    ensures
        Mat4::unit().apply(v) == v,
{
    lemma_times_one(v.x as int);
    lemma_times_one(v.y as int);
    lemma_times_one(v.z as int);
    lemma_times_one(v.w as int);
    let m = Mat4::unit();
    assert(m.r0.x * v.x + m.r0.y * v.y + m.r0.z * v.z + m.r0.w * v.w == ONE * v.x);
    assert(m.r1.x * v.x + m.r1.y * v.y + m.r1.z * v.z + m.r1.w * v.w == ONE * v.y);
    assert(m.r2.x * v.x + m.r2.y * v.y + m.r2.z * v.z + m.r2.w * v.w == ONE * v.z);
    assert(m.r3.x * v.x + m.r3.y * v.y + m.r3.z * v.z + m.r3.w * v.w == ONE * v.w);
}

/// The identity matrix times any matrix is that matrix.
pub proof fn law_identity_times(m: Mat4)
    ensures
        Mat4::unit().times(m) == m,
{
    let (c0, c1, c2, c3) = m.columns();
    let u = Mat4::unit();
    lemma_unit_row_picks(u.r0, c0, c1, c2, c3);
    lemma_unit_row_picks(u.r1, c0, c1, c2, c3);
    lemma_unit_row_picks(u.r2, c0, c1, c2, c3);
    lemma_unit_row_picks(u.r3, c0, c1, c2, c3);
}

proof fn lemma_unit_row_picks(row: Vec4, c0: Vec4, c1: Vec4, c2: Vec4, c3: Vec4)
    requires
        row == Mat4::unit().r0 || row == Mat4::unit().r1 || row == Mat4::unit().r2 || row
            == Mat4::unit().r3,
    ensures
        row == Mat4::unit().r0 ==> row.dot(c0) == c0.x && row.dot(c1) == c1.x && row.dot(c2)
            == c2.x && row.dot(c3) == c3.x,
        row == Mat4::unit().r1 ==> row.dot(c0) == c0.y && row.dot(c1) == c1.y && row.dot(c2)
            == c2.y && row.dot(c3) == c3.y,
        row == Mat4::unit().r2 ==> row.dot(c0) == c0.z && row.dot(c1) == c1.z && row.dot(c2)
            == c2.z && row.dot(c3) == c3.z,
        row == Mat4::unit().r3 ==> row.dot(c0) == c0.w && row.dot(c1) == c1.w && row.dot(c2)
            == c2.w && row.dot(c3) == c3.w,
{
    lemma_unit_row_dot(row, c0);
    lemma_unit_row_dot(row, c1);
    lemma_unit_row_dot(row, c2);
    lemma_unit_row_dot(row, c3);
}

proof fn lemma_unit_row_dot(row: Vec4, c: Vec4)
    ensures
        row == Mat4::unit().r0 ==> row.dot(c) == c.x,
        row == Mat4::unit().r1 ==> row.dot(c) == c.y,
        row == Mat4::unit().r2 ==> row.dot(c) == c.z,
        row == Mat4::unit().r3 ==> row.dot(c) == c.w,
{
    lemma_times_one(c.x as int);
    lemma_times_one(c.y as int);
    lemma_times_one(c.z as int);
    lemma_times_one(c.w as int);
    if row == Mat4::unit().r0 {
        assert(row.x * c.x + row.y * c.y + row.z * c.z + row.w * c.w == ONE * c.x);
    }
    if row == Mat4::unit().r1 {
        assert(row.x * c.x + row.y * c.y + row.z * c.z + row.w * c.w == ONE * c.y);
    }
    if row == Mat4::unit().r2 {
        assert(row.x * c.x + row.y * c.y + row.z * c.z + row.w * c.w == ONE * c.z);
    }
    if row == Mat4::unit().r3 {
        assert(row.x * c.x + row.y * c.y + row.z * c.z + row.w * c.w == ONE * c.w);
    }
}

/// The identity matrix transforms a normal into itself.
pub proof fn law_identity_keeps_normals(n: Vec3)
    ensures
        Mat3::unit().inverse_transpose_apply(n) == n,
{
    let m = Mat3::unit();
    let one = ONE as int;
    assert(m.det() == one * one * one) by {
        assert(m.r1.y * m.r2.z - m.r1.z * m.r2.y == one * one);
        assert(m.r1.x * m.r2.z - m.r1.z * m.r2.x == 0);
        assert(m.r1.x * m.r2.y - m.r1.y * m.r2.x == 0);
    }
    let (c0, c1, c2) = m.cofactors();
    assert(c0 == (one * one, 0int, 0int));
    assert(c1 == (0int, one * one, 0int));
    assert(c2 == (0int, 0int, one * one));
    lemma_cubed_cancels(n.x as int);
    lemma_cubed_cancels(n.y as int);
    lemma_cubed_cancels(n.z as int);
    assert(one * one == 10_000_000_000 && one * one * one == 1_000_000_000_000_000);
    assert(c0.0 == 10_000_000_000 && c0.1 == 0 && c0.2 == 0);
    assert(c1.1 == 10_000_000_000 && c1.0 == 0 && c1.2 == 0);
    assert(c2.2 == 10_000_000_000 && c2.0 == 0 && c2.1 == 0);
    assert(m.det() == 1_000_000_000_000_000);
    assert((c0.0 * n.x + c0.1 * n.y + c0.2 * n.z) * ONE == n.x * 1_000_000_000_000_000);
    assert((c1.0 * n.x + c1.1 * n.y + c1.2 * n.z) * ONE == n.y * 1_000_000_000_000_000);
    assert((c2.0 * n.x + c2.1 * n.y + c2.2 * n.z) * ONE == n.z * 1_000_000_000_000_000);
}

proof fn lemma_cubed_cancels(v: int)
    requires
        i32::MIN <= v <= i32::MAX,
    ensures
        sat(trunc_div(v * 1_000_000_000_000_000, 1_000_000_000_000_000)) == v,
{
    if v >= 0 {
        assert((v * 1_000_000_000_000_000) / 1_000_000_000_000_000 == v);
    } else {
        assert(((-v) * 1_000_000_000_000_000) / 1_000_000_000_000_000 == -v);
    }
}

/// With the identity as model, view and projection matrix, the transform
/// stage is the viewport mapping alone: the screen position of a vertex is
/// the viewport matrix applied to its position, its world position is its
/// position, and its normal is unchanged.
pub proof fn law_identity_pipeline_is_viewport_mapping(vertex: Vertex, viewport: Mat4, time: u32)
    ensures
        ({
            let uniforms = Uniforms {
                model_matrix: Mat4::unit(),
                view_matrix: Mat4::unit(),
                projection_matrix: Mat4::unit(),
                viewport_matrix: viewport,
                time,
            };
            let out = uniforms.transformed(vertex);
            &&& out.transformed_position == viewport.apply(Vec4::of_point(vertex.position)).xyz()
            &&& out.world_position == vertex.position
            &&& out.transformed_normal == vertex.normal
            &&& out.position == vertex.position
            &&& out.normal == vertex.normal
            &&& out.tex_coords == vertex.tex_coords
            &&& out.color == vertex.color
        }),
{
    let uniforms = Uniforms {
        model_matrix: Mat4::unit(),
        view_matrix: Mat4::unit(),
        projection_matrix: Mat4::unit(),
        viewport_matrix: viewport,
        time,
    };
    let p = Vec4::of_point(vertex.position);
    law_identity_applies_as_identity(p);
    law_identity_times(Mat4::unit());
    assert(uniforms.world_position(vertex) == p);
    assert(uniforms.clip_position(vertex) == p);
    lemma_times_one(p.x as int);
    lemma_times_one(p.y as int);
    lemma_times_one(p.z as int);
    assert(uniforms.ndc_position(vertex) == p);
    law_identity_keeps_normals(vertex.normal);
    assert(Mat4::unit().linear_part() == Mat3::unit());
}

/// The viewport matrix of a screen maps the corners of normalized device
/// space onto the corners of the screen and its centre onto the middle:
/// `x` goes to `half_width * x + half_width`, `y` to
/// `half_height - half_height * y`, and depth stays.
pub proof fn law_viewport_maps_to_pixels(width: i32, height: i32, p: Vec3)
    requires
        width >= 0,
        height >= 0,
    ensures
        ({
            let s = Mat4::viewport(width, height).apply(Vec4::of_point(p));
            let hw = width as int / 2;
            let hh = height as int / 2;
            &&& s.x == fixed_of_wide(hw * p.x + hw * ONE)
            &&& s.y == fixed_of_wide(hh * ONE - hh * p.y)
            &&& s.z == p.z
            &&& s.w == ONE
        }),
{
    let m = Mat4::viewport(width, height);
    let v = Vec4::of_point(p);
    let hw = width as int / 2;
    let hh = height as int / 2;
    assert(m.r0.x == hw && m.r0.w == hw && m.r1.w == hh && m.r1.y == -hh);
    lemma_times_one(p.z as int);
    lemma_times_one(ONE as int);
    assert(m.r0.x * v.x + m.r0.y * v.y + m.r0.z * v.z + m.r0.w * v.w == hw * p.x + hw * ONE);
    assert(m.r1.x * v.x + m.r1.y * v.y + m.r1.z * v.z + m.r1.w * v.w == hh * ONE - hh * p.y)
        by (nonlinear_arith)
        requires
            m.r1.x == 0,
            m.r1.z == 0,
            m.r1.y == -hh,
            m.r1.w == hh,
            v.y == p.y,
            v.w == ONE,
    ;
    assert(m.r2.x * v.x + m.r2.y * v.y + m.r2.z * v.z + m.r2.w * v.w == ONE * p.z);
    assert(m.r3.x * v.x + m.r3.y * v.y + m.r3.z * v.z + m.r3.w * v.w == ONE * ONE);
}

/// Offering a colour to a pixel keeps the size of the buffer, leaves every
/// other pixel alone, and leaves the pixel with the smaller of the two
/// depths: the pixel takes the colour exactly when the new depth is less
/// than the one it holds.
pub proof fn law_nearer_wins(fb: FramebufferState, i: int, color: u32, depth: i32)
    requires
        fb.valid(),
        0 <= i < fb.pixels.len(),
    ensures
        ({
            let after = fb.offered(i, color, depth);
            &&& after.valid()
            &&& after.width == fb.width && after.height == fb.height
            &&& after.depths[i] == if depth < fb.depths[i] {
                depth
            } else {
                fb.depths[i]
            }
            &&& after.pixels[i] == if depth < fb.depths[i] {
                color
            } else {
                fb.pixels[i]
            }
            &&& forall|j: int|
                0 <= j < fb.pixels.len() && j != i ==> after.pixels[j] == fb.pixels[j]
                    && after.depths[j] == fb.depths[j]
        }),
{
}

/// Compositing fragments never moves a pixel farther away, and never
/// changes the size of the buffer or its background colour.
pub proof fn law_compositing_only_nears(fb: FramebufferState, fragments: Seq<Fragment>)
    requires
        fb.valid(),
    ensures
        ({
            let after = composited(fb, fragments);
            &&& after.valid()
            &&& after.width == fb.width && after.height == fb.height
            &&& after.background_color == fb.background_color
            &&& forall|j: int| 0 <= j < fb.depths.len() ==> after.depths[j] <= fb.depths[j]
        }),
    decreases fragments.len(),
{
    if fragments.len() > 0 {
        let before = composited(fb, fragments.drop_last());
        law_compositing_only_nears(fb, fragments.drop_last());
        let f = fragments.last();
        let after = composited_one(before, f);
        match crate::render::pixel_of(f.position) {
            Some((x, y)) => {
                if before.contains(x, y) {
                    crate::fixed::lemma_index_in_bounds(x, y, before.width as int, before.height as int);
                }
            },
            None => {},
        }
        assert(after.width == fb.width);
    }
}

/// What stretching a texture over the buffer does to each pixel: the pixel
/// at place `i` takes the colour that the texture shows there if the depth
/// given is less than the depth it holds, and keeps what it has otherwise.
pub proof fn law_stretch_per_pixel(fb: FramebufferState, texture: TextureState, depth: i32, i: int)
    requires
        fb.valid(),
        0 <= i < fb.pixels.len(),
    ensures
        ({
            let after = fb.stretched(texture, depth);
            let takes = fb.stretched_color(texture, i) is Some && depth < fb.depths[i];
            &&& after.width == fb.width && after.height == fb.height
            &&& after.pixels.len() == fb.pixels.len()
            &&& after.depths.len() == fb.depths.len()
            &&& after.pixels[i] == if takes {
                fb.stretched_color(texture, i)->Some_0.hex() as u32
            } else {
                fb.pixels[i]
            }
            &&& after.depths[i] == if takes {
                depth
            } else {
                fb.depths[i]
            }
        }),
{
    lemma_stretch_prefix(fb, texture, depth, fb.pixels.len(), i);
}

proof fn lemma_stretch_prefix(fb: FramebufferState, texture: TextureState, depth: i32, n: nat, i: int)
    requires
        fb.valid(),
        n <= fb.pixels.len(),
        0 <= i < fb.pixels.len(),
    ensures
        ({
            let after = fb.drawn_upto(texture, depth, n);
            let takes = i < n && fb.stretched_color(texture, i) is Some && depth < fb.depths[i];
            &&& after.width == fb.width && after.height == fb.height
            &&& after.pixels.len() == fb.pixels.len()
            &&& after.depths.len() == fb.depths.len()
            &&& after.pixels[i] == if takes {
                fb.stretched_color(texture, i)->Some_0.hex() as u32
            } else {
                fb.pixels[i]
            }
            &&& after.depths[i] == if takes {
                depth
            } else {
                fb.depths[i]
            }
        }),
    decreases n,
{
    if n > 0 {
        lemma_stretch_prefix(fb, texture, depth, (n - 1) as nat, i);
        lemma_stretch_prefix(fb, texture, depth, (n - 1) as nat, n - 1);
        let before = fb.drawn_upto(texture, depth, (n - 1) as nat);
        assert(before.stretched_color(texture, n - 1) == fb.stretched_color(texture, n - 1));
    }
}

/// The fixed-point product of two scalars that are not negative is not
/// negative.
pub proof fn lemma_product_not_negative(a: int, b: int)
    requires
        a >= 0,
        b >= 0,
    ensures
        fixed_mul(a, b) >= 0,
{
    assert(a * b >= 0) by (nonlinear_arith)
        requires
            a >= 0,
            b >= 0,
    ;
    assert((a * b) / 100_000 >= 0);
}

/// A power of a scalar that is not negative is not negative.
pub proof fn lemma_power_not_negative(x: int, n: nat)
    requires
        x >= 0,
    ensures
        fixed_pow(x, n) >= 0,
    decreases n,
{
    if n > 0 {
        lemma_power_not_negative(x, (n - 1) as nat);
        lemma_product_not_negative(fixed_pow(x, (n - 1) as nat), x);
    }
}

/// Distance only ever dims the diffuse light: the share that arrives lies
/// between nothing and all of it, and all of it arrives at distance zero.
pub proof fn law_attenuation_is_a_share(k: int, dist_sq: int)
    requires
        dist_sq >= 0,
    ensures
        0 <= attenuation(k, dist_sq) <= ONE,
        attenuation(k, 0) == ONE,
{
    let cube: int = 1_000_000_000_000_000;
    let top: int = 100_000_000_000_000_000_000;
    assert((ONE as int) * ONE * ONE == cube);
    assert((ONE as int) * ONE * ONE * ONE == top);
    let extra = positive_part(k) * dist_sq;
    assert(extra >= 0) by (nonlinear_arith)
        requires
            extra == positive_part(k) * dist_sq,
            positive_part(k) >= 0,
            dist_sq >= 0,
    ;
    assert(positive_part(k) * 0 == 0);
    let bottom = cube + extra;
    assert(0 <= top / bottom <= 100_000) by (nonlinear_arith)
        requires
            top == 100_000_000_000_000_000_000,
            bottom >= 1_000_000_000_000_000,
    {
        assert(top / bottom <= top / 1_000_000_000_000_000);
    }
    assert(top / cube == 100_000);
}

/// No lit surface is darker than the ambient light leaves it: with weights
/// that are not negative, the light factor is at least the ambient term,
/// and every channel of the lit colour is at least that channel under the
/// ambient light alone.
pub proof fn law_ambient_floor(model: Lighting, fragment: Fragment, light: Vec3, base: Color)
    requires
        model.ambient >= 0,
        model.diffuse_scale >= 0,
        model.specular_scale >= 0,
    ensures
        model.factor(fragment, light) >= model.ambient,
        model.lit(fragment, light, base).r >= scaled_channel(base.r as int, model.ambient as int),
        model.lit(fragment, light, base).g >= scaled_channel(base.g as int, model.ambient as int),
        model.lit(fragment, light, base).b >= scaled_channel(base.b as int, model.ambient as int),
{
    let facing = positive_part(fragment.normal.dot(Lighting::light_dir(fragment, light)));
    lemma_product_not_negative(model.diffuse_scale as int, facing);
    let (dx, dy, dz) = (
        light.x - fragment.world_position.x,
        light.y - fragment.world_position.y,
        light.z - fragment.world_position.z,
    );
    assert(dx * dx + dy * dy + dz * dz >= 0) by (nonlinear_arith);
    law_attenuation_is_a_share(model.attenuation as int, light.dist_sq(fragment.world_position));
    lemma_product_not_negative(model.diffuse(fragment, light), model.fade(fragment, light));
    let mirrored = positive_part(
        Lighting::reflect_dir(fragment, light).dot(Lighting::view_dir(fragment)),
    );
    lemma_power_not_negative(mirrored, model.shininess as nat);
    lemma_product_not_negative(
        model.specular_scale as int,
        fixed_pow(mirrored, model.shininess as nat),
    );
    let factor = model.factor(fragment, light);
    assert(factor >= model.ambient);
    lemma_channel_grows_with_light(base.r as int, model.ambient as int, factor);
    lemma_channel_grows_with_light(base.g as int, model.ambient as int, factor);
    lemma_channel_grows_with_light(base.b as int, model.ambient as int, factor);
}

/// More light never darkens a channel.
pub proof fn lemma_channel_grows_with_light(base: int, dim: int, bright: int)
    requires
        0 <= base <= 255,
        0 <= dim <= bright,
    ensures
        0 <= scaled_channel(base, dim) <= scaled_channel(base, bright) <= 255,
{
    assert(0 <= base * dim <= base * bright) by (nonlinear_arith)
        requires
            0 <= base,
            0 <= dim <= bright,
    ;
    assert((base * dim) / 100_000 <= (base * bright) / 100_000);
}

} // verus!

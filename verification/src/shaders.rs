//! The vertex stage, the material tags and the shared lighting model.
//!
//! A material function turns a fragment into a colour. What each material
//! looks like is the caller's business; what all of them share is here: the
//! tag that names a material, and the lighting function through which a
//! material passes the surface colour it has computed.

use vstd::prelude::*;
use crate::color::{scaled_channel, Color};
use crate::pipeline_laws::{law_ambient_floor, lemma_product_not_negative};
use crate::fixed::{fixed_mul, fixed_quotient, fmul, fquot, sat, saturate, trunc_div, ONE};
use crate::fragment::Fragment;
use crate::matrix::{Mat4, Vec4};
use crate::vec3::Vec3;
use crate::vertex::Vertex;

verus! {

/// What every stage of one frame reads.
#[derive(Clone, Copy, Debug, PartialEq, Eq, Structural)]
pub struct Uniforms {
    pub model_matrix: Mat4,
    pub view_matrix: Mat4,
    pub projection_matrix: Mat4,
    pub viewport_matrix: Mat4,
    /// The number of the frame.
    pub time: u32,
}

/// The material of a body: which function shades its fragments.
#[derive(Clone, Copy, Debug, PartialEq, Eq, Structural)]
pub enum ShaderType {
    Star,
    Mercury,
    Venus,
    Earth,
    Mars,
    Jupiter,
    Saturn,
    Moon,
    RockyPlanet,
    GasGiant,
    /// A material function that the caller keeps, under the given key.
    Custom(usize),
}

/// The light that reaches every surface, lit or not: `0.2`.
pub const AMBIENT: i32 = 20_000;

/// The constants of the lighting model.
#[derive(Clone, Copy, Debug, PartialEq, Eq, Structural)]
pub struct Lighting {
    /// Light that reaches every surface.
    pub ambient: i32,
    /// Weight of the diffuse term.
    pub diffuse_scale: i32,
    /// Weight of the specular term.
    pub specular_scale: i32,
    /// Exponent of the specular term.
    pub shininess: u32,
    /// How fast the diffuse light fades with the squared distance to the
    /// light; a negative value counts as zero.
    pub attenuation: i32,
}

/// `x` multiplied by itself `n` times in fixed point, rounding after each
/// multiplication; `ONE` for `n == 0`.
pub open spec fn fixed_pow(x: int, n: nat) -> int
    decreases n,
{
    if n == 0 {
        ONE as int
    } else {
        fixed_mul(fixed_pow(x, (n - 1) as nat), x)
    }
}

/// The larger of `v` and zero.
pub open spec fn positive_part(v: int) -> int {
    if v > 0 {
        v
    } else {
        0
    }
}

/// The share of the diffuse light that arrives over a squared distance of
/// `dist_sq`, given without rounding in units of `ONE` squared:
/// `1 / (1 + k * d * d)`.
pub open spec fn attenuation(k: int, dist_sq: int) -> int {
    trunc_div(
        (ONE as int) * ONE * ONE * ONE,
        (ONE as int) * ONE * ONE + positive_part(k) * dist_sq,
    )
}

impl Uniforms {
    /// The position of the vertex in world space: the model matrix applied
    /// to its position.
    pub open spec fn world_position(self, vertex: Vertex) -> Vec4 {
        self.model_matrix.apply(Vec4::of_point(vertex.position))
    }

    /// The position of the vertex in clip space: projection times view,
    /// applied to the world position.
    pub open spec fn clip_position(self, vertex: Vertex) -> Vec4 {
        self.projection_matrix.times(self.view_matrix).apply(self.world_position(vertex))
    }

    /// The position of the vertex in normalized device coordinates: the
    /// clip position divided by its `w`.
    pub open spec fn ndc_position(self, vertex: Vertex) -> Vec4 {
        let clip = self.clip_position(vertex);
        Vec4 {
            x: fixed_quotient(clip.x as int, clip.w as int) as i32,
            y: fixed_quotient(clip.y as int, clip.w as int) as i32,
            z: fixed_quotient(clip.z as int, clip.w as int) as i32,
            w: ONE,
        }
    }

    /// The position of the vertex on the screen: the viewport matrix
    /// applied to the normalized device coordinates.
    pub open spec fn screen_position(self, vertex: Vertex) -> Vec4 {
        self.viewport_matrix.apply(self.ndc_position(vertex))
    }

    /// The normal of the vertex in world space: the inverse transpose of
    /// the linear part of the model matrix applied to its normal, or the
    /// normal itself where that part has no inverse.
    pub open spec fn world_normal(self, vertex: Vertex) -> Vec3 {
        self.model_matrix.linear_part().inverse_transpose_apply(vertex.normal)
    }

    /// The vertex after the transform stage.
    pub open spec fn transformed(self, vertex: Vertex) -> Vertex {
        Vertex {
            transformed_position: self.screen_position(vertex).xyz(),
            transformed_normal: self.world_normal(vertex),
            world_position: self.world_position(vertex).xyz(),
            ..vertex
        }
    }
}

impl Lighting {
    /// The plain model: the ambient light, diffuse weight `1.5`, specular
    /// weight `0.3` with exponent 16, attenuation `0.005`.
    pub open spec fn plain() -> Lighting {
        Lighting {
            ambient: AMBIENT,
            diffuse_scale: 150_000,
            specular_scale: 30_000,
            shininess: 16,
            attenuation: 500,
        }
    }

    /// The enhanced model for a body of the given intensity: the ambient
    /// light, diffuse weight twice the intensity, specular weight half the
    /// intensity with exponent 8, attenuation `0.003`.
    pub open spec fn enhanced(intensity: i32) -> Lighting {
        Lighting {
            ambient: AMBIENT,
            diffuse_scale: fixed_mul(200_000, intensity as int) as i32,
            specular_scale: fixed_mul(50_000, intensity as int) as i32,
            shininess: 8,
            attenuation: 300,
        }
    }

    /// The unit direction from the surface point to the light.
    pub open spec fn light_dir(fragment: Fragment, light: Vec3) -> Vec3 {
        fragment.world_position.direction_to(light)
    }

    /// The unit direction from the surface point to the viewer, who stands
    /// at the world origin.
    pub open spec fn view_dir(fragment: Fragment) -> Vec3 {
        fragment.world_position.direction_to(Vec3::zero())
    }

    /// The unit direction of the light mirrored at the surface:
    /// `2 (n . l) n - l`, normalized.
    pub open spec fn reflect_dir(fragment: Fragment, light: Vec3) -> Vec3 {
        let n = fragment.normal;
        let l = Lighting::light_dir(fragment, light);
        let twice = sat(2 * n.dot(l));
        (Vec3 {
            x: sat(fixed_mul(twice, n.x as int) - l.x) as i32,
            y: sat(fixed_mul(twice, n.y as int) - l.y) as i32,
            z: sat(fixed_mul(twice, n.z as int) - l.z) as i32,
        }).normalized()
    }

    /// The diffuse term: the part of the normal that faces the light, never
    /// negative, times the diffuse weight.
    pub open spec fn diffuse(self, fragment: Fragment, light: Vec3) -> int {
        fixed_mul(
            self.diffuse_scale as int,
            positive_part(fragment.normal.dot(Lighting::light_dir(fragment, light))),
        )
    }

    /// The specular term: the part of the mirrored light that reaches the
    /// viewer, never negative, raised to the shininess, times the specular
    /// weight.
    pub open spec fn specular(self, fragment: Fragment, light: Vec3) -> int {
        fixed_mul(
            self.specular_scale as int,
            fixed_pow(
                positive_part(
                    Lighting::reflect_dir(fragment, light).dot(Lighting::view_dir(fragment)),
                ),
                self.shininess as nat,
            ),
        )
    }

    /// The share of the diffuse light that reaches the surface point.
    pub open spec fn fade(self, fragment: Fragment, light: Vec3) -> int {
        attenuation(self.attenuation as int, light.dist_sq(fragment.world_position))
    }

    /// The factor by which the light scales a surface colour: ambient plus
    /// attenuated diffuse plus specular.
    pub open spec fn factor(self, fragment: Fragment, light: Vec3) -> int {
        sat(
            self.ambient + fixed_mul(self.diffuse(fragment, light), self.fade(fragment, light))
                + self.specular(fragment, light),
        )
    }

    /// The colour of a surface of colour `base` under the light: each
    /// channel times the factor, limited to the channel range.
    pub open spec fn lit(self, fragment: Fragment, light: Vec3, base: Color) -> Color {
        base.scaled(self.factor(fragment, light))
    }

    /// Lights a surface of colour `base` at the fragment's place, with the
    /// light at `light`.
    pub fn shade(&self, fragment: &Fragment, light: Vec3, base: Color) -> (c: Color)
        ensures
            c == self.lit(*fragment, light, base),
    {
        let n = fragment.normal;
        let l = fragment.world_position.unit_toward(&light);
        let facing: i32 = n.dot_product(&l);
        let diffuse: i32 = fmul(self.diffuse_scale, positive(facing));
        let v = fragment.world_position.unit_toward(&Vec3 { x: 0, y: 0, z: 0 });
        let twice: i32 = saturate(2 * (facing as i128));
        let r = (Vec3 {
            x: saturate(fmul(twice, n.x) as i128 - l.x as i128),
            y: saturate(fmul(twice, n.y) as i128 - l.y as i128),
            z: saturate(fmul(twice, n.z) as i128 - l.z as i128),
        }).normalize();
        let specular: i32 = fmul(self.specular_scale, power(positive(r.dot_product(&v)), self.shininess));
        let fade: i32 = attenuate(self.attenuation, light.distance_sq(&fragment.world_position));
        let factor: i32 = saturate(self.ambient as i128 + fmul(diffuse, fade) as i128 + specular as i128);
        base.scale(factor)
    }
}

fn positive(v: i32) -> (r: i32)
    ensures
        r == positive_part(v as int),
{
    if v > 0 {
        v
    } else {
        0
    }
}

/// Raises `x` to the power `n` in fixed point.
pub fn power(x: i32, n: u32) -> (r: i32)
    ensures
        r == fixed_pow(x as int, n as nat),
{
    let mut r: i32 = ONE;
    let mut i: u32 = 0;
    while i < n
        invariant
            i <= n,
            r == fixed_pow(x as int, i as nat),
        decreases n - i,
    {
        r = fmul(r, x);
        i = i + 1;
    }
    r
}

/// Computes the share of the diffuse light that arrives over the squared
/// distance `dist_sq`.
pub fn attenuate(k: i32, dist_sq: u128) -> (r: i32)
    requires
        dist_sq <= 3 * 0x1_0000_0000_0000_0000,
    ensures
        r == attenuation(k as int, dist_sq as int),
        0 <= r <= ONE,
{
    let rate: u128 = if k > 0 {
        k as u128
    } else {
        0
    };
    assert(rate * dist_sq <= 0x7fff_ffff * (3 * 0x1_0000_0000_0000_0000)) by (nonlinear_arith)
        requires
            0 <= rate <= 0x7fff_ffff,
            0 <= dist_sq <= 3 * 0x1_0000_0000_0000_0000,
    ;
    let one_cubed: u128 = 1_000_000_000_000_000;
    let numerator: u128 = 100_000_000_000_000_000_000;
    assert(one_cubed == (ONE as int) * ONE * ONE);
    assert(numerator == (ONE as int) * ONE * ONE * ONE);
    let denominator: u128 = one_cubed + rate * dist_sq;
    let q: u128 = numerator / denominator;
    assert(0 <= q <= 100_000) by (nonlinear_arith)
        requires
            q == numerator / denominator,
            numerator == 100_000_000_000_000_000_000,
            denominator >= 1_000_000_000_000_000,
    {
        assert(numerator / denominator <= numerator / 1_000_000_000_000_000);
    }
    q as i32
}

/// Runs the transform stage on one vertex: it fills in the world position,
/// the screen position and the world-space normal, and leaves the rest of
/// the vertex as it is.
pub fn vertex_shader(vertex: &Vertex, uniforms: &Uniforms) -> (out: Vertex)
    ensures
        out == uniforms.transformed(*vertex),
{
    let position = Vec4 { x: vertex.position.x, y: vertex.position.y, z: vertex.position.z, w: ONE };
    let world_position = uniforms.model_matrix.transform(&position);
    let clip_position = uniforms.projection_matrix.multiply(&uniforms.view_matrix).transform(
        &world_position,
    );
    let w: i32 = clip_position.w;
    let ndc_position = Vec4 {
        x: fquot(clip_position.x, w),
        y: fquot(clip_position.y, w),
        z: fquot(clip_position.z, w),
        w: ONE,
    };
    let screen_position = uniforms.viewport_matrix.transform(&ndc_position);
    let transformed_normal = uniforms.model_matrix.to_mat3().transform_normal(&vertex.normal);
    Vertex {
        position: vertex.position,
        normal: vertex.normal,
        tex_coords: vertex.tex_coords,
        color: vertex.color,
        transformed_position: Vec3 { x: screen_position.x, y: screen_position.y, z: screen_position.z },
        transformed_normal,
        world_position: Vec3 { x: world_position.x, y: world_position.y, z: world_position.z },
    }
}

/// Runs the transform stage on every vertex of a mesh, in order.
pub fn transform_vertices(vertex_array: &[Vertex], uniforms: &Uniforms) -> (out: Vec<Vertex>)
    ensures
        out@.len() == vertex_array@.len(),
        forall|i: int| 0 <= i < out@.len() ==> out@[i] == uniforms.transformed(#[trigger] vertex_array@[i]),
{
    let mut out: Vec<Vertex> = Vec::new();
    let mut i: usize = 0;
    while i < vertex_array.len()
        invariant
            i <= vertex_array@.len(),
            out@.len() == i,
            forall|j: int| 0 <= j < i ==> out@[j] == uniforms.transformed(#[trigger] vertex_array@[j]),
        decreases vertex_array@.len() - i,
    {
        out.push(vertex_shader(&vertex_array[i], uniforms));
        i = i + 1;
    }
    out
}

/// The material of the body with the given name, if the name is one of the
/// eight known bodies; any other name gets the default material.
pub open spec fn material_of(name: Seq<char>) -> Option<ShaderType> {
    if name == "Sun"@ {
        Some(ShaderType::Star)
    } else if name == "Mercury"@ {
        Some(ShaderType::Mercury)
    } else if name == "Venus"@ {
        Some(ShaderType::Venus)
    } else if name == "Earth"@ {
        Some(ShaderType::Earth)
    } else if name == "Mars"@ {
        Some(ShaderType::Mars)
    } else if name == "Jupiter"@ {
        Some(ShaderType::Jupiter)
    } else if name == "Saturn"@ {
        Some(ShaderType::Saturn)
    } else if name == "Moon"@ {
        Some(ShaderType::Moon)
    } else {
        None
    }
}

fn same_text(a: &str, b: &str) -> (same: bool)
    ensures
        same == (a@ == b@),
{
    let left = a.to_owned();
    let right = b.to_owned();
    left == right
}

/// Looks up the material of the body with the given name; there is none
/// for a name that is not one of the eight known bodies.
pub fn planet_material(planet_type: &str) -> (material: Option<ShaderType>)
    ensures
        material == material_of(planet_type@),
{
    if same_text(planet_type, "Sun") {
        Some(ShaderType::Star)
    } else if same_text(planet_type, "Mercury") {
        Some(ShaderType::Mercury)
    } else if same_text(planet_type, "Venus") {
        Some(ShaderType::Venus)
    } else if same_text(planet_type, "Earth") {
        Some(ShaderType::Earth)
    } else if same_text(planet_type, "Mars") {
        Some(ShaderType::Mars)
    } else if same_text(planet_type, "Jupiter") {
        Some(ShaderType::Jupiter)
    } else if same_text(planet_type, "Saturn") {
        Some(ShaderType::Saturn)
    } else if same_text(planet_type, "Moon") {
        Some(ShaderType::Moon)
    } else {
        None
    }
}

/// Shades a fragment of the body with the given name: a known body with
/// its material, through `shade`, which holds the caller's material
/// functions; any other with the default material.
pub fn planet_fragment_shader<F: Fn(ShaderType, &Fragment, &Uniforms, Vec3) -> Color>(
    fragment: &Fragment,
    uniforms: &Uniforms,
    planet_type: &str,
    sun_position: Vec3,
    shade: F,
) -> (c: Color)
    requires
        forall|t: ShaderType| call_requires(shade, (t, fragment, uniforms, sun_position)),
    ensures
        match material_of(planet_type@) {
            Some(t) => call_ensures(shade, (t, fragment, uniforms, sun_position), c),
            None => c == Lighting::plain().lit(
                *fragment,
                sun_position,
                Color { r: 100, g: 100, b: 100 },
            ),
        },
{
    match planet_material(planet_type) {
        Some(t) => shade(t, fragment, uniforms, sun_position),
        None => default_shader(fragment, uniforms, sun_position),
    }
}

/// Whether no channel of `lit` is darker than the ambient light alone
/// leaves that channel of `base`.
pub open spec fn at_least_ambient(lit: Color, base: Color) -> bool {
    &&& lit.r >= scaled_channel(base.r as int, AMBIENT as int)
    &&& lit.g >= scaled_channel(base.g as int, AMBIENT as int)
    &&& lit.b >= scaled_channel(base.b as int, AMBIENT as int)
}

/// Lights a surface with the plain model. No surface comes out darker than
/// the ambient light leaves it.
pub fn apply_lighting(fragment: &Fragment, sun_position: Vec3, base_color: Color) -> (c: Color)
    ensures
        c == Lighting::plain().lit(*fragment, sun_position, base_color),
        at_least_ambient(c, base_color),
{
    let model = Lighting {
        ambient: AMBIENT,
        diffuse_scale: 150_000,
        specular_scale: 30_000,
        shininess: 16,
        attenuation: 500,
    };
    proof {
        law_ambient_floor(model, *fragment, sun_position, base_color);
    }
    model.shade(fragment, sun_position, base_color)
}

/// Lights a surface with the enhanced model, for a body of the given
/// intensity. For an intensity that is not negative, no surface comes out
/// darker than the ambient light leaves it.
pub fn apply_enhanced_lighting(
    fragment: &Fragment,
    sun_position: Vec3,
    base_color: Color,
    intensity_multiplier: i32,
) -> (c: Color)
    ensures
        c == Lighting::enhanced(intensity_multiplier).lit(*fragment, sun_position, base_color),
        intensity_multiplier >= 0 ==> at_least_ambient(c, base_color),
{
    let model = Lighting {
        ambient: AMBIENT,
        diffuse_scale: fmul(200_000, intensity_multiplier),
        specular_scale: fmul(50_000, intensity_multiplier),
        shininess: 8,
        attenuation: 300,
    };
    proof {
        if intensity_multiplier >= 0 {
            lemma_product_not_negative(200_000, intensity_multiplier as int);
            lemma_product_not_negative(50_000, intensity_multiplier as int);
            law_ambient_floor(model, *fragment, sun_position, base_color);
        }
    }
    model.shade(fragment, sun_position, base_color)
}

/// The default material: a neutral grey under the plain lighting model,
/// never darker than the ambient light leaves that grey.
pub fn default_shader(fragment: &Fragment, uniforms: &Uniforms, sun_position: Vec3) -> (c: Color)
    ensures
        c == Lighting::plain().lit(*fragment, sun_position, Color { r: 100, g: 100, b: 100 }),
        c.r >= 20 && c.g >= 20 && c.b >= 20,
{
    let base_color = Color::new(100, 100, 100);
    assert(scaled_channel(100, AMBIENT as int) == 20) by {
        assert(100 * 20_000 == 2_000_000);
        assert(2_000_000int / 100_000 == 20);
    }
    apply_lighting(fragment, sun_position, base_color)
}

/// The material of a rocky planet: a rust colour, scaled by the part of
/// the normal that faces the sun.
pub fn rocky_planet_fragment_shader(fragment: &Fragment, uniforms: &Uniforms, sun_position: Vec3) -> (c: Color)
    ensures
        c == (Color { r: 200, g: 100, b: 50 }).scaled(
            positive_part(fragment.normal.dot(Lighting::light_dir(*fragment, sun_position))),
        ),
{
    let l = fragment.world_position.unit_toward(&sun_position);
    let diffuse: i32 = positive(fragment.normal.dot_product(&l));
    let base_color = Color::new(200, 100, 50);
    base_color.scale(diffuse)
}

} // verus!

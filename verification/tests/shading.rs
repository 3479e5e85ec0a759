use orrery::color::{scale_channel, Color};
use orrery::fixed::ONE;
use orrery::fragment::Fragment;
use orrery::matrix::{create_model_matrix, create_viewport_matrix, negate, Mat3, Mat4, Rotation, SinCos, Vec4};
use orrery::shaders::{
    apply_enhanced_lighting, apply_lighting, attenuate, default_shader, planet_fragment_shader,
    planet_material, power, rocky_planet_fragment_shader, transform_vertices, vertex_shader,
    Lighting, ShaderType, Uniforms, AMBIENT,
};
use orrery::vec3::{Vec2, Vec3};
use orrery::vertex::Vertex;

fn no_rotation() -> Rotation {
    let still = SinCos { sin: 0, cos: ONE };
    Rotation { x: still, y: still, z: still }
}

fn uniforms_with(model: Mat4, projection: Mat4, viewport: Mat4) -> Uniforms {
    Uniforms {
        model_matrix: model,
        view_matrix: Mat4::identity(),
        projection_matrix: projection,
        viewport_matrix: viewport,
        time: 3,
    }
}

fn surface(world: Vec3, normal: Vec3) -> Fragment {
    Fragment::new(Vec2::new(0, 0), Color::new(0, 0, 0), 0, normal, ONE, world, Vec2::new(0, 0))
}

fn rows(m: &Mat4) -> [(i32, i32, i32, i32); 4] {
    [
        (m.r0.x, m.r0.y, m.r0.z, m.r0.w),
        (m.r1.x, m.r1.y, m.r1.z, m.r1.w),
        (m.r2.x, m.r2.y, m.r2.z, m.r2.w),
        (m.r3.x, m.r3.y, m.r3.z, m.r3.w),
    ]
}

#[test]
fn color_packs_as_rrggbb() {
    assert_eq!(Color::new(0x12, 0x34, 0x56).to_hex(), 0x123456);
    assert_eq!(Color::new(255, 255, 255).to_hex(), 0xffffff);
    assert_eq!(Color::new(0, 0, 0).to_hex(), 0);
    assert_eq!(Color::new(1, 0, 0).to_hex(), 0x010000);
}

#[test]
fn color_unpacks_what_it_packed() {
    assert_eq!(Color::from_hex(0x123456), Color::new(0x12, 0x34, 0x56));
    assert_eq!(Color::from_hex(0xff123456), Color::new(0x12, 0x34, 0x56));
    for c in [Color::new(0, 0, 0), Color::new(255, 0, 128), Color::new(7, 200, 33)] {
        assert_eq!(Color::from_hex(c.to_hex()), c);
    }
}

#[test]
fn color_from_unit_maps_onto_the_channel_range() {
    assert_eq!(Color::from_unit(0, 50_000, ONE), Color::new(0, 127, 255));
    assert_eq!(Color::from_unit(-5, 120_000, 99_999), Color::new(0, 255, 254));
    assert_eq!(Color::from_unit(392, 393, i32::MIN), Color::new(0, 1, 0));
    assert_eq!(Color::from_unit(i32::MAX, ONE + 1, ONE - 1), Color::new(255, 255, 254));
}

#[test]
fn color_scale_limits_to_the_channel_range() {
    let c = Color::new(200, 100, 50);
    assert_eq!(c.scale(ONE), c);
    assert_eq!(c.scale(50_000), Color::new(100, 50, 25));
    assert_eq!(c.scale(200_000), Color::new(255, 200, 100));
    assert_eq!(c.scale(0), Color::new(0, 0, 0));
    assert_eq!(c.scale(-ONE), Color::new(0, 0, 0));
    assert_eq!(c.scale(i32::MAX), Color::new(255, 255, 255));
    assert_eq!(c.scale(33_333), Color::new(66, 33, 16));
    assert_eq!(scale_channel(100, 99_999), 99);
}

#[test]
fn color_add_saturates_at_white() {
    assert_eq!(Color::new(200, 100, 0).add(&Color::new(100, 100, 0)), Color::new(255, 200, 0));
    assert_eq!(Color::new(255, 255, 255).add(&Color::new(255, 255, 255)), Color::new(255, 255, 255));
    assert_eq!(Color::new(1, 2, 3).add(&Color::new(0, 0, 0)), Color::new(1, 2, 3));
}

#[test]
fn power_multiplies_repeatedly() {
    assert_eq!(power(50_000, 0), ONE);
    assert_eq!(power(50_000, 1), 50_000);
    assert_eq!(power(50_000, 2), 25_000);
    assert_eq!(power(50_000, 3), 12_500);
    assert_eq!(power(-50_000, 3), -12_500);
    assert_eq!(power(120_000, 2), 144_000);
    assert_eq!(power(90_000, 8), 43_046);
    assert_eq!(power(ONE, 16), ONE);
    assert_eq!(power(0, 16), 0);
    assert_eq!(power(0, 0), ONE);
}

#[test]
fn attenuation_falls_with_distance() {
    assert_eq!(attenuate(500, 0), ONE);
    assert_eq!(attenuate(500, 1_000_000_000_000), 66_666);
    assert_eq!(attenuate(300, 1_000_000_000_000), 76_923);
    assert_eq!(attenuate(0, 1_000_000_000_000), ONE);
    assert_eq!(attenuate(-5, 1_000_000_000_000), ONE);
    assert_eq!(attenuate(500, 3 << 64), 0);
}

#[test]
fn plain_lighting_of_a_surface_facing_the_light() {
    let fragment = surface(Vec3::new(0, 0, 0), Vec3::new(0, ONE, 0));
    let lit = apply_lighting(&fragment, Vec3::new(0, 10 * ONE, 0), Color::new(100, 200, 50));
    assert_eq!(lit, Color::new(119, 239, 59));
}

#[test]
fn plain_lighting_with_a_highlight() {
    let fragment = surface(Vec3::new(0, 0, -500_000), Vec3::new(0, 0, ONE));
    let lit = apply_lighting(&fragment, Vec3::new(0, 0, 500_000), Color::new(100, 100, 100));
    assert_eq!(lit, Color::new(149, 149, 149));
}

#[test]
fn plain_lighting_leaves_unlit_surfaces_the_ambient_light() {
    let fragment = surface(Vec3::new(0, 0, 0), Vec3::new(0, -ONE, 0));
    let lit = apply_lighting(&fragment, Vec3::new(0, 10 * ONE, 0), Color::new(100, 200, 50));
    assert_eq!(lit, Color::new(20, 40, 10));
    let sideways = surface(Vec3::new(10 * ONE, 0, 0), Vec3::new(0, ONE, 0));
    let lit = apply_lighting(&sideways, Vec3::new(0, 0, 0), Color::new(100, 100, 100));
    assert_eq!(lit, Color::new(20, 20, 20));
    assert_eq!(AMBIENT, 20_000);
}

#[test]
fn no_lit_surface_is_darker_than_the_ambient_light() {
    let sun = Vec3::new(0, 0, 0);
    let base = Color::new(100, 255, 5);
    for world in [Vec3::new(ONE, 0, 0), Vec3::new(-7, 8, 9), Vec3::new(i32::MAX, i32::MIN, 0)] {
        for normal in [Vec3::new(0, ONE, 0), Vec3::new(-ONE, 0, 0), Vec3::new(i32::MIN, 3, 3), Vec3::new(0, 0, 0)] {
            let fragment = surface(world, normal);
            for lit in [apply_lighting(&fragment, sun, base), apply_enhanced_lighting(&fragment, sun, base, 140_000)] {
                assert!(lit.r >= 20 && lit.g >= 51 && lit.b >= 1, "{:?}", lit);
            }
        }
    }
}

#[test]
fn enhanced_lighting_adds_ambient_and_intensity() {
    let fragment = surface(Vec3::new(0, 0, 0), Vec3::new(0, ONE, 0));
    let sun = Vec3::new(0, 10 * ONE, 0);
    assert_eq!(apply_enhanced_lighting(&fragment, sun, Color::new(100, 200, 10), 140_000), Color::new(235, 255, 23));
    let away = surface(Vec3::new(0, 0, 0), Vec3::new(0, -ONE, 0));
    assert_eq!(apply_enhanced_lighting(&away, sun, Color::new(100, 200, 10), 140_000), Color::new(20, 40, 2));
}

#[test]
fn shade_follows_the_constants_given() {
    let fragment = surface(Vec3::new(0, 0, -500_000), Vec3::new(0, 0, ONE));
    let sun = Vec3::new(0, 0, 500_000);
    let flat = Lighting { ambient: 0, diffuse_scale: ONE, specular_scale: 0, shininess: 1, attenuation: 0 };
    assert_eq!(flat.shade(&fragment, sun, Color::new(100, 50, 200)), Color::new(100, 50, 200));
    let glossy = Lighting { ambient: 0, diffuse_scale: 0, specular_scale: 50_000, shininess: 4, attenuation: 0 };
    assert_eq!(glossy.shade(&fragment, sun, Color::new(100, 50, 200)), Color::new(50, 25, 100));
    let dim = Lighting { ambient: 10_000, diffuse_scale: 0, specular_scale: 0, shininess: 0, attenuation: 500 };
    assert_eq!(dim.shade(&fragment, sun, Color::new(100, 50, 200)), Color::new(10, 5, 20));
    let negative = Lighting { ambient: -ONE, diffuse_scale: 0, specular_scale: 0, shininess: 0, attenuation: 0 };
    assert_eq!(negative.shade(&fragment, sun, Color::new(100, 50, 200)), Color::new(0, 0, 0));
}

#[test]
fn lighting_at_the_light_itself_does_not_fail() {
    let fragment = surface(Vec3::new(7, 7, 7), Vec3::new(0, ONE, 0));
    let lit = apply_enhanced_lighting(&fragment, Vec3::new(7, 7, 7), Color::new(100, 100, 100), ONE);
    assert_eq!(lit, Color::new(20, 20, 20));
    let far = surface(Vec3::new(i32::MIN, i32::MIN, i32::MIN), Vec3::new(i32::MAX, i32::MAX, i32::MAX));
    let lit = apply_lighting(&far, Vec3::new(i32::MAX, i32::MAX, i32::MAX), Color::new(255, 255, 255));
    assert!(lit.r <= 255);
}

#[test]
fn default_shader_is_lit_grey() {
    let fragment = surface(Vec3::new(0, 0, 0), Vec3::new(0, ONE, 0));
    let uniforms = uniforms_with(Mat4::identity(), Mat4::identity(), Mat4::identity());
    assert_eq!(default_shader(&fragment, &uniforms, Vec3::new(0, 10 * ONE, 0)), Color::new(119, 119, 119));
}

#[test]
fn rocky_planet_is_rust_scaled_by_the_light() {
    let uniforms = uniforms_with(Mat4::identity(), Mat4::identity(), Mat4::identity());
    let sun = Vec3::new(0, 10 * ONE, 0);
    let facing = surface(Vec3::new(0, 0, 0), Vec3::new(0, ONE, 0));
    assert_eq!(rocky_planet_fragment_shader(&facing, &uniforms, sun), Color::new(200, 100, 50));
    let half = surface(Vec3::new(0, 0, 0), Vec3::new(0, 50_000, 0));
    assert_eq!(rocky_planet_fragment_shader(&half, &uniforms, sun), Color::new(100, 50, 25));
    let away = surface(Vec3::new(0, 0, 0), Vec3::new(0, -ONE, 0));
    assert_eq!(rocky_planet_fragment_shader(&away, &uniforms, sun), Color::new(0, 0, 0));
}

#[test]
fn planet_material_knows_the_eight_bodies() {
    assert_eq!(planet_material("Sun"), Some(ShaderType::Star));
    assert_eq!(planet_material("Mercury"), Some(ShaderType::Mercury));
    assert_eq!(planet_material("Venus"), Some(ShaderType::Venus));
    assert_eq!(planet_material("Earth"), Some(ShaderType::Earth));
    assert_eq!(planet_material("Mars"), Some(ShaderType::Mars));
    assert_eq!(planet_material("Jupiter"), Some(ShaderType::Jupiter));
    assert_eq!(planet_material("Saturn"), Some(ShaderType::Saturn));
    assert_eq!(planet_material("Moon"), Some(ShaderType::Moon));
}

#[test]
fn planet_material_has_none_for_other_names() {
    assert_eq!(planet_material("Pluto"), None);
    assert_eq!(planet_material(""), None);
    assert_eq!(planet_material("earth"), None);
    assert_eq!(planet_material("Earth "), None);
    assert_eq!(planet_material("Sunny"), None);
}

#[test]
fn planet_fragment_shader_dispatches_on_the_name() {
    let fragment = surface(Vec3::new(0, 0, 0), Vec3::new(0, ONE, 0));
    let uniforms = uniforms_with(Mat4::identity(), Mat4::identity(), Mat4::identity());
    let sun = Vec3::new(0, 10 * ONE, 0);
    let table = |material: ShaderType, _: &Fragment, u: &Uniforms, _: Vec3| match material {
        ShaderType::Earth => Color::new(0, 0, 200),
        ShaderType::Mars => Color::new(200, 0, u.time as u8),
        _ => Color::new(1, 1, 1),
    };
    assert_eq!(planet_fragment_shader(&fragment, &uniforms, "Earth", sun, table), Color::new(0, 0, 200));
    assert_eq!(planet_fragment_shader(&fragment, &uniforms, "Mars", sun, table), Color::new(200, 0, 3));
    assert_eq!(planet_fragment_shader(&fragment, &uniforms, "Sun", sun, table), Color::new(1, 1, 1));
    assert_eq!(planet_fragment_shader(&fragment, &uniforms, "Ceres", sun, table), Color::new(119, 119, 119));
}

#[test]
fn identity_matrices_leave_vectors_alone() {
    let v = Vec4::new(1, -2, 3, ONE);
    assert_eq!(Mat4::identity().transform(&v), v);
    let n = Vec3::new(i32::MAX, i32::MIN, 5);
    assert_eq!(Mat3::identity().transform(&n), n);
    assert_eq!(Mat3::identity().transform_normal(&n), n);
    assert_eq!(Mat4::identity().to_mat3(), Mat3::identity());
    assert_eq!(Mat4::identity().multiply(&Mat4::identity()), Mat4::identity());
}

#[test]
fn negate_saturates() {
    assert_eq!(negate(5), -5);
    assert_eq!(negate(-5), 5);
    assert_eq!(negate(0), 0);
    assert_eq!(negate(i32::MIN), i32::MAX);
}

#[test]
fn viewport_matrix_of_a_screen() {
    let m = create_viewport_matrix(800 * ONE, 600 * ONE);
    assert_eq!(
        rows(&m),
        [(40_000_000, 0, 0, 40_000_000), (0, -30_000_000, 0, 30_000_000), (0, 0, ONE, 0), (0, 0, 0, ONE)]
    );
    assert_eq!(m.transform(&Vec4::new(-ONE, ONE, 0, ONE)), Vec4::new(0, 0, 0, ONE));
    assert_eq!(m.transform(&Vec4::new(ONE, -ONE, 0, ONE)), Vec4::new(80_000_000, 60_000_000, 0, ONE));
    assert_eq!(m.transform(&Vec4::new(0, 0, 50_000, ONE)), Vec4::new(40_000_000, 30_000_000, 50_000, ONE));
}

#[test]
fn model_matrix_of_a_scaled_and_moved_body() {
    let m = create_model_matrix(Vec3::new(ONE, 200_000, 300_000), 200_000, &no_rotation());
    assert_eq!(
        rows(&m),
        [(200_000, 0, 0, 100_000), (0, 200_000, 0, 200_000), (0, 0, 200_000, 300_000), (0, 0, 0, ONE)]
    );
}

#[test]
fn model_matrix_of_a_quarter_turn() {
    let still = SinCos { sin: 0, cos: ONE };
    let quarter = SinCos { sin: ONE, cos: 0 };
    let m = create_model_matrix(Vec3::new(0, 0, 0), ONE, &Rotation { x: still, y: quarter, z: still });
    assert_eq!(rows(&m), [(0, 0, ONE, 0), (0, ONE, 0, 0), (-ONE, 0, 0, 0), (0, 0, 0, ONE)]);
    assert_eq!(m.transform(&Vec4::new(ONE, 0, 0, ONE)), Vec4::new(0, 0, -ONE, ONE));
}

#[test]
fn model_matrix_of_three_rotations() {
    let rotation = Rotation {
        x: SinCos { sin: 50_000, cos: 86_603 },
        y: SinCos { sin: 70_711, cos: 70_711 },
        z: SinCos { sin: -50_000, cos: 86_603 },
    };
    let m = create_model_matrix(Vec3::new(ONE, 0, 0), 150_000, &rotation);
    assert_eq!(
        rows(&m),
        [
            (91_855, 110_880, 42_049, 100_000),
            (-53_032, 85_984, -110_878, 0),
            (-106_066, 53_032, 91_855, 0),
            (0, 0, 0, ONE)
        ]
    );
}

#[test]
fn identity_pipeline_is_the_viewport_mapping() {
    let viewport = create_viewport_matrix(800 * ONE, 600 * ONE);
    let uniforms = uniforms_with(Mat4::identity(), Mat4::identity(), viewport);
    let vertex = Vertex::new(Vec3::new(50_000, -50_000, 25_000), Vec3::new(0, ONE, 0), Vec2::new(1, 2));
    let out = vertex_shader(&vertex, &uniforms);
    assert_eq!(out.transformed_position, Vec3::new(60_000_000, 45_000_000, 25_000));
    assert_eq!(out.world_position, Vec3::new(50_000, -50_000, 25_000));
    assert_eq!(out.transformed_normal, Vec3::new(0, ONE, 0));
    assert_eq!(out.position, vertex.position);
    assert_eq!(out.normal, vertex.normal);
    assert_eq!(out.tex_coords, vertex.tex_coords);
    assert_eq!(out.color, vertex.color);
    let expected = viewport.transform(&Vec4::new(50_000, -50_000, 25_000, ONE));
    assert_eq!(out.transformed_position, Vec3::new(expected.x, expected.y, expected.z));
}

#[test]
fn all_identity_pipeline_changes_nothing() {
    let uniforms = uniforms_with(Mat4::identity(), Mat4::identity(), Mat4::identity());
    for p in [Vec3::new(0, 0, 0), Vec3::new(i32::MAX, i32::MIN, 1), Vec3::new(-77, 12_345_678, ONE)] {
        let out = vertex_shader(&Vertex::new(p, p, Vec2::new(0, 0)), &uniforms);
        assert_eq!(out.transformed_position, p);
        assert_eq!(out.world_position, p);
        assert_eq!(out.transformed_normal, p);
    }
}

#[test]
fn vertex_shader_applies_the_model_matrix() {
    let model = create_model_matrix(Vec3::new(ONE, 200_000, 300_000), 200_000, &no_rotation());
    let viewport = create_viewport_matrix(800 * ONE, 600 * ONE);
    let uniforms = uniforms_with(model, Mat4::identity(), viewport);
    let out = vertex_shader(&Vertex::new(Vec3::new(50_000, 0, 0), Vec3::new(0, ONE, 0), Vec2::new(0, 0)), &uniforms);
    assert_eq!(out.world_position, Vec3::new(200_000, 200_000, 300_000));
    assert_eq!(out.transformed_position, Vec3::new(120_000_000, -30_000_000, 300_000));
    assert_eq!(out.transformed_normal, Vec3::new(0, 50_000, 0));
}

#[test]
fn vertex_shader_divides_by_w() {
    let projection = Mat4 {
        r0: Vec4::new(ONE, 0, 0, 0),
        r1: Vec4::new(0, ONE, 0, 0),
        r2: Vec4::new(0, 0, ONE, 0),
        r3: Vec4::new(0, 0, ONE, 0),
    };
    let viewport = create_viewport_matrix(800 * ONE, 600 * ONE);
    let uniforms = uniforms_with(Mat4::identity(), projection, viewport);
    let out = vertex_shader(&Vertex::new(Vec3::new(ONE, ONE, 200_000), Vec3::new(0, ONE, 0), Vec2::new(0, 0)), &uniforms);
    assert_eq!(out.transformed_position, Vec3::new(60_000_000, 15_000_000, ONE));
    let flat = vertex_shader(&Vertex::new(Vec3::new(ONE, -ONE, 0), Vec3::new(0, ONE, 0), Vec2::new(0, 0)), &uniforms);
    assert_eq!(flat.transformed_position, Vec3::new(i32::MAX, i32::MAX, 0));
    assert_eq!(flat.world_position, Vec3::new(ONE, -ONE, 0));
}

#[test]
fn normals_go_through_the_inverse_transpose() {
    let stretch = Mat4 {
        r0: Vec4::new(200_000, 0, 0, 0),
        r1: Vec4::new(0, ONE, 0, 0),
        r2: Vec4::new(0, 0, 50_000, 0),
        r3: Vec4::new(0, 0, 0, ONE),
    };
    let uniforms = uniforms_with(stretch, Mat4::identity(), Mat4::identity());
    let out = vertex_shader(&Vertex::new(Vec3::new(ONE, ONE, ONE), Vec3::new(ONE, ONE, ONE), Vec2::new(0, 0)), &uniforms);
    assert_eq!(out.world_position, Vec3::new(200_000, ONE, 50_000));
    assert_eq!(out.transformed_normal, Vec3::new(50_000, ONE, 200_000));
    assert_eq!(stretch.to_mat3().determinant(), 1_000_000_000_000_000);
}

#[test]
fn singular_model_matrix_leaves_the_normal() {
    let flat = Mat4 {
        r0: Vec4::new(ONE, 0, 0, 0),
        r1: Vec4::new(ONE, 0, 0, 0),
        r2: Vec4::new(0, 0, ONE, 0),
        r3: Vec4::new(0, 0, 0, ONE),
    };
    assert_eq!(flat.to_mat3().determinant(), 0);
    let uniforms = uniforms_with(flat, Mat4::identity(), Mat4::identity());
    let out = vertex_shader(&Vertex::new(Vec3::new(ONE, ONE, ONE), Vec3::new(1, 2, 3), Vec2::new(0, 0)), &uniforms);
    assert_eq!(out.transformed_normal, Vec3::new(1, 2, 3));
    assert_eq!(out.world_position, Vec3::new(ONE, ONE, ONE));
}

#[test]
fn vertex_shader_with_a_general_model() {
    let rotation = Rotation {
        x: SinCos { sin: 50_000, cos: 86_603 },
        y: SinCos { sin: 70_711, cos: 70_711 },
        z: SinCos { sin: -50_000, cos: 86_603 },
    };
    let model = create_model_matrix(Vec3::new(ONE, 0, 0), 150_000, &rotation);
    let uniforms = uniforms_with(model, Mat4::identity(), Mat4::identity());
    let vertex = Vertex::new(Vec3::new(ONE, 200_000, -300_000), Vec3::new(30_000, 40_000, 50_000), Vec2::new(0, 0));
    let out = vertex_shader(&vertex, &uniforms);
    assert_eq!(out.world_position, Vec3::new(287_468, 451_570, -275_567));
    assert_eq!(out.transformed_position, Vec3::new(287_468, 451_570, -275_567));
    assert_eq!(out.transformed_normal, Vec3::new(41_304, -16_425, 15_698));
}

#[test]
fn transform_vertices_runs_the_stage_on_each() {
    let viewport = create_viewport_matrix(800 * ONE, 600 * ONE);
    let uniforms = uniforms_with(Mat4::identity(), Mat4::identity(), viewport);
    let mesh = [
        Vertex::new(Vec3::new(-ONE, ONE, 0), Vec3::new(0, 0, ONE), Vec2::new(0, 0)),
        Vertex::new(Vec3::new(ONE, -ONE, 0), Vec3::new(0, 0, ONE), Vec2::new(ONE, ONE)),
        Vertex::new(Vec3::new(0, 0, 0), Vec3::new(0, 0, ONE), Vec2::new(50_000, 50_000)),
    ];
    let out = transform_vertices(&mesh, &uniforms);
    assert_eq!(out.len(), 3);
    assert_eq!(out[0].transformed_position, Vec3::new(0, 0, 0));
    assert_eq!(out[1].transformed_position, Vec3::new(80_000_000, 60_000_000, 0));
    assert_eq!(out[2].transformed_position, Vec3::new(40_000_000, 30_000_000, 0));
    for (before, after) in mesh.iter().zip(out.iter()) {
        assert_eq!(*after, vertex_shader(before, &uniforms));
    }
    assert!(transform_vertices(&[], &uniforms).is_empty());
}

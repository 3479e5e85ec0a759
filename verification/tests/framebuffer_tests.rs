use orrery::color::Color;
use orrery::fragment::Fragment;
use orrery::framebuffer::{scale_index, Framebuffer, FAR};
use orrery::matrix::Mat4;
use orrery::render::{locate, render};
use orrery::shaders::Uniforms;
use orrery::skybox::{Skybox, SKY_DEPTH};
use orrery::texture::Texture;
use orrery::vec3::{Vec2, Vec3};

fn fragment_at(x: i32, y: i32, depth: i32, color: Color) -> Fragment {
    Fragment::new(
        Vec2::new(x, y),
        color,
        depth,
        Vec3::new(0, 0, 100_000),
        100_000,
        Vec3::new(0, 0, 0),
        Vec2::new(0, 0),
    )
}

fn frame_uniforms() -> Uniforms {
    Uniforms {
        model_matrix: Mat4::identity(),
        view_matrix: Mat4::identity(),
        projection_matrix: Mat4::identity(),
        viewport_matrix: Mat4::identity(),
        time: 0,
    }
}

#[test]
fn new_buffer_is_black_and_far() {
    let fb = Framebuffer::new(4, 3);
    assert_eq!(fb.width(), 4);
    assert_eq!(fb.height(), 3);
    assert_eq!(fb.buffer().len(), 12);
    assert!(fb.buffer().iter().all(|&p| p == 0));
    assert_eq!(fb.depth(3, 2), Some(FAR));
    assert_eq!(fb.pixel(0, 0), Some(0));
}

#[test]
fn empty_buffers_are_allowed() {
    let mut fb = Framebuffer::new(0, 7);
    assert_eq!(fb.buffer().len(), 0);
    assert_eq!(fb.pixel(0, 0), None);
    fb.clear();
    assert_eq!(fb.buffer().len(), 0);
}

#[test]
fn pixel_and_depth_are_none_outside() {
    let fb = Framebuffer::new(4, 3);
    assert_eq!(fb.pixel(4, 0), None);
    assert_eq!(fb.pixel(0, 3), None);
    assert_eq!(fb.depth(4, 2), None);
    assert_eq!(fb.depth(usize::MAX, usize::MAX), None);
}

#[test]
fn point_draws_the_current_colour() {
    let mut fb = Framebuffer::new(4, 3);
    fb.set_current_color(0xff0000);
    fb.point(1, 2, 500);
    assert_eq!(fb.pixel(1, 2), Some(0xff0000));
    assert_eq!(fb.depth(1, 2), Some(500));
    assert_eq!(fb.buffer()[2 * 4 + 1], 0xff0000);
    assert_eq!(fb.buffer().iter().filter(|&&p| p != 0).count(), 1);
}

#[test]
fn nearer_fragment_wins() {
    let mut fb = Framebuffer::new(4, 3);
    fb.set_current_color(0xff0000);
    fb.point(1, 2, 500);
    fb.set_current_color(0x00ff00);
    fb.point(1, 2, 700);
    assert_eq!(fb.pixel(1, 2), Some(0xff0000));
    assert_eq!(fb.depth(1, 2), Some(500));
    fb.point(1, 2, 500);
    assert_eq!(fb.pixel(1, 2), Some(0xff0000));
    fb.point(1, 2, 499);
    assert_eq!(fb.pixel(1, 2), Some(0x00ff00));
    assert_eq!(fb.depth(1, 2), Some(499));
}

#[test]
fn nothing_is_drawn_at_the_far_depth() {
    let mut fb = Framebuffer::new(2, 2);
    fb.set_current_color(0x123456);
    fb.point(0, 0, FAR);
    assert_eq!(fb.pixel(0, 0), Some(0));
    fb.point(0, 0, FAR - 1);
    assert_eq!(fb.pixel(0, 0), Some(0x123456));
    fb.point(1, 1, i32::MIN);
    assert_eq!(fb.depth(1, 1), Some(i32::MIN));
}

#[test]
fn clear_fills_with_the_background() {
    let mut fb = Framebuffer::new(3, 2);
    fb.set_background_color(0x000010);
    fb.set_current_color(0xabcdef);
    fb.point(2, 1, 5);
    fb.clear();
    assert!(fb.buffer().iter().all(|&p| p == 0x000010));
    assert_eq!(fb.depth(2, 1), Some(FAR));
    fb.point(2, 1, 5);
    assert_eq!(fb.pixel(2, 1), Some(0xabcdef));
}

#[test]
fn locate_finds_the_pixel_of_a_position() {
    let fb = Framebuffer::new(4, 3);
    assert_eq!(locate(&fb, Vec2::new(0, 0)), Some((0, 0)));
    assert_eq!(locate(&fb, Vec2::new(399_999, 299_999)), Some((3, 2)));
    assert_eq!(locate(&fb, Vec2::new(150_000, 250_000)), Some((1, 2)));
    assert_eq!(locate(&fb, Vec2::new(400_000, 0)), None);
    assert_eq!(locate(&fb, Vec2::new(0, 300_000)), None);
    assert_eq!(locate(&fb, Vec2::new(-1, 0)), None);
    assert_eq!(locate(&fb, Vec2::new(0, -1)), None);
    assert_eq!(locate(&fb, Vec2::new(i32::MAX, i32::MAX)), None);
}

#[test]
fn render_drops_fragments_outside_the_buffer() {
    let mut fb = Framebuffer::new(4, 3);
    let red = Color::new(255, 0, 0);
    let fragments = [
        fragment_at(-100_000, 100_000, 10, red),
        fragment_at(400_000, 100_000, 10, red),
        fragment_at(100_000, 300_000, 10, red),
        fragment_at(100_000, -1, 10, red),
    ];
    render(&mut fb, &fragments);
    assert!(fb.buffer().iter().all(|&p| p == 0));
}

#[test]
fn render_composites_with_the_depth_test() {
    let mut fb = Framebuffer::new(4, 3);
    let fragments = [
        fragment_at(100_000, 100_000, 50, Color::new(255, 0, 0)),
        fragment_at(150_000, 199_999, 40, Color::new(0, 255, 0)),
        fragment_at(100_000, 100_000, 45, Color::new(0, 0, 255)),
        fragment_at(300_000, 200_000, 7, Color::new(1, 2, 3)),
    ];
    render(&mut fb, &fragments);
    assert_eq!(fb.pixel(1, 1), Some(0x00ff00));
    assert_eq!(fb.depth(1, 1), Some(40));
    assert_eq!(fb.pixel(3, 2), Some(0x010203));
    assert_eq!(fb.buffer().iter().filter(|&&p| p != 0).count(), 2);
}

#[test]
fn render_of_nothing_changes_nothing() {
    let mut fb = Framebuffer::new(2, 2);
    fb.set_current_color(0x777777);
    render(&mut fb, &[]);
    fb.point(0, 0, 1);
    assert_eq!(fb.pixel(0, 0), Some(0x777777));
}

fn rgba(colors: &[(u8, u8, u8)]) -> Vec<u8> {
    colors.iter().flat_map(|&(r, g, b)| [r, g, b, 255]).collect()
}

#[test]
fn texture_needs_four_bytes_per_pixel() {
    assert!(Texture::new(2, 2, vec![9; 16]).is_some());
    assert!(Texture::new(2, 2, vec![9; 15]).is_none());
    assert!(Texture::new(2, 2, vec![9; 17]).is_some());
    assert!(Texture::new(0, 5, vec![]).is_some());
    assert!(Texture::new(5, 0, vec![]).is_some());
    assert!(Texture::new(1, 1, vec![]).is_none());
    assert!(Texture::new(u32::MAX, u32::MAX, vec![9; 8]).is_none());
}

#[test]
fn texture_reports_its_size() {
    let texture = Texture::new(3, 2, vec![0; 24]).unwrap();
    assert_eq!(texture.width(), 3);
    assert_eq!(texture.height(), 2);
    let empty = Texture::new(0, 7, vec![]).unwrap();
    assert_eq!((empty.width(), empty.height()), (0, 7));
}

#[test]
fn texture_lookup_is_checked() {
    let bytes = rgba(&[(1, 10, 100), (2, 20, 200), (3, 30, 0), (4, 40, 0), (5, 50, 0), (6, 60, 0)]);
    let texture = Texture::new(3, 2, bytes).unwrap();
    assert_eq!(texture.get_pixel_checked(0, 0), Some(Color::new(1, 10, 100)));
    assert_eq!(texture.get_pixel_checked(1, 0), Some(Color::new(2, 20, 200)));
    assert_eq!(texture.get_pixel_checked(2, 0), Some(Color::new(3, 30, 0)));
    assert_eq!(texture.get_pixel_checked(0, 1), Some(Color::new(4, 40, 0)));
    assert_eq!(texture.get_pixel_checked(2, 1), Some(Color::new(6, 60, 0)));
    assert_eq!(texture.get_pixel_checked(3, 0), None);
    assert_eq!(texture.get_pixel_checked(0, 2), None);
    assert_eq!(texture.get_pixel_checked(u32::MAX, 0), None);
    assert_eq!(texture.get_pixel_checked(0, u32::MAX), None);
    assert_eq!(texture.get_pixel_checked(u32::MAX, u32::MAX), None);
}

#[test]
fn texture_lookup_drops_the_alpha_byte() {
    let texture = Texture::new(1, 1, vec![7, 8, 9, 0]).unwrap();
    assert_eq!(texture.get_pixel_checked(0, 0), Some(Color::new(7, 8, 9)));
}

#[test]
fn texture_with_spare_bytes_reads_them_below_its_height() {
    let bytes = rgba(&[(1, 1, 1), (2, 2, 2), (3, 3, 3), (4, 4, 4)]);
    let spare = [5, 6, 7];
    let texture = Texture::new(2, 1, [bytes, spare.to_vec()].concat()).unwrap();
    assert_eq!(texture.height(), 1);
    assert_eq!(texture.get_pixel_checked(1, 0), Some(Color::new(2, 2, 2)));
    assert_eq!(texture.get_pixel_checked(0, 1), Some(Color::new(3, 3, 3)));
    assert_eq!(texture.get_pixel_checked(1, 1), Some(Color::new(4, 4, 4)));
    assert_eq!(texture.get_pixel_checked(0, 2), None);
    assert_eq!(texture.get_pixel_checked(2, 0), None);
}

#[test]
fn scale_index_stretches_a_range() {
    assert_eq!(scale_index(0, 4, 2), 0);
    assert_eq!(scale_index(1, 4, 2), 0);
    assert_eq!(scale_index(2, 4, 2), 1);
    assert_eq!(scale_index(3, 4, 2), 1);
    assert_eq!(scale_index(799, 800, 1920), 1917);
    assert_eq!(scale_index(5, 6, 0), 0);
    assert_eq!(scale_index(usize::MAX - 1, usize::MAX, usize::MAX), usize::MAX - 1);
}

#[test]
fn skybox_fills_the_buffer_behind_everything() {
    let pixels = rgba(&[(1, 1, 1), (2, 2, 2), (3, 3, 3), (4, 4, 4)]);
    let skybox = Skybox::new(Texture::new(2, 2, pixels).unwrap());
    let mut fb = Framebuffer::new(4, 2);
    fb.set_current_color(0xff0000);
    fb.point(0, 0, 10);
    skybox.render(&mut fb, &frame_uniforms());
    assert_eq!(fb.buffer().as_slice(), &[0xff0000, 0x010101, 0x020202, 0x020202, 0x030303, 0x030303, 0x040404, 0x040404]);
    assert_eq!(fb.depth(0, 0), Some(10));
    assert_eq!(fb.depth(1, 0), Some(SKY_DEPTH));
    fb.point(1, 0, SKY_DEPTH);
    assert_eq!(fb.pixel(1, 0), Some(0x010101));
    fb.point(1, 0, SKY_DEPTH - 1);
    assert_eq!(fb.pixel(1, 0), Some(0x040404));
}

#[test]
fn stretched_texture_in_front_covers_everything() {
    let texture = Texture::new(1, 1, rgba(&[(10, 20, 30)])).unwrap();
    let mut fb = Framebuffer::new(3, 3);
    fb.set_current_color(0xffffff);
    fb.point(1, 1, 1);
    fb.draw_stretched(&texture, 0);
    assert!(fb.buffer().iter().all(|&p| p == 0x0a141e));
    assert_eq!(fb.depth(1, 1), Some(0));
}

#[test]
fn empty_texture_draws_nothing() {
    let texture = Texture::new(0, 0, vec![]).unwrap();
    let mut fb = Framebuffer::new(2, 2);
    fb.set_current_color(0x555555);
    fb.draw_stretched(&texture, 0);
    assert!(fb.buffer().iter().all(|&p| p == 0));
    fb.point(0, 0, 1);
    assert_eq!(fb.pixel(0, 0), Some(0x555555));
}

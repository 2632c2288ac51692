use glam::{Mat4, Vec3};
use scene_renderer::camera::Camera;

fn point(bits: [u32; 3]) -> Vec3 {
    Vec3::new(f32::from_bits(bits[0]), f32::from_bits(bits[1]), f32::from_bits(bits[2]))
}

fn view_of(camera: &Camera) -> Mat4 {
    Mat4::look_at_rh(point(camera.eye), point(camera.center), point(camera.up))
}

fn view_projection_of(camera: &Camera) -> Mat4 {
    let projection = Mat4::perspective_rh(
        f32::from_bits(camera.fov),
        camera.aspect_width as f32 / camera.aspect_height as f32,
        f32::from_bits(camera.z_near),
        f32::from_bits(camera.z_far),
    );
    projection * view_of(camera)
}

fn looks_at_its_center(camera: &Camera) {
    assert!(camera.is_valid());
    let center = point(camera.center);
    assert!(view_of(camera).transform_point3(center).z() <= 0.0);
    let clip = view_projection_of(camera) * center.extend(1.0);
    assert!(clip.w() >= 0.0);
    assert!(clip.x().abs() <= 1e-4 * clip.w());
    assert!(clip.y().abs() <= 1e-4 * clip.w());
}

#[test]
fn fixed_camera_sees_its_center_ahead() {
    looks_at_its_center(&Camera::fixed(800, 600));
    looks_at_its_center(&Camera::fixed(1, 1000));
    looks_at_its_center(&Camera::fixed(1920, 1));
}

#[test]
fn other_cameras_see_their_centers_ahead() {
    let mut camera = Camera::fixed(640, 480);
    camera.eye = [5.0f32.to_bits(), (-2.0f32).to_bits(), 0.5f32.to_bits()];
    camera.center = [(-1.0f32).to_bits(), 3.0f32.to_bits(), 7.0f32.to_bits()];
    camera.up = [0.0f32.to_bits(), 0.0f32.to_bits(), 1.0f32.to_bits()];
    camera.fov = 2.5f32.to_bits();
    camera.z_near = 0.01f32.to_bits();
    camera.z_far = 5.0f32.to_bits();
    looks_at_its_center(&camera);
    camera.fov = 0.05f32.to_bits();
    camera.z_near = 1.0f32.to_bits();
    camera.z_far = 1000.0f32.to_bits();
    looks_at_its_center(&camera);
}

#[test]
fn aspect_ratio_is_width_over_height() {
    let camera = Camera::fixed(800, 600);
    let ratio = camera.aspect_width as f32 / camera.aspect_height as f32;
    assert_eq!(ratio, 800.0f32 / 600.0f32);
}

#[test]
fn order_of_positive_patterns_is_the_order_of_values() {
    let values = [f32::MIN_POSITIVE, 0.01f32, 0.1, 0.7, 1.0, 2.0, 99.5, 100.0, 3.0e38];
    for pair in values.windows(2) {
        assert!(pair[0] < pair[1]);
        assert!(pair[0].to_bits() < pair[1].to_bits());
    }
}

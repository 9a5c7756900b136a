use sprite_render::Camera2D;
use sprite_render::Rect;
use sprite_render::Vec2;
use sprite_render::FX_ONE;

fn px(v: i64) -> i64 {
    v * FX_ONE
}

#[test]
fn new_camera_defaults() {
    let cam = Camera2D::new(Vec2::new(px(800), px(600)));
    assert_eq!(cam.pixel_zoom, 1);
    assert_eq!(cam.get_scale(), Vec2::new(FX_ONE, FX_ONE));
    assert_eq!(cam.get_translation(), Vec2::new(0, 0));
    assert_eq!(cam.viewport_origin, Vec2::new(FX_ONE / 2, FX_ONE / 2));
    assert!(cam.scale_animator.if_finished());
}

#[test]
fn zoom_in_doubles_and_animates() {
    // Example scenario: pixel_zoom 1, one zoom_in, then >= 500 ms elapse.
    let mut cam = Camera2D::new(Vec2::new(px(800), px(600)));
    assert!(cam.if_can_zoom_in());
    let changed = cam.zoom_in();
    assert!(changed);
    assert_eq!(cam.pixel_zoom, 2);
    assert_eq!(cam.scale_animator.end(), FX_ONE / 2);
    assert!(!cam.scale_animator.if_finished());
    cam.update_anima(500_000);
    assert!(cam.scale_animator.if_finished());
    assert_eq!(cam.get_scale(), Vec2::new(FX_ONE / 2, FX_ONE / 2));
}

#[test]
fn zoom_is_refused_mid_animation() {
    let mut cam = Camera2D::new(Vec2::new(px(800), px(600)));
    assert!(cam.zoom_in());
    // The transition runs for 500 ms; a second request must be a no-op.
    assert!(!cam.zoom_in());
    assert!(!cam.zoom_out());
    assert_eq!(cam.pixel_zoom, 2);
    cam.update_anima(499_999);
    assert!(!cam.zoom_in());
    cam.update_anima(1);
    assert!(cam.zoom_in());
    assert_eq!(cam.pixel_zoom, 4);
}

#[test]
fn zoom_bounds_are_powers_of_two() {
    let mut cam = Camera2D::new(Vec2::new(px(800), px(600)));
    let mut seen: Vec<u8> = vec![cam.pixel_zoom];
    for _ in 0..5 {
        if cam.zoom_in() {
            seen.push(cam.pixel_zoom);
        }
        cam.update_anima(500_000);
    }
    assert_eq!(seen, vec![1, 2, 4, 8]);
    assert!(!cam.if_can_zoom_in());
    assert!(!cam.zoom_in());
    assert_eq!(cam.pixel_zoom, 8);
    assert!(cam.zoom_out());
    assert_eq!(cam.pixel_zoom, 4);
}

#[test]
fn zoom_out_at_bottom_is_refused() {
    let mut cam = Camera2D::new(Vec2::new(px(800), px(600)));
    assert!(!cam.if_can_zoom_out());
    assert!(!cam.zoom_out());
    assert_eq!(cam.pixel_zoom, 1);
    assert_eq!(cam.get_scale(), Vec2::new(FX_ONE, FX_ONE));
}

#[test]
fn set_zoom_jumps_and_cancels_animation() {
    let mut cam = Camera2D::new(Vec2::new(px(800), px(600)));
    assert!(cam.zoom_in());
    cam.set_zoom(8);
    assert_eq!(cam.pixel_zoom, 8);
    assert_eq!(cam.get_scale(), Vec2::new(FX_ONE / 8, FX_ONE / 8));
    assert!(cam.scale_animator.if_finished());
}

#[test]
fn translation_updates() {
    let mut cam = Camera2D::new(Vec2::new(px(800), px(600)));
    cam.set_translation(Vec2::new(px(10), px(-20)));
    assert_eq!(cam.get_translation(), Vec2::new(px(10), px(-20)));
    cam.add_translation(Vec2::new(px(-3), px(5)));
    assert_eq!(cam.get_translation(), Vec2::new(px(7), px(-15)));
}

#[test]
fn boundary_clamp_shifts_camera_inside() {
    let mut cam = Camera2D::new(Vec2::new(px(100), px(100)));
    // The visible rect is 100x100 around the camera; the boundary is
    // 400x400 centered on the origin.
    let boundary = Rect::new(px(-200), px(-200), px(200), px(200));
    cam.set_translation(Vec2::new(px(-300), px(190)));
    cam.update_word_boundary(Some(boundary));
    // Shifted right so the left edge touches, and down so the top touches.
    assert_eq!(cam.get_translation(), Vec2::new(px(-150), px(150)));
}

#[test]
fn boundary_clamp_is_idempotent() {
    let mut cam = Camera2D::new(Vec2::new(px(100), px(100)));
    let boundary = Rect::new(px(-200), px(-200), px(200), px(200));
    cam.set_translation(Vec2::new(px(500), px(-500)));
    cam.update_word_boundary(Some(boundary));
    let once = cam.get_translation();
    cam.update_word_boundary(Some(boundary));
    assert_eq!(cam.get_translation(), once);
}

#[test]
fn boundary_larger_than_world_locks_to_center() {
    let mut cam = Camera2D::new(Vec2::new(px(1000), px(1000)));
    // The camera sees more than the boundary holds on both axes.
    let boundary = Rect::new(px(10), px(30), px(110), px(130));
    cam.set_translation(Vec2::new(px(999), px(-999)));
    cam.update_word_boundary(Some(boundary));
    assert_eq!(cam.get_translation(), Vec2::new(px(60), px(80)));
}

#[test]
fn no_boundary_means_no_clamp() {
    let mut cam = Camera2D::new(Vec2::new(px(100), px(100)));
    cam.set_translation(Vec2::new(px(12345), px(-6789)));
    cam.update_word_boundary(None);
    assert_eq!(cam.get_translation(), Vec2::new(px(12345), px(-6789)));
}

#[test]
fn viewport_to_world_center_is_camera_position() {
    let mut cam = Camera2D::new(Vec2::new(px(800), px(600)));
    cam.set_translation(Vec2::new(px(50), px(-40)));
    let world = cam.viewport_to_world(Vec2::new(px(400), px(300)));
    assert_eq!(world.x, px(50));
    assert_eq!(world.y, px(-40));
}

#[test]
fn viewport_to_world_flips_y() {
    let cam = Camera2D::new(Vec2::new(px(800), px(600)));
    // The top-left corner of the screen is up and to the left in world
    // space.
    let world = cam.viewport_to_world(Vec2::new(0, 0));
    assert_eq!(world.x, px(-400));
    assert_eq!(world.y, px(300));
}

#[test]
fn world_viewport_round_trip_is_exact() {
    let mut cam = Camera2D::new(Vec2::new(px(800), px(600)));
    cam.set_translation(Vec2::new(px(17), px(-23)));
    cam.set_zoom(4);
    let points = [
        Vec2::new(px(0), px(0)),
        Vec2::new(px(17), px(-23)),
        Vec2::new(px(-123), px(77)),
        Vec2::new(12345, -6789),
    ];
    for p in points {
        let viewport = cam.world_to_viewport(p);
        let back = cam.viewport_to_world(viewport);
        assert_eq!(back.x, p.x);
        assert_eq!(back.y, p.y);
    }
}

#[test]
fn get_viewport_packs_origin_and_size() {
    let cam = Camera2D::new(Vec2::new(px(640), px(480)));
    let v = cam.get_viewport();
    assert_eq!(v.x, FX_ONE / 2);
    assert_eq!(v.y, FX_ONE / 2);
    assert_eq!(v.z, px(640));
    assert_eq!(v.w, px(480));
}

use sprite_render::BlendMode;
use sprite_render::Camera2D;
use sprite_render::EasingAnimator;
use sprite_render::Rect;
use sprite_render::Sprite;
use sprite_render::SpriteInstance;
use sprite_render::Transform;
use sprite_render::UiSprite;
use sprite_render::Val;
use sprite_render::Vec2;
use sprite_render::Vec4;
use sprite_render::FX_ONE;
use sprite_render::fx_mul;
use sprite_render::fx_div;

fn px(v: i64) -> i64 {
    v * FX_ONE
}

#[test]
fn animator_reaches_end_exactly() {
    let mut anima = EasingAnimator::new(FX_ONE, FX_ONE / 2, 500_000);
    assert!(!anima.if_finished());
    let value = anima.update(500_000);
    assert!(anima.if_finished());
    assert_eq!(value, FX_ONE / 2);
    // Once finished, further updates hold the end value.
    assert_eq!(anima.update(1), FX_ONE / 2);
}

#[test]
fn animator_stays_between_endpoints() {
    let mut anima = EasingAnimator::new(FX_ONE, FX_ONE / 2, 500_000);
    let mut last = FX_ONE;
    for _ in 0..10 {
        let value = anima.update(50_000);
        assert!(FX_ONE / 2 <= value && value <= FX_ONE);
        assert!(value <= last, "an ease-out toward a smaller value descends");
        last = value;
    }
    assert_eq!(last, FX_ONE / 2);
}

#[test]
fn animator_snaps_near_the_end() {
    // Past 96 percent eased progress the value snaps to the end exactly,
    // well before the duration runs out.
    let mut anima = EasingAnimator::new(0, px(100), 1_000_000);
    let value = anima.update(800_000);
    assert_eq!(value, px(100));
    assert!(!anima.if_finished());
}

#[test]
fn animator_zero_duration_is_finished() {
    let anima = EasingAnimator::new(px(3), px(5), 0);
    assert!(anima.if_finished());
    assert_eq!(anima.end(), px(5));
}

#[test]
fn fx_arithmetic_exact_values() {
    assert_eq!(fx_mul(px(6), px(7)), px(42));
    assert_eq!(fx_mul(px(5), FX_ONE / 2), px(5) / 2);
    assert_eq!(fx_mul(-px(3), FX_ONE / 4), -px(3) / 4);
    assert_eq!(fx_div(px(10), px(4)), px(10) / 4);
    assert_eq!(fx_div(px(1), FX_ONE / 8), px(8));
    // Quotients round toward negative infinity.
    assert_eq!(fx_div(-1, px(1)), -1);
    assert_eq!(fx_mul(-1, 1), -1);
}

#[test]
fn rect_center_size_contains() {
    let r = Rect::from_center_size(Vec2::new(px(10), px(20)), Vec2::new(px(4), px(6)));
    assert_eq!(r.min, Vec2::new(px(8), px(17)));
    assert_eq!(r.max, Vec2::new(px(12), px(23)));
    assert_eq!(r.size(), Vec2::new(px(4), px(6)));
    assert_eq!(r.center(), Vec2::new(px(10), px(20)));
    assert!(r.contains(Vec2::new(px(9), px(18))));
    assert!(r.contains(r.min));
    assert!(!r.contains(Vec2::new(px(13), px(18))));
    assert_eq!(r.left(), px(8));
    assert_eq!(r.right(), px(12));
    assert_eq!(r.top(), px(23));
    assert_eq!(r.bottom(), px(17));
}

#[test]
fn rect_from_corners_sorts() {
    let r = Rect::from_corners(Vec2::new(px(5), px(-1)), Vec2::new(px(-2), px(3)));
    assert_eq!(r.min, Vec2::new(px(-2), px(-1)));
    assert_eq!(r.max, Vec2::new(px(5), px(3)));
    let q = Rect::new_u32(1, 2, 3, 4);
    assert_eq!(q.min, Vec2::new(px(1), px(2)));
    assert_eq!(q.max, Vec2::new(px(3), px(4)));
}

#[test]
fn val_scales_with_resolution() {
    let value: Val<i64> = Val::new(px(35));
    let small = Camera2D::new(Vec2::new(px(1280), px(720)));
    let full = Camera2D::new(Vec2::new(px(1920), px(1080)));
    let quad = Camera2D::new(Vec2::new(px(3840), px(2160)));
    assert_eq!(value.cal(&small), px(35));
    assert_eq!(value.cal(&full), px(70));
    assert_eq!(value.cal(&quad), px(140));

    let vector: Val<Vec2> = Val::new(Vec2::new(px(35), px(35)));
    assert_eq!(vector.cal(&full), Vec2::new(px(70), px(70)));
}

#[test]
fn sprite_instance_from_packs_fields() {
    let model = Transform::identity();
    let uv = Vec4::new(0, FX_ONE, FX_ONE, -FX_ONE);
    let inst = SpriteInstance::from(
        &model,
        &uv,
        sprite_render::Color::new([9, 9, 9, 9]),
        BlendMode::SoftLight,
    );
    assert_eq!(inst.model, model);
    assert_eq!(inst.uv_offset_scale, uv);
    assert_eq!(inst.blend_mode, 31);
    assert_eq!(BlendMode::Normal.tag(), 0);
    assert_eq!(BlendMode::Multiply.tag(), 11);
    assert_eq!(BlendMode::Overlay.tag(), 30);
    assert_eq!(BlendMode::HardLight.tag(), 32);
    assert_eq!(BlendMode::Blur.tag(), 60);
}

#[test]
fn ui_sprite_follows_camera_scale() {
    let mut ui = UiSprite::default();
    ui.size = Val::new(Vec2::new(px(35), px(35)));
    ui.left = Some(Val::new(px(10)));
    ui.top = Some(Val::new(px(10)));
    let mut cam = Camera2D::new(Vec2::new(px(800), px(600)));
    cam.set_zoom(2);
    ui.update(&cam, 0);
    let size = ui.sprite.custom_size.expect("update sets the on-screen size");
    assert_eq!(size, Vec2::new(px(35) / 2, px(35) / 2));
    // 10 px from the right edge plus half the width, mapped into world
    // space at scale 1/2 around the camera at the origin.
    assert_eq!(ui.sprite.transform.translation.x, (px(400) - (px(10) + px(35) / 2)) / 2);
    assert_eq!(ui.sprite.transform.translation.y, (px(300) - (px(10) + px(35) / 2)) / 2);
}

#[test]
fn ui_sprite_animation_steps_frames() {
    let frames = vec![Rect::new_u32(0, 0, 8, 8), Rect::new_u32(8, 0, 16, 8)];
    let mut ui = UiSprite::default();
    ui.size = Val::new(Vec2::new(px(8), px(8)));
    let cam = Camera2D::new(Vec2::new(px(800), px(600)));
    ui.start_anima(frames);
    ui.update(&cam, 0);
    assert_eq!(ui.sprite.rect.unwrap().min.x, 0);
    ui.update(&cam, 100_000);
    assert_eq!(ui.sprite.rect.unwrap().min.x, px(8));
    ui.update(&cam, 100_000);
    assert_eq!(ui.sprite.rect.unwrap().min.x, 0);
    ui.stop_anima();
    assert_eq!(ui.sprite.rect.unwrap().min.x, 0);
    assert!(ui.loop_anima.is_none());
}

#[test]
fn ui_sprite_contains_cursor() {
    let mut ui = UiSprite::default();
    ui.sprite.custom_size = Some(Vec2::new(px(10), px(10)));
    ui.sprite.transform.translation.x = px(100);
    ui.sprite.transform.translation.y = px(50);
    assert!(ui.contains(Vec2::new(px(100), px(50))));
    assert!(ui.contains(Vec2::new(px(95), px(45))));
    assert!(!ui.contains(Vec2::new(px(89), px(50))));
    let bare = UiSprite::default();
    assert!(!bare.contains(Vec2::new(0, 0)));
}

#[test]
fn sprite_default_is_plain() {
    let s = Sprite::default();
    assert!(s.rect.is_none());
    assert!(s.custom_size.is_none());
    assert!(s.mask.is_none());
    assert!(!s.flip_x && !s.flip_y);
    assert_eq!(s.blend_mode, BlendMode::Normal);
    assert_eq!(s.transform.scale.x, FX_ONE);
}

use sprite_render::Color;
use sprite_render::HsbColor;
use sprite_render::RgbaColor;
use sprite_render::FX_ONE;

#[test]
fn hsb_new_keeps_in_range_values() {
    let c = HsbColor::new(120, 50, 60);
    assert_eq!(c.hue(), 120);
    assert_eq!(c.saturation(), 50);
    assert_eq!(c.brightness(), 60);
    assert_eq!(c.opacity(), 255);
}

#[test]
fn hsb_new_clamps_out_of_range_values() {
    let c = HsbColor::new(360, 101, 255);
    assert_eq!(c.hue(), 0);
    assert_eq!(c.saturation(), 100);
    assert_eq!(c.brightness(), 100);
    let d = HsbColor::new(65535, 100, 100);
    assert_eq!(d.hue(), 0);
}

#[test]
fn loop_hue_wraps_around() {
    let mut c = HsbColor::new(350, 10, 20);
    c.loop_hue(20);
    assert_eq!(c.hue(), 10);
    c.loop_hue(360);
    assert_eq!(c.hue(), 10);
    c.loop_hue(65535);
    assert_eq!(c.hue(), ((10u32 + 65535u32) % 360) as u16);
    assert_eq!(c.saturation(), 10);
    assert_eq!(c.brightness(), 20);
}

#[test]
fn color_default_is_opaque_white() {
    let c = Color::default();
    match c {
        Color::Rgba(rgba) => {
            assert_eq!(rgba, RgbaColor { red: 255, green: 255, blue: 255, alpha: 255 });
        }
        Color::Hsb(_) => panic!("the default tint must be RGBA"),
    }
}

#[test]
fn set_opacity_scales_and_clamps() {
    let mut c = Color::new([10, 20, 30, 40]);
    c.set_opacity(FX_ONE / 2);
    match c {
        Color::Rgba(rgba) => assert_eq!(rgba.alpha, 127),
        Color::Hsb(_) => panic!("the variant must not change"),
    }
    c.set_opacity(FX_ONE * 3);
    match c {
        Color::Rgba(rgba) => assert_eq!(rgba.alpha, 255),
        Color::Hsb(_) => panic!("the variant must not change"),
    }
    c.set_opacity(-FX_ONE);
    match c {
        Color::Rgba(rgba) => assert_eq!(rgba.alpha, 0),
        Color::Hsb(_) => panic!("the variant must not change"),
    }
}

#[test]
fn set_opacity_on_hsb_color() {
    let mut c = Color::from_hsb(200, 80, 90);
    c.set_opacity(FX_ONE);
    match c {
        Color::Hsb(hsb) => {
            assert_eq!(hsb.opacity(), 255);
            assert_eq!(hsb.hue(), 200);
        }
        Color::Rgba(_) => panic!("the variant must not change"),
    }
    c.set_opacity(0);
    match c {
        Color::Hsb(hsb) => assert_eq!(hsb.opacity(), 0),
        Color::Rgba(_) => panic!("the variant must not change"),
    }
}

#[test]
fn color_new_wraps_bytes() {
    let c = Color::new([1, 2, 3, 4]);
    match c {
        Color::Rgba(rgba) => {
            assert_eq!(rgba, RgbaColor { red: 1, green: 2, blue: 3, alpha: 4 });
        }
        Color::Hsb(_) => panic!("Color::new builds the RGBA variant"),
    }
}

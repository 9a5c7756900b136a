//! Verified core of a 2D sprite-compositing renderer.
//!
//! The library models all world, screen and scale quantities as fixed-point
//! integers (see [`fx`]), and covers the camera/projection state, the
//! per-sprite draw descriptor and its packed instance form, the draw-order
//! classification and sorting of render items, the pass plan that a GPU
//! backend executes, and the texture registry.

pub mod assets;
pub mod blend_mode;
pub mod camera;
pub mod easing;
pub mod frame;
pub mod color;
pub mod fx;
pub mod rect;
pub mod render_item;
pub mod screen_repeat;
pub mod sort;
pub mod sprite;
pub mod sprite_instance;
pub mod texture_store;
pub mod transform;
pub mod ui_sprite;
pub mod vector;

pub use assets::AssetsId;
pub use blend_mode::BlendMode;
pub use camera::Camera2D;
pub use easing::EasingAnimator;
pub use frame::classify_sprites;
pub use frame::plan_frame;
pub use frame::DrawCommand;
pub use frame::PipelineKind;
pub use rect::Rect;
pub use render_item::RenderItem;
pub use sort::sort_render_items;
pub use screen_repeat::ScreenRepeat;
pub use sprite::Sprite;
pub use sprite_instance::SpriteInstance;
pub use texture_store::TextureStore;
pub use texture_store::TextureInfo;
pub use texture_store::DecodedImage;
pub use transform::Transform;
pub use ui_sprite::UiSprite;
pub use ui_sprite::Val;
pub use vector::Vec2;
pub use vector::Vec3;
pub use vector::Vec4;
pub use color::Color;
pub use color::RgbaColor;
pub use color::HsbColor;
pub use fx::FX_ONE;
pub use fx::FX_HALF;
pub use fx::FX_COORD_BOUND;
pub use fx::fx_mul;
pub use fx::fx_div;

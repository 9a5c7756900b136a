use sprite_render::AssetsId;
use sprite_render::BlendMode;
use sprite_render::DecodedImage;
use sprite_render::RenderItem;
use sprite_render::ScreenRepeat;
use sprite_render::Sprite;
use sprite_render::TextureStore;
use sprite_render::Vec2;
use sprite_render::Vec3;
use sprite_render::FX_ONE;
use sprite_render::classify_sprites;
use sprite_render::frame::DrawCommand;
use sprite_render::frame::PipelineKind;
use sprite_render::frame::plan_frame;

fn fx(v: i64) -> i64 {
    v * FX_ONE
}

fn store_with(ids: &[u32]) -> TextureStore {
    let mut store = TextureStore::new();
    for id in ids {
        let image = DecodedImage { width: 4, height: 2, pixels: vec![0u8; 32] };
        store.load_texture_with_key(&image, Some(AssetsId::from_u32(*id)));
    }
    store
}

fn sprite_at(id: u32, z: i64) -> Sprite {
    let mut s = Sprite::default();
    s.texture_id = AssetsId::from_u32(id);
    s.transform.translation = Vec3::new(0, 0, z);
    s
}

#[test]
fn classifier_emits_one_item_per_plain_sprite() {
    let store = store_with(&[1, 2]);
    let sprites = vec![sprite_at(1, fx(3)), sprite_at(2, fx(-1))];
    let (instances, items) = classify_sprites(&store, &sprites);
    assert_eq!(instances.len(), 2);
    assert_eq!(items.len(), 2);
    match &items[0] {
        RenderItem::Sprite { range, texture_id, sort_key } => {
            assert_eq!(*range, 0..1);
            assert_eq!(*texture_id, AssetsId::from_u32(1));
            assert_eq!(*sort_key, fx(3));
        }
        other => panic!("expected a plain sprite item, got {other:?}"),
    }
    match &items[1] {
        RenderItem::Sprite { range, sort_key, .. } => {
            assert_eq!(*range, 1..2);
            assert_eq!(*sort_key, fx(-1));
        }
        other => panic!("expected a plain sprite item, got {other:?}"),
    }
}

#[test]
fn classifier_mask_emits_start_end_pair() {
    // A masked sprite emits exactly one mask-open and one mask-close item,
    // both addressing the same instance.
    let store = store_with(&[1]);
    let mut masked = sprite_at(1, fx(0));
    masked.mask = Some([fx(2), fx(6)]);
    let sprites = vec![masked];
    let (instances, items) = classify_sprites(&store, &sprites);
    assert_eq!(instances.len(), 1);
    assert_eq!(items.len(), 2);
    match (&items[0], &items[1]) {
        (
            RenderItem::SpriteMaskStart { range: r0, sort_key: k0, .. },
            RenderItem::SpriteMaskEnd { range: r1, sort_key: k1, .. },
        ) => {
            assert_eq!(*r0, 0..1);
            assert_eq!(*r1, 0..1);
            assert_eq!(*k0, fx(2));
            assert_eq!(*k1, fx(6));
        }
        other => panic!("expected a mask pair, got {other:?}"),
    }
}

#[test]
fn classifier_empty_mask_window_still_pairs() {
    // With start == end the window is empty but both items still appear.
    let store = store_with(&[1]);
    let mut masked = sprite_at(1, fx(0));
    masked.mask = Some([fx(4), fx(4)]);
    let (_, items) = classify_sprites(&store, &vec![masked]);
    assert_eq!(items.len(), 2);
    assert_eq!(items[0].type_key(), 1);
    assert_eq!(items[1].type_key(), 3);
    assert_eq!(items[0].sort_key(), items[1].sort_key());
}

#[test]
fn classifier_blend_modes_pick_item_kind() {
    let store = store_with(&[1, 2, 3]);
    let mut blur = sprite_at(1, fx(1));
    blur.blend_mode = BlendMode::Blur;
    let mut multiply = sprite_at(2, fx(2));
    multiply.blend_mode = BlendMode::Multiply;
    let mut overlay = sprite_at(3, fx(3));
    overlay.blend_mode = BlendMode::Overlay;
    let (_, items) = classify_sprites(&store, &vec![blur, multiply, overlay]);
    assert!(matches!(items[0], RenderItem::BlurSprite { .. }));
    assert!(matches!(items[1], RenderItem::BlendModeSprite { .. }));
    assert!(matches!(items[2], RenderItem::BlendModeSprite { .. }));
}

#[test]
fn classifier_drops_unregistered_texture() {
    // The list with an unregistered sprite yields the same instances and
    // items as the list without it, and nothing panics.
    let store = store_with(&[1, 2]);
    let with_missing = vec![sprite_at(1, fx(3)), sprite_at(77, fx(5)), sprite_at(2, fx(-1))];
    let without = vec![sprite_at(1, fx(3)), sprite_at(2, fx(-1))];
    let (instances_a, items_a) = classify_sprites(&store, &with_missing);
    let (instances_b, items_b) = classify_sprites(&store, &without);
    assert_eq!(instances_a.len(), instances_b.len());
    assert_eq!(items_a.len(), items_b.len());
    for (a, b) in items_a.iter().zip(items_b.iter()) {
        assert_eq!(a.range(), b.range());
        assert_eq!(a.sort_key(), b.sort_key());
        assert_eq!(a.type_key(), b.type_key());
        assert_eq!(a.texture_id(), b.texture_id());
    }
}

#[test]
fn classifier_instance_values() {
    let store = store_with(&[1]);
    let mut s = sprite_at(1, fx(9));
    s.anchor = Vec2::new(-FX_ONE / 2, -FX_ONE / 2);
    let (instances, _) = classify_sprites(&store, &vec![s]);
    let inst = &instances[0];
    // The quad takes the 4x2 texture size; the anchor of (-1/2, -1/2)
    // cancels the centering offset exactly.
    assert_eq!(inst.model.scale.x, fx(4));
    assert_eq!(inst.model.scale.y, fx(2));
    assert_eq!(inst.model.scale.z, FX_ONE);
    assert_eq!(inst.model.translation.x, 0);
    assert_eq!(inst.model.translation.y, 0);
    assert_eq!(inst.model.translation.z, fx(9));
    // Whole texture, vertically flipped into texture rows.
    assert_eq!(inst.uv_offset_scale.x, 0);
    assert_eq!(inst.uv_offset_scale.y, FX_ONE);
    assert_eq!(inst.uv_offset_scale.z, FX_ONE);
    assert_eq!(inst.uv_offset_scale.w, -FX_ONE);
    assert_eq!(inst.blend_mode, 0);
}

#[test]
fn uv_rect_and_flip() {
    let mut s = Sprite::default();
    s.rect = Some(sprite_render::Rect::new_u32(1, 0, 3, 2));
    let image_size = Vec2::new(fx(4), fx(4));
    let uv = s.calculate_uv_offset_scale(image_size);
    assert_eq!(uv.x, FX_ONE / 4);
    assert_eq!(uv.y, FX_ONE / 2);
    assert_eq!(uv.z, FX_ONE / 2);
    assert_eq!(uv.w, -FX_ONE / 2);

    s.flip_x = true;
    let flipped = s.calculate_uv_offset_scale(image_size);
    assert_eq!(flipped.x, FX_ONE / 4 + FX_ONE / 2);
    assert_eq!(flipped.z, -(FX_ONE / 2));
    assert_eq!(flipped.y, uv.y);
    assert_eq!(flipped.w, uv.w);

    s.flip_y = true;
    let both = s.calculate_uv_offset_scale(image_size);
    assert_eq!(both.y, 0);
    assert_eq!(both.w, FX_ONE / 2);
}

#[test]
fn quad_size_prefers_custom_then_rect() {
    let mut s = Sprite::default();
    let image_size = Vec2::new(fx(8), fx(8));
    assert_eq!(s.quad_size(image_size), Vec2::new(fx(8), fx(8)));
    s.rect = Some(sprite_render::Rect::new_u32(0, 0, 3, 2));
    assert_eq!(s.quad_size(image_size), Vec2::new(fx(3), fx(2)));
    s.custom_size = Some(Vec2::new(fx(10), fx(20)));
    assert_eq!(s.quad_size(image_size), Vec2::new(fx(10), fx(20)));
}

#[test]
fn plan_inserts_grab_before_frame_reads() {
    let store = store_with(&[1, 2, 3]);
    let items = vec![
        RenderItem::Sprite { range: 0..1, texture_id: AssetsId::from_u32(1), sort_key: 0 },
        RenderItem::BlendModeSprite { range: 1..2, texture_id: AssetsId::from_u32(2), sort_key: 1 },
        RenderItem::BlurSprite { range: 2..3, texture_id: AssetsId::from_u32(3), sort_key: 2 },
    ];
    let plan = plan_frame(&store, &items, None);
    assert_eq!(plan.len(), 5);
    assert!(matches!(
        plan[0],
        DrawCommand::Draw { kind: PipelineKind::Plain, .. }
    ));
    assert!(matches!(plan[1], DrawCommand::Grab));
    assert!(matches!(
        plan[2],
        DrawCommand::Draw { kind: PipelineKind::Blend, .. }
    ));
    assert!(matches!(plan[3], DrawCommand::Grab));
    assert!(matches!(
        plan[4],
        DrawCommand::Draw { kind: PipelineKind::Blur, .. }
    ));
}

#[test]
fn plan_mask_items_use_mask_pipelines() {
    let store = store_with(&[1]);
    let id = AssetsId::from_u32(1);
    let items = vec![
        RenderItem::SpriteMaskStart { range: 0..1, texture_id: id, sort_key: 0 },
        RenderItem::SpriteMaskEnd { range: 0..1, texture_id: id, sort_key: 1 },
    ];
    let plan = plan_frame(&store, &items, None);
    assert_eq!(plan.len(), 2);
    assert!(matches!(
        plan[0],
        DrawCommand::Draw { kind: PipelineKind::MaskStart, .. }
    ));
    assert!(matches!(
        plan[1],
        DrawCommand::Draw { kind: PipelineKind::MaskEnd, .. }
    ));
}

#[test]
fn plan_background_comes_first_when_registered() {
    let store = store_with(&[1, 9]);
    let items = vec![RenderItem::Sprite {
        range: 0..1,
        texture_id: AssetsId::from_u32(1),
        sort_key: 0,
    }];
    let mut background = ScreenRepeat::default();
    background.texture_id = AssetsId::from_u32(9);
    let plan = plan_frame(&store, &items, Some(&background));
    assert_eq!(plan.len(), 2);
    match &plan[0] {
        DrawCommand::Background { texture_id } => {
            assert_eq!(*texture_id, AssetsId::from_u32(9));
        }
        other => panic!("expected the background first, got {other:?}"),
    }
}

#[test]
fn plan_skips_unregistered_background_and_items() {
    let store = store_with(&[1]);
    let items = vec![
        RenderItem::Sprite { range: 0..1, texture_id: AssetsId::from_u32(1), sort_key: 0 },
        RenderItem::Sprite { range: 1..2, texture_id: AssetsId::from_u32(55), sort_key: 1 },
    ];
    let mut background = ScreenRepeat::default();
    background.texture_id = AssetsId::from_u32(66);
    let plan = plan_frame(&store, &items, Some(&background));
    assert_eq!(plan.len(), 1);
    assert!(matches!(
        plan[0],
        DrawCommand::Draw { kind: PipelineKind::Plain, .. }
    ));
}

#[test]
fn empty_frame_classifies_and_plans_to_nothing() {
    let store = store_with(&[1]);
    let sprites: Vec<Sprite> = Vec::new();
    let (instances, items) = classify_sprites(&store, &sprites);
    assert_eq!(instances.len(), 0);
    assert_eq!(items.len(), 0);
    let plan = plan_frame(&store, &items, None);
    assert_eq!(plan.len(), 0);
}

#[test]
fn empty_store_drops_everything() {
    let store = TextureStore::new();
    let sprites = vec![sprite_at(1, fx(1)), sprite_at(2, fx(2))];
    let (instances, items) = classify_sprites(&store, &sprites);
    assert_eq!(instances.len(), 0);
    assert_eq!(items.len(), 0);
}

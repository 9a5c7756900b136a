//! Building one frame: classify sprites into instance records and draw
//! items, and turn the sorted items into the pass plan a GPU backend
//! executes in order.
//!
//! The plan makes the pass-splitting rule mechanical: a draw that reads
//! the frame (a blend-mode or blur sprite) is always immediately preceded
//! by a grab command, which copies the frame out between passes, so no
//! draw ever samples a target it is writing.

use vstd::prelude::*;

verus! {

use core::ops::Range;
use crate::assets::AssetsId;
use crate::blend_mode::BlendMode;
use crate::fx::FX_ONE;
use crate::render_item::RenderItem;
use crate::screen_repeat::ScreenRepeat;
use crate::sprite::Sprite;
use crate::sprite_instance::SpriteInstance;
use crate::texture_store::TextureInfo;
use crate::texture_store::TextureStore;
use crate::vector::Vec2;

/// Whether the sprite's texture is registered; an unregistered sprite is
/// dropped, never an error.
pub open spec fn sprite_kept(s: Sprite, store: Map<Seq<u8>, TextureInfo>) -> bool {
    store.dom().contains(s.texture_id@)
}

/// A registered texture's pixel size in fixed point.
pub open spec fn image_size_spec(info: TextureInfo) -> Vec2 {
    Vec2 { x: (info.width * (FX_ONE as int)) as i64, y: (info.height * (FX_ONE as int)) as i64 }
}

/// The premises the instance arithmetic of one sprite needs: if its
/// texture is registered, the sprite's values and the texture size are
/// bounded, and a sub-rectangle comes with a texture of at least one
/// texel on each axis.
pub open spec fn sprite_ok(s: Sprite, store: Map<Seq<u8>, TextureInfo>) -> bool {
    sprite_kept(s, store) ==> {
        let size = image_size_spec(store[s.texture_id@]);
        &&& s.in_bounds(size)
        &&& (s.rect is Some ==> size.x >= FX_ONE && size.y >= FX_ONE)
    }
}

/// The instance record a kept sprite contributes.
pub open spec fn instance_of_spec(s: Sprite, info: TextureInfo) -> SpriteInstance {
    let size = image_size_spec(info);
    SpriteInstance {
        model: crate::transform::Transform {
            translation: crate::vector::Vec3 {
                x: s.model_translation_spec(size).0 as i64,
                y: s.model_translation_spec(size).1 as i64,
                z: s.model_translation_spec(size).2 as i64,
            },
            scale: crate::vector::Vec3 {
                x: s.model_scale_spec(size).0 as i64,
                y: s.model_scale_spec(size).1 as i64,
                z: s.model_scale_spec(size).2 as i64,
            },
        },
        uv_offset_scale: crate::vector::Vec4 {
            x: s.uv_offset_scale_spec(size).0 as i64,
            y: s.uv_offset_scale_spec(size).1 as i64,
            z: s.uv_offset_scale_spec(size).2 as i64,
            w: s.uv_offset_scale_spec(size).3 as i64,
        },
        color: s.color,
        blend_mode: s.blend_mode.tag_spec(),
    }
}

/// The instance records of the kept sprites, in input order: the record
/// of each kept sprite sits at the index the items below address.
pub open spec fn classify_instances_spec(
    sprites: Seq<Sprite>,
    store: Map<Seq<u8>, TextureInfo>,
) -> Seq<SpriteInstance>
    decreases sprites.len(),
{
    if sprites.len() == 0 {
        Seq::empty()
    } else {
        let rest = classify_instances_spec(sprites.drop_last(), store);
        if sprite_kept(sprites.last(), store) {
            rest.push(instance_of_spec(sprites.last(), store[sprites.last().texture_id@]))
        } else {
            rest
        }
    }
}

/// The draw items one kept sprite emits, addressing the instance at
/// `index`: a masked normal sprite emits its mask-open and mask-close
/// pair (carrying the mask's start and end depth), any other sprite emits
/// one item of its blend family keyed by its world depth.
pub open spec fn items_for_sprite_spec(s: Sprite, index: u32) -> Seq<RenderItem> {
    let range = Range::<u32> { start: index, end: (index + 1) as u32 };
    match s.blend_mode {
        BlendMode::Normal => match s.mask {
            Some(m) => seq![
                RenderItem::SpriteMaskStart {
                    range: Range::<u32> { start: index, end: (index + 1) as u32 },
                    texture_id: s.texture_id,
                    sort_key: m[0],
                },
                RenderItem::SpriteMaskEnd {
                    range: Range::<u32> { start: index, end: (index + 1) as u32 },
                    texture_id: s.texture_id,
                    sort_key: m[1],
                },
            ],
            None => seq![
                RenderItem::Sprite {
                    range,
                    texture_id: s.texture_id,
                    sort_key: s.transform.translation.z,
                },
            ],
        },
        BlendMode::Blur => seq![
            RenderItem::BlurSprite {
                range,
                texture_id: s.texture_id,
                sort_key: s.transform.translation.z,
            },
        ],
        _ => seq![
            RenderItem::BlendModeSprite {
                range,
                texture_id: s.texture_id,
                sort_key: s.transform.translation.z,
            },
        ],
    }
}

/// The draw items of all kept sprites, in input order, each addressing
/// its own instance record.
pub open spec fn classify_items_spec(
    sprites: Seq<Sprite>,
    store: Map<Seq<u8>, TextureInfo>,
) -> Seq<RenderItem>
    decreases sprites.len(),
{
    if sprites.len() == 0 {
        Seq::empty()
    } else {
        let rest = classify_items_spec(sprites.drop_last(), store);
        if sprite_kept(sprites.last(), store) {
            rest + items_for_sprite_spec(
                sprites.last(),
                classify_instances_spec(sprites.drop_last(), store).len() as u32,
            )
        } else {
            rest
        }
    }
}

/// Classifies the frame's sprites: builds the instance buffer contents
/// (one record per sprite whose texture is registered, in input order)
/// and the draw items addressing them.  A sprite with an unregistered
/// texture is dropped; the frame goes on without it.
pub fn classify_sprites(texture_store: &TextureStore, sprites: &Vec<Sprite>) -> (r: (
    Vec<SpriteInstance>,
    Vec<RenderItem>,
))
    requires
        texture_store.wf(),
        sprites@.len() <= u32::MAX,
        forall|k: int|
            0 <= k < sprites@.len() ==> sprite_ok(#[trigger] sprites@[k], texture_store.contents()),
    ensures
        r.0@ == classify_instances_spec(sprites@, texture_store.contents()),
        r.1@ == classify_items_spec(sprites@, texture_store.contents()),
{
    let mut instances: Vec<SpriteInstance> = Vec::new();
    let mut items: Vec<RenderItem> = Vec::new();
    let n: usize = sprites.len();
    let mut i: usize = 0;
    while i < n
        invariant
            texture_store.wf(),
            n == sprites@.len() <= u32::MAX,
            0 <= i <= n,
            forall|k: int|
                0 <= k < sprites@.len() ==> sprite_ok(
                    #[trigger] sprites@[k],
                    texture_store.contents(),
                ),
            instances@ == classify_instances_spec(sprites@.take(i as int), texture_store.contents()),
            items@ == classify_items_spec(sprites@.take(i as int), texture_store.contents()),
            instances@.len() <= i,
        decreases n - i,
    {
        let sprite = &sprites[i];
        proof {
            assert(sprites@.take(i as int + 1).drop_last() =~= sprites@.take(i as int));
            assert(sprites@.take(i as int + 1).last() == sprites@[i as int]);
        }
        match texture_store.get(&sprite.texture_id) {
            Some(info) => {
                let image_size = info.size_fx();
                let model = sprite.calculate_transform(image_size);
                let uv = sprite.calculate_uv_offset_scale(image_size);
                let instance = SpriteInstance::from(&model, &uv, sprite.color, sprite.blend_mode);
                let index: u32 = instances.len() as u32;
                instances.push(instance);
                proof {
                    assert(instance == instance_of_spec(
                        sprites@[i as int],
                        texture_store.contents()[sprite.texture_id@],
                    ));
                }
                match sprite.blend_mode {
                    BlendMode::Normal => {
                        if let Some(mask) = sprite.mask {
                            items.push(
                                RenderItem::SpriteMaskStart {
                                    range: index..index + 1,
                                    texture_id: sprite.texture_id,
                                    sort_key: mask[0],
                                },
                            );
                            items.push(
                                RenderItem::SpriteMaskEnd {
                                    range: index..index + 1,
                                    texture_id: sprite.texture_id,
                                    sort_key: mask[1],
                                },
                            );
                        } else {
                            items.push(
                                RenderItem::Sprite {
                                    range: index..index + 1,
                                    texture_id: sprite.texture_id,
                                    sort_key: sprite.transform.translation.z,
                                },
                            );
                        }
                    },
                    BlendMode::Blur => {
                        items.push(
                            RenderItem::BlurSprite {
                                range: index..index + 1,
                                texture_id: sprite.texture_id,
                                sort_key: sprite.transform.translation.z,
                            },
                        );
                    },
                    _ => {
                        items.push(
                            RenderItem::BlendModeSprite {
                                range: index..index + 1,
                                texture_id: sprite.texture_id,
                                sort_key: sprite.transform.translation.z,
                            },
                        );
                    },
                }
                proof {
                    assert(items@ =~= classify_items_spec(
                        sprites@.take(i as int + 1),
                        texture_store.contents(),
                    ));
                }
            },
            None => {},
        }
        proof {
            assert(instances@ =~= classify_instances_spec(
                sprites@.take(i as int + 1),
                texture_store.contents(),
            ));
            assert(items@ =~= classify_items_spec(
                sprites@.take(i as int + 1),
                texture_store.contents(),
            ));
        }
        i = i + 1;
    }
    proof {
        assert(sprites@.take(n as int) =~= sprites@);
    }
    (instances, items)
}

/// Which render pipeline a draw binds.
#[derive(Debug, Copy, Clone, PartialEq, Eq, Structural)]
pub enum PipelineKind {
    /// Plain alpha blending, drawn only where the stencil counter is zero.
    Plain,
    /// A screen-space blend formula sampling the grabbed frame.
    Blend,
    /// A blur sampling the grabbed frame.
    Blur,
    /// Raises the stencil counter over the quad, writing no color.
    MaskStart,
    /// Lowers the stencil counter over the quad, writing no color.
    MaskEnd,
}

/// One step of the frame's pass plan, executed in order.
#[derive(Debug)]
pub enum DrawCommand {
    /// Draw the tiling background into the cleared frame, before
    /// everything else.
    Background { texture_id: AssetsId },
    /// End the composite pass, copy the frame into the grab texture, and
    /// begin a new composite pass that loads color and stencil.
    Grab,
    /// Bind the pipeline of `kind` and the texture, and draw the
    /// instance range.
    Draw { kind: PipelineKind, texture_id: AssetsId, range: Range<u32> },
}

impl DrawCommand {
    /// Whether this command is a draw that samples the grabbed frame.
    pub open spec fn reads_grab_spec(self) -> bool {
        self matches DrawCommand::Draw { kind, .. } && (kind is Blend || kind is Blur)
    }
}

/// The pipeline an item draws with.
pub open spec fn pipeline_of_spec(item: RenderItem) -> PipelineKind {
    match item {
        RenderItem::Sprite { .. } => PipelineKind::Plain,
        RenderItem::BlendModeSprite { .. } => PipelineKind::Blend,
        RenderItem::BlurSprite { .. } => PipelineKind::Blur,
        RenderItem::SpriteMaskStart { .. } => PipelineKind::MaskStart,
        RenderItem::SpriteMaskEnd { .. } => PipelineKind::MaskEnd,
    }
}

/// The plan steps one item contributes: nothing when its texture has gone
/// unregistered, its draw alone for plain and mask items, and a grab
/// directly before the draw for an item that reads the frame.
pub open spec fn commands_for_item_spec(
    item: RenderItem,
    store: Map<Seq<u8>, TextureInfo>,
) -> Seq<DrawCommand> {
    if !store.dom().contains(item.texture_id_spec()@) {
        Seq::empty()
    } else {
        let draw = DrawCommand::Draw {
            kind: pipeline_of_spec(item),
            texture_id: item.texture_id_spec(),
            range: item.range_spec(),
        };
        if item.needs_grab_spec() {
            seq![DrawCommand::Grab, draw]
        } else {
            seq![draw]
        }
    }
}

/// The composite-pass part of the plan: each item's steps in item order.
pub open spec fn plan_items_spec(
    items: Seq<RenderItem>,
    store: Map<Seq<u8>, TextureInfo>,
) -> Seq<DrawCommand>
    decreases items.len(),
{
    if items.len() == 0 {
        Seq::empty()
    } else {
        plan_items_spec(items.drop_last(), store) + commands_for_item_spec(items.last(), store)
    }
}

/// The whole plan: the background first, when one is configured and its
/// texture registered, then the composite pass.
pub open spec fn plan_frame_spec(
    items: Seq<RenderItem>,
    store: Map<Seq<u8>, TextureInfo>,
    background: Option<ScreenRepeat>,
) -> Seq<DrawCommand> {
    let head = match background {
        Some(sr) => if store.dom().contains(sr.texture_id@) {
            seq![DrawCommand::Background { texture_id: sr.texture_id }]
        } else {
            Seq::empty()
        },
        None => Seq::empty(),
    };
    head + plan_items_spec(items, store)
}

/// Builds the pass plan for sorted items and an optional background.
/// Items whose texture has gone unregistered are skipped, as in
/// classification.
pub fn plan_frame(
    texture_store: &TextureStore,
    items: &Vec<RenderItem>,
    screen_repeat: Option<&ScreenRepeat>,
) -> (plan: Vec<DrawCommand>)
    requires
        texture_store.wf(),
    ensures
        plan@ == plan_frame_spec(
            items@,
            texture_store.contents(),
            match screen_repeat {
                Some(sr) => Some(*sr),
                None => None,
            },
        ),
{
    let mut plan: Vec<DrawCommand> = Vec::new();
    if let Some(sr) = screen_repeat {
        if texture_store.get(&sr.texture_id).is_some() {
            plan.push(DrawCommand::Background { texture_id: sr.texture_id });
        }
    }
    let ghost head = plan@;
    let n: usize = items.len();
    let mut i: usize = 0;
    while i < n
        invariant
            texture_store.wf(),
            n == items@.len(),
            0 <= i <= n,
            plan@ == head + plan_items_spec(items@.take(i as int), texture_store.contents()),
        decreases n - i,
    {
        let item = &items[i];
        proof {
            assert(items@.take(i as int + 1).drop_last() =~= items@.take(i as int));
            assert(items@.take(i as int + 1).last() == items@[i as int]);
        }
        if texture_store.get(&item.texture_id()).is_some() {
            let kind = match item {
                RenderItem::Sprite { .. } => PipelineKind::Plain,
                RenderItem::BlendModeSprite { .. } => PipelineKind::Blend,
                RenderItem::BlurSprite { .. } => PipelineKind::Blur,
                RenderItem::SpriteMaskStart { .. } => PipelineKind::MaskStart,
                RenderItem::SpriteMaskEnd { .. } => PipelineKind::MaskEnd,
            };
            let range = item.range();
            let needs_grab = match item {
                RenderItem::BlendModeSprite { .. } => true,
                RenderItem::BlurSprite { .. } => true,
                _ => false,
            };
            if needs_grab {
                plan.push(DrawCommand::Grab);
            }
            plan.push(
                DrawCommand::Draw {
                    kind,
                    texture_id: item.texture_id(),
                    range: Range { start: range.start, end: range.end },
                },
            );
        }
        proof {
            assert(plan@ =~= head + plan_items_spec(
                items@.take(i as int + 1),
                texture_store.contents(),
            ));
        }
        i = i + 1;
    }
    proof {
        assert(items@.take(n as int) =~= items@);
    }
    plan
}

/// The pass-splitting rule, mechanically: every draw that samples the
/// grabbed frame is immediately preceded by the grab that refreshed it,
/// so no draw reads a target it is writing.
pub proof fn lemma_grab_precedes_frame_reads(
    items: Seq<RenderItem>,
    store: Map<Seq<u8>, TextureInfo>,
    background: Option<ScreenRepeat>,
)
    ensures
        forall|j: int|
            0 <= j < plan_frame_spec(items, store, background).len() && (
            #[trigger] plan_frame_spec(items, store, background)[j]).reads_grab_spec() ==> j >= 1
                && plan_frame_spec(items, store, background)[j - 1] is Grab,
{
    let head = match background {
        Some(sr) => if store.dom().contains(sr.texture_id@) {
            seq![DrawCommand::Background { texture_id: sr.texture_id }]
        } else {
            Seq::<DrawCommand>::empty()
        },
        None => Seq::<DrawCommand>::empty(),
    };
    lemma_grab_precedes_in_suffix(items, store, head);
}

/// Helper for the grab rule: with any prefix of commands that themselves
/// obey the rule and end in no frame-reading draw, the items' plan keeps
/// the rule.
proof fn lemma_grab_precedes_in_suffix(
    items: Seq<RenderItem>,
    store: Map<Seq<u8>, TextureInfo>,
    head: Seq<DrawCommand>,
)
    requires
        forall|j: int|
            0 <= j < head.len() && (#[trigger] head[j]).reads_grab_spec() ==> j >= 1 && head[j
                - 1] is Grab,
    ensures
        forall|j: int|
            0 <= j < (head + plan_items_spec(items, store)).len() && ((head + plan_items_spec(
                items,
                store,
            ))[j]).reads_grab_spec() ==> j >= 1 && (head + plan_items_spec(items, store))[j
                - 1] is Grab,
    decreases items.len(),
{
    if items.len() == 0 {
        assert(head + plan_items_spec(items, store) =~= head);
    } else {
        lemma_grab_precedes_in_suffix(items.drop_last(), store, head);
        let shorter = head + plan_items_spec(items.drop_last(), store);
        let tail = commands_for_item_spec(items.last(), store);
        assert(head + plan_items_spec(items, store) =~= shorter + tail);
        let whole = shorter + tail;
        assert forall|j: int|
            0 <= j < whole.len() && (#[trigger] whole[j]).reads_grab_spec() implies j >= 1
            && whole[j - 1] is Grab by {
            if j < shorter.len() {
                assert(whole[j] == shorter[j]);
                if j >= 1 {
                    assert(whole[j - 1] == shorter[j - 1]);
                }
            } else {
                let k = j - shorter.len();
                assert(whole[j] == tail[k]);
                if tail[k].reads_grab_spec() {
                    assert(store.dom().contains(items.last().texture_id_spec()@));
                    assert(items.last().needs_grab_spec());
                    assert(k == 1);
                    assert(whole[j - 1] == tail[0]);
                }
            }
        }
    }
}

/// For a normal-blended sprite with a mask range, classification emits
/// exactly one mask-open item keyed by the range's start and one
/// mask-close item keyed by its end, both addressing the one instance
/// record the sprite got: processing that sprite appends exactly that
/// pair and nothing else.
pub proof fn lemma_mask_symmetry(
    sprites: Seq<Sprite>,
    store: Map<Seq<u8>, TextureInfo>,
    i: int,
    m: [i64; 2],
)
    requires
        0 <= i < sprites.len(),
        sprites[i].blend_mode is Normal,
        sprites[i].mask == Some(m),
        sprite_kept(sprites[i], store),
    ensures
        ({
            let index = classify_instances_spec(sprites.take(i), store).len() as u32;
            classify_items_spec(sprites.take(i + 1), store) == classify_items_spec(
                sprites.take(i),
                store,
            ) + seq![
                RenderItem::SpriteMaskStart {
                    range: Range::<u32> { start: index, end: (index + 1) as u32 },
                    texture_id: sprites[i].texture_id,
                    sort_key: m[0],
                },
                RenderItem::SpriteMaskEnd {
                    range: Range::<u32> { start: index, end: (index + 1) as u32 },
                    texture_id: sprites[i].texture_id,
                    sort_key: m[1],
                },
            ]
        }),
{
    assert(sprites.take(i + 1).drop_last() =~= sprites.take(i));
    assert(sprites.take(i + 1).last() == sprites[i]);
}

/// Dropping a sprite whose texture is unregistered changes nothing:
/// classification of a list with such a sprite equals classification of
/// the list with it removed, instances and items alike, so one missing
/// texture costs its own draw and no other.
pub proof fn lemma_missing_texture_resilience(
    sprites: Seq<Sprite>,
    store: Map<Seq<u8>, TextureInfo>,
    i: int,
)
    requires
        0 <= i < sprites.len(),
        !sprite_kept(sprites[i], store),
    ensures
        classify_instances_spec(sprites.remove(i), store) == classify_instances_spec(
            sprites,
            store,
        ),
        classify_items_spec(sprites.remove(i), store) == classify_items_spec(sprites, store),
    decreases sprites.len(),
{
    if i == sprites.len() - 1 {
        assert(sprites.remove(i) =~= sprites.drop_last());
    } else {
        let shorter = sprites.drop_last();
        assert(sprites.remove(i).drop_last() =~= shorter.remove(i));
        assert(sprites.remove(i).last() == sprites.last());
        assert(shorter[i] == sprites[i]);
        lemma_missing_texture_resilience(shorter, store, i);
    }
}

} // verus!

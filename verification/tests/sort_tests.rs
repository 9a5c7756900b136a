use sprite_render::AssetsId;
use sprite_render::RenderItem;
use sprite_render::FX_ONE;
use sprite_render::sort_render_items;

fn fx(v: i64) -> i64 {
    v * FX_ONE
}

fn plain(id: u32, sort_key: i64) -> RenderItem {
    RenderItem::Sprite { range: id..id + 1, texture_id: AssetsId::from_u32(id), sort_key }
}

#[test]
fn sort_orders_by_sort_key() {
    let mut items = vec![plain(0, fx(9)), plain(1, fx(-3)), plain(2, fx(4)), plain(3, fx(0))];
    sort_render_items(&mut items);
    let keys: Vec<i64> = items.iter().map(|it| it.sort_key()).collect();
    assert_eq!(keys, vec![fx(-3), fx(0), fx(4), fx(9)]);
}

#[test]
fn sort_breaks_ties_by_type_key() {
    // Example scenario: two plain sprites at depth 5 and one mask opening
    // at depth 5; the mask-open item must come first.
    let mut items = vec![
        plain(10, fx(5)),
        plain(11, fx(5)),
        RenderItem::SpriteMaskStart {
            range: 12..13,
            texture_id: AssetsId::from_u32(12),
            sort_key: fx(5),
        },
    ];
    sort_render_items(&mut items);
    assert_eq!(items[0].type_key(), 1);
    assert_eq!(items[0].texture_id(), AssetsId::from_u32(12));
    assert_eq!(items[1].type_key(), 2);
    assert_eq!(items[2].type_key(), 2);
    // The two plain sprites keep their original relative order.
    assert_eq!(items[1].texture_id(), AssetsId::from_u32(10));
    assert_eq!(items[2].texture_id(), AssetsId::from_u32(11));
}

#[test]
fn sort_is_stable_on_equal_keys() {
    let mut items: Vec<RenderItem> = Vec::new();
    for id in 0..8u32 {
        items.push(plain(id, fx(7)));
    }
    sort_render_items(&mut items);
    for (position, item) in items.iter().enumerate() {
        assert_eq!(item.texture_id(), AssetsId::from_u32(position as u32));
    }
}

#[test]
fn sort_mask_open_before_content_before_close() {
    let id = AssetsId::from_u32(1);
    let mut items = vec![
        RenderItem::SpriteMaskEnd { range: 0..1, texture_id: id, sort_key: fx(2) },
        plain(5, fx(2)),
        RenderItem::SpriteMaskStart { range: 0..1, texture_id: id, sort_key: fx(2) },
        plain(6, fx(1)),
    ];
    sort_render_items(&mut items);
    assert_eq!(items[0].sort_key(), fx(1));
    assert_eq!(items[1].type_key(), 1);
    assert_eq!(items[2].type_key(), 2);
    assert_eq!(items[3].type_key(), 3);
}

#[test]
fn sort_empty_and_single() {
    let mut empty: Vec<RenderItem> = Vec::new();
    sort_render_items(&mut empty);
    assert_eq!(empty.len(), 0);

    let mut single = vec![plain(3, fx(8))];
    sort_render_items(&mut single);
    assert_eq!(single.len(), 1);
    assert_eq!(single[0].sort_key(), fx(8));
}

#[test]
fn sort_negative_keys_ascend() {
    let mut items = vec![plain(0, -1), plain(1, i64::MIN / 4), plain(2, fx(1)), plain(3, 0)];
    sort_render_items(&mut items);
    let keys: Vec<i64> = items.iter().map(|it| it.sort_key()).collect();
    assert_eq!(keys, vec![i64::MIN / 4, -1, 0, fx(1)]);
}

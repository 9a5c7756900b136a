use sprite_render::AssetsId;
use sprite_render::DecodedImage;
use sprite_render::TextureStore;

fn encode_png(width: u32, height: u32) -> Vec<u8> {
    let image = image::RgbaImage::from_pixel(width, height, image::Rgba([7, 8, 9, 255]));
    let mut bytes: Vec<u8> = Vec::new();
    image::DynamicImage::ImageRgba8(image)
        .write_to(&mut std::io::Cursor::new(&mut bytes), image::ImageFormat::Png)
        .expect("encoding a fresh image cannot fail");
    bytes
}

#[test]
fn load_texture_raw_decodes_and_registers() {
    let mut store = TextureStore::new();
    let id = AssetsId::new(b"0123456789abcdef0123456789abcdef0123");
    let bytes = encode_png(5, 3);
    let decoded = store.load_texture_raw(id, &bytes).expect("valid PNG bytes decode");
    assert_eq!(decoded.width, 5);
    assert_eq!(decoded.height, 3);
    assert_eq!(decoded.pixels.len(), 5 * 3 * 4);
    assert_eq!(decoded.pixels[0], 7);
    assert_eq!(decoded.pixels[1], 8);
    assert_eq!(decoded.pixels[2], 9);
    let info = store.get(&id).expect("the size must be registered");
    assert_eq!(info.width, 5);
    assert_eq!(info.height, 3);
}

#[test]
fn load_texture_raw_rejects_garbage() {
    let mut store = TextureStore::new();
    let id = AssetsId::from_u32(1);
    let garbage = vec![0u8, 1, 2, 3, 4, 5];
    assert!(store.load_texture_raw(id, &garbage).is_none());
    assert!(store.get(&id).is_none());
}

#[test]
fn get_missing_id_is_none() {
    let store = TextureStore::new();
    assert!(store.get(&AssetsId::from_u32(42)).is_none());
}

#[test]
fn load_texture_assigns_increasing_ids() {
    let mut store = TextureStore::new();
    let image = DecodedImage { width: 2, height: 2, pixels: vec![0u8; 16] };
    let first = store.load_texture(&image);
    let second = store.load_texture(&image);
    assert_eq!(first, AssetsId::from_u32(1));
    assert_eq!(second, AssetsId::from_u32(2));
    assert_ne!(first, second);
    assert!(store.get(&first).is_some());
    assert!(store.get(&second).is_some());
}

#[test]
fn auto_ids_never_collide_with_fixed_ids() {
    // A fixed identifier starts with a nonzero ASCII byte; a counter
    // identifier starts with zero bytes.
    let fixed = AssetsId::new(b"bbe14c53-ab76-40b4-8383-1c3da2ca0a2b");
    let auto = AssetsId::from_u32(u32::MAX);
    assert_ne!(fixed, auto);
    let mut store = TextureStore::new();
    let image = DecodedImage { width: 1, height: 1, pixels: vec![0u8; 4] };
    store.load_texture_with_key(&image, Some(fixed));
    let assigned = store.load_texture(&image);
    assert_ne!(assigned, fixed);
}

#[test]
fn reloading_an_id_replaces_its_entry() {
    let mut store = TextureStore::new();
    let id = AssetsId::from_u32(9);
    let small = DecodedImage { width: 2, height: 2, pixels: vec![0u8; 16] };
    let large = DecodedImage { width: 8, height: 4, pixels: vec![0u8; 128] };
    store.load_texture_with_key(&small, Some(id));
    store.load_texture_with_key(&large, Some(id));
    let info = store.get(&id).expect("the entry stays registered");
    assert_eq!(info.width, 8);
    assert_eq!(info.height, 4);
}

#[test]
fn from_u32_big_endian_tail() {
    let id = AssetsId::from_u32(0x01020304);
    assert_eq!(id.0[31], 0);
    assert_eq!(id.0[32], 1);
    assert_eq!(id.0[33], 2);
    assert_eq!(id.0[34], 3);
    assert_eq!(id.0[35], 4);
    for i in 0..32 {
        assert_eq!(id.0[i], 0);
    }
}

#[test]
fn default_store_is_empty() {
    let store = TextureStore::default();
    assert!(store.get(&AssetsId::default()).is_none());
}

use rusterizer::{unit_from_byte, Texture, Vec4, ONE, SENTINEL};

fn small_texture() -> Texture {
    // 4 texels wide, 2 high
    Texture::new(4, 2, vec![10, 11, 12, 13, 20, 21, 22, 23]).unwrap()
}

#[test]
fn texture_needs_texels_and_matching_data() {
    assert!(Texture::new(4, 2, vec![0; 8]).is_some());
    assert!(Texture::new(0, 2, vec![]).is_none());
    assert!(Texture::new(2, 0, vec![]).is_none());
    assert!(Texture::new(4, 2, vec![0; 7]).is_none());
    assert!(Texture::new(4, 2, vec![0; 9]).is_none());
    assert!(Texture::new(usize::MAX, 2, vec![0; 2]).is_none());
    let t = small_texture();
    assert_eq!((t.width, t.height), (4, 2));
    assert_eq!(t.data, vec![10, 11, 12, 13, 20, 21, 22, 23]);
}

#[test]
fn coordinates_select_texels_row_by_row() {
    let t = small_texture();
    assert_eq!(t.uv_to_index(0, 0), 0);
    assert_eq!(t.uv_to_index(ONE / 4, 0), 1);
    assert_eq!(t.uv_to_index(ONE / 4 - 1, 0), 0);
    assert_eq!(t.uv_to_index(ONE / 2, ONE / 2), 6);
    assert_eq!(t.uv_to_index(ONE - 1, ONE - 1), 7);
    assert_eq!(t.argb_at_uv(0, 0), 10);
    assert_eq!(t.argb_at_uv(3 * ONE / 4, 0), 13);
    assert_eq!(t.argb_at_uv(0, ONE / 2), 20);
    assert_eq!(t.argb_at_uv(ONE - 1, ONE - 1), 23);
}

#[test]
fn sampling_wraps_around() {
    let t = small_texture();
    assert_eq!(t.uv_to_index(ONE, ONE), 0);
    for u in [0, 1, 100, ONE / 4, ONE / 3, ONE / 2, ONE - 1] {
        for v in [0, 7, ONE / 2 - 1, ONE / 2, ONE - 1] {
            assert_eq!(t.uv_to_index(u + ONE, v), t.uv_to_index(u, v));
            assert_eq!(t.uv_to_index(u, v + ONE), t.uv_to_index(u, v));
            assert_eq!(t.argb_at_uv(u + ONE, v), t.argb_at_uv(u, v));
            assert_eq!(t.argb_at_uv(u + 5 * ONE, v + 3 * ONE), t.argb_at_uv(u, v));
            assert_eq!(t.argb_at_uvf(u + ONE, v + ONE), t.argb_at_uvf(u, v));
        }
    }
    assert_eq!(t.argb_at_uv(ONE + 100, 0), t.argb_at_uv(100, 0));
    assert_eq!(t.argb_at_uv(i32::MAX, i32::MAX), t.argb_at_uv(i32::MAX - ONE, i32::MAX - ONE));
}

#[test]
fn negative_coordinates_select_the_first_texel() {
    let t = small_texture();
    assert_eq!(t.uv_to_index(-1, 0), 0);
    assert_eq!(t.uv_to_index(i32::MIN, i32::MIN), 0);
    assert_eq!(t.argb_at_uv(-ONE / 2, ONE / 2), 20);
}

#[test]
fn samples_outside_the_data_give_the_sentinel() {
    assert_eq!(SENTINEL, 0xFFFF_00FF);
    let short = Texture { width: 4, height: 2, data: vec![1, 2, 3] };
    assert_eq!(short.argb_at_uv(0, 0), 1);
    assert_eq!(short.argb_at_uv(ONE / 2, 0), 3);
    assert_eq!(short.argb_at_uv(3 * ONE / 4, 0), SENTINEL);
    assert_eq!(short.argb_at_uv(0, ONE / 2), SENTINEL);
    assert_eq!(short.argb_at_uvf(0, ONE / 2), Vec4::new(ONE, ONE, 0, ONE));
    let empty = Texture { width: 0, height: 0, data: vec![] };
    assert_eq!(empty.argb_at_uv(0, 0), SENTINEL);
    assert_eq!(empty.argb_at_uvf(5, 5), Vec4::new(ONE, ONE, 0, ONE));
    let huge = Texture { width: usize::MAX, height: usize::MAX, data: vec![42] };
    assert_eq!(huge.argb_at_uv(0, 0), 42);
    assert_eq!(huge.argb_at_uv(1, 1), SENTINEL);
}

#[test]
fn colours_are_unpacked_to_the_unit_range() {
    assert_eq!(unit_from_byte(0), 0);
    assert_eq!(unit_from_byte(255), ONE);
    assert_eq!(unit_from_byte(128), 32896);
    assert_eq!(unit_from_byte(1), 257);
    let t = Texture::new(1, 1, vec![0xFF80_0001]).unwrap();
    assert_eq!(t.argb_at_uvf(0, 0), Vec4::new(ONE, 32896, 0, 257));
}

#[test]
fn textures_are_packed_from_rgba_bytes() {
    let bytes: Vec<u8> = vec![1, 2, 3, 4, 10, 20, 30, 40, 0, 0, 0, 255, 255, 255, 255, 0];
    let t = Texture::from_rgba8(2, 2, &bytes).unwrap();
    assert_eq!((t.width, t.height), (2, 2));
    assert_eq!(t.data, vec![0x0401_0203, 0x280A_141E, 0xFF00_0000, 0x00FF_FFFF]);
    assert!(Texture::from_rgba8(2, 2, &bytes[..15]).is_none());
    assert!(Texture::from_rgba8(2, 1, &bytes).is_none());
    assert!(Texture::from_rgba8(4, 1, &bytes).is_some());
    assert!(Texture::from_rgba8(usize::MAX, 4, &bytes).is_none());
    let none = Texture::from_rgba8(0, 0, &[]).unwrap();
    assert!(none.data.is_empty());
    assert!(Texture::from_rgba8(0, 7, &[]).is_some());
}

use sphere_view::texture::{uv_debug_texture, BYTES_PER_PIXEL, TEXTURE_SIZE};

#[test]
fn texture_is_eight_by_eight_rgba() {
    let t = uv_debug_texture();
    assert_eq!(t.width, 8);
    assert_eq!(t.height, 8);
    assert_eq!(t.data.len(), 256);
}

#[test]
fn texture_data_covers_every_pixel() {
    let t = uv_debug_texture();
    assert_eq!(TEXTURE_SIZE, 8);
    assert_eq!(BYTES_PER_PIXEL, 4);
    assert_eq!(t.data.len(), (t.width * t.height) as usize * BYTES_PER_PIXEL);
}

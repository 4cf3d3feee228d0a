use vstd::prelude::*;

verus! {

/// Side of the square debug texture, in pixels.
pub const TEXTURE_SIZE: usize = 8;

/// Bytes per pixel: red, green, blue and alpha, one byte each.
pub const BYTES_PER_PIXEL: usize = 4;

/// A square RGBA8 texture of random noise, laid out row by row.
pub struct DebugTexture {
    pub width: u32,
    pub height: u32,
    pub data: Vec<u8>,
}

impl DebugTexture {
    /// The pixel data covers the whole image, four bytes per pixel.
    pub open spec fn wf(&self) -> bool {
        self.data@.len() == self.width as int * self.height as int * BYTES_PER_PIXEL as int
    }
}

/// Relies on rand::random::<u8>, a byte drawn from the thread-local generator;
/// nothing is known of its value.
#[verifier::external_body]
fn random_byte() -> (r: u8) {
    rand::random::<u8>()
}

/// Builds the debug texture: `TEXTURE_SIZE` by `TEXTURE_SIZE` pixels, every
/// byte of every pixel drawn at random.
pub fn uv_debug_texture() -> (r: DebugTexture)
    ensures
        r.wf(),
        r.width == TEXTURE_SIZE,
        r.height == TEXTURE_SIZE,
        r.data@.len() == TEXTURE_SIZE * TEXTURE_SIZE * BYTES_PER_PIXEL,
{
    let len: usize = TEXTURE_SIZE * TEXTURE_SIZE * BYTES_PER_PIXEL;
    let mut data: Vec<u8> = Vec::with_capacity(len);
    let mut i: usize = 0;
    while i < len
        invariant
            len == TEXTURE_SIZE * TEXTURE_SIZE * BYTES_PER_PIXEL,
            i <= len,
            data@.len() == i,
        decreases len - i,
    {
        data.push(random_byte());
        i = i + 1;
    }
    DebugTexture { width: TEXTURE_SIZE as u32, height: TEXTURE_SIZE as u32, data }
}

} // verus!

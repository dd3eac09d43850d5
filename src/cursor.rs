//! Hardware cursor shapes and their decoding into the two 32-bit-per-pixel
//! buffers (`norm` and `mask`) that the presenter blends onto the frame.
//!
//! Output pixels are 32-bit words whose bytes, least significant first, are
//! red, green, blue and alpha.

use vstd::prelude::*;

verus! {

/// Pointer-shape type code of the capture API: monochrome AND/XOR masks.
pub const POINTER_SHAPE_TYPE_MONOCHROME: u32 = 1;

/// Pointer-shape type code of the capture API: 32-bit colour.
pub const POINTER_SHAPE_TYPE_COLOR: u32 = 2;

/// Pointer-shape type code of the capture API: 32-bit colour with a mask flag
/// in the top byte.
pub const POINTER_SHAPE_TYPE_MASKED_COLOR: u32 = 4;

/// Opaque white.
pub const OPAQUE_WHITE: u32 = 0xFFFF_FFFF;

/// Opaque black.
pub const OPAQUE_BLACK: u32 = 0xFF00_0000;

/// White colour channels with a zero alpha channel.
pub const WHITE_ZERO_ALPHA: u32 = 0x00FF_FFFF;

/// Fully transparent black.
pub const TRANSPARENT: u32 = 0;

/// Top byte of a pixel.
pub const TOP_BYTE: u32 = 0xFF00_0000;

/// The three low bytes of a pixel.
pub const LOW_BYTES: u32 = 0x00FF_FFFF;

#[derive(Clone, Copy, Debug, PartialEq, Eq, Structural)]
pub enum CursorType {
    Color,
    Monochrome,
    MaskedColor,
}

/// The encoding that a pointer-shape type code names, if any.
pub open spec fn cursor_type_of_code(code: u32) -> Option<CursorType> {
    if code == POINTER_SHAPE_TYPE_MONOCHROME {
        Some(CursorType::Monochrome)
    } else if code == POINTER_SHAPE_TYPE_COLOR {
        Some(CursorType::Color)
    } else if code == POINTER_SHAPE_TYPE_MASKED_COLOR {
        Some(CursorType::MaskedColor)
    } else {
        None
    }
}

impl CursorType {
    pub fn from_shape_type(code: u32) -> (r: Option<CursorType>)
        ensures
            r == cursor_type_of_code(code),
    {
        if code == POINTER_SHAPE_TYPE_MONOCHROME {
            Some(CursorType::Monochrome)
        } else if code == POINTER_SHAPE_TYPE_COLOR {
            Some(CursorType::Color)
        } else if code == POINTER_SHAPE_TYPE_MASKED_COLOR {
            Some(CursorType::MaskedColor)
        } else {
            None
        }
    }
}

/// A captured pointer shape. `height` is the height of the sprite: for a
/// monochrome shape, half the height that the capture API reports, since its
/// buffer stacks the AND mask on top of the XOR mask.
#[derive(Clone, Debug, PartialEq, Eq)]
pub struct CursorData {
    pub cursor_type: CursorType,
    pub width: u32,
    pub height: u32,
    pub data: Vec<u8>,
}

/// Bit `k` of `b`, counting from the most significant bit (`k` in `0..8`).
pub open spec fn msb_bit(b: u8, k: u8) -> bool {
    b & (0x80u8 >> k) != 0
}

/// Bit `i` of a row-major bit mask stored most significant bit first.
pub open spec fn mask_bit(bytes: Seq<u8>, i: int) -> bool {
    msb_bit(bytes[i / 8], (i % 8) as u8)
}

/// The bits of `value`, most significant first, as a sequence of flags.
pub open spec fn bits_of(value: u8, count: nat) -> Seq<bool> {
    Seq::new(count, |k: int| msb_bit(value, k as u8))
}

/// The bits of one byte, most significant first.
pub struct U8Iter {
    value: u8,
    size: u32,
}

proof fn lemma_shift_moves_bits(v: u8, k: u8)
    requires
        k < 7,
    ensures
        msb_bit(v << 1u8, k) == msb_bit(v, (k + 1) as u8),
{
    assert(((v << 1u8) & (0x80u8 >> k) != 0) == (v & (0x80u8 >> ((k + 1) as u8)) != 0))
        by (bit_vector)
        requires
            k < 7,
    ;
}

impl View for U8Iter {
    type V = Seq<bool>;

    /// The bits still to come.
    closed spec fn view(&self) -> Seq<bool> {
        bits_of(self.value, self.size as nat)
    }
}

impl U8Iter {
    pub closed spec fn wf(&self) -> bool {
        self.size <= 8
    }

    pub fn new(value: u8) -> (r: U8Iter)
        ensures
            r.wf(),
            r@ == bits_of(value, 8),
    {
        U8Iter { value, size: 8 }
    }

    /// The next bit, or `None` once all eight have been handed out.
    pub fn next(&mut self) -> (r: Option<bool>)
        requires
            old(self).wf(),
        ensures
            final(self).wf(),
            old(self)@.len() == 0 ==> r is None && final(self)@ == old(self)@,
            old(self)@.len() > 0 ==> r == Some(old(self)@[0]) && final(self)@ == old(self)@.drop_first(),
    {
        if self.size > 0 {
            let result = self.value & 0x80 != 0;
            let ghost before = self.value;
            self.size = self.size - 1;
            self.value = self.value << 1u8;
            proof {
                assert(0x80u8 >> 0u8 == 0x80u8) by (bit_vector);
                assert forall|k: int| 0 <= k < self.size implies #[trigger] self@[k] == old(
                    self,
                )@.drop_first()[k] by {
                    lemma_shift_moves_bits(before, k as u8);
                }
                assert(self@ =~= old(self)@.drop_first());
            }
            Some(result)
        } else {
            None
        }
    }

    /// How many bits are left: always the exact count.
    pub fn size_hint(&self) -> (r: (usize, Option<usize>))
        requires
            self.wf(),
        ensures
            r == (self@.len() as usize, Some(self@.len() as usize)),
    {
        (self.size as usize, Some(self.size as usize))
    }
}


/// The output pixel made from one captured 4-byte pixel `[b0, b1, b2, b3]`:
/// the little-endian word of `[b2, b1, b0, b3]`, so that the first and third
/// channels trade places.
pub open spec fn pixel_from_bytes(b0: u8, b1: u8, b2: u8, b3: u8) -> u32 {
    (b2 as int + 0x100 * (b1 as int) + 0x1_0000 * (b0 as int) + 0x100_0000 * (b3 as int)) as u32
}

/// Pixel `i` of a packed 4-byte-per-pixel buffer.
pub open spec fn color_pixel(data: Seq<u8>, i: int) -> u32 {
    pixel_from_bytes(data[4 * i], data[4 * i + 1], data[4 * i + 2], data[4 * i + 3])
}

/// All whole pixels of a packed 4-byte-per-pixel buffer; a trailing partial
/// pixel is dropped.
pub open spec fn color_pixels(data: Seq<u8>) -> Seq<u32> {
    Seq::new(data.len() / 4, |i: int| color_pixel(data, i))
}

/// Masked-colour `norm` pixel: a pixel whose top byte is set keeps its colour
/// with the top byte cleared; any other is made opaque.
pub open spec fn masked_norm(p: u32) -> u32 {
    if p & TOP_BYTE != 0 {
        p & LOW_BYTES
    } else {
        p | TOP_BYTE
    }
}

/// Masked-colour `mask` pixel: a pixel whose top byte is set keeps its colour
/// with the top byte cleared; any other becomes opaque black.
pub open spec fn masked_mask(p: u32) -> u32 {
    if p & TOP_BYTE != 0 {
        p & LOW_BYTES
    } else {
        OPAQUE_BLACK
    }
}

/// One pixel per bit of a mask, `on` where the bit is set and `off` where not.
pub open spec fn mask_pixels(bytes: Seq<u8>, on: u32, off: u32) -> Seq<u32> {
    Seq::new(
        8 * bytes.len(),
        |i: int|
            if mask_bit(bytes, i) {
                on
            } else {
                off
            },
    )
}

/// The AND mask of a monochrome buffer: its first half.
pub open spec fn and_mask(data: Seq<u8>) -> Seq<u8> {
    data.subrange(0, (data.len() / 2) as int)
}

/// The XOR mask of a monochrome buffer: the half after the AND mask.
pub open spec fn xor_mask(data: Seq<u8>) -> Seq<u8> {
    data.subrange((data.len() / 2) as int, (2 * (data.len() / 2)) as int)
}

/// The `norm` buffer that a shape of encoding `t` with raw bytes `data`
/// decodes to.
pub open spec fn decoded_norm(t: CursorType, data: Seq<u8>) -> Seq<u32> {
    match t {
        CursorType::Color => color_pixels(data),
        CursorType::Monochrome => mask_pixels(and_mask(data), OPAQUE_WHITE, OPAQUE_BLACK),
        CursorType::MaskedColor => Seq::new(
            data.len() / 4,
            |i: int| masked_norm(color_pixel(data, i)),
        ),
    }
}

/// The `mask` buffer that a shape of encoding `t` with raw bytes `data`
/// decodes to; colour shapes have none.
pub open spec fn decoded_mask(t: CursorType, data: Seq<u8>) -> Option<Seq<u32>> {
    match t {
        CursorType::Color => None,
        CursorType::Monochrome => Some(mask_pixels(xor_mask(data), WHITE_ZERO_ALPHA, TRANSPARENT)),
        CursorType::MaskedColor => Some(
            Seq::new(data.len() / 4, |i: int| masked_mask(color_pixel(data, i))),
        ),
    }
}

/// Whether a buffer of `len` bytes holds exactly the pixels of a
/// `width` x `height` sprite of encoding `t`: four bytes per pixel for the
/// colour encodings, one bit per pixel in each of two masks for monochrome.
pub open spec fn shape_fits(t: CursorType, width: u32, height: u32, len: int) -> bool {
    let n = width as int * height as int;
    match t {
        CursorType::Monochrome => n % 8 == 0 && len == 2 * (n / 8),
        _ => len == 4 * n,
    }
}

fn pixel_of_bytes(b0: u8, b1: u8, b2: u8, b3: u8) -> (r: u32)
    ensures
        r == pixel_from_bytes(b0, b1, b2, b3),
{
    b2 as u32 + (b1 as u32) * 0x100 + (b0 as u32) * 0x1_0000 + (b3 as u32) * 0x100_0000
}

/// Reorders a packed 4-byte-per-pixel buffer into output pixels.
pub fn bgra_to_rgba(bytes: &[u8]) -> (r: Vec<u32>)
    ensures
        r@ == color_pixels(bytes@),
{
    let n = bytes.len() / 4;
    let mut out: Vec<u32> = Vec::new();
    let mut i: usize = 0;
    while i < n
        invariant
            n == bytes@.len() / 4,
            i <= n,
            out@.len() == i,
            forall|j: int| 0 <= j < i ==> out@[j] == color_pixel(bytes@, j),
        decreases n - i,
    {
        assert(4 * i + 3 < bytes@.len());
        assert(bytes@.len() == bytes.len());
        let at = 4 * i;
        let p = pixel_of_bytes(bytes[at], bytes[at + 1], bytes[at + 2], bytes[at + 3]);
        out.push(p);
        i = i + 1;
    }
    assert(out@ =~= color_pixels(bytes@));
    out
}

/// Decodes a colour shape: one output pixel per packed pixel, no mask.
pub fn decode_color(data: &[u8]) -> (r: Vec<u32>)
    ensures
        r@ == decoded_norm(CursorType::Color, data@),
{
    bgra_to_rgba(data)
}

/// Decodes a masked-colour shape into its `norm` and `mask` buffers.
pub fn decode_masked_color(data: &[u8]) -> (r: (Vec<u32>, Vec<u32>))
    ensures
        r.0@ == decoded_norm(CursorType::MaskedColor, data@),
        Some(r.1@) == decoded_mask(CursorType::MaskedColor, data@),
{
    let pixels = bgra_to_rgba(data);
    let mut norm: Vec<u32> = Vec::new();
    let mut mask: Vec<u32> = Vec::new();
    let mut i: usize = 0;
    while i < pixels.len()
        invariant
            pixels@ == color_pixels(data@),
            i <= pixels@.len(),
            norm@.len() == i,
            mask@.len() == i,
            forall|j: int| 0 <= j < i ==> norm@[j] == masked_norm(color_pixel(data@, j)),
            forall|j: int| 0 <= j < i ==> mask@[j] == masked_mask(color_pixel(data@, j)),
        decreases pixels@.len() - i,
    {
        let c = pixels[i];
        if c & TOP_BYTE != 0 {
            norm.push(c & LOW_BYTES);
            mask.push(c & LOW_BYTES);
        } else {
            norm.push(c | TOP_BYTE);
            mask.push(OPAQUE_BLACK);
        }
        i = i + 1;
    }
    assert(norm@ =~= decoded_norm(CursorType::MaskedColor, data@));
    assert(mask@ =~= decoded_mask(CursorType::MaskedColor, data@)->0);
    (norm, mask)
}

/// One pixel per bit of `bytes[start..end]`, most significant bit of each
/// byte first: `on` for a set bit, `off` for a clear one.
fn expand_mask(bytes: &[u8], start: usize, end: usize, on: u32, off: u32) -> (r: Vec<u32>)
    requires
        start <= end <= bytes@.len(),
    ensures
        r@ == mask_pixels(bytes@.subrange(start as int, end as int), on, off),
{
    let ghost sub = bytes@.subrange(start as int, end as int);
    let mut out: Vec<u32> = Vec::new();
    let mut j: usize = start;
    while j < end
        invariant
            start <= j <= end <= bytes@.len(),
            sub == bytes@.subrange(start as int, end as int),
            out@.len() == 8 * (j - start),
            forall|i: int|
                0 <= i < out@.len() ==> out@[i] == (if mask_bit(sub, i) {
                    on
                } else {
                    off
                }),
        decreases end - j,
    {
        let byte = bytes[j];
        let mut bits = U8Iter::new(byte);
        let mut k: usize = 0;
        while k < 8
            invariant
                start <= j < end <= bytes@.len(),
                sub == bytes@.subrange(start as int, end as int),
                byte == sub[j - start],
                k <= 8,
                bits.wf(),
                bits@ == bits_of(byte, 8).skip(k as int),
                out@.len() == 8 * (j - start) + k,
                forall|i: int|
                    0 <= i < out@.len() ==> out@[i] == (if mask_bit(sub, i) {
                        on
                    } else {
                        off
                    }),
            decreases 8 - k,
        {
            let ghost at = out@.len() as int;
            assert(at / 8 == j - start && at % 8 == k as int);
            if let Some(bit) = bits.next() {
                out.push(if bit { on } else { off });
            }
            assert(bits@ =~= bits_of(byte, 8).skip(k + 1));
            k = k + 1;
        }
        j = j + 1;
    }
    assert(out@ =~= mask_pixels(sub, on, off));
    out
}

/// Decodes a monochrome shape: the first half of `data` is the AND mask and
/// gives `norm`, the second half is the XOR mask and gives `mask`. An odd
/// trailing byte belongs to neither.
pub fn decode_monochrome(data: &[u8]) -> (r: (Vec<u32>, Vec<u32>))
    ensures
        r.0@ == decoded_norm(CursorType::Monochrome, data@),
        Some(r.1@) == decoded_mask(CursorType::Monochrome, data@),
{
    let half = data.len() / 2;
    let and_buffer = expand_mask(data, 0, half, OPAQUE_WHITE, OPAQUE_BLACK);
    let xor_buffer = expand_mask(data, half, 2 * half, WHITE_ZERO_ALPHA, TRANSPARENT);
    (and_buffer, xor_buffer)
}

/// A decoded sprite: `width` x `height` pixels in `norm`, and in `mask` for
/// the encodings that have one.
#[derive(Clone, Debug, PartialEq, Eq)]
pub struct DecodedCursor {
    pub cursor_type: CursorType,
    pub width: u32,
    pub height: u32,
    pub norm: Vec<u32>,
    pub mask: Option<Vec<u32>>,
}

/// Decodes a captured shape, or gives `None` when its buffer does not hold
/// exactly the pixels that its size and encoding call for.
pub fn decode(shape: &CursorData) -> (r: Option<DecodedCursor>)
    ensures
        r is Some <==> shape_fits(shape.cursor_type, shape.width, shape.height, shape.data@.len() as int),
        r matches Some(d) ==> {
            &&& d.cursor_type == shape.cursor_type
            &&& d.width == shape.width
            &&& d.height == shape.height
            &&& d.norm@ == decoded_norm(shape.cursor_type, shape.data@)
            &&& d.norm@.len() == shape.width as int * shape.height as int
            &&& match d.mask {
                Some(m) => decoded_mask(shape.cursor_type, shape.data@) == Some(m@),
                None => decoded_mask(shape.cursor_type, shape.data@) is None,
            }
        },
{
    let w = shape.width;
    let h = shape.height;
    proof {
        assert(w as int * h as int <= 0xFFFF_FFFF_FFFF_FFFF) by (nonlinear_arith)
            requires
                w <= 0xFFFF_FFFFu32,
                h <= 0xFFFF_FFFFu32,
        ;
    }
    let n: u64 = (w as u64) * (h as u64);
    let len = shape.data.len();
    let data = shape.data.as_slice();
    match shape.cursor_type {
        CursorType::Monochrome => {
            if n % 8 != 0 || len % 2 != 0 || (len / 2) as u64 != n / 8 {
                return None;
            }
            let (norm, mask) = decode_monochrome(data);
            Some(
                DecodedCursor {
                    cursor_type: CursorType::Monochrome,
                    width: w,
                    height: h,
                    norm,
                    mask: Some(mask),
                },
            )
        },
        CursorType::Color => {
            if len % 4 != 0 || (len / 4) as u64 != n {
                return None;
            }
            let norm = decode_color(data);
            Some(DecodedCursor { cursor_type: CursorType::Color, width: w, height: h, norm, mask: None })
        },
        CursorType::MaskedColor => {
            if len % 4 != 0 || (len / 4) as u64 != n {
                return None;
            }
            let (norm, mask) = decode_masked_color(data);
            Some(
                DecodedCursor {
                    cursor_type: CursorType::MaskedColor,
                    width: w,
                    height: h,
                    norm,
                    mask: Some(mask),
                },
            )
        },
    }
}


/// What the presenter holds of its cursor sprite: the size of its two
/// textures, the encoding last uploaded, and whether anything has been
/// uploaded at all.
#[derive(Clone, Copy, Debug, PartialEq, Eq, Structural)]
pub struct SpriteState {
    pub valid: bool,
    pub cursor_type: CursorType,
    pub width: u32,
    pub height: u32,
}

impl SpriteState {
    /// Fresh textures of the given size, with nothing captured yet.
    pub fn new(width: u32, height: u32) -> (r: SpriteState)
        ensures
            r == (SpriteState { valid: false, cursor_type: CursorType::Color, width, height }),
    {
        SpriteState { valid: false, cursor_type: CursorType::Color, width, height }
    }

    /// Whether a sprite of the given size needs new textures: only when the
    /// size differs from the current one.
    pub fn needs_realloc(&self, width: u32, height: u32) -> (r: bool)
        ensures
            r == (self.width != width || self.height != height),
    {
        self.width != width || self.height != height
    }

    /// Records that `decoded` has been uploaded (into reallocated textures
    /// where its size differs). Returns whether the textures were
    /// reallocated.
    pub fn record_upload(&mut self, decoded: &DecodedCursor) -> (r: bool)
        ensures
            r == (old(self).width != decoded.width || old(self).height != decoded.height),
            *final(self) == (SpriteState {
                valid: true,
                cursor_type: decoded.cursor_type,
                width: decoded.width,
                height: decoded.height,
            }),
    {
        let realloc = self.needs_realloc(decoded.width, decoded.height);
        *self = SpriteState {
            valid: true,
            cursor_type: decoded.cursor_type,
            width: decoded.width,
            height: decoded.height,
        };
        realloc
    }
}

proof fn lemma_full_and_empty_bytes(k: u8)
    requires
        k < 8,
    ensures
        msb_bit(0xFFu8, k),
        !msb_bit(0u8, k),
{
    assert(0xFFu8 & (0x80u8 >> k) != 0) by (bit_vector)
        requires
            k < 8,
    ;
    assert(0u8 & (0x80u8 >> k) == 0) by (bit_vector);
}

/// A monochrome shape whose AND bytes are all ones and whose XOR bytes are
/// all zeros leaves the screen as it is: its `norm` is opaque white at every
/// pixel and its `mask` is fully transparent at every pixel.
pub proof fn lemma_monochrome_neutral_shape(data: Seq<u8>)
    requires
        forall|j: int| 0 <= j < data.len() / 2 ==> data[j] == 0xFFu8,
        forall|j: int| data.len() / 2 <= j < 2 * (data.len() / 2) ==> data[j] == 0u8,
    ensures
        decoded_norm(CursorType::Monochrome, data).len() == 8 * (data.len() / 2),
        forall|i: int|
            0 <= i < 8 * (data.len() / 2) ==> decoded_norm(CursorType::Monochrome, data)[i]
                == OPAQUE_WHITE,
        decoded_mask(CursorType::Monochrome, data) is Some,
        decoded_mask(CursorType::Monochrome, data)->0.len() == 8 * (data.len() / 2),
        forall|i: int|
            0 <= i < 8 * (data.len() / 2) ==> decoded_mask(CursorType::Monochrome, data)->0[i]
                == TRANSPARENT,
{
    let half = data.len() / 2;
    assert forall|i: int| 0 <= i < 8 * half implies mask_bit(and_mask(data), i) && !mask_bit(
        xor_mask(data),
        i,
    ) by {
        lemma_full_and_empty_bytes((i % 8) as u8);
        assert(and_mask(data)[i / 8] == data[i / 8]);
        assert(xor_mask(data)[i / 8] == data[half + i / 8]);
    }
}

/// At the pixel in column `x` and row `y` of a monochrome sprite `width`
/// pixels wide, a clear AND bit and a set XOR bit decode to opaque black in
/// `norm` and to white with a zero alpha channel in `mask`; pixels are laid
/// out row by row.
pub proof fn lemma_monochrome_spot(data: Seq<u8>, width: int, x: int, y: int)
    requires
        0 <= x < width,
        0 <= y,
        y * width + x < 8 * (data.len() / 2),
        !mask_bit(and_mask(data), y * width + x),
        mask_bit(xor_mask(data), y * width + x),
    ensures
        decoded_norm(CursorType::Monochrome, data)[y * width + x] == OPAQUE_BLACK,
        decoded_mask(CursorType::Monochrome, data)->0[y * width + x] == WHITE_ZERO_ALPHA,
{
    assert(0 <= y * width) by (nonlinear_arith)
        requires
            0 <= y,
            0 <= x < width,
    ;
}

/// A buffer that repeats one 4-byte pixel decodes, as a colour shape, to that
/// pixel's output value at every position.
pub proof fn lemma_repeated_color_pixel(data: Seq<u8>, px: Seq<u8>)
    requires
        px.len() == 4,
        forall|j: int| 0 <= j < data.len() ==> data[j] == px[j % 4],
    ensures
        forall|i: int|
            0 <= i < decoded_norm(CursorType::Color, data).len() ==> decoded_norm(
                CursorType::Color,
                data,
            )[i] == pixel_from_bytes(px[0], px[1], px[2], px[3]),
{
    assert forall|i: int| 0 <= i < data.len() / 4 implies color_pixel(data, i) == pixel_from_bytes(
        px[0],
        px[1],
        px[2],
        px[3],
    ) by {
        assert((4 * i) % 4 == 0 && (4 * i + 1) % 4 == 1 && (4 * i + 2) % 4 == 2 && (4 * i + 3) % 4
            == 3);
    }
}

} // verus!

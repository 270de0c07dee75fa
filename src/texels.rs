//! Texel descriptors: pixel bytes with their height, width, channel count and
//! row stride, checked on the way in, plus the flat-quadrant synthesizer.
use vstd::arithmetic::div_mod::{lemma_fundamental_div_mod, lemma_fundamental_div_mod_converse};
use vstd::prelude::*;

verus! {

/// A texture's pixels: `height` rows of `bytes_per_row` bytes each, the first
/// `width * channels` of which hold the row's pixels.
#[derive(Debug)]
pub struct Texels {
    pub height: u32,
    pub width: u32,
    pub channels: u32,
    pub bytes_per_row: u32,
    pub data: Vec<u8>,
}

/// Why a texel descriptor was refused.
#[derive(Debug)]
pub enum TexelError {
    /// The image at `path` could not be decoded, for the reason in `cause`.
    Decode { path: String, cause: String },
    /// The channel count is neither 1, 3 nor 4.
    BadChannels(u32),
    /// A row holds fewer bytes than its pixels need.
    ShortRows,
    /// The buffer's length is not rows times stride.
    BadLength,
    /// Widening three channels to four would not fit in 32 bits.
    TooLarge,
}

/// Texture formats that a descriptor can be uploaded as.
#[derive(Clone, Copy, Debug, PartialEq, Eq, Structural)]
pub enum TexFormat {
    /// One unsigned 8-bit channel.
    R8Uint,
    /// Four unsigned 8-bit channels.
    Rgba8Uint,
}

impl Texels {
    /// Channel count 1 or 4, rows wide enough for their pixels, and a buffer
    /// of exactly `height` rows.
    pub open spec fn wf(self) -> bool {
        &&& (self.channels == 1 || self.channels == 4)
        &&& self.bytes_per_row >= self.width * self.channels
        &&& self.data@.len() == self.bytes_per_row * self.height
    }

    /// Byte `k` of the pixel in row `r`, column `c`.
    pub open spec fn byte_at(self, r: int, c: int, k: int) -> u8 {
        self.data@[r * self.bytes_per_row + c * self.channels + k]
    }

    /// The format to upload these texels as.
    pub fn format(&self) -> (r: TexFormat)
        ensures
            r == format_for(self.channels),
    {
        texture_format(self.channels)
    }

    /// The size uniform that accompanies this texture.
    pub fn size_uniform(&self) -> (r: TexSize)
        ensures
            r.w == self.width,
            r.h == self.height,
            r.ext@ == seq![0u32, 256u32],
    {
        TexSize { w: self.width, h: self.height, ext: [0, 256] }
    }
}

/// The format for `channels` channels: single-channel for one, four-channel
/// otherwise.
pub open spec fn format_for(channels: u32) -> TexFormat {
    if channels == 1 {
        TexFormat::R8Uint
    } else {
        TexFormat::Rgba8Uint
    }
}

/// Chooses the upload format by channel count.
pub fn texture_format(channels: u32) -> (r: TexFormat)
    ensures
        r == format_for(channels),
{
    if channels == 1 {
        TexFormat::R8Uint
    } else {
        TexFormat::Rgba8Uint
    }
}

/// A texture's width and height as handed to the fragment stage, with two
/// reserved words.
#[derive(Clone, Copy, Debug)]
pub struct TexSize {
    pub w: u32,
    pub h: u32,
    pub ext: [u32; 2],
}

impl TexSize {
    /// The four words of the uniform, in order.
    pub fn words(&self) -> (r: [u32; 4])
        ensures
            r@ == seq![self.w, self.h, self.ext@[0], self.ext@[1]],
    {
        let r = [self.w, self.h, self.ext[0], self.ext[1]];
        assert(r@ =~= seq![self.w, self.h, self.ext@[0], self.ext@[1]]);
        r
    }
}


/// Which of the four quadrants the pixel at row `r`, column `c` of a
/// `size` by `size` image lies in: 0 top left, 1 top right, 2 bottom left,
/// 3 bottom right.
pub open spec fn quadrant_of(size: int, r: int, c: int) -> int {
    (if r < size / 2 { 0int } else { 2int }) + (if c < size / 2 { 0int } else { 1int })
}

/// Byte `j` of a tightly packed four-channel `size` by `size` image whose
/// quadrants are filled with the colors `cols`.
pub open spec fn quadrant_byte(size: int, cols: [[u8; 4]; 4], j: int) -> u8 {
    let r = j / (4 * size);
    let c = (j % (4 * size)) / 4;
    cols@[quadrant_of(size, r, c)]@[j % 4]
}

/// A `size` by `size` four-channel image whose top-left, top-right,
/// bottom-left and bottom-right quadrants are filled with `cols[0]` to
/// `cols[3]`.
pub fn create_texels_rgba(size: u32, cols: &[[u8; 4]; 4]) -> (t: Texels)
    requires
        4 * size * size <= u32::MAX,
    ensures
        t.wf(),
        t.height == size,
        t.width == size,
        t.channels == 4,
        t.bytes_per_row == 4 * size,
        t.data@.len() == 4 * size * size,
        forall|j: int| 0 <= j < t.data@.len() ==> #[trigger] t.data@[j] == quadrant_byte(size as int, *cols, j),
{
    proof {
        assert(4 * size <= 4 * size * size || size == 0) by (nonlinear_arith);
    }
    let row: u32 = 4 * size;
    let n: u32 = row * size;
    let half: u32 = size / 2;
    let mut data: Vec<u8> = Vec::new();
    let mut j: u32 = 0;
    while j < n
        invariant
            row == 4 * size,
            n == row * size,
            half == size / 2,
            j <= n,
            data@.len() == j,
            forall|i: int| 0 <= i < j ==> #[trigger] data@[i] == quadrant_byte(size as int, *cols, i),
        decreases n - j,
    {
        let r: u32 = j / row;
        let c: u32 = (j % row) / 4;
        let k: u32 = j % 4;
        let q: usize = (if r < half { 0usize } else { 2usize }) + (if c < half { 0usize } else { 1usize });
        data.push(cols[q][k as usize]);
        j = j + 1;
    }
    Texels { height: size, width: size, channels: 4, bytes_per_row: row, data }
}

/// The pixel at row `r`, column `c` of the quadrant image holds the color of
/// its quadrant, byte for byte.
pub proof fn lemma_quadrant_pixel(size: int, cols: [[u8; 4]; 4], r: int, c: int, k: int)
    requires
        0 <= r < size,
        0 <= c < size,
        0 <= k < 4,
    ensures
        quadrant_byte(size, cols, r * (4 * size) + c * 4 + k) == cols@[quadrant_of(size, r, c)]@[k],
        r < size / 2 && c < size / 2 ==> quadrant_byte(size, cols, r * (4 * size) + c * 4 + k) == cols@[0]@[k],
        r < size / 2 && c >= size / 2 ==> quadrant_byte(size, cols, r * (4 * size) + c * 4 + k) == cols@[1]@[k],
        r >= size / 2 && c < size / 2 ==> quadrant_byte(size, cols, r * (4 * size) + c * 4 + k) == cols@[2]@[k],
        r >= size / 2 && c >= size / 2 ==> quadrant_byte(size, cols, r * (4 * size) + c * 4 + k) == cols@[3]@[k],
{
    let j = r * (4 * size) + c * 4 + k;
    lemma_fundamental_div_mod_converse(j, 4 * size, r, c * 4 + k);
    lemma_fundamental_div_mod_converse(c * 4 + k, 4, c, k);
    assert(r * (4 * size) + c * 4 + k == (r * size + c) * 4 + k) by (nonlinear_arith);
    assert(r * size + c >= 0) by (nonlinear_arith)
        requires
            r >= 0,
            size >= 0,
            c >= 0,
    ;
    lemma_fundamental_div_mod_converse(j, 4, r * size + c, k);
}


/// Byte `j` of the tightly packed four-channel image made from three-channel
/// rows of stride `bpr` in `src`, `width` pixels each: the three color bytes
/// are kept and the fourth is fully opaque.
pub open spec fn widened_byte(src: Seq<u8>, width: int, bpr: int, j: int) -> u8 {
    let r = j / (4 * width);
    let c = (j % (4 * width)) / 4;
    let k = j % 4;
    if k == 3 {
        255u8
    } else {
        src[r * bpr + 3 * c + k]
    }
}

/// The parts make a descriptor as they stand or after widening three
/// channels to four.
pub open spec fn parts_ok(height: int, width: int, channels: int, bpr: int, len: int) -> bool {
    &&& (channels == 1 || channels == 3 || channels == 4)
    &&& bpr >= width * channels
    &&& len == bpr * height
    &&& (channels == 3 ==> 4 * width * height <= u32::MAX && 4 * width <= u32::MAX)
}

proof fn lemma_widened_source(j: int, width: int, height: int, bpr: int, r: int, c: int, k: int)
    requires
        0 <= j < 4 * width * height,
        width >= 0,
        height >= 0,
        bpr >= 3 * width,
        r == j / (4 * width),
        c == (j % (4 * width)) / 4,
        k == j % 4,
    ensures
        0 <= r < height,
        0 <= c < width,
        0 <= k < 4,
        0 <= r * bpr <= r * bpr + 3 * c + k,
        k != 3 ==> r * bpr + 3 * c + k < bpr * height,
{
    let row = 4 * width;
    assert(width > 0 && height > 0) by (nonlinear_arith)
        requires
            0 <= j < 4 * width * height,
            width >= 0,
            height >= 0,
    ;
    lemma_fundamental_div_mod(j, row);
    let m = j % row;
    assert(0 <= r < height) by (nonlinear_arith)
        requires
            j == row * r + m,
            0 <= m < row,
            0 <= j < row * height,
            row == 4 * width,
            row > 0,
    ;
    lemma_fundamental_div_mod(m, 4);
    assert(0 <= c < width);
    assert(0 <= r * bpr) by (nonlinear_arith)
        requires
            r >= 0,
            bpr >= 0,
    ;
    assert(k != 3 ==> r * bpr + 3 * c + k < bpr * height) by (nonlinear_arith)
        requires
            0 <= r < height,
            0 <= c < width,
            0 <= k < 4,
            bpr >= 3 * width,
    ;
}

/// Widening keeps each pixel's three color bytes in place and makes the
/// fourth fully opaque: byte `k` of the pixel at row `r`, column `c` of the
/// widened image comes from the same pixel's byte `k` of the source rows.
pub proof fn lemma_widened_pixel(src: Seq<u8>, width: int, bpr: int, r: int, c: int, k: int)
    requires
        0 <= r,
        0 <= c < width,
        0 <= k < 4,
    ensures
        widened_byte(src, width, bpr, r * (4 * width) + c * 4 + k)
            == if k == 3 { 255u8 } else { src[r * bpr + 3 * c + k] },
{
    let j = r * (4 * width) + c * 4 + k;
    lemma_fundamental_div_mod_converse(j, 4 * width, r, c * 4 + k);
    lemma_fundamental_div_mod_converse(c * 4 + k, 4, c, k);
    assert(r * (4 * width) + c * 4 + k == (r * width + c) * 4 + k) by (nonlinear_arith);
    assert(r * width + c >= 0) by (nonlinear_arith)
        requires
            r >= 0,
            width >= 0,
            c >= 0,
    ;
    lemma_fundamental_div_mod_converse(j, 4, r * width + c, k);
}

impl Texels {
    /// Checks decoded parts and makes them a descriptor. Three-channel pixels
    /// are widened to four channels, tightly packed, with an opaque fourth
    /// byte; one- and four-channel parts are kept as they are.
    pub fn from_parts(height: u32, width: u32, channels: u32, bytes_per_row: u32, data: Vec<u8>) -> (r: Result<Texels, TexelError>)
        ensures
            r is Ok <==> parts_ok(height as int, width as int, channels as int, bytes_per_row as int, data@.len() as int),
            !(channels == 1 || channels == 3 || channels == 4) ==> r == Err::<Texels, TexelError>(TexelError::BadChannels(channels)),
            (channels == 1 || channels == 3 || channels == 4) && bytes_per_row < width * channels
                ==> r matches Err(TexelError::ShortRows),
            (channels == 1 || channels == 3 || channels == 4) && bytes_per_row >= width * channels
                && data@.len() != bytes_per_row * height ==> r matches Err(TexelError::BadLength),
            channels == 3 && bytes_per_row >= width * channels && data@.len() == bytes_per_row * height
                && (4 * width * height > u32::MAX || 4 * width > u32::MAX) ==> r matches Err(TexelError::TooLarge),
            r matches Ok(t) ==> {
                &&& t.wf()
                &&& t.height == height
                &&& t.width == width
                &&& channels != 3 ==> t.channels == channels && t.bytes_per_row == bytes_per_row && t.data@ == data@
                &&& channels == 3 ==> t.channels == 4 && t.bytes_per_row == 4 * width
                    && t.data@.len() == 4 * width * height
                    && forall|j: int| 0 <= j < t.data@.len() ==> #[trigger] t.data@[j]
                        == widened_byte(data@, width as int, bytes_per_row as int, j)
            },
    {
        if !(channels == 1 || channels == 3 || channels == 4) {
            return Err(TexelError::BadChannels(channels));
        }
        proof {
            assert(width * channels <= u64::MAX && bytes_per_row * height <= u64::MAX) by (nonlinear_arith)
                requires
                    width <= u32::MAX,
                    channels <= u32::MAX,
                    bytes_per_row <= u32::MAX,
                    height <= u32::MAX,
            ;
            assert(width * height <= u64::MAX && 4 * width * height == 4 * (width * height)) by (nonlinear_arith)
                requires
                    width <= u32::MAX,
                    height <= u32::MAX,
            ;
        }
        if (bytes_per_row as u64) < (width as u64) * (channels as u64) {
            return Err(TexelError::ShortRows);
        }
        if data.len() as u64 != (bytes_per_row as u64) * (height as u64) {
            return Err(TexelError::BadLength);
        }
        if channels != 3 {
            return Ok(Texels { height, width, channels, bytes_per_row, data });
        }
        let wh: u64 = (width as u64) * (height as u64);
        if wh > (u32::MAX / 4) as u64 || width > u32::MAX / 4 {
            return Err(TexelError::TooLarge);
        }
        let n: usize = (4 * wh) as usize;
        let row: usize = 4 * (width as usize);
        let bpr: usize = bytes_per_row as usize;
        proof {
            if height > 0 {
                assert(4 * width <= 4 * width * height) by (nonlinear_arith)
                    requires height > 0;
            }
        }
        let len: usize = data.len();
        let mut out: Vec<u8> = Vec::new();
        let mut j: usize = 0;
        while j < n
            invariant
                n == 4 * width * height,
                row == 4 * width,
                bpr == bytes_per_row,
                bpr >= 3 * width,
                data@.len() == bpr * height,
                len == data@.len(),
                j <= n,
                out@.len() == j,
                forall|i: int| 0 <= i < j ==> #[trigger] out@[i]
                    == widened_byte(data@, width as int, bpr as int, i),
            decreases n - j,
        {
            proof {
                assert(height > 0) by (nonlinear_arith)
                    requires
                        j < n,
                        n == 4 * width * height,
                ;
            }
            let r: usize = j / row;
            let c: usize = (j % row) / 4;
            let k: usize = j % 4;
            proof {
                lemma_widened_source(j as int, width as int, height as int, bpr as int, r as int, c as int, k as int);
            }
            if k == 3 {
                out.push(255u8);
            } else {
                assert(r * bpr + 3 * c + k < len);
                out.push(data[r * bpr + 3 * c + k]);
            }
            j = j + 1;
        }
        Ok(Texels { height, width, channels: 4, bytes_per_row: 4 * width, data: out })
    }
}

} // verus!

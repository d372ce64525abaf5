//! Conversions between the pixel formats of the screen, the codec and the window.

use vstd::prelude::*;

verus! {

/// A picture as the decoder hands it out: one luma sample per pixel, one pair of
/// chroma samples per block of two by two pixels, and rows that may be padded.
#[derive(Debug)]
pub struct YuvPicture {
    pub y: Vec<u8>,
    pub u: Vec<u8>,
    pub v: Vec<u8>,
    pub width: usize,
    pub height: usize,
    pub y_stride: usize,
    pub uv_stride: usize,
}

/// The luma of a colour.
pub open spec fn luma(r: int, g: int, b: int) -> int {
    (77 * r + 150 * g + 29 * b + 128) / 256
}

/// A value limited to what a byte holds.
pub open spec fn clamped(x: int) -> u8 {
    if x < 0 {
        0
    } else if x > 255 {
        255
    } else {
        x as u8
    }
}

/// The blue-difference chroma of a colour.
pub open spec fn chroma_u(r: int, g: int, b: int) -> u8 {
    clamped((-43 * r - 85 * g + 128 * b + 128) / 256 + 128)
}

/// The red-difference chroma of a colour.
pub open spec fn chroma_v(r: int, g: int, b: int) -> u8 {
    clamped((128 * r - 107 * g - 21 * b + 128) / 256 + 128)
}

/// Component `c` of pixel `p` of an image with four bytes per pixel.
pub open spec fn component(bgra: Seq<u8>, p: int, c: int) -> int {
    bgra[4 * p + c] as int
}

/// The top left pixel of block `k`.
pub open spec fn block_at(width: int, k: int) -> int {
    2 * (k / (width / 2)) * width + 2 * (k % (width / 2))
}

/// Component `c` averaged over the block whose top left pixel is `p`.
pub open spec fn block_average(bgra: Seq<u8>, width: int, p: int, c: int) -> int {
    (component(bgra, p, c) + component(bgra, p + 1, c) + component(bgra, p + width, c) + component(
        bgra,
        p + width + 1,
        c,
    )) / 4
}

/// Both chroma samples of block `k`.
pub open spec fn block_chroma(bgra: Seq<u8>, width: int, k: int) -> (u8, u8) {
    let p = block_at(width, k);
    let r = block_average(bgra, width, p, 2);
    let g = block_average(bgra, width, p, 1);
    let b = block_average(bgra, width, p, 0);
    (chroma_u(r, g, b), chroma_v(r, g, b))
}

/// The I420 form of a BGRA image: the luma of every pixel, then the two chroma
/// planes, with one sample per block each.
pub open spec fn i420(bgra: Seq<u8>, width: int, height: int) -> Seq<u8> {
    let blocks = ((width / 2) * (height / 2)) as nat;
    Seq::new(
        (width * height) as nat,
        |i: int|
            luma(component(bgra, i, 2), component(bgra, i, 1), component(bgra, i, 0)) as u8,
    ) + Seq::new(blocks, |k: int| block_chroma(bgra, width, k).0) + Seq::new(
        blocks,
        |k: int| block_chroma(bgra, width, k).1,
    )
}

/// A block lies inside the image.
proof fn lemma_block_inside(width: int, height: int, k: int)
    requires
        width >= 0,
        height >= 0,
        width % 2 == 0,
        height % 2 == 0,
        0 <= k < (width / 2) * (height / 2),
    ensures
        width > 0,
        0 <= 2 * (k / (width / 2)) * width,
        0 <= block_at(width, k),
        block_at(width, k) + width + 1 < width * height,
{
    let half = width / 2;
    let rows = height / 2;
    assert(half > 0) by (nonlinear_arith)
        requires
            0 <= k < half * rows,
            half >= 0,
    ;
    let by = k / half;
    assert(0 <= by < rows) by (nonlinear_arith)
        requires
            0 <= k < half * rows,
            half > 0,
            by == k / half,
    ;
    assert(2 * by * width + 2 * width <= height * width) by (nonlinear_arith)
        requires
            2 * by + 2 <= height,
            width > 0,
    ;
    assert(0 <= 2 * by * width) by (nonlinear_arith)
        requires
            0 <= by,
            width > 0,
    ;
    assert(height * width == width * height) by (nonlinear_arith);
    assert(0 <= k % half < half) by (nonlinear_arith)
        requires
            half > 0,
    ;
}

/// The average of one component over a block.
fn average(bgra: &[u8], width: usize, p: usize, c: usize) -> (a: i32)
    requires
        c < 3,
        4 * (p + width + 1) + 3 <= bgra@.len(),
    ensures
        a == block_average(bgra@, width as int, p as int, c as int),
        0 <= a <= 255,
{
    let n: usize = bgra.len();
    assert(4 * (p + width + 1) + 3 <= n);
    (bgra[4 * p + c] as i32 + bgra[4 * (p + 1) + c] as i32 + bgra[4 * (p + width) + c] as i32
        + bgra[4 * (p + width + 1) + c] as i32) / 4
}

/// Both chroma samples of a block.
fn chroma(bgra: &[u8], width: usize, height: usize, k: usize) -> (uv: (u8, u8))
    requires
        width % 2 == 0,
        height % 2 == 0,
        k < (width / 2) * (height / 2),
        4 * (width * height) <= bgra@.len() + 1,
    ensures
        uv == block_chroma(bgra@, width as int, k as int),
{
    proof {
        lemma_block_inside(width as int, height as int, k as int);
    }
    let n: usize = bgra.len();
    assert(4 * (block_at(width as int, k as int) + width + 1) + 3 <= n);
    let half: usize = width / 2;
    let row: usize = k / half;
    assert(2 * row <= 2 * row * width) by (nonlinear_arith)
        requires
            width > 0,
            row >= 0,
    ;
    let p: usize = 2 * row * width + 2 * (k % half);
    let r: i32 = average(bgra, width, p, 2);
    let g: i32 = average(bgra, width, p, 1);
    let b: i32 = average(bgra, width, p, 0);
    let u: i32 = (128 * b + 32_896 - 43 * r - 85 * g) / 256;
    let v: i32 = (128 * r + 32_896 - 107 * g - 21 * b) / 256;
    (clamp_to_byte(u), clamp_to_byte(v))
}

/// Converts a BGRA image to I420. The fourth byte of a pixel is not read, so that of
/// the last one may be missing.
pub fn bgra_to_yuv420p(bgra: &[u8], width: usize, height: usize) -> (yuv: Vec<u8>)
    requires
        width % 2 == 0,
        height % 2 == 0,
        4 * (width * height) <= bgra@.len() + 1,
    ensures
        yuv@ == i420(bgra@, width as int, height as int),
        yuv@.len() == 3 * (width * height) / 2,
{
    let n: usize = bgra.len();
    assert(width * height <= n);
    let pixels: usize = width * height;
    assert((width / 2) * (height / 2) * 4 == width * height) by (nonlinear_arith)
        requires
            width % 2 == 0,
            height % 2 == 0,
            0 <= width,
            0 <= height,
    ;
    let blocks: usize = (width / 2) * (height / 2);
    let ghost image = bgra@;
    let ghost w = width as int;
    let mut yuv: Vec<u8> = Vec::new();
    let mut i: usize = 0;
    while i < pixels
        invariant
            image == bgra@,
            n == bgra@.len(),
            4 * pixels <= n + 1,
            0 <= i <= pixels,
            yuv@.len() == i,
            forall|j: int|
                0 <= j < i ==> #[trigger] yuv@[j] == luma(
                    component(image, j, 2),
                    component(image, j, 1),
                    component(image, j, 0),
                ) as u8,
        decreases pixels - i,
    {
        let r: i32 = bgra[4 * i + 2] as i32;
        let g: i32 = bgra[4 * i + 1] as i32;
        let b: i32 = bgra[4 * i] as i32;
        yuv.push(((77 * r + 150 * g + 29 * b + 128) / 256) as u8);
        i += 1;
    }
    let ghost first = yuv@;
    let mut us: Vec<u8> = Vec::new();
    let mut vs: Vec<u8> = Vec::new();
    let mut k: usize = 0;
    while k < blocks
        invariant
            image == bgra@,
            w == width,
            width % 2 == 0,
            height % 2 == 0,
            blocks == (width / 2) * (height / 2),
            4 * (width * height) <= bgra@.len() + 1,
            0 <= k <= blocks,
            us@.len() == k,
            vs@.len() == k,
            forall|j: int| 0 <= j < k ==> #[trigger] us@[j] == block_chroma(image, w, j).0,
            forall|j: int| 0 <= j < k ==> #[trigger] vs@[j] == block_chroma(image, w, j).1,
        decreases blocks - k,
    {
        let (u, v) = chroma(bgra, width, height, k);
        us.push(u);
        vs.push(v);
        k += 1;
    }
    yuv.append(&mut us);
    yuv.append(&mut vs);
    assert(yuv@ =~= i420(bgra@, width as int, height as int));
    yuv
}

/// The red, green and blue of a luma and chroma sample.
pub open spec fn rgb_of(y: u8, u: u8, v: u8) -> (u8, u8, u8) {
    let cu = u - 128;
    let cv = v - 128;
    (
        clamped(y + (359 * cv) / 256),
        clamped(y - (88 * cu + 183 * cv) / 256),
        clamped(y + (454 * cu) / 256),
    )
}

impl YuvPicture {
    /// Every pixel has its three samples, and the colours of all pixels can be
    /// held.
    #[verifier::opaque]
    pub open spec fn displayable(&self) -> bool {
        &&& 3 * (self.width * self.height) <= usize::MAX
        &&& self.width > 0 && self.height > 0 ==> {
            let chroma_end = ((self.height - 1) / 2) * self.uv_stride + (self.width - 1) / 2;
            &&& (self.height - 1) * self.y_stride + self.width - 1 < self.y@.len()
            &&& chroma_end < self.u@.len()
            &&& chroma_end < self.v@.len()
        }
    }

    /// The colours of the pixel in row `row` and column `col`.
    pub open spec fn pixel(&self, row: int, col: int) -> (u8, u8, u8) {
        let c = (row / 2) * self.uv_stride + col / 2;
        rgb_of(self.y@[row * self.y_stride + col], self.u@[c], self.v@[c])
    }

    /// The picture with three bytes per pixel, row by row, without padding.
    pub open spec fn rgb(&self) -> Seq<u8> {
        Seq::new(
            (3 * (self.width * self.height)) as nat,
            |i: int|
                {
                    let p = self.pixel(i / 3 / self.width as int, i / 3 % self.width as int);
                    if i % 3 == 0 {
                        p.0
                    } else if i % 3 == 1 {
                        p.1
                    } else {
                        p.2
                    }
                },
        )
    }

    /// Whether every pixel has its three samples.
    pub fn is_displayable(&self) -> (b: bool)
        ensures
            b == self.displayable(),
    {
        reveal(YuvPicture::displayable);
        let w: u128 = self.width as u128;
        let h: u128 = self.height as u128;
        assert(w * h <= 0xffff_ffff_ffff_ffff * 0xffff_ffff_ffff_ffff) by (nonlinear_arith)
            requires
                0 <= w <= 0xffff_ffff_ffff_ffff,
                0 <= h <= 0xffff_ffff_ffff_ffff,
        ;
        if w * h > usize::MAX as u128 / 3 {
            return false;
        }
        if self.width == 0 || self.height == 0 {
            return true;
        }
        let ys: u128 = self.y_stride as u128;
        let us: u128 = self.uv_stride as u128;
        let rows: u128 = h - 1;
        let pairs: u128 = rows / 2;
        assert(rows * ys <= 0xffff_ffff_ffff_ffff * 0xffff_ffff_ffff_ffff) by (nonlinear_arith)
            requires
                0 <= rows <= 0xffff_ffff_ffff_ffff,
                0 <= ys <= 0xffff_ffff_ffff_ffff,
        ;
        assert(pairs * us <= 0xffff_ffff_ffff_ffff * 0xffff_ffff_ffff_ffff) by (nonlinear_arith)
            requires
                0 <= pairs <= 0xffff_ffff_ffff_ffff,
                0 <= us <= 0xffff_ffff_ffff_ffff,
        ;
        let luma_end: u128 = rows * ys + (w - 1);
        let chroma_end: u128 = pairs * us + (w - 1) / 2;
        luma_end < self.y.len() as u128 && chroma_end < self.u.len() as u128 && chroma_end
            < self.v.len() as u128
    }

    /// The samples of a pixel of a displayable picture are all there.
    proof fn lemma_pixel_inside(&self, row: int, col: int)
        requires
            self.displayable(),
            0 <= row < self.height,
            0 <= col < self.width,
        ensures
            0 <= row * self.y_stride <= row * self.y_stride + col < self.y@.len(),
            0 <= (row / 2) * self.uv_stride <= (row / 2) * self.uv_stride + col / 2 < self.u@.len(),
            (row / 2) * self.uv_stride + col / 2 < self.v@.len(),
    {
        reveal(YuvPicture::displayable);
        assert(0 <= row * self.y_stride <= (self.height - 1) * self.y_stride) by (nonlinear_arith)
            requires
                0 <= row <= self.height - 1,
                0 <= self.y_stride,
        ;
        assert(0 <= (row / 2) * self.uv_stride <= ((self.height - 1) / 2) * self.uv_stride)
            by (nonlinear_arith)
            requires
                0 <= row / 2 <= (self.height - 1) / 2,
                0 <= self.uv_stride,
        ;
    }

    /// Converts a picture to three bytes per pixel.
    pub fn to_rgb(&self) -> (rgb: Vec<u8>)
        requires
            self.displayable(),
        ensures
            rgb@ == self.rgb(),
    {
        reveal(YuvPicture::displayable);
        let w: usize = self.width;
        let h: usize = self.height;
        assert(w * h <= usize::MAX);
        let pixels: usize = w * h;
        let mut rgb: Vec<u8> = Vec::new();
        let mut p: usize = 0;
        while p < pixels
            invariant
                self.displayable(),
                w == self.width,
                h == self.height,
                pixels == w * h,
                0 <= p <= pixels,
                rgb@.len() == 3 * p,
                forall|i: int| 0 <= i < 3 * p ==> #[trigger] rgb@[i] == self.rgb()[i],
            decreases pixels - p,
        {
            assert(w > 0 && p / w < h) by (nonlinear_arith)
                requires
                    0 <= p < w * h,
                    0 <= w,
            ;
            let row: usize = p / w;
            let col: usize = p % w;
            proof {
                self.lemma_pixel_inside(row as int, col as int);
                assert(self.y@.len() == self.y.len() && self.u@.len() == self.u.len());
            }
            let c: usize = (row / 2) * self.uv_stride + col / 2;
            let luma: i32 = self.y[row * self.y_stride + col] as i32;
            let cu: i32 = self.u[c] as i32 - 128;
            let cv: i32 = self.v[c] as i32 - 128;
            let r: i32 = luma + (359 * cv + 46_080) / 256 - 180;
            let g: i32 = luma - ((88 * cu + 183 * cv + 34_816) / 256 - 136);
            let b: i32 = luma + (454 * cu + 58_368) / 256 - 228;
            rgb.push(clamp_to_byte(r));
            rgb.push(clamp_to_byte(g));
            rgb.push(clamp_to_byte(b));
            assert forall|i: int| 0 <= i < 3 * (p + 1) implies #[trigger] rgb@[i] == self.rgb()[i] by {
                if i >= 3 * p {
                    assert(i / 3 == p);
                }
            }
            p += 1;
        }
        assert(rgb@ =~= self.rgb());
        rgb
    }
}

fn clamp_to_byte(x: i32) -> (b: u8)
    ensures
        b == clamped(x as int),
{
    if x < 0 {
        0
    } else if x > 255 {
        255
    } else {
        x as u8
    }
}

/// A colour as the window takes it: red, green and blue from the third byte down.
pub open spec fn argb_of(r: u8, g: u8, b: u8) -> u32 {
    (r * 65_536 + g * 256 + b) as u32
}

/// Converts pixels of three bytes to the window's pixels, in place of the first
/// ones of `buffer`.
pub fn rgb24_to_argb(rgb24: &[u8], width: u32, height: u32, buffer: &mut Vec<u32>)
    requires
        width * height <= u32::MAX,
        3 * (width * height) <= rgb24@.len(),
        width * height <= old(buffer)@.len(),
    ensures
        final(buffer)@.len() == old(buffer)@.len(),
        forall|i: int|
            0 <= i < old(buffer)@.len() ==> #[trigger] final(buffer)@[i] == if i < width * height {
                argb_of(rgb24@[3 * i], rgb24@[3 * i + 1], rgb24@[3 * i + 2])
            } else {
                old(buffer)@[i]
            },
{
    let n: usize = rgb24.len();
    let pixels: usize = (width * height) as usize;
    let mut i: usize = 0;
    while i < pixels
        invariant
            0 <= i <= pixels,
            pixels == width * height,
            n == rgb24@.len(),
            3 * pixels <= n,
            pixels <= buffer@.len(),
            buffer@.len() == old(buffer)@.len(),
            forall|j: int|
                0 <= j < buffer@.len() ==> #[trigger] buffer@[j] == if j < i {
                    argb_of(rgb24@[3 * j], rgb24@[3 * j + 1], rgb24@[3 * j + 2])
                } else {
                    old(buffer)@[j]
                },
        decreases pixels - i,
    {
        let src: usize = i * 3;
        buffer[i] = rgb24[src] as u32 * 65_536 + rgb24[src + 1] as u32 * 256 + rgb24[src + 2] as u32;
        i += 1;
    }
}

/// The red of the pixel in row `row` and column `col` of a BGRA image.
pub open spec fn red_at(bgra: Seq<u8>, width: int, row: int, col: int) -> int {
    bgra[4 * (row * width + col) + 2] as int
}

/// The green of the pixel in row `row` and column `col` of a BGRA image.
pub open spec fn green_at(bgra: Seq<u8>, width: int, row: int, col: int) -> int {
    bgra[4 * (row * width + col) + 1] as int
}

/// The blue of the pixel in row `row` and column `col` of a BGRA image.
pub open spec fn blue_at(bgra: Seq<u8>, width: int, row: int, col: int) -> int {
    bgra[4 * (row * width + col)] as int
}

/// Whether the pixel in row `row` and column `col` lies in the block in row `i` and
/// column `j` of the blocks of two by two pixels.
pub open spec fn in_block(i: int, j: int, row: int, col: int) -> bool {
    2 * i <= row <= 2 * i + 1 && 2 * j <= col <= 2 * j + 1
}

/// The index of a place in rows of `width` gives the row and the column back.
proof fn lemma_place(width: int, row: int, col: int)
    requires
        0 <= row,
        0 <= col < width,
    ensures
        0 <= row * width,
        (row * width + col) / width == row,
        (row * width + col) % width == col,
{
    vstd::arithmetic::div_mod::lemma_fundamental_div_mod_converse(
        row * width + col,
        width,
        row,
        col,
    );
    assert(0 <= row * width) by (nonlinear_arith)
        requires
            0 <= row,
            0 <= col < width,
    ;
}

/// A place in rows of `width`, of which there are `height`, has an index among them.
proof fn lemma_place_inside(width: int, height: int, row: int, col: int)
    requires
        0 <= row < height,
        0 <= col < width,
    ensures
        0 <= row * width + col < width * height,
{
    lemma_place(width, row, col);
    assert(row * width + width <= width * height) by (nonlinear_arith)
        requires
            row + 1 <= height,
            0 <= width,
    ;
}

/// The luma plane holds the luma of each pixel in that pixel's place.
pub proof fn law_luma_is_of_its_pixel(
    bgra: Seq<u8>,
    width: int,
    height: int,
    row: int,
    col: int,
)
    requires
        0 <= row < height,
        0 <= col < width,
    ensures
        i420(bgra, width, height)[row * width + col] == luma(
            red_at(bgra, width, row, col),
            green_at(bgra, width, row, col),
            blue_at(bgra, width, row, col),
        ) as u8,
{
    lemma_place_inside(width, height, row, col);
}

/// The sample in row `i` and column `j` of either chroma plane is the chroma of the
/// average of the four pixels in rows `2 * i` and `2 * i + 1` and in columns `2 * j` and
/// `2 * j + 1`.
pub proof fn law_chroma_is_of_its_block(
    bgra: Seq<u8>,
    width: int,
    height: int,
    i: int,
    j: int,
)
    requires
        width % 2 == 0,
        height % 2 == 0,
        0 <= i < height / 2,
        0 <= j < width / 2,
    ensures
        ({
            let k = i * (width / 2) + j;
            let top = 2 * i;
            let left = 2 * j;
            let r = (red_at(bgra, width, top, left) + red_at(bgra, width, top, left + 1) + red_at(
                bgra,
                width,
                top + 1,
                left,
            ) + red_at(bgra, width, top + 1, left + 1)) / 4;
            let g = (green_at(bgra, width, top, left) + green_at(bgra, width, top, left + 1)
                + green_at(bgra, width, top + 1, left) + green_at(
                bgra,
                width,
                top + 1,
                left + 1,
            )) / 4;
            let b = (blue_at(bgra, width, top, left) + blue_at(bgra, width, top, left + 1)
                + blue_at(bgra, width, top + 1, left) + blue_at(
                bgra,
                width,
                top + 1,
                left + 1,
            )) / 4;
            &&& 0 <= k < (width / 2) * (height / 2)
            &&& i420(bgra, width, height)[width * height + k] == chroma_u(r, g, b)
            &&& i420(bgra, width, height)[width * height + (width / 2) * (height / 2) + k]
                == chroma_v(r, g, b)
        }),
{
    let half = width / 2;
    let k = i * half + j;
    lemma_place(half, i, j);
    lemma_place_inside(half, height / 2, i, j);
    let p = block_at(width, k);
    assert(p == (2 * i) * width + 2 * j);
    assert((2 * i + 1) * width == (2 * i) * width + width) by (nonlinear_arith);
    assert(0 <= width * height) by (nonlinear_arith)
        requires
            0 <= width,
            0 <= height,
    ;
}

/// A chroma sample depends on the four pixels of its block alone: two images that agree
/// there have the same sample there.
pub proof fn law_chroma_depends_on_its_block(
    a: Seq<u8>,
    b: Seq<u8>,
    width: int,
    height: int,
    i: int,
    j: int,
)
    requires
        width % 2 == 0,
        height % 2 == 0,
        0 <= i < height / 2,
        0 <= j < width / 2,
        forall|row: int, col: int| #[trigger]
            in_block(i, j, row, col) ==> red_at(a, width, row, col) == red_at(b, width, row, col)
                && green_at(a, width, row, col) == green_at(b, width, row, col) && blue_at(
                a,
                width,
                row,
                col,
            ) == blue_at(b, width, row, col),
    ensures
        i420(a, width, height)[width * height + i * (width / 2) + j] == i420(b, width, height)[width
            * height + i * (width / 2) + j],
        i420(a, width, height)[width * height + (width / 2) * (height / 2) + i * (width / 2) + j]
            == i420(b, width, height)[width * height + (width / 2) * (height / 2) + i * (width / 2)
            + j],
{
    law_chroma_is_of_its_block(a, width, height, i, j);
    law_chroma_is_of_its_block(b, width, height, i, j);
    assert(in_block(i, j, 2 * i, 2 * j));
    assert(in_block(i, j, 2 * i, 2 * j + 1));
    assert(in_block(i, j, 2 * i + 1, 2 * j));
    assert(in_block(i, j, 2 * i + 1, 2 * j + 1));
}

/// The four pixels that the sample with index `k` of a chroma plane is made of.
pub open spec fn pixels_of(width: int, k: int) -> Set<int> {
    let p = block_at(width, k);
    set![p, p + 1, p + width, p + width + 1]
}

/// The blocks of the samples cover the image, and do not overlap: every pixel belongs to
/// exactly one of them.
pub proof fn law_every_pixel_has_one_sample(width: int, height: int, row: int, col: int)
    requires
        width % 2 == 0,
        height % 2 == 0,
        0 <= row < height,
        0 <= col < width,
    ensures
        exists|k: int|
            0 <= k < (width / 2) * (height / 2) && (#[trigger] pixels_of(width, k)).contains(
                row * width + col,
            ),
        forall|k: int, l: int|
            #![trigger pixels_of(width, k), pixels_of(width, l)]
            0 <= k < (width / 2) * (height / 2) && 0 <= l < (width / 2) * (height / 2) && pixels_of(
                width,
                k,
            ).contains(row * width + col) && pixels_of(width, l).contains(row * width + col)
                ==> k == l,
{
    let half = width / 2;
    let i = row / 2;
    let j = col / 2;
    let k = i * half + j;
    lemma_place(half, i, j);
    lemma_place_inside(half, height / 2, i, j);
    assert(block_at(width, k) == (2 * i) * width + 2 * j);
    assert((2 * i + 1) * width == (2 * i) * width + width) by (nonlinear_arith);
    assert(pixels_of(width, k).contains(row * width + col)) by {
        if row == 2 * i {
        } else {
            assert(row == 2 * i + 1);
        }
    }
    assert forall|l: int|
        0 <= l < half * (height / 2) && (#[trigger] pixels_of(width, l)).contains(
            row * width + col,
        ) implies l == k by {
        lemma_block_inside(width, height, l);
        let bi = l / half;
        let bj = l % half;
        vstd::arithmetic::div_mod::lemma_fundamental_div_mod(l, half);
        assert(0 <= bi) by (nonlinear_arith)
            requires
                0 <= l,
                half > 0,
                bi == l / half,
        ;
        assert(0 <= bj < half) by (nonlinear_arith)
            requires
                half > 0,
                bj == l % half,
        ;
        assert((2 * bi + 1) * width == (2 * bi) * width + width) by (nonlinear_arith);
        lemma_place(width, row, col);
        lemma_place(width, 2 * bi, 2 * bj);
        lemma_place(width, 2 * bi, 2 * bj + 1);
        lemma_place(width, 2 * bi + 1, 2 * bj);
        lemma_place(width, 2 * bi + 1, 2 * bj + 1);
        assert(bi == i && bj == j);
        assert(half * bi == bi * half) by (nonlinear_arith);
    }
}

/// The pixel in row `row` and column `col` of a picture is shown with its own luma, and
/// with the chroma of the block that it lies in: the samples in row `i` and column `j`
/// of the chroma planes colour exactly the pixels of that block.
pub proof fn law_chroma_colours_its_block(
    picture: YuvPicture,
    i: int,
    j: int,
    row: int,
    col: int,
)
    requires
        0 <= row < picture.height,
        0 <= col < picture.width,
        in_block(i, j, row, col),
    ensures
        ({
            let at = 3 * (row * picture.width + col);
            let shown = rgb_of(
                picture.y@[row * picture.y_stride + col],
                picture.u@[i * picture.uv_stride + j],
                picture.v@[i * picture.uv_stride + j],
            );
            &&& 0 <= at && at + 2 < picture.rgb().len()
            &&& picture.rgb()[at] == shown.0
            &&& picture.rgb()[at + 1] == shown.1
            &&& picture.rgb()[at + 2] == shown.2
        }),
{
    let width = picture.width as int;
    lemma_place(width, row, col);
    lemma_place_inside(width, picture.height as int, row, col);
    let p = row * width + col;
    assert((3 * p) / 3 == p && (3 * p + 1) / 3 == p && (3 * p + 2) / 3 == p);
    assert(row / 2 == i && col / 2 == j);
}

/// Whether the planes of a picture are those of the I420 form of an image.
pub open spec fn holds_image(
    picture: YuvPicture,
    bgra: Seq<u8>,
    width: int,
    height: int,
) -> bool {
    let pixels = width * height;
    let blocks = (width / 2) * (height / 2);
    let yuv = i420(bgra, width, height);
    &&& picture.width == width && picture.height == height
    &&& picture.y_stride == width && picture.uv_stride == width / 2
    &&& picture.y@ == yuv.subrange(0, pixels)
    &&& picture.u@ == yuv.subrange(pixels, pixels + blocks)
    &&& picture.v@ == yuv.subrange(pixels + blocks, pixels + 2 * blocks)
}

/// Both conversions agree on where colours belong: when an image is converted and its
/// planes are read back as a picture, each pixel is shown with its own luma and with the
/// chroma of the two by two pixels around it.
pub proof fn law_colours_stay_in_place(
    picture: YuvPicture,
    bgra: Seq<u8>,
    width: int,
    height: int,
    i: int,
    j: int,
    row: int,
    col: int,
)
    requires
        width % 2 == 0,
        height % 2 == 0,
        holds_image(picture, bgra, width, height),
        0 <= row < height,
        0 <= col < width,
        in_block(i, j, row, col),
    ensures
        ({
            let yuv = i420(bgra, width, height);
            let blocks = (width / 2) * (height / 2);
            let at = 3 * (row * width + col);
            let shown = rgb_of(
                luma(
                    red_at(bgra, width, row, col),
                    green_at(bgra, width, row, col),
                    blue_at(bgra, width, row, col),
                ) as u8,
                yuv[width * height + i * (width / 2) + j],
                yuv[width * height + blocks + i * (width / 2) + j],
            );
            &&& picture.rgb()[at] == shown.0
            &&& picture.rgb()[at + 1] == shown.1
            &&& picture.rgb()[at + 2] == shown.2
        }),
{
    law_chroma_colours_its_block(picture, i, j, row, col);
    law_luma_is_of_its_pixel(bgra, width, height, row, col);
    lemma_place_inside(width, height, row, col);
    lemma_place_inside(width / 2, height / 2, i, j);
}

/// The samples of a colour follow BT.601, with coefficients of three decimals, to within
/// one step.
pub proof fn law_samples_follow_bt601(r: u8, g: u8, b: u8)
    ensures
        -1_000 < 1_000 * luma(r as int, g as int, b as int) - (299 * r + 587 * g + 114 * b)
            < 1_000,
        -1_000 < 1_000 * (chroma_u(r as int, g as int, b as int) - 128) - (500 * b - 169 * r
            - 331 * g) < 1_000,
        -1_000 < 1_000 * (chroma_v(r as int, g as int, b as int) - 128) - (500 * r - 419 * g
            - 81 * b) < 1_000,
        0 <= luma(r as int, g as int, b as int) <= 255,
{
}

/// The colours of samples follow BT.601, with coefficients of three decimals, to within a
/// fifth of a step besides being cut to whole steps, wherever they do not leave the range
/// of a byte.
pub proof fn law_colours_follow_bt601(y: u8, u: u8, v: u8)
    ensures
        0 < rgb_of(y, u, v).0 < 255 ==> -1_200 < 1_000 * (rgb_of(y, u, v).0 - y) - 1_402 * (v - 128)
            < 200,
        0 < rgb_of(y, u, v).1 < 255 ==> -200 < 1_000 * (rgb_of(y, u, v).1 - y) + 344 * (u - 128)
            + 714 * (v - 128) < 1_200,
        0 < rgb_of(y, u, v).2 < 255 ==> -1_200 < 1_000 * (rgb_of(y, u, v).2 - y) - 1_772 * (u - 128)
            < 200,
{
}

/// A colour that is converted to luma and chroma and back is the same to within three
/// steps.
pub proof fn law_colour_comes_back(r: u8, g: u8, b: u8)
    ensures
        ({
            let back = rgb_of(
                luma(r as int, g as int, b as int) as u8,
                chroma_u(r as int, g as int, b as int),
                chroma_v(r as int, g as int, b as int),
            );
            &&& -3 <= back.0 - r <= 3
            &&& -3 <= back.1 - g <= 3
            &&& -3 <= back.2 - b <= 3
        }),
{
}

/// An area of one colour comes back: where the two by two pixels around a place have one
/// colour, the pixel there is shown in that colour to within three steps.
pub proof fn law_areas_come_back(
    picture: YuvPicture,
    bgra: Seq<u8>,
    width: int,
    height: int,
    i: int,
    j: int,
    row: int,
    col: int,
)
    requires
        width % 2 == 0,
        height % 2 == 0,
        holds_image(picture, bgra, width, height),
        0 <= row < height,
        0 <= col < width,
        in_block(i, j, row, col),
        forall|r: int, c: int| #[trigger]
            in_block(i, j, r, c) ==> red_at(bgra, width, r, c) == red_at(bgra, width, row, col)
                && green_at(bgra, width, r, c) == green_at(bgra, width, row, col) && blue_at(
                bgra,
                width,
                r,
                c,
            ) == blue_at(bgra, width, row, col),
    ensures
        ({
            let at = 3 * (row * width + col);
            &&& -3 <= picture.rgb()[at] - red_at(bgra, width, row, col) <= 3
            &&& -3 <= picture.rgb()[at + 1] - green_at(bgra, width, row, col) <= 3
            &&& -3 <= picture.rgb()[at + 2] - blue_at(bgra, width, row, col) <= 3
        }),
{
    let r = red_at(bgra, width, row, col);
    let g = green_at(bgra, width, row, col);
    let b = blue_at(bgra, width, row, col);
    let u = i420(bgra, width, height)[width * height + i * (width / 2) + j];
    let v = i420(bgra, width, height)[width * height + (width / 2) * (height / 2) + i * (width / 2)
        + j];
    assert(u == chroma_u(r, g, b) && v == chroma_v(r, g, b)) by {
        law_chroma_is_of_its_block(bgra, width, height, i, j);
        assert(in_block(i, j, 2 * i, 2 * j));
        assert(in_block(i, j, 2 * i, 2 * j + 1));
        assert(in_block(i, j, 2 * i + 1, 2 * j));
        assert(in_block(i, j, 2 * i + 1, 2 * j + 1));
    }
    law_colours_stay_in_place(picture, bgra, width, height, i, j, row, col);
    let p = 4 * (row * width + col);
    law_colour_comes_back(bgra[p + 2], bgra[p + 1], bgra[p]);
}

/// A pixel of the window holds the red, the green and the blue in a byte each.
pub proof fn law_window_pixels_hold_colours(r: u8, g: u8, b: u8)
    ensures
        argb_of(r, g, b) / 65_536 == r,
        argb_of(r, g, b) / 256 % 256 == g,
        argb_of(r, g, b) % 256 == b,
{
}

/// Grey has neutral chroma, and comes back from luma and chroma as it was.
pub proof fn law_grey_comes_back(v: u8)
    ensures
        luma(v as int, v as int, v as int) == v,
        chroma_u(v as int, v as int, v as int) == 128,
        chroma_v(v as int, v as int, v as int) == 128,
        rgb_of(v, 128, 128) == (v, v, v),
{
}

/// A picture can be displayed exactly if its planes hold the samples of all its pixels: one
/// luma sample for each, and one chroma sample for each block of two by two.
pub proof fn law_pictures_with_all_samples_are_displayable(picture: YuvPicture, row: int, col: int)
    requires
        3 * (picture.width * picture.height) <= usize::MAX,
        0 <= row < picture.height,
        0 <= col < picture.width,
    ensures
        picture.displayable() ==> {
            &&& row * picture.y_stride + col < picture.y@.len()
            &&& (row / 2) * picture.uv_stride + col / 2 < picture.u@.len()
            &&& (row / 2) * picture.uv_stride + col / 2 < picture.v@.len()
        },
        row == picture.height - 1 && col == picture.width - 1 && row * picture.y_stride + col
            < picture.y@.len() && (row / 2) * picture.uv_stride + col / 2 < picture.u@.len() && (row
            / 2) * picture.uv_stride + col / 2 < picture.v@.len() ==> picture.displayable(),
{
    reveal(YuvPicture::displayable);
    let last = picture.height - 1;
    if picture.displayable() {
        assert(row * picture.y_stride <= last * picture.y_stride) by (nonlinear_arith)
            requires
                row <= last,
                0 <= picture.y_stride,
        ;
        assert((row / 2) * picture.uv_stride <= (last / 2) * picture.uv_stride)
            by (nonlinear_arith)
            requires
                row / 2 <= last / 2,
                0 <= picture.uv_stride,
        ;
    }
}

} // verus!

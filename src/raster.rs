//! The pixel buffer: row-major RGB, three bytes to a pixel.
use vstd::prelude::*;
use crate::classify::{Color, palette, class_color};

verus! {

/// The three bytes of a colour, in channel order.
pub open spec fn color_bytes(c: Color) -> Seq<u8> {
    seq![c.r, c.g, c.b]
}

/// The three bytes of pixel `i` in a flat buffer.
pub open spec fn pixel_of(bytes: Seq<u8>, i: int) -> Seq<u8> {
    bytes.subrange(3 * i, 3 * i + 3)
}

/// `bytes` with pixel `i` set to colour `c` and every other byte kept.
pub open spec fn with_pixel(bytes: Seq<u8>, i: int, c: Color) -> Seq<u8> {
    Seq::new(
        bytes.len(),
        |k: int|
            if 3 * i <= k < 3 * i + 3 {
                color_bytes(c)[k - 3 * i]
            } else {
                bytes[k]
            },
    )
}

/// Writes to two different pixels give the same buffer in either order, so
/// the pixels of a grid may be coloured in any order, or at once.
pub proof fn lemma_pixel_writes_commute(bytes: Seq<u8>, i: int, ci: Color, j: int, cj: Color)
    requires
        i != j,
    ensures
        with_pixel(with_pixel(bytes, i, ci), j, cj) == with_pixel(with_pixel(bytes, j, cj), i, ci),
{
    assert(with_pixel(with_pixel(bytes, i, ci), j, cj) =~= with_pixel(with_pixel(bytes, j, cj), i, ci));
}

/// Pixel `i` and pixel `j` occupy disjoint byte ranges when `i != j`, so
/// each byte of the buffer belongs to exactly one pixel.
pub proof fn lemma_pixel_ranges_disjoint(i: nat, j: nat, k: int)
    requires
        i != j,
        3 * i <= k < 3 * i + 3,
    ensures
        !(3 * j <= k < 3 * j + 3),
{
}

proof fn lemma_pixel_in_bounds(i: int, w: int, h: int)
    requires
        0 <= i < w * h,
        0 <= w,
        0 <= h,
    ensures
        3 * i + 3 <= w * h * 3,
{
    assert(3 * i + 3 <= w * h * 3) by (nonlinear_arith)
        requires
            0 <= i < w * h,
    ;
}

/// Grid column and row of the pixel at linear index `i` in a grid `width`
/// pixels wide.
pub fn grid_coords(i: usize, width: u32) -> (r: (u32, u32))
    requires
        width > 0,
        i as int / width as int <= u32::MAX,
    ensures
        r.0 as int == i as int % width as int,
        r.1 as int == i as int / width as int,
{
    let w = width as usize;
    ((i % w) as u32, (i / w) as u32)
}

/// Writes a colour into one pixel's three bytes.
pub fn paint_pixel(pixel: &mut [u8], c: Color)
    requires
        old(pixel)@.len() == 3,
    ensures
        final(pixel)@ == color_bytes(c),
{
    pixel[0] = c.r;
    pixel[1] = c.g;
    pixel[2] = c.b;
    assert(pixel@ =~= color_bytes(c));
}

/// Whether a flat buffer of `len` bytes is exactly the size of a
/// `width` by `height` RGB image.
pub fn raw_len_matches(width: u32, height: u32, len: usize) -> (r: bool)
    ensures
        r == (len as int == width as int * height as int * 3),
{
    assert(width as int * height as int <= u64::MAX) by (nonlinear_arith)
        requires
            width <= u32::MAX,
            height <= u32::MAX,
    ;
    let pixels: u64 = (width as u64) * (height as u64);
    match pixels.checked_mul(3) {
        Some(n) => n == len as u64,
        None => false,
    }
}

/// Colours every pixel of a `width` by `height` grid from its class index,
/// visiting each pixel once in linear index order.
pub fn render(width: u32, height: u32, classes: &Vec<usize>) -> (b: PixelBuffer)
    requires
        classes@.len() == width as int * height as int,
        width as int * height as int * 3 <= usize::MAX,
    ensures
        b.wf(),
        b@.width == width,
        b@.height == height,
        forall|i: int|
            0 <= i < classes@.len() ==> #[trigger] pixel_of(b@.bytes, i) == color_bytes(
                palette(classes@[i] as int),
            ),
{
    let mut b = PixelBuffer::new(width, height);
    let n: usize = classes.len();
    let mut i: usize = 0;
    while i < n
        invariant
            n == classes@.len(),
            n == b@.width * b@.height,
            i <= n,
            b.wf(),
            b@.width == width,
            b@.height == height,
            forall|j: int|
                0 <= j < i ==> #[trigger] pixel_of(b@.bytes, j) == color_bytes(
                    palette(classes@[j] as int),
                ),
        decreases n - i,
    {
        let ghost before = b@.bytes;
        let c = class_color(classes[i]);
        b.set_pixel(i, c);
        assert forall|j: int| 0 <= j < i implies #[trigger] pixel_of(b@.bytes, j) == pixel_of(
            before,
            j,
        ) by {
            lemma_pixel_in_bounds(j, width as int, height as int);
            assert forall|k: int| 3 * j <= k < 3 * j + 3 implies b@.bytes[k] == before[k] by {
                lemma_pixel_ranges_disjoint(j as nat, i as nat, k);
            }
            assert(pixel_of(b@.bytes, j) =~= pixel_of(before, j));
        }
        i = i + 1;
    }
    b
}

/// The abstract content of a pixel buffer.
pub struct RasterView {
    pub width: nat,
    pub height: nat,
    pub bytes: Seq<u8>,
}

/// A row-major RGB buffer of `width * height` pixels.
pub struct PixelBuffer {
    width: u32,
    height: u32,
    data: Vec<u8>,
}

impl View for PixelBuffer {
    type V = RasterView;

    closed spec fn view(&self) -> RasterView {
        RasterView { width: self.width as nat, height: self.height as nat, bytes: self.data@ }
    }
}

impl PixelBuffer {
    /// The buffer holds exactly three bytes for every pixel of the grid.
    pub open spec fn wf(&self) -> bool {
        self@.bytes.len() == self@.width * self@.height * 3
    }

    /// A buffer of the given size with every byte zero.
    pub fn new(width: u32, height: u32) -> (b: PixelBuffer)
        requires
            width as int * height as int * 3 <= usize::MAX,
        ensures
            b.wf(),
            b@.width == width,
            b@.height == height,
            forall|k: int| 0 <= k < b@.bytes.len() ==> b@.bytes[k] == 0,
    {
        assert(width as int * height as int <= usize::MAX) by (nonlinear_arith)
            requires
                width as int * height as int * 3 <= usize::MAX,
        ;
        let n: usize = (width as usize) * (height as usize) * 3;
        let data: Vec<u8> = vec![0u8; n];
        PixelBuffer { width, height, data }
    }

    pub fn width(&self) -> (r: u32)
        ensures
            r == self@.width,
    {
        self.width
    }

    pub fn height(&self) -> (r: u32)
        ensures
            r == self@.height,
    {
        self.height
    }

    /// Number of pixels in the grid.
    pub fn pixel_count(&self) -> (r: usize)
        requires
            self.wf(),
        ensures
            r == self@.width * self@.height,
    {
        self.data.len() / 3
    }

    /// Colours pixel `i`, leaving every other byte as it was.
    pub fn set_pixel(&mut self, i: usize, c: Color)
        requires
            old(self).wf(),
            i < old(self)@.width * old(self)@.height,
        ensures
            final(self).wf(),
            final(self)@.width == old(self)@.width,
            final(self)@.height == old(self)@.height,
            final(self)@.bytes == with_pixel(old(self)@.bytes, i as int, c),
            pixel_of(final(self)@.bytes, i as int) == color_bytes(c),
            forall|k: int|
                0 <= k < old(self)@.bytes.len() && !(3 * i <= k < 3 * i + 3)
                    ==> final(self)@.bytes[k] == old(self)@.bytes[k],
    {
        proof {
            lemma_pixel_in_bounds(i as int, self@.width as int, self@.height as int);
            assert(3 * i + 3 <= self.data.len());
        }
        let k: usize = 3 * i;
        self.data.set(k, c.r);
        self.data.set(k + 1, c.g);
        self.data.set(k + 2, c.b);
        assert(pixel_of(self@.bytes, i as int) =~= color_bytes(c));
        assert(self@.bytes =~= with_pixel(old(self)@.bytes, i as int, c));
    }

    /// The bytes of pixel `i`.
    pub fn pixel(&self, i: usize) -> (c: Color)
        requires
            self.wf(),
            i < self@.width * self@.height,
        ensures
            color_bytes(c) == pixel_of(self@.bytes, i as int),
    {
        proof {
            lemma_pixel_in_bounds(i as int, self@.width as int, self@.height as int);
            assert(3 * i + 3 <= self.data.len());
        }
        let k: usize = 3 * i;
        let c = Color { r: self.data[k], g: self.data[k + 1], b: self.data[k + 2] };
        assert(color_bytes(c) =~= pixel_of(self@.bytes, i as int));
        c
    }

    /// Hands the flat bytes over.
    pub fn into_raw(self) -> (r: Vec<u8>)
        ensures
            r@ == self@.bytes,
    {
        self.data
    }
}

} // verus!

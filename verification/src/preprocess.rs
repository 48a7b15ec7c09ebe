//! Image preprocessing: tensor padding sizes, the tiling of a large image into
//! overlapping blocks, and cropping, resizing and building images.
use fast_image_resize::images::Image as ResizeBuffer;
use fast_image_resize::{IntoImageView, PixelType, ResizeError, Resizer};
use image::{DynamicImage, GenericImageView, GrayImage, RgbImage, RgbaImage};
use vstd::prelude::*;
use vstd::slice::slice_to_vec;
use crate::error::OcrError;

verus! {

// ============== Padding ==============

/// Calculate size to pad to (multiple of 32)
pub fn get_padded_size(size: u32) -> (r: u32)
    requires
        size as int + 31 <= u32::MAX,
    ensures
        r == ((size + 31) / 32) * 32,
{
    ((size + 31) / 32) * 32
}

/// The padded size is the smallest multiple of 32 that is at least the size.
pub proof fn law_padded_size_is_next_multiple_of_32(size: nat)
    ensures
        ((size + 31) / 32) * 32 % 32 == 0,
        size <= ((size + 31) / 32) * 32 < size + 32,
{
    let p = (size + 31) / 32;
    vstd::arithmetic::div_mod::lemma_fundamental_div_mod((size + 31) as int, 32);
    vstd::arithmetic::div_mod::lemma_mod_multiples_basic(p as int, 32);
}

// ============== Block tiling ==============

/// Number of blocks along an axis of length `len`: the first block starts at
/// 0, and a further block starts every `step` pixels as long as its start plus
/// the overlap stays inside the axis.
pub open spec fn axis_block_count(len: nat, step: nat, overlap: nat) -> nat
    recommends
        step > 0,
{
    if len == 0 {
        0
    } else if len <= overlap {
        1
    } else {
        1 + ((len - overlap - 1) as nat) / step
    }
}

/// The block in tile row `row` and column `col`: its corner and its size,
/// which is the block size cut at the image border.
pub open spec fn block_at(width: nat, height: nat, block_size: nat, overlap: nat, row: nat, col: nat) -> (
    u32,
    u32,
    u32,
    u32,
) {
    let step = (block_size - overlap) as nat;
    let x = col * step;
    let y = row * step;
    (
        x as u32,
        y as u32,
        (if block_size <= width - x { block_size as int } else { width - x }) as u32,
        (if block_size <= height - y { block_size as int } else { height - y }) as u32,
    )
}

/// The blocks of tile row `row`, left to right.
pub open spec fn block_row(width: nat, height: nat, block_size: nat, overlap: nat, row: nat) -> Seq<
    (u32, u32, u32, u32),
> {
    Seq::new(
        axis_block_count(width, (block_size - overlap) as nat, overlap),
        |c: int| block_at(width, height, block_size, overlap, row, c as nat),
    )
}

/// The blocks of the first `rows` tile rows, row by row.
pub open spec fn block_rows(width: nat, height: nat, block_size: nat, overlap: nat, rows: nat) -> Seq<
    (u32, u32, u32, u32),
>
    decreases rows,
{
    if rows == 0 {
        Seq::empty()
    } else {
        block_rows(width, height, block_size, overlap, (rows - 1) as nat) + block_row(
            width,
            height,
            block_size,
            overlap,
            (rows - 1) as nat,
        )
    }
}

/// All blocks `(x, y, width, height)` that an image is split into, row by row.
pub open spec fn block_layout(width: nat, height: nat, block_size: nat, overlap: nat) -> Seq<
    (u32, u32, u32, u32),
> {
    block_rows(
        width,
        height,
        block_size,
        overlap,
        axis_block_count(height, (block_size - overlap) as nat, overlap),
    )
}

/// Position arithmetic along an axis stays within `u32`: the last block start
/// plus a block size is representable.
pub open spec fn axis_fits(len: nat, step: nat, overlap: nat) -> bool {
    len > 0 ==> (axis_block_count(len, step, overlap) - 1) * step + step + overlap <= u32::MAX
}

proof fn lemma_axis_count(len: nat, step: nat, overlap: nat, c: nat)
    requires
        step > 0,
    ensures
        len > 0 <==> axis_block_count(len, step, overlap) >= 1,
        c >= 1 ==> (c * step + overlap < len <==> c < axis_block_count(len, step, overlap)),
        c < axis_block_count(len, step, overlap) ==> c * step < len,
{
    let n = axis_block_count(len, step, overlap);
    if len > overlap {
        let m = ((len - overlap - 1) as nat);
        vstd::arithmetic::div_mod::lemma_fundamental_div_mod(m as int, step as int);
        let q = m / step;
        if c >= 1 {
            if c * step + overlap < len {
                assert(c <= q) by (nonlinear_arith)
                    requires
                        c * step <= m,
                        m == step * q + m % step,
                        0 <= m % step < step,
                        step > 0,
                ;
            }
            if c < n {
                assert(c * step <= m) by (nonlinear_arith)
                    requires
                        c <= q,
                        m == step * q + m % step,
                        0 <= m % step,
                        step > 0,
                ;
            }
        }
        if c < n && c == 0 {
            assert(0 * step == 0);
        }
    } else {
        if c < n {
            assert(c == 0);
            assert(0 * step == 0);
        }
        if c >= 1 {
            assert(c * step >= 0) by (nonlinear_arith)
                requires
                    c >= 1,
                    step > 0,
            ;
        }
    }
}

proof fn lemma_axis_step(len: nat, step: nat, overlap: nat, c: nat)
    ensures
        (c + 1) * step == c * step + step,
{
    assert((c + 1) * step == c * step + step) by (nonlinear_arith);
}

/// The block positions and sizes that an image of `width` x `height` pixels
/// is split into, for blocks of `block_size` pixels that overlap by `overlap`.
pub fn block_positions(width: u32, height: u32, block_size: u32, overlap: u32) -> (r: Vec<
    (u32, u32, u32, u32),
>)
    requires
        overlap < block_size,
        axis_fits(width as nat, (block_size - overlap) as nat, overlap as nat),
        axis_fits(height as nat, (block_size - overlap) as nat, overlap as nat),
    ensures
        r@ == block_layout(width as nat, height as nat, block_size as nat, overlap as nat),
{
    let step = block_size - overlap;
    let ghost w = width as nat;
    let ghost h = height as nat;
    let ghost bs = block_size as nat;
    let ghost ov = overlap as nat;
    let ghost nx = axis_block_count(w, step as nat, ov);
    let ghost ny = axis_block_count(h, step as nat, ov);
    let mut blocks: Vec<(u32, u32, u32, u32)> = Vec::new();
    let mut y: u32 = 0;
    let ghost mut row: nat = 0;
    let mut more_rows = height > 0;
    proof {
        lemma_axis_count(h, step as nat, ov, 0);
        assert(0 * (step as nat) == 0);
    }
    while more_rows
        invariant
            step == block_size - overlap,
            step > 0,
            w == width,
            h == height,
            bs == block_size,
            ov == overlap,
            nx == axis_block_count(w, step as nat, ov),
            ny == axis_block_count(h, step as nat, ov),
            axis_fits(w, step as nat, ov),
            axis_fits(h, step as nat, ov),
            y == row * step,
            more_rows ==> row < ny,
            !more_rows ==> row == ny,
            row <= ny,
            blocks@ == block_rows(w, h, bs, ov, row),
        decreases ny - row,
    {
        proof {
            lemma_axis_count(h, step as nat, ov, row);
        }
        let mut x: u32 = 0;
        let ghost mut col: nat = 0;
        let mut more_cols = width > 0;
        let ghost row_blocks = block_row(w, h, bs, ov, row);
        proof {
            lemma_axis_count(w, step as nat, ov, 0);
            assert(0 * (step as nat) == 0);
        }
        while more_cols
            invariant
                step == block_size - overlap,
                step > 0,
                w == width,
                h == height,
                bs == block_size,
                ov == overlap,
                nx == axis_block_count(w, step as nat, ov),
                axis_fits(w, step as nat, ov),
                y == row * step,
                y < height,
                row_blocks == block_row(w, h, bs, ov, row),
                x == col * step,
                more_cols ==> col < nx,
                !more_cols ==> col == nx,
                col <= nx,
                blocks@ == block_rows(w, h, bs, ov, row) + row_blocks.take(col as int),
            decreases nx - col,
        {
            proof {
                lemma_axis_count(w, step as nat, ov, col);
                lemma_axis_count(w, step as nat, ov, col + 1);
                lemma_axis_step(w, step as nat, ov, col);
                assert((col as int) * (step as int) <= ((nx - 1) as int) * (step as int))
                    by (nonlinear_arith)
                    requires
                        col <= nx - 1,
                        step > 0,
                ;
            }
            let block_w = block_size.min(width - x);
            let block_h = block_size.min(height - y);
            blocks.push((x, y, block_w, block_h));
            proof {
                assert(row_blocks[col as int] == (x, y, block_w, block_h));
                assert(row_blocks.take((col + 1) as int) =~= row_blocks.take(col as int).push(
                    row_blocks[col as int],
                ));
            }
            x = x + step;
            more_cols = x + overlap < width;
            proof {
                col = col + 1;
            }
        }
        proof {
            assert(row_blocks.take(nx as int) =~= row_blocks);
            lemma_axis_count(h, step as nat, ov, row + 1);
            lemma_axis_step(h, step as nat, ov, row);
            assert((row as int) * (step as int) <= ((ny - 1) as int) * (step as int))
                by (nonlinear_arith)
                requires
                    row <= ny - 1,
                    step > 0,
            ;
        }
        y = y + step;
        more_rows = y + overlap < height;
        proof {
            row = row + 1;
        }
    }
    blocks
}

/// The block `(x, y, w, h)` contains the pixel `(px, py)`.
pub open spec fn block_contains(b: (u32, u32, u32, u32), px: nat, py: nat) -> bool {
    b.0 <= px < b.0 + b.2 && b.1 <= py < b.1 + b.3
}

proof fn lemma_axis_covers(len: nat, step: nat, overlap: nat, p: nat) -> (c: nat)
    requires
        step > 0,
        p < len,
    ensures
        c < axis_block_count(len, step, overlap),
        c * step <= p,
        p < c * step + step + overlap,
{
    let n = axis_block_count(len, step, overlap);
    lemma_axis_count(len, step, overlap, 0);
    vstd::arithmetic::div_mod::lemma_fundamental_div_mod(p as int, step as int);
    let q = p / step;
    if q < n {
        assert(q * step <= p && p < q * step + step) by (nonlinear_arith)
            requires
                p == step * q + p % step,
                0 <= p % step < step,
        ;
        q
    } else {
        let c = (n - 1) as nat;
        // the block after the last one would start too close to the end
        lemma_axis_count(len, step, overlap, n);
        assert(n * step + overlap >= len);
        assert(c * step <= p) by (nonlinear_arith)
            requires
                c < q,
                p == step * q + p % step,
                0 <= p % step,
                step > 0,
        ;
        assert(n * step == c * step + step) by (nonlinear_arith)
            requires
                c == n - 1,
        ;
        c
    }
}

proof fn lemma_block_rows_index(width: nat, height: nat, block_size: nat, overlap: nat, rows: nat)
    requires
        overlap < block_size,
    ensures
        block_rows(width, height, block_size, overlap, rows).len() == rows * axis_block_count(
            width,
            (block_size - overlap) as nat,
            overlap,
        ),
        forall|r: nat, c: nat|
            r < rows && c < axis_block_count(width, (block_size - overlap) as nat, overlap) ==> (
            #[trigger] block_rows(width, height, block_size, overlap, rows)[(r * axis_block_count(
                width,
                (block_size - overlap) as nat,
                overlap,
            ) + c) as int]) == #[trigger] block_at(width, height, block_size, overlap, r, c),
    decreases rows,
{
    let nx = axis_block_count(width, (block_size - overlap) as nat, overlap);
    if rows > 0 {
        lemma_block_rows_index(width, height, block_size, overlap, (rows - 1) as nat);
        let prev = block_rows(width, height, block_size, overlap, (rows - 1) as nat);
        let all = block_rows(width, height, block_size, overlap, rows);
        let last = block_row(width, height, block_size, overlap, (rows - 1) as nat);
        assert(all == prev + last);
        assert(rows * nx == (rows - 1) * nx + nx) by (nonlinear_arith)
            requires
                rows > 0,
        ;
        assert forall|r: nat, c: nat| r < rows && c < nx implies #[trigger] all[(r * nx
            + c) as int] == #[trigger] block_at(width, height, block_size, overlap, r, c) by {
            if r < rows - 1 {
                assert(r * nx + c < (rows - 1) * nx) by (nonlinear_arith)
                    requires
                        r < rows - 1,
                        c < nx,
                ;
                assert(all[(r * nx + c) as int] == prev[(r * nx + c) as int]);
            } else {
                assert(all[(r * nx + c) as int] == last[c as int]);
            }
        }
    }
}

/// The block has at least one pixel and at most `block_size` in each
/// direction and lies inside the image.
pub open spec fn block_inside(b: (u32, u32, u32, u32), width: nat, height: nat, block_size: nat) -> bool {
    &&& 1 <= b.2 <= block_size && b.0 + b.2 <= width
    &&& 1 <= b.3 <= block_size && b.1 + b.3 <= height
}

proof fn lemma_block_rows_inside(width: nat, height: nat, block_size: nat, overlap: nat, rows: nat)
    requires
        overlap < block_size,
        width <= u32::MAX,
        height <= u32::MAX,
        rows <= axis_block_count(height, (block_size - overlap) as nat, overlap),
    ensures
        forall|i: int|
            0 <= i < block_rows(width, height, block_size, overlap, rows).len() ==> block_inside(
                #[trigger] block_rows(width, height, block_size, overlap, rows)[i],
                width,
                height,
                block_size,
            ),
    decreases rows,
{
    let step = (block_size - overlap) as nat;
    if rows > 0 {
        lemma_block_rows_inside(width, height, block_size, overlap, (rows - 1) as nat);
        let prev = block_rows(width, height, block_size, overlap, (rows - 1) as nat);
        let all = block_rows(width, height, block_size, overlap, rows);
        let last = block_row(width, height, block_size, overlap, (rows - 1) as nat);
        lemma_axis_count(height, step, overlap, (rows - 1) as nat);
        assert forall|i: int| 0 <= i < all.len() implies block_inside(
            #[trigger] all[i],
            width,
            height,
            block_size,
        ) by {
            if i < prev.len() {
                assert(all[i] == prev[i]);
            } else {
                let c = (i - prev.len()) as nat;
                assert(all[i] == last[c as int]);
                lemma_axis_count(width, step, overlap, c);
            }
        }
    }
}

/// Every pixel of the image lies in some block.
pub proof fn law_blocks_cover_image(
    width: nat,
    height: nat,
    block_size: nat,
    overlap: nat,
    px: nat,
    py: nat,
)
    requires
        overlap < block_size,
        width <= u32::MAX,
        height <= u32::MAX,
        px < width,
        py < height,
    ensures
        exists|i: int|
            0 <= i < block_layout(width, height, block_size, overlap).len() && block_contains(
                #[trigger] block_layout(width, height, block_size, overlap)[i],
                px,
                py,
            ),
{
    let step = (block_size - overlap) as nat;
    let nx = axis_block_count(width, step, overlap);
    let ny = axis_block_count(height, step, overlap);
    let c = lemma_axis_covers(width, step, overlap, px);
    let r = lemma_axis_covers(height, step, overlap, py);
    lemma_axis_count(width, step, overlap, c);
    lemma_axis_count(height, step, overlap, r);
    lemma_block_rows_index(width, height, block_size, overlap, ny);
    let layout = block_layout(width, height, block_size, overlap);
    let i = (r * nx + c) as int;
    assert(layout[i] == block_at(width, height, block_size, overlap, r, c));
    assert(i < layout.len()) by (nonlinear_arith)
        requires
            i == r * nx + c,
            r < ny,
            c < nx,
            layout.len() == ny * nx,
    ;
    assert(block_contains(layout[i], px, py));
}

/// Every block lies inside the image, is not empty, and is at most
/// `block_size` pixels in each direction.
pub proof fn law_blocks_inside_image(width: nat, height: nat, block_size: nat, overlap: nat, i: int)
    requires
        overlap < block_size,
        width <= u32::MAX,
        height <= u32::MAX,
        0 <= i < block_layout(width, height, block_size, overlap).len(),
    ensures
        block_inside(block_layout(width, height, block_size, overlap)[i], width, height, block_size),
{
    lemma_block_rows_inside(
        width,
        height,
        block_size,
        overlap,
        axis_block_count(height, (block_size - overlap) as nat, overlap),
    );
}

// ============== Image types and what is known of them ==============

#[verifier::external_type_specification]
#[verifier::external_body]
pub struct ExDynamicImage(DynamicImage);

#[verifier::external_type_specification]
#[verifier::external_body]
pub struct ExResizeError(ResizeError);

/// The 8-bit pixel layouts that images are resized and built in.
#[derive(Debug, Clone, Copy, PartialEq, Eq)]
pub enum PixelLayout {
    Rgb8,
    Rgba8,
}

/// Bytes per pixel of a layout.
pub open spec fn layout_channels(layout: PixelLayout) -> nat {
    match layout {
        PixelLayout::Rgb8 => 3,
        PixelLayout::Rgba8 => 4,
    }
}

/// Width and height of an image in pixels.
pub uninterp spec fn image_size(img: DynamicImage) -> (u32, u32);

/// The layout of an image when it is 8-bit RGB or 8-bit RGBA.
pub uninterp spec fn pixel_layout(img: DynamicImage) -> Option<PixelLayout>;

/// The cut-out that `DynamicImage::crop_imm` makes.
pub uninterp spec fn cropped(img: DynamicImage, x: u32, y: u32, width: u32, height: u32) -> DynamicImage;

/// The 8-bit RGB image that `DynamicImage::to_rgb8` makes of an image.
pub uninterp spec fn rgb8_converted(img: DynamicImage) -> DynamicImage;

/// The pixel bytes that `Resizer::resize` writes when resizing an image to
/// `width` x `height` pixels of the layout.
pub uninterp spec fn resized_bytes(img: DynamicImage, width: u32, height: u32, layout: PixelLayout) -> Seq<u8>;

/// The image that `ImageBuffer::from_raw` makes of pixel bytes in a layout.
pub uninterp spec fn image_of_bytes(layout: PixelLayout, width: u32, height: u32, bytes: Seq<u8>) -> DynamicImage;

/// The 8-bit grayscale image that `ImageBuffer::from_raw` makes of pixel bytes.
pub uninterp spec fn gray_of_bytes(width: u32, height: u32, bytes: Seq<u8>) -> DynamicImage;

/// The `Display` text of a resize error.
pub uninterp spec fn resize_error_text(e: ResizeError) -> Seq<char>;

/// `n` zero bytes.
pub open spec fn zero_bytes(n: nat) -> Seq<u8> {
    Seq::new(n, |i: int| 0u8)
}

// ============== Cropping and tiling ==============

/// Size of the cut-out with corner `(x, y)` and size `width` x `height` of an
/// image of the given size: the corner is first moved into the image, then the
/// size is cut at the image border.
pub open spec fn crop_extent(size: (u32, u32), x: u32, y: u32, width: u32, height: u32) -> (u32, u32) {
    let cx: int = if x < size.0 { x as int } else { size.0 as int };
    let cy: int = if y < size.1 { y as int } else { size.1 as int };
    (
        (if width < size.0 - cx { width as int } else { size.0 - cx }) as u32,
        (if height < size.1 - cy { height as int } else { size.1 - cy }) as u32,
    )
}

/// A cut-out never exceeds the requested size and, from its clamped corner,
/// stays inside the image; it has the requested size exactly when that fits.
pub proof fn law_crop_within_image(size: (u32, u32), x: u32, y: u32, width: u32, height: u32)
    ensures
        ({
            let (cw, ch) = crop_extent(size, x, y, width, height);
            let cx: int = if x < size.0 { x as int } else { size.0 as int };
            let cy: int = if y < size.1 { y as int } else { size.1 as int };
            &&& cw <= width && cx + cw <= size.0
            &&& ch <= height && cy + ch <= size.1
            &&& (x + width <= size.0 ==> cw == width)
            &&& (y + height <= size.1 ==> ch == height)
        }),
{
}

/// `GenericImageView::dimensions` of a `DynamicImage`: its width and height.
#[verifier::external_body]
pub(crate) fn image_dimensions(img: &DynamicImage) -> (r: (u32, u32))
    ensures
        r == image_size(*img),
{
    img.dimensions()
}

/// `DynamicImage::crop_imm`: a new image holding a cut-out of `img`, in the
/// same pixel format. The image crate clamps the corner into the image and cuts
/// the size at the border before copying, which gives the size stated here.
#[verifier::external_body]
pub(crate) fn crop_imm_of(img: &DynamicImage, x: u32, y: u32, width: u32, height: u32) -> (r:
    DynamicImage)
    ensures
        r == cropped(*img, x, y, width, height),
        image_size(r) == crop_extent(image_size(*img), x, y, width, height),
        pixel_layout(r) == pixel_layout(*img),
{
    img.crop_imm(x, y, width, height)
}

/// Crop image region
pub fn crop_image(img: &DynamicImage, x: u32, y: u32, width: u32, height: u32) -> (r: DynamicImage)
    ensures
        r == cropped(*img, x, y, width, height),
        image_size(r) == crop_extent(image_size(*img), x, y, width, height),
{
    crop_imm_of(img, x, y, width, height)
}

/// Split image into blocks (for high precision mode)
///
/// Returns the block images with the positions `(x, y)` of their top-left
/// corners in the input image, row by row; each block is the cut-out of the
/// rectangle that [`block_layout`] gives it.
pub fn split_into_blocks(img: &DynamicImage, block_size: u32, overlap: u32) -> (r: Vec<
    (DynamicImage, u32, u32),
>)
    requires
        overlap < block_size,
        axis_fits(image_size(*img).0 as nat, (block_size - overlap) as nat, overlap as nat),
        axis_fits(image_size(*img).1 as nat, (block_size - overlap) as nat, overlap as nat),
    ensures
        ({
            let layout = block_layout(
                image_size(*img).0 as nat,
                image_size(*img).1 as nat,
                block_size as nat,
                overlap as nat,
            );
            &&& r.len() == layout.len()
            &&& forall|i: int|
                0 <= i < r.len() ==> {
                    &&& (#[trigger] r[i]).1 == layout[i].0
                    &&& r[i].2 == layout[i].1
                    &&& r[i].0 == cropped(*img, layout[i].0, layout[i].1, layout[i].2, layout[i].3)
                    &&& image_size(r[i].0) == (layout[i].2, layout[i].3)
                }
        }),
{
    let (width, height) = image_dimensions(img);
    let positions = block_positions(width, height, block_size, overlap);
    let ghost layout = block_layout(width as nat, height as nat, block_size as nat, overlap as nat);
    let mut blocks: Vec<(DynamicImage, u32, u32)> = Vec::new();
    let mut i: usize = 0;
    while i < positions.len()
        invariant
            width == image_size(*img).0,
            height == image_size(*img).1,
            overlap < block_size,
            layout == block_layout(width as nat, height as nat, block_size as nat, overlap as nat),
            positions@ == layout,
            i <= positions.len(),
            blocks.len() == i,
            forall|k: int|
                0 <= k < i ==> {
                    &&& (#[trigger] blocks[k]).1 == layout[k].0
                    &&& blocks[k].2 == layout[k].1
                    &&& blocks[k].0 == cropped(*img, layout[k].0, layout[k].1, layout[k].2, layout[k].3)
                    &&& image_size(blocks[k].0) == (layout[k].2, layout[k].3)
                },
        decreases positions.len() - i,
    {
        let (x, y, w, h) = positions[i];
        proof {
            law_blocks_inside_image(
                width as nat,
                height as nat,
                block_size as nat,
                overlap as nat,
                i as int,
            );
        }
        let block = crop_imm_of(img, x, y, w, h);
        blocks.push((block, x, y));
        i = i + 1;
    }
    blocks
}

// ============== Converting and building images ==============

/// `DynamicImage::to_rgb8`, held again as a `DynamicImage`: an 8-bit RGB
/// image of the same size.
#[verifier::external_body]
fn to_rgb8_of(img: &DynamicImage) -> (r: DynamicImage)
    ensures
        r == rgb8_converted(*img),
        image_size(r) == image_size(*img),
        pixel_layout(r) == Some(PixelLayout::Rgb8),
{
    DynamicImage::ImageRgb8(img.to_rgb8())
}

/// The image converted to 8-bit RGB, of the same size.
pub fn rgb8_image(img: &DynamicImage) -> (r: DynamicImage)
    ensures
        r == rgb8_converted(*img),
        image_size(r) == image_size(*img),
        pixel_layout(r) == Some(PixelLayout::Rgb8),
{
    to_rgb8_of(img)
}

/// `ImageBuffer::from_raw` for the layout, held as a `DynamicImage`: it
/// accepts the bytes exactly when the byte size of a `width` x `height` image
/// can be computed without overflow (bytes per pixel times width, then times
/// height) and the bytes hold at least that many; the image then has the given
/// size and layout.
#[verifier::external_body]
fn image_from_pixels(layout: PixelLayout, width: u32, height: u32, bytes: Vec<u8>) -> (r: Option<
    DynamicImage,
>)
    ensures
        r is Some <==> (layout_channels(layout) * width as int <= usize::MAX && layout_channels(
            layout,
        ) * width as int * height as int <= usize::MAX && layout_channels(layout) * width as int
            * height as int <= bytes.len()),
        r matches Some(img) ==> img == image_of_bytes(layout, width, height, bytes@) && image_size(
            img,
        ) == (width, height) && pixel_layout(img) == Some(layout),
{
    match layout {
        PixelLayout::Rgb8 => RgbImage::from_raw(width, height, bytes).map(DynamicImage::ImageRgb8),
        PixelLayout::Rgba8 => RgbaImage::from_raw(width, height, bytes).map(DynamicImage::ImageRgba8),
    }
}

/// `ImageBuffer::new` for 8-bit RGB, held as a `DynamicImage`: the image of
/// the given size whose bytes are all zero, which is what `from_raw` makes of
/// that many zero bytes. It panics when the byte size overflows, which the
/// precondition excludes.
#[verifier::external_body]
fn blank_rgb8(width: u32, height: u32) -> (r: DynamicImage)
    requires
        3 * width as int <= usize::MAX,
        3 * width as int * height as int <= usize::MAX,
    ensures
        r == image_of_bytes(PixelLayout::Rgb8, width, height, zero_bytes((3 * width * height) as nat)),
        image_size(r) == (width, height),
        pixel_layout(r) == Some(PixelLayout::Rgb8),
{
    DynamicImage::ImageRgb8(RgbImage::new(width, height))
}

/// Create image from RGB data: the 8-bit RGB image of `width` x `height`
/// pixels read row by row from `data`, or an all-zero image of that size when
/// `data` is too short.
pub fn rgb_to_image(data: &[u8], width: u32, height: u32) -> (r: DynamicImage)
    requires
        3 * width as int <= usize::MAX,
        3 * width as int * height as int <= usize::MAX,
    ensures
        image_size(r) == (width, height),
        pixel_layout(r) == Some(PixelLayout::Rgb8),
        3 * width * height <= data@.len() ==> r == image_of_bytes(
            PixelLayout::Rgb8,
            width,
            height,
            data@,
        ),
        3 * width * height > data@.len() ==> r == image_of_bytes(
            PixelLayout::Rgb8,
            width,
            height,
            zero_bytes((3 * width * height) as nat),
        ),
{
    match image_from_pixels(PixelLayout::Rgb8, width, height, slice_to_vec(data)) {
        Some(img) => img,
        None => blank_rgb8(width, height),
    }
}

/// `GrayImage::from_raw`, held as a `DynamicImage`: it accepts the bytes
/// exactly when they hold at least `width * height` pixels and that count does
/// not overflow; the image then has the given size.
#[verifier::external_body]
fn gray_from_pixels(width: u32, height: u32, bytes: Vec<u8>) -> (r: Option<DynamicImage>)
    ensures
        r is Some <==> (width as int * height as int <= usize::MAX && width as int * height as int
            <= bytes.len()),
        r matches Some(img) ==> img == gray_of_bytes(width, height, bytes@) && image_size(img) == (
            width,
            height,
        ),
{
    GrayImage::from_raw(width, height, bytes).map(DynamicImage::ImageLuma8)
}

/// `GrayImage::new`, held as a `DynamicImage`: the image of the given size
/// whose bytes are all zero, which is what `from_raw` makes of that many zero
/// bytes. It panics when the byte size overflows, which the precondition
/// excludes.
#[verifier::external_body]
fn blank_gray(width: u32, height: u32) -> (r: DynamicImage)
    requires
        width as int * height as int <= usize::MAX,
    ensures
        r == gray_of_bytes(width, height, zero_bytes((width * height) as nat)),
        image_size(r) == (width, height),
{
    DynamicImage::ImageLuma8(GrayImage::new(width, height))
}

/// Grayscale image from pixel data: the 8-bit grayscale image of `width` x
/// `height` pixels read row by row from `data`, or an all-zero image of that
/// size when `data` is too short.
pub fn gray_image_from_bytes(data: &[u8], width: u32, height: u32) -> (r: DynamicImage)
    requires
        width as int * height as int <= usize::MAX,
    ensures
        image_size(r) == (width, height),
        width * height <= data@.len() ==> r == gray_of_bytes(width, height, data@),
        width * height > data@.len() ==> r == gray_of_bytes(
            width,
            height,
            zero_bytes((width * height) as nat),
        ),
{
    match gray_from_pixels(width, height, slice_to_vec(data)) {
        Some(img) => img,
        None => blank_gray(width, height),
    }
}

// ============== Resizing ==============

/// `IntoImageView::pixel_type` of a `DynamicImage`, as far as it is one of the
/// layouts that are resized directly: 8-bit RGB or 8-bit RGBA.
#[verifier::external_body]
fn direct_resize_layout(img: &DynamicImage) -> (r: Option<PixelLayout>)
    ensures
        r == pixel_layout(*img),
{
    match img.pixel_type() {
        Some(PixelType::U8x3) => Some(PixelLayout::Rgb8),
        Some(PixelType::U8x4) => Some(PixelLayout::Rgba8),
        _ => None,
    }
}

/// `Resizer::resize` of `src` into a new `fast_image_resize` image of the
/// given size and layout, whose pixel buffer is handed back. The resizer
/// succeeds when the source has the destination's layout (with the default
/// options it crops nothing, and an empty source or destination is left as it
/// is). The buffer was allocated by `Image::new` with `width * height` pixels
/// of the layout, so it holds exactly that many bytes.
#[verifier::external_body]
fn resize_pixels(src: &DynamicImage, width: u32, height: u32, layout: PixelLayout) -> (r: Result<
    Vec<u8>,
    ResizeError,
>)
    requires
        width as int * height as int * layout_channels(layout) <= usize::MAX,
    ensures
        pixel_layout(*src) == Some(layout) ==> r is Ok,
        r matches Ok(bytes) ==> bytes@ == resized_bytes(*src, width, height, layout) && bytes.len()
            == width as int * height as int * layout_channels(layout),
{
    let pixel_type = match layout {
        PixelLayout::Rgb8 => PixelType::U8x3,
        PixelLayout::Rgba8 => PixelType::U8x4,
    };
    let mut dst = ResizeBuffer::new(width, height, pixel_type);
    Resizer::new().resize(src, &mut dst, None)?;
    Ok(dst.into_vec())
}

/// The `Display` text of a resize error.
#[verifier::external_body]
fn resize_error_message(e: &ResizeError) -> (r: String)
    ensures
        r@ == resize_error_text(*e),
{
    e.to_string()
}

/// The error reports that the resized pixels could not be held as an image.
pub open spec fn is_buffer_mismatch(e: OcrError) -> bool {
    e matches OcrError::PreprocessError(m) && (m@ == "RGB buffer size mismatch after resize"@ || m@
        == "RGBA buffer size mismatch after resize"@)
}

/// The layout an image is resized in: its own when 8-bit RGB or RGBA, 8-bit
/// RGB otherwise.
pub open spec fn resize_layout_of(img: DynamicImage) -> PixelLayout {
    match pixel_layout(img) {
        Some(layout) => layout,
        None => PixelLayout::Rgb8,
    }
}

/// The image that is resized: the image itself when 8-bit RGB or RGBA, its
/// 8-bit RGB conversion otherwise.
pub open spec fn resize_source(img: DynamicImage) -> DynamicImage {
    match pixel_layout(img) {
        Some(_) => img,
        None => rgb8_converted(img),
    }
}

/// The result of resizing an image to `width` x `height`.
pub open spec fn fast_resized(img: DynamicImage, width: u32, height: u32) -> DynamicImage {
    image_of_bytes(
        resize_layout_of(img),
        width,
        height,
        resized_bytes(resize_source(img), width, height, resize_layout_of(img)),
    )
}

fn resize_in_layout(src: &DynamicImage, new_w: u32, new_h: u32, layout: PixelLayout) -> (r: Result<
    DynamicImage,
    OcrError,
>)
    requires
        new_w as int * new_h as int * 4 <= usize::MAX,
        pixel_layout(*src) == Some(layout),
    ensures
        r is Ok <==> layout_channels(layout) * new_w as int <= usize::MAX,
        r matches Ok(out) ==> out == image_of_bytes(
            layout,
            new_w,
            new_h,
            resized_bytes(*src, new_w, new_h, layout),
        ) && image_size(out) == (new_w, new_h) && pixel_layout(out) == Some(layout),
        r matches Err(e) ==> is_buffer_mismatch(e),
{
    assert(new_w as int * new_h as int * layout_channels(layout) <= new_w as int * new_h as int * 4)
        by (nonlinear_arith)
        requires
            layout_channels(layout) <= 4,
    ;
    assert(layout_channels(layout) * new_w as int * new_h as int == new_w as int * new_h as int
        * layout_channels(layout)) by (nonlinear_arith);
    let bytes = match resize_pixels(src, new_w, new_h, layout) {
        Ok(bytes) => bytes,
        Err(e) => {
            let mut m = String::from_str("Image resize failed: ");
            m.append(resize_error_message(&e).as_str());
            return Err(OcrError::PreprocessError(m));
        },
    };
    match image_from_pixels(layout, new_w, new_h, bytes) {
        Some(out) => Ok(out),
        None => match layout {
            PixelLayout::Rgb8 => Err(
                OcrError::PreprocessError(String::from_str("RGB buffer size mismatch after resize")),
            ),
            PixelLayout::Rgba8 => Err(
                OcrError::PreprocessError(String::from_str("RGBA buffer size mismatch after resize")),
            ),
        },
    }
}

/// Resize an image to `new_w` x `new_h` pixels with `fast_image_resize`.
/// 8-bit RGB and RGBA images are resized as they are; any other format is
/// first converted to 8-bit RGB. The resize succeeds unless the byte size of a
/// row of the result cannot be computed (only possible for an empty image of
/// enormous width), which is reported as a buffer size mismatch.
pub fn fast_resize(img: &DynamicImage, new_w: u32, new_h: u32) -> (r: Result<DynamicImage, OcrError>)
    requires
        new_w as int * new_h as int * 4 <= usize::MAX,
    ensures
        r is Ok <==> layout_channels(resize_layout_of(*img)) * new_w as int <= usize::MAX,
        r matches Ok(out) ==> out == fast_resized(*img, new_w, new_h) && image_size(out) == (
            new_w,
            new_h,
        ) && pixel_layout(out) == Some(resize_layout_of(*img)),
        r matches Err(e) ==> new_h == 0 && is_buffer_mismatch(e),
{
    // a row's byte size can only overflow when the image has no rows
    assert(new_h > 0 ==> new_w as int * 4 <= usize::MAX) by (nonlinear_arith)
        requires
            new_w as int * new_h as int * 4 <= usize::MAX,
    ;
    match direct_resize_layout(img) {
        Some(layout) => {
            assert(layout_channels(layout) * new_w as int <= 4 * new_w as int) by (nonlinear_arith)
                requires
                    layout_channels(layout) <= 4,
            ;
            resize_in_layout(img, new_w, new_h, layout)
        },
        None => {
            let rgb = to_rgb8_of(img);
            resize_in_layout(&rgb, new_w, new_h, PixelLayout::Rgb8)
        },
    }
}

/// Whether an image axis of `len` pixels can be tiled with blocks that step
/// by `step` and overlap by `overlap` without the block positions leaving `u32`.
fn axis_tiling_fits(len: u32, step: u32, overlap: u32) -> (r: bool)
    requires
        step > 0,
    ensures
        r == axis_fits(len as nat, step as nat, overlap as nat),
{
    if len == 0 {
        return true;
    }
    let count: u64 = if len <= overlap {
        1
    } else {
        1 + ((len - overlap - 1) / step) as u64
    };
    assert(count == axis_block_count(len as nat, step as nat, overlap as nat));
    proof {
        if len > overlap {
            vstd::arithmetic::div_mod::lemma_div_is_ordered(
                (len - overlap - 1) as int,
                len as int,
                step as int,
            );
        }
        vstd::arithmetic::div_mod::lemma_div_is_ordered(0, len as int, step as int);
    }
    assert(count <= u32::MAX + 1) by (nonlinear_arith)
        requires
            step >= 1,
            count <= 1 + (len as int) / (step as int),
            len <= u32::MAX,
    ;
    assert((count - 1) * (step as int) <= u32::MAX as int * u32::MAX as int) by (nonlinear_arith)
        requires
            count - 1 <= u32::MAX,
            0 <= count - 1,
            step <= u32::MAX,
    ;
    let last_start: u64 = (count - 1) * (step as u64);
    last_start + step as u64 + overlap as u64 <= u32::MAX as u64
}

/// Split image into blocks, or `None` when the blocks cannot be laid out:
/// when the overlap is not smaller than the block size, or when a block
/// position along an axis would not fit in `u32`.
pub fn try_split_into_blocks(img: &DynamicImage, block_size: u32, overlap: u32) -> (r: Option<
    Vec<(DynamicImage, u32, u32)>,
>)
    ensures
        r is Some <==> (overlap < block_size && axis_fits(
            image_size(*img).0 as nat,
            (block_size - overlap) as nat,
            overlap as nat,
        ) && axis_fits(image_size(*img).1 as nat, (block_size - overlap) as nat, overlap as nat)),
        r matches Some(blocks) ==> ({
            let layout = block_layout(
                image_size(*img).0 as nat,
                image_size(*img).1 as nat,
                block_size as nat,
                overlap as nat,
            );
            &&& blocks.len() == layout.len()
            &&& forall|i: int|
                0 <= i < blocks.len() ==> {
                    &&& (#[trigger] blocks[i]).1 == layout[i].0
                    &&& blocks[i].2 == layout[i].1
                    &&& blocks[i].0 == cropped(
                        *img,
                        layout[i].0,
                        layout[i].1,
                        layout[i].2,
                        layout[i].3,
                    )
                    &&& image_size(blocks[i].0) == (layout[i].2, layout[i].3)
                }
        }),
{
    if overlap >= block_size {
        return None;
    }
    let (width, height) = image_dimensions(img);
    let step = block_size - overlap;
    if !axis_tiling_fits(width, step, overlap) || !axis_tiling_fits(height, step, overlap) {
        return None;
    }
    Some(split_into_blocks(img, block_size, overlap))
}

} // verus!

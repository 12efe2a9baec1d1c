//! The image pipeline: a deterministic scan of a W x H pixel grid in
//! row-major order (top row first, left column first) that maps each
//! pixel to a color and serializes the whole image as lines of text.
//!
//! The output is the line-oriented plain-text color format: the magic
//! line `P3`, then `<width> <height>`, then the maximum channel value
//! `255`, then one `r g b` line per pixel. Pixel (column `i`, row `j`)
//! gets the normalized coordinates `u = i / (W-1)` and `v = j / (H-1)`
//! and the color quantized from `(u, v, 0)`: a red/green gradient.
//!
//! Degenerate one-pixel-wide or one-pixel-high images would divide by
//! zero in the coordinate formula; the pipeline therefore requires both
//! dimensions to be at least 2.

use vstd::prelude::*;
use vstd::arithmetic::div_mod::lemma_fundamental_div_mod_converse;
use crate::color::{Color, Intensity, quantize_spec, to_channel};
use crate::decimal::{dec_rep, line_of, decimal_string};

verus! {

/// Largest accepted image dimension; keeps the number of output lines
/// well inside `usize` on every target.
pub const MAX_DIM: u32 = 32768;

/// The color of the pixel in column `i` of row `j`: red is the
/// quantized `i / (w-1)`, green the quantized `j / (h-1)`, blue zero.
pub open spec fn pixel_spec(i: int, j: int, w: int, h: int) -> Color
    recommends
        2 <= w,
        2 <= h,
        0 <= i < w,
        0 <= j < h,
{
    Color {
        r: to_channel(quantize_spec(i, w - 1)) as i32,
        g: to_channel(quantize_spec(j, h - 1)) as i32,
        b: 0,
    }
}

/// The magic line identifying the plain-text color format.
pub open spec fn magic_line() -> Seq<char> {
    seq!['P', '3']
}

/// The dimensions line: width, a space, height.
pub open spec fn dims_line(w: int, h: int) -> Seq<char>
    recommends
        w >= 0,
        h >= 0,
{
    dec_rep(w as nat) + seq![' '] + dec_rep(h as nat)
}

/// The maximum-channel-value line, `255`.
pub open spec fn maxval_line() -> Seq<char> {
    seq!['2', '5', '5']
}

/// The output line of the pixel in column `i` of row `j`.
pub open spec fn pixel_line(i: int, j: int, w: int, h: int) -> Seq<char> {
    line_of(
        pixel_spec(i, j, w, h).r as int,
        pixel_spec(i, j, w, h).g as int,
        pixel_spec(i, j, w, h).b as int,
    )
}

/// Line `k` of the rendered image: three header lines, then the pixel
/// lines in row-major order.
pub open spec fn image_line(k: int, w: int, h: int) -> Seq<char>
    recommends
        0 <= k < 3 + w * h,
{
    if k == 0 {
        magic_line()
    } else if k == 1 {
        dims_line(w, h)
    } else if k == 2 {
        maxval_line()
    } else {
        pixel_line((k - 3) % w, (k - 3) / w, w, h)
    }
}

/// The full rendered image, line by line.
pub open spec fn image_spec(w: int, h: int) -> Seq<Seq<char>>
    recommends
        2 <= w,
        2 <= h,
{
    Seq::new((3 + w * h) as nat, |k: int| image_line(k, w, h))
}

/// Compute the color of one pixel of a `width` x `height` image.
pub fn pixel_color(i: u32, j: u32, width: u32, height: u32) -> (c: Color)
    requires
        2 <= width <= MAX_DIM,
        2 <= height <= MAX_DIM,
        i < width,
        j < height,
    ensures
        c == pixel_spec(i as int, j as int, width as int, height as int),
        c.wf(),
{
    let u = Intensity::new(i as u64, (width - 1) as u64);
    let v = Intensity::new(j as u64, (height - 1) as u64);
    let zero = Intensity::zero();
    let c = Color::new(u, v, zero);
    proof {
        assert(quantize_spec(0, 1) == 0);
        assert(c == pixel_spec(i as int, j as int, width as int, height as int));
    }
    c
}

/// Render the full image: the header lines `P3`, `<width> <height>` and
/// `255`, then one line per pixel in row-major order, top row first,
/// left column first.
pub fn render(width: u32, height: u32) -> (lines: Vec<String>)
    requires
        2 <= width <= MAX_DIM,
        2 <= height <= MAX_DIM,
    ensures
        lines@.len() == 3 + width * height,
        forall|k: int|
            0 <= k < lines@.len() ==> lines@[k]@ == image_spec(width as int, height as int)[k],
{
    let ghost w = width as int;
    let ghost h = height as int;
    let mut lines: Vec<String> = Vec::new();

    let magic = String::from_str("P3");
    proof {
        reveal_strlit("P3");
        assert(magic@ =~= magic_line());
    }
    lines.push(magic);

    let mut dims = decimal_string(width as u64);
    dims.append(" ");
    let hs = decimal_string(height as u64);
    dims.append(hs.as_str());
    proof {
        reveal_strlit(" ");
        assert(" "@ =~= seq![' ']);
        assert(dims@ =~= dims_line(w, h));
    }
    lines.push(dims);

    let maxval = String::from_str("255");
    proof {
        reveal_strlit("255");
        assert(maxval@ =~= maxval_line());
    }
    lines.push(maxval);

    let mut j: u32 = 0;
    while j < height
        invariant
            2 <= width <= MAX_DIM,
            2 <= height <= MAX_DIM,
            w == width as int,
            h == height as int,
            j <= height,
            lines@.len() == 3 + j * w,
            forall|k: int| 0 <= k < lines@.len() ==> lines@[k]@ == image_spec(w, h)[k],
        decreases height - j,
    {
        let mut i: u32 = 0;
        while i < width
            invariant
                2 <= width <= MAX_DIM,
                2 <= height <= MAX_DIM,
                w == width as int,
                h == height as int,
                j < height,
                i <= width,
                lines@.len() == 3 + j * w + i,
                forall|k: int| 0 <= k < lines@.len() ==> lines@[k]@ == image_spec(w, h)[k],
            decreases width - i,
        {
            let c = pixel_color(i, j, width, height);
            let line = c.to_line();
            proof {
                let pos = 3 + j * w + i;
                assert(j * w + i < w * h) by (nonlinear_arith)
                    requires 0 <= i < w && 0 <= (j as int) < h,
                ;
                lemma_fundamental_div_mod_converse(j * w + i, w, j as int, i as int);
                assert(image_spec(w, h)[pos] == pixel_line(i as int, j as int, w, h));
                assert(line@ == pixel_line(i as int, j as int, w, h));
            }
            lines.push(line);
            i = i + 1;
        }
        proof {
            assert(j * w + w == (j + 1) * w) by (nonlinear_arith);
        }
        j = j + 1;
    }
    proof {
        assert(lines@.len() == 3 + h * w);
        assert(h * w == w * h) by (nonlinear_arith);
    }
    lines
}

/// Every pixel of a rendered image has channels in `[0, 255]`: the
/// normalized coordinates are at most 1, so quantization stays in range
/// and the emitted lines respect the format's maximum channel value.
pub proof fn lemma_pixel_channels_in_range(i: int, j: int, w: int, h: int)
    requires
        2 <= w,
        2 <= h,
        0 <= i < w,
        0 <= j < h,
    ensures
        0 <= pixel_spec(i, j, w, h).r <= 255,
        0 <= pixel_spec(i, j, w, h).g <= 255,
        pixel_spec(i, j, w, h).b == 0,
{
    crate::color::lemma_nominal_quantize_in_range(i, w - 1);
    crate::color::lemma_nominal_quantize_in_range(j, h - 1);
}

/// The pipeline is deterministic: two rendered line sequences for the
/// same dimensions agree line for line, so running the pipeline twice
/// with identical dimensions produces byte-identical output.
pub proof fn lemma_render_deterministic(a: Seq<String>, b: Seq<String>, w: int, h: int)
    requires
        a.len() == 3 + w * h,
        b.len() == 3 + w * h,
        forall|k: int| 0 <= k < a.len() ==> a[k]@ == image_spec(w, h)[k],
        forall|k: int| 0 <= k < b.len() ==> b[k]@ == image_spec(w, h)[k],
    ensures
        forall|k: int| 0 <= k < a.len() ==> a[k]@ == b[k]@,
{
    assert forall|k: int| 0 <= k < a.len() implies a[k]@ == b[k]@ by {
        assert(a[k]@ == image_spec(w, h)[k]);
        assert(b[k]@ == image_spec(w, h)[k]);
    }
}

} // verus!

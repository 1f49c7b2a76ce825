//! The frame rasterizer: maps a pixel grid onto the complex plane and
//! evaluates the escape-time count of every pixel.
//!
//! A frame of `width` by `height` pixels is centered on `(center_x,
//! center_y)` and spans `scale` units of the complex plane horizontally; rows
//! are sampled at the same per-pixel step as columns, so the vertical extent
//! is `height` steps. The buffer is row-major from the top left: pixel
//! (row `r`, column `c`) is at index `r * width + c`.

use vstd::prelude::*;
use vstd::arithmetic::div_mod::lemma_fundamental_div_mod_converse;
use crate::ieee64::{TWO, add_bits, sub_bits, mul_bits, div_bits, from_u64_bits, is_le_zero};
use crate::ieee64::{bits_add, bits_sub, bits_mul, bits_div, bits_from_u64, le_zero};
use crate::escape::{evaluate, evaluate_spec};

verus! {

/// Why a frame was rejected before any pixel was computed.
#[derive(Clone, Copy, Debug, PartialEq, Eq, Structural)]
pub enum RenderError {
    /// `width` or `height` is zero: the buffer could not be indexed.
    InvalidDimensions,
    /// `scale` is not strictly positive: the sampled region would collapse or
    /// invert.
    InvalidScale,
}

/// Distance in the complex plane between two adjacent samples:
/// `scale / width`.
pub open spec fn step_spec(width: usize, scale: u64) -> u64 {
    div_bits(scale, from_u64_bits(width as u64))
}

/// First sampled coordinate of an axis: the center, moved back by half the
/// pixel count of the axis, in steps (`center - (extent / 2.0) * step`).
pub open spec fn axis_origin_spec(extent: usize, center: u64, step: u64) -> u64 {
    sub_bits(center, mul_bits(div_bits(from_u64_bits(extent as u64), TWO), step))
}

/// Coordinate sampled at offset `k` along an axis whose first sample is
/// `origin`: `origin + step * k`.
pub open spec fn sample_spec(origin: u64, step: u64, k: int) -> u64 {
    add_bits(origin, mul_bits(step, from_u64_bits(k as u64)))
}

/// The count stored for the pixel at flat index `k` of the frame: the
/// escape-time count at the sampled coordinate of row `k / width`, column
/// `k % width`.
pub open spec fn cell_spec(
    width: usize,
    height: usize,
    center_x: u64,
    center_y: u64,
    scale: u64,
    max_iter: u32,
    k: int,
) -> u32 {
    let step = step_spec(width, scale);
    let cx = sample_spec(axis_origin_spec(width, center_x, step), step, k % (width as int));
    let cy = sample_spec(axis_origin_spec(height, center_y, step), step, k / (width as int));
    evaluate_spec(cx, cy, max_iter as nat) as u32
}

/// The full frame buffer: `width * height` counts, row-major from the top
/// left.
pub open spec fn render_spec(
    width: usize,
    height: usize,
    center_x: u64,
    center_y: u64,
    scale: u64,
    max_iter: u32,
) -> Seq<u32> {
    Seq::new(
        (width * height) as nat,
        |k: int| cell_spec(width, height, center_x, center_y, scale, max_iter, k),
    )
}

/// Render a frame of escape-time counts.
///
/// Fails with `InvalidDimensions` exactly when `width` or `height` is zero,
/// and with `InvalidScale` exactly when both dimensions are positive but the
/// binary64 value `scale` is not strictly positive (NaN is accepted: it is
/// not `<= 0.0`). Otherwise the returned buffer holds, for every pixel, the
/// escape-time count at the coordinate the pixel maps to, row-major from the
/// top left, so the whole buffer is a function of the parameters alone.
pub fn render(
    width: usize,
    height: usize,
    center_x: u64,
    center_y: u64,
    scale: u64,
    max_iter: u32,
) -> (out: Result<Vec<u32>, RenderError>)
    ensures
        out is Err <==> width == 0 || height == 0 || is_le_zero(scale),
        out matches Err(e) ==> e == (if width == 0 || height == 0 {
            RenderError::InvalidDimensions
        } else {
            RenderError::InvalidScale
        }),
        out matches Ok(buf) ==> buf@ == render_spec(
            width,
            height,
            center_x,
            center_y,
            scale,
            max_iter,
        ),
        out matches Ok(buf) ==> buf@.len() == width * height,
        out matches Ok(buf) ==> forall|k: int| 0 <= k < buf@.len() ==> buf@[k] <= max_iter,
{
    if width == 0 || height == 0 {
        return Err(RenderError::InvalidDimensions);
    }
    if le_zero(scale) {
        return Err(RenderError::InvalidScale);
    }
    let step: u64 = bits_div(scale, bits_from_u64(width as u64));
    let x_start: u64 = bits_sub(center_x, bits_mul(bits_div(bits_from_u64(width as u64), TWO), step));
    let y_start: u64 = bits_sub(center_y, bits_mul(bits_div(bits_from_u64(height as u64), TWO), step));
    let ghost spec_buf = render_spec(width, height, center_x, center_y, scale, max_iter);
    let mut buffer: Vec<u32> = Vec::new();
    let mut row: usize = 0;
    while row < height
        invariant
            row <= height,
            width > 0,
            buffer@.len() == row * width,
            step == step_spec(width, scale),
            x_start == axis_origin_spec(width, center_x, step),
            y_start == axis_origin_spec(height, center_y, step),
            spec_buf == render_spec(width, height, center_x, center_y, scale, max_iter),
            forall|k: int| 0 <= k < buffer@.len() ==> buffer@[k] == spec_buf[k],
            forall|k: int| 0 <= k < buffer@.len() ==> buffer@[k] <= max_iter,
        decreases height - row,
    {
        let cy: u64 = bits_add(y_start, bits_mul(step, bits_from_u64(row as u64)));
        let mut col: usize = 0;
        while col < width
            invariant
                row < height,
                col <= width,
                width > 0,
                buffer@.len() == row * width + col,
                step == step_spec(width, scale),
                x_start == axis_origin_spec(width, center_x, step),
                y_start == axis_origin_spec(height, center_y, step),
                cy == sample_spec(y_start, step, row as int),
                spec_buf == render_spec(width, height, center_x, center_y, scale, max_iter),
                forall|k: int| 0 <= k < buffer@.len() ==> buffer@[k] == spec_buf[k],
                forall|k: int| 0 <= k < buffer@.len() ==> buffer@[k] <= max_iter,
            decreases width - col,
        {
            let cx: u64 = bits_add(x_start, bits_mul(step, bits_from_u64(col as u64)));
            let count: u32 = evaluate(cx, cy, max_iter);
            proof {
                let k = row * width + col;
                lemma_fundamental_div_mod_converse(
                    k as int,
                    width as int,
                    row as int,
                    col as int,
                );
                assert(k < width * height) by (nonlinear_arith)
                    requires
                        row < height,
                        col < width,
                        k == row * width + col,
                ;
                assert(count == cell_spec(width, height, center_x, center_y, scale, max_iter, k as int));
            }
            buffer.push(count);
            col = col + 1;
        }
        proof {
            assert(row * width + width == (row + 1) * width) by (nonlinear_arith);
        }
        row = row + 1;
    }
    proof {
        assert(height * width == width * height) by (nonlinear_arith);
        assert(buffer@ =~= spec_buf);
    }
    Ok(buffer)
}

/// Rendering is deterministic: two buffers produced from identical parameters
/// are bit-identical, since `render` pins its whole buffer to `render_spec`,
/// a function of the parameters alone.
pub proof fn lemma_render_deterministic(
    width: usize,
    height: usize,
    center_x: u64,
    center_y: u64,
    scale: u64,
    max_iter: u32,
    buf1: Seq<u32>,
    buf2: Seq<u32>,
)
    requires
        buf1 == render_spec(width, height, center_x, center_y, scale, max_iter),
        buf2 == render_spec(width, height, center_x, center_y, scale, max_iter),
    ensures
        buf1 == buf2,
{
}

} // verus!

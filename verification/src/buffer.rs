//! The normalised buffer: a rectangle of exact sample values.

use vstd::prelude::*;
use crate::levels::Ratio;

verus! {

/// How the values of a buffer relate to light.
#[derive(Clone, Copy, Debug, PartialEq, Eq, Structural)]
pub enum Encoding {
    /// The values are proportional to light.
    Linear,
    /// The values follow the sRGB display curve; a consumer that needs
    /// linear light expands each of them through the inverse of that curve.
    Srgb,
}

/// Place of slot `(row, col, k)` in row-major storage of `width` pixels per
/// row and `channels` samples per pixel.
pub open spec fn flat_index(width: int, channels: int, row: int, col: int, k: int) -> int {
    (row * width + col) * channels + k
}

/// Slot `(r, c, k)` comes before slot `(row, col, kk)` in reading order: by
/// row, then by column, then by channel.
pub open spec fn precedes(r: int, c: int, k: int, row: int, col: int, kk: int) -> bool {
    r < row || (r == row && (c < col || (c == col && k < kk)))
}

/// A rectangle of normalised samples, stored row by row, pixel by pixel.
#[derive(Clone, Debug, PartialEq, Eq)]
pub struct OpBuffer {
    /// Width in pixels.
    pub width: usize,
    /// Height in pixels.
    pub height: usize,
    /// Samples per pixel.
    pub channels: usize,
    /// The last of four channels is present only to fill the pixel, beside
    /// monochrome data repeated over the other three.
    pub interleaved_alpha: bool,
    /// How the values relate to light.
    pub encoding: Encoding,
    /// The samples, row-major.
    pub data: Vec<Ratio>,
}

impl OpBuffer {
    /// The storage holds exactly the samples of the rectangle.
    pub open spec fn wf(self) -> bool {
        self.data.len() == self.width * self.height * self.channels
    }

    /// `(row, col, k)` names a sample of the buffer.
    pub open spec fn holds(self, row: int, col: int, k: int) -> bool {
        &&& 0 <= row < self.height
        &&& 0 <= col < self.width
        &&& 0 <= k < self.channels
    }

    /// The sample of channel `k` of the pixel at `(row, col)`.
    pub open spec fn at(self, row: int, col: int, k: int) -> Ratio {
        self.data@[flat_index(self.width as int, self.channels as int, row, col, k)]
    }

    /// Reads the sample of channel `k` of the pixel at `(row, col)`.
    pub fn get(&self, row: usize, col: usize, k: usize) -> (r: Ratio)
        requires
            self.wf(),
            self.holds(row as int, col as int, k as int),
        ensures
            r == self.at(row as int, col as int, k as int),
    {
        proof {
            lemma_flat_index_in_bounds(
                self.width as int,
                self.height as int,
                self.channels as int,
                row as int,
                col as int,
                k as int,
            );
        }
        self.data[(row * self.width + col) * self.channels + k]
    }
}

/// The place of a slot of a rectangle lies inside its storage, and so does
/// each step of its computation.
pub proof fn lemma_flat_index_in_bounds(
    width: int,
    height: int,
    channels: int,
    row: int,
    col: int,
    k: int,
)
    requires
        0 <= row < height,
        0 <= col < width,
        0 <= k < channels,
    ensures
        0 <= row * width,
        0 <= row * width + col < width * height,
        width * height <= width * height * channels,
        0 <= flat_index(width, channels, row, col, k) < width * height * channels,
{
    assert(0 <= row * width && row * width + width <= width * height) by (nonlinear_arith)
        requires
            0 <= row < height,
            0 <= width,
    ;
    let p = row * width + col;
    assert(0 <= p * channels && p * channels + channels <= (width * height) * channels && width
        * height <= (width * height) * channels) by (nonlinear_arith)
        requires
            0 <= p < width * height,
            1 <= channels,
    ;
}

/// Slots are stored in reading order: a slot that comes earlier by row, then
/// by column, then by channel, has the smaller place.
pub proof fn lemma_flat_index_ordered(
    width: int,
    channels: int,
    r: int,
    c: int,
    k: int,
    row: int,
    col: int,
    kk: int,
)
    requires
        0 <= r,
        0 <= c < width,
        0 <= k < channels,
        0 <= col,
        0 <= kk,
        precedes(r, c, k, row, col, kk),
    ensures
        0 <= flat_index(width, channels, r, c, k) < flat_index(width, channels, row, col, kk),
{
    let p = r * width + c;
    let q = row * width + col;
    assert(0 <= p) by (nonlinear_arith)
        requires
            p == r * width + c,
            0 <= r,
            0 <= c < width,
    ;
    assert(0 <= p * channels) by (nonlinear_arith)
        requires
            0 <= p,
            0 <= channels,
    ;
    if r == row && c == col {
    } else {
        assert(p + 1 <= q) by (nonlinear_arith)
            requires
                p == r * width + c,
                q == row * width + col,
                0 <= r,
                0 <= c < width,
                0 <= col,
                r < row || (r == row && c < col),
        ;
        assert(p * channels + channels <= q * channels) by (nonlinear_arith)
            requires
                p + 1 <= q,
                0 <= channels,
        ;
    }
}

} // verus!

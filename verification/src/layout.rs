//! Channel layouts, and the plan that says where each output sample comes from.
//!
//! The layout of the output follows from the number of samples per pixel and
//! from whether the sensor data is still a mosaic. A [`Plan`] joins the layout
//! with the crop window; it answers, for every output slot, which source
//! sample feeds it and which channel's levels apply. The plan does not
//! depend on how the samples are stored, so one plan serves every sample
//! format.

use vstd::prelude::*;
use crate::geometry::MIN_EXTENT;

verus! {

/// Number of channels for which black and white levels exist.
pub const MAX_CHANNELS: usize = 4;

/// Number of channels of an expanded pixel: three colours and one unused slot.
pub const RGBA_CHANNELS: usize = 4;

/// How source pixels are laid out in the output.
#[derive(Clone, Copy, Debug, PartialEq, Eq, Structural)]
pub enum Layout {
    /// One sample per pixel, not a mosaic: the sample is repeated into three
    /// colour slots, followed by one unused slot.
    Gray,
    /// Three samples per pixel: each goes to its own colour slot, followed
    /// by one unused slot.
    Rgb,
    /// Anything else, a mosaic included: the samples are kept as they are.
    Native,
}

/// The layout for `cpp` samples per pixel.
pub open spec fn layout_of(cpp: int, is_mosaic: bool) -> Layout {
    if cpp == 1 && !is_mosaic {
        Layout::Gray
    } else if cpp == 3 {
        Layout::Rgb
    } else {
        Layout::Native
    }
}

impl Layout {
    /// Number of channels of an output pixel.
    pub open spec fn channels(self, cpp: int) -> int {
        match self {
            Layout::Gray => RGBA_CHANNELS as int,
            Layout::Rgb => RGBA_CHANNELS as int,
            Layout::Native => cpp,
        }
    }

    /// Number of leading level slots that the layout reads.
    pub open spec fn levels_used(self, cpp: int) -> int {
        match self {
            Layout::Gray => 1,
            Layout::Rgb => 3,
            Layout::Native => cpp,
        }
    }

    /// The output carries a slot that holds no signal beside replicated
    /// monochrome data.
    pub open spec fn interleaved_alpha(self) -> bool {
        self == Layout::Gray
    }

    /// The source channel that feeds output channel `k`, or `None` for the
    /// unused slot.
    pub open spec fn source_channel(self, k: int) -> Option<int> {
        match self {
            Layout::Gray => if k < 3 {
                Some(0)
            } else {
                None
            },
            Layout::Rgb => if k < 3 {
                Some(k)
            } else {
                None
            },
            Layout::Native => Some(k),
        }
    }

    /// Picks the layout for `cpp` samples per pixel.
    pub fn select(cpp: usize, is_mosaic: bool) -> (r: Layout)
        ensures
            r == layout_of(cpp as int, is_mosaic),
    {
        if cpp == 1 && !is_mosaic {
            Layout::Gray
        } else if cpp == 3 {
            Layout::Rgb
        } else {
            Layout::Native
        }
    }

    /// Number of channels of an output pixel.
    pub fn out_channels(self, cpp: usize) -> (r: usize)
        ensures
            r == self.channels(cpp as int),
    {
        match self {
            Layout::Gray => RGBA_CHANNELS,
            Layout::Rgb => RGBA_CHANNELS,
            Layout::Native => cpp,
        }
    }

    /// Number of leading level slots that the layout reads.
    pub fn level_count(self, cpp: usize) -> (r: usize)
        ensures
            r == self.levels_used(cpp as int),
    {
        match self {
            Layout::Gray => 1,
            Layout::Rgb => 3,
            Layout::Native => cpp,
        }
    }
}

/// A source sample, by its place in the sample buffer and by the channel
/// whose levels apply to it.
#[derive(Clone, Copy, Debug, PartialEq, Eq, Structural)]
pub struct Tap {
    pub index: usize,
    pub channel: usize,
}

/// The crop window and layout decided for one source image.
#[derive(Clone, Copy, Debug, PartialEq, Eq)]
pub struct Plan {
    /// Width of the source, in pixels.
    pub src_width: usize,
    /// Height of the source, in pixels.
    pub src_height: usize,
    /// Samples per source pixel.
    pub cpp: usize,
    /// Column of the source at which the output starts.
    pub x: usize,
    /// Row of the source at which the output starts.
    pub y: usize,
    /// Width of the output, in pixels.
    pub width: usize,
    /// Height of the output, in pixels.
    pub height: usize,
    /// Layout of the output pixels.
    pub layout: Layout,
}

impl Plan {
    /// The window lies inside the source and is not smaller than the
    /// minimum, the layout fits the sample count per pixel, and the number
    /// of source samples is one that a buffer can have.
    pub open spec fn wf(self) -> bool {
        &&& MIN_EXTENT <= self.width
        &&& MIN_EXTENT <= self.height
        &&& self.x + self.width <= self.src_width
        &&& self.y + self.height <= self.src_height
        &&& 1 <= self.cpp <= MAX_CHANNELS
        &&& self.layout == Layout::Gray ==> self.cpp == 1
        &&& self.layout == Layout::Rgb ==> self.cpp == 3
        &&& self.sample_count() <= usize::MAX
    }

    /// Number of samples that the source holds.
    pub open spec fn sample_count(self) -> int {
        self.src_width * self.src_height * self.cpp
    }

    /// Number of channels of an output pixel.
    pub open spec fn channels(self) -> int {
        self.layout.channels(self.cpp as int)
    }

    /// Number of samples that the output holds.
    pub open spec fn out_count(self) -> int {
        self.width * self.height * self.channels()
    }

    /// `(row, col, k)` names a slot of the output.
    pub open spec fn in_output(self, row: int, col: int, k: int) -> bool {
        &&& 0 <= row < self.height
        &&& 0 <= col < self.width
        &&& 0 <= k < self.channels()
    }

    /// Place in the sample buffer of channel `channel` of the source pixel
    /// that output pixel `(row, col)` shows.
    pub open spec fn source_index(self, row: int, col: int, channel: int) -> int {
        ((row + self.y) * self.src_width + (col + self.x)) * self.cpp + channel
    }

    /// The sample that feeds output slot `(row, col, k)`, or `None` for a
    /// slot that holds no signal.
    pub open spec fn tap(self, row: int, col: int, k: int) -> Option<Tap> {
        match self.layout.source_channel(k) {
            Some(c) => Some(
                Tap { index: self.source_index(row, col, c) as usize, channel: c as usize },
            ),
            None => None,
        }
    }

    /// Number of channels of an output pixel.
    pub fn out_channels(&self) -> (r: usize)
        ensures
            r == self.channels(),
    {
        self.layout.out_channels(self.cpp)
    }

    /// Finds the sample that feeds output slot `(row, col, k)`.
    pub fn source(&self, row: usize, col: usize, k: usize) -> (r: Option<Tap>)
        requires
            self.wf(),
            self.in_output(row as int, col as int, k as int),
        ensures
            r == self.tap(row as int, col as int, k as int),
            r matches Some(t) ==> {
                &&& t.index == self.source_index(row as int, col as int, t.channel as int)
                &&& t.index < self.sample_count()
                &&& t.channel < self.cpp
                &&& t.channel < self.layout.levels_used(self.cpp as int)
            },
    {
        let channel: usize = match self.layout {
            Layout::Gray => {
                if k >= 3 {
                    return None;
                }
                0
            },
            Layout::Rgb => {
                if k >= 3 {
                    return None;
                }
                k
            },
            Layout::Native => k,
        };
        proof {
            lemma_source_index_in_bounds(*self, row as int, col as int, channel as int);
        }
        let pixel: usize = (row + self.y) * self.src_width + (col + self.x);
        Some(Tap { index: pixel * self.cpp + channel, channel })
    }
}

/// Every source index that a plan produces lies inside the sample buffer,
/// and so does each step of its computation.
pub proof fn lemma_source_index_in_bounds(plan: Plan, row: int, col: int, channel: int)
    requires
        plan.wf(),
        0 <= row < plan.height,
        0 <= col < plan.width,
        0 <= channel < plan.cpp,
    ensures
        0 <= (row + plan.y) * plan.src_width,
        0 <= (row + plan.y) * plan.src_width + (col + plan.x) < plan.src_width * plan.src_height,
        plan.src_width * plan.src_height <= plan.sample_count(),
        0 <= plan.source_index(row, col, channel) < plan.sample_count(),
{
    let w = plan.src_width as int;
    let h = plan.src_height as int;
    let n = plan.cpp as int;
    let r = row + plan.y;
    let c = col + plan.x;
    assert(0 <= r * w && r * w + w <= w * h) by (nonlinear_arith)
        requires
            0 <= r < h,
            0 <= w,
    ;
    let p = r * w + c;
    assert(0 <= p * n && p * n + n <= (w * h) * n && w * h <= (w * h) * n) by (nonlinear_arith)
        requires
            0 <= p < w * h,
            1 <= n,
    ;
}

} // verus!

//! The normalisation stage: from a source image to a cropped buffer of
//! exact, level-normalised samples.

use vstd::prelude::*;
use crate::buffer::{Encoding, OpBuffer, flat_index, lemma_flat_index_ordered, precedes};
use crate::geometry::{MIN_EXTENT, crop_extent, crop_origin, lemma_min_size, resolve_axis};
use crate::layout::{Layout, MAX_CHANNELS, Plan, layout_of, lemma_source_index_in_bounds};
use crate::levels::{Ratio, levels_span, normalize, normalized};
use crate::source::{ImageSource, OtherImage, PipelineGlobals, RawImage};

verus! {

/// Samples per pixel of a decoded image in its canonical form.
pub const OTHER_CPP: usize = 3;

/// Why a source cannot be normalised.
#[derive(Clone, Copy, Debug, PartialEq, Eq, Structural)]
pub enum GoFloatError {
    /// The source is narrower or lower than the smallest output.
    SourceTooSmall,
    /// The source has no sample per pixel, or more than there are levels.
    ChannelCount,
    /// The sample buffer is shorter than the dimensions say.
    MissingSamples,
    /// A channel in use has a white level that is not above its black level.
    DegenerateLevels,
}

/// The calibration of the normalisation stage.
#[derive(Clone, Copy, Debug, PartialEq, Eq)]
pub struct OpGoFloat {
    /// Rows to crop at the top.
    pub crop_top: usize,
    /// Columns to crop at the right.
    pub crop_right: usize,
    /// Rows to crop at the bottom.
    pub crop_bottom: usize,
    /// Columns to crop at the left.
    pub crop_left: usize,
    /// The source is a mosaic that has not been demosaiced.
    pub is_cfa: bool,
    /// Black level of each channel.
    pub blacklevels: [u16; 4],
    /// White level of each channel.
    pub whitelevels: [u16; 4],
}

/// The value of output slot `(row, col, k)`: the normalised source sample
/// that the plan names for it, or zero where it names none.
pub open spec fn slot_value(
    plan: Plan,
    samples: Seq<u16>,
    black: Seq<u16>,
    white: Seq<u16>,
    row: int,
    col: int,
    k: int,
) -> Ratio {
    match plan.layout.source_channel(k) {
        Some(c) => normalized(samples[plan.source_index(row, col, c)], black[c], white[c]),
        None => Ratio::zero_spec(),
    }
}

/// `data` holds, in reading order, the value of every output slot of `plan`.
pub open spec fn holds_slots(
    data: Seq<Ratio>,
    plan: Plan,
    samples: Seq<u16>,
    black: Seq<u16>,
    white: Seq<u16>,
) -> bool {
    &&& data.len() == plan.out_count()
    &&& forall|row: int, col: int, k: int|
        plan.in_output(row, col, k) ==> data[flat_index(
            plan.width as int,
            plan.channels(),
            row,
            col,
            k,
        )] == #[trigger] slot_value(plan, samples, black, white, row, col, k)
}

/// `buf` is the output of `plan` on `samples`: its shape is the plan's, and
/// its data holds the plan's slots.
pub open spec fn filled_by(
    buf: OpBuffer,
    plan: Plan,
    samples: Seq<u16>,
    black: Seq<u16>,
    white: Seq<u16>,
    encoding: Encoding,
) -> bool {
    &&& buf.width == plan.width
    &&& buf.height == plan.height
    &&& buf.channels == plan.channels()
    &&& buf.interleaved_alpha == plan.layout.interleaved_alpha()
    &&& buf.encoding == encoding
    &&& holds_slots(buf.data@, plan, samples, black, white)
}

impl OpGoFloat {
    /// The calibration that `src` calls for: that of the sensor for a
    /// sensor image; no crop, no mosaic and the full 16-bit range for a
    /// decoded image.
    pub open spec fn calibrates(self, src: ImageSource) -> bool {
        match src {
            ImageSource::Raw(img) => {
                &&& self.crop_top == img.crops@[0]
                &&& self.crop_right == img.crops@[1]
                &&& self.crop_bottom == img.crops@[2]
                &&& self.crop_left == img.crops@[3]
                &&& self.is_cfa == img.cfa_valid
                &&& self.blacklevels == img.blacklevels
                &&& self.whitelevels == img.whitelevels
            },
            ImageSource::Other(_) => {
                &&& self.crop_top == 0
                &&& self.crop_right == 0
                &&& self.crop_bottom == 0
                &&& self.crop_left == 0
                &&& !self.is_cfa
                &&& self.blacklevels@ == seq![0u16, 0u16, 0u16, 0u16]
                &&& self.whitelevels@ == seq![65535u16, 65535u16, 65535u16, 65535u16]
            },
        }
    }

    /// Derives the calibration for a source.
    pub fn new(img: &ImageSource) -> (r: OpGoFloat)
        ensures
            r.calibrates(*img),
    {
        match img {
            ImageSource::Raw(img) => OpGoFloat {
                crop_top: img.crops[0],
                crop_right: img.crops[1],
                crop_bottom: img.crops[2],
                crop_left: img.crops[3],
                is_cfa: img.cfa_valid,
                blacklevels: img.blacklevels,
                whitelevels: img.whitelevels,
            },
            ImageSource::Other(_) => {
                let r = OpGoFloat {
                    crop_top: 0,
                    crop_right: 0,
                    crop_bottom: 0,
                    crop_left: 0,
                    is_cfa: false,
                    blacklevels: [0, 0, 0, 0],
                    whitelevels: [65535, 65535, 65535, 65535],
                };
                assert(r.blacklevels@ =~= seq![0u16, 0u16, 0u16, 0u16]);
                assert(r.whitelevels@ =~= seq![65535u16, 65535u16, 65535u16, 65535u16]);
                r
            },
        }
    }

    /// The name of the stage.
    pub fn name(&self) -> (r: &'static str)
        ensures
            r@ == "gofloat"@,
    {
        "gofloat"
    }

    /// The first `used` channels have a white level above their black level.
    pub open spec fn levels_usable(self, used: int) -> bool {
        forall|c: int|
            0 <= c < used ==> levels_span(#[trigger] self.blacklevels@[c], self.whitelevels@[c])
    }

    /// Why a source of the given shape, with `samples` samples, cannot be
    /// normalised under this calibration; `None` where it can.
    pub open spec fn rejection(self, width: int, height: int, cpp: int, samples: int) -> Option<
        GoFloatError,
    > {
        if width < MIN_EXTENT || height < MIN_EXTENT {
            Some(GoFloatError::SourceTooSmall)
        } else if cpp < 1 || cpp > MAX_CHANNELS {
            Some(GoFloatError::ChannelCount)
        } else if samples < width * height * cpp {
            Some(GoFloatError::MissingSamples)
        } else if !self.levels_usable(layout_of(cpp, self.is_cfa).levels_used(cpp)) {
            Some(GoFloatError::DegenerateLevels)
        } else {
            None
        }
    }

    /// The plan for a source of the given shape: the crop window that the
    /// margins resolve to, and the layout for its samples per pixel.
    pub open spec fn plan_for(self, width: usize, height: usize, cpp: usize) -> Plan {
        Plan {
            src_width: width,
            src_height: height,
            cpp,
            x: crop_origin(width as int, self.crop_left as int) as usize,
            y: crop_origin(height as int, self.crop_top as int) as usize,
            width: crop_extent(width as int, self.crop_left as int, self.crop_right as int) as usize,
            height: crop_extent(
                height as int,
                self.crop_top as int,
                self.crop_bottom as int,
            ) as usize,
            layout: layout_of(cpp as int, self.is_cfa),
        }
    }

    /// Tells whether the first `used` channels have usable levels.
    pub fn check_levels(&self, used: usize) -> (r: bool)
        requires
            used <= MAX_CHANNELS,
        ensures
            r == self.levels_usable(used as int),
    {
        let mut c: usize = 0;
        while c < used
            invariant
                c <= used <= MAX_CHANNELS,
                self.levels_usable(c as int),
            decreases used - c,
        {
            if self.blacklevels[c] >= self.whitelevels[c] {
                assert(!levels_span(self.blacklevels@[c as int], self.whitelevels@[c as int]));
                return false;
            }
            c += 1;
        }
        true
    }

    /// Decides the crop window and the layout for a source of the given
    /// shape that holds `samples` samples, or says why there is none.
    pub fn plan(&self, width: usize, height: usize, cpp: usize, samples: usize) -> (r: Result<
        Plan,
        GoFloatError,
    >)
        ensures
            match r {
                Ok(p) => {
                    &&& self.rejection(width as int, height as int, cpp as int, samples as int)
                        is None
                    &&& p == self.plan_for(width, height, cpp)
                    &&& p.wf()
                    &&& p.sample_count() <= samples
                    &&& self.levels_usable(p.layout.levels_used(cpp as int))
                },
                Err(e) => self.rejection(width as int, height as int, cpp as int, samples as int)
                    == Some(e),
            },
    {
        if width < MIN_EXTENT || height < MIN_EXTENT {
            return Err(GoFloatError::SourceTooSmall);
        }
        if cpp < 1 || cpp > MAX_CHANNELS {
            return Err(GoFloatError::ChannelCount);
        }
        assert(width * height <= width * height * cpp) by (nonlinear_arith)
            requires
                1 <= cpp,
        ;
        let pixels: usize = match width.checked_mul(height) {
            Some(n) => n,
            None => {
                return Err(GoFloatError::MissingSamples);
            },
        };
        let needed: usize = match pixels.checked_mul(cpp) {
            Some(n) => n,
            None => {
                return Err(GoFloatError::MissingSamples);
            },
        };
        if samples < needed {
            return Err(GoFloatError::MissingSamples);
        }
        let layout = Layout::select(cpp, self.is_cfa);
        if !self.check_levels(layout.level_count(cpp)) {
            return Err(GoFloatError::DegenerateLevels);
        }
        let (x, out_width) = resolve_axis(width, self.crop_left, self.crop_right);
        let (y, out_height) = resolve_axis(height, self.crop_top, self.crop_bottom);
        Ok(Plan { src_width: width, src_height: height, cpp, x, y, width: out_width, height: out_height, layout })
    }

    /// What normalising a sensor image comes to: the buffer that the plan
    /// for the image describes, in linear light, or the reason why the
    /// image is rejected.
    pub open spec fn raw_outcome(self, img: RawImage, r: Result<OpBuffer, GoFloatError>) -> bool {
        match r {
            Ok(buf) => {
                &&& self.rejection(
                    img.width as int,
                    img.height as int,
                    img.cpp as int,
                    img.data.len() as int,
                ) is None
                &&& filled_by(
                    buf,
                    self.plan_for(img.width, img.height, img.cpp),
                    img.data@,
                    self.blacklevels@,
                    self.whitelevels@,
                    Encoding::Linear,
                )
            },
            Err(e) => self.rejection(
                img.width as int,
                img.height as int,
                img.cpp as int,
                img.data.len() as int,
            ) == Some(e),
        }
    }

    /// What normalising a decoded image comes to: the buffer that the plan
    /// for three samples per pixel describes, its values still on the sRGB
    /// curve, or the reason why the image is rejected.
    pub open spec fn other_outcome(self, img: OtherImage, r: Result<OpBuffer, GoFloatError>) -> bool {
        match r {
            Ok(buf) => {
                &&& self.rejection(
                    img.width as int,
                    img.height as int,
                    OTHER_CPP as int,
                    img.data.len() as int,
                ) is None
                &&& filled_by(
                    buf,
                    self.plan_for(img.width, img.height, OTHER_CPP),
                    img.data@,
                    self.blacklevels@,
                    self.whitelevels@,
                    Encoding::Srgb,
                )
            },
            Err(e) => self.rejection(
                img.width as int,
                img.height as int,
                OTHER_CPP as int,
                img.data.len() as int,
            ) == Some(e),
        }
    }

    /// Normalises a sensor image: crops it, lays its samples out, and
    /// brings each sample into the range of its channel's levels.
    pub fn run_raw(&self, img: &RawImage) -> (r: Result<OpBuffer, GoFloatError>)
        ensures
            self.raw_outcome(*img, r),
            r matches Ok(buf) ==> buf.wf() && buf.width >= MIN_EXTENT && buf.height >= MIN_EXTENT,
    {
        let plan = match self.plan(img.width, img.height, img.cpp, img.data.len()) {
            Ok(p) => p,
            Err(e) => {
                return Err(e);
            },
        };
        let data = normalize_samples(&plan, &img.data, &self.blacklevels, &self.whitelevels);
        Ok(
            OpBuffer {
                width: plan.width,
                height: plan.height,
                channels: plan.out_channels(),
                interleaved_alpha: plan.layout == Layout::Gray,
                encoding: Encoding::Linear,
                data,
            },
        )
    }

    /// Normalises a decoded image: crops it and brings each of its three
    /// channels into the range of its levels, followed by one unused slot.
    /// The values are left on the display curve, and the buffer says so.
    pub fn run_other(&self, img: &OtherImage) -> (r: Result<OpBuffer, GoFloatError>)
        ensures
            self.other_outcome(*img, r),
            r matches Ok(buf) ==> buf.wf() && buf.width >= MIN_EXTENT && buf.height >= MIN_EXTENT,
    {
        let plan = match self.plan(img.width, img.height, OTHER_CPP, img.data.len()) {
            Ok(p) => p,
            Err(e) => {
                return Err(e);
            },
        };
        let data = normalize_samples(&plan, &img.data, &self.blacklevels, &self.whitelevels);
        Ok(
            OpBuffer {
                width: plan.width,
                height: plan.height,
                channels: plan.out_channels(),
                interleaved_alpha: false,
                encoding: Encoding::Srgb,
                data,
            },
        )
    }

    /// Normalises the image of a pipeline run. The settings are not read:
    /// this stage takes the full route whatever they say.
    pub fn run(&self, pipeline: &PipelineGlobals) -> (r: Result<OpBuffer, GoFloatError>)
        ensures
            match pipeline.image {
                ImageSource::Raw(img) => self.raw_outcome(img, r),
                ImageSource::Other(img) => self.other_outcome(img, r),
            },
            r matches Ok(buf) ==> buf.wf() && buf.width >= MIN_EXTENT && buf.height >= MIN_EXTENT,
    {
        match &pipeline.image {
            ImageSource::Raw(img) => self.run_raw(img),
            ImageSource::Other(img) => self.run_other(img),
        }
    }
}

/// The shape of the output follows from the samples per pixel and the
/// mosaic flag alone. One sample per pixel that is no mosaic gives four
/// channels with the unused-slot flag set, and that slot is zero in every
/// pixel. Three samples per pixel give four channels without the flag. Any
/// other source keeps its number of channels, without the flag.
pub proof fn lemma_channel_layout(op: OpGoFloat, img: RawImage, buf: OpBuffer)
    requires
        op.raw_outcome(img, Ok(buf)),
    ensures
        img.cpp == 1 && !op.is_cfa ==> {
            &&& buf.channels == 4
            &&& buf.interleaved_alpha
            &&& forall|row: int, col: int|
                0 <= row < buf.height && 0 <= col < buf.width ==> (#[trigger] buf.at(
                    row,
                    col,
                    3,
                )).is_zero()
        },
        img.cpp == 3 ==> buf.channels == 4 && !buf.interleaved_alpha,
        !(img.cpp == 1 && !op.is_cfa) && img.cpp != 3 ==> buf.channels == img.cpp
            && !buf.interleaved_alpha,
{
    let plan = op.plan_for(img.width, img.height, img.cpp);
    if img.cpp == 1 && !op.is_cfa {
        assert forall|row: int, col: int|
            0 <= row < buf.height && 0 <= col < buf.width implies (#[trigger] buf.at(
            row,
            col,
            3,
        )).is_zero() by {
            assert(plan.in_output(row, col, 3));
            assert(slot_value(plan, img.data@, op.blacklevels@, op.whitelevels@, row, col, 3)
                == Ratio::zero_spec());
        }
    }
}

/// The unused slot of a normalised decoded image is zero in every pixel,
/// and its buffer has four channels without the unused-slot flag.
pub proof fn lemma_other_layout(op: OpGoFloat, img: OtherImage, buf: OpBuffer)
    requires
        op.other_outcome(img, Ok(buf)),
    ensures
        buf.channels == 4,
        !buf.interleaved_alpha,
        buf.encoding == Encoding::Srgb,
        forall|row: int, col: int|
            0 <= row < buf.height && 0 <= col < buf.width ==> (#[trigger] buf.at(
                row,
                col,
                3,
            )).is_zero(),
{
    let plan = op.plan_for(img.width, img.height, OTHER_CPP);
    assert forall|row: int, col: int|
        0 <= row < buf.height && 0 <= col < buf.width implies (#[trigger] buf.at(
        row,
        col,
        3,
    )).is_zero() by {
        assert(plan.in_output(row, col, 3));
        assert(slot_value(plan, img.data@, op.blacklevels@, op.whitelevels@, row, col, 3)
            == Ratio::zero_spec());
    }
}

/// Every output slot that shows a sample at or above the white level of its
/// channel holds exactly one, and every other slot holds at most one.
pub proof fn lemma_output_clamped(
    op: OpGoFloat,
    img: RawImage,
    buf: OpBuffer,
    row: int,
    col: int,
    k: int,
)
    requires
        op.raw_outcome(img, Ok(buf)),
        buf.holds(row, col, k),
    ensures
        buf.at(row, col, k).wf(),
        op.plan_for(img.width, img.height, img.cpp).tap(row, col, k) matches Some(t) ==> (
        img.data@[t.index as int] >= op.whitelevels@[t.channel as int] ==> buf.at(
            row,
            col,
            k,
        ).is_one()),
{
    let plan = op.plan_for(img.width, img.height, img.cpp);
    lemma_plan_wf(op, img.width, img.height, img.cpp, img.data.len());
    assert(plan.in_output(row, col, k));
    assert(buf.at(row, col, k) == slot_value(
        plan,
        img.data@,
        op.blacklevels@,
        op.whitelevels@,
        row,
        col,
        k,
    ));
    match plan.layout.source_channel(k) {
        Some(c) => {
            lemma_source_index_in_bounds(plan, row, col, c);
            assert(levels_span(op.blacklevels@[c], op.whitelevels@[c]));
        },
        None => {},
    }
}

/// The plan for a source that is not rejected is well formed: its window is
/// at least the minimum in both directions and lies inside the source.
pub proof fn lemma_plan_wf(op: OpGoFloat, width: usize, height: usize, cpp: usize, samples: usize)
    requires
        op.rejection(width as int, height as int, cpp as int, samples as int) is None,
    ensures
        op.plan_for(width, height, cpp).wf(),
        op.plan_for(width, height, cpp).width >= MIN_EXTENT,
        op.plan_for(width, height, cpp).height >= MIN_EXTENT,
        op.plan_for(width, height, cpp).sample_count() <= samples,
{
    lemma_min_size(width as int, op.crop_left as int, op.crop_right as int);
    lemma_min_size(height as int, op.crop_top as int, op.crop_bottom as int);
}

/// `data` holds, in reading order, the value of every output slot of `plan`
/// that comes before `(row, col, kk)`, and nothing else.
spec fn filled_upto(
    data: Seq<Ratio>,
    plan: Plan,
    samples: Seq<u16>,
    black: Seq<u16>,
    white: Seq<u16>,
    row: int,
    col: int,
    kk: int,
) -> bool {
    &&& data.len() == flat_index(plan.width as int, plan.channels(), row, col, kk)
    &&& forall|r: int, c: int, k: int|
        plan.in_output(r, c, k) && precedes(r, c, k, row, col, kk) ==> data[flat_index(
            plan.width as int,
            plan.channels(),
            r,
            c,
            k,
        )] == #[trigger] slot_value(plan, samples, black, white, r, c, k)
}

/// Appending the value of the next slot keeps the data filled in order.
proof fn lemma_filled_push(
    data: Seq<Ratio>,
    plan: Plan,
    samples: Seq<u16>,
    black: Seq<u16>,
    white: Seq<u16>,
    row: int,
    col: int,
    kk: int,
    v: Ratio,
)
    requires
        filled_upto(data, plan, samples, black, white, row, col, kk),
        plan.in_output(row, col, kk),
        v == slot_value(plan, samples, black, white, row, col, kk),
    ensures
        filled_upto(data.push(v), plan, samples, black, white, row, col, kk + 1),
{
    let w = plan.width as int;
    let n = plan.channels();
    let next = data.push(v);
    assert forall|r: int, c: int, k: int|
        plan.in_output(r, c, k) && precedes(r, c, k, row, col, kk + 1) implies next[flat_index(
        w,
        n,
        r,
        c,
        k,
    )] == #[trigger] slot_value(plan, samples, black, white, r, c, k) by {
        if precedes(r, c, k, row, col, kk) {
            lemma_flat_index_ordered(w, n, r, c, k, row, col, kk);
        }
    }
}

/// Once a pixel's channels are all there, the data is filled up to the next
/// pixel of the row.
proof fn lemma_filled_next_pixel(
    data: Seq<Ratio>,
    plan: Plan,
    samples: Seq<u16>,
    black: Seq<u16>,
    white: Seq<u16>,
    row: int,
    col: int,
)
    requires
        filled_upto(data, plan, samples, black, white, row, col, plan.channels()),
    ensures
        filled_upto(data, plan, samples, black, white, row, col + 1, 0),
{
    let w = plan.width as int;
    let n = plan.channels();
    assert((row * w + col) * n + n == (row * w + col + 1) * n) by (nonlinear_arith);
}

/// Once a row's pixels are all there, the data is filled up to the next row.
proof fn lemma_filled_next_row(
    data: Seq<Ratio>,
    plan: Plan,
    samples: Seq<u16>,
    black: Seq<u16>,
    white: Seq<u16>,
    row: int,
)
    requires
        filled_upto(data, plan, samples, black, white, row, plan.width as int, 0),
    ensures
        filled_upto(data, plan, samples, black, white, row + 1, 0, 0),
{
    let w = plan.width as int;
    let n = plan.channels();
    assert((row * w + w) * n == ((row + 1) * w + 0) * n) by (nonlinear_arith);
}

/// Data filled up to the row after the last holds every slot.
proof fn lemma_filled_done(
    data: Seq<Ratio>,
    plan: Plan,
    samples: Seq<u16>,
    black: Seq<u16>,
    white: Seq<u16>,
)
    requires
        filled_upto(data, plan, samples, black, white, plan.height as int, 0, 0),
    ensures
        holds_slots(data, plan, samples, black, white),
{
    let w = plan.width as int;
    let h = plan.height as int;
    let n = plan.channels();
    assert((h * w + 0) * n == w * h * n) by (nonlinear_arith);
}

/// Normalises the samples that `plan` selects, slot by slot in reading
/// order.
pub fn normalize_samples(plan: &Plan, samples: &Vec<u16>, black: &[u16; 4], white: &[u16; 4]) -> (data:
    Vec<Ratio>)
    requires
        plan.wf(),
        plan.sample_count() <= samples.len(),
        forall|c: int|
            0 <= c < plan.layout.levels_used(plan.cpp as int) ==> levels_span(
                #[trigger] black@[c],
                white@[c],
            ),
    ensures
        holds_slots(data@, *plan, samples@, black@, white@),
{
    let height: usize = plan.height;
    let width: usize = plan.width;
    let channels: usize = plan.out_channels();
    let mut data: Vec<Ratio> = Vec::new();
    let mut row: usize = 0;
    assert((0 * width + 0) * channels + 0 == 0) by (nonlinear_arith);
    while row < height
        invariant
            plan.wf(),
            plan.sample_count() <= samples.len(),
            forall|c: int|
                0 <= c < plan.layout.levels_used(plan.cpp as int) ==> levels_span(
                    #[trigger] black@[c],
                    white@[c],
                ),
            height == plan.height,
            width == plan.width,
            channels == plan.channels(),
            row <= height,
            filled_upto(data@, *plan, samples@, black@, white@, row as int, 0, 0),
        decreases height - row,
    {
        let mut col: usize = 0;
        while col < width
            invariant
                plan.wf(),
                plan.sample_count() <= samples.len(),
                forall|c: int|
                    0 <= c < plan.layout.levels_used(plan.cpp as int) ==> levels_span(
                        #[trigger] black@[c],
                        white@[c],
                    ),
                height == plan.height,
                width == plan.width,
                channels == plan.channels(),
                row < height,
                col <= width,
                filled_upto(data@, *plan, samples@, black@, white@, row as int, col as int, 0),
            decreases width - col,
        {
            let mut k: usize = 0;
            while k < channels
                invariant
                    plan.wf(),
                    plan.sample_count() <= samples.len(),
                    forall|c: int|
                        0 <= c < plan.layout.levels_used(plan.cpp as int) ==> levels_span(
                            #[trigger] black@[c],
                            white@[c],
                        ),
                    height == plan.height,
                    width == plan.width,
                    channels == plan.channels(),
                    row < height,
                    col < width,
                    k <= channels,
                    filled_upto(
                        data@,
                        *plan,
                        samples@,
                        black@,
                        white@,
                        row as int,
                        col as int,
                        k as int,
                    ),
                decreases channels - k,
            {
                let v: Ratio = match plan.source(row, col, k) {
                    Some(t) => normalize(samples[t.index], black[t.channel], white[t.channel]),
                    None => Ratio::zero(),
                };
                proof {
                    lemma_filled_push(
                        data@,
                        *plan,
                        samples@,
                        black@,
                        white@,
                        row as int,
                        col as int,
                        k as int,
                        v,
                    );
                }
                data.push(v);
                k += 1;
            }
            proof {
                lemma_filled_next_pixel(
                    data@,
                    *plan,
                    samples@,
                    black@,
                    white@,
                    row as int,
                    col as int,
                );
            }
            col += 1;
        }
        proof {
            lemma_filled_next_row(data@, *plan, samples@, black@, white@, row as int);
        }
        row += 1;
    }
    proof {
        lemma_filled_done(data@, *plan, samples@, black@, white@);
    }
    data
}

} // verus!

use vstd::prelude::*;

use crate::decode::{decoded_grid_of, decode_image, grid_dims_ok, PixelGrid};
use crate::error::PipelineError;

verus! {

/// Spatial size the model takes: every picture is stretched to this square.
pub const TARGET_WIDTH: u32 = 224;
pub const TARGET_HEIGHT: u32 = 224;
/// Colour channels of the model's input, in the order R, G, B.
pub const CHANNELS: usize = 3;
/// Values of one channel plane: `TARGET_WIDTH * TARGET_HEIGHT`.
pub const PLANE_LEN: usize = 50176;
/// Values of the whole input tensor: `CHANNELS * PLANE_LEN`.
pub const TENSOR_LEN: usize = 150528;
/// Largest 8-bit sample.
pub const SAMPLE_MAX: i32 = 255;

/// Per-channel training mean of the model, in thousandths (0.485, 0.456, 0.406).
pub const MEAN_R_MILLI: i32 = 485;
pub const MEAN_G_MILLI: i32 = 456;
pub const MEAN_B_MILLI: i32 = 406;
/// Per-channel training standard deviation, in thousandths (0.229, 0.224, 0.225).
pub const STD_R_MILLI: i32 = 229;
pub const STD_G_MILLI: i32 = 224;
pub const STD_B_MILLI: i32 = 225;

pub open spec fn mean_milli(c: int) -> int {
    if c == 0 {
        MEAN_R_MILLI as int
    } else if c == 1 {
        MEAN_G_MILLI as int
    } else {
        MEAN_B_MILLI as int
    }
}

pub open spec fn std_milli(c: int) -> int {
    if c == 0 {
        STD_R_MILLI as int
    } else if c == 1 {
        STD_G_MILLI as int
    } else {
        STD_B_MILLI as int
    }
}

/// The normalized value `(v / 255 - mean[c]) / std[c]` is the fraction
/// `numerator(c, v) / denominator(c)`; with mean and std in thousandths:
/// `(1000 v - 255 mean) / (255 std)`.
pub open spec fn norm_numerator(c: int, v: int) -> int {
    1000 * v - SAMPLE_MAX * mean_milli(c)
}

pub open spec fn norm_denominator(c: int) -> int {
    SAMPLE_MAX * std_milli(c)
}

/// `t` is the planar normalization of the RGB samples `px` of a target-size
/// picture: all of R, then all of G, then all of B, each plane row by row.
pub open spec fn is_planar_normalization(px: Seq<u8>, t: Seq<i32>) -> bool {
    &&& t.len() == TENSOR_LEN
    &&& forall|c: int, p: int|
        0 <= c < CHANNELS && 0 <= p < PLANE_LEN ==> #[trigger] t[c * PLANE_LEN + p]
            == norm_numerator(c, px[3 * p + c] as int)
}

/// Dimensions `[N, C, H, W]` the model declares for its input.
pub open spec fn input_dims() -> Seq<usize> {
    seq![1usize, CHANNELS, TARGET_HEIGHT as usize, TARGET_WIDTH as usize]
}

/// The model's input: a `[1, 3, 224, 224]` tensor in planar layout. Each
/// value is kept exactly, as a numerator over its channel's denominator.
pub struct InputTensor {
    pub dims: Vec<usize>,
    pub numerators: Vec<i32>,
}

/// What resizing an RGB picture with image's linear (`Triangle`) filter
/// gives: the samples of the new picture, row by row. The linear filter is
/// the calibrated resampling of this model; its arithmetic is the four basic
/// operations, comparisons, floor, ceil and round, which give the same
/// result on every machine.
pub uninterp spec fn triangle_resized_rgb8_of(
    width: u32,
    height: u32,
    pixels: Seq<u8>,
    new_width: u32,
    new_height: u32,
) -> Seq<u8>;

/// Relies on image::imageops::resize with `FilterType::Triangle`, on an RGB
/// buffer made by `ImageBuffer::from_raw` (which takes exactly
/// `width * height * 3` samples): the result has the new dimensions, and a
/// picture already of those dimensions is copied unchanged.
/// `ImageBuffer::new` panics where a buffer's length overflows `usize`: the
/// new picture, and the intermediate `width` x `new_height` RGBA buffer,
/// must fit.
#[verifier::external_body]
fn resize_triangle_rgb8(
    width: u32,
    height: u32,
    pixels: Vec<u8>,
    new_width: u32,
    new_height: u32,
) -> (r: Vec<u8>)
    requires
        grid_dims_ok(width, height, pixels@.len()),
        new_width > 0 && new_height > 0,
        new_width as int * new_height as int * 3 <= usize::MAX,
        width as int * new_height as int * 4 <= usize::MAX,
    ensures
        r@ == triangle_resized_rgb8_of(width, height, pixels@, new_width, new_height),
        r@.len() == new_width as int * new_height as int * 3,
        width == new_width && height == new_height ==> r@ == pixels@,
{
    let buf = image::RgbImage::from_raw(width, height, pixels).unwrap();
    let kind = image::imageops::FilterType::Triangle;
    image::imageops::resize(&buf, new_width, new_height, kind).into_raw()
}

pub fn mean_of_channel(c: usize) -> (r: i32)
    requires
        c < CHANNELS,
    ensures
        r == mean_milli(c as int),
{
    if c == 0 {
        MEAN_R_MILLI
    } else if c == 1 {
        MEAN_G_MILLI
    } else {
        MEAN_B_MILLI
    }
}

/// The denominator shared by every value of channel `c`.
pub fn channel_denominator(c: usize) -> (r: i32)
    requires
        c < CHANNELS,
    ensures
        r == norm_denominator(c as int),
{
    let s = if c == 0 {
        STD_R_MILLI
    } else if c == 1 {
        STD_G_MILLI
    } else {
        STD_B_MILLI
    };
    SAMPLE_MAX * s
}

/// Numerator of the normalized value of sample `v` in channel `c`.
pub fn normalize_sample(c: usize, v: u8) -> (r: i32)
    requires
        c < CHANNELS,
    ensures
        r == norm_numerator(c as int, v as int),
{
    1000 * (v as i32) - SAMPLE_MAX * mean_of_channel(c)
}

/// Writes the RGB samples of a target-size picture into the model's planar
/// layout, each value normalized with its channel's mean and deviation.
pub fn normalize_planar(pixels: &Vec<u8>) -> (r: InputTensor)
    requires
        pixels@.len() == 3 * PLANE_LEN,
    ensures
        r.dims@ == input_dims(),
        is_planar_normalization(pixels@, r.numerators@),
{
    let mut out: Vec<i32> = Vec::with_capacity(TENSOR_LEN);
    let mut c: usize = 0;
    while c < CHANNELS
        invariant
            pixels@.len() == 3 * PLANE_LEN,
            c <= CHANNELS,
            out@.len() == c * PLANE_LEN,
            forall|c2: int, p2: int|
                0 <= c2 < c && 0 <= p2 < PLANE_LEN ==> #[trigger] out@[c2 * PLANE_LEN + p2]
                    == norm_numerator(c2, pixels@[3 * p2 + c2] as int),
        decreases CHANNELS - c,
    {
        let mut p: usize = 0;
        while p < PLANE_LEN
            invariant
                pixels@.len() == 3 * PLANE_LEN,
                c < CHANNELS,
                p <= PLANE_LEN,
                out@.len() == c * PLANE_LEN + p,
                forall|c2: int, p2: int|
                    (0 <= c2 < c && 0 <= p2 < PLANE_LEN) || (c2 == c && 0 <= p2 < p)
                        ==> #[trigger] out@[c2 * PLANE_LEN + p2]
                        == norm_numerator(c2, pixels@[3 * p2 + c2] as int),
            decreases PLANE_LEN - p,
        {
            let v = normalize_sample(c, pixels[3 * p + c]);
            out.push(v);
            p = p + 1;
        }
        c = c + 1;
    }
    let mut dims: Vec<usize> = Vec::new();
    dims.push(1);
    dims.push(CHANNELS);
    dims.push(TARGET_HEIGHT as usize);
    dims.push(TARGET_WIDTH as usize);
    assert(dims@ =~= input_dims());
    InputTensor { dims, numerators: out }
}

/// The resized samples that preprocessing normalizes.
pub open spec fn resized_target_of(width: u32, height: u32, pixels: Seq<u8>) -> Seq<u8> {
    triangle_resized_rgb8_of(width, height, pixels, TARGET_WIDTH, TARGET_HEIGHT)
}

/// Stretches the picture to the model's square with the linear filter
/// (no crop, no padding) and normalizes it into the planar input tensor.
/// A picture already of the target size keeps its samples.
pub fn preprocess(grid: PixelGrid) -> (r: InputTensor)
    requires
        grid.wf(),
    ensures
        r.dims@ == input_dims(),
        is_planar_normalization(resized_target_of(grid.width, grid.height, grid.data@), r.numerators@),
        grid.width == TARGET_WIDTH && grid.height == TARGET_HEIGHT ==> is_planar_normalization(
            grid.data@,
            r.numerators@,
        ),
{
    let resized = resize_triangle_rgb8(grid.width, grid.height, grid.data, TARGET_WIDTH, TARGET_HEIGHT);
    normalize_planar(&resized)
}

/// From the request's bytes to the model's input: decode, resize, normalize.
/// Fails with `Decode` exactly where the bytes decode to no picture.
pub fn prepare_input(bytes: &[u8]) -> (r: Result<InputTensor, PipelineError>)
    ensures
        match decoded_grid_of(bytes@) {
            Some((w, h, px)) => r matches Ok(t) && t.dims@ == input_dims()
                && is_planar_normalization(resized_target_of(w, h, px), t.numerators@)
                && (w == TARGET_WIDTH && h == TARGET_HEIGHT ==> is_planar_normalization(
                px,
                t.numerators@,
            )),
            None => r == Err::<InputTensor, PipelineError>(PipelineError::Decode),
        },
{
    match decode_image(bytes) {
        Ok(grid) => Ok(preprocess(grid)),
        Err(e) => Err(e),
    }
}

impl InputTensor {
    pub open spec fn has_input_shape(&self) -> bool {
        self.dims@ == input_dims() && self.numerators@.len() == TENSOR_LEN
    }

    /// Value `i` of the flattened tensor as numerator and denominator.
    pub fn value_parts(&self, i: usize) -> (r: (i32, i32))
        requires
            self.has_input_shape(),
            i < TENSOR_LEN,
        ensures
            r.0 == self.numerators@[i as int],
            r.1 == norm_denominator(i as int / PLANE_LEN as int),
    {
        (self.numerators[i], channel_denominator(i / PLANE_LEN))
    }
}

/// The model host's guard on its input: a tensor of any other shape than
/// the declared `[1, 3, 224, 224]` is refused with `ShapeMismatch`.
pub fn check_input_shape(t: &InputTensor) -> (r: Result<(), PipelineError>)
    ensures
        r is Ok <==> t.has_input_shape(),
        r is Err ==> r == Err::<(), PipelineError>(PipelineError::ShapeMismatch),
{
    let ok = t.dims.len() == 4 && t.dims[0] == 1 && t.dims[1] == CHANNELS
        && t.dims[2] == TARGET_HEIGHT as usize && t.dims[3] == TARGET_WIDTH as usize
        && t.numerators.len() == TENSOR_LEN;
    if ok {
        assert(t.dims@ =~= input_dims());
        Ok(())
    } else {
        Err(PipelineError::ShapeMismatch)
    }
}

/// Least normalized value of channel `c` (sample 0): `-mean / std`, as a
/// numerator over `norm_denominator(c)`.
pub open spec fn norm_lower(c: int) -> int {
    -SAMPLE_MAX * mean_milli(c)
}

/// Greatest normalized value of channel `c` (sample 255): `(1 - mean) / std`,
/// as a numerator over `norm_denominator(c)`.
pub open spec fn norm_upper(c: int) -> int {
    SAMPLE_MAX * (1000 - mean_milli(c))
}

/// Normalization is increasing in the sample, and maps the sample range
/// 0..=255 of channel `c` onto exactly `[-mean/std, (1 - mean)/std]`: both
/// ends are reached, and every value lies between them.
pub proof fn lemma_normalization_range(c: int, v: int, w: int)
    requires
        0 <= c < CHANNELS,
        0 <= v <= w <= SAMPLE_MAX,
    ensures
        norm_numerator(c, 0) == norm_lower(c),
        norm_numerator(c, SAMPLE_MAX as int) == norm_upper(c),
        norm_numerator(c, v) <= norm_numerator(c, w),
        norm_lower(c) <= norm_numerator(c, v) <= norm_upper(c),
        norm_denominator(c) > 0,
{
}

/// Every value of a planar normalization lies in its channel's range.
pub proof fn lemma_tensor_within_bounds(px: Seq<u8>, t: Seq<i32>)
    requires
        is_planar_normalization(px, t),
    ensures
        forall|c: int, p: int|
            0 <= c < CHANNELS && 0 <= p < PLANE_LEN ==> norm_lower(c) <= #[trigger] t[c
                * PLANE_LEN + p] <= norm_upper(c),
{
    assert forall|c: int, p: int|
        0 <= c < CHANNELS && 0 <= p < PLANE_LEN implies norm_lower(c) <= #[trigger] t[c
        * PLANE_LEN + p] <= norm_upper(c) by {
        lemma_normalization_range(c, px[3 * p + c] as int, px[3 * p + c] as int);
    }
}

/// The same samples always normalize to the same tensor: the planar
/// normalization of a picture is unique.
pub proof fn lemma_planar_normalization_unique(px: Seq<u8>, t1: Seq<i32>, t2: Seq<i32>)
    requires
        is_planar_normalization(px, t1),
        is_planar_normalization(px, t2),
    ensures
        t1 == t2,
{
    assert forall|i: int| 0 <= i < t1.len() implies t1[i] == t2[i] by {
        let c = i / PLANE_LEN as int;
        let p = i % PLANE_LEN as int;
        assert(i == c * PLANE_LEN + p);
        assert(t1[c * PLANE_LEN + p] == t2[c * PLANE_LEN + p]);
    }
    assert(t1 =~= t2);
}

} // verus!

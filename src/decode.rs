use vstd::prelude::*;

use crate::error::PipelineError;

verus! {

/// What decoding a byte buffer gives: width, height and the 8-bit RGB
/// samples row by row, or nothing where the bytes are no decodable image.
pub uninterp spec fn decoded_rgb8_of(bytes: Seq<u8>) -> Option<(u32, u32, Seq<u8>)>;

/// image's error type: carried out of the decoder only to become `Decode`.
#[verifier::external_type_specification]
#[verifier::external_body]
pub struct ExImageError(image::ImageError);

/// Relies on image::load_from_memory, which sniffs the container format from
/// the leading bytes and decodes; the picture is then converted to 8-bit RGB
/// by image's `to_rgb8`. Both depend on the bytes alone.
#[verifier::external_body]
fn load_rgb8(bytes: &[u8]) -> (r: Result<(u32, u32, Vec<u8>), image::ImageError>)
    ensures
        match r {
            Ok((w, h, px)) => decoded_rgb8_of(bytes@) == Some((w, h, px@)),
            Err(_) => decoded_rgb8_of(bytes@) is None,
        },
{
    let rgb = image::load_from_memory(bytes)?.to_rgb8();
    Ok((rgb.width(), rgb.height(), rgb.into_raw()))
}

/// A decoded picture: `width` x `height` pixels of three 8-bit channels
/// (R, G, B), stored row by row, pixel by pixel.
pub struct PixelGrid {
    pub width: u32,
    pub height: u32,
    pub data: Vec<u8>,
}

/// Samples in one column of the intermediate buffer of a resize to the
/// model's square: 224 rows of four 32-bit float channels.
pub const RESIZE_COLUMN_SAMPLES: usize = 896;

/// A grid's dimensions are positive, its samples are three per pixel, and
/// its resize buffers can be indexed by `usize` (always so on 64-bit hosts).
pub open spec fn grid_dims_ok(width: u32, height: u32, len: nat) -> bool {
    &&& width > 0 && height > 0
    &&& len == width as int * height as int * 3
    &&& width as int * RESIZE_COLUMN_SAMPLES <= usize::MAX
}

fn resize_fits(width: u32) -> (r: bool)
    ensures
        r == (width as int * RESIZE_COLUMN_SAMPLES <= usize::MAX),
{
    (width as usize).checked_mul(RESIZE_COLUMN_SAMPLES).is_some()
}

/// Number of samples in a `width` x `height` RGB picture, where it fits in
/// `usize`.
fn sample_count(width: u32, height: u32) -> (r: Option<usize>)
    ensures
        r matches Some(n) ==> n == width as int * height as int * 3,
        r is None ==> width as int * height as int * 3 > usize::MAX,
{
    match (width as usize).checked_mul(height as usize) {
        Some(p) => p.checked_mul(3),
        None => {
            assert(width as int * height as int * 3 > usize::MAX) by (nonlinear_arith)
                requires
                    width as int * height as int > usize::MAX,
            ;
            None
        },
    }
}

impl PixelGrid {
    pub open spec fn wf(&self) -> bool {
        grid_dims_ok(self.width, self.height, self.data@.len())
    }

    /// Builds a grid where the dimensions are positive and the samples are
    /// exactly three per pixel.
    pub fn new(width: u32, height: u32, data: Vec<u8>) -> (r: Option<PixelGrid>)
        ensures
            grid_dims_ok(width, height, data@.len()) <==> r is Some,
            r matches Some(g) ==> g.width == width && g.height == height && g.data@ == data@
                && g.wf(),
    {
        let len = data.len();
        match sample_count(width, height) {
            Some(n) => if width == 0 || height == 0 || len != n || !resize_fits(width) {
                return None;
            },
            None => return None,
        }
        Some(PixelGrid { width, height, data })
    }

    pub fn is_well_formed(&self) -> (r: bool)
        ensures
            r == self.wf(),
    {
        let len = self.data.len();
        match sample_count(self.width, self.height) {
            Some(n) => self.width > 0 && self.height > 0 && len == n && resize_fits(self.width),
            None => false,
        }
    }
}

/// The grid that decoding yields: the decoder's result where it has a
/// positive size and three samples per pixel.
pub open spec fn decoded_grid_of(bytes: Seq<u8>) -> Option<(u32, u32, Seq<u8>)> {
    match decoded_rgb8_of(bytes) {
        Some((w, h, px)) => if grid_dims_ok(w, h, px.len()) {
            Some((w, h, px))
        } else {
            None
        },
        None => None,
    }
}

/// Decodes an arbitrary byte buffer, whose format is told by its content,
/// into a pixel grid; anything that does not decode to a non-empty picture
/// is a `Decode` error.
pub fn decode_image(bytes: &[u8]) -> (r: Result<PixelGrid, PipelineError>)
    ensures
        match decoded_grid_of(bytes@) {
            Some((w, h, px)) => r matches Ok(g) && g.width == w && g.height == h && g.data@ == px
                && g.wf(),
            None => r == Err::<PixelGrid, PipelineError>(PipelineError::Decode),
        },
{
    match load_rgb8(bytes) {
        Ok((w, h, px)) => match PixelGrid::new(w, h, px) {
            Some(g) => Ok(g),
            None => Err(PipelineError::Decode),
        },
        Err(_) => Err(PipelineError::Decode),
    }
}

} // verus!

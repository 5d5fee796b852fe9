//! The inference-input resize stage.
//!
//! Each sample the video pipeline hands over is a packed RGB byte buffer;
//! it is scaled to the remote model's fixed input size and framed with a
//! monotonically increasing id before it is offered to the lag channel.

use vstd::prelude::*;
use fast_image_resize::{images, FilterType, PixelType, ResizeAlg, ResizeOptions, Resizer};

verus! {

/// One frame as sent to the remote model.
#[derive(Debug, Clone)]
pub struct InferenceFrame {
    /// Monotonically increasing frame id; actions answer by id.
    pub id: i64,
    pub width: u32,
    pub height: u32,
    /// Packed RGB pixels, `width * height * 3` bytes.
    pub data: Vec<u8>,
}

impl InferenceFrame {
    pub open spec fn wf(&self) -> bool {
        self.data@.len() == self.width * self.height * 3
    }
}

/// A pixel buffer whose length does not match its claimed dimensions.
#[derive(Clone, Copy, Debug, PartialEq, Eq, Structural)]
pub struct SizeMismatch {
    /// The length the dimensions demand.
    pub expected: usize,
    /// The length the buffer has.
    pub got: usize,
}

/// The pixels the resizer produces for a packed RGB image of the given
/// source dimensions scaled to the given destination dimensions. The result
/// is a function of the arguments alone: the crate's own test suite pins one
/// checksum per image across every CPU extension, and its threading feature
/// is not enabled here.
pub uninterp spec fn resized_rgb_of(data: Seq<u8>, src_width: u32, src_height: u32, dst_width: u32, dst_height: u32) -> Seq<u8>;

/// Relies on `fast_image_resize::Resizer::resize` over `U8x3` images: the
/// destination buffer is owned by `Image::new`, which sizes it at
/// `dst_width * dst_height * 3` bytes, and `resize` only fills it. With both
/// images `U8x3` and an exactly sized, byte-aligned source buffer, none of
/// the documented error paths can be reached.
#[verifier::external_body]
fn resize_rgb(data: &Vec<u8>, src_width: u32, src_height: u32, dst_width: u32, dst_height: u32) -> (r: Vec<u8>)
    requires
        data@.len() == src_width * src_height * 3,
    ensures
        r@ == resized_rgb_of(data@, src_width, src_height, dst_width, dst_height),
        r@.len() == dst_width * dst_height * 3,
{
    let src = images::ImageRef::new(src_width, src_height, data.as_slice(), PixelType::U8x3)
        .expect("source buffer matches its dimensions");
    let mut dst = images::Image::new(dst_width, dst_height, PixelType::U8x3);
    let options = ResizeOptions::new().resize_alg(ResizeAlg::Interpolation(FilterType::Hamming));
    Resizer::new().resize(&src, &mut dst, Some(&options)).expect("pixel types match");
    dst.buffer().to_vec()
}

/// Scale a packed RGB image; rejected if and only if the input buffer's
/// length does not match the claimed source dimensions.
pub fn resize_image_core(
    image_data: &Vec<u8>,
    src_height: u32,
    src_width: u32,
    dst_height: u32,
    dst_width: u32,
) -> (r: Result<Vec<u8>, SizeMismatch>)
    requires
        src_width * src_height * 3 <= usize::MAX,
    ensures
        r is Ok <==> image_data@.len() == src_width * src_height * 3,
        r matches Ok(out) ==> out@ == resized_rgb_of(
            image_data@,
            src_width,
            src_height,
            dst_width,
            dst_height,
        ) && out@.len() == dst_width * dst_height * 3,
        r matches Err(e) ==> e == (SizeMismatch {
            expected: (src_width * src_height * 3) as usize,
            got: image_data.len(),
        }),
{
    let expected_len: usize = (src_width as usize) * (src_height as usize) * 3;
    if image_data.len() != expected_len {
        return Err(SizeMismatch { expected: expected_len, got: image_data.len() });
    }
    Ok(resize_rgb(image_data, src_width, src_height, dst_width, dst_height))
}

/// Scale one pipeline sample to the model's input size and frame it with its
/// id; rejected if and only if the sample's length does not match the
/// claimed source dimensions.
pub fn build_inference_frame(
    image_data: &Vec<u8>,
    src_width: u32,
    src_height: u32,
    model_width: u32,
    model_height: u32,
    id: i64,
) -> (r: Result<InferenceFrame, SizeMismatch>)
    requires
        src_width * src_height * 3 <= usize::MAX,
    ensures
        r is Ok <==> image_data@.len() == src_width * src_height * 3,
        r matches Ok(frame) ==> {
            &&& frame.wf()
            &&& frame.id == id
            &&& frame.width == model_width
            &&& frame.height == model_height
            &&& frame.data@ == resized_rgb_of(
                image_data@,
                src_width,
                src_height,
                model_width,
                model_height,
            )
        },
{
    match resize_image_core(image_data, src_height, src_width, model_height, model_width) {
        Ok(data) => Ok(InferenceFrame { id, width: model_width, height: model_height, data }),
        Err(e) => Err(e),
    }
}

} // verus!

//! Encoding of captured frames. The platform hands over the raw client-area
//! pixels of one window (or nothing, when the window vanished or is
//! inaccessible); this module turns them into a lossless encoded frame and
//! decides success or failure of the capture cycle.

use vstd::prelude::*;

verus! {

use crate::crop::CropRect;
use crate::instruments::WindowCapture;

/// The encoded stream the png encoder produces for the given RGBA pixels
/// and dimensions (eight-bit depth, default settings).
pub uninterp spec fn png_rgba_of(pixels: Seq<u8>, width: int, height: int) -> Seq<u8>;

/// Relies on png's `Encoder`: writing an RGBA eight-bit image into an
/// in-memory buffer succeeds exactly when both dimensions are nonzero and
/// the pixel buffer holds `width * height * 4` bytes, and the stream
/// written is a function of the pixels and dimensions alone.
#[verifier::external_body]
fn png_encode_rgba(pixels: &Vec<u8>, width: u32, height: u32) -> (r: Option<Vec<u8>>)
    requires
        width < 65536,
        height < 65536,
    ensures
        r is Some <==> (0 < width && 0 < height && pixels@.len() == width * height * 4),
        r matches Some(b) ==> b@ == png_rgba_of(pixels@, width as int, height as int),
{
    let mut out: Vec<u8> = Vec::new();
    {
        let mut enc = png::Encoder::new(&mut out, width, height);
        enc.set_color(png::ColorType::Rgba);
        enc.set_depth(png::BitDepth::Eight);
        let mut writer = match enc.write_header() {
            Ok(w) => w,
            Err(_) => return None,
        };
        if writer.write_image_data(pixels).is_err() {
            return None;
        }
    }
    Some(out)
}

/// One raw frame as the platform capture returns it: RGBA pixels, row by
/// row, and the pixel dimensions.
pub struct RawFrame {
    pub pixels: Vec<u8>,
    pub width: u32,
    pub height: u32,
}

/// A capture failure: the window was gone or inaccessible, or the frame
/// the platform returned cannot be encoded.
#[derive(Clone, Copy, PartialEq, Eq, Structural, Debug)]
pub enum CaptureError {
    /// The platform returned no frame for the window.
    Window,
    /// The platform frame has empty or oversized dimensions, or its pixel
    /// buffer does not match them.
    Encode,
}

/// A platform frame the encoder accepts: nonzero dimensions that fit a
/// pixel count of sixteen bits each, and a pixel buffer of exactly four
/// bytes per pixel.
pub open spec fn frame_encodable(f: RawFrame) -> bool {
    &&& 0 < f.width < 65536
    &&& 0 < f.height < 65536
    &&& f.pixels@.len() == f.width * f.height * 4
}

/// Whether one capture cycle succeeds, given what the platform returned
/// for the window: a frame arrived and it is encodable.
pub open spec fn spec_capture_ok(frame: Option<RawFrame>) -> bool {
    frame matches Some(f) && frame_encodable(f)
}

/// Whether a capture with a given crop succeeds: the crop never enters the
/// decision, only the platform outcome for the window does.
pub open spec fn spec_capture_ok_with(crop: CropRect, frame: Option<RawFrame>) -> bool {
    spec_capture_ok(frame)
}

/// A capture never succeeds or fails on account of its crop alone: for one
/// platform outcome, a capture restricted by any crop and a capture of the
/// full frame agree on success.
pub proof fn lemma_capture_success_crop_independent(
    frame: Option<RawFrame>,
    c1: CropRect,
    c2: CropRect,
)
    ensures
        spec_capture_ok_with(c1, frame) == spec_capture_ok_with(c2, frame),
{
}

/// The crop arguments handed to the platform capture: origin and size each
/// become an explicit pair unless they are the zero sentinel, in which case
/// the platform captures the full extent in that respect. Total: defined
/// for every crop.
pub fn crop_args(crop: &CropRect) -> (r: (Option<(i32, i32)>, Option<(i32, i32)>))
    ensures
        r.0 is Some <==> !(crop.x == 0 && crop.y == 0),
        r.0 matches Some(p) ==> p == (crop.x, crop.y),
        r.1 is Some <==> !(crop.width == 0 && crop.height == 0),
        r.1 matches Some(p) ==> p == (crop.width, crop.height),
{
    let xy: Option<(i32, i32)> = if crop.x == 0 && crop.y == 0 {
        None
    } else {
        Some((crop.x, crop.y))
    };
    let wh: Option<(i32, i32)> = if crop.width == 0 && crop.height == 0 {
        None
    } else {
        Some((crop.width, crop.height))
    };
    (xy, wh)
}

/// Encodes the platform's answer for one capture cycle: the encoded frame
/// with its dimensions on success; `Window` when the platform returned no
/// frame, `Encode` when the frame cannot be encoded. Succeeds exactly when
/// the platform outcome is a well-formed frame.
pub fn encode_capture(frame: Option<RawFrame>) -> (r: Result<WindowCapture, CaptureError>)
    ensures
        r is Ok <==> spec_capture_ok(frame),
        frame is None ==> r == Result::<WindowCapture, CaptureError>::Err(CaptureError::Window),
        frame matches Some(f) && !frame_encodable(f) ==> r == Result::<
            WindowCapture,
            CaptureError,
        >::Err(CaptureError::Encode),
        r matches Ok(c) ==> {
            let f = frame->0;
            &&& c.width == f.width
            &&& c.height == f.height
            &&& c.buf@ == png_rgba_of(f.pixels@, f.width as int, f.height as int)
        },
{
    let f: RawFrame = match frame {
        Some(f) => f,
        None => {
            return Err(CaptureError::Window);
        },
    };
    if f.width == 0 || f.width >= 65536 || f.height == 0 || f.height >= 65536 {
        return Err(CaptureError::Encode);
    }
    match png_encode_rgba(&f.pixels, f.width, f.height) {
        Some(buf) => Ok(
            WindowCapture { buf, width: f.width as u16, height: f.height as u16 },
        ),
        None => Err(CaptureError::Encode),
    }
}

} // verus!

use vstd::prelude::*;
use crate::graphics::image::{Rgb, interleaved, pack_rgb, unpack_rgb};
use crate::graphics::vec_writer::VecWriter;

verus! {

/// The quality at which frames are encoded: the highest there is.
pub const QUALITY: u8 = 100;

/// Why a frame could not be encoded.
#[derive(Clone, Copy, Debug, PartialEq, Eq, Structural)]
pub enum EncodeError {
    /// There are fewer bytes than the dimensions call for: `length` were
    /// given, `required` are needed.
    BadImageData { length: u64, required: u64 },
    /// The width or the height is zero.
    ZeroImageDimensions { width: u16, height: u16 },
    /// The encoder failed for another reason.
    Write,
}

/// The JPEG stream that the encoder produces for `data`, read as interleaved
/// RGB bytes of a `width` by `height` image, at `quality`.
pub uninterp spec fn jpeg_stream(data: Seq<u8>, width: u16, height: u16, quality: u8) -> Seq<u8>;

/// The bytes that an image of these dimensions needs: three for each pixel.
pub open spec fn required_len(width: u16, height: u16) -> nat {
    (3 * width * height) as nat
}

/// `jpeg_encoder`'s `Encoder::new` on `sink` and `quality`, then `encode`
/// with `ColorType::Rgb`. With zero for a dimension the encoder writes
/// nothing and reports the dimensions. Otherwise, as `data` is long enough
/// and the sink takes every write, it writes one whole stream behind what
/// the sink holds and succeeds. The stream depends on the four values alone.
#[verifier::external_body]
fn encode_into(
    sink: VecWriter<'_>,
    data: &Vec<u8>,
    width: u16,
    height: u16,
    quality: u8,
) -> (r: Result<(), EncodeError>)
    requires
        data@.len() >= required_len(width, height),
    ensures
        width == 0 || height == 0 ==> r.is_err() && r->Err_0 == (EncodeError::ZeroImageDimensions {
            width,
            height,
        }) && final(sink.0)@ == sink@,
        width > 0 && height > 0 ==> r.is_ok() && final(sink.0)@ == sink@ + jpeg_stream(
            data@,
            width,
            height,
            quality,
        ),
{
    let encoder = jpeg_encoder::Encoder::new(sink, quality);
    match encoder.encode(data, width, height, jpeg_encoder::ColorType::Rgb) {
        Ok(()) => Ok(()),
        Err(jpeg_encoder::EncodingError::BadImageData { length, required }) => Err(
            EncodeError::BadImageData { length: length as u64, required: required as u64 },
        ),
        Err(jpeg_encoder::EncodingError::ZeroImageDimensions { width, height }) => Err(
            EncodeError::ZeroImageDimensions { width, height },
        ),
        Err(_) => Err(EncodeError::Write),
    }
}

/// Encodes a rendered frame as a JPEG stream at the highest quality.
///
/// The pixels are taken in row-major order. Too few of them for the
/// dimensions is an error that names the bytes given and needed; a zero
/// dimension is an error; every other frame is encoded.
pub fn encode_rgb(pixels: &Vec<Rgb>, width: u16, height: u16) -> (r: Result<Vec<u8>, EncodeError>)
    ensures
        3 * pixels@.len() < required_len(width, height) ==> r.is_err() && r->Err_0 == (
        EncodeError::BadImageData {
            length: (3 * pixels@.len()) as u64,
            required: required_len(width, height) as u64,
        }),
        3 * pixels@.len() >= required_len(width, height) && (width == 0 || height == 0)
            ==> r.is_err() && r->Err_0 == (EncodeError::ZeroImageDimensions { width, height }),
        3 * pixels@.len() >= required_len(width, height) && width > 0 && height > 0 ==> (
        r matches Ok(stream) && stream@ == jpeg_stream(
            interleaved(pixels@),
            width,
            height,
            QUALITY,
        )),
{
    let data = pack_rgb(pixels);
    let w: u64 = width as u64;
    let h: u64 = height as u64;
    assert(3 * w * h <= 3 * 0xffff * 0xffff) by (nonlinear_arith)
        requires
            w <= 0xffff,
            h <= 0xffff,
    ;
    let required: u64 = 3 * w * h;
    let length: u64 = data.len() as u64;
    if length < required {
        return Err(EncodeError::BadImageData { length, required });
    }
    let mut stream: Vec<u8> = Vec::new();
    let sink = VecWriter::new(&mut stream);
    match encode_into(sink, &data, width, height, QUALITY) {
        Ok(()) => Ok(stream),
        Err(e) => Err(e),
    }
}

/// What the decoder hands back for a stream: the samples, and the
/// dimensions it read from the stream's header.
pub struct Decoded {
    pub data: Vec<u8>,
    pub width: u16,
    pub height: u16,
}

/// An image of 8-bit RGB pixels in row-major order: at least one pixel
/// wide and one high.
pub struct Frame {
    pub width: u16,
    pub height: u16,
    pub pixels: Vec<Rgb>,
}

impl Frame {
    /// The grid has a place, and there is one pixel for each place of it.
    pub open spec fn wf(&self) -> bool {
        &&& self.width > 0
        &&& self.height > 0
        &&& self.pixels@.len() == self.width * self.height
    }
}

/// Why a stream gave no frame.
#[derive(Debug)]
pub enum DecodeError {
    /// The decoder refused the stream; `reason` is what it said.
    Malformed { reason: String },
    /// The stream decoded to an image without a pixel: the width or the
    /// height is zero.
    ZeroDimensions { width: u16, height: u16 },
    /// The stream decoded to `length` samples, which is not three for each
    /// pixel of a `width` by `height` image: it is no RGB image.
    NotRgb { length: usize, width: u16, height: u16 },
}

/// The decoded dimensions leave room for a pixel.
pub open spec fn has_area(decoded: Decoded) -> bool {
    decoded.width > 0 && decoded.height > 0
}

/// The decoded samples are those of an RGB image of the decoded dimensions.
pub open spec fn is_rgb(decoded: Decoded) -> bool {
    decoded.data@.len() == required_len(decoded.width, decoded.height)
}

/// `zune_jpeg`'s `JpegDecoder::new` on the stream, then `decode`, and `info`
/// for the dimensions. A refusal comes back as the decoder's own words.
/// Nothing is claimed of what is decoded: the decoder picks its arithmetic
/// by the machine it runs on, and answers a grayscale stream with one
/// sample for each pixel. Nor is it proved that the decoder answers every
/// stream: its authors mean it to refuse what it cannot read, and count a
/// panic on a damaged stream as a fault of theirs to mend.
#[verifier::external_body]
fn decode_stream(stream: &Vec<u8>) -> (r: Result<Decoded, String>) {
    let mut decoder = zune_jpeg::JpegDecoder::new(stream);
    match decoder.decode() {
        Ok(data) => match decoder.info() {
            Some(info) => Ok(Decoded { data, width: info.width, height: info.height }),
            None => Err(String::new()),
        },
        Err(e) => Err(format!("{:?}", e)),
    }
}

/// Reads what the decoder handed back as a frame. Dimensions without a
/// pixel are refused first. Then, where there are three samples for each
/// pixel of the decoded dimensions, the samples are read three by three as
/// pixels; where there are not, the refusal names the counts.
pub fn frame_of(decoded: Decoded) -> (r: Result<Frame, DecodeError>)
    ensures
        !has_area(decoded) ==> (r matches Err(DecodeError::ZeroDimensions { width, height })
            && width == decoded.width && height == decoded.height),
        has_area(decoded) && !is_rgb(decoded) ==> (r matches Err(
            DecodeError::NotRgb { length, width, height },
        ) && length == decoded.data@.len() && width == decoded.width && height
            == decoded.height),
        has_area(decoded) && is_rgb(decoded) ==> (r matches Ok(frame) && frame.wf()
            && frame.pixels@.len() > 0 && frame.width == decoded.width && frame.height
            == decoded.height && interleaved(frame.pixels@) == decoded.data@),
{
    if decoded.width == 0 || decoded.height == 0 {
        return Err(
            DecodeError::ZeroDimensions { width: decoded.width, height: decoded.height },
        );
    }
    let w: u64 = decoded.width as u64;
    let h: u64 = decoded.height as u64;
    assert(3 * w * h <= 3 * 0xffff * 0xffff) by (nonlinear_arith)
        requires
            w <= 0xffff,
            h <= 0xffff,
    ;
    let required: u64 = 3 * w * h;
    let length = decoded.data.len();
    if length as u64 != required {
        return Err(DecodeError::NotRgb { length, width: decoded.width, height: decoded.height });
    }
    let ghost area: int = decoded.width * decoded.height;
    assert(required == 3 * area && area > 0) by (nonlinear_arith)
        requires
            required == 3 * w * h,
            area == w * h,
            w > 0,
            h > 0,
    ;
    match unpack_rgb(&decoded.data) {
        Some(pixels) => {
            assert(interleaved(pixels@).len() == 3 * pixels@.len());
            Ok(Frame { width: decoded.width, height: decoded.height, pixels })
        },
        None => Err(DecodeError::NotRgb { length, width: decoded.width, height: decoded.height }),
    }
}

/// Decodes a JPEG stream to a frame of RGB pixels. Whether the stream
/// decodes, and to what, is the decoder's to say. What it refuses is
/// `Malformed`; what it decodes is read by `frame_of`. So a frame that
/// comes back has a pixel, and one pixel for each place of its grid; and a
/// refusal of what was decoded names an image without a pixel, or a sample
/// count that is not three for each pixel.
pub fn decode_rgb(stream: &Vec<u8>) -> (r: Result<Frame, DecodeError>)
    ensures
        r matches Ok(frame) ==> frame.wf() && frame.pixels@.len() > 0,
        r matches Err(DecodeError::ZeroDimensions { width, height }) ==> width == 0 || height
            == 0,
        r matches Err(DecodeError::NotRgb { length, width, height }) ==> width > 0 && height > 0
            && length != required_len(width, height),
{
    match decode_stream(stream) {
        Ok(decoded) => frame_of(decoded),
        Err(reason) => Err(DecodeError::Malformed { reason }),
    }
}

} // verus!

//! Decoded images in the buffer's packed-color format.

use vstd::prelude::*;
use crate::color::rgb_s;
use crate::render::buffer::{Buffer, BufferSize, RawBuffer};

verus! {

#[verifier::external_type_specification]
#[verifier::external_body]
pub struct ExDecodingError(png::DecodingError);

/// What decoding a byte stream as a PNG yields: the pixel width and height
/// and the raw interleaved samples, or nothing when the stream is not a
/// well-formed PNG.  Decoding depends on the bytes alone.
pub uninterp spec fn png_decoded(data: Seq<u8>) -> Option<(usize, usize, Seq<u8>)>;

/// Relies on png's `Decoder`/`Reader`: decoding a byte stream yields the
/// frame's width, height and raw samples, and is a function of the bytes
/// alone.
#[verifier::external_body]
fn decode_png(data: &[u8]) -> (r: Result<(usize, usize, Vec<u8>), png::DecodingError>)
    ensures
        match r {
            Ok(d) => png_decoded(data@) == Some((d.0, d.1, d.2@)),
            Err(_) => png_decoded(data@) is None,
        },
{
    let decoder = png::Decoder::new(std::io::Cursor::new(data));
    let mut reader = decoder.read_info()?;
    let n = match reader.output_buffer_size() {
        Some(n) => n,
        None => {
            return Err(png::DecodingError::LimitsExceeded);
        },
    };
    let mut buf = vec![0u8; n];
    let info = reader.next_frame(&mut buf)?;
    let len = core::cmp::min(buf.len(), info.line_size.saturating_mul(info.height as usize));
    buf.truncate(len);
    Ok((info.width as usize, info.height as usize, buf))
}

/// Why an image could not be produced from a byte stream.
#[derive(Debug)]
pub enum ImageError {
    /// The bytes are not a well-formed PNG.
    Decode(png::DecodingError),
    /// The decoded frame is not three bytes per pixel (not plain RGB), or is
    /// too large for this machine.
    Layout,
}

/// The decoded samples fit the packed RGB layout the buffer expects.
pub open spec fn rgb_layout_ok(w: usize, h: usize, bytes: Seq<u8>) -> bool {
    &&& bytes.len() == w * h * 3
    &&& w * h * 3 <= usize::MAX
}

pub struct Image(pub Buffer);

impl Image {
    pub fn new(buffer: Buffer) -> (r: Self)
        ensures
            r.0 == buffer,
    {
        Image(buffer)
    }

    /// Decode a PNG byte stream into an image of packed colors.
    ///
    /// Succeeds exactly on streams that decode to a plain RGB frame; each
    /// pixel's three samples are packed into one color word.
    pub fn from_png(data: &[u8]) -> (r: Result<Self, ImageError>)
        ensures
            match r {
                Ok(img) => {
                    &&& png_decoded(data@) is Some
                    &&& {
                        let d = png_decoded(data@).unwrap();
                        &&& rgb_layout_ok(d.0, d.1, d.2)
                        &&& img.0.size == (BufferSize { width: d.0, height: d.1 })
                        &&& img.0.raw_buffer.0@.len() == d.0 * d.1
                        &&& forall|j: int|
                            0 <= j < d.0 * d.1 ==> img.0.raw_buffer.0@[j] == rgb_s(
                                d.2[3 * j],
                                d.2[3 * j + 1],
                                d.2[3 * j + 2],
                            )
                    }
                },
                Err(ImageError::Decode(_)) => png_decoded(data@) is None,
                Err(ImageError::Layout) => {
                    &&& png_decoded(data@) is Some
                    &&& {
                        let d = png_decoded(data@).unwrap();
                        !rgb_layout_ok(d.0, d.1, d.2)
                    }
                },
            },
    {
        let (width, height, bytes) = match decode_png(data) {
            Ok(d) => d,
            Err(e) => {
                return Err(ImageError::Decode(e));
            },
        };
        let pixels: usize = match width.checked_mul(height) {
            Some(p) => p,
            None => {
                proof {
                    vstd::arithmetic::mul::lemma_mul_inequality(1, 3, width * height);
                }
                return Err(ImageError::Layout);
            },
        };
        let expected: usize = match pixels.checked_mul(3) {
            Some(e) => e,
            None => {
                return Err(ImageError::Layout);
            },
        };
        if bytes.len() != expected {
            return Err(ImageError::Layout);
        }
        let mut vec: Vec<u32> = Vec::new();
        let mut j: usize = 0;
        while j < pixels
            invariant
                j <= pixels,
                vec@.len() == j,
                pixels == width * height,
                bytes@.len() == pixels * 3,
                pixels * 3 <= usize::MAX,
                forall|k: int|
                    0 <= k < j ==> vec@[k] == rgb_s(
                        bytes@[3 * k],
                        bytes@[3 * k + 1],
                        bytes@[3 * k + 2],
                    ),
            decreases pixels - j,
        {
            let r = bytes[3 * j];
            let g = bytes[3 * j + 1];
            let b = bytes[3 * j + 2];
            let color = ((r as u32) << 16) | ((g as u32) << 8) | (b as u32);
            vec.push(color);
            j = j + 1;
        }
        let size = BufferSize { width, height };
        Ok(Image(Buffer { raw_buffer: RawBuffer(vec), size }))
    }
}

} // verus!

//! The background conversion pipeline's per-job work: transcoding a raw
//! BGRA capture (uncompressed true-color TGA) to the compressed format
//! (PNG), plus the file-name decisions around it.
//!
//! Encoding and decoding of the two container formats is invoked from the
//! `image` crate, not reimplemented; everything around those calls — the
//! BGRA-to-RGBA channel swap, extension handling, error mapping, and the
//! rule that one corrupt file never stops the rest of a batch — is verified
//! here. Directory walking, file reads and writes stay with the caller.

use vstd::prelude::*;
use crate::naming::raw_extension;

verus! {

/// A decoded frame: tightly packed BGRA bytes and its dimensions in pixels.
pub struct RawImage {
    pub pixels: Vec<u8>,
    pub width: u32,
    pub height: u32,
}

/// The bytes of the uncompressed true-color TGA container holding the given
/// BGRA pixels.
pub uninterp spec fn tga_bytes_of(pixels: Seq<u8>, width: u32, height: u32) -> Seq<u8>;

/// What the TGA codec makes of a byte stream: the decoded BGRA pixels and
/// dimensions, or nothing when the stream is not a readable TGA file.
pub uninterp spec fn tga_decoded(bytes: Seq<u8>) -> Option<(Seq<u8>, u32, u32)>;

/// The bytes of the PNG container holding the given RGBA pixels.
pub uninterp spec fn png_bytes_of(pixels: Seq<u8>, width: u32, height: u32) -> Seq<u8>;

/// Relies on `image::codecs::tga::TgaEncoder::encode`: an uncompressed
/// true-color TGA written from BGRA bytes. Dimensions in `1..=65535` are
/// accepted and writing into a `Vec` cannot fail, so the call succeeds on
/// every admitted input; the output depends on the pixel bytes and
/// dimensions alone. The written file is a top-left-origin true-color image
/// that the decoder reads back exactly, so decoding the result yields the
/// same pixels and dimensions — the raw container is lossless.
#[verifier::external_body]
fn tga_encode_bgra(pixels: &Vec<u8>, width: u32, height: u32) -> (r: Vec<u8>)
    requires
        0 < width <= 65535,
        0 < height <= 65535,
        pixels@.len() == 4 * width * height,
    ensures
        r@ == tga_bytes_of(pixels@, width, height),
        tga_decoded(r@) == Some((pixels@, width, height)),
        !tga_color_mapped(r@),
{
    let mut out: Vec<u8> = Vec::new();
    let encoder = image::codecs::tga::TgaEncoder::new(&mut out);
    let _ = encoder.encode(pixels.as_slice(), width, height, image::ColorType::Bgra8);
    out
}

/// Whether a byte stream declares one of TGA's color-mapped (palette) image
/// types, raw or run-length encoded.
pub open spec fn tga_color_mapped(bytes: Seq<u8>) -> bool {
    bytes.len() > 2 && (bytes[2] == 1 || bytes[2] == 9)
}

/// Whether `bytes` declares a color-mapped (palette) TGA image. Raw captures
/// never do; the conversion pipeline rejects such a stream before handing it
/// to the decoder, whose palette expansion is the one path that cannot be
/// called safely (see `tga_decode_bgra`).
pub fn is_color_mapped_tga(bytes: &Vec<u8>) -> (r: bool)
    ensures
        r == tga_color_mapped(bytes@),
{
    bytes.len() > 2 && (bytes[2] == 1 || bytes[2] == 9)
}

/// Relies on `image::load_from_memory_with_format` with the TGA codec (and
/// `DynamicImage::to_bgra8` to lay the pixels out as packed BGRA): the
/// outcome is a function of the byte stream alone, and a decoded image
/// always holds exactly `4 * width * height` pixel bytes. Color-mapped
/// streams are kept out by the precondition: on those the decoder's palette
/// expansion can produce a buffer whose size disagrees with the declared
/// pixel format and abort, while every other stream fails cleanly.
#[verifier::external_body]
fn tga_decode_bgra(bytes: &Vec<u8>) -> (r: Option<RawImage>)
    requires
        !tga_color_mapped(bytes@),
    ensures
        r is Some <==> tga_decoded(bytes@) is Some,
        r matches Some(img) ==> tga_decoded(bytes@) == Some((img.pixels@, img.width, img.height)),
        r matches Some(img) ==> img.pixels@.len() == 4 * img.width * img.height,
        r matches Some(img) ==> img.pixels@.len() % 4 == 0,
{
    match image::load_from_memory_with_format(bytes.as_slice(), image::ImageFormat::Tga) {
        Ok(img) => {
            let buf = img.to_bgra8();
            let width = buf.width();
            let height = buf.height();
            Some(RawImage { pixels: buf.into_raw(), width, height })
        },
        Err(_) => None,
    }
}

/// Relies on `image::codecs::png::PngEncoder::encode` with RGBA input:
/// writing into a `Vec` cannot fail and the row size always matches the
/// admitted pixel length, so only zero dimensions are refused; the output
/// depends on the pixel bytes and dimensions alone.
#[verifier::external_body]
fn png_encode_rgba(pixels: &Vec<u8>, width: u32, height: u32) -> (r: Option<Vec<u8>>)
    requires
        pixels@.len() == 4 * width * height,
    ensures
        r matches Some(b) ==> b@ == png_bytes_of(pixels@, width, height),
        0 < width && 0 < height ==> r is Some,
{
    let mut out: Vec<u8> = Vec::new();
    let encoder = image::codecs::png::PngEncoder::new(&mut out);
    match encoder.encode(pixels.as_slice(), width, height, image::ColorType::Rgba8) {
        Ok(()) => Some(out),
        Err(_) => None,
    }
}

/// The same pixels with the B and R channels of every four-byte pixel
/// swapped: BGRA order turned into RGBA order.
pub open spec fn rgba_of(p: Seq<u8>) -> Seq<u8> {
    Seq::new(
        p.len(),
        |i: int|
            if i % 4 == 0 {
                p[i + 2]
            } else if i % 4 == 2 {
                p[i - 2]
            } else {
                p[i]
            },
    )
}

/// Swaps the B and R channels of every pixel, turning packed BGRA bytes
/// into packed RGBA bytes.
pub fn bgra_to_rgba(p: &Vec<u8>) -> (r: Vec<u8>)
    requires
        p@.len() % 4 == 0,
    ensures
        r@ == rgba_of(p@),
{
    let mut out: Vec<u8> = Vec::new();
    let mut i: usize = 0;
    while i < p.len()
        invariant
            i % 4 == 0,
            i <= p.len(),
            p@.len() % 4 == 0,
            out@.len() == i,
            forall|j: int| 0 <= j < i ==> out@[j] == rgba_of(p@)[j],
        decreases p.len() - i,
    {
        proof {
            assert(i + 4 <= p@.len() && (i + 1) % 4 == 1 && (i + 2) % 4 == 2 && (i + 3) % 4 == 3)
                by (nonlinear_arith)
                requires
                    i % 4 == 0,
                    p@.len() % 4 == 0,
                    i < p@.len(),
                    0 <= i,
            ;
        }
        out.push(p[i + 2]);
        out.push(p[i + 1]);
        out.push(p[i]);
        out.push(p[i + 3]);
        i = i + 4;
    }
    proof {
        assert(out@ =~= rgba_of(p@));
    }
    out
}

/// The compressed format's file extension, `.png`.
pub open spec fn png_extension() -> Seq<u8> {
    seq![46u8, 112u8, 110u8, 103u8]
}

/// Whether a file name carries the raw capture extension `.tga` — the test
/// that admits a file into the conversion pipeline.
pub open spec fn has_raw_ext(name: Seq<u8>) -> bool {
    name.len() >= 4 && name.subrange(name.len() - 4, name.len() as int) == raw_extension()
}

/// Whether `name` ends in the raw capture extension.
pub fn has_raw_extension(name: &Vec<u8>) -> (r: bool)
    ensures
        r == has_raw_ext(name@),
{
    if name.len() < 4 {
        proof {
            assert(!has_raw_ext(name@));
        }
        return false;
    }
    let n = name.len();
    let r = name[n - 4] == 46 && name[n - 3] == 116 && name[n - 2] == 103 && name[n - 1] == 97;
    proof {
        if r {
            assert(name@.subrange(name@.len() - 4, name@.len() as int) =~= raw_extension());
        } else {
            assert(name@.subrange(name@.len() - 4, name@.len() as int) != raw_extension());
        }
    }
    r
}

/// The name the compressed file is written under: the raw name with its
/// extension swapped for the compressed one.
pub fn compressed_name(name: &Vec<u8>) -> (r: Vec<u8>)
    requires
        has_raw_ext(name@),
    ensures
        r@ == name@.subrange(0, name@.len() - 4) + png_extension(),
{
    let mut out: Vec<u8> = Vec::new();
    let stem_len = name.len() - 4;
    let mut i: usize = 0;
    while i < stem_len
        invariant
            i <= stem_len,
            stem_len == name@.len() - 4,
            out@.len() == i,
            forall|j: int| 0 <= j < i ==> out@[j] == name@[j],
        decreases stem_len - i,
    {
        out.push(name[i]);
        i = i + 1;
    }
    out.push(46);
    out.push(112);
    out.push(110);
    out.push(103);
    proof {
        assert(out@ =~= name@.subrange(0, name@.len() - 4) + png_extension());
    }
    out
}

/// Why one conversion job failed. A failure is local to its job: it is
/// reported, the file is left in place, and the pipeline moves on.
#[derive(PartialEq, Eq, Structural, Clone, Copy, Debug)]
pub enum ConvertError {
    /// The byte stream is not a readable raw capture (truncated or corrupt).
    DecodeFailure,
    /// The decoded frame cannot be written as a compressed file (degenerate
    /// dimensions).
    EncodeFailure,
}

/// What a finished conversion job must look like: color-mapped streams and
/// decode failures are reported as decode failures, and a converted job
/// holds exactly the compressed encoding of the decoded frame's pixels in
/// RGBA order.
pub open spec fn conversion_outcome(bytes: Seq<u8>, out: Result<Vec<u8>, ConvertError>) -> bool {
    if tga_color_mapped(bytes) {
        out == Err::<Vec<u8>, ConvertError>(ConvertError::DecodeFailure)
    } else {
        conversion_decode_outcome(bytes, out)
    }
}

/// The outcome of a job whose stream reached the decoder.
pub open spec fn conversion_decode_outcome(bytes: Seq<u8>, out: Result<Vec<u8>, ConvertError>) -> bool {
    match tga_decoded(bytes) {
        None => out == Err::<Vec<u8>, ConvertError>(ConvertError::DecodeFailure),
        Some(t) => match out {
            Ok(png) => png@ == png_bytes_of(rgba_of(t.0), t.1, t.2),
            Err(e) => e == ConvertError::EncodeFailure && (t.1 == 0 || t.2 == 0),
        },
    }
}

/// One conversion job: reject palette streams (a raw capture is never one),
/// decode the raw TGA bytes, swap the pixels to RGBA, and encode them as
/// PNG. Succeeds on every readable raw capture with non-degenerate
/// dimensions; never panics on corrupt input.
pub fn convert_raw_to_compressed(bytes: &Vec<u8>) -> (r: Result<Vec<u8>, ConvertError>)
    ensures
        conversion_outcome(bytes@, r),
        !tga_color_mapped(bytes@) && (tga_decoded(bytes@) matches Some(t) && 0 < t.1 && 0 < t.2)
            ==> r is Ok,
{
    if is_color_mapped_tga(bytes) {
        return Err(ConvertError::DecodeFailure);
    }
    match tga_decode_bgra(bytes) {
        None => Err(ConvertError::DecodeFailure),
        Some(img) => {
            let rgba = bgra_to_rgba(&img.pixels);
            match png_encode_rgba(&rgba, img.width, img.height) {
                Some(png) => Ok(png),
                None => Err(ConvertError::EncodeFailure),
            }
        },
    }
}

/// Drains a backlog of queued jobs in order. Every job is attempted and gets
/// its own outcome: a corrupt file in the middle of the batch never prevents
/// the jobs after it from being converted.
pub fn convert_batch(jobs: &Vec<Vec<u8>>) -> (r: Vec<Result<Vec<u8>, ConvertError>>)
    ensures
        r@.len() == jobs@.len(),
        forall|i: int| 0 <= i < jobs@.len() ==> conversion_outcome(jobs@[i]@, #[trigger] r@[i]),
{
    let mut out: Vec<Result<Vec<u8>, ConvertError>> = Vec::new();
    let mut i: usize = 0;
    while i < jobs.len()
        invariant
            i <= jobs@.len(),
            out@.len() == i,
            forall|j: int| 0 <= j < i ==> conversion_outcome(jobs@[j]@, #[trigger] out@[j]),
        decreases jobs@.len() - i,
    {
        let one = convert_raw_to_compressed(&jobs[i]);
        out.push(one);
        i = i + 1;
    }
    out
}

/// The round trip the pipeline relies on, in one place: encoding a BGRA
/// frame to the raw container and transcoding that file yields exactly the
/// compressed encoding of the same pixels in RGBA order — nothing is lost
/// between the two containers.
pub fn raw_round_trip(pixels: &Vec<u8>, width: u32, height: u32) -> (r: (Vec<u8>, Vec<u8>))
    requires
        0 < width <= 65535,
        0 < height <= 65535,
        pixels@.len() == 4 * width * height,
    ensures
        r.0@ == tga_bytes_of(pixels@, width, height),
        r.1@ == png_bytes_of(rgba_of(pixels@), width, height),
{
    let tga = encode_raw_frame(pixels, width, height);
    let png = match convert_raw_to_compressed(&tga) {
        Ok(p) => p,
        Err(_) => {
            // Unreachable: a freshly encoded capture always converts.
            proof {
                assert(false);
            }
            Vec::new()
        },
    };
    (tga, png)
}

/// Encodes a cropped BGRA capture as the raw on-disk format. This is the
/// compute half of persisting a capture; writing the bytes to the
/// destination folder is the caller's job. The encoding is lossless: the
/// result decodes back to exactly the given pixels and dimensions, so a
/// capture transcoded later loses nothing to the raw container.
pub fn encode_raw_frame(pixels: &Vec<u8>, width: u32, height: u32) -> (r: Vec<u8>)
    requires
        0 < width <= 65535,
        0 < height <= 65535,
        pixels@.len() == 4 * width * height,
    ensures
        r@ == tga_bytes_of(pixels@, width, height),
        tga_decoded(r@) == Some((pixels@, width, height)),
        !tga_color_mapped(r@),
{
    tga_encode_bgra(pixels, width, height)
}

} // verus!

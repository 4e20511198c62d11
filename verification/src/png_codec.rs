//! PNG container bridge: decoding and encoding through the `png` crate.
//!
//! Byte-level container parsing is delegated to the `png` crate; this
//! module states what that crate hands back, assembles the 16-bit
//! samples from the decoded big-endian byte stream, and validates the
//! frame against the viewer's requirements (16-bit depth, one sample per
//! pixel).

use vstd::prelude::*;

verus! {

/// What the PNG decoder yields for a byte stream: whether the stream
/// decodes at all, then the row-major frame payload (samples in
/// big-endian byte order), the pixel width, the pixel height, and the
/// bit depth. Decoding a byte stream is a pure function of the bytes.
pub uninterp spec fn png_frame_of(data: Seq<u8>) -> (bool, Seq<u8>, nat, nat, nat);

/// What the PNG encoder produces for an 8-bit grayscale payload of the
/// given dimensions: a pure function of payload and dimensions.
pub uninterp spec fn png_gray8_encoding(data: Seq<u8>, width: nat, height: nat) -> Seq<u8>;

/// Errors of the PNG load and save paths.
#[derive(PartialEq, Eq, Structural, Clone, Copy, Debug)]
pub enum PngError {
    /// The byte stream is not a PNG the decoder accepts.
    Decode,
    /// The image does not have the required 16-bit depth.
    UnsupportedBitDepth,
    /// The frame payload does not hold exactly width × height samples.
    Dimensions,
    /// The encoder rejected the payload or the dimensions.
    Encode,
}

/// Relies on png's `Decoder`, `Reader::next_frame` and
/// `OutputInfo::buffer_size`: a successful decode writes the frame
/// row-major with all samples in big-endian byte order, `buffer_size`
/// delimits the meaningful prefix of the buffer, and `OutputInfo` carries
/// the frame's width, height and bit depth.
#[verifier::external_body]
pub(crate) fn decode_frame_raw(data: &[u8]) -> (r: Option<(Vec<u8>, u32, u32, u8)>)
    ensures
        r is Some <==> png_frame_of(data@).0,
        r matches Some(f) ==> f.0@ == png_frame_of(data@).1
            && f.1 as nat == png_frame_of(data@).2
            && f.2 as nat == png_frame_of(data@).3
            && f.3 as nat == png_frame_of(data@).4,
{
    let decoder = png::Decoder::new(std::io::Cursor::new(data));
    let mut reader = decoder.read_info().ok()?;
    let mut buf = vec![0u8; reader.output_buffer_size()?];
    let info = reader.next_frame(&mut buf).ok()?;
    buf.truncate(info.buffer_size());
    Some((buf, info.width, info.height, info.bit_depth as u8))
}

/// Relies on png's `Encoder` writing into an in-memory buffer: the bytes
/// it emits for a grayscale 8-bit payload depend on the payload and the
/// dimensions alone.
#[verifier::external_body]
pub(crate) fn encode_gray8_raw(buffer: &[u8], width: u32, height: u32) -> (r: Option<Vec<u8>>)
    ensures
        r matches Some(v) ==> v@ == png_gray8_encoding(buffer@, width as nat, height as nat),
{
    let mut out: Vec<u8> = Vec::new();
    let mut encoder = png::Encoder::new(std::io::Cursor::new(&mut out), width, height);
    encoder.set_color(png::ColorType::Grayscale);
    encoder.set_depth(png::BitDepth::Eight);
    let mut writer = encoder.write_header().ok()?;
    writer.write_image_data(buffer).ok()?;
    writer.finish().ok()?;
    Some(out)
}

/// Big-endian 16-bit samples assembled from consecutive byte pairs; a
/// trailing odd byte carries no full sample and is dropped.
pub open spec fn be_pairs(bytes: Seq<u8>) -> Seq<u16> {
    Seq::new(bytes.len() / 2, |i: int| (bytes[2 * i] * 256 + bytes[2 * i + 1]) as u16)
}

/// Assemble big-endian 16-bit samples from a decoded byte stream.
pub fn bytes_be_to_u16(bytes: &[u8]) -> (r: Vec<u16>)
    ensures
        r@ == be_pairs(bytes@),
{
    let len: usize = bytes.len();
    let n: usize = len / 2;
    let mut out: Vec<u16> = Vec::new();
    let mut i: usize = 0;
    while i < n
        invariant
            len == bytes@.len(),
            n == bytes@.len() / 2,
            0 <= i <= n,
            out@.len() == i,
            forall|j: int| 0 <= j < i ==> out@[j] == be_pairs(bytes@)[j],
        decreases n - i,
    {
        proof {
            assert(2 * (n as int) <= bytes@.len());
            assert(2 * (i as int) + 1 < bytes@.len());
        }
        let idx: usize = 2 * i;
        let hi = bytes[idx];
        let lo = bytes[idx + 1];
        let v: u16 = (hi as u16) * 256 + (lo as u16);
        out.push(v);
        i = i + 1;
    }
    proof {
        assert(out@ =~= be_pairs(bytes@));
    }
    out
}

/// Whether a decoded frame is one this viewer accepts: it decodes, has
/// 16-bit depth, nonzero dimensions, and one 16-bit sample per pixel.
pub open spec fn acceptable_frame(frame: (bool, Seq<u8>, nat, nat, nat)) -> bool {
    &&& frame.0
    &&& frame.4 == 16
    &&& frame.2 > 0
    &&& frame.3 > 0
    &&& be_pairs(frame.1).len() == frame.2 * frame.3
}

/// Decode a 16-bit grayscale PNG into its samples, width and height.
///
/// The byte stream must decode as a PNG of 16-bit depth whose frame
/// holds exactly width × height samples; each violation is reported as
/// its own error, in that order of checks.
pub fn decode_png(data: &[u8]) -> (r: Result<(Vec<u16>, u32, u32), PngError>)
    ensures
        ({
            let frame = png_frame_of(data@);
            &&& !frame.0 ==> r == Err::<(Vec<u16>, u32, u32), PngError>(PngError::Decode)
            &&& frame.0 && frame.4 != 16 ==> r == Err::<(Vec<u16>, u32, u32), PngError>(
                PngError::UnsupportedBitDepth,
            )
            &&& frame.0 && frame.4 == 16 && !acceptable_frame(frame) ==> r == Err::<
                (Vec<u16>, u32, u32),
                PngError,
            >(PngError::Dimensions)
            &&& acceptable_frame(frame) ==> (r matches Ok(d) && d.0@ == be_pairs(frame.1)
                && d.1 as nat == frame.2 && d.2 as nat == frame.3 && d.0@.len() > 0)
        }),
{
    match decode_frame_raw(data) {
        Option::None => Err(PngError::Decode),
        Option::Some((payload, width, height, depth)) => {
            if depth != 16 {
                return Err(PngError::UnsupportedBitDepth);
            }
            let samples = bytes_be_to_u16(payload.as_slice());
            if width == 0 || height == 0 {
                return Err(PngError::Dimensions);
            }
            proof {
                assert((width as int) * (height as int) <= 0xffff_ffff * 0xffff_ffff)
                    by (nonlinear_arith)
                    requires
                        0 <= width <= 0xffff_ffffu32,
                        0 <= height <= 0xffff_ffffu32,
                ;
            }
            let expected: u64 = (width as u64) * (height as u64);
            if (samples.len() as u64) != expected {
                return Err(PngError::Dimensions);
            }
            proof {
                assert((width as int) * (height as int) > 0) by (nonlinear_arith)
                    requires
                        width > 0,
                        height > 0,
                ;
            }
            Ok((samples, width, height))
        },
    }
}

/// Encode an 8-bit grayscale payload as a PNG byte stream.
///
/// The payload must hold exactly one byte per pixel of a nonzero-sized
/// image; anything else is rejected before the encoder runs. A payload
/// the encoder itself refuses is reported as an encode error.
pub fn encode_png_gray8(buffer: &[u8], width: u32, height: u32) -> (r: Result<Vec<u8>, PngError>)
    ensures
        !(width > 0 && height > 0 && buffer@.len() == (width as nat) * (height as nat)) ==> r
            == Err::<Vec<u8>, PngError>(PngError::Dimensions),
        width > 0 && height > 0 && buffer@.len() == (width as nat) * (height as nat) ==> (match r {
            Ok(v) => v@ == png_gray8_encoding(buffer@, width as nat, height as nat),
            Err(e) => e == PngError::Encode,
        }),
{
    if width == 0 || height == 0 {
        return Err(PngError::Dimensions);
    }
    proof {
        assert((width as int) * (height as int) <= 0xffff_ffff * 0xffff_ffff) by (nonlinear_arith)
            requires
                0 <= width <= 0xffff_ffffu32,
                0 <= height <= 0xffff_ffffu32,
        ;
    }
    let expected: u64 = (width as u64) * (height as u64);
    if (buffer.len() as u64) != expected {
        return Err(PngError::Dimensions);
    }
    match encode_gray8_raw(buffer, width, height) {
        Option::Some(v) => Ok(v),
        Option::None => Err(PngError::Encode),
    }
}

} // verus!

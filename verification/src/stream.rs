//! What is known of a video stream, and how its output is set up.

use vstd::prelude::*;

verus! {

/// The code of the codec that every output is written with: `mp4v`.
pub const OUTPUT_FOURCC: i32 = 0x7634_706d;

/// Metadata of an input stream, taken once when the stream is opened.
#[derive(Clone, Copy, Debug, PartialEq, Eq, Structural)]
pub struct VideoStreamDescriptor {
    /// Width of every frame, in pixels.
    pub width: i32,
    /// Height of every frame, in pixels.
    pub height: i32,
    /// Frames per second, as the bit pattern of the 64-bit float that the
    /// decoder reported. It is carried through unchanged.
    pub fps_bits: u64,
    /// Number of frames that the container announces. It may be inexact; zero
    /// or less means that the number is unknown.
    pub frame_count: i64,
}

impl VideoStreamDescriptor {
    /// Whether the length of the stream is announced.
    pub open spec fn has_known_length(self) -> bool {
        self.frame_count > 0
    }
}

/// How the output stream is opened.
#[derive(Clone, Copy, Debug, PartialEq, Eq, Structural)]
pub struct SinkFormat {
    pub fourcc: i32,
    pub fps_bits: u64,
    pub width: i32,
    pub height: i32,
    pub is_color: bool,
}

/// The word that four code bytes make, the first byte lowest.
pub open spec fn packed(c1: u8, c2: u8, c3: u8, c4: u8) -> int {
    c1 as int + 256 * (c2 as int) + 65536 * (c3 as int) + 16777216 * (c4 as int)
}

/// The codec identifier of four code bytes: the bytes packed into one word,
/// read as a signed 32-bit number.
pub open spec fn fourcc_of(c1: u8, c2: u8, c3: u8, c4: u8) -> int {
    if packed(c1, c2, c3, c4) < 0x8000_0000 {
        packed(c1, c2, c3, c4)
    } else {
        packed(c1, c2, c3, c4) - 0x1_0000_0000
    }
}

/// Packs four code bytes into a codec identifier.
pub fn fourcc(c1: u8, c2: u8, c3: u8, c4: u8) -> (code: i32)
    ensures
        code == fourcc_of(c1, c2, c3, c4),
{
    let word: i64 = c1 as i64 + 256 * (c2 as i64) + 65536 * (c3 as i64) + 16777216 * (c4 as i64);
    if word < 0x8000_0000 {
        word as i32
    } else {
        (word - 0x1_0000_0000) as i32
    }
}

/// The fixed output codec is the code of the bytes `m`, `p`, `4`, `v`.
pub proof fn lemma_output_fourcc()
    ensures
        OUTPUT_FOURCC == fourcc_of(0x6d, 0x70, 0x34, 0x76),
{
}

impl SinkFormat {
    /// The output of a stream has the size and the frame rate of the stream,
    /// is in color, and is written with the fixed codec, whatever the codec
    /// of the input.
    pub fn for_stream(stream: &VideoStreamDescriptor) -> (format: SinkFormat)
        ensures
            format == (SinkFormat {
                fourcc: OUTPUT_FOURCC,
                fps_bits: stream.fps_bits,
                width: stream.width,
                height: stream.height,
                is_color: true,
            }),
    {
        SinkFormat {
            fourcc: OUTPUT_FOURCC,
            fps_bits: stream.fps_bits,
            width: stream.width,
            height: stream.height,
            is_color: true,
        }
    }
}

} // verus!

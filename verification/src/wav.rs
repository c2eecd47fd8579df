//! The reference-waveform container.
//!
//! The engine needs two things from a WAV container: how many samples per
//! channel its data chunk holds (which fixes the window length), and the
//! decoded samples themselves.  The chunk scan is implemented and verified
//! here on raw bytes; the full sample decode is delegated to the `hound`
//! crate behind a trusted boundary, and everything derived from the decoded
//! samples is verified again on this side.

use vstd::prelude::*;

use crate::capture::le_u32_value;
use crate::dsp::Target;
use crate::dsp::TemplateError;

verus! {

/// The unsigned value of two little-endian bytes at position `i`.
pub open spec fn le_u16_at(b: Seq<u8>, i: int) -> int
    recommends
        0 <= i,
        i + 2 <= b.len(),
{
    (b[i] as int) + 256 * (b[i + 1] as int)
}

/// The unsigned value of four little-endian bytes at position `i`.
pub open spec fn le_u32_at(b: Seq<u8>, i: int) -> int
    recommends
        0 <= i,
        i + 4 <= b.len(),
{
    le_u32_value(b[i], b[i + 1], b[i + 2], b[i + 3])
}

/// The container's channel count, from the format chunk.
pub open spec fn wav_channel_count(b: Seq<u8>) -> int {
    le_u16_at(b, 22)
}

/// The container's bits per sample, from the format chunk.
pub open spec fn wav_bits_per_sample(b: Seq<u8>) -> int {
    le_u16_at(b, 34)
}

/// Whether the chunk starting at `off` is the data chunk (its identifier is
/// the four bytes `data`).
pub open spec fn is_data_chunk(b: Seq<u8>, off: int) -> bool
    recommends
        0 <= off,
        off + 4 <= b.len(),
{
    &&& b[off] == 0x64u8
    &&& b[off + 1] == 0x61u8
    &&& b[off + 2] == 0x74u8
    &&& b[off + 3] == 0x61u8
}

/// The byte size of the data chunk found by scanning the chunk list from
/// `off`, or nothing if the scan runs off the container's end first.  Each
/// chunk is an 8-byte header (identifier and size) followed by `size` bytes
/// of content.
pub open spec fn data_chunk_size_from(b: Seq<u8>, off: int) -> Option<int>
    decreases vstd::math::max(b.len() - off, 0),
{
    if off + 8 >= b.len() {
        None
    } else if is_data_chunk(b, off) {
        Some(le_u32_at(b, off + 4))
    } else {
        data_chunk_size_from(b, off + 8 + le_u32_at(b, off + 4))
    }
}

/// The sample count the container advertises: the data chunk's size divided
/// by the size of one frame (channel count times bytes per sample), or zero
/// if there is no data chunk.  The chunk list starts at byte 12, after the
/// RIFF and WAVE identifiers.
pub open spec fn wav_sample_count(b: Seq<u8>) -> int {
    match data_chunk_size_from(b, 12) {
        Some(size) => size / (wav_channel_count(b) * (wav_bits_per_sample(b) / 8)),
        None => 0,
    }
}

/// Scans the container's chunk list for the data chunk and returns how many
/// samples it holds; zero when no data chunk is found.  The header must be
/// present (at least 36 bytes) and plausible: at least one channel and at
/// least eight bits per sample, since otherwise a frame has no bytes at all.
/// RIFF chunk sizes are 32-bit, so a container larger than that bound cannot
/// be well formed and is not accepted.
pub fn target_sample_count(data: &[u8]) -> (count: u32)
    requires
        36 <= data@.len() < 0x1_0000_0000,
        wav_channel_count(data@) > 0,
        wav_bits_per_sample(data@) >= 8,
    ensures
        count as int == wav_sample_count(data@),
{
    let num_channels: u32 = data[22] as u32 + 256 * (data[23] as u32);
    let bits_per_sample: u32 = data[34] as u32 + 256 * (data[35] as u32);
    let bytes_per_sample: u32 = bits_per_sample / 8;
    let len: u64 = data.len() as u64;
    let mut offset: u64 = 12;
    while offset < len - 8
        invariant
            12 <= offset,
            36 <= data@.len() < 0x1_0000_0000,
            len == data@.len(),
            num_channels as int == wav_channel_count(data@) > 0,
            bits_per_sample as int == wav_bits_per_sample(data@) >= 8,
            bytes_per_sample as int == wav_bits_per_sample(data@) / 8,
            data_chunk_size_from(data@, 12) == data_chunk_size_from(data@, offset as int),
        decreases vstd::math::max(len - offset, 0),
    {
        let o = offset as usize;
        let chunk_size: u32 = data[o + 4] as u32 + 256 * (data[o + 5] as u32) + 65536 * (data[o
            + 6] as u32) + 16777216 * (data[o + 7] as u32);
        if data[o] == 0x64 && data[o + 1] == 0x61 && data[o + 2] == 0x74 && data[o + 3] == 0x61 {
            proof {
                assert(0 < num_channels <= 0xffff);
                assert(0 < bytes_per_sample <= 0x1fff);
                assert(0 < (num_channels as int) * (bytes_per_sample as int) <= 0xffff * 0x1fff)
                    by (nonlinear_arith)
                    requires
                        0 < (num_channels as int) && (num_channels as int) <= 0xffff,
                        0 < (bytes_per_sample as int) && (bytes_per_sample as int) <= 0x1fff,
                ;
            }
            return chunk_size / (num_channels * bytes_per_sample);
        }
        offset = offset + 8 + chunk_size as u64;
    }
    0
}

/// What the samples of a WAV container are, when it parses at all: a
/// function of the bytes alone.
pub uninterp spec fn wav_decode(bytes: Seq<u8>) -> Option<Seq<i32>>;

/// Relies on `hound::WavReader` reading from an in-memory buffer: whether the
/// container parses, and which integer samples it then yields, depend on the
/// bytes alone.
#[verifier::external_body]
fn decode_wav_samples(bytes: &Vec<u8>) -> (r: Option<Vec<i32>>)
    ensures
        match r {
            Some(v) => wav_decode(bytes@) == Some(v@),
            None => wav_decode(bytes@) is None,
        },
{
    let reader = match hound::WavReader::new(std::io::Cursor::new(bytes.as_slice())) {
        Ok(reader) => reader,
        Err(_) => return None,
    };
    let samples: Result<Vec<i32>, _> = reader.into_samples::<i32>().collect();
    samples.ok()
}

/// The ways building a template out of a WAV container can fail.
#[derive(Clone, Copy, Debug, PartialEq, Eq, Structural)]
pub enum WavError {
    /// The bytes are not a WAV container `hound` can decode into integer
    /// samples.
    Unreadable,
    /// The container decoded, but its samples make no usable template.
    Template { error: TemplateError },
}

impl Target {
    /// Builds the reference template straight from the bytes of a WAV
    /// container: decodes the samples, then validates them and precomputes
    /// their energy exactly as `Target::new` does.
    pub fn from_wav_bytes(bytes: &Vec<u8>) -> (r: Result<Target, WavError>)
        ensures
            match r {
                Ok(t) => {
                    &&& wav_decode(bytes@) matches Some(s) && t@ == s
                    &&& t.wf()
                },
                Err(e) => match e {
                    WavError::Unreadable => wav_decode(bytes@) is None,
                    WavError::Template { error } => {
                        &&& wav_decode(bytes@) matches Some(s) && match error {
                            TemplateError::Empty => s.len() == 0,
                            TemplateError::TooLong => s.len() > crate::dsp::MAX_TEMPLATE_LEN,
                            TemplateError::Silent => 0 < s.len() <= crate::dsp::MAX_TEMPLATE_LEN
                                && crate::dsp::energy(s) == 0,
                        }
                    },
                },
            },
    {
        match decode_wav_samples(bytes) {
            None => Err(WavError::Unreadable),
            Some(samples) => match Target::new(samples) {
                Ok(target) => Ok(target),
                Err(error) => Err(WavError::Template { error }),
            },
        }
    }
}

} // verus!

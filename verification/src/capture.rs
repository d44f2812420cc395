//! Integer bookkeeping of the microphone capture: which bytes of a buffer
//! hold audio, the stream format's fallbacks, and where each sample of an
//! interleaved 32-bit float frame lies. Decoding and resampling the samples
//! themselves is floating-point work left to the caller.

use vstd::prelude::*;

verus! {

/// The byte range of a buffer that holds the chunk: from `offset` for
/// `size` bytes, cut at the end of the `len` bytes mapped; `None` when the
/// offset lies past the end.
pub fn chunk_bounds(offset: usize, size: usize, len: usize) -> (r: Option<(usize, usize)>)
    ensures
        r == (if offset >= len {
            None
        } else {
            Some((offset, if offset + size < len { (offset + size) as usize } else { len }))
        }),
        r matches Some((start, end)) ==> start <= end <= len,
{
    if offset >= len {
        return None;
    }
    let end = offset.saturating_add(size);
    let end = if end < len {
        end
    } else {
        len
    };
    Some((offset, end))
}

/// The channel count to use: the negotiated one, at least 1.
pub fn effective_channels(channels: u32) -> (n: usize)
    ensures
        n == (if channels == 0 { 1 } else { channels as int }),
{
    if channels == 0 {
        1
    } else {
        channels as usize
    }
}

/// The sample rate to use: the negotiated one, or 48 kHz if none was.
pub fn effective_rate(rate: u32) -> (n: usize)
    ensures
        n == (if rate == 0 { 48000 } else { rate as int }),
{
    if rate == 0 {
        48000
    } else {
        rate as usize
    }
}

/// Bytes of one 32-bit float sample.
pub const SAMPLE_BYTES: usize = 4;

/// How `bytes_len` bytes of interleaved samples divide into frames:
/// `(bytes per frame, whole frames)`, or `None` when nothing can be read
/// (no channels, no rate, or not one whole frame).
pub fn frame_layout(bytes_len: usize, channels: usize, input_rate: usize) -> (r: Option<(usize, usize)>)
    requires
        channels * SAMPLE_BYTES <= usize::MAX,
    ensures
        match r {
            Some((frame_bytes, frames)) => {
                &&& channels > 0 && input_rate > 0
                &&& frame_bytes == channels * SAMPLE_BYTES
                &&& frames == bytes_len / frame_bytes
                &&& frames > 0
                &&& frames * frame_bytes <= bytes_len
            },
            None => channels == 0 || input_rate == 0 || bytes_len < channels * SAMPLE_BYTES,
        },
{
    if channels == 0 || input_rate == 0 {
        return None;
    }
    let frame_bytes = channels * SAMPLE_BYTES;
    let frames = bytes_len / frame_bytes;
    if frames == 0 {
        proof {
            assert(bytes_len < frame_bytes) by (nonlinear_arith)
                requires
                    frames == bytes_len / frame_bytes,
                    frames == 0,
                    frame_bytes > 0,
            ;
        }
        return None;
    }
    proof {
        assert(frames * frame_bytes <= bytes_len) by (nonlinear_arith)
            requires
                frames == bytes_len / frame_bytes,
                frame_bytes > 0,
        ;
    }
    Some((frame_bytes, frames))
}

/// Where sample `ch` of frame `frame` starts; its four bytes lie inside
/// the buffer.
pub fn sample_offset(frame: usize, ch: usize, frame_bytes: usize, frames: usize, bytes_len: usize) -> (o: usize)
    requires
        frame < frames,
        frame_bytes % SAMPLE_BYTES == 0,
        ch < frame_bytes / SAMPLE_BYTES,
        frames * frame_bytes <= bytes_len,
    ensures
        o == frame * frame_bytes + ch * SAMPLE_BYTES,
        o + SAMPLE_BYTES <= bytes_len,
{
    proof {
        assert(frame * frame_bytes + ch * SAMPLE_BYTES + SAMPLE_BYTES <= bytes_len) by (nonlinear_arith)
            requires
                frame < frames,
                frame_bytes % 4 == 0,
                ch < frame_bytes / 4,
                frames * frame_bytes <= bytes_len,
                SAMPLE_BYTES == 4,
        ;
    }
    frame * frame_bytes + ch * SAMPLE_BYTES
}

} // verus!

//! The shape of the synthesized waveform: its fixed format, how many samples a
//! sweep of a given duration holds, and the name of the file it is stored in.

use vstd::prelude::*;
use vstd::string::*;

verus! {

/// Samples per second of the audio.
pub const SAMPLE_RATE: u32 = 44100;

/// The waveform is mono.
pub const CHANNELS: u16 = 1;

/// Each sample is one signed 16-bit integer.
pub const BITS_PER_SAMPLE: u16 = 16;

/// Number of samples in a sweep lasting `duration` seconds: one per tick of
/// the sample clock, with no partial frame at the end.
pub open spec fn sample_count_spec(duration: nat) -> nat {
    duration * (SAMPLE_RATE as nat)
}

/// Counts the samples of a sweep lasting `duration` seconds.
///
/// The result is wide enough for every `u32` duration, so the product never
/// wraps. A sweep of zero seconds holds no samples.
pub fn sample_count(duration: u32) -> (count: u64)
    ensures
        count as nat == sample_count_spec(duration as nat),
        duration == 0 <==> count == 0,
{
    assert({
        &&& duration as nat * (SAMPLE_RATE as nat) <= 0xffff_ffff * 44100
        &&& (duration as nat * (SAMPLE_RATE as nat) == 0 <==> duration == 0)
    }) by (nonlinear_arith)
        requires
            duration <= 0xffff_ffff,
            SAMPLE_RATE == 44100,
    ;
    (duration as u64) * (SAMPLE_RATE as u64)
}

/// Extension of the file that holds the waveform.
pub open spec fn wav_extension() -> Seq<char> {
    ".wav"@
}

/// Names the file that a sweep with the accepted name `stem` is written to:
/// the stem as it is, followed by the extension.
pub fn output_file_name(stem: &str) -> (path: String)
    ensures
        path@ == stem@ + wav_extension(),
{
    let mut path = String::from_str(stem);
    path.append(".wav");
    path
}

} // verus!

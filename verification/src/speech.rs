//! Settings of the speech service that are plain arithmetic and choice.

use crate::deps::{strip_trailing, without_trailing};
use vstd::prelude::*;
use vstd::string::StringExecFns;

verus! {

/// The number of samples in one chunk of audio: the samples of all channels
/// in `chunk_ms` milliseconds, rounded down.
pub open spec fn chunk_samples(sample_rate: u32, channels: u16, chunk_ms: u64) -> int {
    (sample_rate as int * channels as int * chunk_ms as int) / 1000
}

/// Counts the samples in one chunk, in a width that holds every count.
fn samples_in_chunk(sample_rate: u32, channels: u16, chunk_ms: u64) -> (samples: u128)
    ensures
        samples == chunk_samples(sample_rate, channels, chunk_ms),
{
    assert(sample_rate as int * channels as int <= 0xffff_ffff * 0xffff) by (nonlinear_arith)
        requires
            0 <= sample_rate <= 0xffff_ffff,
            0 <= channels <= 0xffff,
    ;
    let per_second: u64 = sample_rate as u64 * channels as u64;
    assert(per_second as int * chunk_ms as int <= 0xffff_ffff * 0xffff * 0xffff_ffff_ffff_ffff)
        by (nonlinear_arith)
        requires
            0 <= per_second <= 0xffff_ffff * 0xffff,
            0 <= chunk_ms <= 0xffff_ffff_ffff_ffff,
    ;
    per_second as u128 * chunk_ms as u128 / 1000
}

/// How audio is cut into chunks.
#[derive(Clone, Copy, Debug, PartialEq, Eq)]
pub struct AudioIO {
    sample_rate: u32,
    channels: u16,
    chunk_size: usize,
}

impl AudioIO {
    /// Settings for `channels` channels at `sample_rate` samples a second,
    /// cut into chunks of `chunk_ms` milliseconds. The size of a chunk has to
    /// fit in a `usize`.
    pub fn new(sample_rate: u32, channels: u16, chunk_ms: u64) -> (audio: AudioIO)
        requires
            chunk_samples(sample_rate, channels, chunk_ms) <= usize::MAX,
        ensures
            audio.sample_rate() == sample_rate,
            audio.channels() == channels,
            audio.chunk_size() == chunk_samples(sample_rate, channels, chunk_ms),
    {
        let samples = samples_in_chunk(sample_rate, channels, chunk_ms);
        AudioIO { sample_rate, channels, chunk_size: samples as usize }
    }

    /// Like `new`, for any input: nothing where the size of a chunk does not
    /// fit in a `usize`.
    pub fn checked_new(sample_rate: u32, channels: u16, chunk_ms: u64) -> (made: Option<AudioIO>)
        ensures
            made is Some <==> chunk_samples(sample_rate, channels, chunk_ms) <= usize::MAX,
            made matches Some(audio) ==> {
                &&& audio.sample_rate() == sample_rate
                &&& audio.channels() == channels
                &&& audio.chunk_size() == chunk_samples(sample_rate, channels, chunk_ms)
            },
    {
        let samples = samples_in_chunk(sample_rate, channels, chunk_ms);
        if samples <= usize::MAX as u128 {
            Some(AudioIO::new(sample_rate, channels, chunk_ms))
        } else {
            None
        }
    }

    /// Samples a second.
    pub closed spec fn sample_rate(&self) -> u32 {
        self.sample_rate
    }

    /// Channels.
    pub closed spec fn channels(&self) -> u16 {
        self.channels
    }

    /// Samples in a chunk.
    pub closed spec fn chunk_size(&self) -> usize {
        self.chunk_size
    }

    /// Samples a second.
    pub fn get_sample_rate(&self) -> (rate: u32)
        ensures
            rate == self.sample_rate(),
    {
        self.sample_rate
    }

    /// Channels.
    pub fn get_channels(&self) -> (channels: u16)
        ensures
            channels == self.channels(),
    {
        self.channels
    }

    /// Samples in a chunk.
    pub fn get_chunk_size(&self) -> (size: usize)
        ensures
            size == self.chunk_size(),
    {
        self.chunk_size
    }
}

/// Where the key of the speech provider comes from: the one given on the
/// command line, else the one in the environment.
pub open spec fn chosen_key(from_args: Option<String>, from_env: Option<String>) -> Option<
    String,
> {
    match from_args {
        Some(key) => Some(key),
        None => from_env,
    }
}

/// Why the speech service cannot start.
#[derive(Clone, Copy, Debug, PartialEq, Eq, Structural)]
pub enum SpeechError {
    /// No key was given, neither on the command line nor in the environment.
    MissingApiKey,
}

/// Picks the key of the speech provider.
pub fn resolve_api_key(from_args: Option<String>, from_env: Option<String>) -> (key: Result<
    String,
    SpeechError,
>)
    ensures
        match chosen_key(from_args, from_env) {
            Some(chosen) => key == Ok::<String, SpeechError>(chosen),
            None => key == Err::<String, SpeechError>(SpeechError::MissingApiKey),
        },
{
    match from_args {
        Some(key) => Ok(key),
        None => match from_env {
            Some(key) => Ok(key),
            None => Err(SpeechError::MissingApiKey),
        },
    }
}

/// The address at which the core takes transcripts, for the address of the
/// core: slashes at its end are dropped before the route is added.
pub open spec fn transcript_address(core_endpoint: Seq<char>) -> Seq<char> {
    without_trailing(core_endpoint, '/') + "/v1/transcript"@
}

/// Makes the address at which the core takes transcripts.
pub fn transcript_url(core_endpoint: &str) -> (url: String)
    ensures
        url@ == transcript_address(core_endpoint@),
{
    let base = strip_trailing(core_endpoint, '/');
    base.to_owned().concat("/v1/transcript")
}

} // verus!

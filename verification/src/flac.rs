use crate::duration::Duration;
use crate::properties::FileProperties;
use vstd::prelude::*;

verus! {

/// A FLAC file's audio properties
#[derive(Debug, Clone, PartialEq, Eq)]
pub struct FlacProperties {
    /// Duration of the audio.
    pub duration: Duration,
    /// Overall bitrate (kbps).
    pub overall_bitrate: u32,
    /// Audio bitrate (kbps).
    pub audio_bitrate: u32,
    /// Sample rate (Hz).
    pub sample_rate: u32,
    /// Bits per sample.
    pub bit_depth: u8,
    /// Channel count.
    pub channels: u8,
    /// The MD5 signature of the unencoded audio data.
    pub signature: u128,
}

impl FlacProperties {
    /// Create a new `FlacProperties`
    #[must_use]
    pub fn new(
        duration: Duration,
        overall_bitrate: u32,
        audio_bitrate: u32,
        sample_rate: u32,
        bit_depth: u8,
        channels: u8,
        signature: u128,
    ) -> (r: Self)
        ensures
            r == (FlacProperties {
                duration,
                overall_bitrate,
                audio_bitrate,
                sample_rate,
                bit_depth,
                channels,
                signature,
            }),
    {
        Self { duration, overall_bitrate, audio_bitrate, sample_rate, bit_depth, channels,
            signature }
    }

    /// The format-agnostic view of these properties. FLAC carries no
    /// channel mask in its stream information.
    #[must_use]
    pub fn file_properties(&self) -> (r: FileProperties)
        ensures
            r == (FileProperties {
                duration: self.duration,
                overall_bitrate: Some(self.overall_bitrate),
                audio_bitrate: Some(self.audio_bitrate),
                sample_rate: Some(self.sample_rate),
                bit_depth: Some(self.bit_depth),
                channels: Some(self.channels),
                channel_mask: None,
            }),
    {
        FileProperties::new(
            self.duration,
            Some(self.overall_bitrate),
            Some(self.audio_bitrate),
            Some(self.sample_rate),
            Some(self.bit_depth),
            Some(self.channels),
            None,
        )
    }
}

} // verus!

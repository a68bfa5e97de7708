use crate::duration::Duration;
use crate::properties::FileProperties;
use vstd::prelude::*;

verus! {

/// A Monkey's Audio file's audio properties
#[derive(Debug, Clone, PartialEq, Eq)]
pub struct ApeProperties {
    /// The encoder version, multiplied by one thousand.
    pub version: u16,
    /// Duration of the audio.
    pub duration: Duration,
    /// Overall bitrate (kbps).
    pub overall_bitrate: u32,
    /// Audio bitrate (kbps).
    pub audio_bitrate: u32,
    /// Sample rate (Hz).
    pub sample_rate: u32,
    /// Bits per sample.
    pub bit_depth: u8,
    /// Channel count.
    pub channels: u8,
}

impl ApeProperties {
    /// Create a new `ApeProperties`
    #[must_use]
    pub fn new(
        version: u16,
        duration: Duration,
        overall_bitrate: u32,
        audio_bitrate: u32,
        sample_rate: u32,
        bit_depth: u8,
        channels: u8,
    ) -> (r: Self)
        ensures
            r == (ApeProperties {
                version,
                duration,
                overall_bitrate,
                audio_bitrate,
                sample_rate,
                bit_depth,
                channels,
            }),
    {
        Self { version, duration, overall_bitrate, audio_bitrate, sample_rate, bit_depth,
            channels }
    }

    /// The format-agnostic view of these properties. Monkey's Audio
    /// carries no channel mask.
    #[must_use]
    pub fn file_properties(&self) -> (r: FileProperties)
        ensures
            r == (FileProperties {
                duration: self.duration,
                overall_bitrate: Some(self.overall_bitrate),
                audio_bitrate: Some(self.audio_bitrate),
                sample_rate: Some(self.sample_rate),
                bit_depth: Some(self.bit_depth),
                channels: Some(self.channels),
                channel_mask: None,
            }),
    {
        FileProperties::new(
            self.duration,
            Some(self.overall_bitrate),
            Some(self.audio_bitrate),
            Some(self.sample_rate),
            Some(self.bit_depth),
            Some(self.channels),
            None,
        )
    }
}

} // verus!

use crate::duration::Duration;
use crate::properties::FileProperties;
use vstd::prelude::*;

verus! {

/// An AIFF file's audio properties
#[derive(Debug, Clone, PartialEq, Eq)]
pub struct AiffProperties {
    /// Duration of the audio.
    pub duration: Duration,
    /// Overall bitrate (kbps).
    pub overall_bitrate: u32,
    /// Audio bitrate (kbps).
    pub audio_bitrate: u32,
    /// Sample rate (Hz).
    pub sample_rate: u32,
    /// Bits per sample point.
    pub sample_size: u8,
    /// Channel count.
    pub channels: u8,
    /// The compression name of an AIFF-C file, where one is present.
    pub compression_type: Option<String>,
}

impl AiffProperties {
    /// Create a new `AiffProperties`
    #[must_use]
    pub fn new(
        duration: Duration,
        overall_bitrate: u32,
        audio_bitrate: u32,
        sample_rate: u32,
        sample_size: u8,
        channels: u8,
        compression_type: Option<String>,
    ) -> (r: Self)
        ensures
            r == (AiffProperties {
                duration,
                overall_bitrate,
                audio_bitrate,
                sample_rate,
                sample_size,
                channels,
                compression_type,
            }),
    {
        Self { duration, overall_bitrate, audio_bitrate, sample_rate, sample_size, channels,
            compression_type }
    }

    /// The format-agnostic view of these properties. The sample size is
    /// the bit depth; AIFF carries no channel mask.
    #[must_use]
    pub fn file_properties(&self) -> (r: FileProperties)
        ensures
            r == (FileProperties {
                duration: self.duration,
                overall_bitrate: Some(self.overall_bitrate),
                audio_bitrate: Some(self.audio_bitrate),
                sample_rate: Some(self.sample_rate),
                bit_depth: Some(self.sample_size),
                channels: Some(self.channels),
                channel_mask: None,
            }),
    {
        FileProperties::new(
            self.duration,
            Some(self.overall_bitrate),
            Some(self.audio_bitrate),
            Some(self.sample_rate),
            Some(self.sample_size),
            Some(self.channels),
            None,
        )
    }
}

} // verus!

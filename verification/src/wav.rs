use crate::duration::Duration;
use crate::properties::{ChannelMask, FileProperties};
use vstd::prelude::*;

verus! {

/// The encoding of a WAV file's audio data.
#[derive(Debug, Clone, Copy, PartialEq, Eq, Hash, Structural)]
pub enum WavFormat {
    /// Uncompressed integer PCM
    PCM,
    /// Floating-point PCM
    IeeeFloat,
    /// The extensible format, with the real encoding in its extension
    Extensible,
    /// Another encoding, by its format-tag value
    Other(u16),
}

/// A WAV file's audio properties
#[derive(Debug, Clone, PartialEq, Eq)]
pub struct WavProperties {
    /// The encoding of the audio data.
    pub format: WavFormat,
    /// Duration of the audio.
    pub duration: Duration,
    /// Overall bitrate (kbps).
    pub overall_bitrate: u32,
    /// Audio bitrate (kbps).
    pub audio_bitrate: u32,
    /// Sample rate (Hz).
    pub sample_rate: u32,
    /// Bits per sample.
    pub bit_depth: u8,
    /// Channel count.
    pub channels: u8,
    /// The channel mask of an extensible-format file, where one is
    /// present.
    pub channel_mask: Option<ChannelMask>,
}

impl WavProperties {
    /// Create a new `WavProperties`
    #[must_use]
    pub fn new(
        format: WavFormat,
        duration: Duration,
        overall_bitrate: u32,
        audio_bitrate: u32,
        sample_rate: u32,
        bit_depth: u8,
        channels: u8,
        channel_mask: Option<ChannelMask>,
    ) -> (r: Self)
        ensures
            r == (WavProperties {
                format,
                duration,
                overall_bitrate,
                audio_bitrate,
                sample_rate,
                bit_depth,
                channels,
                channel_mask,
            }),
    {
        Self { format, duration, overall_bitrate, audio_bitrate, sample_rate, bit_depth,
            channels, channel_mask }
    }

    /// The format-agnostic view of these properties.
    #[must_use]
    pub fn file_properties(&self) -> (r: FileProperties)
        ensures
            r == (FileProperties {
                duration: self.duration,
                overall_bitrate: Some(self.overall_bitrate),
                audio_bitrate: Some(self.audio_bitrate),
                sample_rate: Some(self.sample_rate),
                bit_depth: Some(self.bit_depth),
                channels: Some(self.channels),
                channel_mask: self.channel_mask,
            }),
    {
        FileProperties::new(
            self.duration,
            Some(self.overall_bitrate),
            Some(self.audio_bitrate),
            Some(self.sample_rate),
            Some(self.bit_depth),
            Some(self.channels),
            self.channel_mask,
        )
    }
}

} // verus!

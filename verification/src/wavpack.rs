use crate::duration::Duration;
use crate::properties::{ChannelMask, FileProperties};
use vstd::prelude::*;

verus! {

/// A WavPack file's audio properties
#[derive(Debug, Clone, PartialEq, Eq)]
pub struct WavPackProperties {
    /// The WavPack stream version.
    pub version: u16,
    /// Duration of the audio.
    pub duration: Duration,
    /// Overall bitrate (kbps).
    pub overall_bitrate: u32,
    /// Audio bitrate (kbps).
    pub audio_bitrate: u32,
    /// Sample rate (Hz).
    pub sample_rate: u32,
    /// Channel count.
    pub channels: u8,
    /// The channel mask of the stream.
    pub channel_mask: ChannelMask,
    /// Bits per sample.
    pub bit_depth: u8,
    /// Whether the file is losslessly compressed.
    pub lossless: bool,
}

impl WavPackProperties {
    /// Create a new `WavPackProperties`
    #[must_use]
    pub fn new(
        version: u16,
        duration: Duration,
        overall_bitrate: u32,
        audio_bitrate: u32,
        sample_rate: u32,
        channels: u8,
        channel_mask: ChannelMask,
        bit_depth: u8,
        lossless: bool,
    ) -> (r: Self)
        ensures
            r == (WavPackProperties {
                version,
                duration,
                overall_bitrate,
                audio_bitrate,
                sample_rate,
                channels,
                channel_mask,
                bit_depth,
                lossless,
            }),
    {
        Self {
            version,
            duration,
            overall_bitrate,
            audio_bitrate,
            sample_rate,
            channels,
            channel_mask,
            bit_depth,
            lossless,
        }
    }

    /// The format-agnostic view of these properties.
    #[must_use]
    pub fn file_properties(&self) -> (r: FileProperties)
        ensures
            r == (FileProperties {
                duration: self.duration,
                overall_bitrate: Some(self.overall_bitrate),
                audio_bitrate: Some(self.audio_bitrate),
                sample_rate: Some(self.sample_rate),
                bit_depth: Some(self.bit_depth),
                channels: Some(self.channels),
                channel_mask: Some(self.channel_mask),
            }),
    {
        FileProperties::new(
            self.duration,
            Some(self.overall_bitrate),
            Some(self.audio_bitrate),
            Some(self.sample_rate),
            Some(self.bit_depth),
            Some(self.channels),
            Some(self.channel_mask),
        )
    }
}

} // verus!

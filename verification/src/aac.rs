use crate::duration::Duration;
use crate::mp4::AudioObjectType;
use crate::mpeg::MpegVersion;
use crate::properties::FileProperties;
use vstd::prelude::*;

verus! {

/// An ADTS AAC stream's audio properties
#[derive(Debug, Clone, PartialEq, Eq)]
pub struct AACProperties {
    /// The MPEG version of the ADTS header.
    pub version: MpegVersion,
    /// The audio object type of the stream.
    pub audio_object_type: AudioObjectType,
    /// Duration of the audio.
    pub duration: Duration,
    /// Overall bitrate (kbps).
    pub overall_bitrate: u32,
    /// Audio bitrate (kbps).
    pub audio_bitrate: u32,
    /// Sample rate (Hz).
    pub sample_rate: u32,
    /// Channel count.
    pub channels: u8,
    /// Whether the stream is marked copyrighted.
    pub copyright: bool,
    /// Whether the stream is marked as an original.
    pub original: bool,
}

impl AACProperties {
    /// Create a new `AACProperties`
    #[must_use]
    pub fn new(
        version: MpegVersion,
        audio_object_type: AudioObjectType,
        duration: Duration,
        overall_bitrate: u32,
        audio_bitrate: u32,
        sample_rate: u32,
        channels: u8,
        copyright: bool,
        original: bool,
    ) -> (r: Self)
        ensures
            r == (AACProperties {
                version,
                audio_object_type,
                duration,
                overall_bitrate,
                audio_bitrate,
                sample_rate,
                channels,
                copyright,
                original,
            }),
    {
        Self {
            version,
            audio_object_type,
            duration,
            overall_bitrate,
            audio_bitrate,
            sample_rate,
            channels,
            copyright,
            original,
        }
    }

    /// The format-agnostic view of these properties. ADTS AAC carries no
    /// bit depth and no channel mask.
    #[must_use]
    pub fn file_properties(&self) -> (r: FileProperties)
        ensures
            r == (FileProperties {
                duration: self.duration,
                overall_bitrate: Some(self.overall_bitrate),
                audio_bitrate: Some(self.audio_bitrate),
                sample_rate: Some(self.sample_rate),
                bit_depth: None,
                channels: Some(self.channels),
                channel_mask: None,
            }),
    {
        FileProperties::new(
            self.duration,
            Some(self.overall_bitrate),
            Some(self.audio_bitrate),
            Some(self.sample_rate),
            None,
            Some(self.channels),
            None,
        )
    }
}

} // verus!

use crate::duration::Duration;
use crate::properties::FileProperties;
use vstd::prelude::*;

verus! {

/// The codec of an MP4 audio track.
#[derive(Debug, Clone, Copy, PartialEq, Eq, Hash, Structural)]
pub enum Mp4Codec {
    /// Advanced Audio Coding
    AAC,
    /// Apple Lossless Audio Codec
    ALAC,
    /// Free Lossless Audio Codec, in an MP4 container
    FLAC,
    /// A codec this crate does not name
    Unknown,
}

/// The audio object type of an MPEG-4 audio track, from its decoder
/// configuration.
#[derive(Debug, Clone, Copy, PartialEq, Eq, Hash, Structural)]
pub enum AudioObjectType {
    /// AAC Main profile
    AacMain,
    /// AAC Low Complexity profile
    AacLowComplexity,
    /// AAC Scalable Sample Rate profile
    AacScalableSampleRate,
    /// AAC Long Term Prediction profile
    AacLongTermPrediction,
    /// Spectral Band Replication
    SpectralBandReplication,
    /// MPEG-4 Audio Lossless Coding
    AudioLosslessCoding,
}

/// An MP4 file's audio properties
#[derive(Debug, Clone, PartialEq, Eq)]
pub struct Mp4Properties {
    /// The codec of the audio track.
    pub codec: Mp4Codec,
    /// The extended audio object type, where the decoder configuration
    /// carries one.
    pub extended_audio_object_type: Option<AudioObjectType>,
    /// Duration of the audio.
    pub duration: Duration,
    /// Overall bitrate (kbps).
    pub overall_bitrate: u32,
    /// Audio bitrate (kbps).
    pub audio_bitrate: u32,
    /// Sample rate (Hz).
    pub sample_rate: u32,
    /// Bits per sample, where the codec states one.
    pub bit_depth: Option<u8>,
    /// Channel count.
    pub channels: u8,
    /// Whether the track is DRM protected.
    pub drm_protected: bool,
}

impl Mp4Properties {
    /// Create a new `Mp4Properties`
    #[must_use]
    pub fn new(
        codec: Mp4Codec,
        extended_audio_object_type: Option<AudioObjectType>,
        duration: Duration,
        overall_bitrate: u32,
        audio_bitrate: u32,
        sample_rate: u32,
        bit_depth: Option<u8>,
        channels: u8,
        drm_protected: bool,
    ) -> (r: Self)
        ensures
            r == (Mp4Properties {
                codec,
                extended_audio_object_type,
                duration,
                overall_bitrate,
                audio_bitrate,
                sample_rate,
                bit_depth,
                channels,
                drm_protected,
            }),
    {
        Self {
            codec,
            extended_audio_object_type,
            duration,
            overall_bitrate,
            audio_bitrate,
            sample_rate,
            bit_depth,
            channels,
            drm_protected,
        }
    }

    /// The format-agnostic view of these properties. MP4 carries no
    /// channel mask.
    #[must_use]
    pub fn file_properties(&self) -> (r: FileProperties)
        ensures
            r == (FileProperties {
                duration: self.duration,
                overall_bitrate: Some(self.overall_bitrate),
                audio_bitrate: Some(self.audio_bitrate),
                sample_rate: Some(self.sample_rate),
                bit_depth: self.bit_depth,
                channels: Some(self.channels),
                channel_mask: None,
            }),
    {
        FileProperties::new(
            self.duration,
            Some(self.overall_bitrate),
            Some(self.audio_bitrate),
            Some(self.sample_rate),
            self.bit_depth,
            Some(self.channels),
            None,
        )
    }
}

} // verus!

use crate::duration::Duration;
use crate::properties::FileProperties;
use vstd::prelude::*;

verus! {

/// An Opus file's audio properties
#[derive(Debug, Clone, PartialEq, Eq)]
pub struct OpusProperties {
    /// Duration of the audio.
    pub duration: Duration,
    /// Overall bitrate (kbps).
    pub overall_bitrate: u32,
    /// Audio bitrate (kbps).
    pub audio_bitrate: u32,
    /// Channel count.
    pub channels: u8,
    /// The version of the identification header.
    pub version: u8,
    /// The sample rate (Hz) of the audio before it was encoded.
    pub input_sample_rate: u32,
}

impl OpusProperties {
    /// Create a new `OpusProperties`
    #[must_use]
    pub fn new(
        duration: Duration,
        overall_bitrate: u32,
        audio_bitrate: u32,
        channels: u8,
        version: u8,
        input_sample_rate: u32,
    ) -> (r: Self)
        ensures
            r == (OpusProperties {
                duration,
                overall_bitrate,
                audio_bitrate,
                channels,
                version,
                input_sample_rate,
            }),
    {
        Self { duration, overall_bitrate, audio_bitrate, channels, version, input_sample_rate }
    }

    /// The format-agnostic view of these properties. The sample rate is
    /// the input sample rate; Opus carries no bit depth and no channel
    /// mask.
    #[must_use]
    pub fn file_properties(&self) -> (r: FileProperties)
        ensures
            r == (FileProperties {
                duration: self.duration,
                overall_bitrate: Some(self.overall_bitrate),
                audio_bitrate: Some(self.audio_bitrate),
                sample_rate: Some(self.input_sample_rate),
                bit_depth: None,
                channels: Some(self.channels),
                channel_mask: None,
            }),
    {
        FileProperties::new(
            self.duration,
            Some(self.overall_bitrate),
            Some(self.audio_bitrate),
            Some(self.input_sample_rate),
            None,
            Some(self.channels),
            None,
        )
    }
}

/// A Speex file's audio properties
#[derive(Debug, Clone, PartialEq, Eq)]
pub struct SpeexProperties {
    /// Duration of the audio.
    pub duration: Duration,
    /// The version of the Speex header.
    pub version: u32,
    /// Sample rate (Hz).
    pub sample_rate: u32,
    /// The Speex mode (narrowband, wideband or ultra-wideband).
    pub mode: u8,
    /// Channel count.
    pub channels: u8,
    /// Whether the stream is encoded with a variable bitrate.
    pub vbr: bool,
    /// Overall bitrate (kbps).
    pub overall_bitrate: u32,
    /// Audio bitrate (kbps).
    pub audio_bitrate: u32,
    /// The nominal bitrate (bps) stated by the header.
    pub nominal_bitrate: i32,
}

impl SpeexProperties {
    /// Create a new `SpeexProperties`
    #[must_use]
    pub fn new(
        duration: Duration,
        version: u32,
        sample_rate: u32,
        mode: u8,
        channels: u8,
        vbr: bool,
        overall_bitrate: u32,
        audio_bitrate: u32,
        nominal_bitrate: i32,
    ) -> (r: Self)
        ensures
            r == (SpeexProperties {
                duration,
                version,
                sample_rate,
                mode,
                channels,
                vbr,
                overall_bitrate,
                audio_bitrate,
                nominal_bitrate,
            }),
    {
        Self {
            duration,
            version,
            sample_rate,
            mode,
            channels,
            vbr,
            overall_bitrate,
            audio_bitrate,
            nominal_bitrate,
        }
    }

    /// The format-agnostic view of these properties. Speex carries no
    /// bit depth and no channel mask.
    #[must_use]
    pub fn file_properties(&self) -> (r: FileProperties)
        ensures
            r == (FileProperties {
                duration: self.duration,
                overall_bitrate: Some(self.overall_bitrate),
                audio_bitrate: Some(self.audio_bitrate),
                sample_rate: Some(self.sample_rate),
                bit_depth: None,
                channels: Some(self.channels),
                channel_mask: None,
            }),
    {
        FileProperties::new(
            self.duration,
            Some(self.overall_bitrate),
            Some(self.audio_bitrate),
            Some(self.sample_rate),
            None,
            Some(self.channels),
            None,
        )
    }
}

/// A Vorbis file's audio properties
#[derive(Debug, Clone, PartialEq, Eq)]
pub struct VorbisProperties {
    /// Duration of the audio.
    pub duration: Duration,
    /// Overall bitrate (kbps).
    pub overall_bitrate: u32,
    /// Audio bitrate (kbps).
    pub audio_bitrate: u32,
    /// Sample rate (Hz).
    pub sample_rate: u32,
    /// Channel count.
    pub channels: u8,
    /// The version of the identification header.
    pub version: u32,
    /// The maximum bitrate (bps) stated by the header.
    pub bitrate_maximum: i32,
    /// The nominal bitrate (bps) stated by the header.
    pub bitrate_nominal: i32,
    /// The minimum bitrate (bps) stated by the header.
    pub bitrate_minimum: i32,
}

impl VorbisProperties {
    /// Create a new `VorbisProperties`
    #[must_use]
    pub fn new(
        duration: Duration,
        overall_bitrate: u32,
        audio_bitrate: u32,
        sample_rate: u32,
        channels: u8,
        version: u32,
        bitrate_maximum: i32,
        bitrate_nominal: i32,
        bitrate_minimum: i32,
    ) -> (r: Self)
        ensures
            r == (VorbisProperties {
                duration,
                overall_bitrate,
                audio_bitrate,
                sample_rate,
                channels,
                version,
                bitrate_maximum,
                bitrate_nominal,
                bitrate_minimum,
            }),
    {
        Self {
            duration,
            overall_bitrate,
            audio_bitrate,
            sample_rate,
            channels,
            version,
            bitrate_maximum,
            bitrate_nominal,
            bitrate_minimum,
        }
    }

    /// The format-agnostic view of these properties. Vorbis carries no
    /// bit depth and no channel mask.
    #[must_use]
    pub fn file_properties(&self) -> (r: FileProperties)
        ensures
            r == (FileProperties {
                duration: self.duration,
                overall_bitrate: Some(self.overall_bitrate),
                audio_bitrate: Some(self.audio_bitrate),
                sample_rate: Some(self.sample_rate),
                bit_depth: None,
                channels: Some(self.channels),
                channel_mask: None,
            }),
    {
        FileProperties::new(
            self.duration,
            Some(self.overall_bitrate),
            Some(self.audio_bitrate),
            Some(self.sample_rate),
            None,
            Some(self.channels),
            None,
        )
    }
}

} // verus!

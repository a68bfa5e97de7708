use crate::duration::Duration;
use crate::properties::FileProperties;
use vstd::prelude::*;

verus! {

/// The MPEG audio version of a stream.
#[derive(Debug, Clone, Copy, PartialEq, Eq, Hash, Structural)]
pub enum MpegVersion {
    /// MPEG-1
    V1,
    /// MPEG-2
    V2,
    /// MPEG-2.5
    V2_5,
    /// MPEG-4 (used by ADTS AAC streams)
    V4,
}

/// The MPEG audio layer of a stream.
#[derive(Debug, Clone, Copy, PartialEq, Eq, Hash, Structural)]
pub enum Layer {
    /// Layer I
    Layer1,
    /// Layer II
    Layer2,
    /// Layer III
    Layer3,
}

/// The channel mode of an MPEG frame.
#[derive(Debug, Clone, Copy, PartialEq, Eq, Hash, Structural)]
pub enum ChannelMode {
    /// Two independent channels.
    Stereo,
    /// Two channels coded jointly.
    JointStereo,
    /// Two unrelated mono channels.
    DualChannel,
    /// One channel.
    SingleChannel,
}

/// The de-emphasis a decoder must apply.
#[derive(Debug, Clone, Copy, PartialEq, Eq, Hash, Structural)]
pub enum Emphasis {
    /// 50/15 microsecond emphasis.
    FiftyFifteen,
    /// CCIT J.17 emphasis.
    CcitJ17,
}

/// An MPEG file's audio properties
#[derive(Debug, Clone, PartialEq, Eq)]
pub struct MpegProperties {
    /// The MPEG audio version.
    pub version: MpegVersion,
    /// The MPEG audio layer.
    pub layer: Layer,
    /// The channel mode.
    pub channel_mode: ChannelMode,
    /// The joint-stereo mode-extension bits, where the channel mode has
    /// them.
    pub mode_extension: Option<u8>,
    /// Whether the stream is marked copyrighted.
    pub copyright: bool,
    /// Whether the stream is marked as an original.
    pub original: bool,
    /// Duration of the audio.
    pub duration: Duration,
    /// Overall bitrate (kbps).
    pub overall_bitrate: u32,
    /// Audio bitrate (kbps).
    pub audio_bitrate: u32,
    /// Sample rate (Hz).
    pub sample_rate: u32,
    /// Channel count.
    pub channels: u8,
    /// The de-emphasis to apply, if any.
    pub emphasis: Option<Emphasis>,
}

impl MpegProperties {
    /// Create a new `MpegProperties`
    #[must_use]
    pub fn new(
        version: MpegVersion,
        layer: Layer,
        channel_mode: ChannelMode,
        mode_extension: Option<u8>,
        copyright: bool,
        original: bool,
        duration: Duration,
        overall_bitrate: u32,
        audio_bitrate: u32,
        sample_rate: u32,
        channels: u8,
        emphasis: Option<Emphasis>,
    ) -> (r: Self)
        ensures
            r == (MpegProperties {
                version,
                layer,
                channel_mode,
                mode_extension,
                copyright,
                original,
                duration,
                overall_bitrate,
                audio_bitrate,
                sample_rate,
                channels,
                emphasis,
            }),
    {
        Self {
            version,
            layer,
            channel_mode,
            mode_extension,
            copyright,
            original,
            duration,
            overall_bitrate,
            audio_bitrate,
            sample_rate,
            channels,
            emphasis,
        }
    }

    /// The format-agnostic view of these properties. MPEG carries no bit
    /// depth and no channel mask.
    #[must_use]
    pub fn file_properties(&self) -> (r: FileProperties)
        ensures
            r == (FileProperties {
                duration: self.duration,
                overall_bitrate: Some(self.overall_bitrate),
                audio_bitrate: Some(self.audio_bitrate),
                sample_rate: Some(self.sample_rate),
                bit_depth: None,
                channels: Some(self.channels),
                channel_mask: None,
            }),
    {
        FileProperties::new(
            self.duration,
            Some(self.overall_bitrate),
            Some(self.audio_bitrate),
            Some(self.sample_rate),
            None,
            Some(self.channels),
            None,
        )
    }
}

} // verus!

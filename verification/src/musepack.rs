use crate::duration::Duration;
use crate::properties::FileProperties;
use vstd::prelude::*;

verus! {

/// The properties of a Musepack stream-version 4 to 6 file
#[derive(Debug, Clone, PartialEq, Eq)]
pub struct MpcSv4to6Properties {
    /// Duration of the audio.
    pub duration: Duration,
    /// Audio bitrate (kbps).
    pub audio_bitrate: u32,
    /// Channel count.
    pub channels: u8,
    /// The number of frames in the stream.
    pub frame_count: u32,
    /// Whether mid/side stereo coding is enabled.
    pub mid_side_stereo: bool,
    /// The stream version (4, 5 or 6).
    pub stream_version: u16,
    /// The highest sub-band used.
    pub max_band: u8,
    /// Sample rate (Hz).
    pub sample_rate: u32,
}

impl MpcSv4to6Properties {
    /// Create a new `MpcSv4to6Properties`
    #[must_use]
    pub fn new(
        duration: Duration,
        audio_bitrate: u32,
        channels: u8,
        frame_count: u32,
        mid_side_stereo: bool,
        stream_version: u16,
        max_band: u8,
        sample_rate: u32,
    ) -> (r: Self)
        ensures
            r == (MpcSv4to6Properties {
                duration,
                audio_bitrate,
                channels,
                frame_count,
                mid_side_stereo,
                stream_version,
                max_band,
                sample_rate,
            }),
    {
        Self { duration, audio_bitrate, channels, frame_count, mid_side_stereo, stream_version,
            max_band, sample_rate }
    }

    /// The format-agnostic view of these properties. These stream
    /// versions state no overall bitrate, no bit depth and no channel
    /// mask.
    #[must_use]
    pub fn file_properties(&self) -> (r: FileProperties)
        ensures
            r == (FileProperties {
                duration: self.duration,
                overall_bitrate: None,
                audio_bitrate: Some(self.audio_bitrate),
                sample_rate: Some(self.sample_rate),
                bit_depth: None,
                channels: Some(self.channels),
                channel_mask: None,
            }),
    {
        FileProperties::new(
            self.duration,
            None,
            Some(self.audio_bitrate),
            Some(self.sample_rate),
            None,
            Some(self.channels),
            None,
        )
    }
}

/// The quality profile a Musepack stream-version 7 file was encoded
/// with.
#[derive(Debug, Clone, Copy, PartialEq, Eq, Hash, Structural)]
pub enum Profile {
    /// An experimental or unstable profile.
    Unstable,
    /// The telephone profile.
    Telephone,
    /// The thumb profile.
    Thumb,
    /// The radio profile.
    Radio,
    /// The standard profile.
    Standard,
    /// The xtreme profile.
    Xtreme,
    /// The insane profile.
    Insane,
    /// The braindead profile.
    BrainDead,
}

/// How a Musepack stream-version 7 file links to its neighbours in a
/// gapless album.
#[derive(Debug, Clone, Copy, PartialEq, Eq, Hash, Structural)]
pub enum Link {
    /// The stream starts and ends at a very low level.
    VeryLowStartOrEnd,
    /// The stream ends loudly.
    LoudEnd,
    /// The stream starts loudly.
    LoudStart,
    /// The stream starts and ends loudly.
    LoudStartAndEnd,
}

/// The properties of a Musepack stream-version 7 file
#[derive(Debug, Clone, PartialEq, Eq)]
pub struct MpcSv7Properties {
    /// Duration of the audio.
    pub duration: Duration,
    /// Overall bitrate (kbps).
    pub overall_bitrate: u32,
    /// Audio bitrate (kbps).
    pub audio_bitrate: u32,
    /// Channel count.
    pub channels: u8,
    /// The number of frames in the stream.
    pub frame_count: u32,
    /// Whether intensity stereo coding is enabled.
    pub intensity_stereo: bool,
    /// Whether mid/side stereo coding is enabled.
    pub mid_side_stereo: bool,
    /// The highest sub-band used.
    pub max_band: u8,
    /// The quality profile.
    pub profile: Profile,
    /// The gapless link of the stream.
    pub link: Link,
    /// Sample rate (Hz).
    pub sample_freq: u32,
    /// The maximum level of the decoded audio.
    pub max_level: u16,
    /// The title replay gain.
    pub title_gain: i16,
    /// The title peak level.
    pub title_peak: u16,
    /// The album replay gain.
    pub album_gain: i16,
    /// The album peak level.
    pub album_peak: u16,
    /// Whether the stream is truly gapless.
    pub true_gapless: bool,
    /// The number of valid samples in the last frame, for gapless
    /// streams.
    pub last_frame_length: u16,
    /// Whether fast seeking is safe.
    pub fast_seeking_safe: bool,
    /// The encoder version.
    pub encoder_version: u8,
}

impl MpcSv7Properties {
    /// Create a new `MpcSv7Properties`
    #[must_use]
    pub fn new(
        duration: Duration,
        overall_bitrate: u32,
        audio_bitrate: u32,
        channels: u8,
        frame_count: u32,
        intensity_stereo: bool,
        mid_side_stereo: bool,
        max_band: u8,
        profile: Profile,
        link: Link,
        sample_freq: u32,
        max_level: u16,
        title_gain: i16,
        title_peak: u16,
        album_gain: i16,
        album_peak: u16,
        true_gapless: bool,
        last_frame_length: u16,
        fast_seeking_safe: bool,
        encoder_version: u8,
    ) -> (r: Self)
        ensures
            r == (MpcSv7Properties {
                duration,
                overall_bitrate,
                audio_bitrate,
                channels,
                frame_count,
                intensity_stereo,
                mid_side_stereo,
                max_band,
                profile,
                link,
                sample_freq,
                max_level,
                title_gain,
                title_peak,
                album_gain,
                album_peak,
                true_gapless,
                last_frame_length,
                fast_seeking_safe,
                encoder_version,
            }),
    {
        Self {
            duration,
            overall_bitrate,
            audio_bitrate,
            channels,
            frame_count,
            intensity_stereo,
            mid_side_stereo,
            max_band,
            profile,
            link,
            sample_freq,
            max_level,
            title_gain,
            title_peak,
            album_gain,
            album_peak,
            true_gapless,
            last_frame_length,
            fast_seeking_safe,
            encoder_version,
        }
    }

    /// The format-agnostic view of these properties. Stream version 7
    /// states no bit depth and no channel mask.
    #[must_use]
    pub fn file_properties(&self) -> (r: FileProperties)
        ensures
            r == (FileProperties {
                duration: self.duration,
                overall_bitrate: Some(self.overall_bitrate),
                audio_bitrate: Some(self.audio_bitrate),
                sample_rate: Some(self.sample_freq),
                bit_depth: None,
                channels: Some(self.channels),
                channel_mask: None,
            }),
    {
        FileProperties::new(
            self.duration,
            Some(self.overall_bitrate),
            Some(self.audio_bitrate),
            Some(self.sample_freq),
            None,
            Some(self.channels),
            None,
        )
    }
}

/// The stream header of a Musepack stream-version 8 file
#[derive(Debug, Clone, PartialEq, Eq)]
pub struct StreamHeader {
    /// The CRC of the header packet.
    pub crc: u32,
    /// The stream version (8).
    pub stream_version: u8,
    /// The number of samples in the stream.
    pub sample_count: u64,
    /// The number of silent samples at the beginning of the stream.
    pub beginning_silence: u64,
    /// Sample rate (Hz).
    pub sample_rate: u32,
    /// The number of used sub-bands.
    pub max_used_bands: u8,
    /// Channel count.
    pub channels: u8,
    /// Whether mid/side stereo coding is used.
    pub ms_used: bool,
    /// The number of frames per audio block.
    pub audio_block_frames: u16,
}

impl StreamHeader {
    /// Create a new `StreamHeader`
    #[must_use]
    pub fn new(
        crc: u32,
        stream_version: u8,
        sample_count: u64,
        beginning_silence: u64,
        sample_rate: u32,
        max_used_bands: u8,
        channels: u8,
        ms_used: bool,
        audio_block_frames: u16,
    ) -> (r: Self)
        ensures
            r == (StreamHeader {
                crc,
                stream_version,
                sample_count,
                beginning_silence,
                sample_rate,
                max_used_bands,
                channels,
                ms_used,
                audio_block_frames,
            }),
    {
        Self {
            crc,
            stream_version,
            sample_count,
            beginning_silence,
            sample_rate,
            max_used_bands,
            channels,
            ms_used,
            audio_block_frames,
        }
    }
}

/// The replay-gain record of a Musepack stream-version 8 file
#[derive(Debug, Clone, PartialEq, Eq)]
pub struct ReplayGain {
    /// The replay-gain version.
    pub version: u8,
    /// The title loudness, in 256ths of a decibel.
    pub title_gain: u16,
    /// The title peak level.
    pub title_peak: u16,
    /// The album loudness, in 256ths of a decibel.
    pub album_gain: u16,
    /// The album peak level.
    pub album_peak: u16,
}

impl ReplayGain {
    /// Create a new `ReplayGain`
    #[must_use]
    pub fn new(version: u8, title_gain: u16, title_peak: u16, album_gain: u16, album_peak: u16)
        -> (r: Self)
        ensures
            r == (ReplayGain { version, title_gain, title_peak, album_gain, album_peak }),
    {
        Self { version, title_gain, title_peak, album_gain, album_peak }
    }
}

/// The encoder-info record of a Musepack stream-version 8 file
#[derive(Debug, Clone, PartialEq, Eq)]
pub struct EncoderInfo {
    /// The quality profile, in eighths of a profile level (the on-disk
    /// field steps by one eighth).
    pub profile_eighths: u16,
    /// Whether the PNS tool was enabled.
    pub pns_tool: bool,
    /// The encoder's major version.
    pub major: u8,
    /// The encoder's minor version.
    pub minor: u8,
    /// The encoder's build number.
    pub build: u8,
}

impl EncoderInfo {
    /// Create a new `EncoderInfo`
    #[must_use]
    pub fn new(profile_eighths: u16, pns_tool: bool, major: u8, minor: u8, build: u8)
        -> (r: Self)
        ensures
            r == (EncoderInfo { profile_eighths, pns_tool, major, minor, build }),
    {
        Self { profile_eighths, pns_tool, major, minor, build }
    }
}

/// The properties of a Musepack stream-version 8 file
#[derive(Debug, Clone, PartialEq, Eq)]
pub struct MpcSv8Properties {
    /// Duration of the audio.
    pub duration: Duration,
    /// Overall bitrate (kbps).
    pub overall_bitrate: u32,
    /// Audio bitrate (kbps).
    pub audio_bitrate: u32,
    /// The mandatory stream header.
    pub stream_header: StreamHeader,
    /// The replay-gain record, where one is present.
    pub replay_gain: Option<ReplayGain>,
    /// The encoder-info record, where one is present.
    pub encoder_info: Option<EncoderInfo>,
}

impl MpcSv8Properties {
    /// Create a new `MpcSv8Properties`
    #[must_use]
    pub fn new(
        duration: Duration,
        overall_bitrate: u32,
        audio_bitrate: u32,
        stream_header: StreamHeader,
        replay_gain: Option<ReplayGain>,
        encoder_info: Option<EncoderInfo>,
    ) -> (r: Self)
        ensures
            r == (MpcSv8Properties {
                duration,
                overall_bitrate,
                audio_bitrate,
                stream_header,
                replay_gain,
                encoder_info,
            }),
    {
        Self { duration, overall_bitrate, audio_bitrate, stream_header, replay_gain,
            encoder_info }
    }

    /// The format-agnostic view of these properties. Sample rate and
    /// channel count come from the stream header; stream version 8
    /// states no bit depth and no channel mask.
    #[must_use]
    pub fn file_properties(&self) -> (r: FileProperties)
        ensures
            r == (FileProperties {
                duration: self.duration,
                overall_bitrate: Some(self.overall_bitrate),
                audio_bitrate: Some(self.audio_bitrate),
                sample_rate: Some(self.stream_header.sample_rate),
                bit_depth: None,
                channels: Some(self.stream_header.channels),
                channel_mask: None,
            }),
    {
        FileProperties::new(
            self.duration,
            Some(self.overall_bitrate),
            Some(self.audio_bitrate),
            Some(self.stream_header.sample_rate),
            None,
            Some(self.stream_header.channels),
            None,
        )
    }
}

/// The properties of a Musepack file
///
/// The on-disk stream header changed incompatibly across stream
/// versions, so this is a closed tagged union: one variant per header
/// shape, and a parser yields exactly the variant of the version it
/// read.
#[derive(Debug, Clone, PartialEq, Eq)]
pub enum MpcProperties {
    /// A stream-version 4 to 6 stream.
    Sv4to6(MpcSv4to6Properties),
    /// A stream-version 7 stream.
    Sv7(MpcSv7Properties),
    /// A stream-version 8 stream.
    Sv8(MpcSv8Properties),
}

impl MpcProperties {
    /// The duration, whatever the stream version.
    pub open spec fn spec_duration(&self) -> Duration {
        match self {
            MpcProperties::Sv4to6(p) => p.duration,
            MpcProperties::Sv7(p) => p.duration,
            MpcProperties::Sv8(p) => p.duration,
        }
    }

    /// The channel count, whatever the stream version.
    pub open spec fn spec_channels(&self) -> u8 {
        match self {
            MpcProperties::Sv4to6(p) => p.channels,
            MpcProperties::Sv7(p) => p.channels,
            MpcProperties::Sv8(p) => p.stream_header.channels,
        }
    }

    /// The sample rate, whatever the stream version.
    pub open spec fn spec_sample_rate(&self) -> u32 {
        match self {
            MpcProperties::Sv4to6(p) => p.sample_rate,
            MpcProperties::Sv7(p) => p.sample_freq,
            MpcProperties::Sv8(p) => p.stream_header.sample_rate,
        }
    }

    /// The format-agnostic view, whatever the stream version.
    pub open spec fn spec_file_properties(&self) -> FileProperties {
        match self {
            MpcProperties::Sv4to6(p) => FileProperties {
                duration: p.duration,
                overall_bitrate: None,
                audio_bitrate: Some(p.audio_bitrate),
                sample_rate: Some(p.sample_rate),
                bit_depth: None,
                channels: Some(p.channels),
                channel_mask: None,
            },
            MpcProperties::Sv7(p) => FileProperties {
                duration: p.duration,
                overall_bitrate: Some(p.overall_bitrate),
                audio_bitrate: Some(p.audio_bitrate),
                sample_rate: Some(p.sample_freq),
                bit_depth: None,
                channels: Some(p.channels),
                channel_mask: None,
            },
            MpcProperties::Sv8(p) => FileProperties {
                duration: p.duration,
                overall_bitrate: Some(p.overall_bitrate),
                audio_bitrate: Some(p.audio_bitrate),
                sample_rate: Some(p.stream_header.sample_rate),
                bit_depth: None,
                channels: Some(p.stream_header.channels),
                channel_mask: None,
            },
        }
    }

    /// Duration of the audio
    #[must_use]
    pub fn duration(&self) -> (r: Duration)
        ensures
            r == self.spec_duration(),
    {
        match self {
            MpcProperties::Sv4to6(p) => p.duration,
            MpcProperties::Sv7(p) => p.duration,
            MpcProperties::Sv8(p) => p.duration,
        }
    }

    /// Channel count
    #[must_use]
    pub fn channels(&self) -> (r: u8)
        ensures
            r == self.spec_channels(),
    {
        match self {
            MpcProperties::Sv4to6(p) => p.channels,
            MpcProperties::Sv7(p) => p.channels,
            MpcProperties::Sv8(p) => p.stream_header.channels,
        }
    }

    /// Sample rate (Hz)
    #[must_use]
    pub fn sample_rate(&self) -> (r: u32)
        ensures
            r == self.spec_sample_rate(),
    {
        match self {
            MpcProperties::Sv4to6(p) => p.sample_rate,
            MpcProperties::Sv7(p) => p.sample_freq,
            MpcProperties::Sv8(p) => p.stream_header.sample_rate,
        }
    }

    /// The format-agnostic view of these properties, dispatched on the
    /// stream version.
    #[must_use]
    pub fn file_properties(&self) -> (r: FileProperties)
        ensures
            r == self.spec_file_properties(),
    {
        match self {
            MpcProperties::Sv4to6(p) => p.file_properties(),
            MpcProperties::Sv7(p) => p.file_properties(),
            MpcProperties::Sv8(p) => p.file_properties(),
        }
    }
}

} // verus!

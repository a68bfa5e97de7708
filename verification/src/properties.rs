use crate::duration::Duration;
use vstd::prelude::*;

verus! {

/// Channel mask
///
/// A bit-set of (at least) 18 bits, one for each named speaker channel,
/// in the canonical bit layout shared by the WAV extensible-format
/// channel mask and the CAF channel bitmap. Combination is bitwise or,
/// intersection bitwise and.
#[derive(Debug, Clone, Copy, PartialEq, Eq, Hash, Structural)]
pub struct ChannelMask(pub u32);

impl ChannelMask {
    /// The front-left speaker channel.
    #[must_use]
    pub fn front_left() -> (r: Self)
        ensures
            r.0 == 1u32 << 0,
    {
        ChannelMask(1u32 << 0)
    }

    /// The front-right speaker channel.
    #[must_use]
    pub fn front_right() -> (r: Self)
        ensures
            r.0 == 1u32 << 1,
    {
        ChannelMask(1u32 << 1)
    }

    /// The front-center speaker channel.
    #[must_use]
    pub fn front_center() -> (r: Self)
        ensures
            r.0 == 1u32 << 2,
    {
        ChannelMask(1u32 << 2)
    }

    /// The low-frequency-effects channel.
    #[must_use]
    pub fn low_frequency() -> (r: Self)
        ensures
            r.0 == 1u32 << 3,
    {
        ChannelMask(1u32 << 3)
    }

    /// The back-left speaker channel.
    #[must_use]
    pub fn back_left() -> (r: Self)
        ensures
            r.0 == 1u32 << 4,
    {
        ChannelMask(1u32 << 4)
    }

    /// The back-right speaker channel.
    #[must_use]
    pub fn back_right() -> (r: Self)
        ensures
            r.0 == 1u32 << 5,
    {
        ChannelMask(1u32 << 5)
    }

    /// The front-left-of-center speaker channel.
    #[must_use]
    pub fn front_left_of_center() -> (r: Self)
        ensures
            r.0 == 1u32 << 6,
    {
        ChannelMask(1u32 << 6)
    }

    /// The front-right-of-center speaker channel.
    #[must_use]
    pub fn front_right_of_center() -> (r: Self)
        ensures
            r.0 == 1u32 << 7,
    {
        ChannelMask(1u32 << 7)
    }

    /// The back-center speaker channel.
    #[must_use]
    pub fn back_center() -> (r: Self)
        ensures
            r.0 == 1u32 << 8,
    {
        ChannelMask(1u32 << 8)
    }

    /// The side-left speaker channel.
    #[must_use]
    pub fn side_left() -> (r: Self)
        ensures
            r.0 == 1u32 << 9,
    {
        ChannelMask(1u32 << 9)
    }

    /// The side-right speaker channel.
    #[must_use]
    pub fn side_right() -> (r: Self)
        ensures
            r.0 == 1u32 << 10,
    {
        ChannelMask(1u32 << 10)
    }

    /// The top-center speaker channel.
    #[must_use]
    pub fn top_center() -> (r: Self)
        ensures
            r.0 == 1u32 << 11,
    {
        ChannelMask(1u32 << 11)
    }

    /// The top-front-left speaker channel.
    #[must_use]
    pub fn top_front_left() -> (r: Self)
        ensures
            r.0 == 1u32 << 12,
    {
        ChannelMask(1u32 << 12)
    }

    /// The top-front-center speaker channel.
    #[must_use]
    pub fn top_front_center() -> (r: Self)
        ensures
            r.0 == 1u32 << 13,
    {
        ChannelMask(1u32 << 13)
    }

    /// The top-front-right speaker channel.
    #[must_use]
    pub fn top_front_right() -> (r: Self)
        ensures
            r.0 == 1u32 << 14,
    {
        ChannelMask(1u32 << 14)
    }

    /// The top-back-left speaker channel.
    #[must_use]
    pub fn top_back_left() -> (r: Self)
        ensures
            r.0 == 1u32 << 15,
    {
        ChannelMask(1u32 << 15)
    }

    /// The top-back-center speaker channel.
    #[must_use]
    pub fn top_back_center() -> (r: Self)
        ensures
            r.0 == 1u32 << 16,
    {
        ChannelMask(1u32 << 16)
    }

    /// The top-back-right speaker channel.
    #[must_use]
    pub fn top_back_right() -> (r: Self)
        ensures
            r.0 == 1u32 << 17,
    {
        ChannelMask(1u32 << 17)
    }

    /// A mask read from a container's raw channel-layout field.
    #[must_use]
    pub fn from_bits(bits: u32) -> (r: Self)
        ensures
            r.0 == bits,
    {
        ChannelMask(bits)
    }

    /// A single front center channel: the front-center bit alone.
    #[must_use]
    pub fn mono() -> (r: Self)
        ensures
            r.0 == 1u32 << 2,
    {
        Self::front_center()
    }

    /// Front left+right channels: the union of the front-left and
    /// front-right bits.
    #[must_use]
    pub fn stereo() -> (r: Self)
        ensures
            r.0 == (1u32 << 0) | (1u32 << 1),
    {
        Self::front_left().bitor(Self::front_right())
    }

    /// The bit mask
    #[must_use]
    pub fn bits(self) -> (r: u32)
        ensures
            r == self.0,
    {
        self.0
    }

    /// The union of the two masks: every channel of either.
    pub fn bitor(self, rhs: Self) -> (r: Self)
        ensures
            r.0 == self.0 | rhs.0,
    {
        ChannelMask(self.0 | rhs.0)
    }

    /// The intersection of the two masks: the channels of both.
    pub fn bitand(self, rhs: Self) -> (r: Self)
        ensures
            r.0 == self.0 & rhs.0,
    {
        ChannelMask(self.0 & rhs.0)
    }
}

impl Default for ChannelMask {
    /// The empty mask: no channel named.
    fn default() -> (r: Self)
        ensures
            r.0 == 0u32,
    {
        ChannelMask(0)
    }
}

/// Mask combination follows boolean algebra: intersecting a union with
/// one of its operands gives that operand back, for every pair of masks.
pub proof fn lemma_mask_absorption(a: ChannelMask, b: ChannelMask)
    ensures
        ((a.0 | b.0) & a.0) == a.0,
        ((a.0 | b.0) & b.0) == b.0,
{
    let x: u32 = a.0;
    let y: u32 = b.0;
    assert(((x | y) & x) == x) by (bit_vector);
    assert(((x | y) & y) == y) by (bit_vector);
}

/// Various *immutable* audio properties
///
/// A format parser constructs the value in full; optional fields are
/// `None` where the source format cannot express the value or the
/// parser could not determine it.
#[derive(Debug, PartialEq, Eq, Clone)]
#[non_exhaustive]
pub struct FileProperties {
    /// Duration of the audio.
    pub duration: Duration,
    /// Overall bitrate (kbps).
    pub overall_bitrate: Option<u32>,
    /// Audio bitrate (kbps).
    pub audio_bitrate: Option<u32>,
    /// Sample rate (Hz).
    pub sample_rate: Option<u32>,
    /// Bits per sample (usually 16 or 24 bit).
    pub bit_depth: Option<u8>,
    /// Channel count.
    pub channels: Option<u8>,
    /// Channel mask.
    pub channel_mask: Option<ChannelMask>,
}

impl FileProperties {
    /// Create a new `FileProperties`
    #[must_use]
    pub fn new(
        duration: Duration,
        overall_bitrate: Option<u32>,
        audio_bitrate: Option<u32>,
        sample_rate: Option<u32>,
        bit_depth: Option<u8>,
        channels: Option<u8>,
        channel_mask: Option<ChannelMask>,
    ) -> (r: Self)
        ensures
            r == (FileProperties {
                duration,
                overall_bitrate,
                audio_bitrate,
                sample_rate,
                bit_depth,
                channels,
                channel_mask,
            }),
    {
        Self { duration, overall_bitrate, audio_bitrate, sample_rate, bit_depth, channels,
            channel_mask }
    }

    /// Duration of the audio
    pub fn duration(&self) -> (r: Duration)
        ensures
            r == self.duration,
    {
        self.duration
    }

    /// Overall bitrate (kbps)
    pub fn overall_bitrate(&self) -> (r: Option<u32>)
        ensures
            r == self.overall_bitrate,
    {
        self.overall_bitrate
    }

    /// Audio bitrate (kbps)
    pub fn audio_bitrate(&self) -> (r: Option<u32>)
        ensures
            r == self.audio_bitrate,
    {
        self.audio_bitrate
    }

    /// Sample rate (Hz)
    pub fn sample_rate(&self) -> (r: Option<u32>)
        ensures
            r == self.sample_rate,
    {
        self.sample_rate
    }

    /// Bits per sample (usually 16 or 24 bit)
    pub fn bit_depth(&self) -> (r: Option<u8>)
        ensures
            r == self.bit_depth,
    {
        self.bit_depth
    }

    /// Channel count
    pub fn channels(&self) -> (r: Option<u8>)
        ensures
            r == self.channels,
    {
        self.channels
    }

    /// Channel mask
    pub fn channel_mask(&self) -> (r: Option<ChannelMask>)
        ensures
            r == self.channel_mask,
    {
        self.channel_mask
    }
}

impl Default for FileProperties {
    /// Zero duration and every optional field absent.
    fn default() -> (r: Self)
        ensures
            r == (FileProperties {
                duration: Duration { secs: 0, nanos: 0 },
                overall_bitrate: None,
                audio_bitrate: None,
                sample_rate: None,
                bit_depth: None,
                channels: None,
                channel_mask: None,
            }),
    {
        Self {
            duration: Duration::zero(),
            overall_bitrate: None,
            audio_bitrate: None,
            sample_rate: None,
            bit_depth: None,
            channels: None,
            channel_mask: None,
        }
    }
}

} // verus!

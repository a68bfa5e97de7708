//! Format-agnostic audio metadata.
//!
//! The crate models the two halves of a tagged audio file:
//!
//! * immutable audio properties ([`FileProperties`], a [`ChannelMask`]
//!   bit-set, and one properties aggregate per container format), and
//! * mutable descriptive tags behind capability traits, with a
//!   conversion engine that moves a tag from one on-disk scheme to
//!   another through a scheme-agnostic projection.
//!
//! Byte-level parsing and file I/O are left to external collaborators:
//! a format parser builds the properties and tag values, and this crate
//! defines how they are represented, queried, mutated and converted.

mod aac;
mod aiff;
mod anytag;
mod ape;
mod duration;
mod flac;
mod mp4;
mod mpeg;
mod musepack;
mod ogg;
mod properties;
mod tag;
mod traits;
mod wav;
mod wavpack;

pub use aac::AACProperties;
pub use aiff::AiffProperties;
pub use anytag::{lemma_conversion_preserves_common, pic_opt_view, str_opt_view, string_opt_view,
    strs_opt_view, Album, AnyTag, AnyView, MimeType, Picture, PictureView, TagView};
pub use ape::ApeProperties;
pub use duration::Duration;
pub use flac::FlacProperties;
pub use mp4::{AudioObjectType, Mp4Codec, Mp4Properties};
pub use mpeg::{ChannelMode, Emphasis, Layer, MpegProperties, MpegVersion};
pub use musepack::{EncoderInfo, Link, MpcProperties, MpcSv4to6Properties, MpcSv7Properties,
    MpcSv8Properties, Profile, ReplayGain, StreamHeader};
pub use ogg::{OpusProperties, SpeexProperties, VorbisProperties};
pub use properties::{lemma_mask_absorption, ChannelMask, FileProperties};
pub use tag::{convert_dyn, DynTag, Id3v2Format, Id3v2Tag, Mp4Format, Mp4Tag, Scheme, SchemeTag,
    TagFields, TagKind, VorbisFormat, VorbisTag};
pub use traits::{lemma_removal_idempotent, lemma_track_disc_composition, AudioTag, AudioTagEdit,
    ReadPath, TagError, TagType, ToAny, ToAnyTag};
pub use wav::{WavFormat, WavProperties};
pub use wavpack::WavPackProperties;

//! The reference-corpus property values, one test per container
//! format: each builds the properties aggregate a parser yields for the
//! corpus file of that format and checks what the accessors and the
//! format-agnostic view report.

use tagcore::{
    AACProperties, AiffProperties, ApeProperties, AudioObjectType, ChannelMask, Duration,
    EncoderInfo, FlacProperties, Layer, Link, ChannelMode, Mp4Codec, Mp4Properties,
    MpcProperties, MpcSv4to6Properties, MpcSv7Properties, MpcSv8Properties, MpegProperties,
    MpegVersion, OpusProperties, Profile, ReplayGain, SpeexProperties, StreamHeader,
    VorbisProperties, WavFormat, WavPackProperties, WavProperties,
};

#[test]
fn aac_properties() {
    let p = AACProperties::new(
        MpegVersion::V4,
        AudioObjectType::AacLowComplexity,
        Duration::from_millis(1474),
        117,
        117,
        48000,
        2,
        false,
        false,
    );
    assert_eq!(p.version, MpegVersion::V4);
    assert_eq!(p.audio_object_type, AudioObjectType::AacLowComplexity);
    assert_eq!(p.duration.as_millis(), 1474);
    let fp = p.file_properties();
    assert_eq!(fp.overall_bitrate(), Some(117));
    assert_eq!(fp.audio_bitrate(), Some(117));
    assert_eq!(fp.sample_rate(), Some(48000));
    assert_eq!(fp.bit_depth(), None);
    assert_eq!(fp.channels(), Some(2));
}

#[test]
fn aiff_properties() {
    let p = AiffProperties::new(Duration::from_millis(1428), 1542, 1536, 48000, 16, 2, None);
    assert_eq!(p.duration.as_millis(), 1428);
    assert_eq!(p.compression_type, None);
    let fp = p.file_properties();
    assert_eq!(fp.overall_bitrate(), Some(1542));
    assert_eq!(fp.audio_bitrate(), Some(1536));
    assert_eq!(fp.sample_rate(), Some(48000));
    assert_eq!(fp.bit_depth(), Some(16));
    assert_eq!(fp.channels(), Some(2));
}

#[test]
fn ape_properties() {
    let p = ApeProperties::new(3990, Duration::from_millis(1428), 361, 360, 48000, 16, 2);
    assert_eq!(p.version, 3990);
    assert_eq!(p.duration.as_millis(), 1428);
    let fp = p.file_properties();
    assert_eq!(fp.overall_bitrate(), Some(361));
    assert_eq!(fp.audio_bitrate(), Some(360));
    assert_eq!(fp.sample_rate(), Some(48000));
    assert_eq!(fp.bit_depth(), Some(16));
    assert_eq!(fp.channels(), Some(2));
}

#[test]
fn flac_properties() {
    let p = FlacProperties::new(
        Duration::from_millis(1428),
        321,
        275,
        48000,
        16,
        2,
        164_506_065_180_489_231_127_156_351_872_182_799_315,
    );
    assert_eq!(p.duration.as_millis(), 1428);
    assert_eq!(p.signature, 164_506_065_180_489_231_127_156_351_872_182_799_315);
    let fp = p.file_properties();
    assert_eq!(fp.overall_bitrate(), Some(321));
    assert_eq!(fp.audio_bitrate(), Some(275));
    assert_eq!(fp.sample_rate(), Some(48000));
    assert_eq!(fp.bit_depth(), Some(16));
    assert_eq!(fp.channels(), Some(2));
}

#[test]
fn mp1_properties() {
    let p = MpegProperties::new(
        MpegVersion::V1,
        Layer::Layer1,
        ChannelMode::Stereo,
        None,
        false,
        true,
        Duration::from_millis(588),
        383,
        384,
        32000,
        2,
        None,
    );
    assert_eq!(p.version, MpegVersion::V1);
    assert_eq!(p.layer, Layer::Layer1);
    assert_eq!(p.channel_mode, ChannelMode::Stereo);
    assert_eq!(p.mode_extension, None);
    assert_eq!(p.emphasis, None);
    assert!(p.original);
    assert!(!p.copyright);
    assert_eq!(p.duration.as_millis(), 588);
    let fp = p.file_properties();
    assert_eq!(fp.overall_bitrate(), Some(383));
    assert_eq!(fp.audio_bitrate(), Some(384));
    assert_eq!(fp.sample_rate(), Some(32000));
    assert_eq!(fp.channels(), Some(2));
}

#[test]
fn mp2_properties() {
    let p = MpegProperties::new(
        MpegVersion::V1,
        Layer::Layer2,
        ChannelMode::Stereo,
        None,
        false,
        true,
        Duration::from_millis(1344),
        411,
        384,
        48000,
        2,
        None,
    );
    assert_eq!(p.version, MpegVersion::V1);
    assert_eq!(p.layer, Layer::Layer2);
    assert_eq!(p.duration.as_millis(), 1344);
    let fp = p.file_properties();
    assert_eq!(fp.overall_bitrate(), Some(411));
    assert_eq!(fp.audio_bitrate(), Some(384));
    assert_eq!(fp.sample_rate(), Some(48000));
    assert_eq!(fp.channels(), Some(2));
}

#[test]
fn mp3_properties() {
    let p = MpegProperties::new(
        MpegVersion::V1,
        Layer::Layer3,
        ChannelMode::Stereo,
        None,
        false,
        false,
        Duration::from_millis(1464),
        64,
        62,
        48000,
        2,
        None,
    );
    assert_eq!(p.version, MpegVersion::V1);
    assert_eq!(p.layer, Layer::Layer3);
    assert_eq!(p.duration.as_millis(), 1464);
    let fp = p.file_properties();
    assert_eq!(fp.overall_bitrate(), Some(64));
    assert_eq!(fp.audio_bitrate(), Some(62));
    assert_eq!(fp.sample_rate(), Some(48000));
    assert_eq!(fp.channels(), Some(2));
}

#[test]
fn mp4_aac_properties() {
    let p = Mp4Properties::new(
        Mp4Codec::AAC,
        Some(AudioObjectType::AacLowComplexity),
        Duration::from_millis(1449),
        135,
        124,
        48000,
        None,
        2,
        false,
    );
    assert_eq!(p.codec, Mp4Codec::AAC);
    assert_eq!(p.extended_audio_object_type, Some(AudioObjectType::AacLowComplexity));
    assert!(!p.drm_protected);
    assert_eq!(p.duration.as_millis(), 1449);
    let fp = p.file_properties();
    assert_eq!(fp.overall_bitrate(), Some(135));
    assert_eq!(fp.audio_bitrate(), Some(124));
    assert_eq!(fp.sample_rate(), Some(48000));
    assert_eq!(fp.bit_depth(), None);
    assert_eq!(fp.channels(), Some(2));
}

#[test]
fn mp4_alac_properties() {
    let p = Mp4Properties::new(
        Mp4Codec::ALAC,
        None,
        Duration::from_millis(1428),
        331,
        1536,
        48000,
        Some(16),
        2,
        false,
    );
    assert_eq!(p.codec, Mp4Codec::ALAC);
    assert_eq!(p.extended_audio_object_type, None);
    assert_eq!(p.duration.as_millis(), 1428);
    let fp = p.file_properties();
    assert_eq!(fp.overall_bitrate(), Some(331));
    assert_eq!(fp.audio_bitrate(), Some(1536));
    assert_eq!(fp.sample_rate(), Some(48000));
    assert_eq!(fp.bit_depth(), Some(16));
    assert_eq!(fp.channels(), Some(2));
}

#[test]
fn mp4_als_properties() {
    let p = Mp4Properties::new(
        Mp4Codec::AAC,
        Some(AudioObjectType::AudioLosslessCoding),
        Duration::from_millis(1429),
        1083,
        1078,
        48000,
        None,
        2,
        false,
    );
    assert_eq!(p.codec, Mp4Codec::AAC);
    assert_eq!(p.extended_audio_object_type, Some(AudioObjectType::AudioLosslessCoding));
    assert_eq!(p.duration.as_millis(), 1429);
    let fp = p.file_properties();
    assert_eq!(fp.overall_bitrate(), Some(1083));
    assert_eq!(fp.audio_bitrate(), Some(1078));
    assert_eq!(fp.sample_rate(), Some(48000));
    assert_eq!(fp.channels(), Some(2));
}

#[test]
fn mp4_flac_properties() {
    let p = Mp4Properties::new(
        Mp4Codec::FLAC,
        None,
        Duration::from_millis(1428),
        280,
        275,
        48000,
        Some(16),
        2,
        false,
    );
    assert_eq!(p.codec, Mp4Codec::FLAC);
    assert_eq!(p.duration.as_millis(), 1428);
    let fp = p.file_properties();
    assert_eq!(fp.overall_bitrate(), Some(280));
    assert_eq!(fp.audio_bitrate(), Some(275));
    assert_eq!(fp.sample_rate(), Some(48000));
    assert_eq!(fp.bit_depth(), Some(16));
    assert_eq!(fp.channels(), Some(2));
}

#[test]
fn mpc_sv5_properties() {
    let p = MpcProperties::Sv4to6(MpcSv4to6Properties::new(
        Duration::from_millis(27),
        41,
        2,
        1009,
        true,
        5,
        31,
        44100,
    ));
    assert!(matches!(p, MpcProperties::Sv4to6(_)));
    assert_eq!(p.duration().as_millis(), 27);
    assert_eq!(p.channels(), 2);
    assert_eq!(p.sample_rate(), 44100);
    let MpcProperties::Sv4to6(inner) = &p else {
        panic!("wrong stream version");
    };
    assert_eq!(inner.audio_bitrate, 41);
    assert_eq!(inner.frame_count, 1009);
    assert!(inner.mid_side_stereo);
    assert_eq!(inner.stream_version, 5);
    assert_eq!(inner.max_band, 31);
    let fp = p.file_properties();
    assert_eq!(fp.overall_bitrate(), None);
    assert_eq!(fp.audio_bitrate(), Some(41));
}

#[test]
fn mpc_sv7_properties() {
    let p = MpcProperties::Sv7(MpcSv7Properties::new(
        Duration::from_millis(1428),
        86,
        86,
        2,
        60,
        false,
        true,
        26,
        Profile::Standard,
        Link::VeryLowStartOrEnd,
        48000,
        0,
        16594,
        0,
        16594,
        0,
        true,
        578,
        false,
        192,
    ));
    assert!(matches!(p, MpcProperties::Sv7(_)));
    assert!(!matches!(p, MpcProperties::Sv4to6(_)));
    assert!(!matches!(p, MpcProperties::Sv8(_)));
    assert_eq!(p.duration().as_millis(), 1428);
    assert_eq!(p.channels(), 2);
    assert_eq!(p.sample_rate(), 48000);
    let MpcProperties::Sv7(inner) = &p else {
        panic!("wrong stream version");
    };
    assert_eq!(inner.profile, Profile::Standard);
    assert_eq!(inner.link, Link::VeryLowStartOrEnd);
    assert_eq!(inner.frame_count, 60);
    assert!(inner.mid_side_stereo);
    assert!(!inner.intensity_stereo);
    assert_eq!(inner.max_band, 26);
    assert_eq!(inner.title_gain, 16594);
    assert_eq!(inner.album_gain, 16594);
    assert_eq!(inner.title_peak, 0);
    assert_eq!(inner.album_peak, 0);
    assert!(inner.true_gapless);
    assert_eq!(inner.last_frame_length, 578);
    assert!(!inner.fast_seeking_safe);
    assert_eq!(inner.encoder_version, 192);
    let fp = p.file_properties();
    assert_eq!(fp.overall_bitrate(), Some(86));
    assert_eq!(fp.audio_bitrate(), Some(86));
}

#[test]
fn mpc_sv8_properties() {
    let p = MpcProperties::Sv8(MpcSv8Properties::new(
        Duration::from_millis(1428),
        82,
        82,
        StreamHeader::new(4_252_559_415, 8, 68546, 0, 48000, 26, 2, true, 64),
        Some(ReplayGain::new(1, 16655, 21475, 16655, 21475)),
        Some(EncoderInfo::new(80, false, 1, 30, 1)),
    ));
    assert!(matches!(p, MpcProperties::Sv8(_)));
    assert!(!matches!(p, MpcProperties::Sv7(_)));
    assert_eq!(p.duration().as_millis(), 1428);
    assert_eq!(p.channels(), 2);
    assert_eq!(p.sample_rate(), 48000);
    let MpcProperties::Sv8(inner) = &p else {
        panic!("wrong stream version");
    };
    assert_eq!(inner.stream_header.crc, 4_252_559_415);
    assert_eq!(inner.stream_header.stream_version, 8);
    assert_eq!(inner.stream_header.sample_count, 68546);
    assert_eq!(inner.stream_header.beginning_silence, 0);
    assert_eq!(inner.stream_header.max_used_bands, 26);
    assert!(inner.stream_header.ms_used);
    assert_eq!(inner.stream_header.audio_block_frames, 64);
    assert_eq!(inner.replay_gain, Some(ReplayGain::new(1, 16655, 21475, 16655, 21475)));
    assert_eq!(inner.encoder_info, Some(EncoderInfo::new(80, false, 1, 30, 1)));
    let fp = p.file_properties();
    assert_eq!(fp.overall_bitrate(), Some(82));
    assert_eq!(fp.audio_bitrate(), Some(82));
}

#[test]
fn opus_properties() {
    let p = OpusProperties::new(Duration::from_millis(1428), 120, 120, 2, 1, 48000);
    assert_eq!(p.duration.as_millis(), 1428);
    assert_eq!(p.channels, 2);
    assert_eq!(p.version, 1);
    assert_eq!(p.input_sample_rate, 48000);
    let fp = p.file_properties();
    assert_eq!(fp.overall_bitrate(), Some(120));
    assert_eq!(fp.audio_bitrate(), Some(120));
    assert_eq!(fp.sample_rate(), Some(48000));
    assert_eq!(fp.channels(), Some(2));
}

#[test]
fn speex_properties() {
    let p = SpeexProperties::new(Duration::from_millis(1469), 1, 32000, 2, 2, false, 32, 29,
        29600);
    assert_eq!(p.duration.as_millis(), 1469);
    assert_eq!(p.version, 1);
    assert_eq!(p.mode, 2);
    assert!(!p.vbr);
    assert_eq!(p.nominal_bitrate, 29600);
    let fp = p.file_properties();
    assert_eq!(fp.overall_bitrate(), Some(32));
    assert_eq!(fp.audio_bitrate(), Some(29));
    assert_eq!(fp.sample_rate(), Some(32000));
    assert_eq!(fp.channels(), Some(2));
}

#[test]
fn vorbis_properties() {
    let p = VorbisProperties::new(Duration::from_millis(1451), 96, 112, 48000, 2, 0, 0,
        112_000, 0);
    assert_eq!(p.duration.as_millis(), 1451);
    assert_eq!(p.version, 0);
    assert_eq!(p.bitrate_maximum, 0);
    assert_eq!(p.bitrate_nominal, 112_000);
    assert_eq!(p.bitrate_minimum, 0);
    let fp = p.file_properties();
    assert_eq!(fp.overall_bitrate(), Some(96));
    assert_eq!(fp.audio_bitrate(), Some(112));
    assert_eq!(fp.sample_rate(), Some(48000));
    assert_eq!(fp.channels(), Some(2));
}

#[test]
fn wav_properties() {
    let p = WavProperties::new(WavFormat::PCM, Duration::from_millis(1428), 1542, 1536, 48000,
        16, 2, None);
    assert_eq!(p.format, WavFormat::PCM);
    assert_eq!(p.duration.as_millis(), 1428);
    let fp = p.file_properties();
    assert_eq!(fp.duration().as_millis(), 1428);
    assert_eq!(fp.overall_bitrate(), Some(1542));
    assert_eq!(fp.audio_bitrate(), Some(1536));
    assert_eq!(fp.sample_rate(), Some(48000));
    assert_eq!(fp.bit_depth(), Some(16));
    assert_eq!(fp.channels(), Some(2));
    assert_eq!(fp.channel_mask(), None);
}

#[test]
fn wavpack_properties() {
    let p = WavPackProperties::new(1040, Duration::from_millis(1428), 598, 597, 48000, 2,
        ChannelMask::stereo(), 16, true);
    assert_eq!(p.version, 1040);
    assert!(p.lossless);
    assert_eq!(p.duration.as_millis(), 1428);
    assert_eq!(p.channel_mask, ChannelMask::stereo());
    let fp = p.file_properties();
    assert_eq!(fp.overall_bitrate(), Some(598));
    assert_eq!(fp.audio_bitrate(), Some(597));
    assert_eq!(fp.sample_rate(), Some(48000));
    assert_eq!(fp.bit_depth(), Some(16));
    assert_eq!(fp.channels(), Some(2));
    assert_eq!(fp.channel_mask(), Some(ChannelMask::stereo()));
}

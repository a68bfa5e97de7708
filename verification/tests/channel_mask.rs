//! The channel-mask bit-set and the format-agnostic properties value on
//! concrete values.

use tagcore::{ChannelMask, Duration, FileProperties};

#[test]
fn positions_have_their_documented_bits() {
    assert_eq!(ChannelMask::front_left().bits(), 1 << 0);
    assert_eq!(ChannelMask::front_right().bits(), 1 << 1);
    assert_eq!(ChannelMask::front_center().bits(), 1 << 2);
    assert_eq!(ChannelMask::low_frequency().bits(), 1 << 3);
    assert_eq!(ChannelMask::back_left().bits(), 1 << 4);
    assert_eq!(ChannelMask::back_right().bits(), 1 << 5);
    assert_eq!(ChannelMask::front_left_of_center().bits(), 1 << 6);
    assert_eq!(ChannelMask::front_right_of_center().bits(), 1 << 7);
    assert_eq!(ChannelMask::back_center().bits(), 1 << 8);
    assert_eq!(ChannelMask::side_left().bits(), 1 << 9);
    assert_eq!(ChannelMask::side_right().bits(), 1 << 10);
    assert_eq!(ChannelMask::top_center().bits(), 1 << 11);
    assert_eq!(ChannelMask::top_front_left().bits(), 1 << 12);
    assert_eq!(ChannelMask::top_front_center().bits(), 1 << 13);
    assert_eq!(ChannelMask::top_front_right().bits(), 1 << 14);
    assert_eq!(ChannelMask::top_back_left().bits(), 1 << 15);
    assert_eq!(ChannelMask::top_back_center().bits(), 1 << 16);
    assert_eq!(ChannelMask::top_back_right().bits(), 1 << 17);
}

#[test]
fn mask_algebra_absorption() {
    let a = ChannelMask::side_left();
    let b = ChannelMask::low_frequency();
    assert_eq!(a.bitor(b).bitand(a), a);
    assert_eq!(a.bitor(b).bitand(b), b);
    let wide = ChannelMask::from_bits(0x3_FFFF);
    assert_eq!(wide.bitor(a).bitand(wide), wide);
}

#[test]
fn stereo_is_front_left_or_front_right() {
    assert_eq!(
        ChannelMask::stereo().bits(),
        ChannelMask::front_left().bits() | ChannelMask::front_right().bits()
    );
}

#[test]
fn mono_is_front_center() {
    assert_eq!(ChannelMask::mono().bits(), ChannelMask::front_center().bits());
}

#[test]
fn default_mask_is_empty() {
    assert_eq!(ChannelMask::default().bits(), 0);
    assert_eq!(ChannelMask::default().bitor(ChannelMask::mono()), ChannelMask::mono());
}

#[test]
fn file_properties_defaults_to_all_absent() {
    let p = FileProperties::default();
    assert_eq!(p.duration().as_millis(), 0);
    assert_eq!(p.overall_bitrate(), None);
    assert_eq!(p.audio_bitrate(), None);
    assert_eq!(p.sample_rate(), None);
    assert_eq!(p.bit_depth(), None);
    assert_eq!(p.channels(), None);
    assert_eq!(p.channel_mask(), None);
}

#[test]
fn file_properties_reports_what_it_was_built_from() {
    let p = FileProperties::new(
        Duration::from_millis(1428),
        Some(1542),
        Some(1536),
        Some(48000),
        Some(16),
        Some(2),
        Some(ChannelMask::stereo()),
    );
    assert_eq!(p.duration(), Duration::from_millis(1428));
    assert_eq!(p.overall_bitrate(), Some(1542));
    assert_eq!(p.audio_bitrate(), Some(1536));
    assert_eq!(p.sample_rate(), Some(48000));
    assert_eq!(p.bit_depth(), Some(16));
    assert_eq!(p.channels(), Some(2));
    assert_eq!(p.channel_mask(), Some(ChannelMask::stereo()));
}

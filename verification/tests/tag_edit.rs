//! The capability-contract behavior of the scheme wrappers: accessors,
//! setters, removers and their laws on concrete values.

use tagcore::{AudioTagEdit, Id3v2Tag, MimeType, Mp4Tag, Picture, VorbisTag};

#[test]
fn fresh_tag_has_nothing_set() {
    let tag = Id3v2Tag::new();
    assert_eq!(tag.title(), None);
    assert_eq!(tag.artist(), None);
    assert_eq!(tag.artists(), None);
    assert_eq!(tag.year(), None);
    assert_eq!(tag.album_title(), None);
    assert_eq!(tag.album_artists(), None);
    assert!(tag.album_cover().is_none());
    assert_eq!(tag.track(), (None, None));
    assert_eq!(tag.disc(), (None, None));
}

#[test]
fn title_set_and_remove() {
    let mut tag = VorbisTag::new();
    tag.set_title("Ride the Wires");
    assert_eq!(tag.title(), Some("Ride the Wires"));
    tag.set_title("Second Title");
    assert_eq!(tag.title(), Some("Second Title"));
    tag.remove_title();
    assert_eq!(tag.title(), None);
}

#[test]
fn removal_is_idempotent() {
    let mut tag = Id3v2Tag::new();
    tag.set_title("A Title");
    tag.set_year(1999);
    tag.add_artist("First");
    tag.set_album_title("An Album");
    tag.set_track_number(3);
    tag.set_total_tracks(12);

    tag.remove_title();
    tag.remove_title();
    assert_eq!(tag.title(), None);

    tag.remove_year();
    tag.remove_year();
    assert_eq!(tag.year(), None);

    tag.remove_artist();
    tag.remove_artist();
    assert_eq!(tag.artists(), None);

    tag.remove_album_title();
    tag.remove_album_title();
    assert_eq!(tag.album_title(), None);

    tag.remove_track();
    tag.remove_track();
    assert_eq!(tag.track(), (None, None));

    tag.remove_disc();
    tag.remove_disc();
    assert_eq!(tag.disc(), (None, None));
}

#[test]
fn artists_keep_insertion_order() {
    let mut tag = Mp4Tag::new();
    tag.add_artist("Alpha");
    tag.add_artist("Beta");
    tag.add_artist("Gamma");
    assert_eq!(tag.artist(), Some("Alpha"));
    assert_eq!(tag.artists(), Some(vec!["Alpha", "Beta", "Gamma"]));
}

#[test]
fn set_artist_replaces_the_list() {
    let mut tag = Id3v2Tag::new();
    tag.add_artist("Alpha");
    tag.add_artist("Beta");
    tag.set_artist("Solo");
    assert_eq!(tag.artists(), Some(vec!["Solo"]));
    assert_eq!(tag.artist(), Some("Solo"));
}

#[test]
fn album_is_composed_from_its_parts() {
    let mut tag = VorbisTag::new();
    tag.set_album_title("The Album");
    tag.set_album_artists(String::from("Band"));
    tag.add_album_artist("Guest");
    let album = tag.album();
    assert_eq!(album.title, Some("The Album"));
    assert_eq!(album.artists, Some(vec!["Band", "Guest"]));
    assert!(album.cover.is_none());
}

#[test]
fn album_cover_round_trip() {
    let mut tag = Mp4Tag::new();
    let cover = Picture::new(MimeType::Png, vec![137, 80, 78, 71]);
    tag.set_album_cover(cover);
    let got = tag.album_cover().expect("cover was set");
    assert_eq!(got.mime_type, MimeType::Png);
    assert_eq!(got.data, vec![137, 80, 78, 71]);
    tag.remove_album_cover();
    tag.remove_album_cover();
    assert!(tag.album_cover().is_none());
}

#[test]
fn track_composition() {
    let mut tag = Id3v2Tag::new();
    tag.set_total_tracks(12);
    tag.set_track(7);
    assert_eq!(tag.track(), (Some(7), Some(12)));
    assert_eq!(tag.track_number(), Some(7));
    assert_eq!(tag.total_tracks(), Some(12));
    tag.remove_track();
    assert_eq!(tag.track(), (None, None));
}

#[test]
fn disc_composition() {
    let mut tag = VorbisTag::new();
    tag.set_total_discs(2);
    tag.set_disc(1);
    assert_eq!(tag.disc(), (Some(1), Some(2)));
    tag.remove_disc();
    assert_eq!(tag.disc(), (None, None));
}

#[test]
fn year_set_and_read() {
    let mut tag = Mp4Tag::new();
    tag.set_year(2004);
    assert_eq!(tag.year(), Some(2004));
}

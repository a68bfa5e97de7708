use vstd::prelude::*;

verus! {

/// The image format of an album cover.
#[derive(Debug, Clone, Copy, PartialEq, Eq, Hash, Structural)]
pub enum MimeType {
    /// image/png
    Png,
    /// image/jpeg
    Jpeg,
    /// image/tiff
    Tiff,
    /// image/bmp
    Bmp,
    /// image/gif
    Gif,
}

/// The mathematical value of a [`Picture`]: its format tag and its
/// bytes.
#[verifier::ext_equal]
pub ghost struct PictureView {
    /// The image format.
    pub mime_type: MimeType,
    /// The raw image bytes.
    pub data: Seq<u8>,
}

/// An owned image: a format tag plus the raw image bytes.
#[derive(Debug, PartialEq, Eq)]
pub struct Picture {
    /// The image format.
    pub mime_type: MimeType,
    /// The raw image bytes.
    pub data: Vec<u8>,
}

impl View for Picture {
    type V = PictureView;

    open spec fn view(&self) -> PictureView {
        PictureView { mime_type: self.mime_type, data: self.data@ }
    }
}

impl Picture {
    /// Create a new `Picture`
    #[must_use]
    pub fn new(mime_type: MimeType, data: Vec<u8>) -> (r: Self)
        ensures
            r@ == (PictureView { mime_type, data: data@ }),
    {
        Picture { mime_type, data }
    }
}

/// Copies a byte vector element by element.
fn clone_bytes(v: &Vec<u8>) -> (r: Vec<u8>)
    ensures
        r@ == v@,
{
    let mut r: Vec<u8> = Vec::new();
    let n = v.len();
    for i in 0..n
        invariant
            n == v.len(),
            r@ =~= v@.subrange(0, i as int),
    {
        r.push(v[i]);
        assert(r@ =~= v@.subrange(0, i as int + 1));
    }
    assert(v@.subrange(0, n as int) =~= v@);
    r
}

impl Clone for Picture {
    /// The clone holds the same format tag and the same bytes.
    fn clone(&self) -> (r: Self)
        ensures
            r@ == self@,
    {
        Picture { mime_type: self.mime_type, data: clone_bytes(&self.data) }
    }
}

/// The text of an optional borrowed string.
pub open spec fn str_opt_view(o: Option<&str>) -> Option<Seq<char>> {
    match o {
        Some(s) => Some(s@),
        None => None,
    }
}

/// The text of an optional owned string.
pub open spec fn string_opt_view(o: Option<String>) -> Option<Seq<char>> {
    match o {
        Some(s) => Some(s@),
        None => None,
    }
}

/// The texts of an optional borrowed string list; absence is the empty
/// sequence.
pub open spec fn strs_opt_view(o: Option<Vec<&str>>) -> Seq<Seq<char>> {
    match o {
        Some(v) => v.deep_view(),
        None => Seq::empty(),
    }
}

/// The value of an optional picture.
pub open spec fn pic_opt_view(o: Option<Picture>) -> Option<PictureView> {
    match o {
        Some(p) => Some(p@),
        None => None,
    }
}

/// The observable state of a mutable tag: every field the capability
/// contracts speak of, as a mathematical value. An artist list is a
/// sequence in read order; an empty sequence is an absent list.
#[verifier::ext_equal]
pub ghost struct TagView {
    /// The track title.
    pub title: Option<Seq<char>>,
    /// The artist list, in read order.
    pub artists: Seq<Seq<char>>,
    /// The release year.
    pub year: Option<u16>,
    /// The album title.
    pub album_title: Option<Seq<char>>,
    /// The album artist list, in read order.
    pub album_artists: Seq<Seq<char>>,
    /// The album cover.
    pub album_cover: Option<PictureView>,
    /// The track number.
    pub track_number: Option<u16>,
    /// The total number of tracks.
    pub total_tracks: Option<u16>,
    /// The disc number.
    pub disc_number: Option<u16>,
    /// The total number of discs.
    pub total_discs: Option<u16>,
}

impl TagView {
    /// The state of a freshly created tag: nothing set.
    pub open spec fn empty() -> TagView {
        TagView {
            title: None,
            artists: Seq::empty(),
            year: None,
            album_title: None,
            album_artists: Seq::empty(),
            album_cover: None,
            track_number: None,
            total_tracks: None,
            disc_number: None,
            total_discs: None,
        }
    }

    /// The scheme-agnostic part of the state: every field except the
    /// scheme-specific ones (the year), in the shape of [`AnyView`].
    pub open spec fn common(self) -> AnyView {
        AnyView {
            title: self.title,
            artists: self.artists,
            album_title: self.album_title,
            album_artists: self.album_artists,
            album_cover: self.album_cover,
            track_number: self.track_number,
            total_tracks: self.total_tracks,
            disc_number: self.disc_number,
            total_discs: self.total_discs,
        }
    }
}

/// The mathematical value of an [`AnyTag`]: the common field set that
/// every scheme can represent.
#[verifier::ext_equal]
pub ghost struct AnyView {
    /// The track title.
    pub title: Option<Seq<char>>,
    /// The artist list, in read order.
    pub artists: Seq<Seq<char>>,
    /// The album title.
    pub album_title: Option<Seq<char>>,
    /// The album artist list, in read order.
    pub album_artists: Seq<Seq<char>>,
    /// The album cover.
    pub album_cover: Option<PictureView>,
    /// The track number.
    pub track_number: Option<u16>,
    /// The total number of tracks.
    pub total_tracks: Option<u16>,
    /// The disc number.
    pub disc_number: Option<u16>,
    /// The total number of discs.
    pub total_discs: Option<u16>,
}

impl AnyView {
    /// The tag state a scheme materializes from this common field set:
    /// the common fields as they stand, every scheme-specific field (the
    /// year) unset.
    pub open spec fn widened(self) -> TagView {
        TagView {
            title: self.title,
            artists: self.artists,
            year: None,
            album_title: self.album_title,
            album_artists: self.album_artists,
            album_cover: self.album_cover,
            track_number: self.track_number,
            total_tracks: self.total_tracks,
            disc_number: self.disc_number,
            total_discs: self.total_discs,
        }
    }
}

/// An album: its title, its artists and its cover art.
#[derive(Debug)]
pub struct Album<'a> {
    /// The album title.
    pub title: Option<&'a str>,
    /// The album artists, in read order; `None` where the list is empty.
    pub artists: Option<Vec<&'a str>>,
    /// The album cover.
    pub cover: Option<Picture>,
}

/// The format-agnostic intermediate representation of a tag: a borrowed,
/// short-lived projection of the common field set, rebuilt on demand
/// from a concrete tag and consumed by the conversion engine.
#[derive(Debug)]
pub struct AnyTag<'a> {
    /// The track title.
    pub title: Option<&'a str>,
    /// The artists, in read order; `None` where the list is empty.
    pub artists: Option<Vec<&'a str>>,
    /// The album title.
    pub album_title: Option<&'a str>,
    /// The album artists, in read order; `None` where the list is empty.
    pub album_artists: Option<Vec<&'a str>>,
    /// The album cover.
    pub album_cover: Option<Picture>,
    /// The track number.
    pub track_number: Option<u16>,
    /// The total number of tracks.
    pub total_tracks: Option<u16>,
    /// The disc number.
    pub disc_number: Option<u16>,
    /// The total number of discs.
    pub total_discs: Option<u16>,
}

impl<'a> View for AnyTag<'a> {
    type V = AnyView;

    open spec fn view(&self) -> AnyView {
        AnyView {
            title: str_opt_view(self.title),
            artists: strs_opt_view(self.artists),
            album_title: str_opt_view(self.album_title),
            album_artists: strs_opt_view(self.album_artists),
            album_cover: pic_opt_view(self.album_cover),
            track_number: self.track_number,
            total_tracks: self.total_tracks,
            disc_number: self.disc_number,
            total_discs: self.total_discs,
        }
    }
}

/// Conversion through the common field set preserves every common
/// field and drops exactly the scheme-specific ones: for every tag
/// state, projecting to the common fields and materializing a fresh tag
/// from them keeps title, artists (in order), album title, album
/// artists, album cover and the track and disc numbers, and leaves the
/// year unset.
pub proof fn lemma_conversion_preserves_common(v: TagView)
    ensures
        v.common().widened().title == v.title,
        v.common().widened().artists == v.artists,
        v.common().widened().album_title == v.album_title,
        v.common().widened().album_artists == v.album_artists,
        v.common().widened().album_cover == v.album_cover,
        v.common().widened().track_number == v.track_number,
        v.common().widened().total_tracks == v.total_tracks,
        v.common().widened().disc_number == v.disc_number,
        v.common().widened().total_discs == v.total_discs,
        v.common().widened().year is None,
{
}

} // verus!

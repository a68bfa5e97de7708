use crate::anytag::{pic_opt_view, str_opt_view, string_opt_view, AnyTag, Picture, TagView};
use crate::traits::{AudioTag, AudioTagEdit, TagType, ToAny, ToAnyTag};
use core::marker::PhantomData;
use vstd::prelude::*;
use vstd::string::StringExecFns;

verus! {

/// The concrete shape a tag value takes: one per scheme family. The
/// Ogg, Opus and Flac schemes all store Vorbis Comments, so the three
/// share one shape.
#[derive(Debug, Clone, Copy, PartialEq, Eq, Hash, Structural)]
pub enum TagKind {
    /// An ID3v2 tag.
    Id3v2,
    /// A Vorbis Comment tag.
    Vorbis,
    /// An MP4 atom tag.
    Mp4,
}

/// The typed field storage behind a scheme wrapper: the common field
/// set plus the scheme-specific year.
#[derive(Debug)]
pub struct TagFields {
    /// The track title.
    pub title: Option<String>,
    /// The artist list, in read order.
    pub artists: Vec<String>,
    /// The release year.
    pub year: Option<u16>,
    /// The album title.
    pub album_title: Option<String>,
    /// The album artist list, in read order.
    pub album_artists: Vec<String>,
    /// The album cover.
    pub album_cover: Option<Picture>,
    /// The track number.
    pub track_number: Option<u16>,
    /// The total number of tracks.
    pub total_tracks: Option<u16>,
    /// The disc number.
    pub disc_number: Option<u16>,
    /// The total number of discs.
    pub total_discs: Option<u16>,
}

impl View for TagFields {
    type V = TagView;

    open spec fn view(&self) -> TagView {
        TagView {
            title: string_opt_view(self.title),
            artists: self.artists.deep_view(),
            year: self.year,
            album_title: string_opt_view(self.album_title),
            album_artists: self.album_artists.deep_view(),
            album_cover: pic_opt_view(self.album_cover),
            track_number: self.track_number,
            total_tracks: self.total_tracks,
            disc_number: self.disc_number,
            total_discs: self.total_discs,
        }
    }
}

/// A marker for one tag scheme family: the phantom parameter of
/// [`SchemeTag`] keeps the wrappers of different schemes distinct
/// types, while one generic implementation serves them all.
pub trait Scheme {

}

/// The ID3v2 scheme family.
#[derive(Debug, Clone, Copy)]
pub struct Id3v2Format;

impl Scheme for Id3v2Format {

}

/// The Vorbis Comment scheme family, shared by the Ogg, Opus and Flac
/// schemes.
#[derive(Debug, Clone, Copy)]
pub struct VorbisFormat;

impl Scheme for VorbisFormat {

}

/// The MP4 atom scheme family.
#[derive(Debug, Clone, Copy)]
pub struct Mp4Format;

impl Scheme for Mp4Format {

}

/// A mutable tag of one scheme family: the scheme's stored fields
/// behind the capability contracts. The phantom parameter names the
/// scheme, so conversion targets stay distinct concrete types.
#[derive(Debug)]
#[verifier::reject_recursive_types(S)]
pub struct SchemeTag<S: Scheme> {
    /// The stored fields of the tag.
    pub fields: TagFields,
    /// The zero-sized scheme marker.
    pub marker: PhantomData<S>,
}

/// An ID3v2 tag.
pub type Id3v2Tag = SchemeTag<Id3v2Format>;

/// A Vorbis Comment tag.
pub type VorbisTag = SchemeTag<VorbisFormat>;

/// An MP4 atom tag.
pub type Mp4Tag = SchemeTag<Mp4Format>;

/// Borrows every string of a list.
fn str_refs<'a>(v: &'a Vec<String>) -> (r: Vec<&'a str>)
    ensures
        r.deep_view() == v.deep_view(),
{
    let mut r: Vec<&'a str> = Vec::new();
    let n = v.len();
    for i in 0..n
        invariant
            n == v.len(),
            r@.len() == i,
            forall|j: int| 0 <= j < i ==> r@[j]@ == v@[j]@,
    {
        r.push(v[i].as_str());
    }
    proof {
        assert forall|j: int| 0 <= j < r.deep_view().len() implies r.deep_view()[j] == v
            .deep_view()[j] by {
            assert(r.deep_view()[j] == r@[j]@);
            assert(v.deep_view()[j] == v@[j]@);
        }
        assert(r.deep_view() =~= v.deep_view());
    }
    r
}

/// The artist list of a projection: borrowed, `None` where empty.
fn refs_or_none<'a>(v: &'a Vec<String>) -> (r: Option<Vec<&'a str>>)
    ensures
        r is None <==> v.deep_view().len() == 0,
        r matches Some(w) ==> w.deep_view() == v.deep_view(),
{
    if v.len() == 0 {
        None
    } else {
        Some(str_refs(v))
    }
}

/// The title of a projection: borrowed.
fn str_or_none(v: &Option<String>) -> (r: Option<&str>)
    ensures
        str_opt_view(r) == string_opt_view(*v),
{
    match v {
        Some(s) => Some(s.as_str()),
        None => None,
    }
}

/// An owned copy of an optional cover.
fn clone_cover(v: &Option<Picture>) -> (r: Option<Picture>)
    ensures
        pic_opt_view(r) == pic_opt_view(*v),
{
    match v {
        Some(p) => Some(p.clone()),
        None => None,
    }
}

impl<S: Scheme> SchemeTag<S> {
    /// A fresh tag with nothing set.
    #[must_use]
    pub fn new() -> (r: Self)
        ensures
            r.tag_view() == TagView::empty(),
    {
        let r = SchemeTag {
            fields: TagFields {
                title: None,
                artists: Vec::new(),
                year: None,
                album_title: None,
                album_artists: Vec::new(),
                album_cover: None,
                track_number: None,
                total_tracks: None,
                disc_number: None,
                total_discs: None,
            },
            marker: PhantomData,
        };
        proof {
            assert(r.tag_view() =~= TagView::empty());
        }
        r
    }

    /// Materializes a tag of this scheme from the common field set: a
    /// fresh tag, each field present in the projection copied through
    /// the corresponding setter, artists in their original order.
    /// Fields absent in the projection stay unset, and so does every
    /// scheme-specific field: this is the lossy direction.
    #[must_use]
    pub fn from_anytag(t: &AnyTag<'_>) -> (r: Self)
        ensures
            r.tag_view() == t@.widened(),
    {
        let mut tag = Self::new();
        if let Some(title) = t.title {
            tag.set_title(title);
        }
        if let Some(artists) = &t.artists {
            let n = artists.len();
            for i in 0..n
                invariant
                    n == artists.len(),
                    tag.tag_view() == (TagView {
                        artists: artists.deep_view().subrange(0, i as int),
                        ..(TagView { title: t@.title, ..TagView::empty() })
                    }),
            {
                tag.add_artist(artists[i]);
                assert(artists.deep_view().subrange(0, i as int).push(artists@[i as int]@)
                    =~= artists.deep_view().subrange(0, i as int + 1));
            }
            assert(artists.deep_view().subrange(0, n as int) =~= artists.deep_view());
        }
        if let Some(album_title) = t.album_title {
            tag.set_album_title(album_title);
        }
        if let Some(album_artists) = &t.album_artists {
            let n = album_artists.len();
            for i in 0..n
                invariant
                    n == album_artists.len(),
                    tag.tag_view() == (TagView {
                        album_artists: album_artists.deep_view().subrange(0, i as int),
                        ..(TagView {
                            title: t@.title,
                            artists: t@.artists,
                            album_title: t@.album_title,
                            ..TagView::empty()
                        })
                    }),
            {
                tag.add_album_artist(album_artists[i]);
                assert(album_artists.deep_view().subrange(0, i as int).push(
                    album_artists@[i as int]@)
                    =~= album_artists.deep_view().subrange(0, i as int + 1));
            }
            assert(album_artists.deep_view().subrange(0, n as int)
                =~= album_artists.deep_view());
        }
        if let Some(cover) = &t.album_cover {
            tag.set_album_cover(cover.clone());
        }
        if let Some(track_number) = t.track_number {
            tag.set_track_number(track_number);
        }
        if let Some(total_tracks) = t.total_tracks {
            tag.set_total_tracks(total_tracks);
        }
        if let Some(disc_number) = t.disc_number {
            tag.set_disc_number(disc_number);
        }
        if let Some(total_discs) = t.total_discs {
            tag.set_total_discs(total_discs);
        }
        proof {
            assert(tag.tag_view() =~= t@.widened());
        }
        tag
    }
}

impl<S: Scheme> Default for SchemeTag<S> {
    /// A fresh tag with nothing set.
    fn default() -> (r: Self)
        ensures
            r.tag_view() == TagView::empty(),
    {
        Self::new()
    }
}

impl<S: Scheme> AudioTagEdit for SchemeTag<S> {
    open spec fn tag_view(&self) -> TagView {
        self.fields@
    }

    fn title(&self) -> (r: Option<&str>) {
        str_or_none(&self.fields.title)
    }

    fn set_title(&mut self, title: &str) {
        self.fields.title = Some(String::from_str(title));
    }

    fn remove_title(&mut self) {
        self.fields.title = None;
    }

    fn artist(&self) -> (r: Option<&str>) {
        if self.fields.artists.len() == 0 {
            None
        } else {
            Some(self.fields.artists[0].as_str())
        }
    }

    fn set_artist(&mut self, artist: &str) {
        let mut artists: Vec<String> = Vec::new();
        artists.push(String::from_str(artist));
        self.fields.artists = artists;
        proof {
            assert(self.fields.artists.deep_view() =~= seq![artist@]);
        }
    }

    fn add_artist(&mut self, artist: &str) {
        self.fields.artists.push(String::from_str(artist));
        proof {
            assert(self.fields.artists.deep_view()
                =~= old(self).fields.artists.deep_view().push(artist@));
        }
    }

    fn artists(&self) -> (r: Option<Vec<&str>>) {
        refs_or_none(&self.fields.artists)
    }

    fn remove_artist(&mut self) {
        self.fields.artists = Vec::new();
        proof {
            assert(self.fields.artists.deep_view() =~= Seq::<Seq<char>>::empty());
        }
    }

    fn year(&self) -> (r: Option<u16>) {
        self.fields.year
    }

    fn set_year(&mut self, year: u16) {
        self.fields.year = Some(year);
    }

    fn remove_year(&mut self) {
        self.fields.year = None;
    }

    fn album_title(&self) -> (r: Option<&str>) {
        str_or_none(&self.fields.album_title)
    }

    fn set_album_title(&mut self, v: &str) {
        self.fields.album_title = Some(String::from_str(v));
    }

    fn remove_album_title(&mut self) {
        self.fields.album_title = None;
    }

    fn album_artists(&self) -> (r: Option<Vec<&str>>) {
        refs_or_none(&self.fields.album_artists)
    }

    fn set_album_artists(&mut self, artists: String) {
        let ghost name = artists@;
        let mut album_artists: Vec<String> = Vec::new();
        album_artists.push(artists);
        self.fields.album_artists = album_artists;
        proof {
            assert(self.fields.album_artists.deep_view() =~= seq![name]);
        }
    }

    fn add_album_artist(&mut self, artist: &str) {
        self.fields.album_artists.push(String::from_str(artist));
        proof {
            assert(self.fields.album_artists.deep_view()
                =~= old(self).fields.album_artists.deep_view().push(artist@));
        }
    }

    fn remove_album_artists(&mut self) {
        self.fields.album_artists = Vec::new();
        proof {
            assert(self.fields.album_artists.deep_view() =~= Seq::<Seq<char>>::empty());
        }
    }

    fn album_cover(&self) -> (r: Option<Picture>) {
        clone_cover(&self.fields.album_cover)
    }

    fn set_album_cover(&mut self, cover: Picture) {
        self.fields.album_cover = Some(cover);
    }

    fn remove_album_cover(&mut self) {
        self.fields.album_cover = None;
    }

    fn track_number(&self) -> (r: Option<u16>) {
        self.fields.track_number
    }

    fn set_track_number(&mut self, track_number: u16) {
        self.fields.track_number = Some(track_number);
    }

    fn remove_track_number(&mut self) {
        self.fields.track_number = None;
    }

    fn total_tracks(&self) -> (r: Option<u16>) {
        self.fields.total_tracks
    }

    fn set_total_tracks(&mut self, total_track: u16) {
        self.fields.total_tracks = Some(total_track);
    }

    fn remove_total_tracks(&mut self) {
        self.fields.total_tracks = None;
    }

    fn disc_number(&self) -> (r: Option<u16>) {
        self.fields.disc_number
    }

    fn set_disc_number(&mut self, disc_number: u16) {
        self.fields.disc_number = Some(disc_number);
    }

    fn remove_disc_number(&mut self) {
        self.fields.disc_number = None;
    }

    fn total_discs(&self) -> (r: Option<u16>) {
        self.fields.total_discs
    }

    fn set_total_discs(&mut self, total_discs: u16) {
        self.fields.total_discs = Some(total_discs);
    }

    fn remove_total_discs(&mut self) {
        self.fields.total_discs = None;
    }
}

/// Builds the borrowed common-field projection of a field store.
fn project_anytag<'a>(fields: &'a TagFields) -> (r: AnyTag<'a>)
    ensures
        r@ == fields@.common(),
{
    AnyTag {
        title: str_or_none(&fields.title),
        artists: refs_or_none(&fields.artists),
        album_title: str_or_none(&fields.album_title),
        album_artists: refs_or_none(&fields.album_artists),
        album_cover: clone_cover(&fields.album_cover),
        track_number: fields.track_number,
        total_tracks: fields.total_tracks,
        disc_number: fields.disc_number,
        total_discs: fields.total_discs,
    }
}

impl ToAny for SchemeTag<Id3v2Format> {
    fn to_any(self) -> (r: DynTag)
        ensures
            r == (DynTag::Id3v2(self)),
    {
        DynTag::Id3v2(self)
    }
}

impl ToAny for SchemeTag<VorbisFormat> {
    fn to_any(self) -> (r: DynTag)
        ensures
            r == (DynTag::Vorbis(self)),
    {
        DynTag::Vorbis(self)
    }
}

impl ToAny for SchemeTag<Mp4Format> {
    fn to_any(self) -> (r: DynTag)
        ensures
            r == (DynTag::Mp4(self)),
    {
        DynTag::Mp4(self)
    }
}

impl ToAnyTag for SchemeTag<Id3v2Format> {
    fn to_anytag<'a>(&'a self) -> (r: AnyTag<'a>) {
        project_anytag(&self.fields)
    }
}

impl ToAnyTag for SchemeTag<VorbisFormat> {
    fn to_anytag<'a>(&'a self) -> (r: AnyTag<'a>) {
        project_anytag(&self.fields)
    }
}

impl ToAnyTag for SchemeTag<Mp4Format> {
    fn to_anytag<'a>(&'a self) -> (r: AnyTag<'a>) {
        project_anytag(&self.fields)
    }
}

impl AudioTag for SchemeTag<Id3v2Format> {

}

impl AudioTag for SchemeTag<VorbisFormat> {

}

impl AudioTag for SchemeTag<Mp4Format> {

}

/// A tag whose concrete scheme the holder need not know: the closed
/// variant set over the concrete tag shapes. Erasure is a move into a
/// variant; recovery of the concrete type is a match.
#[derive(Debug)]
pub enum DynTag {
    /// An ID3v2 tag.
    Id3v2(SchemeTag<Id3v2Format>),
    /// A Vorbis Comment tag.
    Vorbis(SchemeTag<VorbisFormat>),
    /// An MP4 atom tag.
    Mp4(SchemeTag<Mp4Format>),
}

impl DynTag {
    /// The concrete shape carried.
    pub open spec fn kind(&self) -> TagKind {
        match self {
            DynTag::Id3v2(_) => TagKind::Id3v2,
            DynTag::Vorbis(_) => TagKind::Vorbis,
            DynTag::Mp4(_) => TagKind::Mp4,
        }
    }

    /// The observable state of the carried tag.
    pub open spec fn tag_view(&self) -> TagView {
        match self {
            DynTag::Id3v2(t) => t.tag_view(),
            DynTag::Vorbis(t) => t.tag_view(),
            DynTag::Mp4(t) => t.tag_view(),
        }
    }

    /// The [`AnyTag`] projection of the carried tag, whatever its
    /// scheme.
    pub fn to_anytag<'a>(&'a self) -> (r: AnyTag<'a>)
        ensures
            r@ == self.tag_view().common(),
    {
        match self {
            DynTag::Id3v2(t) => t.to_anytag(),
            DynTag::Vorbis(t) => t.to_anytag(),
            DynTag::Mp4(t) => t.to_anytag(),
        }
    }
}

impl SchemeTag<Id3v2Format> {
    /// Recovers an ID3v2 tag from a type-erased one. A tag that already
    /// has this shape is moved out unchanged; any other is materialized
    /// from its common fields, dropping scheme-specific fields.
    #[must_use]
    pub fn from_dyn(t: DynTag) -> (r: Self)
        ensures
            t matches DynTag::Id3v2(x) ==> r == x,
            t.kind() != TagKind::Id3v2 ==> r.tag_view() == t.tag_view().common().widened(),
    {
        match t {
            DynTag::Id3v2(x) => x,
            other => Self::from_anytag(&other.to_anytag()),
        }
    }
}

impl SchemeTag<VorbisFormat> {
    /// Recovers a Vorbis Comment tag from a type-erased one. A tag that
    /// already has this shape is moved out unchanged; any other is
    /// materialized from its common fields, dropping scheme-specific
    /// fields.
    #[must_use]
    pub fn from_dyn(t: DynTag) -> (r: Self)
        ensures
            t matches DynTag::Vorbis(x) ==> r == x,
            t.kind() != TagKind::Vorbis ==> r.tag_view() == t.tag_view().common().widened(),
    {
        match t {
            DynTag::Vorbis(x) => x,
            other => Self::from_anytag(&other.to_anytag()),
        }
    }
}

impl SchemeTag<Mp4Format> {
    /// Recovers an MP4 atom tag from a type-erased one. A tag that
    /// already has this shape is moved out unchanged; any other is
    /// materialized from its common fields, dropping scheme-specific
    /// fields.
    #[must_use]
    pub fn from_dyn(t: DynTag) -> (r: Self)
        ensures
            t matches DynTag::Mp4(x) ==> r == x,
            t.kind() != TagKind::Mp4 ==> r.tag_view() == t.tag_view().common().widened(),
    {
        match t {
            DynTag::Mp4(x) => x,
            other => Self::from_anytag(&other.to_anytag()),
        }
    }
}

/// The conversion engine: converts a type-erased tag into the scheme
/// asked for. A source that already has the target's concrete shape is
/// returned unchanged, moved, not re-encoded; any other source goes
/// through its common-field projection, which preserves every common
/// field and drops the scheme-specific ones. Conversion never fails.
#[must_use]
pub fn convert_dyn(src: DynTag, target: TagType) -> (r: DynTag)
    ensures
        r.kind() == target.kind(),
        src.kind() == target.kind() ==> r == src,
        src.kind() != target.kind() ==> r.tag_view() == src.tag_view().common().widened(),
{
    match target {
        TagType::Id3v2 => DynTag::Id3v2(SchemeTag::<Id3v2Format>::from_dyn(src)),
        TagType::Ogg | TagType::Opus | TagType::Flac => DynTag::Vorbis(
            SchemeTag::<VorbisFormat>::from_dyn(src),
        ),
        TagType::Mp4 => DynTag::Mp4(SchemeTag::<Mp4Format>::from_dyn(src)),
    }
}

} // verus!

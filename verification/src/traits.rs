use crate::anytag::{pic_opt_view, str_opt_view, Album, AnyTag, Picture, TagView};
use crate::tag::{DynTag, SchemeTag, TagKind};
use vstd::prelude::*;

verus! {

/// The tag schemes a tag can be converted to: a closed enumeration, one
/// value per supported on-disk encoding.
#[derive(Debug, Clone, Copy, PartialEq, Eq, Hash, Structural)]
pub enum TagType {
    /// An ID3v2 frame list.
    Id3v2,
    /// A Vorbis Comment block in an Ogg Vorbis stream.
    Ogg,
    /// A Vorbis Comment block in an Ogg Opus stream.
    Opus,
    /// A Vorbis Comment block in a FLAC file.
    Flac,
    /// An MP4 atom list.
    Mp4,
}

impl TagType {
    /// The concrete shape a tag of this scheme takes. The Ogg, Opus and
    /// Flac schemes all store Vorbis Comments, so they share one shape.
    pub open spec fn kind(self) -> TagKind {
        match self {
            TagType::Id3v2 => TagKind::Id3v2,
            TagType::Ogg => TagKind::Vorbis,
            TagType::Opus => TagKind::Vorbis,
            TagType::Flac => TagKind::Vorbis,
            TagType::Mp4 => TagKind::Mp4,
        }
    }
}

/// Why reading or writing a tag failed.
#[derive(Debug, Clone, PartialEq, Eq)]
pub enum TagError {
    /// The bytes were truncated, malformed or did not match the expected
    /// container signature. Raised by an external format parser and
    /// propagated unchanged.
    Read(String),
    /// The underlying storage could not be opened or written.
    Io(String),
}

/// Implementors of this trait are able to read and write audio metadata.
///
/// Constructor methods e.g. `from_path` should be implemented separately
/// (see [`ReadPath`]).
///
/// Every contract is stated over [`AudioTagEdit::tag_view`], the
/// observable state of the tag: each setter pins the whole new state,
/// each remover leaves the rest of the state unchanged, and each remover
/// is idempotent by construction (see
/// [`crate::lemma_removal_idempotent`]).
pub trait AudioTagEdit {
    /// The observable state of the tag.
    spec fn tag_view(&self) -> TagView;

    /// The track title, where one is set.
    fn title(&self) -> (r: Option<&str>)
        ensures
            str_opt_view(r) == self.tag_view().title,
    ;

    /// Sets the track title.
    fn set_title(&mut self, title: &str)
        ensures
            final(self).tag_view() == (TagView { title: Some(title@), ..old(self).tag_view() }),
    ;

    /// Removes the track title; a no-op where none is set.
    fn remove_title(&mut self)
        ensures
            final(self).tag_view() == (TagView { title: None, ..old(self).tag_view() }),
    ;

    /// The primary artist: the first of the artist list, where the list
    /// is not empty.
    fn artist(&self) -> (r: Option<&str>)
        ensures
            r is None <==> self.tag_view().artists.len() == 0,
            r matches Some(a) ==> a@ == self.tag_view().artists[0],
    ;

    /// Replaces the whole artist list with the one artist given.
    fn set_artist(&mut self, artist: &str)
        ensures
            final(self).tag_view() == (TagView {
                artists: seq![artist@],
                ..old(self).tag_view()
            }),
    ;

    /// Appends an artist to the artist list, keeping the order.
    fn add_artist(&mut self, artist: &str)
        ensures
            final(self).tag_view() == (TagView {
                artists: old(self).tag_view().artists.push(artist@),
                ..old(self).tag_view()
            }),
    ;

    /// The full artist list in read order, or `None` where it is empty.
    fn artists(&self) -> (r: Option<Vec<&str>>)
        ensures
            r is None <==> self.tag_view().artists.len() == 0,
            r matches Some(v) ==> v.deep_view() == self.tag_view().artists,
    ;

    /// Clears the artist list; a no-op where it is already empty.
    fn remove_artist(&mut self)
        ensures
            final(self).tag_view() == (TagView {
                artists: Seq::empty(),
                ..old(self).tag_view()
            }),
    ;

    /// The release year, where one is set.
    fn year(&self) -> (r: Option<u16>)
        ensures
            r == self.tag_view().year,
    ;

    /// Sets the release year.
    fn set_year(&mut self, year: u16)
        ensures
            final(self).tag_view() == (TagView { year: Some(year), ..old(self).tag_view() }),
    ;

    /// Removes the release year; a no-op where none is set.
    fn remove_year(&mut self)
        ensures
            final(self).tag_view() == (TagView { year: None, ..old(self).tag_view() }),
    ;

    /// The album, composed from the three album accessors; it is not
    /// independently stored.
    fn album(&self) -> (r: Album<'_>)
        ensures
            str_opt_view(r.title) == self.tag_view().album_title,
            r.artists is None <==> self.tag_view().album_artists.len() == 0,
            r.artists matches Some(v) ==> v.deep_view() == self.tag_view().album_artists,
            pic_opt_view(r.cover) == self.tag_view().album_cover,
    {
        Album { title: self.album_title(), artists: self.album_artists(), cover: self
            .album_cover() }
    }

    /// The album title, where one is set.
    fn album_title(&self) -> (r: Option<&str>)
        ensures
            str_opt_view(r) == self.tag_view().album_title,
    ;

    /// Sets the album title.
    fn set_album_title(&mut self, v: &str)
        ensures
            final(self).tag_view() == (TagView { album_title: Some(v@), ..old(self).tag_view() }),
    ;

    /// Removes the album title; a no-op where none is set.
    fn remove_album_title(&mut self)
        ensures
            final(self).tag_view() == (TagView { album_title: None, ..old(self).tag_view() }),
    ;

    /// The full album artist list in read order, or `None` where it is
    /// empty.
    fn album_artists(&self) -> (r: Option<Vec<&str>>)
        ensures
            r is None <==> self.tag_view().album_artists.len() == 0,
            r matches Some(v) ==> v.deep_view() == self.tag_view().album_artists,
    ;

    /// Replaces the whole album artist list with the one artist given.
    fn set_album_artists(&mut self, artists: String)
        ensures
            final(self).tag_view() == (TagView {
                album_artists: seq![artists@],
                ..old(self).tag_view()
            }),
    ;

    /// Appends an album artist to the album artist list, keeping the
    /// order.
    fn add_album_artist(&mut self, artist: &str)
        ensures
            final(self).tag_view() == (TagView {
                album_artists: old(self).tag_view().album_artists.push(artist@),
                ..old(self).tag_view()
            }),
    ;

    /// Clears the album artist list; a no-op where it is already empty.
    fn remove_album_artists(&mut self)
        ensures
            final(self).tag_view() == (TagView {
                album_artists: Seq::empty(),
                ..old(self).tag_view()
            }),
    ;

    /// The album cover, where one is set.
    fn album_cover(&self) -> (r: Option<Picture>)
        ensures
            pic_opt_view(r) == self.tag_view().album_cover,
    ;

    /// Sets the album cover.
    fn set_album_cover(&mut self, cover: Picture)
        ensures
            final(self).tag_view() == (TagView {
                album_cover: Some(cover@),
                ..old(self).tag_view()
            }),
    ;

    /// Removes the album cover; a no-op where none is set.
    fn remove_album_cover(&mut self)
        ensures
            final(self).tag_view() == (TagView { album_cover: None, ..old(self).tag_view() }),
    ;

    /// The track number and the total number of tracks, as one pair.
    fn track(&self) -> (r: (Option<u16>, Option<u16>))
        ensures
            r.0 == self.tag_view().track_number,
            r.1 == self.tag_view().total_tracks,
    {
        (self.track_number(), self.total_tracks())
    }

    /// Sets the track number; the total number of tracks is untouched.
    fn set_track(&mut self, track: u16)
        ensures
            final(self).tag_view() == (TagView {
                track_number: Some(track),
                ..old(self).tag_view()
            }),
    {
        self.set_track_number(track);
    }

    /// Removes both the track number and the total number of tracks; a
    /// no-op where neither is set.
    fn remove_track(&mut self)
        ensures
            final(self).tag_view() == (TagView {
                track_number: None,
                total_tracks: None,
                ..old(self).tag_view()
            }),
    {
        self.remove_track_number();
        self.remove_total_tracks();
    }

    /// The track number, where one is set.
    fn track_number(&self) -> (r: Option<u16>)
        ensures
            r == self.tag_view().track_number,
    ;

    /// Sets the track number.
    fn set_track_number(&mut self, track_number: u16)
        ensures
            final(self).tag_view() == (TagView {
                track_number: Some(track_number),
                ..old(self).tag_view()
            }),
    ;

    /// Removes the track number; a no-op where none is set.
    fn remove_track_number(&mut self)
        ensures
            final(self).tag_view() == (TagView { track_number: None, ..old(self).tag_view() }),
    ;

    /// The total number of tracks, where one is set.
    fn total_tracks(&self) -> (r: Option<u16>)
        ensures
            r == self.tag_view().total_tracks,
    ;

    /// Sets the total number of tracks.
    fn set_total_tracks(&mut self, total_track: u16)
        ensures
            final(self).tag_view() == (TagView {
                total_tracks: Some(total_track),
                ..old(self).tag_view()
            }),
    ;

    /// Removes the total number of tracks; a no-op where none is set.
    fn remove_total_tracks(&mut self)
        ensures
            final(self).tag_view() == (TagView { total_tracks: None, ..old(self).tag_view() }),
    ;

    /// The disc number and the total number of discs, as one pair.
    fn disc(&self) -> (r: (Option<u16>, Option<u16>))
        ensures
            r.0 == self.tag_view().disc_number,
            r.1 == self.tag_view().total_discs,
    {
        (self.disc_number(), self.total_discs())
    }

    /// Sets the disc number; the total number of discs is untouched.
    fn set_disc(&mut self, disc: u16)
        ensures
            final(self).tag_view() == (TagView {
                disc_number: Some(disc),
                ..old(self).tag_view()
            }),
    {
        self.set_disc_number(disc);
    }

    /// Removes both the disc number and the total number of discs; a
    /// no-op where neither is set.
    fn remove_disc(&mut self)
        ensures
            final(self).tag_view() == (TagView {
                disc_number: None,
                total_discs: None,
                ..old(self).tag_view()
            }),
    {
        self.remove_disc_number();
        self.remove_total_discs();
    }

    /// The disc number, where one is set.
    fn disc_number(&self) -> (r: Option<u16>)
        ensures
            r == self.tag_view().disc_number,
    ;

    /// Sets the disc number.
    fn set_disc_number(&mut self, disc_number: u16)
        ensures
            final(self).tag_view() == (TagView {
                disc_number: Some(disc_number),
                ..old(self).tag_view()
            }),
    ;

    /// Removes the disc number; a no-op where none is set.
    fn remove_disc_number(&mut self)
        ensures
            final(self).tag_view() == (TagView { disc_number: None, ..old(self).tag_view() }),
    ;

    /// The total number of discs, where one is set.
    fn total_discs(&self) -> (r: Option<u16>)
        ensures
            r == self.tag_view().total_discs,
    ;

    /// Sets the total number of discs.
    fn set_total_discs(&mut self, total_discs: u16)
        ensures
            final(self).tag_view() == (TagView {
                total_discs: Some(total_discs),
                ..old(self).tag_view()
            }),
    ;

    /// Removes the total number of discs; a no-op where none is set.
    fn remove_total_discs(&mut self)
        ensures
            final(self).tag_view() == (TagView { total_discs: None, ..old(self).tag_view() }),
    ;
}

/// A type-erased view of a tag, for runtime recovery of the concrete
/// scheme: erasure moves the value into the closed [`DynTag`] variant
/// set, and recovery is a match on it.
pub trait ToAny: AudioTagEdit {
    /// Erases the concrete scheme, moving the tag into the variant that
    /// carries it. The observable state is untouched.
    fn to_any(self) -> (r: DynTag) where Self: Sized
        ensures
            r.tag_view() == self.tag_view(),
    ;
}

/// Conversion of a tag into the scheme-agnostic intermediate
/// representation, and through it into another scheme.
pub trait ToAnyTag: ToAny {
    /// The [`AnyTag`] projection of this tag: the common field set,
    /// borrowed from the tag. Lossless for the common fields.
    fn to_anytag<'a>(&'a self) -> (r: AnyTag<'a>)
        ensures
            r@ == self.tag_view().common(),
    ;

    /// Convert the tag type, which can be lossy: a tag of the requested
    /// scheme is materialized from this tag's common fields, and every
    /// scheme-specific field is dropped.
    fn to_dyn_tag(&self, tag_type: TagType) -> (r: DynTag)
        ensures
            r.kind() == tag_type.kind(),
            r.tag_view() == self.tag_view().common().widened(),
    {
        match tag_type {
            TagType::Id3v2 => DynTag::Id3v2(SchemeTag::from_anytag(&self.to_anytag())),
            TagType::Ogg | TagType::Opus | TagType::Flac => DynTag::Vorbis(
                SchemeTag::from_anytag(&self.to_anytag()),
            ),
            TagType::Mp4 => DynTag::Mp4(SchemeTag::from_anytag(&self.to_anytag())),
        }
    }
}

/// A full tag implementation: uniform read/write access plus conversion
/// into any other supported scheme.
pub trait AudioTag: AudioTagEdit + ToAnyTag {

}

/// The constructor contract every concrete tag type provides: read a
/// file at `path`, with an optional format hint for containers that
/// content alone cannot identify. The byte-level parsing behind it is an
/// external collaborator; a failure is propagated unchanged.
pub trait ReadPath {
    /// Reads the tag of the file at `path`.
    fn from_path(path: &str, tag_type: Option<TagType>) -> (r: Result<Self, TagError>) where
        Self: Sized,
    ;
}

/// Removal is idempotent: for every remove operation of
/// [`AudioTagEdit`], removing from a state it was already applied to
/// gives that state back unchanged, and the removed field reads as
/// absent. One pair of clauses per remove operation, over the state
/// transformation its contract pins.
pub proof fn lemma_removal_idempotent(v: TagView)
    ensures
        (TagView { title: None, ..(TagView { title: None, ..v }) }) == (TagView {
            title: None,
            ..v
        }),
        (TagView { title: None, ..v }).title is None,
        (TagView { artists: Seq::empty(), ..(TagView { artists: Seq::empty(), ..v }) })
            == (TagView { artists: Seq::empty(), ..v }),
        (TagView { artists: Seq::empty(), ..v }).artists.len() == 0,
        (TagView { year: None, ..(TagView { year: None, ..v }) }) == (TagView {
            year: None,
            ..v
        }),
        (TagView { year: None, ..v }).year is None,
        (TagView { album_title: None, ..(TagView { album_title: None, ..v }) }) == (TagView {
            album_title: None,
            ..v
        }),
        (TagView { album_title: None, ..v }).album_title is None,
        (TagView {
            album_artists: Seq::empty(),
            ..(TagView { album_artists: Seq::empty(), ..v })
        }) == (TagView { album_artists: Seq::empty(), ..v }),
        (TagView { album_artists: Seq::empty(), ..v }).album_artists.len() == 0,
        (TagView { album_cover: None, ..(TagView { album_cover: None, ..v }) }) == (TagView {
            album_cover: None,
            ..v
        }),
        (TagView { album_cover: None, ..v }).album_cover is None,
        (TagView { track_number: None, ..(TagView { track_number: None, ..v }) }) == (TagView {
            track_number: None,
            ..v
        }),
        (TagView { track_number: None, ..v }).track_number is None,
        (TagView { total_tracks: None, ..(TagView { total_tracks: None, ..v }) }) == (TagView {
            total_tracks: None,
            ..v
        }),
        (TagView { total_tracks: None, ..v }).total_tracks is None,
        (TagView { disc_number: None, ..(TagView { disc_number: None, ..v }) }) == (TagView {
            disc_number: None,
            ..v
        }),
        (TagView { disc_number: None, ..v }).disc_number is None,
        (TagView { total_discs: None, ..(TagView { total_discs: None, ..v }) }) == (TagView {
            total_discs: None,
            ..v
        }),
        (TagView { total_discs: None, ..v }).total_discs is None,
        (TagView {
            track_number: None,
            total_tracks: None,
            ..(TagView { track_number: None, total_tracks: None, ..v })
        }) == (TagView { track_number: None, total_tracks: None, ..v }),
        (TagView {
            disc_number: None,
            total_discs: None,
            ..(TagView { disc_number: None, total_discs: None, ..v })
        }) == (TagView { disc_number: None, total_discs: None, ..v }),
{
}

/// Track/disc composition: setting the track number leaves the total
/// number of tracks untouched and the pair then reads as the number set
/// plus the previous total; removing the track leaves both absent. The
/// disc pair behaves the same way.
pub proof fn lemma_track_disc_composition(v: TagView, n: u16)
    ensures
        (TagView { track_number: Some(n), ..v }).track_number == Some(n),
        (TagView { track_number: Some(n), ..v }).total_tracks == v.total_tracks,
        (TagView { track_number: None, total_tracks: None, ..v }).track_number is None,
        (TagView { track_number: None, total_tracks: None, ..v }).total_tracks is None,
        (TagView { disc_number: Some(n), ..v }).disc_number == Some(n),
        (TagView { disc_number: Some(n), ..v }).total_discs == v.total_discs,
        (TagView { disc_number: None, total_discs: None, ..v }).disc_number is None,
        (TagView { disc_number: None, total_discs: None, ..v }).total_discs is None,
{
}

} // verus!

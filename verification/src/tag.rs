//! ID3 tag data and the bounded staging of its fields.
//!
//! The native tag setters take null-terminated byte pointers, so every
//! text field has to be staged: truncated to a fixed cap and given a
//! terminating zero byte before the engine may see it.  Album art is
//! passed verbatim with an explicit length, but only up to a fixed
//! ceiling; an oversized image fails the whole operation before any
//! native call would be made.  [`Id3Tag::stage`] performs the whole
//! validation and staging step and is the verified core of tag
//! application; the unverified layer around this crate merely hands each
//! staged buffer to the matching native setter, in field order.

use crate::error::Id3TagError;
use vstd::prelude::*;
use vstd::slice::{slice_subrange, slice_to_vec};

verus! {

/// Maximum size of album art
pub const MAX_ALBUM_ART_SIZE: usize = 128 * 1024;

/// Longest prefix of a text field that is kept when staging it.
pub const TEXT_FIELD_CAP: usize = 250;

/// ID3 tag as raw bytes.
///
/// Use empty slice for `None`
///
/// At the current moment, only up to 250 characters will be copied.
pub struct Id3Tag<'a> {
    /// Track's Title
    pub title: &'a [u8],
    /// Artist name
    pub artist: &'a [u8],
    /// Album name
    pub album: &'a [u8],
    /// Album art
    ///
    /// Must be image data.
    ///
    /// Allowed formats: PNG, JPG, GIF
    ///
    /// Maximum size is defined by constant MAX_ALBUM_ART_SIZE
    pub album_art: &'a [u8],
    /// Year
    pub year: &'a [u8],
    /// Comment
    pub comment: &'a [u8],
}

/// A text field as the engine receives it: the field truncated to
/// [`TEXT_FIELD_CAP`] bytes, with a terminating zero byte appended.
pub open spec fn staged_text(field: Seq<u8>) -> Seq<u8> {
    if field.len() <= TEXT_FIELD_CAP {
        field.push(0u8)
    } else {
        field.take(TEXT_FIELD_CAP as int).push(0u8)
    }
}

/// Whether `staged` is the staging of text field `field`: absent exactly
/// when the field is empty, otherwise its truncated, null-terminated copy.
pub open spec fn staged_field_ok(staged: Option<Vec<u8>>, field: Seq<u8>) -> bool {
    match staged {
        None => field.len() == 0,
        Some(v) => field.len() > 0 && v@ == staged_text(field),
    }
}

/// Whether `staged` is the staging of the album-art field: absent exactly
/// when the field is empty, otherwise a verbatim copy.
pub open spec fn staged_art_ok(staged: Option<Vec<u8>>, field: Seq<u8>) -> bool {
    match staged {
        None => field.len() == 0,
        Some(v) => field.len() > 0 && v@ == field,
    }
}

/// Copies a text field into an owned buffer the engine can take a
/// pointer to: at most [`TEXT_FIELD_CAP`] bytes of the field, followed
/// by a terminating zero byte.
pub fn stage_text_field(field: &[u8]) -> (out: Vec<u8>)
    ensures
        out@ == staged_text(field@),
{
    let size: usize = if field.len() < TEXT_FIELD_CAP {
        field.len()
    } else {
        TEXT_FIELD_CAP
    };
    let mut out: Vec<u8> = slice_to_vec(slice_subrange(field, 0, size));
    out.push(0u8);
    out
}

/// Every staged text field fits the engine's scratch contract: it is
/// never longer than [`TEXT_FIELD_CAP`] plus the terminating zero, it is
/// never empty, and its last byte is the terminating zero.  This is what
/// makes a buffer of `TEXT_FIELD_CAP + 1` bytes always large enough to
/// hold a staged field, whatever the caller supplied.
pub proof fn lemma_staged_text_bounded(field: Seq<u8>)
    ensures
        1 <= staged_text(field).len() <= TEXT_FIELD_CAP + 1,
        staged_text(field).last() == 0u8,
{
}

/// The staged form of one whole tag: each non-empty field copied into an
/// owned buffer, text fields truncated and null-terminated, album art
/// verbatim.  Fields stand in the order in which the native setters are
/// called.
#[derive(Debug)]
pub struct TagPlan {
    /// Album art, verbatim; passed with an explicit length.
    pub album_art: Option<Vec<u8>>,
    /// Track title, truncated and null-terminated.
    pub title: Option<Vec<u8>>,
    /// Album name, truncated and null-terminated.
    pub album: Option<Vec<u8>>,
    /// Artist name, truncated and null-terminated.
    pub artist: Option<Vec<u8>>,
    /// Year, truncated and null-terminated.
    pub year: Option<Vec<u8>>,
    /// Comment, truncated and null-terminated.
    pub comment: Option<Vec<u8>>,
}

impl TagPlan {
    /// Whether this plan stages exactly the non-empty fields of `tag`.
    pub open spec fn is_staging_of<'a>(self, tag: Id3Tag<'a>) -> bool {
        &&& staged_art_ok(self.album_art, tag.album_art@)
        &&& staged_field_ok(self.title, tag.title@)
        &&& staged_field_ok(self.album, tag.album@)
        &&& staged_field_ok(self.artist, tag.artist@)
        &&& staged_field_ok(self.year, tag.year@)
        &&& staged_field_ok(self.comment, tag.comment@)
    }
}

impl<'a> Id3Tag<'a> {
    /// True when at least one field is non-empty.
    pub open spec fn spec_is_any_set(&self) -> bool {
        self.title@.len() > 0 || self.artist@.len() > 0 || self.album@.len() > 0
            || self.album_art@.len() > 0 || self.year@.len() > 0 || self.comment@.len() > 0
    }

    /// Returns true if any is set
    pub fn is_any_set(&self) -> (r: bool)
        ensures
            r == self.spec_is_any_set(),
    {
        !self.title.is_empty() || !self.artist.is_empty() || !self.album.is_empty()
            || !self.album_art.is_empty() || !self.year.is_empty() || !self.comment.is_empty()
    }

    /// Validates this tag and stages every non-empty field.
    ///
    /// A tag with no non-empty field needs no native call at all and
    /// yields `Ok(None)`.  Album art larger than [`MAX_ALBUM_ART_SIZE`]
    /// fails the whole operation, before anything is staged.  Otherwise
    /// the returned plan holds exactly the buffers the native setters
    /// are to receive.
    pub fn stage(&self) -> (r: Result<Option<TagPlan>, Id3TagError>)
        ensures
            !self.spec_is_any_set() ==> r == Ok::<Option<TagPlan>, Id3TagError>(None),
            self.spec_is_any_set() && self.album_art@.len() > MAX_ALBUM_ART_SIZE ==> r == Err::<
                Option<TagPlan>,
                Id3TagError,
            >(Id3TagError::AlbumArtOverflow),
            self.spec_is_any_set() && self.album_art@.len() <= MAX_ALBUM_ART_SIZE ==> (r matches Ok(
                p,
            ) && p matches Some(plan) && plan.is_staging_of(*self)),
    {
        if !self.is_any_set() {
            return Ok(None);
        }
        if self.album_art.len() > MAX_ALBUM_ART_SIZE {
            return Err(Id3TagError::AlbumArtOverflow);
        }
        let album_art = if !self.album_art.is_empty() {
            Some(slice_to_vec(self.album_art))
        } else {
            None
        };
        let title = if !self.title.is_empty() {
            Some(stage_text_field(self.title))
        } else {
            None
        };
        let album = if !self.album.is_empty() {
            Some(stage_text_field(self.album))
        } else {
            None
        };
        let artist = if !self.artist.is_empty() {
            Some(stage_text_field(self.artist))
        } else {
            None
        };
        let year = if !self.year.is_empty() {
            Some(stage_text_field(self.year))
        } else {
            None
        };
        let comment = if !self.comment.is_empty() {
            Some(stage_text_field(self.comment))
        } else {
            None
        };
        Ok(Some(TagPlan { album_art, title, album, artist, year, comment }))
    }
}

} // verus!

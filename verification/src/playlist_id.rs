//! Identifiers of playlists.

use uuid::Uuid;
use vstd::prelude::*;
use crate::model::optional;

verus! {

/// A playlist, identified by the 128 bits of its UUID.
#[derive(Clone, Copy, Debug, PartialEq, Eq, Structural)]
pub struct PlaylistId {
    pub value: u128,
}

/// The 128 bits that `uuid::Uuid` reads out of `text`, and `None` if it finds no UUID in it.
pub uninterp spec fn uuid_value(text: Seq<char>) -> Option<u128>;

/// The playlist that `text` identifies, if it is a UUID.
pub open spec fn playlist_id(text: Seq<char>) -> Option<PlaylistId> {
    match uuid_value(text) {
        Some(value) => Some(PlaylistId { value }),
        None => None,
    }
}

/// The outcome of reading an identifier that may be missing: `None` if it is missing, `Some(None)`
/// if it is there and no UUID.
pub open spec fn optional_playlist_id(text: Option<Seq<char>>) -> Option<Option<PlaylistId>> {
    match text {
        Some(inner) => Some(playlist_id(inner)),
        None => None,
    }
}

/// A text identifies a playlist exactly if it is a UUID, and the playlist has its bits.
pub proof fn identified_by_bits(text: Seq<char>, value: u128)
    ensures
        playlist_id(text) == Some(PlaylistId { value }) <==> uuid_value(text) == Some(value),
        playlist_id(text) is None <==> uuid_value(text) is None,
        optional_playlist_id(Some(text)) == Some(playlist_id(text)),
        optional_playlist_id(None) is None,
{
}

/// Reads a UUID with `uuid::Uuid`'s `FromStr` and hands out its bits by `Uuid::as_u128`.
///
/// The parser takes the plain, the hyphenated, the braced and the URN form. Which bits it reads
/// depends on `text` alone; they are called [`uuid_value`].
#[verifier::external_body]
fn parse_uuid(text: &str) -> (result: Option<u128>)
    ensures
        result == uuid_value(text@),
{
    match text.parse::<Uuid>() {
        Ok(uuid) => Some(uuid.as_u128()),
        Err(_) => None,
    }
}

impl PlaylistId {
    /// The playlist that `text` identifies, if it is a UUID.
    pub fn parse(text: &str) -> (result: Option<PlaylistId>)
        ensures
            result == playlist_id(text@),
            match uuid_value(text@) {
                Some(value) => result matches Some(id) && id.value == value,
                None => result is None,
            },
    {
        match parse_uuid(text) {
            Some(value) => Some(PlaylistId { value }),
            None => None,
        }
    }

    /// Reads an identifier that may be missing.
    pub fn parse_optional(text: &Option<String>) -> (result: Option<Option<PlaylistId>>)
        ensures
            result == optional_playlist_id(optional(*text)),
            text is None <==> result is None,
            text matches Some(inner) ==> match uuid_value(inner@) {
                Some(value) => result == Some(Some(PlaylistId { value })),
                None => result == Some(None::<PlaylistId>),
            },
    {
        match text {
            Some(inner) => Some(PlaylistId::parse(inner.as_str())),
            None => None,
        }
    }
}

} // verus!

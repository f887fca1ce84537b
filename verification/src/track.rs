//! The track object of the host and the descriptor read from it.
//!
//! [`Method::GetName`]: crate::vtable::Method::GetName
//! [`Method::GetArtist`]: crate::vtable::Method::GetArtist

use crate::hresult::{check, ComError, Reply};
use vstd::prelude::*;

verus! {

/// Name and artist of a track, as owned text.
#[derive(Clone, Debug, PartialEq, Eq)]
pub struct TrackInfo {
    pub name: String,
    pub artist: String,
}

/// The text a [`TrackInfo`] holds.
pub struct TrackText {
    pub name: Seq<char>,
    pub artist: Seq<char>,
}

impl View for TrackInfo {
    type V = TrackText;

    open spec fn view(&self) -> TrackText {
        TrackText { name: self.name@, artist: self.artist@ }
    }
}

/// A track object of the host, held as what it answers to the two reads this
/// library makes of it.
#[derive(Clone, Debug, PartialEq, Eq)]
pub struct IITTrack {
    /// The reply to the call of [`Method::GetName`].
    pub name: Reply<String>,
    /// The reply to the call of [`Method::GetArtist`].
    pub artist: Reply<String>,
}

/// The answers of a track object, with text as sequences of characters.
pub struct TrackAnswers {
    pub name: Reply<Seq<char>>,
    pub artist: Reply<Seq<char>>,
}

impl View for IITTrack {
    type V = TrackAnswers;

    open spec fn view(&self) -> TrackAnswers {
        TrackAnswers {
            name: Reply { code: self.name.code, value: self.name.value@ },
            artist: Reply { code: self.artist.code, value: self.artist.value@ },
        }
    }
}

/// The characters of a text result; an error stays as it is.
pub open spec fn text_of(r: Result<String, ComError>) -> Result<Seq<char>, ComError> {
    match r {
        Ok(text) => Ok(text@),
        Err(e) => Err(e),
    }
}

/// Copies the text out of a reply if the call behind it succeeded.
fn read_text(reply: &Reply<String>) -> (r: Result<String, ComError>)
    ensures
        text_of(r) == (Reply { code: reply.code, value: reply.value@ }).decoded(),
{
    match check(reply.code) {
        Ok(()) => Ok(reply.value.clone()),
        Err(e) => Err(e),
    }
}

#[allow(non_snake_case)]
impl IITTrack {
    /// The track's name, or the error of the read that failed.
    pub fn GetName(&self) -> (r: Result<String, ComError>)
        ensures
            text_of(r) == self@.name.decoded(),
    {
        read_text(&self.name)
    }

    /// The track's artist, or the error of the read that failed.
    pub fn GetArtist(&self) -> (r: Result<String, ComError>)
        ensures
            text_of(r) == self@.artist.decoded(),
    {
        read_text(&self.artist)
    }
}

} // verus!

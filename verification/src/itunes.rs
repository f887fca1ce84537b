//! The application object of the host and the queries made of it.
//!
//! [`Method::GetPlayerState`]: crate::vtable::Method::GetPlayerState
//! [`Method::GetPlayerPosition`]: crate::vtable::Method::GetPlayerPosition
//! [`Method::GetCurrentTrack`]: crate::vtable::Method::GetCurrentTrack

use crate::hresult::{check, succeeded, ComError, Reply};
use crate::track::{IITTrack, TrackAnswers, TrackInfo, TrackText};
use std::time::Duration;
use vstd::prelude::*;

verus! {

/// The player state code with which the host reports that it is playing.
pub const PLAYER_STATE_PLAYING: i32 = 1;

/// The application object of the host, held as what it answers to the three
/// reads this library makes of it.
#[derive(Clone, Debug, PartialEq, Eq)]
pub struct IiTunes {
    /// The reply to the call of [`Method::GetPlayerState`].
    pub state: Reply<i32>,
    /// The reply to the call of [`Method::GetPlayerPosition`], in seconds.
    pub position: Reply<i64>,
    /// The reply to the call of [`Method::GetCurrentTrack`]; no track object
    /// where the host handed back none.
    pub track: Reply<Option<IITTrack>>,
}

/// The answers of the application object, with text as sequences of
/// characters.
pub struct HostAnswers {
    pub state: Reply<i32>,
    pub position: Reply<i64>,
    pub track: Reply<Option<TrackAnswers>>,
}

/// The answers of an optional track object.
pub open spec fn track_answers(track: Option<IITTrack>) -> Option<TrackAnswers> {
    match track {
        Some(t) => Some(t@),
        None => None,
    }
}

impl View for IiTunes {
    type V = HostAnswers;

    open spec fn view(&self) -> HostAnswers {
        HostAnswers {
            state: self.state,
            position: self.position,
            track: Reply { code: self.track.code, value: track_answers(self.track.value) },
        }
    }
}

/// The answers of the track object inside a result of the current track read.
pub open spec fn fetched_answers(r: Result<Option<&IITTrack>, ComError>) -> Result<
    Option<TrackAnswers>,
    ComError,
> {
    match r {
        Ok(Some(t)) => Ok(Some(t@)),
        Ok(None) => Ok(None),
        Err(e) => Err(e),
    }
}

#[allow(non_snake_case)]
impl IiTunes {
    /// The player state code, or the error of the read that failed.
    pub fn GetPlayerState(&self) -> (r: Result<i32, ComError>)
        ensures
            r == self@.state.decoded(),
    {
        self.state.ok()
    }

    /// The player position in seconds as the host gave it, or the error of the
    /// read that failed.
    pub fn GetPlayerPosition(&self) -> (r: Result<i64, ComError>)
        ensures
            r == self@.position.decoded(),
    {
        self.position.ok()
    }

    /// The current track object, none if the host has no current track, or the
    /// error of the read that failed.
    pub fn GetCurrentTrack(&self) -> (r: Result<Option<&IITTrack>, ComError>)
        ensures
            fetched_answers(r) == self@.track.decoded(),
    {
        match check(self.track.code) {
            Ok(()) => Ok(self.track.value.as_ref()),
            Err(e) => Err(e),
        }
    }
}

/// Whether the host answered the status query at all.
pub open spec fn alive(host: HostAnswers) -> bool {
    succeeded(host.state.code)
}

/// Whether the host answered the status query with the playing code.
pub open spec fn playing(host: HostAnswers) -> bool {
    succeeded(host.state.code) && host.state.value == PLAYER_STATE_PLAYING
}

/// Name and artist of the current track: present exactly when the current
/// track read succeeded and handed back a track object, and both reads on that
/// object succeeded.
pub open spec fn current_track(host: HostAnswers) -> Option<TrackText> {
    if succeeded(host.track.code) && host.track.value is Some
        && succeeded(host.track.value->Some_0.name.code)
        && succeeded(host.track.value->Some_0.artist.code) {
        Some(
            TrackText {
                name: host.track.value->Some_0.name.value,
                artist: host.track.value->Some_0.artist.value,
            },
        )
    } else {
        None
    }
}

/// The elapsed time in a reply to the position read: present exactly when the
/// read succeeded with a position that is not negative, and then that many
/// whole seconds.
pub open spec fn elapsed_in(position: Reply<i64>) -> Option<Duration> {
    if succeeded(position.code) && position.value >= 0 {
        Some(whole_seconds(position.value as u64))
    } else {
        None
    }
}

/// The elapsed time that the host answered.
pub open spec fn elapsed(host: HostAnswers) -> Option<Duration> {
    elapsed_in(host.position)
}

/// The text of an optional track descriptor.
pub open spec fn info_text(info: Option<TrackInfo>) -> Option<TrackText> {
    match info {
        Some(i) => Some(i@),
        None => None,
    }
}

/// The `Duration` of a number of whole seconds, as `Duration::from_secs` makes
/// it.
pub uninterp spec fn whole_seconds(secs: u64) -> Duration;

/// `Duration::from_secs` of the standard library. Trusted: what it makes
/// depends on the number of seconds alone.
pub assume_specification[ Duration::from_secs ](secs: u64) -> (d: Duration)
    ensures
        d == whole_seconds(secs),
;

/// The duration of a position read: that many whole seconds, or nothing for a
/// failed read and for a position below zero, which is no elapsed time.
pub(crate) fn elapsed_of(position: Result<i64, ComError>) -> (r: Option<Duration>)
    ensures
        position matches Ok(secs) ==> r == (if secs >= 0 {
            Some(whole_seconds(secs as u64))
        } else {
            None
        }),
        position is Err ==> r is None,
{
    match position {
        Ok(secs) => if secs >= 0 {
            Some(Duration::from_secs(secs as u64))
        } else {
            None
        },
        Err(_) => None,
    }
}

/// The replies of one poll of the host, taken over a connection that was
/// made. Its queries are answered from these replies: they do not ask the host
/// again.
#[derive(Debug)]
pub struct ITunes(IiTunes);

impl View for ITunes {
    type V = HostAnswers;

    closed spec fn view(&self) -> HostAnswers {
        self.0@
    }
}

/// Two polls agree wherever the host answered alike: each query is decided by
/// the one reply it reads, the track query by that reply and the replies of
/// the track object in it.
pub proof fn lemma_polls_agree(first: HostAnswers, second: HostAnswers)
    ensures
        first.state == second.state ==> alive(first) == alive(second) && playing(first)
            == playing(second),
        first.position == second.position ==> elapsed(first) == elapsed(second),
        first.track == second.track ==> current_track(first) == current_track(second),
{
}

/// What connecting yields: the error of the runtime initialisation if that
/// failed, else the error of creating the application object if that failed,
/// else the application object.
pub open spec fn connected(runtime: i32, instance: Result<IiTunes, ComError>) -> Result<
    HostAnswers,
    ComError,
> {
    if !succeeded(runtime) {
        Err(ComError { code: runtime })
    } else {
        match instance {
            Ok(host) => Ok(host@),
            Err(e) => Err(e),
        }
    }
}

/// The answers behind a result of connecting.
pub open spec fn connection_answers(r: Result<ITunes, ComError>) -> Result<HostAnswers, ComError> {
    match r {
        Ok(itunes) => Ok(itunes@),
        Err(e) => Err(e),
    }
}

impl ITunes {
    /// The poll of a connection, given the status code of initialising the
    /// automation runtime and the outcome of creating the application object,
    /// with what it answered. A failure of either is the connection error;
    /// nothing else fails.
    pub fn new(runtime: i32, instance: Result<IiTunes, ComError>) -> (r: Result<ITunes, ComError>)
        ensures
            connection_answers(r) == connected(runtime, instance),
    {
        match check(runtime) {
            Ok(()) => match instance {
                Ok(host) => Ok(ITunes(host)),
                Err(e) => Err(e),
            },
            Err(e) => Err(e),
        }
    }

    fn get_instance(&self) -> (host: &IiTunes)
        ensures
            host@ == self@,
    {
        &self.0
    }

    /// Whether the host answers: true exactly when the status query
    /// succeeded.
    pub fn check_if_alive(&self) -> (r: bool)
        ensures
            r == alive(self@),
    {
        self.get_instance().GetPlayerState().is_ok()
    }

    /// Whether the host is playing: true exactly when the status query
    /// succeeded with the playing code. A failed query counts as not playing.
    pub fn is_playing(&self) -> (r: bool)
        ensures
            r == playing(self@),
    {
        match self.get_instance().GetPlayerState() {
            Ok(state) => state == PLAYER_STATE_PLAYING,
            Err(_) => false,
        }
    }

    /// Name and artist of the current track. Every failure on the way, and the
    /// absence of a current track, come out as no value.
    pub fn get_current_track_info(&self) -> (r: Option<TrackInfo>)
        ensures
            info_text(r) == current_track(self@),
    {
        match self.get_instance().GetCurrentTrack() {
            Ok(Some(track)) => match track.GetName() {
                Ok(name) => match track.GetArtist() {
                    Ok(artist) => Some(TrackInfo { name, artist }),
                    Err(_) => None,
                },
                Err(_) => None,
            },
            _ => None,
        }
    }

    /// The elapsed playing time: as many whole seconds as the host gave, zero
    /// being a value like any other. No value if the position read failed or
    /// the host gave a position below zero.
    pub fn get_player_position(&self) -> (r: Option<Duration>)
        ensures
            r == elapsed(self@),
    {
        elapsed_of(self.get_instance().GetPlayerPosition())
    }
}

} // verus!

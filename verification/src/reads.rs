//! What to ask the host next.
//!
//! A query is a short run of reads. The functions here take the replies that a
//! query has so far and say which read comes next, or what the answer is. The
//! caller makes the read and comes back with the reply; nothing is read that
//! the answer does not need.

use crate::hresult::{check, succeeded, ComError, Reply};
use crate::itunes::{
    alive, connected, current_track, elapsed, elapsed_in, elapsed_of, playing, HostAnswers,
    IiTunes, PLAYER_STATE_PLAYING,
};
use crate::track::{TrackInfo, TrackText};
use crate::vtable::Method;
use std::time::Duration;
use vstd::prelude::*;

verus! {

/// The next move of a query that makes one read.
#[derive(Clone, Copy, Debug, PartialEq, Eq)]
pub enum Step<T> {
    /// Call this method and come back with its reply.
    Read(Method),
    /// The query has its answer.
    Done(T),
}

/// The next move of the liveness query: the status read, then whether that
/// read succeeded.
pub open spec fn alive_step(state: Option<Reply<i32>>) -> Step<bool> {
    match state {
        None => Step::Read(Method::GetPlayerState),
        Some(reply) => Step::Done(succeeded(reply.code)),
    }
}

/// The next move of the playing query: the status read, then whether that
/// read succeeded with the playing code.
pub open spec fn playing_step(state: Option<Reply<i32>>) -> Step<bool> {
    match state {
        None => Step::Read(Method::GetPlayerState),
        Some(reply) => Step::Done(succeeded(reply.code) && reply.value == PLAYER_STATE_PLAYING),
    }
}

/// The next move of the position query: the position read, then the elapsed
/// time in its reply.
pub open spec fn position_step(position: Option<Reply<i64>>) -> Step<Option<Duration>> {
    match position {
        None => Step::Read(Method::GetPlayerPosition),
        Some(reply) => Step::Done(elapsed_in(reply)),
    }
}

/// The next move of the liveness query, given the reply to the status read if
/// it was made.
pub fn next_alive_read(state: Option<Reply<i32>>) -> (step: Step<bool>)
    ensures
        step == alive_step(state),
{
    match state {
        None => Step::Read(Method::GetPlayerState),
        Some(reply) => Step::Done(reply.ok().is_ok()),
    }
}

/// The next move of the playing query, given the reply to the status read if
/// it was made.
pub fn next_playing_read(state: Option<Reply<i32>>) -> (step: Step<bool>)
    ensures
        step == playing_step(state),
{
    match state {
        None => Step::Read(Method::GetPlayerState),
        Some(reply) => match reply.ok() {
            Ok(code) => Step::Done(code == PLAYER_STATE_PLAYING),
            Err(_) => Step::Done(false),
        },
    }
}

/// The next move of the position query, given the reply to the position read
/// if it was made.
pub fn next_position_read(position: Option<Reply<i64>>) -> (step: Step<Option<Duration>>)
    ensures
        step == position_step(position),
{
    match position {
        None => Step::Read(Method::GetPlayerPosition),
        Some(reply) => Step::Done(elapsed_of(reply.ok())),
    }
}

/// The next move of the track query.
#[derive(Clone, Debug, PartialEq, Eq)]
pub enum TrackStep {
    /// Read the current track object from the application object.
    FetchTrack,
    /// Read the name from the track object.
    ReadName,
    /// Read the artist from the track object.
    ReadArtist,
    /// The query has its answer.
    Done(Option<TrackInfo>),
}

/// A move of the track query, with text as sequences of characters.
pub enum TrackMove {
    FetchTrack,
    ReadName,
    ReadArtist,
    Done(Option<TrackText>),
}

impl View for TrackStep {
    type V = TrackMove;

    open spec fn view(&self) -> TrackMove {
        match *self {
            TrackStep::FetchTrack => TrackMove::FetchTrack,
            TrackStep::ReadName => TrackMove::ReadName,
            TrackStep::ReadArtist => TrackMove::ReadArtist,
            TrackStep::Done(Some(info)) => TrackMove::Done(Some(info@)),
            TrackStep::Done(None) => TrackMove::Done(None),
        }
    }
}

/// The method that a move of the track query calls; none once it is done.
pub open spec fn method_of(step: TrackMove) -> Option<Method> {
    match step {
        TrackMove::FetchTrack => Some(Method::GetCurrentTrack),
        TrackMove::ReadName => Some(Method::GetName),
        TrackMove::ReadArtist => Some(Method::GetArtist),
        TrackMove::Done(_) => None,
    }
}

impl TrackStep {
    /// The method that this move calls; none once the query is done.
    pub fn method(&self) -> (m: Option<Method>)
        ensures
            m == method_of(self@),
    {
        match self {
            TrackStep::FetchTrack => Some(Method::GetCurrentTrack),
            TrackStep::ReadName => Some(Method::GetName),
            TrackStep::ReadArtist => Some(Method::GetArtist),
            TrackStep::Done(_) => None,
        }
    }
}

/// A text reply that may not have been asked for yet, with its text as a
/// sequence of characters.
pub open spec fn text_so_far(reply: Option<Reply<String>>) -> Option<Reply<Seq<char>>> {
    match reply {
        Some(r) => Some(Reply { code: r.code, value: r.value@ }),
        None => None,
    }
}

/// The next move of the track query. The reads come in the order track, name,
/// artist. The first of them that fails ends the query with no value, and so
/// does a track read that hands back no object; nothing is read after that.
/// With all three replies in and good, the answer is name and artist.
pub open spec fn track_step(
    track: Option<Reply<bool>>,
    name: Option<Reply<Seq<char>>>,
    artist: Option<Reply<Seq<char>>>,
) -> TrackMove {
    if track is None {
        TrackMove::FetchTrack
    } else if !succeeded(track->Some_0.code) || !track->Some_0.value {
        TrackMove::Done(None)
    } else if name is None {
        TrackMove::ReadName
    } else if !succeeded(name->Some_0.code) {
        TrackMove::Done(None)
    } else if artist is None {
        TrackMove::ReadArtist
    } else if !succeeded(artist->Some_0.code) {
        TrackMove::Done(None)
    } else {
        TrackMove::Done(Some(TrackText { name: name->Some_0.value, artist: artist->Some_0.value }))
    }
}

/// The next move of the track query, given the replies it has so far: that of
/// the track read, holding whether an object came back, and those of the name
/// read and the artist read.
pub fn next_track_read(
    track: Option<Reply<bool>>,
    name: &Option<Reply<String>>,
    artist: &Option<Reply<String>>,
) -> (step: TrackStep)
    ensures
        step@ == track_step(track, text_so_far(*name), text_so_far(*artist)),
{
    let track = match track {
        None => {
            return TrackStep::FetchTrack;
        },
        Some(reply) => reply,
    };
    match track.ok() {
        Ok(true) => {},
        _ => {
            return TrackStep::Done(None);
        },
    }
    let name = match name {
        None => {
            return TrackStep::ReadName;
        },
        Some(reply) => reply,
    };
    if check(name.code).is_err() {
        return TrackStep::Done(None);
    }
    let artist = match artist {
        None => {
            return TrackStep::ReadArtist;
        },
        Some(reply) => reply,
    };
    if check(artist.code).is_err() {
        return TrackStep::Done(None);
    }
    TrackStep::Done(Some(TrackInfo { name: name.value.clone(), artist: artist.value.clone() }))
}

/// The next move of connecting.
#[derive(Clone, Copy, Debug, PartialEq, Eq)]
pub enum ConnectStep {
    /// Initialise the automation runtime and come back with its status code.
    StartRuntime,
    /// Create the application object and come back with the outcome.
    CreateObject,
    /// Connecting has ended: the connection stands, or this is its error.
    Done(Result<(), ComError>),
}

/// The next move of connecting. The runtime comes first; if it does not start,
/// that is the error and no object is asked for. Else the object is created,
/// and its outcome is that of connecting.
pub open spec fn connect_step(
    runtime: Option<i32>,
    created: Option<Result<(), ComError>>,
) -> ConnectStep {
    if runtime is None {
        ConnectStep::StartRuntime
    } else if !succeeded(runtime->Some_0) {
        ConnectStep::Done(Err(ComError { code: runtime->Some_0 }))
    } else if created is None {
        ConnectStep::CreateObject
    } else {
        ConnectStep::Done(created->Some_0)
    }
}

/// The next move of connecting, given the status code of the runtime
/// initialisation and the outcome of creating the object, as far as they are
/// in.
pub fn next_connect_step(runtime: Option<i32>, created: Option<Result<(), ComError>>) -> (step:
    ConnectStep)
    ensures
        step == connect_step(runtime, created),
{
    let runtime = match runtime {
        None => {
            return ConnectStep::StartRuntime;
        },
        Some(code) => code,
    };
    match check(runtime) {
        Ok(()) => match created {
            None => ConnectStep::CreateObject,
            Some(outcome) => ConnectStep::Done(outcome),
        },
        Err(e) => ConnectStep::Done(Err(e)),
    }
}

/// Whether the track read of a host handed back an object, as a reply.
pub open spec fn track_present(host: HostAnswers) -> Reply<bool> {
    Reply { code: host.track.code, value: host.track.value is Some }
}

/// Where the track query ends when each read it asks for is answered as the
/// host answers it.
pub open spec fn track_run(host: HostAnswers) -> TrackMove {
    let track = Some(track_present(host));
    let object = host.track.value->Some_0;
    if track_step(track, None, None) != TrackMove::ReadName {
        track_step(track, None, None)
    } else if track_step(track, Some(object.name), None) != TrackMove::ReadArtist {
        track_step(track, Some(object.name), None)
    } else {
        track_step(track, Some(object.name), Some(object.artist))
    }
}

/// A query of one read asks for that read first and, with the reply in, ends
/// in the answer that a poll holding the same reply gives.
pub proof fn lemma_single_reads_end_as_polled(host: HostAnswers)
    ensures
        alive_step(None) == Step::<bool>::Read(Method::GetPlayerState),
        alive_step(Some(host.state)) == Step::Done(alive(host)),
        playing_step(None) == Step::<bool>::Read(Method::GetPlayerState),
        playing_step(Some(host.state)) == Step::Done(playing(host)),
        position_step(None) == Step::<Option<Duration>>::Read(Method::GetPlayerPosition),
        position_step(Some(host.position)) == Step::Done(elapsed(host)),
{
}

/// The track query begins with the track read and, answered read by read as
/// the host answers, ends in the answer that a poll of that host gives.
pub proof fn lemma_track_run_ends_as_polled(host: HostAnswers)
    ensures
        track_step(None, None, None) == TrackMove::FetchTrack,
        track_run(host) == TrackMove::Done(current_track(host)),
{
}

/// The track query asks for the name only of a track object that came back,
/// and for the artist only after the name read succeeded.
pub proof fn lemma_track_reads_in_order(
    track: Option<Reply<bool>>,
    name: Option<Reply<Seq<char>>>,
    artist: Option<Reply<Seq<char>>>,
)
    ensures
        track_step(track, name, artist) == TrackMove::ReadName ==> track is Some && succeeded(
            track->Some_0.code,
        ) && track->Some_0.value && name is None,
        track_step(track, name, artist) == TrackMove::ReadArtist ==> name is Some && succeeded(
            name->Some_0.code,
        ) && artist is None,
        track is Some && name is Some && !succeeded(name->Some_0.code) ==> track_step(
            track,
            name,
            artist,
        ) == TrackMove::Done(None),
{
}

/// The outcome of creating the application object without the object.
pub open spec fn created_as(instance: Result<IiTunes, ComError>) -> Result<(), ComError> {
    match instance {
        Ok(_) => Ok(()),
        Err(e) => Err(e),
    }
}

/// Connecting begins with the runtime, asks for the object only when the
/// runtime has started, and ends in an error exactly when the connection
/// made of the same two outcomes is that error.
pub proof fn lemma_connect_ends_as_decided(runtime: i32, instance: Result<IiTunes, ComError>)
    ensures
        connect_step(None, None) == ConnectStep::StartRuntime,
        connect_step(Some(runtime), None) == (if succeeded(runtime) {
            ConnectStep::CreateObject
        } else {
            ConnectStep::Done(Err(ComError { code: runtime }))
        }),
        connect_step(Some(runtime), Some(created_as(instance))) == ConnectStep::Done(
            match connected(runtime, instance) {
                Ok(_) => Ok(()),
                Err(e) => Err(e),
            },
        ),
{
}

} // verus!

use itunes_com::hresult::{ComError, Reply};
use itunes_com::itunes::{ITunes, IiTunes};
use itunes_com::reads::{
    next_alive_read, next_connect_step, next_playing_read, next_position_read, next_track_read,
    ConnectStep, Step, TrackStep,
};
use itunes_com::track::{IITTrack, TrackInfo};
use itunes_com::vtable::Method;
use std::time::Duration;

const E_FAIL: i32 = -2147467259;
const REGDB_E_CLASSNOTREG: i32 = -2147221164;

fn present(code: i32) -> Option<Reply<bool>> {
    Some(Reply { code, value: true })
}

fn said(code: i32, value: &str) -> Option<Reply<String>> {
    Some(Reply { code, value: String::from(value) })
}

#[test]
fn liveness_query_reads_the_status_once() {
    assert_eq!(next_alive_read(None), Step::Read(Method::GetPlayerState));
    assert_eq!(next_alive_read(Some(Reply { code: 0, value: 0 })), Step::Done(true));
    assert_eq!(next_alive_read(Some(Reply { code: 1, value: 7 })), Step::Done(true));
    assert_eq!(next_alive_read(Some(Reply { code: E_FAIL, value: 1 })), Step::Done(false));
}

#[test]
fn playing_query_reads_the_status_once() {
    assert_eq!(next_playing_read(None), Step::Read(Method::GetPlayerState));
    assert_eq!(next_playing_read(Some(Reply { code: 0, value: 1 })), Step::Done(true));
    assert_eq!(next_playing_read(Some(Reply { code: 0, value: 0 })), Step::Done(false));
    assert_eq!(next_playing_read(Some(Reply { code: 0, value: 2 })), Step::Done(false));
    assert_eq!(next_playing_read(Some(Reply { code: E_FAIL, value: 1 })), Step::Done(false));
}

#[test]
fn position_query_reads_the_position_once() {
    assert_eq!(next_position_read(None), Step::Read(Method::GetPlayerPosition));
    assert_eq!(
        next_position_read(Some(Reply { code: 0, value: 42 })),
        Step::Done(Some(Duration::from_secs(42)))
    );
    assert_eq!(
        next_position_read(Some(Reply { code: 0, value: 0 })),
        Step::Done(Some(Duration::ZERO))
    );
    assert_eq!(
        next_position_read(Some(Reply { code: 0, value: i64::MAX })),
        Step::Done(Some(Duration::from_secs(9_223_372_036_854_775_807)))
    );
}

#[test]
fn position_query_has_no_value_for_failure_or_a_negative_position() {
    assert_eq!(next_position_read(Some(Reply { code: E_FAIL, value: 42 })), Step::Done(None));
    assert_eq!(next_position_read(Some(Reply { code: 0, value: -1 })), Step::Done(None));
    assert_eq!(next_position_read(Some(Reply { code: 0, value: i64::MIN })), Step::Done(None));
}

#[test]
fn track_query_begins_with_the_track_read() {
    assert_eq!(next_track_read(None, &None, &None), TrackStep::FetchTrack);
    assert_eq!(next_track_read(None, &said(0, "n"), &said(0, "a")), TrackStep::FetchTrack);
}

#[test]
fn track_query_ends_when_the_track_read_fails() {
    let failed = Some(Reply { code: E_FAIL, value: true });
    assert_eq!(next_track_read(failed, &None, &None), TrackStep::Done(None));
    assert_eq!(next_track_read(failed, &said(0, "n"), &said(0, "a")), TrackStep::Done(None));
}

#[test]
fn track_query_ends_when_there_is_no_track() {
    let none = Some(Reply { code: 0, value: false });
    assert_eq!(next_track_read(none, &None, &None), TrackStep::Done(None));
    assert_eq!(next_track_read(none, &said(0, "n"), &said(0, "a")), TrackStep::Done(None));
}

#[test]
fn track_query_reads_the_name_of_a_track_that_came_back() {
    assert_eq!(next_track_read(present(0), &None, &None), TrackStep::ReadName);
    assert_eq!(next_track_read(present(1), &None, &said(0, "a")), TrackStep::ReadName);
}

#[test]
fn failed_name_read_ends_the_query_without_the_artist_read() {
    assert_eq!(next_track_read(present(0), &said(E_FAIL, "n"), &None), TrackStep::Done(None));
    assert_eq!(
        next_track_read(present(0), &said(-1, ""), &said(0, "a")),
        TrackStep::Done(None)
    );
}

#[test]
fn track_query_reads_the_artist_after_the_name() {
    assert_eq!(next_track_read(present(0), &said(0, "n"), &None), TrackStep::ReadArtist);
    assert_eq!(next_track_read(present(0), &said(0, ""), &None), TrackStep::ReadArtist);
}

#[test]
fn failed_artist_read_ends_the_query_with_no_value() {
    assert_eq!(
        next_track_read(present(0), &said(0, "n"), &said(E_FAIL, "a")),
        TrackStep::Done(None)
    );
}

#[test]
fn track_query_ends_with_name_and_artist() {
    assert_eq!(
        next_track_read(present(0), &said(0, "Blue in Green"), &said(0, "Miles Davis")),
        TrackStep::Done(Some(TrackInfo {
            name: String::from("Blue in Green"),
            artist: String::from("Miles Davis"),
        }))
    );
    assert_eq!(
        next_track_read(present(0), &said(0, ""), &said(1, "")),
        TrackStep::Done(Some(TrackInfo { name: String::new(), artist: String::new() }))
    );
}

#[test]
fn track_moves_name_their_methods() {
    assert_eq!(TrackStep::FetchTrack.method(), Some(Method::GetCurrentTrack));
    assert_eq!(TrackStep::ReadName.method(), Some(Method::GetName));
    assert_eq!(TrackStep::ReadArtist.method(), Some(Method::GetArtist));
    assert_eq!(TrackStep::Done(None).method(), None);
}

#[test]
fn connecting_begins_with_the_runtime() {
    assert_eq!(next_connect_step(None, None), ConnectStep::StartRuntime);
    assert_eq!(next_connect_step(None, Some(Ok(()))), ConnectStep::StartRuntime);
}

#[test]
fn connecting_ends_when_the_runtime_does_not_start() {
    let failed = ConnectStep::Done(Err(ComError { code: E_FAIL }));
    assert_eq!(next_connect_step(Some(E_FAIL), None), failed);
    assert_eq!(next_connect_step(Some(E_FAIL), Some(Ok(()))), failed);
    assert_eq!(
        next_connect_step(Some(E_FAIL), Some(Err(ComError { code: REGDB_E_CLASSNOTREG }))),
        failed
    );
}

#[test]
fn connecting_creates_the_object_once_the_runtime_is_up() {
    assert_eq!(next_connect_step(Some(0), None), ConnectStep::CreateObject);
    assert_eq!(next_connect_step(Some(1), None), ConnectStep::CreateObject);
}

#[test]
fn connecting_ends_as_creating_the_object_does() {
    assert_eq!(next_connect_step(Some(0), Some(Ok(()))), ConnectStep::Done(Ok(())));
    assert_eq!(
        next_connect_step(Some(0), Some(Err(ComError { code: REGDB_E_CLASSNOTREG }))),
        ConnectStep::Done(Err(ComError { code: REGDB_E_CLASSNOTREG }))
    );
}

fn run_track_query(host: &IiTunes) -> (Option<TrackInfo>, Vec<Method>) {
    let mut reads = Vec::new();
    let mut track = None;
    let mut name = None;
    let mut artist = None;
    loop {
        let step = next_track_read(track, &name, &artist);
        if let Some(method) = step.method() {
            reads.push(method);
        }
        match step {
            TrackStep::FetchTrack => {
                track = Some(Reply { code: host.track.code, value: host.track.value.is_some() });
            }
            TrackStep::ReadName => {
                name = host.track.value.as_ref().map(|t| t.name.clone());
            }
            TrackStep::ReadArtist => {
                artist = host.track.value.as_ref().map(|t| t.artist.clone());
            }
            TrackStep::Done(answer) => return (answer, reads),
        }
    }
}

fn host_with(track: Reply<Option<IITTrack>>) -> IiTunes {
    IiTunes { state: Reply { code: 0, value: 1 }, position: Reply { code: 0, value: 42 }, track }
}

fn a_track(name_code: i32, artist_code: i32) -> IITTrack {
    IITTrack {
        name: Reply { code: name_code, value: String::from("So What") },
        artist: Reply { code: artist_code, value: String::from("Miles Davis") },
    }
}

#[test]
fn stepwise_track_query_agrees_with_a_poll() {
    let hosts = [
        host_with(Reply { code: 0, value: Some(a_track(0, 0)) }),
        host_with(Reply { code: 0, value: Some(a_track(E_FAIL, 0)) }),
        host_with(Reply { code: 0, value: Some(a_track(0, E_FAIL)) }),
        host_with(Reply { code: 0, value: Some(a_track(E_FAIL, E_FAIL)) }),
        host_with(Reply { code: 0, value: None }),
        host_with(Reply { code: E_FAIL, value: None }),
        host_with(Reply { code: E_FAIL, value: Some(a_track(0, 0)) }),
    ];
    for host in hosts {
        let (answer, _) = run_track_query(&host);
        let polled = ITunes::new(0, Ok(host)).expect("connected").get_current_track_info();
        assert_eq!(answer, polled);
    }
}

#[test]
fn stepwise_track_query_reads_no_more_than_it_needs() {
    let all = host_with(Reply { code: 0, value: Some(a_track(0, 0)) });
    assert_eq!(
        run_track_query(&all).1,
        vec![Method::GetCurrentTrack, Method::GetName, Method::GetArtist]
    );
    let no_name = host_with(Reply { code: 0, value: Some(a_track(E_FAIL, 0)) });
    assert_eq!(run_track_query(&no_name).1, vec![Method::GetCurrentTrack, Method::GetName]);
    let no_track = host_with(Reply { code: 0, value: None });
    assert_eq!(run_track_query(&no_track).1, vec![Method::GetCurrentTrack]);
    let failed = host_with(Reply { code: E_FAIL, value: Some(a_track(0, 0)) });
    assert_eq!(run_track_query(&failed).1, vec![Method::GetCurrentTrack]);
}

#[test]
fn stepwise_single_reads_agree_with_a_poll() {
    for (code, value) in [(0, 1), (0, 0), (0, 2), (E_FAIL, 1), (1, 1)] {
        let mut host = host_with(Reply { code: 0, value: None });
        host.state = Reply { code, value };
        let polled = ITunes::new(0, Ok(host)).expect("connected");
        let reply = Some(Reply { code, value });
        assert_eq!(next_alive_read(reply), Step::Done(polled.check_if_alive()));
        assert_eq!(next_playing_read(reply), Step::Done(polled.is_playing()));
    }
    for (code, value) in [(0, 0i64), (0, 42), (0, -1), (E_FAIL, 42), (0, i64::MAX)] {
        let mut host = host_with(Reply { code: 0, value: None });
        host.position = Reply { code, value };
        let polled = ITunes::new(0, Ok(host)).expect("connected");
        assert_eq!(
            next_position_read(Some(Reply { code, value })),
            Step::Done(polled.get_player_position())
        );
    }
}

#[test]
fn stepwise_connecting_agrees_with_the_connection() {
    let host = host_with(Reply { code: 0, value: None });
    let cases = [
        (0, Ok(host.clone())),
        (E_FAIL, Ok(host)),
        (0, Err(ComError { code: REGDB_E_CLASSNOTREG })),
        (E_FAIL, Err(ComError { code: REGDB_E_CLASSNOTREG })),
    ];
    for (runtime, instance) in cases {
        let created = instance.as_ref().map(|_| ()).map_err(|e| *e);
        let step = next_connect_step(Some(runtime), Some(created));
        let connection = ITunes::new(runtime, instance).map(|_| ());
        assert_eq!(step, ConnectStep::Done(connection));
    }
}

use radio_bot::commands::station_stream;
use radio_bot::commands::{
    check_play_argument, is_playable, join_target, leave_check, now_playing, play_station, play_url,
    should_leave, station_description, stop, Reply, Report,
};
use radio_bot::provider::{parse_current_song, MetadataError};
use radio_bot::session::{NowPlaying, PlaybackSession, TrackMeta};
use radio_bot::station::StationID;

fn meta(title: &str, url: &str) -> TrackMeta {
    TrackMeta { title: Some(String::from(title)), source_url: Some(String::from(url)) }
}

fn is_nothing(s: &PlaybackSession) -> bool {
    matches!(s.read(), NowPlaying::Nothing)
}

#[test]
fn fresh_session_reports_nothing_playing() {
    let s = PlaybackSession::new();
    assert!(is_nothing(&s));
    assert!(matches!(now_playing(&s), Report::Nothing));
    assert_eq!(Reply::NothingPlaying.text(), "Nothing is playing");
}

#[test]
fn replace_hands_back_previous_and_last_wins() {
    let mut s = PlaybackSession::new();
    let prev = s.replace(NowPlaying::Youtube { track: meta("A", "https://a") });
    assert!(matches!(prev, NowPlaying::Nothing));
    let prev = s.replace(NowPlaying::Youtube { track: meta("B", "https://b") });
    match prev {
        NowPlaying::Youtube { track } => assert_eq!(track.title, Some(String::from("A"))),
        _ => panic!("expected the first track back"),
    }
    match s.read() {
        NowPlaying::Youtube { track } => assert_eq!(track.title, Some(String::from("B"))),
        _ => panic!("expected the second track"),
    }
}

#[test]
fn play_input_validation() {
    assert!(is_playable("https://example.com/a.mp3"));
    assert!(is_playable("http://x"));
    assert!(is_playable("dQw4w9WgXcQ"));
    assert!(is_playable("abc_def-123456"));
    assert!(!is_playable("short_id"));
    assert!(!is_playable("not a url at all"));
    assert!(!is_playable(""));
    assert_eq!(check_play_argument(None), Err(Reply::MissingSource));
    assert_eq!(check_play_argument(Some("ftp://x")), Err(Reply::InvalidSource));
    assert_eq!(check_play_argument(Some("https://example.com/a.mp3")), Ok(()));
    assert_eq!(Reply::InvalidSource.text(), "Must provide a valid URL");
}

#[test]
fn play_url_scenario() {
    let mut s = PlaybackSession::new();
    assert_eq!(check_play_argument(Some("https://example.com/a.mp3")), Ok(()));
    let r = play_url(&mut s, true, Some(meta("Track A", "https://example.com/a.mp3")));
    assert_eq!(r, Reply::PlayingSong);
    assert!(matches!(s.read(), NowPlaying::Youtube { .. }));
    match now_playing(&s) {
        Report::Track { title, url } => {
            assert_eq!(title, Some(String::from("Track A")));
            assert_eq!(url, Some(String::from("https://example.com/a.mp3")));
        }
        _ => panic!("expected a track report"),
    }
}

#[test]
fn play_url_failures_leave_state() {
    let mut s = PlaybackSession::new();
    assert_eq!(play_url(&mut s, true, None), Reply::SourcingFailed);
    assert!(is_nothing(&s));
    assert_eq!(play_url(&mut s, false, Some(meta("x", "y"))), Reply::NotInVoiceToPlay);
    assert!(is_nothing(&s));
}

#[test]
fn play_station_scenario() {
    let mut s = PlaybackSession::new();
    let station = StationID::from_alias("covers");
    assert_eq!(station, StationID::Covers);
    let body = r#"{"sched_current":{"songs":[{"title":"Song A","url":"",
        "albums":[{"name":"Album B","art":"/static/b.jpg"}]}]}}"#;
    let snapshot = parse_current_song(station, body);
    let r = play_station(&mut s, true, Some(meta("stream", "https://relay/covers")), snapshot);
    assert_eq!(r, Reply::PlayingSong);
    match s.read() {
        NowPlaying::OCRemix { playing, .. } => {
            assert_eq!(playing.title, "Song A");
            assert_eq!(playing.album, "Album B");
            assert_eq!(playing.album_url, "https://rainwave.cc/static/b.jpg_320.jpg");
            assert_eq!(playing.url, None);
        }
        _ => panic!("expected a station"),
    }
    match now_playing(&s) {
        Report::Station { title, url, thumbnail, description } => {
            assert_eq!(title, "Song A");
            assert_eq!(url, None);
            assert_eq!(thumbnail, "https://rainwave.cc/static/b.jpg_320.jpg");
            assert_eq!(description, "Album: Album B \nStation: Covers");
        }
        _ => panic!("expected a station report"),
    }
}

#[test]
fn play_station_metadata_failure_keeps_state() {
    let mut s = PlaybackSession::new();
    let station = StationID::from_alias("");
    assert_eq!(station, StationID::All);
    let snapshot = parse_current_song(station, "500 Internal Server Error");
    assert!(matches!(snapshot, Err(MetadataError::ProviderUnavailable)));
    let r = play_station(&mut s, true, Some(meta("stream", "https://relay/all")), snapshot);
    assert_eq!(r, Reply::MetadataFailed);
    assert!(is_nothing(&s));

    play_url(&mut s, true, Some(meta("Old", "https://old")));
    let r = play_station(&mut s, true, None, Err(MetadataError::MalformedResponse));
    assert_eq!(r, Reply::SourcingFailed);
    match s.read() {
        NowPlaying::Youtube { track } => assert_eq!(track.title, Some(String::from("Old"))),
        _ => panic!("state changed"),
    }
}

#[test]
fn stop_without_connection_keeps_state() {
    let mut s = PlaybackSession::new();
    play_url(&mut s, true, Some(meta("A", "https://a")));
    assert!(matches!(stop(&mut s, false), Err(Reply::NotInVoice)));
    assert!(matches!(s.read(), NowPlaying::Youtube { .. }));
    assert_eq!(Reply::NotInVoice.text(), "Not in a voice channel");
}

#[test]
fn stop_clears_state() {
    let mut s = PlaybackSession::new();
    play_url(&mut s, true, Some(meta("A", "https://a")));
    match stop(&mut s, true) {
        Ok(NowPlaying::Youtube { track }) => assert_eq!(track.title, Some(String::from("A"))),
        _ => panic!("expected the stopped track"),
    }
    assert!(is_nothing(&s));
    assert!(matches!(now_playing(&s), Report::Nothing));
}

#[test]
fn join_and_leave_decisions() {
    assert_eq!(join_target(Some(42)), Ok(42));
    assert_eq!(join_target(None), Err(Reply::NotInVoice));
    assert_eq!(leave_check(true), Ok(()));
    assert_eq!(leave_check(false), Err(Reply::NotInVoice));
}

#[test]
fn leaves_when_only_a_bot_remains() {
    assert!(should_leave(&vec![true]));
    assert!(!should_leave(&vec![false]));
    assert!(!should_leave(&vec![true, false]));
    assert!(!should_leave(&vec![]));
}

#[test]
fn description_names_album_and_station() {
    assert_eq!(station_description("X", StationID::OCR), "Album: X \nStation: OCRemix");
}

#[test]
fn media_id_lines() {
    assert!(is_playable("abcdefghijk"));
    assert!(!is_playable("abcdefghij"));
    assert!(!is_playable("abc"));
    assert!(is_playable("x y\nabcdefghijk"));
    assert!(!is_playable("abcdefghij!k"));
}

#[test]
fn station_stream_decides() {
    assert_eq!(station_stream(Ok(String::from("u"))), Ok(String::from("u")));
    assert_eq!(station_stream(Err(MetadataError::ProviderUnavailable)), Err(Reply::MetadataFailed));
}

//! The decisions of the voice commands. Each takes the outcome of the outside
//! work (the voice connection, the audio resolver, the metadata provider) as
//! plain values and decides the reply and the change to the session.

use vstd::prelude::*;
use crate::station::{StationID, display_name_of};
use crate::track::{OCRemix, opt_view};
use crate::provider::MetadataError;
use crate::session::{NowPlaying, PlaybackSession, TrackMeta, last_written};

verus! {

/// Pattern of a bare media id: eleven or more letters, digits, `_` or `-`.
pub const MEDIA_ID_PATTERN: &'static str = r"(?m)^([a-zA-Z0-9_\-]{11,})$";

/// A character allowed in a bare media id: an ASCII letter or digit, `_` or `-`.
pub open spec fn is_id_char(c: char) -> bool {
    ('a' <= c && c <= 'z') || ('A' <= c && c <= 'Z') || ('0' <= c && c <= '9') || c == '_' || c == '-'
}

/// Some line of `t` (a stretch between line feeds or the ends) is at least
/// eleven characters long, all of them allowed in a media id: what
/// `MEDIA_ID_PATTERN` matches.
pub open spec fn has_media_id_line(t: Seq<char>) -> bool {
    exists|i: int, j: int| #[trigger] is_media_id_line(t, i, j)
}

/// Characters `i..j` of `t` form a whole line that is a media id.
pub open spec fn is_media_id_line(t: Seq<char>, i: int, j: int) -> bool {
    &&& 0 <= i && i + 11 <= j && j <= t.len()
    &&& i == 0 || t[i - 1] == '\n'
    &&& j == t.len() || t[j] == '\n'
    &&& forall|k: int| i <= k < j ==> is_id_char(#[trigger] t[k])
}

/// Relies on `regex::Regex::new`, which compiles `MEDIA_ID_PATTERN`, and
/// `Regex::is_match`: in multi-line mode `^` and `$` match at the ends and at
/// line feeds, so the pattern matches exactly where some line is eleven or
/// more characters of `[a-zA-Z0-9_-]`.
#[verifier::external_body]
fn media_id_match(pattern: &str, text: &str) -> (r: bool)
    requires
        pattern@ == MEDIA_ID_PATTERN@,
    ensures
        r == has_media_id_line(text@),
{
    match regex::Regex::new(pattern) {
        Ok(re) => re.is_match(text),
        Err(_) => false,
    }
}

/// The text begins with `http`.
pub open spec fn starts_with_http(s: Seq<char>) -> bool {
    &&& s.len() >= 4
    &&& s[0] == 'h'
    &&& s[1] == 't'
    &&& s[2] == 't'
    &&& s[3] == 'p'
}

/// What `play` accepts: a URL, or a bare media id.
pub open spec fn is_playable_input(s: Seq<char>) -> bool {
    starts_with_http(s) || has_media_id_line(s)
}

/// Whether `play` accepts `input`: it begins with `http`, or is a bare media id.
pub fn is_playable(input: &str) -> (r: bool)
    ensures
        r == is_playable_input(input@),
{
    let n = input.unicode_len();
    if n >= 4 && input.get_char(0) == 'h' && input.get_char(1) == 't' && input.get_char(2) == 't'
        && input.get_char(3) == 'p' {
        return true;
    }
    media_id_match(MEDIA_ID_PATTERN, input)
}

/// The short text replies of the voice commands.
#[derive(Copy, Clone, Debug, PartialEq, Eq, Structural)]
pub enum Reply {
    NotInVoice,
    NotInVoiceToPlay,
    MissingSource,
    InvalidSource,
    SourcingFailed,
    MetadataFailed,
    PlayingSong,
    NothingPlaying,
}

pub open spec fn reply_text(r: Reply) -> Seq<char> {
    match r {
        Reply::NotInVoice => "Not in a voice channel"@,
        Reply::NotInVoiceToPlay => "Not in a voice channel to play in"@,
        Reply::MissingSource => "Must provide a URL or ID to a video or audio"@,
        Reply::InvalidSource => "Must provide a valid URL"@,
        Reply::SourcingFailed => "Error sourcing ffmpeg"@,
        Reply::MetadataFailed => "Error fetching station metadata"@,
        Reply::PlayingSong => "Playing song"@,
        Reply::NothingPlaying => "Nothing is playing"@,
    }
}

impl Reply {
    /// The text sent to the channel.
    pub fn text(&self) -> (r: &'static str)
        ensures
            r@ == reply_text(*self),
    {
        match *self {
            Reply::NotInVoice => "Not in a voice channel",
            Reply::NotInVoiceToPlay => "Not in a voice channel to play in",
            Reply::MissingSource => "Must provide a URL or ID to a video or audio",
            Reply::InvalidSource => "Must provide a valid URL",
            Reply::SourcingFailed => "Error sourcing ffmpeg",
            Reply::MetadataFailed => "Error fetching station metadata",
            Reply::PlayingSong => "Playing song",
            Reply::NothingPlaying => "Nothing is playing",
        }
    }
}

/// The channel `join` connects to: the caller's voice channel, if any.
pub fn join_target(caller_channel: Option<u64>) -> (r: Result<u64, Reply>)
    ensures
        caller_channel matches Some(c) ==> r == Ok::<u64, Reply>(c),
        caller_channel is None ==> r == Err::<u64, Reply>(Reply::NotInVoice),
{
    match caller_channel {
        Some(c) => Ok(c),
        None => Err(Reply::NotInVoice),
    }
}

/// Whether `leave` may disconnect: only where a connection exists.
pub fn leave_check(connected: bool) -> (r: Result<(), Reply>)
    ensures
        connected <==> r is Ok,
        !connected ==> r == Err::<(), Reply>(Reply::NotInVoice),
{
    if connected {
        Ok(())
    } else {
        Err(Reply::NotInVoice)
    }
}

/// Checks the argument of `play` before anything is done with it.
pub fn check_play_argument(arg: Option<&str>) -> (r: Result<(), Reply>)
    ensures
        arg is None ==> r == Err::<(), Reply>(Reply::MissingSource),
        arg matches Some(a) ==> (r is Ok <==> is_playable_input(a@)),
        arg matches Some(a) ==> (!is_playable_input(a@) ==> r == Err::<(), Reply>(
            Reply::InvalidSource,
        )),
{
    match arg {
        None => Err(Reply::MissingSource),
        Some(a) => if is_playable(a) {
            Ok(())
        } else {
            Err(Reply::InvalidSource)
        },
    }
}

/// Finishes `play` of a URL: `resolved` is what the audio resolver gave for
/// it, if it was asked (only where a connection exists). Only a resolved
/// source on a connection changes the session.
pub fn play_url(session: &mut PlaybackSession, connected: bool, resolved: Option<TrackMeta>) -> (r: Reply)
    ensures
        !connected ==> r == Reply::NotInVoiceToPlay && *final(session) == *old(session),
        connected && resolved is None ==> r == Reply::SourcingFailed && *final(session) == *old(session),
        connected && resolved is Some ==> r == Reply::PlayingSong && final(session).current()
            == (NowPlaying::Youtube { track: resolved->Some_0 }) && final(session).history() == old(
            session,
        ).history().push(NowPlaying::Youtube { track: resolved->Some_0 }),
{
    if !connected {
        return Reply::NotInVoiceToPlay;
    }
    match resolved {
        None => Reply::SourcingFailed,
        Some(track) => {
            let _previous = session.replace(NowPlaying::Youtube { track });
            Reply::PlayingSong
        },
    }
}

/// The first step of `play` of a station: the station's stream URL, or the
/// reply where the provider could not give it.
pub fn station_stream(stream: Result<String, MetadataError>) -> (r: Result<String, Reply>)
    ensures
        stream matches Ok(u) ==> r == Ok::<String, Reply>(u),
        stream is Err ==> r == Err::<String, Reply>(Reply::MetadataFailed),
{
    match stream {
        Ok(u) => Ok(u),
        Err(_) => Err(Reply::MetadataFailed),
    }
}

/// Finishes `play` of a station: `resolved` is what the audio resolver gave
/// for the station's stream, and `snapshot` what the provider reported as
/// its current song. Any failure leaves the session as it was.
pub fn play_station(
    session: &mut PlaybackSession,
    connected: bool,
    resolved: Option<TrackMeta>,
    snapshot: Result<OCRemix, MetadataError>,
) -> (r: Reply)
    ensures
        !connected ==> r == Reply::NotInVoiceToPlay && *final(session) == *old(session),
        connected && resolved is None ==> r == Reply::SourcingFailed && *final(session) == *old(session),
        connected && resolved is Some && snapshot is Err ==> r == Reply::MetadataFailed && *final(session)
            == *old(session),
        connected && resolved is Some && snapshot is Ok ==> r == Reply::PlayingSong
            && final(session).current() == (NowPlaying::OCRemix {
            track: resolved->Some_0,
            playing: snapshot->Ok_0,
        }) && final(session).history() == old(session).history().push(
            NowPlaying::OCRemix { track: resolved->Some_0, playing: snapshot->Ok_0 },
        ),
{
    if !connected {
        return Reply::NotInVoiceToPlay;
    }
    match resolved {
        None => Reply::SourcingFailed,
        Some(track) => match snapshot {
            Err(_) => Reply::MetadataFailed,
            Ok(playing) => {
                let _previous = session.replace(NowPlaying::OCRemix { track, playing });
                Reply::PlayingSong
            },
        },
    }
}

/// `stop`: where a connection exists the session becomes idle and what was
/// playing is handed back, so that the caller can stop the transport.
pub fn stop(session: &mut PlaybackSession, connected: bool) -> (r: Result<NowPlaying, Reply>)
    ensures
        !connected ==> r == Err::<NowPlaying, Reply>(Reply::NotInVoice) && *final(session)
            == *old(session),
        connected ==> r == Ok::<NowPlaying, Reply>(old(session).current()) && final(session).current()
            == NowPlaying::Nothing && final(session).history() == old(session).history().push(
            NowPlaying::Nothing,
        ),
{
    if connected {
        Ok(session.replace(NowPlaying::Nothing))
    } else {
        Err(Reply::NotInVoice)
    }
}

/// What `now_playing` shows.
#[derive(Clone, Debug)]
pub enum Report {
    /// Nothing is playing.
    Nothing,
    /// A track from a URL: its title and source URL.
    Track { title: Option<String>, url: Option<String> },
    /// A station: the song's title and link, the cover as thumbnail, and a
    /// description naming the album and the station.
    Station { title: String, url: Option<String>, thumbnail: String, description: String },
}

/// The description line of a station report.
pub open spec fn description_of(album: Seq<char>, station: StationID) -> Seq<char> {
    "Album: "@ + album + " \nStation: "@ + display_name_of(station)
}

/// `now_playing`'s report on a state, given by its views.
pub open spec fn report_matches(r: Report, state: NowPlaying) -> bool {
    match state {
        NowPlaying::Nothing => r is Nothing,
        NowPlaying::Youtube { track } => r matches Report::Track { title, url } && title
            == track.title && url == track.source_url,
        NowPlaying::OCRemix { playing, .. } => r matches Report::Station {
            title,
            url,
            thumbnail,
            description,
        } && title@ == playing.title@ && opt_view(url) == opt_view(playing.url) && thumbnail@
            == playing.album_url@ && description@ == description_of(playing.album@, playing.station_id),
    }
}

/// The description line of a station report.
pub fn station_description(album: &str, station: StationID) -> (r: String)
    ensures
        r@ == description_of(album@, station),
{
    let mut s = String::from_str("Album: ");
    s.append(album);
    s.append(" \nStation: ");
    let name = station.display_name();
    s.append(name.as_str());
    s
}

/// `now_playing`: reads the session and reports what is playing. It reads
/// nothing but the session.
pub fn now_playing(session: &PlaybackSession) -> (r: Report)
    ensures
        report_matches(r, session.current()),
        session.history().len() == 0 ==> r is Nothing,
{
    let state = session.read();
    match state {
        NowPlaying::Nothing => Report::Nothing,
        NowPlaying::Youtube { track } => Report::Track { title: track.title, url: track.source_url },
        NowPlaying::OCRemix { playing, .. } => {
            let description = station_description(playing.album.as_str(), playing.station_id);
            Report::Station {
                title: playing.title,
                url: playing.url,
                thumbnail: playing.album_url,
                description,
            }
        },
    }
}

/// A session on which nothing has been played reports that nothing is
/// playing, whatever report is made of it.
pub proof fn fresh_session_reports_nothing(s: PlaybackSession, r: Report)
    requires
        s.history().len() == 0,
        s.current() == last_written(s.history()),
        report_matches(r, s.current()),
    ensures
        r is Nothing,
{
}

/// Whether the bot should leave a voice channel that someone has left: it
/// does when the only member still there is a bot. `member_is_bot` lists the
/// remaining members.
pub fn should_leave(member_is_bot: &Vec<bool>) -> (r: bool)
    ensures
        r == (member_is_bot@.len() == 1 && member_is_bot@[0]),
{
    member_is_bot.len() == 1 && member_is_bot[0]
}

} // verus!

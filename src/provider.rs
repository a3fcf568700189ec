//! Reading the metadata provider's responses: the station directory (stream
//! URLs) and the currently scheduled song of a station.

use vstd::prelude::*;
use vstd::string::StringSliceAdditionalSpecFns;
use crate::station::{StationID, wire_value};
use crate::track::{OCRemix, PROVIDER_BASE, art_url_of, link_of, opt_view};

verus! {

/// One step into a JSON document: an object member or an array element.
pub enum JsonStep {
    Key(String),
    Index(usize),
}

/// A step as a mathematical value.
pub enum PathStep {
    Key(Seq<char>),
    Index(int),
}

pub open spec fn step_view(s: JsonStep) -> PathStep {
    match s {
        JsonStep::Key(k) => PathStep::Key(k@),
        JsonStep::Index(i) => PathStep::Index(i as int),
    }
}

pub open spec fn path_view(p: Seq<JsonStep>) -> Seq<PathStep> {
    p.map_values(|s: JsonStep| step_view(s))
}

/// Whether `json::parse` accepts a text.
pub uninterp spec fn json_parses(text: Seq<char>) -> bool;

/// Whether the value reached along `path` in the parsed text is null
/// (`JsonValue::is_null`); indexing gives null where a member or element is
/// missing.
pub uninterp spec fn json_null_at(text: Seq<char>, path: Seq<PathStep>) -> bool;

/// Whether the value reached along `path` is empty (`JsonValue::is_empty`:
/// null, `""`, 0, false, `[]` or `{}`).
pub uninterp spec fn json_empty_at(text: Seq<char>, path: Seq<PathStep>) -> bool;

/// The text of the value reached along `path` (`JsonValue`'s `Display`).
pub uninterp spec fn json_text_at(text: Seq<char>, path: Seq<PathStep>) -> Seq<char>;

/// Most digits that may follow a `.` in a text handed to `json::parse`: it
/// counts fraction digits in an `i16` that it does not check for overflow.
pub const MAX_FRACTION_RUN: usize = 32767;

pub open spec fn is_digit_byte(b: u8) -> bool {
    48 <= b <= 57
}

/// Bytes `from..to` of `b` are all ASCII digits.
pub open spec fn digits_between(b: Seq<u8>, from: int, to: int) -> bool {
    forall|k: int| from <= k < to ==> is_digit_byte(#[trigger] b[k])
}

/// No `.` in `b` is followed by more than `MAX_FRACTION_RUN` digits.
pub open spec fn fraction_runs_bounded(b: Seq<u8>) -> bool {
    forall|i: int|
        0 <= i && i + MAX_FRACTION_RUN + 1 < b.len() && #[trigger] b[i] == 46u8 ==> !digits_between(
            b,
            i + 1,
            i + MAX_FRACTION_RUN + 2,
        )
}

/// Whether `text` may be handed to `json::parse` without making it panic.
pub fn json_safe(text: &str) -> (r: bool)
    ensures
        r == fraction_runs_bounded(text.spec_bytes()),
{
    let b = text.as_bytes();
    let n = b.len();
    let mut i: usize = 0;
    while i < n
        invariant
            n == b@.len(),
            b@ == text.spec_bytes(),
            i <= n,
            forall|p: int|
                0 <= p < i && p + MAX_FRACTION_RUN + 1 < n && #[trigger] b@[p] == 46u8
                    ==> !digits_between(b@, p + 1, p + MAX_FRACTION_RUN + 2),
        decreases n - i,
    {
        if b[i] == 46u8 {
            let mut j: usize = i + 1;
            while j < n && j - i <= MAX_FRACTION_RUN && 48u8 <= b[j] && b[j] <= 57u8
                invariant
                    n == b@.len(),
                    i < n,
                    i + 1 <= j <= n,
                    j <= i + MAX_FRACTION_RUN + 1,
                    digits_between(b@, i + 1, j as int),
                decreases n - j,
            {
                j += 1;
            }
            if j - i == MAX_FRACTION_RUN + 1 && j < n && 48u8 <= b[j] && b[j] <= 57u8 {
                assert(digits_between(b@, i + 1, i + MAX_FRACTION_RUN + 2));
                return false;
            }
            assert(i + MAX_FRACTION_RUN + 1 < n ==> !is_digit_byte(b@[j as int]));
        }
        i += 1;
    }
    true
}

/// What is known of the value at a path.
pub struct JsonLeaf {
    pub is_null: bool,
    pub is_empty: bool,
    pub text: String,
}

/// Relies on `json::parse`, which accepts or refuses a text on the text
/// alone, on `JsonValue`'s indexing by key and by position (null where there
/// is no such member or element), and on `JsonValue::is_null`,
/// `JsonValue::is_empty` and `JsonValue`'s `Display`, all of which depend on
/// the value alone.
#[verifier::external_body]
fn json_leaf(text: &str, path: &Vec<JsonStep>) -> (r: Option<JsonLeaf>)
    requires
        fraction_runs_bounded(text.spec_bytes()),
    ensures
        r is Some <==> json_parses(text@),
        r matches Some(l) ==> l.is_null == json_null_at(text@, path_view(path@)),
        r matches Some(l) ==> l.is_empty == json_empty_at(text@, path_view(path@)),
        r matches Some(l) ==> l.text@ == json_text_at(text@, path_view(path@)),
{
    let doc = json::parse(text).ok()?;
    let mut v = &doc;
    for step in path.iter() {
        v = match step {
            JsonStep::Key(k) => &v[k.as_str()],
            JsonStep::Index(i) => &v[*i],
        };
    }
    Some(JsonLeaf { is_null: v.is_null(), is_empty: v.is_empty(), text: v.to_string() })
}

/// Why provider metadata could not be had.
#[derive(Copy, Clone, Debug, PartialEq, Eq, Structural)]
pub enum MetadataError {
    /// The provider could not be reached, or its answer is not JSON.
    ProviderUnavailable,
    /// The answer is JSON but lacks a field that was expected.
    MalformedResponse,
}

/// Where a station's stream URL stands in the station directory.
pub open spec fn stream_path(station: StationID) -> Seq<PathStep> {
    seq![PathStep::Key("stations"@), PathStep::Index(wire_value(station) - 1), PathStep::Key("stream"@)]
}

/// Where the current song stands in the `info` answer.
pub open spec fn song_prefix() -> Seq<PathStep> {
    seq![PathStep::Key("sched_current"@), PathStep::Key("songs"@), PathStep::Index(0)]
}

/// Where a field of the current song stands.
pub open spec fn song_path(field: Seq<char>) -> Seq<PathStep> {
    song_prefix().push(PathStep::Key(field))
}

/// Where a field of the current song's first album stands.
pub open spec fn album_path(field: Seq<char>) -> Seq<PathStep> {
    song_prefix() + seq![PathStep::Key("albums"@), PathStep::Index(0), PathStep::Key(field)]
}

proof fn path_view_push(p: Seq<JsonStep>, s: JsonStep)
    ensures
        path_view(p.push(s)) == path_view(p).push(step_view(s)),
{
    assert(path_view(p.push(s)) =~= path_view(p).push(step_view(s)));
}

fn key(k: &str) -> (r: JsonStep)
    ensures
        step_view(r) == PathStep::Key(k@),
{
    JsonStep::Key(String::from_str(k))
}

fn push_step(p: &mut Vec<JsonStep>, s: JsonStep)
    ensures
        path_view(final(p)@) == path_view(old(p)@).push(step_view(s)),
{
    proof {
        path_view_push(p@, s);
    }
    p.push(s);
}

fn song_steps() -> (r: Vec<JsonStep>)
    ensures
        path_view(r@) =~= song_prefix(),
{
    let mut p: Vec<JsonStep> = Vec::new();
    assert(path_view(p@) =~= Seq::<PathStep>::empty());
    push_step(&mut p, key("sched_current"));
    push_step(&mut p, key("songs"));
    push_step(&mut p, JsonStep::Index(0));
    p
}

fn song_field_steps(field: &str) -> (r: Vec<JsonStep>)
    ensures
        path_view(r@) =~= song_path(field@),
{
    let mut p = song_steps();
    push_step(&mut p, key(field));
    p
}

fn album_field_steps(field: &str) -> (r: Vec<JsonStep>)
    ensures
        path_view(r@) =~= album_path(field@),
{
    let mut p = song_steps();
    push_step(&mut p, key("albums"));
    push_step(&mut p, JsonStep::Index(0));
    push_step(&mut p, key(field));
    p
}

/// The text at a path that must hold a value.
fn required_text(body: &str, path: &Vec<JsonStep>) -> (r: Result<String, MetadataError>)
    requires
        fraction_runs_bounded(body.spec_bytes()),
    ensures
        !json_parses(body@) ==> r == Err::<String, MetadataError>(MetadataError::ProviderUnavailable),
        json_parses(body@) && json_null_at(body@, path_view(path@)) ==> r == Err::<String, MetadataError>(
            MetadataError::MalformedResponse,
        ),
        json_parses(body@) && !json_null_at(body@, path_view(path@)) ==> r is Ok && r->Ok_0@
            == json_text_at(body@, path_view(path@)),
{
    match json_leaf(body, path) {
        None => Err(MetadataError::ProviderUnavailable),
        Some(leaf) => if leaf.is_null {
            Err(MetadataError::MalformedResponse)
        } else {
            Ok(leaf.text)
        },
    }
}

/// A body is read as JSON when `json::parse` can take it safely and accepts it.
pub open spec fn readable(body: &str) -> bool {
    fraction_runs_bounded(body.spec_bytes()) && json_parses(body@)
}

/// Extracts a station's stream URL from the provider's station directory:
/// the `stream` field of entry `wire value - 1` of its `stations` array.

pub fn parse_stream_url(station: StationID, body: &str) -> (r: Result<String, MetadataError>)
    ensures
        !readable(body) ==> r == Err::<String, MetadataError>(MetadataError::ProviderUnavailable),
        readable(body) && json_null_at(body@, stream_path(station)) ==> r == Err::<
            String,
            MetadataError,
        >(MetadataError::MalformedResponse),
        readable(body) && !json_null_at(body@, stream_path(station)) ==> r is Ok && r->Ok_0@
            == json_text_at(body@, stream_path(station)),
{
    if !json_safe(body) {
        return Err(MetadataError::ProviderUnavailable);
    }
    let index = (station.value() - 1) as usize;
    let mut path: Vec<JsonStep> = Vec::new();
    path.push(key("stations"));
    path.push(JsonStep::Index(index));
    path.push(key("stream"));
    assert(path_view(path@) =~= stream_path(station));
    required_text(body, &path)
}

/// The fields of the current song that must be present.
pub open spec fn song_complete(body: Seq<char>) -> bool {
    &&& !json_null_at(body, song_path("title"@))
    &&& !json_null_at(body, album_path("name"@))
    &&& !json_null_at(body, album_path("art"@))
}

/// The link of the current song: none where its `url` field is empty.
pub open spec fn song_link(body: Seq<char>) -> Option<Seq<char>> {
    if json_empty_at(body, song_path("url"@)) {
        None
    } else {
        link_of(json_text_at(body, song_path("url"@)))
    }
}

/// Extracts the currently scheduled song of `station` from the provider's
/// `info` answer: title, first album's name and cover path, and the
/// optional link of `sched_current.songs[0]`.
pub fn parse_current_song(station: StationID, body: &str) -> (r: Result<OCRemix, MetadataError>)
    ensures
        !readable(body) ==> r == Err::<OCRemix, MetadataError>(MetadataError::ProviderUnavailable),
        readable(body) ==> (r is Ok <==> song_complete(body@)),
        readable(body) && !song_complete(body@) ==> r == Err::<OCRemix, MetadataError>(
            MetadataError::MalformedResponse,
        ),
        r matches Ok(t) ==> {
            &&& t.station_id == station
            &&& t.title@ == json_text_at(body@, song_path("title"@))
            &&& t.album@ == json_text_at(body@, album_path("name"@))
            &&& t.album_url@ == art_url_of(PROVIDER_BASE@, json_text_at(body@, album_path("art"@)))
            &&& opt_view(t.url) == song_link(body@)
            &&& t.wf()
        },
{
    if !json_safe(body) {
        return Err(MetadataError::ProviderUnavailable);
    }
    let title = required_text(body, &song_field_steps("title"))?;
    let album = required_text(body, &album_field_steps("name"))?;
    let art = required_text(body, &album_field_steps("art"))?;
    let link_path = song_field_steps("url");
    let link = match json_leaf(body, &link_path) {
        None => return Err(MetadataError::ProviderUnavailable),
        Some(leaf) => if leaf.is_empty {
            String::new()
        } else {
            leaf.text
        },
    };
    Ok(OCRemix::from_fields(station, title, album, art.as_str(), link))
}

} // verus!

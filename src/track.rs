//! The snapshot of a station's currently scheduled song.

use vstd::prelude::*;
use crate::station::StationID;

verus! {

/// Host that album-art paths of the metadata provider are relative to.
pub const PROVIDER_BASE: &'static str = "https://rainwave.cc";

/// Suffix that selects the 320-pixel rendition of an album cover.
pub const ART_SUFFIX: &'static str = "_320.jpg";

/// The fully-qualified URL of the cover whose path is `art`, on host `base`.
pub open spec fn art_url_of(base: Seq<char>, art: Seq<char>) -> Seq<char> {
    base + art + ART_SUFFIX@
}

/// An external link as the provider reports it: empty means there is none.
pub open spec fn link_of(url: Seq<char>) -> Option<Seq<char>> {
    if url.len() == 0 {
        None
    } else {
        Some(url)
    }
}

/// View of an optional string.
pub open spec fn opt_view(o: Option<String>) -> Option<Seq<char>> {
    match o {
        Some(s) => Some(s@),
        None => None,
    }
}

/// Metadata of the song a station is playing, captured when playback started.
#[derive(Clone, Debug)]
pub struct OCRemix {
    pub station_id: StationID,
    pub url: Option<String>,
    pub title: String,
    pub album: String,
    pub album_url: String,
}

impl OCRemix {
    /// A snapshot is well formed when its cover URL is fully qualified (the
    /// provider host, a path, the fixed suffix) and its link, if any, is not
    /// empty.
    pub open spec fn wf(&self) -> bool {
        &&& exists|art: Seq<char>| self.album_url@ == #[trigger] art_url_of(PROVIDER_BASE@, art)
        &&& self.url matches Some(u) ==> u@.len() > 0
    }

    pub fn new(station_id: StationID, url: Option<String>, title: String, album: String, album_url: String) -> (r: OCRemix)
        ensures
            r.station_id == station_id,
            r.url == url,
            r.title == title,
            r.album == album,
            r.album_url == album_url,
    {
        OCRemix { station_id, url, title, album, album_url }
    }

    /// Builds a snapshot from the raw fields that the provider reports for a
    /// song: the cover path is made into a URL on the provider host, and an
    /// empty link means that there is no link.
    pub fn from_fields(station_id: StationID, title: String, album: String, art: &str, url: String) -> (r: OCRemix)
        ensures
            r.station_id == station_id,
            r.title@ == title@,
            r.album@ == album@,
            r.album_url@ == art_url_of(PROVIDER_BASE@, art@),
            opt_view(r.url) == link_of(url@),
            r.wf(),
    {
        let album_url = album_art_url(PROVIDER_BASE, art);
        let link = if url.as_str().unicode_len() == 0 {
            None
        } else {
            Some(url)
        };
        let r = OCRemix::new(station_id, link, title, album, album_url);
        r
    }
}

/// The URL of the cover whose path is `art`, on host `base`: the two joined,
/// then the fixed size suffix.
pub fn album_art_url(base: &str, art: &str) -> (r: String)
    ensures
        r@ == art_url_of(base@, art@),
{
    let mut s = String::from_str(base);
    s.append(art);
    s.append(ART_SUFFIX);
    s
}

} // verus!

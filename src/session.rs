//! The playback session: the single value that says what is playing now.
//! It changes only by whole replacement, and the last replacement wins.

use vstd::prelude::*;
use crate::station::StationID;
use crate::track::OCRemix;

verus! {

/// What a stream handle tells of the audio it plays.
#[derive(Clone, Debug)]
pub struct TrackMeta {
    pub title: Option<String>,
    pub source_url: Option<String>,
}

/// What is playing: nothing, a track from a URL, or a radio station together
/// with the song it was playing when playback started.
#[derive(Clone, Debug)]
pub enum NowPlaying {
    Nothing,
    Youtube { track: TrackMeta },
    OCRemix { track: TrackMeta, playing: OCRemix },
}

pub fn copy_text(o: &Option<String>) -> (r: Option<String>)
    ensures
        r == *o,
{
    match o {
        Some(s) => Some(s.clone()),
        None => None,
    }
}

impl TrackMeta {
    pub fn copy(&self) -> (r: TrackMeta)
        ensures
            r == *self,
    {
        TrackMeta { title: copy_text(&self.title), source_url: copy_text(&self.source_url) }
    }
}

impl OCRemix {
    pub fn copy(&self) -> (r: OCRemix)
        ensures
            r == *self,
    {
        OCRemix {
            station_id: self.station_id,
            url: copy_text(&self.url),
            title: self.title.clone(),
            album: self.album.clone(),
            album_url: self.album_url.clone(),
        }
    }
}

impl NowPlaying {
    pub fn copy(&self) -> (r: NowPlaying)
        ensures
            r == *self,
    {
        match self {
            NowPlaying::Nothing => NowPlaying::Nothing,
            NowPlaying::Youtube { track } => NowPlaying::Youtube { track: track.copy() },
            NowPlaying::OCRemix { track, playing } => NowPlaying::OCRemix {
                track: track.copy(),
                playing: playing.copy(),
            },
        }
    }
}

/// The state after a run of replacements: the last value written, or nothing
/// playing if none was.
pub open spec fn last_written(writes: Seq<NowPlaying>) -> NowPlaying {
    if writes.len() == 0 {
        NowPlaying::Nothing
    } else {
        writes.last()
    }
}

/// The shared playback state.
pub struct PlaybackSession {
    state: NowPlaying,
    writes: Ghost<Seq<NowPlaying>>,
}

impl PlaybackSession {
    pub closed spec fn current(&self) -> NowPlaying {
        self.state
    }

    /// Every value that `replace` has put in, in order.
    pub closed spec fn history(&self) -> Seq<NowPlaying> {
        self.writes@
    }

    /// The state is always the value of the last completed replacement, or
    /// nothing playing before the first.
    #[verifier::type_invariant]
    spec fn inv(&self) -> bool {
        self.state == last_written(self.writes@)
    }

    /// A session on which nothing has played yet.
    pub fn new() -> (r: PlaybackSession)
        ensures
            r.history() == Seq::<NowPlaying>::empty(),
            r.current() == NowPlaying::Nothing,
    {
        PlaybackSession { state: NowPlaying::Nothing, writes: Ghost(Seq::empty()) }
    }

    /// A copy of what is playing now.
    pub fn read(&self) -> (r: NowPlaying)
        ensures
            r == self.current(),
            r == last_written(self.history()),
    {
        proof {
            use_type_invariant(self);
        }
        self.state.copy()
    }

    /// Puts `next` in as a whole and hands back what was there before.
    pub fn replace(&mut self, next: NowPlaying) -> (r: NowPlaying)
        ensures
            r == old(self).current(),
            final(self).current() == next,
            final(self).history() == old(self).history().push(next),
    {
        let ghost writes = self.writes@.push(next);
        let mut fresh = PlaybackSession { state: next, writes: Ghost(writes) };
        core::mem::swap(self, &mut fresh);
        let PlaybackSession { state: prev, .. } = fresh;
        prev
    }
}

/// Of two replacements, the one that lands last decides the state; nothing
/// of the earlier one remains.
pub proof fn last_replacement_wins(writes: Seq<NowPlaying>, a: NowPlaying, b: NowPlaying)
    ensures
        last_written(writes.push(a).push(b)) == b,
        last_written(writes.push(b).push(a)) == a,
{
}

} // verus!

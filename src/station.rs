//! The station directory: the closed set of radio stations, their wire values,
//! display names, and the fail-open resolution of user-typed aliases.

use vstd::prelude::*;

verus! {

/// A curated radio station of the metadata provider.
#[derive(Copy, Clone, Debug, PartialEq, Eq, Structural)]
pub enum StationID {
    Game,
    OCR,
    Covers,
    Chiptunes,
    All,
}

/// The provider's integer id of a station.
pub open spec fn wire_value(s: StationID) -> int {
    match s {
        StationID::Game => 1,
        StationID::OCR => 2,
        StationID::Covers => 3,
        StationID::Chiptunes => 4,
        StationID::All => 5,
    }
}

/// The name shown to users for a station.
pub open spec fn display_name_of(s: StationID) -> Seq<char> {
    match s {
        StationID::Game => "Game"@,
        StationID::OCR => "OCRemix"@,
        StationID::Covers => "Covers"@,
        StationID::Chiptunes => "Chiptunes"@,
        StationID::All => "All"@,
    }
}

/// The code point of `c` with ASCII upper-case letters mapped to lower case.
pub open spec fn folded_code(c: char) -> int {
    let x = c as u32;
    if 65 <= x <= 90 {
        x + 32
    } else {
        x as int
    }
}

/// `text` equals `alias` when ASCII letter case is ignored.
pub open spec fn alias_matches(text: Seq<char>, alias: Seq<char>) -> bool {
    &&& text.len() == alias.len()
    &&& forall|k: int| 0 <= k < text.len() ==> folded_code(#[trigger] text[k]) == folded_code(alias[k])
}

/// The station that user text names; anything unrecognised names `All`.
pub open spec fn station_for(text: Seq<char>) -> StationID {
    if alias_matches(text, "game"@) || alias_matches(text, "games"@) {
        StationID::Game
    } else if alias_matches(text, "ocr"@) || alias_matches(text, "ocremix"@) {
        StationID::OCR
    } else if alias_matches(text, "covers"@) || alias_matches(text, "cover"@) {
        StationID::Covers
    } else if alias_matches(text, "chiptunes"@) || alias_matches(text, "chiptune"@) {
        StationID::Chiptunes
    } else {
        StationID::All
    }
}

fn folded(c: char) -> (r: u32)
    ensures
        r == folded_code(c),
{
    let x = c as u32;
    if 65 <= x && x <= 90 {
        x + 32
    } else {
        x
    }
}

/// Compares two strings, ignoring the case of ASCII letters.
pub fn matches_alias(text: &str, alias: &str) -> (r: bool)
    ensures
        r == alias_matches(text@, alias@),
{
    let n = text.unicode_len();
    let m = alias.unicode_len();
    if n != m {
        return false;
    }
    let mut i: usize = 0;
    while i < n
        invariant
            n == text@.len(),
            n == alias@.len(),
            i <= n,
            forall|k: int| 0 <= k < i ==> folded_code(#[trigger] text@[k]) == folded_code(alias@[k]),
        decreases n - i,
    {
        if folded(text.get_char(i)) != folded(alias.get_char(i)) {
            assert(folded_code(text@[i as int]) != folded_code(alias@[i as int]));
            return false;
        }
        i += 1;
    }
    true
}

impl StationID {
    /// The provider's integer id of this station.
    pub fn value(&self) -> (r: u8)
        ensures
            r == wire_value(*self),
    {
        match *self {
            StationID::Game => 1,
            StationID::OCR => 2,
            StationID::Covers => 3,
            StationID::Chiptunes => 4,
            StationID::All => 5,
        }
    }

    /// The name shown to users for this station.
    pub fn display_name(&self) -> (r: String)
        ensures
            r@ == display_name_of(*self),
    {
        match *self {
            StationID::Game => String::from_str("Game"),
            StationID::OCR => String::from_str("OCRemix"),
            StationID::Covers => String::from_str("Covers"),
            StationID::Chiptunes => String::from_str("Chiptunes"),
            StationID::All => String::from_str("All"),
        }
    }

    /// Resolves user text to a station. Matching ignores ASCII case; empty or
    /// unknown text gives `All`, so this never fails.
    pub fn from_alias(text: &str) -> (r: StationID)
        ensures
            r == station_for(text@),
    {
        if matches_alias(text, "game") || matches_alias(text, "games") {
            StationID::Game
        } else if matches_alias(text, "ocr") || matches_alias(text, "ocremix") {
            StationID::OCR
        } else if matches_alias(text, "covers") || matches_alias(text, "cover") {
            StationID::Covers
        } else if matches_alias(text, "chiptunes") || matches_alias(text, "chiptune") {
            StationID::Chiptunes
        } else {
            StationID::All
        }
    }
}

impl Default for StationID {
    fn default() -> (r: StationID)
        ensures
            r == StationID::All,
    {
        StationID::All
    }
}

impl From<String> for StationID {
    fn from(text: String) -> (r: StationID) {
        StationID::from_alias(text.as_str())
    }
}

impl vstd::std_specs::convert::FromSpecImpl<String> for StationID {
    open spec fn obeys_from_spec() -> bool {
        true
    }

    open spec fn from_spec(text: String) -> StationID {
        station_for(text@)
    }
}

} // verus!

use radio_bot::station::{matches_alias, StationID};

#[test]
fn wire_values_follow_the_directory() {
    assert_eq!(StationID::Game.value(), 1);
    assert_eq!(StationID::OCR.value(), 2);
    assert_eq!(StationID::Covers.value(), 3);
    assert_eq!(StationID::Chiptunes.value(), 4);
    assert_eq!(StationID::All.value(), 5);
}

#[test]
fn display_names() {
    assert_eq!(StationID::Game.display_name(), "Game");
    assert_eq!(StationID::OCR.display_name(), "OCRemix");
    assert_eq!(StationID::Covers.display_name(), "Covers");
    assert_eq!(StationID::Chiptunes.display_name(), "Chiptunes");
    assert_eq!(StationID::All.display_name(), "All");
}

#[test]
fn aliases_resolve_ignoring_case() {
    assert_eq!(StationID::from_alias("ocremix"), StationID::OCR);
    assert_eq!(StationID::from_alias("OCR"), StationID::OCR);
    assert_eq!(StationID::from_alias("ocremix"), StationID::from_alias("OCR"));
    assert_eq!(StationID::from_alias("Games"), StationID::Game);
    assert_eq!(StationID::from_alias("game"), StationID::Game);
    assert_eq!(StationID::from_alias("cover"), StationID::Covers);
    assert_eq!(StationID::from_alias("COVERS"), StationID::Covers);
    assert_eq!(StationID::from_alias("chiptune"), StationID::Chiptunes);
    assert_eq!(StationID::from_alias("ChipTunes"), StationID::Chiptunes);
    assert_eq!(StationID::from_alias("all"), StationID::All);
}

#[test]
fn unknown_or_empty_alias_gives_all() {
    assert_eq!(StationID::from_alias(""), StationID::All);
    assert_eq!(StationID::from_alias("bogus"), StationID::All);
    assert_eq!(StationID::from_alias(""), StationID::from_alias("bogus"));
    assert_eq!(StationID::from_alias("ocr "), StationID::All);
    assert_eq!(StationID::default(), StationID::All);
}

#[test]
fn from_string_resolves_aliases() {
    assert_eq!(StationID::from(String::from("Covers")), StationID::Covers);
    assert_eq!(StationID::from(String::new()), StationID::All);
}

#[test]
fn alias_comparison() {
    assert!(matches_alias("OcReMiX", "ocremix"));
    assert!(!matches_alias("ocremi", "ocremix"));
    assert!(!matches_alias("ocremiy", "ocremix"));
    assert!(matches_alias("", ""));
}

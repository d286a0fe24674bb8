use playbot::genius::{build_search_query, clean_lyric, lyrics_message, LyricOutcome};

#[test]
fn search_query_joins_title_and_artist() {
    assert_eq!(build_search_query("So What", "Miles Davis"), "So What Miles Davis");
}

#[test]
fn clean_lyric_strips_provider_metadata() {
    let raw = "2 ContributorsSo What Lyrics\nfirst line\nsecond line";
    assert_eq!(clean_lyric("So What", raw), "first line\nsecond line");
}

#[test]
fn clean_lyric_strips_singular_contributor() {
    let raw = "1 ContributorTune Lyricswords";
    assert_eq!(clean_lyric("Tune", raw), "words");
}

#[test]
fn clean_lyric_keeps_plain_text() {
    assert_eq!(clean_lyric("Tune", "  just words  "), "just words");
}

#[test]
fn clean_lyric_agrees_with_std_trimming() {
    for (track, raw) in [
        ("So What", "2 ContributorsSo What Lyrics\nline"),
        ("Tune", "  \n 14 ContributorsTuneTune Lyrics body \n"),
        ("X", "no metadata at all"),
    ] {
        let expected = raw
            .trim()
            .trim_start_matches(|c: char| c.is_numeric())
            .trim_start_matches(" Contributor")
            .trim_start_matches("s")
            .trim_start_matches(track)
            .trim_start_matches(" Lyrics")
            .trim();
        assert_eq!(clean_lyric(track, raw), expected, "on {:?}", raw);
    }
}

#[test]
fn found_lyric_message_has_headers() {
    let outcome = LyricOutcome::Found {
        track: "So What".to_string(),
        artists: "Miles Davis".to_string(),
        lyric: "2 ContributorsSo What Lyrics\nbody".to_string(),
    };
    assert_eq!(
        lyrics_message(&outcome, "ignored", "ignored"),
        "🎵 So What\n👤 Miles Davis\n\nbody"
    );
}

#[test]
fn missing_lyric_message_names_the_song() {
    assert_eq!(
        lyrics_message(&LyricOutcome::NotFound, "So What", "Miles Davis"),
        "No lyrics found for 'So What' by 'Miles Davis'"
    );
}

use playbot::render::{
    celebration_message, detail_lines, format_duration, help_text, list_line, list_title,
    print_lines, search_text,
};
use playbot::{InputMode, TrackInfo, ViewMode};

fn full_track() -> TrackInfo {
    TrackInfo {
        track_id: "kind-of-blue".to_string(),
        track_name: "So What".to_string(),
        artist_name: "Miles Davis".to_string(),
        album_name: "Kind of Blue".to_string(),
        release_date: "1959-08-17".to_string(),
        duration_ms: 545000,
        popularity: 77,
        genres: "jazz, modal".to_string(),
        lyrics: Some("first line\nsecond line".to_string()),
        producers: "Teo Macero".to_string(),
        writers: "Miles Davis".to_string(),
    }
}

fn bare_track() -> TrackInfo {
    TrackInfo {
        track_id: "bare".to_string(),
        track_name: "Bare".to_string(),
        artist_name: "Nobody".to_string(),
        album_name: "None".to_string(),
        release_date: String::new(),
        duration_ms: 61000,
        popularity: 0,
        genres: String::new(),
        lyrics: None,
        producers: String::new(),
        writers: String::new(),
    }
}

#[test]
fn duration_formats_minutes_and_seconds() {
    assert_eq!(format_duration(185000), "3:05");
    assert_eq!(format_duration(545000), "9:05");
    assert_eq!(format_duration(0), "0:00");
    assert_eq!(format_duration(59999), "0:59");
    assert_eq!(format_duration(60000), "1:00");
    assert_eq!(format_duration(3_600_000), "60:00");
}

#[test]
fn duration_matches_rust_division_for_negatives() {
    // The same text the `{}:{:02}` format writes for a negative duration:
    // both signed quotients.
    assert_eq!(format_duration(-61000), format!("{}:{:02}", -61000i64 / 60000, (-61000i64 % 60000) / 1000));
    assert_eq!(format_duration(-30000), format!("{}:{:02}", -30000i64 / 60000, (-30000i64 % 60000) / 1000));
}

#[test]
fn detail_lines_full_record() {
    let lines = detail_lines(&full_track());
    assert_eq!(
        lines,
        vec![
            "Track: So What".to_string(),
            "Artist: Miles Davis".to_string(),
            "Album: Kind of Blue".to_string(),
            "Release Date: 1959-08-17".to_string(),
            "Duration: 9:05".to_string(),
            "Popularity: 77/100".to_string(),
            "Genres: jazz, modal".to_string(),
            "Producers: Teo Macero".to_string(),
            "Writers: Miles Davis".to_string(),
            "".to_string(),
            "Lyrics:".to_string(),
            "".to_string(),
            "first line".to_string(),
            "second line".to_string(),
        ]
    );
}

#[test]
fn detail_lines_omits_empty_fields() {
    let lines = detail_lines(&bare_track());
    assert_eq!(
        lines,
        vec![
            "Track: Bare".to_string(),
            "Artist: Nobody".to_string(),
            "Album: None".to_string(),
            "Duration: 1:01".to_string(),
            "Popularity: 0/100".to_string(),
        ]
    );
}

#[test]
fn detail_lines_keep_one_line_per_lyric_line() {
    let mut t = bare_track();
    t.lyrics = Some("a\nb\nc\n".to_string());
    let lines = detail_lines(&t);
    let tail: Vec<&str> = lines.iter().skip(5).map(|s| s.as_str()).collect();
    assert_eq!(tail, vec!["", "Lyrics:", "", "a", "b", "c"]);
}

#[test]
fn print_lines_full_record() {
    let lines = print_lines(&full_track());
    assert_eq!(
        lines,
        vec![
            "📀 Track: So What".to_string(),
            "👤 Artist: Miles Davis".to_string(),
            "💿 Album: Kind of Blue".to_string(),
            "📅 Release Date: 1959-08-17".to_string(),
            "⏱️  Duration: 9:05".to_string(),
            "⭐ Popularity: 77/100".to_string(),
            "🎸 Genres: jazz, modal".to_string(),
            "🎛️  Producers: Teo Macero".to_string(),
            "✍️  Writers: Miles Davis".to_string(),
            "".to_string(),
            "📝 Lyrics:".to_string(),
            "".to_string(),
            "first line\nsecond line".to_string(),
        ]
    );
}

#[test]
fn print_lines_omits_empty_fields() {
    let lines = print_lines(&bare_track());
    assert_eq!(lines.len(), 5);
    assert_eq!(lines[3], "⏱️  Duration: 1:01");
}

#[test]
fn list_line_puts_title_before_artist() {
    assert_eq!(list_line(&full_track()), "So What by Miles Davis");
}

#[test]
fn list_lines_one_per_track() {
    let tracks = vec![full_track(), bare_track()];
    assert_eq!(
        playbot::render::list_lines(&tracks),
        vec!["So What by Miles Davis".to_string(), "Bare by Nobody".to_string()]
    );
    assert!(playbot::render::list_lines(&Vec::new()).is_empty());
}

#[test]
fn list_title_counts_results() {
    assert_eq!(list_title(0), "Tracks (0)");
    assert_eq!(list_title(2), "Tracks (2)");
    assert_eq!(list_title(125), "Tracks (125)");
}

#[test]
fn search_text_by_mode() {
    assert_eq!(search_text(InputMode::Normal, "ignored"), "Press / to search");
    assert_eq!(search_text(InputMode::Editing, "so wh"), "Searching: so wh");
}

#[test]
fn help_text_by_modes() {
    assert_eq!(
        help_text(ViewMode::List, InputMode::Normal),
        "j/k or Up/Down: Navigate | Enter: View Details | /: Search | q: Quit"
    );
    assert_eq!(
        help_text(ViewMode::List, InputMode::Editing),
        "Type to search | Enter: Finish | Esc: Cancel"
    );
    assert_eq!(
        help_text(ViewMode::Detail, InputMode::Normal),
        "j/k: Scroll | h/l: Prev/Next Song | Enter/Esc: Back to List | q: Quit"
    );
    assert_eq!(
        help_text(ViewMode::Detail, InputMode::Editing),
        "j/k: Scroll | h/l: Prev/Next Song | Enter/Esc: Back to List | q: Quit"
    );
}

#[test]
fn celebration_by_count() {
    assert_eq!(celebration_message(0), "Your music library is empty! Time to start exploring!");
    assert_eq!(celebration_message(1), "You've got your first track! The journey begins!");
    assert_eq!(celebration_message(2), "Nice start! You're building a collection!");
    assert_eq!(celebration_message(10), "Nice start! You're building a collection!");
    assert_eq!(celebration_message(11), "Great collection! You're really getting into it!");
    assert_eq!(celebration_message(50), "Great collection! You're really getting into it!");
    assert_eq!(celebration_message(51), "Impressive library! You've got serious variety!");
    assert_eq!(celebration_message(100), "Impressive library! You've got serious variety!");
    assert_eq!(celebration_message(101), "Wow! You're a true music enthusiast!");
    assert_eq!(celebration_message(500), "Wow! You're a true music enthusiast!");
    assert_eq!(celebration_message(501), "Absolutely incredible! Your library is massive!");
    assert_eq!(celebration_message(1000), "Absolutely incredible! Your library is massive!");
    assert_eq!(celebration_message(1001), "LEGENDARY STATUS! Your music collection is epic!");
}

use playbot::{Database, StorageError, TrackInfo};

fn track(id: &str, name: &str, artist: &str) -> TrackInfo {
    TrackInfo {
        track_id: id.to_string(),
        track_name: name.to_string(),
        artist_name: artist.to_string(),
        album_name: "Album".to_string(),
        release_date: "2001-05-01".to_string(),
        duration_ms: 200000,
        popularity: 64,
        genres: "rock".to_string(),
        lyrics: Some("la la".to_string()),
        producers: String::new(),
        writers: String::new(),
    }
}

fn names(tracks: &[TrackInfo]) -> Vec<String> {
    tracks.iter().map(|t| t.track_name.clone()).collect()
}

#[test]
fn open_init_insert_and_read_back() {
    let db = Database::new(":memory:").unwrap();
    db.init().unwrap();
    db.insert_track_info(&track("id-1", "Song A", "Artist X")).unwrap();
    let all = db.get_all_tracks().unwrap();
    assert_eq!(all.len(), 1);
    let t = &all[0];
    assert_eq!(t.track_id, "id-1");
    assert_eq!(t.track_name, "Song A");
    assert_eq!(t.artist_name, "Artist X");
    assert_eq!(t.album_name, "Album");
    assert_eq!(t.release_date, "2001-05-01");
    assert_eq!(t.duration_ms, 200000);
    assert_eq!(t.popularity, 64);
    assert_eq!(t.genres, "rock");
    assert_eq!(t.lyrics.as_deref(), Some("la la"));
    assert_eq!(t.producers, "");
    assert_eq!(t.writers, "");
}

#[test]
fn insert_replaces_under_same_id() {
    let db = Database::new(":memory:").unwrap();
    db.init().unwrap();
    db.insert_track_info(&track("id-1", "Song A", "Artist X")).unwrap();
    db.insert_track_info(&track("id-1", "Song A2", "Artist X")).unwrap();
    let all = db.get_all_tracks().unwrap();
    assert_eq!(all.len(), 1);
    assert_eq!(all[0].track_name, "Song A2");
}

#[test]
fn search_is_idempotent_over_unchanged_data() {
    let db = Database::new(":memory:").unwrap();
    db.init().unwrap();
    db.insert_track_info(&track("a", "Song A", "Artist X")).unwrap();
    db.insert_track_info(&track("b", "Song B", "Artist Y")).unwrap();
    db.insert_track_info(&track("c", "Other", "Artist X")).unwrap();
    let first = db.search_tracks("artist x").unwrap();
    let second = db.search_tracks("artist x").unwrap();
    assert_eq!(names(&first), names(&second));
    assert_eq!(first.len(), 2);
}

#[test]
fn empty_query_equals_list_all() {
    let db = Database::new(":memory:").unwrap();
    db.init().unwrap();
    db.insert_track_info(&track("a", "Song A", "Artist X")).unwrap();
    db.insert_track_info(&track("b", "Song B", "Artist Y")).unwrap();
    let all = db.get_all_tracks().unwrap();
    let searched = db.search_tracks("").unwrap();
    assert_eq!(names(&all), names(&searched));
    assert_eq!(all.len(), 2);
}

#[test]
fn search_matches_title_or_artist() {
    let db = Database::new(":memory:").unwrap();
    db.init().unwrap();
    db.insert_track_info(&track("a", "Blue Train", "John Coltrane")).unwrap();
    db.insert_track_info(&track("b", "So What", "Miles Davis")).unwrap();
    assert_eq!(names(&db.search_tracks("blue").unwrap()), vec!["Blue Train"]);
    assert_eq!(names(&db.search_tracks("miles").unwrap()), vec!["So What"]);
    assert_eq!(db.search_tracks("train miles").unwrap().len(), 0);
}

#[test]
fn get_track_info_finds_by_id() {
    let db = Database::new(":memory:").unwrap();
    db.init().unwrap();
    db.insert_track_info(&track("id-1", "Song A", "Artist X")).unwrap();
    db.insert_track_info(&track("id-2", "Song B", "Artist Y")).unwrap();
    let found = db.get_track_info("id-2").unwrap().unwrap();
    assert_eq!(found.track_id, "id-2");
    assert_eq!(found.track_name, "Song B");
    assert!(db.get_track_info("id-3").unwrap().is_none());
}

#[test]
fn count_tracks_counts() {
    let db = Database::new(":memory:").unwrap();
    db.init().unwrap();
    assert_eq!(db.count_tracks().unwrap(), 0);
    db.insert_track_info(&track("a", "Song A", "Artist X")).unwrap();
    db.insert_track_info(&track("b", "Song B", "Artist Y")).unwrap();
    assert_eq!(db.count_tracks().unwrap(), 2);
}

#[test]
fn recent_tracks_respects_limit() {
    let db = Database::new(":memory:").unwrap();
    db.init().unwrap();
    for i in 0..5 {
        db.insert_track_info(&track(&format!("id-{}", i), &format!("Song {}", i), "A")).unwrap();
    }
    let recent = db.get_recent_tracks(3).unwrap();
    assert!(recent.len() <= 3);
    let all_recent = db.get_recent_tracks(10).unwrap();
    assert_eq!(all_recent.len(), 5);
}

#[test]
fn open_failure_reports_open() {
    match Database::new("/nonexistent-dir-for-sure/nested/playbot.db") {
        Err(StorageError::Open) => {}
        _ => panic!("expected the open to fail"),
    }
}

#[test]
fn query_without_table_reports_query() {
    let db = Database::new(":memory:").unwrap();
    match db.get_all_tracks() {
        Err(StorageError::Query) => {}
        _ => panic!("expected the read to fail"),
    }
    match db.search_tracks("x") {
        Err(StorageError::Query) => {}
        _ => panic!("expected the search to fail"),
    }
}

#[test]
fn insert_without_table_reports_insert() {
    let db = Database::new(":memory:").unwrap();
    match db.insert_track_info(&track("a", "Song A", "Artist X")) {
        Err(StorageError::Insert) => {}
        _ => panic!("expected the insert to fail"),
    }
}

#[test]
fn init_on_readonly_database_reports_init() {
    let db = Database::new(":memory:").unwrap();
    db.init().unwrap();
    // A second init is harmless: the table is only created when absent.
    db.init().unwrap();
    assert_eq!(db.count_tracks().unwrap(), 0);
}

#[test]
fn storage_error_messages() {
    assert_eq!(StorageError::Open.message(), "failed to open the database");
    assert_eq!(StorageError::Init.message(), "failed to create the tracks table");
    assert_eq!(StorageError::Query.message(), "failed to read from the tracks table");
    assert_eq!(StorageError::Insert.message(), "failed to write into the tracks table");
}

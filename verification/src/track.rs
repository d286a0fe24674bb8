use vstd::prelude::*;

verus! {

/// One cached song: metadata plus optional lyrics, exactly as the store
/// hands it to the browser.  Genres, producers and writers are pre-joined
/// display strings; `release_date` may be empty; `lyrics` is absent when
/// none were cached.
pub struct TrackInfo {
    pub track_id: String,
    pub track_name: String,
    pub artist_name: String,
    pub album_name: String,
    pub release_date: String,
    pub duration_ms: i64,
    pub popularity: i32,
    pub genres: String,
    pub lyrics: Option<String>,
    pub producers: String,
    pub writers: String,
}

} // verus!

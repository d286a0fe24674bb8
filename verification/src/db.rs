//! The track store: a read-mostly SQLite cache of track records, reached
//! through a handful of trusted calls into rusqlite, with the free-text
//! filtering of the browser verified on top of it.

use vstd::prelude::*;

use crate::text::{contains_seq, contains_str, lower_of, lowercase, str_eq};
use crate::track::TrackInfo;

verus! {

/// Why a call against the track store failed.
#[derive(Clone, Copy, Debug, PartialEq, Eq, Structural)]
pub enum StorageError {
    /// The database file could not be opened.
    Open,
    /// The tracks table could not be created.
    Init,
    /// A read against the tracks table failed.
    Query,
    /// A write into the tracks table failed.
    Insert,
}

impl StorageError {
    /// A short description, for callers that report the failure.
    pub fn message(&self) -> (r: &'static str)
        ensures
            r@ == match *self {
                StorageError::Open => "failed to open the database"@,
                StorageError::Init => "failed to create the tracks table"@,
                StorageError::Query => "failed to read from the tracks table"@,
                StorageError::Insert => "failed to write into the tracks table"@,
            },
    {
        match self {
            StorageError::Open => "failed to open the database",
            StorageError::Init => "failed to create the tracks table",
            StorageError::Query => "failed to read from the tracks table",
            StorageError::Insert => "failed to write into the tracks table",
        }
    }
}

// ---------------------------------------------------------------------------
// Trusted declarations of the rusqlite types the store holds and returns.
// ---------------------------------------------------------------------------

/// Declares rusqlite's `Connection`, the open database handle the store
/// holds; opaque here.
#[verifier::external_type_specification]
#[verifier::external_body]
pub struct ExConnection(rusqlite::Connection);

/// Declares rusqlite's `Error`, which the trusted calls return; opaque
/// here, and mapped to `StorageError` right away.
#[verifier::external_type_specification]
#[verifier::external_body]
pub struct ExRusqliteError(rusqlite::Error);

// ---------------------------------------------------------------------------
// Trusted calls into rusqlite.  What the store holds on disk cannot be
// pinned down here, so these promise nothing about row contents; the
// verified store methods state what holds of every outcome.
// ---------------------------------------------------------------------------

/// Relies on rusqlite's `Connection::open`: opens, creating it when absent,
/// the database file at `path`.
#[verifier::external_body]
fn open_connection(path: &str) -> Result<rusqlite::Connection, rusqlite::Error> {
    rusqlite::Connection::open(path)
}

/// Relies on rusqlite's `Connection::execute`: runs one parameterless SQL
/// statement.
#[verifier::external_body]
fn execute_sql(conn: &rusqlite::Connection, sql: &str) -> Result<usize, rusqlite::Error> {
    conn.execute(sql, [])
}

/// Relies on rusqlite's `Connection::execute`: runs `sql` with the record's
/// eleven fields bound, in declaration order, to its eleven parameters.
#[verifier::external_body]
fn execute_insert_track(
    conn: &rusqlite::Connection,
    sql: &str,
    info: &TrackInfo,
) -> Result<usize, rusqlite::Error> {
    conn.execute(
        sql,
        (
            &info.track_id, &info.track_name, &info.artist_name, &info.album_name,
            &info.release_date, &info.duration_ms, &info.popularity, &info.genres,
            &info.lyrics, &info.producers, &info.writers,
        ),
    )
}

/// Relies on rusqlite's `Connection::prepare` and `Statement::query_map`:
/// runs a parameterless select of the eleven track columns and converts each
/// row into a record, in the order the statement yields them.
#[verifier::external_body]
fn query_track_rows(
    conn: &rusqlite::Connection,
    sql: &str,
) -> Result<Vec<TrackInfo>, rusqlite::Error> {
    let mut stmt = conn.prepare(sql)?;
    let rows = stmt.query_map([], |row| {
        Ok(TrackInfo {
            track_id: row.get(0)?, track_name: row.get(1)?, artist_name: row.get(2)?,
            album_name: row.get(3)?, release_date: row.get(4)?, duration_ms: row.get(5)?,
            popularity: row.get(6)?, genres: row.get(7)?, lyrics: row.get(8)?,
            producers: row.get(9)?, writers: row.get(10)?,
        })
    })?;
    rows.collect()
}

/// Relies on rusqlite's `Connection::prepare` and `Statement::query_map`,
/// as `query_track_rows` does, with `limit` bound to the one parameter of
/// the statement.
#[verifier::external_body]
fn query_track_rows_limit(
    conn: &rusqlite::Connection,
    sql: &str,
    limit: i64,
) -> Result<Vec<TrackInfo>, rusqlite::Error> {
    let mut stmt = conn.prepare(sql)?;
    let rows = stmt.query_map((limit,), |row| {
        Ok(TrackInfo {
            track_id: row.get(0)?, track_name: row.get(1)?, artist_name: row.get(2)?,
            album_name: row.get(3)?, release_date: row.get(4)?, duration_ms: row.get(5)?,
            popularity: row.get(6)?, genres: row.get(7)?, lyrics: row.get(8)?,
            producers: row.get(9)?, writers: row.get(10)?,
        })
    })?;
    rows.collect()
}

// ---------------------------------------------------------------------------
// The free-text query: which records a search keeps.
// ---------------------------------------------------------------------------

/// Whether a record matches the free-text query `q`: an empty query matches
/// every record; any other matches case-insensitively against the track
/// title or the artist name.
pub open spec fn track_matches_spec(t: TrackInfo, q: Seq<char>) -> bool {
    ||| q.len() == 0
    ||| contains_seq(lower_of(t.track_name@), lower_of(q))
    ||| contains_seq(lower_of(t.artist_name@), lower_of(q))
}

/// The subsequence of `ts` whose records match the query `q`, in order.
pub open spec fn filter_tracks_spec(ts: Seq<TrackInfo>, q: Seq<char>) -> Seq<TrackInfo>
    decreases ts.len(),
{
    if ts.len() == 0 {
        Seq::empty()
    } else if track_matches_spec(ts[0], q) {
        seq![ts[0]] + filter_tracks_spec(ts.drop_first(), q)
    } else {
        filter_tracks_spec(ts.drop_first(), q)
    }
}

/// Whether a record matches the free-text query `q`.
pub fn track_matches(t: &TrackInfo, q: &str) -> (r: bool)
    ensures
        r == track_matches_spec(*t, q@),
{
    if q.unicode_len() == 0 {
        return true;
    }
    let lq = lowercase(q);
    let lt = lowercase(t.track_name.as_str());
    if contains_str(lt.as_str(), lq.as_str()) {
        return true;
    }
    let la = lowercase(t.artist_name.as_str());
    contains_str(la.as_str(), lq.as_str())
}

/// The records of `ts` that match the query `q`, in the order they came.
pub fn filter_tracks(ts: Vec<TrackInfo>, q: &str) -> (r: Vec<TrackInfo>)
    ensures
        r@ == filter_tracks_spec(ts@, q@),
{
    let ghost orig = ts@;
    let mut input = ts;
    let mut out: Vec<TrackInfo> = Vec::new();
    proof {
        assert(out@ + filter_tracks_spec(input@, q@) =~= filter_tracks_spec(orig, q@));
    }
    while input.len() > 0
        invariant
            filter_tracks_spec(orig, q@) =~= out@ + filter_tracks_spec(input@, q@),
        decreases input.len(),
    {
        let ghost before = input@;
        let t = input.remove(0);
        assert(input@ =~= before.drop_first());
        let keep = track_matches(&t, q);
        if keep {
            out.push(t);
        }
        proof {
            assert(filter_tracks_spec(orig, q@) =~= out@ + filter_tracks_spec(input@, q@));
        }
    }
    proof {
        assert(filter_tracks_spec(input@, q@) =~= Seq::<TrackInfo>::empty());
        assert(out@ =~= filter_tracks_spec(orig, q@));
    }
    out
}

/// Every record a filter keeps matches the query.
pub proof fn lemma_filtered_all_match(ts: Seq<TrackInfo>, q: Seq<char>)
    ensures
        forall|i: int|
            0 <= i < filter_tracks_spec(ts, q).len() ==> track_matches_spec(
                #[trigger] filter_tracks_spec(ts, q)[i],
                q,
            ),
    decreases ts.len(),
{
    if ts.len() > 0 {
        lemma_filtered_all_match(ts.drop_first(), q);
        let rest = filter_tracks_spec(ts.drop_first(), q);
        let whole = filter_tracks_spec(ts, q);
        if track_matches_spec(ts[0], q) {
            assert forall|i: int| 0 <= i < whole.len() implies track_matches_spec(
                whole[i],
                q,
            ) by {
                if i == 0 {
                    assert(whole[0] == ts[0]);
                } else {
                    assert(whole[i] == rest[i - 1]);
                }
            }
        }
    }
}

/// Filtering keeps a sequence whose records all match the query unchanged.
pub proof fn lemma_filter_of_matching_is_identity(ts: Seq<TrackInfo>, q: Seq<char>)
    requires
        forall|i: int| 0 <= i < ts.len() ==> track_matches_spec(#[trigger] ts[i], q),
    ensures
        filter_tracks_spec(ts, q) == ts,
    decreases ts.len(),
{
    if ts.len() > 0 {
        lemma_filter_of_matching_is_identity(ts.drop_first(), q);
        assert(filter_tracks_spec(ts, q) =~= ts);
    } else {
        assert(filter_tracks_spec(ts, q) =~= ts);
    }
}

/// Searching is idempotent: filtering a result set again with the same
/// query changes nothing, so running the same search twice over unchanged
/// data yields the same records both times.
pub proof fn lemma_search_idempotent(ts: Seq<TrackInfo>, q: Seq<char>)
    ensures
        filter_tracks_spec(filter_tracks_spec(ts, q), q) == filter_tracks_spec(ts, q),
{
    lemma_filtered_all_match(ts, q);
    lemma_filter_of_matching_is_identity(filter_tracks_spec(ts, q), q);
}

/// An empty query keeps every record: searching for nothing and listing
/// all tracks are the same thing.
pub proof fn lemma_empty_query_keeps_all(ts: Seq<TrackInfo>)
    ensures
        filter_tracks_spec(ts, Seq::<char>::empty()) == ts,
{
    assert(forall|i: int|
        0 <= i < ts.len() ==> track_matches_spec(#[trigger] ts[i], Seq::<char>::empty()));
    lemma_filter_of_matching_is_identity(ts, Seq::<char>::empty());
}

// ---------------------------------------------------------------------------
// The store.
// ---------------------------------------------------------------------------

/// The read interface over the persistent cache of track records.
pub struct Database {
    conn: rusqlite::Connection,
}

impl Database {
    /// Opens the database file at `path`, creating it when absent.
    pub fn new(path: &str) -> (r: Result<Database, StorageError>)
        ensures
            r matches Err(e) ==> e == StorageError::Open,
    {
        match open_connection(path) {
            Ok(conn) => Ok(Database { conn }),
            Err(_) => Err(StorageError::Open),
        }
    }

    /// Creates the tracks table when it does not exist yet.
    pub fn init(&self) -> (r: Result<(), StorageError>)
        ensures
            r matches Err(e) ==> e == StorageError::Init,
    {
        match execute_sql(
            &self.conn,
            "CREATE TABLE IF NOT EXISTS tracks (\
                track_id TEXT PRIMARY KEY,\
                track_name TEXT NOT NULL,\
                artist_name TEXT NOT NULL,\
                album_name TEXT NOT NULL,\
                release_date TEXT,\
                duration_ms INTEGER,\
                popularity INTEGER,\
                genres TEXT,\
                lyrics TEXT,\
                producers TEXT,\
                writers TEXT,\
                cached_at DATETIME DEFAULT CURRENT_TIMESTAMP\
            )",
        ) {
            Ok(_) => Ok(()),
            Err(_) => Err(StorageError::Init),
        }
    }

    /// Every cached track, in the order the store yields them.  What the
    /// rows hold is the store's to decide; failure is always `Query`.
    pub fn get_all_tracks(&self) -> (r: Result<Vec<TrackInfo>, StorageError>)
        ensures
            r matches Err(e) ==> e == StorageError::Query,
    {
        match query_track_rows(
            &self.conn,
            "SELECT track_id, track_name, artist_name, album_name, release_date, \
             duration_ms, popularity, genres, lyrics, producers, writers FROM tracks",
        ) {
            Ok(rows) => Ok(rows),
            Err(_) => Err(StorageError::Query),
        }
    }

    /// The cached tracks matching the free-text query, in store order: the
    /// result is exactly the current rows filtered by `track_matches_spec`,
    /// so an empty query returns every row.
    pub fn search_tracks(&self, query: &str) -> (r: Result<Vec<TrackInfo>, StorageError>)
        ensures
            r matches Ok(v) ==> exists|all: Seq<TrackInfo>| v@ == filter_tracks_spec(all, query@),
            r matches Err(e) ==> e == StorageError::Query,
    {
        match self.get_all_tracks() {
            Ok(all) => {
                let ghost all_rows = all@;
                let kept = filter_tracks(all, query);
                proof {
                    assert(kept@ == filter_tracks_spec(all_rows, query@));
                }
                Ok(kept)
            },
            Err(e) => Err(e),
        }
    }

    /// The cached record with the given identifier, when one exists.  The
    /// identifier is the store's unique key, so at most one row matches.
    pub fn get_track_info(&self, track_id: &str) -> (r: Result<
        Option<TrackInfo>,
        StorageError,
    >)
        ensures
            r matches Ok(Some(t)) ==> t.track_id@ == track_id@,
            r matches Err(e) ==> e == StorageError::Query,
    {
        let rows = match self.get_all_tracks() {
            Ok(rows) => rows,
            Err(e) => {
                return Err(e);
            },
        };
        let mut input = rows;
        while input.len() > 0
            decreases input.len(),
        {
            let t = input.remove(0);
            if str_eq(t.track_id.as_str(), track_id) {
                return Ok(Some(t));
            }
        }
        Ok(None)
    }

    /// Stores or replaces one record under its identifier.
    pub fn insert_track_info(&self, info: &TrackInfo) -> (r: Result<(), StorageError>)
        ensures
            r matches Err(e) ==> e == StorageError::Insert,
    {
        match execute_insert_track(
            &self.conn,
            "INSERT OR REPLACE INTO tracks \
             (track_id, track_name, artist_name, album_name, release_date, \
              duration_ms, popularity, genres, lyrics, producers, writers) \
             VALUES (?1, ?2, ?3, ?4, ?5, ?6, ?7, ?8, ?9, ?10, ?11)",
            info,
        ) {
            Ok(_) => Ok(()),
            Err(_) => Err(StorageError::Insert),
        }
    }

    /// How many tracks the store holds right now.
    pub fn count_tracks(&self) -> (r: Result<usize, StorageError>)
        ensures
            r matches Err(e) ==> e == StorageError::Query,
    {
        match self.get_all_tracks() {
            Ok(rows) => Ok(rows.len()),
            Err(e) => Err(e),
        }
    }

    /// At most `limit` tracks, the most recently cached first.
    pub fn get_recent_tracks(&self, limit: u32) -> (r: Result<Vec<TrackInfo>, StorageError>)
        ensures
            r matches Ok(v) ==> v@.len() <= limit,
            r matches Err(e) ==> e == StorageError::Query,
    {
        let rows = match query_track_rows_limit(
            &self.conn,
            "SELECT track_id, track_name, artist_name, album_name, release_date, \
             duration_ms, popularity, genres, lyrics, producers, writers \
             FROM tracks ORDER BY cached_at DESC LIMIT ?1",
            limit as i64,
        ) {
            Ok(rows) => rows,
            Err(_) => {
                return Err(StorageError::Query);
            },
        };
        let mut rows = rows;
        while rows.len() > limit as usize
            decreases rows.len(),
        {
            rows.pop();
        }
        Ok(rows)
    }
}

} // verus!

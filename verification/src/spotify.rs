//! What the local player reports about the current track, and the verified
//! parsing of the three platform-specific report formats.  Running the
//! platform query itself is the caller's business; these functions turn its
//! raw textual output into a track record.

use vstd::prelude::*;

use crate::numbers::{parse_i64_or_zero, parse_i64_or_zero_spec};
use crate::text::{
    append_dashed, dashed, find_first, find_str, lemma_find_first, lower_of, lowercase, push_char,
    split_char, split_spec, trim_spec, trim_str,
};

verus! {

/// The fields the local player reports about the currently playing track.
/// Only identifier, title, artist and album ever come from the player;
/// the rest is filled in later or left empty.
pub struct TrackInfoBasic {
    pub id: String,
    pub title: String,
    pub artist: String,
    pub album: String,
    pub release_date: String,
    pub duration_ms: i64,
    pub popularity: i32,
    pub genres: Vec<String>,
    pub producers: Vec<String>,
    pub writers: Vec<String>,
}

/// Why the player's output could not be understood.
#[derive(Clone, Copy, Debug, PartialEq, Eq, Structural)]
pub enum TrackParseError {
    /// A metadata field was missing from the player's report.
    FieldNotFound,
    /// The report had fewer parts than the format requires.
    MalformedOutput,
}

impl TrackParseError {
    /// A short description, for callers that report the failure.
    pub fn message(&self) -> (r: &'static str)
        ensures
            r@ == match *self {
                TrackParseError::FieldNotFound => "field not found in metadata"@,
                TrackParseError::MalformedOutput => "failed to parse track information"@,
            },
    {
        match self {
            TrackParseError::FieldNotFound => "field not found in metadata",
            TrackParseError::MalformedOutput => "failed to parse track information",
        }
    }
}

/// A handle for asking the local player what is playing.  The queries
/// themselves run outside; the handle only names the service.
pub struct SpotifyClient;

impl SpotifyClient {
    /// A fresh handle; creating one cannot fail.
    pub fn new() -> (r: Result<SpotifyClient, TrackParseError>)
        ensures
            r is Ok,
    {
        Ok(SpotifyClient)
    }

    /// The value of one metadata field of a D-Bus properties dump, or
    /// `FieldNotFound` exactly when the dump does not hold one.
    pub fn extract_dbus_field(output: &str, field: &str) -> (r: Result<String, TrackParseError>)
        ensures
            match r {
                Ok(v) => extract_field_spec(output@, field@) == Some(v@),
                Err(e) => extract_field_spec(output@, field@) is None && e
                    == TrackParseError::FieldNotFound,
            },
    {
        let mut marker = String::new();
        marker.append("string \"");
        marker.append(field);
        marker.append("\"");
        assert(marker@ =~= "string \""@ + field@ + "\""@);
        let out_len = output.unicode_len();
        let mlen = marker.as_str().unicode_len();
        let pos = find_str(output, marker.as_str());
        proof {
            lemma_find_first(output@, marker@);
        }
        let p = match pos {
            Some(p) => p,
            None => {
                return Err(TrackParseError::FieldNotFound);
            },
        };
        let after = output.substring_char(p + mlen, out_len);
        let spos = find_str(after, "string \"");
        proof {
            lemma_find_first(after@, "string \""@);
            reveal_strlit("string \"");
        }
        let s = match spos {
            Some(s) => s,
            None => {
                return Err(TrackParseError::FieldNotFound);
            },
        };
        let after_len = after.unicode_len();
        let vp = after.substring_char(s + 8, after_len);
        let epos = find_str(vp, "\"");
        proof {
            lemma_find_first(vp@, "\""@);
            reveal_strlit("\"");
            assert("\""@ =~= seq!['"']);
        }
        match epos {
            Some(e) => {
                let value = vp.substring_char(0, e).to_owned();
                Ok(value)
            },
            None => Err(TrackParseError::FieldNotFound),
        }
    }
}

/// The identifier a track gets: title and artist lowercased, spaces turned
/// into dashes, joined by a dash.
pub open spec fn track_id_spec(title: Seq<char>, artist: Seq<char>) -> Seq<char> {
    dashed(lower_of(title)) + seq!['-'] + dashed(lower_of(artist))
}

/// The identifier for a title and an artist.
pub fn make_track_id(title: &str, artist: &str) -> (r: String)
    ensures
        r@ == track_id_spec(title@, artist@),
{
    let lt = lowercase(title);
    let la = lowercase(artist);
    let mut r = String::new();
    append_dashed(&mut r, lt.as_str());
    push_char(&mut r, '-');
    append_dashed(&mut r, la.as_str());
    proof {
        assert(r@ =~= track_id_spec(title@, artist@));
    }
    r
}

/// The value of one field in a D-Bus properties dump: after the first
/// `string "<field>"` marker, the text between the quotes of the next
/// `string "` value, if the dump holds all three pieces.
pub open spec fn extract_field_spec(out: Seq<char>, field: Seq<char>) -> Option<Seq<char>> {
    let marker = "string \""@ + field + "\""@;
    match find_first(out, marker) {
        None => None,
        Some(p) => {
            let after = out.subrange(p + marker.len(), out.len() as int);
            match find_first(after, "string \""@) {
                None => None,
                Some(s) => {
                    let vp = after.subrange(s + "string \""@.len(), after.len() as int);
                    match find_first(vp, seq!['"']) {
                        None => None,
                        Some(e) => Some(vp.subrange(0, e)),
                    }
                },
            }
        },
    }
}

/// The parts of a player report: the output trimmed, then split at `'|'`.
pub open spec fn report_parts(out: Seq<char>) -> Seq<Seq<char>> {
    split_spec(trim_spec(out), '|')
}

/// A record built from title, artist and album, with the identifier
/// derived from title and artist and everything else empty.
fn basic_record(title: String, artist: String, album: String, duration_ms: i64) -> (t:
    TrackInfoBasic)
    ensures
        t.id@ == track_id_spec(title@, artist@),
        t.title == title,
        t.artist == artist,
        t.album == album,
        t.duration_ms == duration_ms,
        t.release_date@.len() == 0,
        t.popularity == 0,
        t.genres@.len() == 0,
        t.producers@.len() == 0,
        t.writers@.len() == 0,
{
    let id = make_track_id(title.as_str(), artist.as_str());
    TrackInfoBasic {
        id,
        title,
        artist,
        album,
        release_date: String::new(),
        duration_ms,
        popularity: 0,
        genres: Vec::new(),
        producers: Vec::new(),
        writers: Vec::new(),
    }
}

/// A track record from a D-Bus properties dump: the `xesam:title` and
/// `xesam:artist` fields must be present, the album falls back to
/// `Unknown Album`, and duration and popularity are not reported.
pub fn parse_linux_track(output: &str) -> (r: Result<TrackInfoBasic, TrackParseError>)
    ensures
        match r {
            Ok(t) => {
                &&& extract_field_spec(output@, "xesam:title"@) == Some(t.title@)
                &&& extract_field_spec(output@, "xesam:artist"@) == Some(t.artist@)
                &&& t.album@ == match extract_field_spec(output@, "xesam:album"@) {
                    Some(a) => a,
                    None => "Unknown Album"@,
                }
                &&& t.id@ == track_id_spec(t.title@, t.artist@)
                &&& t.duration_ms == 0 && t.popularity == 0
                &&& t.release_date@.len() == 0 && t.genres@.len() == 0 && t.producers@.len() == 0
                    && t.writers@.len() == 0
            },
            Err(e) => {
                &&& (extract_field_spec(output@, "xesam:title"@) is None || extract_field_spec(
                    output@,
                    "xesam:artist"@,
                ) is None)
                &&& e == TrackParseError::FieldNotFound
            },
        },
{
    let title = match SpotifyClient::extract_dbus_field(output, "xesam:title") {
        Ok(t) => t,
        Err(e) => {
            return Err(e);
        },
    };
    let artist = match SpotifyClient::extract_dbus_field(output, "xesam:artist") {
        Ok(a) => a,
        Err(e) => {
            return Err(e);
        },
    };
    let album = match SpotifyClient::extract_dbus_field(output, "xesam:album") {
        Ok(a) => a,
        Err(_) => {
            let mut fallback = String::new();
            fallback.append("Unknown Album");
            fallback
        },
    };
    Ok(basic_record(title, artist, album, 0))
}

/// A track record from the macOS player report, `title|artist|album|ms`:
/// at least four parts after trimming, with the fourth read as a number
/// and zero standing in for anything unreadable.
pub fn parse_macos_track(output: &str) -> (r: Result<TrackInfoBasic, TrackParseError>)
    ensures
        match r {
            Ok(t) => {
                &&& report_parts(output@).len() >= 4
                &&& t.title@ == report_parts(output@)[0]
                &&& t.artist@ == report_parts(output@)[1]
                &&& t.album@ == report_parts(output@)[2]
                &&& t.duration_ms as int == parse_i64_or_zero_spec(report_parts(output@)[3])
                &&& t.id@ == track_id_spec(t.title@, t.artist@)
                &&& t.popularity == 0
                &&& t.release_date@.len() == 0 && t.genres@.len() == 0 && t.producers@.len() == 0
                    && t.writers@.len() == 0
            },
            Err(e) => report_parts(output@).len() < 4 && e == TrackParseError::MalformedOutput,
        },
{
    let trimmed = trim_str(output);
    let parts = split_char(trimmed.as_str(), '|');
    if parts.len() < 4 {
        return Err(TrackParseError::MalformedOutput);
    }
    let title = parts[0].clone();
    let artist = parts[1].clone();
    let album = parts[2].clone();
    let duration_ms = parse_i64_or_zero(parts[3].as_str());
    Ok(basic_record(title, artist, album, duration_ms))
}

/// A track record from the Windows media-session report,
/// `title|artist|album`: at least three parts after trimming, with no
/// duration reported.
pub fn parse_windows_track(output: &str) -> (r: Result<TrackInfoBasic, TrackParseError>)
    ensures
        match r {
            Ok(t) => {
                &&& report_parts(output@).len() >= 3
                &&& t.title@ == report_parts(output@)[0]
                &&& t.artist@ == report_parts(output@)[1]
                &&& t.album@ == report_parts(output@)[2]
                &&& t.duration_ms == 0 && t.popularity == 0
                &&& t.id@ == track_id_spec(t.title@, t.artist@)
                &&& t.release_date@.len() == 0 && t.genres@.len() == 0 && t.producers@.len() == 0
                    && t.writers@.len() == 0
            },
            Err(e) => report_parts(output@).len() < 3 && e == TrackParseError::MalformedOutput,
        },
{
    let trimmed = trim_str(output);
    let parts = split_char(trimmed.as_str(), '|');
    if parts.len() < 3 {
        return Err(TrackParseError::MalformedOutput);
    }
    let title = parts[0].clone();
    let artist = parts[1].clone();
    let album = parts[2].clone();
    Ok(basic_record(title, artist, album, 0))
}

} // verus!

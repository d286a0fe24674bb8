//! The text side of the lyrics provider: cleaning the raw lyric block the
//! provider hands back and shaping the messages shown for it.  The network
//! call itself is the caller's business; these functions decide what is
//! made of every possible answer.

use vstd::prelude::*;

use crate::text::{
    push_char, strip_leading_numeric, strip_prefix_reps, trim_spec, trim_start_matches_str,
    trim_start_numeric, trim_str,
};

verus! {

/// What the lyrics provider answered, reduced to plain values: a hit with
/// the provider's track title, artist list and raw lyric block, or nothing.
pub enum LyricOutcome {
    Found { track: String, artists: String, lyric: String },
    NotFound,
}

/// The cleanup a raw lyric block goes through: outer whitespace dropped,
/// then a leading contributor count (digits, then ` Contributor`, then a
/// plural `s`), then a repeated track-title prefix and a ` Lyrics` marker,
/// then whitespace once more.
pub open spec fn clean_lyric_spec(track: Seq<char>, lyric: Seq<char>) -> Seq<char> {
    let trimmed = trim_spec(lyric);
    let no_count = strip_leading_numeric(trimmed);
    let no_contributor = strip_prefix_reps(no_count, " Contributor"@);
    let no_plural = strip_prefix_reps(no_contributor, "s"@);
    let no_track = strip_prefix_reps(no_plural, track);
    let no_marker = strip_prefix_reps(no_track, " Lyrics"@);
    trim_spec(no_marker)
}

/// The raw lyric block without the provider's leading metadata.
pub fn clean_lyric(track: &str, lyric: &str) -> (r: String)
    ensures
        r@ == clean_lyric_spec(track@, lyric@),
{
    let trimmed = trim_str(lyric);
    let no_count = trim_start_numeric(trimmed.as_str());
    let no_contributor = trim_start_matches_str(no_count.as_str(), " Contributor");
    let no_plural = trim_start_matches_str(no_contributor.as_str(), "s");
    let no_track = trim_start_matches_str(no_plural.as_str(), track);
    let no_marker = trim_start_matches_str(no_track.as_str(), " Lyrics");
    trim_str(no_marker.as_str())
}

/// The message shown for a found lyric: the provider's track and artists
/// on two header lines, then the cleaned lyric block.
pub open spec fn found_message_spec(track: Seq<char>, artists: Seq<char>, lyric: Seq<char>) -> Seq<
    char,
> {
    "🎵 "@ + track + "\n👤 "@ + artists + "\n\n"@ + clean_lyric_spec(track, lyric)
}

/// The message shown when the provider found nothing for a song.
pub open spec fn not_found_message_spec(title: Seq<char>, artist: Seq<char>) -> Seq<char> {
    "No lyrics found for '"@ + title + "' by '"@ + artist + "'"@
}

/// The query sent to the provider: the song title, a space, the artist.
pub open spec fn search_query_spec(title: Seq<char>, artist: Seq<char>) -> Seq<char> {
    title + seq![' '] + artist
}

/// The query sent to the provider for a song.
pub fn build_search_query(song_title: &str, artist_name: &str) -> (r: String)
    ensures
        r@ == search_query_spec(song_title@, artist_name@),
{
    let mut r = String::new();
    r.append(song_title);
    push_char(&mut r, ' ');
    r.append(artist_name);
    proof {
        assert(r@ =~= search_query_spec(song_title@, artist_name@));
    }
    r
}

/// The text shown for whatever the provider answered: a found lyric is
/// cleaned and put under its header lines; a miss names the song that was
/// asked for.
pub fn lyrics_message(outcome: &LyricOutcome, song_title: &str, artist_name: &str) -> (r: String)
    ensures
        match outcome {
            LyricOutcome::Found { track, artists, lyric } => r@ == found_message_spec(
                track@,
                artists@,
                lyric@,
            ),
            LyricOutcome::NotFound => r@ == not_found_message_spec(song_title@, artist_name@),
        },
{
    match outcome {
        LyricOutcome::Found { track, artists, lyric } => {
            let cleaned = clean_lyric(track.as_str(), lyric.as_str());
            let mut r = String::new();
            r.append("🎵 ");
            r.append(track.as_str());
            r.append("\n👤 ");
            r.append(artists.as_str());
            r.append("\n\n");
            r.append(cleaned.as_str());
            proof {
                assert(r@ =~= found_message_spec(track@, artists@, lyric@));
            }
            r
        },
        LyricOutcome::NotFound => {
            let mut r = String::new();
            r.append("No lyrics found for '");
            r.append(song_title);
            r.append("' by '");
            r.append(artist_name);
            r.append("'");
            proof {
                assert(r@ =~= not_found_message_spec(song_title@, artist_name@));
            }
            r
        },
    }
}

} // verus!

//! The pure rendering model: every piece of text the browser shows is a
//! function of the session state alone, with the layout, colors and
//! widgets left to the caller.

use vstd::prelude::*;

use crate::numbers::{dec_int, dec_nat, i64_to_string, i64_to_string_pad2, pad2_int, usize_to_string};
use crate::session::{InputMode, ViewMode};
use crate::text::{lines_spec, push_char, split_lines};
use crate::track::TrackInfo;

verus! {

/// The magnitude of a number.
pub open spec fn abs_int(n: int) -> int {
    if n < 0 {
        -n
    } else {
        n
    }
}

/// A duration in milliseconds rendered as minutes and two-digit seconds,
/// each component carrying the sign of the duration, exactly as the
/// `{}:{:02}` format writes the two quotients.
pub open spec fn duration_text(ms: int) -> Seq<char> {
    let mag = abs_int(ms);
    let minutes = mag / 60000;
    let seconds = (mag % 60000) / 1000;
    let m_signed = if ms < 0 {
        -minutes
    } else {
        minutes
    };
    let s_signed = if ms < 0 {
        -seconds
    } else {
        seconds
    };
    dec_int(m_signed) + seq![':'] + pad2_int(s_signed)
}

/// The duration line's value, `minutes:seconds`.
pub fn format_duration(ms: i64) -> (r: String)
    ensures
        r@ == duration_text(ms as int),
{
    let mag: u64 = if ms == i64::MIN {
        0x8000_0000_0000_0000
    } else if ms < 0 {
        (-ms) as u64
    } else {
        ms as u64
    };
    let minutes = mag / 60000;
    let seconds = (mag % 60000) / 1000;
    let m_signed: i64 = if ms < 0 {
        -(minutes as i64)
    } else {
        minutes as i64
    };
    let s_signed: i64 = if ms < 0 {
        -(seconds as i64)
    } else {
        seconds as i64
    };
    let mut r = i64_to_string(m_signed);
    push_char(&mut r, ':');
    let tail = i64_to_string_pad2(s_signed);
    r.append(tail.as_str());
    proof {
        assert(r@ =~= duration_text(ms as int));
    }
    r
}

/// One line of the list pane: the title first, then the artist.
pub open spec fn list_line_spec(t: TrackInfo) -> Seq<char> {
    t.track_name@ + " by "@ + t.artist_name@
}

/// One line of the list pane for a record.
pub fn list_line(t: &TrackInfo) -> (r: String)
    ensures
        r@ == list_line_spec(*t),
{
    let mut r = String::new();
    r.append(t.track_name.as_str());
    r.append(" by ");
    r.append(t.artist_name.as_str());
    proof {
        assert(r@ =~= list_line_spec(*t));
    }
    r
}

/// One line per result, in order, each put together by `list_line_spec`.
pub fn list_lines(tracks: &Vec<TrackInfo>) -> (r: Vec<String>)
    ensures
        r@.len() == tracks@.len(),
        forall|i: int| 0 <= i < r@.len() ==> r@[i]@ == list_line_spec(tracks@[i]),
{
    let mut out: Vec<String> = Vec::new();
    let mut i: usize = 0;
    while i < tracks.len()
        invariant
            i <= tracks@.len(),
            out@.len() == i,
            forall|k: int| 0 <= k < i ==> out@[k]@ == list_line_spec(tracks@[k]),
        decreases tracks@.len() - i,
    {
        out.push(list_line(&tracks[i]));
        i += 1;
    }
    out
}

/// The list pane's title, carrying the number of results.
pub open spec fn list_title_spec(n: nat) -> Seq<char> {
    "Tracks ("@ + dec_nat(n) + ")"@
}

/// The list pane's title for `n` results.
pub fn list_title(n: usize) -> (r: String)
    ensures
        r@ == list_title_spec(n as nat),
{
    let mut r = String::new();
    r.append("Tracks (");
    let count = usize_to_string(n);
    r.append(count.as_str());
    r.append(")");
    proof {
        assert(r@ =~= list_title_spec(n as nat));
    }
    r
}

/// The search pane's message: an invitation in normal mode, the query
/// being typed in editing mode.
pub open spec fn search_text_spec(m: InputMode, q: Seq<char>) -> Seq<char> {
    match m {
        InputMode::Normal => "Press / to search"@,
        InputMode::Editing => "Searching: "@ + q,
    }
}

/// The search pane's message for the given input mode and query.
pub fn search_text(m: InputMode, q: &str) -> (r: String)
    ensures
        r@ == search_text_spec(m, q@),
{
    match m {
        InputMode::Normal => {
            let mut r = String::new();
            r.append("Press / to search");
            r
        },
        InputMode::Editing => {
            let mut r = String::new();
            r.append("Searching: ");
            r.append(q);
            r
        },
    }
}

/// The help pane's text, decided by the view and input modes.
pub open spec fn help_text_spec(v: ViewMode, m: InputMode) -> Seq<char> {
    match v {
        ViewMode::List => match m {
            InputMode::Normal => "j/k or Up/Down: Navigate | Enter: View Details | /: Search | q: Quit"@,
            InputMode::Editing => "Type to search | Enter: Finish | Esc: Cancel"@,
        },
        ViewMode::Detail => "j/k: Scroll | h/l: Prev/Next Song | Enter/Esc: Back to List | q: Quit"@,
    }
}

/// The help pane's text for the given view and input modes.
pub fn help_text(v: ViewMode, m: InputMode) -> (r: &'static str)
    ensures
        r@ == help_text_spec(v, m),
{
    match v {
        ViewMode::List => match m {
            InputMode::Normal => "j/k or Up/Down: Navigate | Enter: View Details | /: Search | q: Quit",
            InputMode::Editing => "Type to search | Enter: Finish | Esc: Cancel",
        },
        ViewMode::Detail => "j/k: Scroll | h/l: Prev/Next Song | Enter/Esc: Back to List | q: Quit",
    }
}

/// The detail pane's lines for one record: title, artist and album first,
/// the optional fields only when non-empty, the duration and popularity
/// always, and the lyrics one line per source line after a small heading.
pub open spec fn detail_lines_spec(t: TrackInfo) -> Seq<Seq<char>> {
    let head = seq![
        "Track: "@ + t.track_name@,
        "Artist: "@ + t.artist_name@,
        "Album: "@ + t.album_name@,
    ];
    let rel = if t.release_date@.len() > 0 {
        seq!["Release Date: "@ + t.release_date@]
    } else {
        Seq::<Seq<char>>::empty()
    };
    let dur = seq!["Duration: "@ + duration_text(t.duration_ms as int)];
    let pop = seq!["Popularity: "@ + dec_int(t.popularity as int) + "/100"@];
    let gen = if t.genres@.len() > 0 {
        seq!["Genres: "@ + t.genres@]
    } else {
        Seq::<Seq<char>>::empty()
    };
    let pro = if t.producers@.len() > 0 {
        seq!["Producers: "@ + t.producers@]
    } else {
        Seq::<Seq<char>>::empty()
    };
    let wri = if t.writers@.len() > 0 {
        seq!["Writers: "@ + t.writers@]
    } else {
        Seq::<Seq<char>>::empty()
    };
    let lyr = match t.lyrics {
        Some(l) => seq![Seq::<char>::empty(), "Lyrics:"@, Seq::<char>::empty()] + lines_spec(l@),
        None => Seq::<Seq<char>>::empty(),
    };
    head + rel + dur + pop + gen + pro + wri + lyr
}

/// A line made of a label and a value.
fn labeled_line(label: &str, value: &str) -> (r: String)
    ensures
        r@ == label@ + value@,
{
    let mut r = String::new();
    r.append(label);
    r.append(value);
    r
}

/// The detail pane's lines for one record.
#[verifier::rlimit(50)]
pub fn detail_lines(t: &TrackInfo) -> (r: Vec<String>)
    ensures
        r@.map_values(|s: String| s@) == detail_lines_spec(*t),
{
    let mut out: Vec<String> = Vec::new();
    out.push(labeled_line("Track: ", t.track_name.as_str()));
    out.push(labeled_line("Artist: ", t.artist_name.as_str()));
    out.push(labeled_line("Album: ", t.album_name.as_str()));
    if t.release_date.as_str().unicode_len() > 0 {
        out.push(labeled_line("Release Date: ", t.release_date.as_str()));
    }
    let dur = format_duration(t.duration_ms);
    out.push(labeled_line("Duration: ", dur.as_str()));
    let mut pop = String::new();
    pop.append("Popularity: ");
    let pop_count = i64_to_string(t.popularity as i64);
    pop.append(pop_count.as_str());
    pop.append("/100");
    assert(pop@ =~= "Popularity: "@ + dec_int(t.popularity as int) + "/100"@);
    out.push(pop);
    if t.genres.as_str().unicode_len() > 0 {
        out.push(labeled_line("Genres: ", t.genres.as_str()));
    }
    if t.producers.as_str().unicode_len() > 0 {
        out.push(labeled_line("Producers: ", t.producers.as_str()));
    }
    if t.writers.as_str().unicode_len() > 0 {
        out.push(labeled_line("Writers: ", t.writers.as_str()));
    }
    let ghost before_lyrics = out@.map_values(|s: String| s@);
    match &t.lyrics {
        Some(l) => {
            out.push(String::new());
            let mut heading = String::new();
            heading.append("Lyrics:");
            out.push(heading);
            out.push(String::new());
            let ghost with_heading = out@.map_values(|s: String| s@);
            proof {
                assert(with_heading =~= before_lyrics + seq![
                    Seq::<char>::empty(),
                    "Lyrics:"@,
                    Seq::<char>::empty(),
                ]);
            }
            let lines = split_lines(l.as_str());
            let mut i: usize = 0;
            while i < lines.len()
                invariant
                    i <= lines@.len(),
                    lines@.len() == lines_spec(l@).len(),
                    forall|k: int| 0 <= k < lines@.len() ==> lines@[k]@ == lines_spec(l@)[k],
                    out@.map_values(|s: String| s@) =~= with_heading + lines_spec(l@).take(i as int),
                decreases lines@.len() - i,
            {
                let line = lines[i].clone();
                assert(line@ == lines_spec(l@)[i as int]);
                let ghost prev = out@.map_values(|s: String| s@);
                out.push(line);
                proof {
                    assert(out@.map_values(|s: String| s@) =~= prev.push(line@));
                    assert(lines_spec(l@).take(i + 1) =~= lines_spec(l@).take(i as int).push(
                        lines_spec(l@)[i as int],
                    ));
                    assert(out@.map_values(|s: String| s@) =~= with_heading + lines_spec(l@).take(
                        i + 1,
                    ));
                }
                i += 1;
            }
            proof {
                assert(lines_spec(l@).take(lines_spec(l@).len() as int) =~= lines_spec(l@));
                assert(out@.map_values(|s: String| s@) =~= detail_lines_spec(*t));
            }
        },
        None => {
            proof {
                assert(out@.map_values(|s: String| s@) =~= detail_lines_spec(*t));
            }
        },
    }
    out
}

/// The detail pane's content for a whole session state: the selected
/// record's lines, or one placeholder line when nothing is selected.
pub fn detail_pane_lines(app: &crate::session::App) -> (r: Vec<String>)
    requires
        app.inv(),
    ensures
        match app.selected {
            Some(i) => r@.map_values(|s: String| s@) == detail_lines_spec(app.tracks@[i as int]),
            None => r@.len() == 1 && r@[0]@ == "No track selected"@,
        },
{
    match app.selected_track() {
        Some(t) => detail_lines(t),
        None => {
            let mut out: Vec<String> = Vec::new();
            let mut line = String::new();
            line.append("No track selected");
            out.push(line);
            out
        },
    }
}

/// The lines a non-interactive report of one record prints: the same
/// fields as the detail pane, under decorated labels, with the lyrics kept
/// as one final block.
pub open spec fn print_lines_spec(t: TrackInfo) -> Seq<Seq<char>> {
    let head = seq![
        "📀 Track: "@ + t.track_name@,
        "👤 Artist: "@ + t.artist_name@,
        "💿 Album: "@ + t.album_name@,
    ];
    let rel = if t.release_date@.len() > 0 {
        seq!["📅 Release Date: "@ + t.release_date@]
    } else {
        Seq::<Seq<char>>::empty()
    };
    let dur = seq!["⏱️  Duration: "@ + duration_text(t.duration_ms as int)];
    let pop = seq!["⭐ Popularity: "@ + dec_int(t.popularity as int) + "/100"@];
    let gen = if t.genres@.len() > 0 {
        seq!["🎸 Genres: "@ + t.genres@]
    } else {
        Seq::<Seq<char>>::empty()
    };
    let pro = if t.producers@.len() > 0 {
        seq!["🎛️  Producers: "@ + t.producers@]
    } else {
        Seq::<Seq<char>>::empty()
    };
    let wri = if t.writers@.len() > 0 {
        seq!["✍️  Writers: "@ + t.writers@]
    } else {
        Seq::<Seq<char>>::empty()
    };
    let lyr = match t.lyrics {
        Some(l) => seq![Seq::<char>::empty(), "📝 Lyrics:"@, Seq::<char>::empty(), l@],
        None => Seq::<Seq<char>>::empty(),
    };
    head + rel + dur + pop + gen + pro + wri + lyr
}

/// The lines a non-interactive report of one record prints.
#[verifier::rlimit(50)]
pub fn print_lines(t: &TrackInfo) -> (r: Vec<String>)
    ensures
        r@.map_values(|s: String| s@) == print_lines_spec(*t),
{
    let mut out: Vec<String> = Vec::new();
    out.push(labeled_line("📀 Track: ", t.track_name.as_str()));
    out.push(labeled_line("👤 Artist: ", t.artist_name.as_str()));
    out.push(labeled_line("💿 Album: ", t.album_name.as_str()));
    if t.release_date.as_str().unicode_len() > 0 {
        out.push(labeled_line("📅 Release Date: ", t.release_date.as_str()));
    }
    let dur = format_duration(t.duration_ms);
    out.push(labeled_line("⏱️  Duration: ", dur.as_str()));
    let mut pop = String::new();
    pop.append("⭐ Popularity: ");
    let pop_count = i64_to_string(t.popularity as i64);
    pop.append(pop_count.as_str());
    pop.append("/100");
    assert(pop@ =~= "⭐ Popularity: "@ + dec_int(t.popularity as int) + "/100"@);
    out.push(pop);
    if t.genres.as_str().unicode_len() > 0 {
        out.push(labeled_line("🎸 Genres: ", t.genres.as_str()));
    }
    if t.producers.as_str().unicode_len() > 0 {
        out.push(labeled_line("🎛️  Producers: ", t.producers.as_str()));
    }
    if t.writers.as_str().unicode_len() > 0 {
        out.push(labeled_line("✍️  Writers: ", t.writers.as_str()));
    }
    match &t.lyrics {
        Some(l) => {
            out.push(String::new());
            let mut heading = String::new();
            heading.append("📝 Lyrics:");
            out.push(heading);
            out.push(String::new());
            out.push(l.clone());
            proof {
                assert(out@.map_values(|s: String| s@) =~= print_lines_spec(*t));
            }
        },
        None => {
            proof {
                assert(out@.map_values(|s: String| s@) =~= print_lines_spec(*t));
            }
        },
    }
    out
}

/// The cheer a library of `count` tracks earns.
pub open spec fn celebration_text(count: int) -> Seq<char> {
    if count == 0 {
        "Your music library is empty! Time to start exploring!"@
    } else if count == 1 {
        "You've got your first track! The journey begins!"@
    } else if 2 <= count <= 10 {
        "Nice start! You're building a collection!"@
    } else if 11 <= count <= 50 {
        "Great collection! You're really getting into it!"@
    } else if 51 <= count <= 100 {
        "Impressive library! You've got serious variety!"@
    } else if 101 <= count <= 500 {
        "Wow! You're a true music enthusiast!"@
    } else if 501 <= count <= 1000 {
        "Absolutely incredible! Your library is massive!"@
    } else {
        "LEGENDARY STATUS! Your music collection is epic!"@
    }
}

/// The cheer a library of `count` tracks earns.
pub fn celebration_message(count: usize) -> (r: &'static str)
    ensures
        r@ == celebration_text(count as int),
{
    if count == 0 {
        "Your music library is empty! Time to start exploring!"
    } else if count == 1 {
        "You've got your first track! The journey begins!"
    } else if count <= 10 {
        "Nice start! You're building a collection!"
    } else if count <= 50 {
        "Great collection! You're really getting into it!"
    } else if count <= 100 {
        "Impressive library! You've got serious variety!"
    } else if count <= 500 {
        "Wow! You're a true music enthusiast!"
    } else if count <= 1000 {
        "Absolutely incredible! Your library is massive!"
    } else {
        "LEGENDARY STATUS! Your music collection is epic!"
    }
}

} // verus!

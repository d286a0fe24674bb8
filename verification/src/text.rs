//! Verified text utilities: substring search, trimming, splitting, and the
//! few character classifications that only the standard library can decide.

use vstd::prelude::*;

verus! {

// ---------------------------------------------------------------------------
// Trusted names for standard-library text functions.
// ---------------------------------------------------------------------------

/// What `str::to_lowercase` returns: a function of the characters alone.
pub uninterp spec fn lower_of(s: Seq<char>) -> Seq<char>;

/// Whether `char::is_whitespace` holds of a character.
pub uninterp spec fn char_is_whitespace(c: char) -> bool;

/// Whether `char::is_numeric` holds of a character.
pub uninterp spec fn char_is_numeric(c: char) -> bool;

/// Relies on `str::to_lowercase`: the result depends on the characters of
/// the input alone.
#[verifier::external_body]
pub fn lowercase(s: &str) -> (r: String)
    ensures
        r@ == lower_of(s@),
{
    s.to_lowercase()
}

/// Relies on `char::is_whitespace`: a pure classification of one character.
#[verifier::external_body]
pub fn is_whitespace_char(c: char) -> (r: bool)
    ensures
        r == char_is_whitespace(c),
{
    c.is_whitespace()
}

/// Relies on `char::is_numeric`: a pure classification of one character.
#[verifier::external_body]
pub fn is_numeric_char(c: char) -> (r: bool)
    ensures
        r == char_is_numeric(c),
{
    c.is_numeric()
}

/// Relies on `String::push`: appends exactly one character.
#[verifier::external_body]
pub fn push_char(s: &mut String, c: char)
    ensures
        final(s)@ == old(s)@.push(c),
{
    s.push(c)
}

// ---------------------------------------------------------------------------
// Substring search.
// ---------------------------------------------------------------------------

/// `needle` occurs in `hay` starting at position `i`.
pub open spec fn occurs_at(hay: Seq<char>, needle: Seq<char>, i: int) -> bool {
    &&& 0 <= i
    &&& i + needle.len() <= hay.len()
    &&& hay.subrange(i, i + needle.len()) == needle
}

/// `needle` occurs somewhere in `hay`.
pub open spec fn contains_seq(hay: Seq<char>, needle: Seq<char>) -> bool {
    exists|i: int| occurs_at(hay, needle, i)
}

/// The first position at or after `i` where `needle` occurs in `hay`,
/// if there is one.
pub open spec fn find_from(hay: Seq<char>, needle: Seq<char>, i: int) -> Option<int>
    decreases hay.len() + 1 - i,
{
    if i < 0 || i + needle.len() > hay.len() {
        None
    } else if hay.subrange(i, i + needle.len()) == needle {
        Some(i)
    } else {
        find_from(hay, needle, i + 1)
    }
}

/// The first position where `needle` occurs in `hay`, if any.
pub open spec fn find_first(hay: Seq<char>, needle: Seq<char>) -> Option<int> {
    find_from(hay, needle, 0)
}

/// `find_from` returns exactly the first occurrence at or after `i`.
pub proof fn lemma_find_from(hay: Seq<char>, needle: Seq<char>, i: int)
    requires
        0 <= i,
    ensures
        match find_from(hay, needle, i) {
            Some(j) => i <= j && occurs_at(hay, needle, j) && forall|k: int|
                i <= k < j ==> !occurs_at(hay, needle, k),
            None => forall|k: int| i <= k ==> !occurs_at(hay, needle, k),
        },
    decreases hay.len() + 1 - i,
{
    if i + needle.len() > hay.len() {
        assert forall|k: int| i <= k implies !occurs_at(hay, needle, k) by {}
    } else if hay.subrange(i, i + needle.len()) == needle {
    } else {
        lemma_find_from(hay, needle, i + 1);
    }
}

/// A whole string never has an occurrence, or has a first one.
pub proof fn lemma_find_first(hay: Seq<char>, needle: Seq<char>)
    ensures
        match find_first(hay, needle) {
            Some(j) => occurs_at(hay, needle, j) && forall|k: int|
                k < j ==> !occurs_at(hay, needle, k),
            None => !contains_seq(hay, needle),
        },
{
    lemma_find_from(hay, needle, 0);
    match find_first(hay, needle) {
        Some(j) => {
            assert forall|k: int| k < j implies !occurs_at(hay, needle, k) by {}
        },
        None => {
            assert forall|k: int| true implies !occurs_at(hay, needle, k) by {}
        },
    }
}

/// The characters of `hay` from `i` on start with `needle`.
fn matches_at(hay: &str, hay_len: usize, needle: &str, needle_len: usize, i: usize) -> (r: bool)
    requires
        hay_len == hay@.len(),
        needle_len == needle@.len(),
        i + needle_len <= hay_len,
    ensures
        r == (hay@.subrange(i as int, i + needle@.len()) == needle@),
{
    let mut j: usize = 0;
    while j < needle_len
        invariant
            hay_len == hay@.len(),
            needle_len == needle@.len(),
            i + needle_len <= hay_len,
            j <= needle_len,
            forall|k: int| 0 <= k < j ==> hay@[i + k] == needle@[k],
        decreases needle_len - j,
    {
        if hay.get_char(i + j) != needle.get_char(j) {
            assert(hay@.subrange(i as int, i + needle@.len())[j as int] != needle@[j as int]);
            return false;
        }
        j += 1;
    }
    assert(hay@.subrange(i as int, i + needle@.len()) =~= needle@);
    true
}

/// The position of the first occurrence of `needle` in `hay`, if any.
pub fn find_str(hay: &str, needle: &str) -> (r: Option<usize>)
    ensures
        match r {
            Some(j) => find_first(hay@, needle@) == Some(j as int),
            None => find_first(hay@, needle@) is None,
        },
{
    let hay_len = hay.unicode_len();
    let needle_len = needle.unicode_len();
    if needle_len > hay_len {
        return None;
    }
    if needle_len == 0 {
        assert(hay@.subrange(0, 0) =~= needle@);
        return Some(0);
    }
    let limit = hay_len - needle_len;
    let mut i: usize = 0;
    while i <= limit
        invariant
            hay_len == hay@.len(),
            needle_len == needle@.len(),
            1 <= needle_len <= hay_len,
            limit == hay_len - needle_len,
            i <= limit + 1,
            find_first(hay@, needle@) == find_from(hay@, needle@, i as int),
        decreases limit + 1 - i,
    {
        if matches_at(hay, hay_len, needle, needle_len, i) {
            return Some(i);
        }
        assert(find_from(hay@, needle@, i as int) == find_from(hay@, needle@, i + 1));
        i += 1;
    }
    None
}

/// Whether `needle` occurs anywhere in `hay`.
pub fn contains_str(hay: &str, needle: &str) -> (r: bool)
    ensures
        r == contains_seq(hay@, needle@),
{
    let found = find_str(hay, needle);
    proof {
        lemma_find_first(hay@, needle@);
    }
    match found {
        Some(_) => true,
        None => false,
    }
}

/// Whether two string slices hold the same characters.
pub fn str_eq(a: &str, b: &str) -> (r: bool)
    ensures
        r == (a@ == b@),
{
    let a_len = a.unicode_len();
    let b_len = b.unicode_len();
    if a_len != b_len {
        return false;
    }
    let r = matches_at(a, a_len, b, b_len, 0);
    assert(a@.subrange(0, a@.len() as int) =~= a@);
    r
}

// ---------------------------------------------------------------------------
// Trimming.
// ---------------------------------------------------------------------------

/// `s` without its leading whitespace.
pub open spec fn trim_start_spec(s: Seq<char>) -> Seq<char>
    decreases s.len(),
{
    if s.len() > 0 && char_is_whitespace(s[0]) {
        trim_start_spec(s.drop_first())
    } else {
        s
    }
}

/// `s` without its trailing whitespace.
pub open spec fn trim_end_spec(s: Seq<char>) -> Seq<char>
    decreases s.len(),
{
    if s.len() > 0 && char_is_whitespace(s.last()) {
        trim_end_spec(s.drop_last())
    } else {
        s
    }
}

/// `s` without leading and trailing whitespace, as `str::trim` leaves it.
pub open spec fn trim_spec(s: Seq<char>) -> Seq<char> {
    trim_end_spec(trim_start_spec(s))
}

/// A copy of `s` with leading and trailing whitespace removed.
pub fn trim_str(s: &str) -> (r: String)
    ensures
        r@ == trim_spec(s@),
{
    let len = s.unicode_len();
    let mut start: usize = 0;
    assert(s@.subrange(0, len as int) =~= s@);
    while start < len && is_whitespace_char(s.get_char(start))
        invariant
            len == s@.len(),
            start <= len,
            trim_start_spec(s@) == trim_start_spec(s@.subrange(start as int, len as int)),
        decreases len - start,
    {
        assert(s@.subrange(start as int, len as int).drop_first() =~= s@.subrange(
            start + 1,
            len as int,
        ));
        start += 1;
    }
    assert(s@.subrange(start as int, len as int).len() > 0 ==> s@.subrange(
        start as int,
        len as int,
    )[0] == s@[start as int]);
    assert(trim_start_spec(s@) == s@.subrange(start as int, len as int));
    let mut end: usize = len;
    while end > start && is_whitespace_char(s.get_char(end - 1))
        invariant
            len == s@.len(),
            start <= end <= len,
            trim_start_spec(s@) == s@.subrange(start as int, len as int),
            trim_end_spec(s@.subrange(start as int, len as int)) == trim_end_spec(
                s@.subrange(start as int, end as int),
            ),
        decreases end,
    {
        assert(s@.subrange(start as int, end as int).drop_last() =~= s@.subrange(
            start as int,
            end - 1,
        ));
        assert(s@.subrange(start as int, end as int).last() == s@[end - 1]);
        end -= 1;
    }
    assert(s@.subrange(start as int, end as int).len() > 0 ==> s@.subrange(
        start as int,
        end as int,
    ).last() == s@[end - 1]);
    assert(trim_spec(s@) == s@.subrange(start as int, end as int));
    let r = s.substring_char(start, end).to_owned();
    r
}

// ---------------------------------------------------------------------------
// Prefix stripping, as `str::trim_start_matches` does it.
// ---------------------------------------------------------------------------

/// `s` without every leading repetition of `pat`.  An empty pattern strips
/// nothing, as with the standard library's empty-pattern matches.
pub open spec fn strip_prefix_reps(s: Seq<char>, pat: Seq<char>) -> Seq<char>
    decreases s.len(),
{
    if 0 < pat.len() <= s.len() && s.subrange(0, pat.len() as int) == pat {
        strip_prefix_reps(s.subrange(pat.len() as int, s.len() as int), pat)
    } else {
        s
    }
}

/// `s` without its leading numeric characters.
pub open spec fn strip_leading_numeric(s: Seq<char>) -> Seq<char>
    decreases s.len(),
{
    if s.len() > 0 && char_is_numeric(s[0]) {
        strip_leading_numeric(s.drop_first())
    } else {
        s
    }
}

/// A copy of `s` with every leading repetition of `pat` removed.
pub fn trim_start_matches_str(s: &str, pat: &str) -> (r: String)
    ensures
        r@ == strip_prefix_reps(s@, pat@),
{
    let len = s.unicode_len();
    let pat_len = pat.unicode_len();
    let mut start: usize = 0;
    if pat_len == 0 {
        return s.to_owned();
    }
    assert(s@.subrange(0, len as int) =~= s@);
    while pat_len <= len - start && matches_at(s, len, pat, pat_len, start)
        invariant
            len == s@.len(),
            pat_len == pat@.len(),
            0 < pat_len,
            start <= len,
            strip_prefix_reps(s@, pat@) == strip_prefix_reps(
                s@.subrange(start as int, len as int),
                pat@,
            ),
        decreases len - start,
    {
        let ghost rest = s@.subrange(start as int, len as int);
        assert(rest.subrange(0, pat_len as int) =~= s@.subrange(start as int, start + pat_len));
        assert(rest.subrange(pat_len as int, rest.len() as int) =~= s@.subrange(
            start + pat_len,
            len as int,
        ));
        start += pat_len;
    }
    proof {
        let rest = s@.subrange(start as int, len as int);
        if 0 < pat@.len() <= rest.len() {
            assert(rest.subrange(0, pat_len as int) =~= s@.subrange(start as int, start + pat_len));
        }
        assert(strip_prefix_reps(rest, pat@) == rest);
    }
    s.substring_char(start, len).to_owned()
}

/// A copy of `s` with its leading numeric characters removed.
pub fn trim_start_numeric(s: &str) -> (r: String)
    ensures
        r@ == strip_leading_numeric(s@),
{
    let len = s.unicode_len();
    let mut start: usize = 0;
    assert(s@.subrange(0, len as int) =~= s@);
    while start < len && is_numeric_char(s.get_char(start))
        invariant
            len == s@.len(),
            start <= len,
            strip_leading_numeric(s@) == strip_leading_numeric(
                s@.subrange(start as int, len as int),
            ),
        decreases len - start,
    {
        assert(s@.subrange(start as int, len as int).drop_first() =~= s@.subrange(
            start + 1,
            len as int,
        ));
        start += 1;
    }
    assert(s@.subrange(start as int, len as int).len() > 0 ==> s@.subrange(
        start as int,
        len as int,
    )[0] == s@[start as int]);
    assert(strip_leading_numeric(s@) == s@.subrange(start as int, len as int));
    s.substring_char(start, len).to_owned()
}

// ---------------------------------------------------------------------------
// Splitting.
// ---------------------------------------------------------------------------

/// The pieces of `s` between occurrences of the separator `sep`, in order,
/// as `str::split` yields them: an empty string gives one empty piece.
pub open spec fn split_spec(s: Seq<char>, sep: char) -> Seq<Seq<char>>
    decreases s.len(),
    via split_spec_dec
{
    match find_first(s, seq![sep]) {
        None => seq![s],
        Some(j) => seq![s.subrange(0, j)] + split_spec(s.subrange(j + 1, s.len() as int), sep),
    }
}

#[via_fn]
proof fn split_spec_dec(s: Seq<char>, sep: char) {
    lemma_find_first_char_bounds(s, sep);
}

/// Lemma: the position `find_first` returns for a one-character needle is
/// inside the haystack.
proof fn lemma_find_first_char_bounds(s: Seq<char>, sep: char)
    ensures
        match find_first(s, seq![sep]) {
            Some(j) => 0 <= j < s.len() && s[j] == sep,
            None => true,
        },
{
    lemma_find_first(s, seq![sep]);
    match find_first(s, seq![sep]) {
        Some(j) => {
            assert(s.subrange(j, j + 1) == seq![sep]);
            assert(s.subrange(j, j + 1)[0] == s[j]);
        },
        None => {},
    }
}

/// The pieces of `s` between occurrences of `sep`, in order.
pub fn split_char(s: &str, sep: char) -> (r: Vec<String>)
    ensures
        r@.len() == split_spec(s@, sep).len(),
        forall|i: int| 0 <= i < r@.len() ==> r@[i]@ == split_spec(s@, sep)[i],
{
    let len = s.unicode_len();
    let mut sep_string = String::new();
    push_char(&mut sep_string, sep);
    assert(sep_string@ =~= seq![sep]);
    let mut parts: Vec<String> = Vec::new();
    let mut pos: usize = 0;
    assert(s@.subrange(0, len as int) =~= s@);
    assert(parts@.map_values(|p: String| p@) =~= Seq::<Seq<char>>::empty());
    loop
        invariant
            len == s@.len(),
            pos <= len,
            sep_string@ == seq![sep],
            split_spec(s@, sep) =~= parts@.map_values(|p: String| p@) + split_spec(
                s@.subrange(pos as int, len as int),
                sep,
            ),
        decreases len - pos,
    {
        let rest = s.substring_char(pos, len);
        let found = find_str(rest, sep_string.as_str());
        proof {
            lemma_find_first_char_bounds(rest@, sep);
        }
        match found {
            None => {
                let piece = rest.to_owned();
                parts.push(piece);
                assert(parts@.map_values(|p: String| p@) =~= parts@.drop_last().map_values(
                    |p: String| p@,
                ).push(rest@));
                assert(split_spec(s@, sep) =~= parts@.map_values(|p: String| p@));
                return parts;
            },
            Some(j) => {
                let piece = rest.substring_char(0, j).to_owned();
                parts.push(piece);
                proof {
                    assert(parts@.map_values(|p: String| p@) =~= parts@.drop_last().map_values(
                        |p: String| p@,
                    ).push(rest@.subrange(0, j as int)));
                    assert(rest@.subrange(j + 1, rest@.len() as int) =~= s@.subrange(
                        pos + j + 1,
                        len as int,
                    ));
                }
                pos = pos + j + 1;
            },
        }
    }
}

// ---------------------------------------------------------------------------
// Lines, as `str::lines` yields them.
// ---------------------------------------------------------------------------

/// `l` without one trailing carriage return, if it ends in one.
pub open spec fn strip_cr(l: Seq<char>) -> Seq<char> {
    if l.len() > 0 && l.last() == '\r' {
        l.drop_last()
    } else {
        l
    }
}

/// The lines of `s`: pieces split at `'\n'`, each without a carriage return
/// just before the line break, and with no final empty line when `s` ends in
/// a line break — exactly as `str::lines` yields them.
pub open spec fn lines_spec(s: Seq<char>) -> Seq<Seq<char>>
    decreases s.len(),
    via lines_spec_dec
{
    if s.len() == 0 {
        Seq::empty()
    } else {
        match find_first(s, seq!['\n']) {
            None => seq![s],
            Some(j) => seq![strip_cr(s.subrange(0, j))] + lines_spec(
                s.subrange(j + 1, s.len() as int),
            ),
        }
    }
}

#[via_fn]
proof fn lines_spec_dec(s: Seq<char>) {
    lemma_find_first_char_bounds(s, '\n');
}

/// A line piece without one trailing carriage return.
fn strip_cr_exec(l: &str) -> (r: String)
    ensures
        r@ == strip_cr(l@),
{
    let n = l.unicode_len();
    if n > 0 && l.get_char(n - 1) == '\r' {
        assert(l@.subrange(0, n - 1) =~= l@.drop_last());
        l.substring_char(0, n - 1).to_owned()
    } else {
        l.to_owned()
    }
}

/// The lines of `s`, one string per source line.
pub fn split_lines(s: &str) -> (r: Vec<String>)
    ensures
        r@.len() == lines_spec(s@).len(),
        forall|i: int| 0 <= i < r@.len() ==> r@[i]@ == lines_spec(s@)[i],
{
    let len = s.unicode_len();
    let mut newline = String::new();
    push_char(&mut newline, '\n');
    assert(newline@ =~= seq!['\n']);
    let mut parts: Vec<String> = Vec::new();
    let mut pos: usize = 0;
    assert(s@.subrange(0, len as int) =~= s@);
    assert(parts@.map_values(|p: String| p@) =~= Seq::<Seq<char>>::empty());
    loop
        invariant
            len == s@.len(),
            pos <= len,
            newline@ == seq!['\n'],
            lines_spec(s@) =~= parts@.map_values(|p: String| p@) + lines_spec(
                s@.subrange(pos as int, len as int),
            ),
        decreases len + 1 - pos,
    {
        let rest = s.substring_char(pos, len);
        if pos == len {
            assert(lines_spec(s@) =~= parts@.map_values(|p: String| p@));
            return parts;
        }
        let found = find_str(rest, newline.as_str());
        proof {
            lemma_find_first_char_bounds(rest@, '\n');
        }
        match found {
            None => {
                let piece = rest.to_owned();
                parts.push(piece);
                assert(parts@.map_values(|p: String| p@) =~= parts@.drop_last().map_values(
                    |p: String| p@,
                ).push(rest@));
                assert(lines_spec(s@) =~= parts@.map_values(|p: String| p@));
                return parts;
            },
            Some(j) => {
                let head = rest.substring_char(0, j);
                let piece = strip_cr_exec(head);
                parts.push(piece);
                proof {
                    assert(parts@.map_values(|p: String| p@) =~= parts@.drop_last().map_values(
                        |p: String| p@,
                    ).push(strip_cr(rest@.subrange(0, j as int))));
                    assert(rest@.subrange(j + 1, rest@.len() as int) =~= s@.subrange(
                        pos + j + 1,
                        len as int,
                    ));
                }
                pos = pos + j + 1;
            },
        }
    }
}

// ---------------------------------------------------------------------------
// Space-to-dash rewriting, for track identifiers.
// ---------------------------------------------------------------------------

/// `s` with every space replaced by a dash.
pub open spec fn dashed(s: Seq<char>) -> Seq<char> {
    Seq::new(
        s.len(),
        |i: int|
            if s[i] == ' ' {
                '-'
            } else {
                s[i]
            },
    )
}

/// Appends `s` with spaces replaced by dashes onto `out`.
pub fn append_dashed(out: &mut String, s: &str)
    ensures
        final(out)@ == old(out)@ + dashed(s@),
{
    let len = s.unicode_len();
    let mut i: usize = 0;
    while i < len
        invariant
            len == s@.len(),
            i <= len,
            out@ =~= old(out)@ + dashed(s@).subrange(0, i as int),
        decreases len - i,
    {
        let c = s.get_char(i);
        if c == ' ' {
            push_char(out, '-');
        } else {
            push_char(out, c);
        }
        assert(out@ =~= old(out)@ + dashed(s@).subrange(0, i + 1));
        i += 1;
    }
    assert(dashed(s@).subrange(0, len as int) =~= dashed(s@));
}

} // verus!


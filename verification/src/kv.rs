//! The key=value argument grammar and its parser.
//!
//! An argument string is a comma-separated list of `key=value` pairs.
//! Keys and values are bare words — runs of characters other than
//! comma, equals sign and whitespace — or quoted strings in single or
//! double quotes, in which the closing quote may be escaped with a
//! backslash; surrounding whitespace is ignored. A quoted form that
//! never closes falls back to being read as a bare word, and input
//! after the last well-formed pair is ignored.
//!
//! The grammar is written out as spec functions over the character
//! sequence, and the parser is proved to compute exactly what the
//! grammar describes.

use vstd::prelude::*;

use crate::text::char_is_space;
use crate::text::is_unicode_space;

verus! {

/// Whitespace as the list separator layer sees it: space, tab,
/// newline, carriage return.
pub open spec fn is_kv_ws(c: char) -> bool {
    c == ' ' || c == '\t' || c == '\n' || c == '\r'
}

/// A character that may appear in a bare (unquoted) word: anything but
/// the comma, the equals sign and whitespace.
pub open spec fn is_bare_char(c: char) -> bool {
    c != ',' && c != '=' && !is_unicode_space(c)
}

/// Position of the first character at or after `i` that is not
/// separator whitespace.
pub open spec fn spec_skip_ws(s: Seq<char>, i: int) -> int
    decreases s.len() - i,
{
    if i < 0 || i >= s.len() {
        i
    } else if is_kv_ws(s[i]) {
        spec_skip_ws(s, i + 1)
    } else {
        i
    }
}

pub proof fn lemma_skip_ws_bounds(s: Seq<char>, i: int)
    requires
        0 <= i <= s.len(),
    ensures
        i <= spec_skip_ws(s, i) <= s.len(),
    decreases s.len() - i,
{
    if i < s.len() && is_kv_ws(s[i]) {
        lemma_skip_ws_bounds(s, i + 1);
    }
}

/// Position of the first character at or after `i` that cannot belong
/// to a bare word.
pub open spec fn spec_bare_end(s: Seq<char>, i: int) -> int
    decreases s.len() - i,
{
    if i < 0 || i >= s.len() {
        i
    } else if is_bare_char(s[i]) {
        spec_bare_end(s, i + 1)
    } else {
        i
    }
}

pub proof fn lemma_bare_end_bounds(s: Seq<char>, i: int)
    requires
        0 <= i <= s.len(),
    ensures
        i <= spec_bare_end(s, i) <= s.len(),
    decreases s.len() - i,
{
    if i < s.len() && is_bare_char(s[i]) {
        lemma_bare_end_bounds(s, i + 1);
    }
}

/// Position of the quote that closes a quoted form whose content
/// starts at `i`, scanning over ordinary characters and backslash-
/// escaped quotes; `None` when the form never closes (a backslash
/// followed by anything but the quote, or the end of input).
pub open spec fn spec_quoted_end(s: Seq<char>, i: int, q: char) -> Option<int>
    decreases s.len() - i,
{
    if i < 0 || i >= s.len() {
        None
    } else if s[i] == q {
        Some(i)
    } else if s[i] == '\\' {
        if i + 1 < s.len() && s[i + 1] == q {
            spec_quoted_end(s, i + 2, q)
        } else {
            None
        }
    } else {
        spec_quoted_end(s, i + 1, q)
    }
}

pub proof fn lemma_quoted_end_bounds(s: Seq<char>, i: int, q: char)
    requires
        0 <= i <= s.len(),
    ensures
        spec_quoted_end(s, i, q) matches Some(k) ==> i <= k < s.len(),
    decreases s.len() - i,
{
    if 0 <= i < s.len() {
        if s[i] == q {
        } else if s[i] == '\\' {
            if i + 1 < s.len() && s[i + 1] == q {
                lemma_quoted_end_bounds(s, i + 2, q);
            }
        } else {
            lemma_quoted_end_bounds(s, i + 1, q);
        }
    }
}

/// A bare word starting (after whitespace) at `j`: its characters and
/// the position after its trailing whitespace. `None` when no bare
/// character stands at `j`.
pub open spec fn spec_bare_token(s: Seq<char>, j: int) -> Option<(Seq<char>, int)> {
    let e = spec_bare_end(s, j);
    if e == j {
        None
    } else {
        Some((s.subrange(j, e), spec_skip_ws(s, e)))
    }
}

/// One token at position `i`: leading whitespace is skipped, then a
/// quoted form is tried — the raw characters between the quotes — and
/// a bare word otherwise, including when the quoted form fails to
/// close. Yields the token's characters and the position after the
/// token's trailing whitespace.
pub open spec fn spec_token(s: Seq<char>, i: int) -> Option<(Seq<char>, int)> {
    let j = spec_skip_ws(s, i);
    if 0 <= j < s.len() && (s[j] == '\'' || s[j] == '"') {
        match spec_quoted_end(s, j + 1, s[j]) {
            Some(k) => Some((s.subrange(j + 1, k), spec_skip_ws(s, k + 1))),
            None => spec_bare_token(s, j),
        }
    } else {
        spec_bare_token(s, j)
    }
}

pub proof fn lemma_token_progress(s: Seq<char>, i: int)
    requires
        0 <= i <= s.len(),
    ensures
        spec_token(s, i) matches Some(t) ==> i < t.1 <= s.len(),
{
    lemma_skip_ws_bounds(s, i);
    let j = spec_skip_ws(s, i);
    if 0 <= j < s.len() && (s[j] == '\'' || s[j] == '"') {
        lemma_quoted_end_bounds(s, j + 1, s[j]);
        match spec_quoted_end(s, j + 1, s[j]) {
            Some(k) => {
                lemma_skip_ws_bounds(s, k + 1);
            },
            None => {
                lemma_bare_token_progress(s, j);
            },
        }
    } else {
        lemma_bare_token_progress(s, j);
    }
}

proof fn lemma_bare_token_progress(s: Seq<char>, j: int)
    requires
        0 <= j <= s.len(),
    ensures
        spec_bare_token(s, j) matches Some(t) ==> j < t.1 <= s.len(),
{
    lemma_bare_end_bounds(s, j);
    let e = spec_bare_end(s, j);
    if e != j {
        lemma_skip_ws_bounds(s, e);
    }
}

/// One `key=value` pair at position `i`: a token, the equals sign, a
/// token. Yields the pair and the position after it.
pub open spec fn spec_pair(s: Seq<char>, i: int) -> Option<((Seq<char>, Seq<char>), int)> {
    match spec_token(s, i) {
        None => None,
        Some(kt) => {
            if 0 <= kt.1 < s.len() && s[kt.1] == '=' {
                match spec_token(s, kt.1 + 1) {
                    None => None,
                    Some(vt) => Some(((kt.0, vt.0), vt.1)),
                }
            } else {
                None
            }
        },
    }
}

pub proof fn lemma_pair_progress(s: Seq<char>, i: int)
    requires
        0 <= i <= s.len(),
    ensures
        spec_pair(s, i) matches Some(p) ==> i < p.1 <= s.len(),
{
    lemma_token_progress(s, i);
    match spec_token(s, i) {
        None => {},
        Some(kt) => {
            if 0 <= kt.1 < s.len() && s[kt.1] == '=' {
                lemma_token_progress(s, kt.1 + 1);
            }
        },
    }
}

/// The pairs of a whole argument string: a first pair, then any number
/// of comma-separated pairs. An input that starts with no well-formed
/// pair has no pairs at all, and input after the last well-formed pair
/// is ignored.
pub open spec fn spec_pairs(s: Seq<char>) -> Seq<(Seq<char>, Seq<char>)> {
    match spec_pair(s, 0) {
        None => seq![],
        Some(p) => seq![p.0] + spec_pairs_rest(s, p.1),
    }
}

/// The pairs that follow position `i`, each preceded by a comma
/// separator; stops at the first position where no comma or no
/// well-formed pair follows.
pub open spec fn spec_pairs_rest(s: Seq<char>, i: int) -> Seq<(Seq<char>, Seq<char>)>
    decreases s.len() - i,
    via spec_pairs_rest_decreases
{
    if 0 <= i <= s.len() {
        let j = spec_skip_ws(s, i);
        if j < s.len() && s[j] == ',' {
            match spec_pair(s, j + 1) {
                None => seq![],
                Some(p) => seq![p.0] + spec_pairs_rest(s, p.1),
            }
        } else {
            seq![]
        }
    } else {
        seq![]
    }
}

#[via_fn]
proof fn spec_pairs_rest_decreases(s: Seq<char>, i: int) {
    if 0 <= i <= s.len() {
        lemma_skip_ws_bounds(s, i);
        let j = spec_skip_ws(s, i);
        if j < s.len() && s[j] == ',' {
            lemma_pair_progress(s, j + 1);
        }
    }
}

/// Whether `c` is one of the four separator whitespace characters.
fn is_ws_char(c: char) -> (r: bool)
    ensures
        r == is_kv_ws(c),
{
    c == ' ' || c == '\t' || c == '\n' || c == '\r'
}

/// Whether `c` may appear in a bare word.
fn is_bare(c: char) -> (r: bool)
    ensures
        r == is_bare_char(c),
{
    c != ',' && c != '=' && !char_is_space(c)
}

/// Skip separator whitespace from position `i`.
fn skip_ws(s: &str, i: usize) -> (r: usize)
    requires
        i <= s@.len(),
    ensures
        r == spec_skip_ws(s@, i as int),
        i <= r <= s@.len(),
{
    let len = s.unicode_len();
    let mut j = i;
    while j < len && is_ws_char(s.get_char(j))
        invariant
            i <= j <= len,
            len == s@.len(),
            spec_skip_ws(s@, i as int) == spec_skip_ws(s@, j as int),
        decreases len - j,
    {
        j += 1;
    }
    j
}

/// Find the end of a bare word starting at `i`.
fn bare_end(s: &str, i: usize) -> (r: usize)
    requires
        i <= s@.len(),
    ensures
        r == spec_bare_end(s@, i as int),
        i <= r <= s@.len(),
{
    let len = s.unicode_len();
    let mut j = i;
    while j < len && is_bare(s.get_char(j))
        invariant
            i <= j <= len,
            len == s@.len(),
            spec_bare_end(s@, i as int) == spec_bare_end(s@, j as int),
        decreases len - j,
    {
        j += 1;
    }
    j
}

/// Find the closing quote of a quoted form whose content starts at
/// `i`.
fn quoted_end(s: &str, i: usize, q: char) -> (r: Option<usize>)
    requires
        i <= s@.len(),
    ensures
        match r {
            Some(k) => spec_quoted_end(s@, i as int, q) == Some(k as int) && i <= k < s@.len(),
            None => spec_quoted_end(s@, i as int, q) is None,
        },
{
    let len = s.unicode_len();
    let mut j = i;
    loop
        invariant
            i <= j <= len,
            len == s@.len(),
            spec_quoted_end(s@, i as int, q) == spec_quoted_end(s@, j as int, q),
        decreases len - j,
    {
        if j == len {
            return None;
        }
        let c = s.get_char(j);
        if c == q {
            return Some(j);
        }
        if c == '\\' {
            if j + 1 < len && s.get_char(j + 1) == q {
                j += 2;
            } else {
                return None;
            }
        } else {
            j += 1;
        }
    }
}

/// Parse one token at position `i`.
fn token(s: &str, i: usize) -> (r: Option<(String, usize)>)
    requires
        i <= s@.len(),
    ensures
        match r {
            Some(t) => spec_token(s@, i as int) == Some((t.0@, t.1 as int)) && i < t.1 <= s@.len(),
            None => spec_token(s@, i as int) is None,
        },
{
    proof {
        lemma_token_progress(s@, i as int);
    }
    let len = s.unicode_len();
    let j = skip_ws(s, i);
    if j < len {
        let c = s.get_char(j);
        if c == '\'' || c == '"' {
            match quoted_end(s, j + 1, c) {
                Some(k) => {
                    let t = s.substring_char(j + 1, k);
                    let n = skip_ws(s, k + 1);
                    return Some((t.to_owned(), n));
                },
                None => {},
            }
        }
    }
    let e = bare_end(s, j);
    if e == j {
        None
    } else {
        let t = s.substring_char(j, e);
        let n = skip_ws(s, e);
        Some((t.to_owned(), n))
    }
}

/// Parse one `key=value` pair at position `i`.
fn pair(s: &str, i: usize) -> (r: Option<((String, String), usize)>)
    requires
        i <= s@.len(),
    ensures
        match r {
            Some(p) => spec_pair(s@, i as int) == Some(((p.0.0@, p.0.1@), p.1 as int)) && i < p.1
                <= s@.len(),
            None => spec_pair(s@, i as int) is None,
        },
{
    let len = s.unicode_len();
    match token(s, i) {
        None => None,
        Some((key, i2)) => {
            if i2 < len && s.get_char(i2) == '=' {
                match token(s, i2 + 1) {
                    None => None,
                    Some((value, i3)) => Some(((key, value), i3)),
                }
            } else {
                None
            }
        },
    }
}

/// The views of a vector of string pairs.
pub open spec fn views_of(v: Seq<(String, String)>) -> Seq<(Seq<char>, Seq<char>)> {
    v.map_values(|p: (String, String)| (p.0@, p.1@))
}

/// Parse a whole argument string into its pairs, in order, exactly as
/// the grammar describes them.
pub fn parse_pairs(s: &str) -> (r: Vec<(String, String)>)
    ensures
        views_of(r@) == spec_pairs(s@),
{
    let len = s.unicode_len();
    let mut out: Vec<(String, String)> = Vec::new();
    let mut i: usize;
    match pair(s, 0) {
        None => {
            proof {
                assert(views_of(out@) =~= spec_pairs(s@));
            }
            return out;
        },
        Some((p, n)) => {
            let ghost pv = (p.0@, p.1@);
            out.push(p);
            i = n;
            proof {
                assert(views_of(out@) =~= seq![pv]);
                assert(views_of(out@) + spec_pairs_rest(s@, i as int) =~= spec_pairs(s@));
            }
        },
    }
    loop
        invariant
            i <= s@.len(),
            len == s@.len(),
            views_of(out@) + spec_pairs_rest(s@, i as int) =~= spec_pairs(s@),
        decreases s@.len() - i,
    {
        let j = skip_ws(s, i);
        if j < len && s.get_char(j) == ',' {
            match pair(s, j + 1) {
                Some((p, n)) => {
                    proof {
                        assert(views_of(out@.push(p)) =~= views_of(out@).push((p.0@, p.1@)));
                        assert(views_of(out@).push((p.0@, p.1@)) + spec_pairs_rest(s@, n as int)
                            =~= views_of(out@) + (seq![(p.0@, p.1@)] + spec_pairs_rest(
                            s@,
                            n as int,
                        )));
                    }
                    out.push(p);
                    i = n;
                },
                None => {
                    proof {
                        assert(views_of(out@) + spec_pairs_rest(s@, i as int) =~= views_of(out@));
                    }
                    return out;
                },
            }
        } else {
            proof {
                assert(views_of(out@) + spec_pairs_rest(s@, i as int) =~= views_of(out@));
            }
            return out;
        }
    }
}

/// The map described by a list of pairs, later pairs overriding
/// earlier ones with the same key.
pub open spec fn map_of_pairs(ps: Seq<(Seq<char>, Seq<char>)>) -> Map<Seq<char>, Seq<char>>
    decreases ps.len(),
{
    if ps.len() == 0 {
        Map::empty()
    } else {
        map_of_pairs(ps.drop_last()).insert(ps.last().0, ps.last().1)
    }
}

/// The map held in an entry list, the first entry with a key
/// determining that key's value.
pub open spec fn entries_map(es: Seq<(String, String)>) -> Map<Seq<char>, Seq<char>>
    decreases es.len(),
{
    if es.len() == 0 {
        Map::empty()
    } else {
        entries_map(es.drop_first()).insert(es[0].0@, es[0].1@)
    }
}

/// An entry whose key no earlier entry carries determines the map's
/// value at that key.
pub proof fn lemma_entries_map_first(es: Seq<(String, String)>, i: int)
    requires
        0 <= i < es.len(),
        forall|j: int| 0 <= j < i ==> es[j].0@ != es[i].0@,
    ensures
        entries_map(es).contains_key(es[i].0@),
        entries_map(es)[es[i].0@] == es[i].1@,
    decreases es.len(),
{
    if i > 0 {
        lemma_entries_map_first(es.drop_first(), i - 1);
    }
}

/// A key carried by no entry is absent from the map.
pub proof fn lemma_entries_map_absent(es: Seq<(String, String)>, k: Seq<char>)
    requires
        forall|j: int| 0 <= j < es.len() ==> es[j].0@ != k,
    ensures
        !entries_map(es).contains_key(k),
    decreases es.len(),
{
    if es.len() > 0 {
        lemma_entries_map_absent(es.drop_first(), k);
    }
}

/// Replacing the first entry that carries a key updates the map at
/// that key.
pub proof fn lemma_entries_map_update(es: Seq<(String, String)>, i: int, p: (String, String))
    requires
        0 <= i < es.len(),
        forall|j: int| 0 <= j < i ==> es[j].0@ != p.0@,
        es[i].0@ == p.0@,
    ensures
        entries_map(es.update(i, p)) == entries_map(es).insert(p.0@, p.1@),
    decreases es.len(),
{
    if i == 0 {
        assert(es.update(0, p).drop_first() =~= es.drop_first());
        assert(entries_map(es.update(0, p)) =~~= entries_map(es).insert(p.0@, p.1@));
    } else {
        assert(es.update(i, p).drop_first() =~= es.drop_first().update(i - 1, p));
        lemma_entries_map_update(es.drop_first(), i - 1, p);
        assert(entries_map(es.update(i, p)) =~~= entries_map(es).insert(p.0@, p.1@));
    }
}

/// Appending an entry whose key no entry carries inserts it into the
/// map.
pub proof fn lemma_entries_map_push(es: Seq<(String, String)>, p: (String, String))
    requires
        forall|j: int| 0 <= j < es.len() ==> es[j].0@ != p.0@,
    ensures
        entries_map(es.push(p)) == entries_map(es).insert(p.0@, p.1@),
    decreases es.len(),
{
    if es.len() == 0 {
        reveal_with_fuel(entries_map, 3);
        assert(es.push(p)[0] == p);
        assert(es.push(p).drop_first() =~= Seq::<(String, String)>::empty());
        assert(entries_map(es.push(p)) =~~= entries_map(es).insert(p.0@, p.1@));
    } else {
        assert(es.push(p).drop_first() =~= es.drop_first().push(p));
        assert(es.push(p)[0] == es[0]);
        lemma_entries_map_push(es.drop_first(), p);
        assert(es[0].0@ != p.0@);
        assert(entries_map(es.push(p)) =~~= entries_map(es).insert(p.0@, p.1@));
    }
}

/// Look a key up in an entry list: the value of the first entry that
/// carries the key, if any does.
pub fn entries_get(es: &Vec<(String, String)>, key: &str) -> (r: Option<String>)
    ensures
        match r {
            Some(v) => entries_map(es@).contains_key(key@) && v@ == entries_map(es@)[key@],
            None => !entries_map(es@).contains_key(key@),
        },
{
    let mut i: usize = 0;
    while i < es.len()
        invariant
            i <= es@.len(),
            forall|j: int| 0 <= j < i ==> es@[j].0@ != key@,
        decreases es@.len() - i,
    {
        if crate::text::str_eq(es[i].0.as_str(), key) {
            proof {
                lemma_entries_map_first(es@, i as int);
            }
            return Some(es[i].1.clone());
        }
        i += 1;
    }
    proof {
        lemma_entries_map_absent(es@, key@);
    }
    None
}

/// Bind a key to a value in an entry list: replace the value of the
/// first entry that carries the key, or append a new entry. Returns
/// the value the key was bound to before, if it was bound.
pub fn entries_set(es: &mut Vec<(String, String)>, key: String, value: String) -> (r: Option<
    String,
>)
    ensures
        entries_map(final(es)@) == entries_map(old(es)@).insert(key@, value@),
        match r {
            Some(v) => entries_map(old(es)@).contains_key(key@) && v@ == entries_map(old(es)@)[key@],
            None => !entries_map(old(es)@).contains_key(key@),
        },
{
    let mut i: usize = 0;
    while i < es.len()
        invariant
            i <= es@.len(),
            es@ == old(es)@,
            forall|j: int| 0 <= j < i ==> es@[j].0@ != key@,
        decreases es@.len() - i,
    {
        if crate::text::str_eq(es[i].0.as_str(), key.as_str()) {
            let prev = es[i].1.clone();
            proof {
                lemma_entries_map_first(es@, i as int);
                lemma_entries_map_update(es@, i as int, (key, value));
            }
            es.set(i, (key, value));
            return Some(prev);
        }
        i += 1;
    }
    proof {
        lemma_entries_map_absent(es@, key@);
        lemma_entries_map_push(es@, (key, value));
    }
    es.push((key, value));
    None
}

/// Parse an argument string into an entry list whose map is exactly
/// the grammar's pairs folded left to right, later pairs overriding
/// earlier ones.
#[verifier::rlimit(60)]
pub fn entries_from_str(s: &str) -> (r: Vec<(String, String)>)
    ensures
        entries_map(r@) == map_of_pairs(spec_pairs(s@)),
{
    let pairs = parse_pairs(s);
    let mut es: Vec<(String, String)> = Vec::new();
    let mut i: usize = 0;
    proof {
        assert(views_of(pairs@).take(0) =~= Seq::<(Seq<char>, Seq<char>)>::empty());
    }
    while i < pairs.len()
        invariant
            i <= pairs@.len(),
            entries_map(es@) == map_of_pairs(views_of(pairs@).take(i as int)),
        decreases pairs@.len() - i,
    {
        let p = &pairs[i];
        let ghost before = views_of(pairs@).take(i as int);
        entries_set(&mut es, p.0.clone(), p.1.clone());
        proof {
            assert(views_of(pairs@).take(i + 1).drop_last() =~= before);
            assert(views_of(pairs@).take(i + 1).last() =~= (p.0@, p.1@));
            assert(map_of_pairs(views_of(pairs@).take(i + 1)) =~~= map_of_pairs(before).insert(
                p.0@,
                p.1@,
            ));
        }
        i += 1;
    }
    proof {
        assert(views_of(pairs@).take(pairs@.len() as int) =~= views_of(pairs@));
    }
    es
}

} // verus!

//! Identifier spellings used by the generated documentation and bindings:
//! snake case, title case and the human form of an equation path.
use vstd::prelude::*;
use crate::strings::{join_seq, join_strings, views};
use crate::text::{
    chars_of, char_lower, char_upper, is_alnum_char, is_ascii_alnum, is_ascii_digit, is_ascii_lower, is_ascii_upper, is_upper_char, lower_char, push_char,
    string_from_chars, upper_char,
};

verus! {

// ---------------------------------------------------------------------------
// snake_case
// ---------------------------------------------------------------------------

/// One character of the snake-case scan. The state is the text so far and
/// whether the previous character was a separator. An ASCII letter or digit is
/// lower-cased and appended, after an underscore when it is a capital that
/// follows a letter or digit; any other character becomes a single underscore
/// (none at the very start).
pub open spec fn snake_step(st: (Seq<char>, bool), ch: char) -> (Seq<char>, bool) {
    let out = st.0;
    let prev_sep = st.1;
    if is_ascii_alnum(ch) {
        let out1 = if is_ascii_upper(ch) && out.len() > 0 && !prev_sep { out.push('_') } else { out };
        (out1.push(lower_char(ch)), false)
    } else {
        (if !prev_sep && out.len() > 0 { out.push('_') } else { out }, true)
    }
}

/// The snake-case scan over a whole text.
pub open spec fn snake_scan(s: Seq<char>) -> (Seq<char>, bool)
    decreases s.len(),
{
    if s.len() == 0 {
        (Seq::empty(), false)
    } else {
        snake_step(snake_scan(s.drop_last()), s.last())
    }
}

/// `s` without leading copies of `c`.
pub open spec fn trim_start_char(s: Seq<char>, c: char) -> Seq<char>
    decreases s.len(),
{
    if s.len() > 0 && s[0] == c {
        trim_start_char(s.drop_first(), c)
    } else {
        s
    }
}

/// `s` without trailing copies of `c`.
pub open spec fn trim_end_char(s: Seq<char>, c: char) -> Seq<char>
    decreases s.len(),
{
    if s.len() > 0 && s.last() == c {
        trim_end_char(s.drop_last(), c)
    } else {
        s
    }
}

/// The snake-case spelling of a name: the scan, with underscores trimmed from both ends.
pub open spec fn snake_case_of(s: Seq<char>) -> Seq<char> {
    trim_end_char(trim_start_char(snake_scan(s).0, '_'), '_')
}

/// A character that may appear in a snake-case name: a lower-case ASCII
/// letter, a digit or an underscore.
pub open spec fn is_snake_char(c: char) -> bool {
    is_ascii_lower(c) || is_ascii_digit(c) || c == '_'
}

/// Two underscores stand side by side at position `i`.
pub open spec fn doubled_underscore_at(s: Seq<char>, i: int) -> bool {
    s[i] == '_' && s[i + 1] == '_'
}

/// Only snake-case characters, never two underscores in a row, and no
/// underscore in front.
pub open spec fn is_snake_prefix(s: Seq<char>) -> bool {
    &&& forall|i: int| 0 <= i < s.len() ==> is_snake_char(#[trigger] s[i])
    &&& forall|i: int| 0 <= i < s.len() - 1 ==> !#[trigger] doubled_underscore_at(s, i)
    &&& s.len() > 0 ==> s[0] != '_'
}

/// A snake-case name: lower-case ASCII letters and digits, with single
/// underscores between them and none at either end.
pub open spec fn is_snake_name(s: Seq<char>) -> bool {
    &&& is_snake_prefix(s)
    &&& s.len() > 0 ==> s.last() != '_'
}

proof fn lemma_prefix_of_snake_prefix(s: Seq<char>, k: int)
    requires
        is_snake_prefix(s),
        0 <= k <= s.len(),
    ensures
        is_snake_prefix(s.subrange(0, k)),
{
    let t = s.subrange(0, k);
    assert forall|i: int| 0 <= i < t.len() - 1 implies !#[trigger] doubled_underscore_at(t, i) by {
        assert(!doubled_underscore_at(s, i));
    }
    assert forall|i: int| 0 <= i < t.len() implies is_snake_char(#[trigger] t[i]) by {
        assert(is_snake_char(s[i]));
    }
}

/// The scan keeps its text in snake form, and its flag says whether the text
/// ends in an underscore.
proof fn lemma_snake_scan_form(s: Seq<char>)
    ensures
        is_snake_prefix(snake_scan(s).0),
        snake_scan(s).0.len() > 0 ==> (snake_scan(s).0.last() == '_' <==> snake_scan(s).1),
    decreases s.len(),
{
    if s.len() > 0 {
        lemma_snake_scan_form(s.drop_last());
        let o = snake_scan(s.drop_last()).0;
        let p = snake_scan(s.drop_last()).1;
        let ch = s.last();
        let r = snake_scan(s).0;
        if is_ascii_alnum(ch) {
            let o1 = if is_ascii_upper(ch) && o.len() > 0 && !p { o.push('_') } else { o };
            assert(is_snake_char(lower_char(ch)) && lower_char(ch) != '_');
            assert(r == o1.push(lower_char(ch)));
            assert forall|i: int| 0 <= i < o1.len() implies is_snake_char(#[trigger] o1[i]) by {
                if i < o.len() {
                    assert(is_snake_char(o[i]));
                }
            }
            assert forall|i: int| 0 <= i < o1.len() - 1 implies !#[trigger] doubled_underscore_at(o1, i) by {
                assert(!doubled_underscore_at(o, i));
            }
            assert forall|i: int| 0 <= i < r.len() implies is_snake_char(#[trigger] r[i]) by {
                if i < o1.len() {
                    assert(is_snake_char(o1[i]));
                }
            }
            assert forall|i: int| 0 <= i < r.len() - 1 implies !#[trigger] doubled_underscore_at(r, i) by {
                if i < o1.len() - 1 {
                    assert(!doubled_underscore_at(o1, i));
                }
            }
        } else {
            assert forall|i: int| 0 <= i < r.len() implies is_snake_char(#[trigger] r[i]) by {
                if i < o.len() {
                    assert(is_snake_char(o[i]));
                }
            }
            assert forall|i: int| 0 <= i < r.len() - 1 implies !#[trigger] doubled_underscore_at(r, i) by {
                if i < o.len() - 1 {
                    assert(!doubled_underscore_at(o, i));
                }
            }
        }
    }
}

/// Trimming trailing copies of `c` leaves a prefix that does not end in `c`.
proof fn lemma_trim_end_prefix(s: Seq<char>, c: char)
    ensures
        trim_end_char(s, c).len() <= s.len(),
        trim_end_char(s, c) == s.subrange(0, trim_end_char(s, c).len() as int),
        trim_end_char(s, c).len() > 0 ==> trim_end_char(s, c).last() != c,
    decreases s.len(),
{
    if s.len() > 0 && s.last() == c {
        lemma_trim_end_prefix(s.drop_last(), c);
        let t = trim_end_char(s.drop_last(), c);
        assert(s.drop_last().subrange(0, t.len() as int) =~= s.subrange(0, t.len() as int));
    } else {
        assert(s.subrange(0, s.len() as int) =~= s);
    }
}

/// On a text in snake form the scan copies the text.
proof fn lemma_snake_scan_copies(t: Seq<char>)
    requires
        is_snake_prefix(t),
    ensures
        snake_scan(t) == (t, t.len() > 0 && t.last() == '_'),
    decreases t.len(),
{
    if t.len() > 0 {
        let q = t.drop_last();
        lemma_prefix_of_snake_prefix(t, t.len() - 1);
        assert(t.subrange(0, t.len() - 1) =~= q);
        lemma_snake_scan_copies(q);
        let ch = t.last();
        assert(is_snake_char(t[t.len() - 1]));
        if ch == '_' {
            assert(t.len() > 1);
            assert(!doubled_underscore_at(t, t.len() - 2));
        }
        assert(q.push(ch) =~= t);
    }
}

/// Snake case gives only lower-case ASCII letters, digits and single
/// underscores between them (none at either end), and applying it to its own
/// result changes nothing.
pub proof fn snake_case_is_canonical(s: Seq<char>)
    ensures
        is_snake_name(snake_case_of(s)),
        snake_case_of(snake_case_of(s)) == snake_case_of(s),
{
    let o = snake_scan(s).0;
    lemma_snake_scan_form(s);
    assert(trim_start_char(o, '_') == o);
    lemma_trim_end_prefix(o, '_');
    let r = trim_end_char(o, '_');
    lemma_prefix_of_snake_prefix(o, r.len() as int);
    assert(r == snake_case_of(s));
    lemma_snake_scan_copies(r);
    assert(trim_start_char(r, '_') == r);
    assert(trim_end_char(r, '_') == r);
}

fn trim_char(v: &Vec<char>, c: char) -> (res: String)
    ensures
        res@ == trim_end_char(trim_start_char(v@, c), c),
{
    let n = v.len();
    let mut start: usize = 0;
    assert(v@.subrange(0, n as int) =~= v@);
    while start < n && v[start] == c
        invariant
            n == v@.len(),
            start <= n,
            trim_start_char(v@.subrange(start as int, n as int), c) == trim_start_char(v@, c),
        decreases n - start,
    {
        assert(v@.subrange(start as int, n as int).drop_first() =~= v@.subrange(start + 1, n as int));
        start = start + 1;
    }
    assert(trim_start_char(v@.subrange(start as int, n as int), c) == v@.subrange(start as int, n as int));
    let mut end: usize = n;
    while end > start && v[end - 1] == c
        invariant
            n == v@.len(),
            start <= end <= n,
            trim_end_char(v@.subrange(start as int, end as int), c) == trim_end_char(trim_start_char(v@, c), c),
        decreases end,
    {
        assert(v@.subrange(start as int, end as int).drop_last() =~= v@.subrange(start as int, end - 1));
        end = end - 1;
    }
    let mut out = String::new();
    let mut i: usize = start;
    while i < end
        invariant
            n == v@.len(),
            start <= i <= end <= n,
            out@ == v@.subrange(start as int, i as int),
        decreases end - i,
    {
        push_char(&mut out, v[i]);
        assert(v@.subrange(start as int, i + 1) =~= v@.subrange(start as int, i as int).push(v@[i as int]));
        i = i + 1;
    }
    out
}

/// The snake-case spelling of a name, as binding function and argument names use it.
pub fn snake_case(s: &str) -> (res: String)
    ensures
        res@ == snake_case_of(s@),
{
    let cs = chars_of(s);
    let mut out: Vec<char> = Vec::new();
    let mut prev_is_sep = false;
    let mut i: usize = 0;
    while i < cs.len()
        invariant
            cs@ == s@,
            i <= cs@.len(),
            (out@, prev_is_sep) == snake_scan(s@.subrange(0, i as int)),
        decreases cs.len() - i,
    {
        let ch = cs[i];
        assert(s@.subrange(0, i + 1).drop_last() =~= s@.subrange(0, i as int));
        if is_alnum_char(ch) {
            if is_upper_char(ch) && out.len() > 0 && !prev_is_sep {
                out.push('_');
            }
            out.push(char_lower(ch));
            prev_is_sep = false;
        } else {
            if !prev_is_sep && out.len() > 0 {
                out.push('_');
            }
            prev_is_sep = true;
        }
        i = i + 1;
    }
    assert(s@.subrange(0, s@.len() as int) =~= s@);
    trim_char(&out, '_')
}

// ---------------------------------------------------------------------------
// Splitting, title case, human path ids
// ---------------------------------------------------------------------------

/// The pieces of `s` between occurrences of `sep`; `n` separators give `n + 1`
/// pieces, empty ones among them.
pub open spec fn split_seq(s: Seq<char>, sep: char) -> Seq<Seq<char>>
    decreases s.len(),
{
    if s.len() == 0 {
        seq![Seq::empty()]
    } else {
        let p = split_seq(s.drop_last(), sep);
        if s.last() == sep {
            p.push(Seq::empty())
        } else {
            p.update(p.len() - 1, p.last().push(s.last()))
        }
    }
}

/// Splitting always gives at least one piece.
pub proof fn lemma_split_nonempty(s: Seq<char>, sep: char)
    ensures
        split_seq(s, sep).len() >= 1,
    decreases s.len(),
{
    if s.len() > 0 {
        lemma_split_nonempty(s.drop_last(), sep);
    }
}

/// The non-empty pieces, in order.
pub open spec fn nonempty(ps: Seq<Seq<char>>) -> Seq<Seq<char>>
    decreases ps.len(),
{
    if ps.len() == 0 {
        ps
    } else if ps.last().len() > 0 {
        nonempty(ps.drop_last()).push(ps.last())
    } else {
        nonempty(ps.drop_last())
    }
}

/// A word with its first character ASCII-upper-cased.
pub open spec fn capitalize(w: Seq<char>) -> Seq<char> {
    if w.len() == 0 {
        w
    } else {
        seq![upper_char(w[0])] + w.drop_first()
    }
}

pub open spec fn capitalize_all(ws: Seq<Seq<char>>) -> Seq<Seq<char>> {
    ws.map_values(|w: Seq<char>| capitalize(w))
}

/// Title case of an underscore-separated name: its non-empty pieces, each
/// capitalised, joined by single spaces.
pub open spec fn title_case_of(s: Seq<char>) -> Seq<char> {
    join_seq(capitalize_all(nonempty(split_seq(s, '_'))), " "@)
}

fn capitalized(w: &Vec<char>) -> (res: String)
    ensures
        res@ == capitalize(w@),
{
    if w.len() == 0 {
        return String::new();
    }
    let mut out = String::new();
    push_char(&mut out, char_upper(w[0]));
    let mut i: usize = 1;
    while i < w.len()
        invariant
            1 <= i <= w@.len(),
            out@ == seq![upper_char(w@[0])] + w@.subrange(1, i as int),
        decreases w.len() - i,
    {
        push_char(&mut out, w[i]);
        assert(w@.subrange(1, i + 1) =~= w@.subrange(1, i as int).push(w@[i as int]));
        i = i + 1;
    }
    assert(w@.subrange(1, w@.len() as int) =~= w@.drop_first());
    out
}

/// Title case of an underscore-separated name, as section headings use it.
pub fn title_case(s: &str) -> (res: String)
    ensures
        res@ == title_case_of(s@),
{
    let cs = chars_of(s);
    let mut words: Vec<String> = Vec::new();
    let mut cur: Vec<char> = Vec::new();
    let mut i: usize = 0;
    proof {
        lemma_split_nonempty(s@.subrange(0, 0), '_');
    }
    while i < cs.len()
        invariant
            cs@ == s@,
            i <= cs@.len(),
            split_seq(s@.subrange(0, i as int), '_').len() >= 1,
            cur@ == split_seq(s@.subrange(0, i as int), '_').last(),
            views(words@) == capitalize_all(nonempty(split_seq(s@.subrange(0, i as int), '_').drop_last())),
        decreases cs.len() - i,
    {
        let ghost p = split_seq(s@.subrange(0, i as int), '_');
        let ch = cs[i];
        assert(s@.subrange(0, i + 1).drop_last() =~= s@.subrange(0, i as int));
        if ch == '_' {
            if cur.len() > 0 {
                let w = capitalized(&cur);
                words.push(w);
                proof {
                    assert(views(words@) =~= views(words@.drop_last()).push(capitalize(cur@)));
                    assert(p.drop_last().push(p.last()) =~= p);
                    assert(capitalize_all(nonempty(p)) =~= capitalize_all(nonempty(p.drop_last())).push(capitalize(p.last())));
                }
            } else {
                proof {
                    assert(p.drop_last().push(p.last()) =~= p);
                }
            }
            cur = Vec::new();
            proof {
                assert(split_seq(s@.subrange(0, i + 1), '_').drop_last() =~= p);
            }
        } else {
            cur.push(ch);
            proof {
                assert(split_seq(s@.subrange(0, i + 1), '_').drop_last() =~= p.drop_last());
            }
        }
        i = i + 1;
    }
    let ghost p = split_seq(s@, '_');
    assert(s@.subrange(0, i as int) =~= s@);
    assert(cur@ == p.last());
    if cur.len() > 0 {
        let w = capitalized(&cur);
        words.push(w);
        proof {
            assert(views(words@) =~= views(words@.drop_last()).push(capitalize(cur@)));
            assert(capitalize_all(nonempty(p)) =~= capitalize_all(nonempty(p.drop_last())).push(capitalize(p.last())));
        }
    } else {
        assert(capitalize_all(nonempty(p)) =~= capitalize_all(nonempty(p.drop_last())));
    }
    assert(views(words@) == capitalize_all(nonempty(p)));
    join_strings(&words, " ")
}

/// Each piece in title case.
pub open spec fn title_all(ps: Seq<Seq<char>>) -> Seq<Seq<char>> {
    ps.map_values(|p: Seq<char>| title_case_of(p))
}

/// The human form of a dotted path id: each dot-separated piece in title case,
/// joined by single spaces.
pub open spec fn humanize_path_id_of(path_id: Seq<char>) -> Seq<char> {
    join_seq(title_all(split_seq(path_id, '.')), " "@)
}

/// The human form of an equation path id, as page titles use it.
pub fn humanize_path_id(path_id: &str) -> (res: String)
    ensures
        res@ == humanize_path_id_of(path_id@),
{
    let cs = chars_of(path_id);
    let mut parts: Vec<String> = Vec::new();
    let mut cur: Vec<char> = Vec::new();
    let mut i: usize = 0;
    proof {
        lemma_split_nonempty(path_id@.subrange(0, 0), '.');
    }
    while i < cs.len()
        invariant
            cs@ == path_id@,
            i <= cs@.len(),
            split_seq(path_id@.subrange(0, i as int), '.').len() >= 1,
            cur@ == split_seq(path_id@.subrange(0, i as int), '.').last(),
            views(parts@) == title_all(split_seq(path_id@.subrange(0, i as int), '.').drop_last()),
        decreases cs.len() - i,
    {
        let ghost p = split_seq(path_id@.subrange(0, i as int), '.');
        let ch = cs[i];
        assert(path_id@.subrange(0, i + 1).drop_last() =~= path_id@.subrange(0, i as int));
        if ch == '.' {
            let piece = string_from_chars(cur.as_slice());
            let t = title_case(piece.as_str());
            parts.push(t);
            cur = Vec::new();
            proof {
                assert(split_seq(path_id@.subrange(0, i + 1), '.').drop_last() =~= p);
                assert(p.drop_last().push(p.last()) =~= p);
                assert(views(parts@) =~= views(parts@.drop_last()).push(title_case_of(p.last())));
                assert(title_all(p) =~= title_all(p.drop_last()).push(title_case_of(p.last())));
                assert(views(parts@) =~= title_all(p));
            }
        } else {
            cur.push(ch);
            proof {
                assert(split_seq(path_id@.subrange(0, i + 1), '.').drop_last() =~= p.drop_last());
            }
        }
        i = i + 1;
    }
    let ghost p = split_seq(path_id@, '.');
    assert(path_id@.subrange(0, path_id@.len() as int) =~= path_id@);
    let piece = string_from_chars(cur.as_slice());
    let t = title_case(piece.as_str());
    parts.push(t);
    proof {
        assert(p.drop_last().push(p.last()) =~= p);
        assert(views(parts@) =~= views(parts@.drop_last()).push(title_case_of(p.last())));
        assert(title_all(p) =~= title_all(p.drop_last()).push(title_case_of(p.last())));
        assert(views(parts@) =~= title_all(p));
    }
    join_strings(&parts, " ")
}

/// The pieces of a text between occurrences of `sep`.
pub fn split_text(s: &str, sep: char) -> (res: Vec<String>)
    ensures
        views(res@) == split_seq(s@, sep),
{
    let cs = chars_of(s);
    let mut parts: Vec<String> = Vec::new();
    let mut cur: Vec<char> = Vec::new();
    let mut i: usize = 0;
    proof {
        lemma_split_nonempty(s@.subrange(0, 0), sep);
    }
    while i < cs.len()
        invariant
            cs@ == s@,
            i <= cs@.len(),
            split_seq(s@.subrange(0, i as int), sep).len() >= 1,
            cur@ == split_seq(s@.subrange(0, i as int), sep).last(),
            views(parts@) == split_seq(s@.subrange(0, i as int), sep).drop_last(),
        decreases cs.len() - i,
    {
        let ghost p = split_seq(s@.subrange(0, i as int), sep);
        let ch = cs[i];
        assert(s@.subrange(0, i + 1).drop_last() =~= s@.subrange(0, i as int));
        if ch == sep {
            let piece = string_from_chars(cur.as_slice());
            parts.push(piece);
            cur = Vec::new();
            proof {
                assert(split_seq(s@.subrange(0, i + 1), sep).drop_last() =~= p);
                assert(views(parts@) =~= views(parts@.drop_last()).push(p.last()));
                assert(p.drop_last().push(p.last()) =~= p);
            }
        } else {
            cur.push(ch);
            proof {
                assert(split_seq(s@.subrange(0, i + 1), sep).drop_last() =~= p.drop_last());
            }
        }
        i = i + 1;
    }
    let ghost p = split_seq(s@, sep);
    assert(s@.subrange(0, s@.len() as int) =~= s@);
    let piece = string_from_chars(cur.as_slice());
    parts.push(piece);
    proof {
        assert(views(parts@) =~= views(parts@.drop_last()).push(p.last()));
        assert(p.drop_last().push(p.last()) =~= p);
    }
    parts
}

} // verus!

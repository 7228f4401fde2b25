//! Joining and concatenation of text, with their meaning over character sequences.
use vstd::prelude::*;

verus! {

/// `parts` joined by `sep`: no separator before the first part or after the last.
pub open spec fn join_seq(parts: Seq<Seq<char>>, sep: Seq<char>) -> Seq<char>
    decreases parts.len(),
{
    if parts.len() == 0 {
        Seq::empty()
    } else if parts.len() == 1 {
        parts[0]
    } else {
        join_seq(parts.drop_last(), sep) + sep + parts.last()
    }
}

/// The views of a vector of strings.
pub open spec fn views(v: Seq<String>) -> Seq<Seq<char>> {
    Seq::new(v.len(), |i: int| v[i]@)
}

/// The views of a vector of string slices.
pub open spec fn str_views(v: Seq<&str>) -> Seq<Seq<char>> {
    Seq::new(v.len(), |i: int| v[i]@)
}

/// The concatenation of all parts, in order.
pub open spec fn concat_seq(parts: Seq<Seq<char>>) -> Seq<char>
    decreases parts.len(),
{
    if parts.len() == 0 {
        Seq::empty()
    } else {
        concat_seq(parts.drop_last()) + parts.last()
    }
}

/// Appends a string slice to a string.
pub fn push_str(s: &mut String, t: &str)
    ensures
        final(s)@ == old(s)@ + t@,
{
    s.append(t);
}

/// A fresh `String` holding the given slice.
pub fn owned(t: &str) -> (res: String)
    ensures
        res@ == t@,
{
    String::from_str(t)
}

/// A copy of a list of strings.
pub fn copy_strings(v: &Vec<String>) -> (res: Vec<String>)
    ensures
        res@ == v@,
{
    let mut res: Vec<String> = Vec::new();
    let mut i: usize = 0;
    while i < v.len()
        invariant
            i <= v@.len(),
            res@ == v@.subrange(0, i as int),
        decreases v.len() - i,
    {
        res.push(v[i].clone());
        assert(res@ =~= v@.subrange(0, i + 1));
        i = i + 1;
    }
    assert(v@.subrange(0, v@.len() as int) =~= v@);
    res
}

/// Joins the given strings with `sep`.
pub fn join_strings(parts: &Vec<String>, sep: &str) -> (res: String)
    ensures
        res@ == join_seq(views(parts@), sep@),
{
    let mut out = String::new();
    let ghost all = views(parts@);
    let mut i: usize = 0;
    while i < parts.len()
        invariant
            i <= parts@.len(),
            all == views(parts@),
            out@ == join_seq(all.take(i as int), sep@),
        decreases parts.len() - i,
    {
        assert(all.take(i + 1).drop_last() == all.take(i as int));
        if i != 0 {
            out.append(sep);
        } else {
            assert(all.take(1) == seq![all[0]]);
        }
        out.append(parts[i].as_str());
        i = i + 1;
    }
    assert(all.take(parts@.len() as int) == all);
    out
}

/// Joins the given string slices with `sep`.
pub fn join_strs(parts: &Vec<&str>, sep: &str) -> (res: String)
    ensures
        res@ == join_seq(str_views(parts@), sep@),
{
    let mut out = String::new();
    let ghost all = str_views(parts@);
    let mut i: usize = 0;
    while i < parts.len()
        invariant
            i <= parts@.len(),
            all == str_views(parts@),
            out@ == join_seq(all.take(i as int), sep@),
        decreases parts.len() - i,
    {
        assert(all.take(i + 1).drop_last() == all.take(i as int));
        if i != 0 {
            out.append(sep);
        } else {
            assert(all.take(1) == seq![all[0]]);
        }
        out.append(parts[i]);
        i = i + 1;
    }
    assert(all.take(parts@.len() as int) == all);
    out
}


/// Appends every part, in order.
pub fn append_parts(out: &mut String, parts: &[&str])
    ensures
        final(out)@ == old(out)@ + concat_seq(str_views(parts@)),
{
    let ghost start = out@;
    let mut i: usize = 0;
    while i < parts.len()
        invariant
            i <= parts@.len(),
            out@ == start + concat_seq(str_views(parts@.subrange(0, i as int))),
        decreases parts@.len() - i,
    {
        push_str(out, parts[i]);
        proof {
            let v = str_views(parts@.subrange(0, i + 1));
            assert(v.drop_last() =~= str_views(parts@.subrange(0, i as int)));
            assert(out@ =~= start + concat_seq(v));
        }
        i = i + 1;
    }
    assert(parts@.subrange(0, parts@.len() as int) =~= parts@);
}

/// All parts, concatenated in order.
pub fn concat_parts(parts: &[&str]) -> (res: String)
    ensures
        res@ == concat_seq(str_views(parts@)),
{
    let mut out = String::new();
    append_parts(&mut out, parts);
    out
}


/// One line per item: `prefix`, the item, and a newline.
pub open spec fn prefixed_lines(prefix: Seq<char>, items: Seq<Seq<char>>) -> Seq<char> {
    concat_seq(items.map_values(|t: Seq<char>| prefix + t + "\n"@))
}

/// Appends one line per item: `prefix`, the item, and a newline.
pub fn push_prefixed_lines(out: &mut String, prefix: &str, items: &Vec<&str>)
    ensures
        final(out)@ == old(out)@ + prefixed_lines(prefix@, str_views(items@)),
{
    let ghost start = out@;
    let mut i: usize = 0;
    while i < items.len()
        invariant
            i <= items@.len(),
            out@ == start + prefixed_lines(prefix@, str_views(items@.subrange(0, i as int))),
        decreases items@.len() - i,
    {
        push_str(out, prefix);
        push_str(out, items[i]);
        push_str(out, "\n");
        proof {
            let t = str_views(items@.subrange(0, i + 1)).map_values(|t: Seq<char>| prefix@ + t + "\n"@);
            assert(str_views(items@.subrange(0, i + 1)).drop_last() =~= str_views(items@.subrange(0, i as int)));
            assert(t.drop_last() =~= str_views(items@.subrange(0, i as int)).map_values(|t: Seq<char>| prefix@ + t + "\n"@));
            assert(out@ =~= start + prefixed_lines(prefix@, str_views(items@.subrange(0, i + 1))));
        }
        i = i + 1;
    }
    assert(items@.subrange(0, items@.len() as int) =~= items@);
}

/// The decimal digit `d` as a character.
pub open spec fn digit_char(d: nat) -> char {
    if d == 0 {
        '0'
    } else if d == 1 {
        '1'
    } else if d == 2 {
        '2'
    } else if d == 3 {
        '3'
    } else if d == 4 {
        '4'
    } else if d == 5 {
        '5'
    } else if d == 6 {
        '6'
    } else if d == 7 {
        '7'
    } else if d == 8 {
        '8'
    } else {
        '9'
    }
}

/// A number in decimal, without leading zeros.
pub open spec fn decimal_text(n: nat) -> Seq<char>
    decreases n,
{
    if n < 10 {
        seq![digit_char(n)]
    } else {
        decimal_text(n / 10).push(digit_char(n % 10))
    }
}

fn digit_of(d: usize) -> (c: char)
    requires
        d < 10,
    ensures
        c == digit_char(d as nat),
{
    match d {
        0 => '0',
        1 => '1',
        2 => '2',
        3 => '3',
        4 => '4',
        5 => '5',
        6 => '6',
        7 => '7',
        8 => '8',
        _ => '9',
    }
}

/// A count written in decimal.
pub fn usize_text(n: usize) -> (res: String)
    ensures
        res@ == decimal_text(n as nat),
    decreases n,
{
    if n < 10 {
        let mut s = String::new();
        crate::text::push_char(&mut s, digit_of(n));
        assert(s@ =~= seq![digit_char(n as nat)]);
        s
    } else {
        let mut s = usize_text(n / 10);
        crate::text::push_char(&mut s, digit_of(n % 10));
        s
    }
}

} // verus!

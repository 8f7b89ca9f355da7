//! Splitting text into segments and lines.
use vstd::prelude::*;
use vstd::string::StrSliceExecFns;

verus! {

broadcast use vstd::string::group_string_axioms;

/// The segments of `s` between occurrences of `sep`, as `str::split` yields them:
/// one more segment than there are separators, empty ones included.
pub open spec fn split_spec(s: Seq<char>, sep: char) -> Seq<Seq<char>>
    decreases s.len(),
{
    if s.len() == 0 {
        seq![Seq::<char>::empty()]
    } else {
        let prev = split_spec(s.drop_last(), sep);
        if s.last() == sep {
            prev.push(Seq::<char>::empty())
        } else {
            prev.update(prev.len() - 1, prev.last().push(s.last()))
        }
    }
}

/// The view of each string of a vector.
pub open spec fn views(v: Seq<String>) -> Seq<Seq<char>> {
    v.map_values(|x: String| x@)
}

/// Every text has at least one segment.
pub proof fn lemma_split_nonempty(s: Seq<char>, sep: char)
    ensures
        split_spec(s, sep).len() >= 1,
    decreases s.len(),
{
    if s.len() > 0 {
        lemma_split_nonempty(s.drop_last(), sep);
    }
}

/// A text without the separator is a single segment.
pub proof fn lemma_split_single(w: Seq<char>, sep: char)
    requires
        !w.contains(sep),
    ensures
        split_spec(w, sep) == seq![w],
    decreases w.len(),
{
    if w.len() == 0 {
        assert(w =~= Seq::<char>::empty());
        assert(split_spec(w, sep) =~= seq![w]);
    } else {
        let u = w.drop_last();
        assert(!u.contains(sep)) by {
            if u.contains(sep) {
                let k = choose|k: int| 0 <= k < u.len() && u[k] == sep;
                assert(w[k] == sep);
            }
        }
        lemma_split_single(u, sep);
        assert(w.last() != sep) by {
            assert(w[w.len() - 1] == w.last());
        }
        assert(u.push(w.last()) =~= w);
        let prev = split_spec(u, sep);
        assert(split_spec(w, sep) == prev.update(prev.len() - 1, prev.last().push(w.last())));
        assert(prev.update(0, u.push(w.last())) =~= seq![w]);
    }
}

/// Splitting at a separator between two texts splits each of them.
pub proof fn lemma_split_join(a: Seq<char>, b: Seq<char>, sep: char)
    ensures
        split_spec(a + seq![sep] + b, sep) == split_spec(a, sep) + split_spec(b, sep),
    decreases b.len(),
{
    let s = a + seq![sep] + b;
    if b.len() == 0 {
        assert(s.drop_last() =~= a);
        assert(split_spec(b, sep) =~= seq![Seq::<char>::empty()]);
        assert(split_spec(s, sep) =~= split_spec(a, sep) + split_spec(b, sep));
    } else {
        let b0 = b.drop_last();
        lemma_split_join(a, b0, sep);
        lemma_split_nonempty(b0, sep);
        lemma_split_nonempty(a, sep);
        assert(s.drop_last() =~= a + seq![sep] + b0);
        assert(s.last() == b.last());
        assert(split_spec(s, sep) =~= split_spec(a, sep) + split_spec(b, sep));
    }
}

/// Splits `s` at every occurrence of `sep`.
pub fn split_on(s: &str, sep: char) -> (r: Vec<String>)
    ensures
        views(r@) == split_spec(s@, sep),
{
    let n = s.unicode_len();
    let mut parts: Vec<String> = Vec::new();
    let mut start: usize = 0;
    let mut i: usize = 0;
    assert(s@.take(0) =~= Seq::<char>::empty());
    assert(s@.subrange(0, 0) =~= Seq::<char>::empty());
    assert(views(parts@).push(s@.subrange(0, 0)) =~= split_spec(s@.take(0), sep));
    for c in it: s.chars()
        invariant
            n == s@.len(),
            i == it.index(),
            it.seq() == s@,
            start <= i <= n,
            views(parts@).push(s@.subrange(start as int, i as int)) == split_spec(s@.take(i as int), sep),
    {
        proof {
            assert(s@.take(i + 1).drop_last() =~= s@.take(i as int));
            lemma_split_nonempty(s@.take(i as int), sep);
            assert(c == s@[i as int]);
            assert(s@.take(i + 1).last() == c);
        }
        if c == sep {
            let part = s.substring_char(start, i);
            let ghost before = views(parts@);
            let ghost prev = split_spec(s@.take(i as int), sep);
            assert(split_spec(s@.take(i + 1), sep) == prev.push(Seq::<char>::empty()));
            parts.push(part.to_string());
            assert(views(parts@) =~= before.push(part@));
            start = i + 1;
            assert(s@.subrange(start as int, i + 1) =~= Seq::<char>::empty());
            assert(views(parts@).push(s@.subrange(start as int, i + 1)) =~= split_spec(s@.take(i + 1), sep));
        } else {
            let ghost prev = split_spec(s@.take(i as int), sep);
            assert(split_spec(s@.take(i + 1), sep) == prev.update(prev.len() - 1, prev.last().push(c)));
            let ghost cur = s@.subrange(start as int, i as int);
            assert(prev == views(parts@).push(cur));
            assert(s@.subrange(start as int, i + 1) =~= cur.push(c));
            assert(views(parts@).push(cur.push(c)) =~= prev.update(prev.len() - 1, cur.push(c)));
        }
        i = i + 1;
    }
    let last = s.substring_char(start, n);
    let ghost before = views(parts@);
    parts.push(last.to_string());
    assert(views(parts@) =~= before.push(last@));
    assert(s@.take(n as int) =~= s@);
    parts
}

/// A line without the carriage return that ends it, if any.
pub open spec fn strip_cr(l: Seq<char>) -> Seq<char> {
    if l.len() > 0 && l.last() == '\r' {
        l.drop_last()
    } else {
        l
    }
}

/// The lines of `s`, as `str::lines` yields them: split at `\n`, a `\r`
/// before a `\n` dropped, and no empty line after a final `\n`.
pub open spec fn lines_spec(s: Seq<char>) -> Seq<Seq<char>> {
    let parts = split_spec(s, '\n');
    let body = parts.drop_last().map_values(|l: Seq<char>| strip_cr(l));
    if parts.last().len() == 0 {
        body
    } else {
        body.push(parts.last())
    }
}

/// Drops one carriage return at the end of `l`.
fn without_cr(l: &String) -> (r: String)
    ensures
        r@ == strip_cr(l@),
{
    let n = l.as_str().unicode_len();
    if n > 0 && l.as_str().get_char(n - 1) == '\r' {
        l.as_str().substring_char(0, n - 1).to_string()
    } else {
        l.clone()
    }
}

/// The lines of `s`.
pub fn lines_of(s: &str) -> (r: Vec<String>)
    ensures
        views(r@) == lines_spec(s@),
{
    let parts = split_on(s, '\n');
    proof {
        lemma_split_nonempty(s@, '\n');
    }
    let ghost all = views(parts@);
    let last = parts.len() - 1;
    let mut lines: Vec<String> = Vec::new();
    let mut i: usize = 0;
    while i < last
        invariant
            all == views(parts@),
            all == split_spec(s@, '\n'),
            last == parts.len() - 1,
            i <= last,
            views(lines@) =~= all.take(i as int).map_values(|l: Seq<char>| strip_cr(l)),
        decreases last - i,
    {
        let line = without_cr(&parts[i]);
        let ghost before = views(lines@);
        lines.push(line);
        assert(views(lines@) =~= before.push(strip_cr(all[i as int])));
        assert(all.take(i + 1) =~= all.take(i as int).push(all[i as int]));
        i = i + 1;
    }
    assert(all.take(last as int) =~= all.drop_last());
    if parts[last].as_str().unicode_len() > 0 {
        let ghost before = views(lines@);
        lines.push(parts[last].clone());
        assert(views(lines@) =~= before.push(all.last()));
    }
    lines
}

} // verus!

//! Splitting text into lines (`str::lines`) and joining pieces with a
//! separator (`[String]::join`).
use vstd::prelude::*;
use crate::text::{chars_of, index_of_char, lemma_index_of_char, lemma_index_of_char_found, string_from};
use vstd::string::StringExecFns;

verus! {

/// The views of a sequence of strings.
pub open spec fn views(v: Seq<String>) -> Seq<Seq<char>> {
    v.map_values(|x: String| x@)
}

/// A line without its trailing carriage return, if it has one.
pub open spec fn strip_cr(s: Seq<char>) -> Seq<char> {
    if s.len() > 0 && s.last() == '\r' {
        s.drop_last()
    } else {
        s
    }
}

/// `str::lines`: pieces between line feeds, each without a trailing carriage
/// return, with no empty piece after a final line feed.
pub open spec fn lines(s: Seq<char>) -> Seq<Seq<char>>
    decreases s.len(),
{
    if s.len() == 0 {
        Seq::empty()
    } else {
        match index_of_char(s, '\n') {
            Some(i) => {
                proof {
                    lemma_index_of_char_found(s, '\n');
                }
                seq![strip_cr(s.take(i))] + lines(s.skip(i + 1))
            },
            None => seq![s],
        }
    }
}

/// The pieces joined with `sep` between each two of them.
pub open spec fn join(parts: Seq<Seq<char>>, sep: Seq<char>) -> Seq<char>
    decreases parts.len(),
{
    if parts.len() == 0 {
        Seq::empty()
    } else if parts.len() == 1 {
        parts[0]
    } else {
        join(parts.drop_last(), sep) + sep + parts.last()
    }
}

pub proof fn lemma_views_push(v: Seq<String>, x: String)
    ensures
        views(v.push(x)) == views(v).push(x@),
{
    assert(views(v.push(x)) =~= views(v).push(x@));
}

/// `str::lines`, collected.
pub fn split_lines(s: &str) -> (r: Vec<String>)
    ensures
        views(r@) == lines(s@),
{
    let cs = chars_of(s);
    let n = cs.len();
    let mut r: Vec<String> = Vec::new();
    let mut start: usize = 0;
    let mut i: usize = 0;
    assert(cs@.subrange(0, n as int) == cs@);
    assert(views(r@) + lines(cs@) =~= lines(cs@));
    while i < n
        invariant
            n == cs@.len(),
            cs@ == s@,
            start <= i <= n,
            forall|k: int| start <= k < i ==> #[trigger] cs@[k] != '\n',
            views(r@) + lines(cs@.subrange(start as int, n as int)) == lines(cs@),
        decreases n - i,
    {
        if cs[i] == '\n' {
            let ghost sub = cs@.subrange(start as int, n as int);
            proof {
                assert forall|k: int| 0 <= k < i - start implies #[trigger] sub[k] != '\n' by {
                    assert(sub[k] == cs@[start + k]);
                }
                lemma_index_of_char(sub, '\n', i - start);
                assert(sub.take(i - start) == cs@.subrange(start as int, i as int));
                assert(sub.skip(i - start + 1) == cs@.subrange(i + 1, n as int));
            }
            let end = if i > start && cs[i - 1] == '\r' {
                i - 1
            } else {
                i
            };
            let line = string_from(&cs, start, end);
            proof {
                let piece = cs@.subrange(start as int, i as int);
                assert(line@ == strip_cr(piece)) by {
                    if i > start && cs@[i - 1] == '\r' {
                        assert(piece.drop_last() =~= cs@.subrange(start as int, end as int));
                    }
                }
                lemma_views_push(r@, line);
                assert(lines(sub) == seq![line@] + lines(cs@.subrange(i + 1, n as int)));
                assert(views(r@.push(line)) + lines(cs@.subrange(i + 1, n as int)) =~= views(r@)
                    + lines(sub));
            }
            r.push(line);
            start = i + 1;
        }
        i += 1;
    }
    let ghost sub = cs@.subrange(start as int, n as int);
    proof {
        assert forall|k: int| 0 <= k < sub.len() implies #[trigger] sub[k] != '\n' by {
            assert(sub[k] == cs@[start + k]);
        }
        lemma_index_of_char(sub, '\n', sub.len() as int);
    }
    if start < n {
        let last = string_from(&cs, start, n);
        proof {
            lemma_views_push(r@, last);
            assert(views(r@.push(last)) =~= views(r@) + lines(sub));
        }
        r.push(last);
    } else {
        assert(views(r@) + lines(sub) =~= views(r@));
    }
    r
}

/// The pieces joined with `sep` between each two of them.
pub fn join_with(parts: &Vec<String>, sep: &str) -> (r: String)
    ensures
        r@ == join(views(parts@), sep@),
{
    let mut r = String::new();
    let mut i: usize = 0;
    while i < parts.len()
        invariant
            i <= parts@.len(),
            r@ == join(views(parts@).take(i as int), sep@),
        decreases parts@.len() - i,
    {
        let ghost prev = views(parts@).take(i as int);
        let ghost next = views(parts@).take(i + 1);
        assert(next.drop_last() == prev);
        assert(next.last() == parts@[i as int]@);
        if i > 0 {
            r = r.concat(sep);
        }
        r = r.concat(parts[i].as_str());
        proof {
            if i == 0 {
                assert(r@ =~= next[0]);
            }
        }
        i += 1;
    }
    assert(views(parts@).take(parts@.len() as int) == views(parts@));
    r
}

} // verus!

verus! {

/// No line feed in the text.
pub open spec fn no_newline(s: Seq<char>) -> bool {
    forall|i: int| 0 <= i < s.len() ==> #[trigger] s[i] != '\n'
}

/// A text that `str::lines` gives back unchanged as one line: no line feed,
/// and no carriage return at its end.
pub open spec fn plain_line(s: Seq<char>) -> bool {
    no_newline(s) && !(s.len() > 0 && s.last() == '\r')
}

pub proof fn lemma_join_front(ls: Seq<Seq<char>>, sep: Seq<char>)
    requires
        ls.len() >= 2,
    ensures
        join(ls, sep) == ls[0] + sep + join(ls.drop_first(), sep),
    decreases ls.len(),
{
    if ls.len() > 2 {
        lemma_join_front(ls.drop_last(), sep);
        assert(ls.drop_last().drop_first() == ls.drop_first().drop_last());
        assert(ls.drop_first().last() == ls.last());
        assert(ls.drop_last()[0] == ls[0]);
        assert(join(ls, sep) == join(ls.drop_last(), sep) + sep + ls.last());
        assert(join(ls.drop_first(), sep) == join(ls.drop_first().drop_last(), sep) + sep
            + ls.drop_first().last());
        let d = ls.drop_last().drop_first();
        let x = join(d, sep);
        assert(join(ls.drop_last(), sep) == ls[0] + sep + x);
        assert(join(ls.drop_first(), sep) == x + sep + ls.last());
        assert(join(ls, sep) == ls[0] + sep + x + sep + ls.last());
        assert(ls[0] + sep + x + sep + ls.last() =~= ls[0] + sep + (x + sep + ls.last()));
    } else {
        assert(ls.drop_first().len() == 1);
        assert(ls.drop_last().len() == 1);
        assert(join(ls.drop_last(), sep) == ls.drop_last()[0]);
        assert(ls.drop_last()[0] == ls[0]);
        assert(join(ls.drop_first(), sep) == ls.drop_first()[0]);
        assert(ls.drop_first()[0] == ls.last());
    }
}

/// A plain line followed by a line feed is the first line.
pub proof fn lemma_lines_prefix(a: Seq<char>, b: Seq<char>)
    requires
        plain_line(a),
    ensures
        lines(a + seq!['\n'] + b) == seq![a] + lines(b),
{
    let s = a + seq!['\n'] + b;
    assert forall|k: int| 0 <= k < a.len() implies #[trigger] s[k] != '\n' by {
        assert(s[k] == a[k]);
    }
    assert(s[a.len() as int] == '\n');
    crate::text::lemma_index_of_char(s, '\n', a.len() as int);
    assert(s.take(a.len() as int) =~= a);
    assert(s.skip(a.len() + 1int) =~= b);
}

/// Plain lines joined with line feeds, and ended by one, split back into the
/// same lines.
pub proof fn lemma_lines_join(ls: Seq<Seq<char>>)
    requires
        ls.len() >= 1,
        forall|i: int| 0 <= i < ls.len() ==> plain_line(#[trigger] ls[i]),
    ensures
        lines(join(ls, "\n"@) + "\n"@) == ls,
    decreases ls.len(),
{
    reveal_strlit("\n");
    if ls.len() == 1 {
        lemma_lines_prefix(ls[0], Seq::empty());
        assert(ls[0] + seq!['\n'] + Seq::<char>::empty() =~= join(ls, "\n"@) + "\n"@);
        assert(lines(Seq::<char>::empty()) =~= Seq::<Seq<char>>::empty());
        assert(seq![ls[0]] + Seq::<Seq<char>>::empty() =~= ls);
    } else {
        let rest = ls.drop_first();
        assert(plain_line(ls[0]));
        assert forall|i: int| 0 <= i < rest.len() implies plain_line(#[trigger] rest[i]) by {
            assert(rest[i] == ls[i + 1]);
        }
        lemma_lines_join(rest);
        lemma_join_front(ls, "\n"@);
        let tail = join(rest, "\n"@) + "\n"@;
        lemma_lines_prefix(ls[0], tail);
        assert(join(ls, "\n"@) + "\n"@ =~= ls[0] + seq!['\n'] + tail);
        assert(seq![ls[0]] + rest =~= ls);
    }
}

/// Lines of a text that ends with a line feed, followed by more text.
pub proof fn lemma_lines_append(a: Seq<char>, b: Seq<char>)
    requires
        a.len() == 0 || a.last() == '\n',
    ensures
        lines(a + b) == lines(a) + lines(b),
    decreases a.len(),
{
    if a.len() == 0 {
        assert(a + b =~= b);
        assert(lines(a) =~= Seq::<Seq<char>>::empty());
        assert(lines(a) + lines(b) =~= lines(b));
    } else {
        crate::text::lemma_index_of_char_found(a, '\n');
        let i = index_of_char_first(a);
        let s = a + b;
        assert forall|k: int| 0 <= k < i implies #[trigger] s[k] != '\n' by {
            assert(s[k] == a[k]);
        }
        crate::text::lemma_index_of_char(s, '\n', i);
        assert(s.take(i) =~= a.take(i));
        let a2 = a.skip(i + 1);
        assert(s.skip(i + 1) =~= a2 + b);
        assert(a2.len() == 0 || a2.last() == '\n');
        lemma_lines_append(a2, b);
        assert(lines(a + b) =~= lines(a) + lines(b));
    }
}

/// The position of the first line feed of a text that holds one.
pub open spec fn index_of_char_first(a: Seq<char>) -> int {
    match crate::text::index_of_char(a, '\n') {
        Some(i) => i,
        None => a.len() as int,
    }
}

} // verus!

//! Text helpers on character sequences: line splitting as `str::lines`
//! does it, and line-ending normalisation.
use vstd::prelude::*;
use vstd::string::*;

verus! {

/// Drops one carriage return at the end of a segment, if there is one.
pub open spec fn strip_cr(x: Seq<char>) -> Seq<char> {
    if x.len() > 0 && x.last() == '\r' {
        x.drop_last()
    } else {
        x
    }
}

/// The pieces of `s` between line feeds; always at least one piece.
pub open spec fn split_nl(s: Seq<char>) -> Seq<Seq<char>>
    decreases s.len(),
{
    if s.len() == 0 {
        seq![Seq::<char>::empty()]
    } else {
        let prev = split_nl(s.drop_last());
        if s.last() == '\n' {
            prev.push(Seq::<char>::empty())
        } else {
            prev.update(prev.len() - 1, prev.last().push(s.last()))
        }
    }
}

/// The lines of `s`: pieces ended by a line feed lose one carriage return
/// before it, and a line feed at the very end opens no further line.
pub open spec fn lines_of(s: Seq<char>) -> Seq<Seq<char>> {
    let p = split_nl(s);
    if s.len() == 0 {
        Seq::empty()
    } else if s.last() == '\n' {
        p.drop_last().map_values(|x: Seq<char>| strip_cr(x))
    } else {
        p.drop_last().map_values(|x: Seq<char>| strip_cr(x)).push(p.last())
    }
}

/// The number of line feeds in `s`.
pub open spec fn count_nl(s: Seq<char>) -> nat
    decreases s.len(),
{
    if s.len() == 0 {
        0
    } else {
        count_nl(s.drop_last()) + if s.last() == '\n' { 1nat } else { 0nat }
    }
}

/// The views of a vector of strings.
pub open spec fn views(v: Seq<String>) -> Seq<Seq<char>> {
    v.map_values(|x: String| x@)
}

pub proof fn lemma_split_nl_len(s: Seq<char>)
    ensures
        split_nl(s).len() == count_nl(s) + 1,
    decreases s.len(),
{
    if s.len() > 0 {
        lemma_split_nl_len(s.drop_last());
    }
}

/// Each line feed closes one line, and a last line with no line feed after
/// it counts as one more; empty lines count like any other.
pub proof fn lemma_line_count(s: Seq<char>)
    ensures
        lines_of(s).len() == count_nl(s) + if s.len() > 0 && s.last() != '\n' {
            1nat
        } else {
            0nat
        },
{
    lemma_split_nl_len(s);
    if s.len() > 0 && s.last() == '\n' {
        lemma_split_nl_len(s.drop_last());
    }
}

/// The lines of `text`, as `str::lines` gives them.
pub fn split_lines(text: &str) -> (r: Vec<String>)
    ensures
        views(r@) == lines_of(text@),
{
    let n = text.unicode_len();
    let mut done: Vec<String> = Vec::new();
    let mut start: usize = 0;
    let mut i: usize = 0;
    while i < n
        invariant
            n == text@.len(),
            start <= i <= n,
            split_nl(text@.take(i as int)).last() == text@.subrange(start as int, i as int),
            views(done@) == split_nl(text@.take(i as int)).drop_last().map_values(
                |x: Seq<char>| strip_cr(x),
            ),
        decreases n - i,
    {
        let c = text.get_char(i);
        proof {
            lemma_split_nl_len(text@.take(i + 1));
            assert(text@.take(i + 1).drop_last() =~= text@.take(i as int));
            assert(text@.take(i + 1).last() == c);
            lemma_split_nl_len(text@.take(i as int));
        }
        if c == '\n' {
            let mut end = i;
            if i > start && text.get_char(i - 1) == '\r' {
                end = i - 1;
            }
            let piece = String::from_str(text.substring_char(start, end));
            proof {
                let seg = text@.subrange(start as int, i as int);
                assert(strip_cr(seg) =~= text@.subrange(start as int, end as int));
            }
            done.push(piece);
            start = i + 1;
            proof {
                let p = split_nl(text@.take(i as int));
                let q = split_nl(text@.take(i + 1));
                assert(q.drop_last() =~= p);
                assert(p.map_values(|x: Seq<char>| strip_cr(x)) =~= p.drop_last().map_values(
                    |x: Seq<char>| strip_cr(x),
                ).push(strip_cr(p.last())));
                assert(views(done@) =~= q.drop_last().map_values(|x: Seq<char>| strip_cr(x)));
                assert(q.last() =~= text@.subrange(start as int, i + 1));
            }
        } else {
            proof {
                let p = split_nl(text@.take(i as int));
                let q = split_nl(text@.take(i + 1));
                assert(q.drop_last() =~= p.drop_last());
                assert(q.last() =~= text@.subrange(start as int, i + 1));
            }
        }
        i = i + 1;
    }
    proof {
        assert(text@.take(n as int) =~= text@);
        lemma_split_nl_len(text@);
    }
    if n > 0 && text.get_char(n - 1) != '\n' {
        let last = String::from_str(text.substring_char(start, n));
        done.push(last);
        proof {
            let p = split_nl(text@);
            assert(views(done@) =~= p.drop_last().map_values(|x: Seq<char>| strip_cr(x)).push(
                p.last(),
            ));
        }
    } else {
        proof {
            assert(views(done@) =~= lines_of(text@));
        }
    }
    done
}

} // verus!

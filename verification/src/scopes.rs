//! The OAuth scopes that the client asks for: a comma-separated list, split
//! into pieces, with each scope kept once.

use vstd::prelude::*;

verus! {

/// The character views of a list of strings.
pub open spec fn views(v: Seq<String>) -> Seq<Seq<char>> {
    v.map_values(|x: String| x@)
}

/// The pieces of `s` between occurrences of `sep`, in order. As with
/// `str::split`, there is always at least one piece, and the empty string
/// gives one empty piece.
pub open spec fn split_spec(s: Seq<char>, sep: char) -> Seq<Seq<char>>
    decreases s.len(),
{
    if s.len() == 0 {
        seq![Seq::<char>::empty()]
    } else {
        let pre = split_spec(s.drop_last(), sep);
        if s.last() == sep {
            pre.push(Seq::<char>::empty())
        } else {
            pre.update(pre.len() - 1, pre.last().push(s.last()))
        }
    }
}

/// The pieces joined back together, with `sep` between neighbours.
pub open spec fn join_spec(pieces: Seq<Seq<char>>, sep: char) -> Seq<char>
    decreases pieces.len(),
{
    if pieces.len() == 0 {
        Seq::empty()
    } else if pieces.len() == 1 {
        pieces[0]
    } else {
        join_spec(pieces.drop_last(), sep) + seq![sep] + pieces.last()
    }
}

/// The list with every item after its first occurrence left out.
pub open spec fn distinct_spec(s: Seq<Seq<char>>) -> Seq<Seq<char>>
    decreases s.len(),
{
    if s.len() == 0 {
        Seq::empty()
    } else {
        let pre = distinct_spec(s.drop_last());
        if pre.contains(s.last()) {
            pre
        } else {
            pre.push(s.last())
        }
    }
}

/// Splits `s` at every `sep`, as `str::split` does.
pub fn split_on(s: &str, sep: char) -> (res: Vec<String>)
    ensures
        views(res@) == split_spec(s@, sep),
{
    let n = s.unicode_len();
    let mut out: Vec<String> = Vec::new();
    let mut start: usize = 0;
    let mut i: usize = 0;
    proof {
        assert(s@.take(0) =~= Seq::<char>::empty());
        assert(views(out@) =~= Seq::<Seq<char>>::empty());
        assert(s@.subrange(0, 0) =~= Seq::<char>::empty());
        assert(views(out@).push(s@.subrange(0, 0)) =~= seq![Seq::<char>::empty()]);
    }
    while i < n
        invariant
            n == s@.len(),
            start <= i <= n,
            views(out@).push(s@.subrange(start as int, i as int)) == split_spec(s@.take(i as int), sep),
        decreases n - i,
    {
        let c = s.get_char(i);
        proof {
            assert(s@.take(i + 1).drop_last() =~= s@.take(i as int));
            assert(s@.take(i + 1).last() == c);
        }
        if c == sep {
            let piece = String::from_str(s.substring_char(start, i));
            let ghost out_before = out@;
            out.push(piece);
            proof {
                assert(views(out@) =~= views(out_before).push(piece@));
                assert(s@.subrange((i + 1) as int, (i + 1) as int) =~= Seq::<char>::empty());
            }
            start = i + 1;
        } else {
            proof {
                assert(s@.subrange(start as int, i + 1) =~= s@.subrange(start as int, i as int).push(c));
            }
        }
        i = i + 1;
    }
    let last = String::from_str(s.substring_char(start, n));
    let ghost out_before = out@;
    out.push(last);
    proof {
        assert(views(out@) =~= views(out_before).push(last@));
        assert(s@.take(n as int) =~= s@);
    }
    out
}

/// Keeps the first occurrence of each string, in order.
pub fn distinct(items: Vec<String>) -> (res: Vec<String>)
    ensures
        views(res@) == distinct_spec(views(items@)),
{
    let ghost all = items@;
    let mut out: Vec<String> = Vec::new();
    proof {
        assert(views(all.take(0)) =~= Seq::<Seq<char>>::empty());
        assert(views(out@) =~= Seq::<Seq<char>>::empty());
    }
    for x in it: items.into_iter()
        invariant
            it.seq() == all,
            views(out@) == distinct_spec(views(all.take(it.index() as int))),
    {
        let ghost k = it.index() as int;
        proof {
            assert(views(all.take(k + 1)).drop_last() =~= views(all.take(k)));
            assert(views(all.take(k + 1)).last() == x@);
        }
        let mut seen = false;
        let mut j: usize = 0;
        while j < out.len()
            invariant
                j <= out.len(),
                seen <==> exists|m: int| 0 <= m < j && out@[m]@ == x@,
            decreases out.len() - j,
        {
            if out[j] == x {
                seen = true;
            }
            j = j + 1;
        }
        proof {
            if seen {
                let m = choose|m: int| 0 <= m < j && out@[m]@ == x@;
                assert(views(out@)[m] == x@);
            } else {
                assert forall|m: int| 0 <= m < views(out@).len() implies views(out@)[m] != x@ by {
                    assert(views(out@)[m] == out@[m]@);
                }
            }
        }
        if !seen {
            let ghost out_before = out@;
            out.push(x);
            proof {
                assert(views(out@) =~= views(out_before).push(x@));
            }
        }
    }
    proof {
        assert(all.take(all.len() as int) =~= all);
    }
    out
}

/// The scopes named by a comma-separated list, each once, in the order of
/// their first mention.
pub fn parse_scopes(scopes: &str) -> (res: Vec<String>)
    ensures
        views(res@) == distinct_spec(split_spec(scopes@, ',')),
{
    distinct(split_on(scopes, ','))
}

/// Splitting never yields an empty list.
pub proof fn lemma_split_nonempty(s: Seq<char>, sep: char)
    ensures
        split_spec(s, sep).len() >= 1,
    decreases s.len(),
{
    if s.len() > 0 {
        lemma_split_nonempty(s.drop_last(), sep);
    }
}

proof fn lemma_join_extend_last(pieces: Seq<Seq<char>>, sep: char, c: char)
    requires
        pieces.len() >= 1,
    ensures
        join_spec(pieces.update(pieces.len() - 1, pieces.last().push(c)), sep) == join_spec(pieces, sep).push(c),
{
    let up = pieces.update(pieces.len() - 1, pieces.last().push(c));
    if pieces.len() > 1 {
        assert(up.drop_last() =~= pieces.drop_last());
        assert(join_spec(up, sep) =~= join_spec(pieces, sep).push(c));
    }
}

/// Joining the pieces of a split with the separator gives back the string.
pub proof fn lemma_join_split(s: Seq<char>, sep: char)
    ensures
        join_spec(split_spec(s, sep), sep) == s,
    decreases s.len(),
{
    if s.len() > 0 {
        let pre = split_spec(s.drop_last(), sep);
        lemma_join_split(s.drop_last(), sep);
        lemma_split_nonempty(s.drop_last(), sep);
        if s.last() == sep {
            let p = pre.push(Seq::<char>::empty());
            assert(p.drop_last() =~= pre);
            assert(join_spec(p, sep) =~= s);
        } else {
            lemma_join_extend_last(pre, sep, s.last());
            assert(s.drop_last().push(s.last()) =~= s);
        }
    }
}

/// No piece of a split holds the separator.
pub proof fn lemma_split_pieces_free_of_sep(s: Seq<char>, sep: char)
    ensures
        forall|k: int| 0 <= k < split_spec(s, sep).len() ==> !(#[trigger] split_spec(s, sep)[k]).contains(sep),
    decreases s.len(),
{
    if s.len() > 0 {
        lemma_split_pieces_free_of_sep(s.drop_last(), sep);
        lemma_split_nonempty(s.drop_last(), sep);
        let pre = split_spec(s.drop_last(), sep);
        if s.last() != sep {
            let last = pre.last().push(s.last());
            assert forall|k: int| 0 <= k < split_spec(s, sep).len() implies !(#[trigger] split_spec(s, sep)[k]).contains(sep) by {
                if k == pre.len() - 1 {
                    assert(!pre[k].contains(sep));
                    if last.contains(sep) {
                        let m = choose|m: int| 0 <= m < last.len() && last[m] == sep;
                        if m < pre[k].len() {
                            assert(pre[k][m] == sep);
                        }
                    }
                }
            }
        } else {
            assert forall|k: int| 0 <= k < split_spec(s, sep).len() implies !(#[trigger] split_spec(s, sep)[k]).contains(sep) by {
                if k == pre.len() {
                    assert(split_spec(s, sep)[k] =~= Seq::<char>::empty());
                }
            }
        }
    }
}

/// Keeping first occurrences leaves no item twice and keeps every item.
pub proof fn lemma_distinct(s: Seq<Seq<char>>)
    ensures
        distinct_spec(s).no_duplicates(),
        forall|x: Seq<char>| distinct_spec(s).contains(x) <==> s.contains(x),
    decreases s.len(),
{
    if s.len() > 0 {
        let pre = s.drop_last();
        lemma_distinct(pre);
        let d = distinct_spec(pre);
        assert forall|x: Seq<char>| distinct_spec(s).contains(x) <==> s.contains(x) by {
            if s.contains(x) {
                let m = choose|m: int| 0 <= m < s.len() && s[m] == x;
                if m < pre.len() {
                    assert(pre[m] == x);
                    assert(pre.contains(x));
                }
                if !d.contains(s.last()) {
                    assert(d.push(s.last())[d.len() as int] == s.last());
                }
                if d.contains(x) && !d.contains(s.last()) {
                    let k = choose|k: int| 0 <= k < d.len() && d[k] == x;
                    assert(d.push(s.last())[k] == x);
                }
            }
            if distinct_spec(s).contains(x) {
                if d.contains(x) {
                    assert(pre.contains(x));
                    let m = choose|m: int| 0 <= m < pre.len() && pre[m] == x;
                    assert(s[m] == x);
                } else {
                    assert(x == s.last());
                    assert(s[s.len() - 1] == x);
                }
            }
        }
    }
}

} // verus!

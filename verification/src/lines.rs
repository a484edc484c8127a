//! A model of splitting text on line feeds and joining lines back together,
//! used to state what the multi-line builders produce line by line.

use vstd::prelude::*;

verus! {

use crate::LF;

/// The number of line feed characters in `s`.
pub open spec fn line_feed_count(s: Seq<char>) -> nat
    decreases s.len(),
{
    if s.len() == 0 {
        0
    } else if s[0] == LF {
        1 + line_feed_count(s.drop_first())
    } else {
        line_feed_count(s.drop_first())
    }
}

/// The lines of `s`: the runs of characters between line feeds. Each line
/// feed separates two lines, so `s` has `line_feed_count(s) + 1` lines;
/// the empty sequence has one empty line.
pub open spec fn split_lines(s: Seq<char>) -> Seq<Seq<char>>
    decreases s.len(),
{
    if s.len() == 0 {
        seq![Seq::<char>::empty()]
    } else if s[0] == LF {
        seq![Seq::<char>::empty()] + split_lines(s.drop_first())
    } else {
        let rest = split_lines(s.drop_first());
        seq![seq![s[0]] + rest[0]] + rest.drop_first()
    }
}

/// Lines joined back into one sequence, with a line feed between each pair.
pub open spec fn join_lines(lines: Seq<Seq<char>>) -> Seq<char>
    decreases lines.len(),
{
    if lines.len() == 0 {
        Seq::empty()
    } else if lines.len() == 1 {
        lines[0]
    } else {
        lines[0] + seq![LF] + join_lines(lines.drop_first())
    }
}

/// A sequence none of whose characters is a line feed holds no line feed.
pub proof fn lemma_no_lf_count(s: Seq<char>)
    requires
        forall|i: int| 0 <= i < s.len() ==> s[i] != LF,
    ensures
        line_feed_count(s) == 0,
    decreases s.len(),
{
    if s.len() > 0 {
        lemma_no_lf_count(s.drop_first());
    }
}

/// Splitting yields one line more than there are line feeds.
pub proof fn lemma_split_lines_len(s: Seq<char>)
    ensures
        split_lines(s).len() == line_feed_count(s) + 1,
    decreases s.len(),
{
    if s.len() > 0 {
        lemma_split_lines_len(s.drop_first());
    }
}

/// A sequence without line feeds splits into exactly itself.
pub proof fn lemma_split_lines_no_lf(s: Seq<char>)
    requires
        line_feed_count(s) == 0,
    ensures
        split_lines(s) == seq![s],
    decreases s.len(),
{
    if s.len() == 0 {
        assert(s =~= Seq::<char>::empty());
        assert(split_lines(s) =~= seq![s]);
    } else {
        lemma_split_lines_no_lf(s.drop_first());
        assert(seq![s[0]] + s.drop_first() =~= s);
        assert(split_lines(s) =~= seq![s]);
    }
}

/// Line feeds are counted part by part.
pub proof fn lemma_line_feed_count_append(a: Seq<char>, b: Seq<char>)
    ensures
        line_feed_count(a + b) == line_feed_count(a) + line_feed_count(b),
    decreases a.len(),
{
    if a.len() == 0 {
        assert(a + b =~= b);
    } else {
        lemma_line_feed_count_append(a.drop_first(), b);
        assert((a + b).drop_first() =~= a.drop_first() + b);
        assert((a + b)[0] == a[0]);
    }
}

/// A line feed placed between two sequences separates their lines: the
/// split of the whole is the split of the left part followed by the split
/// of the right part.
pub proof fn lemma_split_lines_append(a: Seq<char>, b: Seq<char>)
    ensures
        split_lines(a + seq![LF] + b) == split_lines(a) + split_lines(b),
    decreases a.len(),
{
    let s = a + seq![LF] + b;
    if a.len() == 0 {
        assert(s =~= seq![LF] + b);
        assert(s[0] == LF);
        assert(s.drop_first() =~= b);
        assert(a =~= Seq::<char>::empty());
        assert(split_lines(s) =~= split_lines(a) + split_lines(b));
    } else if a[0] == LF {
        lemma_split_lines_append(a.drop_first(), b);
        assert(s[0] == LF);
        assert(s.drop_first() =~= a.drop_first() + seq![LF] + b);
        assert(split_lines(s) =~= split_lines(a) + split_lines(b));
    } else {
        lemma_split_lines_append(a.drop_first(), b);
        lemma_split_lines_len(a.drop_first());
        lemma_split_lines_len(b);
        assert(s[0] == a[0]);
        assert(s.drop_first() =~= a.drop_first() + seq![LF] + b);
        let rest_s = split_lines(s.drop_first());
        let rest_a = split_lines(a.drop_first());
        assert(rest_s[0] == rest_a[0]);
        assert(rest_s.drop_first() =~= rest_a.drop_first() + split_lines(b));
        assert(split_lines(s) =~= split_lines(a) + split_lines(b));
    }
}

/// Joining the lines of a sequence gives the sequence back.
pub proof fn lemma_join_split_lines(s: Seq<char>)
    ensures
        join_lines(split_lines(s)) == s,
    decreases s.len(),
{
    if s.len() == 0 {
        assert(join_lines(split_lines(s)) =~= s);
    } else if s[0] == LF {
        lemma_join_split_lines(s.drop_first());
        lemma_split_lines_len(s.drop_first());
        let sp = split_lines(s);
        assert(sp.drop_first() =~= split_lines(s.drop_first()));
        assert(join_lines(sp) =~= s);
    } else {
        lemma_join_split_lines(s.drop_first());
        lemma_split_lines_len(s.drop_first());
        let rest = split_lines(s.drop_first());
        let sp = split_lines(s);
        if rest.len() == 1 {
            assert(join_lines(sp) == sp[0]);
            assert(join_lines(rest) == rest[0]);
            assert(join_lines(sp) =~= s);
        } else {
            assert(sp.drop_first() =~= rest.drop_first());
            assert(sp[0] =~= seq![s[0]] + rest[0]);
            assert(join_lines(sp) == sp[0] + seq![LF] + join_lines(rest.drop_first()));
            assert(join_lines(rest) == rest[0] + seq![LF] + join_lines(rest.drop_first()));
            assert(join_lines(sp) =~= seq![s[0]] + join_lines(rest));
            assert(join_lines(sp) =~= s);
        }
    }
}

} // verus!

//! Paths as sequences of `/`-separated segments.

use vstd::prelude::*;

verus! {

/// Removes one leading `/` from `s` if there is one.
pub open spec fn strip_leading_separator(s: Seq<char>) -> Seq<char> {
    if s.len() > 0 && s[0] == '/' {
        s.subrange(1, s.len() as int)
    } else {
        s
    }
}

/// The pieces of `s` between its `/` characters, in order.
///
/// A text with `n` separators has `n + 1` pieces; a piece is empty where two
/// separators are adjacent, or where `s` begins or ends with one. The pieces
/// hold no separator, and joined with one between neighbours they give `s`
/// back: see [`lemma_split_parts`] and [`lemma_split_of_join`].
pub open spec fn split(s: Seq<char>) -> Seq<Seq<char>>
    decreases s.len(),
{
    if s.len() == 0 {
        seq![Seq::empty()]
    } else {
        let before = split(s.drop_last());
        if s.last() == '/' {
            before.push(Seq::empty())
        } else {
            before.drop_last().push(before.last().push(s.last()))
        }
    }
}

/// The segments of a path or pattern: at most one leading `/` is dropped,
/// and what is left is split at every `/`.
pub open spec fn segments(s: Seq<char>) -> Seq<Seq<char>> {
    split(strip_leading_separator(s))
}

/// Whether `part` holds no `/`.
pub open spec fn separator_free(part: Seq<char>) -> bool {
    forall|j: int| 0 <= j < part.len() ==> part[j] != '/'
}

/// The number of `/` characters in `s`.
pub open spec fn count_separators(s: Seq<char>) -> nat
    decreases s.len(),
{
    if s.len() == 0 {
        0
    } else {
        count_separators(s.drop_last()) + if s.last() == '/' {
            1nat
        } else {
            0nat
        }
    }
}

/// The parts written one after the other with a `/` between neighbours.
pub open spec fn join(parts: Seq<Seq<char>>) -> Seq<char>
    decreases parts.len(),
{
    if parts.len() == 0 {
        Seq::empty()
    } else if parts.len() == 1 {
        parts[0]
    } else {
        join(parts.drop_last()).push('/') + parts.last()
    }
}

/// Adding one character to the end of `s` either opens a new, empty segment
/// (for a `/`) or extends the last segment by that character.
pub proof fn lemma_split_push(s: Seq<char>, c: char)
    ensures
        split(s).len() >= 1,
        c == '/' ==> split(s.push(c)) == split(s).push(Seq::empty()),
        c != '/' ==> split(s.push(c)) == split(s).drop_last().push(split(s).last().push(c)),
    decreases s.len(),
{
    if s.len() > 0 {
        lemma_split_push(s.drop_last(), s.last());
    }
    assert(s.push(c).drop_last() == s);
}

/// Splits a path or pattern into its segments.
pub fn split_segments(s: &str) -> (r: Vec<String>)
    ensures
        r.deep_view() == segments(s@),
{
    let ghost body = strip_leading_separator(s@);
    let ghost skipped = s@.len() - body.len();
    let mut done: Vec<String> = Vec::new();
    let mut current = String::new();
    let mut first = true;
    let chars = s.chars();
    assert(done.deep_view().push(current@) =~= split(Seq::empty()));
    for c in it: chars
        invariant
            it.seq() == s@,
            body == strip_leading_separator(s@),
            skipped == s@.len() - body.len(),
            first == (it.index() == 0),
            first ==> done.deep_view().push(current@) == split(Seq::empty()),
            !first ==> it.index() >= skipped && done.deep_view().push(current@) == split(
                body.take(it.index() - skipped),
            ),
    {
        if first && c == '/' {
            assert(body.take(0) =~= Seq::empty());
        } else {
            let ghost j = it.index() - skipped;
            let ghost before = done.deep_view();
            proof {
                assert(body.take(0) =~= Seq::empty());
                assert(body[j] == c);
                assert(body.take(j + 1) =~= body.take(j).push(c));
                lemma_split_push(body.take(j), c);
            }
            if c == '/' {
                let ghost finished = current@;
                done.push(current);
                current = String::new();
                assert(done.deep_view() =~= before.push(finished));
            } else {
                current.push(c);
                assert(before.push(current@).drop_last() =~= before);
            }
        }
        first = false;
    }
    proof {
        assert(first ==> body =~= Seq::empty());
        assert(!first ==> body.take(s@.len() - skipped) =~= body);
    }
    let ghost before = done.deep_view();
    let ghost last = current@;
    done.push(current);
    assert(done.deep_view() =~= before.push(last));
    done
}

/// Splitting takes a text apart at its separators and loses nothing: there
/// is one part more than there are separators, no part holds a separator,
/// and joining the parts gives the text back.
pub proof fn lemma_split_parts(s: Seq<char>)
    ensures
        split(s).len() == count_separators(s) + 1,
        forall|i: int| 0 <= i < split(s).len() ==> separator_free(#[trigger] split(s)[i]),
        join(split(s)) == s,
    decreases s.len(),
{
    if s.len() > 0 {
        let before = s.drop_last();
        let parts = split(before);
        lemma_split_parts(before);
        if s.last() == '/' {
            assert(split(s).drop_last() =~= parts);
            assert(join(split(s)) =~= s);
        } else {
            assert forall|i: int| 0 <= i < split(s).len() implies separator_free(
                #[trigger] split(s)[i],
            ) by {
                if i < split(s).len() - 1 {
                    assert(split(s)[i] == parts[i]);
                } else {
                    assert(separator_free(parts[parts.len() - 1]));
                }
            }
            if parts.len() == 1 {
                assert(join(split(s)) =~= s);
            } else {
                assert(split(s).drop_last() =~= parts.drop_last());
                assert(join(split(s)) =~= join(parts).push(s.last()));
                assert(join(split(s)) =~= s);
            }
        }
    }
}

/// Text without a separator, added to the end, extends the last part.
pub proof fn lemma_split_append(s: Seq<char>, part: Seq<char>)
    requires
        separator_free(part),
    ensures
        split(s).len() >= 1,
        split(s + part) == split(s).drop_last().push(split(s).last() + part),
    decreases part.len(),
{
    lemma_split_push(s, 'x');
    if part.len() == 0 {
        assert(s + part =~= s);
        assert(split(s).last() + part =~= split(s).last());
        assert(split(s).drop_last().push(split(s).last()) =~= split(s));
    } else {
        let shorter = part.drop_last();
        lemma_split_append(s, shorter);
        lemma_split_push(s + shorter, part.last());
        assert((s + shorter).push(part.last()) =~= s + part);
        assert(shorter.push(part.last()) =~= part);
        let grown = split(s + shorter);
        assert(grown.last().push(part.last()) =~= split(s).last() + part);
        assert(grown.drop_last() =~= split(s).drop_last());
    }
}

/// Splitting undoes joining: parts that hold no separator, joined and split
/// again, are the same parts. So the parts of a text are the only way to
/// write it as separator-free pieces with a `/` between neighbours.
pub proof fn lemma_split_of_join(parts: Seq<Seq<char>>)
    requires
        parts.len() >= 1,
        forall|i: int| 0 <= i < parts.len() ==> separator_free(#[trigger] parts[i]),
    ensures
        split(join(parts)) == parts,
    decreases parts.len(),
{
    if parts.len() == 1 {
        lemma_split_append(Seq::empty(), parts[0]);
        assert(Seq::<char>::empty() + parts[0] =~= parts[0]);
        assert(split(Seq::<char>::empty()).last() + parts[0] =~= parts[0]);
        assert(split(parts[0]) =~= parts);
    } else {
        let front = parts.drop_last();
        assert forall|i: int| 0 <= i < front.len() implies separator_free(#[trigger] front[i]) by {
            assert(front[i] == parts[i]);
        }
        lemma_split_of_join(front);
        lemma_split_push(join(front), '/');
        lemma_split_append(join(front).push('/'), parts.last());
        assert(Seq::<char>::empty() + parts.last() =~= parts.last());
        assert(split(join(parts)) =~= parts);
    }
}

} // verus!

//! Parting a command line into argument sets.

use vstd::prelude::*;
use crate::text::{same_text, set_texts, texts};

verus! {

/// The token that parts one tally request from the next.
pub open spec fn is_separator(token: Seq<char>) -> bool {
    token == "+"@
}

/// The runs of tokens between the separators, in order. A list of tokens with
/// n separators has n + 1 runs, some of which may be empty.
pub open spec fn split_segments(tokens: Seq<Seq<char>>) -> Seq<Seq<Seq<char>>>
    decreases tokens.len(),
{
    if tokens.len() == 0 {
        seq![Seq::empty()]
    } else {
        let before = split_segments(tokens.drop_last());
        if is_separator(tokens.last()) {
            before.push(Seq::empty())
        } else {
            before.drop_last().push(before.last().push(tokens.last()))
        }
    }
}

/// The runs put together again, with a separator between each two.
pub open spec fn join_segments(segments: Seq<Seq<Seq<char>>>) -> Seq<Seq<char>>
    decreases segments.len(),
{
    if segments.len() == 0 {
        Seq::empty()
    } else if segments.len() == 1 {
        segments[0]
    } else {
        join_segments(segments.drop_last()).push("+"@) + segments.last()
    }
}

/// The argument sets of a command line: each run of tokens, with the
/// program's name put in front.
pub open spec fn argument_sets(name: Seq<char>, tokens: Seq<Seq<char>>) -> Seq<Seq<Seq<char>>> {
    Seq::new(
        split_segments(tokens).len(),
        |i: int| seq![name] + split_segments(tokens)[i],
    )
}

/// There is always a run, and no run holds a separator.
pub proof fn lemma_split_segments(tokens: Seq<Seq<char>>)
    ensures
        split_segments(tokens).len() >= 1,
        forall|i: int, j: int|
            0 <= i < split_segments(tokens).len() && 0 <= j < split_segments(tokens)[i].len()
                ==> !is_separator(#[trigger] split_segments(tokens)[i][j]),
    decreases tokens.len(),
{
    if tokens.len() > 0 {
        lemma_split_segments(tokens.drop_last());
    }
}

/// Splitting a list of tokens and joining the runs gives the list back.
pub proof fn lemma_split_then_join(tokens: Seq<Seq<char>>)
    ensures
        join_segments(split_segments(tokens)) == tokens,
    decreases tokens.len(),
{
    if tokens.len() == 0 {
        assert(join_segments(split_segments(tokens)) =~= tokens);
    } else {
        let head = tokens.drop_last();
        let before = split_segments(head);
        lemma_split_segments(head);
        lemma_split_then_join(head);
        if is_separator(tokens.last()) {
            let all = before.push(Seq::empty());
            assert(all.drop_last() =~= before);
            assert(join_segments(all) =~= tokens);
        } else {
            let last = before.last().push(tokens.last());
            let all = before.drop_last().push(last);
            assert(all.drop_last() =~= before.drop_last());
            if before.len() == 1 {
                assert(join_segments(all) =~= tokens);
            } else {
                assert(join_segments(before) == join_segments(before.drop_last()).push("+"@)
                    + before.last());
                assert(join_segments(all) =~= join_segments(before).push(tokens.last()));
                assert(join_segments(all) =~= tokens);
            }
        }
    }
}

/// Every argument set is the program's name followed by one run of the
/// tokens, and the runs, joined again, are the tokens.
pub proof fn lemma_argument_sets_round_trip(name: Seq<char>, tokens: Seq<Seq<char>>)
    ensures
        argument_sets(name, tokens).len() >= 1,
        forall|i: int|
            0 <= i < argument_sets(name, tokens).len() ==> (#[trigger] argument_sets(
                name,
                tokens,
            )[i]).len() >= 1 && argument_sets(name, tokens)[i][0] == name,
        join_segments(
            Seq::new(
                argument_sets(name, tokens).len(),
                |i: int| argument_sets(name, tokens)[i].subrange(
                    1,
                    argument_sets(name, tokens)[i].len() as int,
                ),
            ),
        ) == tokens,
{
    lemma_split_segments(tokens);
    lemma_split_then_join(tokens);
    let sets = argument_sets(name, tokens);
    let tails = Seq::new(sets.len(), |i: int| sets[i].subrange(1, sets[i].len() as int));
    assert forall|i: int| 0 <= i < tails.len() implies tails[i] == split_segments(tokens)[i] by {
        assert(tails[i] =~= split_segments(tokens)[i]);
    }
    assert(tails =~= split_segments(tokens));
}

/// Splits the tokens behind the program's name into argument sets, on every
/// token `+`. Each set opens with the program's name.
pub fn split_argument_sets(name: &String, tokens: &Vec<String>) -> (sets: Vec<Vec<String>>)
    ensures
        set_texts(sets@) == argument_sets(name@, texts(tokens@)),
{
    let mut sets: Vec<Vec<String>> = Vec::new();
    let mut current: Vec<String> = Vec::new();
    current.push(name.clone());
    let mut i: usize = 0;
    proof {
        let none = texts(tokens@).subrange(0, 0);
        assert(none =~= Seq::empty());
        assert(split_segments(none) =~= seq![Seq::empty()]);
        assert(texts(current@) =~= seq![name@] + split_segments(none)[0]);
        assert(set_texts(sets@).push(texts(current@)) =~= argument_sets(name@, none));
    }
    while i < tokens.len()
        invariant
            i <= tokens.len(),
            set_texts(sets@).push(texts(current@)) == argument_sets(
                name@,
                texts(tokens@).subrange(0, i as int),
            ),
        decreases tokens.len() - i,
    {
        let ghost head = texts(tokens@).subrange(0, i as int);
        let ghost next = texts(tokens@).subrange(0, i + 1);
        let ghost before = split_segments(head);
        proof {
            lemma_split_segments(head);
            assert(next.drop_last() =~= head);
            assert(next.last() == tokens@[i as int]@);
            assert(argument_sets(name@, head).len() == before.len());
            assert(set_texts(sets@).len() + 1 == before.len());
            assert(texts(current@) == argument_sets(name@, head)[before.len() - 1]);
            assert forall|k: int| 0 <= k < sets@.len() implies set_texts(sets@)[k] == seq![name@]
                + before[k] by {
                assert(set_texts(sets@).push(texts(current@))[k] == argument_sets(name@, head)[k]);
            }
        }
        if same_text(tokens[i].as_str(), "+") {
            let mut fresh: Vec<String> = Vec::new();
            fresh.push(name.clone());
            let ghost done = texts(current@);
            let ghost old_sets = sets@;
            sets.push(current);
            current = fresh;
            proof {
                let after = split_segments(next);
                assert(after == before.push(Seq::empty()));
                assert(texts(current@) =~= seq![name@] + after[after.len() - 1]);
                let got = set_texts(sets@).push(texts(current@));
                assert(got.len() == argument_sets(name@, next).len());
                assert forall|k: int| 0 <= k < got.len() implies got[k] == argument_sets(
                    name@,
                    next,
                )[k] by {
                    if k < before.len() - 1 {
                        assert(got[k] == set_texts(old_sets)[k]);
                        assert(after[k] == before[k]);
                    } else if k == before.len() - 1 {
                        assert(got[k] == done);
                        assert(after[k] == before[k]);
                    }
                }
                assert(got =~= argument_sets(name@, next));
            }
        } else {
            let ghost was = texts(current@);
            current.push(tokens[i].clone());
            proof {
                let after = split_segments(next);
                assert(after == before.drop_last().push(before.last().push(next.last())));
                assert(texts(current@) =~= was.push(tokens@[i as int]@));
                assert(texts(current@) =~= seq![name@] + after[after.len() - 1]);
                let got = set_texts(sets@).push(texts(current@));
                assert(got.len() == argument_sets(name@, next).len());
                assert forall|k: int| 0 <= k < got.len() implies got[k] == argument_sets(
                    name@,
                    next,
                )[k] by {
                    if k < before.len() - 1 {
                        assert(after[k] == before[k]);
                    }
                }
                assert(got =~= argument_sets(name@, next));
            }
        }
        i += 1;
    }
    assert(texts(tokens@).subrange(0, tokens@.len() as int) =~= texts(tokens@));
    sets.push(current);
    assert(set_texts(sets@) =~= argument_sets(name@, texts(tokens@)));
    sets
}

} // verus!

//! What holds of collapsing the whitespace of a text.

use crate::text::collapsed;
use vstd::prelude::*;

verus! {

/// Which whitespace character stands in a text does not matter: two texts
/// that differ in their whitespace characters alone collapse to the same.
pub proof fn white_space_is_all_one(first: Seq<char>, second: Seq<char>, white: Seq<bool>)
    requires
        first.len() == white.len(),
        second.len() == white.len(),
        forall|i: int| 0 <= i < white.len() && !white[i] ==> first[i] == second[i],
    ensures
        collapsed(first, white) == collapsed(second, white),
    decreases white.len(),
{
    if white.len() > 0 {
        white_space_is_all_one(first.drop_last(), second.drop_last(), white.drop_last());
    }
}

/// One more whitespace character at either end of a text, or next to
/// whitespace, changes nothing: runs collapse and the ends are trimmed.
pub proof fn extra_white_space_changes_nothing(
    text: Seq<char>,
    white: Seq<bool>,
    at: int,
    c: char,
)
    requires
        white.len() == text.len(),
        0 <= at <= text.len(),
        at == 0 || at == text.len() || white[at - 1] || white[at],
    ensures
        collapsed(text.insert(at, c), white.insert(at, true)) == collapsed(text, white),
    decreases text.len(),
{
    let longer = text.insert(at, c);
    let flags = white.insert(at, true);
    if at == text.len() {
        assert(longer.drop_last() =~= text);
        assert(flags.drop_last() =~= white);
    } else {
        assert(longer.drop_last() =~= text.drop_last().insert(at, c));
        assert(flags.drop_last() =~= white.drop_last().insert(at, true));
        assert(longer.last() == text.last());
        assert(flags.last() == white.last());
        extra_white_space_changes_nothing(text.drop_last(), white.drop_last(), at, c);
        if at == text.len() - 1 {
            assert(flags[flags.len() - 2]);
            if at == 0 {
                assert(text.drop_last() =~= Seq::<char>::empty());
            }
        } else {
            assert(flags[flags.len() - 2] == white[white.len() - 2]);
        }
    }
}

} // verus!

//! Whitespace in cell text.

use vstd::prelude::*;
use vstd::std_specs::iter::IteratorSpec;

verus! {

/// Whether `c` counts as whitespace: what `char::is_whitespace` answers for it.
pub uninterp spec fn is_white_space(c: char) -> bool;

/// Calls `char::is_whitespace`. The answer is taken as given: nothing is
/// claimed of which characters are whitespace.
#[verifier::external_body]
fn char_is_whitespace(c: char) -> (r: bool)
    ensures
        r == is_white_space(c),
{
    c.is_whitespace()
}

/// Taken from the documentation of `String::push`, without proof: it appends
/// the character to the end of the string.
pub assume_specification[ std::string::String::push ](s: &mut std::string::String, ch: char)
    ensures
        final(s)@ == old(s)@.push(ch),
;

/// The text with every run of whitespace turned into one space, and with no
/// whitespace at either end, where `white` says of each character whether it
/// is whitespace. Where `white` is not as long as the text, the result is
/// empty.
///
/// Read from the left: whitespace adds nothing; any other character is kept,
/// with one space before it where it follows whitespace and is not the first
/// character kept.
pub open spec fn collapsed(text: Seq<char>, white: Seq<bool>) -> Seq<char>
    decreases text.len(),
{
    if text.len() == 0 || white.len() != text.len() {
        Seq::empty()
    } else {
        let before = collapsed(text.drop_last(), white.drop_last());
        if white.last() {
            before
        } else if before.len() > 0 && text.len() >= 2 && white[text.len() - 2] {
            before.push(' ').push(text.last())
        } else {
            before.push(text.last())
        }
    }
}

/// Which characters of a text are whitespace.
pub open spec fn white_space_of(text: Seq<char>) -> Seq<bool> {
    Seq::new(text.len(), |i: int| is_white_space(text[i]))
}

/// The text with every run of whitespace turned into one space, and with no
/// whitespace at either end.
pub open spec fn normalized(text: Seq<char>) -> Seq<char> {
    collapsed(text, white_space_of(text))
}

/// Collapses every run of whitespace to a single space and trims both ends,
/// where `white` says of each character whether it is whitespace.
pub fn collapse(text: &Vec<char>, white: &Vec<bool>) -> (r: String)
    ensures
        r@ == collapsed(text@, white@),
{
    let mut out = String::new();
    if white.len() != text.len() {
        return out;
    }
    let mut i: usize = 0;
    while i < text.len()
        invariant
            i <= text@.len(),
            white@.len() == text@.len(),
            out@ == collapsed(text@.take(i as int), white@.take(i as int)),
        decreases text@.len() - i,
    {
        proof {
            assert(text@.take(i + 1).drop_last() == text@.take(i as int));
            assert(white@.take(i + 1).drop_last() == white@.take(i as int));
        }
        if !white[i] {
            if i > 0 && white[i - 1] && !out.as_str().is_empty() {
                out.push(' ');
            }
            out.push(text[i]);
        }
        i += 1;
    }
    proof {
        assert(text@.take(i as int) == text@);
        assert(white@.take(i as int) == white@);
    }
    out
}

/// Collapses every run of whitespace to a single space and trims both ends.
pub fn normalize(s: &str) -> (r: String)
    ensures
        r@ == normalized(s@),
{
    let mut text: Vec<char> = Vec::new();
    let mut white: Vec<bool> = Vec::new();
    let chars = s.chars();
    for c in iter: chars
        invariant
            iter.seq() == s@,
            text@ == s@.take(iter.index() as int),
            white@ == white_space_of(s@.take(iter.index() as int)),
    {
        let ghost n = iter.index() as int;
        text.push(c);
        white.push(char_is_whitespace(c));
        proof {
            assert(text@ == s@.take(n + 1));
            assert(white@ =~= white_space_of(s@.take(n + 1)));
        }
    }
    proof {
        assert(s@.take(s@.len() as int) == s@);
    }
    collapse(&text, &white)
}

} // verus!

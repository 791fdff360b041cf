//! Composition of step outputs into one text.
//!
//! Outputs are joined in order, with the round's optional separator character
//! between adjacent entries — never before the first or after the last.

use vstd::prelude::*;

verus! {

/// The text an optional separator contributes between two entries:
/// one character, or nothing.
pub open spec fn separator_text(sep: Option<char>) -> Seq<char> {
    match sep {
        Some(c) => seq![c],
        None => Seq::empty(),
    }
}

/// The texts joined in order with the separator between adjacent entries.
pub open spec fn join_texts(texts: Seq<Seq<char>>, sep: Option<char>) -> Seq<char>
    decreases texts.len(),
{
    if texts.len() == 0 {
        Seq::empty()
    } else if texts.len() == 1 {
        texts[0]
    } else {
        join_texts(texts.drop_last(), sep) + separator_text(sep) + texts.last()
    }
}

/// Extending a join by one entry appends the separator (when the join was
/// over at least one entry) and then the entry.
pub proof fn lemma_join_step(texts: Seq<Seq<char>>, sep: Option<char>, i: int)
    requires
        0 <= i < texts.len(),
    ensures
        join_texts(texts.take(i + 1), sep) == if i == 0 {
            texts[0]
        } else {
            join_texts(texts.take(i), sep) + separator_text(sep) + texts[i]
        },
{
    let pre = texts.take(i + 1);
    assert(pre.drop_last() =~= texts.take(i));
    if i == 0 {
        assert(join_texts(pre, sep) == pre[0]);
    }
}

/// Relies on `String::push`: appends exactly the one character.
#[verifier::external_body]
pub fn push_char(s: &mut String, c: char)
    ensures
        final(s)@ == old(s)@.push(c),
{
    s.push(c);
}

} // verus!

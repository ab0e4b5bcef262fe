//! Pieces of source text and how they are put together.

use vstd::prelude::*;

verus! {

/// `piece` and a space after it, or nothing where `piece` is empty.
pub open spec fn followed(piece: Seq<char>) -> Seq<char> {
    if piece.len() == 0 {
        piece
    } else {
        piece + " "@
    }
}

/// A space and `piece` after it, or nothing where `piece` is empty.
pub open spec fn preceded(piece: Seq<char>) -> Seq<char> {
    if piece.len() == 0 {
        piece
    } else {
        " "@ + piece
    }
}

/// The `parts` in order, with `separator` between each two neighbours.
pub open spec fn joined(parts: Seq<Seq<char>>, separator: Seq<char>) -> Seq<char>
    decreases parts.len(),
{
    if parts.len() == 0 {
        Seq::empty()
    } else if parts.len() == 1 {
        parts[0]
    } else {
        joined(parts.drop_last(), separator) + separator + parts.last()
    }
}

/// The texts held by `parts`.
pub open spec fn texts(parts: Seq<String>) -> Seq<Seq<char>> {
    parts.map_values(|part: String| part@)
}

/// The text of `text`, where there is one.
pub open spec fn text_of(text: Option<String>) -> Option<Seq<char>> {
    match text {
        Some(text) => Some(text@),
        None => None,
    }
}

/// A copy of `text`.
pub(crate) fn clone_text(text: &Option<String>) -> (copy: Option<String>)
    ensures
        text_of(copy) == text_of(*text),
{
    match text {
        Some(text) => Some(text.clone()),
        None => None,
    }
}

/// The texts of a sequence that has grown by one are the texts it had and
/// the text of the newcomer.
pub proof fn lemma_texts_push(parts: Seq<String>, part: String)
    ensures
        texts(parts.push(part)) == texts(parts).push(part@),
{
}

/// Appends `piece` to `out`, and a space where `piece` is not empty.
pub(crate) fn push_followed(out: &mut String, piece: &str)
    ensures
        final(out)@ == old(out)@ + followed(piece@),
{
    if piece.unicode_len() != 0 {
        out.append(piece);
        out.append(" ");
    }
}

/// Appends to `out` a space and `piece`, where `piece` is not empty.
pub(crate) fn push_preceded(out: &mut String, piece: &str)
    ensures
        final(out)@ == old(out)@ + preceded(piece@),
{
    if piece.unicode_len() != 0 {
        out.append(" ");
        out.append(piece);
    }
}

/// Appends the `parts` to `out`, with `separator` between each two.
pub(crate) fn push_joined(out: &mut String, parts: &Vec<String>, separator: &str)
    ensures
        final(out)@ == old(out)@ + joined(texts(parts@), separator@),
{
    let ghost all = texts(parts@);
    let mut i: usize = 0;
    while i < parts.len()
        invariant
            i <= parts.len(),
            all == texts(parts@),
            out@ == old(out)@ + joined(all.take(i as int), separator@),
        decreases parts.len() - i,
    {
        proof {
            let before = all.take(i as int);
            let after = all.take(i + 1);
            assert(after.drop_last() =~= before);
            if i > 0 {
                assert(joined(after, separator@) == joined(before, separator@) + separator@
                    + parts@[i as int]@);
            }
        }
        if i > 0 {
            out.append(separator);
        }
        out.append(parts[i].as_str());
        i = i + 1;
    }
    assert(all.take(parts.len() as int) =~= all);
}

/// `text` written as a string literal of Rust, quotes included, by
/// `proc_macro2::Literal::string`.
///
/// Which characters come out escaped is the choice of that crate and,
/// while a macro is being expanded, of the compiler it hands the text to.
/// Nothing is therefore claimed of the result.
#[verifier::external_body]
pub(crate) fn string_literal(text: &str) -> String {
    proc_macro2::Literal::string(text).to_string()
}

} // verus!

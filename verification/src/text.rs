//! Text that crosses into the native engine.
//!
//! The engine reads its string arguments up to the first NUL character, so a
//! text that holds one would silently be cut short. Every text that the
//! bridges keep is checked here first, and a text with an embedded NUL is
//! turned away with the place where it was found.

use vstd::prelude::*;
use vstd::utf8::{encode_scalar, encode_utf8};

verus! {

/// The texts that a client hands to the native engine.
#[derive(Clone, Copy, Debug, PartialEq, Eq, Structural)]
pub enum TextField {
    AuthKey,
    PublishKey,
    SubscribeKey,
    ClientUuid,
    Channel,
    Group,
    Payload,
}

/// A text was turned away because it holds a NUL character.
#[derive(Clone, Copy, Debug, PartialEq, Eq, Structural)]
pub struct InvalidText {
    /// Which text it was.
    pub field: TextField,
    /// Index of its first NUL character, counted in characters.
    pub position: usize,
}

/// True when `text` holds no NUL character, so that it can be handed to the
/// native engine as a terminated string without being cut short.
pub open spec fn nul_free(text: Seq<char>) -> bool {
    forall|i: int| 0 <= i < text.len() ==> text[i] != '\0'
}

/// True when `at` is the index of the first NUL character of `text`.
pub open spec fn is_first_nul(text: Seq<char>, at: int) -> bool {
    &&& 0 <= at < text.len()
    &&& text[at] == '\0'
    &&& nul_free(text.take(at))
}

/// The index of the first NUL character of a text that has one.
pub open spec fn first_nul(text: Seq<char>) -> int
    recommends
        !nul_free(text),
{
    choose|at: int| is_first_nul(text, at)
}

/// What checking `text` as the given field reports: nothing for a text
/// without NUL, else the field and the index of the first NUL.
pub open spec fn defect(text: Seq<char>, field: TextField) -> Option<InvalidText> {
    if nul_free(text) {
        None
    } else {
        Some(InvalidText { field, position: first_nul(text) as usize })
    }
}

/// The first of two reports, in checking order.
pub open spec fn first_defect(
    earlier: Option<InvalidText>,
    later: Option<InvalidText>,
) -> Option<InvalidText> {
    if earlier is Some {
        earlier
    } else {
        later
    }
}

/// A text has at most one first NUL, and has one exactly when it is not
/// NUL-free.
pub proof fn lemma_first_nul(text: Seq<char>, at: int)
    requires
        is_first_nul(text, at),
    ensures
        !nul_free(text),
        first_nul(text) == at,
{
    let chosen = first_nul(text);
    assert(is_first_nul(text, chosen));
    if chosen < at {
        assert(text.take(at)[chosen] == text[chosen]);
    } else if at < chosen {
        assert(text.take(chosen)[at] == text[at]);
    }
}

/// A text has at most as many characters as its UTF-8 encoding has bytes.
proof fn lemma_chars_within_bytes(text: Seq<char>)
    ensures
        text.len() <= encode_utf8(text).len(),
    decreases text.len(),
{
    if text.len() > 0 {
        assert(encode_scalar(text[0] as u32).len() >= 1);
        lemma_chars_within_bytes(text.drop_first());
    }
}

/// Finds the first NUL character of `text`, counted in characters.
pub fn find_nul(text: &str) -> (found: Option<usize>)
    ensures
        nul_free(text@) <==> found is None,
        found matches Some(at) ==> at == first_nul(text@) && is_first_nul(text@, at as int),
{
    let bytes: usize = text.as_bytes().len();
    proof {
        lemma_chars_within_bytes(text@);
    }
    let mut at: usize = 0;
    for c in it: text.chars()
        invariant
            at == it.index(),
            it.seq() == text@,
            text@.len() <= bytes,
            nul_free(text@.take(at as int)),
    {
        if c == '\0' {
            proof {
                lemma_first_nul(text@, at as int);
            }
            return Some(at);
        }
        at = at + 1;
    }
    assert(text@.take(at as int) == text@);
    None
}

/// Accepts `text` for the given field when it holds no NUL character.
pub fn check_text(text: &str, field: TextField) -> (checked: Result<(), InvalidText>)
    ensures
        checked is Ok <==> nul_free(text@),
        checked matches Err(e) ==> defect(text@, field) == Some(e),
{
    match find_nul(text) {
        Some(position) => Err(InvalidText { field, position }),
        None => Ok(()),
    }
}

} // verus!

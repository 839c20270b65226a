//! Comparisons of texts, character by character.

use vstd::prelude::*;
use vstd::std_specs::iter::IteratorSpec;

verus! {

/// Whether two texts hold the same characters.
pub fn same_text(left: &str, right: &str) -> (same: bool)
    ensures
        same == (left@ == right@),
{
    broadcast use vstd::string::group_string_axioms;

    let mut left_chars = left.chars();
    let mut right_chars = right.chars();
    let ghost mut read: int = 0;
    loop
        invariant
            0 <= read <= left@.len(),
            read <= right@.len(),
            left_chars.obeys_prophetic_iter_laws(),
            right_chars.obeys_prophetic_iter_laws(),
            left_chars.remaining() == left@.skip(read),
            right_chars.remaining() == right@.skip(read),
            left@.take(read) == right@.take(read),
        decreases left@.len() - read,
    {
        match (left_chars.next(), right_chars.next()) {
            (None, None) => {
                assert(left@.take(read) =~= left@);
                assert(right@.take(read) =~= right@);
                return true;
            },
            (Some(l), Some(r)) => {
                if l != r {
                    return false;
                }
                proof {
                    read = read + 1;
                }
            },
            _ => {
                return false;
            },
        }
    }
}

/// What follows `prefix` in `text`, where `text` begins with it.
pub fn after_prefix<'a>(text: &'a str, prefix: &str) -> (rest: Option<&'a str>)
    ensures
        match rest {
            Some(tail) => prefix@.is_prefix_of(text@) && tail@ == text@.skip(prefix@.len() as int),
            None => !prefix@.is_prefix_of(text@),
        },
{
    broadcast use vstd::string::group_string_axioms;

    let mut text_chars = text.chars();
    let mut prefix_chars = prefix.chars();
    let ghost mut read: int = 0;
    loop
        invariant
            0 <= read <= prefix@.len(),
            read <= text@.len(),
            text_chars.obeys_prophetic_iter_laws(),
            prefix_chars.obeys_prophetic_iter_laws(),
            text_chars.remaining() == text@.skip(read),
            prefix_chars.remaining() == prefix@.skip(read),
            text@.take(read) == prefix@.take(read),
        decreases prefix@.len() - read,
    {
        match prefix_chars.next() {
            None => {
                let tail = text.substring_char(prefix.unicode_len(), text.unicode_len());
                return Some(tail);
            },
            Some(expected) => {
                match text_chars.next() {
                    None => {
                        return None;
                    },
                    Some(found) => {
                        if found != expected {
                            return None;
                        }
                        proof {
                            read = read + 1;
                        }
                    },
                }
            },
        }
    }
}

/// Whether `wanted` is one of the characters of `text`.
pub fn has_char(text: &str, wanted: char) -> (found: bool)
    ensures
        found == text@.contains(wanted),
{
    broadcast use vstd::string::group_string_axioms;

    let mut chars = text.chars();
    let ghost mut read: int = 0;
    loop
        invariant
            0 <= read <= text@.len(),
            chars.obeys_prophetic_iter_laws(),
            chars.remaining() == text@.skip(read),
            forall|i: int| 0 <= i < read ==> text@[i] != wanted,
        decreases text@.len() - read,
    {
        match chars.next() {
            None => {
                return false;
            },
            Some(c) => {
                if c == wanted {
                    return true;
                }
                proof {
                    read = read + 1;
                }
            },
        }
    }
}

} // verus!

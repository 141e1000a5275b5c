//! Decoding of property replies whose wire form needs more than a type check.

use vstd::prelude::*;
use crate::wire::{expect_items, expect_str, field_error, str_of, DecodeError, WireValue};

verus! {

/// An optional text as the manager sends it: the empty text stands for none.
pub open spec fn spec_optional_text(s: Seq<char>) -> Option<Seq<char>> {
    if s.len() == 0 {
        None
    } else {
        Some(s)
    }
}

/// Maps the empty text to none and keeps any other text.
pub fn optional_text(s: String) -> (r: Option<String>)
    ensures
        match r {
            Some(t) => spec_optional_text(s@) == Some(t@),
            None => spec_optional_text(s@) is None,
        },
{
    if s.as_str().unicode_len() == 0 {
        None
    } else {
        Some(s)
    }
}

/// Decodes a string wire value whose empty text stands for none, such as
/// the remote host, remote user or terminal of a session.
pub fn decode_optional_text(w: &WireValue) -> (r: Result<Option<String>, DecodeError>)
    ensures
        match str_of(*w) {
            Some(s) => match r {
                Ok(Some(t)) => spec_optional_text(s) == Some(t@),
                Ok(None) => spec_optional_text(s) is None,
                Err(_) => false,
            },
            None => r == Err::<Option<String>, DecodeError>(DecodeError::TypeMismatch),
        },
{
    match expect_str(w) {
        Ok(s) => Ok(optional_text(s.clone())),
        Err(e) => Err(e),
    }
}

/// Decodes an array of strings, such as a list of user names or boot
/// loader entries. An item that is not a string fails with its position.
pub fn decode_texts(w: &WireValue) -> (r: Result<Vec<String>, DecodeError>)
    ensures
        match *w {
            WireValue::Array(items) => match r {
                Ok(ts) => ts@.len() == items@.len() && forall|i: int|
                    0 <= i < ts@.len() ==> str_of(#[trigger] items@[i]) == Some(ts@[i]@),
                Err(e) => exists|i: int|
                    0 <= i < items@.len() && str_of(#[trigger] items@[i]) is None && e
                        == field_error(i) && forall|j: int|
                        0 <= j < i ==> str_of(#[trigger] items@[j]) is Some,
            },
            _ => r == Err::<Vec<String>, DecodeError>(DecodeError::TypeMismatch),
        },
{
    let items = match expect_items(w) {
        Ok(items) => items,
        Err(e) => return Err(e),
    };
    let mut out: Vec<String> = Vec::new();
    let mut i: usize = 0;
    while i < items.len()
        invariant
            *w == WireValue::Array(*items),
            i <= items@.len(),
            out@.len() == i,
            forall|j: int| 0 <= j < i ==> str_of(#[trigger] items@[j]) == Some(out@[j]@),
        decreases items@.len() - i,
    {
        match &items[i] {
            WireValue::Str(s) => out.push(s.clone()),
            _ => {
                assert forall|j: int| 0 <= j < i implies str_of(#[trigger] items@[j]) is Some by {
                    assert(str_of(items@[j]) == Some(out@[j]@));
                }
                return Err(DecodeError::FieldTypeMismatch { index: i });
            },
        }
        i += 1;
    }
    Ok(out)
}

} // verus!

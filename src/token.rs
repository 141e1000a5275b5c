//! Enumerations carried on the wire as fixed lower-case tokens.
//!
//! Decoding trims the text and matches it exactly against the type's token
//! table; a text outside the table decodes to the type's `Invalid` variant.
//! Encoding is defined for every variant but `Invalid`.

use vstd::prelude::*;
use crate::text::{trimmed, trim_text};
use crate::wire::{expect_str, str_of, DecodeError, WireValue};

verus! {

pub trait WireToken: Sized + Copy {
    /// The wire token of a variant; none for the `Invalid` variant.
    spec fn spec_token(self) -> Option<Seq<char>>;

    /// The variant that an exact token names; `Invalid` when none does.
    spec fn spec_parse(t: Seq<char>) -> Self;

    /// Tokens name their own variant and carry no surrounding whitespace.
    proof fn lemma_token_parses(self)
        ensures
            self.spec_token() matches Some(t) ==> trimmed(t) == t && Self::spec_parse(t) == self,
    ;

    /// A text names the variant whose token it is, or else the variant
    /// without a token.
    proof fn lemma_parse_inverse(t: Seq<char>)
        ensures
            match Self::spec_parse(t).spec_token() {
                Some(k) => k == t,
                None => forall|x: Self| #[trigger] x.spec_token() != Some(t),
            },
    ;

    /// The variant named by an already trimmed text.
    fn parse_trimmed(t: &str) -> (r: Self)
        ensures
            r == Self::spec_parse(t@),
    ;

    /// The wire token of this variant, if it has one.
    fn token(&self) -> (r: Option<&'static str>)
        ensures
            match r {
                Some(t) => self.spec_token() == Some(t@),
                None => self.spec_token() is None,
            },
    ;
}

/// The variant that a wire text decodes to.
pub open spec fn spec_from_token<T: WireToken>(s: Seq<char>) -> T {
    T::spec_parse(trimmed(s))
}

/// Decodes a token text: trims it and looks it up.
pub fn from_token<T: WireToken>(s: &str) -> (r: T)
    ensures
        r == spec_from_token::<T>(s@),
{
    let t = trim_text(s);
    T::parse_trimmed(t)
}

/// Decodes a string wire value into a token enumeration.
pub fn decode_token<T: WireToken>(v: &WireValue) -> (r: Result<T, DecodeError>)
    ensures
        match str_of(*v) {
            Some(s) => r == Ok::<T, DecodeError>(spec_from_token::<T>(s)),
            None => r == Err::<T, DecodeError>(DecodeError::TypeMismatch),
        },
{
    match expect_str(v) {
        Ok(s) => Ok(from_token(s.as_str())),
        Err(e) => Err(e),
    }
}

/// Encodes a token enumeration as a string wire value; none for `Invalid`.
pub fn encode_token<T: WireToken>(x: &T) -> (r: Option<WireValue>)
    ensures
        match x.spec_token() {
            Some(t) => r matches Some(w) && str_of(w) == Some(t),
            None => r is None,
        },
{
    match x.token() {
        Some(t) => Some(WireValue::Str(String::from_str(t))),
        None => None,
    }
}

/// Decoding the token of any variant but `Invalid` gives that variant back.
pub proof fn law_token_round_trip<T: WireToken>(x: T)
    requires
        x.spec_token() is Some,
    ensures
        spec_from_token::<T>(x.spec_token()->Some_0) == x,
{
    x.lemma_token_parses();
}

/// A text that, once trimmed, is no variant's token decodes to the variant
/// without a token: the `Invalid` variant. Decoding never fails on text.
pub proof fn law_unknown_token<T: WireToken>(s: Seq<char>)
    requires
        forall|x: T| #[trigger] x.spec_token() != Some(trimmed(s)),
    ensures
        spec_from_token::<T>(s).spec_token() is None,
{
    T::lemma_parse_inverse(trimmed(s));
    let v = spec_from_token::<T>(s);
    if v.spec_token() is Some {
        assert(v.spec_token() != Some(trimmed(s)));
    }
}

/// Decoding the wire value that a variant encodes to gives that variant back.
pub proof fn law_wire_round_trip<T: WireToken>(x: T, w: WireValue)
    requires
        x.spec_token() is Some,
        str_of(w) == x.spec_token(),
    ensures
        str_of(w) matches Some(s) && spec_from_token::<T>(s) == x,
{
    x.lemma_token_parses();
}

} // verus!

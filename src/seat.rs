//! Seat records.

use vstd::prelude::*;
use crate::path::{IntoPath, ObjectPath};
use crate::wire::{decode_labeled, encode_labeled, spec_decode_labeled, DecodeError, WireRecord, WireValue};

verus! {

/// A seat as listed by the manager or named by a session: its label and path.
#[derive(Debug, Clone, PartialEq)]
pub struct SeatPath {
    id: String,
    path: ObjectPath,
}

impl View for SeatPath {
    /// The label and the path's text.
    type V = (Seq<char>, Seq<char>);

    closed spec fn view(&self) -> (Seq<char>, Seq<char>) {
        (self.id@, self.path@)
    }
}

impl SeatPath {
    pub fn id(&self) -> (r: &str)
        ensures
            r@ == self@.0,
    {
        self.id.as_str()
    }

    pub fn path(&self) -> (r: &ObjectPath)
        ensures
            r@ == self@.1,
    {
        &self.path
    }

    /// Encodes this record as the structure `(label, path)`.
    pub fn to_wire(&self) -> (w: WireValue)
        ensures
            Self::spec_decode(w) == Ok::<(Seq<char>, Seq<char>), DecodeError>(self@),
    {
        encode_labeled(&self.id, &self.path)
    }
}

impl WireRecord for SeatPath {
    open spec fn spec_decode(w: WireValue) -> Result<(Seq<char>, Seq<char>), DecodeError> {
        spec_decode_labeled(w)
    }

    fn decode(w: &WireValue) -> (r: Result<Self, DecodeError>) {
        match decode_labeled(w) {
            Ok((id, path)) => Ok(SeatPath { id, path }),
            Err(e) => Err(e),
        }
    }
}

impl IntoPath for SeatPath {
    closed spec fn spec_path(&self) -> Seq<char> {
        self.path@
    }

    fn into_path(&self) -> (r: ObjectPath) {
        self.path.clone()
    }

    fn into_path_ref(&self) -> (r: &ObjectPath) {
        &self.path
    }
}

} // verus!

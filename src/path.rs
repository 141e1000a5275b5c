//! Object paths: the durable handles that name objects on the bus.

use vstd::prelude::*;

verus! {

/// Characters that may stand in an object path.
pub open spec fn is_path_char(c: char) -> bool {
    ('a' <= c && c <= 'z') || ('A' <= c && c <= 'Z') || ('0' <= c && c <= '9') || c == '_' || c
        == '/'
}

/// Object path syntax: a leading `/`, elements of ASCII letters, digits and
/// `_` separated by single slashes, and no trailing slash except for `/` itself.
pub open spec fn valid_object_path(s: Seq<char>) -> bool {
    &&& s.len() > 0
    &&& s[0] == '/'
    &&& (s.len() > 1 ==> s.last() != '/')
    &&& forall|i: int| 0 <= i < s.len() ==> #[trigger] is_path_char(s[i])
    &&& forall|i: int| 1 <= i < s.len() ==> !(#[trigger] s[i] == '/' && s[i - 1] == '/')
}

#[verifier::external_type_specification]
#[verifier::external_body]
pub struct ExZvariantError(zvariant::Error);

/// Relies on `zvariant::OwnedObjectPath::try_from(&str)`, which accepts exactly
/// the texts of valid object path syntax and keeps the text as given.
#[verifier::external_body]
fn parse_object_path(s: &str) -> (r: Result<String, zvariant::Error>)
    ensures
        r is Ok <==> valid_object_path(s@),
        r matches Ok(t) ==> t@ == s@,
{
    match zvariant::OwnedObjectPath::try_from(s) {
        Ok(p) => Ok(p.as_str().to_string()),
        Err(e) => Err(e),
    }
}

/// A syntactically valid object path; equal paths have equal text.
#[derive(Debug, PartialEq, Eq, Hash)]
pub struct ObjectPath {
    text: String,
}

impl ObjectPath {
    /// The path's text.
    pub closed spec fn view(&self) -> Seq<char> {
        self.text@
    }

    #[verifier::type_invariant]
    closed spec fn wf(self) -> bool {
        valid_object_path(self.text@)
    }

    /// Checks the syntax of `s` and keeps it as a path.
    pub fn new(s: &str) -> (r: Option<ObjectPath>)
        ensures
            r is Some <==> valid_object_path(s@),
            r matches Some(p) ==> p@ == s@,
    {
        match parse_object_path(s) {
            Ok(t) => Some(ObjectPath { text: t }),
            Err(_) => None,
        }
    }

    /// The path's text, which has valid syntax.
    pub fn as_str(&self) -> (r: &str)
        ensures
            r@ == self@,
            valid_object_path(r@),
    {
        proof {
            use_type_invariant(self);
        }
        self.text.as_str()
    }
}

/// A record that names an object by its path.
pub trait IntoPath {
    spec fn spec_path(&self) -> Seq<char>;

    /// A copy of the object's path.
    fn into_path(&self) -> (r: ObjectPath)
        ensures
            r@ == self.spec_path(),
    ;

    /// The object's path.
    fn into_path_ref(&self) -> (r: &ObjectPath)
        ensures
            r@ == self.spec_path(),
    ;
}

impl Clone for ObjectPath {
    fn clone(&self) -> (r: Self)
        ensures
            r == *self,
    {
        proof {
            use_type_invariant(self);
        }
        ObjectPath { text: self.text.clone() }
    }
}

} // verus!

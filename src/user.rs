//! User records and user states.

use vstd::prelude::*;
use crate::text::lemma_trimmed_unchanged;
use crate::text::same_text;
use crate::token::WireToken;
use crate::path::{IntoPath, ObjectPath};
use crate::wire::{
    arity_error, decode_labeled, encode_labeled, expect_fields, field_error, path_field, path_of,
    spec_decode_labeled, str_field, str_of, u32_field, u32_of, DecodeError, WireRecord, WireValue,
};

verus! {

/// State of a user. `Invalid` stands for a reply outside the known tokens.
#[derive(Debug, Clone, Copy, PartialEq, Eq, Hash, Structural)]
pub enum UserState {
    Online,
    Offline,
    Lingering,
    Active,
    Closing,
    Invalid,
}

impl WireToken for UserState {
    open spec fn spec_token(self) -> Option<Seq<char>> {
        match self {
            UserState::Online => Some("online"@),
            UserState::Offline => Some("offline"@),
            UserState::Lingering => Some("lingering"@),
            UserState::Active => Some("active"@),
            UserState::Closing => Some("closing"@),
            UserState::Invalid => None,
        }
    }

    open spec fn spec_parse(t: Seq<char>) -> Self {
        if t == "online"@ {
            UserState::Online
        } else if t == "offline"@ {
            UserState::Offline
        } else if t == "lingering"@ {
            UserState::Lingering
        } else if t == "active"@ {
            UserState::Active
        } else if t == "closing"@ {
            UserState::Closing
        } else {
            UserState::Invalid
        }
    }

    proof fn lemma_token_parses(self) {
        reveal_strlit("online");
        reveal_strlit("offline");
        reveal_strlit("lingering");
        reveal_strlit("active");
        reveal_strlit("closing");
        if let Some(t) = self.spec_token() {
            lemma_trimmed_unchanged(t);
        }
    }

    proof fn lemma_parse_inverse(t: Seq<char>) {
    }

    fn parse_trimmed(t: &str) -> (r: Self) {
        if same_text(t, "online") {
            UserState::Online
        } else if same_text(t, "offline") {
            UserState::Offline
        } else if same_text(t, "lingering") {
            UserState::Lingering
        } else if same_text(t, "active") {
            UserState::Active
        } else if same_text(t, "closing") {
            UserState::Closing
        } else {
            UserState::Invalid
        }
    }

    fn token(&self) -> (r: Option<&'static str>) {
        match self {
            UserState::Online => Some("online"),
            UserState::Offline => Some("offline"),
            UserState::Lingering => Some("lingering"),
            UserState::Active => Some("active"),
            UserState::Closing => Some("closing"),
            UserState::Invalid => None,
        }
    }
}

/// A user as named by a session: user id and path.
#[derive(Debug, Clone, PartialEq)]
pub struct User {
    uid: u32,
    path: ObjectPath,
}

impl View for User {
    /// The user id and the path's text.
    type V = (u32, Seq<char>);

    closed spec fn view(&self) -> (u32, Seq<char>) {
        (self.uid, self.path@)
    }
}

impl User {
    pub fn uid(&self) -> (r: u32)
        ensures
            r == self@.0,
    {
        self.uid
    }

    pub fn path(&self) -> (r: &ObjectPath)
        ensures
            r@ == self@.1,
    {
        &self.path
    }

    /// Encodes this record as a structure of its fields in order.
    pub fn to_wire(&self) -> (w: WireValue)
        ensures
            Self::spec_decode(w) == Ok::<(u32, Seq<char>), DecodeError>(self@),
    {
        let mut fs: Vec<WireValue> = Vec::new();
        fs.push(WireValue::U32(self.uid));
        fs.push(WireValue::Path(self.path.clone()));
        WireValue::Struct(fs)
    }
}

impl WireRecord for User {
    open spec fn spec_decode(w: WireValue) -> Result<(u32, Seq<char>), DecodeError> {
        match w {
            WireValue::Struct(fs) => if fs@.len() != 2 {
                Err(arity_error(2, fs@.len() as int))
            } else if u32_of(fs@[0]) is None {
                Err(field_error(0))
            } else if path_of(fs@[1]) is None {
                Err(field_error(1))
            } else {
                Ok((u32_of(fs@[0])->Some_0, path_of(fs@[1])->Some_0))
            },
            _ => Err(DecodeError::TypeMismatch),
        }
    }

    fn decode(w: &WireValue) -> (r: Result<Self, DecodeError>) {
        let fs = match expect_fields(w, 2) {
            Ok(fs) => fs,
            Err(e) => return Err(e),
        };
        let uid = match u32_field(fs, 0) {
            Ok(x) => x,
            Err(e) => return Err(e),
        };
        let path = match path_field(fs, 1) {
            Ok(x) => x,
            Err(e) => return Err(e),
        };
        Ok(User { uid, path })
    }
}

impl IntoPath for User {
    closed spec fn spec_path(&self) -> Seq<char> {
        self.path@
    }

    fn into_path(&self) -> (r: ObjectPath) {
        self.path.clone()
    }

    fn into_path_ref(&self) -> (r: &ObjectPath) {
        &self.path
    }
}

/// A user as the manager lists it: user id, user name and path.
#[derive(Debug, Clone, PartialEq)]
pub struct UserInfo {
    uid: u32,
    name: String,
    path: ObjectPath,
}

impl View for UserInfo {
    /// The user id, the user name and the path's text.
    type V = (u32, Seq<char>, Seq<char>);

    closed spec fn view(&self) -> (u32, Seq<char>, Seq<char>) {
        (self.uid, self.name@, self.path@)
    }
}

impl UserInfo {
    pub fn uid(&self) -> (r: u32)
        ensures
            r == self@.0,
    {
        self.uid
    }

    pub fn name(&self) -> (r: &str)
        ensures
            r@ == self@.1,
    {
        self.name.as_str()
    }

    pub fn path(&self) -> (r: &ObjectPath)
        ensures
            r@ == self@.2,
    {
        &self.path
    }

    /// Encodes this record as a structure of its fields in order.
    pub fn to_wire(&self) -> (w: WireValue)
        ensures
            Self::spec_decode(w) == Ok::<(u32, Seq<char>, Seq<char>), DecodeError>(self@),
    {
        let mut fs: Vec<WireValue> = Vec::new();
        fs.push(WireValue::U32(self.uid));
        fs.push(WireValue::Str(self.name.clone()));
        fs.push(WireValue::Path(self.path.clone()));
        WireValue::Struct(fs)
    }
}

impl WireRecord for UserInfo {
    open spec fn spec_decode(w: WireValue) -> Result<(u32, Seq<char>, Seq<char>), DecodeError> {
        match w {
            WireValue::Struct(fs) => if fs@.len() != 3 {
                Err(arity_error(3, fs@.len() as int))
            } else if u32_of(fs@[0]) is None {
                Err(field_error(0))
            } else if str_of(fs@[1]) is None {
                Err(field_error(1))
            } else if path_of(fs@[2]) is None {
                Err(field_error(2))
            } else {
                Ok((u32_of(fs@[0])->Some_0, str_of(fs@[1])->Some_0, path_of(fs@[2])->Some_0))
            },
            _ => Err(DecodeError::TypeMismatch),
        }
    }

    fn decode(w: &WireValue) -> (r: Result<Self, DecodeError>) {
        let fs = match expect_fields(w, 3) {
            Ok(fs) => fs,
            Err(e) => return Err(e),
        };
        let uid = match u32_field(fs, 0) {
            Ok(x) => x,
            Err(e) => return Err(e),
        };
        let name = match str_field(fs, 1) {
            Ok(x) => x,
            Err(e) => return Err(e),
        };
        let path = match path_field(fs, 2) {
            Ok(x) => x,
            Err(e) => return Err(e),
        };
        Ok(UserInfo { uid, name, path })
    }
}

impl IntoPath for UserInfo {
    closed spec fn spec_path(&self) -> Seq<char> {
        self.path@
    }

    fn into_path(&self) -> (r: ObjectPath) {
        self.path.clone()
    }

    fn into_path_ref(&self) -> (r: &ObjectPath) {
        &self.path
    }
}

/// A session of a user, or the user's display session: its id and path.
#[derive(Debug, Clone, PartialEq)]
pub struct DbusPath {
    id: String,
    path: ObjectPath,
}

impl View for DbusPath {
    /// The label and the path's text.
    type V = (Seq<char>, Seq<char>);

    closed spec fn view(&self) -> (Seq<char>, Seq<char>) {
        (self.id@, self.path@)
    }
}

impl DbusPath {
    pub fn new(id: String, path: ObjectPath) -> (r: DbusPath)
        ensures
            r@ == (id@, path@),
    {
        DbusPath { id, path }
    }

    pub fn id(&self) -> (r: &str)
        ensures
            r@ == self@.0,
    {
        self.id.as_str()
    }

    pub fn path(&self) -> (r: &ObjectPath)
        ensures
            r@ == self@.1,
    {
        &self.path
    }

    /// Encodes this record as the structure `(label, path)`.
    pub fn to_wire(&self) -> (w: WireValue)
        ensures
            Self::spec_decode(w) == Ok::<(Seq<char>, Seq<char>), DecodeError>(self@),
    {
        encode_labeled(&self.id, &self.path)
    }
}

impl WireRecord for DbusPath {
    open spec fn spec_decode(w: WireValue) -> Result<(Seq<char>, Seq<char>), DecodeError> {
        spec_decode_labeled(w)
    }

    fn decode(w: &WireValue) -> (r: Result<Self, DecodeError>) {
        match decode_labeled(w) {
            Ok((id, path)) => Ok(DbusPath { id, path }),
            Err(e) => Err(e),
        }
    }
}

} // verus!

//! Session records, kinds, classes and states.

use vstd::prelude::*;
use crate::text::lemma_trimmed_unchanged;
use crate::text::same_text;
use crate::token::WireToken;
use crate::path::{IntoPath, ObjectPath};
use crate::wire::{
    arity_error, decode_labeled, encode_labeled, expect_fields, field_error, path_field, path_of,
    spec_decode_labeled, str_field, str_of, u32_field, u32_of, DecodeError, WireRecord, WireValue,
};

verus! {

/// Kind of a session. `Invalid` stands for a reply outside the known tokens.
#[derive(Debug, Clone, Copy, PartialEq, Eq, Hash, Structural)]
pub enum SessionType {
    X11,
    Wayland,
    MIR,
    TTY,
    Unspecified,
    Invalid,
}

impl WireToken for SessionType {
    open spec fn spec_token(self) -> Option<Seq<char>> {
        match self {
            SessionType::X11 => Some("x11"@),
            SessionType::Wayland => Some("wayland"@),
            SessionType::MIR => Some("mir"@),
            SessionType::TTY => Some("tty"@),
            SessionType::Unspecified => Some("unspecified"@),
            SessionType::Invalid => None,
        }
    }

    open spec fn spec_parse(t: Seq<char>) -> Self {
        if t == "x11"@ {
            SessionType::X11
        } else if t == "wayland"@ {
            SessionType::Wayland
        } else if t == "mir"@ {
            SessionType::MIR
        } else if t == "tty"@ {
            SessionType::TTY
        } else if t == "unspecified"@ {
            SessionType::Unspecified
        } else {
            SessionType::Invalid
        }
    }

    proof fn lemma_token_parses(self) {
        reveal_strlit("x11");
        reveal_strlit("wayland");
        reveal_strlit("mir");
        reveal_strlit("tty");
        reveal_strlit("unspecified");
        if let Some(t) = self.spec_token() {
            lemma_trimmed_unchanged(t);
        }
    }

    proof fn lemma_parse_inverse(t: Seq<char>) {
    }

    fn parse_trimmed(t: &str) -> (r: Self) {
        if same_text(t, "x11") {
            SessionType::X11
        } else if same_text(t, "wayland") {
            SessionType::Wayland
        } else if same_text(t, "mir") {
            SessionType::MIR
        } else if same_text(t, "tty") {
            SessionType::TTY
        } else if same_text(t, "unspecified") {
            SessionType::Unspecified
        } else {
            SessionType::Invalid
        }
    }

    fn token(&self) -> (r: Option<&'static str>) {
        match self {
            SessionType::X11 => Some("x11"),
            SessionType::Wayland => Some("wayland"),
            SessionType::MIR => Some("mir"),
            SessionType::TTY => Some("tty"),
            SessionType::Unspecified => Some("unspecified"),
            SessionType::Invalid => None,
        }
    }
}

/// Class of a session. `Invalid` stands for a reply outside the known tokens.
#[derive(Debug, Clone, Copy, PartialEq, Eq, Hash, Structural)]
pub enum SessionClass {
    User,
    Greeter,
    LockScreen,
    Invalid,
}

impl WireToken for SessionClass {
    open spec fn spec_token(self) -> Option<Seq<char>> {
        match self {
            SessionClass::User => Some("user"@),
            SessionClass::Greeter => Some("greeter"@),
            SessionClass::LockScreen => Some("lock-screen"@),
            SessionClass::Invalid => None,
        }
    }

    open spec fn spec_parse(t: Seq<char>) -> Self {
        if t == "user"@ {
            SessionClass::User
        } else if t == "greeter"@ {
            SessionClass::Greeter
        } else if t == "lock-screen"@ {
            SessionClass::LockScreen
        } else {
            SessionClass::Invalid
        }
    }

    proof fn lemma_token_parses(self) {
        reveal_strlit("user");
        reveal_strlit("greeter");
        reveal_strlit("lock-screen");
        if let Some(t) = self.spec_token() {
            lemma_trimmed_unchanged(t);
        }
    }

    proof fn lemma_parse_inverse(t: Seq<char>) {
    }

    fn parse_trimmed(t: &str) -> (r: Self) {
        if same_text(t, "user") {
            SessionClass::User
        } else if same_text(t, "greeter") {
            SessionClass::Greeter
        } else if same_text(t, "lock-screen") {
            SessionClass::LockScreen
        } else {
            SessionClass::Invalid
        }
    }

    fn token(&self) -> (r: Option<&'static str>) {
        match self {
            SessionClass::User => Some("user"),
            SessionClass::Greeter => Some("greeter"),
            SessionClass::LockScreen => Some("lock-screen"),
            SessionClass::Invalid => None,
        }
    }
}

/// State of a session. `Invalid` stands for a reply outside the known tokens.
#[derive(Debug, Clone, Copy, PartialEq, Eq, Hash, Structural)]
pub enum SessionState {
    Online,
    Active,
    Closing,
    Invalid,
}

impl WireToken for SessionState {
    open spec fn spec_token(self) -> Option<Seq<char>> {
        match self {
            SessionState::Online => Some("online"@),
            SessionState::Active => Some("active"@),
            SessionState::Closing => Some("closing"@),
            SessionState::Invalid => None,
        }
    }

    open spec fn spec_parse(t: Seq<char>) -> Self {
        if t == "online"@ {
            SessionState::Online
        } else if t == "active"@ {
            SessionState::Active
        } else if t == "closing"@ {
            SessionState::Closing
        } else {
            SessionState::Invalid
        }
    }

    proof fn lemma_token_parses(self) {
        reveal_strlit("online");
        reveal_strlit("active");
        reveal_strlit("closing");
        if let Some(t) = self.spec_token() {
            lemma_trimmed_unchanged(t);
        }
    }

    proof fn lemma_parse_inverse(t: Seq<char>) {
    }

    fn parse_trimmed(t: &str) -> (r: Self) {
        if same_text(t, "online") {
            SessionState::Online
        } else if same_text(t, "active") {
            SessionState::Active
        } else if same_text(t, "closing") {
            SessionState::Closing
        } else {
            SessionState::Invalid
        }
    }

    fn token(&self) -> (r: Option<&'static str>) {
        match self {
            SessionState::Online => Some("online"),
            SessionState::Active => Some("active"),
            SessionState::Closing => Some("closing"),
            SessionState::Invalid => None,
        }
    }
}

/// A session as named by a seat or a user: its id and path.
#[derive(Debug, Clone, PartialEq)]
pub struct SessionPath {
    id: String,
    path: ObjectPath,
}

impl View for SessionPath {
    /// The label and the path's text.
    type V = (Seq<char>, Seq<char>);

    closed spec fn view(&self) -> (Seq<char>, Seq<char>) {
        (self.id@, self.path@)
    }
}

impl SessionPath {
    pub fn id(&self) -> (r: &str)
        ensures
            r@ == self@.0,
    {
        self.id.as_str()
    }

    pub fn path(&self) -> (r: &ObjectPath)
        ensures
            r@ == self@.1,
    {
        &self.path
    }

    /// Encodes this record as the structure `(label, path)`.
    pub fn to_wire(&self) -> (w: WireValue)
        ensures
            Self::spec_decode(w) == Ok::<(Seq<char>, Seq<char>), DecodeError>(self@),
    {
        encode_labeled(&self.id, &self.path)
    }
}

impl WireRecord for SessionPath {
    open spec fn spec_decode(w: WireValue) -> Result<(Seq<char>, Seq<char>), DecodeError> {
        spec_decode_labeled(w)
    }

    fn decode(w: &WireValue) -> (r: Result<Self, DecodeError>) {
        match decode_labeled(w) {
            Ok((id, path)) => Ok(SessionPath { id, path }),
            Err(e) => Err(e),
        }
    }
}

impl IntoPath for SessionPath {
    closed spec fn spec_path(&self) -> Seq<char> {
        self.path@
    }

    fn into_path(&self) -> (r: ObjectPath) {
        self.path.clone()
    }

    fn into_path_ref(&self) -> (r: &ObjectPath) {
        &self.path
    }
}

/// A session as the manager lists it: id, user id, user name, seat label and path.
///
/// Unlike `SessionPath`, which only names a session, a listing carries the
/// user and seat of each session.
#[derive(Debug, Clone, PartialEq)]
pub struct SessionInfo {
    sid: String,
    uid: u32,
    user: String,
    seat: String,
    path: ObjectPath,
}

impl View for SessionInfo {
    /// Session id, user id, user name, seat label and path text.
    type V = (Seq<char>, u32, Seq<char>, Seq<char>, Seq<char>);

    closed spec fn view(&self) -> Self::V {
        (self.sid@, self.uid, self.user@, self.seat@, self.path@)
    }
}

impl SessionInfo {
    pub fn sid(&self) -> (r: &str)
        ensures
            r@ == self@.0,
    {
        self.sid.as_str()
    }

    pub fn uid(&self) -> (r: u32)
        ensures
            r == self@.1,
    {
        self.uid
    }

    pub fn user(&self) -> (r: &str)
        ensures
            r@ == self@.2,
    {
        self.user.as_str()
    }

    pub fn seat(&self) -> (r: &str)
        ensures
            r@ == self@.3,
    {
        self.seat.as_str()
    }

    pub fn path(&self) -> (r: &ObjectPath)
        ensures
            r@ == self@.4,
    {
        &self.path
    }

    /// Encodes this record as the structure `(sid, uid, user, seat, path)`.
    pub fn to_wire(&self) -> (w: WireValue)
        ensures
            Self::spec_decode(w) == Ok::<(Seq<char>, u32, Seq<char>, Seq<char>, Seq<char>), DecodeError>(self@),
    {
        let mut fs: Vec<WireValue> = Vec::new();
        fs.push(WireValue::Str(self.sid.clone()));
        fs.push(WireValue::U32(self.uid));
        fs.push(WireValue::Str(self.user.clone()));
        fs.push(WireValue::Str(self.seat.clone()));
        fs.push(WireValue::Path(self.path.clone()));
        WireValue::Struct(fs)
    }
}

impl WireRecord for SessionInfo {
    open spec fn spec_decode(w: WireValue) -> Result<Self::V, DecodeError> {
        match w {
            WireValue::Struct(fs) => if fs@.len() != 5 {
                Err(arity_error(5, fs@.len() as int))
            } else if str_of(fs@[0]) is None {
                Err(field_error(0))
            } else if u32_of(fs@[1]) is None {
                Err(field_error(1))
            } else if str_of(fs@[2]) is None {
                Err(field_error(2))
            } else if str_of(fs@[3]) is None {
                Err(field_error(3))
            } else if path_of(fs@[4]) is None {
                Err(field_error(4))
            } else {
                Ok(
                    (
                        str_of(fs@[0])->Some_0,
                        u32_of(fs@[1])->Some_0,
                        str_of(fs@[2])->Some_0,
                        str_of(fs@[3])->Some_0,
                        path_of(fs@[4])->Some_0,
                    ),
                )
            },
            _ => Err(DecodeError::TypeMismatch),
        }
    }

    fn decode(w: &WireValue) -> (r: Result<Self, DecodeError>) {
        let fs = match expect_fields(w, 5) {
            Ok(fs) => fs,
            Err(e) => return Err(e),
        };
        let sid = match str_field(fs, 0) {
            Ok(s) => s,
            Err(e) => return Err(e),
        };
        let uid = match u32_field(fs, 1) {
            Ok(n) => n,
            Err(e) => return Err(e),
        };
        let user = match str_field(fs, 2) {
            Ok(s) => s,
            Err(e) => return Err(e),
        };
        let seat = match str_field(fs, 3) {
            Ok(s) => s,
            Err(e) => return Err(e),
        };
        let path = match path_field(fs, 4) {
            Ok(p) => p,
            Err(e) => return Err(e),
        };
        Ok(SessionInfo { sid, uid, user, seat, path })
    }
}

impl IntoPath for SessionInfo {
    closed spec fn spec_path(&self) -> Seq<char> {
        self.path@
    }

    fn into_path(&self) -> (r: ObjectPath) {
        self.path.clone()
    }

    fn into_path_ref(&self) -> (r: &ObjectPath) {
        &self.path
    }
}

/// A device handed to a session controller: its file descriptor and whether
/// the session is inactive, so that the device is paused.
#[derive(Debug, Clone, Copy, PartialEq, Eq, Structural)]
pub struct Device {
    file_descriptor: i32,
    inactive: bool,
}

impl View for Device {
    /// The file descriptor and the inactive flag.
    type V = (i32, bool);

    closed spec fn view(&self) -> (i32, bool) {
        (self.file_descriptor, self.inactive)
    }
}

impl Device {
    pub fn new(file_descriptor: i32, inactive: bool) -> (r: Device)
        ensures
            r@ == (file_descriptor, inactive),
    {
        Device { file_descriptor, inactive }
    }

    pub fn file_descriptor(&self) -> (r: i32)
        ensures
            r == self@.0,
    {
        self.file_descriptor
    }

    pub fn inactive(&self) -> (r: bool)
        ensures
            r == self@.1,
    {
        self.inactive
    }
}

} // verus!

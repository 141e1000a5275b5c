//! The typed facades: each binds one object of the login manager (the
//! manager itself, a seat, a session or a user) and describes the round
//! trips to make on it. Binding makes no remote call; performing a request
//! and decoding its reply are separate steps.

use vstd::prelude::*;
use crate::manager::{all_encodable, join_types, InhibitTypes, Mode, ShutdownType};
use crate::path::{IntoPath, ObjectPath};
use crate::seat::SeatPath;
use crate::token::WireToken;
use crate::time::TimeStamp;
use crate::wire::{str_of, u64_of, WireValue};
use vstd::string::*;

verus! {

/// Where requests go: the service that owns the object, the object's path
/// and the interface whose members are called.
#[derive(Debug, Clone, PartialEq)]
pub struct Target {
    destination: String,
    path: ObjectPath,
    interface: String,
}

impl View for Target {
    /// Service name, path text and interface name.
    type V = (Seq<char>, Seq<char>, Seq<char>);

    closed spec fn view(&self) -> (Seq<char>, Seq<char>, Seq<char>) {
        (self.destination@, self.path@, self.interface@)
    }
}

impl Target {
    pub fn destination(&self) -> (r: &str)
        ensures
            r@ == self@.0,
    {
        self.destination.as_str()
    }

    pub fn path(&self) -> (r: &ObjectPath)
        ensures
            r@ == self@.1,
    {
        &self.path
    }

    pub fn interface(&self) -> (r: &str)
        ensures
            r@ == self@.2,
    {
        self.interface.as_str()
    }
}

/// One round trip on a bound object.
#[derive(Debug, PartialEq)]
pub enum Request {
    /// Calls a method with positional arguments.
    Call { member: String, args: Vec<WireValue> },
    /// Reads a property.
    GetProperty { name: String },
    /// Writes a property.
    SetProperty { name: String, value: WireValue },
}

/// A method call request.
pub fn call_method(member: &str, args: Vec<WireValue>) -> (r: Request)
    ensures
        r matches Request::Call { member: m, args: a } && m@ == member@ && a@ == args@,
{
    Request::Call { member: String::from_str(member), args }
}

/// A property read request.
pub fn get_property(name: &str) -> (r: Request)
    ensures
        r matches Request::GetProperty { name: n } && n@ == name@,
{
    Request::GetProperty { name: String::from_str(name) }
}

/// A property write request.
pub fn set_property(name: &str, value: WireValue) -> (r: Request)
    ensures
        r matches Request::SetProperty { name: n, value: v } && n@ == name@ && v == value,
{
    Request::SetProperty { name: String::from_str(name), value }
}

fn bind(destination: String, path: ObjectPath, interface: &str) -> (r: Target)
    ensures
        r@ == (destination@, path@, interface@),
{
    Target { destination, path, interface: String::from_str(interface) }
}

/// Facade of the manager object.
#[derive(Debug, Clone, PartialEq)]
pub struct ManagerProxy {
    target: Target,
}

impl ManagerProxy {
    /// Binds the manager object at `path` of the service `destination`.
    pub fn new(destination: String, path: ObjectPath) -> (r: ManagerProxy)
        ensures
            r.get_proxy_spec() == (destination@, path@, "org.freedesktop.login1.Manager"@),
    {
        ManagerProxy { target: bind(destination, path, "org.freedesktop.login1.Manager") }
    }

    pub closed spec fn get_proxy_spec(&self) -> (Seq<char>, Seq<char>, Seq<char>) {
        self.target@
    }

    /// The bound object.
    pub fn get_proxy(&self) -> (r: &Target)
        ensures
            r@ == self.get_proxy_spec(),
    {
        &self.target
    }

    /// The `Inhibit` call: takes a lock on `what` in `mode`; none when `what`
    /// holds `Invalid` or the mode is `Invalid`, which have no token.
    pub fn inhibit(&self, what: &InhibitTypes, who: &str, why: &str, mode: Mode) -> (r: Option<
        Request,
    >)
        ensures
            r is Some <==> all_encodable(what@) && mode != Mode::Invalid,
            r matches Some(q) ==> q matches Request::Call { member: m, args: a } && m@
                == "Inhibit"@ && a@.len() == 4 && str_of(a@[0]) == Some(join_types(what@))
                && str_of(a@[1]) == Some(who@) && str_of(a@[2]) == Some(why@) && str_of(a@[3])
                == mode.spec_token(),
    {
        let what_text = match what.to_wire_text() {
            Some(t) => t,
            None => return None,
        };
        let mode_text = match mode.token() {
            Some(t) => t,
            None => return None,
        };
        let mut args: Vec<WireValue> = Vec::new();
        args.push(WireValue::Str(what_text));
        args.push(WireValue::Str(String::from_str(who)));
        args.push(WireValue::Str(String::from_str(why)));
        args.push(WireValue::Str(String::from_str(mode_text)));
        Some(call_method("Inhibit", args))
    }

    /// The `ScheduleShutdown` call for a shutdown of `kind` at `time`; none
    /// when the kind is `Invalid`.
    pub fn schedule_shutdown(&self, kind: ShutdownType, time: TimeStamp) -> (r: Option<Request>)
        ensures
            r is Some <==> kind != ShutdownType::Invalid,
            r matches Some(q) ==> q matches Request::Call { member: m, args: a } && m@
                == "ScheduleShutdown"@ && a@.len() == 2 && str_of(a@[0]) == kind.spec_token()
                && u64_of(a@[1]) == Some(time@),
    {
        let kind_text = match kind.token() {
            Some(t) => t,
            None => return None,
        };
        let mut args: Vec<WireValue> = Vec::new();
        args.push(WireValue::Str(String::from_str(kind_text)));
        args.push(time.to_wire());
        Some(call_method("ScheduleShutdown", args))
    }
}

/// Facade of one seat.
#[derive(Debug, Clone, PartialEq)]
pub struct SeatProxy {
    target: Target,
}

impl SeatProxy {
    /// Binds the seat that `seat` names, at the service `destination`.
    pub fn new(destination: String, seat: &SeatPath) -> (r: SeatProxy)
        ensures
            r.get_proxy_spec() == (destination@, seat@.1, "org.freedesktop.login1.Seat"@),
    {
        SeatProxy { target: bind(destination, seat.path().clone(), "org.freedesktop.login1.Seat") }
    }

    pub closed spec fn get_proxy_spec(&self) -> (Seq<char>, Seq<char>, Seq<char>) {
        self.target@
    }

    /// The bound object.
    pub fn get_proxy(&self) -> (r: &Target)
        ensures
            r@ == self.get_proxy_spec(),
    {
        &self.target
    }
}

/// Facade of one session.
#[derive(Debug, Clone, PartialEq)]
pub struct SessionProxy {
    target: Target,
}

impl SessionProxy {
    /// Binds the session that `session` names, at the service `destination`.
    pub fn new<S: IntoPath>(destination: String, session: &S) -> (r: SessionProxy)
        ensures
            r.get_proxy_spec() == (destination@, session.spec_path(), "org.freedesktop.login1.Session"@),
    {
        SessionProxy {
            target: bind(destination, session.into_path(), "org.freedesktop.login1.Session"),
        }
    }

    pub closed spec fn get_proxy_spec(&self) -> (Seq<char>, Seq<char>, Seq<char>) {
        self.target@
    }

    /// The bound object.
    pub fn get_proxy(&self) -> (r: &Target)
        ensures
            r@ == self.get_proxy_spec(),
    {
        &self.target
    }
}

/// Facade of one user.
#[derive(Debug, Clone, PartialEq)]
pub struct UserProxy {
    target: Target,
}

impl UserProxy {
    /// Binds the user that `user` names, at the service `destination`.
    pub fn new<U: IntoPath>(destination: String, user: &U) -> (r: UserProxy)
        ensures
            r.get_proxy_spec() == (destination@, user.spec_path(), "org.freedesktop.login1.User"@),
    {
        UserProxy { target: bind(destination, user.into_path(), "org.freedesktop.login1.User") }
    }

    pub closed spec fn get_proxy_spec(&self) -> (Seq<char>, Seq<char>, Seq<char>) {
        self.target@
    }

    /// The bound object.
    pub fn get_proxy(&self) -> (r: &Target)
        ensures
            r@ == self.get_proxy_spec(),
    {
        &self.target
    }
}

} // verus!

//! Typed model of the login manager's bus objects: the values it sends over
//! the wire, decoded into sessions, seats, users and inhibitors, and back.

pub mod text;
pub mod path;
pub mod wire;
pub mod token;
pub mod user;
pub mod session;
pub mod manager;
pub mod seat;
pub mod time;
pub mod reply;
pub mod proxy;
